use amos_tauri::daemon::{channel_token, pick_transport, Transport, DEFAULT_TCP_ADDR};

#[test]
fn tcp_addr_env_wins_then_the_build_default_then_the_socket() {
    assert_eq!(
        pick_transport(Some(" 10.0.0.2:9000 "), false),
        Transport::Tcp("10.0.0.2:9000".into())
    );
    assert_eq!(
        pick_transport(Some("  "), true),
        Transport::Tcp(DEFAULT_TCP_ADDR.into())
    );
    assert_eq!(pick_transport(None, false), Transport::Unix);
}

#[test]
fn token_is_attached_when_configured() {
    assert_eq!(channel_token(Some("s3cret")).as_deref(), Some("s3cret"));
}

#[test]
fn absent_or_blank_token_attaches_nothing() {
    for raw in [None, Some(""), Some("   "), Some("\t\n")] {
        assert!(channel_token(raw).is_none(), "blank token {raw:?} must attach nothing");
    }
}
