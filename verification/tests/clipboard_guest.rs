use amos_tauri::clipboard_guest::{
    guest_msg_step, ingest_outcome, parse_guest_socket, push_text, GuestLinkStats,
    GuestMsgOutcome, GuestMsgStep, GuestToHost,
};
use amos_tauri::guest_link::{status, unsupported_status, ArmedLink};

fn changed(text: &str) -> GuestToHost {
    GuestToHost::ClipboardChanged {
        ts_ms: 1,
        text: text.into(),
    }
}

#[test]
fn handle_ingests_a_real_guest_copy() {
    match guest_msg_step(&changed("from-wechat"), false) {
        GuestMsgStep::Ingest(t) => assert_eq!(t, "from-wechat"),
        other => panic!("expected an ingest, got {other:?}"),
    }
    assert_eq!(ingest_outcome(true), GuestMsgOutcome::Ingested);
    assert!(ingest_outcome(true).ingested());
}

#[test]
fn handle_drops_own_echo() {
    assert!(matches!(
        guest_msg_step(&changed("host-copy"), true),
        GuestMsgStep::Done(GuestMsgOutcome::Echo)
    ));
}

#[test]
fn handle_ignores_ack() {
    assert!(matches!(
        guest_msg_step(&GuestToHost::PushAcked { seq: 1 }, false),
        GuestMsgStep::Done(GuestMsgOutcome::Ack)
    ));
}

#[test]
fn handle_rejects_blank_text() {
    assert!(matches!(
        guest_msg_step(&changed("   "), false),
        GuestMsgStep::Done(GuestMsgOutcome::Blank)
    ));
}

#[test]
fn handle_reports_false_when_ingest_declines() {
    assert_eq!(ingest_outcome(false), GuestMsgOutcome::Refused);
    assert!(!ingest_outcome(false).ingested());
}

#[test]
fn sink_rejects_image_only_payload_and_skips_blank_text() {
    assert!(push_text(None).is_err());
    assert_eq!(push_text(Some("".into())).unwrap(), None);
    assert_eq!(push_text(Some("mirror-me".into())).unwrap(), Some("mirror-me".into()));
}

#[test]
fn the_socket_env_value_is_trimmed_and_blank_means_unset() {
    assert_eq!(parse_guest_socket(None), None);
    assert_eq!(parse_guest_socket(Some("   ")), None);
    assert_eq!(
        parse_guest_socket(Some(" /run/amos/clip.sock ")),
        Some("/run/amos/clip.sock".to_string())
    );
}

#[test]
fn every_counter_moves_only_for_its_own_event() {
    let mut s = GuestLinkStats::new();
    s.record_guest_msg(GuestMsgOutcome::Ingested);
    s.record_guest_msg(GuestMsgOutcome::Echo);
    s.record_guest_msg(GuestMsgOutcome::Blank);
    s.record_guest_msg(GuestMsgOutcome::Refused);
    s.record_guest_msg(GuestMsgOutcome::Ack);
    s.record_push();
    s.record_push_failure();
    s.record_push_refused_unmappable();
    s.record_dial();
    s.record_dial();
    s.record_dial_failure();
    s.record_push_outcome(false, false);
    let v = s.snapshot();
    assert_eq!(v.ingests, 1);
    assert_eq!(v.echoes_dropped, 1);
    assert_eq!(v.blanks_dropped, 1);
    assert_eq!(v.refuses, 1);
    assert_eq!(v.acks, 1);
    assert_eq!(v.pushes, 1);
    assert_eq!(v.push_failures, 1);
    assert_eq!(v.pushes_refused_unmappable, 2);
    assert_eq!(v.dials, 2);
    assert_eq!(v.dial_failures, 1);
    assert_eq!(s.dials(), 2);
    assert_eq!(s.ingests(), 1);
}

#[test]
fn a_disarmed_link_says_why_and_counts_nothing() {
    let st = status(None, None);
    assert!(!st.armed);
    assert_eq!(st.reason, "AMOS_GUEST_CLIPBOARD_SOCKET is not set");
    assert_eq!(st.stats.pushes, 0);
    let st = status(None, Some("/run/x.sock".into()));
    assert_eq!(
        st.reason,
        "AMOS_GUEST_CLIPBOARD_SOCKET names /run/x.sock but the link is not armed (not started, or start failed)"
    );
    let mut stats = GuestLinkStats::new();
    stats.record_push();
    let st = status(
        Some(ArmedLink {
            connected: true,
            socket: "/run/x.sock".into(),
            stats: stats.snapshot(),
        }),
        Some("/run/x.sock".into()),
    );
    assert!(st.armed && st.connected);
    assert_eq!(st.socket.as_deref(), Some("/run/x.sock"));
    assert_eq!(st.reason, "");
    assert_eq!(st.stats.pushes, 1);
    assert_eq!(unsupported_status().reason, "guest clipboard transport is unix-only");
}
