use amos_tauri::ai_bridge::{
    legacy_surface_label, merge_system_selection, persist_cloud_key_reporting,
};
use amos_tauri::clipboard::GlobalClipboard;

#[test]
fn target_system_context_wins_over_global_clipboard() {
    // The selection the "notes" window attached for the "ai" window.
    let attached = Some("attached selection");
    let mut clip = GlobalClipboard::new();
    clip.write_plain("browser", "browser", "last copied").unwrap();
    assert_eq!(
        merge_system_selection(attached, &clip).as_deref(),
        Some("attached selection")
    );
}

#[test]
fn empty_system_context_falls_back_to_global_clipboard() {
    let mut clip = GlobalClipboard::new();
    clip.write_plain("browser", "browser", "last copied").unwrap();
    assert_eq!(
        merge_system_selection(None, &clip).as_deref(),
        Some("last copied")
    );
}

#[test]
fn empty_everything_injects_nothing() {
    let clip = GlobalClipboard::new();
    assert_eq!(merge_system_selection(None, &clip), None);
}

#[test]
fn legacy_label_from_successful_launch() {
    assert_eq!(
        legacy_surface_label(true, "waydroid_com.tencent.mm"),
        Some("legacy:waydroid_com.tencent.mm".to_string())
    );
}

#[test]
fn legacy_label_none_when_container_launch_failed() {
    assert_eq!(legacy_surface_label(false, ""), None);
    assert_eq!(legacy_surface_label(false, "waydroid_x"), None);
}

#[test]
fn legacy_label_none_when_success_has_no_window_id() {
    assert_eq!(legacy_surface_label(true, ""), None);
}

#[test]
fn a_cloud_key_that_cannot_be_persisted_is_reported_not_swallowed() {
    assert!(persist_cloud_key_reporting(Some(Ok(()))).is_none());
    let warned = persist_cloud_key_reporting(Some(Err(
        "cannot write /tmp/x/ai.key: Is a directory".to_string(),
    )))
    .expect("a failed persist must produce a user-visible warning");
    assert!(
        warned.starts_with('⚠') && warned.contains("cannot write"),
        "{warned}"
    );
    let none = persist_cloud_key_reporting(None).expect("warning");
    assert!(none.contains("NOT persisted"), "{none}");
}

use amos_tauri::ai_bridge::{
    card_payload, env_override, fan_out, is_cloud_provider, key_source, launch_result,
    prefixed_prompt, provider_id, spawn_failure_report, stored_key, switch_report, KeySource,
    ReplyEvent, RpcRetry, UiEmit,
};

fn ev(token: &str, done: bool) -> ReplyEvent {
    ReplyEvent {
        token: token.to_string(),
        done,
        card: None,
    }
}

#[test]
fn a_daemon_call_retries_once_after_reconnecting() {
    let mut r = RpcRetry::new();
    assert!(r.retry_after_failure(), "the first failure retries");
    assert!(!r.retry_after_failure(), "the second failure gives up");
}

#[test]
fn a_reply_fans_out_tokens_cards_and_the_completion_once() {
    let card = card_payload(
        "weather".into(),
        "Today".into(),
        "".into(),
        vec![("temp".into(), "21".into())],
        vec![],
    );
    let empty_card = card_payload("".into(), "".into(), "".into(), vec![], vec![]);
    let events = vec![
        ev("he", false),
        ReplyEvent { token: "llo".into(), done: false, card: Some(empty_card) },
        ReplyEvent { token: String::new(), done: true, card: Some(card) },
        ev("ignored", true),
    ];
    let out = fan_out("s1", events);
    assert_eq!(out.len(), 5);
    assert!(matches!(&out[0], UiEmit::Token(t) if t == "he"));
    assert!(matches!(&out[1], UiEmit::Token(t) if t == "llo"));
    assert!(matches!(&out[2], UiEmit::Card(c) if c.kind() == "weather"));
    assert!(matches!(&out[3], UiEmit::SessionComplete { session, text } if session == "s1" && text == "hello"));
    assert!(matches!(&out[4], UiEmit::ChatComplete));
    assert!(fan_out("s1", vec![]).is_empty());
}

#[test]
fn a_chat_prompt_carries_the_attached_selection_first() {
    assert_eq!(
        prefixed_prompt(Some("sel".into()), "ask".into()),
        "[系统上下文] sel\n\nask"
    );
    assert_eq!(prefixed_prompt(None, "ask".into()), "ask");
}

#[test]
fn a_launch_registers_a_label_only_for_a_real_window() {
    let r = launch_result(true, "waydroid_x".into(), "".into());
    assert_eq!(r.window_label, "legacy:waydroid_x");
    let r = launch_result(false, "".into(), "boom".into());
    assert_eq!(r.window_label, "");
    assert_eq!(r.error, "boom");
}

#[test]
fn the_backend_switch_decides_cloud_and_keys() {
    assert!(!is_cloud_provider(" local "));
    assert!(!is_cloud_provider("mock"));
    assert!(!is_cloud_provider("ollama"));
    assert!(is_cloud_provider("deepseek"));
    assert_eq!(provider_id(" openai\n"), "openai");
    assert_eq!(key_source(true, "sk"), KeySource::GivenAndPersisted);
    assert_eq!(key_source(true, ""), KeySource::Stored);
    assert_eq!(key_source(false, ""), KeySource::Given);
    assert_eq!(stored_key(" sk-1\n"), "sk-1");
    assert_eq!(env_override(Some("  ".into())), None);
    assert_eq!(env_override(Some(" gpt ".into())), Some("gpt".into()));
    assert_eq!(env_override(None), None);
}

#[test]
fn the_switch_report_keeps_the_persistence_warning() {
    assert_eq!(switch_report(true, " started\n", "", None).unwrap(), "started");
    assert_eq!(
        switch_report(true, "started", "", Some("⚠ w".into())).unwrap(),
        "started\n⚠ w"
    );
    assert_eq!(
        switch_report(false, "out", "err\n", None).unwrap_err(),
        "out\nerr"
    );
    assert_eq!(
        spawn_failure_report("/x/ai-backend.sh", "not found", Some("⚠ w".into())).unwrap_err(),
        "failed to run /x/ai-backend.sh: not found\n⚠ w"
    );
}
