use amos_tauri::dock_badge::{
    request_attention_unsupported, sanitize_label, truncate_label, AttentionLevel,
    DockBadgeState, MAX_BADGE_CHARS,
};

#[test]
fn label_is_truncated_to_the_doc_bound() {
    let big = "x".repeat(MAX_BADGE_CHARS * 4);
    let out = truncate_label(&big);
    assert_eq!(out.chars().count(), MAX_BADGE_CHARS);
}

#[test]
fn label_under_the_bound_passes_through() {
    let s = "3";
    let out = truncate_label(s);
    assert_eq!(out, "3");
}

#[test]
fn empty_label_is_handled_as_clear() {
    assert_eq!(sanitize_label(Some("".into())), None);
    assert_eq!(sanitize_label(Some("   ".into())), None);
    assert_eq!(sanitize_label(None), None);
    assert_eq!(sanitize_label(Some("3".into())), Some("3".into()));
    let big = "x".repeat(MAX_BADGE_CHARS * 4);
    let trimmed = sanitize_label(Some(big)).expect("non-empty");
    assert_eq!(trimmed.chars().count(), MAX_BADGE_CHARS);
}

#[test]
fn apply_records_what_it_applied_and_collapses_a_blank_to_no_badge() {
    let mut state = DockBadgeState::new();
    assert_eq!(state.apply(Some("   ".into())), None);
    assert_eq!(state.current(), None);
    assert_eq!(state.apply(Some("3".into())), Some("3".to_string()));
    assert_eq!(state.current(), Some("3".to_string()));
    assert_eq!(state.apply(None), None);
    assert_eq!(state.current(), None);
}

#[test]
fn apply_truncates_through_the_production_path() {
    let mut state = DockBadgeState::new();
    state.apply(Some("x".repeat(MAX_BADGE_CHARS * 3)));
    let stored = state.current().expect("a label was stored");
    assert_eq!(stored.chars().count(), MAX_BADGE_CHARS);
    assert_eq!(stored, "x".repeat(MAX_BADGE_CHARS));
}

#[test]
fn truncation_counts_characters_not_bytes() {
    let s = "通知".repeat(10);
    let out = truncate_label(&s);
    assert_eq!(out.chars().count(), MAX_BADGE_CHARS);
    assert_eq!(out, "通知".repeat(6));
    assert_eq!(sanitize_label(Some(" 12345678901 3".into())), Some("12345678901".into()));
}

#[test]
fn a_platform_without_a_dock_cannot_bounce() {
    assert_eq!(
        request_attention_unsupported(AttentionLevel::Critical).unwrap_err(),
        "unsupported platform"
    );
}
