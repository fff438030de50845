use amos_tauri::clipboard::{clipboard_clear, clipboard_history, clipboard_read, clipboard_write};
use amos_tauri::clipboard::{
    foreground_label, require_foreground, ClipboardPayload, GlobalClipboard, WindowRef,
    WmSnapshot, HISTORY_LIMIT,
};

fn test_clip() -> GlobalClipboard {
    GlobalClipboard::new()
}

#[test]
fn text_write_read_round_trip() {
    let mut c = test_clip();
    let e = c.write_plain("notes", "notes", "hello world").unwrap();
    assert_eq!(e.seq, 1);
    assert_eq!(e.source, "notes");
    assert_eq!(e.owner, "notes");
    assert_eq!(c.latest_text().as_deref(), Some("hello world"));
    assert_eq!(c.by_seq(1), Some(e));
}

#[test]
fn newest_is_on_top_and_history_is_most_recent_first() {
    let mut c = test_clip();
    c.write_plain("a", "a", "first").unwrap();
    c.write_plain("b", "b", "second").unwrap();
    assert_eq!(c.latest_text().as_deref(), Some("second"));
    let h = c.history(None);
    assert_eq!(h.len(), 2);
    assert_eq!(h[0].plain_text().as_deref(), Some("second"));
    assert_eq!(h[1].plain_text().as_deref(), Some("first"));
}

#[test]
fn redundant_same_copy_is_coalesced_not_appended() {
    let mut c = test_clip();
    c.write_plain("a", "a", "dup").unwrap();
    c.write_plain("a", "a", "dup").unwrap();
    assert_eq!(c.history(None).len(), 1, "identical top copy coalesced");
    assert_eq!(c.by_seq(2).unwrap().seq, 2, "still advances the seq");
}

#[test]
fn history_is_bounded() {
    let mut c = test_clip();
    for i in 0..(HISTORY_LIMIT + 10) {
        c.write_plain("a", "a", &format!("item-{i}")).unwrap();
    }
    let h = c.history(None);
    assert_eq!(h.len(), HISTORY_LIMIT);
    assert_eq!(h[0].plain_text().as_deref(), Some("item-41"));
}

#[test]
fn html_keeps_plain_fallback_and_image_has_no_text() {
    let mut c = test_clip();
    c.write(
        "a",
        "a",
        ClipboardPayload::Html {
            html: "<b>hi</b>".to_string(),
            plain: "hi".to_string(),
        },
    )
    .unwrap();
    assert_eq!(c.latest_text().as_deref(), Some("hi"));

    c.write(
        "a",
        "a",
        ClipboardPayload::Image {
            mime: "image/png".to_string(),
            data_b64: "aGVsbG8=".to_string(), // "hello"
        },
    )
    .unwrap();
    let img = c.latest().unwrap();
    assert_eq!(img.plain_text(), None, "image has no text");
    assert_eq!(img.image_bytes().unwrap(), b"hello");
}

#[test]
fn validation_rejects_bad_payloads() {
    let mut c = test_clip();
    assert!(c.write_plain("a", "a", "   ").is_err(), "blank text");
    assert!(
        c.write(
            "a",
            "a",
            ClipboardPayload::Uris {
                uris: vec![],
                text: String::new(),
            }
        )
        .is_err(),
        "empty uris"
    );
    assert!(
        c.write(
            "a",
            "a",
            ClipboardPayload::Image {
                mime: "".to_string(),
                data_b64: "aGVsbG8=".to_string(),
            }
        )
        .is_err(),
        "image without mime"
    );
    assert!(c.history(None).is_empty());
}

#[test]
fn clear_empties_history() {
    let mut c = test_clip();
    c.write_plain("a", "a", "x").unwrap();
    c.write_plain("b", "b", "y").unwrap();
    assert_eq!(c.clear(), 2);
    assert!(c.latest().is_none());
}

#[test]
fn image_bytes_on_non_image_is_err() {
    let mut c = test_clip();
    c.write_plain("a", "a", "text").unwrap();
    let entry = c.latest().unwrap();
    assert!(entry.image_bytes().is_err());
}

/// A window manager with the launcher (`main`) focused and a background
/// `settings` window, as a freshly started shell has it.
fn fresh_wm() -> WmSnapshot {
    WmSnapshot {
        focused: Some(1),
        windows: vec![
            WindowRef { id: 1, label: "main".to_string() },
            WindowRef { id: 2, label: "settings".to_string() },
        ],
    }
}

#[test]
fn foreground_grants_read_to_focused_launcher() {
    let wm = fresh_wm();
    assert_eq!(foreground_label(&wm).unwrap(), "main");
    assert!(require_foreground(&wm, "main").is_ok());
}

#[test]
fn background_window_is_denied_read() {
    let wm = fresh_wm();
    assert!(
        require_foreground(&wm, "settings").is_err(),
        "non-focused window must not read the clipboard"
    );
}

#[test]
fn a_denied_read_names_the_caller_and_the_foreground() {
    let wm = fresh_wm();
    let err = require_foreground(&wm, "settings").unwrap_err();
    assert_eq!(
        err,
        "clipboard read denied: 'settings' is not the foreground window (foreground='main')"
    );
    let unfocused = WmSnapshot { focused: None, windows: vec![] };
    assert_eq!(
        foreground_label(&unfocused).unwrap_err(),
        "clipboard read denied: no focused window"
    );
    let untracked = WmSnapshot { focused: Some(9), windows: vec![] };
    assert_eq!(
        foreground_label(&untracked).unwrap_err(),
        "clipboard read denied: focused window not tracked"
    );
}

#[test]
fn uris_render_their_text_or_the_joined_list() {
    let with_text = ClipboardPayload::Uris {
        uris: vec!["file:///a".to_string()],
        text: "attachment".to_string(),
    };
    assert_eq!(with_text.plain_text().as_deref(), Some("attachment"));
    let no_text = ClipboardPayload::Uris {
        uris: vec!["file:///a".to_string(), "file:///b".to_string()],
        text: "  ".to_string(),
    };
    assert_eq!(no_text.plain_text().as_deref(), Some("file:///a\nfile:///b"));
    assert_eq!(no_text.mime(), Some("text/uri-list"));
}

#[test]
fn every_refusal_rule_has_its_message() {
    let p = ClipboardPayload::Uris { uris: vec![" ".to_string()], text: String::new() };
    assert_eq!(p.validate().unwrap_err(), "clipboard uris must not be empty");
    let p = ClipboardPayload::Html { html: " ".to_string(), plain: String::new() };
    assert_eq!(p.validate().unwrap_err(), "clipboard html must not be empty");
    let p = ClipboardPayload::Image { mime: "image/png".to_string(), data_b64: "!!".to_string() };
    assert!(p.validate().unwrap_err().starts_with("clipboard image base64 invalid"));
    let p = ClipboardPayload::Image { mime: "image/png".to_string(), data_b64: String::new() };
    assert_eq!(p.validate().unwrap_err(), "clipboard image payload is empty");
    let big = "x".repeat(1048577);
    let p = ClipboardPayload::Text { text: big };
    assert_eq!(p.validate().unwrap_err(), "clipboard text exceeds 1048576 bytes");
}

#[test]
fn the_commands_gate_reads_on_the_foreground_window() {
    let mut clip = GlobalClipboard::new();
    let (e, notice) = clipboard_write(
        &mut clip,
        "notes",
        ClipboardPayload::Text { text: "hello".into() },
        None,
    )
    .unwrap();
    assert_eq!(e.source, "notes");
    assert_eq!(notice.seq, e.seq);
    let wm = WmSnapshot {
        focused: Some(1),
        windows: vec![
            WindowRef { id: 1, label: "main".into() },
            WindowRef { id: 2, label: "settings".into() },
        ],
    };
    assert_eq!(
        clipboard_read(&clip, &wm, "main", None).unwrap().unwrap().plain_text(),
        Some("hello".to_string())
    );
    assert!(clipboard_read(&clip, &wm, "settings", None).is_err());
    assert_eq!(clipboard_history(&clip, &wm, "main", Some(5)).unwrap().len(), 1);
    assert!(clipboard_clear(&mut clip, &wm, "settings").is_err());
    assert_eq!(clipboard_clear(&mut clip, &wm, "main").unwrap(), 1);
    assert!(clipboard_read(&clip, &wm, "main", None).unwrap().is_none());
}

#[test]
fn undecodable_image_messages_carry_the_engine_error() {
    let p = ClipboardPayload::Image { mime: "image/png".to_string(), data_b64: "!!!!".to_string() };
    assert_eq!(
        p.validate().unwrap_err(),
        "clipboard image base64 invalid: Invalid symbol 33, offset 0."
    );
    assert_eq!(
        p.image_bytes().unwrap_err(),
        "clipboard image base64 decode failed: Invalid symbol 33, offset 0."
    );
}

#[test]
fn non_image_payload_is_named_in_the_error() {
    let p = ClipboardPayload::Text { text: "hi".to_string() };
    assert_eq!(p.image_bytes().unwrap_err(), "not an image payload: Text { text: \"hi\" }");
}

#[test]
fn refused_write_answers_with_the_refusal_and_keeps_state() {
    let mut c = test_clip();
    c.write_plain("a", "a", "kept").unwrap();
    let err = c.write_plain("b", "b", "   ").unwrap_err();
    assert_eq!(err, "clipboard text must not be empty");
    assert_eq!(c.last_seq(), 1);
    assert_eq!(c.latest_text().as_deref(), Some("kept"));
    assert_eq!(c.write_plain("b", "b", "next").unwrap().seq, 2);
}

#[test]
fn non_image_payloads_render_every_field_in_the_error() {
    let p = ClipboardPayload::Uris { uris: vec!["a".to_string(), "b\"c".to_string()], text: "t".to_string() };
    assert_eq!(
        p.image_bytes().unwrap_err(),
        "not an image payload: Uris { uris: [\"a\", \"b\\\"c\"], text: \"t\" }"
    );
    let p = ClipboardPayload::Uris { uris: vec![], text: String::new() };
    assert_eq!(p.image_bytes().unwrap_err(), "not an image payload: Uris { uris: [], text: \"\" }");
    let p = ClipboardPayload::Html { html: "<b>".to_string(), plain: "b".to_string() };
    assert_eq!(
        p.image_bytes().unwrap_err(),
        "not an image payload: Html { html: \"<b>\", plain: \"b\" }"
    );
}

#[test]
fn a_command_write_takes_the_next_sequence_number() {
    let mut c = test_clip();
    let (e1, _) = clipboard_write(&mut c, "notes", ClipboardPayload::Text { text: "a".into() }, None).unwrap();
    let (e2, n2) = clipboard_write(&mut c, "notes", ClipboardPayload::Text { text: "b".into() }, None).unwrap();
    assert_eq!(e1.seq, 1);
    assert_eq!(e2.seq, 2);
    assert_eq!(n2.seq, 2);
    assert_eq!(c.last_seq(), 2);
}
