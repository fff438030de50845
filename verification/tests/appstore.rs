use amos_tauri::appstore::{
    check_search_query, csp_preview, installed_name, protocol_headers, refused_reply,
    validate_appstore_id, InstalledEntry, ProtocolReply, MAX_APPSTORE_ID_BYTES,
    MAX_APPSTORE_QUERY_BYTES, MAX_CSP_REPORT_BYTES,
};

#[test]
fn validate_appstore_id_accepts_well_formed_ids() {
    for ok in [
        "org.amos.pomodoro",
        "a",
        "a-b_c.d",
        "com.example.My_App-1",
        "x".repeat(MAX_APPSTORE_ID_BYTES).as_str(),
    ] {
        assert!(
            validate_appstore_id(ok).is_ok(),
            "legitimate id {ok:?} should be accepted"
        );
    }
}

#[test]
fn validate_appstore_id_rejects_path_traversal() {
    for evil in [
        "..",
        "../etc",
        "../etc/passwd",
        "..\\etc\\passwd",
        "../../../root/.ssh",
        "a/b",
        "a\\b",
        "/etc",
        "good/../bad",
        "good/..",
        "good/../bad/x",
    ] {
        assert!(
            validate_appstore_id(evil).is_err(),
            "path-traversal-shaped id {evil:?} must be refused"
        );
    }
}

#[test]
fn validate_appstore_id_rejects_empty_and_oversized() {
    assert!(
        validate_appstore_id("").is_err(),
        "empty id must be refused"
    );
    let huge = "x".repeat(MAX_APPSTORE_ID_BYTES + 1);
    assert!(
        validate_appstore_id(&huge).is_err(),
        "id past MAX_APPSTORE_ID_BYTES must be refused"
    );
    assert!(validate_appstore_id("x\0y").is_err(), "NUL must be refused");
}

#[test]
fn validate_appstore_id_returns_typed_amose_errors() {
    let e = validate_appstore_id("").unwrap_err();
    assert_eq!(e.code(), "amos.appstore.id_empty");

    let huge = "x".repeat(MAX_APPSTORE_ID_BYTES + 1);
    let e = validate_appstore_id(&huge).unwrap_err();
    assert_eq!(e.code(), "amos.appstore.id_too_long");

    let e = validate_appstore_id("../etc/passwd").unwrap_err();
    assert_eq!(e.code(), "amos.appstore.id_invalid");
}

#[test]
fn validate_appstore_id_messages_name_the_problem() {
    assert_eq!(validate_appstore_id("").unwrap_err().message, "appstore id is empty");
    let huge = "x".repeat(MAX_APPSTORE_ID_BYTES + 1);
    assert_eq!(
        validate_appstore_id(&huge).unwrap_err().message,
        "appstore id too long: 129 bytes (max 128)"
    );
    assert_eq!(
        validate_appstore_id("a/b").unwrap_err().message,
        "appstore id is not a valid id: \"a/b\""
    );
    assert_eq!(
        validate_appstore_id("a\\b").unwrap_err().message,
        "appstore id is not a valid id: \"a\\\\b\""
    );
}

#[test]
fn search_queries_are_bounded() {
    assert!(check_search_query("pomodoro").is_ok());
    assert!(check_search_query(&"q".repeat(MAX_APPSTORE_QUERY_BYTES)).is_ok());
    assert_eq!(
        check_search_query(&"q".repeat(MAX_APPSTORE_QUERY_BYTES + 1)).unwrap_err(),
        "appstore search query too long: 257 bytes (max 256)"
    );
}

#[test]
fn installed_name_finds_the_first_entry_with_the_id() {
    let inv = vec![
        InstalledEntry { id: "a".into(), name: "A".into(), size_bytes: None, system: false },
        InstalledEntry { id: "b".into(), name: "B".into(), size_bytes: Some(3), system: false },
        InstalledEntry { id: "b".into(), name: "B2".into(), size_bytes: None, system: false },
    ];
    assert_eq!(installed_name(&inv, "b"), Some("B".to_string()));
    assert_eq!(installed_name(&inv, "c"), None);
}

#[test]
fn a_csp_report_is_cut_at_a_character_boundary() {
    assert_eq!(csp_preview(""), None);
    assert_eq!(csp_preview("short"), Some("short".to_string()));
    // 16383 ASCII bytes then a 3-byte character: the character does not fit.
    let mut report = "a".repeat(MAX_CSP_REPORT_BYTES - 1);
    report.push('€');
    report.push_str("tail");
    let p = csp_preview(&report).expect("non-empty");
    let head = "a".repeat(MAX_CSP_REPORT_BYTES - 1);
    assert_eq!(p, format!("{head}… <truncated 7 bytes>"));
}

fn reply(nosniff: bool, csp: Option<&str>, public: bool) -> ProtocolReply {
    ProtocolReply {
        status: 200,
        content_type: "text/html".into(),
        nosniff,
        body: vec![],
        csp: csp.map(str::to_string),
        public,
    }
}

#[test]
fn only_a_public_reply_carries_the_wildcard_origin() {
    let h = protocol_headers(&reply(true, Some("default-src 'none'"), true));
    assert_eq!(
        h,
        vec![
            ("Content-Type".to_string(), "text/html".to_string()),
            ("X-Content-Type-Options".to_string(), "nosniff".to_string()),
            ("Content-Security-Policy".to_string(), "default-src 'none'".to_string()),
            ("Access-Control-Allow-Origin".to_string(), "*".to_string()),
        ]
    );
    let h = protocol_headers(&reply(true, None, false));
    assert_eq!(h.len(), 2);
    assert!(h.iter().all(|(k, _)| k != "Access-Control-Allow-Origin"));
}

#[test]
fn a_refusal_is_a_plain_text_404_with_its_reason() {
    let r = refused_reply("app is not installed", "default-src 'none'".to_string(), false);
    assert_eq!(r.status, 404);
    assert_eq!(r.content_type, "text/plain; charset=utf-8");
    assert!(r.nosniff);
    assert_eq!(r.body, b"app is not installed\n".to_vec());
    assert_eq!(r.csp.as_deref(), Some("default-src 'none'"));
    assert!(!r.public);
}

#[test]
fn the_inventory_is_sorted_by_id() {
    use_sort();
}

fn use_sort() {
    let e = |id: &str| InstalledEntry { id: id.into(), name: id.to_uppercase(), size_bytes: None, system: false };
    let sorted = amos_tauri::appstore::sort_inventory(vec![
        e("org.amos.pomodoro"),
        e("org.amos.maze"),
        e("org.amos.morse"),
        e("Z"),
        e("éclair"),
    ]);
    let ids: Vec<&str> = sorted.iter().map(|x| x.id.as_str()).collect();
    let mut expected = vec!["org.amos.pomodoro", "org.amos.maze", "org.amos.morse", "Z", "éclair"];
    expected.sort();
    assert_eq!(ids, expected);
    assert_eq!(ids, vec!["Z", "org.amos.maze", "org.amos.morse", "org.amos.pomodoro", "éclair"]);
}

#[test]
fn entries_with_the_same_id_keep_their_order() {
    let e = |id: &str, name: &str| InstalledEntry { id: id.into(), name: name.into(), size_bytes: None, system: false };
    let sorted = amos_tauri::appstore::sort_inventory(vec![
        e("b", "first b"),
        e("a", "only a"),
        e("b", "second b"),
        e("b", "third b"),
    ]);
    let names: Vec<&str> = sorted.iter().map(|x| x.name.as_str()).collect();
    assert_eq!(names, vec!["only a", "first b", "second b", "third b"]);
}
