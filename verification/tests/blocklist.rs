use std::path::Path;

use amos_tauri::blocklist::{
    file_in, filter_threads, filters_sms, request_screening_role, status_of,
};

#[test]
fn the_persistence_file_is_the_one_path_we_always_configure() {
    let p = file_in("/data/user/0/com.amos.ai/files");
    assert_eq!(
        Path::new(&p),
        Path::new("/data/user/0/com.amos.ai/files/blocklist.json")
    );
}

#[test]
fn a_trailing_separator_is_not_doubled() {
    assert_eq!(file_in("/data/"), "/data/blocklist.json");
    assert_eq!(file_in(""), "blocklist.json");
}

#[test]
fn status_reports_the_channels_the_rules_cover() {
    let empty = status_of(false, false);
    assert!(!empty.has_call_rules);
    assert!(!empty.has_sms_rules);
    let sms = status_of(false, true);
    assert!(sms.has_sms_rules);
    assert!(!sms.has_call_rules);
}

#[test]
fn host_status_is_honest_about_the_missing_call_screening_role() {
    let st = status_of(true, true);
    assert!(!st.role_supported);
    assert!(!st.role_held);
    assert!(!st.role_requestable);
    assert!(request_screening_role().is_err());
}

#[test]
fn sms_filtering_is_armed_by_a_rule_or_the_unknown_switch() {
    assert!(!filters_sms(false, false));
    assert!(filters_sms(false, true));
    assert!(filters_sms(true, false));
}

#[test]
fn the_filter_keeps_unblocked_threads_in_order_and_counts_the_rest() {
    let threads = vec!["10086", "1069", "alice", "bob"];
    let blocked = vec![true, false, true, false];
    let (kept, hidden) = filter_threads(threads, &blocked);
    assert_eq!(kept, vec!["1069", "bob"]);
    assert_eq!(hidden, 2);
    let (kept, hidden) = filter_threads(Vec::<u8>::new(), &Vec::new());
    assert!(kept.is_empty());
    assert_eq!(hidden, 0);
}
