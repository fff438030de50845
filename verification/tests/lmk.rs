use amos_tauri::lmk::{
    action_to_host, applied_outcome, debug_action, debug_request, parse_debug_action,
    surface_payload, trigger_outcome, victim_outcome, HostAction, LmkDebugAction,
    LmkDebugRequest, LmkEvent, LmkEventKind, LmkVictim,
};
use amos_tauri::watch_backoff::{next_backoff_ms, WATCH_BACKOFF_BASE_MS, WATCH_BACKOFF_MAX_MS};

fn event(kind: LmkEventKind, window: &str) -> LmkEvent {
    LmkEvent {
        package_name: "com.tencent.mm".into(),
        window_id: window.into(),
        kind,
    }
}

#[test]
fn reclaimed_and_destroyed_close_the_surface() {
    for (kind, expected) in [
        (LmkEventKind::Reclaimed, "reclaimed"),
        (LmkEventKind::Destroyed, "destroyed"),
    ] {
        let p = surface_payload(&event(kind, "waydroid_x"));
        assert!(p.close_surface, "{expected} must tear down the surface");
        assert_eq!(p.kind, expected);
        assert_eq!(p.window_id, "waydroid_x");
    }
}

#[test]
fn frozen_and_thawed_do_not_close() {
    for (kind, expected) in [
        (LmkEventKind::Frozen, "frozen"),
        (LmkEventKind::Thawed, "thawed"),
    ] {
        let p = surface_payload(&event(kind, "waydroid_x"));
        assert!(!p.close_surface, "{expected} keeps the surface");
        assert_eq!(p.kind, expected);
    }
}

#[test]
fn unknown_kind_is_benign() {
    let p = surface_payload(&event(LmkEventKind::Unspecified, "waydroid_x"));
    assert!(!p.close_surface);
    assert_eq!(p.kind, "unknown");
}

#[test]
fn parses_debug_actions_and_rejects_unknown() {
    assert_eq!(
        parse_debug_action("trigger"),
        Some(LmkDebugAction::TriggerCritical)
    );
    assert_eq!(
        parse_debug_action("apply_reclaim"),
        Some(LmkDebugAction::ApplyReclaim)
    );
    assert_eq!(
        parse_debug_action("freeze"),
        Some(LmkDebugAction::ApplyFreeze)
    );
    assert_eq!(parse_debug_action(""), None);
    assert_eq!(parse_debug_action("nuke"), None);
}

#[test]
fn backoff_doubles_and_is_capped_on_failed_connects() {
    assert_eq!(next_backoff_ms(4000, false), WATCH_BACKOFF_MAX_MS);
    assert_eq!(next_backoff_ms(8000, true), WATCH_BACKOFF_BASE_MS);
}

#[test]
fn backoff_resets_to_base_after_a_successful_connect() {
    assert_eq!(
        next_backoff_ms(WATCH_BACKOFF_MAX_MS, true),
        WATCH_BACKOFF_BASE_MS
    );
}

#[test]
fn backoff_doubles_below_the_cap() {
    assert_eq!(next_backoff_ms(WATCH_BACKOFF_BASE_MS, false), 2 * WATCH_BACKOFF_BASE_MS);
    assert_eq!(next_backoff_ms(WATCH_BACKOFF_MAX_MS, false), WATCH_BACKOFF_MAX_MS);
}

#[test]
fn maps_debug_actions_to_host_actions() {
    assert_eq!(
        action_to_host(LmkDebugAction::ApplyFreeze),
        Some(HostAction::Freeze)
    );
    assert_eq!(
        action_to_host(LmkDebugAction::ApplyThaw),
        Some(HostAction::Thaw)
    );
    assert_eq!(
        action_to_host(LmkDebugAction::ApplyReclaim),
        Some(HostAction::Reclaim)
    );
    assert_eq!(action_to_host(LmkDebugAction::TriggerCritical), None);
}

#[test]
fn maps_lmk_victims_to_serializable_rows() {
    let v = LmkVictim {
        package_name: "com.tencent.mm".into(),
        window_id: "waydroid_3".into(),
        killed: true,
    };
    let o = victim_outcome(&v);
    assert_eq!(o.package_name, "com.tencent.mm");
    assert_eq!(o.window_id, "waydroid_3");
    assert!(o.killed);
}

#[test]
fn debug_requests_and_answers() {
    assert_eq!(
        debug_action("nuke").unwrap_err(),
        "unknown lmk debug action 'nuke'"
    );
    let act = debug_action("freeze").unwrap();
    assert_eq!(
        debug_request(act, "freeze", None, None).unwrap_err(),
        "lmk debug 'freeze' requires a package_name"
    );
    match debug_request(act, "freeze", Some("com.x".into()), None).unwrap() {
        LmkDebugRequest::Apply { package_name, action } => {
            assert_eq!(package_name, "com.x");
            assert_eq!(action, HostAction::Freeze);
        }
        other => panic!("expected Apply, got {other:?}"),
    }
    match debug_request(LmkDebugAction::TriggerCritical, "trigger", None, None).unwrap() {
        LmkDebugRequest::Trigger { budget } => assert_eq!(budget, 1),
        other => panic!("expected Trigger, got {other:?}"),
    }
    assert_eq!(applied_outcome("com.x").note, "applied host decision to com.x");
    let victims = vec![
        LmkVictim { package_name: "a".into(), window_id: "w1".into(), killed: true },
        LmkVictim { package_name: "b".into(), window_id: "w2".into(), killed: false },
    ];
    let out = trigger_outcome(&victims);
    assert_eq!(out.victims.len(), 2);
    assert_eq!(out.victims[1].package_name, "b");
    assert_eq!(out.note, "trigger_lmk returned 2 victim(s)");
}
