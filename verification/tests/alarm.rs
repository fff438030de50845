use amos_tauri::alarm::{
    arm_device, cancel_device, cancel_reply, check_alarm_capacity, check_alarm_id,
    device_outcome_from_status, open_device_settings, poll_instant, register_reply,
    DeviceOutcome, MAX_ALARM_ENTRIES, MAX_ALARM_ID_BYTES,
};

#[test]
fn device_outcome_from_status_parses_the_glue_status_words() {
    assert_eq!(
        device_outcome_from_status("scheduled"),
        DeviceOutcome::Scheduled
    );
    assert_eq!(
        device_outcome_from_status("cancelled"),
        DeviceOutcome::Cancelled
    );
    assert_eq!(
        device_outcome_from_status("disallowed"),
        DeviceOutcome::Disallowed
    );
    assert_eq!(
        device_outcome_from_status("unavailable"),
        DeviceOutcome::Unavailable
    );
    assert_eq!(device_outcome_from_status("denied"), DeviceOutcome::Denied);
    assert_eq!(
        device_outcome_from_status(""),
        DeviceOutcome::Unknown("the glue answered with an empty status".to_string())
    );
    assert_eq!(
        device_outcome_from_status("something-new"),
        DeviceOutcome::Unknown("something-new".to_string())
    );
    assert_ne!(
        device_outcome_from_status("disallowed"),
        DeviceOutcome::Scheduled
    );
}

#[test]
fn a_host_reports_host_only_for_both_directions() {
    assert_eq!(arm_device("wake", 1_000), DeviceOutcome::HostOnly);
    assert_eq!(cancel_device("wake"), DeviceOutcome::HostOnly);
}

#[test]
fn a_host_cannot_open_an_exact_alarm_settings_screen() {
    let err = open_device_settings().expect_err("a host has no exact-alarm settings screen");
    assert!(err.contains("no exact-alarm settings screen"), "{err}");
}

#[test]
fn check_alarm_id_accepts_real_ids_and_rejects_oversized() {
    for ok in [
        "wake",
        "medication-8h",
        "x".repeat(MAX_ALARM_ID_BYTES).as_str(),
    ] {
        assert!(check_alarm_id(ok).is_ok(), "{ok:?} is a real id");
    }
    assert!(check_alarm_id("").is_err(), "empty id is refused");
    let huge = "x".repeat(MAX_ALARM_ID_BYTES + 1);
    assert!(check_alarm_id(&huge).is_err(), "oversized id is refused");
    assert!(check_alarm_id("wake\0").is_err(), "NUL is refused");
    assert!(check_alarm_id("wake\n").is_err(), "newline is refused");
}

#[test]
fn alarm_id_refusals_carry_their_exact_messages() {
    assert_eq!(
        check_alarm_id("").unwrap_err(),
        "scheduler alarm id invalid: 0 bytes (max 256)"
    );
    let huge = "x".repeat(MAX_ALARM_ID_BYTES + 1);
    assert_eq!(
        check_alarm_id(&huge).unwrap_err(),
        "scheduler alarm id invalid: 257 bytes (max 256)"
    );
    assert_eq!(
        check_alarm_id("a\tb").unwrap_err(),
        "scheduler alarm id contains control characters"
    );
}

#[test]
fn the_capacity_check_refuses_a_new_id_at_the_cap_but_not_a_re_register() {
    assert!(check_alarm_capacity(false, MAX_ALARM_ENTRIES - 1).is_ok());
    let err = check_alarm_capacity(false, MAX_ALARM_ENTRIES).expect_err("at capacity");
    assert!(err.contains("capacity reached"), "{err}");
    assert!(err.contains(&MAX_ALARM_ENTRIES.to_string()), "{err}");
    assert!(err.contains("re-registering an existing id still works"), "{err}");
    assert!(check_alarm_capacity(true, MAX_ALARM_ENTRIES).is_ok());
}

#[test]
fn register_and_cancel_replies_carry_the_device_state() {
    let armed = register_reply("wake".to_string(), 1_000, false, 0).expect("armed");
    assert_eq!(armed.id, "wake");
    assert_eq!(armed.at_ms, 1_000);
    assert_eq!(armed.device, DeviceOutcome::HostOnly);
    assert!(register_reply("".to_string(), 1_000, false, 0).is_err());
    assert!(register_reply("new".to_string(), 1, false, MAX_ALARM_ENTRIES).is_err());
    let c = cancel_reply("wake".to_string(), true).expect("cancelled");
    assert!(c.was_registered);
    assert_eq!(c.device, DeviceOutcome::HostOnly);
    assert!(cancel_reply("bad\n".to_string(), true).is_err());
}

#[test]
fn a_poll_uses_the_callers_instant_else_the_clock() {
    assert_eq!(poll_instant(Some(5), 9), 5);
    assert_eq!(poll_instant(None, 9), 9);
}
