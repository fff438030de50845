use amos_tauri::ble::{
    ble_read_answer, ble_read_start, biometric_fire_failed, biometric_outcome_reply,
    biometric_prompt_gate, PromptOutcome, ReadAnswer,
    biometric_availability_from_reply, nfc_status_from_reply,
    biometric_authenticate, biometric_available, ble_connect, ble_disconnect,
    ble_discover_services, ble_read, ble_subscribe, ble_unsubscribe, ble_write, nfc_format_tag,
    nfc_read_bytes, nfc_start_dispatch, nfc_status, nfc_stop_dispatch, nfc_write_message,
    BleState,
};

#[test]
fn a_host_answers_honestly_for_every_capability() {
    assert!(!ble_connect("AA:BB".into()).unwrap());
    assert!(ble_discover_services().unwrap().is_empty());
    let r = ble_read("s".into(), "c".into()).unwrap();
    assert!(!r.ok);
    assert_eq!(r.error.as_deref(), Some("BLE not available"));
    let w = ble_write("s".into(), "c".into(), vec![1], true).unwrap();
    assert!(!w.ok);
    let n = nfc_status().unwrap();
    assert!(!n.available);
    assert_eq!(n.state, "no_hardware");
    assert!(nfc_stop_dispatch().unwrap());
    let m = nfc_write_message(vec![]).unwrap();
    assert_eq!(m.error.as_deref(), Some("NFC not available"));
    let b = biometric_available().unwrap();
    assert_eq!(b.kind, "none");
    assert_eq!(b.label, "生物识别");
    let a = biometric_authenticate("pay".into(), false).unwrap();
    assert_eq!(a.error.as_deref(), Some("biometric not available"));
    let s = BleState::new();
    assert!(!s.connected);
    assert!(s.address.is_none());
}

#[test]
fn a_host_has_nothing_to_connect_subscribe_or_dispatch() {
    assert!(!ble_disconnect().unwrap());
    assert!(!ble_subscribe("s".into(), "c".into()).unwrap());
    assert!(!ble_unsubscribe("s".into(), "c".into()).unwrap());
    assert!(!nfc_start_dispatch().unwrap());
    assert!(!nfc_format_tag().unwrap());
    assert_eq!(nfc_read_bytes("tag".into()).unwrap(), None);
}

#[test]
fn the_nfc_reply_is_read_field_by_field_with_defaults() {
    let r = nfc_status_from_reply(Some("{\"available\":true,\"state\":\"enabled\"}".to_string()));
    assert!(r.available);
    assert_eq!(r.state, "enabled");
    let r = nfc_status_from_reply(Some("{\"available\":1}".to_string()));
    assert!(!r.available);
    assert_eq!(r.state, "no_hardware");
    let r = nfc_status_from_reply(Some("not json".to_string()));
    assert!(!r.available);
    assert_eq!(r.state, "no_hardware");
    let r = nfc_status_from_reply(None);
    assert!(!r.available);
    assert_eq!(r.state, "no_hardware");
}

#[test]
fn the_biometric_reply_is_read_field_by_field_with_defaults() {
    let r = biometric_availability_from_reply(Some(
        "{\"kind\":\"fingerprint\",\"enrolled\":true,\"hardware_present\":true}".to_string(),
    ));
    assert_eq!(r.kind, "fingerprint");
    assert_eq!(r.label, "生物识别");
    assert!(r.enrolled);
    assert!(r.hardware_present);
    let r = biometric_availability_from_reply(Some("[".to_string()));
    assert_eq!(r.kind, "none");
    assert!(!r.enrolled && !r.hardware_present);
    let r = biometric_availability_from_reply(None);
    assert_eq!(r.label, "生物识别");
}

#[test]
fn a_gatt_read_is_refused_or_awaited_by_how_it_started() {
    let (r, disarm) = ble_read_start(false, Some(true));
    assert_eq!(r.unwrap().error.as_deref(), Some("JNI glue not installed"));
    assert!(!disarm);
    let (r, disarm) = ble_read_start(true, Some(true));
    assert!(r.is_none() && !disarm);
    let (r, disarm) = ble_read_start(true, Some(false));
    assert_eq!(r.unwrap().error.as_deref(), Some("the platform refused readCharacteristic"));
    assert!(disarm);
    let (r, disarm) = ble_read_start(true, None);
    assert_eq!(r.unwrap().error.as_deref(), Some("BluetoothGattGlue not bound"));
    assert!(disarm);
}

#[test]
fn a_gatt_answer_becomes_the_reply() {
    let (r, disarm) = ble_read_answer(ReadAnswer::Bytes(vec![1, 2]));
    assert!(r.ok && !disarm);
    assert_eq!(r.bytes, Some(vec![1, 2]));
    let (r, disarm) = ble_read_answer(ReadAnswer::Superseded);
    assert_eq!(r.error.as_deref(), Some("this read was superseded by a newer one"));
    assert!(!disarm);
    let (r, disarm) = ble_read_answer(ReadAnswer::TimedOut);
    assert_eq!(
        r.error,
        Some(format!(
            "no read result within {:?} (the GATT read failed or the device did not answer)",
            std::time::Duration::from_secs(5)
        ))
    );
    assert!(disarm);
}

#[test]
fn one_biometric_prompt_at_a_time() {
    assert_eq!(biometric_prompt_gate(false, false).unwrap().error.as_deref(), Some("biometric not initialized"));
    assert_eq!(
        biometric_prompt_gate(true, true).unwrap().error.as_deref(),
        Some("another prompt is already in progress")
    );
    assert!(biometric_prompt_gate(true, false).is_none());
    assert_eq!(biometric_fire_failed().error.as_deref(), Some("biometric not initialized"));
    let (r, rollback) = biometric_outcome_reply(PromptOutcome::Answered {
        ok: true,
        result: Some("success".into()),
        error: None,
    });
    assert!(r.ok && !rollback);
    assert_eq!(r.result.as_deref(), Some("success"));
    let (r, rollback) = biometric_outcome_reply(PromptOutcome::Cancelled);
    assert_eq!(r.error.as_deref(), Some("biometric prompt cancelled"));
    assert!(!rollback);
    let (r, rollback) = biometric_outcome_reply(PromptOutcome::TimedOut);
    assert_eq!(r.error.as_deref(), Some("biometric prompt timed out"));
    assert!(rollback);
}
