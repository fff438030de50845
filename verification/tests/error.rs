use amos_tauri::error::{AmosError, ErrorCode, IntoAmosError};

#[test]
fn codes_are_distinct_stability_keys() {
    let codes = [
        ErrorCode::ButtonsUnknown,
        ErrorCode::ButtonsNameTooLong,
        ErrorCode::ButtonsDeliveryFailed,
        ErrorCode::DisplayContractMissing,
        ErrorCode::DisplayWriteFailed,
        ErrorCode::DisplayReadMalformed,
        ErrorCode::FlashlightStoredShapeInvalid,
        ErrorCode::FlashlightProviderUnconfirmed,
        ErrorCode::NetGuardToggleFailed,
        ErrorCode::NetGuardStatusFailed,
        ErrorCode::SensorsUnknownMode,
        ErrorCode::SensorsUnknownKind,
        ErrorCode::SensorsRateOutOfRange,
        ErrorCode::SensorsRpcFailed,
        ErrorCode::TelemetrySpyWatchOpenFailed,
        ErrorCode::TelemetrySpyStreamError,
        ErrorCode::TelemetrySpyEmitFailed,
        ErrorCode::TelephonyNumberTooLong,
        ErrorCode::TelephonyCallIdTooLong,
        ErrorCode::TelephonyRpcFailed,
        ErrorCode::TelephonyWatchOpenFailed,
        ErrorCode::TelephonyWatchStreamError,
        ErrorCode::RadioUnknownKey,
        ErrorCode::RadioAddressInvalid,
        ErrorCode::RadioRpcFailed,
        ErrorCode::RadioNoSystemSurface,
        ErrorCode::SmsBlankId,
        ErrorCode::SmsIdTooLong,
        ErrorCode::SmsUnknownFolder,
        ErrorCode::SmsBlockedSender,
        ErrorCode::SmsTextTooLong,
        ErrorCode::SmsProviderRejected,
        ErrorCode::AiPromptTooLong,
        ErrorCode::AiSessionIdTooLong,
        ErrorCode::AiBackendPayloadTooLong,
        ErrorCode::AiAndroidPackageInvalid,
        ErrorCode::AiRpcFailed,
        ErrorCode::AiBackendSwitchFailed,
        ErrorCode::RagPayloadTooLong,
        ErrorCode::RagRpcFailed,
    ];
    let mut seen = std::collections::HashSet::new();
    for c in codes {
        let s = c.as_str();
        assert!(seen.insert(s), "duplicate code string: {s}");
        assert!(s.starts_with("amos."), "code must be namespaced: {s}");
    }
}

#[test]
fn group_is_the_module_after_the_amos_prefix() {
    assert_eq!(ErrorCode::ButtonsUnknown.group(), "buttons");
    assert_eq!(ErrorCode::NetGuardToggleFailed.group(), "netguard");
    assert_eq!(ErrorCode::SensorsUnknownMode.group(), "sensors");
    assert_eq!(ErrorCode::DisplayContractMissing.group(), "display");
    assert_eq!(ErrorCode::TelemetrySpyEmitFailed.group(), "telemetry_spy");
    assert_eq!(
        ErrorCode::FlashlightStoredShapeInvalid.group(),
        "flashlight"
    );
    assert_eq!(ErrorCode::TelephonyRpcFailed.group(), "telephony");
    assert_eq!(ErrorCode::RadioRpcFailed.group(), "radio");
    assert_eq!(ErrorCode::SmsProviderRejected.group(), "sms");
    assert_eq!(ErrorCode::AiRpcFailed.group(), "ai");
    assert_eq!(ErrorCode::RagRpcFailed.group(), "rag");
}

#[test]
fn into_envelope_preserves_the_underlying_message() {
    let e: AmosError = "rpc failed".into_envelope(ErrorCode::NetGuardToggleFailed);
    assert_eq!(e.code(), "amos.netguard.toggle_failed");
    assert_eq!(e.message, "amos.netguard.toggle_failed");
    assert_eq!(e.cause, vec!["rpc failed".to_string()]);
}

#[test]
fn the_cause_chain_grows_in_order() {
    let e = AmosError::with_cause(ErrorCode::NetGuardStatusFailed, "status", "daemon down");
    let e = e.push_cause("socket closed");
    assert_eq!(e.code(), "amos.netguard.status_failed");
    assert_eq!(e.cause, vec!["daemon down".to_string(), "socket closed".to_string()]);
    let plain = AmosError::new(ErrorCode::ButtonsUnknown, "boop");
    assert_eq!(plain.message, "boop");
    assert!(plain.cause.is_empty());
    assert_eq!(ErrorCode::AppStoreIdInvalid.group(), "appstore");
}
