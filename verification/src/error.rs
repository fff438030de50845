//! Typed error envelope shared across the System UI core.
//!
//! A failure carries a **stable code** the UI can branch on and a
//! human-readable message the UI should not parse, plus an optional cause
//! chain. The code is the contract; the message may change without notice.
use vstd::prelude::*;

use crate::desktop_entry::find_from;
use crate::text::chars_of;

verus! {

/// The stable failure codes. Each renders as `amos.<group>.<leaf>`.
#[derive(Debug, Clone, Copy, PartialEq, Eq, Hash, Structural)]
pub enum ErrorCode {
    ButtonsUnknown,
    ButtonsNameTooLong,
    ButtonsDeliveryFailed,
    DisplayContractMissing,
    DisplayWriteFailed,
    DisplayReadMalformed,
    FlashlightStoredShapeInvalid,
    FlashlightProviderUnconfirmed,
    NetGuardToggleFailed,
    NetGuardStatusFailed,
    SensorsUnknownMode,
    SensorsUnknownKind,
    SensorsRateOutOfRange,
    SensorsRpcFailed,
    TelemetrySpyWatchOpenFailed,
    TelemetrySpyStreamError,
    TelemetrySpyEmitFailed,
    /// Caller-supplied number exceeds the telephony dial-string cap.
    TelephonyNumberTooLong,
    /// Caller-supplied call id exceeds the telephony call-id cap.
    TelephonyCallIdTooLong,
    /// Any telephony RPC failed (daemon unreachable / rejected).
    TelephonyRpcFailed,
    /// The long-lived telephony `Watch` stream could not be opened.
    TelephonyWatchOpenFailed,
    /// A `Watch` event could not be read off the stream.
    TelephonyWatchStreamError,
    /// Caller asked for a radio key the bridge does not know.
    RadioUnknownKey,
    /// The Bluetooth MAC address passed to pairing is empty or too long.
    RadioAddressInvalid,
    /// Any radio / Bluetooth provider call failed.
    RadioRpcFailed,
    /// A settings surface was asked for a switch this app owns itself.
    RadioNoSystemSurface,
    /// Caller passed a blank thread id / message id / address to an SMS command.
    SmsBlankId,
    /// Caller passed an SMS id or address over the size cap.
    SmsIdTooLong,
    /// Caller passed an unknown folder name (`inbox` | `sent` | `draft` only).
    SmsUnknownFolder,
    /// Caller asked for messages from a sender the blocklist blocks for SMS.
    SmsBlockedSender,
    /// An SMS text body exceeds its byte cap.
    SmsTextTooLong,
    /// The SMS provider rejected the read / send.
    SmsProviderRejected,
    /// Caller passed a `prompt` / `context` string over the prompt byte cap.
    AiPromptTooLong,
    /// Caller passed a `session_id` over the session-id byte cap.
    AiSessionIdTooLong,
    /// Caller passed an `api_key` / `model` / `endpoint` string over its byte cap.
    AiBackendPayloadTooLong,
    /// Caller passed an Android `package_name` that is empty or over the cap.
    AiAndroidPackageInvalid,
    /// Any AI / Android-manager RPC failed.
    AiRpcFailed,
    /// The AI backend switch script could not be invoked or completed.
    AiBackendSwitchFailed,
    /// A RAG id / text / query string is over its byte cap.
    RagPayloadTooLong,
    /// Any RAG RPC failed.
    RagRpcFailed,
    /// An app-store id is empty.
    AppStoreIdEmpty,
    /// An app-store id is over its byte cap.
    AppStoreIdTooLong,
    /// An app-store id holds a path separator, NUL or a `..` segment.
    AppStoreIdInvalid,
}

/// The wire string of a code.
pub open spec fn code_str(c: ErrorCode) -> Seq<char> {
    match c {
        ErrorCode::ButtonsUnknown => "amos.buttons.unknown"@,
        ErrorCode::ButtonsNameTooLong => "amos.buttons.name_too_long"@,
        ErrorCode::ButtonsDeliveryFailed => "amos.buttons.delivery_failed"@,
        ErrorCode::DisplayContractMissing => "amos.display.contract_missing"@,
        ErrorCode::DisplayWriteFailed => "amos.display.write_failed"@,
        ErrorCode::DisplayReadMalformed => "amos.display.read_malformed"@,
        ErrorCode::FlashlightStoredShapeInvalid => "amos.flashlight.stored_shape_invalid"@,
        ErrorCode::FlashlightProviderUnconfirmed => "amos.flashlight.provider_unconfirmed"@,
        ErrorCode::NetGuardToggleFailed => "amos.netguard.toggle_failed"@,
        ErrorCode::NetGuardStatusFailed => "amos.netguard.status_failed"@,
        ErrorCode::SensorsUnknownMode => "amos.sensors.unknown_mode"@,
        ErrorCode::SensorsUnknownKind => "amos.sensors.unknown_kind"@,
        ErrorCode::SensorsRateOutOfRange => "amos.sensors.rate_out_of_range"@,
        ErrorCode::SensorsRpcFailed => "amos.sensors.rpc_failed"@,
        ErrorCode::TelemetrySpyWatchOpenFailed => "amos.telemetry_spy.watch_open_failed"@,
        ErrorCode::TelemetrySpyStreamError => "amos.telemetry_spy.stream_error"@,
        ErrorCode::TelemetrySpyEmitFailed => "amos.telemetry_spy.emit_failed"@,
        ErrorCode::TelephonyNumberTooLong => "amos.telephony.number_too_long"@,
        ErrorCode::TelephonyCallIdTooLong => "amos.telephony.call_id_too_long"@,
        ErrorCode::TelephonyRpcFailed => "amos.telephony.rpc_failed"@,
        ErrorCode::TelephonyWatchOpenFailed => "amos.telephony.watch_open_failed"@,
        ErrorCode::TelephonyWatchStreamError => "amos.telephony.watch_stream_error"@,
        ErrorCode::RadioUnknownKey => "amos.radio.unknown_key"@,
        ErrorCode::RadioAddressInvalid => "amos.radio.address_invalid"@,
        ErrorCode::RadioRpcFailed => "amos.radio.rpc_failed"@,
        ErrorCode::RadioNoSystemSurface => "amos.radio.no_system_surface"@,
        ErrorCode::SmsBlankId => "amos.sms.blank_id"@,
        ErrorCode::SmsIdTooLong => "amos.sms.id_too_long"@,
        ErrorCode::SmsUnknownFolder => "amos.sms.unknown_folder"@,
        ErrorCode::SmsBlockedSender => "amos.sms.blocked_sender"@,
        ErrorCode::SmsTextTooLong => "amos.sms.text_too_long"@,
        ErrorCode::SmsProviderRejected => "amos.sms.provider_rejected"@,
        ErrorCode::AiPromptTooLong => "amos.ai.prompt_too_long"@,
        ErrorCode::AiSessionIdTooLong => "amos.ai.session_id_too_long"@,
        ErrorCode::AiBackendPayloadTooLong => "amos.ai.backend_payload_too_long"@,
        ErrorCode::AiAndroidPackageInvalid => "amos.ai.android_package_invalid"@,
        ErrorCode::AiRpcFailed => "amos.ai.rpc_failed"@,
        ErrorCode::AiBackendSwitchFailed => "amos.ai.backend_switch_failed"@,
        ErrorCode::RagPayloadTooLong => "amos.rag.payload_too_long"@,
        ErrorCode::RagRpcFailed => "amos.rag.rpc_failed"@,
        ErrorCode::AppStoreIdEmpty => "amos.appstore.id_empty"@,
        ErrorCode::AppStoreIdTooLong => "amos.appstore.id_too_long"@,
        ErrorCode::AppStoreIdInvalid => "amos.appstore.id_invalid"@,
    }
}

/// The group of a code string: the segment after `amos.` up to the next
/// `.` (the whole string when it lacks the `amos.` prefix).
pub open spec fn group_of(s: Seq<char>) -> Seq<char> {
    if s.len() >= 5 && s.take(5) == "amos."@ {
        let rest = s.skip(5);
        rest.take(find_from(rest, '.', 0))
    } else {
        s
    }
}

impl ErrorCode {
    /// Every code, in declaration order.
    pub open spec fn all() -> Seq<ErrorCode> {
        seq![
        ErrorCode::ButtonsUnknown,
        ErrorCode::ButtonsNameTooLong,
        ErrorCode::ButtonsDeliveryFailed,
        ErrorCode::DisplayContractMissing,
        ErrorCode::DisplayWriteFailed,
        ErrorCode::DisplayReadMalformed,
        ErrorCode::FlashlightStoredShapeInvalid,
        ErrorCode::FlashlightProviderUnconfirmed,
        ErrorCode::NetGuardToggleFailed,
        ErrorCode::NetGuardStatusFailed,
        ErrorCode::SensorsUnknownMode,
        ErrorCode::SensorsUnknownKind,
        ErrorCode::SensorsRateOutOfRange,
        ErrorCode::SensorsRpcFailed,
        ErrorCode::TelemetrySpyWatchOpenFailed,
        ErrorCode::TelemetrySpyStreamError,
        ErrorCode::TelemetrySpyEmitFailed,
        ErrorCode::TelephonyNumberTooLong,
        ErrorCode::TelephonyCallIdTooLong,
        ErrorCode::TelephonyRpcFailed,
        ErrorCode::TelephonyWatchOpenFailed,
        ErrorCode::TelephonyWatchStreamError,
        ErrorCode::RadioUnknownKey,
        ErrorCode::RadioAddressInvalid,
        ErrorCode::RadioRpcFailed,
        ErrorCode::RadioNoSystemSurface,
        ErrorCode::SmsBlankId,
        ErrorCode::SmsIdTooLong,
        ErrorCode::SmsUnknownFolder,
        ErrorCode::SmsBlockedSender,
        ErrorCode::SmsTextTooLong,
        ErrorCode::SmsProviderRejected,
        ErrorCode::AiPromptTooLong,
        ErrorCode::AiSessionIdTooLong,
        ErrorCode::AiBackendPayloadTooLong,
        ErrorCode::AiAndroidPackageInvalid,
        ErrorCode::AiRpcFailed,
        ErrorCode::AiBackendSwitchFailed,
        ErrorCode::RagPayloadTooLong,
        ErrorCode::RagRpcFailed,
        ErrorCode::AppStoreIdEmpty,
        ErrorCode::AppStoreIdTooLong,
        ErrorCode::AppStoreIdInvalid
        ]
    }

    /// The wire string of this code.
    pub fn as_str(self) -> (r: &'static str)
        ensures
            r@ == code_str(self),
    {
        match self {
            ErrorCode::ButtonsUnknown => "amos.buttons.unknown",
            ErrorCode::ButtonsNameTooLong => "amos.buttons.name_too_long",
            ErrorCode::ButtonsDeliveryFailed => "amos.buttons.delivery_failed",
            ErrorCode::DisplayContractMissing => "amos.display.contract_missing",
            ErrorCode::DisplayWriteFailed => "amos.display.write_failed",
            ErrorCode::DisplayReadMalformed => "amos.display.read_malformed",
            ErrorCode::FlashlightStoredShapeInvalid => "amos.flashlight.stored_shape_invalid",
            ErrorCode::FlashlightProviderUnconfirmed => "amos.flashlight.provider_unconfirmed",
            ErrorCode::NetGuardToggleFailed => "amos.netguard.toggle_failed",
            ErrorCode::NetGuardStatusFailed => "amos.netguard.status_failed",
            ErrorCode::SensorsUnknownMode => "amos.sensors.unknown_mode",
            ErrorCode::SensorsUnknownKind => "amos.sensors.unknown_kind",
            ErrorCode::SensorsRateOutOfRange => "amos.sensors.rate_out_of_range",
            ErrorCode::SensorsRpcFailed => "amos.sensors.rpc_failed",
            ErrorCode::TelemetrySpyWatchOpenFailed => "amos.telemetry_spy.watch_open_failed",
            ErrorCode::TelemetrySpyStreamError => "amos.telemetry_spy.stream_error",
            ErrorCode::TelemetrySpyEmitFailed => "amos.telemetry_spy.emit_failed",
            ErrorCode::TelephonyNumberTooLong => "amos.telephony.number_too_long",
            ErrorCode::TelephonyCallIdTooLong => "amos.telephony.call_id_too_long",
            ErrorCode::TelephonyRpcFailed => "amos.telephony.rpc_failed",
            ErrorCode::TelephonyWatchOpenFailed => "amos.telephony.watch_open_failed",
            ErrorCode::TelephonyWatchStreamError => "amos.telephony.watch_stream_error",
            ErrorCode::RadioUnknownKey => "amos.radio.unknown_key",
            ErrorCode::RadioAddressInvalid => "amos.radio.address_invalid",
            ErrorCode::RadioRpcFailed => "amos.radio.rpc_failed",
            ErrorCode::RadioNoSystemSurface => "amos.radio.no_system_surface",
            ErrorCode::SmsBlankId => "amos.sms.blank_id",
            ErrorCode::SmsIdTooLong => "amos.sms.id_too_long",
            ErrorCode::SmsUnknownFolder => "amos.sms.unknown_folder",
            ErrorCode::SmsBlockedSender => "amos.sms.blocked_sender",
            ErrorCode::SmsTextTooLong => "amos.sms.text_too_long",
            ErrorCode::SmsProviderRejected => "amos.sms.provider_rejected",
            ErrorCode::AiPromptTooLong => "amos.ai.prompt_too_long",
            ErrorCode::AiSessionIdTooLong => "amos.ai.session_id_too_long",
            ErrorCode::AiBackendPayloadTooLong => "amos.ai.backend_payload_too_long",
            ErrorCode::AiAndroidPackageInvalid => "amos.ai.android_package_invalid",
            ErrorCode::AiRpcFailed => "amos.ai.rpc_failed",
            ErrorCode::AiBackendSwitchFailed => "amos.ai.backend_switch_failed",
            ErrorCode::RagPayloadTooLong => "amos.rag.payload_too_long",
            ErrorCode::RagRpcFailed => "amos.rag.rpc_failed",
            ErrorCode::AppStoreIdEmpty => "amos.appstore.id_empty",
            ErrorCode::AppStoreIdTooLong => "amos.appstore.id_too_long",
            ErrorCode::AppStoreIdInvalid => "amos.appstore.id_invalid",
        }
    }

    /// The module group of this code (`amos.buttons.unknown` is `buttons`).
    pub fn group(self) -> (r: &'static str)
        ensures
            r@ == group_of(code_str(self)),
    {
        let s = self.as_str();
        let v = chars_of(s);
        let prefix = chars_of("amos.");
        proof {
            reveal_strlit("amos.");
        }
        if v.len() < 5 || !crate::text::chars_eq(&v, 0, 5, &prefix) {
            proof {
                assert(v@.subrange(0, 5) =~= v@.take(5));
            }
            return s;
        }
        proof {
            assert(v@.subrange(0, 5) =~= v@.take(5));
        }
        let dot = crate::desktop_entry::find_char(&v, '.', 5);
        proof {
            let rest = v@.skip(5);
            crate::desktop_entry::lemma_find_from_bounds(v@, '.', 5);
            crate::desktop_entry::lemma_find_from_bounds(rest, '.', 0);
            lemma_find_shift(v@, '.', 5, 0);
            assert(v@.subrange(5, dot as int) =~= rest.take(dot - 5));
        }
        s.substring_char(5, dot)
    }
}

/// Searching a suffix is searching the text from the suffix's start.
proof fn lemma_find_shift(s: Seq<char>, c: char, k: int, from: int)
    requires
        0 <= k <= s.len(),
        0 <= from,
    ensures
        find_from(s.skip(k), c, from) + k == find_from(s, c, from + k),
    decreases s.len() - k - from,
{
    if from < s.len() - k {
        assert(s.skip(k)[from] == s[from + k]);
        if s[from + k] != c {
            lemma_find_shift(s, c, k, from + 1);
        }
    }
}

/// A short fingerprint of a code string: its length and two characters.
spec fn fingerprint(s: Seq<char>) -> (nat, char, char) {
    (s.len(), s[14], if s.len() > 22 { s[22] } else { '\0' })
}

/// The fingerprint of each code's wire string.
spec fn fingerprint_of(c: ErrorCode) -> (nat, char, char) {
    match c {
        ErrorCode::ButtonsUnknown => (20, 'n', '\0'),
        ErrorCode::ButtonsNameTooLong => (26, 'a', 'l'),
        ErrorCode::ButtonsDeliveryFailed => (28, 'e', 'f'),
        ErrorCode::DisplayContractMissing => (29, 'o', 'm'),
        ErrorCode::DisplayWriteFailed => (25, 'r', 'l'),
        ErrorCode::DisplayReadMalformed => (27, 'e', 'o'),
        ErrorCode::FlashlightStoredShapeInvalid => (36, 't', '_'),
        ErrorCode::FlashlightProviderUnconfirmed => (36, 't', 'e'),
        ErrorCode::NetGuardToggleFailed => (27, 't', 'a'),
        ErrorCode::NetGuardStatusFailed => (27, 's', 'a'),
        ErrorCode::SensorsUnknownMode => (25, 'n', 'o'),
        ErrorCode::SensorsUnknownKind => (25, 'n', 'i'),
        ErrorCode::SensorsRateOutOfRange => (30, 'a', 'o'),
        ErrorCode::SensorsRpcFailed => (23, 'p', 'd'),
        ErrorCode::TelemetrySpyWatchOpenFailed => (36, '_', 'c'),
        ErrorCode::TelemetrySpyStreamError => (31, '_', 'e'),
        ErrorCode::TelemetrySpyEmitFailed => (30, '_', 't'),
        ErrorCode::TelephonyNumberTooLong => (30, '.', 't'),
        ErrorCode::TelephonyCallIdTooLong => (31, '.', '_'),
        ErrorCode::TelephonyRpcFailed => (25, '.', 'l'),
        ErrorCode::TelephonyWatchOpenFailed => (32, '.', 'p'),
        ErrorCode::TelephonyWatchStreamError => (33, '.', 't'),
        ErrorCode::RadioUnknownKey => (22, 'n', '\0'),
        ErrorCode::RadioAddressInvalid => (26, 'r', 'a'),
        ErrorCode::RadioRpcFailed => (21, '_', '\0'),
        ErrorCode::RadioNoSystemSurface => (28, 's', 'u'),
        ErrorCode::SmsBlankId => (17, '_', '\0'),
        ErrorCode::SmsIdTooLong => (20, 'o', '\0'),
        ErrorCode::SmsUnknownFolder => (23, 'w', 'r'),
        ErrorCode::SmsBlockedSender => (23, 'e', 'r'),
        ErrorCode::SmsTextTooLong => (22, 't', '\0'),
        ErrorCode::SmsProviderRejected => (26, 'd', 'c'),
        ErrorCode::AiPromptTooLong => (23, '_', 'g'),
        ErrorCode::AiSessionIdTooLong => (27, 'n', '_'),
        ErrorCode::AiBackendPayloadTooLong => (32, 'd', 'd'),
        ErrorCode::AiAndroidPackageInvalid => (31, 'd', 'e'),
        ErrorCode::AiRpcFailed => (18, 'i', '\0'),
        ErrorCode::AiBackendSwitchFailed => (29, 'd', '_'),
        ErrorCode::RagPayloadTooLong => (25, 'a', 'o'),
        ErrorCode::RagRpcFailed => (19, 'a', '\0'),
        ErrorCode::AppStoreIdEmpty => (22, 'i', '\0'),
        ErrorCode::AppStoreIdTooLong => (25, 'i', 'o'),
        ErrorCode::AppStoreIdInvalid => (24, 'i', 'i'),
    }
}

/// The code a fingerprint belongs to.
spec fn code_of_fingerprint(k: (nat, char, char)) -> ErrorCode {
    if k == (20nat, 'n', '\0') {
        ErrorCode::ButtonsUnknown
    } else if k == (26nat, 'a', 'l') {
        ErrorCode::ButtonsNameTooLong
    } else if k == (28nat, 'e', 'f') {
        ErrorCode::ButtonsDeliveryFailed
    } else if k == (29nat, 'o', 'm') {
        ErrorCode::DisplayContractMissing
    } else if k == (25nat, 'r', 'l') {
        ErrorCode::DisplayWriteFailed
    } else if k == (27nat, 'e', 'o') {
        ErrorCode::DisplayReadMalformed
    } else if k == (36nat, 't', '_') {
        ErrorCode::FlashlightStoredShapeInvalid
    } else if k == (36nat, 't', 'e') {
        ErrorCode::FlashlightProviderUnconfirmed
    } else if k == (27nat, 't', 'a') {
        ErrorCode::NetGuardToggleFailed
    } else if k == (27nat, 's', 'a') {
        ErrorCode::NetGuardStatusFailed
    } else if k == (25nat, 'n', 'o') {
        ErrorCode::SensorsUnknownMode
    } else if k == (25nat, 'n', 'i') {
        ErrorCode::SensorsUnknownKind
    } else if k == (30nat, 'a', 'o') {
        ErrorCode::SensorsRateOutOfRange
    } else if k == (23nat, 'p', 'd') {
        ErrorCode::SensorsRpcFailed
    } else if k == (36nat, '_', 'c') {
        ErrorCode::TelemetrySpyWatchOpenFailed
    } else if k == (31nat, '_', 'e') {
        ErrorCode::TelemetrySpyStreamError
    } else if k == (30nat, '_', 't') {
        ErrorCode::TelemetrySpyEmitFailed
    } else if k == (30nat, '.', 't') {
        ErrorCode::TelephonyNumberTooLong
    } else if k == (31nat, '.', '_') {
        ErrorCode::TelephonyCallIdTooLong
    } else if k == (25nat, '.', 'l') {
        ErrorCode::TelephonyRpcFailed
    } else if k == (32nat, '.', 'p') {
        ErrorCode::TelephonyWatchOpenFailed
    } else if k == (33nat, '.', 't') {
        ErrorCode::TelephonyWatchStreamError
    } else if k == (22nat, 'n', '\0') {
        ErrorCode::RadioUnknownKey
    } else if k == (26nat, 'r', 'a') {
        ErrorCode::RadioAddressInvalid
    } else if k == (21nat, '_', '\0') {
        ErrorCode::RadioRpcFailed
    } else if k == (28nat, 's', 'u') {
        ErrorCode::RadioNoSystemSurface
    } else if k == (17nat, '_', '\0') {
        ErrorCode::SmsBlankId
    } else if k == (20nat, 'o', '\0') {
        ErrorCode::SmsIdTooLong
    } else if k == (23nat, 'w', 'r') {
        ErrorCode::SmsUnknownFolder
    } else if k == (23nat, 'e', 'r') {
        ErrorCode::SmsBlockedSender
    } else if k == (22nat, 't', '\0') {
        ErrorCode::SmsTextTooLong
    } else if k == (26nat, 'd', 'c') {
        ErrorCode::SmsProviderRejected
    } else if k == (23nat, '_', 'g') {
        ErrorCode::AiPromptTooLong
    } else if k == (27nat, 'n', '_') {
        ErrorCode::AiSessionIdTooLong
    } else if k == (32nat, 'd', 'd') {
        ErrorCode::AiBackendPayloadTooLong
    } else if k == (31nat, 'd', 'e') {
        ErrorCode::AiAndroidPackageInvalid
    } else if k == (18nat, 'i', '\0') {
        ErrorCode::AiRpcFailed
    } else if k == (29nat, 'd', '_') {
        ErrorCode::AiBackendSwitchFailed
    } else if k == (25nat, 'a', 'o') {
        ErrorCode::RagPayloadTooLong
    } else if k == (19nat, 'a', '\0') {
        ErrorCode::RagRpcFailed
    } else if k == (22nat, 'i', '\0') {
        ErrorCode::AppStoreIdEmpty
    } else if k == (25nat, 'i', 'o') {
        ErrorCode::AppStoreIdTooLong
    } else if k == (24nat, 'i', 'i') {
        ErrorCode::AppStoreIdInvalid
    } else {
        ErrorCode::ButtonsUnknown
    }
}

proof fn lemma_fingerprint(c: ErrorCode)
    ensures
        fingerprint(code_str(c)) == fingerprint_of(c),
        code_of_fingerprint(fingerprint_of(c)) == c,
{
    match c {
        ErrorCode::ButtonsUnknown => {
            reveal_strlit("amos.buttons.unknown");
        },
        ErrorCode::ButtonsNameTooLong => {
            reveal_strlit("amos.buttons.name_too_long");
        },
        ErrorCode::ButtonsDeliveryFailed => {
            reveal_strlit("amos.buttons.delivery_failed");
        },
        ErrorCode::DisplayContractMissing => {
            reveal_strlit("amos.display.contract_missing");
        },
        ErrorCode::DisplayWriteFailed => {
            reveal_strlit("amos.display.write_failed");
        },
        ErrorCode::DisplayReadMalformed => {
            reveal_strlit("amos.display.read_malformed");
        },
        ErrorCode::FlashlightStoredShapeInvalid => {
            reveal_strlit("amos.flashlight.stored_shape_invalid");
        },
        ErrorCode::FlashlightProviderUnconfirmed => {
            reveal_strlit("amos.flashlight.provider_unconfirmed");
        },
        ErrorCode::NetGuardToggleFailed => {
            reveal_strlit("amos.netguard.toggle_failed");
        },
        ErrorCode::NetGuardStatusFailed => {
            reveal_strlit("amos.netguard.status_failed");
        },
        ErrorCode::SensorsUnknownMode => {
            reveal_strlit("amos.sensors.unknown_mode");
        },
        ErrorCode::SensorsUnknownKind => {
            reveal_strlit("amos.sensors.unknown_kind");
        },
        ErrorCode::SensorsRateOutOfRange => {
            reveal_strlit("amos.sensors.rate_out_of_range");
        },
        ErrorCode::SensorsRpcFailed => {
            reveal_strlit("amos.sensors.rpc_failed");
        },
        ErrorCode::TelemetrySpyWatchOpenFailed => {
            reveal_strlit("amos.telemetry_spy.watch_open_failed");
        },
        ErrorCode::TelemetrySpyStreamError => {
            reveal_strlit("amos.telemetry_spy.stream_error");
        },
        ErrorCode::TelemetrySpyEmitFailed => {
            reveal_strlit("amos.telemetry_spy.emit_failed");
        },
        ErrorCode::TelephonyNumberTooLong => {
            reveal_strlit("amos.telephony.number_too_long");
        },
        ErrorCode::TelephonyCallIdTooLong => {
            reveal_strlit("amos.telephony.call_id_too_long");
        },
        ErrorCode::TelephonyRpcFailed => {
            reveal_strlit("amos.telephony.rpc_failed");
        },
        ErrorCode::TelephonyWatchOpenFailed => {
            reveal_strlit("amos.telephony.watch_open_failed");
        },
        ErrorCode::TelephonyWatchStreamError => {
            reveal_strlit("amos.telephony.watch_stream_error");
        },
        ErrorCode::RadioUnknownKey => {
            reveal_strlit("amos.radio.unknown_key");
        },
        ErrorCode::RadioAddressInvalid => {
            reveal_strlit("amos.radio.address_invalid");
        },
        ErrorCode::RadioRpcFailed => {
            reveal_strlit("amos.radio.rpc_failed");
        },
        ErrorCode::RadioNoSystemSurface => {
            reveal_strlit("amos.radio.no_system_surface");
        },
        ErrorCode::SmsBlankId => {
            reveal_strlit("amos.sms.blank_id");
        },
        ErrorCode::SmsIdTooLong => {
            reveal_strlit("amos.sms.id_too_long");
        },
        ErrorCode::SmsUnknownFolder => {
            reveal_strlit("amos.sms.unknown_folder");
        },
        ErrorCode::SmsBlockedSender => {
            reveal_strlit("amos.sms.blocked_sender");
        },
        ErrorCode::SmsTextTooLong => {
            reveal_strlit("amos.sms.text_too_long");
        },
        ErrorCode::SmsProviderRejected => {
            reveal_strlit("amos.sms.provider_rejected");
        },
        ErrorCode::AiPromptTooLong => {
            reveal_strlit("amos.ai.prompt_too_long");
        },
        ErrorCode::AiSessionIdTooLong => {
            reveal_strlit("amos.ai.session_id_too_long");
        },
        ErrorCode::AiBackendPayloadTooLong => {
            reveal_strlit("amos.ai.backend_payload_too_long");
        },
        ErrorCode::AiAndroidPackageInvalid => {
            reveal_strlit("amos.ai.android_package_invalid");
        },
        ErrorCode::AiRpcFailed => {
            reveal_strlit("amos.ai.rpc_failed");
        },
        ErrorCode::AiBackendSwitchFailed => {
            reveal_strlit("amos.ai.backend_switch_failed");
        },
        ErrorCode::RagPayloadTooLong => {
            reveal_strlit("amos.rag.payload_too_long");
        },
        ErrorCode::RagRpcFailed => {
            reveal_strlit("amos.rag.rpc_failed");
        },
        ErrorCode::AppStoreIdEmpty => {
            reveal_strlit("amos.appstore.id_empty");
        },
        ErrorCode::AppStoreIdTooLong => {
            reveal_strlit("amos.appstore.id_too_long");
        },
        ErrorCode::AppStoreIdInvalid => {
            reveal_strlit("amos.appstore.id_invalid");
        },
    }
}

/// Distinct codes have distinct wire strings: the code is a stability key.
pub proof fn lemma_codes_distinct(a: ErrorCode, b: ErrorCode)
    requires
        a != b,
    ensures
        code_str(a) != code_str(b),
{
    lemma_fingerprint(a);
    lemma_fingerprint(b);
}

/// Every code is namespaced under `amos.`, and its group is the segment
/// that follows up to the next `.`.
pub proof fn lemma_codes_are_namespaced(c: ErrorCode)
    ensures
        code_str(c).len() > 5,
        code_str(c).take(5) == "amos."@,
{
    reveal_strlit("amos.");
        reveal_strlit("amos.buttons.unknown");
        reveal_strlit("amos.buttons.name_too_long");
        reveal_strlit("amos.buttons.delivery_failed");
        reveal_strlit("amos.display.contract_missing");
        reveal_strlit("amos.display.write_failed");
        reveal_strlit("amos.display.read_malformed");
        reveal_strlit("amos.flashlight.stored_shape_invalid");
        reveal_strlit("amos.flashlight.provider_unconfirmed");
        reveal_strlit("amos.netguard.toggle_failed");
        reveal_strlit("amos.netguard.status_failed");
        reveal_strlit("amos.sensors.unknown_mode");
        reveal_strlit("amos.sensors.unknown_kind");
        reveal_strlit("amos.sensors.rate_out_of_range");
        reveal_strlit("amos.sensors.rpc_failed");
        reveal_strlit("amos.telemetry_spy.watch_open_failed");
        reveal_strlit("amos.telemetry_spy.stream_error");
        reveal_strlit("amos.telemetry_spy.emit_failed");
        reveal_strlit("amos.telephony.number_too_long");
        reveal_strlit("amos.telephony.call_id_too_long");
        reveal_strlit("amos.telephony.rpc_failed");
        reveal_strlit("amos.telephony.watch_open_failed");
        reveal_strlit("amos.telephony.watch_stream_error");
        reveal_strlit("amos.radio.unknown_key");
        reveal_strlit("amos.radio.address_invalid");
        reveal_strlit("amos.radio.rpc_failed");
        reveal_strlit("amos.radio.no_system_surface");
        reveal_strlit("amos.sms.blank_id");
        reveal_strlit("amos.sms.id_too_long");
        reveal_strlit("amos.sms.unknown_folder");
        reveal_strlit("amos.sms.blocked_sender");
        reveal_strlit("amos.sms.text_too_long");
        reveal_strlit("amos.sms.provider_rejected");
        reveal_strlit("amos.ai.prompt_too_long");
        reveal_strlit("amos.ai.session_id_too_long");
        reveal_strlit("amos.ai.backend_payload_too_long");
        reveal_strlit("amos.ai.android_package_invalid");
        reveal_strlit("amos.ai.rpc_failed");
        reveal_strlit("amos.ai.backend_switch_failed");
        reveal_strlit("amos.rag.payload_too_long");
        reveal_strlit("amos.rag.rpc_failed");
        reveal_strlit("amos.appstore.id_empty");
        reveal_strlit("amos.appstore.id_too_long");
        reveal_strlit("amos.appstore.id_invalid");
    match c {
        ErrorCode::ButtonsUnknown => { assert(code_str(c).take(5) =~= "amos."@); }
        ErrorCode::ButtonsNameTooLong => { assert(code_str(c).take(5) =~= "amos."@); }
        ErrorCode::ButtonsDeliveryFailed => { assert(code_str(c).take(5) =~= "amos."@); }
        ErrorCode::DisplayContractMissing => { assert(code_str(c).take(5) =~= "amos."@); }
        ErrorCode::DisplayWriteFailed => { assert(code_str(c).take(5) =~= "amos."@); }
        ErrorCode::DisplayReadMalformed => { assert(code_str(c).take(5) =~= "amos."@); }
        ErrorCode::FlashlightStoredShapeInvalid => { assert(code_str(c).take(5) =~= "amos."@); }
        ErrorCode::FlashlightProviderUnconfirmed => { assert(code_str(c).take(5) =~= "amos."@); }
        ErrorCode::NetGuardToggleFailed => { assert(code_str(c).take(5) =~= "amos."@); }
        ErrorCode::NetGuardStatusFailed => { assert(code_str(c).take(5) =~= "amos."@); }
        ErrorCode::SensorsUnknownMode => { assert(code_str(c).take(5) =~= "amos."@); }
        ErrorCode::SensorsUnknownKind => { assert(code_str(c).take(5) =~= "amos."@); }
        ErrorCode::SensorsRateOutOfRange => { assert(code_str(c).take(5) =~= "amos."@); }
        ErrorCode::SensorsRpcFailed => { assert(code_str(c).take(5) =~= "amos."@); }
        ErrorCode::TelemetrySpyWatchOpenFailed => { assert(code_str(c).take(5) =~= "amos."@); }
        ErrorCode::TelemetrySpyStreamError => { assert(code_str(c).take(5) =~= "amos."@); }
        ErrorCode::TelemetrySpyEmitFailed => { assert(code_str(c).take(5) =~= "amos."@); }
        ErrorCode::TelephonyNumberTooLong => { assert(code_str(c).take(5) =~= "amos."@); }
        ErrorCode::TelephonyCallIdTooLong => { assert(code_str(c).take(5) =~= "amos."@); }
        ErrorCode::TelephonyRpcFailed => { assert(code_str(c).take(5) =~= "amos."@); }
        ErrorCode::TelephonyWatchOpenFailed => { assert(code_str(c).take(5) =~= "amos."@); }
        ErrorCode::TelephonyWatchStreamError => { assert(code_str(c).take(5) =~= "amos."@); }
        ErrorCode::RadioUnknownKey => { assert(code_str(c).take(5) =~= "amos."@); }
        ErrorCode::RadioAddressInvalid => { assert(code_str(c).take(5) =~= "amos."@); }
        ErrorCode::RadioRpcFailed => { assert(code_str(c).take(5) =~= "amos."@); }
        ErrorCode::RadioNoSystemSurface => { assert(code_str(c).take(5) =~= "amos."@); }
        ErrorCode::SmsBlankId => { assert(code_str(c).take(5) =~= "amos."@); }
        ErrorCode::SmsIdTooLong => { assert(code_str(c).take(5) =~= "amos."@); }
        ErrorCode::SmsUnknownFolder => { assert(code_str(c).take(5) =~= "amos."@); }
        ErrorCode::SmsBlockedSender => { assert(code_str(c).take(5) =~= "amos."@); }
        ErrorCode::SmsTextTooLong => { assert(code_str(c).take(5) =~= "amos."@); }
        ErrorCode::SmsProviderRejected => { assert(code_str(c).take(5) =~= "amos."@); }
        ErrorCode::AiPromptTooLong => { assert(code_str(c).take(5) =~= "amos."@); }
        ErrorCode::AiSessionIdTooLong => { assert(code_str(c).take(5) =~= "amos."@); }
        ErrorCode::AiBackendPayloadTooLong => { assert(code_str(c).take(5) =~= "amos."@); }
        ErrorCode::AiAndroidPackageInvalid => { assert(code_str(c).take(5) =~= "amos."@); }
        ErrorCode::AiRpcFailed => { assert(code_str(c).take(5) =~= "amos."@); }
        ErrorCode::AiBackendSwitchFailed => { assert(code_str(c).take(5) =~= "amos."@); }
        ErrorCode::RagPayloadTooLong => { assert(code_str(c).take(5) =~= "amos."@); }
        ErrorCode::RagRpcFailed => { assert(code_str(c).take(5) =~= "amos."@); }
        ErrorCode::AppStoreIdEmpty => { assert(code_str(c).take(5) =~= "amos."@); }
        ErrorCode::AppStoreIdTooLong => { assert(code_str(c).take(5) =~= "amos."@); }
        ErrorCode::AppStoreIdInvalid => { assert(code_str(c).take(5) =~= "amos."@); }
    }
}

/// The failure envelope every command that can fail returns.
#[derive(Debug, Clone)]
pub struct AmosError {
    pub code: ErrorCode,
    pub message: String,
    pub cause: Vec<String>,
}

pub type AmosResult<T> = Result<T, AmosError>;

pub open spec fn causes_view(v: Seq<String>) -> Seq<Seq<char>> {
    v.map_values(|s: String| s@)
}

impl AmosError {
    /// An envelope with an empty cause chain.
    pub fn new(code: ErrorCode, message: &str) -> (r: AmosError)
        ensures
            r.code == code,
            r.message@ == message@,
            r.cause@.len() == 0,
    {
        AmosError { code, message: String::from_str(message), cause: Vec::new() }
    }

    /// An envelope whose cause chain starts with `cause`.
    pub fn with_cause(code: ErrorCode, message: &str, cause: &str) -> (r: AmosError)
        ensures
            r.code == code,
            r.message@ == message@,
            causes_view(r.cause@) == seq![cause@],
    {
        let mut v: Vec<String> = Vec::new();
        v.push(String::from_str(cause));
        let r = AmosError { code, message: String::from_str(message), cause: v };
        assert(causes_view(r.cause@) =~= seq![cause@]);
        r
    }

    /// Append one more cause to the chain.
    pub fn push_cause(self, cause: &str) -> (r: AmosError)
        ensures
            r.code == self.code,
            r.message@ == self.message@,
            causes_view(r.cause@) == causes_view(self.cause@).push(cause@),
    {
        let mut s = self;
        let ghost before = s.cause@;
        s.cause.push(String::from_str(cause));
        assert(causes_view(s.cause@) =~= causes_view(before).push(cause@));
        s
    }

    /// The wire string of the code.
    pub fn code(&self) -> (r: &'static str)
        ensures
            r@ == code_str(self.code),
    {
        self.code.as_str()
    }
}

/// Turn a failure into an envelope whose message is the code's wire string
/// and whose cause is the failure's text.
pub trait IntoAmosError {
    fn into_envelope(self, code: ErrorCode) -> AmosError;
}

impl<'a> IntoAmosError for &'a str {
    fn into_envelope(self, code: ErrorCode) -> (r: AmosError)
        ensures
            r.code == code,
            r.message@ == code_str(code),
            causes_view(r.cause@) == seq![self@],
    {
        AmosError::with_cause(code, code.as_str(), self)
    }
}

impl IntoAmosError for String {
    fn into_envelope(self, code: ErrorCode) -> (r: AmosError)
        ensures
            r.code == code,
            r.message@ == code_str(code),
            causes_view(r.cause@) == seq![self@],
    {
        AmosError::with_cause(code, code.as_str(), self.as_str())
    }
}

} // verus!
