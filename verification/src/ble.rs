//! BLE GATT, NFC and biometric bridge: the replies a host without the device
//! glue gives, and the shapes every reply takes.
//!
//! On a device the platform glue answers; on a host each command answers
//! honestly that the capability is not there, so the UI can degrade (Web
//! Bluetooth, no NFC, no biometric prompt) instead of waiting on a call that
//! cannot succeed.
use vstd::prelude::*;

use crate::error::AmosError;

verus! {

/// Event emitted when a GATT characteristic value changes.
pub const BLE_VALUE_EVENT: &'static str = "ble-value-changed";

/// Event emitted when an NFC tag is discovered.
pub const NFC_TAG_EVENT: &'static str = "nfc-tag-discovered";

/// One GATT service discovered on the connected device.
#[derive(Clone, Debug)]
pub struct BleService {
    pub uuid: String,
}

/// Result of a GATT read.
#[derive(Clone, Debug)]
pub struct BleReadResult {
    pub ok: bool,
    pub bytes: Option<Vec<u8>>,
    pub error: Option<String>,
}

/// Result of a GATT write.
#[derive(Clone, Debug)]
pub struct BleWriteResult {
    pub ok: bool,
    pub error: Option<String>,
}

/// The current GATT connection state.
#[derive(Clone, Debug)]
pub struct BleState {
    pub connected: bool,
    pub address: Option<String>,
}

impl BleState {
    /// Not connected, no address.
    pub fn new() -> (s: BleState)
        ensures
            !s.connected,
            s.address is None,
    {
        BleState { connected: false, address: None }
    }
}

/// NFC status reply.
#[derive(Clone, Debug)]
pub struct NfcStatusResult {
    pub available: bool,
    pub state: String,
}

/// One NDEF record (`record_type` is the record's `type` on the wire).
#[derive(Clone, Debug)]
pub struct NdefRecord {
    pub tnf: u8,
    pub record_type: String,
    pub payload: String,
    pub id: String,
}

/// NFC write result.
#[derive(Clone, Debug)]
pub struct NfcWriteResult {
    pub ok: bool,
    pub bytes_written: Option<u32>,
    pub error: Option<String>,
}

/// NFC tag discovery event payload.
#[derive(Clone, Debug)]
pub struct NfcTagEvent {
    pub id: String,
    pub technology: String,
    pub ndef: bool,
    pub records: Option<Vec<NdefRecord>>,
}

/// Biometric availability reply.
#[derive(Clone, Debug)]
pub struct BiometricAvailability {
    pub kind: String,
    pub label: String,
    pub enrolled: bool,
    pub hardware_present: bool,
}

/// Biometric authentication reply.
#[derive(Clone, Debug)]
pub struct BiometricResult {
    pub ok: bool,
    pub result: Option<String>,
    pub error: Option<String>,
}

/// `Some(text)` whose text is `s`.
pub open spec fn some_text(o: Option<String>, s: Seq<char>) -> bool {
    o matches Some(t) && t@ == s
}

/// Connect to a device: a host has no GATT stack, so nothing connects.
pub fn ble_connect(address: String) -> (r: Result<bool, AmosError>)
    ensures
        r == Ok::<bool, AmosError>(false),
{
    Ok(false)
}

/// Disconnect: nothing is connected on a host.
pub fn ble_disconnect() -> (r: Result<bool, AmosError>)
    ensures
        r == Ok::<bool, AmosError>(false),
{
    Ok(false)
}

/// Discover services: none on a host.
pub fn ble_discover_services() -> (r: Result<Vec<BleService>, AmosError>)
    ensures
        r matches Ok(v) && v@.len() == 0,
{
    Ok(Vec::new())
}

/// Read a characteristic: refused on a host, with the reason.
pub fn ble_read(service_uuid: String, characteristic_uuid: String) -> (r: Result<
    BleReadResult,
    AmosError,
>)
    ensures
        r matches Ok(x) && !x.ok && x.bytes is None && some_text(x.error, "BLE not available"@),
{
    Ok(
        BleReadResult {
            ok: false,
            bytes: None,
            error: Some(String::from_str("BLE not available")),
        },
    )
}

/// Write a characteristic: refused on a host, with the reason.
pub fn ble_write(
    service_uuid: String,
    characteristic_uuid: String,
    value: Vec<u8>,
    with_response: bool,
) -> (r: Result<BleWriteResult, AmosError>)
    ensures
        r matches Ok(x) && !x.ok && some_text(x.error, "BLE not available"@),
{
    Ok(BleWriteResult { ok: false, error: Some(String::from_str("BLE not available")) })
}

/// Subscribe to notifications: nothing to subscribe to on a host.
pub fn ble_subscribe(service_uuid: String, characteristic_uuid: String) -> (r: Result<
    bool,
    AmosError,
>)
    ensures
        r == Ok::<bool, AmosError>(false),
{
    Ok(false)
}

/// Unsubscribe from notifications: nothing subscribed on a host.
pub fn ble_unsubscribe(service_uuid: String, characteristic_uuid: String) -> (r: Result<
    bool,
    AmosError,
>)
    ensures
        r == Ok::<bool, AmosError>(false),
{
    Ok(false)
}

// ---------------------------------------------------------------------------
// Device replies (JSON from the platform glue, read with `serde_json`)
// ---------------------------------------------------------------------------

/// Does `serde_json` parse `raw` as a JSON value?
pub uninterp spec fn json_text_parses(raw: Seq<char>) -> bool;

/// The boolean `serde_json` finds at field `key` of the JSON text `raw`
/// (`value[key].as_bool()`).
pub uninterp spec fn json_bool_field(raw: Seq<char>, key: Seq<char>) -> Option<bool>;

/// The string `serde_json` finds at field `key` of the JSON text `raw`
/// (`value[key].as_str()`).
pub uninterp spec fn json_str_field(raw: Seq<char>, key: Seq<char>) -> Option<Seq<char>>;

/// `serde_json::from_str::<serde_json::Value>(raw)`: whether it parses.
#[verifier::external_body]
fn json_parses(raw: &str) -> (r: bool)
    ensures
        r == json_text_parses(raw@),
{
    serde_json::from_str::<serde_json::Value>(raw).is_ok()
}

/// `serde_json::from_str::<serde_json::Value>(raw)`, then `value[key].as_bool()`.
/// Claims that the answer is a function of the text and the key, and that a
/// text that does not parse has no field.
#[verifier::external_body]
fn json_bool(raw: &str, key: &str) -> (r: Option<bool>)
    ensures
        r == json_bool_field(raw@, key@),
        !json_text_parses(raw@) ==> r is None,
{
    match serde_json::from_str::<serde_json::Value>(raw) {
        Ok(v) => v[key].as_bool(),
        Err(_) => None,
    }
}

/// `serde_json::from_str::<serde_json::Value>(raw)`, then `value[key].as_str()`.
/// Claims that the answer is a function of the text and the key, and that a
/// text that does not parse has no field.
#[verifier::external_body]
fn json_str(raw: &str, key: &str) -> (r: Option<String>)
    ensures
        match r {
            Some(t) => json_str_field(raw@, key@) == Some(t@),
            None => json_str_field(raw@, key@) is None,
        },
        !json_text_parses(raw@) ==> r is None,
{
    match serde_json::from_str::<serde_json::Value>(raw) {
        Ok(v) => match v[key].as_str() {
            Some(t) => Some(t.to_string()),
            None => None,
        },
        Err(_) => None,
    }
}

/// A boolean field, or its default when it is missing.
pub open spec fn bool_or(o: Option<bool>, default: bool) -> bool {
    match o {
        Some(b) => b,
        None => default,
    }
}

/// A text field, or its default when it is missing.
pub open spec fn text_or(o: Option<Seq<char>>, default: Seq<char>) -> Seq<char> {
    match o {
        Some(t) => t,
        None => default,
    }
}

/// Is there a reply, and does it parse as JSON?
pub open spec fn parsed_reply(reply: Option<String>) -> bool {
    reply matches Some(raw) && json_text_parses(raw@)
}

fn string_or(o: Option<String>, default: &str) -> (r: String)
    ensures
        r@ == text_or(
            match o {
                Some(t) => Some(t@),
                None => None,
            },
            default@,
        ),
{
    match o {
        Some(t) => t,
        None => String::from_str(default),
    }
}

/// The NFC status from the glue's JSON reply (`None`: the glue did not
/// answer). A missing or unparsable reply reads as no hardware; otherwise
/// `available` and `state` are read from the reply, each with that default.
pub fn nfc_status_from_reply(reply: Option<String>) -> (r: NfcStatusResult)
    ensures
        !parsed_reply(reply) ==> !r.available && r.state@ == "no_hardware"@,
        match reply {
            Some(raw) => json_text_parses(raw@) ==> r.available == bool_or(
                json_bool_field(raw@, "available"@),
                false,
            ) && r.state@ == text_or(json_str_field(raw@, "state"@), "no_hardware"@),
            None => true,
        },
{
    match reply {
        Some(raw) => {
            if json_parses(raw.as_str()) {
                let available = match json_bool(raw.as_str(), "available") {
                    Some(b) => b,
                    None => false,
                };
                let state = string_or(json_str(raw.as_str(), "state"), "no_hardware");
                NfcStatusResult { available, state }
            } else {
                NfcStatusResult { available: false, state: String::from_str("no_hardware") }
            }
        },
        None => NfcStatusResult { available: false, state: String::from_str("no_hardware") },
    }
}

/// NFC status: no hardware on a host.
pub fn nfc_status() -> (r: Result<NfcStatusResult, AmosError>)
    ensures
        r matches Ok(x) && !x.available && x.state@ == "no_hardware"@,
{
    Ok(NfcStatusResult { available: false, state: String::from_str("no_hardware") })
}

/// Start NFC foreground dispatch: not possible on a host.
pub fn nfc_start_dispatch() -> (r: Result<bool, AmosError>)
    ensures
        r == Ok::<bool, AmosError>(false),
{
    Ok(false)
}

/// Stop NFC foreground dispatch: nothing was dispatching, so it is stopped.
pub fn nfc_stop_dispatch() -> (r: Result<bool, AmosError>)
    ensures
        r == Ok::<bool, AmosError>(true),
{
    Ok(true)
}

/// Format a tag: no tag on a host.
pub fn nfc_format_tag() -> (r: Result<bool, AmosError>)
    ensures
        r == Ok::<bool, AmosError>(false),
{
    Ok(false)
}

/// Write an NDEF message: refused on a host, with the reason.
pub fn nfc_write_message(records: Vec<NdefRecord>) -> (r: Result<NfcWriteResult, AmosError>)
    ensures
        r matches Ok(x) && !x.ok && x.bytes_written is None && some_text(
            x.error,
            "NFC not available"@,
        ),
{
    Ok(
        NfcWriteResult {
            ok: false,
            bytes_written: None,
            error: Some(String::from_str("NFC not available")),
        },
    )
}

/// Read a tag's bytes: no tag is held on a host.
pub fn nfc_read_bytes(tag_id: String) -> (r: Result<Option<String>, AmosError>)
    ensures
        r matches Ok(x) && x is None,
{
    Ok(None)
}

/// The generic label the UI shows for biometrics.
pub open spec fn biometric_label() -> Seq<char> {
    "生物识别"@
}

/// Biometric availability: no sensor, nothing enrolled on a host.
pub fn biometric_available() -> (r: Result<BiometricAvailability, AmosError>)
    ensures
        r matches Ok(x) && x.kind@ == "none"@ && x.label@ == biometric_label() && !x.enrolled
            && !x.hardware_present,
{
    Ok(
        BiometricAvailability {
            kind: String::from_str("none"),
            label: String::from_str("生物识别"),
            enrolled: false,
            hardware_present: false,
        },
    )
}

/// Biometric availability from the glue's JSON reply (`None`: the glue did
/// not answer). A missing or unparsable reply reads as no sensor; otherwise
/// each field is read from the reply, with that same default.
pub fn biometric_availability_from_reply(reply: Option<String>) -> (r: BiometricAvailability)
    ensures
        !parsed_reply(reply) ==> r.kind@ == "none"@ && r.label@ == biometric_label() && !r.enrolled
            && !r.hardware_present,
        match reply {
            Some(raw) => json_text_parses(raw@) ==> {
                &&& r.kind@ == text_or(json_str_field(raw@, "kind"@), "none"@)
                &&& r.label@ == text_or(json_str_field(raw@, "label"@), biometric_label())
                &&& r.enrolled == bool_or(json_bool_field(raw@, "enrolled"@), false)
                &&& r.hardware_present == bool_or(
                    json_bool_field(raw@, "hardware_present"@),
                    false,
                )
            },
            None => true,
        },
{
    match reply {
        Some(raw) => {
            if json_parses(raw.as_str()) {
                let kind = string_or(json_str(raw.as_str(), "kind"), "none");
                let label = string_or(json_str(raw.as_str(), "label"), "生物识别");
                let enrolled = match json_bool(raw.as_str(), "enrolled") {
                    Some(b) => b,
                    None => false,
                };
                let hardware_present = match json_bool(raw.as_str(), "hardware_present") {
                    Some(b) => b,
                    None => false,
                };
                BiometricAvailability { kind, label, enrolled, hardware_present }
            } else {
                BiometricAvailability {
                    kind: String::from_str("none"),
                    label: String::from_str("生物识别"),
                    enrolled: false,
                    hardware_present: false,
                }
            }
        },
        None => BiometricAvailability {
            kind: String::from_str("none"),
            label: String::from_str("生物识别"),
            enrolled: false,
            hardware_present: false,
        },
    }
}

/// Prompt for authentication: refused on a host, with the reason.
pub fn biometric_authenticate(reason: String, allow_device_credential: bool) -> (r: Result<
    BiometricResult,
    AmosError,
>)
    ensures
        r matches Ok(x) && !x.ok && x.result is None && some_text(
            x.error,
            "biometric not available"@,
        ),
{
    Ok(
        BiometricResult {
            ok: false,
            result: None,
            error: Some(String::from_str("biometric not available")),
        },
    )
}

// ---------------------------------------------------------------------------
// Device-side steps of a GATT read and a biometric prompt
// ---------------------------------------------------------------------------

/// What came of an armed GATT read.
#[derive(Clone, Debug)]
pub enum ReadAnswer {
    /// The characteristic's value arrived.
    Bytes(Vec<u8>),
    /// A newer read of the same characteristic took the waiter.
    Superseded,
    /// No answer within the read timeout (5 s).
    TimedOut,
}

/// A failed read reply with this reason.
pub open spec fn read_refused(r: BleReadResult, why: Seq<char>) -> bool {
    !r.ok && r.bytes is None && some_text(r.error, why)
}

/// The reply before any answer can come: `None` when the read was accepted
/// and the answer is to be awaited; otherwise the refusal, and whether the
/// waiter armed for the read must be dropped (`true` once one was armed).
/// `glue_installed`: the GATT glue state exists; `started`: what the platform
/// said of `readCharacteristic` (`None`: the glue was not bound).
pub fn ble_read_start(glue_installed: bool, started: Option<bool>) -> (r: (
    Option<BleReadResult>,
    bool,
))
    ensures
        !glue_installed ==> (r.0 matches Some(x) && read_refused(x, "JNI glue not installed"@))
            && !r.1,
        glue_installed && started == Some(true) ==> r.0 is None && !r.1,
        glue_installed && started == Some(false) ==> (r.0 matches Some(x) && read_refused(
            x,
            "the platform refused readCharacteristic"@,
        )) && r.1,
        glue_installed && started is None ==> (r.0 matches Some(x) && read_refused(
            x,
            "BluetoothGattGlue not bound"@,
        )) && r.1,
{
    if !glue_installed {
        return (
            Some(
                BleReadResult {
                    ok: false,
                    bytes: None,
                    error: Some(String::from_str("JNI glue not installed")),
                },
            ),
            false,
        );
    }
    match started {
        Some(true) => (None, false),
        Some(false) => (
            Some(
                BleReadResult {
                    ok: false,
                    bytes: None,
                    error: Some(String::from_str("the platform refused readCharacteristic")),
                },
            ),
            true,
        ),
        None => (
            Some(
                BleReadResult {
                    ok: false,
                    bytes: None,
                    error: Some(String::from_str("BluetoothGattGlue not bound")),
                },
            ),
            true,
        ),
    }
}

/// The reply once the armed read was answered, and whether the waiter must
/// be dropped (only after a timeout: an answered or superseded waiter is gone).
pub fn ble_read_answer(answer: ReadAnswer) -> (r: (BleReadResult, bool))
    ensures
        match answer {
            ReadAnswer::Bytes(b) => r.0.ok && r.0.bytes == Some(b) && r.0.error is None && !r.1,
            ReadAnswer::Superseded => read_refused(
                r.0,
                "this read was superseded by a newer one"@,
            ) && !r.1,
            ReadAnswer::TimedOut => read_refused(
                r.0,
                "no read result within 5s (the GATT read failed or the device did not answer)"@,
            ) && r.1,
        },
{
    match answer {
        ReadAnswer::Bytes(b) => (BleReadResult { ok: true, bytes: Some(b), error: None }, false),
        ReadAnswer::Superseded => (
            BleReadResult {
                ok: false,
                bytes: None,
                error: Some(String::from_str("this read was superseded by a newer one")),
            },
            false,
        ),
        ReadAnswer::TimedOut => (
            BleReadResult {
                ok: false,
                bytes: None,
                error: Some(
                    String::from_str(
                        "no read result within 5s (the GATT read failed or the device did not answer)",
                    ),
                ),
            },
            true,
        ),
    }
}

/// What came of a fired biometric prompt.
#[derive(Clone, Debug)]
pub enum PromptOutcome {
    /// The prompt answered.
    Answered { ok: bool, result: Option<String>, error: Option<String> },
    /// The prompt went away without answering.
    Cancelled,
    /// No answer within the prompt timeout (30 s).
    TimedOut,
}

/// A refused prompt reply with this reason.
pub open spec fn prompt_refused(r: BiometricResult, why: Seq<char>) -> bool {
    !r.ok && r.result is None && some_text(r.error, why)
}

/// The reply before a prompt is fired: `None` when the prompt may be armed
/// and fired; a refusal when the biometric glue is not initialised, or when
/// another prompt is already in flight (one prompt at a time: the first
/// user's answer is never overwritten).
pub fn biometric_prompt_gate(initialized: bool, prompt_in_flight: bool) -> (r: Option<
    BiometricResult,
>)
    ensures
        !initialized ==> (r matches Some(x) && prompt_refused(x, "biometric not initialized"@)),
        initialized && prompt_in_flight ==> (r matches Some(x) && prompt_refused(
            x,
            "another prompt is already in progress"@,
        )),
        initialized && !prompt_in_flight ==> r is None,
{
    if !initialized {
        return Some(
            BiometricResult {
                ok: false,
                result: None,
                error: Some(String::from_str("biometric not initialized")),
            },
        );
    }
    if prompt_in_flight {
        return Some(
            BiometricResult {
                ok: false,
                result: None,
                error: Some(String::from_str("another prompt is already in progress")),
            },
        );
    }
    None
}

/// The reply when the prompt could not be fired (the armed prompt is then
/// rolled back so the next call can arm itself).
pub fn biometric_fire_failed() -> (r: BiometricResult)
    ensures
        prompt_refused(r, "biometric not initialized"@),
{
    BiometricResult {
        ok: false,
        result: None,
        error: Some(String::from_str("biometric not initialized")),
    }
}

/// The reply once a fired prompt ended, and whether the pending prompt must
/// be rolled back (only after a timeout).
pub fn biometric_outcome_reply(outcome: PromptOutcome) -> (r: (BiometricResult, bool))
    ensures
        match outcome {
            PromptOutcome::Answered { ok, result, error } => r.0.ok == ok && r.0.result == result
                && r.0.error == error && !r.1,
            PromptOutcome::Cancelled => prompt_refused(r.0, "biometric prompt cancelled"@) && !r.1,
            PromptOutcome::TimedOut => prompt_refused(r.0, "biometric prompt timed out"@) && r.1,
        },
{
    match outcome {
        PromptOutcome::Answered { ok, result, error } => (BiometricResult { ok, result, error }, false),
        PromptOutcome::Cancelled => (
            BiometricResult {
                ok: false,
                result: None,
                error: Some(String::from_str("biometric prompt cancelled")),
            },
            false,
        ),
        PromptOutcome::TimedOut => (
            BiometricResult {
                ok: false,
                result: None,
                error: Some(String::from_str("biometric prompt timed out")),
            },
            true,
        ),
    }
}

} // verus!
