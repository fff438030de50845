//! Native exact alarms: the checks and answers around the alarm ledger.
//!
//! The WebView registers, cancels and polls one-shot alarms at absolute
//! wall-clock instants. Ids are bounded and free of control characters, the
//! ledger holds a bounded number of distinct ids (re-registering an existing
//! id always works), and every answer says what the OS half did as a
//! [`DeviceOutcome`] rather than rounding a refusal up to "scheduled".
use vstd::prelude::*;

use crate::clipboard::{byte_len, utf8_len};
use crate::text::{chars_of, decimal, is_ctrl, is_control, str_eq, to_decimal};

verus! {

/// Maximum bytes in a scheduler alarm id.
pub const MAX_ALARM_ID_BYTES: usize = 256;

/// Maximum number of distinct alarms the ledger holds.
pub const MAX_ALARM_ENTRIES: usize = 256;

/// What the OS half of an alarm registration (or cancellation) did.
#[derive(Clone, Debug, PartialEq, Eq)]
pub enum DeviceOutcome {
    /// This host has no `AlarmManager`: the ledger is all there is.
    HostOnly,
    /// The OS accepted an exact alarm.
    Scheduled,
    /// The OS cancelled it.
    Cancelled,
    /// Exact alarms are not allowed for this app.
    Disallowed,
    /// The platform glue has not been attached yet.
    Unattached,
    /// No `AlarmManager` service on this device.
    Unavailable,
    /// The platform threw a security refusal.
    Denied,
    /// The glue's own words when they are none of the above.
    Unknown(String),
}

/// The outcome a known glue status word names (`None` for any other word).
pub open spec fn status_word(s: Seq<char>) -> Option<DeviceOutcome> {
    if s == "scheduled"@ {
        Some(DeviceOutcome::Scheduled)
    } else if s == "cancelled"@ {
        Some(DeviceOutcome::Cancelled)
    } else if s == "disallowed"@ {
        Some(DeviceOutcome::Disallowed)
    } else if s == "unavailable"@ {
        Some(DeviceOutcome::Unavailable)
    } else if s == "denied"@ {
        Some(DeviceOutcome::Denied)
    } else {
        None
    }
}

/// The text an unrecognised status is reported with.
pub open spec fn unknown_status_text(s: Seq<char>) -> Seq<char> {
    if s.len() == 0 {
        "the glue answered with an empty status"@
    } else {
        s
    }
}

/// Map one glue status word onto the typed outcome. A word that is none of
/// the known ones is kept verbatim as `Unknown` (the empty word gets a
/// sentence of its own).
pub fn device_outcome_from_status(status: &str) -> (r: DeviceOutcome)
    ensures
        match status_word(status@) {
            Some(d) => r == d,
            None => r matches DeviceOutcome::Unknown(m) && m@ == unknown_status_text(status@),
        },
{
    if str_eq(status, "scheduled") {
        DeviceOutcome::Scheduled
    } else if str_eq(status, "cancelled") {
        DeviceOutcome::Cancelled
    } else if str_eq(status, "disallowed") {
        DeviceOutcome::Disallowed
    } else if str_eq(status, "unavailable") {
        DeviceOutcome::Unavailable
    } else if str_eq(status, "denied") {
        DeviceOutcome::Denied
    } else if chars_of(status).len() == 0 {
        DeviceOutcome::Unknown(String::from_str("the glue answered with an empty status"))
    } else {
        DeviceOutcome::Unknown(String::from_str(status))
    }
}

/// Answer to a registration: what the ledger holds and what the OS did.
#[derive(Clone, Debug)]
pub struct AlarmArmed {
    pub id: String,
    pub at_ms: u64,
    pub device: DeviceOutcome,
}

/// Answer to a cancellation: whether the ledger held the id, and what the OS
/// binding did.
#[derive(Clone, Debug)]
pub struct AlarmCanceled {
    pub id: String,
    pub was_registered: bool,
    pub device: DeviceOutcome,
}

/// Poll answer: the ids that fired.
#[derive(Clone, Debug)]
pub struct AlarmPoll {
    pub due: Vec<String>,
}

/// Device half of a registration on a host without `AlarmManager`: the
/// answer says so.
pub fn arm_device(id: &str, at_ms: u64) -> (r: DeviceOutcome)
    ensures
        r == DeviceOutcome::HostOnly,
{
    DeviceOutcome::HostOnly
}

/// Device half of a cancellation on a host: nothing outside the ledger.
pub fn cancel_device(id: &str) -> (r: DeviceOutcome)
    ensures
        r == DeviceOutcome::HostOnly,
{
    DeviceOutcome::HostOnly
}

/// The refusal a host gives when asked for the exact-alarm settings screen.
pub open spec fn no_settings_screen() -> Seq<char> {
    "this host has no exact-alarm settings screen (no AlarmManager); the in-app alarms ring from the WebView notifier"@
}

/// A host has no "Alarms & reminders" screen: an honest error, never `true`.
pub fn open_device_settings() -> (r: Result<bool, String>)
    ensures
        r matches Err(m) && m@ == no_settings_screen(),
{
    Err(String::from_str(
        "this host has no exact-alarm settings screen (no AlarmManager); the in-app alarms ring from the WebView notifier",
    ))
}

/// Why an alarm id is refused (`None` when it is accepted).
pub open spec fn alarm_id_refusal(id: Seq<char>) -> Option<Seq<char>> {
    if byte_len(id) == 0 || byte_len(id) > MAX_ALARM_ID_BYTES {
        Some("scheduler alarm id invalid: "@ + decimal(byte_len(id)) + " bytes (max 256)"@)
    } else if exists|i: int| 0 <= i < id.len() && is_ctrl(#[trigger] id[i]) {
        Some("scheduler alarm id contains control characters"@)
    } else {
        None
    }
}

/// Does `v` hold a control character?
fn has_control(v: &Vec<char>) -> (r: bool)
    ensures
        r == exists|i: int| 0 <= i < v@.len() && is_ctrl(#[trigger] v@[i]),
{
    let mut i: usize = 0;
    while i < v.len()
        invariant
            i <= v.len(),
            forall|k: int| 0 <= k < i ==> !is_ctrl(#[trigger] v@[k]),
        decreases v.len() - i,
    {
        if is_control(v[i]) {
            return true;
        }
        i = i + 1;
    }
    false
}

/// Bound an alarm id: non-empty, at most [`MAX_ALARM_ID_BYTES`] bytes, and
/// free of control characters (NUL among them).
pub fn check_alarm_id(id: &str) -> (r: Result<(), String>)
    ensures
        match alarm_id_refusal(id@) {
            None => r is Ok,
            Some(m) => r matches Err(e) && e@ == m,
        },
{
    let n = utf8_len(id);
    if n == 0 || n > MAX_ALARM_ID_BYTES {
        let m = String::from_str("scheduler alarm id invalid: ").concat(
            to_decimal(n as u64).as_str(),
        ).concat(" bytes (max 256)");
        return Err(m);
    }
    let v = chars_of(id);
    if has_control(&v) {
        return Err(String::from_str("scheduler alarm id contains control characters"));
    }
    Ok(())
}

/// The refusal when the ledger is full.
pub open spec fn capacity_refusal() -> Seq<char> {
    "scheduler alarm capacity reached: 256 entries (re-registering an existing id still works; cancel the ones you no longer need)"@
}

/// Does the ledger take this registration?
pub open spec fn capacity_admits(already_registered: bool, ledger_len: nat) -> bool {
    already_registered || ledger_len < MAX_ALARM_ENTRIES
}

/// Bound the ledger's size: a new id is refused once [`MAX_ALARM_ENTRIES`]
/// distinct ids are held; re-registering an id already held always passes.
pub fn check_alarm_capacity(already_registered: bool, ledger_len: usize) -> (r: Result<
    (),
    String,
>)
    ensures
        r is Ok <==> capacity_admits(already_registered, ledger_len as nat),
        r matches Err(m) ==> m@ == capacity_refusal(),
{
    if already_registered || ledger_len < MAX_ALARM_ENTRIES {
        return Ok(());
    }
    Err(
        String::from_str(
            "scheduler alarm capacity reached: 256 entries (re-registering an existing id still works; cancel the ones you no longer need)",
        ),
    )
}

/// The ledger never outgrows its bound through admitted registrations, and a
/// re-registration is admitted whatever the ledger holds.
pub proof fn lemma_capacity_is_kept(already_registered: bool, ledger_len: nat)
    requires
        ledger_len <= MAX_ALARM_ENTRIES,
    ensures
        capacity_admits(already_registered, ledger_len) ==> (if already_registered {
            ledger_len
        } else {
            ledger_len + 1
        }) <= MAX_ALARM_ENTRIES,
        already_registered ==> capacity_admits(already_registered, ledger_len),
{
}


/// The answer to a registration request, given whether the ledger already
/// holds `id` and how many ids it holds: the id check, then the capacity
/// check, then the device half. `Ok` is the caller's cue to write the ledger.
pub fn register_reply(id: String, at_ms: u64, already_registered: bool, ledger_len: usize) -> (r:
    Result<AlarmArmed, String>)
    ensures
        match alarm_id_refusal(id@) {
            Some(m) => r matches Err(e) && e@ == m,
            None => if capacity_admits(already_registered, ledger_len as nat) {
                r matches Ok(a) && a.id@ == id@ && a.at_ms == at_ms && a.device
                    == DeviceOutcome::HostOnly
            } else {
                r matches Err(e) && e@ == capacity_refusal()
            },
        },
{
    match check_alarm_id(id.as_str()) {
        Err(e) => return Err(e),
        Ok(()) => {},
    }
    match check_alarm_capacity(already_registered, ledger_len) {
        Err(e) => return Err(e),
        Ok(()) => {},
    }
    let device = arm_device(id.as_str(), at_ms);
    Ok(AlarmArmed { id, at_ms, device })
}

/// The answer to a cancellation once the ledger has answered whether it held
/// the id (the id is checked first; a refused id never reaches the ledger).
pub fn cancel_reply(id: String, was_registered: bool) -> (r: Result<AlarmCanceled, String>)
    ensures
        match alarm_id_refusal(id@) {
            Some(m) => r matches Err(e) && e@ == m,
            None => r matches Ok(c) && c.id@ == id@ && c.was_registered == was_registered
                && c.device == DeviceOutcome::HostOnly,
        },
{
    match check_alarm_id(id.as_str()) {
        Err(e) => return Err(e),
        Ok(()) => {},
    }
    let device = cancel_device(id.as_str());
    Ok(AlarmCanceled { id, was_registered, device })
}

/// The instant a poll fires at: the caller's, else the host clock's.
pub fn poll_instant(now_ms: Option<u64>, clock_ms: u64) -> (r: u64)
    ensures
        r == match now_ms {
            Some(v) => v,
            None => clock_ms,
        },
{
    match now_ms {
        Some(v) => v,
        None => clock_ms,
    }
}

} // verus!
