//! Display protection: the screen-state seam between the shell and the
//! device.
//!
//! [`DisplayPower`] is the device seam (blank / wake the panel); the bridge
//! drives whichever implementation was injected and reports what it did. The
//! file-contract implementation writes `on` / `off` to the shared screen-state
//! path; without a configured path it refuses honestly and reads as "on" (a
//! screen that might be on is never throttled).
use vstd::prelude::*;

use std::sync::Arc;

use crate::desktop_entry::trimmed;
use crate::text::{chars_eq, chars_of, trim};

pub mod codes;

verus! {

/// Env var naming the screen-state contract file (shared with the daemon).
pub const SCREEN_STATE_ENV: &'static str = "AMOS_SCREEN_STATE_PATH";

/// Largest screen-state file this host reads or writes (bytes).
pub const MAX_SCREEN_STATE_BYTES: u64 = 4096;

/// Serializable screen-state snapshot.
#[derive(Clone, Copy, Debug, PartialEq, Eq, Structural)]
pub struct ScreenPayload {
    /// Whether the screen is on.
    pub on: bool,
}

/// What the screen-state file says.
#[derive(Clone, Copy, Debug, PartialEq, Eq, Structural)]
pub enum ScreenState {
    On,
    Off,
}

/// The device seam: blank (`false`) or wake (`true`) the panel; read whether
/// it is on (`true` when unknown).
pub trait DisplayPower {
    fn set(&self, on: bool) -> Result<(), String>;

    fn is_on(&self) -> bool;
}

/// The file-contract implementation's configuration: the screen-state path,
/// if one is configured.
#[derive(Clone, Debug)]
pub struct FileDisplayPower {
    path: Option<String>,
}

impl FileDisplayPower {
    /// The configured path.
    pub closed spec fn path_spec(&self) -> Option<Seq<char>> {
        match self.path {
            Some(p) => Some(p@),
            None => None,
        }
    }

    /// Build from an explicit path (`None` = no daemon sync).
    pub fn at(path: Option<String>) -> (f: FileDisplayPower)
        ensures
            f.path_spec() == match path {
                Some(p) => Some(p@),
                None => None,
            },
    {
        FileDisplayPower { path }
    }

    /// The path to write, or the honest refusal when none is configured.
    pub fn contract_path(&self) -> (r: Result<String, String>)
        ensures
            match self.path_spec() {
                Some(p) => r matches Ok(q) && q@ == p,
                None => r matches Err(m) && m@ == missing_contract_message(),
            },
    {
        match &self.path {
            Some(p) => Ok(p.clone()),
            None => Err(
                String::from_str(
                    "AMOS_SCREEN_STATE_PATH not set — cannot sync screen state to the daemon",
                ),
            ),
        }
    }
}

/// The refusal when no contract path is configured.
pub open spec fn missing_contract_message() -> Seq<char> {
    "AMOS_SCREEN_STATE_PATH not set — cannot sync screen state to the daemon"@
}

/// The file content for a screen state.
pub open spec fn content_of(on: bool) -> Seq<char> {
    if on {
        "on"@
    } else {
        "off"@
    }
}

/// The content to write for `on`, within [`MAX_SCREEN_STATE_BYTES`].
pub fn screen_state_content(on: bool) -> (c: &'static str)
    ensures
        c@ == content_of(on),
        c@.len() <= MAX_SCREEN_STATE_BYTES,
{
    proof {
        reveal_strlit("on");
        reveal_strlit("off");
    }
    if on {
        "on"
    } else {
        "off"
    }
}

/// What a screen-state file holds: `on` or `off` (surrounding white space
/// aside); anything else is malformed.
pub fn parse_screen_state(content: &str) -> (r: Option<ScreenState>)
    ensures
        r == if trim(content@) == "on"@ {
            Some(ScreenState::On)
        } else if trim(content@) == "off"@ {
            Some(ScreenState::Off)
        } else {
            None
        },
{
    let v = chars_of(content);
    let t = trimmed(&v, 0, v.len());
    proof {
        assert(v@.subrange(0, v.len() as int) =~= v@);
        assert(t@.subrange(0, t.len() as int) =~= t@);
    }
    let on = chars_of("on");
    let off = chars_of("off");
    if chars_eq(&t, 0, t.len(), &on) {
        Some(ScreenState::On)
    } else if chars_eq(&t, 0, t.len(), &off) {
        Some(ScreenState::Off)
    } else {
        None
    }
}

/// Whether the screen is on, from what the file said (`None`: unreadable or
/// unset; conservatively on).
pub fn is_on_from(read: Option<ScreenState>) -> (on: bool)
    ensures
        on == match read {
            Some(s) => s == ScreenState::On,
            None => true,
        },
{
    match read {
        Some(ScreenState::On) => true,
        Some(ScreenState::Off) => false,
        None => true,
    }
}

/// The shared seam the screen-state commands call.
pub struct DisplayPowerBridge<P: DisplayPower> {
    power: Arc<P>,
}

impl<P: DisplayPower> DisplayPowerBridge<P> {
    /// Drive an injected device implementation.
    pub fn with(power: Arc<P>) -> (b: DisplayPowerBridge<P>)
        ensures
            b.power_spec() == power,
    {
        DisplayPowerBridge { power }
    }

    /// The implementation this bridge drives.
    pub closed spec fn power_spec(&self) -> Arc<P> {
        self.power
    }

    /// Tell the device to blank / wake the panel: hands `on` to the injected
    /// implementation and answers with what its `set` answered.
    pub fn apply(&self, on: bool) -> (r: Result<(), String>)
        ensures
            call_ensures(P::set, (&*self.power_spec(), on), r),
    {
        let set = P::set;
        set(&*self.power, on)
    }

    /// Ask the device whether the panel is on: what the injected
    /// implementation's `is_on` answered.
    pub fn current(&self) -> (r: bool)
        ensures
            call_ensures(P::is_on, (&*self.power_spec(),), r),
    {
        let is_on = P::is_on;
        is_on(&*self.power)
    }
}

/// Set the screen state: `on` is handed to the device's `set`; when it
/// succeeds the snapshot reports the state that was applied, and a refusal is
/// passed through unchanged.
pub fn screen_state_set<P: DisplayPower>(bridge: &DisplayPowerBridge<P>, on: bool) -> (r: Result<
    ScreenPayload,
    String,
>)
    ensures
        match r {
            Ok(p) => p.on == on && call_ensures(
                P::set,
                (&*bridge.power_spec(), on),
                Ok::<(), String>(()),
            ),
            Err(e) => call_ensures(P::set, (&*bridge.power_spec(), on), Err::<(), String>(e)),
        },
{
    let applied = bridge.apply(on);
    match applied {
        Ok(u) => {
            assert(applied == Ok::<(), String>(u));
            Ok(ScreenPayload { on })
        },
        Err(e) => Err(e),
    }
}

/// Read the screen state from the device: always answers, with what the
/// device's `is_on` reported.
pub fn screen_state_get<P: DisplayPower>(bridge: &DisplayPowerBridge<P>) -> (r: Result<
    ScreenPayload,
    String,
>)
    ensures
        r matches Ok(p) && call_ensures(P::is_on, (&*bridge.power_spec(),), p.on),
{
    Ok(ScreenPayload { on: bridge.current() })
}

} // verus!
