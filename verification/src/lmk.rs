//! Container low-memory-killer decisions, as the shell sees them.
//!
//! The daemon broadcasts LMK events for container apps; each becomes an
//! `lmk-surface` payload whose `close_surface` tells the shell to tear the
//! `legacy:<window_id>` surface down (reclaimed / destroyed). The debug entry
//! parses an action token and turns it into one daemon request, and the
//! daemon's answer into a row list with a note.
use vstd::prelude::*;

use crate::text::{decimal, str_eq, to_decimal};

verus! {

/// Event name carrying one [`LmkSurfacePayload`] per daemon LMK event.
pub const LMK_SURFACE_EVENT: &'static str = "lmk-surface";

/// What the daemon's LMK did to a container app.
#[derive(Clone, Copy, Debug, PartialEq, Eq, Structural)]
pub enum LmkEventKind {
    Unspecified,
    Reclaimed,
    Frozen,
    Thawed,
    Destroyed,
}

/// One daemon LMK event.
#[derive(Clone, Debug)]
pub struct LmkEvent {
    pub package_name: String,
    pub window_id: String,
    pub kind: LmkEventKind,
}

/// Shell-facing description of one LMK decision.
#[derive(Clone, Debug)]
pub struct LmkSurfacePayload {
    pub window_id: String,
    pub package_name: String,
    /// `"reclaimed"` | `"frozen"` | `"thawed"` | `"destroyed"` | `"unknown"`.
    pub kind: String,
    /// `true` when the surface should be torn down (`reclaimed`/`destroyed`).
    pub close_surface: bool,
}

/// The word the shell reads for an event kind.
pub open spec fn kind_word(k: LmkEventKind) -> Seq<char> {
    match k {
        LmkEventKind::Reclaimed => "reclaimed"@,
        LmkEventKind::Frozen => "frozen"@,
        LmkEventKind::Thawed => "thawed"@,
        LmkEventKind::Destroyed => "destroyed"@,
        LmkEventKind::Unspecified => "unknown"@,
    }
}

/// Does this kind tear the surface down?
pub open spec fn closes_surface(k: LmkEventKind) -> bool {
    k == LmkEventKind::Reclaimed || k == LmkEventKind::Destroyed
}

/// Map a daemon event to the shell-facing payload.
pub fn surface_payload(evt: &LmkEvent) -> (p: LmkSurfacePayload)
    ensures
        p.window_id@ == evt.window_id@,
        p.package_name@ == evt.package_name@,
        p.kind@ == kind_word(evt.kind),
        p.close_surface == closes_surface(evt.kind),
{
    let kind = match evt.kind {
        LmkEventKind::Reclaimed => "reclaimed",
        LmkEventKind::Frozen => "frozen",
        LmkEventKind::Thawed => "thawed",
        LmkEventKind::Destroyed => "destroyed",
        LmkEventKind::Unspecified => "unknown",
    };
    let close_surface = match evt.kind {
        LmkEventKind::Reclaimed | LmkEventKind::Destroyed => true,
        _ => false,
    };
    LmkSurfacePayload {
        window_id: evt.window_id.clone(),
        package_name: evt.package_name.clone(),
        kind: String::from_str(kind),
        close_surface,
    }
}

/// One app the daemon's LMK reclaimed or froze.
#[derive(Clone, Debug)]
pub struct LmkVictim {
    pub package_name: String,
    pub window_id: String,
    pub killed: bool,
}

/// Shell-facing victim row.
#[derive(Clone, Debug)]
pub struct LmkVictimOutcome {
    pub package_name: String,
    pub window_id: String,
    /// `true` = killed (surface torn down); `false` = frozen to Cached.
    pub killed: bool,
}

/// Map a daemon victim to a shell-facing row.
pub fn victim_outcome(v: &LmkVictim) -> (o: LmkVictimOutcome)
    ensures
        o.package_name@ == v.package_name@,
        o.window_id@ == v.window_id@,
        o.killed == v.killed,
{
    LmkVictimOutcome {
        package_name: v.package_name.clone(),
        window_id: v.window_id.clone(),
        killed: v.killed,
    }
}

/// Outcome of a debug LMK command: the victims reclaimed and a note.
#[derive(Clone, Debug)]
pub struct LmkDebugOutcome {
    pub victims: Vec<LmkVictimOutcome>,
    pub note: String,
}

/// Debug / user actions the shell can drive into the daemon's LMK.
#[derive(Clone, Copy, Debug, PartialEq, Eq, Structural)]
pub enum LmkDebugAction {
    /// Ask the daemon's LMK to reclaim this round.
    TriggerCritical,
    /// Apply a host-governor decision to one container app.
    ApplyFreeze,
    ApplyThaw,
    ApplyReclaim,
}

/// The action a frontend token names.
pub open spec fn debug_action_of(s: Seq<char>) -> Option<LmkDebugAction> {
    if s == "trigger"@ || s == "trigger_critical"@ {
        Some(LmkDebugAction::TriggerCritical)
    } else if s == "freeze"@ || s == "apply_freeze"@ {
        Some(LmkDebugAction::ApplyFreeze)
    } else if s == "thaw"@ || s == "apply_thaw"@ {
        Some(LmkDebugAction::ApplyThaw)
    } else if s == "reclaim"@ || s == "apply_reclaim"@ {
        Some(LmkDebugAction::ApplyReclaim)
    } else {
        None
    }
}

/// Parse a frontend action token; `None` for an unknown one.
pub fn parse_debug_action(s: &str) -> (r: Option<LmkDebugAction>)
    ensures
        r == debug_action_of(s@),
{
    if str_eq(s, "trigger") || str_eq(s, "trigger_critical") {
        Some(LmkDebugAction::TriggerCritical)
    } else if str_eq(s, "freeze") || str_eq(s, "apply_freeze") {
        Some(LmkDebugAction::ApplyFreeze)
    } else if str_eq(s, "thaw") || str_eq(s, "apply_thaw") {
        Some(LmkDebugAction::ApplyThaw)
    } else if str_eq(s, "reclaim") || str_eq(s, "apply_reclaim") {
        Some(LmkDebugAction::ApplyReclaim)
    } else {
        None
    }
}

/// A targeted host-governor decision.
#[derive(Clone, Copy, Debug, PartialEq, Eq, Structural)]
pub enum HostAction {
    Freeze,
    Thaw,
    Reclaim,
}

/// The host decision a debug action applies (`None` for the LMK trigger).
pub open spec fn host_of(a: LmkDebugAction) -> Option<HostAction> {
    match a {
        LmkDebugAction::ApplyFreeze => Some(HostAction::Freeze),
        LmkDebugAction::ApplyThaw => Some(HostAction::Thaw),
        LmkDebugAction::ApplyReclaim => Some(HostAction::Reclaim),
        LmkDebugAction::TriggerCritical => None,
    }
}

/// The host decision a non-trigger debug action applies.
pub fn action_to_host(a: LmkDebugAction) -> (r: Option<HostAction>)
    ensures
        r == host_of(a),
{
    match a {
        LmkDebugAction::ApplyFreeze => Some(HostAction::Freeze),
        LmkDebugAction::ApplyThaw => Some(HostAction::Thaw),
        LmkDebugAction::ApplyReclaim => Some(HostAction::Reclaim),
        LmkDebugAction::TriggerCritical => None,
    }
}

/// The one daemon request a debug command makes.
#[derive(Clone, Debug)]
pub enum LmkDebugRequest {
    /// Apply `action` to the app `package_name`.
    Apply { package_name: String, action: HostAction },
    /// Reclaim up to `budget` victims under critical pressure.
    Trigger { budget: u64 },
}

/// The refusal for an unknown action token.
pub open spec fn unknown_action_message(action: Seq<char>) -> Seq<char> {
    "unknown lmk debug action '"@ + action + "'"@
}

/// The refusal for a targeted action without a package.
pub open spec fn missing_package_message(action: Seq<char>) -> Seq<char> {
    "lmk debug '"@ + action + "' requires a package_name"@
}

/// Parse the action token, refusing an unknown one.
pub fn debug_action(action: &str) -> (r: Result<LmkDebugAction, String>)
    ensures
        match debug_action_of(action@) {
            Some(a) => r == Ok::<LmkDebugAction, String>(a),
            None => r matches Err(m) && m@ == unknown_action_message(action@),
        },
{
    match parse_debug_action(action) {
        Some(a) => Ok(a),
        None => Err(
            String::from_str("unknown lmk debug action '").concat(action).concat("'"),
        ),
    }
}

/// The request a parsed debug action makes: a targeted action needs a
/// package; the trigger reclaims `budget` victims (one when not given).
pub fn debug_request(act: LmkDebugAction, action: &str, package_name: Option<String>, budget: Option<
    u64,
>) -> (r: Result<LmkDebugRequest, String>)
    ensures
        match host_of(act) {
            Some(h) => match package_name {
                Some(p) => r matches Ok(LmkDebugRequest::Apply { package_name: q, action: a })
                    && q@ == p@ && a == h,
                None => r matches Err(m) && m@ == missing_package_message(action@),
            },
            None => r matches Ok(LmkDebugRequest::Trigger { budget: b }) && b == match budget {
                Some(x) => x,
                None => 1,
            },
        },
{
    match action_to_host(act) {
        Some(h) => match package_name {
            Some(p) => Ok(LmkDebugRequest::Apply { package_name: p, action: h }),
            None => Err(
                String::from_str("lmk debug '").concat(action).concat("' requires a package_name"),
            ),
        },
        None => {
            let b = match budget {
                Some(x) => x,
                None => 1,
            };
            Ok(LmkDebugRequest::Trigger { budget: b })
        },
    }
}

/// The answer after a host decision was applied.
pub fn applied_outcome(package_name: &str) -> (o: LmkDebugOutcome)
    ensures
        o.victims@.len() == 0,
        o.note@ == "applied host decision to "@ + package_name@,
{
    LmkDebugOutcome {
        victims: Vec::new(),
        note: String::from_str("applied host decision to ").concat(package_name),
    }
}

/// The answer after an LMK trigger: one row per victim, in order, and a note
/// with their count.
pub fn trigger_outcome(victims: &Vec<LmkVictim>) -> (o: LmkDebugOutcome)
    ensures
        o.victims@.len() == victims@.len(),
        forall|i: int|
            0 <= i < victims@.len() ==> {
                &&& (#[trigger] o.victims@[i]).package_name@ == victims@[i].package_name@
                &&& o.victims@[i].window_id@ == victims@[i].window_id@
                &&& o.victims@[i].killed == victims@[i].killed
            },
        o.note@ == "trigger_lmk returned "@ + decimal(victims@.len()) + " victim(s)"@,
{
    let mut rows: Vec<LmkVictimOutcome> = Vec::new();
    let mut i: usize = 0;
    while i < victims.len()
        invariant
            i <= victims.len(),
            rows@.len() == i,
            forall|k: int|
                0 <= k < i ==> {
                    &&& (#[trigger] rows@[k]).package_name@ == victims@[k].package_name@
                    &&& rows@[k].window_id@ == victims@[k].window_id@
                    &&& rows@[k].killed == victims@[k].killed
                },
        decreases victims.len() - i,
    {
        rows.push(victim_outcome(&victims[i]));
        i = i + 1;
    }
    let note = String::from_str("trigger_lmk returned ").concat(
        to_decimal(victims.len() as u64).as_str(),
    ).concat(" victim(s)");
    LmkDebugOutcome { victims: rows, note }
}

} // verus!
