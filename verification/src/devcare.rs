//! Device care: the shapes of every reply, and the decisions around the
//! device-care engine.
//!
//! The engine (scan, clean plan, uninstall policy, reclaim plan) is an
//! outside component. This module holds what the bridge decides itself: the
//! backend summary, the storage percentage (never a fabricated zero), whether
//! an audit fully reached the durable trail, the outcome of an uninstall, the
//! boost tally, and how the memory view joins reclaim ids back to their
//! lifecycle states.
use vstd::prelude::*;

use crate::appstore::InstalledEntry;
use crate::text::str_eq;

verus! {

/// Env var that opts a host deployment into the filesystem backend.
pub const ROOT_ENV: &'static str = "AMOS_DEVCARE_ROOT";

/// Stability key: no scan / clean backend in this process.
pub const BACKEND_NONE: &'static str = "none";

/// Stability key: the root-confined filesystem backend.
pub const BACKEND_HOST_FS: &'static str = "host-fs";

/// Stability key: the on-device backend.
pub const BACKEND_ANDROID: &'static str = "android";

/// The authority a permission review was read from.
pub const AUTHORITY_DAEMON: &'static str = "daemon";

/// No authority was reachable: an empty review is not "nothing granted".
pub const AUTHORITY_UNAVAILABLE: &'static str = "unavailable";

/// What a package removal actually did.
#[derive(Clone, Copy, Debug, PartialEq, Eq, Structural)]
pub enum Removal {
    /// The app is confirmed removed.
    Removed,
    /// A removal request reached the platform, which confirms asynchronously.
    Launched,
}

/// The package half of a backend: the inventory and the removal, so the
/// policy preview and the enforcement read the same source.
pub trait PackageSource {
    fn inventory(&self) -> Result<Vec<InstalledEntry>, String>;

    fn uninstall(&self, id: &str) -> Result<Removal, String>;
}

/// Whole-device storage totals; an unknown reading is `None`, never zero.
#[derive(Clone, Copy, Debug, PartialEq, Eq, Structural)]
pub struct StorageTotals {
    pub total_bytes: Option<u64>,
    pub used_bytes: Option<u64>,
    pub free_bytes: Option<u64>,
}

impl StorageTotals {
    /// Nothing was measured.
    pub fn unknown() -> (t: StorageTotals)
        ensures
            t.total_bytes is None && t.used_bytes is None && t.free_bytes is None,
    {
        StorageTotals { total_bytes: None, used_bytes: None, free_bytes: None }
    }
}

/// Whether device care can do anything here, and with which backend.
#[derive(Clone, Debug, PartialEq, Eq)]
pub struct DevCareStatus {
    /// A scan backend is attached (`false`: the UI must show unknown).
    pub available: bool,
    /// The backend's stability key, or `"none"`.
    pub backend: String,
    /// The confined root, when the filesystem backend is active.
    pub root: Option<String>,
    /// A clean plan can actually be executed.
    pub can_clean: bool,
    pub scanned_items: u64,
    /// Directories the last scan could not read.
    pub unreadable_dirs: u64,
    /// The last backend error, if any.
    pub last_error: Option<String>,
}

/// One item that could not be removed.
#[derive(Clone, Debug, PartialEq, Eq)]
pub struct CleanFailureOut {
    pub uri: String,
    pub kind: String,
    pub message: String,
}

/// The honest result of a clean run.
#[derive(Clone, Debug, PartialEq, Eq)]
pub struct CleanOut {
    pub planned_items: usize,
    pub planned_bytes: u64,
    /// Bytes actually freed: confirmed removals only.
    pub freed_bytes: u64,
    pub removed: usize,
    pub failed: usize,
    /// At least one planned item could not be removed.
    pub partial: bool,
    pub failures: Vec<CleanFailureOut>,
}

/// Whether an action reached the durable audit trail.
#[derive(Clone, Debug, PartialEq, Eq)]
pub struct AuditStatus {
    /// Records the daemon confirmed persisted.
    pub recorded: u64,
    /// Records the bridge asked the daemon to persist.
    pub attempted: u64,
    /// Why not everything was recorded (`None` when all were).
    pub reason: Option<String>,
}

/// A clean result plus whether it reached the audit trail.
#[derive(Clone, Debug, PartialEq, Eq)]
pub struct CleanReply {
    pub clean: CleanOut,
    pub audit: AuditStatus,
}

/// One entry of the device-care audit trail.
#[derive(Clone, Debug, PartialEq, Eq)]
pub struct TrailEntryOut {
    pub ts: u64,
    pub op: String,
    pub resource: String,
    pub outcome: String,
    pub details: String,
}

/// The device-care slice of the durable audit trail.
#[derive(Clone, Debug, PartialEq, Eq)]
pub struct TrailOut {
    pub records: Vec<TrailEntryOut>,
    /// `false` when the daemon has no durable sink (empty is then not "nothing
    /// happened").
    pub durable: bool,
}

/// The outcome of an uninstall attempt under the device-care policy.
#[derive(Clone, Debug, PartialEq, Eq)]
pub struct UninstallOut {
    pub id: String,
    /// The app was actually removed.
    pub removed: bool,
    /// A removal request reached the platform, unconfirmed yet.
    pub launched: bool,
    /// `allowed` | `system_app` | `protected` | `unknown`.
    pub verdict: String,
    /// i18n key for the refusal reason (`None` when removed).
    pub reason_key: Option<String>,
    /// Non-localized diagnostic.
    pub message: String,
    /// Whether the attempt reached the audit trail.
    pub audit: AuditStatus,
}

/// One reclaimable app in the memory view.
#[derive(Clone, Debug, PartialEq, Eq)]
pub struct MemoryAppOut {
    pub id: String,
    /// The lifecycle key (`cached` | `background`).
    pub state: String,
}

/// The memory snapshot the memory card needs.
#[derive(Clone, Debug, PartialEq, Eq)]
pub struct MemoryOut {
    pub total_bytes: Option<u64>,
    pub available_bytes: Option<u64>,
    /// Apps in the reclaimable tiers, in the plan's order.
    pub reclaimable: Vec<MemoryAppOut>,
    pub mode: Option<String>,
    /// The governor answered (`false`: the list is empty because nobody could
    /// be asked).
    pub governor: bool,
}

/// One app a boost could not reclaim.
#[derive(Clone, Debug, PartialEq, Eq)]
pub struct BoostFailureOut {
    pub id: String,
    pub message: String,
}

/// What a memory boost asked for, and the readings around it.
#[derive(Clone, Debug, PartialEq, Eq)]
pub struct BoostOut {
    pub requested: Vec<String>,
    pub reclaimed: u64,
    pub failures: Vec<BoostFailureOut>,
    pub available_before: Option<u64>,
    pub available_after: Option<u64>,
    pub governor: bool,
    pub audit: AuditStatus,
}

/// A package plus the verdict on whether it may be uninstalled.
#[derive(Clone, Debug, PartialEq, Eq)]
pub struct AppOut {
    pub id: String,
    pub name: String,
    pub system: bool,
    pub size_bytes: Option<u64>,
    /// `allowed` | `system_app` | `protected`.
    pub verdict: String,
    pub reason_key: Option<String>,
}

/// One app and the sensitive resources it holds.
#[derive(Clone, Debug, PartialEq, Eq)]
pub struct PermRowOut {
    pub app_id: String,
    pub resources: Vec<String>,
}

/// The permission review the manager renders.
#[derive(Clone, Debug, PartialEq, Eq)]
pub struct PermReviewOut {
    pub rows: Vec<PermRowOut>,
    /// `"daemon"` or `"unavailable"`.
    pub authority: String,
}

/// The refusal when no backend is attached.
pub open spec fn no_backend_message() -> Seq<char> {
    "no device-care backend is attached"@
}

/// A command that needs a backend, asked without one: an honest error.
pub fn require_backend(attached: bool) -> (r: Result<(), String>)
    ensures
        r is Ok <==> attached,
        r matches Err(m) ==> m@ == no_backend_message(),
{
    if attached {
        Ok(())
    } else {
        Err(String::from_str("no device-care backend is attached"))
    }
}

/// The availability summary: `backend` is the attached scanner's key, if any.
pub fn status_of(
    backend: Option<&str>,
    root: Option<String>,
    can_clean: bool,
    scanned_items: u64,
    unreadable_dirs: u64,
    last_error: Option<String>,
) -> (s: DevCareStatus)
    ensures
        s.available == backend is Some,
        s.backend@ == match backend {
            Some(b) => b@,
            None => BACKEND_NONE@,
        },
        s.root == root,
        s.can_clean == can_clean,
        s.scanned_items == scanned_items,
        s.unreadable_dirs == unreadable_dirs,
        s.last_error == last_error,
{
    let available = backend.is_some();
    let name = match backend {
        Some(b) => String::from_str(b),
        None => String::from_str(BACKEND_NONE),
    };
    DevCareStatus {
        available,
        backend: name,
        root,
        can_clean,
        scanned_items,
        unreadable_dirs,
        last_error,
    }
}

/// The used share of storage in whole percent (rounded down, at most 100),
/// known only when both totals are known and the total is not zero.
pub open spec fn used_pct_spec(total: Option<u64>, used: Option<u64>) -> Option<u32> {
    match (total, used) {
        (Some(t), Some(u)) => if t > 0 {
            let p = (u as nat * 100) / (t as nat);
            Some(if p > 100 {
                100u32
            } else {
                p as u32
            })
        } else {
            None
        },
        _ => None,
    }
}

/// The used share of storage (see [`used_pct_spec`]).
pub fn used_pct(total: Option<u64>, used: Option<u64>) -> (r: Option<u32>)
    ensures
        r == used_pct_spec(total, used),
{
    match (total, used) {
        (Some(t), Some(u)) => {
            if t > 0 {
                let wide: u128 = (u as u128) * 100;
                let p: u128 = wide / (t as u128);
                if p > 100 {
                    Some(100)
                } else {
                    Some(p as u32)
                }
            } else {
                None
            }
        },
        _ => None,
    }
}

/// The reason an audit is short when the daemon gave none.
pub open spec fn no_durable_sink_reason() -> Seq<char> {
    "daemon has no durable audit sink (start it with AMOS_PRIVACY_PATH)"@
}

/// Nothing to audit.
pub fn audit_none() -> (a: AuditStatus)
    ensures
        a.recorded == 0 && a.attempted == 0 && a.reason is None,
{
    AuditStatus { recorded: 0, attempted: 0, reason: None }
}

/// The audit status from the daemon's answer: its own error wins; otherwise a
/// short count is explained by the missing durable sink.
pub fn audit_from_ingest(recorded: u64, total: u64, error: Option<String>) -> (a: AuditStatus)
    ensures
        a.recorded == recorded,
        a.attempted == total,
        match error {
            Some(e) => a.reason matches Some(r) && r@ == e@,
            None => if recorded < total {
                a.reason matches Some(r) && r@ == no_durable_sink_reason()
            } else {
                a.reason is None
            },
        },
{
    let reason = match error {
        Some(e) => Some(e),
        None => if recorded < total {
            Some(String::from_str("daemon has no durable audit sink (start it with AMOS_PRIVACY_PATH)"))
        } else {
            None
        },
    };
    AuditStatus { recorded, attempted: total, reason }
}

/// The audit status when the daemon could not be reached.
pub fn audit_unreachable(attempted: u64, error: String) -> (a: AuditStatus)
    ensures
        a.recorded == 0,
        a.attempted == attempted,
        a.reason matches Some(r) && r@ == error@,
{
    AuditStatus { recorded: 0, attempted, reason: Some(error) }
}

/// A refused (or failed) uninstall: nothing removed, nothing launched.
pub fn uninstall_refused(id: &str, verdict: &str, reason_key: Option<&str>, message: &str) -> (o:
    UninstallOut)
    ensures
        o.id@ == id@,
        !o.removed,
        !o.launched,
        o.verdict@ == verdict@,
        match reason_key {
            Some(k) => o.reason_key matches Some(x) && x@ == k@,
            None => o.reason_key is None,
        },
        o.message@ == message@,
        o.audit.attempted == 0 && o.audit.recorded == 0 && o.audit.reason is None,
{
    let reason_key = match reason_key {
        Some(k) => Some(String::from_str(k)),
        None => None,
    };
    UninstallOut {
        id: String::from_str(id),
        removed: false,
        launched: false,
        verdict: String::from_str(verdict),
        reason_key,
        message: String::from_str(message),
        audit: audit_none(),
    }
}

/// The message an accepted removal is reported with.
pub open spec fn removal_message(r: Removal) -> Seq<char> {
    match r {
        Removal::Removed => "removed"@,
        Removal::Launched => "uninstall intent launched"@,
    }
}

/// An allowed uninstall the platform took: `removed` only when confirmed,
/// `launched` when the platform confirms later.
pub fn uninstall_performed(id: &str, verdict: &str, removal: Removal) -> (o: UninstallOut)
    ensures
        o.id@ == id@,
        o.removed == (removal == Removal::Removed),
        o.launched == (removal == Removal::Launched),
        o.verdict@ == verdict@,
        o.reason_key is None,
        o.message@ == removal_message(removal),
        o.audit.attempted == 0 && o.audit.recorded == 0 && o.audit.reason is None,
{
    let (removed, launched, message) = match removal {
        Removal::Removed => (true, false, "removed"),
        Removal::Launched => (false, true, "uninstall intent launched"),
    };
    UninstallOut {
        id: String::from_str(id),
        removed,
        launched,
        verdict: String::from_str(verdict),
        reason_key: None,
        message: String::from_str(message),
        audit: audit_none(),
    }
}

/// The first inventory entry with this id, if any.
pub fn find_entry(inventory: Vec<InstalledEntry>, id: &str) -> (r: Option<InstalledEntry>)
    ensures
        match r {
            Some(e) => exists|i: int|
                0 <= i < inventory@.len() && inventory@[i] == e && e.id@ == id@ && forall|j: int|
                    0 <= j < i ==> (#[trigger] inventory@[j]).id@ != id@,
            None => forall|i: int| 0 <= i < inventory@.len() ==> (#[trigger] inventory@[i]).id@ != id@,
        },
{
    let ghost all = inventory@;
    let mut rest = inventory;
    // Walk from the back, remembering the earliest match seen so far.
    let mut found: Option<InstalledEntry> = None;
    let ghost mut at: int = -1;
    while rest.len() > 0
        invariant
            rest@ == all.take(rest@.len() as int),
            rest@.len() <= all.len(),
            match found {
                Some(e) => rest@.len() <= at < all.len() && all[at] == e && e.id@ == id@
                    && forall|j: int| rest@.len() <= j < at ==> (#[trigger] all[j]).id@ != id@,
                None => forall|j: int| rest@.len() <= j < all.len() ==> (#[trigger] all[j]).id@
                    != id@,
            },
        decreases rest@.len(),
    {
        let ghost r0 = rest@;
        let e = rest.pop().unwrap();
        proof {
            assert(r0.drop_last() =~= all.take(rest@.len() as int));
            assert(all[rest@.len() as int] == e);
        }
        if str_eq(e.id.as_str(), id) {
            proof {
                at = rest@.len() as int;
            }
            found = Some(e);
        }
    }
    found
}

/// The state of the last app with this id (the later entry of a duplicate
/// wins), or the empty text when none has it.
pub open spec fn last_state(apps: Seq<(String, String)>, id: Seq<char>) -> Seq<char>
    decreases apps.len(),
{
    if apps.len() == 0 {
        Seq::empty()
    } else if apps.last().0@ == id {
        apps.last().1@
    } else {
        last_state(apps.drop_last(), id)
    }
}

fn state_of(apps: &Vec<(String, String)>, id: &str) -> (s: String)
    ensures
        s@ == last_state(apps@, id@),
{
    let mut i = apps.len();
    proof {
        assert(apps@.take(i as int) =~= apps@);
    }
    while i > 0
        invariant
            i <= apps.len(),
            last_state(apps@, id@) == last_state(apps@.take(i as int), id@),
        decreases i,
    {
        let k = i - 1;
        proof {
            assert(apps@.take(i as int).drop_last() =~= apps@.take(k as int));
            assert(apps@.take(i as int).last() == apps@[k as int]);
        }
        if str_eq(apps[k].0.as_str(), id) {
            return apps[k].1.clone();
        }
        i = k;
    }
    proof {
        assert(apps@.take(0) =~= Seq::<(String, String)>::empty());
    }
    String::new()
}

/// The memory view: the readings, and one row per planned id (in the plan's
/// order) with that app's lifecycle state.
pub fn memory_view(
    total_bytes: Option<u64>,
    available_bytes: Option<u64>,
    apps: &Vec<(String, String)>,
    plan: &Vec<String>,
    mode: Option<String>,
    governor: bool,
) -> (m: MemoryOut)
    ensures
        m.total_bytes == total_bytes,
        m.available_bytes == available_bytes,
        m.mode == mode,
        m.governor == governor,
        m.reclaimable@.len() == plan@.len(),
        forall|i: int|
            0 <= i < plan@.len() ==> (#[trigger] m.reclaimable@[i]).id@ == plan@[i]@
                && m.reclaimable@[i].state@ == last_state(apps@, plan@[i]@),
{
    let mut rows: Vec<MemoryAppOut> = Vec::new();
    let mut i: usize = 0;
    while i < plan.len()
        invariant
            i <= plan.len(),
            rows@.len() == i,
            forall|k: int|
                0 <= k < i ==> (#[trigger] rows@[k]).id@ == plan@[k]@ && rows@[k].state@
                    == last_state(apps@, plan@[k]@),
        decreases plan.len() - i,
    {
        let id = plan[i].clone();
        let state = state_of(apps, id.as_str());
        rows.push(MemoryAppOut { id, state });
        i = i + 1;
    }
    MemoryOut { total_bytes, available_bytes, reclaimable: rows, mode, governor }
}

/// The running tally of a memory boost: one attempt per requested app.
pub struct BoostTally {
    attempts: u64,
    reclaimed: u64,
    failures: Vec<BoostFailureOut>,
}

impl BoostTally {
    /// Attempts made so far.
    pub closed spec fn attempts_spec(&self) -> nat {
        self.attempts as nat
    }

    /// Attempts the governor accepted.
    pub closed spec fn reclaimed_spec(&self) -> nat {
        self.reclaimed as nat
    }

    /// The failed attempts, in order.
    pub closed spec fn failures_spec(&self) -> Seq<BoostFailureOut> {
        self.failures@
    }

    /// Every attempt was either accepted or recorded as a failure.
    pub closed spec fn wf(&self) -> bool {
        self.attempts == self.reclaimed + self.failures@.len()
    }

    /// Nothing attempted yet.
    pub fn new() -> (t: BoostTally)
        ensures
            t.wf(),
            t.attempts_spec() == 0,
            t.reclaimed_spec() == 0,
            t.failures_spec().len() == 0,
    {
        BoostTally { attempts: 0, reclaimed: 0, failures: Vec::new() }
    }

    /// Record one attempt on `id`: accepted, or failed with its message.
    pub fn record(&mut self, id: String, outcome: Result<(), String>)
        requires
            old(self).wf(),
            old(self).attempts_spec() < u64::MAX,
        ensures
            final(self).wf(),
            final(self).attempts_spec() == old(self).attempts_spec() + 1,
            match outcome {
                Ok(()) => final(self).reclaimed_spec() == old(self).reclaimed_spec() + 1
                    && final(self).failures_spec() == old(self).failures_spec(),
                Err(m) => final(self).reclaimed_spec() == old(self).reclaimed_spec()
                    && final(self).failures_spec().len() == old(self).failures_spec().len() + 1
                    && final(self).failures_spec().last().id@ == id@
                    && final(self).failures_spec().last().message@ == m@
                    && final(self).failures_spec().drop_last() == old(self).failures_spec(),
            },
    {
        self.attempts = self.attempts + 1;
        match outcome {
            Ok(()) => {
                self.reclaimed = self.reclaimed + 1;
            },
            Err(m) => {
                let ghost before = self.failures@;
                self.failures.push(BoostFailureOut { id, message: m });
                assert(self.failures@.drop_last() =~= before);
            },
        }
    }

    /// The boost reply once every requested app had its attempt.
    pub fn finish(
        self,
        requested: Vec<String>,
        available_before: Option<u64>,
        available_after: Option<u64>,
        audit: AuditStatus,
    ) -> (b: BoostOut)
        requires
            self.wf(),
        ensures
            b.requested@ == requested@,
            b.reclaimed == self.reclaimed_spec(),
            b.failures@ == self.failures_spec(),
            b.reclaimed + b.failures@.len() == self.attempts_spec(),
            b.available_before == available_before,
            b.available_after == available_after,
            b.governor,
            b.audit == audit,
    {
        BoostOut {
            requested,
            reclaimed: self.reclaimed,
            failures: self.failures,
            available_before,
            available_after,
            governor: true,
            audit,
        }
    }
}

/// The boost reply when the governor was unreachable: nothing requested,
/// nothing audited, the one reading kept on both sides.
pub fn boost_unreachable(available_before: Option<u64>) -> (b: BoostOut)
    ensures
        b.requested@.len() == 0,
        b.reclaimed == 0,
        b.failures@.len() == 0,
        b.available_before == available_before,
        b.available_after == available_before,
        !b.governor,
        b.audit.attempted == 0 && b.audit.recorded == 0 && b.audit.reason is None,
{
    BoostOut {
        requested: Vec::new(),
        reclaimed: 0,
        failures: Vec::new(),
        available_before,
        available_after: available_before,
        governor: false,
        audit: audit_none(),
    }
}


/// The uninstall policy's verdict on one package.
#[derive(Clone, Debug, PartialEq, Eq)]
pub struct PolicyVerdict {
    /// `allowed` | `system_app` | `protected`.
    pub key: String,
    /// i18n key for a refusal.
    pub reason_key: Option<String>,
    /// The package may be removed.
    pub allowed: bool,
}

/// The audit record an uninstall attempt leaves.
#[derive(Clone, Debug, PartialEq, Eq)]
pub enum AuditPlan {
    /// The policy refused the package, with this verdict key.
    Refused { verdict: String },
    /// A removal was attempted (or the package was not installed).
    Performed { ok: bool, message: String },
}

/// An optional text by its characters.
pub open spec fn opt_text(o: Option<String>) -> Option<Seq<char>> {
    match o {
        Some(t) => Some(t@),
        None => None,
    }
}

/// A reply that removed nothing, with these fields and no audit attempt.
pub open spec fn refused_reply(
    o: UninstallOut,
    id: Seq<char>,
    verdict: Seq<char>,
    reason_key: Option<Seq<char>>,
    message: Seq<char>,
) -> bool {
    &&& o.id@ == id
    &&& !o.removed
    &&& !o.launched
    &&& o.verdict@ == verdict
    &&& opt_text(o.reason_key) == reason_key
    &&& o.message@ == message
    &&& o.audit.attempted == 0 && o.audit.recorded == 0 && o.audit.reason is None
}

/// The audit record of a policy refusal with this verdict key.
pub open spec fn audited_refusal(a: AuditPlan, key: Seq<char>) -> bool {
    a matches AuditPlan::Refused { verdict } && verdict@ == key
}

/// The audit record of an attempted removal.
pub open spec fn audited_attempt(a: AuditPlan, ok: bool, message: Seq<char>) -> bool {
    a matches AuditPlan::Performed { ok: k, message: m } && k == ok && m@ == message
}

/// The outcome of a policy refusal: the verdict's key as verdict and message,
/// its reason key, and a refusal in the audit trail.
pub open spec fn policy_refusal(
    o: UninstallOut,
    a: AuditPlan,
    id: Seq<char>,
    v: PolicyVerdict,
) -> bool {
    refused_reply(o, id, v.key@, opt_text(v.reason_key), v.key@) && audited_refusal(a, v.key@)
}

/// The outcome for a package the inventory does not list.
pub open spec fn not_installed(o: UninstallOut, a: AuditPlan, id: Seq<char>) -> bool {
    refused_reply(o, id, "unknown"@, None, "not installed"@) && audited_attempt(
        a,
        false,
        "not installed"@,
    )
}

/// The outcome of an allowed package once the store answered the removal.
pub open spec fn removal_reply(
    o: UninstallOut,
    a: AuditPlan,
    id: Seq<char>,
    v: PolicyVerdict,
    removal: Result<Removal, String>,
) -> bool {
    match removal {
        Ok(rm) => {
            &&& o.id@ == id
            &&& o.removed == (rm == Removal::Removed)
            &&& o.launched == (rm == Removal::Launched)
            &&& o.verdict@ == v.key@
            &&& o.reason_key is None
            &&& o.message@ == removal_message(rm)
            &&& o.audit.attempted == 0 && o.audit.recorded == 0 && o.audit.reason is None
            &&& audited_attempt(a, true, removal_message(rm))
        },
        Err(e) => refused_reply(o, id, v.key@, None, e@) && audited_attempt(a, false, e@),
    }
}

/// The outcome of a policy refusal of `id` with verdict `v`.
pub fn refusal_outcome(id: &str, v: &PolicyVerdict) -> (r: (UninstallOut, AuditPlan))
    ensures
        policy_refusal(r.0, r.1, id@, *v),
{
    let out = uninstall_refused(
        id,
        v.key.as_str(),
        match &v.reason_key {
            Some(k) => Some(k.as_str()),
            None => None,
        },
        v.key.as_str(),
    );
    (out, AuditPlan::Refused { verdict: v.key.clone() })
}

/// The outcome for a package that is not installed.
pub fn not_installed_outcome(id: &str) -> (r: (UninstallOut, AuditPlan))
    ensures
        not_installed(r.0, r.1, id@),
{
    let out = uninstall_refused(id, "unknown", None, "not installed");
    (out, AuditPlan::Performed { ok: false, message: String::from_str("not installed") })
}

/// The outcome of an allowed package from the store's answer to the removal.
pub fn removal_outcome(id: &str, v: &PolicyVerdict, removal: Result<Removal, String>) -> (r: (
    UninstallOut,
    AuditPlan,
))
    ensures
        removal_reply(r.0, r.1, id@, *v, removal),
{
    match removal {
        Ok(rm) => {
            let out = uninstall_performed(id, v.key.as_str(), rm);
            let message = match rm {
                Removal::Removed => String::from_str("removed"),
                Removal::Launched => String::from_str("uninstall intent launched"),
            };
            (out, AuditPlan::Performed { ok: true, message })
        },
        Err(e) => {
            let out = uninstall_refused(id, v.key.as_str(), None, e.as_str());
            (out, AuditPlan::Performed { ok: false, message: e })
        },
    }
}

/// What an uninstall of `id` answers, given the inventory the store listed:
/// not installed when no entry has the id; otherwise the first such entry is
/// judged, a refusal answers for itself, and an allowed entry is answered
/// with what the store's removal returned.
pub open spec fn listed_outcome<P: PackageSource, F: Fn(&InstalledEntry) -> PolicyVerdict>(
    packages: &P,
    id: Seq<char>,
    verdict_of: F,
    inv: Seq<InstalledEntry>,
    o: UninstallOut,
    a: AuditPlan,
) -> bool {
    ||| (forall|i: int| 0 <= i < inv.len() ==> (#[trigger] inv[i]).id@ != id) && not_installed(
        o,
        a,
        id,
    )
    ||| exists|i: int, v: PolicyVerdict|
        #![trigger call_ensures(verdict_of, (&inv[i],), v)]
        0 <= i < inv.len() && inv[i].id@ == id && (forall|j: int|
            0 <= j < i ==> (#[trigger] inv[j]).id@ != id) && call_ensures(
            verdict_of,
            (&inv[i],),
            v,
        ) && if v.allowed {
            exists|rm: Result<Removal, String>, ids: &str|
                #![trigger call_ensures(P::uninstall, (packages, ids), rm)]
                ids@ == id && call_ensures(P::uninstall, (packages, ids), rm) && removal_reply(
                    o,
                    a,
                    id,
                    v,
                    rm,
                )
        } else {
            policy_refusal(o, a, id, v)
        }
}

/// Apply the uninstall policy and perform the removal.
///
/// Policy first, twice: the package's identity is judged before anything is
/// looked up (so a pinned package is refused even when absent, and the store
/// is not asked at all), then the inventory entry the preview used is judged
/// (so a system package is refused too). Only a package both judgements allow
/// reaches the removal. `identity` is the verdict on the bare id;
/// `verdict_of` judges an entry. An inventory that cannot be read is answered
/// with its error.
pub fn uninstall_with_policy<P: PackageSource, F: Fn(&InstalledEntry) -> PolicyVerdict>(
    packages: &P,
    id: &str,
    identity: PolicyVerdict,
    verdict_of: F,
) -> (r: Result<(UninstallOut, AuditPlan), String>)
    requires
        forall|e: &InstalledEntry| call_requires(verdict_of, (e,)),
    ensures
        !identity.allowed ==> (r matches Ok((o, a)) && policy_refusal(o, a, id@, identity)),
        identity.allowed ==> match r {
            Err(e) => call_ensures(P::inventory, (packages,), Err::<Vec<InstalledEntry>, String>(e)),
            Ok((o, a)) => exists|inv: Vec<InstalledEntry>|
                #![trigger call_ensures(P::inventory, (packages,), Ok::<Vec<InstalledEntry>, String>(inv))]
                call_ensures(P::inventory, (packages,), Ok::<Vec<InstalledEntry>, String>(inv))
                    && listed_outcome(packages, id@, verdict_of, inv@, o, a),
        },
{
    if !identity.allowed {
        return Ok(refusal_outcome(id, &identity));
    }
    let read_inventory = P::inventory;
    let listed = read_inventory(packages);
    let inventory = match listed {
        Ok(v) => v,
        Err(e) => return Err(e),
    };
    proof {
        assert(listed == Ok::<Vec<InstalledEntry>, String>(inventory));
    }
    let ghost inv = inventory@;
    let entry = match find_entry(inventory, id) {
        Some(e) => e,
        None => {
            let r = not_installed_outcome(id);
            return Ok(r);
        },
    };
    let ghost at = choose|i: int|
        0 <= i < inv.len() && inv[i] == entry && entry.id@ == id@ && forall|j: int|
            0 <= j < i ==> (#[trigger] inv[j]).id@ != id@;
    let verdict = verdict_of(&entry);
    if !verdict.allowed {
        let r = refusal_outcome(id, &verdict);
        proof {
            assert(call_ensures(verdict_of, (&inv[at],), verdict));
        }
        return Ok(r);
    }
    let remove = P::uninstall;
    let removal = remove(packages, id);
    let r = removal_outcome(id, &verdict, removal);
    proof {
        assert(call_ensures(verdict_of, (&inv[at],), verdict));
        assert(call_ensures(P::uninstall, (packages, id), removal));
    }
    Ok(r)
}

/// One preview row: the entry, and the policy's verdict on it.
pub fn verdict_out(entry: &InstalledEntry, verdict: &PolicyVerdict) -> (a: AppOut)
    ensures
        a.id@ == entry.id@,
        a.name@ == entry.name@,
        a.system == entry.system,
        a.size_bytes == entry.size_bytes,
        a.verdict@ == verdict.key@,
        match verdict.reason_key {
            Some(k) => a.reason_key matches Some(x) && x@ == k@,
            None => a.reason_key is None,
        },
{
    AppOut {
        id: entry.id.clone(),
        name: entry.name.clone(),
        system: entry.system,
        size_bytes: entry.size_bytes,
        verdict: verdict.key.clone(),
        reason_key: match &verdict.reason_key {
            Some(k) => Some(k.clone()),
            None => None,
        },
    }
}

/// The preview rows for an inventory: one row per entry, in order, with the
/// entry's fields and a verdict that `verdict_of` can give that entry.
pub open spec fn preview_rows<F: Fn(&InstalledEntry) -> PolicyVerdict>(
    rows: Seq<AppOut>,
    inv: Seq<InstalledEntry>,
    verdict_of: F,
) -> bool {
    inv.len() == rows.len() && forall|i: int|
        0 <= i < inv.len() ==> (#[trigger] rows[i]).id@ == inv[i].id@ && rows[i].name@
            == inv[i].name@ && rows[i].system == inv[i].system && rows[i].size_bytes
            == inv[i].size_bytes && exists|v: PolicyVerdict|
            #![trigger call_ensures(verdict_of, (&inv[i],), v)]
            call_ensures(verdict_of, (&inv[i],), v) && rows[i].verdict@ == v.key@
}

/// The uninstall preview: one row per entry of the inventory that `packages`
/// lists, in order, each with the verdict `verdict_of` gives it (the same
/// judge the enforcement uses). An inventory that cannot be read is answered
/// with its error.
pub fn policy_preview<P: PackageSource, F: Fn(&InstalledEntry) -> PolicyVerdict>(
    packages: &P,
    verdict_of: F,
) -> (r: Result<Vec<AppOut>, String>)
    requires
        forall|e: &InstalledEntry| call_requires(verdict_of, (e,)),
    ensures
        match r {
            Ok(rows) => exists|inv: Vec<InstalledEntry>|
                #![trigger call_ensures(P::inventory, (packages,), Ok::<Vec<InstalledEntry>, String>(inv))]
                call_ensures(P::inventory, (packages,), Ok::<Vec<InstalledEntry>, String>(inv))
                    && preview_rows(rows@, inv@, verdict_of),
            Err(e) => call_ensures(P::inventory, (packages,), Err::<Vec<InstalledEntry>, String>(e)),
        },
{
    let read_inventory = P::inventory;
    let listed = read_inventory(packages);
    let inventory = match listed {
        Ok(v) => v,
        Err(e) => return Err(e),
    };
    let mut rows: Vec<AppOut> = Vec::new();
    let mut i: usize = 0;
    while i < inventory.len()
        invariant
            i <= inventory.len(),
            rows@.len() == i,
            forall|e: &InstalledEntry| call_requires(verdict_of, (e,)),
            forall|k: int|
                0 <= k < i ==> (#[trigger] rows@[k]).id@ == inventory@[k].id@ && rows@[k].name@
                    == inventory@[k].name@ && rows@[k].system == inventory@[k].system
                    && rows@[k].size_bytes == inventory@[k].size_bytes && exists|v: PolicyVerdict|
                    #![trigger call_ensures(verdict_of, (&inventory@[k],), v)]
                    call_ensures(verdict_of, (&inventory@[k],), v) && rows@[k].verdict@ == v.key@,
        decreases inventory.len() - i,
    {
        let v = verdict_of(&inventory[i]);
        rows.push(verdict_out(&inventory[i], &v));
        i = i + 1;
    }
    proof {
        assert(listed == Ok::<Vec<InstalledEntry>, String>(inventory));
        assert(preview_rows(rows@, inventory@, verdict_of));
    }
    Ok(rows)
}

} // verus!
