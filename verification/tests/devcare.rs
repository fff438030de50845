use amos_tauri::devcare::{
    audit_from_ingest, audit_unreachable, boost_unreachable, find_entry, memory_view,
    require_backend, status_of, uninstall_performed, uninstall_refused, used_pct, AuditStatus,
    BoostTally, Removal, BACKEND_HOST_FS,
};
use amos_tauri::appstore::InstalledEntry;

#[test]
fn an_unavailable_bridge_reports_unknown_rather_than_healthy() {
    let s = status_of(None, None, false, 0, 0, None);
    assert!(!s.available);
    assert_eq!(s.backend, "none");
    assert!(!s.can_clean);
    assert_eq!(
        require_backend(false).unwrap_err(),
        "no device-care backend is attached"
    );
    let s = status_of(Some(BACKEND_HOST_FS), Some("/srv".into()), true, 3, 1, None);
    assert!(s.available);
    assert_eq!(s.backend, "host-fs");
    assert_eq!(s.scanned_items, 3);
}

#[test]
fn the_used_share_is_known_only_when_both_totals_are() {
    assert_eq!(used_pct(Some(200), Some(50)), Some(25));
    assert_eq!(used_pct(Some(3), Some(2)), Some(66));
    assert_eq!(used_pct(Some(10), Some(30)), Some(100));
    assert_eq!(used_pct(Some(0), Some(0)), None);
    assert_eq!(used_pct(None, Some(1)), None);
    assert_eq!(used_pct(Some(1), None), None);
    assert_eq!(used_pct(Some(u64::MAX), Some(u64::MAX)), Some(100));
}

#[test]
fn an_audit_short_of_its_records_says_why() {
    let a = audit_from_ingest(2, 2, None);
    assert_eq!(a, AuditStatus { recorded: 2, attempted: 2, reason: None });
    let a = audit_from_ingest(0, 2, None);
    assert_eq!(
        a.reason.as_deref(),
        Some("daemon has no durable audit sink (start it with AMOS_PRIVACY_PATH)")
    );
    let a = audit_from_ingest(0, 2, Some("disk full".into()));
    assert_eq!(a.reason.as_deref(), Some("disk full"));
    let a = audit_unreachable(3, "offline".into());
    assert_eq!((a.recorded, a.attempted), (0, 3));
}

#[test]
fn uninstall_outcomes_never_claim_an_unconfirmed_removal() {
    let o = uninstall_performed("org.x", "allowed", Removal::Removed);
    assert!(o.removed && !o.launched);
    assert_eq!(o.message, "removed");
    let o = uninstall_performed("org.x", "allowed", Removal::Launched);
    assert!(!o.removed && o.launched);
    assert_eq!(o.message, "uninstall intent launched");
    let o = uninstall_refused("org.x", "protected", Some("care.uninstall.protected"), "protected");
    assert!(!o.removed && !o.launched);
    assert_eq!(o.reason_key.as_deref(), Some("care.uninstall.protected"));
    let o = uninstall_refused("org.x", "unknown", None, "not installed");
    assert_eq!(o.message, "not installed");
    assert_eq!(o.reason_key, None);
}

#[test]
fn the_first_matching_inventory_entry_is_found() {
    let inv = vec![
        InstalledEntry { id: "a".into(), name: "A".into(), size_bytes: None, system: false },
        InstalledEntry { id: "b".into(), name: "B".into(), size_bytes: None, system: true },
        InstalledEntry { id: "b".into(), name: "B2".into(), size_bytes: None, system: false },
    ];
    assert_eq!(find_entry(inv.clone(), "b").unwrap().name, "B");
    assert!(find_entry(inv, "c").is_none());
}

#[test]
fn the_memory_view_joins_plan_ids_to_their_states() {
    let apps = vec![
        ("a".to_string(), "cached".to_string()),
        ("b".to_string(), "background".to_string()),
    ];
    let plan = vec!["b".to_string(), "a".to_string(), "z".to_string()];
    let m = memory_view(Some(8), Some(2), &apps, &plan, Some("eco".into()), true);
    assert_eq!(m.reclaimable.len(), 3);
    assert_eq!(m.reclaimable[0].id, "b");
    assert_eq!(m.reclaimable[0].state, "background");
    assert_eq!(m.reclaimable[1].state, "cached");
    assert_eq!(m.reclaimable[2].state, "");
    assert!(m.governor);
}

#[test]
fn a_boost_accounts_for_every_attempt() {
    let mut t = BoostTally::new();
    t.record("a".into(), Ok(()));
    t.record("b".into(), Err("denied".into()));
    t.record("c".into(), Ok(()));
    let b = t.finish(vec!["a".into(), "b".into(), "c".into()], Some(10), Some(20), audit_from_ingest(1, 1, None));
    assert_eq!(b.reclaimed, 2);
    assert_eq!(b.failures.len(), 1);
    assert_eq!(b.failures[0].id, "b");
    assert_eq!(b.failures[0].message, "denied");
    assert!(b.governor);
    let u = boost_unreachable(Some(5));
    assert!(!u.governor);
    assert_eq!(u.available_after, Some(5));
    assert!(u.requested.is_empty());
}

use amos_tauri::devcare::{
    policy_preview, uninstall_with_policy, AuditPlan, PackageSource, PolicyVerdict,
};
use std::cell::RefCell;

struct Store {
    apps: Vec<InstalledEntry>,
    removed: RefCell<Vec<String>>,
    removal: Removal,
}

impl PackageSource for Store {
    fn inventory(&self) -> Result<Vec<InstalledEntry>, String> {
        Ok(self.apps.clone())
    }
    fn uninstall(&self, id: &str) -> Result<Removal, String> {
        self.removed.borrow_mut().push(id.to_string());
        Ok(self.removal)
    }
}

fn store() -> Store {
    Store {
        apps: vec![
            InstalledEntry { id: "org.user.app".into(), name: "App".into(), size_bytes: Some(9), system: false },
            InstalledEntry { id: "com.android.phone".into(), name: "Phone".into(), size_bytes: None, system: true },
        ],
        removed: RefCell::new(Vec::new()),
        removal: Removal::Removed,
    }
}

fn allowed() -> PolicyVerdict {
    PolicyVerdict { key: "allowed".into(), reason_key: None, allowed: true }
}

fn judge(e: &InstalledEntry) -> PolicyVerdict {
    if e.system {
        PolicyVerdict {
            key: "system_app".into(),
            reason_key: Some("care.uninstall.system".into()),
            allowed: false,
        }
    } else {
        allowed()
    }
}

#[test]
fn uninstall_refuses_a_protected_package_before_touching_the_store() {
    let s = store();
    let pinned = PolicyVerdict {
        key: "protected".into(),
        reason_key: Some("care.uninstall.protected".into()),
        allowed: false,
    };
    let (out, audit) = uninstall_with_policy(&s, "com.android.settings", pinned, judge).unwrap();
    assert!(!out.removed, "a protected package is never removed");
    assert!(!out.launched);
    assert_eq!(out.id, "com.android.settings");
    assert_eq!(out.verdict, "protected");
    assert_eq!(out.reason_key.as_deref(), Some("care.uninstall.protected"));
    assert_eq!(out.message, "protected");
    assert_eq!(out.audit.attempted, 0);
    assert_eq!(audit, AuditPlan::Refused { verdict: "protected".into() });
    assert!(s.removed.borrow().is_empty());
}

#[test]
fn a_platform_flagged_package_is_refused_as_a_system_app() {
    let s = store();
    let (out, audit) = uninstall_with_policy(&s, "com.android.phone", allowed(), judge).unwrap();
    assert!(!out.removed);
    assert_eq!(out.verdict, "system_app");
    assert_eq!(out.reason_key.as_deref(), Some("care.uninstall.system"));
    assert_eq!(audit, AuditPlan::Refused { verdict: "system_app".into() });
    assert!(s.removed.borrow().is_empty());
}

#[test]
fn uninstall_of_an_uninstalled_app_is_audited_as_not_removed() {
    let s = store();
    let (out, audit) = uninstall_with_policy(&s, "org.absent", allowed(), judge).unwrap();
    assert_eq!(out.verdict, "unknown");
    assert_eq!(out.message, "not installed");
    assert_eq!(audit, AuditPlan::Performed { ok: false, message: "not installed".into() });
}

#[test]
fn an_allowed_package_is_removed_and_a_launched_one_is_not_claimed() {
    let s = store();
    let (out, audit) = uninstall_with_policy(&s, "org.user.app", allowed(), judge).unwrap();
    assert!(out.removed);
    assert_eq!(audit, AuditPlan::Performed { ok: true, message: "removed".into() });
    assert_eq!(*s.removed.borrow(), vec!["org.user.app".to_string()]);
    let mut s = store();
    s.removal = Removal::Launched;
    let (out, _) = uninstall_with_policy(&s, "org.user.app", allowed(), judge).unwrap();
    assert!(!out.removed && out.launched);
}

#[test]
fn the_preview_and_the_enforcement_agree_for_every_package() {
    let s = store();
    let rows = policy_preview(&s, judge).unwrap();
    assert_eq!(rows.len(), 2);
    for row in &rows {
        let (out, _) = uninstall_with_policy(&store(), &row.id, allowed(), judge).unwrap();
        assert_eq!(out.verdict, row.verdict);
    }
    assert_eq!(rows[1].reason_key.as_deref(), Some("care.uninstall.system"));
}

#[test]
fn an_unreachable_governor_never_fakes_a_reading() {
    let v = memory_view(None, None, &vec![], &vec![], None, false);
    assert_eq!(v.total_bytes, None);
    assert_eq!(v.available_bytes, None, "unknown, not a fabricated 0");
    assert!(v.reclaimable.is_empty());
    assert!(!v.governor, "the view states that the governor could not be asked");
}

#[test]
fn policy_preview_of_an_empty_registry_is_empty() {
    let s = Store { apps: vec![], removed: RefCell::new(Vec::new()), removal: Removal::Removed };
    assert!(policy_preview(&s, judge).expect("registry is readable").is_empty());
}

#[test]
fn uninstall_policy_holds_for_a_pinned_package_not_in_the_registry() {
    let s = Store { apps: vec![], removed: RefCell::new(Vec::new()), removal: Removal::Removed };
    let pinned = PolicyVerdict {
        key: "protected".into(),
        reason_key: Some("care.uninstall.protected".into()),
        allowed: false,
    };
    let (out, audit) = uninstall_with_policy(&s, "com.amos.devocare", pinned, judge).expect("policy runs");
    assert_eq!(out.verdict, "protected");
    assert_eq!(audit, AuditPlan::Refused { verdict: "protected".into() });
}

struct Broken;

impl PackageSource for Broken {
    fn inventory(&self) -> Result<Vec<InstalledEntry>, String> {
        Err("registry unreadable".to_string())
    }
    fn uninstall(&self, _id: &str) -> Result<Removal, String> {
        Err("never asked".to_string())
    }
}

#[test]
fn an_unreadable_inventory_is_answered_with_its_error() {
    let r = uninstall_with_policy(&Broken, "org.user.app", allowed(), judge);
    assert_eq!(r.unwrap_err(), "registry unreadable");
    assert_eq!(policy_preview(&Broken, judge).unwrap_err(), "registry unreadable");
}

struct Failing(Store);

impl PackageSource for Failing {
    fn inventory(&self) -> Result<Vec<InstalledEntry>, String> {
        self.0.inventory()
    }
    fn uninstall(&self, _id: &str) -> Result<Removal, String> {
        Err("device busy".to_string())
    }
}

#[test]
fn a_store_refusal_is_passed_on_and_audited_as_failed() {
    let mut s = store();
    s.apps.push(InstalledEntry { id: "org.fails".into(), name: "F".into(), size_bytes: None, system: false });
    let f = Failing(s);
    let (out, audit) = uninstall_with_policy(&f, "org.fails", allowed(), judge).unwrap();
    assert!(!out.removed && !out.launched);
    assert_eq!(out.verdict, "allowed");
    assert_eq!(out.reason_key, None);
    assert_eq!(out.message, "device busy");
    assert_eq!(audit, AuditPlan::Performed { ok: false, message: "device busy".into() });
}
