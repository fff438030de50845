//! The two desktop-shell switches, resolved host-side.
//!
//! `AMOS_DESKTOP_SHORTCUTS` and `AMOS_DOCK_CONTEXT_MENU` each switch one
//! capability off: with the word `disabled` (any case, trimmed), or with a
//! comma list that names the variable's own capability key. Anything else
//! (including an over-long value) leaves the capability on, so a typo can only
//! fail to disable something. A variable that names the other capability's
//! key is reported as stray rather than silently dropped.
use vstd::prelude::*;

use crate::clipboard::{byte_len, utf8_len};
use crate::text::{chars_eq_ignore_case, chars_of, eq_ignore_case, trim, trim_bounds};

verus! {

/// Env var that switches the desktop shell's keyboard shortcuts.
pub const SHORTCUTS_ENV: &'static str = "AMOS_DESKTOP_SHORTCUTS";

/// Env var that switches the Dock's right-click menu.
pub const DOCK_CONTEXT_MENU_ENV: &'static str = "AMOS_DOCK_CONTEXT_MENU";

/// Longest env value that is parsed at all (bytes).
pub const MAX_ENV_VALUE_BYTES: usize = 4096;

/// The capabilities the two switches cover.
#[derive(Debug, Clone, Copy, PartialEq, Eq, Structural)]
pub enum DesktopFeature {
    /// Window shortcuts.
    Shortcuts,
    /// Dock right-click menu.
    DockContextMenu,
}

/// The key a capability is known by in the UI.
pub open spec fn key_of(f: DesktopFeature) -> Seq<char> {
    match f {
        DesktopFeature::Shortcuts => "shortcuts"@,
        DesktopFeature::DockContextMenu => "dock-context-menu"@,
    }
}

/// The variable that switches a capability.
pub open spec fn env_var_of(f: DesktopFeature) -> Seq<char> {
    match f {
        DesktopFeature::Shortcuts => SHORTCUTS_ENV@,
        DesktopFeature::DockContextMenu => DOCK_CONTEXT_MENU_ENV@,
    }
}

impl DesktopFeature {
    /// The key shared with the UI.
    pub fn key(self) -> (r: &'static str)
        ensures
            r@ == key_of(self),
    {
        match self {
            DesktopFeature::Shortcuts => "shortcuts",
            DesktopFeature::DockContextMenu => "dock-context-menu",
        }
    }

    /// The env var that switches this capability.
    pub fn env_var(self) -> (r: &'static str)
        ensures
            r@ == env_var_of(self),
    {
        match self {
            DesktopFeature::Shortcuts => SHORTCUTS_ENV,
            DesktopFeature::DockContextMenu => DOCK_CONTEXT_MENU_ENV,
        }
    }
}

/// `v[i..j]` is one comma-separated field of `v`.
pub open spec fn is_field(v: Seq<char>, i: int, j: int) -> bool {
    &&& 0 <= i <= j <= v.len()
    &&& (i == 0 || v[i - 1] == ',')
    &&& (j == v.len() || v[j] == ',')
    &&& forall|k: int| i <= k < j ==> v[k] != ','
}

/// Some comma-separated field of `v`, trimmed, is `key` (ASCII case aside).
pub open spec fn names_key(v: Seq<char>, key: Seq<char>) -> bool {
    exists|i: int, j: int|
        #![trigger is_field(v, i, j)]
        is_field(v, i, j) && eq_ignore_case(trim(v.subrange(i, j)), key)
}

/// Does the raw value of a variable switch the capability `key` off?
pub open spec fn value_disables(raw: Seq<char>, key: Seq<char>) -> bool {
    &&& byte_len(raw) <= MAX_ENV_VALUE_BYTES
    &&& trim(raw).len() > 0
    &&& (eq_ignore_case(trim(raw), "disabled"@) || names_key(trim(raw), key))
}

/// Does `raw` (the variable's value, if set) switch `feature` off?
pub open spec fn disabled_spec(feature: DesktopFeature, raw: Option<Seq<char>>) -> bool {
    match raw {
        None => false,
        Some(r) => value_disables(r, key_of(feature)),
    }
}

/// Does some comma field of `v` name `key`?
fn any_field_names(v: &Vec<char>, key: &Vec<char>) -> (r: bool)
    ensures
        r == names_key(v@, key@),
{
    let n = v.len();
    let mut start: usize = 0;
    let mut i: usize = 0;
    while i < n
        invariant
            n == v.len(),
            start <= i <= n,
            start == 0 || v@[start - 1] == ',',
            forall|k: int| start <= k < i ==> v@[k] != ',',
            forall|a: int, b: int|
                #![trigger is_field(v@, a, b)]
                is_field(v@, a, b) && b < i ==> !eq_ignore_case(trim(v@.subrange(a, b)), key@),
        decreases n - i,
    {
        if v[i] == ',' {
            proof {
                assert(is_field(v@, start as int, i as int));
            }
            let (a, b) = trim_bounds(v, start, i);
            if chars_eq_ignore_case(v, a, b, key) {
                return true;
            }
            proof {
                assert forall|x: int, y: int|
                    #![trigger is_field(v@, x, y)]
                    is_field(v@, x, y) && y < i + 1 implies !eq_ignore_case(
                        trim(v@.subrange(x, y)),
                        key@,
                    ) by {
                    if y == i {
                        if x < start {
                            assert(v@[start - 1] == ',');
                        } else if x > start {
                            assert(v@[x - 1] != ',');
                        }
                    }
                }
            }
            start = i + 1;
        } else {
            proof {
                assert forall|x: int, y: int|
                    #![trigger is_field(v@, x, y)]
                    is_field(v@, x, y) && y < i + 1 implies !eq_ignore_case(
                        trim(v@.subrange(x, y)),
                        key@,
                    ) by {
                    if y == i {
                        assert(v@[i as int] != ',');
                    }
                }
            }
        }
        i = i + 1;
    }
    // The last field runs to the end of the value.
    proof {
        assert(is_field(v@, start as int, n as int));
    }
    let (a, b) = trim_bounds(v, start, n);
    if chars_eq_ignore_case(v, a, b, key) {
        return true;
    }
    proof {
        assert forall|x: int, y: int|
            #![trigger is_field(v@, x, y)]
            is_field(v@, x, y) implies !eq_ignore_case(trim(v@.subrange(x, y)), key@) by {
            if y == n {
                if x < start {
                    assert(v@[start - 1] == ',');
                } else if x > start {
                    assert(v@[x - 1] != ',');
                }
            }
        }
    }
    false
}

fn is_word(v: &Vec<char>, word: &str) -> (r: bool)
    ensures
        r == eq_ignore_case(v@, word@),
{
    let w = chars_of(word);
    assert(v@.subrange(0, v.len() as int) =~= v@);
    chars_eq_ignore_case(v, 0, v.len(), &w)
}

/// Does the value `raw` switch `feature` off? `None` (not set), an over-long
/// value, a blank value and anything but `disabled` or a list naming the
/// feature's own key leave it on.
pub fn disabled_for(feature: DesktopFeature, raw: Option<&str>) -> (r: bool)
    ensures
        r == disabled_spec(
            feature,
            match raw {
                Some(s) => Some(s@),
                None => None,
            },
        ),
{
    let raw = match raw {
        None => return false,
        Some(s) => s,
    };
    if utf8_len(raw) > MAX_ENV_VALUE_BYTES {
        return false;
    }
    let v = chars_of(raw);
    let t = crate::desktop_entry::trimmed(&v, 0, v.len());
    proof {
        assert(v@.subrange(0, v.len() as int) =~= v@);
    }
    if t.len() == 0 {
        return false;
    }
    if is_word(&t, "disabled") {
        return true;
    }
    let key = chars_of(feature.key());
    any_field_names(&t, &key)
}

/// The other capability's key.
pub open spec fn other_of(f: DesktopFeature) -> DesktopFeature {
    match f {
        DesktopFeature::Shortcuts => DesktopFeature::DockContextMenu,
        DesktopFeature::DockContextMenu => DesktopFeature::Shortcuts,
    }
}

/// Does the raw value of `owner`'s variable name the other capability's key?
pub open spec fn stray_spec(owner: DesktopFeature, raw: Option<Seq<char>>) -> bool {
    match raw {
        None => false,
        Some(r) => byte_len(r) <= MAX_ENV_VALUE_BYTES && !eq_ignore_case(trim(r), "disabled"@)
            && names_key(trim(r), key_of(other_of(owner))),
    }
}

/// Is `owner`'s variable stray (naming the capability it does not own)?
pub fn is_stray(owner: DesktopFeature, raw: Option<&str>) -> (r: bool)
    ensures
        r == stray_spec(
            owner,
            match raw {
                Some(s) => Some(s@),
                None => None,
            },
        ),
{
    let raw = match raw {
        None => return false,
        Some(s) => s,
    };
    if utf8_len(raw) > MAX_ENV_VALUE_BYTES {
        return false;
    }
    let v = chars_of(raw);
    let t = crate::desktop_entry::trimmed(&v, 0, v.len());
    proof {
        assert(v@.subrange(0, v.len() as int) =~= v@);
    }
    if is_word(&t, "disabled") {
        return false;
    }
    let other = match owner {
        DesktopFeature::Shortcuts => DesktopFeature::DockContextMenu,
        DesktopFeature::DockContextMenu => DesktopFeature::Shortcuts,
    };
    let key = chars_of(other.key());
    any_field_names(&t, &key)
}

/// The variable's value as a plain value.
pub open spec fn opt_view(o: Option<String>) -> Option<Seq<char>> {
    match o {
        Some(s) => Some(s@),
        None => None,
    }
}

/// `lookup(var)` may answer `value`.
pub open spec fn answers<F: Fn(&str) -> Option<String>>(
    lookup: F,
    var: &str,
    value: Option<String>,
) -> bool {
    call_ensures(lookup, (var,), value)
}

/// The keys of the switched-off capabilities, in wire order, given the two
/// variables' values.
pub open spec fn disabled_keys(shortcuts: Option<Seq<char>>, dock: Option<Seq<char>>) -> Seq<
    Seq<char>,
> {
    let a = if disabled_spec(DesktopFeature::Shortcuts, shortcuts) {
        seq![key_of(DesktopFeature::Shortcuts)]
    } else {
        Seq::empty()
    };
    if disabled_spec(DesktopFeature::DockContextMenu, dock) {
        a.push(key_of(DesktopFeature::DockContextMenu))
    } else {
        a
    }
}

/// The variables that name the capability they do not own, in wire order.
pub open spec fn stray_names(shortcuts: Option<Seq<char>>, dock: Option<Seq<char>>) -> Seq<
    Seq<char>,
> {
    let a = if stray_spec(DesktopFeature::Shortcuts, shortcuts) {
        seq![SHORTCUTS_ENV@]
    } else {
        Seq::empty()
    };
    if stray_spec(DesktopFeature::DockContextMenu, dock) {
        a.push(DOCK_CONTEXT_MENU_ENV@)
    } else {
        a
    }
}

/// The static strings' plain values.
pub open spec fn strs_view(v: Seq<&'static str>) -> Seq<Seq<char>> {
    v.map_values(|s: &'static str| s@)
}

/// Resolve every switched-off capability with `lookup(env_var)`; each
/// variable is looked up once.
pub fn disabled_from<F: Fn(&str) -> Option<String>>(lookup: F) -> (r: Vec<&'static str>)
    requires
        forall|k: &str| call_requires(lookup, (k,)),
    ensures
        exists|s: Option<String>, d: Option<String>|
            answers(lookup, SHORTCUTS_ENV, s) && answers(lookup, DOCK_CONTEXT_MENU_ENV, d)
                && strs_view(r@) == disabled_keys(opt_view(s), opt_view(d)),
{
    let s = lookup(SHORTCUTS_ENV);
    let d = lookup(DOCK_CONTEXT_MENU_ENV);
    let mut r: Vec<&'static str> = Vec::new();
    let sd = match &s {
        Some(x) => disabled_for(DesktopFeature::Shortcuts, Some(x.as_str())),
        None => disabled_for(DesktopFeature::Shortcuts, None),
    };
    if sd {
        r.push(DesktopFeature::Shortcuts.key());
    }
    let ghost r1 = r@;
    let dd = match &d {
        Some(x) => disabled_for(DesktopFeature::DockContextMenu, Some(x.as_str())),
        None => disabled_for(DesktopFeature::DockContextMenu, None),
    };
    if dd {
        r.push(DesktopFeature::DockContextMenu.key());
    }
    proof {
        assert(strs_view(r1) =~= if sd {
            seq![key_of(DesktopFeature::Shortcuts)]
        } else {
            Seq::empty()
        });
        if dd {
            assert(strs_view(r@) =~= strs_view(r1).push(key_of(DesktopFeature::DockContextMenu)));
        }
        assert(answers(lookup, SHORTCUTS_ENV, s));
        assert(answers(lookup, DOCK_CONTEXT_MENU_ENV, d));
        assert(strs_view(r@) == disabled_keys(opt_view(s), opt_view(d)));
    }
    r
}

/// The variables whose value names a capability they do not own (an owned
/// key takes effect; a stray one is ignored, so it is reported).
pub fn stray_vars<F: Fn(&str) -> Option<String>>(lookup: F) -> (r: Vec<&'static str>)
    requires
        forall|k: &str| call_requires(lookup, (k,)),
    ensures
        exists|s: Option<String>, d: Option<String>|
            answers(lookup, SHORTCUTS_ENV, s) && answers(lookup, DOCK_CONTEXT_MENU_ENV, d)
                && strs_view(r@) == stray_names(opt_view(s), opt_view(d)),
{
    let s = lookup(SHORTCUTS_ENV);
    let d = lookup(DOCK_CONTEXT_MENU_ENV);
    let mut r: Vec<&'static str> = Vec::new();
    let ss = match &s {
        Some(x) => is_stray(DesktopFeature::Shortcuts, Some(x.as_str())),
        None => is_stray(DesktopFeature::Shortcuts, None),
    };
    if ss {
        r.push(SHORTCUTS_ENV);
    }
    let ghost r1 = r@;
    let ds = match &d {
        Some(x) => is_stray(DesktopFeature::DockContextMenu, Some(x.as_str())),
        None => is_stray(DesktopFeature::DockContextMenu, None),
    };
    if ds {
        r.push(DOCK_CONTEXT_MENU_ENV);
    }
    proof {
        assert(strs_view(r1) =~= if ss {
            seq![SHORTCUTS_ENV@]
        } else {
            Seq::empty()
        });
        if ds {
            assert(strs_view(r@) =~= strs_view(r1).push(DOCK_CONTEXT_MENU_ENV@));
        }
        assert(answers(lookup, SHORTCUTS_ENV, s));
        assert(answers(lookup, DOCK_CONTEXT_MENU_ENV, d));
        assert(strs_view(r@) == stray_names(opt_view(s), opt_view(d)));
    }
    r
}

/// An unset environment leaves every capability on.
pub proof fn lemma_unset_is_enabled(f: DesktopFeature)
    ensures
        !disabled_spec(f, None),
        disabled_keys(None, None).len() == 0,
{
}

} // verus!
