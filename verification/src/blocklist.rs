//! Spam blocking: where the rules are stored, the shapes the UI reads, the
//! honest status of call screening, and the SMS thread filter.
//!
//! The rule engine itself is an outside component; this module holds the
//! decisions around it: which file persists the list, whether SMS filtering
//! is armed at all, what the status reply says on a host without the Call
//! Screening role, and which threads survive the filter.
use vstd::prelude::*;

verus! {

/// File name inside the app data dir.
pub const BLOCKLIST_FILE: &'static str = "blocklist.json";

/// `dir` joined with the relative file name `name`, as a path: a separator is
/// inserted unless `dir` is empty or already ends with one.
pub open spec fn path_join(dir: Seq<char>, name: Seq<char>) -> Seq<char> {
    if dir.len() == 0 || dir.last() == '/' {
        dir + name
    } else {
        dir + seq!['/'] + name
    }
}

/// The persistence file inside an app data dir.
pub fn file_in(data_dir: &str) -> (p: String)
    ensures
        p@ == path_join(data_dir@, BLOCKLIST_FILE@),
{
    let v = crate::text::chars_of(data_dir);
    let n = v.len();
    if n == 0 || v[n - 1] == '/' {
        String::from_str(data_dir).concat(BLOCKLIST_FILE)
    } else {
        proof {
            reveal_strlit("/");
        }
        String::from_str(data_dir).concat("/").concat(BLOCKLIST_FILE)
    }
}

/// Serializable mirror of a rule.
#[derive(Clone, Debug, PartialEq)]
pub struct RuleOut {
    pub id: String,
    pub pattern: String,
    pub kind: String,
    pub channel: String,
    pub label: String,
    pub created_ms: i64,
}

/// Serializable mirror of the whole list.
#[derive(Clone, Debug, PartialEq)]
pub struct BlocklistOut {
    pub block_unknown: bool,
    pub rules: Vec<RuleOut>,
}

/// Whether call blocking is actually live: rules alone are not enough, the
/// OS role is.
#[derive(Clone, Copy, Debug, PartialEq, Eq, Structural)]
pub struct BlocklistStatusOut {
    /// At least one rule covers calls.
    pub has_call_rules: bool,
    /// At least one rule covers SMS.
    pub has_sms_rules: bool,
    /// The platform supports the Call Screening role.
    pub role_supported: bool,
    /// The role is held, i.e. rejection is live.
    pub role_held: bool,
    /// A role request can actually be delivered.
    pub role_requestable: bool,
}

/// The role probe on a host: no Call Screening role, and nothing to ask.
pub fn role_probe() -> (r: (bool, bool, bool))
    ensures
        r == (false, false, false),
{
    (false, false, false)
}

/// The status reply: what the rules cover, and what the role probe found.
pub fn status_of(has_call_rules: bool, has_sms_rules: bool) -> (s: BlocklistStatusOut)
    ensures
        s == (BlocklistStatusOut {
            has_call_rules,
            has_sms_rules,
            role_supported: false,
            role_held: false,
            role_requestable: false,
        }),
{
    let (role_supported, role_held, role_requestable) = role_probe();
    BlocklistStatusOut {
        has_call_rules,
        has_sms_rules,
        role_supported,
        role_held,
        role_requestable,
    }
}

/// Asking for the Call Screening role on a host is an explicit refusal.
pub fn request_screening_role() -> (r: Result<bool, String>)
    ensures
        r matches Err(m) && m@ == "call screening role is only available on Android"@,
{
    Err(String::from_str("call screening role is only available on Android"))
}

/// Can the SMS read path hide a thread at all? A rule covering SMS, or the
/// unknown-number switch (an unparseable sender counts as unknown).
pub fn filters_sms(has_sms_rules: bool, block_unknown: bool) -> (r: bool)
    ensures
        r == (has_sms_rules || block_unknown),
{
    has_sms_rules || block_unknown
}

/// The threads a filter keeps, in order: those not marked blocked.
pub open spec fn kept_of<T>(threads: Seq<T>, blocked: Seq<bool>) -> Seq<T>
    decreases threads.len(),
{
    if threads.len() == 0 {
        Seq::empty()
    } else {
        let k = kept_of(threads.drop_last(), blocked.drop_last());
        if blocked.last() {
            k
        } else {
            k.push(threads.last())
        }
    }
}

/// The kept threads are no more than the threads.
pub proof fn lemma_kept_len<T>(threads: Seq<T>, blocked: Seq<bool>)
    ensures
        kept_of(threads, blocked).len() <= threads.len(),
    decreases threads.len(),
{
    if threads.len() > 0 {
        lemma_kept_len(threads.drop_last(), blocked.drop_last());
    }
}

/// Drop the blocked threads (`blocked[i]` says whether the sender of
/// `threads[i]` is blocked). Returns the kept threads, in order, and how many
/// were hidden.
pub fn filter_threads<T>(threads: Vec<T>, blocked: &Vec<bool>) -> (r: (Vec<T>, usize))
    requires
        blocked@.len() == threads@.len(),
    ensures
        r.0@ == kept_of(threads@, blocked@),
        r.1 == threads@.len() - r.0@.len(),
{
    let ghost all = threads@;
    let before = threads.len();
    let mut rest = threads;
    // Kept threads of the processed tail, last first.
    let mut rev: Vec<T> = Vec::new();
    let ghost mut tail_kept: Seq<T> = Seq::empty();
    proof {
        assert(blocked@.take(all.len() as int) =~= blocked@);
        assert(all.take(all.len() as int) =~= all);
        assert(kept_of(all, blocked@) + tail_kept =~= kept_of(all, blocked@));
    }
    while rest.len() > 0
        invariant
            blocked@.len() == all.len(),
            rest@ == all.take(rest@.len() as int),
            rest@.len() <= all.len(),
            // kept_of(all) == kept_of(rest) + tail_kept, and rev is tail_kept reversed
            kept_of(all, blocked@) == kept_of(rest@, blocked@.take(rest@.len() as int))
                + tail_kept,
            rev@ == tail_kept.reverse(),
        decreases rest@.len(),
    {
        let i = rest.len() - 1;
        let ghost r0 = rest@;
        let t = rest.pop().unwrap();
        proof {
            assert(r0.drop_last() =~= all.take(i as int));
            assert(blocked@.take(i + 1).drop_last() =~= blocked@.take(i as int));
            assert(blocked@.take(i + 1).last() == blocked@[i as int]);
        }
        if !blocked[i] {
            let ghost rv = rev@;
            rev.push(t);
            proof {
                assert(rev@ =~= (seq![t] + tail_kept).reverse());
                assert(kept_of(r0, blocked@.take(i + 1)) == kept_of(rest@, blocked@.take(
                    i as int,
                )).push(t));
                assert(kept_of(rest@, blocked@.take(i as int)).push(t) + tail_kept =~= kept_of(
                    rest@,
                    blocked@.take(i as int),
                ) + (seq![t] + tail_kept));
                tail_kept = seq![t] + tail_kept;
            }
        }
    }
    proof {
        assert(kept_of(rest@, blocked@.take(0)) =~= Seq::<T>::empty());
        assert(kept_of(all, blocked@) =~= tail_kept);
    }
    // Undo the reversal.
    let mut kept: Vec<T> = Vec::new();
    while rev.len() > 0
        invariant
            rev@ + kept@.reverse() == tail_kept.reverse(),
        decreases rev@.len(),
    {
        let ghost r0 = rev@;
        let ghost k0 = kept@;
        let t = rev.pop().unwrap();
        kept.push(t);
        proof {
            assert(kept@.reverse() =~= seq![t] + k0.reverse());
            assert(r0 =~= rev@.push(t));
            assert(rev@ + kept@.reverse() =~= r0 + k0.reverse());
        }
    }
    proof {
        assert(kept@.reverse() =~= tail_kept.reverse());
        assert(kept@ =~= kept@.reverse().reverse());
        assert(tail_kept =~= tail_kept.reverse().reverse());
        lemma_kept_len(all, blocked@);
    }
    let hidden = before - kept.len();
    (kept, hidden)
}

} // verus!
