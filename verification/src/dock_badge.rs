//! Dock badge and request-attention.
//!
//! A badge label is cut to [`MAX_BADGE_CHARS`] characters, then trimmed; an
//! empty or white-space-only label clears the badge instead of painting a
//! blank one. The ledger records the label last applied. A platform without
//! a Dock cannot bounce, and says so.
use vstd::prelude::*;

use crate::desktop_entry::trimmed;
use crate::text::{chars_of, string_of, trim};

verus! {

/// Longest badge label, in characters.
pub const MAX_BADGE_CHARS: usize = 12;

/// What kind of attention the app requests.
#[derive(Debug, Clone, Copy, PartialEq, Eq, Structural)]
pub enum AttentionLevel {
    /// Bounce once.
    Info,
    /// Bounce until the user clicks the icon.
    Critical,
}

/// The first [`MAX_BADGE_CHARS`] characters of a label.
pub open spec fn truncated(s: Seq<char>) -> Seq<char> {
    if s.len() <= MAX_BADGE_CHARS {
        s
    } else {
        s.take(MAX_BADGE_CHARS as int)
    }
}

/// Cut a label to [`MAX_BADGE_CHARS`] characters.
pub fn truncate_label(s: &str) -> (r: String)
    ensures
        r@ == truncated(s@),
{
    let v = chars_of(s);
    let n = if v.len() <= MAX_BADGE_CHARS {
        v.len()
    } else {
        MAX_BADGE_CHARS
    };
    proof {
        assert(v@.subrange(0, v.len() as int) =~= v@);
        assert(v@.take(MAX_BADGE_CHARS as int) =~= v@.subrange(0, MAX_BADGE_CHARS as int));
    }
    string_of(&v, 0, n)
}

/// The label the badge shows for a requested label: truncated, trimmed, and
/// `None` when nothing is left.
pub open spec fn sanitized(label: Option<Seq<char>>) -> Option<Seq<char>> {
    match label {
        None => None,
        Some(s) => {
            let t = trim(truncated(s));
            if t.len() == 0 {
                None
            } else {
                Some(t)
            }
        },
    }
}

/// Truncate, then collapse an empty or blank label to `None` (a clear).
pub fn sanitize_label(label: Option<String>) -> (r: Option<String>)
    ensures
        match r {
            Some(x) => sanitized(
                match label {
                    Some(s) => Some(s@),
                    None => None,
                },
            ) == Some(x@),
            None => sanitized(
                match label {
                    Some(s) => Some(s@),
                    None => None,
                },
            ) is None,
        },
{
    match label {
        None => None,
        Some(s) => {
            let cut = truncate_label(s.as_str());
            let v = chars_of(cut.as_str());
            let t = trimmed(&v, 0, v.len());
            proof {
                assert(v@.subrange(0, v.len() as int) =~= v@);
            }
            if t.len() == 0 {
                None
            } else {
                proof {
                    assert(t@.subrange(0, t.len() as int) =~= t@);
                }
                Some(string_of(&t, 0, t.len()))
            }
        },
    }
}

/// The label this process last applied (in memory only).
#[derive(Debug)]
pub struct DockBadgeState {
    label: Option<String>,
}

impl DockBadgeState {
    /// The recorded label.
    pub closed spec fn label_spec(&self) -> Option<Seq<char>> {
        match self.label {
            Some(s) => Some(s@),
            None => None,
        }
    }

    /// No badge.
    pub fn new() -> (s: DockBadgeState)
        ensures
            s.label_spec() is None,
    {
        DockBadgeState { label: None }
    }

    /// The current label.
    pub fn current(&self) -> (r: Option<String>)
        ensures
            match r {
                Some(x) => self.label_spec() == Some(x@),
                None => self.label_spec() is None,
            },
    {
        match &self.label {
            Some(s) => Some(s.clone()),
            None => None,
        }
    }

    /// Apply a requested label: sanitize it, record it, and return what the
    /// badge now shows (the value handed to the platform and the frontend).
    pub fn apply(&mut self, label: Option<String>) -> (shown: Option<String>)
        ensures
            final(self).label_spec() == sanitized(
                match label {
                    Some(s) => Some(s@),
                    None => None,
                },
            ),
            match shown {
                Some(x) => final(self).label_spec() == Some(x@),
                None => final(self).label_spec() is None,
            },
    {
        let l = sanitize_label(label);
        let shown = match &l {
            Some(s) => Some(s.clone()),
            None => None,
        };
        self.label = l;
        shown
    }
}

/// Bouncing the Dock icon on a platform that has no Dock.
pub fn request_attention_unsupported(level: AttentionLevel) -> (r: Result<(), String>)
    ensures
        r matches Err(m) && m@ == "unsupported platform"@,
{
    Err(String::from_str("unsupported platform"))
}

/// A sanitized label is never longer than the bound and never blank.
pub proof fn lemma_sanitized_is_bounded(label: Option<Seq<char>>)
    ensures
        sanitized(label) matches Some(t) ==> t.len() <= MAX_BADGE_CHARS && t.len() > 0,
{
    if let Some(s) = label {
        let c = truncated(s);
        crate::text::lemma_trim_len(c);
    }
}

} // verus!
