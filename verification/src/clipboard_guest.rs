//! Host side of the guest-container clipboard link: what each decoded guest
//! message does to the shared clipboard, what an outgoing copy sends, which
//! socket the operator configured, and the audit counters of the link.
//!
//! Every counter moves only when the thing it counts really happened, by
//! exactly one, and no other counter moves with it.
use vstd::prelude::*;

use crate::desktop_entry::trimmed;
use crate::text::{chars_of, is_blank, string_of, trim};

verus! {

/// Why a decoded guest message did (or did not) change the shared clipboard.
#[derive(Clone, Copy, Debug, PartialEq, Eq, Structural)]
pub enum GuestMsgOutcome {
    /// A real container copy was ingested.
    Ingested,
    /// Our own push echoed back: dropped.
    Echo,
    /// A change whose text is blank: dropped.
    Blank,
    /// The ingest side declined it: dropped.
    Refused,
    /// Informational acknowledgement: never an ingest.
    Ack,
}

impl GuestMsgOutcome {
    /// Did this message become a shared-clipboard entry?
    pub fn ingested(self) -> (r: bool)
        ensures
            r == (self == GuestMsgOutcome::Ingested),
    {
        match self {
            GuestMsgOutcome::Ingested => true,
            _ => false,
        }
    }
}

/// One message from the guest agent.
#[derive(Clone, Debug)]
pub enum GuestToHost {
    /// The container clipboard changed.
    ClipboardChanged { ts_ms: u64, text: String },
    /// The guest acknowledged one of our pushes.
    PushAcked { seq: u64 },
}

/// The source a container copy is ingested under.
pub const CONTAINER_SOURCE: &'static str = "android:container";

/// What the host does with one guest message before the ingest step.
#[derive(Clone, Debug)]
pub enum GuestMsgStep {
    /// Settled without ingesting.
    Done(GuestMsgOutcome),
    /// Hand this text to the shared clipboard (under [`CONTAINER_SOURCE`]).
    Ingest(String),
}

/// Act on one decoded guest message: an acknowledgement is informational; a
/// blank change is dropped; our own echo is dropped; anything else goes to the
/// ingest step. `is_self_echo` is the echo guard's verdict on the text.
pub fn guest_msg_step(msg: &GuestToHost, is_self_echo: bool) -> (r: GuestMsgStep)
    ensures
        match msg {
            GuestToHost::PushAcked { .. } => r matches GuestMsgStep::Done(o) && o
                == GuestMsgOutcome::Ack,
            GuestToHost::ClipboardChanged { text, .. } => if is_blank(text@) {
                r matches GuestMsgStep::Done(o) && o == GuestMsgOutcome::Blank
            } else if is_self_echo {
                r matches GuestMsgStep::Done(o) && o == GuestMsgOutcome::Echo
            } else {
                r matches GuestMsgStep::Ingest(t) && t@ == text@
            },
        },
{
    match msg {
        GuestToHost::ClipboardChanged { text, .. } => {
            let v = chars_of(text.as_str());
            let t = trimmed(&v, 0, v.len());
            proof {
                assert(v@.subrange(0, v.len() as int) =~= v@);
                crate::text::lemma_trim_empty_iff_blank(v@);
            }
            if t.len() == 0 {
                return GuestMsgStep::Done(GuestMsgOutcome::Blank);
            }
            if is_self_echo {
                return GuestMsgStep::Done(GuestMsgOutcome::Echo);
            }
            GuestMsgStep::Ingest(text.clone())
        },
        GuestToHost::PushAcked { .. } => GuestMsgStep::Done(GuestMsgOutcome::Ack),
    }
}

/// The outcome of the ingest step: accepted, or honestly refused.
pub fn ingest_outcome(accepted: bool) -> (o: GuestMsgOutcome)
    ensures
        o == if accepted {
            GuestMsgOutcome::Ingested
        } else {
            GuestMsgOutcome::Refused
        },
{
    if accepted {
        GuestMsgOutcome::Ingested
    } else {
        GuestMsgOutcome::Refused
    }
}

/// The refusal for a copy with no text (an image-only payload).
pub open spec fn unmappable_message() -> Seq<char> {
    "clipboard-guest: image-only payload can't mirror to a text container clipboard"@
}

/// What an outgoing copy sends to the guest, given its plain text: an
/// image-only copy is refused, a blank one sends nothing (not an error), any
/// other sends its text.
pub fn push_text(plain: Option<String>) -> (r: Result<Option<String>, String>)
    ensures
        match plain {
            None => r matches Err(m) && m@ == unmappable_message(),
            Some(t) => if is_blank(t@) {
                r matches Ok(x) && x is None
            } else {
                r matches Ok(Some(x)) && x@ == t@
            },
        },
{
    match plain {
        None => Err(
            String::from_str(
                "clipboard-guest: image-only payload can't mirror to a text container clipboard",
            ),
        ),
        Some(t) => {
            let v = chars_of(t.as_str());
            let tt = trimmed(&v, 0, v.len());
            proof {
                assert(v@.subrange(0, v.len() as int) =~= v@);
                crate::text::lemma_trim_empty_iff_blank(v@);
            }
            if tt.len() == 0 {
                Ok(None)
            } else {
                Ok(Some(t))
            }
        },
    }
}

/// Env var naming the guest clipboard socket.
pub const GUEST_SOCKET_ENV: &'static str = "AMOS_GUEST_CLIPBOARD_SOCKET";

/// The configured socket path from a raw env value: trimmed; unset and blank
/// both mean "not configured".
pub fn parse_guest_socket(raw: Option<&str>) -> (r: Option<String>)
    ensures
        match raw {
            None => r is None,
            Some(s) => if trim(s@).len() == 0 {
                r is None
            } else {
                r matches Some(p) && p@ == trim(s@)
            },
        },
{
    match raw {
        None => None,
        Some(s) => {
            let v = chars_of(s);
            let t = trimmed(&v, 0, v.len());
            proof {
                assert(v@.subrange(0, v.len() as int) =~= v@);
            }
            if t.len() == 0 {
                None
            } else {
                proof {
                    assert(t@.subrange(0, t.len() as int) =~= t@);
                }
                Some(string_of(&t, 0, t.len()))
            }
        },
    }
}

/// A counter after one event: one more, wrapping at the top of `u64`.
pub open spec fn bumped(n: u64) -> u64 {
    if n == u64::MAX {
        0
    } else {
        (n + 1) as u64
    }
}

fn bump(n: u64) -> (r: u64)
    ensures
        r == bumped(n),
{
    if n == u64::MAX {
        0
    } else {
        n + 1
    }
}

/// Serializable view of the link's counters.
#[derive(Clone, Copy, Debug, PartialEq, Eq, Structural)]
pub struct GuestLinkStatsView {
    pub pushes: u64,
    pub push_failures: u64,
    pub pushes_refused_unmappable: u64,
    pub ingests: u64,
    pub echoes_dropped: u64,
    pub blanks_dropped: u64,
    pub refuses: u64,
    pub acks: u64,
    pub dials: u64,
    pub dial_failures: u64,
}

/// All counters at zero.
pub open spec fn zero_stats() -> GuestLinkStatsView {
    GuestLinkStatsView {
        pushes: 0,
        push_failures: 0,
        pushes_refused_unmappable: 0,
        ingests: 0,
        echoes_dropped: 0,
        blanks_dropped: 0,
        refuses: 0,
        acks: 0,
        dials: 0,
        dial_failures: 0,
    }
}

impl GuestLinkStatsView {
    /// All counters at zero.
    pub fn zero() -> (v: GuestLinkStatsView)
        ensures
            v == zero_stats(),
    {
        GuestLinkStatsView {
            pushes: 0,
            push_failures: 0,
            pushes_refused_unmappable: 0,
            ingests: 0,
            echoes_dropped: 0,
            blanks_dropped: 0,
            refuses: 0,
            acks: 0,
            dials: 0,
            dial_failures: 0,
        }
    }
}

/// The counters after one classified guest message: exactly the counter of
/// its outcome moves.
pub open spec fn after_guest_msg(v: GuestLinkStatsView, o: GuestMsgOutcome) -> GuestLinkStatsView {
    match o {
        GuestMsgOutcome::Ingested => GuestLinkStatsView { ingests: bumped(v.ingests), ..v },
        GuestMsgOutcome::Echo => GuestLinkStatsView { echoes_dropped: bumped(v.echoes_dropped), ..v },
        GuestMsgOutcome::Blank => GuestLinkStatsView { blanks_dropped: bumped(v.blanks_dropped), ..v },
        GuestMsgOutcome::Refused => GuestLinkStatsView { refuses: bumped(v.refuses), ..v },
        GuestMsgOutcome::Ack => GuestLinkStatsView { acks: bumped(v.acks), ..v },
    }
}

/// Auditable counters for the host-guest link.
#[derive(Debug)]
pub struct GuestLinkStats {
    counts: GuestLinkStatsView,
}

impl View for GuestLinkStats {
    type V = GuestLinkStatsView;

    closed spec fn view(&self) -> GuestLinkStatsView {
        self.counts
    }
}

impl Default for GuestLinkStats {
    fn default() -> (s: GuestLinkStats)
        ensures
            s@ == zero_stats(),
    {
        GuestLinkStats::new()
    }
}

impl GuestLinkStats {
    /// All counters at zero.
    pub fn new() -> (s: GuestLinkStats)
        ensures
            s@ == zero_stats(),
    {
        GuestLinkStats { counts: GuestLinkStatsView::zero() }
    }

    /// Pushes actually written to the socket.
    pub fn pushes(&self) -> (n: u64)
        ensures
            n == self@.pushes,
    {
        self.counts.pushes
    }

    /// Pushes that failed at the transport.
    pub fn push_failures(&self) -> (n: u64)
        ensures
            n == self@.push_failures,
    {
        self.counts.push_failures
    }

    /// Pushes refused before the wire (unmappable payloads).
    pub fn pushes_refused_unmappable(&self) -> (n: u64)
        ensures
            n == self@.pushes_refused_unmappable,
    {
        self.counts.pushes_refused_unmappable
    }

    /// Container copies accepted into the shared clipboard.
    pub fn ingests(&self) -> (n: u64)
        ensures
            n == self@.ingests,
    {
        self.counts.ingests
    }

    /// Container changes dropped as our own echo.
    pub fn echoes_dropped(&self) -> (n: u64)
        ensures
            n == self@.echoes_dropped,
    {
        self.counts.echoes_dropped
    }

    /// Socket dial attempts.
    pub fn dials(&self) -> (n: u64)
        ensures
            n == self@.dials,
    {
        self.counts.dials
    }

    /// Dial attempts that failed.
    pub fn dial_failures(&self) -> (n: u64)
        ensures
            n == self@.dial_failures,
    {
        self.counts.dial_failures
    }

    /// Count one classified guest message under its outcome.
    pub fn record_guest_msg(&mut self, outcome: GuestMsgOutcome)
        ensures
            final(self)@ == after_guest_msg(old(self)@, outcome),
    {
        match outcome {
            GuestMsgOutcome::Ingested => {
                self.counts.ingests = bump(self.counts.ingests);
            },
            GuestMsgOutcome::Echo => {
                self.counts.echoes_dropped = bump(self.counts.echoes_dropped);
            },
            GuestMsgOutcome::Blank => {
                self.counts.blanks_dropped = bump(self.counts.blanks_dropped);
            },
            GuestMsgOutcome::Refused => {
                self.counts.refuses = bump(self.counts.refuses);
            },
            GuestMsgOutcome::Ack => {
                self.counts.acks = bump(self.counts.acks);
            },
        }
    }

    /// Count a push that reached the wire.
    pub fn record_push(&mut self)
        ensures
            final(self)@ == after_link_event(old(self)@, LinkEvent::Push),
    {
        self.counts.pushes = bump(self.counts.pushes);
    }

    /// Count a push that failed at the transport.
    pub fn record_push_failure(&mut self)
        ensures
            final(self)@ == after_link_event(old(self)@, LinkEvent::PushFailure),
    {
        self.counts.push_failures = bump(self.counts.push_failures);
    }

    /// Count a push refused before the wire.
    pub fn record_push_refused_unmappable(&mut self)
        ensures
            final(self)@ == after_link_event(old(self)@, LinkEvent::PushRefused),
    {
        self.counts.pushes_refused_unmappable = bump(self.counts.pushes_refused_unmappable);
    }

    /// Count a dial attempt.
    pub fn record_dial(&mut self)
        ensures
            final(self)@ == after_link_event(old(self)@, LinkEvent::Dial),
    {
        self.counts.dials = bump(self.counts.dials);
    }

    /// Count a dial attempt that failed.
    pub fn record_dial_failure(&mut self)
        ensures
            final(self)@ == after_link_event(old(self)@, LinkEvent::DialFailure),
    {
        self.counts.dial_failures = bump(self.counts.dial_failures);
    }

    /// Count the outcome of one outgoing push: written, refused before the
    /// wire (the copy had no text), or failed at the transport.
    pub fn record_push_outcome(&mut self, sent: bool, had_text: bool)
        ensures
            final(self)@ == if sent {
                GuestLinkStatsView { pushes: bumped(old(self)@.pushes), ..old(self)@ }
            } else if !had_text {
                GuestLinkStatsView {
                    pushes_refused_unmappable: bumped(old(self)@.pushes_refused_unmappable),
                    ..old(self)@
                }
            } else {
                GuestLinkStatsView { push_failures: bumped(old(self)@.push_failures), ..old(self)@ }
            },
    {
        if sent {
            self.record_push();
        } else if !had_text {
            self.record_push_refused_unmappable();
        } else {
            self.record_push_failure();
        }
    }

    /// A snapshot of every counter.
    pub fn snapshot(&self) -> (v: GuestLinkStatsView)
        ensures
            v == self@,
    {
        self.counts
    }
}

/// A counter that only counts events never decreases, short of wrapping at
/// the top of `u64`.
pub proof fn lemma_counters_only_grow(v: GuestLinkStatsView, o: GuestMsgOutcome)
    requires
        v.ingests < u64::MAX,
        v.echoes_dropped < u64::MAX,
        v.blanks_dropped < u64::MAX,
        v.refuses < u64::MAX,
        v.acks < u64::MAX,
    ensures
        ({
            let w = after_guest_msg(v, o);
            &&& w.ingests >= v.ingests
            &&& w.echoes_dropped >= v.echoes_dropped
            &&& w.blanks_dropped >= v.blanks_dropped
            &&& w.refuses >= v.refuses
            &&& w.acks >= v.acks
            &&& w.pushes == v.pushes
            &&& w.push_failures == v.push_failures
            &&& w.pushes_refused_unmappable == v.pushes_refused_unmappable
            &&& w.dials == v.dials
            &&& w.dial_failures == v.dial_failures
            &&& (w.ingests > v.ingests <==> o == GuestMsgOutcome::Ingested)
        }),
{
}

/// One event counted on the outgoing side of the link.
pub ghost enum LinkEvent {
    Push,
    PushFailure,
    PushRefused,
    Dial,
    DialFailure,
}

/// The counters after one outgoing-side event (what the matching `record_*`
/// method does).
pub open spec fn after_link_event(v: GuestLinkStatsView, e: LinkEvent) -> GuestLinkStatsView {
    match e {
        LinkEvent::Push => GuestLinkStatsView { pushes: bumped(v.pushes), ..v },
        LinkEvent::PushFailure => GuestLinkStatsView { push_failures: bumped(v.push_failures), ..v },
        LinkEvent::PushRefused => GuestLinkStatsView {
            pushes_refused_unmappable: bumped(v.pushes_refused_unmappable),
            ..v
        },
        LinkEvent::Dial => GuestLinkStatsView { dials: bumped(v.dials), ..v },
        LinkEvent::DialFailure => GuestLinkStatsView { dial_failures: bumped(v.dial_failures), ..v },
    }
}

/// The counters after a sequence of outgoing-side events, in order.
pub open spec fn after_link_events(v: GuestLinkStatsView, es: Seq<LinkEvent>) -> GuestLinkStatsView
    decreases es.len(),
{
    if es.len() == 0 {
        v
    } else {
        after_link_event(after_link_events(v, es.drop_last()), es.last())
    }
}

/// How many of the events are `e`.
pub open spec fn occurrences(es: Seq<LinkEvent>, e: LinkEvent) -> nat
    decreases es.len(),
{
    if es.len() == 0 {
        0
    } else {
        occurrences(es.drop_last(), e) + if es.last() == e {
            1nat
        } else {
            0nat
        }
    }
}

/// Every count of a given event is at most the number of events.
proof fn lemma_occurrences_bounded(es: Seq<LinkEvent>, e: LinkEvent)
    ensures
        occurrences(es, e) <= es.len(),
    decreases es.len(),
{
    if es.len() > 0 {
        lemma_occurrences_bounded(es.drop_last(), e);
    }
}

/// From fresh counters, any sequence of outgoing-side events, in any order,
/// leaves each counter at the number of its events and every other counter
/// at zero (for fewer events than `u64` can count).
pub proof fn lemma_snapshot_counts_events(es: Seq<LinkEvent>)
    requires
        es.len() < u64::MAX,
    ensures
        after_link_events(zero_stats(), es) == (GuestLinkStatsView {
            pushes: occurrences(es, LinkEvent::Push) as u64,
            push_failures: occurrences(es, LinkEvent::PushFailure) as u64,
            pushes_refused_unmappable: occurrences(es, LinkEvent::PushRefused) as u64,
            dials: occurrences(es, LinkEvent::Dial) as u64,
            dial_failures: occurrences(es, LinkEvent::DialFailure) as u64,
            ..zero_stats()
        }),
    decreases es.len(),
{
    if es.len() > 0 {
        let init = es.drop_last();
        lemma_snapshot_counts_events(init);
        lemma_occurrences_bounded(init, LinkEvent::Push);
        lemma_occurrences_bounded(init, LinkEvent::PushFailure);
        lemma_occurrences_bounded(init, LinkEvent::PushRefused);
        lemma_occurrences_bounded(init, LinkEvent::Dial);
        lemma_occurrences_bounded(init, LinkEvent::DialFailure);
    }
}

} // verus!
