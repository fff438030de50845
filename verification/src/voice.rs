//! Assistant always-on voice: the decisions around the resident microphone
//! stream.
//!
//! Each daemon reply chunk becomes the events relayed to the WebView (an
//! error is relayed but does not end the turn; `done` ends it with the
//! accumulated text). The capture side segments utterances with a
//! trailing-silence gate: after enough silent frames following speech, the
//! utterance is submitted.
use vstd::prelude::*;

use crate::text::{decimal, to_decimal};

verus! {

/// Event name for every assistant-voice status / reply frame.
pub const VOICE_EVENT: &'static str = "assistant-voice-event";

/// The ASR sample rate the capture is down-sampled to.
pub const ASR_RATE_HZ: u32 = 16000;

/// One event the voice link relays to its consumer.
#[derive(Clone, Debug, PartialEq)]
pub enum VoiceEvent {
    /// The stream is open and ready to accept mic frames.
    Listening { session: String },
    /// A token of the assistant's streaming reply.
    Token { session: String, token: String },
    /// A full assistant reply finished.
    TurnDone { session: String, text: String },
    /// The daemon closed the stream.
    Stopped { session: String },
    /// A stream error.
    Error { session: String, message: String },
}

/// The wire mirror of [`VoiceEvent`], one `assistant-voice-event` payload.
#[derive(Clone, Debug)]
pub enum VoiceEventPayload {
    Listening { session: String },
    Token { session: String, token: String },
    TurnDone { session: String, text: String },
    Stopped { session: String },
    Error { session: String, message: String },
}

/// A voice event as plain values.
pub enum EventModel {
    Listening { session: Seq<char> },
    Token { session: Seq<char>, token: Seq<char> },
    TurnDone { session: Seq<char>, text: Seq<char> },
    Stopped { session: Seq<char> },
    Error { session: Seq<char>, message: Seq<char> },
}

impl View for VoiceEvent {
    type V = EventModel;

    open spec fn view(&self) -> EventModel {
        match self {
            VoiceEvent::Listening { session } => EventModel::Listening { session: session@ },
            VoiceEvent::Token { session, token } => EventModel::Token {
                session: session@,
                token: token@,
            },
            VoiceEvent::TurnDone { session, text } => EventModel::TurnDone {
                session: session@,
                text: text@,
            },
            VoiceEvent::Stopped { session } => EventModel::Stopped { session: session@ },
            VoiceEvent::Error { session, message } => EventModel::Error {
                session: session@,
                message: message@,
            },
        }
    }
}

impl View for VoiceEventPayload {
    type V = EventModel;

    open spec fn view(&self) -> EventModel {
        match self {
            VoiceEventPayload::Listening { session } => EventModel::Listening { session: session@ },
            VoiceEventPayload::Token { session, token } => EventModel::Token {
                session: session@,
                token: token@,
            },
            VoiceEventPayload::TurnDone { session, text } => EventModel::TurnDone {
                session: session@,
                text: text@,
            },
            VoiceEventPayload::Stopped { session } => EventModel::Stopped { session: session@ },
            VoiceEventPayload::Error { session, message } => EventModel::Error {
                session: session@,
                message: message@,
            },
        }
    }
}

/// The wire payload of an event: same kind, same fields.
pub fn to_payload(e: &VoiceEvent) -> (p: VoiceEventPayload)
    ensures
        p@ == e@,
{
    match e {
        VoiceEvent::Listening { session } => VoiceEventPayload::Listening {
            session: session.clone(),
        },
        VoiceEvent::Token { session, token } => VoiceEventPayload::Token {
            session: session.clone(),
            token: token.clone(),
        },
        VoiceEvent::TurnDone { session, text } => VoiceEventPayload::TurnDone {
            session: session.clone(),
            text: text.clone(),
        },
        VoiceEvent::Stopped { session } => VoiceEventPayload::Stopped { session: session.clone() },
        VoiceEvent::Error { session, message } => VoiceEventPayload::Error {
            session: session.clone(),
            message: message.clone(),
        },
    }
}

/// One daemon reply chunk, as far as the voice link reads it.
#[derive(Clone, Debug)]
pub struct AgentChunk {
    pub token: String,
    pub done: bool,
    pub error: String,
}

/// The events one chunk relays: its error (if any), its token (if any), then
/// the finished turn when it is the last chunk of the turn.
pub open spec fn chunk_events(c: AgentChunk, session: Seq<char>, full: Seq<char>) -> Seq<EventModel> {
    let e = if c.error@.len() > 0 {
        seq![EventModel::Error { session, message: c.error@ }]
    } else {
        Seq::empty()
    };
    let t = if c.token@.len() > 0 {
        e.push(EventModel::Token { session, token: c.token@ })
    } else {
        e
    };
    if c.done {
        t.push(EventModel::TurnDone { session, text: turn_text(c, full) })
    } else {
        t
    }
}

/// The turn's text after this chunk's token is added.
pub open spec fn turn_text(c: AgentChunk, full: Seq<char>) -> Seq<char> {
    if c.token@.len() > 0 {
        full + c.token@
    } else {
        full
    }
}

/// The events' plain values.
pub open spec fn events_view(v: Seq<VoiceEvent>) -> Seq<EventModel> {
    v.map_values(|e: VoiceEvent| e@)
}

/// Reduce one chunk into the events to relay, accumulating its token into
/// `full`. A `done` chunk finishes the turn with the accumulated text and
/// resets `full`; an error is relayed but keeps the turn going.
pub fn on_chunk(chunk: &AgentChunk, session: &str, full: &mut String) -> (out: Vec<VoiceEvent>)
    ensures
        events_view(out@) == chunk_events(*chunk, session@, old(full)@),
        final(full)@ == if chunk.done {
            Seq::<char>::empty()
        } else {
            turn_text(*chunk, old(full)@)
        },
        chunk.done ==> events_view(out@).len() > 0 && events_view(out@).last()
            == (EventModel::TurnDone { session: session@, text: old(full)@ + chunk.token@ }),
        !chunk.done ==> final(full)@ == old(full)@ + chunk.token@,
{
    let mut out: Vec<VoiceEvent> = Vec::new();
    let ghost f0 = full@;
    if chunk.error.as_str().unicode_len() > 0 {
        out.push(
            VoiceEvent::Error {
                session: String::from_str(session),
                message: chunk.error.clone(),
            },
        );
    }
    let ghost after_error = out@;
    assert(events_view(out@) =~= if chunk.error@.len() > 0 {
        seq![EventModel::Error { session: session@, message: chunk.error@ }]
    } else {
        Seq::empty()
    });
    if chunk.token.as_str().unicode_len() > 0 {
        let mut prev = String::new();
        std::mem::swap(&mut prev, full);
        *full = prev.concat(chunk.token.as_str());
        out.push(VoiceEvent::Token { session: String::from_str(session), token: chunk.token.clone() });
        assert(events_view(out@) =~= events_view(after_error).push(
            EventModel::Token { session: session@, token: chunk.token@ },
        ));
    }
    assert(full@ == turn_text(*chunk, f0));
    assert(chunk.token@.len() == 0 ==> f0 + chunk.token@ =~= f0);
    if chunk.done {
        let ghost before = out@;
        let mut text = String::new();
        std::mem::swap(&mut text, full);
        out.push(VoiceEvent::TurnDone { session: String::from_str(session), text });
        assert(events_view(out@) =~= events_view(before).push(
            EventModel::TurnDone { session: session@, text: turn_text(*chunk, f0) },
        ));
    }
    out
}

/// Refuse a microphone rate the resident capture cannot serve: it only ever
/// down-samples to [`ASR_RATE_HZ`].
pub fn check_mic_rate(mic_rate: u32) -> (r: Result<(), String>)
    ensures
        r is Ok <==> mic_rate >= ASR_RATE_HZ,
        r matches Err(m) ==> m@ == "mic rate "@ + decimal(mic_rate as nat)
            + " is below the 16 kHz ASR target and up-sampling is unsupported"@,
{
    if mic_rate < ASR_RATE_HZ {
        return Err(
            String::from_str("mic rate ").concat(to_decimal(mic_rate as u64).as_str()).concat(
                " is below the 16 kHz ASR target and up-sampling is unsupported",
            ),
        );
    }
    Ok(())
}

/// Samples read from the microphone per round: about 10 ms, clamped to
/// `[160, 3200]`.
pub fn mic_chunk_len(mic_rate: u32) -> (n: usize)
    ensures
        n == if mic_rate / 100 < 160 {
            160
        } else if mic_rate / 100 > 3200 {
            3200
        } else {
            (mic_rate / 100) as int
        },
{
    let per = mic_rate / 100;
    if per < 160 {
        160
    } else if per > 3200 {
        3200
    } else {
        per as usize
    }
}

/// What the capture does with one 10 ms frame.
#[derive(Clone, Copy, Debug, PartialEq, Eq, Structural)]
pub struct FrameAction {
    /// Transmit the frame as audio.
    pub send_audio: bool,
    /// Submit the utterance after it.
    pub end_utterance: bool,
}

/// Trailing-silence utterance gate: once speech was heard, `end_gap`
/// consecutive silent frames submit the utterance.
pub struct UtteranceGate {
    heard: bool,
    silent: usize,
    end_gap: usize,
    submitted: usize,
}

impl UtteranceGate {
    /// Has speech been heard in the current utterance?
    pub closed spec fn heard_spec(&self) -> bool {
        self.heard
    }

    /// Silent frames since the last speech.
    pub closed spec fn silent_spec(&self) -> nat {
        self.silent as nat
    }

    /// Silent frames that end an utterance.
    pub closed spec fn end_gap_spec(&self) -> nat {
        self.end_gap as nat
    }

    /// Utterances submitted so far.
    pub closed spec fn submitted_spec(&self) -> nat {
        self.submitted as nat
    }

    /// The invariant: the count of silent frames stays below the gap,
    /// and silence is only counted after speech.
    pub closed spec fn wf(&self) -> bool {
        &&& self.end_gap >= 1
        &&& self.silent < self.end_gap
        &&& (!self.heard ==> self.silent == 0)
    }

    /// A gate for `end_silence_frames` (at least one).
    pub fn new(end_silence_frames: usize) -> (g: UtteranceGate)
        ensures
            g.wf(),
            !g.heard_spec(),
            g.silent_spec() == 0,
            g.submitted_spec() == 0,
            g.end_gap_spec() == if end_silence_frames == 0 {
                1
            } else {
                end_silence_frames as nat
            },
    {
        let end_gap = if end_silence_frames == 0 {
            1
        } else {
            end_silence_frames
        };
        UtteranceGate { heard: false, silent: 0, end_gap, submitted: 0 }
    }

    /// Utterances submitted so far.
    pub fn submitted(&self) -> (n: usize)
        ensures
            n == self.submitted_spec(),
    {
        self.submitted
    }

    /// One frame: transmit it when it is speech (or silence is fed too);
    /// speech resets the silent-frame count; the `end_gap`-th silent frame
    /// after speech submits the utterance and starts over.
    pub fn on_frame(&mut self, speech: bool, feed_silence: bool) -> (a: FrameAction)
        requires
            old(self).wf(),
            old(self).submitted_spec() < usize::MAX,
        ensures
            final(self).wf(),
            final(self).end_gap_spec() == old(self).end_gap_spec(),
            a.send_audio == (speech || feed_silence),
            a.end_utterance == (!speech && old(self).heard_spec() && old(self).silent_spec() + 1
                == old(self).end_gap_spec()),
            speech ==> final(self).heard_spec() && final(self).silent_spec() == 0,
            !speech && !old(self).heard_spec() ==> !final(self).heard_spec()
                && final(self).silent_spec() == 0,
            !speech && old(self).heard_spec() && !a.end_utterance ==> final(self).heard_spec()
                && final(self).silent_spec() == old(self).silent_spec() + 1,
            a.end_utterance ==> !final(self).heard_spec() && final(self).silent_spec() == 0,
            final(self).submitted_spec() == old(self).submitted_spec() + if a.end_utterance {
                1nat
            } else {
                0nat
            },
    {
        let send_audio = speech || feed_silence;
        let mut end_utterance = false;
        if speech {
            self.heard = true;
            self.silent = 0;
        } else if self.heard {
            self.silent = self.silent + 1;
            if self.silent >= self.end_gap {
                end_utterance = true;
                self.submitted = self.submitted + 1;
                self.heard = false;
                self.silent = 0;
            }
        }
        FrameAction { send_audio, end_utterance }
    }

    /// The capture ended: an utterance with speech in it is still submitted.
    pub fn on_capture_end(&mut self) -> (end_utterance: bool)
        requires
            old(self).wf(),
            old(self).submitted_spec() < usize::MAX,
        ensures
            end_utterance == old(self).heard_spec(),
            final(self).submitted_spec() == old(self).submitted_spec() + if end_utterance {
                1nat
            } else {
                0nat
            },
            final(self).wf(),
            !final(self).heard_spec(),
    {
        let end = self.heard;
        if end {
            self.submitted = self.submitted + 1;
            self.heard = false;
            self.silent = 0;
        }
        end
    }
}

/// A voice-session request reaches nothing before a session was started.
pub fn require_active<T>(active: Option<T>) -> (r: Result<T, String>)
    ensures
        match active {
            Some(t) => r == Ok::<T, String>(t),
            None => r matches Err(m) && m@ == "no active voice session; start it first"@,
        },
{
    match active {
        Some(t) => Ok(t),
        None => Err(String::from_str("no active voice session; start it first")),
    }
}

/// Every token of a run of chunks, in order.
pub open spec fn tokens_of(cs: Seq<AgentChunk>) -> Seq<char>
    decreases cs.len(),
{
    if cs.len() == 0 {
        Seq::empty()
    } else {
        tokens_of(cs.drop_last()) + cs.last().token@
    }
}

/// The accumulated turn text after feeding a run of chunks to [`on_chunk`]
/// (what its contract says of `full` after each call).
pub open spec fn full_after(full: Seq<char>, cs: Seq<AgentChunk>) -> Seq<char>
    decreases cs.len(),
{
    if cs.len() == 0 {
        full
    } else {
        let before = full_after(full, cs.drop_last());
        if cs.last().done {
            Seq::empty()
        } else {
            turn_text(cs.last(), before)
        }
    }
}

/// Chunks that do not finish the turn accumulate all their tokens, in order.
pub proof fn lemma_tokens_accumulate(cs: Seq<AgentChunk>)
    requires
        forall|i: int| 0 <= i < cs.len() ==> !(#[trigger] cs[i]).done,
    ensures
        full_after(Seq::empty(), cs) == tokens_of(cs),
    decreases cs.len(),
{
    if cs.len() > 0 {
        let init = cs.drop_last();
        assert forall|i: int| 0 <= i < init.len() implies !(#[trigger] init[i]).done by {
            assert(init[i] == cs[i]);
        }
        lemma_tokens_accumulate(init);
        assert(!cs[cs.len() - 1].done);
        if cs.last().token@.len() == 0 {
            assert(tokens_of(init) + cs.last().token@ =~= tokens_of(init));
        }
    }
}

/// A finished turn carries every token of the turn, the last chunk's
/// included: after chunks none of which finished the turn, the finishing
/// chunk's `TurnDone` text is all their tokens and its own, in order.
pub proof fn lemma_turn_done_carries_every_token(
    cs: Seq<AgentChunk>,
    last: AgentChunk,
    session: Seq<char>,
)
    requires
        forall|i: int| 0 <= i < cs.len() ==> !(#[trigger] cs[i]).done,
        last.done,
    ensures
        full_after(Seq::empty(), cs) == tokens_of(cs),
        chunk_events(last, session, full_after(Seq::empty(), cs)).last() == (EventModel::TurnDone {
            session,
            text: tokens_of(cs.push(last)),
        }),
{
    lemma_tokens_accumulate(cs);
    assert(cs.push(last).drop_last() =~= cs);
    if last.token@.len() == 0 {
        assert(tokens_of(cs) + last.token@ =~= tokens_of(cs));
    }
}

} // verus!
