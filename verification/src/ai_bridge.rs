//! Shapes the AI bridge hands to the WebView, and the small decisions the
//! bridge makes around its daemon calls: which selection text an AI request
//! carries, which window label a container launch registers, and what the user
//! is told when the cloud key could not be saved.
use vstd::prelude::*;

use crate::clipboard::{plain_text_of, GlobalClipboard};
use crate::desktop_entry::trimmed;
use crate::text::{chars_of, string_of, str_eq, trim};

verus! {

/// One `key: value` row of a UI card.
#[derive(Clone, Debug)]
pub struct FieldPayload {
    key: String,
    value: String,
}

/// A UI card the assistant attaches to a reply.
#[derive(Clone, Debug)]
pub struct CardPayload {
    kind: String,
    title: String,
    subtitle: String,
    fields: Vec<FieldPayload>,
    actions: Vec<String>,
}

impl CardPayload {
    pub closed spec fn kind_spec(&self) -> Seq<char> {
        self.kind@
    }

    pub closed spec fn title_spec(&self) -> Seq<char> {
        self.title@
    }

    pub closed spec fn subtitle_spec(&self) -> Seq<char> {
        self.subtitle@
    }

    pub closed spec fn fields_spec(&self) -> Seq<(Seq<char>, Seq<char>)> {
        self.fields@.map_values(|f: FieldPayload| (f.key@, f.value@))
    }

    pub closed spec fn actions_spec(&self) -> Seq<Seq<char>> {
        self.actions@.map_values(|a: String| a@)
    }

    /// The card's kind (an empty kind means "no card").
    pub fn kind(&self) -> (r: &str)
        ensures
            r@ == self.kind_spec(),
    {
        self.kind.as_str()
    }
}

/// Build the card the WebView receives from the daemon's card fields.
pub fn card_payload(
    kind: String,
    title: String,
    subtitle: String,
    fields: Vec<(String, String)>,
    actions: Vec<String>,
) -> (r: CardPayload)
    ensures
        r.kind_spec() == kind@,
        r.title_spec() == title@,
        r.subtitle_spec() == subtitle@,
        r.fields_spec() == fields@.map_values(|p: (String, String)| (p.0@, p.1@)),
        r.actions_spec() == actions@.map_values(|a: String| a@),
{
    let mut rows: Vec<FieldPayload> = Vec::new();
    let mut fields = fields;
    let ghost all = fields@.map_values(|p: (String, String)| (p.0@, p.1@));
    let ghost n = fields.len();
    // Move the pairs out from the back, then restore the order.
    let mut rev: Vec<FieldPayload> = Vec::new();
    while fields.len() > 0
        invariant
            fields.len() + rev.len() == n,
            all.len() == n,
            fields@.map_values(|p: (String, String)| (p.0@, p.1@)) == all.take(fields.len() as int),
            forall|k: int|
                0 <= k < rev.len() ==> (#[trigger] rev@[k]).key@ == all[n - 1 - k].0
                    && rev@[k].value@ == all[n - 1 - k].1,
        decreases fields.len(),
    {
        let ghost before = fields@;
        let (key, value) = fields.pop().unwrap();
        proof {
            assert(fields@ == before.drop_last());
            assert(fields@.map_values(|p: (String, String)| (p.0@, p.1@)) =~= all.take(
                fields.len() as int,
            ));
            let b = before.map_values(|p: (String, String)| (p.0@, p.1@));
            assert(before.last() == (key, value));
            assert(b[fields.len() as int] == (key@, value@));
            assert(b == all.take(before.len() as int));
            assert(all[fields.len() as int] == (key@, value@));
        }
        rev.push(FieldPayload { key, value });
    }
    while rev.len() > 0
        invariant
            rev.len() + rows.len() == n,
            all.len() == n,
            forall|k: int|
                0 <= k < rev.len() ==> (#[trigger] rev@[k]).key@ == all[n - 1 - k].0
                    && rev@[k].value@ == all[n - 1 - k].1,
            rows@.map_values(|f: FieldPayload| (f.key@, f.value@)) == all.take(rows.len() as int),
        decreases rev.len(),
    {
        let ghost before = rev@;
        let f = rev.pop().unwrap();
        proof {
            assert(f == before.last());
        }
        rows.push(f);
        proof {
            assert(rows@.map_values(|f: FieldPayload| (f.key@, f.value@)) =~= all.take(
                rows.len() as int,
            ));
        }
    }
    proof {
        assert(all.take(n as int) =~= all);
    }
    let r = CardPayload { kind, title, subtitle, fields: rows, actions };
    r
}

/// One unit of an AI reply stream.
#[derive(Clone, Debug)]
pub struct ReplyEvent {
    pub token: String,
    pub done: bool,
    pub card: Option<CardPayload>,
}

/// The daemon status snapshot.
#[derive(Debug)]
pub struct DaemonStatus {
    pub running: bool,
    pub model: String,
    pub uptime_seconds: i64,
    pub gpu_util: u32,
    pub active_sessions: u32,
    /// Active inference engine kind (mock|api|ollama|hermes|ggml).
    pub engine: String,
    /// Concrete model behind `engine` (empty for mock).
    pub engine_model: String,
    /// True when a real engine was requested but the daemon serves mock.
    pub degraded: bool,
    /// Voice ASR recognizer in effect (mock|sherpa|off).
    pub asr: String,
    /// Resolved device-acceleration target of the local engine.
    pub accelerator: String,
    /// Generation admission pool state; `None` on a daemon too old to report it.
    pub generation_pool: Option<GenerationPoolStatus>,
    /// Inference-response cache counters; `None` on an older daemon.
    pub response_cache: Option<ResponseCacheStatus>,
    /// On-disk log sink health; `None` on an older daemon.
    pub log_sink: Option<LogSinkStatus>,
    /// Backend circuit breaker state; `None` on an older daemon.
    pub breaker: Option<BreakerStatus>,
    /// Active threshold alerts; `None` on an older daemon (an empty list is the
    /// healthy state, which is not the same thing).
    pub alerts: Option<Vec<AlertStatus>>,
}

/// One daemon threshold alert.
#[derive(Clone, Debug)]
pub struct AlertStatus {
    pub id: String,
    pub severity: String,
    pub detail: String,
    pub active_for_seconds: u64,
}

/// The daemon's backend circuit breaker.
#[derive(Clone, Debug)]
pub struct BreakerStatus {
    pub enabled: bool,
    /// "closed" | "open" | "half_open"; "" when not in the serving path.
    pub state: String,
    pub fail_threshold: u32,
    pub cooldown_seconds: u64,
    pub consecutive_failures: u32,
    pub openings: u64,
    pub rejections: u64,
    pub failures: u64,
    pub successes: u64,
}

/// The daemon's persisted log trail.
#[derive(Clone, Debug)]
pub struct LogSinkStatus {
    pub enabled: bool,
    pub path: String,
    pub bytes_written: u64,
    pub lost_bytes: u64,
    pub write_failures: u64,
    pub rotations: u64,
    pub active_bytes: u64,
}

/// The daemon's generation admission pool.
#[derive(Clone, Debug)]
pub struct GenerationPoolStatus {
    pub capacity: u32,
    pub in_flight: u32,
    pub available: u32,
    pub acquired_total: u64,
    pub rejected_saturated: u64,
    pub rejected_timeout: u64,
    pub wait_ms: u64,
}

/// The daemon's inference-response cache.
#[derive(Clone, Debug)]
pub struct ResponseCacheStatus {
    pub enabled: bool,
    pub capacity: u32,
    pub ttl_seconds: u64,
    pub entries: u32,
    pub hits: u64,
    pub misses: u64,
    pub stores: u64,
    pub evicted: u64,
    pub expired: u64,
    pub oversized: u64,
}

/// One session in the session list.
#[derive(Clone, Debug)]
pub struct SessionInfo {
    pub session_id: String,
    pub model: String,
    pub tokens_generated: u64,
    pub cancelled: bool,
    pub age_seconds: u64,
}

/// One turn of a session's history.
#[derive(Clone, Debug)]
pub struct HistoryTurn {
    pub role: String,
    pub text: String,
}

/// A session's completed conversation history.
#[derive(Clone, Debug)]
pub struct SessionHistory {
    pub session_id: String,
    pub model: String,
    pub tokens_generated: u64,
    pub cancelled: bool,
    pub turns: Vec<HistoryTurn>,
}

/// A legacy Android app in the container.
#[derive(Debug)]
pub struct AndroidAppInfo {
    pub name: String,
    pub package_name: String,
    pub icon_path: String,
    pub activity: String,
}

/// Result of launching a legacy APK through the container.
#[derive(Debug)]
pub struct AndroidLaunchResult {
    pub success: bool,
    pub window_id: String,
    /// Label the surface was registered under (`legacy:<window_id>`); empty
    /// when the launch failed or returned no window id.
    pub window_label: String,
    pub error: String,
}

/// A live container task (which legacy surfaces are still alive).
#[derive(Debug)]
pub struct AndroidLmkTaskInfo {
    pub window_id: String,
    pub package_name: String,
    /// `foreground|visible|foreground_service|background|cached|stopped`.
    pub state: String,
}

/// The window-manager label of a container launch: `legacy:<id>` only when the
/// container started the app and gave back a real window id.
pub open spec fn legacy_label_spec(success: bool, window_id: Seq<char>) -> Option<Seq<char>> {
    if success && window_id.len() > 0 {
        Some("legacy:"@ + window_id)
    } else {
        None
    }
}

pub fn legacy_surface_label(success: bool, window_id: &str) -> (r: Option<String>)
    ensures
        match r {
            Some(l) => legacy_label_spec(success, window_id@) == Some(l@),
            None => legacy_label_spec(success, window_id@) is None,
        },
{
    if success && !window_id.is_empty() {
        Some(String::from_str("legacy:").concat(window_id))
    } else {
        None
    }
}

/// The `system_selection` an AI request carries: the selection attached to
/// the requesting window when there is one, else the newest text on the
/// global clipboard, else nothing.
pub fn merge_system_selection(attached: Option<&str>, clip: &GlobalClipboard) -> (r: Option<
    String,
>)
    ensures
        match attached {
            Some(t) => r matches Some(s) && s@ == t@,
            None => match r {
                Some(s) => clip@.history.len() > 0 && plain_text_of(clip@.history[0].payload)
                    == Some(s@),
                None => clip@.history.len() == 0 || plain_text_of(clip@.history[0].payload) is None,
            },
        },
{
    match attached {
        Some(t) => Some(String::from_str(t)),
        None => clip.latest_text(),
    }
}

/// The user-visible warning after trying to save the cloud API key:
/// `outcome` is `None` when no credential path is configured, else what the
/// write returned. `None` means the key was saved.
pub open spec fn persist_warning_spec(outcome: Option<Result<(), Seq<char>>>) -> Option<Seq<char>> {
    match outcome {
        None => Some(
            "⚠ no credential path configured (AMOS_CRED_FILE/HOME unset) — the API key was NOT persisted"@,
        ),
        Some(Ok(())) => None,
        Some(Err(e)) => Some("⚠ "@ + e),
    }
}

pub fn persist_cloud_key_reporting(outcome: Option<Result<(), String>>) -> (r: Option<String>)
    ensures
        persist_warning_spec(
            match outcome {
                None => None,
                Some(Ok(())) => Some(Ok(())),
                Some(Err(e)) => Some(Err(e@)),
            },
        ) == match r {
            Some(w) => Some(w@),
            None => None,
        },
{
    match outcome {
        None => Some(
            String::from_str(
                "⚠ no credential path configured (AMOS_CRED_FILE/HOME unset) — the API key was NOT persisted",
            ),
        ),
        Some(Ok(())) => None,
        Some(Err(e)) => Some(String::from_str("⚠ ").concat(e.as_str())),
    }
}


// ---------------------------------------------------------------------------
// Daemon calls: the retry budget
// ---------------------------------------------------------------------------

/// Attempts per daemon call: the first, and one more after reconnecting.
pub const RPC_ATTEMPTS: u32 = 2;

/// The retry budget of one daemon call.
pub struct RpcRetry {
    failures: u32,
}

impl RpcRetry {
    /// Failed attempts so far.
    pub closed spec fn failures_spec(&self) -> nat {
        self.failures as nat
    }

    /// No attempt has failed yet.
    pub fn new() -> (r: RpcRetry)
        ensures
            r.failures_spec() == 0,
    {
        RpcRetry { failures: 0 }
    }

    /// Record a failed attempt (the caller drops its cached channel): `true`
    /// when one more attempt is due, `false` when the call gives up with this
    /// failure's error.
    pub fn retry_after_failure(&mut self) -> (again: bool)
        requires
            old(self).failures_spec() < RPC_ATTEMPTS,
        ensures
            final(self).failures_spec() == old(self).failures_spec() + 1,
            again == (final(self).failures_spec() < RPC_ATTEMPTS),
    {
        self.failures = self.failures + 1;
        self.failures < RPC_ATTEMPTS
    }
}

/// A call never makes more than [`RPC_ATTEMPTS`] attempts: the first failure
/// retries, the second gives up.
pub proof fn lemma_retry_budget(failures: nat)
    requires
        failures < RPC_ATTEMPTS,
    ensures
        (failures + 1 < RPC_ATTEMPTS) <==> failures == 0,
{
}

// ---------------------------------------------------------------------------
// Reply fan-out to the WebView
// ---------------------------------------------------------------------------

/// One event the WebView receives while a reply streams in.
#[derive(Clone, Debug)]
pub enum UiEmit {
    /// `ai-token-received`.
    Token(String),
    /// `ai-card-received`.
    Card(CardPayload),
    /// `ai-session-complete` with the session id and the whole reply.
    SessionComplete { session: String, text: String },
    /// `ai-chat-complete`.
    ChatComplete,
}

/// A WebView event as plain values.
pub enum EmitModel {
    Token(Seq<char>),
    Card(CardPayload),
    SessionComplete { session: Seq<char>, text: Seq<char> },
    ChatComplete,
}

impl View for UiEmit {
    type V = EmitModel;

    open spec fn view(&self) -> EmitModel {
        match self {
            UiEmit::Token(t) => EmitModel::Token(t@),
            UiEmit::Card(c) => EmitModel::Card(*c),
            UiEmit::SessionComplete { session, text } => EmitModel::SessionComplete {
                session: session@,
                text: text@,
            },
            UiEmit::ChatComplete => EmitModel::ChatComplete,
        }
    }
}

/// The events' plain values.
pub open spec fn emits_view(v: Seq<UiEmit>) -> Seq<EmitModel> {
    v.map_values(|e: UiEmit| e@)
}

/// The reply text after one more event.
pub open spec fn reply_text_after(e: ReplyEvent, full: Seq<char>) -> Seq<char> {
    if e.token@.len() > 0 {
        full + e.token@
    } else {
        full
    }
}

/// What one reply event shows: its token (if any), its card (if it has a
/// kind), and, when it ends the reply, the whole text and the completion.
pub open spec fn step_emits(session: Seq<char>, e: ReplyEvent, full: Seq<char>) -> Seq<EmitModel> {
    let t = if e.token@.len() > 0 {
        seq![EmitModel::Token(e.token@)]
    } else {
        Seq::empty()
    };
    let c = match e.card {
        Some(k) => if k.kind_spec().len() > 0 {
            t.push(EmitModel::Card(k))
        } else {
            t
        },
        None => t,
    };
    if e.done {
        c.push(EmitModel::SessionComplete { session, text: reply_text_after(e, full) }).push(
            EmitModel::ChatComplete,
        )
    } else {
        c
    }
}

/// What a whole reply shows, up to and including its first `done` event.
pub open spec fn reply_emits(session: Seq<char>, events: Seq<ReplyEvent>, full: Seq<char>) -> Seq<
    EmitModel,
>
    decreases events.len(),
{
    if events.len() == 0 {
        Seq::empty()
    } else if events[0].done {
        step_emits(session, events[0], full)
    } else {
        step_emits(session, events[0], full) + reply_emits(
            session,
            events.drop_first(),
            reply_text_after(events[0], full),
        )
    }
}

/// One reply event: append its token to `full` and return what the WebView
/// is shown for it.
pub fn reply_step(session: &str, full: &mut String, e: ReplyEvent) -> (out: Vec<UiEmit>)
    ensures
        emits_view(out@) == step_emits(session@, e, old(full)@),
        final(full)@ == reply_text_after(e, old(full)@),
{
    let ghost f0 = full@;
    let ghost e0 = e;
    let mut out: Vec<UiEmit> = Vec::new();
    let ReplyEvent { token, done, card } = e;
    if token.as_str().unicode_len() > 0 {
        let mut prev = String::new();
        std::mem::swap(&mut prev, full);
        *full = prev.concat(token.as_str());
        out.push(UiEmit::Token(token));
    }
    let ghost after_token = out@;
    assert(emits_view(out@) =~= if e0.token@.len() > 0 {
        seq![EmitModel::Token(e0.token@)]
    } else {
        Seq::empty()
    });
    match card {
        Some(k) => {
            if k.kind().unicode_len() > 0 {
                out.push(UiEmit::Card(k));
                assert(emits_view(out@) =~= emits_view(after_token).push(EmitModel::Card(e0.card->0)));
            }
        },
        None => {},
    }
    if done {
        let ghost before = out@;
        out.push(UiEmit::SessionComplete { session: String::from_str(session), text: full.clone() });
        out.push(UiEmit::ChatComplete);
        assert(emits_view(out@) =~= emits_view(before).push(
            EmitModel::SessionComplete { session: session@, text: reply_text_after(e0, f0) },
        ).push(EmitModel::ChatComplete));
    }
    out
}

/// Fan a collected reply out to the WebView: every event up to the first
/// `done` one, tokens accumulated into the completion text.
pub fn fan_out(session: &str, events: Vec<ReplyEvent>) -> (out: Vec<UiEmit>)
    ensures
        emits_view(out@) == reply_emits(session@, events@, Seq::empty()),
{
    let ghost all = events@;
    let mut src = events;
    // Reverse, so that popping yields the events in order.
    let mut rev: Vec<ReplyEvent> = Vec::new();
    while src.len() > 0
        invariant
            rev@ + src@.reverse() == all.reverse(),
        decreases src@.len(),
    {
        let ghost s0 = src@;
        let ghost r0 = rev@;
        let e = src.pop().unwrap();
        rev.push(e);
        proof {
            assert(s0 =~= src@.push(e));
            assert(s0.reverse() =~= seq![e] + src@.reverse());
            assert(rev@ + src@.reverse() =~= r0 + s0.reverse());
        }
    }
    proof {
        assert(rev@ + src@.reverse() =~= rev@);
        assert(rev@.reverse() =~= all);
    }
    let mut out: Vec<UiEmit> = Vec::new();
    let mut full = String::new();
    loop
        invariant_except_break
            rev@.reverse() == all.skip(all.len() - rev@.len()),
            rev@.len() <= all.len(),
            reply_emits(session@, all, Seq::empty()) == emits_view(out@) + reply_emits(
                session@,
                rev@.reverse(),
                full@,
            ),
        ensures
            reply_emits(session@, all, Seq::empty()) == emits_view(out@),
        decreases rev@.len(),
    {
        if rev.len() == 0 {
            proof {
                assert(rev@.reverse() =~= Seq::<ReplyEvent>::empty());
                assert(emits_view(out@) + Seq::<EmitModel>::empty() =~= emits_view(out@));
            }
            break;
        }
        let ghost r0 = rev@;
        let ghost full0 = full@;
        let e = rev.pop().unwrap();
        let done = e.done;
        proof {
            assert(r0 =~= rev@.push(e));
            assert(r0.reverse() =~= seq![e] + rev@.reverse());
            assert(r0.reverse()[0] == e);
            assert(r0.reverse().drop_first() =~= rev@.reverse());
            assert(all.skip(all.len() - r0.len()).drop_first() =~= all.skip(all.len() - rev@.len()));
        }
        let ghost o0 = out@;
        let step = reply_step(session, &mut full, e);
        let mut step = step;
        out.append(&mut step);
        proof {
            assert(emits_view(out@) =~= emits_view(o0) + step_emits(session@, e, full0));
            if !done {
                assert(reply_emits(session@, r0.reverse(), full0) == step_emits(session@, e, full0)
                    + reply_emits(session@, rev@.reverse(), full@));
                assert(emits_view(out@) + reply_emits(session@, rev@.reverse(), full@) =~= emits_view(
                    o0,
                ) + reply_emits(session@, r0.reverse(), full0));
            } else {
                assert(reply_emits(session@, r0.reverse(), full0) == step_emits(session@, e, full0));
            }
        }
        if done {
            break;
        }
    }
    out
}

/// The prompt a bidirectional chat sends: the attached selection (if any)
/// as a labelled prefix, then the user's prompt.
pub fn prefixed_prompt(selection: Option<String>, prompt: String) -> (p: String)
    ensures
        p@ == match selection {
            Some(s) => "[系统上下文] "@ + s@ + "\n\n"@ + prompt@,
            None => prompt@,
        },
{
    match selection {
        Some(s) => String::from_str("[系统上下文] ").concat(s.as_str()).concat("\n\n").concat(
            prompt.as_str(),
        ),
        None => prompt,
    }
}

/// The launch answer: the container's own fields, and the window label the
/// surface was registered under (empty when nothing was registered).
pub fn launch_result(success: bool, window_id: String, error: String) -> (r: AndroidLaunchResult)
    ensures
        r.success == success,
        r.window_id@ == window_id@,
        r.error@ == error@,
        r.window_label@ == match legacy_label_spec(success, window_id@) {
            Some(l) => l,
            None => Seq::empty(),
        },
{
    let label = match legacy_surface_label(success, window_id.as_str()) {
        Some(l) => l,
        None => String::new(),
    };
    AndroidLaunchResult { success, window_id, window_label: label, error }
}

// ---------------------------------------------------------------------------
// Backend switch
// ---------------------------------------------------------------------------

/// Does a provider id (trimmed) name a cloud backend? Anything but the local
/// ones (`local`, `mock`, `ollama`) is a cloud OpenAI-compatible backend.
pub open spec fn is_cloud_spec(provider: Seq<char>) -> bool {
    let id = trim(provider);
    !(id == "local"@ || id == "mock"@ || id == "ollama"@)
}

fn trimmed_string(s: &str) -> (r: String)
    ensures
        r@ == trim(s@),
{
    let v = chars_of(s);
    let t = trimmed(&v, 0, v.len());
    proof {
        assert(v@.subrange(0, v.len() as int) =~= v@);
        assert(t@.subrange(0, t.len() as int) =~= t@);
    }
    string_of(&t, 0, t.len())
}

/// The provider id handed to the switch script: the trimmed id.
pub fn provider_id(provider: &str) -> (r: String)
    ensures
        r@ == trim(provider@),
{
    trimmed_string(provider)
}

/// Is this provider a cloud backend (see [`is_cloud_spec`])?
pub fn is_cloud_provider(provider: &str) -> (r: bool)
    ensures
        r == is_cloud_spec(provider@),
{
    let id = trimmed_string(provider);
    !(str_eq(id.as_str(), "local") || str_eq(id.as_str(), "mock") || str_eq(id.as_str(), "ollama"))
}

/// Where the switch's API key comes from.
#[derive(Clone, Copy, Debug, PartialEq, Eq, Structural)]
pub enum KeySource {
    /// The caller's key, which is also persisted (cloud, key given).
    GivenAndPersisted,
    /// The stored key file (cloud, no key given).
    Stored,
    /// The caller's value as it is (a local backend).
    Given,
}

/// Where the key comes from: a cloud backend persists a given key and falls
/// back to the stored one when none is given; a local backend takes the
/// value as it is.
pub fn key_source(cloud: bool, api_key: &str) -> (k: KeySource)
    ensures
        k == if !cloud {
            KeySource::Given
        } else if api_key@.len() > 0 {
            KeySource::GivenAndPersisted
        } else {
            KeySource::Stored
        },
{
    if !cloud {
        KeySource::Given
    } else if api_key.unicode_len() > 0 {
        KeySource::GivenAndPersisted
    } else {
        KeySource::Stored
    }
}

/// A stored key, as read from its file: trimmed.
pub fn stored_key(contents: &str) -> (k: String)
    ensures
        k@ == trim(contents@),
{
    trimmed_string(contents)
}

/// A cloud model / endpoint override is passed on only when it is set and
/// not blank (trimmed), so the script's preset default applies otherwise.
pub fn env_override(v: Option<String>) -> (r: Option<String>)
    ensures
        match v {
            None => r is None,
            Some(s) => if trim(s@).len() == 0 {
                r is None
            } else {
                r matches Some(t) && t@ == trim(s@)
            },
        },
{
    match v {
        None => None,
        Some(s) => {
            let t = trimmed_string(s.as_str());
            if t.unicode_len() == 0 {
                None
            } else {
                Some(t)
            }
        },
    }
}

/// A report with the key-persistence warning (if any) on its own last line.
pub open spec fn with_warning_spec(report: Seq<char>, warning: Option<Seq<char>>) -> Seq<char> {
    match warning {
        Some(w) => report + "\n"@ + w,
        None => report,
    }
}

fn with_warning(report: String, warning: &Option<String>) -> (r: String)
    ensures
        r@ == with_warning_spec(
            report@,
            match warning {
                Some(w) => Some(w@),
                None => None,
            },
        ),
{
    match warning {
        Some(w) => report.concat("\n").concat(w.as_str()),
        None => report,
    }
}

/// The switch's answer once the script ran: its trimmed output on success;
/// its trimmed output and error stream on failure; the warning either way.
pub fn switch_report(success: bool, stdout: &str, stderr: &str, warning: Option<String>) -> (r:
    Result<String, String>)
    ensures
        ({
            let w = match warning {
                Some(x) => Some(x@),
                None => None,
            };
            if success {
                r matches Ok(m) && m@ == with_warning_spec(trim(stdout@), w)
            } else {
                r matches Err(m) && m@ == with_warning_spec(trim(stdout@ + "\n"@ + stderr@), w)
            }
        }),
{
    if success {
        Ok(with_warning(trimmed_string(stdout), &warning))
    } else {
        let both = String::from_str(stdout).concat("\n").concat(stderr);
        Err(with_warning(trimmed_string(both.as_str()), &warning))
    }
}

/// The switch's answer when the script could not be started.
pub fn spawn_failure_report(script: &str, error: &str, warning: Option<String>) -> (r: Result<
    String,
    String,
>)
    ensures
        r matches Err(m) && m@ == with_warning_spec(
            "failed to run "@ + script@ + ": "@ + error@,
            match warning {
                Some(x) => Some(x@),
                None => None,
            },
        ),
{
    let m = String::from_str("failed to run ").concat(script).concat(": ").concat(error);
    Err(with_warning(m, &warning))
}

/// Only the three named local backends are local: a provider id, once
/// trimmed, is local exactly when it is `local`, `mock` or `ollama`, and
/// every other id (`openai`, `deepseek`, any id longer than six characters)
/// is a cloud backend whose key is used and kept.
pub proof fn lemma_only_named_backends_are_local(provider: Seq<char>)
    ensures
        !is_cloud_spec(provider) <==> (trim(provider) == "local"@ || trim(provider) == "mock"@
            || trim(provider) == "ollama"@),
        trim(provider).len() > 6 ==> is_cloud_spec(provider),
        is_cloud_spec(provider) ==> trim(provider) != "local"@,
{
    reveal_strlit("local");
    reveal_strlit("mock");
    reveal_strlit("ollama");
}

} // verus!
