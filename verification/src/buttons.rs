//! Hardware buttons: **Home**, **Voice**, **AI assistant**.
//!
//! A platform driver reports a pressed button; the state records the last
//! press and one pending action for the frontend to pull. Button names from
//! the wire are bounded and parsed case-insensitively; [`ButtonAction`] is the
//! pure mapping to frontend actions.
use vstd::prelude::*;

use crate::clipboard::{byte_len, utf8_len};
use crate::error::{AmosError, ErrorCode};
use crate::text::{chars_of, lower_seq, str_eq, to_decimal, trim};

verus! {

/// Event name carrying a pressed hardware button.
pub const HARDWARE_BUTTON_EVENT: &'static str = "hardware-button";

/// Upper bound on a button name coming in from the wire / CLI / JNI (bytes).
pub const MAX_BUTTON_NAME_BYTES: usize = 256;

/// Upper bound on the DOM `CustomEvent` script one press hands to a window.
pub const MAX_DOM_PAYLOAD_BYTES: usize = 512;

/// Wire code: the button name could not be parsed into any known button.
pub const UNKNOWN_BUTTON: &'static str = "amos.buttons.unknown";

/// Wire code: the button name exceeds [`MAX_BUTTON_NAME_BYTES`].
pub const NAME_TOO_LONG: &'static str = "amos.buttons.name_too_long";

/// Wire code: the frontend could not be reached on a registered listener.
pub const DELIVERY_FAILED: &'static str = "amos.buttons.delivery_failed";

/// The three physical buttons exposed to the System UI.
#[derive(Debug, Clone, Copy, PartialEq, Eq, Structural)]
pub enum HardwareButton {
    /// Return to the launcher / home screen.
    Home,
    /// Start (or signal) voice input.
    Voice,
    /// Launch the AI assistant.
    AiAssistant,
}

/// The button a (trimmed, lower-cased) name denotes.
pub open spec fn button_of_word(w: Seq<char>) -> Option<HardwareButton> {
    if w == "home"@ {
        Some(HardwareButton::Home)
    } else if w == "voice"@ {
        Some(HardwareButton::Voice)
    } else if w == "ai"@ || w == "ai_assistant"@ || w == "assistant"@ || w == "aibutton"@ {
        Some(HardwareButton::AiAssistant)
    } else {
        None
    }
}

/// Is a name at or over the length cap (the cap is exclusive)?
pub open spec fn name_too_long(s: Seq<char>) -> bool {
    byte_len(s) >= MAX_BUTTON_NAME_BYTES
}

/// What [`HardwareButton::from_name`] returns for a name.
pub open spec fn from_name_spec(s: Seq<char>) -> Option<HardwareButton> {
    if name_too_long(s) {
        None
    } else {
        button_of_word(lower_seq(trim(s)))
    }
}

/// The frontend vocabulary string for a button.
pub open spec fn wire_name(b: HardwareButton) -> Seq<char> {
    match b {
        HardwareButton::Home => "home"@,
        HardwareButton::Voice => "voice"@,
        HardwareButton::AiAssistant => "ai_assistant"@,
    }
}

fn word_is(w: &Vec<char>, lit: &str) -> (r: bool)
    ensures
        r == (w@ == lit@),
{
    let l = chars_of(lit);
    assert(w@.subrange(0, w.len() as int) =~= w@);
    crate::text::chars_eq(w, 0, w.len(), &l)
}

fn lowered(v: &Vec<char>) -> (r: Vec<char>)
    ensures
        r@ == lower_seq(v@),
{
    let mut r: Vec<char> = Vec::new();
    let mut i: usize = 0;
    while i < v.len()
        invariant
            i <= v.len(),
            r@ == lower_seq(v@.take(i as int)),
        decreases v.len() - i,
    {
        r.push(crate::text::to_lower(v[i]));
        proof {
            assert(lower_seq(v@.take(i + 1)) =~= lower_seq(v@.take(i as int)).push(
                crate::text::lower(v@[i as int]),
            ));
        }
        i = i + 1;
    }
    assert(v@.take(v.len() as int) =~= v@);
    r
}

impl HardwareButton {
    /// Parse a button name from the wire / CLI, case-insensitively and
    /// ignoring surrounding white space. A name of [`MAX_BUTTON_NAME_BYTES`]
    /// bytes or more is refused (the cap is exclusive).
    pub fn from_name(s: &str) -> (r: Option<HardwareButton>)
        ensures
            r == from_name_spec(s@),
    {
        if utf8_len(s) >= MAX_BUTTON_NAME_BYTES {
            return None;
        }
        let v = chars_of(s);
        let t = crate::desktop_entry::trimmed(&v, 0, v.len());
        proof {
            assert(v@.subrange(0, v.len() as int) =~= v@);
        }
        let w = lowered(&t);
        if word_is(&w, "home") {
            Some(HardwareButton::Home)
        } else if word_is(&w, "voice") {
            Some(HardwareButton::Voice)
        } else if word_is(&w, "ai") || word_is(&w, "ai_assistant") || word_is(&w, "assistant")
            || word_is(&w, "aibutton") {
            Some(HardwareButton::AiAssistant)
        } else {
            None
        }
    }

    /// Parse with an explicit error envelope: an oversized name is
    /// `ButtonsNameTooLong` (checked first), an unknown one `ButtonsUnknown`.
    pub fn parse(s: &str) -> (r: Result<HardwareButton, AmosError>)
        ensures
            match r {
                Ok(b) => from_name_spec(s@) == Some(b),
                Err(e) => if name_too_long(s@) {
                    &&& e.code == ErrorCode::ButtonsNameTooLong
                    &&& e.message@ == "button name is "@ + crate::text::decimal(byte_len(s@))
                        + " bytes (limit 256)"@
                } else {
                    &&& from_name_spec(s@) is None
                    &&& e.code == ErrorCode::ButtonsUnknown
                    &&& e.message@ == "unknown button: "@ + s@
                },
            },
    {
        let n = utf8_len(s);
        if n >= MAX_BUTTON_NAME_BYTES {
            let m = String::from_str("button name is ");
            let m = m.concat(to_decimal(n as u64).as_str());
            let m = m.concat(" bytes (limit 256)");
            return Err(AmosError::new(ErrorCode::ButtonsNameTooLong, m.as_str()));
        }
        match HardwareButton::from_name(s) {
            Some(b) => Ok(b),
            None => {
                let m = String::from_str("unknown button: ").concat(s);
                Err(AmosError::new(ErrorCode::ButtonsUnknown, m.as_str()))
            },
        }
    }
}

/// Frontend action a pressed button triggers.
#[derive(Debug, Clone, Copy, PartialEq, Eq, Structural)]
pub enum ButtonAction {
    GoHome,
    VoiceInput,
    OpenAiAssistant,
}

/// The action each button triggers.
pub open spec fn action_of(b: HardwareButton) -> ButtonAction {
    match b {
        HardwareButton::Home => ButtonAction::GoHome,
        HardwareButton::Voice => ButtonAction::VoiceInput,
        HardwareButton::AiAssistant => ButtonAction::OpenAiAssistant,
    }
}

impl From<HardwareButton> for ButtonAction {
    fn from(b: HardwareButton) -> (r: ButtonAction) {
        match b {
            HardwareButton::Home => ButtonAction::GoHome,
            HardwareButton::Voice => ButtonAction::VoiceInput,
            HardwareButton::AiAssistant => ButtonAction::OpenAiAssistant,
        }
    }
}

impl vstd::std_specs::convert::FromSpecImpl<HardwareButton> for ButtonAction {
    open spec fn obeys_from_spec() -> bool {
        true
    }

    open spec fn from_spec(b: HardwareButton) -> ButtonAction {
        action_of(b)
    }
}

/// The pending action after one press: the press, unless one is waiting.
pub open spec fn pending_after_press(p: Option<HardwareButton>, b: HardwareButton) -> Option<
    HardwareButton,
> {
    if p is None {
        Some(b)
    } else {
        p
    }
}

/// The pending action after a run of presses, in order, with no pull.
pub open spec fn pending_after_presses(
    p: Option<HardwareButton>,
    presses: Seq<HardwareButton>,
) -> Option<HardwareButton>
    decreases presses.len(),
{
    if presses.len() == 0 {
        p
    } else {
        pending_after_press(pending_after_presses(p, presses.drop_last()), presses.last())
    }
}

/// Of a run of presses with no pull between them, the first one is what the
/// next pull gets (a pending action already waiting wins over all of them);
/// a pull then leaves nothing pending, so one press is pulled once.
pub proof fn lemma_first_unpulled_press_wins(p: Option<HardwareButton>, presses: Seq<HardwareButton>)
    ensures
        pending_after_presses(p, presses) == if p is Some {
            p
        } else if presses.len() > 0 {
            Some(presses[0])
        } else {
            None
        },
    decreases presses.len(),
{
    if presses.len() > 0 {
        lemma_first_unpulled_press_wins(p, presses.drop_last());
    }
}

/// Button state: the last press, and one un-consumed pending action for the
/// frontend to pull (the first press since the last pull wins).
#[derive(Debug)]
pub struct HardwareButtons {
    last: Option<HardwareButton>,
    pending: Option<HardwareButton>,
}

impl HardwareButtons {
    /// The most recently recorded press, and the pending action.
    pub closed spec fn last_spec(&self) -> Option<HardwareButton> {
        self.last
    }

    pub closed spec fn pending_spec(&self) -> Option<HardwareButton> {
        self.pending
    }

    /// No press recorded, nothing pending.
    pub fn new() -> (r: HardwareButtons)
        ensures
            r.last_spec() is None,
            r.pending_spec() is None,
    {
        HardwareButtons { last: None, pending: None }
    }

    /// Record a press: it becomes the last press, and the pending action
    /// unless one is already waiting to be pulled.
    pub fn press(&mut self, button: HardwareButton)
        ensures
            final(self).last_spec() == Some(button),
            final(self).pending_spec() == pending_after_press(old(self).pending_spec(), button),
    {
        self.last = Some(button);
        if self.pending.is_none() {
            self.pending = Some(button);
        }
    }

    /// The most recently pressed button, if any.
    pub fn last(&self) -> (r: Option<HardwareButton>)
        ensures
            r == self.last_spec(),
    {
        self.last
    }

    /// Take (and clear) the pending action: one press, one pull.
    pub fn take_pending(&mut self) -> (r: Option<HardwareButton>)
        ensures
            r == old(self).pending_spec(),
            final(self).pending_spec() is None,
            final(self).last_spec() == old(self).last_spec(),
    {
        let r = self.pending;
        self.pending = None;
        r
    }
}

/// Frontend vocabulary string for a button.
pub fn hardware_name(b: HardwareButton) -> (r: String)
    ensures
        r@ == wire_name(b),
{
    match b {
        HardwareButton::Home => String::from_str("home"),
        HardwareButton::Voice => String::from_str("voice"),
        HardwareButton::AiAssistant => String::from_str("ai_assistant"),
    }
}

/// The DOM `CustomEvent` script announcing a press to a webview window.
pub open spec fn dom_script_spec(b: HardwareButton) -> Seq<char> {
    "window.dispatchEvent(new CustomEvent('hardware-button', {detail: {name: '"@ + wire_name(b)
        + "'}}));"@
}

/// The script that dispatches the press as a DOM event, or `None` when it
/// would exceed [`MAX_DOM_PAYLOAD_BYTES`].
pub fn dom_dispatch_script(b: HardwareButton) -> (r: Option<String>)
    ensures
        match r {
            Some(js) => js@ == dom_script_spec(b) && byte_len(js@) <= MAX_DOM_PAYLOAD_BYTES,
            None => byte_len(dom_script_spec(b)) > MAX_DOM_PAYLOAD_BYTES,
        },
{
    let name = hardware_name(b);
    let js = String::from_str(
        "window.dispatchEvent(new CustomEvent('hardware-button', {detail: {name: '",
    ).concat(name.as_str()).concat("'}}));");
    if utf8_len(js.as_str()) > MAX_DOM_PAYLOAD_BYTES {
        return None;
    }
    Some(js)
}

/// Naming a button by its frontend name parses back to the same button.
pub proof fn lemma_wire_name_round_trip(b: HardwareButton)
    ensures
        from_name_spec(wire_name(b)) == Some(b),
{
    reveal_strlit("home");
    reveal_strlit("voice");
    reveal_strlit("ai");
    reveal_strlit("ai_assistant");
    reveal_strlit("assistant");
    reveal_strlit("aibutton");
    let w = wire_name(b);
    assert(w.len() > 0);
    assert(!crate::text::is_ws(w[0]));
    assert(!crate::text::is_ws(w.last()));
    crate::text::lemma_trim_start_stop(w);
    crate::text::lemma_trim_end_stop(w);
    assert(lower_seq(w) =~= w);
    assert(vstd::utf8::is_ascii_chars(w));
    lemma_ascii_byte_len(w);
    assert(w.len() <= 12);
}

/// A text of ASCII characters has as many UTF-8 bytes as characters.
pub proof fn lemma_ascii_byte_len(s: Seq<char>)
    requires
        vstd::utf8::is_ascii_chars(s),
    ensures
        byte_len(s) == s.len(),
{
    vstd::utf8::is_ascii_chars_encode_utf8(s);
}

/// Every documented wire alias names its button, trimmed and in any ASCII
/// case: `home`; `voice`; `ai`, `ai_assistant`, `assistant` and `aibutton`.
/// No other name (under the length cap) names a button.
pub proof fn lemma_every_alias_parses(s: Seq<char>)
    requires
        !name_too_long(s),
    ensures
        lower_seq(trim(s)) == "home"@ ==> from_name_spec(s) == Some(HardwareButton::Home),
        lower_seq(trim(s)) == "voice"@ ==> from_name_spec(s) == Some(HardwareButton::Voice),
        lower_seq(trim(s)) == "ai"@ || lower_seq(trim(s)) == "ai_assistant"@ || lower_seq(trim(s))
            == "assistant"@ || lower_seq(trim(s)) == "aibutton"@ ==> from_name_spec(s) == Some(
            HardwareButton::AiAssistant,
        ),
        from_name_spec(s) is Some ==> lower_seq(trim(s)) == "home"@ || lower_seq(trim(s))
            == "voice"@ || lower_seq(trim(s)) == "ai"@ || lower_seq(trim(s)) == "ai_assistant"@
            || lower_seq(trim(s)) == "assistant"@ || lower_seq(trim(s)) == "aibutton"@,
{
    reveal_strlit("home");
    reveal_strlit("voice");
    reveal_strlit("ai");
    reveal_strlit("ai_assistant");
    reveal_strlit("assistant");
    reveal_strlit("aibutton");
    let w = lower_seq(trim(s));
    if w == "voice"@ {
        assert(w.len() != "home"@.len());
    }
    if w == "ai"@ || w == "ai_assistant"@ || w == "assistant"@ || w == "aibutton"@ {
        assert(w.len() != "home"@.len());
        if w == "assistant"@ {
            assert(w[0] != "voice"@[0]);
        } else {
            assert(w.len() != "voice"@.len());
        }
    }
}

} // verus!
