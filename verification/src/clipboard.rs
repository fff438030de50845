//! Global system clipboard: multi-format payloads, a bounded most-recent-first
//! history with coalescing of a repeated copy, and the foreground-read rule.
//!
//! * **Multi-format**: one copy may carry plain text, HTML, an image and/or a
//!   URI list ([`ClipboardPayload`]); image bytes travel base64.
//! * **History**: bounded to [`HISTORY_LIMIT`] entries, newest first; a copy
//!   equal to the newest entry replaces it instead of piling up.
//! * **Foreground-read permission**: reading is granted only to the focused
//!   window ([`require_foreground`]); any window may write.
use vstd::prelude::*;

use base64::Engine as _;

use std::collections::VecDeque;

use crate::appstore::{debug_str, str_debug};
use crate::text::{chars_of, is_blank, trim_bounds};

verus! {

/// Maximum number of clipboard-history entries retained.
pub const HISTORY_LIMIT: usize = 32;

/// Upper bound on a single copied text/plain payload (1 MiB), in bytes.
pub const MAX_TEXT_LEN: usize = 1048576;

/// Upper bound on a single copied HTML payload (2 MiB), in bytes.
pub const MAX_HTML_LEN: usize = 2097152;

/// Upper bound on an image payload's base64 size, in bytes.
pub const MAX_IMAGE_B64_LEN: usize = 25165824;

/// Upper bound on the number of URIs in a single copy.
pub const MAX_URIS: usize = 64;

// ---------------------------------------------------------------------------
// Base64 (the `base64` crate)
// ---------------------------------------------------------------------------

/// What the `base64` crate's `general_purpose::STANDARD` engine makes of the
/// UTF-8 encoding of `input`: the decoded bytes, or the `Display` text of the
/// `DecodeError` it refuses the input with.
pub uninterp spec fn base64_standard_decode(input: Seq<char>) -> Result<Seq<u8>, Seq<char>>;

/// `base64::engine::general_purpose::STANDARD.decode(input)`, its error
/// rendered with `to_string`.
///
/// Claims only that the outcome is a function of the input text: the bytes
/// when the engine decodes it, else the text of the engine's error.
#[verifier::external_body]
fn decode_base64(input: &str) -> (r: Result<Vec<u8>, String>)
    ensures
        match r {
            Ok(v) => base64_standard_decode(input@) == Ok::<Seq<u8>, Seq<char>>(v@),
            Err(e) => base64_standard_decode(input@) == Err::<Seq<u8>, Seq<char>>(e@),
        },
{
    base64::engine::general_purpose::STANDARD.decode(input).map_err(|e| e.to_string())
}

// ---------------------------------------------------------------------------
// Payloads
// ---------------------------------------------------------------------------

/// One copy operation's payload.
#[derive(Debug, PartialEq, Eq)]
pub enum ClipboardPayload {
    /// Plain text: the universal fallback every app can paste.
    Text { text: String },
    /// Rich text: HTML plus its plain-text fallback.
    Html { html: String, plain: String },
    /// Raster image (`data_b64` = base64 bytes, `mime` e.g. `image/png`).
    Image { mime: String, data_b64: String },
    /// A list of file/content URIs plus display text.
    Uris { uris: Vec<String>, text: String },
}

/// Mathematical model of a [`ClipboardPayload`].
pub ghost enum PayloadModel {
    Text { text: Seq<char> },
    Html { html: Seq<char>, plain: Seq<char> },
    Image { mime: Seq<char>, data_b64: Seq<char> },
    Uris { uris: Seq<Seq<char>>, text: Seq<char> },
}

pub open spec fn strings_view(v: Seq<String>) -> Seq<Seq<char>> {
    v.map_values(|s: String| s@)
}

impl View for ClipboardPayload {
    type V = PayloadModel;

    open spec fn view(&self) -> PayloadModel {
        match self {
            ClipboardPayload::Text { text } => PayloadModel::Text { text: text@ },
            ClipboardPayload::Html { html, plain } => PayloadModel::Html {
                html: html@,
                plain: plain@,
            },
            ClipboardPayload::Image { mime, data_b64 } => PayloadModel::Image {
                mime: mime@,
                data_b64: data_b64@,
            },
            ClipboardPayload::Uris { uris, text } => PayloadModel::Uris {
                uris: strings_view(uris@),
                text: text@,
            },
        }
    }
}

/// The `Content-Type` of a payload.
pub open spec fn mime_of(p: PayloadModel) -> Seq<char> {
    match p {
        PayloadModel::Text { .. } => "text/plain"@,
        PayloadModel::Html { .. } => "text/html"@,
        PayloadModel::Image { mime, .. } => mime,
        PayloadModel::Uris { .. } => "text/uri-list"@,
    }
}

/// URIs joined with `'\n'` (what `uris.join("\n")` produces).
pub open spec fn join_lines(uris: Seq<Seq<char>>) -> Seq<char>
    decreases uris.len(),
{
    if uris.len() == 0 {
        Seq::empty()
    } else if uris.len() == 1 {
        uris[0]
    } else {
        join_lines(uris.drop_last()) + seq!['\n'] + uris.last()
    }
}

/// The plain-text rendering of a payload; `None` for binary-only content.
pub open spec fn plain_text_of(p: PayloadModel) -> Option<Seq<char>> {
    match p {
        PayloadModel::Text { text } => Some(text),
        PayloadModel::Html { plain, .. } => Some(plain),
        PayloadModel::Uris { uris, text } => if !is_blank(text) {
            Some(text)
        } else {
            Some(join_lines(uris))
        },
        PayloadModel::Image { .. } => None,
    }
}

/// Length in bytes of the UTF-8 encoding of `s` (what `str::len` returns).
pub open spec fn byte_len(s: Seq<char>) -> nat {
    vstd::utf8::encode_utf8(s).len()
}

/// Why a payload is refused before it enters the shared buffer (`None` when it
/// is accepted). A base64 decoding failure is reported under its own rule,
/// see [`ClipboardPayload::validate`].
pub open spec fn payload_refusal(p: PayloadModel) -> Option<Seq<char>> {
    match p {
        PayloadModel::Text { text } => if byte_len(text) > MAX_TEXT_LEN {
            Some("clipboard text exceeds 1048576 bytes"@)
        } else if is_blank(text) {
            Some("clipboard text must not be empty"@)
        } else {
            None
        },
        PayloadModel::Html { html, .. } => if byte_len(html) > MAX_HTML_LEN {
            Some("clipboard html exceeds 2097152 bytes"@)
        } else if is_blank(html) {
            Some("clipboard html must not be empty"@)
        } else {
            None
        },
        PayloadModel::Image { mime, data_b64 } => if is_blank(mime) {
            Some("clipboard image requires a mime type"@)
        } else if byte_len(data_b64) > MAX_IMAGE_B64_LEN {
            Some("clipboard image payload too large"@)
        } else {
            match base64_standard_decode(data_b64) {
                Err(_) => None,
                Ok(bytes) => if bytes.len() == 0 {
                    Some("clipboard image payload is empty"@)
                } else {
                    None
                },
            }
        },
        PayloadModel::Uris { uris, text } => if uris.len() == 0 || uris.len() > MAX_URIS {
            Some("clipboard needs 1..=64 uris"@)
        } else if exists|i: int| 0 <= i < uris.len() && is_blank(#[trigger] uris[i]) {
            Some("clipboard uris must not be empty"@)
        } else if byte_len(text) > MAX_TEXT_LEN {
            Some("clipboard uri text exceeds 1048576 bytes"@)
        } else {
            None
        },
    }
}

/// Does the payload carry image data that base64 cannot decode (and passes
/// the checks made before decoding)?
pub open spec fn undecodable_image(p: PayloadModel) -> bool {
    match p {
        PayloadModel::Image { mime, data_b64 } => !is_blank(mime) && byte_len(data_b64)
            <= MAX_IMAGE_B64_LEN && base64_standard_decode(data_b64) is Err,
        _ => false,
    }
}

/// Is the payload accepted into the shared buffer?
pub open spec fn payload_valid(p: PayloadModel) -> bool {
    payload_refusal(p) is None && !undecodable_image(p)
}

/// The message a refused payload is answered with (`None` when it is accepted).
pub open spec fn validation_error(p: PayloadModel) -> Option<Seq<char>> {
    match payload_refusal(p) {
        Some(why) => Some(why),
        None => match p {
            PayloadModel::Image { data_b64, .. } => match base64_standard_decode(data_b64) {
                Err(e) => Some("clipboard image base64 invalid: "@ + e),
                Ok(_) => None,
            },
            _ => None,
        },
    }
}

/// `str::len`: the length of the UTF-8 encoding (a string held in memory
/// never has more bytes than `usize` can count).
#[verifier::external_body]
pub(crate) fn utf8_len(s: &str) -> (n: usize)
    ensures
        n as nat == byte_len(s@),
{
    s.len()
}

fn is_blank_string(s: &String) -> (r: bool)
    ensures
        r == is_blank(s@),
{
    let v = chars_of(s.as_str());
    let (a, b) = trim_bounds(&v, 0, v.len());
    proof {
        assert(v@.subrange(0, v.len() as int) =~= v@);
        crate::text::lemma_trim_empty_iff_blank(v@);
    }
    a == b
}

fn clone_string(s: &String) -> (r: String)
    ensures
        r@ == s@,
{
    s.clone()
}

fn clone_strings(v: &Vec<String>) -> (r: Vec<String>)
    ensures
        strings_view(r@) == strings_view(v@),
{
    let mut r: Vec<String> = Vec::new();
    let mut i: usize = 0;
    while i < v.len()
        invariant
            i <= v.len(),
            r.len() == i,
            strings_view(r@) == strings_view(v@).take(i as int),
        decreases v.len() - i,
    {
        let c = clone_string(&v[i]);
        let ghost old_r = r@;
        r.push(c);
        proof {
            assert forall|k: int| 0 <= k < i + 1 implies #[trigger] strings_view(r@)[k]
                == strings_view(v@).take(i + 1)[k] by {
                if k < i {
                    assert(r@[k] == old_r[k]);
                    assert(strings_view(old_r)[k] == strings_view(v@).take(i as int)[k]);
                }
            }
            assert(strings_view(r@) =~= strings_view(v@).take(i + 1));
        }
        i = i + 1;
    }
    assert(strings_view(v@).take(v.len() as int) =~= strings_view(v@));
    r
}

fn strings_equal(a: &Vec<String>, b: &Vec<String>) -> (r: bool)
    ensures
        r == (strings_view(a@) == strings_view(b@)),
{
    if a.len() != b.len() {
        proof {
            assert(strings_view(a@).len() != strings_view(b@).len());
        }
        return false;
    }
    let mut i: usize = 0;
    while i < a.len()
        invariant
            i <= a.len(),
            a.len() == b.len(),
            forall|k: int| 0 <= k < i ==> a@[k]@ == b@[k]@,
        decreases a.len() - i,
    {
        if !(a[i] == b[i]) {
            proof {
                assert(strings_view(a@)[i as int] != strings_view(b@)[i as int]);
            }
            return false;
        }
        i = i + 1;
    }
    assert(strings_view(a@) =~= strings_view(b@));
    true
}

impl Clone for ClipboardPayload {
    fn clone(&self) -> (r: Self)
        ensures
            r@ == self@,
    {
        match self {
            ClipboardPayload::Text { text } => ClipboardPayload::Text { text: clone_string(text) },
            ClipboardPayload::Html { html, plain } => ClipboardPayload::Html {
                html: clone_string(html),
                plain: clone_string(plain),
            },
            ClipboardPayload::Image { mime, data_b64 } => ClipboardPayload::Image {
                mime: clone_string(mime),
                data_b64: clone_string(data_b64),
            },
            ClipboardPayload::Uris { uris, text } => ClipboardPayload::Uris {
                uris: clone_strings(uris),
                text: clone_string(text),
            },
        }
    }
}

/// Structural equality of two payloads, decided on their contents.
pub fn payload_eq(a: &ClipboardPayload, b: &ClipboardPayload) -> (r: bool)
    ensures
        r == (a@ == b@),
{
    match (a, b) {
        (ClipboardPayload::Text { text: x }, ClipboardPayload::Text { text: y }) => *x == *y,
        (
            ClipboardPayload::Html { html: h1, plain: p1 },
            ClipboardPayload::Html { html: h2, plain: p2 },
        ) => *h1 == *h2 && *p1 == *p2,
        (
            ClipboardPayload::Image { mime: m1, data_b64: d1 },
            ClipboardPayload::Image { mime: m2, data_b64: d2 },
        ) => *m1 == *m2 && *d1 == *d2,
        (
            ClipboardPayload::Uris { uris: u1, text: t1 },
            ClipboardPayload::Uris { uris: u2, text: t2 },
        ) => strings_equal(u1, u2) && *t1 == *t2,
        _ => false,
    }
}

/// The `Debug` rendering of the items of a list of strings, comma-separated.
pub open spec fn list_items_debug(items: Seq<Seq<char>>) -> Seq<char>
    decreases items.len(),
{
    if items.len() == 0 {
        Seq::empty()
    } else if items.len() == 1 {
        str_debug(items[0])
    } else {
        list_items_debug(items.drop_last()) + ", "@ + str_debug(items.last())
    }
}

/// The `Debug` rendering of a list of strings: `["a", "b"]`.
pub open spec fn list_debug(items: Seq<Seq<char>>) -> Seq<char> {
    "["@ + list_items_debug(items) + "]"@
}

/// The text the derived `Debug` formatting writes for a payload.
pub open spec fn payload_debug_text(p: PayloadModel) -> Seq<char> {
    match p {
        PayloadModel::Text { text } => "Text { text: "@ + str_debug(text) + " }"@,
        PayloadModel::Html { html, plain } => "Html { html: "@ + str_debug(html) + ", plain: "@
            + str_debug(plain) + " }"@,
        PayloadModel::Image { mime, data_b64 } => "Image { mime: "@ + str_debug(mime)
            + ", data_b64: "@ + str_debug(data_b64) + " }"@,
        PayloadModel::Uris { uris, text } => "Uris { uris: "@ + list_debug(uris) + ", text: "@
            + str_debug(text) + " }"@,
    }
}

/// The `Debug` rendering of a list of strings.
fn strings_debug(v: &Vec<String>) -> (r: String)
    ensures
        r@ == list_debug(strings_view(v@)),
{
    let ghost items = strings_view(v@);
    let mut r = lit("[");
    let mut i: usize = 0;
    while i < v.len()
        invariant
            i <= v.len(),
            items == strings_view(v@),
            r@ == "["@ + list_items_debug(items.take(i as int)),
        decreases v.len() - i,
    {
        proof {
            assert(items.take(i + 1).drop_last() =~= items.take(i as int));
            assert(items.take(i + 1).last() == items[i as int]);
            assert(items[i as int] == v@[i as int]@);
        }
        if i > 0 {
            r = concat(r, ", ");
        } else {
            proof {
                assert(items.take(0) =~= Seq::<Seq<char>>::empty());
            }
        }
        let d = debug_str(v[i].as_str());
        r = concat(r, d.as_str());
        i = i + 1;
    }
    proof {
        assert(items.take(v.len() as int) =~= items);
    }
    concat(r, "]")
}

/// A payload with its derived `Debug` formatting.
fn payload_debug(p: &ClipboardPayload) -> (r: String)
    ensures
        r@ == payload_debug_text(p@),
{
    match p {
        ClipboardPayload::Text { text } => {
            let r = concat(lit("Text { text: "), debug_str(text.as_str()).as_str());
            concat(r, " }")
        },
        ClipboardPayload::Html { html, plain } => {
            let r = concat(lit("Html { html: "), debug_str(html.as_str()).as_str());
            let r = concat(r, ", plain: ");
            let r = concat(r, debug_str(plain.as_str()).as_str());
            concat(r, " }")
        },
        ClipboardPayload::Image { mime, data_b64 } => {
            let r = concat(lit("Image { mime: "), debug_str(mime.as_str()).as_str());
            let r = concat(r, ", data_b64: ");
            let r = concat(r, debug_str(data_b64.as_str()).as_str());
            concat(r, " }")
        },
        ClipboardPayload::Uris { uris, text } => {
            let r = concat(lit("Uris { uris: "), strings_debug(uris).as_str());
            let r = concat(r, ", text: ");
            let r = concat(r, debug_str(text.as_str()).as_str());
            concat(r, " }")
        },
    }
}

fn lit(s: &str) -> (r: String)
    ensures
        r@ == s@,
{
    String::from_str(s)
}

fn concat(a: String, b: &str) -> (r: String)
    ensures
        r@ == a@ + b@,
{
    a.concat(b)
}

impl ClipboardPayload {
    /// The `Content-Type` for this representation.
    pub fn mime(&self) -> (r: Option<&str>)
        ensures
            r matches Some(m) && m@ == mime_of(self@),
    {
        match self {
            ClipboardPayload::Text { .. } => Some("text/plain"),
            ClipboardPayload::Html { .. } => Some("text/html"),
            ClipboardPayload::Image { mime, .. } => Some(mime.as_str()),
            ClipboardPayload::Uris { .. } => Some("text/uri-list"),
        }
    }

    /// A plain-text rendering of this payload, if it is text-bearing; `None`
    /// for binary-only content (images), so nothing text-like is faked.
    pub fn plain_text(&self) -> (r: Option<String>)
        ensures
            r matches Some(t) ==> plain_text_of(self@) == Some(t@),
            r is None <==> plain_text_of(self@) is None,
    {
        match self {
            ClipboardPayload::Text { text } => Some(clone_string(text)),
            ClipboardPayload::Html { plain, .. } => Some(clone_string(plain)),
            ClipboardPayload::Uris { text, uris } => {
                if !is_blank_string(text) {
                    Some(clone_string(text))
                } else {
                    Some(join_with_newlines(uris))
                }
            },
            ClipboardPayload::Image { .. } => None,
        }
    }

    /// Decode an image payload's base64 into raw bytes.
    pub fn image_bytes(&self) -> (r: Result<Vec<u8>, String>)
        ensures
            match self@ {
                PayloadModel::Image { data_b64, .. } => match r {
                    Ok(v) => base64_standard_decode(data_b64) == Ok::<Seq<u8>, Seq<char>>(v@),
                    Err(m) => base64_standard_decode(data_b64) matches Err(e) && m@
                        == "clipboard image base64 decode failed: "@ + e,
                },
                _ => r matches Err(m) && m@ == "not an image payload: "@ + payload_debug_text(
                    self@,
                ),
            },
    {
        match self {
            ClipboardPayload::Image { data_b64, .. } => match decode_base64(data_b64.as_str()) {
                Ok(v) => Ok(v),
                Err(e) => Err(concat(lit("clipboard image base64 decode failed: "), e.as_str())),
            },
            other => Err(concat(lit("not an image payload: "), payload_debug(other).as_str())),
        }
    }

    /// Check a payload before it enters the shared buffer (bounds + shape), so
    /// one app cannot flood or corrupt the buffer another app will paste.
    pub fn validate(&self) -> (r: Result<(), String>)
        ensures
            r is Ok <==> payload_valid(self@),
            r matches Err(m) ==> validation_error(self@) == Some(m@),
    {
        match self {
            ClipboardPayload::Text { text } => {
                if utf8_len(text.as_str()) > MAX_TEXT_LEN {
                    return Err(lit("clipboard text exceeds 1048576 bytes"));
                }
                if is_blank_string(text) {
                    return Err(lit("clipboard text must not be empty"));
                }
                Ok(())
            },
            ClipboardPayload::Html { html, plain } => {
                if utf8_len(html.as_str()) > MAX_HTML_LEN {
                    return Err(lit("clipboard html exceeds 2097152 bytes"));
                }
                if is_blank_string(html) {
                    return Err(lit("clipboard html must not be empty"));
                }
                Ok(())
            },
            ClipboardPayload::Image { mime, data_b64 } => {
                if is_blank_string(mime) {
                    return Err(lit("clipboard image requires a mime type"));
                }
                if utf8_len(data_b64.as_str()) > MAX_IMAGE_B64_LEN {
                    return Err(lit("clipboard image payload too large"));
                }
                let bytes = match decode_base64(data_b64.as_str()) {
                    Ok(b) => b,
                    Err(e) => {
                        return Err(concat(lit("clipboard image base64 invalid: "), e.as_str()));
                    },
                };
                if bytes.len() == 0 {
                    return Err(lit("clipboard image payload is empty"));
                }
                Ok(())
            },
            ClipboardPayload::Uris { uris, text } => {
                proof {
                    assert(strings_view(uris@).len() == uris@.len());
                }
                if uris.len() == 0 || uris.len() > MAX_URIS {
                    return Err(lit("clipboard needs 1..=64 uris"));
                }
                let mut i: usize = 0;
                while i < uris.len()
                    invariant
                        i <= uris.len(),
                        0 < uris.len() <= MAX_URIS,
                        self@ == (PayloadModel::Uris { uris: strings_view(uris@), text: text@ }),
                        forall|k: int| 0 <= k < i ==> !is_blank(#[trigger] uris@[k]@),
                    decreases uris.len() - i,
                {
                    if is_blank_string(&uris[i]) {
                        proof {
                            assert(is_blank(strings_view(uris@)[i as int]));
                        }
                        return Err(lit("clipboard uris must not be empty"));
                    }
                    i = i + 1;
                }
                proof {
                    assert forall|k: int| 0 <= k < uris@.len() implies !is_blank(
                        #[trigger] strings_view(uris@)[k],
                    ) by {
                        assert(strings_view(uris@)[k] == uris@[k]@);
                    }
                }
                if utf8_len(text.as_str()) > MAX_TEXT_LEN {
                    return Err(lit("clipboard uri text exceeds 1048576 bytes"));
                }
                Ok(())
            },
        }
    }
}

/// `uris.join("\n")`.
fn join_with_newlines(uris: &Vec<String>) -> (r: String)
    ensures
        r@ == join_lines(strings_view(uris@)),
{
    let ghost u = strings_view(uris@);
    let mut out = String::new();
    let mut i: usize = 0;
    while i < uris.len()
        invariant
            i <= uris.len(),
            u == strings_view(uris@),
            out@ == join_lines(u.take(i as int)),
        decreases uris.len() - i,
    {
        proof {
            assert(u.take(i + 1).drop_last() =~= u.take(i as int));
            assert(u.take(i + 1).last() == uris@[i as int]@);
        }
        if i > 0 {
            out = out.concat("\n");
            proof {
                reveal_strlit("\n");
            }
        } else {
            proof {
                assert(u.take(0) =~= Seq::<Seq<char>>::empty());
                assert(u.take(1).len() == 1);
            }
        }
        out = out.concat(uris[i].as_str());
        i = i + 1;
    }
    assert(u.take(uris.len() as int) =~= u);
    out
}

// ---------------------------------------------------------------------------
// Entries
// ---------------------------------------------------------------------------

/// A single immutable snapshot of one copy operation in the shared buffer.
#[derive(Debug, PartialEq)]
pub struct ClipboardEntry {
    /// Monotonic sequence number (1-based, newest is highest).
    pub seq: u64,
    /// Label of the window / surface that produced this copy.
    pub source: String,
    /// Label of the window that wrote it (empty for system/container copies).
    pub owner: String,
    pub timestamp_ms: u64,
    pub payload: ClipboardPayload,
}

/// Mathematical model of a [`ClipboardEntry`].
pub ghost struct EntryModel {
    pub seq: nat,
    pub source: Seq<char>,
    pub owner: Seq<char>,
    pub timestamp_ms: nat,
    pub payload: PayloadModel,
}

impl View for ClipboardEntry {
    type V = EntryModel;

    open spec fn view(&self) -> EntryModel {
        EntryModel {
            seq: self.seq as nat,
            source: self.source@,
            owner: self.owner@,
            timestamp_ms: self.timestamp_ms as nat,
            payload: self.payload@,
        }
    }
}

impl Clone for ClipboardEntry {
    fn clone(&self) -> (r: Self)
        ensures
            r@ == self@,
    {
        ClipboardEntry {
            seq: self.seq,
            source: clone_string(&self.source),
            owner: clone_string(&self.owner),
            timestamp_ms: self.timestamp_ms,
            payload: self.payload.clone(),
        }
    }
}

impl ClipboardEntry {
    /// The plain-text rendering of the payload (see [`ClipboardPayload::plain_text`]).
    pub fn plain_text(&self) -> (r: Option<String>)
        ensures
            r matches Some(t) ==> plain_text_of(self@.payload) == Some(t@),
            r is None <==> plain_text_of(self@.payload) is None,
    {
        self.payload.plain_text()
    }

    /// Decode an image payload into raw bytes (see [`ClipboardPayload::image_bytes`]).
    pub fn image_bytes(&self) -> (r: Result<Vec<u8>, String>)
        ensures
            match self@.payload {
                PayloadModel::Image { data_b64, .. } => match r {
                    Ok(v) => base64_standard_decode(data_b64) == Ok::<Seq<u8>, Seq<char>>(v@),
                    Err(m) => base64_standard_decode(data_b64) matches Err(e) && m@
                        == "clipboard image base64 decode failed: "@ + e,
                },
                _ => r matches Err(m) && m@ == "not an image payload: "@ + payload_debug_text(
                    self@.payload,
                ),
            },
    {
        self.payload.image_bytes()
    }
}

/// Metadata-only notice broadcast on every write: the content is left out, so
/// a background window cannot learn clipboard contents by subscribing.
#[derive(Debug)]
pub struct ClipboardNotice {
    pub seq: u64,
    pub timestamp_ms: u64,
    /// Label of the window/surface that produced the copy (not sensitive).
    pub source: String,
}

impl ClipboardNotice {
    /// The notice for `e`: its sequence number, timestamp and source, nothing more.
    pub fn of(e: &ClipboardEntry) -> (r: ClipboardNotice)
        ensures
            r.seq == e.seq,
            r.timestamp_ms == e.timestamp_ms,
            r.source@ == e.source@,
    {
        ClipboardNotice { seq: e.seq, timestamp_ms: e.timestamp_ms, source: clone_string(&e.source) }
    }
}

// ---------------------------------------------------------------------------
// History
// ---------------------------------------------------------------------------

/// The history after writing `e`: a repeated copy of the newest payload
/// replaces it, the new entry goes on top, and the list is cut to
/// [`HISTORY_LIMIT`].
pub open spec fn history_after_write(h: Seq<EntryModel>, e: EntryModel) -> Seq<EntryModel> {
    let rest = if h.len() > 0 && h[0].payload == e.payload {
        h.drop_first()
    } else {
        h
    };
    let all = seq![e] + rest;
    if all.len() > HISTORY_LIMIT {
        all.take(HISTORY_LIMIT as int)
    } else {
        all
    }
}

/// The history invariant: bounded, newest first with strictly decreasing
/// sequence numbers none above the last one handed out, and never two
/// neighbouring entries with the same payload.
pub open spec fn history_wf(h: Seq<EntryModel>, next_seq: nat) -> bool {
    &&& h.len() <= HISTORY_LIMIT
    &&& forall|i: int, j: int| 0 <= i < j < h.len() ==> h[i].seq > h[j].seq
    &&& forall|i: int| 0 <= i < h.len() ==> 1 <= #[trigger] h[i].seq <= next_seq
    &&& forall|i: int| 0 <= i < h.len() - 1 ==> #[trigger] h[i].payload != h[i + 1].payload
}

/// The entry of `h` that carries sequence number `s`, if any.
pub open spec fn entry_with_seq(h: Seq<EntryModel>, s: nat) -> Option<EntryModel> {
    if exists|i: int| 0 <= i < h.len() && #[trigger] h[i].seq == s {
        Some(h[choose|i: int| 0 <= i < h.len() && #[trigger] h[i].seq == s])
    } else {
        None
    }
}

/// A read after a write gives back the entry written: it is the newest.
pub proof fn lemma_read_after_write(h: Seq<EntryModel>, e: EntryModel)
    ensures
        history_after_write(h, e).len() > 0,
        history_after_write(h, e)[0] == e,
{
}

/// The history never exceeds [`HISTORY_LIMIT`], grows by at most one entry
/// per write, and does not grow at all when the same payload is copied twice
/// in a row.
pub proof fn lemma_history_bounded(h: Seq<EntryModel>, e: EntryModel)
    ensures
        history_after_write(h, e).len() <= HISTORY_LIMIT,
        history_after_write(h, e).len() <= h.len() + 1,
        h.len() > 0 && h[0].payload == e.payload ==> history_after_write(h, e).len() <= h.len(),
{
}

/// A written entry can be looked up by its sequence number, and a write keeps
/// the history well formed.
pub proof fn lemma_written_entry_found_by_seq(h: Seq<EntryModel>, n: nat, e: EntryModel)
    requires
        history_wf(h, n),
        e.seq == n + 1,
    ensures
        entry_with_seq(history_after_write(h, e), e.seq) == Some(e),
        history_wf(history_after_write(h, e), e.seq),
{
    let hn = history_after_write(h, e);
    {
        assert forall|i: int, j: int| 0 <= i < j < hn.len() implies hn[i].seq > hn[j].seq by {
            if i > 0 {
                if h.len() > 0 && h[0].payload == e.payload {
                    assert(hn[i] == h[i]);
                    assert(hn[j] == h[j]);
                } else {
                    assert(hn[i] == h[i - 1]);
                    assert(hn[j] == h[j - 1]);
                }
            } else {
                if h.len() > 0 && h[0].payload == e.payload {
                    assert(hn[j] == h[j]);
                } else {
                    assert(hn[j] == h[j - 1]);
                }
            }
        }
        assert forall|i: int| 0 <= i < hn.len() implies 1 <= #[trigger] hn[i].seq
            <= e.seq by {
            if i > 0 {
                if h.len() > 0 && h[0].payload == e.payload {
                    assert(hn[i] == h[i]);
                } else {
                    assert(hn[i] == h[i - 1]);
                }
            }
        }
        assert forall|i: int| 0 <= i < hn.len() - 1 implies #[trigger] hn[i].payload
            != hn[i + 1].payload by {
            if h.len() > 0 && h[0].payload == e.payload {
                if i == 0 {
                    assert(hn[1] == h[1]);
                    assert(h[0].payload != h[1].payload);
                } else {
                    assert(hn[i] == h[i]);
                    assert(hn[i + 1] == h[i + 1]);
                }
            } else {
                if i == 0 {
                    assert(hn[1] == h[0]);
                } else {
                    assert(hn[i] == h[i - 1]);
                    assert(hn[i + 1] == h[i]);
                }
            }
        }
    }
    assert(hn[0] == e);
    assert(hn[0].seq == e.seq);
    let j = choose|j: int| 0 <= j < hn.len() && #[trigger] hn[j].seq == e.seq;
    if j != 0 {
        if h.len() > 0 && h[0].payload == e.payload {
            assert(hn[j] == h[j]);
        } else {
            assert(hn[j] == h[j - 1]);
        }
    }
}

pub open spec fn entries_view(v: Seq<ClipboardEntry>) -> Seq<EntryModel> {
    v.map_values(|e: ClipboardEntry| e@)
}

/// In-memory, most-recent-first clipboard state.
struct ClipboardCore {
    history: VecDeque<ClipboardEntry>,
    next_seq: u64,
}

impl ClipboardCore {
    spec fn model(&self) -> Seq<EntryModel> {
        entries_view(self.history@)
    }

    spec fn wf(&self) -> bool {
        history_wf(self.model(), self.next_seq as nat)
    }

    fn empty() -> (r: ClipboardCore)
        ensures
            r.wf(),
            r.model() == Seq::<EntryModel>::empty(),
            r.next_seq == 0,
    {
        let r = ClipboardCore { history: VecDeque::new(), next_seq: 0 };
        assert(r.model() =~= Seq::<EntryModel>::empty());
        r
    }

    fn write(
        &mut self,
        source: &str,
        owner: &str,
        timestamp_ms: u64,
        payload: ClipboardPayload,
    ) -> (r: ClipboardEntry)
        requires
            old(self).wf(),
            old(self).next_seq < u64::MAX,
        ensures
            final(self).wf(),
            final(self).next_seq == old(self).next_seq + 1,
            r@ == (EntryModel {
                seq: final(self).next_seq as nat,
                source: source@,
                owner: owner@,
                timestamp_ms: timestamp_ms as nat,
                payload: payload@,
            }),
            final(self).model() == history_after_write(old(self).model(), r@),
    {
        let ghost h0 = self.model();
        let n = self.next_seq + 1;
        let entry = ClipboardEntry {
            seq: n,
            source: String::from_str(source),
            owner: String::from_str(owner),
            timestamp_ms,
            payload,
        };
        let mut h: VecDeque<ClipboardEntry> = VecDeque::new();
        std::mem::swap(&mut h, &mut self.history);
        assert(entries_view(h@) == h0);
        if h.len() > 0 && payload_eq(&h[0].payload, &entry.payload) {
            h.pop_front();
            proof {
                assert(entries_view(h@) =~= h0.drop_first());
            }
        }
        let ghost rest = entries_view(h@);
        h.push_front(entry.clone());
        proof {
            assert(entries_view(h@) =~= seq![entry@] + rest);
        }
        if h.len() > HISTORY_LIMIT {
            h.truncate(HISTORY_LIMIT);
            proof {
                assert(entries_view(h@) =~= (seq![entry@] + rest).take(HISTORY_LIMIT as int));
            }
        }
        self.history = h;
        self.next_seq = n;
        proof {
            lemma_written_entry_found_by_seq(h0, old(self).next_seq as nat, entry@);
        }
        entry
    }

    fn latest(&self) -> (r: Option<&ClipboardEntry>)
        ensures
            r matches Some(e) ==> self.model().len() > 0 && e@ == self.model()[0],
            r is None <==> self.model().len() == 0,
    {
        if self.history.len() > 0 {
            Some(&self.history[0])
        } else {
            None
        }
    }

    fn history(&self, limit: usize) -> (r: Vec<ClipboardEntry>)
        ensures
            entries_view(r@) == self.model().take(
                if limit < self.model().len() {
                    limit as int
                } else {
                    self.model().len() as int
                },
            ),
    {
        let n = if limit < self.history.len() {
            limit
        } else {
            self.history.len()
        };
        let mut r: Vec<ClipboardEntry> = Vec::new();
        let mut i: usize = 0;
        while i < n
            invariant
                n <= self.history.len(),
                i <= n,
                r.len() == i,
                entries_view(r@) == self.model().take(i as int),
            decreases n - i,
        {
            let e = self.history[i].clone();
            let ghost old_r = r@;
            r.push(e);
            proof {
                assert forall|k: int| 0 <= k < i + 1 implies #[trigger] entries_view(r@)[k]
                    == self.model().take(i + 1)[k] by {
                    if k < i {
                        assert(r@[k] == old_r[k]);
                        assert(entries_view(old_r)[k] == self.model().take(i as int)[k]);
                    }
                }
                assert(entries_view(r@) =~= self.model().take(i + 1));
            }
            i = i + 1;
        }
        r
    }

    fn by_seq(&self, seq: u64) -> (r: Option<ClipboardEntry>)
        requires
            self.wf(),
        ensures
            match r {
                Some(e) => entry_with_seq(self.model(), seq as nat) == Some(e@),
                None => entry_with_seq(self.model(), seq as nat) is None,
            },
    {
        let ghost h = self.model();
        let mut i: usize = 0;
        while i < self.history.len()
            invariant
                i <= self.history.len(),
                h == self.model(),
                self.wf(),
                forall|k: int| 0 <= k < i ==> #[trigger] h[k].seq != seq,
            decreases self.history.len() - i,
        {
            if self.history[i].seq == seq {
                proof {
                    assert(h[i as int].seq == seq);
                    let j = choose|j: int| 0 <= j < h.len() && #[trigger] h[j].seq == seq as nat;
                    if j != i {
                        if j < i {
                            assert(h[j].seq > h[i as int].seq);
                        } else {
                            assert(h[i as int].seq > h[j].seq);
                        }
                    }
                }
                return Some(self.history[i].clone());
            }
            i = i + 1;
        }
        None
    }

    fn clear(&mut self) -> (n: usize)
        requires
            old(self).wf(),
        ensures
            final(self).wf(),
            n == old(self).model().len(),
            final(self).model() == Seq::<EntryModel>::empty(),
            final(self).next_seq == old(self).next_seq,
    {
        let n = self.history.len();
        self.history.clear();
        assert(self.model() =~= Seq::<EntryModel>::empty());
        n
    }
}

/// Milliseconds since the Unix epoch by the host clock (`0` if the clock is
/// before the epoch). A reading of the machine's clock: nothing is claimed of
/// its value.
#[verifier::external_body]
fn now_ms() -> u64 {
    std::time::SystemTime::now().duration_since(std::time::UNIX_EPOCH).map(
        |d| d.as_millis() as u64,
    ).unwrap_or(0)
}

/// The shared global clipboard.
pub struct GlobalClipboard {
    core: ClipboardCore,
}

/// Mathematical model of the clipboard: the history, newest first, and the
/// last sequence number handed out.
pub ghost struct ClipboardModel {
    pub history: Seq<EntryModel>,
    pub next_seq: nat,
}

impl View for GlobalClipboard {
    type V = ClipboardModel;

    closed spec fn view(&self) -> ClipboardModel {
        ClipboardModel { history: self.core.model(), next_seq: self.core.next_seq as nat }
    }
}

impl GlobalClipboard {
    /// The clipboard invariant (see [`history_wf`]).
    pub closed spec fn wf(&self) -> bool {
        self.core.wf()
    }

    /// Every clipboard satisfies [`history_wf`] on its model.
    pub proof fn lemma_wf(&self)
        requires
            self.wf(),
        ensures
            history_wf(self@.history, self@.next_seq),
            self@.next_seq <= u64::MAX,
    {
    }

    /// An empty clipboard.
    pub fn new() -> (c: GlobalClipboard)
        ensures
            c.wf(),
            c@.history == Seq::<EntryModel>::empty(),
            c@.next_seq == 0,
    {
        GlobalClipboard { core: ClipboardCore::empty() }
    }

    /// Validate and store a payload as the newest entry. A refused payload
    /// leaves the clipboard unchanged.
    pub fn write(&mut self, source: &str, owner: &str, payload: ClipboardPayload) -> (r: Result<
        ClipboardEntry,
        String,
    >)
        requires
            old(self).wf(),
            old(self)@.next_seq < u64::MAX,
        ensures
            final(self).wf(),
            r is Ok <==> payload_valid(payload@),
            match r {
                Ok(e) => {
                    &&& e.seq == old(self)@.next_seq + 1
                    &&& e@.source == source@
                    &&& e@.owner == owner@
                    &&& e@.payload == payload@
                    &&& final(self)@.next_seq == e.seq
                    &&& final(self)@.history == history_after_write(old(self)@.history, e@)
                },
                Err(m) => final(self)@ == old(self)@ && validation_error(payload@) == Some(m@),
            },
    {
        match payload.validate() {
            Err(e) => Err(e),
            Ok(()) => {
                let ts = now_ms();
                Ok(self.core.write(source, owner, ts, payload))
            },
        }
    }

    /// Copy plain text into the clipboard.
    pub fn write_plain(&mut self, source: &str, owner: &str, text: &str) -> (r: Result<
        ClipboardEntry,
        String,
    >)
        requires
            old(self).wf(),
            old(self)@.next_seq < u64::MAX,
        ensures
            final(self).wf(),
            r is Ok <==> payload_valid(PayloadModel::Text { text: text@ }),
            match r {
                Ok(e) => {
                    &&& e.seq == old(self)@.next_seq + 1
                    &&& e@.source == source@
                    &&& e@.owner == owner@
                    &&& e@.payload == PayloadModel::Text { text: text@ }
                    &&& final(self)@.next_seq == e.seq
                    &&& final(self)@.history == history_after_write(old(self)@.history, e@)
                },
                Err(m) => final(self)@ == old(self)@ && validation_error(
                    PayloadModel::Text { text: text@ },
                ) == Some(m@),
            },
    {
        self.write(source, owner, ClipboardPayload::Text { text: String::from_str(text) })
    }

    /// The last sequence number handed out (`0` before the first write).
    pub fn last_seq(&self) -> (n: u64)
        ensures
            n == self@.next_seq,
    {
        self.core.next_seq
    }

    /// The newest entry, if any.
    pub fn latest(&self) -> (r: Option<ClipboardEntry>)
        ensures
            r matches Some(e) ==> self@.history.len() > 0 && e@ == self@.history[0],
            r is None <==> self@.history.len() == 0,
    {
        match self.core.latest() {
            Some(e) => Some(e.clone()),
            None => None,
        }
    }

    /// The newest entry's plain-text rendering, if any.
    pub fn latest_text(&self) -> (r: Option<String>)
        ensures
            r matches Some(t) ==> self@.history.len() > 0 && plain_text_of(
                self@.history[0].payload,
            ) == Some(t@),
            r is None <==> (self@.history.len() == 0 || plain_text_of(self@.history[0].payload) is None),
    {
        match self.core.latest() {
            Some(e) => e.plain_text(),
            None => None,
        }
    }

    /// A history snapshot, newest first, of at most `limit` (default and
    /// ceiling [`HISTORY_LIMIT`]) entries.
    pub fn history(&self, limit: Option<usize>) -> (r: Vec<ClipboardEntry>)
        ensures
            ({
                let cap: int = match limit {
                    Some(l) => if l < HISTORY_LIMIT {
                        l as int
                    } else {
                        HISTORY_LIMIT as int
                    },
                    None => HISTORY_LIMIT as int,
                };
                entries_view(r@) == self@.history.take(
                    if cap < self@.history.len() {
                        cap
                    } else {
                        self@.history.len() as int
                    },
                )
            }),
    {
        let l = match limit {
            Some(l) => l,
            None => HISTORY_LIMIT,
        };
        let l = if l < HISTORY_LIMIT {
            l
        } else {
            HISTORY_LIMIT
        };
        self.core.history(l)
    }

    /// The entry with sequence number `seq`, if it is still in the history.
    pub fn by_seq(&self, seq: u64) -> (r: Option<ClipboardEntry>)
        requires
            self.wf(),
        ensures
            match r {
                Some(e) => entry_with_seq(self@.history, seq as nat) == Some(e@),
                None => entry_with_seq(self@.history, seq as nat) is None,
            },
    {
        self.core.by_seq(seq)
    }

    /// Clear the whole history, returning how many entries were removed.
    pub fn clear(&mut self) -> (n: usize)
        requires
            old(self).wf(),
        ensures
            final(self).wf(),
            n == old(self)@.history.len(),
            final(self)@.history == Seq::<EntryModel>::empty(),
            final(self)@.next_seq == old(self)@.next_seq,
    {
        self.core.clear()
    }
}

// ---------------------------------------------------------------------------
// Foreground read permission
// ---------------------------------------------------------------------------

/// One window the window manager tracks.
#[derive(Debug, Clone, PartialEq, Eq)]
pub struct WindowRef {
    pub id: u64,
    pub label: String,
}

/// What the clipboard reads of the window manager: the focused window's id
/// and the tracked windows.
#[derive(Debug, Clone, PartialEq, Eq)]
pub struct WmSnapshot {
    pub focused: Option<u64>,
    pub windows: Vec<WindowRef>,
}

/// The label of the first tracked window with id `id`, if any.
pub open spec fn label_of(ws: Seq<WindowRef>, id: u64) -> Option<Seq<char>>
    decreases ws.len(),
{
    if ws.len() == 0 {
        None
    } else if ws[0].id == id {
        Some(ws[0].label@)
    } else {
        label_of(ws.drop_first(), id)
    }
}

/// What [`foreground_label`] returns for a snapshot.
pub open spec fn foreground_spec(snap: WmSnapshot) -> Result<Seq<char>, Seq<char>> {
    match snap.focused {
        None => Err("clipboard read denied: no focused window"@),
        Some(fid) => match label_of(snap.windows@, fid) {
            Some(l) => Ok(l),
            None => Err("clipboard read denied: focused window not tracked"@),
        },
    }
}

/// The label of the currently focused window.
pub fn foreground_label(snap: &WmSnapshot) -> (r: Result<String, String>)
    ensures
        match (r, foreground_spec(*snap)) {
            (Ok(l), Ok(m)) => l@ == m,
            (Err(e), Err(m)) => e@ == m,
            _ => false,
        },
{
    let fid = match snap.focused {
        None => return Err(lit("clipboard read denied: no focused window")),
        Some(f) => f,
    };
    let mut i: usize = 0;
    assert(snap.windows@.skip(0) =~= snap.windows@);
    while i < snap.windows.len()
        invariant
            i <= snap.windows.len(),
            snap.focused == Some(fid),
            label_of(snap.windows@, fid) == label_of(snap.windows@.skip(i as int), fid),
        decreases snap.windows.len() - i,
    {
        proof {
            assert(snap.windows@.skip(i as int).drop_first() =~= snap.windows@.skip(i + 1));
        }
        if snap.windows[i].id == fid {
            return Ok(clone_string(&snap.windows[i].label));
        }
        i = i + 1;
    }
    Err(lit("clipboard read denied: focused window not tracked"))
}

/// What [`require_foreground`] decides for `caller`.
pub open spec fn foreground_rule(snap: WmSnapshot, caller: Seq<char>) -> Result<(), Seq<char>> {
    match foreground_spec(snap) {
        Err(m) => Err(m),
        Ok(fg) => if fg == caller {
            Ok(())
        } else {
            Err(
                "clipboard read denied: '"@ + caller + "' is not the foreground window (foreground='"@
                    + fg + "')"@,
            )
        },
    }
}

/// Reading the shared buffer is granted only to the focused window.
pub fn require_foreground(snap: &WmSnapshot, caller: &str) -> (r: Result<(), String>)
    ensures
        match (r, foreground_rule(*snap, caller@)) {
            (Ok(()), Ok(())) => true,
            (Err(e), Err(m)) => e@ == m,
            _ => false,
        },
{
    let fg = match foreground_label(snap) {
        Ok(l) => l,
        Err(e) => return Err(e),
    };
    if crate::text::str_eq(fg.as_str(), caller) {
        Ok(())
    } else {
        let m = concat(lit("clipboard read denied: '"), caller);
        let m = concat(m, "' is not the foreground window (foreground='");
        let m = concat(m, fg.as_str());
        let m = concat(m, "')");
        Err(m)
    }
}

// ---------------------------------------------------------------------------
// Native transport seam
// ---------------------------------------------------------------------------

// ---------------------------------------------------------------------------
// Commands
// ---------------------------------------------------------------------------

/// Copy content into the shared clipboard from the window `caller` (allowed
/// from any window: copying is never the attack). The source defaults to the
/// caller. Returns the stored entry and the metadata-only notice the UIs are
/// told about (the content itself is only handed out by a foreground read).
pub fn clipboard_write(
    clip: &mut GlobalClipboard,
    caller: &str,
    payload: ClipboardPayload,
    source: Option<String>,
) -> (r: Result<(ClipboardEntry, ClipboardNotice), String>)
    requires
        old(clip).wf(),
        old(clip)@.next_seq < u64::MAX,
    ensures
        final(clip).wf(),
        r is Ok <==> payload_valid(payload@),
        match r {
            Ok((e, n)) => {
                &&& e@.source == match source {
                    Some(s) => s@,
                    None => caller@,
                }
                &&& e@.owner == caller@
                &&& e@.payload == payload@
                &&& e.seq == old(clip)@.next_seq + 1
                &&& final(clip)@.next_seq == e.seq
                &&& final(clip)@.history == history_after_write(old(clip)@.history, e@)
                &&& n.seq == e.seq && n.source@ == e@.source
            },
            Err(m) => final(clip)@ == old(clip)@ && validation_error(payload@) == Some(m@),
        },
{
    let src = match source {
        Some(s) => s,
        None => String::from_str(caller),
    };
    match clip.write(src.as_str(), caller, payload) {
        Ok(e) => {
            let n = ClipboardNotice::of(&e);
            Ok((e, n))
        },
        Err(m) => Err(m),
    }
}

/// Paste: the newest entry (or the one with sequence number `seq`), for the
/// foreground window only.
pub fn clipboard_read(clip: &GlobalClipboard, wm: &WmSnapshot, caller: &str, seq: Option<u64>) -> (r:
    Result<Option<ClipboardEntry>, String>)
    requires
        clip.wf(),
    ensures
        match foreground_rule(*wm, caller@) {
            Err(m) => r matches Err(e) && e@ == m,
            Ok(()) => r matches Ok(x) && match seq {
                Some(s) => match x {
                    Some(e) => entry_with_seq(clip@.history, s as nat) == Some(e@),
                    None => entry_with_seq(clip@.history, s as nat) is None,
                },
                None => match x {
                    Some(e) => clip@.history.len() > 0 && e@ == clip@.history[0],
                    None => clip@.history.len() == 0,
                },
            },
        },
{
    match require_foreground(wm, caller) {
        Err(e) => return Err(e),
        Ok(()) => {},
    }
    let entry = match seq {
        Some(s) => clip.by_seq(s),
        None => clip.latest(),
    };
    Ok(entry)
}

/// Browse the history (at most `limit` entries), for the foreground window
/// only.
pub fn clipboard_history(clip: &GlobalClipboard, wm: &WmSnapshot, caller: &str, limit: Option<
    usize,
>) -> (r: Result<Vec<ClipboardEntry>, String>)
    ensures
        match foreground_rule(*wm, caller@) {
            Err(m) => r matches Err(e) && e@ == m,
            Ok(()) => r matches Ok(v) && ({
                let cap: int = match limit {
                    Some(l) => if l < HISTORY_LIMIT {
                        l as int
                    } else {
                        HISTORY_LIMIT as int
                    },
                    None => HISTORY_LIMIT as int,
                };
                entries_view(v@) == clip@.history.take(
                    if cap < clip@.history.len() {
                        cap
                    } else {
                        clip@.history.len() as int
                    },
                )
            }),
        },
{
    match require_foreground(wm, caller) {
        Err(e) => return Err(e),
        Ok(()) => {},
    }
    Ok(clip.history(limit))
}

/// Clear the whole history, for the foreground window only; returns how many
/// entries were dropped. A refused caller leaves the clipboard unchanged.
pub fn clipboard_clear(clip: &mut GlobalClipboard, wm: &WmSnapshot, caller: &str) -> (r: Result<
    usize,
    String,
>)
    requires
        old(clip).wf(),
    ensures
        final(clip).wf(),
        match foreground_rule(*wm, caller@) {
            Err(m) => r matches Err(e) && e@ == m && final(clip)@ == old(clip)@,
            Ok(()) => r matches Ok(n) && n == old(clip)@.history.len() && final(clip)@.history
                == Seq::<EntryModel>::empty() && final(clip)@.next_seq == old(clip)@.next_seq,
        },
{
    match require_foreground(wm, caller) {
        Err(e) => return Err(e),
        Ok(()) => {},
    }
    Ok(clip.clear())
}

/// Only the foreground window ever reads the shared buffer: a read that
/// succeeds was made by the focused, tracked window.
pub proof fn lemma_reads_are_foreground_only(wm: WmSnapshot, caller: Seq<char>)
    ensures
        foreground_rule(wm, caller) is Ok ==> (wm.focused matches Some(f) && label_of(
            wm.windows@,
            f,
        ) == Some(caller)),
{
}

/// Platform transport for the clipboard: mirrors an outgoing entry onto the
/// OS/container clipboard.
pub trait ClipboardNative {
    fn name(&self) -> &'static str;

    /// Push an outgoing entry to the platform clipboard (best-effort).
    fn push_out(&self, entry: &ClipboardEntry) -> Result<(), String>;
}

} // verus!
