//! App-store seam: the checks the WebView's requests pass before they reach
//! the store engine, and the shape of the `amos-app://` replies.
//!
//! An app id is also a path segment under the install root, so it is bounded
//! and refused when it could escape it. A search query is bounded. A CSP
//! report is cut at a character boundary before it is logged. A protocol
//! reply always carries `nosniff` when asked and a wildcard origin only when
//! it is public.
use vstd::prelude::*;

use crate::clipboard::{byte_len, utf8_len};
use crate::error::{AmosError, ErrorCode};
use crate::text::{chars_of, contains_char, decimal, str_eq, string_of, to_decimal};

verus! {

broadcast use vstd::utf8::char_is_scalar;

/// Maximum bytes in an app-store app id.
pub const MAX_APPSTORE_ID_BYTES: usize = 128;

/// Upper bound on a catalog search query (bytes).
pub const MAX_APPSTORE_QUERY_BYTES: usize = 256;

/// Upper bound on a CSP violation report that is logged whole (bytes).
pub const MAX_CSP_REPORT_BYTES: usize = 16384;

/// One installed app as the device-care policy needs it. `size_bytes` is
/// `None` when the manifest declares no size.
#[derive(Clone, Debug, PartialEq, Eq)]
pub struct InstalledEntry {
    pub id: String,
    pub name: String,
    pub size_bytes: Option<u64>,
    pub system: bool,
}

/// One `amos-app://` response, before it becomes an HTTP response.
#[derive(Clone, Debug, PartialEq, Eq)]
pub struct ProtocolReply {
    pub status: u16,
    pub content_type: String,
    pub nosniff: bool,
    pub body: Vec<u8>,
    /// The `Content-Security-Policy` to send, if any.
    pub csp: Option<String>,
    /// Only the public index may be read cross-origin.
    pub public: bool,
}

/// Where an installed web bundle's entry document lives.
#[derive(Clone, Debug, PartialEq, Eq)]
pub struct BundleEntry {
    /// Platform-correct absolute URL of the entry document.
    pub url: String,
    /// The entry file inside the bundle.
    pub start: String,
}

/// `format!("{:?}", s)`: the Rust `Debug` rendering of a string (quoted and
/// escaped).
pub uninterp spec fn str_debug(s: Seq<char>) -> Seq<char>;

/// `Debug`-format a string slice.
#[verifier::external_body]
pub(crate) fn debug_str(s: &str) -> (r: String)
    ensures
        r@ == str_debug(s@),
{
    format!("{s:?}")
}

/// Could this id, used as a path segment, escape the install root? A
/// separator (`/`, `\`), a NUL, or a bare `.` / `..` is refused; the
/// `../`, `/../` and `/..` shapes all contain a separator.
pub open spec fn id_escapes(id: Seq<char>) -> bool {
    ||| id.contains('/')
    ||| id.contains('\\')
    ||| id.contains('\0')
    ||| id == "."@
    ||| id == ".."@
}

/// Validate an app id at the command seam: empty, then too long, then a path
/// shape, each with its own code.
pub fn validate_appstore_id(id: &str) -> (r: Result<(), AmosError>)
    ensures
        byte_len(id@) == 0 ==> (r matches Err(e) && e.code == ErrorCode::AppStoreIdEmpty
            && e.message@ == "appstore id is empty"@),
        0 < byte_len(id@) <= MAX_APPSTORE_ID_BYTES && !id_escapes(id@) ==> r is Ok,
        byte_len(id@) > MAX_APPSTORE_ID_BYTES ==> (r matches Err(e) && e.code
            == ErrorCode::AppStoreIdTooLong && e.message@ == "appstore id too long: "@ + decimal(
            byte_len(id@),
        ) + " bytes (max 128)"@),
        0 < byte_len(id@) <= MAX_APPSTORE_ID_BYTES && id_escapes(id@) ==> (r matches Err(e)
            && e.code == ErrorCode::AppStoreIdInvalid && e.message@
            == "appstore id is not a valid id: "@ + str_debug(id@)),
{
    let n = utf8_len(id);
    if n == 0 {
        return Err(AmosError::new(ErrorCode::AppStoreIdEmpty, "appstore id is empty"));
    }
    if n > MAX_APPSTORE_ID_BYTES {
        let m = String::from_str("appstore id too long: ").concat(to_decimal(n as u64).as_str()).concat(
            " bytes (max 128)",
        );
        return Err(AmosError::new(ErrorCode::AppStoreIdTooLong, m.as_str()));
    }
    let v = chars_of(id);
    proof {
        assert(v@.subrange(0, v.len() as int) =~= v@);
    }
    if contains_char(&v, 0, v.len(), '/') || contains_char(&v, 0, v.len(), '\\')
        || contains_char(&v, 0, v.len(), '\0') || str_eq(id, ".") || str_eq(id, "..") {
        let m = String::from_str("appstore id is not a valid id: ").concat(debug_str(id).as_str());
        return Err(AmosError::new(ErrorCode::AppStoreIdInvalid, m.as_str()));
    }
    Ok(())
}

/// Bound a catalog search query.
pub fn check_search_query(query: &str) -> (r: Result<(), String>)
    ensures
        r is Ok <==> byte_len(query@) <= MAX_APPSTORE_QUERY_BYTES,
        r matches Err(m) ==> m@ == "appstore search query too long: "@ + decimal(byte_len(query@))
            + " bytes (max 256)"@,
{
    let n = utf8_len(query);
    if n > MAX_APPSTORE_QUERY_BYTES {
        return Err(
            String::from_str("appstore search query too long: ").concat(
                to_decimal(n as u64).as_str(),
            ).concat(" bytes (max 256)"),
        );
    }
    Ok(())
}

/// The display name of the first inventory entry with this id.
pub fn installed_name(inventory: &Vec<InstalledEntry>, id: &str) -> (r: Option<String>)
    ensures
        match r {
            Some(n) => exists|i: int|
                0 <= i < inventory@.len() && (#[trigger] inventory@[i]).id@ == id@ && n@
                    == inventory@[i].name@ && forall|j: int|
                    0 <= j < i ==> (#[trigger] inventory@[j]).id@ != id@,
            None => forall|i: int| 0 <= i < inventory@.len() ==> (#[trigger] inventory@[i]).id@ != id@,
        },
{
    let mut i: usize = 0;
    while i < inventory.len()
        invariant
            i <= inventory.len(),
            forall|j: int| 0 <= j < i ==> (#[trigger] inventory@[j]).id@ != id@,
        decreases inventory.len() - i,
    {
        if str_eq(inventory[i].id.as_str(), id) {
            return Some(inventory[i].name.clone());
        }
        i = i + 1;
    }
    None
}

// ---------------------------------------------------------------------------
// UTF-8 widths
// ---------------------------------------------------------------------------

/// The UTF-8 encoding of a concatenation is the concatenation of encodings.
pub proof fn lemma_encode_concat(a: Seq<char>, b: Seq<char>)
    ensures
        vstd::utf8::encode_utf8(a + b) == vstd::utf8::encode_utf8(a) + vstd::utf8::encode_utf8(b),
    decreases a.len(),
{
    if a.len() == 0 {
        assert(a + b =~= b);
        assert(vstd::utf8::encode_utf8(a) =~= Seq::<u8>::empty());
        assert(vstd::utf8::encode_utf8(a) + vstd::utf8::encode_utf8(b) =~= vstd::utf8::encode_utf8(
            b,
        ));
    } else {
        assert((a + b)[0] == a[0]);
        assert((a + b).drop_first() =~= a.drop_first() + b);
        lemma_encode_concat(a.drop_first(), b);
        assert(vstd::utf8::encode_utf8(a + b) =~= vstd::utf8::encode_scalar(a[0] as u32)
            + vstd::utf8::encode_utf8(a.drop_first() + b));
    }
}

/// One more character adds its own width to a prefix's byte length.
pub proof fn lemma_byte_len_take(s: Seq<char>, k: int)
    requires
        0 <= k < s.len(),
    ensures
        byte_len(s.take(k + 1)) == byte_len(s.take(k)) + vstd::utf8::encode_scalar(
            s[k] as u32,
        ).len(),
        byte_len(s.take(k)) <= byte_len(s),
{
    let c = seq![s[k]];
    assert(s.take(k + 1) =~= s.take(k) + c);
    lemma_encode_concat(s.take(k), c);
    assert(c.drop_first() =~= Seq::<char>::empty());
    assert(vstd::utf8::encode_utf8(c) =~= vstd::utf8::encode_scalar(s[k] as u32)
        + vstd::utf8::encode_utf8(c.drop_first()));
    assert(vstd::utf8::encode_utf8(Seq::<char>::empty()) =~= Seq::<u8>::empty());
    assert(s =~= s.take(k) + s.skip(k));
    lemma_encode_concat(s.take(k), s.skip(k));
}

/// How many bytes `c` takes in UTF-8.
fn char_width(c: char) -> (w: usize)
    ensures
        w == vstd::utf8::encode_scalar(c as u32).len(),
        1 <= w <= 4,
{
    let u = c as u32;
    if u <= 0x7F {
        1
    } else if u <= 0x7FF {
        2
    } else if u <= 0xFFFF {
        3
    } else {
        4
    }
}

/// `k` characters of `s` are the longest prefix within `max` bytes.
pub open spec fn longest_prefix_within(s: Seq<char>, k: int, max: nat) -> bool {
    &&& 0 <= k <= s.len()
    &&& byte_len(s.take(k)) <= max
    &&& (k == s.len() || byte_len(s.take(k + 1)) > max)
}

/// The logged form of a CSP report: `None` for an empty report, the report
/// itself when it fits [`MAX_CSP_REPORT_BYTES`], else its longest head that
/// fits, cut at a character boundary, with the number of bytes cut.
pub fn csp_preview(report: &str) -> (r: Option<String>)
    ensures
        report@.len() == 0 ==> r is None,
        report@.len() > 0 && byte_len(report@) <= MAX_CSP_REPORT_BYTES ==> (r matches Some(p)
            && p@ == report@),
        byte_len(report@) > MAX_CSP_REPORT_BYTES ==> (r matches Some(p) && exists|k: int|
            longest_prefix_within(report@, k, MAX_CSP_REPORT_BYTES as nat) && p@ == report@.take(
                k,
            ) + "… <truncated "@ + decimal((byte_len(report@) - byte_len(report@.take(k))) as nat)
                + " bytes>"@),
{
    let v = chars_of(report);
    if v.len() == 0 {
        return None;
    }
    let total = utf8_len(report);
    if total <= MAX_CSP_REPORT_BYTES {
        return Some(String::from_str(report));
    }
    let mut i: usize = 0;
    let mut acc: usize = 0;
    loop
        invariant_except_break
            i < v.len(),
            acc == byte_len(v@.take(i as int)),
            acc <= MAX_CSP_REPORT_BYTES,
        ensures
            i <= v.len(),
            acc == byte_len(v@.take(i as int)),
            acc <= MAX_CSP_REPORT_BYTES,
            i == v.len() || byte_len(v@.take(i + 1)) > MAX_CSP_REPORT_BYTES,
        decreases v.len() - i,
    {
        proof {
            lemma_byte_len_take(v@, i as int);
        }
        let w = char_width(v[i]);
        if acc + w > MAX_CSP_REPORT_BYTES {
            break ;
        }
        acc = acc + w;
        i = i + 1;
        if i == v.len() {
            break ;
        }
    }
    proof {
        if i < v.len() {
            lemma_byte_len_take(v@, i as int);
        } else {
            assert(v@.take(i as int) =~= v@);
        }
        assert(v@.take(i as int) == v@.subrange(0, i as int));
    }
    let head = string_of(&v, 0, i);
    let cut = total - acc;
    let p = head.concat("… <truncated ").concat(to_decimal(cut as u64).as_str()).concat(" bytes>");
    proof {
        assert(longest_prefix_within(report@, i as int, MAX_CSP_REPORT_BYTES as nat));
    }
    Some(p)
}

// ---------------------------------------------------------------------------
// Protocol replies
// ---------------------------------------------------------------------------

/// The headers a reply is sent with, in order: its content type; `nosniff`
/// when asked; its policy when it has one; the wildcard origin only when it is
/// public.
pub open spec fn reply_headers(r: ProtocolReply) -> Seq<(Seq<char>, Seq<char>)> {
    let base = seq![("Content-Type"@, r.content_type@)];
    let a = if r.nosniff {
        base.push(("X-Content-Type-Options"@, "nosniff"@))
    } else {
        base
    };
    let b = match r.csp {
        Some(c) => a.push(("Content-Security-Policy"@, c@)),
        None => a,
    };
    if r.public {
        b.push(("Access-Control-Allow-Origin"@, "*"@))
    } else {
        b
    }
}

/// The header list as plain values.
pub open spec fn headers_view(v: Seq<(String, String)>) -> Seq<(Seq<char>, Seq<char>)> {
    v.map_values(|p: (String, String)| (p.0@, p.1@))
}

fn header(name: &str, value: &str) -> (p: (String, String))
    ensures
        p.0@ == name@,
        p.1@ == value@,
{
    (String::from_str(name), String::from_str(value))
}

/// The headers of a reply (see [`reply_headers`]).
pub fn protocol_headers(reply: &ProtocolReply) -> (h: Vec<(String, String)>)
    ensures
        headers_view(h@) == reply_headers(*reply),
{
    let mut h: Vec<(String, String)> = Vec::new();
    h.push(header("Content-Type", reply.content_type.as_str()));
    let ghost s0 = seq![("Content-Type"@, reply.content_type@)];
    assert(headers_view(h@) =~= s0);
    if reply.nosniff {
        let ghost before = h@;
        h.push(header("X-Content-Type-Options", "nosniff"));
        assert(headers_view(h@) =~= headers_view(before).push(("X-Content-Type-Options"@, "nosniff"@)));
    }
    match &reply.csp {
        Some(c) => {
            let ghost before = h@;
            h.push(header("Content-Security-Policy", c.as_str()));
            assert(headers_view(h@) =~= headers_view(before).push(
                ("Content-Security-Policy"@, c@),
            ));
        },
        None => {},
    }
    if reply.public {
        let ghost before = h@;
        h.push(header("Access-Control-Allow-Origin", "*"));
        assert(headers_view(h@) =~= headers_view(before).push(("Access-Control-Allow-Origin"@, "*"@)));
    }
    h
}

/// A refused request: a `404` plain-text document whose body is the reason
/// and a newline, locked down by the index policy.
pub fn refused_reply(reason: &str, index_csp: String, public: bool) -> (r: ProtocolReply)
    ensures
        r.status == 404,
        r.content_type@ == "text/plain; charset=utf-8"@,
        r.nosniff,
        r.body@ == vstd::utf8::encode_utf8(reason@ + "\n"@),
        r.csp matches Some(c) && c@ == index_csp@,
        r.public == public,
{
    let text = String::from_str(reason).concat("\n");
    let body = vstd::slice::slice_to_vec(text.as_str().as_bytes());
    ProtocolReply {
        status: 404,
        content_type: String::from_str("text/plain; charset=utf-8"),
        nosniff: true,
        body,
        csp: Some(index_csp),
        public,
    }
}


// ---------------------------------------------------------------------------
// Inventory order
// ---------------------------------------------------------------------------

/// `a` and `b` agree on their first `k` characters.
pub open spec fn same_prefix(a: Seq<char>, b: Seq<char>, k: int) -> bool {
    forall|i: int| 0 <= i < k ==> a[i] == b[i]
}

/// `k` witnesses that `a` sorts strictly before `b`: they agree before `k`,
/// and there `a` ends while `b` goes on, or `a` has the smaller character.
pub open spec fn lt_at(a: Seq<char>, b: Seq<char>, k: int) -> bool {
    &&& 0 <= k <= a.len()
    &&& k <= b.len()
    &&& same_prefix(a, b, k)
    &&& ((k == a.len() && k < b.len()) || (k < a.len() && k < b.len() && a[k] < b[k]))
}

/// Lexicographic order of texts by character (what `str` ordering is: the
/// byte order of UTF-8 is the order of code points).
pub open spec fn text_lt(a: Seq<char>, b: Seq<char>) -> bool {
    exists|k: int| lt_at(a, b, k)
}

/// No text sorts before itself, and of two texts at most one sorts first.
pub proof fn lemma_text_lt_asym(a: Seq<char>, b: Seq<char>)
    ensures
        !(text_lt(a, b) && text_lt(b, a)),
{
    if text_lt(a, b) && text_lt(b, a) {
        let k1 = choose|k: int| lt_at(a, b, k);
        let k2 = choose|k: int| lt_at(b, a, k);
        if k1 < k2 {
            assert(b[k1] == a[k1]);
        } else if k2 < k1 {
            assert(a[k2] == b[k2]);
        }
    }
}

/// The order is transitive.
pub proof fn lemma_text_lt_trans(a: Seq<char>, b: Seq<char>, c: Seq<char>)
    requires
        text_lt(a, b),
        text_lt(b, c),
    ensures
        text_lt(a, c),
{
    let k1 = choose|k: int| lt_at(a, b, k);
    let k2 = choose|k: int| lt_at(b, c, k);
    let k = if k1 < k2 {
        k1
    } else {
        k2
    };
    assert(lt_at(a, c, k));
}

/// Two texts that differ are ordered one way or the other.
pub proof fn lemma_text_lt_total(a: Seq<char>, b: Seq<char>)
    ensures
        a =~= b || text_lt(a, b) || text_lt(b, a),
{
    if !(a =~= b) {
        let m = if a.len() < b.len() {
            a.len() as int
        } else {
            b.len() as int
        };
        if same_prefix(a, b, m) {
            if a.len() < b.len() {
                assert(lt_at(a, b, m));
            } else if b.len() < a.len() {
                assert(lt_at(b, a, m));
            } else {
                assert(a =~= b);
            }
        } else {
            lemma_first_difference(a, b, m);
            let k = choose|k: int| 0 <= k < m && a[k] != b[k] && forall|i: int|
                0 <= i < k ==> a[i] == b[i];
            if a[k] < b[k] {
                assert(lt_at(a, b, k));
            } else {
                assert(lt_at(b, a, k));
            }
        }
    }
}

/// The first index below `m` where `a` and `b` differ exists when they do
/// not agree on a prefix of length `m`.
proof fn lemma_first_difference(a: Seq<char>, b: Seq<char>, m: int)
    requires
        0 <= m <= a.len(),
        m <= b.len(),
        !same_prefix(a, b, m),
    ensures
        exists|k: int| 0 <= k < m && a[k] != b[k] && forall|i: int| 0 <= i < k ==> a[i] == b[i],
    decreases m,
{
    if same_prefix(a, b, m - 1) {
        assert(a[m - 1] != b[m - 1]);
    } else {
        lemma_first_difference(a, b, m - 1);
    }
}

/// Does `a` sort strictly before `b`?
fn text_less(a: &Vec<char>, b: &Vec<char>) -> (r: bool)
    ensures
        r == text_lt(a@, b@),
{
    let mut i: usize = 0;
    while i < a.len() && i < b.len()
        invariant
            i <= a.len(),
            i <= b.len(),
            same_prefix(a@, b@, i as int),
        decreases a.len() - i,
    {
        if a[i] != b[i] {
            if a[i] < b[i] {
                assert(lt_at(a@, b@, i as int));
                return true;
            } else {
                proof {
                    if text_lt(a@, b@) {
                        let k = choose|k: int| lt_at(a@, b@, k);
                        if k > i {
                            assert(a@[i as int] == b@[i as int]);
                        }
                    }
                }
                return false;
            }
        }
        i = i + 1;
    }
    if i == a.len() && i < b.len() {
        assert(lt_at(a@, b@, i as int));
        true
    } else {
        proof {
            if text_lt(a@, b@) {
                let k = choose|k: int| lt_at(a@, b@, k);
                if k < i {
                    assert(a@[k] == b@[k]);
                }
            }
        }
        false
    }
}

/// Sorted by id, never decreasing.
pub open spec fn sorted_by_id(s: Seq<InstalledEntry>) -> bool {
    forall|i: int, j: int| 0 <= i < j < s.len() ==> !text_lt(s[j].id@, s[i].id@)
}

/// The entries with this id, in their order.
pub open spec fn with_id(s: Seq<InstalledEntry>, k: Seq<char>) -> Seq<InstalledEntry> {
    s.filter(id_is(k))
}

/// Does an entry have this id?
pub open spec fn id_is(k: Seq<char>) -> spec_fn(InstalledEntry) -> bool {
    |e: InstalledEntry| e.id@ == k
}

/// Inserting an entry in front of every entry whose id does not sort before
/// it puts it first among the entries with its id, and leaves the others.
proof fn lemma_with_id_insert(o: Seq<InstalledEntry>, j: int, x: InstalledEntry, k: Seq<char>)
    requires
        0 <= j <= o.len(),
        forall|i: int| 0 <= i < j ==> text_lt(#[trigger] o[i].id@, x.id@),
    ensures
        with_id(o.insert(j, x), k) == if x.id@ == k {
            seq![x] + with_id(o, k)
        } else {
            with_id(o, k)
        },
{
    broadcast use vstd::seq_lib::group_seq_properties;

    let p = id_is(k);
    let a = o.take(j);
    let b = o.skip(j);
    assert(o =~= a + b);
    assert(o.insert(j, x) =~= a + (seq![x] + b));
    Seq::filter_distributes_over_add(a, b, p);
    Seq::filter_distributes_over_add(a, seq![x] + b, p);
    b.lemma_filter_prepend(x, p);
    if x.id@ == k {
        assert forall|i: int| 0 <= i < a.len() implies !p(#[trigger] a[i]) by {
            lemma_text_lt_asym(a[i].id@, x.id@);
        }
        assert(a.all(|e: InstalledEntry| !p(e)));
        a.lemma_all_neg_filter_empty(p);
        assert(a.filter(p) =~= Seq::<InstalledEntry>::empty());
        assert(with_id(o.insert(j, x), k) =~= seq![x] + with_id(o, k));
    } else {
        assert(with_id(o.insert(j, x), k) =~= with_id(o, k));
    }
}

/// The inventory sorted by id: the same entries, in id order, and entries
/// with the same id in the order they came in (the sort is stable).
pub fn sort_inventory(items: Vec<InstalledEntry>) -> (r: Vec<InstalledEntry>)
    ensures
        sorted_by_id(r@),
        r@.to_multiset() == items@.to_multiset(),
        forall|k: Seq<char>| #[trigger] with_id(r@, k) == with_id(items@, k),
{
    broadcast use vstd::seq_lib::group_to_multiset_ensures;

    let ghost all = items@;
    let mut rest = items;
    let mut out: Vec<InstalledEntry> = Vec::new();
    proof {
        assert(all.skip(all.len() as int) =~= Seq::<InstalledEntry>::empty());
        assert forall|k: Seq<char>| #[trigger] with_id(out@, k) == with_id(
            all.skip(rest@.len() as int),
            k,
        ) by {
            reveal(Seq::filter);
            assert(out@ =~= Seq::<InstalledEntry>::empty());
        }
    }
    while rest.len() > 0
        invariant
            sorted_by_id(out@),
            out@.to_multiset().add(rest@.to_multiset()) == all.to_multiset(),
            rest@ == all.take(rest@.len() as int),
            rest@.len() <= all.len(),
            forall|k: Seq<char>| #[trigger] with_id(out@, k) == with_id(
                all.skip(rest@.len() as int),
                k,
            ),
        decreases rest@.len(),
    {
        let ghost r0 = rest@;
        let ghost o0 = out@;
        let x = rest.pop().unwrap();
        proof {
            assert(r0 =~= rest@.push(x));
        }
        let xk = chars_of(x.id.as_str());
        // The first position whose id does not sort before `x`.
        let mut j: usize = 0;
        while j < out.len()
            invariant
                j <= out.len(),
                out@ == o0,
                xk@ == x.id@,
                forall|k: int| 0 <= k < j ==> text_lt(#[trigger] out@[k].id@, x.id@),
            ensures
                j <= out.len(),
                out@ == o0,
                forall|k: int| 0 <= k < j ==> text_lt(#[trigger] out@[k].id@, x.id@),
                j == out.len() || !text_lt(out@[j as int].id@, x.id@),
            decreases out.len() - j,
        {
            let yk = chars_of(out[j].id.as_str());
            if !text_less(&yk, &xk) {
                break;
            }
            j = j + 1;
        }
        proof {
            // From `j` on, no id sorts before `x`.
            assert forall|k: int| j <= k < o0.len() implies !text_lt(#[trigger] o0[k].id@, x.id@) by {
                if j < o0.len() {
                    assert(!text_lt(o0[j as int].id@, x.id@));
                    if k > j {
                        assert(!text_lt(o0[k].id@, o0[j as int].id@));
                        if text_lt(o0[k].id@, x.id@) {
                            lemma_text_lt_total(o0[k].id@, o0[j as int].id@);
                            if o0[k].id@ =~= o0[j as int].id@ {
                            } else {
                                lemma_text_lt_trans(o0[j as int].id@, o0[k].id@, x.id@);
                            }
                        }
                    }
                }
            }
        }
        out.insert(j, x);
        proof {
            let o1 = out@;
            assert(o1 =~= o0.insert(j as int, x));
            assert forall|a: int, b: int| 0 <= a < b < o1.len() implies !text_lt(
                o1[b].id@,
                o1[a].id@,
            ) by {
                if a < j && b == j {
                    lemma_text_lt_asym(o0[a].id@, x.id@);
                } else if a == j && b > j {
                    assert(o1[b] == o0[b - 1]);
                    assert(!text_lt(o0[b - 1].id@, x.id@));
                } else if a < j && b > j {
                    assert(o1[b] == o0[b - 1]);
                } else if a > j {
                    assert(o1[a] == o0[a - 1]);
                    assert(o1[b] == o0[b - 1]);
                }
            }
            let n = rest@.len() as int;
            assert(rest@ =~= all.take(n));
            assert(x == all[n]);
            assert(all.skip(n) =~= seq![x] + all.skip(n + 1));
            assert forall|k: Seq<char>| #[trigger] with_id(o1, k) == with_id(all.skip(n), k) by {
                lemma_with_id_insert(o0, j as int, x, k);
                all.skip(n + 1).lemma_filter_prepend(x, id_is(k));
                assert(with_id(o0, k) == with_id(all.skip(n + 1), k));
            }
            vstd::seq_lib::to_multiset_insert(o0, j as int, x);
            vstd::seq_lib::to_multiset_build(rest@, x);
            assert(o1.to_multiset() == o0.to_multiset().insert(x));
            assert(r0.to_multiset() == rest@.to_multiset().insert(x));
            assert(o1.to_multiset().add(rest@.to_multiset()) =~= o0.to_multiset().add(
                r0.to_multiset(),
            ));
        }
    }
    proof {
        assert(rest@.to_multiset() =~= vstd::multiset::Multiset::<InstalledEntry>::empty());
        assert(out@.to_multiset().add(rest@.to_multiset()) =~= out@.to_multiset());
        assert(all.skip(0) =~= all);
    }
    out
}

} // verus!
