//! The freedesktop `.desktop` entry format as a pure parser.
//!
//! Grammar honoured (`[Desktop Entry]` group only):
//!   * `Key=value` lines inside the first `[Desktop Entry]` group; the group
//!     ends at the next line that starts with `[`.
//!   * `#` comments and blank lines are ignored; every line is trimmed.
//!   * `Name` / `Exec` are required: an entry without them is not launchable.
//!   * Localized keys (`Name[zh_CN]`) are ignored.
use vstd::prelude::*;

use crate::text::{
    chars_eq, chars_eq_ignore_case, chars_of, contains_char, eq_ignore_case, is_whitespace, lower_seq,
    string_of, trim, trim_bounds,
};

verus! {

/// Largest `.desktop` file this host will parse (bytes).
pub const MAX_ENTRY_BYTES: u64 = 65536;

/// Most `.desktop` files one directory walk will collect.
pub const MAX_SCAN_FILES: usize = 512;

/// Deepest directory level a walk descends.
pub const MAX_SCAN_DEPTH: usize = 4;

/// The fields this host consumes out of the `[Desktop Entry]` group.
#[derive(Debug, Clone, PartialEq, Eq, Default)]
pub struct DesktopEntry {
    /// `Name=` (the plain, non-localized key).
    pub name: String,
    /// Raw `Exec=` value, arguments and `%` field codes included (the
    /// `Exec` key; `exec` is a reserved word of the verifier's syntax).
    pub command: String,
    /// `Icon=`, when present and non-empty.
    pub icon: Option<String>,
    /// First `Categories=` token (`A;B;` gives `A`).
    pub category: Option<String>,
    /// `Type=` as written.
    pub entry_type: Option<String>,
    /// `NoDisplay=true`.
    pub no_display: bool,
    /// `Hidden=true`.
    pub hidden: bool,
}

/// Mathematical model of a [`DesktopEntry`].
pub ghost struct EntryModel {
    pub name: Seq<char>,
    pub command: Seq<char>,
    pub icon: Option<Seq<char>>,
    pub category: Option<Seq<char>>,
    pub entry_type: Option<Seq<char>>,
    pub no_display: bool,
    pub hidden: bool,
}

pub open spec fn opt_view(o: Option<String>) -> Option<Seq<char>> {
    match o {
        Some(s) => Some(s@),
        None => None,
    }
}

impl View for DesktopEntry {
    type V = EntryModel;

    open spec fn view(&self) -> EntryModel {
        EntryModel {
            name: self.name@,
            command: self.command@,
            icon: opt_view(self.icon),
            category: opt_view(self.category),
            entry_type: opt_view(self.entry_type),
            no_display: self.no_display,
            hidden: self.hidden,
        }
    }
}

/// May a launcher offer this entry? `NoDisplay`/`Hidden` entries and types
/// other than `Application` (compared case-insensitively) are refused; an
/// entry without a `Type` defaults to `Application`.
pub open spec fn launchable(e: EntryModel) -> bool {
    !e.no_display && !e.hidden && match e.entry_type {
        None => true,
        Some(t) => eq_ignore_case(t, "application"@),
    }
}

impl DesktopEntry {
    /// Is this entry something a launcher may offer?
    pub fn is_launchable_app(&self) -> (r: bool)
        ensures
            r == launchable(self@),
    {
        if self.no_display || self.hidden {
            return false;
        }
        match &self.entry_type {
            None => true,
            Some(t) => {
                let tv = chars_of(t.as_str());
                let app = chars_of("application");
                assert(tv@.subrange(0, tv.len() as int) =~= tv@);
                chars_eq_ignore_case(&tv, 0, tv.len(), &app)
            },
        }
    }
}

// ---------------------------------------------------------------------------
// Specification of the parser
// ---------------------------------------------------------------------------

/// The first index `>= from` at which `s` holds `c`, or `s.len()`.
pub open spec fn find_from(s: Seq<char>, c: char, from: int) -> int
    decreases s.len() - from,
{
    if from >= s.len() {
        s.len() as int
    } else if s[from] == c {
        from
    } else {
        find_from(s, c, from + 1)
    }
}

/// The search lands inside the text at the first `c` from `from` on, or at
/// its end when there is none.
pub proof fn lemma_find_from_bounds(s: Seq<char>, c: char, from: int)
    requires
        0 <= from,
    ensures
        from <= find_from(s, c, from) <= s.len() || (from > s.len() && find_from(s, c, from)
            == s.len()),
        find_from(s, c, from) < s.len() ==> s[find_from(s, c, from)] == c,
        forall|k: int| from <= k < find_from(s, c, from) ==> s[k] != c,
    decreases s.len() - from,
{
    if from < s.len() && s[from] != c {
        lemma_find_from_bounds(s, c, from + 1);
    }
}

/// Parser state after some lines of the file.
pub ghost struct ParseState {
    pub in_group: bool,
    pub seen_group: bool,
    pub done: bool,
    pub entry: EntryModel,
}

pub open spec fn empty_entry() -> EntryModel {
    EntryModel {
        name: Seq::empty(),
        command: Seq::empty(),
        icon: None,
        category: None,
        entry_type: None,
        no_display: false,
        hidden: false,
    }
}

pub open spec fn initial_state() -> ParseState {
    ParseState { in_group: false, seen_group: false, done: false, entry: empty_entry() }
}

/// `Some(v)` unless `v` is empty.
pub open spec fn non_empty(v: Seq<char>) -> Option<Seq<char>> {
    if v.len() > 0 {
        Some(v)
    } else {
        None
    }
}

/// The first `;`-separated token of a `Categories=` value, trimmed.
pub open spec fn first_category(v: Seq<char>) -> Option<Seq<char>> {
    non_empty(trim(v.subrange(0, find_from(v, ';', 0))))
}

/// Apply one `key=value` pair of the group to the entry.
pub open spec fn apply_pair(e: EntryModel, key: Seq<char>, value: Seq<char>) -> EntryModel {
    if key == "Name"@ && e.name.len() == 0 {
        EntryModel { name: value, ..e }
    } else if key == "Exec"@ && e.command.len() == 0 {
        EntryModel { command: value, ..e }
    } else if key == "Icon"@ && e.icon is None {
        EntryModel { icon: non_empty(value), ..e }
    } else if key == "Categories"@ && e.category is None {
        EntryModel { category: first_category(value), ..e }
    } else if key == "Type"@ && e.entry_type is None {
        EntryModel { entry_type: non_empty(value), ..e }
    } else if key == "NoDisplay"@ {
        EntryModel { no_display: eq_ignore_case(value, "true"@), ..e }
    } else if key == "Hidden"@ {
        EntryModel { hidden: eq_ignore_case(value, "true"@), ..e }
    } else {
        e
    }
}

/// The effect of one trimmed line on the parser state.
pub open spec fn step(st: ParseState, line: Seq<char>) -> ParseState {
    if line.len() == 0 || line[0] == '#' {
        st
    } else if line[0] == '[' {
        if st.in_group {
            ParseState { done: true, ..st }
        } else if line == "[Desktop Entry]"@ {
            ParseState { in_group: true, seen_group: true, ..st }
        } else {
            st
        }
    } else if !st.in_group {
        st
    } else {
        let eq = find_from(line, '=', 0);
        if eq >= line.len() {
            st
        } else {
            let key = trim(line.subrange(0, eq));
            let value = trim(line.subrange(eq + 1, line.len() as int));
            if key.contains('[') {
                st
            } else {
                ParseState { entry: apply_pair(st.entry, key, value), ..st }
            }
        }
    }
}

/// Feed the lines of `t` that start at `from` (lines end at `'\n'`) to the
/// parser, stopping once the group has ended.
pub open spec fn scan(t: Seq<char>, from: int, st: ParseState) -> ParseState
    decreases t.len() + 1 - from,
{
    if from > t.len() || from < 0 || st.done {
        st
    } else {
        let e = find_from(t, '\n', from);
        proof {
            lemma_find_from_bounds(t, '\n', from);
        }
        scan(t, e + 1, step(st, trim(t.subrange(from, e))))
    }
}

/// What [`parse`] returns for a file whose characters are `t`.
pub open spec fn parse_spec(t: Seq<char>) -> Option<EntryModel> {
    let st = scan(t, 0, initial_state());
    if !st.seen_group || st.entry.name.len() == 0 || st.entry.command.len() == 0 {
        None
    } else {
        Some(st.entry)
    }
}

// ---------------------------------------------------------------------------
// Implementation of the parser
// ---------------------------------------------------------------------------

/// The first index `>= from` at which `v` holds `c`, or `v.len()`.
pub fn find_char(v: &Vec<char>, c: char, from: usize) -> (r: usize)
    requires
        from <= v.len(),
    ensures
        r == find_from(v@, c, from as int),
        from <= r <= v.len(),
{
    let mut i = from;
    while i < v.len() && v[i] != c
        invariant
            from <= i <= v.len(),
            find_from(v@, c, from as int) == find_from(v@, c, i as int),
        decreases v.len() - i,
    {
        i = i + 1;
    }
    i
}

/// `v[lo..hi]` as a fresh vector.
pub fn sub_vec(v: &Vec<char>, lo: usize, hi: usize) -> (r: Vec<char>)
    requires
        lo <= hi <= v.len(),
    ensures
        r@ == v@.subrange(lo as int, hi as int),
{
    let mut r: Vec<char> = Vec::new();
    let mut i = lo;
    while i < hi
        invariant
            lo <= i <= hi <= v.len(),
            r@ == v@.subrange(lo as int, i as int),
        decreases hi - i,
    {
        r.push(v[i]);
        proof {
            assert(v@.subrange(lo as int, i + 1) =~= v@.subrange(lo as int, i as int).push(
                v@[i as int],
            ));
        }
        i = i + 1;
    }
    r
}

/// The trimmed copy of `v[lo..hi]`.
pub fn trimmed(v: &Vec<char>, lo: usize, hi: usize) -> (r: Vec<char>)
    requires
        lo <= hi <= v.len(),
    ensures
        r@ == trim(v@.subrange(lo as int, hi as int)),
{
    let (a, b) = trim_bounds(v, lo, hi);
    sub_vec(v, a, b)
}

fn is_key(key: &Vec<char>, lit: &str) -> (r: bool)
    ensures
        r == (key@ == lit@),
{
    let l = chars_of(lit);
    assert(key@.subrange(0, key.len() as int) =~= key@);
    chars_eq(key, 0, key.len(), &l)
}

fn owned(v: &Vec<char>) -> (s: String)
    ensures
        s@ == v@,
{
    let s = string_of(v, 0, v.len());
    assert(v@.subrange(0, v.len() as int) =~= v@);
    s
}

fn owned_non_empty(v: &Vec<char>) -> (r: Option<String>)
    ensures
        opt_view(r) == non_empty(v@),
{
    if v.len() > 0 {
        Some(owned(v))
    } else {
        None
    }
}

fn is_true_word(v: &Vec<char>) -> (r: bool)
    ensures
        r == eq_ignore_case(v@, "true"@),
{
    let t = chars_of("true");
    assert(v@.subrange(0, v.len() as int) =~= v@);
    chars_eq_ignore_case(v, 0, v.len(), &t)
}

/// Apply one `key=value` pair (see [`apply_pair`]).
fn apply_pair_exec(entry: &mut DesktopEntry, key: &Vec<char>, value: &Vec<char>)
    ensures
        final(entry)@ == apply_pair(old(entry)@, key@, value@),
{
    if is_key(key, "Name") && entry.name.as_str().is_empty() {
        entry.name = owned(value);
    } else if is_key(key, "Exec") && entry.command.as_str().is_empty() {
        entry.command = owned(value);
    } else if is_key(key, "Icon") && entry.icon.is_none() {
        entry.icon = owned_non_empty(value);
    } else if is_key(key, "Categories") && entry.category.is_none() {
        let semi = find_char(value, ';', 0);
        let first = trimmed(value, 0, semi);
        entry.category = owned_non_empty(&first);
    } else if is_key(key, "Type") && entry.entry_type.is_none() {
        entry.entry_type = owned_non_empty(value);
    } else if is_key(key, "NoDisplay") {
        entry.no_display = is_true_word(value);
    } else if is_key(key, "Hidden") {
        entry.hidden = is_true_word(value);
    }
}

/// Parse the `[Desktop Entry]` group of a `.desktop` file.
///
/// `None` when there is no such group, or when it carries no usable
/// `Name`/`Exec`.
pub fn parse(text: &str) -> (r: Option<DesktopEntry>)
    ensures
        match r {
            Some(e) => parse_spec(text@) == Some(e@),
            None => parse_spec(text@) is None,
        },
        r matches Some(e) ==> e.name@.len() > 0 && e.command@.len() > 0,
{
    let t = chars_of(text);
    let header = chars_of("[Desktop Entry]");
    let mut in_group = false;
    let mut seen_group = false;
    let mut entry = DesktopEntry {
        name: String::new(),
        command: String::new(),
        icon: None,
        category: None,
        entry_type: None,
        no_display: false,
        hidden: false,
    };
    let mut pos: usize = 0;
    let ghost final_state = scan(t@, 0, initial_state());
    loop
        invariant_except_break
            final_state == scan(
                t@,
                pos as int,
                ParseState { in_group, seen_group, done: false, entry: entry@ },
            ),
        invariant
            pos <= t.len(),
            t@ == text@,
            header@ == "[Desktop Entry]"@,
            final_state == scan(t@, 0, initial_state()),
        ensures
            final_state.seen_group == seen_group,
            final_state.entry == entry@,
        decreases t.len() - pos,
    {
        let ghost st = ParseState { in_group, seen_group, done: false, entry: entry@ };
        let e = find_char(&t, '\n', pos);
        let line = trimmed(&t, pos, e);
        let ghost next = step(st, line@);
        proof {
            assert(scan(t@, pos as int, st) == scan(t@, e + 1, next));
        }
        if line.len() == 0 || line[0] == '#' {
        } else if line[0] == '[' {
            if in_group {
                proof {
                    assert(next.done);
                    assert(scan(t@, e + 1, next) == next);
                }
                break ;
            }
            proof {
                assert(line@.subrange(0, line.len() as int) =~= line@);
            }
            if chars_eq(&line, 0, line.len(), &header) {
                in_group = true;
                seen_group = true;
            }
        } else if in_group {
            let eq = find_char(&line, '=', 0);
            if eq < line.len() {
                let key = trimmed(&line, 0, eq);
                let value = trimmed(&line, eq + 1, line.len());
                if !contains_char(&key, 0, key.len(), '[') {
                    proof {
                        assert(key@.subrange(0, key.len() as int) =~= key@);
                    }
                    apply_pair_exec(&mut entry, &key, &value);
                } else {
                    proof {
                        assert(key@.subrange(0, key.len() as int) =~= key@);
                    }
                }
            }
        }
        proof {
            assert(next == ParseState { in_group, seen_group, done: false, entry: entry@ });
        }
        if e >= t.len() {
            proof {
                let st2 = ParseState { in_group, seen_group, done: false, entry: entry@ };
                assert(scan(t@, e + 1, st2) == st2);
            }
            break ;
        }
        pos = e + 1;
    }
    if !seen_group || entry.name.as_str().is_empty() || entry.command.as_str().is_empty() {
        return None;
    }
    Some(entry)
}

} // verus!

verus! {

// ---------------------------------------------------------------------------
// `Exec=` values
// ---------------------------------------------------------------------------

/// One launchable program + its arguments, derived from an `Exec=` value.
#[derive(Debug, Clone, PartialEq, Eq)]
pub struct Argv {
    /// The program to run (a bare name or an absolute path).
    pub program: String,
    /// Arguments, with `%` field codes removed.
    pub args: Vec<String>,
}

/// Mathematical model of an [`Argv`].
pub ghost struct ArgvModel {
    pub program: Seq<char>,
    pub args: Seq<Seq<char>>,
}

pub open spec fn strings_view(v: Seq<String>) -> Seq<Seq<char>> {
    v.map_values(|s: String| s@)
}

impl View for Argv {
    type V = ArgvModel;

    open spec fn view(&self) -> ArgvModel {
        ArgvModel { program: self.program@, args: strings_view(self.args@) }
    }
}

/// Where the `Exec=` tokenizer stands between two characters.
pub enum Mode {
    /// Outside quotes.
    Normal,
    /// Just after a `\` outside quotes (a second `\` is swallowed).
    AfterBackslash,
    /// Just after a `%` (the next character is the field code).
    AfterPercent,
    /// Inside a quote opened by the given character.
    Quoted(char),
    /// Just after a `\` inside a quote (a second `\` is swallowed).
    QuotedAfterBackslash(char),
}

/// Tokenizer state: finished tokens, the pending token, whether a token has
/// started, and the mode.
pub ghost struct TokState {
    pub tokens: Seq<Seq<char>>,
    pub current: Seq<char>,
    pub started: bool,
    pub mode: Mode,
}

pub open spec fn tok_init() -> TokState {
    TokState { tokens: Seq::empty(), current: Seq::empty(), started: false, mode: Mode::Normal }
}

/// One character outside quotes.
pub open spec fn feed_normal(st: TokState, c: char) -> TokState {
    if c == '"' || c == '\'' {
        TokState { started: true, mode: Mode::Quoted(c), ..st }
    } else if c == '\\' {
        TokState { started: true, current: st.current.push('\\'), mode: Mode::AfterBackslash, ..st }
    } else if c == '%' {
        TokState { started: true, mode: Mode::AfterPercent, ..st }
    } else if crate::text::is_ws(c) {
        if st.started {
            TokState {
                tokens: st.tokens.push(st.current),
                current: Seq::empty(),
                started: false,
                mode: Mode::Normal,
            }
        } else {
            TokState { mode: Mode::Normal, ..st }
        }
    } else {
        TokState { started: true, current: st.current.push(c), mode: Mode::Normal, ..st }
    }
}

/// One character inside a quote opened by `q`.
pub open spec fn feed_quoted(st: TokState, q: char, c: char) -> TokState {
    if c == q {
        TokState { mode: Mode::Normal, ..st }
    } else if c == '\\' {
        TokState { current: st.current.push('\\'), mode: Mode::QuotedAfterBackslash(q), ..st }
    } else {
        TokState { current: st.current.push(c), mode: Mode::Quoted(q), ..st }
    }
}

/// The effect of one character of an `Exec=` value.
pub open spec fn feed(st: TokState, c: char) -> TokState {
    match st.mode {
        Mode::Normal => feed_normal(st, c),
        Mode::AfterBackslash => if c == '\\' {
            TokState { mode: Mode::Normal, ..st }
        } else {
            feed_normal(st, c)
        },
        Mode::AfterPercent => if c == '%' {
            TokState { current: st.current.push('%'), mode: Mode::Normal, ..st }
        } else {
            TokState { mode: Mode::Normal, ..st }
        },
        Mode::Quoted(q) => feed_quoted(st, q, c),
        Mode::QuotedAfterBackslash(q) => if c == '\\' {
            TokState { mode: Mode::Quoted(q), ..st }
        } else {
            feed_quoted(st, q, c)
        },
    }
}

/// The tokenizer state after all of `s`.
pub open spec fn run(s: Seq<char>) -> TokState
    decreases s.len(),
{
    if s.len() == 0 {
        tok_init()
    } else {
        feed(run(s.drop_last()), s.last())
    }
}

/// All tokens of `s`, the pending one included.
pub open spec fn all_tokens(s: Seq<char>) -> Seq<Seq<char>> {
    let st = run(s);
    if st.started {
        st.tokens.push(st.current)
    } else {
        st.tokens
    }
}

/// The non-empty tokens of `s`.
pub open spec fn words(s: Seq<char>) -> Seq<Seq<char>> {
    all_tokens(s).filter(|t: Seq<char>| t.len() > 0)
}

/// What [`argv`] returns for an `Exec=` value `s`.
pub open spec fn argv_spec(s: Seq<char>) -> Option<ArgvModel> {
    let w = words(s);
    if w.len() == 0 {
        None
    } else {
        Some(ArgvModel { program: w[0], args: w.drop_first() })
    }
}

pub open spec fn vecs_view(v: Seq<Vec<char>>) -> Seq<Seq<char>> {
    v.map_values(|t: Vec<char>| t@)
}

/// Split an `Exec=` value into a program and arguments.
///
/// Quotes group tokens (`"…"` / `'…'`), `\\` is one backslash (a lone `\` is
/// kept), `%x` field codes are dropped and `%%` is a literal `%`. `None` when
/// nothing usable is left.
pub fn argv(exec_value: &str) -> (r: Option<Argv>)
    ensures
        match r {
            Some(a) => argv_spec(exec_value@) == Some(a@),
            None => argv_spec(exec_value@) is None,
        },
{
    let s = chars_of(exec_value);
    let mut tokens: Vec<Vec<char>> = Vec::new();
    let mut current: Vec<char> = Vec::new();
    let mut started = false;
    let mut mode = Mode::Normal;
    let mut i: usize = 0;
    proof {
        assert(s@.take(0) =~= Seq::<char>::empty());
        assert(vecs_view(tokens@) =~= Seq::<Seq<char>>::empty());
    }
    while i < s.len()
        invariant
            i <= s.len(),
            s@ == exec_value@,
            run(s@.take(i as int)) == (TokState {
                tokens: vecs_view(tokens@),
                current: current@,
                started,
                mode,
            }),
        decreases s.len() - i,
    {
        let c = s[i];
        let ghost before = TokState { tokens: vecs_view(tokens@), current: current@, started, mode };
        proof {
            assert(s@.take(i + 1).drop_last() =~= s@.take(i as int));
            assert(s@.take(i + 1).last() == c);
        }
        // Resolve the one-character lookahead states first.
        let mut normal = false;
        let mut quoted: Option<char> = None;
        match mode {
            Mode::Normal => {
                normal = true;
            },
            Mode::AfterBackslash => {
                mode = Mode::Normal;
                if c != '\\' {
                    normal = true;
                }
            },
            Mode::AfterPercent => {
                mode = Mode::Normal;
                if c == '%' {
                    current.push('%');
                }
            },
            Mode::Quoted(q) => {
                quoted = Some(q);
            },
            Mode::QuotedAfterBackslash(q) => {
                mode = Mode::Quoted(q);
                if c != '\\' {
                    quoted = Some(q);
                }
            },
        }
        if normal {
            if c == '"' || c == '\'' {
                started = true;
                mode = Mode::Quoted(c);
            } else if c == '\\' {
                started = true;
                current.push('\\');
                mode = Mode::AfterBackslash;
            } else if c == '%' {
                started = true;
                mode = Mode::AfterPercent;
            } else if is_whitespace(c) {
                if started {
                    let tok = current;
                    current = Vec::new();
                    proof {
                        assert(vecs_view(tokens@.push(tok)) =~= vecs_view(tokens@).push(tok@));
                    }
                    tokens.push(tok);
                    started = false;
                }
            } else {
                started = true;
                current.push(c);
            }
        } else if let Some(q) = quoted {
            if c == q {
                mode = Mode::Normal;
            } else if c == '\\' {
                current.push('\\');
                mode = Mode::QuotedAfterBackslash(q);
            } else {
                current.push(c);
                mode = Mode::Quoted(q);
            }
        }
        proof {
            assert(run(s@.take(i + 1)) == feed(before, c));
        }
        i = i + 1;
    }
    proof {
        assert(s@.take(s.len() as int) =~= s@);
    }
    if started {
        let tok = current;
        proof {
            assert(vecs_view(tokens@.push(tok)) =~= vecs_view(tokens@).push(tok@));
        }
        tokens.push(tok);
    }
    let ghost all = all_tokens(s@);
    assert(vecs_view(tokens@) == all);
    // Keep the non-empty tokens.
    let mut kept: Vec<String> = Vec::new();
    let mut j: usize = 0;
    while j < tokens.len()
        invariant
            j <= tokens.len(),
            vecs_view(tokens@) == all,
            strings_view(kept@) == all.take(j as int).filter(|t: Seq<char>| t.len() > 0),
        decreases tokens.len() - j,
    {
        proof {
            reveal(Seq::filter);
            assert(all.take(j + 1).drop_last() =~= all.take(j as int));
            assert(all.take(j + 1).last() == tokens@[j as int]@);
        }
        if tokens[j].len() > 0 {
            let w = owned(&tokens[j]);
            kept.push(w);
            proof {
                assert(strings_view(kept@) =~= strings_view(kept@.drop_last()).push(w@));
            }
        }
        j = j + 1;
    }
    proof {
        assert(all.take(tokens.len() as int) =~= all);
    }
    if kept.len() == 0 {
        return None;
    }
    let program = kept.remove(0);
    proof {
        assert(strings_view(kept@) =~= words(exec_value@).drop_first());
    }
    Some(Argv { program, args: kept })
}

// ---------------------------------------------------------------------------
// `env VAR=value … program args…`
// ---------------------------------------------------------------------------

/// Is `t` a `VAR=value` token (a non-empty name before the first `=` that
/// does not start with `-`)?
pub open spec fn is_assignment(t: Seq<char>) -> bool {
    let i = find_from(t, '=', 0);
    i < t.len() && i > 0 && t[0] != '-'
}

/// The `(name, value)` pair of an assignment token.
pub open spec fn assignment_pair(t: Seq<char>) -> (Seq<char>, Seq<char>) {
    let i = find_from(t, '=', 0);
    (t.subrange(0, i), t.subrange(i + 1, t.len() as int))
}

/// The index of the first token at or after `k` that is not an assignment.
pub open spec fn lead_assignments(args: Seq<Seq<char>>, k: int) -> int
    decreases args.len() - k,
{
    if k >= args.len() {
        args.len() as int
    } else if is_assignment(args[k]) {
        lead_assignments(args, k + 1)
    } else {
        k
    }
}

/// What [`env_prefix`] returns for `a`.
pub open spec fn env_prefix_spec(a: ArgvModel) -> (Seq<(Seq<char>, Seq<char>)>, ArgvModel) {
    if a.program != "env"@ {
        (Seq::empty(), a)
    } else {
        let n = lead_assignments(a.args, 0);
        let vars = a.args.take(n).map_values(|t: Seq<char>| assignment_pair(t));
        if n >= a.args.len() {
            (vars, a)
        } else {
            (vars, ArgvModel { program: a.args[n], args: a.args.skip(n + 1) })
        }
    }
}

pub open spec fn pairs_view(v: Seq<(String, String)>) -> Seq<(Seq<char>, Seq<char>)> {
    v.map_values(|p: (String, String)| (p.0@, p.1@))
}

fn clone_string(s: &String) -> (r: String)
    ensures
        r@ == s@,
{
    s.clone()
}

fn clone_argv(a: &Argv) -> (r: Argv)
    ensures
        r@ == a@,
{
    let mut args: Vec<String> = Vec::new();
    let mut i: usize = 0;
    while i < a.args.len()
        invariant
            i <= a.args.len(),
            strings_view(args@) == strings_view(a.args@).take(i as int),
            args.len() == i,
        decreases a.args.len() - i,
    {
        let c = clone_string(&a.args[i]);
        let ghost old_args = args@;
        args.push(c);
        proof {
            assert forall|k: int| 0 <= k < i + 1 implies #[trigger] strings_view(args@)[k]
                == strings_view(a.args@).take(i + 1)[k] by {
                if k < i {
                    assert(args@[k] == old_args[k]);
                    assert(strings_view(old_args)[k] == strings_view(a.args@).take(i as int)[k]);
                }
            }
            assert(strings_view(args@) =~= strings_view(a.args@).take(i + 1));
        }
        i = i + 1;
    }
    assert(strings_view(a.args@).take(a.args.len() as int) =~= strings_view(a.args@));
    Argv { program: clone_string(&a.program), args }
}

/// `env VAR=value … program args…`: the program and the `VAR=value` pairs.
///
/// Not `env`, or only assignments: the input comes back unchanged (no
/// program is invented out of a `VAR=value` token).
pub fn env_prefix(argv: &Argv) -> (r: (Vec<(String, String)>, Argv))
    ensures
        (pairs_view(r.0@), r.1@) == env_prefix_spec(argv@),
{
    let prog = chars_of(argv.program.as_str());
    let env_word = chars_of("env");
    assert(prog@.subrange(0, prog.len() as int) =~= prog@);
    if !chars_eq(&prog, 0, prog.len(), &env_word) {
        let v: Vec<(String, String)> = Vec::new();
        assert(pairs_view(v@) =~= Seq::empty());
        return (v, clone_argv(argv));
    }
    let ghost args = strings_view(argv.args@);
    let mut vars: Vec<(String, String)> = Vec::new();
    let mut i: usize = 0;
    while i < argv.args.len()
        invariant
            i <= argv.args.len(),
            args == strings_view(argv.args@),
            lead_assignments(args, 0) == lead_assignments(args, i as int),
            pairs_view(vars@) == args.take(i as int).map_values(
                |t: Seq<char>| assignment_pair(t),
            ),
            vars.len() == i,
        ensures
            i <= argv.args.len(),
            lead_assignments(args, 0) == i,
            pairs_view(vars@) == args.take(i as int).map_values(
                |t: Seq<char>| assignment_pair(t),
            ),
        decreases argv.args.len() - i,
    {
        let t = chars_of(argv.args[i].as_str());
        let eq = find_char(&t, '=', 0);
        proof {
            assert(args[i as int] == t@);
        }
        if !(eq < t.len() && eq > 0 && t[0] != '-') {
            proof {
                assert(!is_assignment(args[i as int]));
                assert(lead_assignments(args, i as int) == i);
            }
            break ;
        }
        let k = string_of(&t, 0, eq);
        let v = string_of(&t, eq + 1, t.len());
        let ghost old_vars = vars@;
        vars.push((k, v));
        proof {
            assert(is_assignment(args[i as int]));
            let f = |t: Seq<char>| assignment_pair(t);
            assert forall|m: int| 0 <= m < i + 1 implies #[trigger] pairs_view(vars@)[m]
                == args.take(i + 1).map_values(f)[m] by {
                if m < i {
                    assert(vars@[m] == old_vars[m]);
                    assert(pairs_view(old_vars)[m] == args.take(i as int).map_values(f)[m]);
                }
            }
            assert(pairs_view(vars@) =~= args.take(i + 1).map_values(f));
        }
        i = i + 1;
    }
    if i >= argv.args.len() {
        return (vars, clone_argv(argv));
    }
    let program = clone_string(&argv.args[i]);
    let mut rest: Vec<String> = Vec::new();
    let mut j = i + 1;
    while j < argv.args.len()
        invariant
            i < j <= argv.args.len(),
            args == strings_view(argv.args@),
            strings_view(rest@) == args.subrange(i + 1, j as int),
            rest.len() == j - (i + 1),
        decreases argv.args.len() - j,
    {
        let c = clone_string(&argv.args[j]);
        let ghost old_rest = rest@;
        rest.push(c);
        proof {
            assert forall|k: int| 0 <= k < j + 1 - (i + 1) implies #[trigger] strings_view(
                rest@,
            )[k] == args.subrange(i + 1, j + 1)[k] by {
                if k < j - (i + 1) {
                    assert(rest@[k] == old_rest[k]);
                    assert(strings_view(old_rest)[k] == args.subrange(i + 1, j as int)[k]);
                }
            }
            assert(strings_view(rest@) =~= args.subrange(i + 1, j + 1));
        }
        j = j + 1;
    }
    proof {
        assert(args.subrange(i + 1, argv.args.len() as int) =~= args.skip(i + 1));
    }
    (vars, Argv { program, args: rest })
}


// ---------------------------------------------------------------------------
// The bounded walk for entry files
// ---------------------------------------------------------------------------

/// The extension of a file name, as a path sees it: the text after its last
/// `.`, when that dot is not the name's first character.
pub open spec fn extension_of(name: Seq<char>) -> Option<Seq<char>> {
    if exists|k: int| 0 < k < name.len() && name[k] == '.' {
        let k = choose|k: int|
            0 < k < name.len() && name[k] == '.' && forall|j: int| k < j < name.len() ==> name[j] != '.';
        Some(name.subrange(k + 1, name.len() as int))
    } else {
        None
    }
}

/// Is this file name an entry file (extension `desktop`, ASCII case aside)?
pub open spec fn is_entry_name(name: Seq<char>) -> bool {
    extension_of(name) matches Some(e) && crate::text::eq_ignore_case(e, "desktop"@)
}

/// Is `name` an entry file's name (see [`is_entry_name`])?
pub fn is_entry_file_name(name: &str) -> (r: bool)
    ensures
        r == is_entry_name(name@),
{
    let v = chars_of(name);
    let n = v.len();
    // Just past the last dot, if any.
    let mut k = n;
    while k > 0 && v[k - 1] != '.'
        invariant
            k <= n == v.len(),
            forall|j: int| k <= j < n ==> v@[j] != '.',
        decreases k,
    {
        k = k - 1;
    }
    if k <= 1 {
        proof {
            if exists|x: int| 0 < x < name@.len() && name@[x] == '.' {
                let x = choose|x: int| 0 < x < name@.len() && name@[x] == '.';
                assert(x < k);
            }
        }
        return false;
    }
    let d = k - 1;
    proof {
        let c = choose|c: int|
            0 < c < name@.len() && name@[c] == '.' && forall|j: int| c < j < name@.len() ==> name@[j] != '.';
        assert(0 < d as int && name@[d as int] == '.');
        assert(forall|j: int| d < j < name@.len() ==> name@[j] != '.');
        if c < d {
            assert(name@[d as int] != '.');
        } else if c > d {
            assert(name@[c] != '.');
        }
        assert(v@.subrange(d + 1, n as int) == name@.subrange(d + 1, name@.len() as int));
    }
    let w = chars_of("desktop");
    crate::text::chars_eq_ignore_case(&v, d + 1, n, &w)
}

/// The outcome of walking directories for entry files: the files found, and
/// what was left out (a truncated list must not look complete).
#[derive(Debug, Clone, PartialEq, Eq)]
pub struct DesktopFileScan {
    pub files: Vec<String>,
    /// Directories not descended into because the depth bound was reached.
    pub skipped_depth: usize,
    /// Entry files not collected because the file bound was reached.
    pub skipped_cap: usize,
    /// Directories whose listing failed.
    pub unreadable_dirs: usize,
}

impl DesktopFileScan {
    /// Nothing found, nothing left out.
    pub fn new() -> (s: DesktopFileScan)
        ensures
            s.files@.len() == 0,
            s.skipped_depth == 0 && s.skipped_cap == 0 && s.unreadable_dirs == 0,
    {
        DesktopFileScan { files: Vec::new(), skipped_depth: 0, skipped_cap: 0, unreadable_dirs: 0 }
    }

    /// A subdirectory found at `depth`: descend (at `depth + 1`) within the
    /// depth bound; beyond it, count it as skipped.
    pub fn visit_dir(&mut self, depth: usize) -> (descend: bool)
        requires
            old(self).skipped_depth < usize::MAX,
            depth < usize::MAX,
        ensures
            descend == (depth + 1 <= MAX_SCAN_DEPTH),
            final(self).skipped_depth == old(self).skipped_depth + if descend {
                0int
            } else {
                1int
            },
            final(self).files == old(self).files,
            final(self).skipped_cap == old(self).skipped_cap,
            final(self).unreadable_dirs == old(self).unreadable_dirs,
    {
        if depth + 1 > MAX_SCAN_DEPTH {
            self.skipped_depth = self.skipped_depth + 1;
            false
        } else {
            true
        }
    }

    /// A file found at `path` with file name `name`: an entry file is
    /// collected while the file bound allows, else counted as skipped; any
    /// other file is ignored.
    pub fn visit_file(&mut self, path: String, name: &str)
        requires
            old(self).skipped_cap < usize::MAX,
        ensures
            final(self).skipped_depth == old(self).skipped_depth,
            final(self).unreadable_dirs == old(self).unreadable_dirs,
            !is_entry_name(name@) ==> *final(self) == *old(self),
            is_entry_name(name@) && old(self).files@.len() < MAX_SCAN_FILES ==> final(self).files@
                == old(self).files@.push(path) && final(self).skipped_cap == old(self).skipped_cap,
            is_entry_name(name@) && old(self).files@.len() >= MAX_SCAN_FILES ==> final(self).files
                == old(self).files && final(self).skipped_cap == old(self).skipped_cap + 1,
    {
        if !is_entry_file_name(name) {
            return;
        }
        if self.files.len() >= MAX_SCAN_FILES {
            self.skipped_cap = self.skipped_cap + 1;
            return;
        }
        self.files.push(path);
    }

    /// A directory whose listing failed: counted, not hidden.
    pub fn unreadable(&mut self)
        requires
            old(self).unreadable_dirs < usize::MAX,
        ensures
            final(self).unreadable_dirs == old(self).unreadable_dirs + 1,
            final(self).files == old(self).files,
            final(self).skipped_depth == old(self).skipped_depth,
            final(self).skipped_cap == old(self).skipped_cap,
    {
        self.unreadable_dirs = self.unreadable_dirs + 1;
    }
}

/// Inside the `[Desktop Entry]` group, a `Hidden=` line hides the entry
/// exactly when its value, trimmed, is `true` in any ASCII case: `Hidden=false`
/// (or any other value) leaves the entry visible. Nothing else of the entry
/// changes.
pub proof fn lemma_hidden_line_decides(st: ParseState, v: Seq<char>)
    requires
        st.in_group,
    ensures
        step(st, "Hidden="@ + v).entry.hidden == (lower_seq(trim(v)) == "true"@),
        step(st, "Hidden="@ + v).entry == (EntryModel {
            hidden: step(st, "Hidden="@ + v).entry.hidden,
            ..st.entry
        }),
        step(st, "Hidden="@ + v).done == st.done,
        step(st, "Hidden="@ + v).in_group,
{
    reveal_strlit("Hidden=");
    reveal_strlit("Hidden");
    reveal_strlit("true");
    reveal_strlit("Name");
    reveal_strlit("Exec");
    reveal_strlit("Icon");
    reveal_strlit("Categories");
    reveal_strlit("Type");
    reveal_strlit("NoDisplay");
    let line = "Hidden="@ + v;
    assert(line[0] == 'H');
    assert(line[6] == '=');
    lemma_find_from_bounds(line, '=', 0);
    let eq = find_from(line, '=', 0);
    assert(eq == 6) by {
        if eq > 6 {
            assert(line[6] != '=');
        } else if eq < 6 {
            assert(line[eq] == "Hidden="@[eq]);
        }
    }
    let raw_key = line.subrange(0, 6);
    assert(raw_key =~= "Hidden"@);
    crate::text::lemma_trim_start_stop(raw_key);
    crate::text::lemma_trim_end_stop(raw_key);
    assert(trim(raw_key) == "Hidden"@);
    assert(line.subrange(7, line.len() as int) =~= v);
    assert(!"Hidden"@.contains('[')) by {
        if "Hidden"@.contains('[') {
            let i = choose|i: int| 0 <= i < "Hidden"@.len() && "Hidden"@[i] == '[';
        }
    }
    assert(lower_seq("true"@) =~= "true"@);
}

} // verus!
