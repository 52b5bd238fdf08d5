//! A scanner for the wire text of the gateway protocol. Frames are JSON
//! objects; the connection logic only ever needs the top-level fields of an
//! object (the envelope's `op`, `s`, `t`, `d`, and the named fields of a
//! payload), with every nested value carried through as a raw span of the
//! frame's text. The spec functions here define the grammar; the executable
//! functions are proved to follow them exactly.
//!
//! The scanner is deliberately lenient where the protocol does not care:
//! a trailing comma inside an object is accepted, a closing bracket may
//! close either kind of container while a value is skipped, and the
//! characters of a number are not validated while one is skipped. Every
//! field the logic reads is parsed strictly by the interpreters below.

use vstd::prelude::*;

verus! {

/// JSON insignificant whitespace.
pub open spec fn is_ws(c: char) -> bool {
    c == ' ' || c == '\n' || c == '\r' || c == '\t'
}

/// A character that ends an unquoted scalar value.
pub open spec fn is_delim(c: char) -> bool {
    c == ',' || c == '}' || c == ']' || is_ws(c)
}

/// A character that may start a scalar value: a digit, a sign, or the
/// first letter of `true`, `false` or `null`.
pub open spec fn is_scalar_start(c: char) -> bool {
    ('0' <= c && c <= '9') || c == '-' || c == 't' || c == 'f' || c == 'n'
}

/// The first position at or after `i` holding a non-whitespace character,
/// or the end of the text.
pub open spec fn skip_ws(s: Seq<char>, i: int) -> int
    decreases s.len() - i,
{
    if 0 <= i < s.len() && is_ws(s[i]) {
        skip_ws(s, i + 1)
    } else {
        i
    }
}

pub proof fn lemma_skip_ws_bounds(s: Seq<char>, i: int)
    requires
        0 <= i <= s.len(),
    ensures
        i <= skip_ws(s, i) <= s.len(),
        skip_ws(s, i) < s.len() ==> !is_ws(s[skip_ws(s, i)]),
    decreases s.len() - i,
{
    if i < s.len() && is_ws(s[i]) {
        lemma_skip_ws_bounds(s, i + 1);
    }
}

/// The position just after the closing quote of a string whose content
/// starts at `i` (the opening quote stands at `i - 1`). A backslash always
/// escapes the character after it; the scan fails on an unterminated
/// string.
pub open spec fn string_end(s: Seq<char>, i: int) -> Option<int>
    decreases s.len() - i,
{
    if !(0 <= i < s.len()) {
        None
    } else if s[i] == '"' {
        Some(i + 1)
    } else if s[i] == '\\' {
        if i + 1 < s.len() {
            string_end(s, i + 2)
        } else {
            None
        }
    } else {
        string_end(s, i + 1)
    }
}

pub proof fn lemma_string_end_bounds(s: Seq<char>, i: int)
    requires
        0 <= i,
        string_end(s, i) is Some,
    ensures
        i + 1 <= string_end(s, i)->Some_0 <= s.len(),
    decreases s.len() - i,
{
    if i < s.len() && s[i] == '"' {
    } else if i < s.len() && s[i] == '\\' && i + 1 < s.len() {
        lemma_string_end_bounds(s, i + 2);
    } else if i < s.len() && s[i] != '"' && s[i] != '\\' {
        lemma_string_end_bounds(s, i + 1);
    }
}

/// The first position at or after `i` holding a delimiter, or the end of
/// the text: the end of an unquoted scalar that starts at `i`.
pub open spec fn scalar_end(s: Seq<char>, i: int) -> int
    decreases s.len() - i,
{
    if 0 <= i < s.len() && !is_delim(s[i]) {
        scalar_end(s, i + 1)
    } else {
        i
    }
}

pub proof fn lemma_scalar_end_bounds(s: Seq<char>, i: int)
    requires
        0 <= i <= s.len(),
    ensures
        i <= scalar_end(s, i) <= s.len(),
    decreases s.len() - i,
{
    if i < s.len() && !is_delim(s[i]) {
        lemma_scalar_end_bounds(s, i + 1);
    }
}

/// The position just after the bracket that closes the container a scan is
/// inside of. `depth` counts the containers opened so far, `in_str` and
/// `esc` track whether the scan stands inside a string, after a backslash.
/// Entered at an opening bracket with `depth == 0`, it yields the position
/// just after the matching closer.
pub open spec fn container_end(s: Seq<char>, i: int, depth: nat, in_str: bool, esc: bool) -> Option<
    int,
>
    decreases s.len() - i,
{
    if !(0 <= i < s.len()) {
        None
    } else if in_str {
        if esc {
            container_end(s, i + 1, depth, true, false)
        } else if s[i] == '\\' {
            container_end(s, i + 1, depth, true, true)
        } else if s[i] == '"' {
            container_end(s, i + 1, depth, false, false)
        } else {
            container_end(s, i + 1, depth, true, false)
        }
    } else if s[i] == '{' || s[i] == '[' {
        container_end(s, i + 1, depth + 1, false, false)
    } else if s[i] == '}' || s[i] == ']' {
        if depth == 1 {
            Some(i + 1)
        } else if depth == 0 {
            None
        } else {
            container_end(s, i + 1, (depth - 1) as nat, false, false)
        }
    } else if s[i] == '"' {
        container_end(s, i + 1, depth, true, false)
    } else {
        container_end(s, i + 1, depth, false, false)
    }
}

pub proof fn lemma_container_end_bounds(s: Seq<char>, i: int, depth: nat, in_str: bool, esc: bool)
    requires
        0 <= i,
        container_end(s, i, depth, in_str, esc) is Some,
    ensures
        i + 1 <= container_end(s, i, depth, in_str, esc)->Some_0 <= s.len(),
    decreases s.len() - i,
{
    if i < s.len() {
        if in_str {
            if esc {
                lemma_container_end_bounds(s, i + 1, depth, true, false);
            } else if s[i] == '\\' {
                lemma_container_end_bounds(s, i + 1, depth, true, true);
            } else if s[i] == '"' {
                lemma_container_end_bounds(s, i + 1, depth, false, false);
            } else {
                lemma_container_end_bounds(s, i + 1, depth, true, false);
            }
        } else if s[i] == '{' || s[i] == '[' {
            lemma_container_end_bounds(s, i + 1, depth + 1, false, false);
        } else if s[i] == '}' || s[i] == ']' {
            if depth > 1 {
                lemma_container_end_bounds(s, i + 1, (depth - 1) as nat, false, false);
            }
        } else if s[i] == '"' {
            lemma_container_end_bounds(s, i + 1, depth, true, false);
        } else {
            lemma_container_end_bounds(s, i + 1, depth, false, false);
        }
    }
}

/// A run of non-delimiter characters ending at a delimiter or at the end
/// of the text is exactly what the scalar scan consumes.
pub proof fn lemma_scalar_end_run(s: Seq<char>, i: int, e: int)
    requires
        0 <= i <= e <= s.len(),
        forall|j: int| i <= j < e ==> !is_delim(#[trigger] s[j]),
        e == s.len() || is_delim(s[e]),
    ensures
        scalar_end(s, i) == e,
    decreases e - i,
{
    if i < e {
        lemma_scalar_end_run(s, i + 1, e);
    }
}

/// Payload text that the scanner reads as one unquoted scalar.
pub open spec fn plain_scalar(p: Seq<char>) -> bool {
    &&& p.len() > 0
    &&& is_scalar_start(p[0])
    &&& forall|j: int| 0 <= j < p.len() ==> !is_delim(#[trigger] p[j])
}

/// The position just after the whole JSON value that starts at `i`, which
/// must not be whitespace. Strings and containers end after their closing
/// character, scalars end before the delimiter that follows them.
pub open spec fn value_end(s: Seq<char>, i: int) -> Option<int> {
    if !(0 <= i < s.len()) {
        None
    } else if s[i] == '"' {
        string_end(s, i + 1)
    } else if s[i] == '{' || s[i] == '[' {
        container_end(s, i, 0, false, false)
    } else if is_scalar_start(s[i]) {
        Some(scalar_end(s, i))
    } else {
        None
    }
}

pub proof fn lemma_value_end_bounds(s: Seq<char>, i: int)
    requires
        0 <= i,
        value_end(s, i) is Some,
    ensures
        i + 1 <= value_end(s, i)->Some_0 <= s.len(),
{
    if i < s.len() {
        if s[i] == '"' {
            lemma_string_end_bounds(s, i + 1);
        } else if s[i] == '{' || s[i] == '[' {
            lemma_container_end_bounds(s, i, 0, false, false);
        } else if is_scalar_start(s[i]) {
            assert(!is_delim(s[i]));
            lemma_scalar_end_bounds(s, i + 1);
            assert(scalar_end(s, i) == scalar_end(s, i + 1));
        }
    }
}

fn is_ws_exec(c: char) -> (r: bool)
    ensures
        r == is_ws(c),
{
    c == ' ' || c == '\n' || c == '\r' || c == '\t'
}

fn is_delim_exec(c: char) -> (r: bool)
    ensures
        r == is_delim(c),
{
    c == ',' || c == '}' || c == ']' || is_ws_exec(c)
}

fn is_scalar_start_exec(c: char) -> (r: bool)
    ensures
        r == is_scalar_start(c),
{
    ('0' <= c && c <= '9') || c == '-' || c == 't' || c == 'f' || c == 'n'
}

pub fn skip_ws_exec(s: &Vec<char>, i: usize) -> (r: usize)
    requires
        i <= s@.len(),
    ensures
        r as int == skip_ws(s@, i as int),
        i <= r <= s@.len(),
{
    proof {
        lemma_skip_ws_bounds(s@, i as int);
    }
    let mut j = i;
    while j < s.len() && is_ws_exec(s[j])
        invariant
            i <= j <= s@.len(),
            skip_ws(s@, i as int) == skip_ws(s@, j as int),
        decreases s@.len() - j,
    {
        j = j + 1;
    }
    j
}

pub fn string_end_exec(s: &Vec<char>, i: usize) -> (r: Option<usize>)
    requires
        i <= s@.len(),
    ensures
        match r {
            Some(j) => string_end(s@, i as int) == Some(j as int) && i < j <= s@.len(),
            None => string_end(s@, i as int) is None,
        },
{
    let mut j = i;
    loop
        invariant
            i <= j <= s@.len(),
            string_end(s@, i as int) == string_end(s@, j as int),
        decreases s@.len() - j,
    {
        if j >= s.len() {
            return None;
        }
        let c = s[j];
        if c == '"' {
            proof {
                lemma_string_end_bounds(s@, i as int);
            }
            return Some(j + 1);
        } else if c == '\\' {
            if j + 1 < s.len() {
                j = j + 2;
            } else {
                return None;
            }
        } else {
            j = j + 1;
        }
    }
}

pub fn scalar_end_exec(s: &Vec<char>, i: usize) -> (r: usize)
    requires
        i <= s@.len(),
    ensures
        r as int == scalar_end(s@, i as int),
        i <= r <= s@.len(),
{
    proof {
        lemma_scalar_end_bounds(s@, i as int);
    }
    let mut j = i;
    while j < s.len() && !is_delim_exec(s[j])
        invariant
            i <= j <= s@.len(),
            scalar_end(s@, i as int) == scalar_end(s@, j as int),
        decreases s@.len() - j,
    {
        j = j + 1;
    }
    j
}

pub fn container_end_exec(s: &Vec<char>, i: usize) -> (r: Option<usize>)
    requires
        i <= s@.len(),
    ensures
        match r {
            Some(j) => container_end(s@, i as int, 0, false, false) == Some(j as int) && i < j
                <= s@.len(),
            None => container_end(s@, i as int, 0, false, false) is None,
        },
{
    let mut j = i;
    let mut depth: usize = 0;
    let mut in_str = false;
    let mut esc = false;
    loop
        invariant
            i <= j <= s@.len(),
            depth <= j,
            !in_str ==> !esc,
            container_end(s@, i as int, 0, false, false) == container_end(
                s@,
                j as int,
                depth as nat,
                in_str,
                esc,
            ),
        decreases s@.len() - j,
    {
        if j >= s.len() {
            return None;
        }
        let c = s[j];
        let mut ndepth = depth;
        let mut nin = in_str;
        let mut nesc = esc;
        if in_str {
            if esc {
                nesc = false;
            } else if c == '\\' {
                nesc = true;
            } else if c == '"' {
                nin = false;
            }
        } else if c == '{' || c == '[' {
            ndepth = depth + 1;
        } else if c == '}' || c == ']' {
            if depth == 1 {
                proof {
                    lemma_container_end_bounds(s@, i as int, 0, false, false);
                }
                return Some(j + 1);
            } else if depth == 0 {
                return None;
            } else {
                ndepth = depth - 1;
            }
        } else if c == '"' {
            nin = true;
        }
        proof {
            assert(container_end(s@, j as int, depth as nat, in_str, esc) == container_end(
                s@,
                j as int + 1,
                ndepth as nat,
                nin,
                nesc,
            ));
        }
        depth = ndepth;
        in_str = nin;
        esc = nesc;
        j = j + 1;
    }
}

pub fn value_end_exec(s: &Vec<char>, i: usize) -> (r: Option<usize>)
    requires
        i <= s@.len(),
    ensures
        match r {
            Some(j) => value_end(s@, i as int) == Some(j as int) && i < j <= s@.len(),
            None => value_end(s@, i as int) is None,
        },
{
    if i >= s.len() {
        return None;
    }
    let c = s[i];
    if c == '"' {
        string_end_exec(s, i + 1)
    } else if c == '{' || c == '[' {
        container_end_exec(s, i)
    } else if is_scalar_start_exec(c) {
        proof {
            lemma_value_end_bounds(s@, i as int);
        }
        Some(scalar_end_exec(s, i))
    } else {
        None
    }
}

/// The characters of a borrowed string, as a vector the scanner can walk.
pub fn str_chars(s: &str) -> (r: Vec<char>)
    ensures
        r@ == s@,
{
    let n = s.unicode_len();
    let mut r: Vec<char> = Vec::new();
    let mut k: usize = 0;
    while k < n
        invariant
            k <= n == s@.len(),
            r@ == s@.subrange(0, k as int),
        decreases n - k,
    {
        r.push(s.get_char(k));
        proof {
            assert(r@ =~= s@.subrange(0, k + 1 as int));
        }
        k = k + 1;
    }
    proof {
        assert(s@.subrange(0, s@.len() as int) =~= s@);
    }
    r
}

/// A copy of `s[a..b]`.
pub fn copy_range(s: &Vec<char>, a: usize, b: usize) -> (r: Vec<char>)
    requires
        a <= b <= s@.len(),
    ensures
        r@ == s@.subrange(a as int, b as int),
{
    let mut r: Vec<char> = Vec::new();
    let mut k = a;
    while k < b
        invariant
            a <= k <= b <= s@.len(),
            r@ == s@.subrange(a as int, k as int),
        decreases b - k,
    {
        r.push(s[k]);
        proof {
            assert(r@ =~= s@.subrange(a as int, k + 1 as int));
        }
        k = k + 1;
    }
    r
}

/// One top-level field of a scanned object: the key's raw content and the
/// span `[start, end)` of the value in the scanned text.
pub struct RawField {
    pub key: Vec<char>,
    pub start: usize,
    pub end: usize,
}

impl View for RawField {
    type V = (Seq<char>, (int, int));

    open spec fn view(&self) -> (Seq<char>, (int, int)) {
        (self.key@, (self.start as int, self.end as int))
    }
}

pub open spec fn fields_view(v: Seq<RawField>) -> Seq<(Seq<char>, (int, int))> {
    v.map_values(|f: RawField| f@)
}

/// The top-level fields of an object, scanned from `i`, which stands just
/// after the opening brace or just after a separating comma, together with
/// the position after the closing brace. Keys are kept in source form; a
/// duplicate key is kept twice and the readers below take the first.
pub open spec fn obj_fields(s: Seq<char>, i: int) -> Option<(Seq<(Seq<char>, (int, int))>, int)>
    decreases s.len() - i,
{
    if !(0 <= i <= s.len()) {
        None
    } else {
        let j = skip_ws(s, i);
        if !(j < s.len()) {
            None
        } else if s[j] == '}' {
            Some((Seq::empty(), j + 1))
        } else if s[j] == '"' {
            match string_end(s, j + 1) {
                None => None,
                Some(ke) => {
                    let key = s.subrange(j + 1, ke - 1);
                    let c = skip_ws(s, ke);
                    if 0 <= c < s.len() && s[c] == ':' {
                        let v = skip_ws(s, c + 1);
                        match value_end(s, v) {
                            None => None,
                            Some(ve) => {
                                let t = skip_ws(s, ve);
                                if 0 <= t < s.len() && s[t] == ',' {
                                    if t + 1 <= i {
                                        None
                                    } else {
                                        match obj_fields(s, t + 1) {
                                            None => None,
                                            Some((rest, e)) => Some(
                                                (seq![(key, (v, ve))] + rest, e),
                                            ),
                                        }
                                    }
                                } else if 0 <= t < s.len() && s[t] == '}' {
                                    Some((seq![(key, (v, ve))], t + 1))
                                } else {
                                    None
                                }
                            },
                        }
                    } else {
                        None
                    }
                },
            }
        } else {
            None
        }
    }
}

/// Every value span of a scanned object lies inside the text.
pub open spec fn spans_wf(s: Seq<char>, fs: Seq<(Seq<char>, (int, int))>) -> bool {
    forall|k: int| 0 <= k < fs.len() ==> 0 <= #[trigger] fs[k].1.0 < fs[k].1.1 <= s.len()
}

pub fn obj_fields_exec(s: &Vec<char>, i: usize) -> (r: Option<(Vec<RawField>, usize)>)
    requires
        i <= s@.len(),
    ensures
        match r {
            Some((v, e)) => obj_fields(s@, i as int) == Some((fields_view(v@), e as int)) && i < e
                <= s@.len() && spans_wf(s@, fields_view(v@)),
            None => obj_fields(s@, i as int) is None,
        },
{
    let mut acc: Vec<RawField> = Vec::new();
    let mut cur = i;
    loop
        invariant
            i <= cur <= s@.len(),
            spans_wf(s@, fields_view(acc@)),
            match obj_fields(s@, cur as int) {
                Some((fs, e)) => obj_fields(s@, i as int) == Some((fields_view(acc@) + fs, e)),
                None => obj_fields(s@, i as int) is None,
            },
        decreases s@.len() - cur,
    {
        let j = skip_ws_exec(s, cur);
        if j >= s.len() {
            return None;
        }
        if s[j] == '}' {
            proof {
                assert(fields_view(acc@) + Seq::<(Seq<char>, (int, int))>::empty() =~= fields_view(
                    acc@,
                ));
            }
            return Some((acc, j + 1));
        }
        if s[j] != '"' {
            return None;
        }
        let ke = match string_end_exec(s, j + 1) {
            Some(ke) => ke,
            None => {
                return None;
            },
        };
        let key = copy_range(s, j + 1, ke - 1);
        let c = skip_ws_exec(s, ke);
        if c >= s.len() || s[c] != ':' {
            return None;
        }
        let v = skip_ws_exec(s, c + 1);
        let ve = match value_end_exec(s, v) {
            Some(ve) => ve,
            None => {
                return None;
            },
        };
        let t = skip_ws_exec(s, ve);
        let fld = RawField { key, start: v, end: ve };
        proof {
            assert(fld@ == (s@.subrange(j + 1, ke - 1), (v as int, ve as int)));
        }
        if t < s.len() && s[t] == ',' {
            proof {
                assert(fields_view(acc@.push(fld)) =~= fields_view(acc@).push(fld@));
                if let Some((rest, e)) = obj_fields(s@, t + 1 as int) {
                    assert(fields_view(acc@).push(fld@) + rest =~= fields_view(acc@) + (seq![
                        fld@,
                    ] + rest));
                }
            }
            acc.push(fld);
            cur = t + 1;
        } else if t < s.len() && s[t] == '}' {
            proof {
                assert(fields_view(acc@.push(fld)) =~= fields_view(acc@) + seq![fld@]);
            }
            acc.push(fld);
            return Some((acc, t + 1));
        } else {
            return None;
        }
    }
}

/// The top-level fields of a whole frame: optional whitespace, one object,
/// optional whitespace, nothing else.
pub open spec fn spec_doc_fields(s: Seq<char>) -> Option<Seq<(Seq<char>, (int, int))>> {
    let i = skip_ws(s, 0);
    if 0 <= i < s.len() && s[i] == '{' {
        match obj_fields(s, i + 1) {
            None => None,
            Some((fs, e)) => if skip_ws(s, e) == s.len() {
                Some(fs)
            } else {
                None
            },
        }
    } else {
        None
    }
}

pub fn doc_fields_exec(s: &Vec<char>) -> (r: Option<Vec<RawField>>)
    ensures
        match r {
            Some(v) => spec_doc_fields(s@) == Some(fields_view(v@)) && spans_wf(
                s@,
                fields_view(v@),
            ),
            None => spec_doc_fields(s@) is None,
        },
{
    let i = skip_ws_exec(s, 0);
    if i >= s.len() || s[i] != '{' {
        return None;
    }
    match obj_fields_exec(s, i + 1) {
        None => None,
        Some((v, e)) => {
            let t = skip_ws_exec(s, e);
            if t == s.len() {
                Some(v)
            } else {
                None
            }
        },
    }
}

/// The value span of the first field named `key`, scanning from position
/// `i` of the field list.
pub open spec fn lookup_from(
    fs: Seq<(Seq<char>, (int, int))>,
    i: int,
    key: Seq<char>,
) -> Option<(int, int)>
    decreases fs.len() - i,
{
    if !(0 <= i < fs.len()) {
        None
    } else if fs[i].0 == key {
        Some(fs[i].1)
    } else {
        lookup_from(fs, i + 1, key)
    }
}

/// The value span of the first field named `key`.
pub open spec fn lookup(fs: Seq<(Seq<char>, (int, int))>, key: Seq<char>) -> Option<(int, int)> {
    lookup_from(fs, 0, key)
}

/// Character-for-character comparison of scanned text with a literal.
pub fn chars_eq_str(a: &Vec<char>, b: &str) -> (r: bool)
    ensures
        r == (a@ == b@),
{
    let bl = b.unicode_len();
    if a.len() != bl {
        proof {
            if a@ == b@ {
                assert(a@.len() == b@.len());
            }
        }
        return false;
    }
    let mut k: usize = 0;
    while k < bl
        invariant
            k <= bl,
            a@.len() == bl == b@.len(),
            forall|m: int| 0 <= m < k ==> a@[m] == b@[m],
        decreases bl - k,
    {
        if a[k] != b.get_char(k) {
            return false;
        }
        k = k + 1;
    }
    proof {
        assert(a@ =~= b@);
    }
    true
}

pub fn find_field(s: &Vec<char>, fields: &Vec<RawField>, key: &str) -> (r: Option<(usize, usize)>)
    requires
        spans_wf(s@, fields_view(fields@)),
    ensures
        match r {
            Some((a, b)) => lookup(fields_view(fields@), key@) == Some((a as int, b as int)) && a
                < b <= s@.len(),
            None => lookup(fields_view(fields@), key@) is None,
        },
{
    let mut m: usize = 0;
    while m < fields.len()
        invariant
            m <= fields@.len(),
            spans_wf(s@, fields_view(fields@)),
            lookup(fields_view(fields@), key@) == lookup_from(fields_view(fields@), m as int, key@),
        decreases fields@.len() - m,
    {
        if chars_eq_str(&fields[m].key, key) {
            let a = fields[m].start;
            let b = fields[m].end;
            proof {
                assert(fields_view(fields@)[m as int] == fields@[m as int]@);
            }
            return Some((a, b));
        }
        proof {
            assert(fields_view(fields@)[m as int] == fields@[m as int]@);
        }
        m = m + 1;
    }
    None
}

pub open spec fn is_digit(c: char) -> bool {
    '0' <= c && c <= '9'
}

pub open spec fn digit_val(c: char) -> int {
    c as u32 - '0' as u32
}

pub open spec fn all_digits(s: Seq<char>) -> bool {
    forall|i: int| 0 <= i < s.len() ==> is_digit(#[trigger] s[i])
}

/// The number written by a run of decimal digits, most significant first.
pub open spec fn digits_val(s: Seq<char>) -> int
    decreases s.len(),
{
    if s.len() == 0 {
        0
    } else {
        digits_val(s.drop_last()) * 10 + digit_val(s.last())
    }
}

pub proof fn lemma_digits_val_nonneg(s: Seq<char>)
    requires
        all_digits(s),
    ensures
        digits_val(s) >= 0,
    decreases s.len(),
{
    if s.len() > 0 {
        assert(all_digits(s.drop_last())) by {
            assert(forall|i: int|
                0 <= i < s.len() - 1 ==> s.drop_last()[i] == #[trigger] s[i] && is_digit(s[i]));
        }
        lemma_digits_val_nonneg(s.drop_last());
        assert(is_digit(s.last()));
    }
}

pub proof fn lemma_digits_val_prefix(s: Seq<char>, k: int)
    requires
        all_digits(s),
        0 <= k <= s.len(),
    ensures
        digits_val(s.subrange(0, k)) <= digits_val(s),
    decreases s.len() - k,
{
    if k < s.len() {
        let t = s.subrange(0, k + 1);
        lemma_digits_val_prefix(s, k + 1);
        assert(all_digits(t) && t.drop_last() =~= s.subrange(0, k));
        lemma_digits_val_nonneg(t.drop_last());
        assert(digits_val(t) == digits_val(t.drop_last()) * 10 + digit_val(t.last()));
        assert(digit_val(t.last()) >= 0);
        assert(digits_val(t.drop_last()) <= digits_val(t.drop_last()) * 10) by {
            lemma_digits_val_nonneg(t.drop_last());
        }
    } else {
        assert(s.subrange(0, k) =~= s);
    }
}

/// A whole span read as a signed decimal integer: an optional minus sign,
/// then digits only, and a value that fits the type.
pub open spec fn spec_parse_i64(t: Seq<char>) -> Option<i64> {
    if t.len() > 0 && t[0] == '-' {
        let d = t.subrange(1, t.len() as int);
        if d.len() > 0 && all_digits(d) && -digits_val(d) >= i64::MIN {
            Some((-digits_val(d)) as i64)
        } else {
            None
        }
    } else if t.len() > 0 && all_digits(t) && digits_val(t) <= i64::MAX {
        Some(digits_val(t) as i64)
    } else {
        None
    }
}

/// A whole span read as an unsigned decimal integer.
pub open spec fn spec_parse_u64(t: Seq<char>) -> Option<u64> {
    if t.len() > 0 && all_digits(t) && digits_val(t) <= u64::MAX {
        Some(digits_val(t) as u64)
    } else {
        None
    }
}

/// The digits of `s[a..b]` folded into a magnitude, stopping with `None`
/// as soon as the value passes `bound` or a non-digit appears.
fn digits_mag(s: &Vec<char>, a: usize, b: usize, bound: u64) -> (r: Option<u64>)
    requires
        a <= b <= s@.len(),
    ensures
        match r {
            Some(m) => a < b && all_digits(s@.subrange(a as int, b as int)) && m == digits_val(
                s@.subrange(a as int, b as int),
            ) && m <= bound,
            None => {
                ||| a == b
                ||| !all_digits(s@.subrange(a as int, b as int))
                ||| digits_val(s@.subrange(a as int, b as int)) > bound
            },
        },
{
    if a == b {
        return None;
    }
    let ghost d = s@.subrange(a as int, b as int);
    let mut mag: u64 = 0;
    let mut k = a;
    while k < b
        invariant
            a <= k <= b <= s@.len(),
            d == s@.subrange(a as int, b as int),
            all_digits(d.subrange(0, k - a)),
            mag == digits_val(d.subrange(0, k - a)),
            mag <= bound,
        decreases b - k,
    {
        let c = s[k];
        proof {
            assert(d[k - a] == s@[k as int]);
        }
        if !('0' <= c && c <= '9') {
            proof {
                assert(!all_digits(d));
            }
            return None;
        }
        let dv: u64 = (c as u32 - 48) as u64;
        let ghost pre = d.subrange(0, k - a);
        let ghost pre1 = d.subrange(0, k - a + 1);
        proof {
            assert(pre1.drop_last() =~= pre && pre1.last() == c);
            assert(all_digits(pre1));
            assert(digits_val(pre1) == mag * 10 + dv);
        }
        if mag > bound / 10 {
            proof {
                vstd::arithmetic::div_mod::lemma_fundamental_div_mod(bound as int, 10);
                assert(mag * 10 >= (bound / 10 + 1) * 10);
                if all_digits(d) {
                    lemma_digits_val_prefix(d, k - a + 1);
                    assert(digits_val(d) >= digits_val(pre1));
                }
            }
            return None;
        }
        proof {
            vstd::arithmetic::div_mod::lemma_fundamental_div_mod(bound as int, 10);
            assert(mag * 10 <= (bound / 10) * 10 <= bound);
        }
        let next = mag * 10;
        if dv > bound - next {
            proof {
                if all_digits(d) {
                    lemma_digits_val_prefix(d, k - a + 1);
                    assert(digits_val(d) >= digits_val(pre1));
                }
            }
            return None;
        }
        mag = next + dv;
        k = k + 1;
    }
    proof {
        assert(d.subrange(0, b - a) =~= d);
    }
    Some(mag)
}

pub fn parse_i64_range(s: &Vec<char>, a: usize, b: usize) -> (r: Option<i64>)
    requires
        a <= b <= s@.len(),
    ensures
        r == spec_parse_i64(s@.subrange(a as int, b as int)),
{
    let ghost t = s@.subrange(a as int, b as int);
    if a == b {
        return None;
    }
    if s[a] == '-' {
        proof {
            assert(t[0] == '-');
            assert(s@.subrange(a + 1 as int, b as int) =~= t.subrange(1, t.len() as int));
        }
        match digits_mag(s, a + 1, b, 9223372036854775808u64) {
            None => {
                proof {
                    if s@.subrange(a + 1 as int, b as int).len() > 0 && all_digits(
                        s@.subrange(a + 1 as int, b as int),
                    ) {
                        lemma_digits_val_nonneg(s@.subrange(a + 1 as int, b as int));
                    }
                }
                None
            },
            Some(m) => {
                if m == 9223372036854775808u64 {
                    Some(i64::MIN)
                } else {
                    Some(-(m as i64))
                }
            },
        }
    } else {
        proof {
            assert(t[0] != '-');
            if t.len() > 0 && all_digits(t) {
                lemma_digits_val_nonneg(t);
            }
        }
        match digits_mag(s, a, b, 9223372036854775807u64) {
            None => None,
            Some(m) => Some(m as i64),
        }
    }
}

pub fn parse_u64_range(s: &Vec<char>, a: usize, b: usize) -> (r: Option<u64>)
    requires
        a <= b <= s@.len(),
    ensures
        r == spec_parse_u64(s@.subrange(a as int, b as int)),
{
    proof {
        let t = s@.subrange(a as int, b as int);
        if t.len() > 0 && all_digits(t) {
            lemma_digits_val_nonneg(t);
        }
    }
    digits_mag(s, a, b, u64::MAX)
}

pub open spec fn spans_view(v: Seq<(usize, usize)>) -> Seq<(int, int)> {
    v.map_values(|sp: (usize, usize)| (sp.0 as int, sp.1 as int))
}

/// The element spans of an array, scanned from `i`, which stands just
/// after the opening bracket or just after a separating comma, together
/// with the position after the closing bracket.
pub open spec fn arr_items(s: Seq<char>, i: int) -> Option<(Seq<(int, int)>, int)>
    decreases s.len() - i,
{
    if !(0 <= i <= s.len()) {
        None
    } else {
        let j = skip_ws(s, i);
        if !(j < s.len()) {
            None
        } else if s[j] == ']' {
            Some((Seq::empty(), j + 1))
        } else {
            match value_end(s, j) {
                None => None,
                Some(ve) => {
                    let t = skip_ws(s, ve);
                    if 0 <= t < s.len() && s[t] == ',' {
                        if t + 1 <= i {
                            None
                        } else {
                            match arr_items(s, t + 1) {
                                None => None,
                                Some((rest, e)) => Some((seq![(j, ve)] + rest, e)),
                            }
                        }
                    } else if 0 <= t < s.len() && s[t] == ']' {
                        Some((seq![(j, ve)], t + 1))
                    } else {
                        None
                    }
                },
            }
        }
    }
}

/// Every element span of a scanned array lies inside the text.
pub open spec fn arr_spans_wf(s: Seq<char>, sp: Seq<(int, int)>) -> bool {
    forall|k: int| 0 <= k < sp.len() ==> 0 <= #[trigger] sp[k].0 < sp[k].1 <= s.len()
}

/// The element spans of a whole piece of text holding one array and
/// nothing else.
pub open spec fn spec_arr_spans(s: Seq<char>) -> Option<Seq<(int, int)>> {
    let i = skip_ws(s, 0);
    if 0 <= i < s.len() && s[i] == '[' {
        match arr_items(s, i + 1) {
            None => None,
            Some((sp, e)) => if skip_ws(s, e) == s.len() {
                Some(sp)
            } else {
                None
            },
        }
    } else {
        None
    }
}

pub fn arr_spans_exec(s: &Vec<char>) -> (r: Option<Vec<(usize, usize)>>)
    ensures
        match r {
            Some(v) => spec_arr_spans(s@) == Some(spans_view(v@)) && arr_spans_wf(
                s@,
                spans_view(v@),
            ),
            None => spec_arr_spans(s@) is None,
        },
{
    let i = skip_ws_exec(s, 0);
    if i >= s.len() || s[i] != '[' {
        return None;
    }
    let mut acc: Vec<(usize, usize)> = Vec::new();
    let mut cur = i + 1;
    loop
        invariant
            i + 1 <= cur <= s@.len(),
            arr_spans_wf(s@, spans_view(acc@)),
            skip_ws(s@, 0) == i && i < s@.len() && s@[i as int] == '[',
            match arr_items(s@, cur as int) {
                Some((sp, e)) => arr_items(s@, i + 1 as int) == Some((spans_view(acc@) + sp, e)),
                None => arr_items(s@, i + 1 as int) is None,
            },
        decreases s@.len() - cur,
    {
        let j = skip_ws_exec(s, cur);
        if j >= s.len() {
            return None;
        }
        if s[j] == ']' {
            proof {
                assert(spans_view(acc@) + Seq::<(int, int)>::empty() =~= spans_view(acc@));
            }
            let t = skip_ws_exec(s, j + 1);
            if t == s.len() {
                return Some(acc);
            } else {
                return None;
            }
        }
        let ve = match value_end_exec(s, j) {
            Some(ve) => ve,
            None => {
                return None;
            },
        };
        let t = skip_ws_exec(s, ve);
        if t < s.len() && s[t] == ',' {
            proof {
                assert(spans_view(acc@.push((j, ve))) =~= spans_view(acc@).push(
                    (j as int, ve as int),
                ));
                if let Some((rest, e)) = arr_items(s@, t + 1 as int) {
                    assert(spans_view(acc@).push((j as int, ve as int)) + rest =~= spans_view(acc@)
                        + (seq![(j as int, ve as int)] + rest));
                }
            }
            acc.push((j, ve));
            cur = t + 1;
        } else if t < s.len() && s[t] == ']' {
            proof {
                assert(spans_view(acc@.push((j, ve))) =~= spans_view(acc@) + seq![
                    (j as int, ve as int),
                ]);
            }
            acc.push((j, ve));
            let t2 = skip_ws_exec(s, t + 1);
            if t2 == s.len() {
                return Some(acc);
            } else {
                return None;
            }
        } else {
            return None;
        }
    }
}

/// The contents of an array of strings, element by element, escapes
/// decoded; `None` when the text is not an array of strings.
pub open spec fn strs_from(s: Seq<char>, sp: Seq<(int, int)>, k: int) -> Option<Seq<Seq<char>>>
    decreases sp.len() - k,
{
    if !(0 <= k <= sp.len()) {
        None
    } else if k == sp.len() {
        Some(Seq::empty())
    } else {
        match spec_str_value(s.subrange(sp[k].0, sp[k].1)) {
            None => None,
            Some(c) => match strs_from(s, sp, k + 1) {
                None => None,
                Some(rest) => Some(seq![c] + rest),
            },
        }
    }
}

pub open spec fn spec_str_list(s: Seq<char>) -> Option<Seq<Seq<char>>> {
    match spec_arr_spans(s) {
        None => None,
        Some(sp) => strs_from(s, sp, 0),
    }
}

pub open spec fn strings_view(v: Seq<String>) -> Seq<Seq<char>> {
    v.map_values(|x: String| x@)
}

pub fn parse_str_list(s: &Vec<char>) -> (r: Option<Vec<String>>)
    ensures
        match r {
            Some(v) => spec_str_list(s@) == Some(strings_view(v@)),
            None => spec_str_list(s@) is None,
        },
{
    let spans = match arr_spans_exec(s) {
        Some(sp) => sp,
        None => {
            return None;
        },
    };
    let ghost spv = spans_view(spans@);
    let mut acc: Vec<String> = Vec::new();
    let mut k: usize = 0;
    while k < spans.len()
        invariant
            k <= spans@.len(),
            spv == spans_view(spans@),
            spec_arr_spans(s@) == Some(spv),
            arr_spans_wf(s@, spv),
            match strs_from(s@, spv, k as int) {
                Some(rest) => strs_from(s@, spv, 0) == Some(strings_view(acc@) + rest),
                None => strs_from(s@, spv, 0) is None,
            },
        decreases spans@.len() - k,
    {
        let (a, b) = spans[k];
        proof {
            assert(spv[k as int] == (a as int, b as int));
        }
        let content = match str_value_range(s, a, b) {
            Some(c) => c,
            None => {
                proof {
                    assert(strs_from(s@, spv, k as int) is None);
                }
                return None;
            },
        };
        let st = crate::outside::chars_to_string(&content);
        proof {
            assert(strings_view(acc@.push(st)) =~= strings_view(acc@).push(st@));
            if let Some(rest) = strs_from(s@, spv, k + 1) {
                assert(strings_view(acc@).push(st@) + rest =~= strings_view(acc@) + (seq![st@]
                    + rest));
            }
        }
        acc.push(st);
        k = k + 1;
    }
    proof {
        assert(strings_view(acc@) + Seq::<Seq<char>>::empty() =~= strings_view(acc@));
    }
    Some(acc)
}

pub open spec fn is_null_text(t: Seq<char>) -> bool {
    t.len() == 4 && t[0] == 'n' && t[1] == 'u' && t[2] == 'l' && t[3] == 'l'
}

pub open spec fn is_true_text(t: Seq<char>) -> bool {
    t.len() == 4 && t[0] == 't' && t[1] == 'r' && t[2] == 'u' && t[3] == 'e'
}

pub open spec fn is_false_text(t: Seq<char>) -> bool {
    t.len() == 5 && t[0] == 'f' && t[1] == 'a' && t[2] == 'l' && t[3] == 's' && t[4] == 'e'
}

pub open spec fn spec_parse_bool(t: Seq<char>) -> Option<bool> {
    if is_true_text(t) {
        Some(true)
    } else if is_false_text(t) {
        Some(false)
    } else {
        None
    }
}

/// The source form of a string value: the characters between its quotes,
/// escapes left as written.
pub open spec fn spec_str_text(t: Seq<char>) -> Option<Seq<char>> {
    if t.len() >= 2 && t[0] == '"' {
        Some(t.subrange(1, t.len() - 1))
    } else {
        None
    }
}

/// The value of a hexadecimal digit, or 16 for any other character.
pub open spec fn hex_val(c: char) -> int {
    if '0' <= c && c <= '9' {
        c as u32 - '0' as u32
    } else if 'a' <= c && c <= 'f' {
        c as u32 - 'a' as u32 + 10
    } else if 'A' <= c && c <= 'F' {
        c as u32 - 'A' as u32 + 10
    } else {
        16
    }
}

pub open spec fn is_hex(c: char) -> bool {
    hex_val(c) < 16
}

/// Whether four hexadecimal digits stand at `i`.
pub open spec fn hex4_ok(s: Seq<char>, i: int) -> bool {
    &&& i + 4 <= s.len()
    &&& is_hex(s[i])
    &&& is_hex(s[i + 1])
    &&& is_hex(s[i + 2])
    &&& is_hex(s[i + 3])
}

/// The code written by four hexadecimal digits at `i`.
pub open spec fn hex4(s: Seq<char>, i: int) -> int {
    hex_val(s[i]) * 4096 + hex_val(s[i + 1]) * 256 + hex_val(s[i + 2]) * 16 + hex_val(s[i + 3])
}

/// What a single-character escape stands for.
pub open spec fn esc_code(c: char) -> Option<char> {
    if c == '"' {
        Some('"')
    } else if c == '\\' {
        Some('\\')
    } else if c == '/' {
        Some('/')
    } else if c == 'b' {
        Some('\u{0008}')
    } else if c == 'f' {
        Some('\u{000c}')
    } else if c == 'n' {
        Some('\n')
    } else if c == 'r' {
        Some('\r')
    } else if c == 't' {
        Some('\t')
    } else {
        None
    }
}

/// The character with the given code.
pub open spec fn char_of(code: int) -> char {
    (code as u32) as char
}

/// The logical characters a string's source form spells, from position
/// `i` on: every other character stands for itself; a backslash starts one
/// of the named escapes or a unicode escape, where a high surrogate must
/// be completed by a low one to name a character past the basic plane.
/// `None` on any escape the grammar does not have.
pub open spec fn unescape(s: Seq<char>, i: int) -> Option<Seq<char>>
    decreases s.len() - i,
{
    if !(0 <= i <= s.len()) {
        None
    } else if i == s.len() {
        Some(Seq::empty())
    } else if s[i] != '\\' {
        match unescape(s, i + 1) {
            None => None,
            Some(rest) => Some(seq![s[i]] + rest),
        }
    } else if i + 1 < s.len() {
        let e = s[i + 1];
        if e == 'u' {
            if hex4_ok(s, i + 2) {
                let v = hex4(s, i + 2);
                if 0xD800 <= v < 0xDC00 {
                    if i + 12 <= s.len() && s[i + 6] == '\\' && s[i + 7] == 'u' && hex4_ok(s, i + 8)
                        && 0xDC00 <= hex4(s, i + 8) < 0xE000 {
                        let code = 0x10000 + (v - 0xD800) * 0x400 + (hex4(s, i + 8) - 0xDC00);
                        match unescape(s, i + 12) {
                            None => None,
                            Some(rest) => Some(seq![char_of(code)] + rest),
                        }
                    } else {
                        None
                    }
                } else if 0xDC00 <= v < 0xE000 {
                    None
                } else {
                    match unescape(s, i + 6) {
                        None => None,
                        Some(rest) => Some(seq![char_of(v)] + rest),
                    }
                }
            } else {
                None
            }
        } else {
            match esc_code(e) {
                None => None,
                Some(c) => match unescape(s, i + 2) {
                    None => None,
                    Some(rest) => Some(seq![c] + rest),
                },
            }
        }
    } else {
        None
    }
}

/// Decoding reads the text left to right, so what stands before the
/// position at hand does not matter: decoding a tail in place equals
/// decoding it alone.
pub proof fn lemma_unescape_shift(a: Seq<char>, b: Seq<char>, i: int)
    requires
        0 <= i <= b.len(),
    ensures
        unescape(a + b, a.len() + i) == unescape(b, i),
    decreases b.len() - i,
{
    let s = a + b;
    let j = a.len() + i;
    assert(s.len() == a.len() + b.len());
    if i == b.len() {
    } else {
        assert(s[j] == b[i]);
        if b[i] != '\\' {
            lemma_unescape_shift(a, b, i + 1);
        } else if i + 1 < b.len() {
            assert(s[j + 1] == b[i + 1]);
            let e = b[i + 1];
            if e == 'u' {
                if i + 6 <= b.len() {
                    assert(s[j + 2] == b[i + 2] && s[j + 3] == b[i + 3] && s[j + 4] == b[i + 4]
                        && s[j + 5] == b[i + 5]);
                }
                assert(hex4_ok(s, j + 2) == hex4_ok(b, i + 2));
                if hex4_ok(b, i + 2) {
                    assert(hex4(s, j + 2) == hex4(b, i + 2));
                    let v = hex4(b, i + 2);
                    if 0xD800 <= v < 0xDC00 {
                        if i + 12 <= b.len() {
                            assert(s[j + 6] == b[i + 6] && s[j + 7] == b[i + 7] && s[j + 8] == b[i
                                + 8] && s[j + 9] == b[i + 9] && s[j + 10] == b[i + 10] && s[j + 11]
                                == b[i + 11]);
                            assert(hex4_ok(s, j + 8) == hex4_ok(b, i + 8));
                            if hex4_ok(b, i + 8) {
                                assert(hex4(s, j + 8) == hex4(b, i + 8));
                                if b[i + 6] == '\\' && b[i + 7] == 'u' && 0xDC00 <= hex4(b, i + 8)
                                    < 0xE000 {
                                    lemma_unescape_shift(a, b, i + 12);
                                }
                            }
                        }
                    } else if !(0xDC00 <= v < 0xE000) {
                        lemma_unescape_shift(a, b, i + 6);
                    }
                }
            } else {
                if esc_code(e) is Some {
                    lemma_unescape_shift(a, b, i + 2);
                }
            }
        } else {
            assert(j + 1 == s.len());
        }
    }
}

/// The logical characters of a string value: its source form, escapes
/// decoded.
pub open spec fn spec_str_value(t: Seq<char>) -> Option<Seq<char>> {
    match spec_str_text(t) {
        None => None,
        Some(src) => unescape(src, 0),
    }
}

fn hex_val_exec(c: char) -> (r: u32)
    ensures
        r as int == hex_val(c),
{
    if '0' <= c && c <= '9' {
        c as u32 - '0' as u32
    } else if 'a' <= c && c <= 'f' {
        c as u32 - 'a' as u32 + 10
    } else if 'A' <= c && c <= 'F' {
        c as u32 - 'A' as u32 + 10
    } else {
        16
    }
}

/// Decode a string's source form into its logical characters.
pub fn unescape_chars(s: &Vec<char>) -> (r: Option<Vec<char>>)
    ensures
        match r {
            Some(v) => unescape(s@, 0) == Some(v@),
            None => unescape(s@, 0) is None,
        },
{
    let mut out: Vec<char> = Vec::new();
    let mut i: usize = 0;
    while i < s.len()
        invariant
            i <= s@.len(),
            match unescape(s@, i as int) {
                Some(rest) => unescape(s@, 0) == Some(out@ + rest),
                None => unescape(s@, 0) is None,
            },
        decreases s@.len() - i,
    {
        let c = s[i];
        if c != '\\' {
            proof {
                if let Some(rest) = unescape(s@, i + 1) {
                    assert(out@.push(c) + rest =~= out@ + (seq![c] + rest));
                }
            }
            out.push(c);
            i = i + 1;
        } else if i + 1 >= s.len() {
            return None;
        } else {
            let e = s[i + 1];
            if e == 'u' {
                if s.len() - i < 6 {
                    proof {
                        assert(!hex4_ok(s@, i + 2));
                    }
                    return None;
                }
                let h0 = hex_val_exec(s[i + 2]);
                let h1 = hex_val_exec(s[i + 3]);
                let h2 = hex_val_exec(s[i + 4]);
                let h3 = hex_val_exec(s[i + 5]);
                if h0 > 15 || h1 > 15 || h2 > 15 || h3 > 15 {
                    proof {
                        assert(!hex4_ok(s@, i + 2));
                    }
                    return None;
                }
                let v: u32 = h0 * 4096 + h1 * 256 + h2 * 16 + h3;
                proof {
                    assert(v as int == hex4(s@, i + 2));
                }
                if 0xD800 <= v && v < 0xDC00 {
                    if s.len() - i < 12 || s[i + 6] != '\\' || s[i + 7] != 'u' {
                        return None;
                    }
                    let l0 = hex_val_exec(s[i + 8]);
                    let l1 = hex_val_exec(s[i + 9]);
                    let l2 = hex_val_exec(s[i + 10]);
                    let l3 = hex_val_exec(s[i + 11]);
                    if l0 > 15 || l1 > 15 || l2 > 15 || l3 > 15 {
                        proof {
                            assert(!hex4_ok(s@, i + 8));
                        }
                        return None;
                    }
                    let lo: u32 = l0 * 4096 + l1 * 256 + l2 * 16 + l3;
                    proof {
                        assert(lo as int == hex4(s@, i + 8));
                    }
                    if !(0xDC00 <= lo && lo < 0xE000) {
                        return None;
                    }
                    let code: u32 = 0x10000 + (v - 0xD800) * 0x400 + (lo - 0xDC00);
                    match char::from_u32(code) {
                        Some(ch) => {
                            proof {
                                vstd::utf8::char_u32_cast(ch, code);
                                assert(ch == char_of(code as int));
                                if let Some(rest) = unescape(s@, i + 12) {
                                    assert(out@.push(ch) + rest =~= out@ + (seq![ch] + rest));
                                }
                            }
                            out.push(ch);
                            i = i + 12;
                        },
                        None => {
                            proof {
                                assert(vstd::utf8::is_scalar(code));
                                assert(false);
                            }
                            return None;
                        },
                    }
                } else if 0xDC00 <= v && v < 0xE000 {
                    return None;
                } else {
                    match char::from_u32(v) {
                        Some(ch) => {
                            proof {
                                vstd::utf8::char_u32_cast(ch, v);
                                assert(ch == char_of(v as int));
                                if let Some(rest) = unescape(s@, i + 6) {
                                    assert(out@.push(ch) + rest =~= out@ + (seq![ch] + rest));
                                }
                            }
                            out.push(ch);
                            i = i + 6;
                        },
                        None => {
                            proof {
                                assert(vstd::utf8::is_scalar(v));
                                assert(false);
                            }
                            return None;
                        },
                    }
                }
            } else {
                let ch: char = if e == '"' {
                    '"'
                } else if e == '\\' {
                    '\\'
                } else if e == '/' {
                    '/'
                } else if e == 'b' {
                    '\u{0008}'
                } else if e == 'f' {
                    '\u{000c}'
                } else if e == 'n' {
                    '\n'
                } else if e == 'r' {
                    '\r'
                } else if e == 't' {
                    '\t'
                } else {
                    proof {
                        assert(esc_code(e) is None);
                    }
                    return None;
                };
                proof {
                    assert(esc_code(e) == Some(ch));
                    if let Some(rest) = unescape(s@, i + 2) {
                        assert(out@.push(ch) + rest =~= out@ + (seq![ch] + rest));
                    }
                }
                out.push(ch);
                i = i + 2;
            }
        }
    }
    proof {
        assert(out@ + Seq::<char>::empty() =~= out@);
    }
    Some(out)
}

/// The logical characters of the string value in `s[a..b]`.
pub fn str_value_range(s: &Vec<char>, a: usize, b: usize) -> (r: Option<Vec<char>>)
    requires
        a <= b <= s@.len(),
    ensures
        match r {
            Some(v) => spec_str_value(s@.subrange(a as int, b as int)) == Some(v@),
            None => spec_str_value(s@.subrange(a as int, b as int)) is None,
        },
{
    match str_content_range(s, a, b) {
        None => None,
        Some(src) => unescape_chars(&src),
    }
}

pub fn span_is_null(s: &Vec<char>, a: usize, b: usize) -> (r: bool)
    requires
        a <= b <= s@.len(),
    ensures
        r == is_null_text(s@.subrange(a as int, b as int)),
{
    b - a == 4 && s[a] == 'n' && s[a + 1] == 'u' && s[a + 2] == 'l' && s[a + 3] == 'l'
}

pub fn parse_bool_range(s: &Vec<char>, a: usize, b: usize) -> (r: Option<bool>)
    requires
        a <= b <= s@.len(),
    ensures
        r == spec_parse_bool(s@.subrange(a as int, b as int)),
{
    if b - a == 4 && s[a] == 't' && s[a + 1] == 'r' && s[a + 2] == 'u' && s[a + 3] == 'e' {
        Some(true)
    } else if b - a == 5 && s[a] == 'f' && s[a + 1] == 'a' && s[a + 2] == 'l' && s[a + 3] == 's'
        && s[a + 4] == 'e' {
        Some(false)
    } else {
        None
    }
}

pub fn str_content_range(s: &Vec<char>, a: usize, b: usize) -> (r: Option<Vec<char>>)
    requires
        a <= b <= s@.len(),
    ensures
        match r {
            Some(v) => spec_str_text(s@.subrange(a as int, b as int)) == Some(v@),
            None => spec_str_text(s@.subrange(a as int, b as int)) is None,
        },
{
    if b - a >= 2 && s[a] == '"' {
        let v = copy_range(s, a + 1, b - 1);
        proof {
            assert(s@.subrange(a + 1 as int, b - 1) =~= s@.subrange(a as int, b as int).subrange(
                1,
                (b - a) as int - 1,
            ));
        }
        Some(v)
    } else {
        None
    }
}

/// A required integer field: `None` when the field is absent or not a
/// well-formed integer of the range.
pub open spec fn spec_fs_req_i64(
    s: Seq<char>,
    fs: Seq<(Seq<char>, (int, int))>,
    key: Seq<char>,
) -> Option<i64> {
    match lookup(fs, key) {
        None => None,
        Some(sp) => spec_parse_i64(s.subrange(sp.0, sp.1)),
    }
}

/// An optional integer field: the outer `None` means the value there is
/// neither an integer nor `null`; the inner `None` means absent or `null`.
pub open spec fn spec_fs_opt_i64(
    s: Seq<char>,
    fs: Seq<(Seq<char>, (int, int))>,
    key: Seq<char>,
) -> Option<Option<i64>> {
    match lookup(fs, key) {
        None => Some(None),
        Some(sp) => if is_null_text(s.subrange(sp.0, sp.1)) {
            Some(None)
        } else {
            match spec_parse_i64(s.subrange(sp.0, sp.1)) {
                None => None,
                Some(v) => Some(Some(v)),
            }
        },
    }
}

pub open spec fn spec_fs_req_u64(
    s: Seq<char>,
    fs: Seq<(Seq<char>, (int, int))>,
    key: Seq<char>,
) -> Option<u64> {
    match lookup(fs, key) {
        None => None,
        Some(sp) => spec_parse_u64(s.subrange(sp.0, sp.1)),
    }
}

/// A required string field, escapes decoded.
pub open spec fn spec_fs_req_str(
    s: Seq<char>,
    fs: Seq<(Seq<char>, (int, int))>,
    key: Seq<char>,
) -> Option<Seq<char>> {
    match lookup(fs, key) {
        None => None,
        Some(sp) => spec_str_value(s.subrange(sp.0, sp.1)),
    }
}

pub open spec fn spec_fs_opt_str(
    s: Seq<char>,
    fs: Seq<(Seq<char>, (int, int))>,
    key: Seq<char>,
) -> Option<Option<Seq<char>>> {
    match lookup(fs, key) {
        None => Some(None),
        Some(sp) => if is_null_text(s.subrange(sp.0, sp.1)) {
            Some(None)
        } else {
            match spec_str_value(s.subrange(sp.0, sp.1)) {
                None => None,
                Some(v) => Some(Some(v)),
            }
        },
    }
}

pub open spec fn spec_fs_req_bool(
    s: Seq<char>,
    fs: Seq<(Seq<char>, (int, int))>,
    key: Seq<char>,
) -> Option<bool> {
    match lookup(fs, key) {
        None => None,
        Some(sp) => spec_parse_bool(s.subrange(sp.0, sp.1)),
    }
}

pub open spec fn spec_fs_opt_bool(
    s: Seq<char>,
    fs: Seq<(Seq<char>, (int, int))>,
    key: Seq<char>,
) -> Option<Option<bool>> {
    match lookup(fs, key) {
        None => Some(None),
        Some(sp) => if is_null_text(s.subrange(sp.0, sp.1)) {
            Some(None)
        } else {
            match spec_parse_bool(s.subrange(sp.0, sp.1)) {
                None => None,
                Some(v) => Some(Some(v)),
            }
        },
    }
}

/// An optional field that must fit in 32 unsigned bits when present.
pub open spec fn spec_fs_opt_u32(
    s: Seq<char>,
    fs: Seq<(Seq<char>, (int, int))>,
    key: Seq<char>,
) -> Option<Option<u32>> {
    match spec_fs_opt_i64(s, fs, key) {
        None => None,
        Some(None) => Some(None),
        Some(Some(v)) => if 0 <= v <= u32::MAX {
            Some(Some(v as u32))
        } else {
            None
        },
    }
}

/// The raw text of a field's value, `None` when the field is absent.
pub open spec fn spec_fs_raw(
    s: Seq<char>,
    fs: Seq<(Seq<char>, (int, int))>,
    key: Seq<char>,
) -> Option<Seq<char>> {
    match lookup(fs, key) {
        None => None,
        Some(sp) => Some(s.subrange(sp.0, sp.1)),
    }
}

pub fn fs_req_i64(s: &Vec<char>, fields: &Vec<RawField>, key: &str) -> (r: Option<i64>)
    requires
        spans_wf(s@, fields_view(fields@)),
    ensures
        r == spec_fs_req_i64(s@, fields_view(fields@), key@),
{
    match find_field(s, fields, key) {
        None => None,
        Some((a, b)) => parse_i64_range(s, a, b),
    }
}

pub fn fs_opt_i64(s: &Vec<char>, fields: &Vec<RawField>, key: &str) -> (r: Option<Option<i64>>)
    requires
        spans_wf(s@, fields_view(fields@)),
    ensures
        r == spec_fs_opt_i64(s@, fields_view(fields@), key@),
{
    match find_field(s, fields, key) {
        None => Some(None),
        Some((a, b)) => {
            if span_is_null(s, a, b) {
                Some(None)
            } else {
                match parse_i64_range(s, a, b) {
                    None => None,
                    Some(v) => Some(Some(v)),
                }
            }
        },
    }
}

pub fn fs_req_u64(s: &Vec<char>, fields: &Vec<RawField>, key: &str) -> (r: Option<u64>)
    requires
        spans_wf(s@, fields_view(fields@)),
    ensures
        r == spec_fs_req_u64(s@, fields_view(fields@), key@),
{
    match find_field(s, fields, key) {
        None => None,
        Some((a, b)) => parse_u64_range(s, a, b),
    }
}

pub fn fs_req_str(s: &Vec<char>, fields: &Vec<RawField>, key: &str) -> (r: Option<Vec<char>>)
    requires
        spans_wf(s@, fields_view(fields@)),
    ensures
        match r {
            Some(v) => spec_fs_req_str(s@, fields_view(fields@), key@) == Some(v@),
            None => spec_fs_req_str(s@, fields_view(fields@), key@) is None,
        },
{
    match find_field(s, fields, key) {
        None => None,
        Some((a, b)) => str_value_range(s, a, b),
    }
}

pub fn fs_opt_str(s: &Vec<char>, fields: &Vec<RawField>, key: &str) -> (r: Option<
    Option<Vec<char>>,
>)
    requires
        spans_wf(s@, fields_view(fields@)),
    ensures
        match r {
            Some(Some(v)) => spec_fs_opt_str(s@, fields_view(fields@), key@) == Some(Some(v@)),
            Some(None) => spec_fs_opt_str(s@, fields_view(fields@), key@) == Some(
                None::<Seq<char>>,
            ),
            None => spec_fs_opt_str(s@, fields_view(fields@), key@) is None,
        },
{
    match find_field(s, fields, key) {
        None => Some(None),
        Some((a, b)) => {
            if span_is_null(s, a, b) {
                Some(None)
            } else {
                match str_value_range(s, a, b) {
                    None => None,
                    Some(v) => Some(Some(v)),
                }
            }
        },
    }
}

pub fn fs_req_bool(s: &Vec<char>, fields: &Vec<RawField>, key: &str) -> (r: Option<bool>)
    requires
        spans_wf(s@, fields_view(fields@)),
    ensures
        r == spec_fs_req_bool(s@, fields_view(fields@), key@),
{
    match find_field(s, fields, key) {
        None => None,
        Some((a, b)) => parse_bool_range(s, a, b),
    }
}

pub fn fs_opt_bool(s: &Vec<char>, fields: &Vec<RawField>, key: &str) -> (r: Option<Option<bool>>)
    requires
        spans_wf(s@, fields_view(fields@)),
    ensures
        r == spec_fs_opt_bool(s@, fields_view(fields@), key@),
{
    match find_field(s, fields, key) {
        None => Some(None),
        Some((a, b)) => {
            if span_is_null(s, a, b) {
                Some(None)
            } else {
                match parse_bool_range(s, a, b) {
                    None => None,
                    Some(v) => Some(Some(v)),
                }
            }
        },
    }
}

pub fn fs_opt_u32(s: &Vec<char>, fields: &Vec<RawField>, key: &str) -> (r: Option<Option<u32>>)
    requires
        spans_wf(s@, fields_view(fields@)),
    ensures
        r == spec_fs_opt_u32(s@, fields_view(fields@), key@),
{
    match fs_opt_i64(s, fields, key) {
        None => None,
        Some(None) => Some(None),
        Some(Some(v)) => {
            if 0 <= v && v <= u32::MAX as i64 {
                Some(Some(v as u32))
            } else {
                None
            }
        },
    }
}

pub fn fs_raw(s: &Vec<char>, fields: &Vec<RawField>, key: &str) -> (r: Option<Vec<char>>)
    requires
        spans_wf(s@, fields_view(fields@)),
    ensures
        match r {
            Some(v) => spec_fs_raw(s@, fields_view(fields@), key@) == Some(v@),
            None => spec_fs_raw(s@, fields_view(fields@), key@) is None,
        },
{
    match find_field(s, fields, key) {
        None => None,
        Some((a, b)) => Some(copy_range(s, a, b)),
    }
}

} // verus!
