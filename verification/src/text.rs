//! Producing wire text: decimal numbers, and string content escaped the
//! way the protocol's JSON framing requires. The printers are exact: what
//! they write is proved to read back through the scanner's interpreters.

use vstd::prelude::*;

use crate::json::{
    all_digits, char_of, digit_val, digits_val, esc_code, hex4, hex4_ok, hex_val, is_digit,
    lemma_unescape_shift, spec_parse_i64, spec_parse_u64, unescape,
};

verus! {

pub open spec fn digit_char(d: int) -> char {
    if d == 0 {
        '0'
    } else if d == 1 {
        '1'
    } else if d == 2 {
        '2'
    } else if d == 3 {
        '3'
    } else if d == 4 {
        '4'
    } else if d == 5 {
        '5'
    } else if d == 6 {
        '6'
    } else if d == 7 {
        '7'
    } else if d == 8 {
        '8'
    } else {
        '9'
    }
}

/// The decimal digits of a non-negative number, most significant first.
pub open spec fn u64_digits(n: int) -> Seq<char>
    decreases n,
{
    if n < 10 {
        seq![digit_char(n)]
    } else {
        u64_digits(n / 10).push(digit_char(n % 10))
    }
}

/// The decimal text of a signed number.
pub open spec fn i64_text(n: int) -> Seq<char> {
    if n < 0 {
        seq!['-'] + u64_digits(-n)
    } else {
        u64_digits(n)
    }
}

pub proof fn lemma_u64_digits_read_back(n: int)
    requires
        0 <= n,
    ensures
        u64_digits(n).len() >= 1,
        all_digits(u64_digits(n)),
        digits_val(u64_digits(n)) == n,
    decreases n,
{
    if n < 10 {
        let d = u64_digits(n);
        assert(is_digit(d[0]));
        assert(d.drop_last() =~= Seq::<char>::empty());
        assert(digits_val(Seq::<char>::empty()) == 0);
        assert(digits_val(d) == digits_val(d.drop_last()) * 10 + digit_val(d.last()));
    } else {
        lemma_u64_digits_read_back(n / 10);
        let p = u64_digits(n / 10);
        let d = u64_digits(n);
        assert(d == p.push(digit_char(n % 10)));
        assert(d.drop_last() =~= p);
        assert(forall|i: int| 0 <= i < d.len() - 1 ==> #[trigger] d[i] == p[i]);
        assert(all_digits(d));
        assert(digit_val(digit_char(n % 10)) == n % 10);
        assert(digits_val(d) == digits_val(p) * 10 + n % 10);
        vstd::arithmetic::div_mod::lemma_fundamental_div_mod(n, 10);
    }
}

/// What the signed printer writes, the signed reader returns unchanged.
pub proof fn lemma_i64_text_read_back(n: i64)
    ensures
        spec_parse_i64(i64_text(n as int)) == Some(n),
{
    if n < 0 {
        let m = -(n as int);
        lemma_u64_digits_read_back(m);
        let t = i64_text(n as int);
        assert(t[0] == '-');
        assert(t.subrange(1, t.len() as int) =~= u64_digits(m));
    } else {
        lemma_u64_digits_read_back(n as int);
        let t = i64_text(n as int);
        assert(t.len() > 0);
        assert(is_digit(t[0]));
        assert(t[0] != '-');
    }
}

pub proof fn lemma_u64_digits_parse_back(n: u64)
    ensures
        spec_parse_u64(u64_digits(n as int)) == Some(n),
{
    lemma_u64_digits_read_back(n as int);
}

/// The decimal text of any number is one plain scalar to the scanner.
pub proof fn lemma_i64_text_plain(n: int)
    requires
        -0x8000_0000_0000_0000 <= n <= 0xffff_ffff_ffff_ffff,
    ensures
        crate::json::plain_scalar(i64_text(n)),
{
    let t = i64_text(n);
    if n < 0 {
        lemma_u64_digits_read_back(-n);
        assert(t[0] == '-');
        assert(forall|j: int|
            1 <= j < t.len() ==> #[trigger] t[j] == u64_digits(-n)[j - 1] && is_digit(
                u64_digits(-n)[j - 1],
            ));
    } else {
        lemma_u64_digits_read_back(n);
        assert(forall|j: int| 0 <= j < t.len() ==> is_digit(#[trigger] t[j]));
        assert(is_digit(t[0]));
    }
}

fn digit_char_exec(d: u64) -> (c: char)
    requires
        d < 10,
    ensures
        c == digit_char(d as int),
{
    if d == 0 {
        '0'
    } else if d == 1 {
        '1'
    } else if d == 2 {
        '2'
    } else if d == 3 {
        '3'
    } else if d == 4 {
        '4'
    } else if d == 5 {
        '5'
    } else if d == 6 {
        '6'
    } else if d == 7 {
        '7'
    } else if d == 8 {
        '8'
    } else {
        '9'
    }
}

pub fn push_u64_digits(out: &mut Vec<char>, n: u64)
    ensures
        final(out)@ == old(out)@ + u64_digits(n as int),
    decreases n,
{
    if n < 10 {
        out.push(digit_char_exec(n));
        proof {
            assert(final(out)@ =~= old(out)@ + u64_digits(n as int));
        }
    } else {
        push_u64_digits(out, n / 10);
        out.push(digit_char_exec(n % 10));
        proof {
            assert(final(out)@ =~= old(out)@ + u64_digits(n as int));
        }
    }
}

pub fn push_i64_text(out: &mut Vec<char>, n: i64)
    ensures
        final(out)@ == old(out)@ + i64_text(n as int),
{
    if n < 0 {
        out.push('-');
        let mag: u64 = if n == i64::MIN {
            9223372036854775808u64
        } else {
            (-n) as u64
        };
        push_u64_digits(out, mag);
        proof {
            assert(final(out)@ =~= old(out)@ + i64_text(n as int));
        }
    } else {
        push_u64_digits(out, n as u64);
    }
}

pub open spec fn hex_char(d: int) -> char {
    if d < 10 {
        digit_char(d)
    } else if d == 10 {
        'a'
    } else if d == 11 {
        'b'
    } else if d == 12 {
        'c'
    } else if d == 13 {
        'd'
    } else if d == 14 {
        'e'
    } else {
        'f'
    }
}

/// How one character of string content is written on the wire: quotes and
/// backslashes escaped, control characters written as a unicode escape,
/// everything else as itself.
pub open spec fn esc_char(c: char) -> Seq<char> {
    if c == '"' {
        seq!['\\', '"']
    } else if c == '\\' {
        seq!['\\', '\\']
    } else if (c as u32) < 32 {
        seq!['\\', 'u', '0', '0', hex_char(c as u32 as int / 16), hex_char(c as u32 as int % 16)]
    } else {
        seq![c]
    }
}

/// A whole string's content in wire form.
pub open spec fn escape_text(s: Seq<char>) -> Seq<char>
    decreases s.len(),
{
    if s.len() == 0 {
        Seq::empty()
    } else {
        escape_text(s.drop_last()) + esc_char(s.last())
    }
}

fn hex_char_exec(d: u32) -> (c: char)
    requires
        d < 16,
    ensures
        c == hex_char(d as int),
{
    if d < 10 {
        digit_char_exec(d as u64)
    } else if d == 10 {
        'a'
    } else if d == 11 {
        'b'
    } else if d == 12 {
        'c'
    } else if d == 13 {
        'd'
    } else if d == 14 {
        'e'
    } else {
        'f'
    }
}

fn push_esc_char(out: &mut Vec<char>, c: char)
    ensures
        final(out)@ == old(out)@ + esc_char(c),
{
    if c == '"' {
        out.push('\\');
        out.push('"');
    } else if c == '\\' {
        out.push('\\');
        out.push('\\');
    } else if (c as u32) < 32 {
        let v = c as u32;
        out.push('\\');
        out.push('u');
        out.push('0');
        out.push('0');
        out.push(hex_char_exec(v / 16));
        out.push(hex_char_exec(v % 16));
    } else {
        out.push(c);
    }
    proof {
        assert(final(out)@ =~= old(out)@ + esc_char(c));
    }
}

/// Append the wire form of a string's characters.
pub fn push_escaped(out: &mut Vec<char>, s: &str)
    ensures
        final(out)@ == old(out)@ + escape_text(s@),
{
    let n = s.unicode_len();
    let mut k: usize = 0;
    while k < n
        invariant
            k <= n == s@.len(),
            out@ == old(out)@ + escape_text(s@.subrange(0, k as int)),
        decreases n - k,
    {
        let c = s.get_char(k);
        push_esc_char(out, c);
        proof {
            let p = s@.subrange(0, k as int);
            let q = s@.subrange(0, k + 1 as int);
            assert(q.drop_last() =~= p && q.last() == c);
            assert(out@ =~= old(out)@ + escape_text(q));
        }
        k = k + 1;
    }
    proof {
        assert(s@.subrange(0, s@.len() as int) =~= s@);
    }
}

/// The wire form can also be read off the first character: escaping is a
/// character-by-character affair.
proof fn lemma_escape_text_left(s: Seq<char>)
    requires
        s.len() > 0,
    ensures
        escape_text(s) == esc_char(s[0]) + escape_text(s.drop_first()),
    decreases s.len(),
{
    if s.len() == 1 {
        assert(s.drop_last() =~= Seq::<char>::empty());
        assert(s.drop_first() =~= Seq::<char>::empty());
        assert(escape_text(Seq::<char>::empty()) == Seq::<char>::empty());
        assert(escape_text(s) =~= esc_char(s[0]) + escape_text(s.drop_first()));
    } else {
        let d = s.drop_last();
        lemma_escape_text_left(d);
        assert(d[0] == s[0]);
        let sd = s.drop_first();
        assert(sd.drop_last() =~= d.drop_first() && sd.last() == s.last());
        assert(escape_text(sd) == escape_text(d.drop_first()) + esc_char(s.last()));
        assert(escape_text(s) == (esc_char(s[0]) + escape_text(d.drop_first())) + esc_char(
            s.last(),
        ));
        assert((esc_char(s[0]) + escape_text(d.drop_first())) + esc_char(s.last()) =~= esc_char(
            s[0],
        ) + (escape_text(d.drop_first()) + esc_char(s.last())));
    }
}

/// What the hexadecimal printer writes, the hexadecimal reader returns.
proof fn lemma_hex_char_val(d: int)
    requires
        0 <= d < 16,
    ensures
        hex_val(hex_char(d)) == d,
{
}

/// Law: the wire form the escaper writes decodes back to exactly the
/// characters that were escaped — outbound strings survive the trip
/// through the codec's string reader.
pub proof fn lemma_escape_unescape(s: Seq<char>)
    ensures
        unescape(escape_text(s), 0) == Some(s),
    decreases s.len(),
{
    if s.len() == 0 {
        assert(escape_text(s) =~= Seq::<char>::empty());
        assert(unescape(escape_text(s), 0) == Some(Seq::<char>::empty()));
        assert(s =~= Seq::<char>::empty());
    } else {
        let c = s[0];
        let rest = s.drop_first();
        lemma_escape_text_left(s);
        let e0 = esc_char(c);
        let tb = escape_text(rest);
        let t = escape_text(s);
        assert(t == e0 + tb);
        lemma_escape_unescape(rest);
        lemma_unescape_shift(e0, tb, 0);
        assert(unescape(t, e0.len() as int) == Some(rest));
        if c == '"' {
            assert(t[0] == '\\' && t[1] == '"' && t.len() >= 2);
            assert(esc_code(t[1]) == Some('"'));
            assert(unescape(t, 0) == Some(seq!['"'] + rest));
        } else if c == '\\' {
            assert(t[0] == '\\' && t[1] == '\\' && t.len() >= 2);
            assert(esc_code(t[1]) == Some('\\'));
            assert(unescape(t, 0) == Some(seq!['\\'] + rest));
        } else if (c as u32) < 32 {
            let v = c as u32 as int;
            assert(t[0] == '\\' && t[1] == 'u' && t[2] == '0' && t[3] == '0' && t[4] == hex_char(
                v / 16,
            ) && t[5] == hex_char(v % 16) && t.len() >= 6);
            vstd::arithmetic::div_mod::lemma_fundamental_div_mod(v, 16);
            lemma_hex_char_val(v / 16);
            lemma_hex_char_val(v % 16);
            assert(hex_val('0') == 0);
            assert(hex4_ok(t, 2));
            assert(hex4(t, 2) == v);
            assert(!(0xD800 <= v < 0xDC00) && !(0xDC00 <= v < 0xE000));
            vstd::utf8::char_u32_cast(c, c as u32);
            assert(char_of(v) == c);
            assert(unescape(t, 0) == Some(seq![c] + rest));
        } else {
            assert(t[0] == c && c != '\\');
            assert(unescape(t, 0) == Some(seq![c] + rest));
        }
        assert(seq![c] + rest =~= s);
    }
}

} // verus!
