//! JSON text produced through `serde_json`: string literals (stated exactly, with the
//! laws that a literal closes only at its last character and decodes back to its
//! string) and arrays of opaque JSON values.

use vstd::prelude::*;
use crate::text::digit_char;

verus! {

#[verifier::external_type_specification]
#[verifier::external_body]
pub struct ExJsonValue(serde_json::Value);

#[verifier::external_type_specification]
#[verifier::external_body]
pub struct ExJsonError(serde_json::Error);

/// The lower-case hexadecimal digit for `n < 16`.
pub open spec fn hex_digit(n: int) -> char {
    if n < 10 {
        digit_char(n as nat)
    } else if n == 10 {
        'a'
    } else if n == 11 {
        'b'
    } else if n == 12 {
        'c'
    } else if n == 13 {
        'd'
    } else if n == 14 {
        'e'
    } else {
        'f'
    }
}

/// The value of a lower-case hexadecimal digit.
pub open spec fn hex_value(d: char) -> int {
    if d == '0' { 0 }
    else if d == '1' { 1 }
    else if d == '2' { 2 }
    else if d == '3' { 3 }
    else if d == '4' { 4 }
    else if d == '5' { 5 }
    else if d == '6' { 6 }
    else if d == '7' { 7 }
    else if d == '8' { 8 }
    else if d == '9' { 9 }
    else if d == 'a' { 10 }
    else if d == 'b' { 11 }
    else if d == 'c' { 12 }
    else if d == 'd' { 13 }
    else if d == 'e' { 14 }
    else { 15 }
}

/// The hexadecimal digits are `0`..`9` then `a`..`f` by character code, and the short
/// escapes are those of JSON: `\"`, `\\`, `\b`, `\t`, `\n`, `\f`, `\r`; other control
/// characters become `\u00` and two hex digits of their code.
pub proof fn lemma_escape_codes(n: int, c: char)
    requires
        0 <= n < 16,
    ensures
        hex_digit(n) as int == (if n < 10 { '0' as int + n } else { 'a' as int + (n - 10) }),
        escape_char('"') == seq!['\\', '"'],
        escape_char('\\') == seq!['\\', '\\'],
        escape_char('\u{8}') == seq!['\\', 'b'],
        escape_char('\t') == seq!['\\', 't'],
        escape_char('\n') == seq!['\\', 'n'],
        escape_char('\u{c}') == seq!['\\', 'f'],
        escape_char('\r') == seq!['\\', 'r'],
        (c as int) < 32 && c != '\u{8}' && c != '\t' && c != '\n' && c != '\u{c}' && c != '\r'
            ==> escape_char(c) == seq!['\\', 'u', '0', '0', hex_digit((c as int) / 16), hex_digit((c as int) % 16)],
        (c as int) >= 32 && c != '"' && c != '\\' ==> escape_char(c) == seq![c],
{
}

/// How `serde_json` writes one character inside a string literal: quote and
/// backslash get a backslash, backspace, tab, line feed, form feed and carriage return
/// their short escapes, the other control characters `\u00XX`, everything else itself.
pub open spec fn escape_char(c: char) -> Seq<char> {
    if c == '"' {
        seq!['\\', '"']
    } else if c == '\\' {
        seq!['\\', '\\']
    } else if c == '\u{8}' {
        seq!['\\', 'b']
    } else if c == '\t' {
        seq!['\\', 't']
    } else if c == '\n' {
        seq!['\\', 'n']
    } else if c == '\u{c}' {
        seq!['\\', 'f']
    } else if c == '\r' {
        seq!['\\', 'r']
    } else if (c as int) < 32 {
        seq!['\\', 'u', '0', '0', hex_digit((c as int) / 16), hex_digit((c as int) % 16)]
    } else {
        seq![c]
    }
}

/// The escaped characters of `s`, in order.
pub open spec fn escaped(s: Seq<char>) -> Seq<char>
    decreases s.len(),
{
    if s.len() == 0 {
        Seq::empty()
    } else {
        escape_char(s[0]) + escaped(s.drop_first())
    }
}

/// The JSON string literal that `serde_json` writes for `s`.
pub open spec fn json_string_literal(s: Seq<char>) -> Seq<char> {
    seq!['"'] + escaped(s) + seq!['"']
}

/// The position of the quote that closes a string literal whose text starts at `i` in
/// `t` (a backslash always takes the next character with it), or -1 if none does.
pub open spec fn literal_close(t: Seq<char>, i: int) -> int
    decreases t.len() - i,
{
    if i < 0 || i >= t.len() {
        -1
    } else if t[i] == '\\' {
        if i + 2 > t.len() {
            -1
        } else {
            literal_close(t, i + 2)
        }
    } else if t[i] == '"' {
        i
    } else {
        literal_close(t, i + 1)
    }
}

/// The first character that the escape at the start of `w` stands for, and the length
/// of that escape.
pub open spec fn unescape_first(w: Seq<char>) -> (char, int) {
    if w.len() >= 2 && w[0] == '\\' {
        let x = w[1];
        if x == '"' {
            ('"', 2)
        } else if x == '\\' {
            ('\\', 2)
        } else if x == 'b' {
            ('\u{8}', 2)
        } else if x == 't' {
            ('\t', 2)
        } else if x == 'n' {
            ('\n', 2)
        } else if x == 'f' {
            ('\u{c}', 2)
        } else if x == 'r' {
            ('\r', 2)
        } else if x == 'u' && w.len() >= 6 {
            ((16 * hex_value(w[4]) + hex_value(w[5])) as char, 6)
        } else {
            (w[0], 1)
        }
    } else {
        (w[0], 1)
    }
}

/// The characters that the body of a JSON string literal stands for.
pub open spec fn unescaped(w: Seq<char>) -> Seq<char>
    decreases w.len(),
{
    if w.len() == 0 {
        Seq::empty()
    } else {
        let (c, n) = unescape_first(w);
        if 1 <= n <= w.len() {
            seq![c] + unescaped(w.skip(n))
        } else {
            Seq::empty()
        }
    }
}

proof fn lemma_hex_round_trip(n: int)
    requires
        0 <= n < 16,
    ensures
        hex_value(hex_digit(n)) == n,
        hex_digit(n) != '"',
        hex_digit(n) != '\\',
        hex_digit(n) as int >= 32,
{
}

/// The escape of `c` decodes back to `c`, whatever follows it.
proof fn lemma_unescape_first(c: char, rest: Seq<char>)
    ensures
        unescape_first(escape_char(c) + rest) == (c, escape_char(c).len() as int),
        1 <= escape_char(c).len(),
        forall|k: int| 0 <= k < escape_char(c).len() ==> escape_char(c)[k] as int >= 32,
{
    let e = escape_char(c);
    let w = e + rest;
    if (c as int) < 32 && c != '\u{8}' && c != '\t' && c != '\n' && c != '\u{c}' && c != '\r' {
        let v = c as int;
        lemma_hex_round_trip(v / 16);
        lemma_hex_round_trip(v % 16);
        assert(w[4] == hex_digit(v / 16));
        assert(w[5] == hex_digit(v % 16));
        assert(16 * (v / 16) + v % 16 == v);
        assert((v as char) == c);
    } else if c != '"' && c != '\\' && (c as int) >= 32 {
        assert(w[0] == c);
    }
}

/// Escaping a string and decoding the result gives the string back.
pub proof fn lemma_unescaped_escaped(s: Seq<char>)
    ensures
        unescaped(escaped(s)) == s,
    decreases s.len(),
{
    if s.len() > 0 {
        let e = escape_char(s[0]);
        let rest = escaped(s.drop_first());
        lemma_unescape_first(s[0], rest);
        assert((e + rest).skip(e.len() as int) == rest);
        lemma_unescaped_escaped(s.drop_first());
        assert(seq![s[0]] + s.drop_first() == s);
    }
}

/// Scanning escaped text followed by a quote stops exactly at that quote.
proof fn lemma_close_after_escaped(p: Seq<char>, s: Seq<char>)
    ensures
        literal_close(p + escaped(s) + seq!['"'], p.len() as int) == p.len() + escaped(s).len(),
    decreases s.len(),
{
    let t = p + escaped(s) + seq!['"'];
    let n = p.len() as int;
    if s.len() == 0 {
        assert(t[n] == '"');
    } else {
        let c = s[0];
        let e = escape_char(c);
        let rest = escaped(s.drop_first());
        lemma_unescape_first(c, rest);
        lemma_close_after_escaped(p + e, s.drop_first());
        assert(t == (p + e) + rest + seq!['"']);
        let m = n + e.len();
        if e.len() == 1 {
            assert(t[n] == c);
        } else if e.len() == 2 {
            assert(t[n] == '\\');
        } else {
            let v = c as int;
            lemma_hex_round_trip(v / 16);
            lemma_hex_round_trip(v % 16);
            assert(t[n] == '\\');
            assert(t[n + 2] == '0');
            assert(t[n + 3] == '0');
            assert(t[n + 4] == hex_digit(v / 16));
            assert(t[n + 5] == hex_digit(v % 16));
            assert(literal_close(t, n + 5) == literal_close(t, m));
            assert(literal_close(t, n + 4) == literal_close(t, m));
            assert(literal_close(t, n + 3) == literal_close(t, m));
            assert(literal_close(t, n + 2) == literal_close(t, m));
        }
    }
}

proof fn lemma_escaped_printable(s: Seq<char>)
    ensures
        forall|k: int| 0 <= k < escaped(s).len() ==> #[trigger] escaped(s)[k] as int >= 32,
    decreases s.len(),
{
    if s.len() > 0 {
        lemma_unescape_first(s[0], escaped(s.drop_first()));
        lemma_escaped_printable(s.drop_first());
        let e = escape_char(s[0]);
        let rest = escaped(s.drop_first());
        assert forall|k: int| 0 <= k < escaped(s).len() implies #[trigger] escaped(s)[k] as int >= 32 by {
            if k < e.len() {
                assert(escaped(s)[k] == e[k]);
            } else {
                assert(escaped(s)[k] == rest[k - e.len()]);
            }
        }
    }
}

/// The JSON string literal of any string is closed only by its last character (no
/// text inside can end it early), holds no control character (so no line break), and
/// decodes back to the string; so two strings with the same literal are equal.
pub proof fn lemma_json_string_literal_sealed(s: Seq<char>)
    ensures
        ({
            let t = json_string_literal(s);
            &&& t.len() >= 2
            &&& t[0] == '"'
            &&& literal_close(t, 1) == t.len() - 1
            &&& forall|k: int| 0 <= k < t.len() ==> #[trigger] t[k] as int >= 32
            &&& unescaped(t.subrange(1, t.len() - 1)) == s
        }),
{
    let t = json_string_literal(s);
    lemma_close_after_escaped(seq!['"'], s);
    lemma_escaped_printable(s);
    lemma_unescaped_escaped(s);
    assert(t.subrange(1, t.len() - 1) == escaped(s));
    assert forall|k: int| 0 <= k < t.len() implies #[trigger] t[k] as int >= 32 by {
        if 0 < k < t.len() - 1 {
            assert(t[k] == escaped(s)[k - 1]);
        }
    }
}

/// Two strings with the same JSON string literal are the same string.
pub proof fn lemma_json_string_literal_injective(s1: Seq<char>, s2: Seq<char>)
    requires
        json_string_literal(s1) == json_string_literal(s2),
    ensures
        s1 == s2,
{
    lemma_json_string_literal_sealed(s1);
    lemma_json_string_literal_sealed(s2);
}

/// `serde_json::to_string` on a string slice; it writes into a `Vec`, so it cannot fail.
#[verifier::external_body]
pub(crate) fn string_to_json(s: &str) -> (r: Result<String, serde_json::Error>)
    ensures
        r is Ok,
        r->Ok_0@ == json_string_literal(s@),
{
    serde_json::to_string(s)
}

/// The JSON array text that `serde_json` writes for a sequence of JSON values.
pub uninterp spec fn json_array_text(values: Seq<serde_json::Value>) -> Seq<char>;

/// `serde_json::to_string` on a slice of JSON values; serialising a `Value` into a
/// `Vec` cannot fail.
#[verifier::external_body]
pub(crate) fn values_to_json(values: &[serde_json::Value]) -> (r: Result<String, serde_json::Error>)
    ensures
        r is Ok,
        r->Ok_0@ == json_array_text(values@),
{
    serde_json::to_string(values)
}

/// Whether a JSON value is `null`.
pub uninterp spec fn json_is_null(value: serde_json::Value) -> bool;

/// `serde_json::Value::is_null`.
#[verifier::external_body]
pub(crate) fn value_is_null(value: &serde_json::Value) -> (r: bool)
    ensures
        r == json_is_null(*value),
{
    value.is_null()
}

} // verus!
