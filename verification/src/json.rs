//! Quoting a text as a JSON string literal with `serde_json`; such a literal
//! is also a double-quoted YAML scalar, which is how the downloader's
//! configuration file and the PowerShell command lines carry paths and
//! credentials.

use vstd::prelude::*;

verus! {

#[verifier::external_type_specification]
#[verifier::external_body]
pub struct ExJsonError(serde_json::Error);

/// The lower-case hexadecimal digit for `d < 16`.
pub open spec fn hex_digit(d: int) -> char {
    seq!['0', '1', '2', '3', '4', '5', '6', '7', '8', '9', 'a', 'b', 'c', 'd', 'e', 'f'][d]
}

/// How one character appears inside a JSON string literal written by
/// `serde_json`: quote and backslash are escaped, the control characters
/// below U+0020 get their short escape or `\u00XX`, everything else stands
/// as it is.
pub open spec fn json_escape_char(c: char) -> Seq<char> {
    if c == '"' {
        seq!['\\', '"']
    } else if c == '\\' {
        seq!['\\', '\\']
    } else if c == '\u{8}' {
        seq!['\\', 'b']
    } else if c == '\t' {
        seq!['\\', 't']
    } else if c == '\n' {
        seq!['\\', 'n']
    } else if c == '\u{c}' {
        seq!['\\', 'f']
    } else if c == '\r' {
        seq!['\\', 'r']
    } else if (c as int) < 0x20 {
        seq!['\\', 'u', '0', '0', hex_digit((c as int) / 16), hex_digit((c as int) % 16)]
    } else {
        seq![c]
    }
}

/// The escaped body of a JSON string literal for `s`.
pub open spec fn json_escape(s: Seq<char>) -> Seq<char>
    decreases s.len(),
{
    if s.len() == 0 {
        Seq::empty()
    } else {
        json_escape(s.drop_last()) + json_escape_char(s.last())
    }
}

/// The JSON string literal for `s`, quotes included.
pub open spec fn json_quoted(s: Seq<char>) -> Seq<char> {
    seq!['"'] + json_escape(s) + seq!['"']
}

/// `serde_json::to_string` on a string slice. Its source writes the escaped
/// literal into a `Vec<u8>`, whose writes cannot fail, so the result is
/// always `Ok` and holds exactly `json_quoted` of the input.
#[verifier::external_body]
fn serde_json_to_string(value: &str) -> (res: Result<String, serde_json::Error>)
    ensures
        res is Ok,
        res->Ok_0@ == json_quoted(value@),
{
    serde_json::to_string(value)
}

/// The `Display` text of a `serde_json::Error`; nothing is claimed of it.
#[verifier::external_body]
fn json_error_text(error: &serde_json::Error) -> String {
    error.to_string()
}

/// `value` as a JSON string literal, which is also a valid double-quoted
/// YAML scalar.
pub fn json_scalar(value: &str) -> (res: Result<String, String>)
    ensures
        res is Ok,
        res->Ok_0@ == json_quoted(value@),
{
    match serde_json_to_string(value) {
        Ok(text) => Ok(text),
        Err(error) => Err(json_error_text(&error)),
    }
}

proof fn lemma_escape_char_printable(c: char)
    ensures
        forall|i: int|
            0 <= i < json_escape_char(c).len() ==> (#[trigger] json_escape_char(c)[i]) as int
                >= 0x20,
{
    let e = json_escape_char(c);
    if (c as int) < 0x20 && c != '\u{8}' && c != '\t' && c != '\n' && c != '\u{c}' && c != '\r' {
        let hi = (c as int) / 16;
        let lo = (c as int) % 16;
        assert(0 <= hi < 16 && 0 <= lo < 16);
        assert(hex_digit(hi) as int >= 0x30);
        assert(hex_digit(lo) as int >= 0x30);
    }
}

/// A JSON literal written by `serde_json` holds no control character: no
/// line break, tab or other character below U+0020 can end up in the YAML
/// file or on a PowerShell command line; the value always stays on one line.
pub proof fn json_quoted_is_single_line(s: Seq<char>)
    ensures
        forall|i: int|
            0 <= i < json_quoted(s).len() ==> (#[trigger] json_quoted(s)[i]) as int >= 0x20,
        json_quoted(s).len() >= 2,
        json_quoted(s)[0] == '"',
        json_quoted(s).last() == '"',
    decreases s.len(),
{
    lemma_escape_printable(s);
    let q = json_quoted(s);
    let body = json_escape(s);
    assert forall|i: int| 0 <= i < q.len() implies (#[trigger] q[i]) as int >= 0x20 by {
        if 1 <= i < q.len() - 1 {
            assert(q[i] == body[i - 1]);
        }
    }
}

/// The value of a hexadecimal digit, in either case.
pub open spec fn hex_value(c: char) -> Option<int> {
    if '0' <= c && c <= '9' {
        Some(c as int - '0' as int)
    } else if 'a' <= c && c <= 'f' {
        Some(c as int - 'a' as int + 10)
    } else if 'A' <= c && c <= 'F' {
        Some(c as int - 'A' as int + 10)
    } else {
        None
    }
}

/// The character a one-letter JSON escape `\e` stands for.
pub open spec fn short_escape(e: char) -> Option<char> {
    if e == '"' {
        Some('"')
    } else if e == '\\' {
        Some('\\')
    } else if e == '/' {
        Some('/')
    } else if e == 'b' {
        Some('\u{8}')
    } else if e == 'f' {
        Some('\u{c}')
    } else if e == 'n' {
        Some('\n')
    } else if e == 'r' {
        Some('\r')
    } else if e == 't' {
        Some('\t')
    } else {
        None
    }
}

/// The code point that a `\uXXXX` escape names, from its four hex digits.
pub open spec fn unicode_escape(t: Seq<char>) -> Option<int>
    recommends
        t.len() >= 4,
{
    match (hex_value(t[0]), hex_value(t[1]), hex_value(t[2]), hex_value(t[3])) {
        (Some(a), Some(b), Some(c), Some(d)) => Some(a * 4096 + b * 256 + c * 16 + d),
        _ => None,
    }
}

/// Reads the body of a JSON string literal (what stands between its quotes),
/// following RFC 8259: escapes are resolved, and a bare quote or a bare
/// control character makes the body invalid. A `\uXXXX` escape that names a
/// UTF-16 surrogate half is outside this reader.
pub open spec fn json_unescape(t: Seq<char>) -> Option<Seq<char>>
    decreases t.len(),
{
    if t.len() == 0 {
        Some(Seq::empty())
    } else if t[0] == '\\' {
        if t.len() < 2 {
            None
        } else {
            match short_escape(t[1]) {
                Some(c) => match json_unescape(t.subrange(2, t.len() as int)) {
                    Some(rest) => Some(seq![c] + rest),
                    None => None,
                },
                None => if t[1] == 'u' && t.len() >= 6 {
                    match unicode_escape(t.subrange(2, 6)) {
                        Some(code) => if 0xD800 <= code && code <= 0xDFFF {
                            None
                        } else {
                            match json_unescape(t.subrange(6, t.len() as int)) {
                                Some(rest) => Some(seq![code as char] + rest),
                                None => None,
                            }
                        },
                        None => None,
                    }
                } else {
                    None
                },
            }
        }
    } else if t[0] == '"' || (t[0] as int) < 0x20 {
        None
    } else {
        match json_unescape(t.drop_first()) {
            Some(rest) => Some(seq![t[0]] + rest),
            None => None,
        }
    }
}

/// Reads a JSON string literal: quotes around a valid body.
pub open spec fn json_decode(q: Seq<char>) -> Option<Seq<char>> {
    if q.len() >= 2 && q[0] == '"' && q.last() == '"' {
        json_unescape(q.subrange(1, q.len() - 1))
    } else {
        None
    }
}

proof fn lemma_escape_concat(a: Seq<char>, b: Seq<char>)
    ensures
        json_escape(a + b) == json_escape(a) + json_escape(b),
    decreases b.len(),
{
    if b.len() == 0 {
        assert(a + b =~= a);
        assert(json_escape(a) + json_escape(b) =~= json_escape(a));
    } else {
        lemma_escape_concat(a, b.drop_last());
        assert((a + b).drop_last() =~= a + b.drop_last());
        assert((a + b).last() == b.last());
        assert(json_escape(a) + json_escape(b.drop_last()) + json_escape_char(b.last())
            =~= json_escape(a) + (json_escape(b.drop_last()) + json_escape_char(b.last())));
    }
}

proof fn lemma_escape_front(s: Seq<char>)
    requires
        s.len() > 0,
    ensures
        json_escape(s) == json_escape_char(s[0]) + json_escape(s.drop_first()),
{
    let head = seq![s[0]];
    assert(head + s.drop_first() =~= s);
    lemma_escape_concat(head, s.drop_first());
    assert(head.drop_last() =~= Seq::<char>::empty());
    assert(head.last() == s[0]);
    assert(json_escape(Seq::<char>::empty()) =~= Seq::<char>::empty());
    assert(json_escape(head) == json_escape(head.drop_last()) + json_escape_char(head.last()));
    assert(json_escape(head) =~= json_escape_char(s[0]));
}

proof fn lemma_hex_round_trip(d: int)
    requires
        0 <= d < 16,
    ensures
        hex_value(hex_digit(d)) == Some(d),
{
}

proof fn lemma_unescape_char(c: char, r: Seq<char>)
    ensures
        json_unescape(json_escape_char(c) + r) == match json_unescape(r) {
            Some(rest) => Some(seq![c] + rest),
            None => None::<Seq<char>>,
        },
{
    let t = json_escape_char(c) + r;
    if json_escape_char(c).len() == 2 {
        assert(t.subrange(2, t.len() as int) =~= r);
    } else if json_escape_char(c).len() == 6 {
        let hi = (c as int) / 16;
        let lo = (c as int) % 16;
        lemma_hex_round_trip(hi);
        lemma_hex_round_trip(lo);
        assert(t.subrange(2, 6) =~= seq!['0', '0', hex_digit(hi), hex_digit(lo)]);
        assert(unicode_escape(t.subrange(2, 6)) == Some(c as int));
        assert(t.subrange(6, t.len() as int) =~= r);
        assert(((c as int) as char) == c);
    } else {
        assert(t.drop_first() =~= r);
    }
}

proof fn lemma_unescape_escape(s: Seq<char>)
    ensures
        json_unescape(json_escape(s)) == Some(s),
    decreases s.len(),
{
    if s.len() == 0 {
    } else {
        lemma_escape_front(s);
        lemma_unescape_escape(s.drop_first());
        lemma_unescape_char(s[0], json_escape(s.drop_first()));
        assert(seq![s[0]] + s.drop_first() =~= s);
    }
}

/// Reading a JSON string literal written by `serde_json` gives back the
/// quoted text: the value in the configuration file or on the PowerShell
/// command line is exactly the one given, whatever characters it holds.
pub proof fn json_quoted_reads_back(s: Seq<char>)
    ensures
        json_decode(json_quoted(s)) == Some(s),
{
    let q = json_quoted(s);
    lemma_unescape_escape(s);
    assert(q.subrange(1, q.len() - 1) =~= json_escape(s));
}

proof fn lemma_escape_printable(s: Seq<char>)
    ensures
        forall|i: int|
            0 <= i < json_escape(s).len() ==> (#[trigger] json_escape(s)[i]) as int >= 0x20,
    decreases s.len(),
{
    if s.len() > 0 {
        lemma_escape_printable(s.drop_last());
        lemma_escape_char_printable(s.last());
        let a = json_escape(s.drop_last());
        let b = json_escape_char(s.last());
        assert forall|i: int| 0 <= i < json_escape(s).len() implies (#[trigger] json_escape(
            s,
        )[i]) as int >= 0x20 by {
            if i < a.len() {
                assert(json_escape(s)[i] == a[i]);
            } else {
                assert(json_escape(s)[i] == b[i - a.len()]);
            }
        }
    }
}

} // verus!
