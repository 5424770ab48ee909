//! JSON string literals, written by serde_json.
use vstd::prelude::*;

verus! {

/// The lower-case hexadecimal digit of `d`, for `0 <= d < 16`.
pub open spec fn hex_digit(d: int) -> char {
    if d < 10 {
        (d + 48) as char
    } else {
        (d + 87) as char
    }
}

/// How one character stands inside a JSON string literal.
pub open spec fn json_escaped_char(c: char) -> Seq<char> {
    if c == '"' {
        seq!['\\', '"']
    } else if c == '\\' {
        seq!['\\', '\\']
    } else if c == '\u{8}' {
        seq!['\\', 'b']
    } else if c == '\t' {
        seq!['\\', 't']
    } else if c == '\n' {
        seq!['\\', 'n']
    } else if c == '\u{c}' {
        seq!['\\', 'f']
    } else if c == '\r' {
        seq!['\\', 'r']
    } else if (c as int) < 0x20 {
        seq!['\\', 'u', '0', '0', hex_digit((c as int) / 16), hex_digit((c as int) % 16)]
    } else {
        seq![c]
    }
}

/// The characters of `s`, each escaped as inside a JSON string literal.
pub open spec fn json_escaped(s: Seq<char>) -> Seq<char>
    decreases s.len(),
{
    if s.len() == 0 {
        Seq::empty()
    } else {
        json_escaped_char(s[0]) + json_escaped(s.drop_first())
    }
}

/// The compact JSON text of the string `s`: a quoted, escaped literal.
pub open spec fn json_string_literal(s: Seq<char>) -> Seq<char> {
    seq!['"'] + json_escaped(s) + seq!['"']
}

/// The value of the hexadecimal digit `ch` (either case), or -1 when it is none.
pub open spec fn hex_value(ch: char) -> int {
    if '0' <= ch && ch <= '9' {
        ch as int - 48
    } else if 'a' <= ch && ch <= 'f' {
        ch as int - 87
    } else if 'A' <= ch && ch <= 'F' {
        ch as int - 55
    } else {
        -1
    }
}

/// The character that the escape sequence at the start of `t` (which begins with a
/// backslash) stands for, and the length of the sequence; `None` when it is not a valid
/// escape. A `\u` escape must name a character outside the surrogate range.
pub open spec fn json_escape_value(t: Seq<char>) -> Option<(char, int)> {
    if t.len() < 2 {
        None
    } else if t[1] == '"' {
        Some(('"', 2))
    } else if t[1] == '\\' {
        Some(('\\', 2))
    } else if t[1] == '/' {
        Some(('/', 2))
    } else if t[1] == 'b' {
        Some(('\u{8}', 2))
    } else if t[1] == 'f' {
        Some(('\u{c}', 2))
    } else if t[1] == 'n' {
        Some(('\n', 2))
    } else if t[1] == 'r' {
        Some(('\r', 2))
    } else if t[1] == 't' {
        Some(('\t', 2))
    } else if t[1] == 'u' && t.len() >= 6 && hex_value(t[2]) >= 0 && hex_value(t[3]) >= 0
        && hex_value(t[4]) >= 0 && hex_value(t[5]) >= 0 {
        let v = hex_value(t[2]) * 4096 + hex_value(t[3]) * 256 + hex_value(t[4]) * 16
            + hex_value(t[5]);
        if 0xd800 <= v && v <= 0xdfff {
            None
        } else {
            Some((v as char, 6))
        }
    } else {
        None
    }
}

/// Reads the body of a JSON string literal from the start of `t` up to its closing quote:
/// the decoded characters and what follows the closing quote, or `None` when `t` holds no
/// complete, well-formed body (a raw control character or an unknown escape).
pub open spec fn json_unescape(t: Seq<char>) -> Option<(Seq<char>, Seq<char>)>
    decreases t.len(),
{
    if t.len() == 0 {
        None
    } else if t[0] == '"' {
        Some((Seq::empty(), t.drop_first()))
    } else if t[0] == '\\' {
        match json_escape_value(t) {
            Some((c, k)) => if 2 <= k <= t.len() {
                match json_unescape(t.subrange(k, t.len() as int)) {
                    Some((d, r)) => Some((seq![c] + d, r)),
                    None => None,
                }
            } else {
                None
            },
            None => None,
        }
    } else if (t[0] as int) < 0x20 {
        None
    } else {
        match json_unescape(t.drop_first()) {
            Some((d, r)) => Some((seq![t[0]] + d, r)),
            None => None,
        }
    }
}

/// Reads a JSON string literal from the start of `t`: its value and what follows it.
pub open spec fn json_read_string(t: Seq<char>) -> Option<(Seq<char>, Seq<char>)> {
    if t.len() > 0 && t[0] == '"' {
        json_unescape(t.drop_first())
    } else {
        None
    }
}

/// Each hexadecimal digit that the escapes use reads back as its value.
proof fn hex_digit_round_trip(d: int)
    requires
        0 <= d < 16,
    ensures
        hex_value(hex_digit(d)) == d,
{
    if d < 10 {
        assert(hex_digit(d) as int == d + 48);
    } else {
        assert(hex_digit(d) as int == d + 87);
    }
}

/// The escape of a control character without a short form reads back as that character.
proof fn unicode_escape_round_trip(c: char, tail: Seq<char>)
    requires
        (c as int) < 0x20,
    ensures
        json_escape_value(seq!['\\', 'u', '0', '0', hex_digit((c as int) / 16), hex_digit(
            (c as int) % 16,
        )] + tail) == Some((c, 6int)),
{
    let v = c as int;
    let t = seq!['\\', 'u', '0', '0', hex_digit(v / 16), hex_digit(v % 16)] + tail;
    hex_digit_round_trip(v / 16);
    hex_digit_round_trip(v % 16);
    assert(hex_value('0') == 0);
    assert(t[1] == 'u' && t[2] == '0' && t[3] == '0');
    assert(t[4] == hex_digit(v / 16) && t[5] == hex_digit(v % 16));
    let w = hex_value(t[2]) * 4096 + hex_value(t[3]) * 256 + hex_value(t[4]) * 16 + hex_value(t[5]);
    assert(w == v);
    assert(((c as int) as char) == c);
}

/// Reading the escape of one character followed by `tail` gives the character followed by
/// what reading `tail` gives.
proof fn json_unescape_step(c: char, tail: Seq<char>)
    ensures
        json_unescape(json_escaped_char(c) + tail) == (match json_unescape(tail) {
            Some((d, r)) => Some((seq![c] + d, r)),
            None => None,
        }),
{
    let e = json_escaped_char(c);
    let t = e + tail;
    assert(t.subrange(e.len() as int, t.len() as int) =~= tail);
    if e.len() == 1 {
        assert(t[0] == c);
        assert(t.drop_first() =~= tail);
    } else if e.len() == 6 {
        unicode_escape_round_trip(c, tail);
    } else {
        assert(t[0] == '\\' && t[1] == e[1]);
    }
}

/// Reading the escaped characters of `s` followed by a closing quote gives `s` back, and
/// leaves exactly what came after the quote.
pub proof fn json_unescape_inverts_escape(s: Seq<char>, rest: Seq<char>)
    ensures
        json_unescape(json_escaped(s) + seq!['"'] + rest) == Some((s, rest)),
    decreases s.len(),
{
    let t = json_escaped(s) + seq!['"'] + rest;
    if s.len() == 0 {
        assert(json_escaped(s) =~= Seq::<char>::empty());
        assert(t =~= seq!['"'] + rest);
        assert(t.drop_first() =~= rest);
    } else {
        let tail = json_escaped(s.drop_first()) + seq!['"'] + rest;
        json_unescape_inverts_escape(s.drop_first(), rest);
        json_unescape_step(s[0], tail);
        assert(t =~= json_escaped_char(s[0]) + tail);
        assert(seq![s[0]] + s.drop_first() =~= s);
    }
}

/// Reading the JSON text of `s` followed by anything gives `s` back and leaves what follows.
pub proof fn json_string_round_trip(s: Seq<char>, rest: Seq<char>)
    ensures
        json_read_string(json_string_literal(s) + rest) == Some((s, rest)),
{
    json_unescape_inverts_escape(s, rest);
    let t = json_string_literal(s) + rest;
    assert(t.drop_first() =~= json_escaped(s) + seq!['"'] + rest);
}

/// The compact JSON text of the string `s`, as `serde_json` writes a `Value::String`.
///
/// Calls `<serde_json::Value as Display>::fmt` (through `to_string`). The contract claims that
/// the text is `s` between double quotes, with `"`, `\` and the control characters below
/// U+0020 escaped as serde_json's `format_escaped_str` does (`\b`, `\t`, `\n`, `\f`, `\r`,
/// otherwise `\u00XX` in lower-case hex), and every other character kept as it is.
#[verifier::external_body]
pub(crate) fn json_string(s: &str) -> (r: String)
    ensures
        r@ == json_string_literal(s@),
{
    serde_json::Value::String(s.to_string()).to_string()
}

} // verus!
