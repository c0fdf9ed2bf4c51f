//! The JSON facts the library relies on, from `serde_json`.

use vstd::prelude::*;

verus! {

/// A parsed JSON value, carried through the library unchanged.
#[verifier::external_type_specification]
#[verifier::external_body]
pub struct ExJsonValue(serde_json::Value);

/// The value of a hexadecimal digit of a JSON `\u` escape (either case).
pub open spec fn hex_value(c: char) -> Option<nat> {
    let u = c as u32;
    if 0x30 <= u <= 0x39 { Some((u - 0x30) as nat) }
    else if 0x61 <= u <= 0x66 { Some((u - 0x61 + 10) as nat) }
    else if 0x41 <= u <= 0x46 { Some((u - 0x41 + 10) as nat) }
    else { None }
}

/// The code unit written by the four hexadecimal digits `t[0..4]`.
pub open spec fn hex4(t: Seq<char>) -> Option<nat> {
    match (hex_value(t[0]), hex_value(t[1]), hex_value(t[2]), hex_value(t[3])) {
        (Some(a), Some(b), Some(c), Some(d)) => Some(a * 4096 + b * 256 + c * 16 + d),
        _ => None,
    }
}

/// The character of a two-character JSON escape `\e`.
pub open spec fn short_unescape(e: char) -> Option<char> {
    if e == '"' { Some('"') }
    else if e == '\\' { Some('\\') }
    else if e == '/' { Some('/') }
    else if e == 'b' { Some('\x08') }
    else if e == 'f' { Some('\x0c') }
    else if e == 'n' { Some('\n') }
    else if e == 'r' { Some('\r') }
    else if e == 't' { Some('\t') }
    else { None }
}

/// `c` in front of the decoded rest, when the rest decodes.
pub open spec fn prefixed(c: char, rest: Option<Seq<char>>) -> Option<Seq<char>> {
    match rest {
        Some(x) => Some(seq![c] + x),
        None => None,
    }
}

/// The characters that the body of a JSON string literal stands for, by the
/// JSON grammar for strings: a backslash starts an escape (a short one, or
/// `\u` with four hex digits, a UTF-16 surrogate pair taking two of them);
/// an unescaped quote or control character is not allowed.
pub open spec fn json_unescape(t: Seq<char>) -> Option<Seq<char>>
    decreases t.len(),
{
    if t.len() == 0 {
        Some(Seq::empty())
    } else if t[0] == '\\' {
        if t.len() < 2 {
            None
        } else if t[1] == 'u' {
            if t.len() < 6 {
                None
            } else {
                match hex4(t.subrange(2, 6)) {
                    Some(hi) => if 0xd800 <= hi < 0xdc00 {
                        if t.len() >= 12 && t[6] == '\\' && t[7] == 'u' {
                            match hex4(t.subrange(8, 12)) {
                                Some(lo) => if 0xdc00 <= lo < 0xe000 {
                                    prefixed(
                                        ((0x10000 + (hi - 0xd800) * 0x400 + (lo - 0xdc00)) as u32) as char,
                                        json_unescape(t.subrange(12, t.len() as int)),
                                    )
                                } else {
                                    None
                                },
                                None => None,
                            }
                        } else {
                            None
                        }
                    } else if 0xdc00 <= hi < 0xe000 {
                        None
                    } else {
                        prefixed((hi as u32) as char, json_unescape(t.subrange(6, t.len() as int)))
                    },
                    None => None,
                }
            }
        } else {
            match short_unescape(t[1]) {
                Some(c) => prefixed(c, json_unescape(t.subrange(2, t.len() as int))),
                None => None,
            }
        }
    } else if t[0] == '"' || (t[0] as u32) < 0x20 {
        None
    } else {
        prefixed(t[0], json_unescape(t.subrange(1, t.len() as int)))
    }
}

/// The characters a JSON string literal stands for: its body between the
/// two quotes, decoded.
pub open spec fn json_string_decode(q: Seq<char>) -> Option<Seq<char>> {
    if q.len() >= 2 && q[0] == '"' && q[q.len() - 1] == '"' {
        json_unescape(q.subrange(1, q.len() - 1))
    } else {
        None
    }
}

proof fn lemma_hex_digit_value(d: nat)
    requires
        d < 16,
    ensures
        hex_value(hex_digit(d)) == Some(d),
{
}

proof fn lemma_escape_char_decodes(c: char, t: Seq<char>)
    ensures
        json_unescape(json_escape_char(c) + t) == prefixed(c, json_unescape(t)),
{
    let u = json_escape_char(c) + t;
    if c == '"' || c == '\\' || c == '\x08' || c == '\t' || c == '\n' || c == '\x0c' || c == '\r' {
        assert(u.subrange(2, u.len() as int) =~= t);
    } else if (c as u32) < 0x20 {
        let code = c as u32;
        lemma_hex_digit_value((code / 16) as nat);
        lemma_hex_digit_value((code % 16) as nat);
        assert(u.subrange(2, 6) =~= seq!['0', '0', hex_digit((code / 16) as nat), hex_digit((code % 16) as nat)]);
        assert(hex4(u.subrange(2, 6)) == Some((code / 16) as nat * 16 + (code % 16) as nat));
        assert((code / 16) * 16 + code % 16 == code);
        assert(u.subrange(6, u.len() as int) =~= t);
        assert((code as u32) as char == c);
    } else {
        assert(u.subrange(1, u.len() as int) =~= t);
    }
}

proof fn lemma_escaped_decodes(s: Seq<char>)
    ensures
        json_unescape(json_escaped(s)) == Some(s),
    decreases s.len(),
{
    if s.len() > 0 {
        lemma_escaped_decodes(s.drop_first());
        lemma_escape_char_decodes(s[0], json_escaped(s.drop_first()));
        assert(seq![s[0]] + s.drop_first() =~= s);
    } else {
        assert(json_escaped(s) =~= Seq::<char>::empty());
    }
}

/// The JSON string literal of any text decodes, by the JSON grammar for
/// strings, back to exactly that text.
pub proof fn lemma_quoted_decodes(s: Seq<char>)
    ensures
        json_string_decode(json_quoted(s)) == Some(s),
{
    let q = json_quoted(s);
    assert(q.subrange(1, q.len() - 1) =~= json_escaped(s));
    lemma_escaped_decodes(s);
}

/// Whether `serde_json` accepts `text` as one complete JSON document
/// (surrounding whitespace allowed) when parsing it into a
/// `serde_json::Value`.
pub uninterp spec fn json_value_accepts(text: Seq<char>) -> bool;

/// The lower-case hexadecimal digit for `d` (meaningful for `d < 16`).
pub open spec fn hex_digit(d: nat) -> char {
    if d < 10 { crate::text::digit_char(d) }
    else if d == 10 { 'a' }
    else if d == 11 { 'b' }
    else if d == 12 { 'c' }
    else if d == 13 { 'd' }
    else if d == 14 { 'e' }
    else { 'f' }
}

/// How one character is written inside a JSON string literal: the quote,
/// the backslash and the control characters are escaped (the five with a
/// short form as `\b \t \n \f \r`, the others as `\u00XX` with lower-case
/// hex); every other character is written as itself.
pub open spec fn json_escape_char(c: char) -> Seq<char> {
    if c == '"' { seq!['\\', '"'] }
    else if c == '\\' { seq!['\\', '\\'] }
    else if c == '\x08' { seq!['\\', 'b'] }
    else if c == '\t' { seq!['\\', 't'] }
    else if c == '\n' { seq!['\\', 'n'] }
    else if c == '\x0c' { seq!['\\', 'f'] }
    else if c == '\r' { seq!['\\', 'r'] }
    else if (c as u32) < 0x20 {
        seq!['\\', 'u', '0', '0', hex_digit((c as u32 / 16) as nat), hex_digit((c as u32 % 16) as nat)]
    } else {
        seq![c]
    }
}

/// The escaped body of a JSON string literal for `s`.
pub open spec fn json_escaped(s: Seq<char>) -> Seq<char>
    decreases s.len(),
{
    if s.len() == 0 {
        Seq::empty()
    } else {
        json_escape_char(s[0]) + json_escaped(s.drop_first())
    }
}

/// The JSON string literal for `s`: its escaped body between double quotes.
pub open spec fn json_quoted(s: Seq<char>) -> Seq<char> {
    seq!['"'] + json_escaped(s) + seq!['"']
}

/// The JSON text `serde_json::to_string` writes for the `serde_json::Value`
/// that `serde_json::from_str` parses out of `text` (meaningful when
/// `json_value_accepts(text)`).
pub uninterp spec fn json_reserialized(text: Seq<char>) -> Seq<char>;

/// Parse `text` with `serde_json::from_str::<serde_json::Value>` and, when
/// that succeeds, write the value back out with `serde_json::to_string`.
///
/// Trusted: the contract says that a value comes back exactly when
/// `json_value_accepts(text)`, and that it is `json_reserialized(text)`;
/// both are functions of the text alone. What JSON grammar serde_json
/// accepts and how it lays the value out (key order, number forms) is not
/// stated here. Writing a parsed value back out never fails.
#[verifier::external_body]
pub(crate) fn reserialize_json(text: &str) -> (r: Option<String>)
    ensures
        r is Some <==> json_value_accepts(text@),
        r is Some ==> r->0@ == json_reserialized(text@),
{
    match serde_json::from_str::<serde_json::Value>(text) {
        Ok(value) => Some(value.to_string()),
        Err(_) => None,
    }
}

/// The JSON string literal for `s`, as `serde_json::to_string` writes it for
/// a `str`.
///
/// Trusted: the contract says that the result is `json_quoted(s)`: serde_json
/// escapes exactly `"`, `\` and the bytes below 0x20 (five of them in short
/// form, the rest as `\u00xx` with lower-case hex digits) and copies every
/// other character, and serializing a `str` into a `Vec` never fails.
#[verifier::external_body]
pub(crate) fn json_string_literal(s: &str) -> (r: String)
    ensures
        r@ == json_quoted(s@),
{
    match serde_json::to_string(s) {
        Ok(text) => text,
        Err(_) => String::new(),
    }
}

} // verus!
