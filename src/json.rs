//! The JSON codec that the transport relies on for string literals and for
//! empty parameter lists.

use vstd::prelude::*;

use crate::http::digit_char;

verus! {

/// Lower-case hexadecimal digit for a value below sixteen.
pub open spec fn hex_digit(d: nat) -> char {
    if d < 10 {
        digit_char(d)
    } else if d == 10 {
        'a'
    } else if d == 11 {
        'b'
    } else if d == 12 {
        'c'
    } else if d == 13 {
        'd'
    } else if d == 14 {
        'e'
    } else {
        'f'
    }
}

/// How one character is written inside a JSON string literal: quote and
/// backslash are escaped, the five common control characters get their
/// short escapes, other control characters a `\u00xx` escape, and every
/// other character stands for itself.
pub open spec fn escape_char(c: char) -> Seq<char> {
    if c == '"' {
        seq!['\\', '"']
    } else if c == '\\' {
        seq!['\\', '\\']
    } else if c == '\u{8}' {
        seq!['\\', 'b']
    } else if c == '\t' {
        seq!['\\', 't']
    } else if c == '\n' {
        seq!['\\', 'n']
    } else if c == '\u{c}' {
        seq!['\\', 'f']
    } else if c == '\r' {
        seq!['\\', 'r']
    } else if (c as u32) < 0x20 {
        seq![
            '\\',
            'u',
            '0',
            '0',
            hex_digit((c as u32 / 16) as nat),
            hex_digit((c as u32 % 16) as nat),
        ]
    } else {
        seq![c]
    }
}

/// The characters of a text, each escaped for a JSON string literal.
pub open spec fn escaped(s: Seq<char>) -> Seq<char>
    decreases s.len(),
{
    if s.len() == 0 {
        seq![]
    } else {
        escape_char(s[0]) + escaped(s.drop_first())
    }
}

/// The JSON string literal that encodes a text.
pub open spec fn json_quoted(s: Seq<char>) -> Seq<char> {
    seq!['"'] + escaped(s) + seq!['"']
}

/// A byte that JSON counts as whitespace: space, tab, line feed or carriage
/// return.
pub open spec fn is_json_space(b: u8) -> bool {
    b == 0x20 || b == 0x09 || b == 0x0a || b == 0x0d
}

/// Bytes that are the JSON text `null`, with whitespace at most around it.
pub open spec fn is_padded_null(b: Seq<u8>) -> bool {
    exists|i: int|
        0 <= i && i + 4 <= b.len() && #[trigger] b.subrange(i, i + 4) == seq![
            0x6eu8,
            0x75u8,
            0x6cu8,
            0x6cu8,
        ] && (forall|j: int| 0 <= j < i ==> is_json_space(#[trigger] b[j])) && (forall|j: int|
            i + 4 <= j < b.len() ==> is_json_space(#[trigger] b[j]))
}

/// Diagnostic that serde_json gives when bytes are not the JSON encoding of
/// `()`.
pub uninterp spec fn unit_error_of(b: Seq<u8>) -> Option<Seq<char>>;

/// Relies on serde_json::to_string: a `str` is written between quotes with
/// the escapes of [escape_char]. Serialising a `str` into memory cannot
/// fail.
#[verifier::external_body]
pub(crate) fn json_string(s: &str) -> (r: String)
    ensures
        r@ == json_quoted(s@),
{
    serde_json::to_string(s).unwrap_or_default()
}

/// Relies on serde_json::from_slice::<()>: it accepts exactly the bytes of
/// `null` with whitespace at most around it, and otherwise gives its
/// diagnostic.
#[verifier::external_body]
pub(crate) fn parse_unit(b: &[u8]) -> (r: Result<(), String>)
    ensures
        r is Ok <==> is_padded_null(b@),
        match r {
            Ok(_) => unit_error_of(b@) is None,
            Err(m) => unit_error_of(b@) == Some(m@),
        },
{
    match serde_json::from_slice::<()>(b) {
        Ok(()) => Ok(()),
        Err(e) => Err(e.to_string()),
    }
}

} // verus!
