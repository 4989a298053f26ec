//! Escaping of text for the two places the protocol embeds it: JSON string
//! literals inside outbound frames, and the percent-encoded query parameter
//! that carries the authentication payload.

use vstd::prelude::*;

verus! {

/// The lowercase hexadecimal digit for a value below 16.
pub open spec fn hex_digit_lower(n: nat) -> char {
    if n == 0 {
        '0'
    } else if n == 1 {
        '1'
    } else if n == 2 {
        '2'
    } else if n == 3 {
        '3'
    } else if n == 4 {
        '4'
    } else if n == 5 {
        '5'
    } else if n == 6 {
        '6'
    } else if n == 7 {
        '7'
    } else if n == 8 {
        '8'
    } else if n == 9 {
        '9'
    } else if n == 10 {
        'a'
    } else if n == 11 {
        'b'
    } else if n == 12 {
        'c'
    } else if n == 13 {
        'd'
    } else if n == 14 {
        'e'
    } else {
        'f'
    }
}

/// The uppercase hexadecimal digit for a value below 16.
pub open spec fn hex_digit_upper(n: nat) -> char {
    if n == 10 {
        'A'
    } else if n == 11 {
        'B'
    } else if n == 12 {
        'C'
    } else if n == 13 {
        'D'
    } else if n == 14 {
        'E'
    } else if n == 15 {
        'F'
    } else {
        hex_digit_lower(n)
    }
}

/// The characters that stand for `c` inside a JSON string literal: the two
/// quote characters and the backslash get a short escape, the control
/// characters get either their short escape or a `\u00..` escape with
/// lowercase hex digits, and every other character stands for itself.
pub open spec fn json_escape_char(c: char) -> Seq<char> {
    if c == '"' {
        seq!['\\', '"']
    } else if c == '\\' {
        seq!['\\', '\\']
    } else if c == '\u{8}' {
        seq!['\\', 'b']
    } else if c == '\t' {
        seq!['\\', 't']
    } else if c == '\n' {
        seq!['\\', 'n']
    } else if c == '\u{c}' {
        seq!['\\', 'f']
    } else if c == '\r' {
        seq!['\\', 'r']
    } else if (c as u32) < 0x20 {
        seq!['\\', 'u', '0', '0', hex_digit_lower((c as u32 / 16) as nat), hex_digit_lower(
            (c as u32 % 16) as nat,
        )]
    } else {
        seq![c]
    }
}

/// The body of the JSON string literal that encodes `s`: each character
/// escaped in turn.
pub open spec fn json_escaped(s: Seq<char>) -> Seq<char>
    decreases s.len(),
{
    if s.len() == 0 {
        Seq::empty()
    } else {
        json_escape_char(s[0]) + json_escaped(s.skip(1))
    }
}

/// The JSON string literal that encodes `s`: the escaped body between two
/// double quotes.
pub open spec fn json_string(s: Seq<char>) -> Seq<char> {
    seq!['"'] + json_escaped(s) + seq!['"']
}

/// Relies on serde_json::to_string for `&str`: it writes the text between
/// double quotes, escaping `"`, `\` and the control characters exactly as
/// `json_escape_char` states (short escapes for the named ones, `\u00..`
/// with lowercase hex digits for the rest), and passes every other
/// character through; serializing a string never fails.
#[verifier::external_body]
pub(crate) fn json_quote(s: &str) -> (r: String)
    ensures
        r@ == json_string(s@),
{
    match serde_json::to_string(s) {
        Ok(q) => q,
        Err(_) => String::new(),
    }
}

/// Whether a percent-encoder passes `c` through unchanged: ASCII
/// alphanumerics and `-`, `.`, `_`, `~`.
pub open spec fn is_url_safe(c: char) -> bool {
    ('0' as u32 <= c as u32 && c as u32 <= '9' as u32) || ('A' as u32 <= c as u32 && c as u32
        <= 'Z' as u32) || ('a' as u32 <= c as u32 && c as u32 <= 'z' as u32) || c == '-' || c == '.'
        || c == '_' || c == '~'
}

/// The characters that stand for `c` in a percent-encoded string: safe
/// characters stand for themselves, every other one becomes `%` followed by
/// two uppercase hex digits of its code.
pub open spec fn percent_escape_char(c: char) -> Seq<char> {
    if is_url_safe(c) {
        seq![c]
    } else {
        seq!['%', hex_digit_upper((c as u32 / 16) as nat), hex_digit_upper((c as u32 % 16) as nat)]
    }
}

/// The percent-encoding of `s`: each character escaped in turn.
pub open spec fn percent_encoded(s: Seq<char>) -> Seq<char>
    decreases s.len(),
{
    if s.len() == 0 {
        Seq::empty()
    } else {
        percent_escape_char(s[0]) + percent_encoded(s.skip(1))
    }
}

/// Relies on urlencoding::encode: it percent-encodes every byte except the
/// ASCII alphanumerics and `-`, `.`, `_`, `~`, writing `%` and two uppercase
/// hex digits for each escaped byte. On ASCII input every byte is one
/// character, so the result is `percent_encoded` of the characters.
#[verifier::external_body]
pub(crate) fn percent_encode(s: &str) -> (r: String)
    requires
        s.is_ascii(),
    ensures
        r@ == percent_encoded(s@),
{
    urlencoding::encode(s).into_owned()
}

} // verus!
