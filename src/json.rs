//! Pieces of JSON text: decimal numbers, and strings as serde_json quotes
//! them.

use vstd::prelude::*;

verus! {

/// The text of one hexadecimal digit, lower case.
pub open spec fn digit_text(d: nat) -> Seq<char> {
    if d == 0 {
        "0"@
    } else if d == 1 {
        "1"@
    } else if d == 2 {
        "2"@
    } else if d == 3 {
        "3"@
    } else if d == 4 {
        "4"@
    } else if d == 5 {
        "5"@
    } else if d == 6 {
        "6"@
    } else if d == 7 {
        "7"@
    } else if d == 8 {
        "8"@
    } else if d == 9 {
        "9"@
    } else if d == 10 {
        "a"@
    } else if d == 11 {
        "b"@
    } else if d == 12 {
        "c"@
    } else if d == 13 {
        "d"@
    } else if d == 14 {
        "e"@
    } else {
        "f"@
    }
}

/// The decimal text of a natural number, without leading zeros.
pub open spec fn decimal(n: nat) -> Seq<char>
    decreases n,
{
    if n < 10 {
        digit_text(n)
    } else {
        decimal(n / 10) + digit_text(n % 10)
    }
}

/// How a JSON string writes one character.
pub open spec fn escape_char(c: char) -> Seq<char> {
    if c == '"' {
        "\\\""@
    } else if c == '\\' {
        "\\\\"@
    } else if c == '\n' {
        "\\n"@
    } else if c == '\r' {
        "\\r"@
    } else if c == '\t' {
        "\\t"@
    } else if c == '\u{08}' {
        "\\b"@
    } else if c == '\u{0c}' {
        "\\f"@
    } else if (c as u32) < 0x20 {
        "\\u00"@ + digit_text((c as u32 / 16) as nat) + digit_text((c as u32 % 16) as nat)
    } else {
        seq![c]
    }
}

/// The characters of a JSON string's body.
pub open spec fn escaped(s: Seq<char>) -> Seq<char>
    decreases s.len(),
{
    if s.len() == 0 {
        Seq::empty()
    } else {
        escaped(s.drop_last()) + escape_char(s.last())
    }
}

/// A JSON string literal holding `s`.
pub open spec fn quoted(s: Seq<char>) -> Seq<char> {
    "\""@ + escaped(s) + "\""@
}

fn digit_str(d: u64) -> (r: &'static str)
    requires
        d < 16,
    ensures
        r@ == digit_text(d as nat),
{
    match d {
        0 => "0",
        1 => "1",
        2 => "2",
        3 => "3",
        4 => "4",
        5 => "5",
        6 => "6",
        7 => "7",
        8 => "8",
        9 => "9",
        10 => "a",
        11 => "b",
        12 => "c",
        13 => "d",
        14 => "e",
        15 => "f",
        _ => "f",
    }
}

/// Appends the decimal text of `n`.
pub fn push_decimal(out: &mut String, n: u64)
    ensures
        final(out)@ == old(out)@ + decimal(n as nat),
    decreases n,
{
    if n >= 10 {
        push_decimal(out, n / 10);
    }
    out.append(digit_str(n % 10));
    proof {
        if n >= 10 {
            assert(decimal(n as nat) == decimal((n / 10) as nat) + digit_text((n % 10) as nat));
        }
    }
}

/// Relies on `serde_json::to_string` on a `str`: a JSON string literal in
/// which `"` and `\` are escaped with a backslash, the control characters
/// backspace, form feed, newline, carriage return and tab by `\b`, `\f`,
/// `\n`, `\r`, `\t`, the other control characters below 0x20 as `\u00` and
/// two lower-case hex digits, and every
/// other character is written as it is. Writing a string into memory cannot
/// fail.
#[verifier::external_body]
fn json_string(s: &str) -> (r: String)
    ensures
        r@ == quoted(s@),
{
    match serde_json::to_string(s) {
        Ok(text) => text,
        Err(_) => String::new(),
    }
}

/// Appends `s` as a JSON string literal.
pub fn push_quoted(out: &mut String, s: &str)
    ensures
        final(out)@ == old(out)@ + quoted(s@),
{
    let text = json_string(s);
    out.append(text.as_str());
}

} // verus!
