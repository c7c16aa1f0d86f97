use vstd::prelude::*;

verus! {

#[verifier::external_type_specification]
#[verifier::external_body]
pub struct ExJsonValue(serde_json::Value);

#[verifier::external_type_specification]
#[verifier::external_body]
pub struct ExJsonError(serde_json::Error);

pub open spec fn hex_digit(d: int) -> char {
    seq!['0', '1', '2', '3', '4', '5', '6', '7', '8', '9', 'a', 'b', 'c', 'd', 'e', 'f'][d]
}

/// How one character stands inside a JSON string literal: quote and
/// backslash escaped, the usual short escapes, other control characters
/// as `\u00xx`, everything else as it is.
pub open spec fn escaped_char(c: char) -> Seq<char> {
    if c == '"' {
        seq!['\\', '"']
    } else if c == '\\' {
        seq!['\\', '\\']
    } else if c == '\u{8}' {
        seq!['\\', 'b']
    } else if c == '\t' {
        seq!['\\', 't']
    } else if c == '\n' {
        seq!['\\', 'n']
    } else if c == '\u{c}' {
        seq!['\\', 'f']
    } else if c == '\r' {
        seq!['\\', 'r']
    } else if (c as int) < 0x20 {
        seq!['\\', 'u', '0', '0', hex_digit((c as int) / 16), hex_digit((c as int) % 16)]
    } else {
        seq![c]
    }
}

pub open spec fn escaped(s: Seq<char>) -> Seq<char>
    decreases s.len(),
{
    if s.len() == 0 {
        Seq::empty()
    } else {
        escaped(s.drop_last()) + escaped_char(s.last())
    }
}

/// The JSON string literal of a string.
pub open spec fn json_quoted(s: Seq<char>) -> Seq<char> {
    seq!['"'] + escaped(s) + seq!['"']
}

pub open spec fn decimal_digits(n: nat) -> Seq<char>
    decreases n,
{
    if n < 10 {
        seq![hex_digit(n as int)]
    } else {
        decimal_digits(n / 10).push(hex_digit((n % 10) as int))
    }
}

/// The JSON number literal of an integer: its decimal digits, after a
/// minus sign when it is negative.
pub open spec fn decimal(n: int) -> Seq<char> {
    if n < 0 {
        seq!['-'] + decimal_digits((-n) as nat)
    } else {
        decimal_digits(n as nat)
    }
}

/// Relies on `serde_json::to_string` applied to a `str`: it writes into a
/// `Vec`, which cannot fail, the string between quotes with serde_json's
/// escape table applied.
#[verifier::external_body]
fn quote_json(s: &str) -> (r: Result<String, serde_json::Error>)
    ensures
        r is Ok,
        r matches Ok(t) ==> t@ == json_quoted(s@),
{
    serde_json::to_string(s)
}

/// Relies on `serde_json::to_string` applied to an `i64`: it writes into a
/// `Vec`, which cannot fail, the integer in decimal.
#[verifier::external_body]
fn integer_json(n: i64) -> (r: Result<String, serde_json::Error>)
    ensures
        r is Ok,
        r matches Ok(t) ==> t@ == decimal(n as int),
{
    serde_json::to_string(&n)
}

/// The JSON string literal of `s`.
pub fn json_string(s: &str) -> (r: String)
    ensures
        r@ == json_quoted(s@),
{
    quote_json(s).unwrap()
}

/// The JSON number literal of `n`.
pub fn json_integer(n: i64) -> (r: String)
    ensures
        r@ == decimal(n as int),
{
    integer_json(n).unwrap()
}

} // verus!
