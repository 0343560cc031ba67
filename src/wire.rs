use vstd::prelude::*;
use crate::models::{Message, MessageView};
use crate::text::push_char;

verus! {

/// serde_json's error, carried through unread.
#[verifier::external_type_specification]
#[verifier::external_body]
pub struct ExJsonError(serde_json::Error);

/// A lowercase hexadecimal digit.
pub open spec fn hex_char(d: nat) -> char {
    if d < 10 {
        digit_char(d)
    } else if d == 10 { 'a' }
    else if d == 11 { 'b' }
    else if d == 12 { 'c' }
    else if d == 13 { 'd' }
    else if d == 14 { 'e' }
    else { 'f' }
}

/// How one character stands inside a JSON string literal: `"` and `\` are escaped, the
/// control characters below 0x20 are written `\b \t \n \f \r` or `\u00XX`, and every other
/// character stands as it is.
pub open spec fn escaped_char(c: char) -> Seq<char> {
    let u = c as u32;
    if c == '"' {
        seq!['\\', '"']
    } else if c == '\\' {
        seq!['\\', '\\']
    } else if u == 0x08 {
        seq!['\\', 'b']
    } else if u == 0x09 {
        seq!['\\', 't']
    } else if u == 0x0a {
        seq!['\\', 'n']
    } else if u == 0x0c {
        seq!['\\', 'f']
    } else if u == 0x0d {
        seq!['\\', 'r']
    } else if u < 0x20 {
        seq!['\\', 'u', '0', '0', hex_char((u / 16) as nat), hex_char((u % 16) as nat)]
    } else {
        seq![c]
    }
}

/// The characters of a text, each as it stands inside a JSON string literal.
pub open spec fn escaped(s: Seq<char>) -> Seq<char>
    decreases s.len(),
{
    if s.len() == 0 {
        Seq::empty()
    } else {
        escaped(s.drop_last()) + escaped_char(s.last())
    }
}

/// The JSON string literal of a text: the escaped text between double quotes.
pub open spec fn json_string_of(s: Seq<char>) -> Seq<char> {
    seq!['"'] + escaped(s) + seq!['"']
}

/// Relies on `serde_json::to_string` on a `str`: it writes the string literal into a `Vec`,
/// which cannot fail, escaping by serde_json's table as `escaped_char` states.
#[verifier::external_body]
fn json_string(s: &str) -> (r: Result<String, serde_json::Error>)
    ensures
        r is Ok,
        r matches Ok(t) ==> t@ == json_string_of(s@),
{
    serde_json::to_string(s)
}

/// Relies on `String::push_str`: the text is appended at the end.
#[verifier::external_body]
fn push_text(s: &mut String, t: &str)
    ensures
        final(s)@ == old(s)@ + t@,
{
    s.push_str(t);
}

/// The character of a decimal digit.
pub open spec fn digit_char(d: nat) -> char {
    if d == 0 { '0' }
    else if d == 1 { '1' }
    else if d == 2 { '2' }
    else if d == 3 { '3' }
    else if d == 4 { '4' }
    else if d == 5 { '5' }
    else if d == 6 { '6' }
    else if d == 7 { '7' }
    else if d == 8 { '8' }
    else { '9' }
}

/// The decimal digits of a natural number, most significant first, without leading zeros.
pub open spec fn decimal_nat(n: nat) -> Seq<char>
    decreases n,
{
    if n < 10 {
        seq![digit_char(n)]
    } else {
        decimal_nat(n / 10).push(digit_char(n % 10))
    }
}

/// The decimal notation of an integer, with a leading minus sign when it is negative.
pub open spec fn decimal(n: int) -> Seq<char> {
    if n < 0 {
        seq!['-'] + decimal_nat((-n) as nat)
    } else {
        decimal_nat(n as nat)
    }
}

/// The wire record of a message: a JSON object with its fields in a fixed order, given the
/// JSON string literals of its name and body.
pub open spec fn wire_record(m: MessageView, name: Seq<char>, body: Seq<char>) -> Seq<char> {
    "{\"id\":"@ + decimal(m.id as int) + ",\"name\":"@ + name + ",\"body\":"@ + body
        + ",\"published\":"@ + (if m.published { "true"@ } else { "false"@ }) + "}"@
}

fn digit(d: u32) -> (c: char)
    requires
        d < 10,
    ensures
        c == digit_char(d as nat),
{
    if d == 0 { '0' }
    else if d == 1 { '1' }
    else if d == 2 { '2' }
    else if d == 3 { '3' }
    else if d == 4 { '4' }
    else if d == 5 { '5' }
    else if d == 6 { '6' }
    else if d == 7 { '7' }
    else if d == 8 { '8' }
    else { '9' }
}

fn push_decimal_nat(out: &mut String, n: u32)
    ensures
        final(out)@ == old(out)@ + decimal_nat(n as nat),
    decreases n,
{
    if n >= 10 {
        push_decimal_nat(out, n / 10);
    }
    push_char(out, digit(n % 10));
    proof {
        assert(old(out)@ + decimal_nat(n as nat) =~= if n >= 10 {
            old(out)@ + decimal_nat((n / 10) as nat) + seq![digit_char((n % 10) as nat)]
        } else {
            old(out)@ + seq![digit_char((n % 10) as nat)]
        });
    }
}

/// Appends the decimal notation of an integer.
pub fn push_decimal(out: &mut String, n: i32)
    ensures
        final(out)@ == old(out)@ + decimal(n as int),
{
    if n < 0 {
        push_char(out, '-');
        let magnitude: u32 = (-(n as i64)) as u32;
        push_decimal_nat(out, magnitude);
        assert(final(out)@ =~= old(out)@ + decimal(n as int));
    } else {
        push_decimal_nat(out, n as u32);
    }
}

/// Encodes a message for the broker: the JSON object with the fields `id`, `name`, `body`
/// and `published`, in that order.
pub fn encode_message(m: &Message) -> (r: String)
    ensures
        r@ == wire_record(m@, json_string_of(m.name@), json_string_of(m.body@)),
{
    let name = json_string(m.name.as_str()).unwrap();
    let body = json_string(m.body.as_str()).unwrap();
    let mut out = String::new();
    push_text(&mut out, "{\"id\":");
    push_decimal(&mut out, m.id);
    push_text(&mut out, ",\"name\":");
    push_text(&mut out, name.as_str());
    push_text(&mut out, ",\"body\":");
    push_text(&mut out, body.as_str());
    push_text(&mut out, ",\"published\":");
    if m.published {
        push_text(&mut out, "true");
    } else {
        push_text(&mut out, "false");
    }
    push_text(&mut out, "}");
    out
}

} // verus!
