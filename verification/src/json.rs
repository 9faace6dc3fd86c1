//! Compact JSON text for deterministic proxy responses.
//!
//! Strings are quoted and escaped by `serde_json`; objects are written with their
//! keys in ascending order, as `serde_json` writes its default (sorted) maps.

use vstd::prelude::*;

use crate::text::push_char;

verus! {

/// Lowercase hexadecimal digit of a value below 16.
pub open spec fn hex_digit(n: u32) -> char {
    "0123456789abcdef"@[n as int]
}

/// How one character stands inside a JSON string: quote, backslash and the control
/// characters with a short form take a backslash and a letter, the other control
/// characters `\u00` and two lowercase hex digits, and every other character itself.
pub open spec fn escaped_char(c: char) -> Seq<char> {
    if c == '"' {
        seq!['\\', '"']
    } else if c == '\\' {
        seq!['\\', '\\']
    } else if c == '\u{8}' {
        seq!['\\', 'b']
    } else if c == '\t' {
        seq!['\\', 't']
    } else if c == '\n' {
        seq!['\\', 'n']
    } else if c == '\u{c}' {
        seq!['\\', 'f']
    } else if c == '\r' {
        seq!['\\', 'r']
    } else if (c as u32) < 0x20 {
        seq!['\\', 'u', '0', '0', hex_digit((c as u32) / 16), hex_digit((c as u32) % 16)]
    } else {
        seq![c]
    }
}

/// JSON string literal of a text: a quote, each character escaped, and a quote.
pub open spec fn json_string(s: Seq<char>) -> Seq<char> {
    seq!['"'] + s.map_values(|c: char| escaped_char(c)).flatten() + seq!['"']
}

/// Writes a text as a JSON string literal (`serde_json::Value::String` displayed), which
/// `serde_json` escapes character by character as `json_string` states.
#[verifier::external_body]
pub fn json_quote(s: &str) -> (r: String)
    ensures
        r@ == json_string(s@),
{
    serde_json::Value::String(s.to_string()).to_string()
}

/// One object member: the quoted key, a colon, and the value's JSON text.
pub open spec fn member(key: Seq<char>, value: Seq<char>) -> Seq<char> {
    json_string(key) + ":"@ + value
}

/// Members joined by commas.
pub open spec fn joined(members: Seq<Seq<char>>) -> Seq<char>
    decreases members.len(),
{
    if members.len() == 0 {
        Seq::empty()
    } else if members.len() == 1 {
        members[0]
    } else {
        joined(members.drop_last()) + ","@ + members.last()
    }
}

/// A JSON object of members already in key order.
pub open spec fn object(members: Seq<Seq<char>>) -> Seq<char> {
    "{"@ + joined(members) + "}"@
}

/// A JSON array of element texts.
pub open spec fn array(elements: Seq<Seq<char>>) -> Seq<char> {
    "["@ + joined(elements) + "]"@
}

/// Writes one object member.
pub fn json_member(key: &str, value: &str) -> (r: String)
    ensures
        r@ == member(key@, value@),
{
    let mut s = json_quote(key);
    s.append(":");
    s.append(value);
    s
}

/// Joins texts with commas between `open` and `close`.
fn enclose(open: char, parts: &Vec<String>, close: char) -> (r: String)
    ensures
        r@ == seq![open] + joined(parts@.map_values(|p: String| p@)) + seq![close],
{
    let ghost views = parts@.map_values(|p: String| p@);
    let mut s = String::new();
    push_char(&mut s, open);
    let mut i: usize = 0;
    while i < parts.len()
        invariant
            i <= parts@.len(),
            views == parts@.map_values(|p: String| p@),
            s@ == seq![open] + joined(views.subrange(0, i as int)),
        decreases parts.len() - i,
    {
        if i > 0 {
            s.append(",");
        }
        s.append(parts[i].as_str());
        let ghost next = views.subrange(0, i + 1);
        assert(next.drop_last() =~= views.subrange(0, i as int));
        assert(next.last() == parts@[i as int]@);
        i = i + 1;
    }
    assert(views.subrange(0, views.len() as int) =~= views);
    push_char(&mut s, close);
    s
}

/// Writes a JSON object from members already in key order.
pub fn json_object(members: &Vec<String>) -> (r: String)
    ensures
        r@ == object(members@.map_values(|m: String| m@)),
{
    let r = enclose('{', members, '}');
    proof {
        reveal_strlit("{");
        reveal_strlit("}");
    }
    assert(r@ =~= object(members@.map_values(|m: String| m@)));
    r
}

/// Writes a JSON array from element texts.
pub fn json_array(elements: &Vec<String>) -> (r: String)
    ensures
        r@ == array(elements@.map_values(|m: String| m@)),
{
    let r = enclose('[', elements, ']');
    proof {
        reveal_strlit("[");
        reveal_strlit("]");
    }
    assert(r@ =~= array(elements@.map_values(|m: String| m@)));
    r
}

} // verus!
