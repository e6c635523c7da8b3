//! The JSON object text of the custom headers, `{"name":"value",...}`.

use crate::error::SendgridError;
use crate::mail::{entries, EntriesView};
use vstd::prelude::*;

verus! {

/// `serde_json::Error`, carried opaquely out of the JSON wrapper.
#[verifier::external_type_specification]
#[verifier::external_body]
pub struct ExJsonError(serde_json::Error);

/// A lower-case hexadecimal digit for `n < 16`.
pub open spec fn hex_lower(n: u32) -> char {
    if n < 10 {
        (0x30 + n) as char
    } else {
        (0x61 + (n - 10)) as char
    }
}

/// How one character stands inside a JSON string literal: quote and
/// backslash are escaped, the control characters with a short form use it,
/// the other control characters become `\u00` and two hex digits, and every
/// other character stands as it is.
pub open spec fn json_escaped_char(c: char) -> Seq<char> {
    if c == '"' {
        seq!['\\', '"']
    } else if c == '\\' {
        seq!['\\', '\\']
    } else if c == '\x08' {
        seq!['\\', 'b']
    } else if c == '\t' {
        seq!['\\', 't']
    } else if c == '\n' {
        seq!['\\', 'n']
    } else if c == '\x0c' {
        seq!['\\', 'f']
    } else if c == '\r' {
        seq!['\\', 'r']
    } else if (c as u32) < 0x20 {
        seq!['\\', 'u', '0', '0', hex_lower((c as u32) / 16), hex_lower((c as u32) % 16)]
    } else {
        seq![c]
    }
}

/// The escaped characters of a text, in order.
pub open spec fn json_escaped(s: Seq<char>) -> Seq<char>
    decreases s.len(),
{
    if s.len() == 0 {
        Seq::empty()
    } else {
        json_escaped(s.drop_last()) + json_escaped_char(s.last())
    }
}

/// The JSON string literal of a text: its escaped characters between quotes.
pub open spec fn json_string_of(s: Seq<char>) -> Seq<char> {
    seq!['"'] + json_escaped(s) + seq!['"']
}

/// Relies on `serde_json::to_string` applied to a `str`: it writes into a
/// `Vec<u8>`, which cannot fail, and the text is the string literal with the
/// escapes of `json_escaped_char`.
#[verifier::external_body]
fn json_string(s: &str) -> (r: Result<String, serde_json::Error>)
    ensures
        r is Ok,
        r matches Ok(t) ==> t@ == json_string_of(s@),
{
    serde_json::to_string(s)
}

/// One member, `"name":"value"`.
pub open spec fn json_member(p: (Seq<char>, Seq<char>)) -> Seq<char> {
    json_string_of(p.0) + seq![':'] + json_string_of(p.1)
}

/// The members joined by `,`.
pub open spec fn json_members(e: EntriesView) -> Seq<char>
    decreases e.len(),
{
    if e.len() == 0 {
        Seq::empty()
    } else if e.len() == 1 {
        json_member(e[0])
    } else {
        json_members(e.drop_last()) + seq![','] + json_member(e.last())
    }
}

/// The object text: `{`, the members, `}`; `{}` for no entries.
pub open spec fn json_object_text(e: EntriesView) -> Seq<char> {
    seq!['{'] + json_members(e) + seq!['}']
}

/// Renders entries as a JSON object in their order. Every text can be
/// rendered, so this always succeeds; were a rendering to fail, the result
/// would be `SendgridError::Encoding` and no text at all.
pub fn json_object(e: &Vec<(String, String)>) -> (r: Result<String, SendgridError>)
    ensures
        r matches Ok(t) && t@ == json_object_text(entries(e@)),
{
    let ghost ev = entries(e@);
    let mut members = String::new();
    let mut i: usize = 0;
    while i < e.len()
        invariant
            0 <= i <= e@.len(),
            ev == entries(e@),
            members@ == json_members(ev.subrange(0, i as int)),
        decreases e@.len() - i,
    {
        let k = match json_string(e[i].0.as_str()) {
            Ok(t) => t,
            Err(_) => {
                return Err(SendgridError::Encoding);
            },
        };
        let v = match json_string(e[i].1.as_str()) {
            Ok(t) => t,
            Err(_) => {
                return Err(SendgridError::Encoding);
            },
        };
        if i > 0 {
            members.append(",");
        }
        members.append(k.as_str());
        members.append(":");
        members.append(v.as_str());
        proof {
            reveal_strlit(",");
            reveal_strlit(":");
            let next = ev.subrange(0, i + 1);
            assert(next.drop_last() =~= ev.subrange(0, i as int));
            assert(next.last() == ev[i as int]);
            if i == 0 {
                assert(members@ =~= json_member(ev[0]));
            } else {
                assert(members@ =~= json_members(ev.subrange(0, i as int)) + seq![',']
                    + json_member(ev[i as int]));
            }
        }
        i = i + 1;
    }
    let mut out = String::new();
    out.append("{");
    out.append(members.as_str());
    out.append("}");
    proof {
        reveal_strlit("{");
        reveal_strlit("}");
        assert(ev.subrange(0, e@.len() as int) =~= ev);
        assert(out@ =~= json_object_text(ev));
    }
    Ok(out)
}

} // verus!
