//! The structured JSON answers the endpoints return, built and escaped in
//! verified code, and the well-formedness check of submitted documents.
//!
//! An answer is one object `{"id": ..., "status": ..., "message": ...}`;
//! `message` is `null` when absent. String content is escaped the way the
//! common JSON serializers do: quote, backslash and the short control
//! escapes by name, every other control character as `\u00XX` with
//! lowercase hex digits.

use vstd::prelude::*;
use vstd::string::*;

verus! {

/// The character for one lowercase hexadecimal digit.
pub open spec fn hex_char(d: nat) -> char {
    if d < 10 {
        crate::text::digit_char(d)
    } else if d == 10 {
        'a'
    } else if d == 11 {
        'b'
    } else if d == 12 {
        'c'
    } else if d == 13 {
        'd'
    } else if d == 14 {
        'e'
    } else {
        'f'
    }
}

/// How one character appears inside a JSON string literal.
pub open spec fn escape_char(c: char) -> Seq<char> {
    if c == '"' {
        seq!['\\', '"']
    } else if c == '\\' {
        seq!['\\', '\\']
    } else if c == '\u{08}' {
        seq!['\\', 'b']
    } else if c == '\u{09}' {
        seq!['\\', 't']
    } else if c == '\u{0A}' {
        seq!['\\', 'n']
    } else if c == '\u{0C}' {
        seq!['\\', 'f']
    } else if c == '\u{0D}' {
        seq!['\\', 'r']
    } else if (c as u32) < 32 {
        seq!['\\', 'u', '0', '0', hex_char((c as u32 / 16) as nat), hex_char((c as u32 % 16) as nat)]
    } else {
        seq![c]
    }
}

/// The body of a JSON string literal for the given text.
pub open spec fn json_escaped(s: Seq<char>) -> Seq<char>
    decreases s.len(),
{
    if s.len() == 0 {
        Seq::empty()
    } else {
        json_escaped(s.drop_last()) + escape_char(s.last())
    }
}

/// The answer object for one request, in the field order `id`, `status`,
/// `message`.
pub open spec fn answer_json(
    id: Seq<char>,
    status: Seq<char>,
    message: Option<Seq<char>>,
) -> Seq<char> {
    "{\"id\":\""@ + json_escaped(id) + "\",\"status\":\""@ + json_escaped(status)
        + "\",\"message\":"@ + (match message {
        Option::Some(m) => "\""@ + json_escaped(m) + "\""@,
        Option::None => "null"@,
    }) + "}"@
}

fn hex_to_char(d: u32) -> (c: char)
    requires
        d < 16,
    ensures
        c == hex_char(d as nat),
{
    match d {
        0 => '0',
        1 => '1',
        2 => '2',
        3 => '3',
        4 => '4',
        5 => '5',
        6 => '6',
        7 => '7',
        8 => '8',
        9 => '9',
        10 => 'a',
        11 => 'b',
        12 => 'c',
        13 => 'd',
        14 => 'e',
        _ => 'f',
    }
}

fn push_escaped(out: &mut String, s: &str)
    ensures
        final(out)@ == old(out)@ + json_escaped(s@),
{
    let len = s.unicode_len();
    let mut i: usize = 0;
    while i < len
        invariant
            len == s@.len(),
            i <= len,
            out@ == old(out)@ + json_escaped(s@.take(i as int)),
        decreases len - i,
    {
        let c = s.get_char(i);
        let cu = c as u32;
        if c == '"' {
            out.push('\\');
            out.push('"');
        } else if c == '\\' {
            out.push('\\');
            out.push('\\');
        } else if c == '\u{08}' {
            out.push('\\');
            out.push('b');
        } else if c == '\u{09}' {
            out.push('\\');
            out.push('t');
        } else if c == '\u{0A}' {
            out.push('\\');
            out.push('n');
        } else if c == '\u{0C}' {
            out.push('\\');
            out.push('f');
        } else if c == '\u{0D}' {
            out.push('\\');
            out.push('r');
        } else if cu < 32 {
            out.push('\\');
            out.push('u');
            out.push('0');
            out.push('0');
            out.push(hex_to_char(cu / 16));
            out.push(hex_to_char(cu % 16));
        } else {
            out.push(c);
        }
        proof {
            assert(s@.take(i + 1).drop_last() =~= s@.take(i as int));
            assert(s@.take(i + 1).last() == s@[i as int]);
            assert(out@ =~= old(out)@ + json_escaped(s@.take(i + 1)));
        }
        i = i + 1;
    }
    proof {
        assert(s@.take(len as int) =~= s@);
    }
}

/// Builds the answer body for one request: `status` and `id` as given, the
/// optional human-readable message, everything escaped exactly.
pub fn generate_answer(status: &str, id: &str, message: Option<String>) -> (r: String)
    ensures
        r@ == answer_json(id@, status@, match message {
            Option::Some(m) => Option::Some(m@),
            Option::None => Option::None,
        }),
{
    let mut out = String::new();
    out.append("{\"id\":\"");
    push_escaped(&mut out, id);
    out.append("\",\"status\":\"");
    push_escaped(&mut out, status);
    out.append("\",\"message\":");
    match &message {
        Option::Some(m) => {
            out.append("\"");
            push_escaped(&mut out, m.as_str());
            out.append("\"");
        },
        Option::None => {
            out.append("null");
        },
    }
    out.append("}");
    proof {
        assert(out@ =~= answer_json(id@, status@, match message {
            Option::Some(m) => Option::Some(m@),
            Option::None => Option::None,
        }));
    }
    out
}

/// What parsing the text as one JSON document yields: `None` when it is
/// well-formed, otherwise the parser's error message. A function of the
/// text alone.
pub uninterp spec fn json_parse_error(s: Seq<char>) -> Option<Seq<char>>;

/// Whether the text is one well-formed JSON document.
pub open spec fn json_well_formed(s: Seq<char>) -> bool {
    json_parse_error(s) is None
}

/// Relies on `serde_json::from_str`: whether a text parses as one JSON
/// document, and with which error message, is a function of the text
/// alone; both are named by `json_parse_error`.
#[verifier::external_body]
pub(crate) fn parse_json_document(body: &str) -> (r: Result<(), String>)
    ensures
        r is Ok <==> json_well_formed(body@),
        r matches Err(m) ==> json_parse_error(body@) == Option::Some(m@),
{
    match serde_json::from_str::<serde_json::Value>(body) {
        Ok(_) => Ok(()),
        Err(e) => Err(e.to_string()),
    }
}

} // verus!
