//! HTML escaping, and the reply convention that wraps backtick spans in
//! code tags.

use vstd::prelude::*;
use vstd::string::StringExecFns;
use crate::text::{chars_string, str_chars};

verus! {

/// The minimal entity set: the five characters that must not appear bare
/// in HTML text.
pub open spec fn escape_minimal_char(c: char) -> Seq<char> {
    if c == '"' {
        "&quot;"@
    } else if c == '&' {
        "&amp;"@
    } else if c == '\'' {
        "&#x27;"@
    } else if c == '<' {
        "&lt;"@
    } else if c == '>' {
        "&gt;"@
    } else {
        seq![c]
    }
}

pub open spec fn escape_minimal_from(s: Seq<char>, i: int) -> Seq<char>
    decreases s.len() - i,
{
    if i < 0 || i >= s.len() {
        Seq::empty()
    } else {
        escape_minimal_char(s[i]) + escape_minimal_from(s, i + 1)
    }
}

/// Entity-encoding with the minimal set, character by character.
pub open spec fn escape_minimal_spec(s: Seq<char>) -> Seq<char> {
    escape_minimal_from(s, 0)
}

/// Relies on htmlescape::encode_minimal: each of `"`, `&`, `'`, `<`, `>`
/// becomes its entity, every other character stands.
#[verifier::external_body]
pub fn encode_minimal(s: &str) -> (r: String)
    ensures
        r@ == escape_minimal_spec(s@),
{
    htmlescape::encode_minimal(s)
}

pub open spec fn is_ascii_alnum(c: char) -> bool {
    ('a' <= c && c <= 'z') || ('A' <= c && c <= 'Z') || ('0' <= c && c <= '9')
}

/// Uppercase hexadecimal digit for a value below sixteen.
pub open spec fn hex_digit(n: int) -> char {
    seq!['0', '1', '2', '3', '4', '5', '6', '7', '8', '9', 'A', 'B', 'C', 'D', 'E', 'F'][n]
}

/// The attribute-value entity set: the minimal entities, and every other
/// non-alphanumeric character below U+0100 hex-encoded.
pub open spec fn escape_attribute_char(c: char) -> Seq<char> {
    if c == '"' || c == '&' || c == '\'' || c == '<' || c == '>' {
        escape_minimal_char(c)
    } else if (c as int) < 256 && ((c as int) > 127 || !is_ascii_alnum(c)) {
        seq!['&', '#', 'x', hex_digit((c as int) / 16), hex_digit((c as int) % 16), ';']
    } else {
        seq![c]
    }
}

pub open spec fn escape_attribute_from(s: Seq<char>, i: int) -> Seq<char>
    decreases s.len() - i,
{
    if i < 0 || i >= s.len() {
        Seq::empty()
    } else {
        escape_attribute_char(s[i]) + escape_attribute_from(s, i + 1)
    }
}

/// Entity-encoding fit for an HTML attribute value.
pub open spec fn escape_attribute_spec(s: Seq<char>) -> Seq<char> {
    escape_attribute_from(s, 0)
}

/// Relies on htmlescape::encode_attribute: the minimal entities, and all
/// other non-alphanumeric characters below U+0100 as two-digit uppercase
/// hex references.
#[verifier::external_body]
pub fn encode_attribute(s: &str) -> (r: String)
    ensures
        r@ == escape_attribute_spec(s@),
{
    htmlescape::encode_attribute(s)
}

/// The backtick-to-code-tag rewrite over an escaped text: a backtick
/// opens or closes a `<code>` span, and a span left open at the end is
/// closed.
pub open spec fn code_wrap_from(s: Seq<char>, i: int, in_code: bool) -> Seq<char>
    decreases s.len() - i,
{
    if i < 0 || i >= s.len() {
        if in_code {
            "</code>"@
        } else {
            Seq::empty()
        }
    } else if s[i] == '`' {
        (if in_code {
            "</code>"@
        } else {
            "<code>"@
        }) + code_wrap_from(s, i + 1, !in_code)
    } else {
        seq![s[i]] + code_wrap_from(s, i + 1, in_code)
    }
}

/// What `encode_with_code` appends: the text minimally escaped, with each
/// span between backticks wrapped in code tags.
pub open spec fn encode_with_code_spec(text: Seq<char>) -> Seq<char> {
    code_wrap_from(escape_minimal_spec(text), 0, false)
}

/// Append the text to the output, minimally escaped, with backtick spans
/// wrapped in `<code>` tags.
pub fn encode_with_code(output: &mut String, text: &str)
    ensures
        final(output)@ == old(output)@ + encode_with_code_spec(text@),
{
    let escaped = encode_minimal(text);
    let s = str_chars(escaped.as_str());
    let ghost sv = s@;
    let mut out: Vec<char> = Vec::new();
    let mut in_code = false;
    let mut i: usize = 0;
    while i < s.len()
        invariant
            sv == s@,
            sv == escape_minimal_spec(text@),
            0 <= i <= sv.len(),
            out@ + code_wrap_from(sv, i as int, in_code) == encode_with_code_spec(text@),
        decreases sv.len() - i,
    {
        let c = s[i];
        if c == '`' {
            let mut tag = if in_code {
                str_chars("</code>")
            } else {
                str_chars("<code>")
            };
            out.append(&mut tag);
            in_code = !in_code;
        } else {
            out.push(c);
        }
        proof {
            assert(out@ + code_wrap_from(sv, i as int + 1, in_code) =~= encode_with_code_spec(
                text@,
            ));
        }
        i = i + 1;
    }
    if in_code {
        let mut tag = str_chars("</code>");
        out.append(&mut tag);
    }
    proof {
        assert(out@ =~= encode_with_code_spec(text@));
    }
    let addition = chars_string(&out);
    output.append(addition.as_str());
}

} // verus!
