//! Rendering crate lookups as replies: the one-line summary with its
//! info, documentation and repository links, the inline-query form, and
//! the listing with a link to further results.

use vstd::prelude::*;
use vstd::string::{StringExecFns, StringSliceAdditionalSpecFns};
use crate::command::CrateQueryMode;
use crate::escape::{
    encode_attribute, encode_minimal, encode_with_code, encode_with_code_spec,
    escape_attribute_spec, escape_minimal_spec, hex_digit,
};
use crate::parse::scan_ws;
use crate::text::{
    chars_string, is_unicode_whitespace, is_whitespace_char, str_chars, sub_chars,
};

verus! {

/// One crate as the registry describes it, reduced to what the replies
/// show.
#[derive(Clone, Debug, PartialEq, Eq)]
pub struct CrateInfo {
    pub id: String,
    pub name: String,
    pub description: Option<String>,
    pub max_version: String,
    pub documentation: Option<String>,
    pub repository: Option<String>,
}

/// Whether a byte must be percent-encoded in a path segment: controls
/// and non-ASCII, and the segment-special characters.
pub open spec fn in_path_segment_set(b: u8) -> bool {
    ||| b < 0x20
    ||| b > 0x7e
    ||| b == 0x20  // space
    ||| b == 0x22  // double quote
    ||| b == 0x23  // hash
    ||| b == 0x3c  // less-than
    ||| b == 0x3e  // greater-than
    ||| b == 0x60  // backtick
    ||| b == 0x3f  // question mark
    ||| b == 0x7b  // open brace
    ||| b == 0x7d  // close brace
    ||| b == 0x25  // percent
    ||| b == 0x2f  // slash
}

/// Percent-encoding of the bytes from position `i` on.
pub open spec fn pct_from(bs: Seq<u8>, i: int) -> Seq<char>
    decreases bs.len() - i,
{
    if i < 0 || i >= bs.len() {
        Seq::empty()
    } else {
        let b = bs[i];
        let piece: Seq<char> = if in_path_segment_set(b) {
            seq!['%', hex_digit(b as int / 16), hex_digit(b as int % 16)]
        } else {
            seq![b as char]
        };
        piece + pct_from(bs, i + 1)
    }
}

/// The text percent-encoded for use as one path segment of an address.
pub open spec fn encode_url_spec(bs: Seq<u8>) -> Seq<char> {
    pct_from(bs, 0)
}

fn hex_digit_exec(n: u8) -> (r: char)
    requires
        n < 16,
    ensures
        r == hex_digit(n as int),
{
    let digits = ['0', '1', '2', '3', '4', '5', '6', '7', '8', '9', 'A', 'B', 'C', 'D', 'E', 'F'];
    digits[n as usize]
}

/// Percent-encode the text for use as one path segment of an address.
pub fn encode_for_url(s: &str) -> (r: String)
    ensures
        r@ == encode_url_spec(s.spec_bytes()),
{
    let bs = s.as_bytes();
    let ghost bv = bs@;
    let mut out: Vec<char> = Vec::new();
    let mut i: usize = 0;
    while i < bs.len()
        invariant
            bv == bs@,
            bv == s.spec_bytes(),
            0 <= i <= bv.len(),
            out@ + pct_from(bv, i as int) == encode_url_spec(bv),
        decreases bv.len() - i,
    {
        let b = bs[i];
        let special = b < 0x20 || b > 0x7e || b == 0x20 || b == 0x22 || b == 0x23 || b == 0x3c
            || b == 0x3e || b == 0x60 || b == 0x3f || b == 0x7b || b == 0x7d || b == 0x25 || b
            == 0x2f;
        if special {
            out.push('%');
            out.push(hex_digit_exec(b / 16));
            out.push(hex_digit_exec(b % 16));
        } else {
            out.push(b as char);
        }
        proof {
            assert(out@ + pct_from(bv, i as int + 1) =~= encode_url_spec(bv));
        }
        i = i + 1;
    }
    proof {
        assert(out@ =~= encode_url_spec(bv));
    }
    chars_string(&out)
}

/// First position at or after `i` that holds whitespace, or the length.
pub open spec fn scan_non_ws(s: Seq<char>, i: int) -> int
    decreases s.len() - i,
{
    if i < 0 || i >= s.len() {
        i
    } else if !is_unicode_whitespace(s[i]) {
        scan_non_ws(s, i + 1)
    } else {
        i
    }
}

pub proof fn lemma_scan_non_ws_range(s: Seq<char>, i: int)
    requires
        0 <= i <= s.len(),
    ensures
        i <= scan_non_ws(s, i) <= s.len(),
    decreases s.len() - i,
{
    if i < s.len() && !is_unicode_whitespace(s[i]) {
        lemma_scan_non_ws_range(s, i + 1);
    }
}

/// The whitespace-separated words of the text from position `i` on.
pub open spec fn words_from(s: Seq<char>, i: int) -> Seq<Seq<char>>
    decreases s.len() - i + 1,
    when 0 <= i <= s.len()
    via words_from_dec
{
    let w = scan_ws(s, i);
    if w >= s.len() {
        Seq::empty()
    } else {
        let e = scan_non_ws(s, w);
        seq![s.subrange(w, e)] + words_from(s, e)
    }
}

#[via_fn]
proof fn words_from_dec(s: Seq<char>, i: int) {
    crate::parse::lemma_scan_ws_range(s, i);
    crate::parse::lemma_scan_ws_stops(s, i);
    let w = scan_ws(s, i);
    if 0 <= w < s.len() {
        lemma_scan_non_ws_range(s, w + 1);
        assert(scan_non_ws(s, w) == scan_non_ws(s, w + 1));
    }
}

/// The words joined with single spaces.
pub open spec fn join_words(ws: Seq<Seq<char>>) -> Seq<char>
    decreases ws.len(),
{
    if ws.len() == 0 {
        Seq::empty()
    } else if ws.len() == 1 {
        ws[0]
    } else {
        ws[0] + seq![' '] + join_words(ws.drop_first())
    }
}

/// The text with every whitespace run collapsed to a single space and
/// the ends trimmed.
pub open spec fn collapse_ws_spec(s: Seq<char>) -> Seq<char> {
    join_words(words_from(s, 0))
}

/// Collapse whitespace runs to single spaces and trim the ends.
pub fn collapse_whitespace(s: &str) -> (r: String)
    ensures
        r@ == collapse_ws_spec(s@),
{
    let v = str_chars(s);
    let ghost sv = v@;
    let mut out: Vec<char> = Vec::new();
    let mut i: usize = 0;
    let mut first = true;
    let mut done = false;
    while !done
        invariant
            sv == v@,
            sv == s@,
            0 <= i <= sv.len(),
            first ==> out@.len() == 0 && collapse_ws_spec(sv) == join_words(
                words_from(sv, i as int),
            ),
            !first ==> collapse_ws_spec(sv) == out@ + (if words_from(sv, i as int).len()
                == 0 {
                Seq::<char>::empty()
            } else {
                seq![' '] + join_words(words_from(sv, i as int))
            }),
            done ==> words_from(sv, i as int).len() == 0,
        decreases sv.len() - i + (if done { 0int } else { 1int }),
    {
        let w = scan_ws_local(&v, i);
        if w == v.len() {
            i = w;
            done = true;
        } else {
            let e = scan_non_ws_local(&v, w);
            proof {
                crate::parse::lemma_scan_ws_stops(sv, i as int);
                lemma_scan_non_ws_range(sv, w as int + 1);
                assert(scan_non_ws(sv, w as int) == scan_non_ws(sv, w as int + 1));
                assert(words_from(sv, i as int) == seq![sv.subrange(w as int, e as int)]
                    + words_from(sv, e as int));
                let wd = sv.subrange(w as int, e as int);
                let rest = words_from(sv, e as int);
                assert((seq![wd] + rest).len() == 1 + rest.len());
                assert((seq![wd] + rest)[0] == wd);
                assert((seq![wd] + rest).drop_first() =~= rest);
            }
            if first {
                let mut word = sub_chars(&v, w, e);
                out.append(&mut word);
                first = false;
            } else {
                out.push(' ');
                let mut word = sub_chars(&v, w, e);
                out.append(&mut word);
            }
            proof {
                let rest = words_from(sv, e as int);
                if rest.len() == 0 {
                    assert(collapse_ws_spec(sv) =~= out@ + Seq::<char>::empty());
                } else {
                    assert(collapse_ws_spec(sv) =~= out@ + (seq![' '] + join_words(rest)));
                }
            }
            i = e;
        }
    }
    proof {
        if first {
            assert(collapse_ws_spec(sv) =~= out@);
        } else {
            assert(collapse_ws_spec(sv) =~= out@);
        }
    }
    chars_string(&out)
}

fn scan_ws_local(s: &Vec<char>, i: usize) -> (r: usize)
    requires
        i <= s@.len(),
    ensures
        r == scan_ws(s@, i as int),
        i <= r <= s@.len(),
{
    crate::parse::scan_ws_exec(s, i)
}

fn scan_non_ws_local(s: &Vec<char>, i: usize) -> (r: usize)
    requires
        i <= s@.len(),
    ensures
        r == scan_non_ws(s@, i as int),
        i <= r <= s@.len(),
{
    let mut cur = i;
    while cur < s.len()
        invariant
            i <= cur <= s@.len(),
            scan_non_ws(s@, i as int) == scan_non_ws(s@, cur as int),
        decreases s@.len() - cur,
    {
        let c = s[cur];
        if is_whitespace_char(c) {
            return cur;
        }
        cur = cur + 1;
    }
    cur
}


/// The percent-encoded form of a name, over its UTF-8 bytes.
pub open spec fn encoded_name(name: Seq<char>) -> Seq<char> {
    encode_url_spec(vstd::utf8::encode_utf8(name))
}

/// The one-line summary of a crate: name and version in bold, links to
/// the registry page and the documentation, the repository when known,
/// and the description with its whitespace collapsed.
pub open spec fn render_crate_summary_spec(c: CrateInfo) -> Seq<char> {
    let nameq = encoded_name(c.name@);
    let crate_url = "https://crates.io/crates/"@ + nameq;
    let doc_url = match c.documentation {
        Some(d) => d@,
        None => "https://docs.rs/crate/"@ + nameq,
    };
    let head = "<b>"@ + escape_minimal_spec(c.name@) + "</b> ("@ + escape_minimal_spec(
        c.max_version@,
    ) + ") - <a href=\""@ + escape_attribute_spec(crate_url) + "\">info</a> - <a href=\""@
        + escape_attribute_spec(doc_url) + "\">doc</a>"@;
    let with_repo = match c.repository {
        Some(rp) => head + " - <a href=\""@ + escape_attribute_spec(rp@) + "\">repo</a>"@,
        None => head,
    };
    match c.description {
        Some(d) => with_repo + " - "@ + escape_minimal_spec(collapse_ws_spec(d@)),
        None => with_repo,
    }
}

/// Render the one-line summary of a crate.
pub fn render_crate_summary(c: &CrateInfo) -> (r: String)
    ensures
        r@ == render_crate_summary_spec(*c),
{
    let nameq = encode_for_url(c.name.as_str());
    let mut crate_url = String::from_str("https://crates.io/crates/");
    crate_url.append(nameq.as_str());
    let doc_url: String = match &c.documentation {
        Some(d) => d.clone(),
        None => {
            let mut u = String::from_str("https://docs.rs/crate/");
            u.append(nameq.as_str());
            u
        },
    };
    let mut out = String::from_str("<b>");
    let e_name = encode_minimal(c.name.as_str());
    out.append(e_name.as_str());
    out.append("</b> (");
    let e_ver = encode_minimal(c.max_version.as_str());
    out.append(e_ver.as_str());
    out.append(") - <a href=\"");
    let e_curl = encode_attribute(crate_url.as_str());
    out.append(e_curl.as_str());
    out.append("\">info</a> - <a href=\"");
    let e_durl = encode_attribute(doc_url.as_str());
    out.append(e_durl.as_str());
    out.append("\">doc</a>");
    match &c.repository {
        Some(rp) => {
            out.append(" - <a href=\"");
            let e_rp = encode_attribute(rp.as_str());
            out.append(e_rp.as_str());
            out.append("\">repo</a>");
        },
        None => {},
    }
    match &c.description {
        Some(d) => {
            out.append(" - ");
            let collapsed = collapse_whitespace(d.as_str());
            let e_d = encode_minimal(collapsed.as_str());
            out.append(e_d.as_str());
        },
        None => {},
    }
    proof {
        assert(out@ =~= render_crate_summary_spec(*c));
    }
    out
}

/// A crate prepared as an inline query result: the registry id, a plain
/// title, the message text, the collapsed description, and the button
/// addresses.
#[derive(Debug, PartialEq, Eq)]
pub struct CrateInlineParts {
    pub id: String,
    pub title: String,
    pub message: String,
    pub description: Option<String>,
    pub crate_url: String,
    pub doc_url: String,
    pub repo_url: Option<String>,
}

pub open spec fn crate_inline_message_spec(c: CrateInfo) -> Seq<char> {
    let head = "<b>"@ + escape_minimal_spec(c.name@) + "</b> ("@ + escape_minimal_spec(
        c.max_version@,
    ) + ")"@;
    match c.description {
        Some(d) => head + "\n"@ + encode_with_code_spec(collapse_ws_spec(d@)),
        None => head,
    }
}

/// Prepare a crate as an inline query result. The name is plain in the
/// addresses: the registry only admits names that need no encoding
/// there.
pub fn crate_inline_parts(c: &CrateInfo) -> (r: CrateInlineParts)
    ensures
        r.id@ == c.id@,
        r.title@ == c.name@ + " "@ + c.max_version@,
        r.message@ == crate_inline_message_spec(*c),
        match (c.description, r.description) {
            (Some(d), Some(rd)) => rd@ == collapse_ws_spec(d@),
            (None, None) => true,
            _ => false,
        },
        r.crate_url@ == "https://crates.io/crates/"@ + c.name@,
        r.doc_url@ == (match c.documentation {
            Some(d) => d@,
            None => "https://docs.rs/crate/"@ + c.name@,
        }),
        match (c.repository, r.repo_url) {
            (Some(rp), Some(ru)) => ru@ == rp@,
            (None, None) => true,
            _ => false,
        },
{
    let id = c.id.clone();
    let mut title = c.name.clone();
    title.append(" ");
    title.append(c.max_version.as_str());
    let description: Option<String> = match &c.description {
        Some(d) => Some(collapse_whitespace(d.as_str())),
        None => None,
    };
    let mut message = String::from_str("<b>");
    let e_name = encode_minimal(c.name.as_str());
    message.append(e_name.as_str());
    message.append("</b> (");
    let e_ver = encode_minimal(c.max_version.as_str());
    message.append(e_ver.as_str());
    message.append(")");
    match &description {
        Some(d) => {
            message.append("\n");
            encode_with_code(&mut message, d.as_str());
        },
        None => {},
    }
    let mut crate_url = String::from_str("https://crates.io/crates/");
    crate_url.append(c.name.as_str());
    let doc_url: String = match &c.documentation {
        Some(d) => d.clone(),
        None => {
            let mut u = String::from_str("https://docs.rs/crate/");
            u.append(c.name.as_str());
            u
        },
    };
    let repo_url: Option<String> = match &c.repository {
        Some(rp) => Some(rp.clone()),
        None => None,
    };
    proof {
        assert(title@ =~= c.name@ + " "@ + c.max_version@);
        assert(message@ =~= crate_inline_message_spec(*c));
        assert(crate_url@ =~= "https://crates.io/crates/"@ + c.name@);
    }
    CrateInlineParts { id, title, message, description, crate_url, doc_url, repo_url }
}

/// The summaries of the listed crates, one per line.
pub open spec fn crate_lines(cs: Seq<CrateInfo>, i: int) -> Seq<char>
    decreases cs.len() - i,
{
    if i < 0 || i >= cs.len() {
        Seq::empty()
    } else {
        render_crate_summary_spec(cs[i]) + "\n"@ + crate_lines(cs, i + 1)
    }
}

/// The address of the full result list for a search.
pub open spec fn more_url_spec(by_keyword: bool, query: Seq<char>) -> Seq<char> {
    if by_keyword {
        "https://crates.io/keywords/"@ + encoded_name(query)
    } else {
        "https://crates.io/search?q="@ + encoded_name(query)
    }
}

/// The listing reply for a crate search: a summary line per crate, and,
/// when the page did not hold everything, a link to the rest.
pub open spec fn crates_list_spec(
    cs: Seq<CrateInfo>,
    total: int,
    by_keyword: bool,
    query: Seq<char>,
) -> Seq<char> {
    if cs.len() == 0 {
        "(none)"@
    } else {
        let body = crate_lines(cs, 0);
        if cs.len() < total {
            body + "<a href=\""@ + escape_attribute_spec(more_url_spec(by_keyword, query))
                + "\">More...</a>"@
        } else {
            body
        }
    }
}

/// Render the listing reply for a crate search.
pub fn render_crates_list(cs: &Vec<CrateInfo>, total: usize, by_keyword: bool, query: &str) -> (r:
    String)
    ensures
        r@ == crates_list_spec(cs@, total as int, by_keyword, query@),
{
    if cs.len() == 0 {
        return String::from_str("(none)");
    }
    let mut out = String::new();
    let mut i: usize = 0;
    while i < cs.len()
        invariant
            0 <= i <= cs@.len(),
            out@ + crate_lines(cs@, i as int) == crate_lines(cs@, 0),
        decreases cs@.len() - i,
    {
        let line = render_crate_summary(&cs[i]);
        out.append(line.as_str());
        out.append("\n");
        proof {
            assert(out@ + crate_lines(cs@, i as int + 1) =~= crate_lines(cs@, 0));
        }
        i = i + 1;
    }
    if cs.len() < total {
        let encq = encode_for_url(query);
        let mut url: String = if by_keyword {
            String::from_str("https://crates.io/keywords/")
        } else {
            String::from_str("https://crates.io/search?q=")
        };
        url.append(encq.as_str());
        proof {
            assert(url@ =~= more_url_spec(by_keyword, query@));
        }
        out.append("<a href=\"");
        let e_url = encode_attribute(url.as_str());
        out.append(e_url.as_str());
        out.append("\">More...</a>");
    }
    proof {
        assert(out@ =~= crates_list_spec(cs@, total as int, by_keyword, query@));
    }
    out
}

} // verus!
