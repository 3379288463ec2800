//! Preparing a snippet for the playground and turning the outcome into a
//! reply: splitting off the crate-declaration and attribute headers,
//! wrapping bare expressions into a runnable program, and wording the
//! transport errors.

use vstd::prelude::*;
use vstd::string::StringExecFns;
use crate::docsearch::{contains_sub, contains_sub_exec};
use crate::parse::{scan_ws, scan_ws_exec, scan_word, scan_word_exec};
use crate::text::{
    chars_string, is_unicode_whitespace, normalize_spec, normalize_unicode_chars, str_chars,
    sub_chars,
};

verus! {

/// The crate-declaration keyword, spelled out so the scanner can match
/// it.
pub open spec fn kw_extn() -> Seq<char> {
    seq!['e', 'x', 't', 'e', 'r', 'n']
}

pub open spec fn kw_crate() -> Seq<char> {
    seq!['c', 'r', 'a', 't', 'e']
}

/// Whether `kw` occurs in `s` starting exactly at `i`.
pub open spec fn matches_at(s: Seq<char>, i: int, kw: Seq<char>) -> bool {
    0 <= i && i + kw.len() <= s.len() && s.subrange(i, i + kw.len()) == kw
}

/// End of a bracketed attribute body starting at `i`: `[`, anything but
/// `]`, then `]`. Negative when there is none.
pub open spec fn attr_body_end(s: Seq<char>, i: int) -> int
    decreases s.len() - i,
{
    if i < 0 || i >= s.len() {
        -1
    } else if s[i] == '[' {
        close_bracket(s, i + 1)
    } else {
        -1
    }
}

/// Position one past the closing `]` at or after `i`. Negative when the
/// line ends first.
pub open spec fn close_bracket(s: Seq<char>, i: int) -> int
    decreases s.len() - i,
{
    if i < 0 || i >= s.len() {
        -1
    } else if s[i] == ']' {
        i + 1
    } else {
        close_bracket(s, i + 1)
    }
}

/// End of one outer attribute at `i`: `#`, whitespace, bracketed body.
pub open spec fn outer_attr_end(s: Seq<char>, i: int) -> int {
    if 0 <= i && i < s.len() && s[i] == '#' {
        attr_body_end(s, scan_ws(s, i + 1))
    } else {
        -1
    }
}

/// End of one inner attribute at `i`: `#`, whitespace, `!`, whitespace,
/// bracketed body.
pub open spec fn inner_attr_end(s: Seq<char>, i: int) -> int {
    if 0 <= i && i < s.len() && s[i] == '#' {
        let w = scan_ws(s, i + 1);
        if w < s.len() && s[w] == '!' {
            attr_body_end(s, scan_ws(s, w + 1))
        } else {
            -1
        }
    } else {
        -1
    }
}

pub proof fn lemma_close_bracket_range(s: Seq<char>, i: int)
    requires
        0 <= i <= s.len(),
    ensures
        close_bracket(s, i) == -1 || (i < close_bracket(s, i) <= s.len()),
    decreases s.len() - i,
{
    if i < s.len() && s[i] != ']' {
        lemma_close_bracket_range(s, i + 1);
    }
}

pub proof fn lemma_attr_body_range(s: Seq<char>, i: int)
    requires
        0 <= i <= s.len(),
    ensures
        attr_body_end(s, i) == -1 || (i < attr_body_end(s, i) <= s.len()),
{
    if i < s.len() && s[i] == '[' {
        lemma_close_bracket_range(s, i + 1);
    }
}

pub proof fn lemma_outer_attr_range(s: Seq<char>, i: int)
    requires
        0 <= i <= s.len(),
    ensures
        outer_attr_end(s, i) == -1 || (i < outer_attr_end(s, i) <= s.len()),
{
    if i < s.len() && s[i] == '#' {
        crate::parse::lemma_scan_ws_range(s, i + 1);
        lemma_attr_body_range(s, scan_ws(s, i + 1));
    }
}

pub proof fn lemma_inner_attr_range(s: Seq<char>, i: int)
    requires
        0 <= i <= s.len(),
    ensures
        inner_attr_end(s, i) == -1 || (i < inner_attr_end(s, i) <= s.len()),
{
    if i < s.len() && s[i] == '#' {
        crate::parse::lemma_scan_ws_range(s, i + 1);
        let w = scan_ws(s, i + 1);
        if w < s.len() && s[w] == '!' {
            crate::parse::lemma_scan_ws_range(s, w + 1);
            lemma_attr_body_range(s, scan_ws(s, w + 1));
        }
    }
}

/// End of a run of outer attributes at `i`.
pub open spec fn outer_attrs_end(s: Seq<char>, i: int) -> int
    decreases s.len() - i,
    when 0 <= i <= s.len()
    via outer_attrs_dec
{
    let e = outer_attr_end(s, i);
    if e == -1 {
        i
    } else {
        outer_attrs_end(s, e)
    }
}

#[via_fn]
proof fn outer_attrs_dec(s: Seq<char>, i: int) {
    lemma_outer_attr_range(s, i);
}

pub proof fn lemma_outer_attrs_range(s: Seq<char>, i: int)
    requires
        0 <= i <= s.len(),
    ensures
        i <= outer_attrs_end(s, i) <= s.len(),
    decreases s.len() - i,
{
    lemma_outer_attr_range(s, i);
    if outer_attr_end(s, i) != -1 {
        lemma_outer_attrs_range(s, outer_attr_end(s, i));
    }
}

/// End of one crate-declaration header at `i`: outer attributes, the two
/// keywords separated by whitespace, a name, and a semicolon. Negative
/// when there is none.
pub open spec fn crate_decl_end(s: Seq<char>, i: int) -> int {
    let a = outer_attrs_end(s, i);
    let k1 = scan_ws(s, a);
    if !matches_at(s, k1, kw_extn()) {
        -1
    } else {
        let w1 = scan_ws(s, k1 + 6);
        if w1 == k1 + 6 {
            -1
        } else if !matches_at(s, w1, kw_crate()) {
            -1
        } else {
            let w2 = scan_ws(s, w1 + 5);
            if w2 == w1 + 5 {
                -1
            } else {
                let n = scan_word(s, w2);
                if n == w2 {
                    -1
                } else {
                    let sc = scan_ws(s, n);
                    if sc < s.len() && s[sc] == ';' {
                        sc + 1
                    } else {
                        -1
                    }
                }
            }
        }
    }
}

pub proof fn lemma_crate_decl_range(s: Seq<char>, i: int)
    requires
        0 <= i <= s.len(),
    ensures
        crate_decl_end(s, i) == -1 || (i < crate_decl_end(s, i) <= s.len()),
{
    lemma_outer_attrs_range(s, i);
    let a = outer_attrs_end(s, i);
    crate::parse::lemma_scan_ws_range(s, a);
    let k1 = scan_ws(s, a);
    if matches_at(s, k1, kw_extn()) {
        crate::parse::lemma_scan_ws_range(s, k1 + 6);
        let w1 = scan_ws(s, k1 + 6);
        if w1 != k1 + 6 && matches_at(s, w1, kw_crate()) {
            crate::parse::lemma_scan_ws_range(s, w1 + 5);
            let w2 = scan_ws(s, w1 + 5);
            if w2 != w1 + 5 {
                crate::parse::lemma_scan_word_range(s, w2);
                let n = scan_word(s, w2);
                if n != w2 {
                    crate::parse::lemma_scan_ws_range(s, n);
                }
            }
        }
    }
}

/// End of the run of headers at `i`: crate declarations and inner
/// attributes in any order, each followed by whitespace.
pub open spec fn headers_end(s: Seq<char>, i: int) -> int
    decreases s.len() - i,
    when 0 <= i <= s.len()
    via headers_dec
{
    let e = crate_decl_end(s, i);
    if e != -1 {
        headers_end(s, scan_ws(s, e))
    } else {
        let e2 = inner_attr_end(s, i);
        if e2 != -1 {
            headers_end(s, scan_ws(s, e2))
        } else {
            i
        }
    }
}

#[via_fn]
proof fn headers_dec(s: Seq<char>, i: int) {
    lemma_crate_decl_range(s, i);
    lemma_inner_attr_range(s, i);
    let e = crate_decl_end(s, i);
    if e != -1 {
        crate::parse::lemma_scan_ws_range(s, e);
    } else {
        let e2 = inner_attr_end(s, i);
        if e2 != -1 {
            crate::parse::lemma_scan_ws_range(s, e2);
        }
    }
}

pub proof fn lemma_headers_range(s: Seq<char>, i: int)
    requires
        0 <= i <= s.len(),
    ensures
        i <= headers_end(s, i) <= s.len(),
    decreases s.len() - i,
{
    lemma_crate_decl_range(s, i);
    lemma_inner_attr_range(s, i);
    let e = crate_decl_end(s, i);
    if e != -1 {
        crate::parse::lemma_scan_ws_range(s, e);
        lemma_headers_range(s, scan_ws(s, e));
    } else {
        let e2 = inner_attr_end(s, i);
        if e2 != -1 {
            crate::parse::lemma_scan_ws_range(s, e2);
            lemma_headers_range(s, scan_ws(s, e2));
        }
    }
}

/// Where the code's header part ends: leading whitespace, then the run
/// of headers.
pub open spec fn header_split(s: Seq<char>) -> int {
    headers_end(s, scan_ws(s, 0))
}

/// Split the code into its header part — leading whitespace, crate
/// declarations and inner attributes — and the body after them.
pub fn extract_code_headers(code: &str) -> (r: (String, String))
    ensures
        r.0@ == code@.take(header_split(code@)),
        r.1@ == code@.skip(header_split(code@)),
{
    let v = str_chars(code);
    let ghost sv = v@;
    let start = scan_ws_exec(&v, 0);
    let mut i = start;
    proof {
        lemma_headers_range(sv, start as int);
        assert(header_split(sv) == headers_end(sv, i as int));
    }
    let mut done = false;
    while !done
        invariant
            sv == v@,
            sv == code@,
            0 <= i <= sv.len(),
            header_split(sv) == headers_end(sv, i as int),
            done ==> headers_end(sv, i as int) == i as int,
        decreases sv.len() - i + (if done { 0int } else { 1int }),
    {
        let e = crate_decl_end_exec(&v, i);
        match e {
            Some(e) => {
                i = scan_ws_exec(&v, e);
            },
            None => {
                let e2 = inner_attr_end_exec(&v, i);
                match e2 {
                    Some(e2) => {
                        i = scan_ws_exec(&v, e2);
                    },
                    None => {
                        done = true;
                    },
                }
            },
        }
    }
    proof {
        assert(header_split(sv) == i as int);
    }
    let head = sub_chars(&v, 0, i);
    let body = sub_chars(&v, i, v.len());
    proof {
        assert(head@ =~= sv.take(i as int));
        assert(body@ =~= sv.skip(i as int));
    }
    (chars_string(&head), chars_string(&body))
}

fn close_bracket_exec(v: &Vec<char>, i: usize) -> (r: Option<usize>)
    requires
        i <= v@.len(),
    ensures
        match r {
            Some(e) => close_bracket(v@, i as int) == e as int && i < e <= v@.len(),
            None => close_bracket(v@, i as int) == -1,
        },
    decreases v@.len() - i,
{
    let mut cur = i;
    while cur < v.len()
        invariant
            i <= cur <= v@.len(),
            close_bracket(v@, i as int) == close_bracket(v@, cur as int),
        decreases v@.len() - cur,
    {
        if v[cur] == ']' {
            return Some(cur + 1);
        }
        cur = cur + 1;
    }
    None
}

fn attr_body_end_exec(v: &Vec<char>, i: usize) -> (r: Option<usize>)
    requires
        i <= v@.len(),
    ensures
        match r {
            Some(e) => attr_body_end(v@, i as int) == e as int && i < e <= v@.len(),
            None => attr_body_end(v@, i as int) == -1,
        },
{
    if i < v.len() && v[i] == '[' {
        close_bracket_exec(v, i + 1)
    } else {
        None
    }
}

fn inner_attr_end_exec(v: &Vec<char>, i: usize) -> (r: Option<usize>)
    requires
        i <= v@.len(),
    ensures
        match r {
            Some(e) => inner_attr_end(v@, i as int) == e as int && i < e <= v@.len(),
            None => inner_attr_end(v@, i as int) == -1,
        },
{
    if i < v.len() && v[i] == '#' {
        let w = scan_ws_exec(v, i + 1);
        if w < v.len() && v[w] == '!' {
            let w2 = scan_ws_exec(v, w + 1);
            attr_body_end_exec(v, w2)
        } else {
            None
        }
    } else {
        None
    }
}

/// Whether the keyword occurs at exactly this position.
pub fn matches_at_exec(v: &Vec<char>, i: usize, kw: &Vec<char>) -> (r: bool)
    requires
        i <= v@.len(),
    ensures
        r == matches_at(v@, i as int, kw@),
{
    if v.len() - i < kw.len() {
        return false;
    }
    let vl = v.len();
    let mut q: usize = 0;
    let mut mismatch = false;
    while q < kw.len() && !mismatch
        invariant
            vl == v@.len(),
            i + kw@.len() <= v@.len(),
            0 <= q <= kw@.len(),
            mismatch ==> v@.subrange(i as int, i as int + kw@.len() as int) != kw@,
            !mismatch ==> forall|t: int| 0 <= t < q ==> v@[i + t] == kw@[t],
        decreases kw@.len() - q + (if mismatch { 0int } else { 1int }),
    {
        if v[i + q] != kw[q] {
            proof {
                assert(v@.subrange(i as int, i as int + kw@.len() as int)[q as int] == v@[i
                    + q]);
            }
            mismatch = true;
        } else {
            q = q + 1;
        }
    }
    if mismatch {
        return false;
    }
    proof {
        assert(v@.subrange(i as int, i as int + kw@.len() as int) =~= kw@);
    }
    true
}

fn outer_attrs_end_exec(v: &Vec<char>, i: usize) -> (r: usize)
    requires
        i <= v@.len(),
    ensures
        r as int == outer_attrs_end(v@, i as int),
        i <= r <= v@.len(),
    decreases v@.len() - i,
{
    proof {
        lemma_outer_attrs_range(v@, i as int);
    }
    if i < v.len() && v[i] == '#' {
        let w = scan_ws_exec(v, i + 1);
        match attr_body_end_exec(v, w) {
            Some(e) => outer_attrs_end_exec(v, e),
            None => i,
        }
    } else {
        i
    }
}

fn crate_decl_end_exec(v: &Vec<char>, i: usize) -> (r: Option<usize>)
    requires
        i <= v@.len(),
    ensures
        match r {
            Some(e) => crate_decl_end(v@, i as int) == e as int && i < e <= v@.len(),
            None => crate_decl_end(v@, i as int) == -1,
        },
{
    proof {
        lemma_crate_decl_range(v@, i as int);
    }
    let mut k_extn: Vec<char> = Vec::new();
    k_extn.push('e');
    k_extn.push('x');
    k_extn.push('t');
    k_extn.push('e');
    k_extn.push('r');
    k_extn.push('n');
    proof {
        assert(k_extn@ =~= kw_extn());
    }
    let mut k_crate: Vec<char> = Vec::new();
    k_crate.push('c');
    k_crate.push('r');
    k_crate.push('a');
    k_crate.push('t');
    k_crate.push('e');
    proof {
        assert(k_crate@ =~= kw_crate());
    }
    let vl = v.len();
    let a = outer_attrs_end_exec(v, i);
    let k1 = scan_ws_exec(v, a);
    if !matches_at_exec(v, k1, &k_extn) {
        return None;
    }
    let w1 = scan_ws_exec(v, k1 + 6);
    if w1 == k1 + 6 {
        return None;
    }
    if !matches_at_exec(v, w1, &k_crate) {
        return None;
    }
    let w2 = scan_ws_exec(v, w1 + 5);
    if w2 == w1 + 5 {
        return None;
    }
    let n = scan_word_exec(v, w2);
    if n == w2 {
        return None;
    }
    let sc = scan_ws_exec(v, n);
    if sc < v.len() && v[sc] == ';' {
        Some(sc + 1)
    } else {
        None
    }
}


/// The wrapper that prints a bare expression's debug form.
pub open spec fn println_wrap(body: Seq<char>) -> Seq<char> {
    "println!(\"{:?}\", {\n        "@ + body + "\n    })\n"@
}

/// The program sent to the playground: the snippet as it stands when it
/// is bare or already defines its entry point; otherwise its headers
/// hoisted above the prelude, the body printed unless it prints itself,
/// look-alike punctuation normalized unless raw was asked for, and the
/// whole wrapped into a fallible entry point.
pub open spec fn generate_code_spec(
    code: Seq<char>,
    bare: bool,
    raw: bool,
    prelude: Seq<char>,
) -> Seq<char> {
    if bare || contains_sub(code, "fn main()"@) {
        code
    } else {
        let h = header_split(code);
        let header = code.take(h);
        let body = code.skip(h);
        let body2 = if contains_sub(body, "println!"@) || contains_sub(body, "print!"@) {
            body
        } else {
            println_wrap(body)
        };
        let body3 = if raw {
            body2
        } else {
            normalize_spec(body2)
        };
        "#![allow(dead_code)]\n#![allow(unused_imports)]\n"@ + header + "\n"@ + prelude
            + "\nfn main() -> Result<(), Box<dyn std::error::Error>> {\n    "@ + body3
            + ";\n    Ok(())\n}\n"@
    }
}

/// Prepare a snippet for the playground, with the given prelude text
/// spliced in above the entry point.
pub fn generate_code_to_send(code: &str, bare: bool, raw: bool, prelude: &str) -> (r: String)
    ensures
        r@ == generate_code_spec(code@, bare, raw, prelude@),
{
    let cv = str_chars(code);
    let fm = str_chars("fn main()");
    if bare || contains_sub_exec(&cv, &fm) {
        return String::from_str(code);
    }
    let (header, body) = extract_code_headers(code);
    let bv = str_chars(body.as_str());
    let p1 = str_chars("println!");
    let p2 = str_chars("print!");
    let body2: String = if contains_sub_exec(&bv, &p1) || contains_sub_exec(&bv, &p2) {
        body
    } else {
        let mut w = String::from_str("println!(\"{:?}\", {\n        ");
        w.append(body.as_str());
        w.append("\n    })\n");
        w
    };
    let body3: String = if raw {
        body2
    } else {
        normalize_unicode_chars(body2.as_str())
    };
    let mut out = String::from_str("#![allow(dead_code)]\n#![allow(unused_imports)]\n");
    out.append(header.as_str());
    out.append("\n");
    out.append(prelude);
    out.append("\nfn main() -> Result<(), Box<dyn std::error::Error>> {\n    ");
    out.append(body3.as_str());
    out.append(";\n    Ok(())\n}\n");
    proof {
        assert(out@ =~= generate_code_spec(code@, bare, raw, prelude@));
    }
    out
}

/// Why a playground request produced no reply text.
#[derive(Debug, PartialEq, Eq)]
pub enum ReplyError {
    /// The request could not even be built.
    Builder,
    /// The request was redirected away.
    Redirect,
    /// The request timed out.
    Timeout,
    /// The playground answered with this status line.
    Status(String),
    /// Anything else.
    Unknown,
}

/// The reply for a playground outcome: the text on success, a short
/// error line otherwise.
pub fn generate_reply(reply: Result<String, ReplyError>) -> (r: String)
    ensures
        match reply {
            Ok(s) => r@ == s@,
            Err(ReplyError::Builder) => r@ == "error: builder error"@,
            Err(ReplyError::Redirect) => r@ == "error: failed to request"@,
            Err(ReplyError::Timeout) => r@ == "error: timeout"@,
            Err(ReplyError::Status(st)) => r@ == "error: status code: "@ + st@,
            Err(ReplyError::Unknown) => r@ == "error: unknown error"@,
        },
{
    match reply {
        Ok(s) => s,
        Err(ReplyError::Builder) => String::from_str("error: builder error"),
        Err(ReplyError::Redirect) => String::from_str("error: failed to request"),
        Err(ReplyError::Timeout) => String::from_str("error: timeout"),
        Err(ReplyError::Status(st)) => {
            let mut out = String::from_str("error: status code: ");
            out.append(st.as_str());
            out
        },
        Err(ReplyError::Unknown) => String::from_str("error: unknown error"),
    }
}

/// The compiler-version reply: the version, then the commit hash cut to
/// nine characters, and the date.
pub fn render_version(version: &str, hash: &str, date: &str) -> (r: String)
    ensures
        r@ == "rustc "@ + version@ + " ("@ + hash@.take(
            if hash@.len() < 9 {
                hash@.len() as int
            } else {
                9
            },
        ) + " "@ + date@ + ")"@,
{
    let hv = str_chars(hash);
    let cut = if hv.len() < 9 {
        hv.len()
    } else {
        9
    };
    let short = sub_chars(&hv, 0, cut);
    proof {
        assert(short@ =~= hash@.take(
            if hash@.len() < 9 {
                hash@.len() as int
            } else {
                9
            },
        ));
    }
    let mut out = String::from_str("rustc ");
    out.append(version);
    out.append(" (");
    let short_s = chars_string(&short);
    out.append(short_s.as_str());
    out.append(" ");
    out.append(date);
    out.append(")");
    proof {
        assert(out@ =~= "rustc "@ + version@ + " ("@ + short@ + " "@ + date@ + ")"@);
    }
    out
}

} // verus!
