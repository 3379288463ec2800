//! Turning a playground response into reply text: successful output is
//! trimmed, truncated outside private chats and wrapped in a pre block;
//! a failure is boiled down to its first meaningful diagnostic line,
//! with the error code, code spans and tracking issue linked up.

use vstd::prelude::*;
use vstd::string::StringExecFns;
use crate::command::trimmed;
use crate::escape::{
    encode_attribute, encode_minimal, escape_attribute_spec, escape_minimal_spec,
};
use crate::eval_code::matches_at;
use crate::parse::Channel;
use crate::text::{
    chars_string, str_chars, sub_chars, truncate_output, truncate_spec,
};

verus! {

/// A playground run's outcome, as the renderer reads it.
#[derive(Debug, PartialEq, Eq)]
pub struct PlayResponse {
    pub stdout: String,
    pub stderr: String,
    pub success: bool,
}

pub open spec fn channel_str(c: Channel) -> Seq<char> {
    match c {
        Channel::Stable => "stable"@,
        Channel::Beta => "beta"@,
        Channel::Nightly => "nightly"@,
    }
}

/// Position of the next line feed at or after `i`, or the length.
pub open spec fn find_nl(s: Seq<char>, i: int) -> int
    decreases s.len() - i,
{
    if i < 0 || i >= s.len() {
        s.len() as int
    } else if s[i] == '\n' {
        i
    } else {
        find_nl(s, i + 1)
    }
}

pub proof fn lemma_find_nl_range(s: Seq<char>, i: int)
    requires
        0 <= i <= s.len(),
    ensures
        i <= find_nl(s, i) <= s.len(),
    decreases s.len() - i,
{
    if i < s.len() && s[i] != '\n' {
        lemma_find_nl_range(s, i + 1);
    }
}

/// Whether a trimmed diagnostic line is build noise to skip.
pub open spec fn is_noise(l: Seq<char>) -> bool {
    ||| l.len() == 0
    ||| matches_at(l, 0, "Compiling"@)
    ||| matches_at(l, 0, "Finished"@)
    ||| matches_at(l, 0, "Running"@)
}

/// The line reported for a failed run: scanning the diagnostics top to
/// bottom, the first line starting with `error` wins; failing that, the
/// first line that is not build noise.
pub open spec fn pick_line(s: Seq<char>, i: int, cand: Option<Seq<char>>) -> Option<Seq<char>>
    decreases s.len() - i,
    when 0 <= i <= s.len()
    via pick_line_dec
{
    if i >= s.len() {
        cand
    } else {
        let e = find_nl(s, i);
        let l = trimmed(s.subrange(i, e));
        let next = if e < s.len() {
            e + 1
        } else {
            e
        };
        if is_noise(l) {
            pick_line(s, next, cand)
        } else if matches_at(l, 0, "error"@) {
            Some(l)
        } else if cand is None {
            pick_line(s, next, Some(l))
        } else {
            pick_line(s, next, cand)
        }
    }
}

#[via_fn]
proof fn pick_line_dec(s: Seq<char>, i: int, cand: Option<Seq<char>>) {
    lemma_find_nl_range(s, i);
}

pub open spec fn is_digit(c: char) -> bool {
    '0' <= c && c <= '9'
}

/// First position at or after `i` that does not hold a digit.
pub open spec fn scan_digits(s: Seq<char>, i: int) -> int
    decreases s.len() - i,
{
    if i < 0 || i >= s.len() {
        i
    } else if is_digit(s[i]) {
        scan_digits(s, i + 1)
    } else {
        i
    }
}

pub proof fn lemma_scan_digits_range(s: Seq<char>, i: int)
    requires
        0 <= i <= s.len(),
    ensures
        i <= scan_digits(s, i) <= s.len(),
    decreases s.len() - i,
{
    if i < s.len() && is_digit(s[i]) {
        lemma_scan_digits_range(s, i + 1);
    }
}

/// Whether the line opens with an error code: `error[E` then four digits
/// then `]:`.
pub open spec fn has_error_code(l: Seq<char>) -> bool {
    &&& l.len() >= 13
    &&& matches_at(l, 0, "error[E"@)
    &&& is_digit(l[7])
    &&& is_digit(l[8])
    &&& is_digit(l[9])
    &&& is_digit(l[10])
    &&& l[11] == ']'
    &&& l[12] == ':'
}

/// The error-index address for an error code on a channel.
pub open spec fn error_index_url(channel: Channel, num: Seq<char>) -> Seq<char> {
    "https://doc.rust-lang.org/"@ + channel_str(channel) + "/error-index.html#"@ + num
}

/// The line with its leading error code linked to the error index.
pub open spec fn linkify_error(l: Seq<char>, channel: Channel) -> Seq<char> {
    if has_error_code(l) {
        let num = l.subrange(6, 11);
        "error<a href=\""@ + escape_attribute_spec(error_index_url(channel, num)) + "\">["@
            + num + "]</a>:"@ + l.skip(13)
    } else {
        l
    }
}

/// Smallest closing backtick position for a span opened at `open`: at
/// least one character of content, none of it a line feed.
pub open spec fn find_close(s: Seq<char>, open: int, j: int) -> Option<int>
    decreases s.len() - j,
{
    if j < 0 || j >= s.len() {
        None
    } else if s[j] == '`' && j > open + 1 {
        Some(j)
    } else if s[j] == '\n' {
        None
    } else {
        find_close(s, open, j + 1)
    }
}

/// The line with every backtick span wrapped in code tags: a backtick
/// opens a span closed by the nearest later backtick with non-empty,
/// single-line content; a backtick with no such closing stands as it is.
pub open spec fn linkify_code(s: Seq<char>, i: int) -> Seq<char>
    decreases s.len() - i,
    when 0 <= i <= s.len()
    via linkify_code_dec
{
    if i >= s.len() {
        Seq::empty()
    } else if s[i] == '`' {
        match find_close(s, i, i + 1) {
            Some(q) => "<code>"@ + s.subrange(i + 1, q) + "</code>"@ + linkify_code(s, q + 1),
            None => seq!['`'] + linkify_code(s, i + 1),
        }
    } else {
        seq![s[i]] + linkify_code(s, i + 1)
    }
}

pub proof fn lemma_find_close_range(s: Seq<char>, open: int, j: int)
    requires
        0 <= j <= s.len(),
    ensures
        match find_close(s, open, j) {
            Some(q) => j <= q < s.len(),
            None => true,
        },
    decreases s.len() - j,
{
    if j < s.len() && !(s[j] == '`' && j > open + 1) && s[j] != '\n' {
        lemma_find_close_range(s, open, j + 1);
    }
}

#[via_fn]
proof fn linkify_code_dec(s: Seq<char>, i: int) {
    if i < s.len() && s[i] == '`' {
        lemma_find_close_range(s, i, i + 1);
    }
}

/// Whether an issue reference `(see issue #` digits `)` starts at `i`.
pub open spec fn issue_ref_at(s: Seq<char>, i: int) -> bool {
    &&& matches_at(s, i, "(see issue #"@)
    &&& scan_digits(s, i + 12) > i + 12
    &&& scan_digits(s, i + 12) < s.len()
    &&& s[scan_digits(s, i + 12)] == ')'
}

/// Position of the first issue reference at or after `i`, or the length.
pub open spec fn find_issue_ref(s: Seq<char>, i: int) -> int
    decreases s.len() - i,
{
    if i < 0 || i >= s.len() {
        s.len() as int
    } else if issue_ref_at(s, i) {
        i
    } else {
        find_issue_ref(s, i + 1)
    }
}

/// The tracker address for an issue number.
pub open spec fn issue_url(num: Seq<char>) -> Seq<char> {
    "https://github.com/rust-lang/rust/issues/"@ + num
}

/// The line with its first issue reference linked to the tracker.
pub open spec fn linkify_issue(s: Seq<char>) -> Seq<char> {
    let p = find_issue_ref(s, 0);
    if p < s.len() {
        let e = scan_digits(s, p + 12);
        let num = s.subrange(p + 12, e);
        s.take(p) + "(see issue <a href=\""@ + issue_url(num) + "\">#"@ + num + "</a>)"@
            + s.skip(e + 1)
    } else {
        s
    }
}

/// The reply for one playground response.
pub open spec fn result_from_response_spec(
    stdout: Seq<char>,
    stderr: Seq<char>,
    success: bool,
    channel: Channel,
    is_private: bool,
) -> Seq<char> {
    if success {
        let output = trimmed(stdout);
        let shown = if is_private {
            output
        } else {
            truncate_spec(output, 3, 216)
        };
        if shown.len() == 0 {
            "(no output)"@
        } else {
            "<pre>"@ + escape_minimal_spec(shown) + "</pre>"@
        }
    } else {
        match pick_line(stderr, 0, None) {
            Some(line) => {
                let l1 = escape_minimal_spec(line);
                let l2 = linkify_error(l1, channel);
                let l3 = linkify_code(l2, 0);
                linkify_issue(l3)
            },
            None => "(nothing??)"@,
        }
    }
}


fn find_nl_exec(v: &Vec<char>, i: usize) -> (r: usize)
    requires
        i <= v@.len(),
    ensures
        r as int == find_nl(v@, i as int),
        i <= r <= v@.len(),
{
    let mut cur = i;
    while cur < v.len()
        invariant
            i <= cur <= v@.len(),
            find_nl(v@, i as int) == find_nl(v@, cur as int),
        decreases v@.len() - cur,
    {
        if v[cur] == '\n' {
            return cur;
        }
        cur = cur + 1;
    }
    cur
}

fn is_noise_exec(l: &Vec<char>) -> (r: bool)
    ensures
        r == is_noise(l@),
{
    if l.len() == 0 {
        return true;
    }
    let c = str_chars("Compiling");
    let f = str_chars("Finished");
    let ru = str_chars("Running");
    crate::eval_code::matches_at_exec(l, 0, &c) || crate::eval_code::matches_at_exec(
        l,
        0,
        &f,
    ) || crate::eval_code::matches_at_exec(l, 0, &ru)
}

fn pick_line_exec(v: &Vec<char>) -> (r: Option<Vec<char>>)
    ensures
        match pick_line(v@, 0, None) {
            Some(l) => r matches Some(rl) && rl@ == l,
            None => r is None,
        },
{
    let ghost sv = v@;
    let mut i: usize = 0;
    let mut cand: Option<Vec<char>> = None;
    let ghost cand0: Option<Seq<char>> = None;
    proof {
        assert(pick_line(sv, 0, None) == pick_line(sv, i as int, cand0));
    }
    let err = str_chars("error");
    let mut out: Option<Vec<char>> = None;
    let mut found = false;
    while !found && i < v.len()
        invariant
            sv == v@,
            err@ == "error"@,
            0 <= i <= sv.len(),
            !found ==> match cand {
                Some(cv) => pick_line(sv, 0, None) == pick_line(
                    sv,
                    i as int,
                    Some(cv@),
                ),
                None => pick_line(sv, 0, None) == pick_line(sv, i as int, None),
            },
            found ==> match out {
                Some(ov) => pick_line(sv, 0, None) == Some(ov@),
                None => false,
            },
        decreases sv.len() - i + (if found { 0int } else { 1int }),
    {
        let e = find_nl_exec(v, i);
        let seg = sub_chars(v, i, e);
        let seg_s = chars_string(&seg);
        let line = crate::command::trim_exec(seg_s.as_str());
        let next = if e < v.len() {
            e + 1
        } else {
            e
        };
        if is_noise_exec(&line) {
            i = next;
        } else if crate::eval_code::matches_at_exec(&line, 0, &err) {
            out = Some(line);
            found = true;
        } else {
            match &cand {
                Some(_) => {
                    i = next;
                },
                None => {
                    cand = Some(line);
                    i = next;
                },
            }
        }
    }
    if found {
        out
    } else {
        cand
    }
}

fn find_close_exec(v: &Vec<char>, open: usize, j: usize) -> (r: Option<usize>)
    requires
        j <= v@.len(),
    ensures
        match find_close(v@, open as int, j as int) {
            Some(q) => r == Some(q as usize) && j <= q < v@.len(),
            None => r is None,
        },
{
    proof {
        lemma_find_close_range(v@, open as int, j as int);
    }
    let mut cur = j;
    while cur < v.len()
        invariant
            j <= cur <= v@.len(),
            find_close(v@, open as int, j as int) == find_close(v@, open as int, cur as int),
        decreases v@.len() - cur,
    {
        if v[cur] == '`' && cur > open && cur - open > 1 {
            return Some(cur);
        }
        if v[cur] == '\n' {
            return None;
        }
        cur = cur + 1;
    }
    None
}

fn linkify_code_exec(v: &Vec<char>) -> (r: Vec<char>)
    ensures
        r@ == linkify_code(v@, 0),
{
    let ghost sv = v@;
    let mut out: Vec<char> = Vec::new();
    let mut i: usize = 0;
    while i < v.len()
        invariant
            sv == v@,
            0 <= i <= sv.len(),
            out@ + linkify_code(sv, i as int) == linkify_code(sv, 0),
        decreases sv.len() - i,
    {
        let c = v[i];
        if c == '`' {
            match find_close_exec(v, i, i + 1) {
                Some(q) => {
                    let mut t = str_chars("<code>");
                    out.append(&mut t);
                    let mut span = sub_chars(v, i + 1, q);
                    out.append(&mut span);
                    let mut t = str_chars("</code>");
                    out.append(&mut t);
                    proof {
                        assert(out@ + linkify_code(sv, q as int + 1) =~= linkify_code(sv, 0));
                    }
                    i = q + 1;
                },
                None => {
                    out.push('`');
                    proof {
                        assert(out@ + linkify_code(sv, i as int + 1) =~= linkify_code(sv, 0));
                    }
                    i = i + 1;
                },
            }
        } else {
            out.push(c);
            proof {
                assert(out@ + linkify_code(sv, i as int + 1) =~= linkify_code(sv, 0));
            }
            i = i + 1;
        }
    }
    proof {
        assert(out@ =~= linkify_code(sv, 0));
    }
    out
}

fn is_digit_exec(c: char) -> (r: bool)
    ensures
        r == is_digit(c),
{
    '0' <= c && c <= '9'
}

fn linkify_error_exec(l: &Vec<char>, channel: Channel) -> (r: Vec<char>)
    ensures
        r@ == linkify_error(l@, channel),
{
    let pre = str_chars("error[E");
    let coded: bool = l.len() >= 13 && crate::eval_code::matches_at_exec(l, 0, &pre)
        && is_digit_exec(l[7]) && is_digit_exec(l[8]) && is_digit_exec(l[9]) && is_digit_exec(
        l[10],
    ) && l[11] == ']' && l[12] == ':';
    if !coded {
        return l.clone();
    }
    let num = sub_chars(l, 6, 11);
    let num_s = chars_string(&num);
    let mut url = String::from_str("https://doc.rust-lang.org/");
    url.append(channel.as_str());
    url.append("/error-index.html#");
    url.append(num_s.as_str());
    proof {
        assert(url@ =~= error_index_url(channel, num@));
    }
    let escaped = encode_attribute(url.as_str());
    let mut out = str_chars("error<a href=\"");
    let mut t = str_chars(escaped.as_str());
    out.append(&mut t);
    let mut t = str_chars("\">[");
    out.append(&mut t);
    let mut t = sub_chars(l, 6, 11);
    out.append(&mut t);
    let mut t = str_chars("]</a>:");
    out.append(&mut t);
    let mut t = sub_chars(l, 13, l.len());
    out.append(&mut t);
    proof {
        assert(out@ =~= linkify_error(l@, channel));
    }
    out
}

fn scan_digits_exec(v: &Vec<char>, i: usize) -> (r: usize)
    requires
        i <= v@.len(),
    ensures
        r as int == scan_digits(v@, i as int),
        i <= r <= v@.len(),
{
    let mut cur = i;
    while cur < v.len()
        invariant
            i <= cur <= v@.len(),
            scan_digits(v@, i as int) == scan_digits(v@, cur as int),
        decreases v@.len() - cur,
    {
        let c = v[cur];
        if !is_digit_exec(c) {
            return cur;
        }
        cur = cur + 1;
    }
    cur
}

fn issue_ref_at_exec(v: &Vec<char>, i: usize) -> (r: bool)
    requires
        i <= v@.len(),
    ensures
        r == issue_ref_at(v@, i as int),
{
    let vl = v.len();
    let pre = str_chars("(see issue #");
    if !crate::eval_code::matches_at_exec(v, i, &pre) {
        return false;
    }
    proof {
        reveal_strlit("(see issue #");
        assert(i + 12 <= vl);
    }
    let e = scan_digits_exec(v, i + 12);
    e > i + 12 && e < v.len() && v[e] == ')'
}

fn linkify_issue_exec(v: &Vec<char>) -> (r: Vec<char>)
    ensures
        r@ == linkify_issue(v@),
{
    let ghost sv = v@;
    let mut i: usize = 0;
    while i < v.len()
        invariant
            sv == v@,
            0 <= i <= sv.len(),
            find_issue_ref(sv, 0) == find_issue_ref(sv, i as int),
        decreases sv.len() - i,
    {
        if issue_ref_at_exec(v, i) {
            let e = scan_digits_exec(v, i + 12);
            let num = sub_chars(v, i + 12, e);
            let num_s = chars_string(&num);
            let mut out = sub_chars(v, 0, i);
            let mut t = str_chars("(see issue <a href=\"");
            out.append(&mut t);
            let mut t = str_chars("https://github.com/rust-lang/rust/issues/");
            out.append(&mut t);
            let mut t = sub_chars(v, i + 12, e);
            out.append(&mut t);
            let mut t = str_chars("\">#");
            out.append(&mut t);
            let mut t = sub_chars(v, i + 12, e);
            out.append(&mut t);
            let mut t = str_chars("</a>)");
            out.append(&mut t);
            let mut t = sub_chars(v, e + 1, v.len());
            out.append(&mut t);
            proof {
                assert(out@ =~= linkify_issue(sv));
            }
            return out;
        }
        i = i + 1;
    }
    let out = sub_chars(v, 0, v.len());
    proof {
        assert(out@ =~= sv);
        assert(find_issue_ref(sv, 0) == sv.len());
    }
    out
}

/// Turn one playground response into the reply text.
pub fn generate_result_from_response(resp: &PlayResponse, channel: Channel, is_private: bool) -> (r:
    String)
    ensures
        r@ == result_from_response_spec(
            resp.stdout@,
            resp.stderr@,
            resp.success,
            channel,
            is_private,
        ),
{
    if resp.success {
        let output = crate::command::trim_exec(resp.stdout.as_str());
        let output_s = chars_string(&output);
        let shown: String = if is_private {
            output_s
        } else {
            truncate_output(output_s.as_str(), 3, 216)
        };
        if shown.as_str().is_empty() {
            String::from_str("(no output)")
        } else {
            let mut out = String::from_str("<pre>");
            let escaped = encode_minimal(shown.as_str());
            out.append(escaped.as_str());
            out.append("</pre>");
            proof {
                assert(out@ =~= result_from_response_spec(
                    resp.stdout@,
                    resp.stderr@,
                    resp.success,
                    channel,
                    is_private,
                ));
            }
            out
        }
    } else {
        let sev = str_chars(resp.stderr.as_str());
        match pick_line_exec(&sev) {
            Some(line) => {
                let line_s = chars_string(&line);
                let escaped = encode_minimal(line_s.as_str());
                let l1 = str_chars(escaped.as_str());
                let l2 = linkify_error_exec(&l1, channel);
                let l3 = linkify_code_exec(&l2);
                let l4 = linkify_issue_exec(&l3);
                chars_string(&l4)
            },
            None => String::from_str("(nothing??)"),
        }
    }
}

} // verus!
