//! Text utilities: character classes, display-width-aware output
//! truncation, and normalization of look-alike punctuation.

use vstd::prelude::*;
use vstd::string::StringExecFns;

verus! {

/// Whether a character has the Unicode `White_Space` property.
pub uninterp spec fn is_unicode_whitespace(c: char) -> bool;

/// Whether a character is Unicode-alphanumeric.
pub uninterp spec fn is_unicode_alphanumeric(c: char) -> bool;

/// A character's displayed width in columns under East Asian rules, or
/// `None` for a control character.
pub uninterp spec fn char_width_cjk(c: char) -> Option<usize>;

/// Relies on `char::is_whitespace`: true exactly for characters with the
/// Unicode `White_Space` property, which among ASCII are space, tab, line
/// feed, vertical tab, form feed and carriage return.
#[verifier::external_body]
pub fn is_whitespace_char(c: char) -> (r: bool)
    ensures
        r == is_unicode_whitespace(c),
        (c as u32) < 128 ==> (r <==> (c == ' ' || c == '\t' || c == '\n' || c == '\u{b}'
            || c == '\u{c}' || c == '\r')),
{
    c.is_whitespace()
}

/// Relies on `char::is_alphanumeric`: true for Unicode letters and
/// numbers, which among ASCII are exactly the letters and digits.
#[verifier::external_body]
pub fn is_alphanumeric_char(c: char) -> (r: bool)
    ensures
        r == is_unicode_alphanumeric(c),
        (c as u32) < 128 ==> (r <==> (('a' <= c && c <= 'z') || ('A' <= c && c <= 'Z') || ('0'
            <= c && c <= '9'))),
{
    c.is_alphanumeric()
}

/// Relies on `unicode_width::UnicodeWidthChar::width_cjk`: the displayed
/// width of the character with ambiguous-width characters counted as two
/// columns, `None` for control characters, one column for printable
/// ASCII, and at most three columns for anything (the width tables store
/// two-bit entries, and the widest special case is three).
#[verifier::external_body]
pub fn width_cjk(c: char) -> (r: Option<usize>)
    ensures
        r == char_width_cjk(c),
        (' ' <= c && c <= '\u{7e}') ==> r == Some(1usize),
        match r {
            Some(w) => w <= 3,
            None => true,
        },
{
    unicode_width::UnicodeWidthChar::width_cjk(c)
}

/// Relies on `str::chars` collected into a vector: the characters of the
/// string, in order.
#[verifier::external_body]
pub fn str_chars(s: &str) -> (v: Vec<char>)
    ensures
        v@ == s@,
{
    s.chars().collect()
}

/// Relies on `FromIterator<char> for String`: the string made of exactly
/// these characters, in order.
#[verifier::external_body]
pub fn chars_string(v: &Vec<char>) -> (s: String)
    ensures
        s@ == v@,
{
    v.iter().collect()
}

/// The column width a character counts for in truncation: its displayed
/// width, or one column for a control character.
pub open spec fn ewidth(c: char) -> nat {
    match char_width_cjk(c) {
        Some(w) => w as nat,
        None => 1,
    }
}

pub open spec fn ellipsis() -> Seq<char> {
    seq!['.', '.', '.']
}

/// Walk back from position `j`, accumulating width on top of `acc`, to the
/// position where at least three columns have been gathered: the cut point
/// that makes room for the ellipsis.
pub open spec fn cut_back(s: Seq<char>, j: int, acc: nat) -> Option<int>
    decreases j + 1,
{
    if j < 0 {
        None
    } else {
        let a2 = acc + ewidth(s[j]);
        if a2 >= 3 {
            Some(j)
        } else {
            cut_back(s, j - 1, a2)
        }
    }
}

/// The truncation scan from position `i`, with `lines` newlines and `cols`
/// columns already counted: the first character that pushes the column
/// count over the limit cuts the text three columns back for an ellipsis;
/// the newline that completes `max_lines` lines cuts it there; otherwise
/// the text is returned whole.
pub open spec fn trunc_from(
    s: Seq<char>,
    i: int,
    lines: nat,
    cols: nat,
    max_lines: int,
    max_cols: int,
) -> Seq<char>
    decreases s.len() - i,
{
    if i < 0 || i >= s.len() {
        s
    } else {
        let w = cols + ewidth(s[i]);
        let cut = if w > max_cols {
            cut_back(s, i - 1, 0)
        } else {
            None
        };
        match cut {
            Some(j) => s.take(j) + ellipsis(),
            None => {
                if s[i] == '\n' && lines + 1 == max_lines {
                    s.take(i) + ellipsis()
                } else {
                    trunc_from(
                        s,
                        i + 1,
                        if s[i] == '\n' {
                            lines + 1
                        } else {
                            lines
                        },
                        w,
                        max_lines,
                        max_cols,
                    )
                }
            },
        }
    }
}

pub open spec fn truncate_spec(s: Seq<char>, max_lines: int, max_cols: int) -> Seq<char> {
    trunc_from(s, 0, 0, 0, max_lines, max_cols)
}

/// Cut off output that runs past `max_lines` lines or `max_total_columns`
/// display columns, ending a truncated result with `...` in the space
/// freed by dropping at least three columns.
pub fn truncate_output(output: &str, max_lines: usize, max_total_columns: usize) -> (r: String)
    ensures
        r@ == truncate_spec(output@, max_lines as int, max_total_columns as int),
{
    let s = str_chars(output);
    let ghost sv = s@;
    let mut i: usize = 0;
    let mut line_count: usize = 0;
    let mut column_count: u128 = 0;
    while i < s.len()
        invariant
            sv == s@,
            sv == output@,
            0 <= i <= sv.len(),
            line_count <= i,
            column_count as nat <= i as nat * (usize::MAX as nat),
            truncate_spec(sv, max_lines as int, max_total_columns as int) == trunc_from(
                sv,
                i as int,
                line_count as nat,
                column_count as nat,
                max_lines as int,
                max_total_columns as int,
            ),
        decreases sv.len() - i,
    {
        let c = s[i];
        let w = match width_cjk(c) {
            Some(w) => w,
            None => 1,
        };
        proof {
            assert(column_count as nat + w as nat <= (i as nat + 1) * (usize::MAX as nat)) by (nonlinear_arith)
                requires
                    column_count as nat <= i as nat * (usize::MAX as nat),
                    w as nat <= usize::MAX as nat,
            ;
            assert((i as nat + 1) * (usize::MAX as nat) <= (usize::MAX as nat) * (usize::MAX
                as nat)) by (nonlinear_arith)
                requires
                    i as nat + 1 <= usize::MAX as nat,
            ;
            assert((usize::MAX as nat) * (usize::MAX as nat) < u128::MAX as nat) by (nonlinear_arith);
        }
        let new_cols: u128 = column_count + (w as u128);
        if new_cols > max_total_columns as u128 {
            // Not enough room: walk back far enough to free at least
            // three columns for the ellipsis.
            let mut j: usize = i;
            let mut acc: u128 = 0;
            while j > 0
                invariant
                    sv == s@,
                    sv == output@,
                    0 <= j <= i < sv.len(),
                    acc as nat <= (i as nat - j as nat) * (usize::MAX as nat),
                    acc < 3,
                    cut_back(sv, i as int - 1, 0) == cut_back(sv, j as int - 1, acc as nat),
                    column_count as nat + ewidth(sv[i as int]) > max_total_columns as int,
                    truncate_spec(sv, max_lines as int, max_total_columns as int) == trunc_from(
                        sv,
                        i as int,
                        line_count as nat,
                        column_count as nat,
                        max_lines as int,
                        max_total_columns as int,
                    ),
                decreases j,
            {
                let cb = s[j - 1];
                let wb = match width_cjk(cb) {
                    Some(w) => w,
                    None => 1,
                };
                proof {
                    assert(acc as nat + wb as nat <= (i as nat - j as nat + 1) * (usize::MAX
                        as nat)) by (nonlinear_arith)
                        requires
                            acc as nat <= (i as nat - j as nat) * (usize::MAX as nat),
                            wb as nat <= usize::MAX as nat,
                    ;
                    assert((i as nat - j as nat + 1) * (usize::MAX as nat) <= (usize::MAX as nat)
                        * (usize::MAX as nat)) by (nonlinear_arith)
                        requires
                            i as nat - j as nat + 1 <= usize::MAX as nat,
                    ;
                    assert((usize::MAX as nat) * (usize::MAX as nat) < u128::MAX as nat)
                        by (nonlinear_arith);
                }
                let new_acc: u128 = acc + (wb as u128);
                if new_acc >= 3 {
                    let mut prefix: Vec<char> = Vec::new();
                    let mut k: usize = 0;
                    while k < j - 1
                        invariant
                            sv == s@,
                            0 <= k <= j - 1 < sv.len(),
                            prefix@ == sv.take(j as int - 1).take(k as int),
                        decreases j - 1 - k,
                    {
                        prefix.push(s[k]);
                        proof {
                            assert(prefix@ =~= sv.take(j as int - 1).take(k as int + 1));
                        }
                        k = k + 1;
                    }
                    proof {
                        assert(prefix@ =~= sv.take(j as int - 1));
                    }
                    let mut out = chars_string(&prefix);
                    out.append("...");
                    proof {
                        reveal_strlit("...");
                        assert("..."@ =~= ellipsis());
                    }
                    return out;
                }
                acc = new_acc;
                j = j - 1;
            }
            // Less than three columns of text precede the overflow: no
            // room is freed, so the scan continues uncut.
        }
        if c == '\n' {
            if line_count + 1 == max_lines {
                let mut prefix: Vec<char> = Vec::new();
                let mut k: usize = 0;
                while k < i
                    invariant
                        sv == s@,
                        0 <= k <= i < sv.len(),
                        prefix@ == sv.take(i as int).take(k as int),
                    decreases i - k,
                {
                    prefix.push(s[k]);
                    proof {
                        assert(prefix@ =~= sv.take(i as int).take(k as int + 1));
                    }
                    k = k + 1;
                }
                proof {
                    assert(prefix@ =~= sv.take(i as int));
                }
                let mut out = chars_string(&prefix);
                out.append("...");
                proof {
                    reveal_strlit("...");
                    assert("..."@ =~= ellipsis());
                }
                return out;
            }
            line_count = line_count + 1;
        }
        column_count = new_cols;
        i = i + 1;
    }
    proof {
        assert(truncate_spec(sv, max_lines as int, max_total_columns as int) == sv);
    }
    let out = String::from_str(output);
    out
}

/// The replacement for one character: curly quotation marks become their
/// straight look-alikes and an em dash becomes two hyphens; everything
/// else stands.
pub open spec fn normalize_char(c: char) -> Seq<char> {
    if c == '\u{201c}' || c == '\u{201d}' {
        seq!['"']
    } else if c == '\u{2018}' || c == '\u{2019}' {
        seq!['\'']
    } else if c == '\u{2014}' {
        seq!['-', '-']
    } else {
        seq![c]
    }
}

pub open spec fn normalize_from(s: Seq<char>, i: int) -> Seq<char>
    decreases s.len() - i,
{
    if i < 0 || i >= s.len() {
        Seq::empty()
    } else {
        normalize_char(s[i]) + normalize_from(s, i + 1)
    }
}

pub open spec fn normalize_spec(s: Seq<char>) -> Seq<char> {
    normalize_from(s, 0)
}

/// Normalize punctuation that is easy to type by mistake — curly quotes
/// and the em dash — to the ASCII characters the compiler expects.
pub fn normalize_unicode_chars(inputs: &str) -> (r: String)
    ensures
        r@ == normalize_spec(inputs@),
{
    let s = str_chars(inputs);
    let ghost sv = s@;
    let mut out: Vec<char> = Vec::new();
    let mut i: usize = 0;
    while i < s.len()
        invariant
            sv == s@,
            sv == inputs@,
            0 <= i <= sv.len(),
            out@ + normalize_from(sv, i as int) == normalize_spec(sv),
        decreases sv.len() - i,
    {
        let c = s[i];
        if c == '\u{201c}' || c == '\u{201d}' {
            out.push('"');
        } else if c == '\u{2018}' || c == '\u{2019}' {
            out.push('\'');
        } else if c == '\u{2014}' {
            out.push('-');
            out.push('-');
        } else {
            out.push(c);
        }
        proof {
            assert(out@ + normalize_from(sv, i as int + 1) =~= normalize_spec(sv));
        }
        i = i + 1;
    }
    proof {
        assert(out@ =~= normalize_spec(sv));
    }
    chars_string(&out)
}

/// Whether the characters spell exactly this text.
pub fn chars_eq_str(v: &Vec<char>, w: &str) -> (r: bool)
    ensures
        r == (v@ == w@),
{
    let wc = str_chars(w);
    if v.len() != wc.len() {
        return false;
    }
    let mut k: usize = 0;
    while k < v.len()
        invariant
            v@.len() == wc@.len(),
            wc@ == w@,
            0 <= k <= v@.len(),
            forall|t: int| 0 <= t < k ==> v@[t] == wc@[t],
        decreases v@.len() - k,
    {
        if v[k] != wc[k] {
            return false;
        }
        k = k + 1;
    }
    proof {
        assert(v@ =~= w@);
    }
    true
}


/// Copy out a slice of the characters.
pub fn sub_chars(s: &Vec<char>, from: usize, to: usize) -> (r: Vec<char>)
    requires
        from <= to <= s@.len(),
    ensures
        r@ == s@.subrange(from as int, to as int),
{
    let mut out: Vec<char> = Vec::new();
    let mut k = from;
    while k < to
        invariant
            from <= k <= to <= s@.len(),
            out@ == s@.subrange(from as int, k as int),
        decreases to - k,
    {
        out.push(s[k]);
        proof {
            assert(out@ =~= s@.subrange(from as int, k as int + 1));
        }
        k = k + 1;
    }
    out
}



/// The total display width of the characters from position `i` on.
pub open spec fn seq_ewidth_from(s: Seq<char>, i: int) -> nat
    decreases s.len() - i,
{
    if i < 0 || i >= s.len() {
        0
    } else {
        ewidth(s[i]) + seq_ewidth_from(s, i + 1)
    }
}

/// The total display width of a text.
pub open spec fn seq_ewidth(s: Seq<char>) -> nat {
    seq_ewidth_from(s, 0)
}

/// Sum up the display width of the characters.
pub fn vec_ewidth(v: &Vec<char>) -> (r: u128)
    ensures
        r as nat == seq_ewidth(v@),
        r as nat <= v@.len() * 3,
{
    let mut total: u128 = 0;
    let mut i: usize = 0;
    while i < v.len()
        invariant
            0 <= i <= v@.len(),
            total as nat <= i as nat * 3,
            total as nat + seq_ewidth_from(v@, i as int) == seq_ewidth(v@),
        decreases v@.len() - i,
    {
        let c = v[i];
        let w = match width_cjk(c) {
            Some(w) => w,
            None => 1,
        };
        proof {
            assert(total as nat + w as nat <= (i as nat + 1) * 3) by (nonlinear_arith)
                requires
                    total as nat <= i as nat * 3,
                    w as nat <= 3,
            ;
            assert((i as nat + 1) * 3 <= (usize::MAX as nat) * 3) by (nonlinear_arith)
                requires
                    i as nat + 1 <= usize::MAX as nat,
            ;
            assert((usize::MAX as nat) * 3 < u128::MAX as nat) by (nonlinear_arith);
        }
        total = total + (w as u128);
        i = i + 1;
    }
    proof {
        assert(total as nat <= v@.len() * 3) by (nonlinear_arith)
            requires
                total as nat <= v@.len() * 3,
        ;
    }
    total
}


/// The character with an ASCII capital letter lowered, every other
/// character unchanged.
pub open spec fn lower_char(c: char) -> char {
    if 'A' <= c && c <= 'Z' {
        (((c as u8) + 32) as char)
    } else {
        c
    }
}

pub open spec fn lower_from(s: Seq<char>, i: int) -> Seq<char>
    decreases s.len() - i,
{
    if i < 0 || i >= s.len() {
        Seq::empty()
    } else {
        seq![lower_char(s[i])] + lower_from(s, i + 1)
    }
}

/// The text with its ASCII capital letters lowered.
pub open spec fn ascii_lower_spec(s: Seq<char>) -> Seq<char> {
    lower_from(s, 0)
}

/// Lower the ASCII capital letters of the text; everything else stands.
pub fn ascii_lowercase(s: &str) -> (r: String)
    ensures
        r@ == ascii_lower_spec(s@),
{
    let v = str_chars(s);
    let ghost sv = v@;
    let mut out: Vec<char> = Vec::new();
    let mut i: usize = 0;
    while i < v.len()
        invariant
            sv == v@,
            sv == s@,
            0 <= i <= sv.len(),
            out@ + lower_from(sv, i as int) == ascii_lower_spec(sv),
        decreases sv.len() - i,
    {
        let c = v[i];
        if 'A' <= c && c <= 'Z' {
            out.push(((c as u8) + 32) as char);
        } else {
            out.push(c);
        }
        proof {
            assert(out@ + lower_from(sv, i as int + 1) =~= ascii_lower_spec(sv));
        }
        i = i + 1;
    }
    proof {
        assert(out@ =~= ascii_lower_spec(sv));
    }
    chars_string(&out)
}

} // verus!
