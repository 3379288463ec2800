//! Matching a query path against documentation index items, and rendering
//! the matches.

use vstd::prelude::*;
use vstd::string::{StringExecFns, StringSliceAdditionalSpecFns};
use sha2::Digest;
use crate::escape::{encode_minimal, encode_with_code, encode_with_code_spec, escape_minimal_spec};
use crate::text::{
    chars_eq_str, chars_string, seq_ewidth, str_chars, sub_chars, truncate_output, truncate_spec,
    vec_ewidth,
};

verus! {

/// The kind of a documentation item's name, as far as rendering and
/// ordering care.
#[derive(Clone, Copy, Debug, PartialEq, Eq, PartialOrd, Ord, Structural)]
pub enum ItemType {
    Keyword,
    Primitive,
    Macro,
    Other,
}

impl ItemType {
    pub fn is_keyword_or_primitive(&self) -> (r: bool)
        ensures
            r == (*self == ItemType::Keyword || *self == ItemType::Primitive),
    {
        match self {
            ItemType::Keyword => true,
            ItemType::Primitive => true,
            _ => false,
        }
    }

    pub fn is_macro(&self) -> (r: bool)
        ensures
            r == (*self == ItemType::Macro),
    {
        match self {
            ItemType::Macro => true,
            _ => false,
        }
    }
}

/// The crate root a query can name.
#[derive(Clone, Copy, Debug, PartialEq, Eq, Structural)]
pub enum RootLevel {
    Alloc,
    Core,
    Std,
}

pub open spec fn root_from_spec(s: Seq<char>) -> Option<RootLevel> {
    if s == "alloc"@ {
        Some(RootLevel::Alloc)
    } else if s == "core"@ {
        Some(RootLevel::Core)
    } else if s == "std"@ {
        Some(RootLevel::Std)
    } else {
        None
    }
}

pub open spec fn root_str(r: RootLevel) -> Seq<char> {
    match r {
        RootLevel::Alloc => "alloc"@,
        RootLevel::Core => "core"@,
        RootLevel::Std => "std"@,
    }
}

impl RootLevel {
    pub fn from_str(s: &str) -> (r: Option<RootLevel>)
        ensures
            r == root_from_spec(s@),
    {
        let v = str_chars(s);
        if chars_eq_str(&v, "alloc") {
            Some(RootLevel::Alloc)
        } else if chars_eq_str(&v, "core") {
            Some(RootLevel::Core)
        } else if chars_eq_str(&v, "std") {
            Some(RootLevel::Std)
        } else {
            None
        }
    }

    pub fn as_str(&self) -> (r: &'static str)
        ensures
            r@ == root_str(*self),
    {
        match self {
            RootLevel::Alloc => "alloc",
            RootLevel::Core => "core",
            RootLevel::Std => "std",
        }
    }
}

/// The parent of an associated item: a type or trait name with its kind.
#[derive(Clone, Debug, PartialEq, Eq)]
pub struct DocParent {
    pub kind: ItemType,
    pub name: String,
}

/// One documentation index item, as the matching and rendering read it:
/// the kind and text of its name, its parent if it is an associated item,
/// its module path, and its description.
#[derive(Clone, Debug, PartialEq, Eq)]
pub struct DocItem {
    pub kind: ItemType,
    pub name: String,
    pub parent: Option<DocParent>,
    pub path: String,
    pub desc: String,
}

/// Position of the next `::` separator at or after `i`, or the length.
pub open spec fn find_sep(s: Seq<char>, i: int) -> int
    decreases s.len() - i,
{
    if i < 0 || i + 2 > s.len() {
        s.len() as int
    } else if s[i] == ':' && s[i + 1] == ':' {
        i
    } else {
        find_sep(s, i + 1)
    }
}

pub proof fn lemma_find_sep_range(s: Seq<char>, i: int)
    requires
        0 <= i <= s.len(),
    ensures
        i <= find_sep(s, i) <= s.len(),
    decreases s.len() - i,
{
    if i + 2 <= s.len() && !(s[i] == ':' && s[i + 1] == ':') {
        lemma_find_sep_range(s, i + 1);
    }
}

/// The segments of `s` from position `i`, split on `::`.
pub open spec fn split_sep_from(s: Seq<char>, i: int) -> Seq<Seq<char>>
    decreases s.len() - i + 2,
    when 0 <= i <= s.len()
    via split_sep_dec
{
    let j = find_sep(s, i);
    if j >= s.len() {
        seq![s.subrange(i, s.len() as int)]
    } else {
        seq![s.subrange(i, j)] + split_sep_from(s, j + 2)
    }
}

#[via_fn]
proof fn split_sep_dec(s: Seq<char>, i: int) {
    lemma_find_sep_range(s, i);
}

pub open spec fn split_sep(s: Seq<char>) -> Seq<Seq<char>> {
    split_sep_from(s, 0)
}

/// Whether `n` occurs contiguously inside `h`.
pub open spec fn contains_sub(h: Seq<char>, n: Seq<char>) -> bool {
    exists|t: int| 0 <= t && t + n.len() <= h.len() && #[trigger] h.subrange(t, t + n.len()) == n
}

/// Whether `n` occurs in `h` starting at `t`.
fn match_at(h: &Vec<char>, n: &Vec<char>, t: usize) -> (r: bool)
    requires
        t + n@.len() <= h@.len(),
    ensures
        r == (h@.subrange(t as int, t as int + n@.len() as int) == n@),
{
    let hl = h.len();
    let mut k: usize = 0;
    while k < n.len()
        invariant
            hl == h@.len(),
            t + n@.len() <= h@.len(),
            0 <= k <= n@.len(),
            forall|q: int| 0 <= q < k ==> h@[t + q] == n@[q],
        decreases n@.len() - k,
    {
        if h[t + k] != n[k] {
            proof {
                assert(h@.subrange(t as int, t as int + n@.len() as int)[k as int] == h@[t
                    + k]);
            }
            return false;
        }
        k = k + 1;
    }
    proof {
        assert(h@.subrange(t as int, t as int + n@.len() as int) =~= n@);
    }
    true
}

pub fn contains_sub_exec(h: &Vec<char>, n: &Vec<char>) -> (r: bool)
    ensures
        r == contains_sub(h@, n@),
{
    if n.len() > h.len() {
        return false;
    }
    let hl = h.len();
    let nl = n.len();
    let limit = hl - nl;
    let mut t: usize = 0;
    while t < limit
        invariant
            hl == h@.len(),
            nl == n@.len(),
            n@.len() <= h@.len(),
            limit == h@.len() - n@.len(),
            0 <= t <= limit,
            forall|q: int|
                0 <= q < t ==> #[trigger] h@.subrange(q, q + n@.len() as int) != n@,
        decreases limit - t,
    {
        if match_at(h, n, t) {
            return true;
        }
        t = t + 1;
    }
    if match_at(h, n, limit) {
        return true;
    }
    false
}

/// Whether every query level is found, in order, in the item path: each
/// level must occur inside some later segment.
pub open spec fn match_levels(segs: Seq<Seq<char>>, levels: Seq<Seq<char>>) -> bool
    decreases segs.len(),
{
    if levels.len() == 0 {
        true
    } else if segs.len() == 0 {
        false
    } else if contains_sub(segs[0], levels[0]) {
        match_levels(segs.drop_first(), levels.drop_first())
    } else {
        match_levels(segs.drop_first(), levels)
    }
}

fn match_levels_exec(segs: &Vec<Vec<char>>, levels: &Vec<Vec<char>>) -> (r: bool)
    ensures
        r == match_levels(
            segs@.map_values(|v: Vec<char>| v@),
            levels@.map_values(|v: Vec<char>| v@),
        ),
{
    let ghost gs = segs@.map_values(|v: Vec<char>| v@);
    let ghost gl = levels@.map_values(|v: Vec<char>| v@);
    proof {
        assert(gs.skip(0) =~= gs);
        assert(gl.skip(0) =~= gl);
    }
    let mut si: usize = 0;
    let mut li: usize = 0;
    while si < segs.len() && li < levels.len()
        invariant
            0 <= si <= gs.len(),
            0 <= li <= gl.len(),
            gs == segs@.map_values(|v: Vec<char>| v@),
            gl == levels@.map_values(|v: Vec<char>| v@),
            gs.len() == segs@.len(),
            gl.len() == levels@.len(),
            match_levels(gs, gl) == match_levels(gs.skip(si as int), gl.skip(li as int)),
        decreases gs.len() - si,
    {
        let hit = contains_sub_exec(&segs[si], &levels[li]);
        proof {
            assert(gs.skip(si as int)[0] == gs[si as int]);
            assert(gl.skip(li as int)[0] == gl[li as int]);
            assert(gs.skip(si as int).drop_first() =~= gs.skip(si as int + 1));
            assert(gl.skip(li as int).drop_first() =~= gl.skip(li as int + 1));
        }
        if hit {
            li = li + 1;
        }
        si = si + 1;
    }
    proof {
        if li == gl.len() {
            assert(gl.skip(li as int).len() == 0);
        } else {
            assert(gs.skip(si as int).len() == 0);
        }
    }
    li == levels.len()
}

/// The full path of an item as the matcher walks it: the module path's
/// segments, then the parent's name for an associated item.
pub open spec fn item_path_segs(item: DocItem) -> Seq<Seq<char>> {
    match item.parent {
        Some(p) => split_sep(item.path@) + seq![p.name@],
        None => split_sep(item.path@),
    }
}

/// What `matches_path` decides: the item path's first segment is the
/// queried root, and every query level occurs, in order, in the segments
/// after it.
pub open spec fn matches_path_spec(item: DocItem, root: RootLevel, levels: Seq<Seq<char>>) -> bool {
    let segs = item_path_segs(item);
    segs[0] == root_str(root) && match_levels(segs.drop_first(), levels)
}

/// Whether the item lies under the queried root and its path passes
/// through every query level in order.
pub fn matches_path(item: &DocItem, root: RootLevel, path: &Vec<String>) -> (r: bool)
    ensures
        r == matches_path_spec(*item, root, path@.map_values(|p: String| p@)),
{
    let segs = split_sep_exec(&item.path);
    let mut segs = segs;
    match &item.parent {
        Some(p) => {
            segs.push(str_chars(p.name.as_str()));
        },
        None => {},
    }
    proof {
        assert(segs@.map_values(|v: Vec<char>| v@) =~= item_path_segs(*item));
        assert(item_path_segs(*item).len() > 0) by {
            lemma_split_sep_nonempty(item.path@);
        }
    }
    if !chars_eq_str(&segs[0], root.as_str()) {
        return false;
    }
    let mut levels: Vec<Vec<char>> = Vec::new();
    let mut k: usize = 0;
    while k < path.len()
        invariant
            0 <= k <= path@.len(),
            levels@.len() == k,
            forall|q: int| 0 <= q < k ==> (#[trigger] levels@[q])@ == path@[q]@,
        decreases path@.len() - k,
    {
        levels.push(str_chars(path[k].as_str()));
        k = k + 1;
    }
    proof {
        assert(levels@.map_values(|v: Vec<char>| v@) =~= path@.map_values(|p: String| p@));
    }
    let rest = split_off_first(segs);
    let r = match_levels_exec(&rest, &levels);
    proof {
        assert(rest@.map_values(|v: Vec<char>| v@) =~= item_path_segs(*item).drop_first());
    }
    r
}

/// Splitting any text yields at least one segment.
pub proof fn lemma_split_sep_nonempty(s: Seq<char>)
    ensures
        split_sep(s).len() >= 1,
{
    lemma_find_sep_range(s, 0);
}

/// The segments after the first.
fn split_off_first(segs: Vec<Vec<char>>) -> (r: Vec<Vec<char>>)
    requires
        segs@.len() >= 1,
    ensures
        r@ == segs@.drop_first(),
{
    let mut segs = segs;
    let _ = segs.remove(0);
    segs
}

/// Split a path on `::`, as the matcher reads it.
fn split_sep_exec(s: &String) -> (r: Vec<Vec<char>>)
    ensures
        r@.map_values(|v: Vec<char>| v@) == split_sep(s@),
{
    let v = str_chars(s.as_str());
    split_sep_from_exec(&v, 0)
}

fn split_sep_from_exec(v: &Vec<char>, i: usize) -> (r: Vec<Vec<char>>)
    requires
        i <= v@.len(),
    ensures
        r@.map_values(|w: Vec<char>| w@) == split_sep_from(v@, i as int),
    decreases v@.len() - i,
{
    let mut j = i;
    while j < v.len() && j + 1 < v.len() && !(v[j] == ':' && v[j + 1] == ':')
        invariant
            i <= j,
            j <= v@.len(),
            find_sep(v@, i as int) == find_sep(v@, j as int),
        decreases v@.len() - j,
    {
        j = j + 1;
    }
    proof {
        lemma_find_sep_range(v@, i as int);
    }
    if v.len() - j < 2 {
        proof {
            assert(find_sep(v@, j as int) == v@.len());
        }
        let seg = sub_chars(v, i, v.len());
        let mut out: Vec<Vec<char>> = Vec::new();
        out.push(seg);
        proof {
            assert(out@.map_values(|w: Vec<char>| w@) =~= split_sep_from(v@, i as int));
        }
        out
    } else {
        let seg = sub_chars(v, i, j);
        let rest = split_sep_from_exec(v, j + 2);
        let ghost rest0 = rest@;
        let mut out: Vec<Vec<char>> = Vec::new();
        out.push(seg);
        let mut rest = rest;
        out.append(&mut rest);
        proof {
            assert(out@ =~= seq![seg].add(rest0));
            assert(out@.map_values(|w: Vec<char>| w@) =~= seq![seg@].add(
                rest0.map_values(|w: Vec<char>| w@),
            ));
        }
        out
    }
}

/// A query split into its root, intermediate levels, and final name.
#[derive(Debug, PartialEq, Eq)]
pub struct QueryPath {
    pub root: RootLevel,
    pub path: Vec<String>,
    pub name: String,
}

/// What `split_path` decides, over the query's segments: an explicit
/// root is peeled off (`std` is assumed otherwise), the last segment is
/// the name searched for, and the rest are the levels in between. A query
/// without a name is rejected.
pub open spec fn split_path_spec(segs: Seq<Seq<char>>) -> Option<(RootLevel, Seq<Seq<char>>, Seq<
    char,
>)> {
    if segs.len() == 0 {
        None
    } else {
        let peeled = match root_from_spec(segs[0]) {
            Some(r) => (r, segs.drop_first()),
            None => (RootLevel::Std, segs),
        };
        if peeled.1.len() == 0 {
            None
        } else {
            Some((peeled.0, peeled.1.drop_last(), peeled.1.last()))
        }
    }
}

/// Split the query segments into root, levels and name.
pub fn split_path(path: &Vec<String>) -> (r: Option<QueryPath>)
    ensures
        match split_path_spec(path@.map_values(|p: String| p@)) {
            None => r is None,
            Some(m) => match r {
                Some(q) => {
                    &&& q.root == m.0
                    &&& q.path@.map_values(|p: String| p@) == m.1
                    &&& q.name@ == m.2
                },
                None => false,
            },
        },
{
    let ghost gsegs = path@.map_values(|p: String| p@);
    if path.len() == 0 {
        return None;
    }
    let explicit = RootLevel::from_str(path[0].as_str());
    let (root, start): (RootLevel, usize) = match explicit {
        Some(r) => (r, 1),
        None => (RootLevel::Std, 0),
    };
    proof {
        if explicit is Some {
            assert(gsegs.drop_first() =~= gsegs.skip(1));
        } else {
            assert(gsegs =~= gsegs.skip(0));
        }
    }
    if start == path.len() {
        return None;
    }
    let mut levels: Vec<String> = Vec::new();
    let mut k: usize = start;
    let pl = path.len();
    while k + 1 < pl
        invariant
            pl == path@.len(),
            start <= k,
            k + 1 <= path@.len(),
            gsegs == path@.map_values(|p: String| p@),
            levels@.len() == k - start,
            forall|q: int| 0 <= q < levels@.len() ==> (#[trigger] levels@[q])@ == path@[start
                + q]@,
        decreases path@.len() - k,
    {
        levels.push(path[k].clone());
        k = k + 1;
    }
    let name = path[path.len() - 1].clone();
    proof {
        assert(levels@.map_values(|p: String| p@) =~= gsegs.skip(start as int).drop_last());
        assert(name@ == gsegs.skip(start as int).last());
    }
    Some(QueryPath { root, path: levels, name })
}


pub open spec fn kw_or_prim(t: ItemType) -> bool {
    t == ItemType::Keyword || t == ItemType::Primitive
}

/// The linked path text of an item: the module path unless the item or
/// its parent is a keyword or primitive, then the parent, the name, and a
/// bang for a macro.
pub open spec fn doc_path_text(item: DocItem) -> Seq<char> {
    let lead: Seq<char> = if !kw_or_prim(item.kind) && !(match item.parent {
        Some(p) => kw_or_prim(p.kind),
        None => false,
    }) {
        item.path@ + "::"@
    } else {
        Seq::empty()
    };
    let par: Seq<char> = match item.parent {
        Some(p) => p.name@ + "::"@,
        None => Seq::empty(),
    };
    let bang: Seq<char> = if item.kind == ItemType::Macro {
        seq!['!']
    } else {
        Seq::empty()
    };
    lead + par + item.name@ + bang
}

/// The note rendered after the link for special name kinds.
pub open spec fn doc_type_note(t: ItemType) -> Seq<char> {
    match t {
        ItemType::Keyword => " (keyword)"@,
        ItemType::Primitive => " (primitive type)"@,
        _ => Seq::empty(),
    }
}

/// Build the linked path text of an item.
fn doc_path_chars(item: &DocItem) -> (r: Vec<char>)
    ensures
        r@ == doc_path_text(*item),
{
    let mut out: Vec<char> = Vec::new();
    let item_special = item.kind.is_keyword_or_primitive();
    let parent_special = match &item.parent {
        Some(p) => p.kind.is_keyword_or_primitive(),
        None => false,
    };
    if !item_special && !parent_special {
        let mut t = str_chars(item.path.as_str());
        out.append(&mut t);
        let mut t = str_chars("::");
        out.append(&mut t);
    }
    match &item.parent {
        Some(p) => {
            let mut t = str_chars(p.name.as_str());
            out.append(&mut t);
            let mut t = str_chars("::");
            out.append(&mut t);
        },
        None => {},
    }
    let mut t = str_chars(item.name.as_str());
    out.append(&mut t);
    if item.kind.is_macro() {
        out.push('!');
    }
    proof {
        assert(out@ =~= doc_path_text(*item));
    }
    out
}

/// One matched item rendered as a reply line: the path linked to its
/// documentation page, a note for keywords and primitives, and as much of
/// the description as fits in eighty columns.
pub open spec fn render_doc_item_spec(item: DocItem, url: Seq<char>) -> Seq<char> {
    let path_text = doc_path_text(item);
    let note = doc_type_note(item.kind);
    let head = "<a href=\"https://doc.rust-lang.org/"@ + url + "\">"@ + path_text + "</a>"@
        + note;
    let written = seq_ewidth(path_text) + seq_ewidth(note);
    if item.desc@.len() > 0 && written + 3 <= 80 {
        head + " - "@ + escape_minimal_spec(truncate_spec(item.desc@, 1, 80 - written - 3))
    } else {
        head
    }
}

/// Render one matched item as a reply line, linking to its page at the
/// given address.
pub fn render_doc_item(item: &DocItem, url: &str) -> (r: String)
    ensures
        r@ == render_doc_item_spec(*item, url@),
{
    let mut out: Vec<char> = Vec::new();
    let mut t = str_chars("<a href=\"https://doc.rust-lang.org/");
    out.append(&mut t);
    let mut t = str_chars(url);
    out.append(&mut t);
    let mut t = str_chars("\">");
    out.append(&mut t);
    let mut path_text = doc_path_chars(item);
    let ghost path_text0 = path_text@;
    let ptl = path_text.len();
    let path_width = vec_ewidth(&path_text);
    out.append(&mut path_text);
    let mut t = str_chars("</a>");
    out.append(&mut t);
    let note: &'static str = if item.kind.is_keyword_or_primitive() {
        match item.kind {
            ItemType::Keyword => " (keyword)",
            _ => " (primitive type)",
        }
    } else {
        ""
    };
    let note_chars = str_chars(note);
    let ncl = note_chars.len();
    let note_width = vec_ewidth(&note_chars);
    let mut t = str_chars(note);
    out.append(&mut t);
    proof {
        reveal_strlit("");
        assert(""@ =~= Seq::<char>::empty());
        assert(note_chars@ == doc_type_note(item.kind));
        assert(path_width as nat + note_width as nat + 3 < (u128::MAX as nat)) by (nonlinear_arith)
            requires
                path_width as nat <= path_text0.len() * 3,
                note_width as nat <= note_chars@.len() * 3,
                path_text0.len() == ptl as nat,
                note_chars@.len() == ncl as nat,
        ;
    }
    let written: u128 = path_width + note_width;
    if !item.desc.as_str().is_empty() && written + 3 <= 80 {
        let mut t = str_chars(" - ");
        out.append(&mut t);
        let trimmed = truncate_output(item.desc.as_str(), 1, (80 - written - 3) as usize);
        let escaped = encode_minimal(trimmed.as_str());
        let mut t = str_chars(escaped.as_str());
        out.append(&mut t);
    }
    proof {
        assert(out@ =~= render_doc_item_spec(*item, url@));
    }
    chars_string(&out)
}

/// The hex digest naming a rendered result. Fully determined by the
/// text; what it is on a given text is stated only by `sha256_hex`.
pub uninterp spec fn sha256_hex_of(s: Seq<char>) -> Seq<char>;

/// Relies on sha2::Sha256 and two-digit lowercase hex formatting: the
/// SHA-256 digest of the text's bytes, as sixty-four hex characters.
#[verifier::external_body]
pub fn sha256_hex(s: &str) -> (r: String)
    ensures
        r@ == sha256_hex_of(s@),
        r@.len() == 64,
{
    let digest = sha2::Sha256::digest(s.as_bytes());
    let mut out = String::new();
    for b in digest.iter() {
        out += &format!("{:02x}", b);
    }
    out
}

/// One matched item prepared as an inline query result: a digest of the
/// address as the result id, the path with its note as the title, the
/// linked line as the message, and the raw description.
pub struct DocInlineResult {
    pub id: String,
    pub title: String,
    pub message: String,
    pub description: String,
}

pub open spec fn doc_inline_message_spec(item: DocItem, url: Seq<char>) -> Seq<char> {
    let head = "<a href=\""@ + url + "\">"@ + doc_path_text(item) + "</a>"@ + doc_type_note(
        item.kind,
    );
    if item.desc@.len() > 0 {
        head + " - "@ + encode_with_code_spec(item.desc@)
    } else {
        head
    }
}

/// Prepare one matched item as an inline query result for the given
/// documentation address.
pub fn doc_item_to_result(item: &DocItem, url: &str) -> (r: DocInlineResult)
    ensures
        r.id@ == sha256_hex_of(url@),
        r.title@ == doc_path_text(*item) + doc_type_note(item.kind),
        r.message@ == doc_inline_message_spec(*item, url@),
        r.description@ == item.desc@,
{
    let id = sha256_hex(url);
    let mut title_chars = doc_path_chars(item);
    let note: &'static str = if item.kind.is_keyword_or_primitive() {
        match item.kind {
            ItemType::Keyword => " (keyword)",
            _ => " (primitive type)",
        }
    } else {
        ""
    };
    proof {
        reveal_strlit("");
        assert(""@ =~= Seq::<char>::empty());
        assert(note@ == doc_type_note(item.kind));
    }
    let mut t = str_chars(note);
    title_chars.append(&mut t);
    let title = chars_string(&title_chars);

    let mut msg = String::new();
    msg.append("<a href=\"");
    msg.append(url);
    msg.append("\">");
    let path = chars_string(&doc_path_chars(item));
    msg.append(path.as_str());
    msg.append("</a>");
    msg.append(note);
    if !item.desc.as_str().is_empty() {
        msg.append(" - ");
        encode_with_code(&mut msg, item.desc.as_str());
    }
    proof {
        assert(title@ =~= doc_path_text(*item) + doc_type_note(item.kind));
        assert(msg@ =~= doc_inline_message_spec(*item, url@));
    }
    let description = String::from_str(item.desc.as_str());
    DocInlineResult { id, title, message: msg, description }
}


/// The precedence of a name kind when matches are ordered: keywords
/// first, then primitives, then macros, then everything else.
pub open spec fn kind_rank(t: ItemType) -> int {
    match t {
        ItemType::Keyword => 0,
        ItemType::Primitive => 1,
        ItemType::Macro => 2,
        ItemType::Other => 3,
    }
}

/// Byte-wise lexicographic comparison: negative when `a` sorts first,
/// zero when equal, positive when `b` sorts first.
pub open spec fn lex_cmp(a: Seq<u8>, b: Seq<u8>) -> int
    decreases a.len(),
{
    if a.len() == 0 && b.len() == 0 {
        0
    } else if a.len() == 0 {
        -1
    } else if b.len() == 0 {
        1
    } else if a[0] < b[0] {
        -1
    } else if a[0] > b[0] {
        1
    } else {
        lex_cmp(a.drop_first(), b.drop_first())
    }
}

fn lex_cmp_exec(a: &[u8], b: &[u8]) -> (r: i8)
    ensures
        r as int == lex_cmp(a@, b@),
{
    let ghost av = a@;
    let ghost bv = b@;
    proof {
        assert(av.skip(0) =~= av);
        assert(bv.skip(0) =~= bv);
    }
    let mut i: usize = 0;
    while i < a.len() && i < b.len()
        invariant
            av == a@,
            bv == b@,
            0 <= i,
            i <= av.len(),
            i <= bv.len(),
            lex_cmp(av, bv) == lex_cmp(av.skip(i as int), bv.skip(i as int)),
        decreases av.len() - i,
    {
        proof {
            assert(av.skip(i as int)[0] == av[i as int]);
            assert(bv.skip(i as int)[0] == bv[i as int]);
            assert(av.skip(i as int).drop_first() =~= av.skip(i as int + 1));
            assert(bv.skip(i as int).drop_first() =~= bv.skip(i as int + 1));
        }
        if a[i] < b[i] {
            return -1;
        }
        if a[i] > b[i] {
            return 1;
        }
        i = i + 1;
    }
    proof {
        assert(i == av.len() || i == bv.len());
        assert(av.skip(i as int).len() == 0 || bv.skip(i as int).len() == 0);
    }
    if a.len() == b.len() {
        0
    } else if a.len() < b.len() {
        -1
    } else {
        1
    }
}

/// The ordering of two matched items, as the result list sorts them:
/// shorter names first, then items that have a description, then by the
/// kind's precedence, the module path, and the parent's name. Negative
/// when `a` comes first.
pub open spec fn doc_rank_spec(a: DocItem, b: DocItem) -> int {
    let al = vstd::utf8::encode_utf8(a.name@).len() as usize;
    let bl = vstd::utf8::encode_utf8(b.name@).len() as usize;
    if al != bl {
        if al < bl {
            -1int
        } else {
            1int
        }
    } else if (a.desc@.len() == 0) != (b.desc@.len() == 0) {
        if a.desc@.len() > 0 {
            -1int
        } else {
            1int
        }
    } else if kind_rank(a.kind) != kind_rank(b.kind) {
        if kind_rank(a.kind) < kind_rank(b.kind) {
            -1int
        } else {
            1int
        }
    } else {
        let pc = lex_cmp(vstd::utf8::encode_utf8(a.path@), vstd::utf8::encode_utf8(b.path@));
        if pc != 0 {
            pc
        } else {
            match (a.parent, b.parent) {
                (None, None) => 0int,
                (None, Some(q)) => -1int,
                (Some(p), None) => 1int,
                (Some(p), Some(q)) => lex_cmp(
                    vstd::utf8::encode_utf8(p.name@),
                    vstd::utf8::encode_utf8(q.name@),
                ),
            }
        }
    }
}

/// Compare two matched items for the result ordering.
pub fn doc_rank_cmp(a: &DocItem, b: &DocItem) -> (r: i8)
    ensures
        r as int == doc_rank_spec(*a, *b),
{
    let an = a.name.as_str();
    let bn = b.name.as_str();
    proof {
        assert(an.spec_bytes() =~= vstd::utf8::encode_utf8(a.name@));
        assert(bn.spec_bytes() =~= vstd::utf8::encode_utf8(b.name@));
    }
    let al = an.len();
    let bl = bn.len();
    if al != bl {
        return if al < bl {
            -1
        } else {
            1
        };
    }
    let ae = a.desc.as_str().is_empty();
    let be = b.desc.as_str().is_empty();
    if ae != be {
        return if !ae {
            -1
        } else {
            1
        };
    }
    let ak = rank_exec(a.kind);
    let bk = rank_exec(b.kind);
    if ak != bk {
        return if ak < bk {
            -1
        } else {
            1
        };
    }
    let ap = a.path.as_str();
    let bp = b.path.as_str();
    proof {
        assert(ap.spec_bytes() =~= vstd::utf8::encode_utf8(a.path@));
        assert(bp.spec_bytes() =~= vstd::utf8::encode_utf8(b.path@));
    }
    let pc = lex_cmp_exec(ap.as_bytes(), bp.as_bytes());
    if pc != 0 {
        return pc;
    }
    match (&a.parent, &b.parent) {
        (None, None) => 0,
        (None, Some(_)) => -1,
        (Some(_), None) => 1,
        (Some(p), Some(q)) => {
            let pn = p.name.as_str();
            let qn = q.name.as_str();
            proof {
                assert(pn.spec_bytes() =~= vstd::utf8::encode_utf8(p.name@));
                assert(qn.spec_bytes() =~= vstd::utf8::encode_utf8(q.name@));
            }
            lex_cmp_exec(pn.as_bytes(), qn.as_bytes())
        },
    }
}

fn rank_exec(t: ItemType) -> (r: u8)
    ensures
        r as int == kind_rank(t),
{
    match t {
        ItemType::Keyword => 0,
        ItemType::Primitive => 1,
        ItemType::Macro => 2,
        ItemType::Other => 3,
    }
}

} // verus!
