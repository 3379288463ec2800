//! The `/eval` command line: `/eval[@botname] [--flag ...] content`, with
//! the flag table and the help text that goes with it.

use vstd::prelude::*;
use vstd::string::StringExecFns;
use crate::text::{
    chars_eq_str, chars_string, sub_chars, is_alphanumeric_char, is_unicode_alphanumeric,
    is_unicode_whitespace, is_whitespace_char, str_chars,
};

verus! {

/// Rust release channel a snippet is built on.
#[derive(Clone, Copy, Debug, PartialEq, Eq, Structural)]
pub enum Channel {
    Stable,
    Beta,
    Nightly,
}

impl Channel {
    pub fn as_str(self) -> (r: &'static str)
        ensures
            match self {
                Channel::Stable => r@ == "stable"@,
                Channel::Beta => r@ == "beta"@,
                Channel::Nightly => r@ == "nightly"@,
            },
    {
        match self {
            Channel::Stable => "stable",
            Channel::Beta => "beta",
            Channel::Nightly => "nightly",
        }
    }
}

/// Build profile a snippet is built with.
#[derive(Clone, Copy, Debug, PartialEq, Eq, Structural)]
pub enum Mode {
    Debug,
    Release,
}

/// The switches a command line can set.
#[derive(Clone, Copy, Debug, PartialEq, Eq)]
pub struct Flags {
    pub channel: Option<Channel>,
    pub edition: Option<&'static str>,
    pub mode: Option<Mode>,
    pub bare: bool,
    pub raw: bool,
    pub version: bool,
    pub help: bool,
}

impl Default for Flags {
    fn default() -> (f: Self)
        ensures
            flags_view(f) == flags_default(),
    {
        Flags {
            channel: None,
            edition: None,
            mode: None,
            bare: false,
            raw: false,
            version: false,
            help: false,
        }
    }
}

/// The switches as the contracts speak of them: the edition by its text.
pub struct FlagsModel {
    pub channel: Option<Channel>,
    pub edition: Option<Seq<char>>,
    pub mode: Option<Mode>,
    pub bare: bool,
    pub raw: bool,
    pub version: bool,
    pub help: bool,
}

pub open spec fn flags_view(f: Flags) -> FlagsModel {
    FlagsModel {
        channel: f.channel,
        edition: match f.edition {
            Some(e) => Some(e@),
            None => None,
        },
        mode: f.mode,
        bare: f.bare,
        raw: f.raw,
        version: f.version,
        help: f.help,
    }
}

pub open spec fn flags_default() -> FlagsModel {
    FlagsModel {
        channel: None,
        edition: None,
        mode: None,
        bare: false,
        raw: false,
        version: false,
        help: false,
    }
}

/// A parsed command line.
#[derive(Debug, PartialEq, Eq)]
pub struct Command {
    pub bot_name: Option<String>,
    pub flags: Flags,
    pub content: String,
}

/// A parsed command line, as the contracts speak of it.
pub struct CommandModel {
    pub bot_name: Option<Seq<char>>,
    pub flags: FlagsModel,
    pub content: Seq<char>,
}

/// First position at or after `i` that does not hold whitespace.
pub open spec fn scan_ws(s: Seq<char>, i: int) -> int
    decreases s.len() - i,
{
    if i < 0 || i >= s.len() {
        i
    } else if is_unicode_whitespace(s[i]) {
        scan_ws(s, i + 1)
    } else {
        i
    }
}

/// First position at or after `i` that does not hold an alphanumeric
/// character.
pub open spec fn scan_alnum(s: Seq<char>, i: int) -> int
    decreases s.len() - i,
{
    if i < 0 || i >= s.len() {
        i
    } else if is_unicode_alphanumeric(s[i]) {
        scan_alnum(s, i + 1)
    } else {
        i
    }
}

/// First position at or after `i` that does not hold a name character
/// (alphanumeric or underscore).
pub open spec fn scan_word(s: Seq<char>, i: int) -> int
    decreases s.len() - i,
{
    if i < 0 || i >= s.len() {
        i
    } else if is_unicode_alphanumeric(s[i]) || s[i] == '_' {
        scan_word(s, i + 1)
    } else {
        i
    }
}

pub proof fn lemma_scan_ws_range(s: Seq<char>, i: int)
    requires
        0 <= i <= s.len(),
    ensures
        i <= scan_ws(s, i) <= s.len(),
    decreases s.len() - i,
{
    if i < s.len() && is_unicode_whitespace(s[i]) {
        lemma_scan_ws_range(s, i + 1);
    }
}

/// The scan stops on a non-whitespace character.
pub proof fn lemma_scan_ws_stops(s: Seq<char>, i: int)
    requires
        0 <= i <= s.len(),
    ensures
        scan_ws(s, i) < s.len() ==> !is_unicode_whitespace(s[scan_ws(s, i)]),
    decreases s.len() - i,
{
    if i < s.len() && is_unicode_whitespace(s[i]) {
        lemma_scan_ws_stops(s, i + 1);
    }
}

pub proof fn lemma_scan_alnum_range(s: Seq<char>, i: int)
    requires
        0 <= i <= s.len(),
    ensures
        i <= scan_alnum(s, i) <= s.len(),
    decreases s.len() - i,
{
    if i < s.len() && is_unicode_alphanumeric(s[i]) {
        lemma_scan_alnum_range(s, i + 1);
    }
}

pub proof fn lemma_scan_word_range(s: Seq<char>, i: int)
    requires
        0 <= i <= s.len(),
    ensures
        i <= scan_word(s, i) <= s.len(),
    decreases s.len() - i,
{
    if i < s.len() && (is_unicode_alphanumeric(s[i]) || s[i] == '_') {
        lemma_scan_word_range(s, i + 1);
    }
}

/// The command's leading token.
pub open spec fn cmd_eval() -> Seq<char> {
    seq!['/', 'e', 'v', 'a', 'l']
}

/// The flag tokens after position `i`: each preceded by at least one
/// whitespace character, spelled `--` and a non-empty alphanumeric name.
/// Returns the names and the position after the last flag consumed.
pub open spec fn parse_flags(s: Seq<char>, i: int) -> (Seq<Seq<char>>, int)
    decreases s.len() - i,
    when 0 <= i <= s.len()
    via parse_flags_dec
{
    let w = scan_ws(s, i);
    if w > i && w + 1 < s.len() && s[w] == '-' && s[w + 1] == '-' && scan_alnum(s, w + 2) > w
        + 2 {
        let e = scan_alnum(s, w + 2);
        let rest = parse_flags(s, e);
        (seq![s.subrange(w + 2, e)] + rest.0, rest.1)
    } else {
        (Seq::empty(), i)
    }
}

#[via_fn]
proof fn parse_flags_dec(s: Seq<char>, i: int) {
    lemma_scan_ws_range(s, i);
    let w = scan_ws(s, i);
    if 0 <= w + 2 <= s.len() {
        lemma_scan_alnum_range(s, w + 2);
    }
}

/// The raw shape of a command line, before the flag names are checked
/// against the table: the optional `@botname`, the flag names in order,
/// and the content after the separating whitespace.
pub open spec fn parse_raw(s: Seq<char>) -> Option<(Option<Seq<char>>, Seq<Seq<char>>, Seq<char>)> {
    if s.len() < 5 || s.subrange(0, 5) != cmd_eval() {
        None
    } else {
        let name_end = scan_word(s, 6);
        let p1 = if 5 < s.len() && s[5] == '@' {
            if name_end > 6 {
                name_end
            } else {
                -1
            }
        } else {
            5
        };
        if p1 < 0 {
            None
        } else {
            let bot_name = if p1 == 5 {
                None
            } else {
                Some(s.subrange(6, p1))
            };
            let fl = parse_flags(s, p1);
            let p2 = fl.1;
            let w = scan_ws(s, p2);
            if w == p2 && p2 < s.len() {
                None
            } else {
                Some((bot_name, fl.0, s.subrange(w, s.len() as int)))
            }
        }
    }
}

/// One step of the flag table: the switch a recognized name sets, or
/// nothing for an unknown name.
pub open spec fn apply_flag(f: FlagsModel, name: Seq<char>) -> Option<FlagsModel> {
    if name == "stable"@ {
        Some(FlagsModel { channel: Some(Channel::Stable), ..f })
    } else if name == "beta"@ {
        Some(FlagsModel { channel: Some(Channel::Beta), ..f })
    } else if name == "nightly"@ {
        Some(FlagsModel { channel: Some(Channel::Nightly), ..f })
    } else if name == "2015"@ {
        Some(FlagsModel { edition: Some("2015"@), ..f })
    } else if name == "2018"@ {
        Some(FlagsModel { edition: Some("2018"@), ..f })
    } else if name == "2021"@ {
        Some(FlagsModel { edition: Some("2021"@), ..f })
    } else if name == "debug"@ {
        Some(FlagsModel { mode: Some(Mode::Debug), ..f })
    } else if name == "release"@ {
        Some(FlagsModel { mode: Some(Mode::Release), ..f })
    } else if name == "bare"@ {
        Some(FlagsModel { bare: true, ..f })
    } else if name == "raw"@ {
        Some(FlagsModel { raw: true, ..f })
    } else if name == "version"@ {
        Some(FlagsModel { version: true, ..f })
    } else if name == "help"@ {
        Some(FlagsModel { help: true, ..f })
    } else {
        None
    }
}

/// The flag names applied left to right; an unknown name rejects the
/// whole command.
pub open spec fn apply_flags(f: FlagsModel, names: Seq<Seq<char>>) -> Option<FlagsModel>
    decreases names.len(),
{
    if names.len() == 0 {
        Some(f)
    } else {
        match apply_flag(f, names[0]) {
            Some(f2) => apply_flags(f2, names.drop_first()),
            None => None,
        }
    }
}

/// What `parse_command` returns, in full.
pub open spec fn parse_command_spec(s: Seq<char>) -> Option<CommandModel> {
    match parse_raw(s) {
        None => None,
        Some((bot_name, names, content)) => match apply_flags(flags_default(), names) {
            None => None,
            Some(flags) => Some(CommandModel { bot_name, flags, content }),
        },
    }
}

pub fn scan_ws_exec(s: &Vec<char>, i: usize) -> (r: usize)
    requires
        i <= s@.len(),
    ensures
        r == scan_ws(s@, i as int),
        i <= r <= s@.len(),
{
    let mut cur = i;
    while cur < s.len()
        invariant
            i <= cur <= s@.len(),
            scan_ws(s@, i as int) == scan_ws(s@, cur as int),
        decreases s@.len() - cur,
    {
        let c = s[cur];
        if !(is_whitespace_char(c)) {
            return cur;
        }
        cur = cur + 1;
    }
    cur
}

pub fn scan_alnum_exec(s: &Vec<char>, i: usize) -> (r: usize)
    requires
        i <= s@.len(),
    ensures
        r == scan_alnum(s@, i as int),
        i <= r <= s@.len(),
{
    let mut cur = i;
    while cur < s.len()
        invariant
            i <= cur <= s@.len(),
            scan_alnum(s@, i as int) == scan_alnum(s@, cur as int),
        decreases s@.len() - cur,
    {
        let c = s[cur];
        if !(is_alphanumeric_char(c)) {
            return cur;
        }
        cur = cur + 1;
    }
    cur
}

pub fn scan_word_exec(s: &Vec<char>, i: usize) -> (r: usize)
    requires
        i <= s@.len(),
    ensures
        r == scan_word(s@, i as int),
        i <= r <= s@.len(),
{
    let mut cur = i;
    while cur < s.len()
        invariant
            i <= cur <= s@.len(),
            scan_word(s@, i as int) == scan_word(s@, cur as int),
        decreases s@.len() - cur,
    {
        let c = s[cur];
        if !(is_alphanumeric_char(c) || c == '_') {
            return cur;
        }
        cur = cur + 1;
    }
    cur
}

/// Collect the flag tokens after position `i`, exactly as `parse_flags`
/// reads them.
fn parse_flags_exec(s: &Vec<char>, i: usize) -> (r: (Vec<Vec<char>>, usize))
    requires
        i <= s@.len(),
    ensures
        r.0@.map_values(|v: Vec<char>| v@) == parse_flags(s@, i as int).0,
        r.1 == parse_flags(s@, i as int).1,
        i <= r.1 <= s@.len(),
    decreases s@.len() - i,
{
    let w = scan_ws_exec(s, i);
    if w > i && w < s.len() && s.len() - w > 1 && s[w] == '-' && s[w + 1] == '-' {
        let e = scan_alnum_exec(s, w + 2);
        if e > w + 2 {
            let name = sub_chars(s, w + 2, e);
            let (mut rest, end) = parse_flags_exec(s, e);
            let ghost rest0 = rest@;
            let mut out: Vec<Vec<char>> = Vec::new();
            out.push(name);
            out.append(&mut rest);
            proof {
                assert(out@ =~= seq![name].add(rest0));
                assert(out@.map_values(|v: Vec<char>| v@) =~= seq![name@].add(
                    rest0.map_values(|v: Vec<char>| v@),
                ));
            }
            (out, end)
        } else {
            let out: Vec<Vec<char>> = Vec::new();
            proof {
                assert(out@.map_values(|v: Vec<char>| v@) =~= parse_flags(s@, i as int).0);
            }
            (out, i)
        }
    } else {
        let out: Vec<Vec<char>> = Vec::new();
        proof {
            assert(out@.map_values(|v: Vec<char>| v@) =~= parse_flags(s@, i as int).0);
        }
        (out, i)
    }
}

/// Apply one flag name to the switches; false for an unknown name.
fn apply_flag_exec(flags: &mut Flags, name: &Vec<char>) -> (ok: bool)
    ensures
        match apply_flag(flags_view(*old(flags)), name@) {
            Some(f2) => ok && flags_view(*final(flags)) == f2,
            None => !ok && *final(flags) == *old(flags),
        },
{
    if chars_eq_str(name, "stable") {
        flags.channel = Some(Channel::Stable);
        true
    } else if chars_eq_str(name, "beta") {
        flags.channel = Some(Channel::Beta);
        true
    } else if chars_eq_str(name, "nightly") {
        flags.channel = Some(Channel::Nightly);
        true
    } else if chars_eq_str(name, "2015") {
        flags.edition = Some("2015");
        true
    } else if chars_eq_str(name, "2018") {
        flags.edition = Some("2018");
        true
    } else if chars_eq_str(name, "2021") {
        flags.edition = Some("2021");
        true
    } else if chars_eq_str(name, "debug") {
        flags.mode = Some(Mode::Debug);
        true
    } else if chars_eq_str(name, "release") {
        flags.mode = Some(Mode::Release);
        true
    } else if chars_eq_str(name, "bare") {
        flags.bare = true;
        true
    } else if chars_eq_str(name, "raw") {
        flags.raw = true;
        true
    } else if chars_eq_str(name, "version") {
        flags.version = true;
        true
    } else if chars_eq_str(name, "help") {
        flags.help = true;
        true
    } else {
        false
    }
}

/// Parse one `/eval` command line: the optional `@botname`, the flags,
/// and the content after them. An unknown flag, a missing separator or a
/// different command rejects the line.
pub fn parse_command(command: &str) -> (r: Option<Command>)
    ensures
        match parse_command_spec(command@) {
            None => r is None,
            Some(m) => match r {
                Some(c) => {
                    &&& match (c.bot_name, m.bot_name) {
                        (Some(b), Some(mb)) => b@ == mb,
                        (None, None) => true,
                        _ => false,
                    }
                    &&& flags_view(c.flags) == m.flags
                    &&& c.content@ == m.content
                },
                None => false,
            },
        },
{
    let s = str_chars(command);
    let ghost sv = s@;
    // The leading token.
    if s.len() < 5 {
        return None;
    }
    if !(s[0] == '/' && s[1] == 'e' && s[2] == 'v' && s[3] == 'a' && s[4] == 'l') {
        proof {
            assert(sv.subrange(0, 5) != cmd_eval()) by {
                if sv.subrange(0, 5) == cmd_eval() {
                    assert(sv[0] == cmd_eval()[0]);
                    assert(sv[1] == cmd_eval()[1]);
                    assert(sv[2] == cmd_eval()[2]);
                    assert(sv[3] == cmd_eval()[3]);
                    assert(sv[4] == cmd_eval()[4]);
                }
            }
        }
        return None;
    }
    proof {
        assert(sv.subrange(0, 5) =~= cmd_eval());
    }
    // The optional bot name.
    let mut p1: usize = 5;
    let mut bot_name: Option<Vec<char>> = None;
    if 5 < s.len() && s[5] == '@' {
        let name_end = scan_word_exec(&s, 6);
        if name_end == 6 {
            return None;
        }
        bot_name = Some(sub_chars(&s, 6, name_end));
        p1 = name_end;
    }
    // The flags.
    let (names, p2) = parse_flags_exec(&s, p1);
    // The separator: whitespace or the end of the line.
    let w = scan_ws_exec(&s, p2);
    if w == p2 && p2 < s.len() {
        return None;
    }
    let content = sub_chars(&s, w, s.len());
    let ghost bot_model: Option<Seq<char>> = match &bot_name {
        Some(b) => Some(b@),
        None => None,
    };
    proof {
        assert(parse_raw(sv) == Some(
            (bot_model, names@.map_values(|v: Vec<char>| v@), sv.subrange(
                w as int,
                sv.len() as int,
            )),
        ));
    }
    // The flag table.
    let mut flags = Flags::default();
    proof {
        assert(names@.map_values(|v: Vec<char>| v@).skip(0) =~= names@.map_values(
            |v: Vec<char>| v@,
        ));
    }
    let mut k: usize = 0;
    while k < names.len()
        invariant
            0 <= k <= names@.len(),
            sv == command@,
            parse_raw(sv) == Some(
                (bot_model, names@.map_values(|v: Vec<char>| v@), content@),
            ),
            apply_flags(flags_default(), names@.map_values(|v: Vec<char>| v@)) == apply_flags(
                flags_view(flags),
                names@.map_values(|v: Vec<char>| v@).skip(k as int),
            ),
        decreases names@.len() - k,
    {
        let ok = apply_flag_exec(&mut flags, &names[k]);
        if !ok {
            return None;
        }
        proof {
            assert(names@.map_values(|v: Vec<char>| v@).skip(k as int).drop_first()
                =~= names@.map_values(|v: Vec<char>| v@).skip(k as int + 1));
        }
        k = k + 1;
    }
    proof {
        assert(names@.map_values(|v: Vec<char>| v@).skip(names@.len() as int)
            =~= Seq::<Seq<char>>::empty());
    }
    let bot_name_str = match bot_name {
        Some(b) => Some(chars_string(&b)),
        None => None,
    };
    Some(Command { bot_name: bot_name_str, flags, content: chars_string(&content) })
}

/// The help text: one line per flag, the flag in a code span, then its
/// description.
pub fn get_help_message() -> (r: String)
    ensures
        r@ == ("<code>--stable</code> - use stable channel\n<code>--beta</code> - use beta channel\n<code>--nightly</code> - use nightly channel\n<code>--2015</code> - use 2015 edition\n<code>--2018</code> - use 2018 edition\n<code>--2021</code> - use 2021 edition\n<code>--debug</code> - do debug build\n<code>--release</code> - do release build\n<code>--bare</code> - don't add any wrapping code\n<code>--raw</code> - don't convert any Unicode characters automatically\n<code>--version</code> - show version instead of running code\n<code>--help</code> - show this help information\n")@,
{
    String::from_str(help_message())
}

/// The flag table's help text.
pub fn help_message() -> (r: &'static str)
    ensures
        r@ == (
        "<code>--stable</code> - use stable channel\n<code>--beta</code> - use beta channel\n<code>--nightly</code> - use nightly channel\n<code>--2015</code> - use 2015 edition\n<code>--2018</code> - use 2018 edition\n<code>--2021</code> - use 2021 edition\n<code>--debug</code> - do debug build\n<code>--release</code> - do release build\n<code>--bare</code> - don't add any wrapping code\n<code>--raw</code> - don't convert any Unicode characters automatically\n<code>--version</code> - show version instead of running code\n<code>--help</code> - show this help information\n")@,
{
    "<code>--stable</code> - use stable channel\n<code>--beta</code> - use beta channel\n<code>--nightly</code> - use nightly channel\n<code>--2015</code> - use 2015 edition\n<code>--2018</code> - use 2018 edition\n<code>--2021</code> - use 2021 edition\n<code>--debug</code> - do debug build\n<code>--release</code> - do release build\n<code>--bare</code> - don't add any wrapping code\n<code>--raw</code> - don't convert any Unicode characters automatically\n<code>--version</code> - show version instead of running code\n<code>--help</code> - show this help information\n"
}

} // verus!
