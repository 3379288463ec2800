//! Command handling around the bots: the `/name@bot args` line parser,
//! the routing table, the per-command flag tables and help texts, and the
//! decisions the runner takes on common commands.

use vstd::prelude::*;
use vstd::string::StringExecFns;
use crate::parse::{
    flags_view, scan_alnum, scan_alnum_exec, scan_ws, scan_ws_exec, Channel, Flags, FlagsModel,
    Mode,
};
use crate::text::{
    chars_eq_str, chars_string, is_alphanumeric_char, is_whitespace_char, str_chars, sub_chars,
};

verus! {

/// A command as the update processor hands it to the executor.
#[derive(Debug, PartialEq, Eq)]
pub struct Command {
    /// Update id of the command.
    pub id: i64,
    /// The command text.
    pub command: String,
    /// Whether this command is from an admin.
    pub is_admin: bool,
    /// Whether this command is in a private chat.
    pub is_private: bool,
}

/// A command line taken apart: the leading `/name`, whether it was
/// addressed to this bot by name, and the argument text.
#[derive(Debug, PartialEq, Eq)]
pub struct CommandInfo {
    pub name: String,
    pub at_self: bool,
    pub args: String,
}

/// The raw shape of a command line: `/name`, an optional `@username`
/// that must be this bot's, optional whitespace, and the rest as
/// arguments. A mention of a different bot rejects the line.
pub open spec fn command_info_spec(s: Seq<char>, username: Seq<char>) -> Option<(
    Seq<char>,
    bool,
    Seq<char>,
)> {
    if s.len() < 1 || s[0] != '/' {
        None
    } else {
        let e = scan_alnum(s, 1);
        if e == 1 {
            None
        } else {
            let name = s.subrange(0, e);
            if e < s.len() && s[e] == '@' {
                if e + 1 + username.len() <= s.len() && s.subrange(
                    e + 1,
                    e + 1 + username.len(),
                ) == username {
                    let p = e + 1 + username.len();
                    let w = scan_ws(s, p);
                    Some((name, true, s.subrange(w, s.len() as int)))
                } else {
                    None
                }
            } else {
                let w = scan_ws(s, e);
                Some((name, false, s.subrange(w, s.len() as int)))
            }
        }
    }
}

/// Take one command line apart, against this bot's username.
pub fn parse_command_info(s: &str, username: &str) -> (r: Option<CommandInfo>)
    ensures
        match command_info_spec(s@, username@) {
            None => r is None,
            Some(m) => match r {
                Some(ci) => ci.name@ == m.0 && ci.at_self == m.1 && ci.args@ == m.2,
                None => false,
            },
        },
{
    let v = str_chars(s);
    let ghost sv = v@;
    let u = str_chars(username);
    if v.len() < 1 {
        return None;
    }
    if v[0] != '/' {
        return None;
    }
    let e = scan_alnum_exec(&v, 1);
    if e == 1 {
        return None;
    }
    let name = sub_chars(&v, 0, e);
    if e < v.len() && v[e] == '@' {
        if v.len() - e - 1 < u.len() {
            return None;
        }
        let vl = v.len();
        let mut q: usize = 0;
        let mut mismatch = false;
        while q < u.len() && !mismatch
            invariant
                sv == v@,
                vl == sv.len(),
                u@ == username@,
                e + 1 + u@.len() <= sv.len(),
                0 <= q <= u@.len(),
                mismatch ==> sv.subrange(e as int + 1, e as int + 1 + u@.len() as int)
                    != username@,
                !mismatch ==> forall|t: int| 0 <= t < q ==> sv[e + 1 + t] == u@[t],
            decreases u@.len() - q + (if mismatch { 0int } else { 1int }),
        {
            if v[e + 1 + q] != u[q] {
                proof {
                    assert(sv.subrange(
                        e as int + 1,
                        e as int + 1 + u@.len() as int,
                    )[q as int] == sv[e + 1 + q]);
                }
                mismatch = true;
            } else {
                q = q + 1;
            }
        }
        if mismatch {
            return None;
        }
        proof {
            assert(sv.subrange(e as int + 1, e as int + 1 + username@.len() as int)
                =~= username@);
        }
        let p = e + 1 + u.len();
        let w = scan_ws_exec(&v, p);
        let args = sub_chars(&v, w, v.len());
        Some(CommandInfo {
            name: chars_string(&name),
            at_self: true,
            args: chars_string(&args),
        })
    } else {
        let w = scan_ws_exec(&v, e);
        let args = sub_chars(&v, w, v.len());
        Some(CommandInfo {
            name: chars_string(&name),
            at_self: false,
            args: chars_string(&args),
        })
    }
}

/// Where one command line is handled.
#[derive(Clone, Copy, Debug, PartialEq, Eq, Structural)]
pub enum CommandRoute {
    /// Look a crate up.
    CrateInfo,
    /// Search the standard library documentation.
    Doc,
    /// Evaluate a snippet.
    Eval,
    /// Show the compiler version, under its long name.
    RustcVersion,
    /// Show the compiler version, only when addressed directly.
    Version,
    /// Show what this bot is.
    About,
    /// List the commands.
    Help,
    /// Begin shutting the process down.
    ShutdownRequest,
    /// Nothing this executor answers.
    NotHandled,
}

pub open spec fn route_spec(
    name: Seq<char>,
    is_specific: bool,
    is_private: bool,
    is_admin: bool,
) -> CommandRoute {
    if name == "/crate"@ {
        CommandRoute::CrateInfo
    } else if name == "/doc"@ {
        CommandRoute::Doc
    } else if name == "/eval"@ {
        CommandRoute::Eval
    } else if name == "/rustc_version"@ {
        CommandRoute::RustcVersion
    } else if name == "/version"@ && is_specific {
        CommandRoute::Version
    } else if name == "/about"@ && is_specific {
        CommandRoute::About
    } else if name == "/help"@ && is_specific {
        CommandRoute::Help
    } else if name == "/shutdown"@ && is_private && is_admin {
        CommandRoute::ShutdownRequest
    } else {
        CommandRoute::NotHandled
    }
}

/// Decide where a parsed command goes: the general commands always
/// answer, the specific ones only in private chat or when addressed by
/// name, and shutdown only for the admin in private chat.
pub fn route_command(name: &str, is_specific: bool, is_private: bool, is_admin: bool) -> (r:
    CommandRoute)
    ensures
        r == route_spec(name@, is_specific, is_private, is_admin),
{
    let v = str_chars(name);
    if chars_eq_str(&v, "/crate") {
        CommandRoute::CrateInfo
    } else if chars_eq_str(&v, "/doc") {
        CommandRoute::Doc
    } else if chars_eq_str(&v, "/eval") {
        CommandRoute::Eval
    } else if chars_eq_str(&v, "/rustc_version") {
        CommandRoute::RustcVersion
    } else if chars_eq_str(&v, "/version") && is_specific {
        CommandRoute::Version
    } else if chars_eq_str(&v, "/about") && is_specific {
        CommandRoute::About
    } else if chars_eq_str(&v, "/help") && is_specific {
        CommandRoute::Help
    } else if chars_eq_str(&v, "/shutdown") && is_private && is_admin {
        CommandRoute::ShutdownRequest
    } else {
        CommandRoute::NotHandled
    }
}

/// What the runner does with an update besides handing it to a bot.
#[derive(Clone, Copy, Debug, PartialEq, Eq, Structural)]
pub enum CommonAction {
    /// Not a common command: hand the update to the bot.
    NotHandled,
    /// Reply with the about message.
    About,
    /// Reply, fire the shutdown signal, and acknowledge the update.
    ShutdownRequest,
}

/// End of the leading whitespace and start of the trailing whitespace.
pub open spec fn trimmed(s: Seq<char>) -> Seq<char> {
    let a = scan_ws(s, 0);
    let b = scan_ws_back(s, s.len() as int);
    if a < b {
        s.subrange(a, b)
    } else {
        Seq::empty()
    }
}

/// One past the last non-whitespace position strictly before `j`.
pub open spec fn scan_ws_back(s: Seq<char>, j: int) -> int
    decreases j,
{
    if j <= 0 {
        0
    } else if crate::text::is_unicode_whitespace(s[j - 1]) {
        scan_ws_back(s, j - 1)
    } else {
        j
    }
}

pub open spec fn common_action_spec(
    text: Seq<char>,
    is_private: bool,
    is_admin: bool,
) -> CommonAction {
    if !is_private {
        CommonAction::NotHandled
    } else if trimmed(text) == "/about"@ {
        CommonAction::About
    } else if trimmed(text) == "/shutdown"@ {
        if is_admin {
            CommonAction::ShutdownRequest
        } else {
            CommonAction::NotHandled
        }
    } else {
        CommonAction::NotHandled
    }
}

/// Decide whether a private text message is one of the common commands
/// every bot answers: `/about` for anyone, `/shutdown` for the admin.
pub fn decide_common_command(text: &str, is_private: bool, is_admin: bool) -> (r: CommonAction)
    ensures
        r == common_action_spec(text@, is_private, is_admin),
{
    if !is_private {
        return CommonAction::NotHandled;
    }
    let t = trim_exec(text);
    if chars_eq_str(&t, "/about") {
        CommonAction::About
    } else if chars_eq_str(&t, "/shutdown") {
        if is_admin {
            CommonAction::ShutdownRequest
        } else {
            CommonAction::NotHandled
        }
    } else {
        CommonAction::NotHandled
    }
}

/// The text with leading and trailing whitespace dropped.
pub fn trim_exec(s: &str) -> (r: Vec<char>)
    ensures
        r@ == trimmed(s@),
{
    let v = str_chars(s);
    let ghost sv = v@;
    let a = scan_ws_exec(&v, 0);
    let mut b = v.len();
    let mut stop = false;
    while !stop && b > 0
        invariant
            sv == v@,
            0 <= b <= sv.len(),
            scan_ws_back(sv, sv.len() as int) == scan_ws_back(sv, b as int),
            stop ==> scan_ws_back(sv, b as int) == b as int,
        decreases b + (if stop { 0int } else { 1int }),
    {
        let c = v[b - 1];
        if !(is_whitespace_char(c)) {
            stop = true;
        } else {
            b = b - 1;
        }
    }
    if a < b {
        sub_chars(&v, a, b)
    } else {
        Vec::new()
    }
}


/// The switches of the crate-lookup command.
#[derive(Clone, Copy, Debug, PartialEq, Eq, Structural)]
pub enum CrateQueryMode {
    Keyword,
    Query,
}

#[derive(Clone, Copy, Debug, Default, PartialEq, Eq)]
pub struct CrateFlags {
    pub mode: Option<CrateQueryMode>,
}

/// How a crate command's argument is looked up: a single crate by name,
/// or a search with the given parameter, ordering and page size.
#[derive(Debug, PartialEq, Eq)]
pub enum CrateLookup {
    ById,
    Search { param: &'static str, sort: &'static str, per_page: &'static str },
}

pub open spec fn crate_lookup_spec(mode: Option<CrateQueryMode>, is_private: bool) -> (
    Seq<char>,
    Seq<char>,
    Seq<char>,
    bool,
) {
    match mode {
        None => (Seq::empty(), Seq::empty(), Seq::empty(), true),
        Some(CrateQueryMode::Keyword) => (
            "keyword"@,
            "recent-downloads"@,
            if is_private {
                "10"@
            } else {
                "3"@
            },
            false,
        ),
        Some(CrateQueryMode::Query) => (
            "q"@,
            "relevance"@,
            if is_private {
                "10"@
            } else {
                "3"@
            },
            false,
        ),
    }
}

/// Decide how the crate command's argument is looked up: by exact name
/// when no mode flag was given, else a keyword or relevance search, with
/// a longer page in private chat.
pub fn crate_lookup(mode: Option<CrateQueryMode>, is_private: bool) -> (r: CrateLookup)
    ensures
        ({
            let m = crate_lookup_spec(mode, is_private);
            match r {
                CrateLookup::ById => m.3,
                CrateLookup::Search { param, sort, per_page } => !m.3 && param@ == m.0 && sort@
                    == m.1 && per_page@ == m.2,
            }
        }),
{
    match mode {
        None => CrateLookup::ById,
        Some(CrateQueryMode::Keyword) => CrateLookup::Search {
            param: "keyword",
            sort: "recent-downloads",
            per_page: if is_private {
                "10"
            } else {
                "3"
            },
        },
        Some(CrateQueryMode::Query) => CrateLookup::Search {
            param: "q",
            sort: "relevance",
            per_page: if is_private {
                "10"
            } else {
                "3"
            },
        },
    }
}

/// The snippet-evaluation command.
pub struct EvalCommand;

pub open spec fn eval_add_flag_spec(f: FlagsModel, tok: Seq<char>) -> Option<FlagsModel> {
    if tok == "--stable"@ {
        Some(FlagsModel { channel: Some(Channel::Stable), ..f })
    } else if tok == "--beta"@ {
        Some(FlagsModel { channel: Some(Channel::Beta), ..f })
    } else if tok == "--nightly"@ {
        Some(FlagsModel { channel: Some(Channel::Nightly), ..f })
    } else if tok == "--2015"@ {
        Some(FlagsModel { edition: Some("2015"@), ..f })
    } else if tok == "--2018"@ {
        Some(FlagsModel { edition: Some("2018"@), ..f })
    } else if tok == "--debug"@ {
        Some(FlagsModel { mode: Some(Mode::Debug), ..f })
    } else if tok == "--release"@ {
        Some(FlagsModel { mode: Some(Mode::Release), ..f })
    } else if tok == "--bare"@ {
        Some(FlagsModel { bare: true, ..f })
    } else {
        None
    }
}

impl EvalCommand {
    /// The evaluation command's flag table; false for an unknown flag.
    pub fn add_flag(flags: &mut Flags, flag: &str) -> (ok: bool)
        ensures
            match eval_add_flag_spec(flags_view(*old(flags)), flag@) {
                Some(f2) => ok && flags_view(*final(flags)) == f2,
                None => !ok && *final(flags) == *old(flags),
            },
    {
        let v = str_chars(flag);
        if chars_eq_str(&v, "--stable") {
            flags.channel = Some(Channel::Stable);
            true
        } else if chars_eq_str(&v, "--beta") {
            flags.channel = Some(Channel::Beta);
            true
        } else if chars_eq_str(&v, "--nightly") {
            flags.channel = Some(Channel::Nightly);
            true
        } else if chars_eq_str(&v, "--2015") {
            flags.edition = Some("2015");
            true
        } else if chars_eq_str(&v, "--2018") {
            flags.edition = Some("2018");
            true
        } else if chars_eq_str(&v, "--debug") {
            flags.mode = Some(Mode::Debug);
            true
        } else if chars_eq_str(&v, "--release") {
            flags.mode = Some(Mode::Release);
            true
        } else if chars_eq_str(&v, "--bare") {
            flags.bare = true;
            true
        } else {
            false
        }
    }

    /// The evaluation command's flag help.
    pub fn help() -> (r: &'static str)
        ensures
            r@ == (
            "<code>--stable</code> - use stable channel\n<code>--beta</code> - use beta channel\n<code>--nightly</code> - use nightly channel\n<code>--2015</code> - use 2015 edition\n<code>--2018</code> - use 2018 edition\n<code>--debug</code> - do debug build\n<code>--release</code> - do release build\n<code>--bare</code> - don't add any wrapping code\n<code>--help</code> - show this information")@,
    {
        "<code>--stable</code> - use stable channel\n<code>--beta</code> - use beta channel\n<code>--nightly</code> - use nightly channel\n<code>--2015</code> - use 2015 edition\n<code>--2018</code> - use 2018 edition\n<code>--debug</code> - do debug build\n<code>--release</code> - do release build\n<code>--bare</code> - don't add any wrapping code\n<code>--help</code> - show this information"
    }
}

/// The crate-lookup command.
pub struct CrateCommand;

pub open spec fn crate_add_flag_spec(f: CrateFlags, tok: Seq<char>) -> Option<CrateFlags> {
    if tok == "--keyword"@ {
        Some(CrateFlags { mode: Some(CrateQueryMode::Keyword) })
    } else if tok == "--query"@ {
        Some(CrateFlags { mode: Some(CrateQueryMode::Query) })
    } else {
        None
    }
}

impl CrateCommand {
    /// The crate command's flag table; false for an unknown flag.
    pub fn add_flag(flags: &mut CrateFlags, flag: &str) -> (ok: bool)
        ensures
            match crate_add_flag_spec(*old(flags), flag@) {
                Some(f2) => ok && *final(flags) == f2,
                None => !ok && *final(flags) == *old(flags),
            },
    {
        let v = str_chars(flag);
        if chars_eq_str(&v, "--keyword") {
            flags.mode = Some(CrateQueryMode::Keyword);
            true
        } else if chars_eq_str(&v, "--query") {
            flags.mode = Some(CrateQueryMode::Query);
            true
        } else {
            false
        }
    }

    pub fn help() -> (r: &'static str)
        ensures
            r@ == (
            "<code>--keyword</code> - query by keyword\n<code>--query</code> - general query\n<code>--help</code> - show this information")@,
    {
        "<code>--keyword</code> - query by keyword\n<code>--query</code> - general query\n<code>--help</code> - show this information"
    }
}

/// The documentation-search command. It takes no flags.
pub struct DocCommand;

impl DocCommand {
    pub fn add_flag(flag: &str) -> (ok: bool)
        ensures
            !ok,
    {
        false
    }
}

/// The compiler-version command.
pub struct VersionCommand;

pub open spec fn version_add_flag_spec(c: Option<Channel>, tok: Seq<char>) -> Option<
    Option<Channel>,
> {
    if tok == "--stable"@ {
        Some(Some(Channel::Stable))
    } else if tok == "--beta"@ {
        Some(Some(Channel::Beta))
    } else if tok == "--nightly"@ {
        Some(Some(Channel::Nightly))
    } else {
        None
    }
}

impl VersionCommand {
    /// The version command's flag table; false for an unknown flag.
    pub fn add_flag(channel: &mut Option<Channel>, flag: &str) -> (ok: bool)
        ensures
            match version_add_flag_spec(*old(channel), flag@) {
                Some(c2) => ok && *final(channel) == c2,
                None => !ok && *final(channel) == *old(channel),
            },
    {
        let v = str_chars(flag);
        if chars_eq_str(&v, "--stable") {
            *channel = Some(Channel::Stable);
            true
        } else if chars_eq_str(&v, "--beta") {
            *channel = Some(Channel::Beta);
            true
        } else if chars_eq_str(&v, "--nightly") {
            *channel = Some(Channel::Nightly);
            true
        } else {
            false
        }
    }

    pub fn help() -> (r: &'static str)
        ensures
            r@ == (
            "<code>--stable</code> - check stable channel\n<code>--beta</code> - check beta channel\n<code>--nightly</code> - check nightly channel\n<code>--help</code> - show this information")@,
    {
        "<code>--stable</code> - check stable channel\n<code>--beta</code> - check beta channel\n<code>--nightly</code> - check nightly channel\n<code>--help</code> - show this information"
    }
}

/// The about command.
pub struct AboutCommand;

impl AboutCommand {
    /// The about message: package name and version on one line, then the
    /// home page.
    pub fn message(name: &str, version: &str, homepage: &str) -> (r: String)
        ensures
            r@ == name@ + " "@ + version@ + "\n"@ + homepage@,
    {
        let mut out = String::new();
        out.append(name);
        out.append(" ");
        out.append(version);
        out.append("\n");
        out.append(homepage);
        proof {
            assert(out@ =~= name@ + " "@ + version@ + "\n"@ + homepage@);
        }
        out
    }
}

/// The command list shown by `/help`: everything in private chat, only
/// the general commands elsewhere.
pub fn display_help(is_private: bool) -> (r: &'static str)
    ensures
        is_private ==> r@ == (
        "<code>/crate</code> - query crate information\n<code>/doc</code> - query document of Rust's standard library\n<code>/eval</code> - evaluate a piece of Rust code\n<code>/rustc_version</code> - display rustc version being used\n<code>/version</code> - display rustc version being used\n<code>/about</code> - display information about this bot\n<code>/help</code> - show this information")@,
        !is_private ==> r@ == (
        "<code>/crate</code> - query crate information\n<code>/doc</code> - query document of Rust's standard library\n<code>/eval</code> - evaluate a piece of Rust code\n<code>/rustc_version</code> - display rustc version being used\n")@,
{
    if is_private {
        "<code>/crate</code> - query crate information\n<code>/doc</code> - query document of Rust's standard library\n<code>/eval</code> - evaluate a piece of Rust code\n<code>/rustc_version</code> - display rustc version being used\n<code>/version</code> - display rustc version being used\n<code>/about</code> - display information about this bot\n<code>/help</code> - show this information"
    } else {
        "<code>/crate</code> - query crate information\n<code>/doc</code> - query document of Rust's standard library\n<code>/eval</code> - evaluate a piece of Rust code\n<code>/rustc_version</code> - display rustc version being used\n"
    }
}


/// The classified flags of one command invocation.
#[derive(Debug, PartialEq, Eq)]
pub enum FlagParse {
    /// The recognized flags, in order, and the argument text after them.
    Normal(Vec<String>, String),
    /// `--help` was asked for and every flag was recognized.
    Help,
    /// Some flag was not recognized.
    Error,
}

pub enum FlagParseModel {
    Normal(Seq<Seq<char>>),
    Help,
    Error,
}

/// End of a flag token at position `i`: `--` and a non-empty
/// alphanumeric name, or `i` itself when none starts here.
pub open spec fn flag_token_end(s: Seq<char>, i: int) -> int {
    if i + 2 <= s.len() && s[i] == '-' && s[i + 1] == '-' && scan_alnum(s, i + 2) > i + 2 {
        scan_alnum(s, i + 2)
    } else {
        i
    }
}

/// The flag tokens from position `i`, each followed by any amount of
/// whitespace. Returns the tokens and the position of the remainder.
pub open spec fn flag_tokens(s: Seq<char>, i: int) -> (Seq<Seq<char>>, int)
    decreases s.len() - i,
    when 0 <= i <= s.len()
    via flag_tokens_dec
{
    let e = flag_token_end(s, i);
    if e > i {
        let w = scan_ws(s, e);
        let rest = flag_tokens(s, w);
        (seq![s.subrange(i, e)] + rest.0, rest.1)
    } else {
        (Seq::empty(), i)
    }
}

#[via_fn]
proof fn flag_tokens_dec(s: Seq<char>, i: int) {
    if 0 <= i + 2 <= s.len() {
        crate::parse::lemma_scan_alnum_range(s, i + 2);
        let e = flag_token_end(s, i);
        if 0 <= e <= s.len() {
            crate::parse::lemma_scan_ws_range(s, e);
        }
    }
}

/// The flag tokens classified: `--help` noted, recognized flags
/// collected in order, anything unknown an error even beside `--help`.
pub open spec fn classify_flags(
    tokens: Seq<Seq<char>>,
    known: Seq<Seq<char>>,
    help: bool,
) -> FlagParseModel
    decreases tokens.len(),
{
    if tokens.len() == 0 {
        if help {
            FlagParseModel::Help
        } else {
            FlagParseModel::Normal(Seq::empty())
        }
    } else if tokens[0] == "--help"@ {
        classify_flags(tokens.drop_first(), known, true)
    } else if known.contains(tokens[0]) {
        match classify_flags(tokens.drop_first(), known, help) {
            FlagParseModel::Normal(rest) => FlagParseModel::Normal(seq![tokens[0]] + rest),
            m => m,
        }
    } else {
        FlagParseModel::Error
    }
}

fn known_contains(known: &Vec<String>, tok: &Vec<char>) -> (r: bool)
    ensures
        r == known@.map_values(|x: String| x@).contains(tok@),
{
    let ghost kv = known@.map_values(|x: String| x@);
    let mut i: usize = 0;
    while i < known.len()
        invariant
            kv == known@.map_values(|x: String| x@),
            0 <= i <= known@.len(),
            forall|t: int| 0 <= t < i ==> #[trigger] kv[t] != tok@,
        decreases known@.len() - i,
    {
        if chars_eq_str(tok, known[i].as_str()) {
            proof {
                assert(kv[i as int] == tok@);
            }
            return true;
        }
        i = i + 1;
    }
    false
}

enum ClassifyOut {
    Norm(Vec<String>),
    Help,
    Error,
}

fn classify_exec(tokens: &Vec<Vec<char>>, i: usize, known: &Vec<String>, help: bool) -> (r:
    ClassifyOut)
    requires
        i <= tokens@.len(),
    ensures
        ({
            let tv = tokens@.map_values(|v: Vec<char>| v@).skip(i as int);
            let kv = known@.map_values(|x: String| x@);
            match classify_flags(tv, kv, help) {
                FlagParseModel::Normal(ns) => r matches ClassifyOut::Norm(out) && out@.map_values(
                    |x: String| x@,
                ) == ns,
                FlagParseModel::Help => r is Help,
                FlagParseModel::Error => r is Error,
            }
        }),
    decreases tokens@.len() - i,
{
    let ghost tv = tokens@.map_values(|v: Vec<char>| v@);
    proof {
        if i < tokens@.len() {
            assert(tv.skip(i as int)[0] == tv[i as int]);
            assert(tv.skip(i as int).drop_first() =~= tv.skip(i as int + 1));
        } else {
            assert(tv.skip(i as int).len() == 0);
        }
    }
    if i == tokens.len() {
        let out: Vec<String> = Vec::new();
        proof {
            assert(out@.map_values(|x: String| x@) =~= Seq::<Seq<char>>::empty());
        }
        if help {
            ClassifyOut::Help
        } else {
            ClassifyOut::Norm(out)
        }
    } else if chars_eq_str(&tokens[i], "--help") {
        classify_exec(tokens, i + 1, known, true)
    } else if known_contains(known, &tokens[i]) {
        match classify_exec(tokens, i + 1, known, help) {
            ClassifyOut::Norm(mut rest) => {
                let ghost rest0 = rest@;
                let mut out: Vec<String> = Vec::new();
                out.push(chars_string(&tokens[i]));
                out.append(&mut rest);
                proof {
                    assert(out@ =~= seq![out@[0]].add(rest0));
                    assert(out@.map_values(|x: String| x@) =~= seq![tv[i as int]].add(
                        rest0.map_values(|x: String| x@),
                    ));
                }
                ClassifyOut::Norm(out)
            },
            ClassifyOut::Help => ClassifyOut::Help,
            ClassifyOut::Error => ClassifyOut::Error,
        }
    } else {
        ClassifyOut::Error
    }
}

fn flag_tokens_exec(s: &Vec<char>, i: usize) -> (r: (Vec<Vec<char>>, usize))
    requires
        i <= s@.len(),
    ensures
        r.0@.map_values(|v: Vec<char>| v@) == flag_tokens(s@, i as int).0,
        r.1 == flag_tokens(s@, i as int).1,
        i <= r.1 <= s@.len(),
    decreases s@.len() - i,
{
    let sl = s.len();
    let two_dashes = i < sl && sl - i > 1 && s[i] == '-' && s[i + 1] == '-';
    if two_dashes {
        let e = scan_alnum_exec(s, i + 2);
        if e > i + 2 {
            let tok = sub_chars(s, i, e);
            let w = scan_ws_exec(s, e);
            let (mut rest, end) = flag_tokens_exec(s, w);
            let ghost rest0 = rest@;
            let mut out: Vec<Vec<char>> = Vec::new();
            out.push(tok);
            out.append(&mut rest);
            proof {
                assert(out@ =~= seq![out@[0]].add(rest0));
                assert(out@.map_values(|v: Vec<char>| v@) =~= seq![s@.subrange(
                    i as int,
                    e as int,
                )].add(rest0.map_values(|v: Vec<char>| v@)));
            }
            return (out, end);
        }
        let out: Vec<Vec<char>> = Vec::new();
        proof {
            assert(out@.map_values(|v: Vec<char>| v@) =~= flag_tokens(s@, i as int).0);
        }
        return (out, i);
    }
    let out: Vec<Vec<char>> = Vec::new();
    proof {
        assert(out@.map_values(|v: Vec<char>| v@) =~= flag_tokens(s@, i as int).0);
    }
    (out, i)
}

/// Parse a command's flag tokens against its table of known flags:
/// either the recognized flags with the remaining argument text, a help
/// request, or an error for an unknown flag.
pub fn parse_command_flags(args: &str, known: &Vec<String>) -> (r: FlagParse)
    ensures
        ({
            let s = args@;
            let toks = flag_tokens(s, 0);
            let kv = known@.map_values(|x: String| x@);
            match classify_flags(toks.0, kv, false) {
                FlagParseModel::Normal(ns) => r matches FlagParse::Normal(flags, rem)
                    && flags@.map_values(|x: String| x@) == ns && rem@ == s.subrange(
                    toks.1,
                    s.len() as int,
                ),
                FlagParseModel::Help => r is Help,
                FlagParseModel::Error => r is Error,
            }
        }),
{
    let v = str_chars(args);
    let (tokens, end) = flag_tokens_exec(&v, 0);
    proof {
        assert(tokens@.map_values(|t: Vec<char>| t@).skip(0) =~= tokens@.map_values(
            |t: Vec<char>| t@,
        ));
    }
    match classify_exec(&tokens, 0, known, false) {
        ClassifyOut::Norm(flags) => {
            let rem = sub_chars(&v, end, v.len());
            FlagParse::Normal(flags, chars_string(&rem))
        },
        ClassifyOut::Help => FlagParse::Help,
        ClassifyOut::Error => FlagParse::Error,
    }
}

/// What one `/eval` invocation amounts to.
#[derive(Clone, Copy, Debug, PartialEq, Eq)]
pub enum ExecutionPlan {
    /// Show the flag help.
    ShowHelp,
    /// Show the compiler version for the chosen channel.
    ShowVersion(Option<Channel>),
    /// Build and run the snippet.
    RunCode,
    /// Nothing to do: no content and nothing asked for.
    Rejected,
}

pub open spec fn plan_spec(f: FlagsModel, content: Seq<char>) -> ExecutionPlan {
    if f.help {
        ExecutionPlan::ShowHelp
    } else if f.version {
        ExecutionPlan::ShowVersion(f.channel)
    } else if trimmed(content).len() > 0 {
        ExecutionPlan::RunCode
    } else {
        ExecutionPlan::Rejected
    }
}

/// Decide what an `/eval` invocation does: help and version requests
/// win, otherwise non-blank content runs, and a blank line does nothing.
pub fn plan_execution(flags: &Flags, content: &str) -> (r: ExecutionPlan)
    ensures
        r == plan_spec(flags_view(*flags), content@),
{
    if flags.help {
        ExecutionPlan::ShowHelp
    } else if flags.version {
        ExecutionPlan::ShowVersion(flags.channel)
    } else {
        let t = trim_exec(content);
        if t.len() > 0 {
            ExecutionPlan::RunCode
        } else {
            ExecutionPlan::Rejected
        }
    }
}

/// Whether a command that names a bot names this one. A command without
/// a name is for everybody.
pub fn bot_name_matches(bot_name: &Option<String>, username: &str) -> (r: bool)
    ensures
        r == match bot_name {
            Some(b) => b@ == username@,
            None => true,
        },
{
    match bot_name {
        Some(b) => {
            let v = str_chars(b.as_str());
            chars_eq_str(&v, username)
        },
        None => true,
    }
}


/// A command line prepared for execution: the parsed command and the
/// plan it amounts to.
#[derive(Debug, PartialEq, Eq)]
pub struct PreparedCommand {
    pub command: crate::parse::Command,
    pub plan: ExecutionPlan,
}

/// Parse a message into an execution-ready command: the line must parse,
/// a bot named in it must be this one, and the plan must amount to
/// something. What remains is exactly what the executor acts on.
pub fn prepare_command(text: &str, username: &str) -> (r: Option<PreparedCommand>)
    ensures
        match crate::parse::parse_command_spec(text@) {
            None => r is None,
            Some(m) => {
                let addressed = match m.bot_name {
                    Some(b) => b == username@,
                    None => true,
                };
                if !addressed {
                    r is None
                } else {
                    let plan = plan_spec(m.flags, m.content);
                    match r {
                        Some(p) => {
                            &&& crate::parse::flags_view(p.command.flags) == m.flags
                            &&& p.command.content@ == m.content
                            &&& p.plan == plan
                            &&& !(plan is Rejected)
                        },
                        None => plan is Rejected,
                    }
                }
            },
        },
{
    let command = match crate::parse::parse_command(text) {
        Some(c) => c,
        None => {
            return None;
        },
    };
    if !bot_name_matches(&command.bot_name, username) {
        return None;
    }
    let plan = plan_execution(&command.flags, command.content.as_str());
    match plan {
        ExecutionPlan::Rejected => None,
        _ => Some(PreparedCommand { command, plan }),
    }
}

} // verus!
