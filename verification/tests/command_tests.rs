use rustbot::command::{
    decide_common_command, parse_command_flags, parse_command_info, plan_execution,
    route_command, AboutCommand, CommandRoute, CommonAction, CrateCommand, CrateFlags,
    CrateLookup, CrateQueryMode, EvalCommand, ExecutionPlan, FlagParse, VersionCommand,
    crate_lookup,
};
use rustbot::parse::{Channel, Flags};

fn parse(arg: &str) -> FlagParse {
    let known = vec![
        "--chars".to_string(),
        "--12345".to_string(),
        "--chars12345".to_string(),
    ];
    parse_command_flags(arg, &known)
}

fn normal(flags: &[&str], rest: &str) -> FlagParse {
    FlagParse::Normal(
        flags.iter().map(|f| f.to_string()).collect(),
        rest.to_string(),
    )
}

#[test]
fn test_flag_parsing() {
    assert_eq!(
        parse("--chars --12345 --chars12345 xxx"),
        normal(&["--chars", "--12345", "--chars12345"], "xxx"),
    );
    assert_eq!(parse("--12345 --chars"), normal(&["--12345", "--chars"], ""));
    assert_eq!(
        parse("--12345 --12345 --chars --chars"),
        normal(&["--12345", "--12345", "--chars", "--chars"], ""),
    );
    assert_eq!(parse("--help"), FlagParse::Help);
    assert_eq!(parse("--help xxxxx"), FlagParse::Help);
    assert_eq!(parse("--12345 --help --chars xxx"), FlagParse::Help);
    assert_eq!(parse("--unknown"), FlagParse::Error);
    assert_eq!(parse("--help --unknown"), FlagParse::Error);
    assert_eq!(parse("--12345 --unknown"), FlagParse::Error);
    assert_eq!(parse("--unknown --12345"), FlagParse::Error);
}

#[test]
fn command_info_shapes() {
    let ci = parse_command_info("/crate serde", "bot").unwrap();
    assert_eq!(ci.name, "/crate");
    assert!(!ci.at_self);
    assert_eq!(ci.args, "serde");

    let ci = parse_command_info("/eval@bot 1 + 1", "bot").unwrap();
    assert_eq!(ci.name, "/eval");
    assert!(ci.at_self);
    assert_eq!(ci.args, "1 + 1");

    // A mention of a different bot rejects the line.
    assert!(parse_command_info("/eval@other 1", "bot").is_none());
    assert!(parse_command_info("eval", "bot").is_none());
    assert!(parse_command_info("/", "bot").is_none());
}

#[test]
fn routing_table() {
    assert_eq!(
        route_command("/crate", false, false, false),
        CommandRoute::CrateInfo
    );
    assert_eq!(route_command("/eval", false, false, false), CommandRoute::Eval);
    assert_eq!(
        route_command("/version", true, false, false),
        CommandRoute::Version
    );
    assert_eq!(
        route_command("/version", false, false, false),
        CommandRoute::NotHandled
    );
    assert_eq!(route_command("/help", true, true, false), CommandRoute::Help);
    assert_eq!(
        route_command("/shutdown", false, true, true),
        CommandRoute::ShutdownRequest
    );
    assert_eq!(
        route_command("/shutdown", false, true, false),
        CommandRoute::NotHandled
    );
    assert_eq!(
        route_command("/shutdown", false, false, true),
        CommandRoute::NotHandled
    );
}

#[test]
fn common_commands_only_in_private() {
    assert_eq!(
        decide_common_command("  /about ", true, false),
        CommonAction::About
    );
    assert_eq!(
        decide_common_command("/about", false, false),
        CommonAction::NotHandled
    );
    assert_eq!(
        decide_common_command("/shutdown", true, true),
        CommonAction::ShutdownRequest
    );
    assert_eq!(
        decide_common_command("/shutdown", true, false),
        CommonAction::NotHandled
    );
    assert_eq!(
        decide_common_command("hello", true, true),
        CommonAction::NotHandled
    );
}

#[test]
fn eval_flags_table() {
    let mut flags = Flags::default();
    assert!(EvalCommand::add_flag(&mut flags, "--nightly"));
    assert!(EvalCommand::add_flag(&mut flags, "--2018"));
    assert!(EvalCommand::add_flag(&mut flags, "--bare"));
    assert!(!EvalCommand::add_flag(&mut flags, "--wat"));
    assert_eq!(flags.channel, Some(Channel::Nightly));
    assert_eq!(flags.edition, Some("2018"));
    assert!(flags.bare);
    assert!(EvalCommand::help().contains("--bare"));
}

#[test]
fn version_and_crate_flag_tables() {
    let mut channel = None;
    assert!(VersionCommand::add_flag(&mut channel, "--beta"));
    assert_eq!(channel, Some(Channel::Beta));
    assert!(!VersionCommand::add_flag(&mut channel, "--2015"));
    assert_eq!(channel, Some(Channel::Beta));

    let mut cf = CrateFlags::default();
    assert!(CrateCommand::add_flag(&mut cf, "--keyword"));
    assert_eq!(cf.mode, Some(CrateQueryMode::Keyword));
    assert!(CrateCommand::add_flag(&mut cf, "--query"));
    assert_eq!(cf.mode, Some(CrateQueryMode::Query));
    assert!(!CrateCommand::add_flag(&mut cf, "--nope"));
}

#[test]
fn crate_lookup_modes() {
    assert_eq!(crate_lookup(None, true), CrateLookup::ById);
    assert_eq!(
        crate_lookup(Some(CrateQueryMode::Keyword), false),
        CrateLookup::Search {
            param: "keyword",
            sort: "recent-downloads",
            per_page: "3",
        }
    );
    assert_eq!(
        crate_lookup(Some(CrateQueryMode::Query), true),
        CrateLookup::Search {
            param: "q",
            sort: "relevance",
            per_page: "10",
        }
    );
}

#[test]
fn execution_plans() {
    let mut flags = Flags::default();
    assert_eq!(plan_execution(&flags, "  \n "), ExecutionPlan::Rejected);
    assert_eq!(plan_execution(&flags, "1 + 1"), ExecutionPlan::RunCode);
    flags.version = true;
    assert_eq!(
        plan_execution(&flags, "1 + 1"),
        ExecutionPlan::ShowVersion(None)
    );
    flags.help = true;
    assert_eq!(plan_execution(&flags, ""), ExecutionPlan::ShowHelp);
}

#[test]
fn about_message_layout() {
    let m = AboutCommand::message("bot", "1.2.3", "https://example.invalid/bot");
    assert_eq!(m, "bot 1.2.3\nhttps://example.invalid/bot");
}

#[test]
fn flags_need_no_separator_between_tokens() {
    // Tokens are each followed by optional whitespace, so two flags can
    // abut; the separator rule belongs to the line parser, not here.
    assert_eq!(
        parse("--chars--12345"),
        normal(&["--chars", "--12345"], "")
    );
}

#[test]
fn command_info_at_end_of_line() {
    let ci = parse_command_info("/version@bot", "bot").unwrap();
    assert_eq!(ci.name, "/version");
    assert!(ci.at_self);
    assert_eq!(ci.args, "");
}
