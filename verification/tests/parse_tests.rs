use rustbot::parse::{get_help_message, parse_command, Channel, Command, Flags, Mode};

#[test]
fn unknown_command() {
    assert_eq!(parse_command("/unknown"), None);
}

#[test]
fn command_with_nothing() {
    assert_eq!(
        parse_command("/eval"),
        Some(Command {
            bot_name: None,
            flags: Flags::default(),
            content: "".to_string(),
        })
    );
}

#[test]
fn command_with_content() {
    assert_eq!(
        parse_command("/eval something after"),
        Some(Command {
            bot_name: None,
            flags: Flags::default(),
            content: "something after".to_string(),
        })
    );
}

#[test]
fn command_with_content_newline() {
    assert_eq!(
        parse_command("/eval\nsome content"),
        Some(Command {
            bot_name: None,
            flags: Flags::default(),
            content: "some content".to_string(),
        }),
    );
}

#[test]
fn unknown_flag() {
    assert_eq!(parse_command("/eval --unknown"), None);
}

#[test]
fn channel_flags() {
    const CHANNELS: &[(&str, Channel)] = &[
        ("stable", Channel::Stable),
        ("beta", Channel::Beta),
        ("nightly", Channel::Nightly),
    ];
    for (name, channel) in CHANNELS.iter() {
        let expected_flags = Flags {
            channel: Some(*channel),
            ..Flags::default()
        };
        assert_eq!(
            parse_command(&format!("/eval --{}", name)),
            Some(Command {
                bot_name: None,
                flags: expected_flags,
                content: "".to_string(),
            }),
        );
    }
}

#[test]
fn edition_flags() {
    const EDITIONS: &[&str] = &["2015", "2018"];
    for edition in EDITIONS.iter() {
        let expected_flags = Flags {
            edition: Some(*edition),
            ..Flags::default()
        };
        assert_eq!(
            parse_command(&format!("/eval --{}", edition)),
            Some(Command {
                bot_name: None,
                flags: expected_flags,
                content: "".to_string(),
            }),
        );
    }
}

#[test]
fn mode_flags() {
    const MODES: &[(&str, Mode)] = &[("debug", Mode::Debug), ("release", Mode::Release)];
    for (name, mode) in MODES.iter() {
        let expected_flags = Flags {
            mode: Some(*mode),
            ..Flags::default()
        };
        assert_eq!(
            parse_command(&format!("/eval --{}", name)),
            Some(Command {
                bot_name: None,
                flags: expected_flags,
                content: "".to_string(),
            }),
        );
    }
}

#[test]
fn bare_flag() {
    let expected_flags = Flags {
        bare: true,
        ..Flags::default()
    };
    assert_eq!(
        parse_command("/eval --bare"),
        Some(Command {
            bot_name: None,
            flags: expected_flags,
            content: "".to_string(),
        }),
    );
}

#[test]
fn version_flag() {
    let expected_flags = Flags {
        version: true,
        ..Flags::default()
    };
    assert_eq!(
        parse_command("/eval --version"),
        Some(Command {
            bot_name: None,
            flags: expected_flags,
            content: "".to_string(),
        })
    );
}

#[test]
fn help_flag() {
    let expected_flags = Flags {
        help: true,
        ..Flags::default()
    };
    assert_eq!(
        parse_command("/eval --help"),
        Some(Command {
            bot_name: None,
            flags: expected_flags,
            content: "".to_string(),
        })
    );
}

#[test]
fn flags_without_sep() {
    assert_eq!(parse_command("/eval --stable--2015"), None);
}

#[test]
fn content_and_multiple_flags() {
    let input = "/eval\n--stable --bare\n--version --nightly --debug --2015\nrest\ncontent";
    let expected_flags = Flags {
        channel: Some(Channel::Nightly),
        mode: Some(Mode::Debug),
        edition: Some("2015"),
        bare: true,
        raw: false,
        version: true,
        help: false,
    };
    assert_eq!(
        parse_command(input),
        Some(Command {
            bot_name: None,
            flags: expected_flags,
            content: "rest\ncontent".to_string(),
        })
    );
}

#[test]
fn bot_name() {
    assert_eq!(
        parse_command("/eval@bot --bare content"),
        Some(Command {
            bot_name: Some("bot".to_string()),
            flags: Flags {
                bare: true,
                ..Flags::default()
            },
            content: "content".to_string(),
        })
    );
}

#[test]
fn raw_flag() {
    let expected_flags = Flags {
        raw: true,
        ..Flags::default()
    };
    assert_eq!(
        parse_command("/eval --raw"),
        Some(Command {
            bot_name: None,
            flags: expected_flags,
            content: "".to_string(),
        })
    );
}

#[test]
fn help_message_lists_every_flag() {
    let help = get_help_message();
    for flag in [
        "--stable",
        "--beta",
        "--nightly",
        "--2015",
        "--2018",
        "--2021",
        "--debug",
        "--release",
        "--bare",
        "--raw",
        "--version",
        "--help",
    ] {
        assert!(help.contains(&format!("<code>{}</code>", flag)));
    }
}

#[test]
fn bot_name_may_hold_underscores() {
    let parsed = parse_command("/eval@rust_bot 1").unwrap();
    assert_eq!(parsed.bot_name, Some("rust_bot".to_string()));
    assert_eq!(parsed.content, "1");
}

#[test]
fn later_flags_override_earlier_ones() {
    let parsed = parse_command("/eval --stable --nightly x").unwrap();
    assert_eq!(parsed.flags.channel, Some(Channel::Nightly));
}
