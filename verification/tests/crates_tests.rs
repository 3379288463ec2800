use rustbot::command::{prepare_command, ExecutionPlan};
use rustbot::crates_render::{
    crate_inline_parts, render_crate_summary, render_crates_list, CrateInfo,
};

fn sample_crate() -> CrateInfo {
    CrateInfo {
        id: "serde".to_string(),
        name: "serde".to_string(),
        description: Some("A  generic\nserialization   framework".to_string()),
        max_version: "1.0.0".to_string(),
        documentation: None,
        repository: Some("https://github.com/serde-rs/serde".to_string()),
    }
}

#[test]
fn crate_summary_line() {
    let line = render_crate_summary(&sample_crate());
    let expected = format!(
        "<b>serde</b> (1.0.0) - <a href=\"{}\">info</a> - <a href=\"{}\">doc</a> - <a href=\"{}\">repo</a> - A generic serialization framework",
        htmlescape::encode_attribute("https://crates.io/crates/serde"),
        htmlescape::encode_attribute("https://docs.rs/crate/serde"),
        htmlescape::encode_attribute("https://github.com/serde-rs/serde"),
    );
    assert_eq!(line, expected);
}

#[test]
fn crate_inline_result() {
    let parts = crate_inline_parts(&sample_crate());
    assert_eq!(parts.id, "serde");
    assert_eq!(parts.title, "serde 1.0.0");
    assert_eq!(
        parts.message,
        "<b>serde</b> (1.0.0)\nA generic serialization framework"
    );
    assert_eq!(
        parts.description.as_deref(),
        Some("A generic serialization framework")
    );
    assert_eq!(parts.crate_url, "https://crates.io/crates/serde");
    assert_eq!(parts.doc_url, "https://docs.rs/crate/serde");
    assert_eq!(
        parts.repo_url.as_deref(),
        Some("https://github.com/serde-rs/serde")
    );
}

#[test]
fn crate_listing_with_more_link() {
    let one = CrateInfo {
        id: "a".to_string(),
        name: "a".to_string(),
        description: None,
        max_version: "0.1.0".to_string(),
        documentation: Some("https://docs.rs/a".to_string()),
        repository: None,
    };
    let listing = render_crates_list(&vec![one], 5, false, "a b");
    let line = format!(
        "<b>a</b> (0.1.0) - <a href=\"{}\">info</a> - <a href=\"{}\">doc</a>",
        htmlescape::encode_attribute("https://crates.io/crates/a"),
        htmlescape::encode_attribute("https://docs.rs/a"),
    );
    let more = format!(
        "<a href=\"{}\">More...</a>",
        htmlescape::encode_attribute("https://crates.io/search?q=a%20b"),
    );
    assert_eq!(listing, format!("{}\n{}", line, more));
    // A full page gets no link, an empty one a placeholder.
    let empty: Vec<CrateInfo> = vec![];
    assert_eq!(render_crates_list(&empty, 0, false, ""), "(none)");
}

#[test]
fn prepared_commands_gate_on_bot_name() {
    let p = prepare_command("/eval --version", "rustbot").unwrap();
    assert_eq!(p.plan, ExecutionPlan::ShowVersion(None));
    let p = prepare_command("/eval@rustbot 1 + 1", "rustbot").unwrap();
    assert_eq!(p.plan, ExecutionPlan::RunCode);
    assert_eq!(p.command.content, "1 + 1");
    // Another bot's command, an unparseable line, and a blank line are
    // all declined.
    assert!(prepare_command("/eval@other 1 + 1", "rustbot").is_none());
    assert!(prepare_command("/nope", "rustbot").is_none());
    assert!(prepare_command("/eval   ", "rustbot").is_none());
}
