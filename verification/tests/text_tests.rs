use rustbot::crates_render::{collapse_whitespace, encode_for_url};
use rustbot::escape::{encode_attribute, encode_minimal, encode_with_code};
use rustbot::text::{normalize_unicode_chars, truncate_output};

fn construct_string(parts: &[(&str, usize)]) -> String {
    let len = parts.iter().map(|(s, n)| s.len() * n).sum();
    let mut result = String::with_capacity(len);
    for &(s, n) in parts.iter() {
        for _ in 0..n {
            result.push_str(s);
        }
    }
    result
}

#[test]
fn test_truncate_output() {
    const MAX_LINES: usize = 3;
    const MAX_TOTAL_COLUMNS: usize = MAX_LINES * 72;
    struct Testcase<'a> {
        input: &'a [(&'a str, usize)],
        expected: &'a [(&'a str, usize)],
    }
    const TESTCASES: &[Testcase<'_>] = &[
        Testcase {
            input: &[("a", 216)],
            expected: &[("a", 216)],
        },
        Testcase {
            input: &[("a", 217)],
            expected: &[("a", 213), ("...", 1)],
        },
        Testcase {
            input: &[("啊", 300)],
            expected: &[("啊", 106), ("...", 1)],
        },
        Testcase {
            input: &[("啊", 107), ("a", 5)],
            expected: &[("啊", 106), ("...", 1)],
        },
        Testcase {
            input: &[("a\n", 10)],
            expected: &[("a\n", 2), ("a...", 1)],
        },
    ];
    for Testcase { input, expected } in TESTCASES.iter() {
        assert_eq!(
            truncate_output(&construct_string(input), MAX_LINES, MAX_TOTAL_COLUMNS),
            construct_string(expected)
        );
    }
}

#[test]
fn normalize_replaces_lookalikes() {
    assert_eq!(normalize_unicode_chars("\u{201c}x\u{201d}"), "\"x\"");
    assert_eq!(normalize_unicode_chars("\u{2018}y\u{2019}"), "'y'");
    assert_eq!(normalize_unicode_chars("a\u{2014}b"), "a--b");
    assert_eq!(normalize_unicode_chars("plain"), "plain");
}

#[test]
fn minimal_escaping_matches_entity_table() {
    assert_eq!(encode_minimal("<em>Hej!</em>"), "&lt;em&gt;Hej!&lt;/em&gt;");
    assert_eq!(encode_minimal("a&b\"c'd"), "a&amp;b&quot;c&#x27;d");
}

#[test]
fn attribute_escaping_hexes_the_rest() {
    assert_eq!(
        encode_attribute("\"No\", he said."),
        "&quot;No&quot;&#x2C;&#x20;he&#x20;said&#x2E;"
    );
}

#[test]
fn url_encoding_keeps_safe_bytes() {
    assert_eq!(encode_for_url("serde_json"), "serde_json");
    assert_eq!(encode_for_url("hello world/x"), "hello%20world%2Fx");
    assert_eq!(encode_for_url("50%"), "50%25");
}

#[test]
fn whitespace_collapses_to_single_spaces() {
    assert_eq!(collapse_whitespace("  a \n\t b   c "), "a b c");
    assert_eq!(collapse_whitespace("word"), "word");
    assert_eq!(collapse_whitespace("   "), "");
}

#[test]
fn code_spans_are_wrapped_when_appending() {
    let mut out = String::from("note: ");
    encode_with_code(&mut out, "use `Vec<u8>` & `String`");
    assert_eq!(
        out,
        "note: use <code>Vec&lt;u8&gt;</code> &amp; <code>String</code>"
    );
    // A span left open at the end is closed.
    let mut out = String::new();
    encode_with_code(&mut out, "a`b");
    assert_eq!(out, "a<code>b</code>");
}

#[test]
fn truncation_keeps_short_output_whole() {
    assert_eq!(truncate_output("a\nb", 3, 216), "a\nb");
    assert_eq!(truncate_output("", 3, 216), "");
}
