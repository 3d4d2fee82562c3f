use crit::command::CommandOutput;
use crit::defaults::{default_feature_exclusion_pattern, default_target_exclusion_pattern, fringe_targets};
use crit::error::CritError;
use crit::order::compare_chars;
use crit::pattern::{build_exclusion_pattern, join, Pattern};
use crit::targets::{discover, format_targets, parse_targets, Target};
use crit::text::{split_lines, token_of};

fn target(triple: &str, enabled: bool) -> Target {
    Target { triple: triple.to_string(), enabled }
}

#[test]
fn lines_follow_str_lines() {
    assert_eq!(split_lines("a\nb\r\n\nc"), vec!["a", "b", "", "c"]);
    assert_eq!(split_lines("a\n"), vec!["a"]);
    assert!(split_lines("").is_empty());
}

#[test]
fn first_token_skips_leading_space() {
    assert_eq!(token_of("  x86_64-unknown-linux-gnu (installed)"), Some("x86_64-unknown-linux-gnu".to_string()));
    assert_eq!(token_of(" \t "), None);
    assert_eq!(token_of(""), None);
}

#[test]
fn chars_compare_lexicographically() {
    let a: Vec<char> = "abc".chars().collect();
    let b: Vec<char> = "abd".chars().collect();
    let c: Vec<char> = "ab".chars().collect();
    assert!(compare_chars(&a, &b) < 0);
    assert!(compare_chars(&b, &a) > 0);
    assert!(compare_chars(&c, &a) < 0);
    assert_eq!(compare_chars(&a, &a), 0);
}

#[test]
fn invalid_pattern_is_rejected() {
    assert_eq!(Pattern::new("(").err(), Some(CritError::Pattern));
    assert!(Pattern::new("wasm|ios").is_ok());
}

#[test]
fn exclusion_pattern_joins_tokens() {
    let tokens = vec!["wasm".to_string(), "ios".to_string()];
    assert_eq!(join(&tokens, "|"), "wasm|ios");
    let p = build_exclusion_pattern(&tokens).unwrap();
    assert!(p.is_match("aarch64-apple-ios"));
    assert!(p.is_match("wasm32-wasi"));
    assert!(!p.is_match("x86_64-unknown-linux-gnu"));
}

#[test]
fn default_exclusions_cover_fringe_families() {
    assert_eq!(fringe_targets().len(), 20);
    let p = default_target_exclusion_pattern().unwrap();
    assert!(p.is_match("wasm32-unknown-unknown"));
    assert!(p.is_match("thumbv7em-none-eabihf"));
    assert!(p.is_match("x86_64-pc-windows-msvc"));
    assert!(!p.is_match("x86_64-unknown-linux-gnu"));
    let f = default_feature_exclusion_pattern().unwrap();
    assert!(f.is_match("letmeout"));
    assert!(!f.is_match("cli"));
}

#[test]
fn catalog_classifies_each_triple_once_in_order() {
    let p = Pattern::new("wasm").unwrap();
    let listing = "x86_64-unknown-linux-gnu (installed)\nwasm32-unknown-unknown\naarch64-apple-darwin\n\nx86_64-unknown-linux-gnu\n";
    let ts = parse_targets(&p, listing);
    assert_eq!(
        ts,
        vec![
            target("aarch64-apple-darwin", true),
            target("wasm32-unknown-unknown", false),
            target("x86_64-unknown-linux-gnu", true),
        ]
    );
}

#[test]
fn discover_example_listing() {
    let p = default_target_exclusion_pattern().unwrap();
    let out = CommandOutput {
        success: true,
        stdout: b"x86_64-unknown-linux-gnu\nwasm32-unknown-unknown\n".to_vec(),
        stderr: Vec::new(),
    };
    let ts = discover(&p, &Some(out)).unwrap();
    assert_eq!(
        ts,
        vec![target("wasm32-unknown-unknown", false), target("x86_64-unknown-linux-gnu", true)]
    );
}

#[test]
fn discover_fails_on_failure_status_whatever_the_stream() {
    let p = Pattern::new("wasm").unwrap();
    let out = CommandOutput {
        success: false,
        stdout: b"error: toolchain not installed".to_vec(),
        stderr: Vec::new(),
    };
    assert_eq!(discover(&p, &Some(out)), Err(CritError::Query));
}

#[test]
fn discover_fails_on_invalid_utf8() {
    let p = Pattern::new("wasm").unwrap();
    let out = CommandOutput { success: true, stdout: vec![0xff, 0xfe, b'\n'], stderr: Vec::new() };
    assert_eq!(discover(&p, &Some(out)), Err(CritError::Decode));
}

#[test]
fn target_table_pads_the_first_column() {
    let ts = vec![target("aarch64-apple-darwin", true), target("wasm32-wasi", false)];
    let table = format_targets(&ts).unwrap();
    assert_eq!(
        table,
        "TARGET               ENABLED\naarch64-apple-darwin true\nwasm32-wasi          false"
    );
}

#[test]
fn target_table_header_width_is_a_minimum() {
    let ts = vec![target("a", true)];
    assert_eq!(format_targets(&ts).unwrap(), "TARGET ENABLED\na      true");
    assert_eq!(format_targets(&Vec::new()).unwrap(), "TARGET ENABLED");
}

#[test]
fn discover_fails_when_the_tool_cannot_start() {
    let p = Pattern::new("wasm").unwrap();
    assert_eq!(discover(&p, &None), Err(CritError::ToolInvocation));
}
