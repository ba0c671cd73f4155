use sublinear::text::{looks_remote_url, sanitize_team_key, slugify, str_eq, trim_trailing_slash};

#[test]
fn slugify_basic_name() {
    assert_eq!(slugify("Fix Bug"), "fix-bug");
}

#[test]
fn slugify_collapses_symbol_runs() {
    assert_eq!(slugify("Hello,  World!!"), "hello-world");
}

#[test]
fn slugify_trims_outer_hyphens() {
    assert_eq!(slugify("--My Project--"), "my-project");
}

#[test]
fn slugify_empty_falls_back() {
    assert_eq!(slugify(""), "project");
    assert_eq!(slugify("  ---  "), "project");
    assert_eq!(slugify("!!!"), "project");
}

#[test]
fn slugify_lowercases_and_keeps_digits() {
    assert_eq!(slugify("Q3 Roadmap 2024"), "q3-roadmap-2024");
}

#[test]
fn slugify_non_ascii_becomes_hyphen() {
    assert_eq!(slugify("Héllo"), "h-llo");
}

#[test]
fn sanitize_team_key_keeps_alphanumerics_uppercased() {
    assert_eq!(sanitize_team_key("syn-1!"), "SYN1");
    assert_eq!(sanitize_team_key("Acme Co"), "ACMECO");
}

#[test]
fn sanitize_team_key_empty_defaults() {
    assert_eq!(sanitize_team_key(""), "SYN");
    assert_eq!(sanitize_team_key("--!!--"), "SYN");
}

#[test]
fn trim_trailing_slash_strips_all() {
    assert_eq!(trim_trailing_slash("http://localhost:8787///"), "http://localhost:8787");
    assert_eq!(trim_trailing_slash("no-slash"), "no-slash");
    assert_eq!(trim_trailing_slash("///"), "");
}

#[test]
fn looks_remote_url_schemes() {
    assert!(looks_remote_url("libsql://example.turso.io"));
    assert!(looks_remote_url("https://example.com"));
    assert!(looks_remote_url("http://example.com"));
    assert!(!looks_remote_url("sublinear.db"));
    assert!(!looks_remote_url("file:sublinear.db"));
}

#[test]
fn str_eq_compares_contents() {
    assert!(str_eq("abc", "abc"));
    assert!(!str_eq("abc", "abd"));
    assert!(!str_eq("abc", "ab"));
    assert!(str_eq("", ""));
}
