use sublinear::digits::u64_to_dec;
use sublinear::ids::{
    comment_url, format_identifier, issue_url, new_opaque_id, next_issue_number, project_url,
};

#[test]
fn decimal_rendering() {
    assert_eq!(u64_to_dec(0), "0");
    assert_eq!(u64_to_dec(7), "7");
    assert_eq!(u64_to_dec(10), "10");
    assert_eq!(u64_to_dec(12345), "12345");
    assert_eq!(u64_to_dec(u64::MAX), "18446744073709551615");
}

#[test]
fn identifier_formatting() {
    assert_eq!(format_identifier("SYN", 1), "SYN-1");
    assert_eq!(format_identifier("SYN", 2), "SYN-2");
    assert_eq!(format_identifier("ACME", 123), "ACME-123");
}

#[test]
fn next_issue_number_increments() {
    assert_eq!(next_issue_number(0), 1);
    assert_eq!(next_issue_number(1), 2);
    assert_eq!(next_issue_number(41), 42);
}

#[test]
fn sequential_numbers_start_at_one_and_increase() {
    let mut max: i64 = 0;
    let mut seen = Vec::new();
    for expected in 1..=10i64 {
        let n = next_issue_number(max);
        assert_eq!(n, expected);
        assert!(!seen.contains(&n));
        assert!(seen.iter().all(|&p| p < n));
        seen.push(n);
        max = n;
    }
}

#[test]
fn opaque_ids_have_prefix_and_random_token() {
    let id = new_opaque_id("issue");
    assert_eq!(id.len(), "issue".len() + 13);
    assert!(id.starts_with("issue_"));
    let token = &id["issue_".len()..];
    assert!(token.chars().all(|c| c.is_ascii_hexdigit() && !c.is_ascii_uppercase()));
    // Two allocations practically never collide.
    let other = new_opaque_id("issue");
    assert_ne!(id, other);
}

#[test]
fn entity_urls_join_base_and_segment() {
    assert_eq!(project_url("http://localhost:8787/", "project_1"), "http://localhost:8787/project/project_1");
    assert_eq!(issue_url("http://localhost:8787", "SYN-1"), "http://localhost:8787/issue/SYN-1");
    assert_eq!(comment_url("https://x.dev///", "comment_9"), "https://x.dev/comment/comment_9");
}
