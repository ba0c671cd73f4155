use sublinear::slug::next_project_slug;

#[test]
fn slug_in_empty_store_is_the_base() {
    let taken: Vec<String> = Vec::new();
    assert_eq!(next_project_slug("Fix Bug", &taken), "fix-bug");
    // Unpersisted, a second call yields the same base slug.
    assert_eq!(next_project_slug("Fix Bug", &taken), "fix-bug");
}

#[test]
fn slug_persisted_base_gets_suffixed() {
    let taken = vec!["fix-bug".to_string()];
    assert_eq!(next_project_slug("Fix Bug", &taken), "fix-bug-2");
}

#[test]
fn slug_probing_walks_suffixes_in_order() {
    let taken = vec!["fix-bug".to_string(), "fix-bug-2".to_string(), "fix-bug-3".to_string()];
    assert_eq!(next_project_slug("Fix Bug", &taken), "fix-bug-4");
}

#[test]
fn slug_skips_only_taken_candidates() {
    // The base is free even though suffixed forms exist.
    let taken = vec!["fix-bug-2".to_string()];
    assert_eq!(next_project_slug("Fix Bug", &taken), "fix-bug");
}

#[test]
fn slug_empty_name_uses_fallback() {
    let taken: Vec<String> = Vec::new();
    assert_eq!(next_project_slug("!!!", &taken), "project");
    let taken = vec!["project".to_string()];
    assert_eq!(next_project_slug("!!!", &taken), "project-2");
}

#[test]
fn slug_unrelated_taken_slugs_are_ignored() {
    let taken = vec!["other".to_string(), "another-2".to_string()];
    assert_eq!(next_project_slug("Fix Bug", &taken), "fix-bug");
}
