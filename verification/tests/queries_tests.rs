use sublinear::filters::issue_base_select;
use sublinear::queries::{
    exists_from_count, issue_by_id_query, issue_exists_query, issue_labels_query,
    max_issue_number_query, project_by_id_query, project_issues_query, project_slugs_query,
    team_by_id_query, team_states_pos_query, user_count_query, viewer_query,
    viewer_teams_query, workflow_state_count_query,
};
use sublinear::stmt::Param;

#[test]
fn by_id_queries_bind_the_id() {
    let s = team_by_id_query("team_default");
    assert_eq!(s.sql, "SELECT id, name, key FROM teams WHERE id = ?1");
    assert_eq!(s.params, vec![Param::Text("team_default".to_string())]);

    let s = project_by_id_query("project_1");
    assert_eq!(
        s.sql,
        "SELECT id, name, slug_id, state, archived_at, url FROM projects WHERE id = ?1"
    );
    assert_eq!(s.params, vec![Param::Text("project_1".to_string())]);

    let s = issue_by_id_query("issue_1");
    assert_eq!(s.sql, format!("{} WHERE i.id = ?1", issue_base_select()));
    assert_eq!(s.params, vec![Param::Text("issue_1".to_string())]);
}

#[test]
fn viewer_queries() {
    let s = viewer_query();
    assert_eq!(s.sql, "SELECT id, name, email FROM users ORDER BY created_at ASC LIMIT 1");
    assert!(s.params.is_empty());

    let s = viewer_teams_query("viewer_default", Some(-3));
    assert_eq!(
        s.params,
        vec![Param::Text("viewer_default".to_string()), Param::Int(50)]
    );
}

#[test]
fn project_issues_listing_excludes_archived() {
    let s = project_issues_query("project_1", None);
    assert_eq!(
        s.sql,
        format!(
            "{} WHERE i.archived = 0 AND i.project_id = ?1 ORDER BY i.updated_at DESC LIMIT ?2",
            issue_base_select()
        )
    );
    assert_eq!(s.params, vec![Param::Text("project_1".to_string()), Param::Int(50)]);
}

#[test]
fn sub_collection_queries_scope_by_owner() {
    let s = issue_labels_query("issue_1");
    assert!(s.sql.contains("WHERE il.issue_id = ?1"));
    assert!(s.sql.contains("ORDER BY l.name ASC"));
    assert_eq!(s.params, vec![Param::Text("issue_1".to_string())]);

    let s = team_states_pos_query("team_default");
    assert!(s.sql.contains("ORDER BY position ASC"));
    assert_eq!(s.params, vec![Param::Text("team_default".to_string())]);
}

#[test]
fn existence_and_maximum_lookups() {
    let s = user_count_query();
    assert_eq!(s.sql, "SELECT COUNT(*) as value FROM users");

    let s = issue_exists_query("issue_1");
    assert_eq!(s.sql, "SELECT COUNT(*) as value FROM issues WHERE id = ?1");

    let s = workflow_state_count_query("team_default", "Backlog");
    assert_eq!(
        s.params,
        vec![Param::Text("team_default".to_string()), Param::Text("Backlog".to_string())]
    );

    let s = max_issue_number_query("team_default");
    assert_eq!(
        s.sql,
        "SELECT COALESCE(MAX(number), 0) as value FROM issues WHERE team_id = ?1"
    );

    let s = project_slugs_query();
    assert_eq!(s.sql, "SELECT slug_id as value FROM projects");

    assert!(!exists_from_count(0));
    assert!(exists_from_count(1));
    assert!(exists_from_count(7));
}
