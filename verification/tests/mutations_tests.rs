use sublinear::bootstrap::default_workflow_ladder;
use sublinear::entities::TeamRow;
use sublinear::entities::WorkflowStatePosRow;
use sublinear::mutations::{
    archive_issue_stmt, archive_payload, issue_create_payload, plan_add_label,
    plan_create_comment, plan_create_issue, plan_create_project, plan_import_project,
    update_issue_result, update_issue_stmt, AdminImportProjectInput, CommentCreateInput,
    IssueCreateInput, IssueUpdateInput, ProjectCreateInput,
};
use sublinear::stmt::Param;

const BASE: &str = "http://localhost:8787";

fn seeded_team() -> TeamRow {
    TeamRow {
        id: "team_default".to_string(),
        name: "Synth".to_string(),
        key: "SYN".to_string(),
    }
}

fn seeded_states() -> Vec<WorkflowStatePosRow> {
    default_workflow_ladder()
        .into_iter()
        .enumerate()
        .map(|(i, seed)| WorkflowStatePosRow {
            id: format!("state_{i}"),
            name: seed.name,
            state_type: Some(seed.kind),
            position: seed.position,
        })
        .collect()
}

#[test]
fn project_create_empty_team_list_fails_validation() {
    let input = ProjectCreateInput { team_ids: Vec::new(), name: "Website".to_string() };
    let exists: Vec<bool> = Vec::new();
    let taken: Vec<String> = Vec::new();
    let err = plan_create_project(input, &exists, &taken, BASE).unwrap_err();
    assert_eq!(err.message(), "teamIds must contain at least one team id");
}

#[test]
fn project_create_unknown_team_fails_validation() {
    let input = ProjectCreateInput {
        team_ids: vec!["team_default".to_string(), "ghost".to_string()],
        name: "Website".to_string(),
    };
    let exists = vec![true, false];
    let taken: Vec<String> = Vec::new();
    let err = plan_create_project(input, &exists, &taken, BASE).unwrap_err();
    assert_eq!(err.message(), "team not found: ghost");
}

#[test]
fn project_create_plans_insert_and_links() {
    let input = ProjectCreateInput {
        team_ids: vec!["team_default".to_string()],
        name: "Fix Bug".to_string(),
    };
    let exists = vec![true];
    let taken = vec!["fix-bug".to_string()];
    let plan = plan_create_project(input, &exists, &taken, "http://localhost:8787/").unwrap();
    let p = &plan.project;
    assert!(p.id.starts_with("project_"));
    assert_eq!(p.name, "Fix Bug");
    assert_eq!(p.slug_id.as_deref(), Some("fix-bug-2"));
    assert_eq!(p.state.as_deref(), Some("planned"));
    assert_eq!(p.archived_at, None);
    assert_eq!(p.url.as_deref().unwrap(), format!("{BASE}/project/{}", p.id));
    assert_eq!(plan.insert.params.len(), 6);
    assert_eq!(plan.insert.params[0], Param::Text(p.id.clone()));
    assert_eq!(plan.insert.params[2], Param::Text("fix-bug-2".to_string()));
    assert_eq!(plan.insert.params[3], Param::Text("planned".to_string()));
    assert_eq!(plan.links.len(), 1);
    assert_eq!(
        plan.links[0].params,
        vec![Param::Text(p.id.clone()), Param::Text("team_default".to_string())]
    );
}

#[test]
fn first_issue_in_seeded_team_is_syn_1_in_backlog() {
    let input = IssueCreateInput {
        team_id: "team_default".to_string(),
        project_id: None,
        title: "Fix bug".to_string(),
        description: None,
    };
    let states = seeded_states();
    let plan = plan_create_issue(input, Some(seeded_team()), 0, &states, 0, BASE).unwrap();
    assert_eq!(plan.number, 1);
    assert_eq!(plan.identifier, "SYN-1");
    // The default state is the team's lowest-position state: Backlog.
    assert_eq!(plan.state_id, "state_0");
    assert_eq!(states[0].name, "Backlog");
    assert_eq!(plan.url, format!("{BASE}/issue/SYN-1"));
    assert!(plan.issue_id.starts_with("issue_"));
    // The insert leaves the issue unarchived and without assignee.
    assert!(plan.insert.sql.contains("NULL, 0, ?9"));
    assert_eq!(plan.insert.params.len(), 11);
    assert_eq!(plan.insert.params[1], Param::Text("team_default".to_string()));
    assert_eq!(plan.insert.params[2], Param::Null);
    assert_eq!(plan.insert.params[3], Param::Int(1));
    assert_eq!(plan.insert.params[4], Param::Text("SYN-1".to_string()));
    assert_eq!(plan.insert.params[5], Param::Text("Fix bug".to_string()));
    assert_eq!(plan.insert.params[9], plan.insert.params[10]);
}

#[test]
fn second_issue_gets_syn_2() {
    let input = IssueCreateInput {
        team_id: "team_default".to_string(),
        project_id: None,
        title: "Another".to_string(),
        description: Some("details".to_string()),
    };
    let states = seeded_states();
    let plan = plan_create_issue(input, Some(seeded_team()), 0, &states, 1, BASE).unwrap();
    assert_eq!(plan.number, 2);
    assert_eq!(plan.identifier, "SYN-2");
    assert_eq!(plan.insert.params[6], Param::Text("details".to_string()));
}

#[test]
fn issue_create_unknown_team_fails() {
    let input = IssueCreateInput {
        team_id: "ghost".to_string(),
        project_id: None,
        title: "x".to_string(),
        description: None,
    };
    let states = seeded_states();
    let err = plan_create_issue(input, None, 0, &states, 0, BASE).unwrap_err();
    assert_eq!(err.message(), "team not found: ghost");
}

#[test]
fn issue_create_unknown_project_fails() {
    let input = IssueCreateInput {
        team_id: "team_default".to_string(),
        project_id: Some("ghost".to_string()),
        title: "x".to_string(),
        description: None,
    };
    let states = seeded_states();
    let err = plan_create_issue(input, Some(seeded_team()), 0, &states, 0, BASE).unwrap_err();
    assert_eq!(err.message(), "project not found: ghost");
}

#[test]
fn issue_create_without_ladder_fails() {
    let input = IssueCreateInput {
        team_id: "team_default".to_string(),
        project_id: None,
        title: "x".to_string(),
        description: None,
    };
    let states: Vec<WorkflowStatePosRow> = Vec::new();
    let err = plan_create_issue(input, Some(seeded_team()), 0, &states, 0, BASE).unwrap_err();
    assert_eq!(err.message(), "team team_default has no workflow states");
}

#[test]
fn comment_create_requires_issue() {
    let input = CommentCreateInput { issue_id: "ghost".to_string(), body: "hi".to_string() };
    let err = plan_create_comment(input, 0, BASE).unwrap_err();
    assert_eq!(err.message(), "issue not found: ghost");

    let input = CommentCreateInput { issue_id: "issue_1".to_string(), body: "hi".to_string() };
    let plan = plan_create_comment(input, 1, BASE).unwrap();
    assert!(plan.comment.id.starts_with("comment_"));
    assert_eq!(plan.comment.body, "hi");
    assert_eq!(plan.comment.url, format!("{BASE}/comment/{}", plan.comment.id));
    assert_eq!(plan.insert.params.len(), 5);
    assert_eq!(plan.insert.params[1], Param::Text("issue_1".to_string()));
}

#[test]
fn update_stmt_sets_only_supplied_fields() {
    let s = update_issue_stmt(
        "issue_1",
        IssueUpdateInput { title: None, description: None, state_id: None },
    );
    assert_eq!(s.sql, "UPDATE issues SET updated_at = ? WHERE id = ?");
    assert_eq!(s.params.len(), 2);
    assert_eq!(s.params[1], Param::Text("issue_1".to_string()));

    let s = update_issue_stmt(
        "issue_1",
        IssueUpdateInput {
            title: Some("New title".to_string()),
            description: Some("d".to_string()),
            state_id: Some("ws2".to_string()),
        },
    );
    assert_eq!(
        s.sql,
        "UPDATE issues SET title = ?, description = ?, state_id = ?, updated_at = ? WHERE id = ?"
    );
    assert_eq!(s.params[0], Param::Text("New title".to_string()));
    assert_eq!(s.params[1], Param::Text("d".to_string()));
    assert_eq!(s.params[2], Param::Text("ws2".to_string()));
    assert_eq!(s.params[4], Param::Text("issue_1".to_string()));
}

#[test]
fn update_result_translates_missing_row() {
    let err = update_issue_result(0, "ghost").unwrap_err();
    assert_eq!(err.message(), "issue not found: ghost");
    assert!(update_issue_result(1, "issue_1").is_ok());
}

#[test]
fn archive_reports_success_only_when_a_row_changed() {
    assert!(!archive_payload(0).success);
    assert!(archive_payload(1).success);
    assert!(archive_payload(3).success);
    let s = archive_issue_stmt("issue_1");
    assert_eq!(s.sql, "UPDATE issues SET archived = 1, updated_at = ?1 WHERE id = ?2");
    assert_eq!(s.params.len(), 2);
    match &s.params[0] {
        Param::Text(ts) => assert!(!ts.is_empty()),
        other => panic!("expected a timestamp parameter, got {other:?}"),
    }
    assert_eq!(s.params[1], Param::Text("issue_1".to_string()));
}

#[test]
fn add_label_missing_issue_fails_softly() {
    let plan = plan_add_label("ghost", "bug", false);
    assert!(!plan.payload.success);
    assert!(plan.stmts.is_empty());
}

#[test]
fn add_label_ensures_label_then_links() {
    let plan = plan_add_label("issue_1", "bug", true);
    assert!(plan.payload.success);
    assert_eq!(plan.stmts.len(), 2);
    assert_eq!(plan.stmts[0].sql, "INSERT OR IGNORE INTO labels (id, name) VALUES (?1, ?2)");
    assert_eq!(
        plan.stmts[0].params,
        vec![Param::Text("bug".to_string()), Param::Text("bug".to_string())]
    );
    assert_eq!(
        plan.stmts[1].sql,
        "INSERT OR IGNORE INTO issue_labels (issue_id, label_id) VALUES (?1, ?2)"
    );
    assert_eq!(
        plan.stmts[1].params,
        vec![Param::Text("issue_1".to_string()), Param::Text("bug".to_string())]
    );
}

#[test]
fn import_project_deletes_other_slug_owner_then_upserts() {
    let input = AdminImportProjectInput {
        id: "project_9".to_string(),
        name: "Imported".to_string(),
        slug_id: "imported".to_string(),
        state: None,
        archived_at: Some("2024-01-01T00:00:00+00:00".to_string()),
        url: "https://elsewhere/project/9".to_string(),
    };
    let plan = plan_import_project(input);
    assert_eq!(plan.delete.sql, "DELETE FROM projects WHERE slug_id = ?1 AND id <> ?2");
    assert_eq!(
        plan.delete.params,
        vec![Param::Text("imported".to_string()), Param::Text("project_9".to_string())]
    );
    assert_eq!(plan.upsert.params.len(), 7);
    assert_eq!(plan.upsert.params[0], Param::Text("project_9".to_string()));
    assert_eq!(plan.upsert.params[3], Param::Null);
    assert_eq!(
        plan.upsert.params[4],
        Param::Text("2024-01-01T00:00:00+00:00".to_string())
    );
}

#[test]
fn reread_payloads_fail_on_vanished_rows() {
    let err = issue_create_payload(None).unwrap_err();
    assert_eq!(err.message(), "failed to load created issue");
}
