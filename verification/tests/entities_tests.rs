use sublinear::entities::{
    default_workflow_state, issue_from_row, require_issue_found, require_project_found,
    viewer_from_row, IssueBaseRow, LabelRow, Project, Team, TeamRow, User, UserRow,
    WorkflowState, WorkflowStatePosRow, WorkflowStateRow,
};
use sublinear::errors::{CoreError, EntityKind};

fn bare_row() -> IssueBaseRow {
    IssueBaseRow {
        id: "issue_1".to_string(),
        identifier: "SYN-1".to_string(),
        title: "Fix bug".to_string(),
        url: "http://localhost:8787/issue/SYN-1".to_string(),
        description: None,
        updated_at: Some("2024-01-01T00:00:00+00:00".to_string()),
        ws_id: None,
        ws_name: None,
        ws_type: None,
        p_id: None,
        p_name: None,
        p_slug_id: None,
        p_state: None,
        p_archived_at: None,
        p_url: None,
        u_id: None,
        u_name: None,
        u_email: None,
    }
}

#[test]
fn issue_assembly_maps_scalars() {
    let issue = issue_from_row(bare_row(), Vec::new());
    assert_eq!(issue.id, "issue_1");
    assert_eq!(issue.identifier, "SYN-1");
    assert_eq!(issue.title, "Fix bug");
    assert_eq!(issue.url, "http://localhost:8787/issue/SYN-1");
    assert_eq!(issue.description, None);
    assert_eq!(issue.updated_at, Some("2024-01-01T00:00:00+00:00".to_string()));
}

#[test]
fn issue_assembly_missing_state_falls_back_to_backlog_placeholder() {
    let issue = issue_from_row(bare_row(), Vec::new());
    assert_eq!(issue.state.id, "state_missing");
    assert_eq!(issue.state.name, "Backlog");
    assert_eq!(issue.state.state_type, None);
}

#[test]
fn issue_assembly_absent_relations_stay_absent() {
    let issue = issue_from_row(bare_row(), Vec::new());
    assert!(issue.project.is_none());
    assert!(issue.assignee.is_none());
    assert!(issue.labels.nodes.is_empty());
}

#[test]
fn issue_assembly_joined_relations_are_built() {
    let mut row = bare_row();
    row.ws_id = Some("ws1".to_string());
    row.ws_name = Some("In Progress".to_string());
    row.ws_type = Some("started".to_string());
    row.p_id = Some("project_1".to_string());
    row.p_name = Some("Website".to_string());
    row.p_slug_id = Some("website".to_string());
    row.p_state = Some("planned".to_string());
    row.p_url = Some("http://localhost:8787/project/project_1".to_string());
    row.u_id = Some("viewer_default".to_string());
    row.u_name = Some("Sublinear Dev".to_string());
    row.u_email = Some("sublinear@example.com".to_string());
    let labels = vec![
        LabelRow { id: "bug".to_string(), name: "bug".to_string() },
        LabelRow { id: "p1".to_string(), name: "p1".to_string() },
    ];
    let issue = issue_from_row(row, labels);
    assert_eq!(
        issue.state,
        WorkflowState {
            id: "ws1".to_string(),
            name: "In Progress".to_string(),
            state_type: Some("started".to_string()),
        }
    );
    let project = issue.project.expect("project should be present");
    assert_eq!(project.id, "project_1");
    assert_eq!(project.name, "Website");
    assert_eq!(project.slug_id, Some("website".to_string()));
    let assignee = issue.assignee.expect("assignee should be present");
    assert_eq!(
        assignee,
        User {
            id: "viewer_default".to_string(),
            name: "Sublinear Dev".to_string(),
            email: "sublinear@example.com".to_string(),
        }
    );
    assert_eq!(issue.labels.nodes.len(), 2);
    assert_eq!(issue.labels.nodes[0].id, "bug");
    assert_eq!(issue.labels.nodes[1].name, "p1");
}

#[test]
fn issue_assembly_partial_relation_defaults_blank_fields() {
    let mut row = bare_row();
    row.p_id = Some("project_1".to_string());
    let issue = issue_from_row(row, Vec::new());
    let project = issue.project.expect("project should be present");
    assert_eq!(project.name, "");
}

fn pos_row(id: &str, position: i64) -> WorkflowStatePosRow {
    WorkflowStatePosRow {
        id: id.to_string(),
        name: id.to_string(),
        state_type: None,
        position,
    }
}

#[test]
fn default_state_is_lowest_position() {
    let states = vec![pos_row("done", 3), pos_row("backlog", 0), pos_row("started", 1)];
    assert_eq!(default_workflow_state(&states), Some(1));
}

#[test]
fn default_state_first_among_ties_and_empty_ladder() {
    let states = vec![pos_row("a", 2), pos_row("b", 2)];
    assert_eq!(default_workflow_state(&states), Some(0));
    let none: Vec<WorkflowStatePosRow> = Vec::new();
    assert_eq!(default_workflow_state(&none), None);
}

#[test]
fn direct_fetch_not_found_errors() {
    let err = require_project_found(None).unwrap_err();
    assert!(matches!(err, CoreError::NotFound(EntityKind::Project)));
    assert_eq!(err.message(), "Entity not found: Project");

    let err = require_issue_found(None).unwrap_err();
    assert!(matches!(err, CoreError::NotFound(EntityKind::Issue)));
    assert_eq!(err.message(), "Entity not found: Issue");
}

#[test]
fn direct_fetch_present_passes_through() {
    let project = Project {
        id: "project_1".to_string(),
        name: "Website".to_string(),
        slug_id: None,
        state: None,
        archived_at: None,
        url: None,
    };
    assert_eq!(require_project_found(Some(project.clone())).unwrap(), project);
}

#[test]
fn viewer_requires_a_seeded_user() {
    let row = UserRow {
        id: "viewer_default".to_string(),
        name: "Sublinear Dev".to_string(),
        email: "sublinear@example.com".to_string(),
    };
    let viewer = viewer_from_row(Some(row)).unwrap();
    assert_eq!(viewer.id, "viewer_default");
    let err = viewer_from_row(None).unwrap_err();
    assert_eq!(err.message(), "no viewer configured");
}

#[test]
fn row_conversions_keep_fields() {
    let team: Team = TeamRow {
        id: "team_default".to_string(),
        name: "Synth".to_string(),
        key: "SYN".to_string(),
    }
    .into();
    assert_eq!(team.key, "SYN");
    let state: WorkflowState = WorkflowStateRow {
        id: "ws1".to_string(),
        name: "Backlog".to_string(),
        state_type: Some("unstarted".to_string()),
    }
    .into();
    assert_eq!(state.name, "Backlog");
}

#[test]
fn empty_listings_assemble_to_empty_connections() {
    let issues = sublinear::entities::issues_from_rows(Vec::new(), Vec::new());
    assert!(issues.nodes.is_empty());
    let teams = sublinear::entities::teams_from_rows(Vec::new());
    assert!(teams.nodes.is_empty());
    let projects = sublinear::entities::projects_from_rows(Vec::new());
    assert!(projects.nodes.is_empty());
    let states = sublinear::entities::workflow_states_from_rows(Vec::new());
    assert!(states.nodes.is_empty());
}

#[test]
fn issue_listing_assembles_rows_in_order() {
    let mut row_a = bare_row();
    row_a.id = "issue_a".to_string();
    row_a.identifier = "SYN-1".to_string();
    let mut row_b = bare_row();
    row_b.id = "issue_b".to_string();
    row_b.identifier = "SYN-2".to_string();
    let labels = vec![
        vec![LabelRow { id: "bug".to_string(), name: "bug".to_string() }],
        Vec::new(),
    ];
    let listing = sublinear::entities::issues_from_rows(vec![row_a, row_b], labels);
    assert_eq!(listing.nodes.len(), 2);
    assert_eq!(listing.nodes[0].identifier, "SYN-1");
    assert_eq!(listing.nodes[0].labels.nodes.len(), 1);
    assert_eq!(listing.nodes[1].identifier, "SYN-2");
    assert!(listing.nodes[1].labels.nodes.is_empty());
}

#[test]
fn team_listing_keeps_fields_in_order() {
    let rows = vec![
        TeamRow { id: "t1".to_string(), name: "Alpha".to_string(), key: "ALP".to_string() },
        TeamRow { id: "t2".to_string(), name: "Beta".to_string(), key: "BET".to_string() },
    ];
    let listing = sublinear::entities::teams_from_rows(rows);
    assert_eq!(listing.nodes.len(), 2);
    assert_eq!(listing.nodes[0].key, "ALP");
    assert_eq!(listing.nodes[1].name, "Beta");
}
