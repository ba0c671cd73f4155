use sublinear::filters::{
    clamp_limit, compile_issue_filter, issue_base_select, issues_query, projects_query,
    teams_query, workflow_states_query, IdFilter, IssuePred, IssuesFilter, NumberFilter,
    ProjectsFilter, StateFilter, StringFilter, TeamFilter, TeamsFilter, WorkflowStatesFilter,
};
use sublinear::stmt::Param;

fn empty_issues_filter() -> IssuesFilter {
    IssuesFilter { team: None, project: None, state: None, number: None }
}

#[test]
fn clamp_limit_resolves_within_range() {
    assert_eq!(clamp_limit(Some(0)), 50);
    assert_eq!(clamp_limit(Some(-5)), 50);
    assert_eq!(clamp_limit(Some(10000)), 500);
    assert_eq!(clamp_limit(None), 50);
    assert_eq!(clamp_limit(Some(77)), 77);
    assert_eq!(clamp_limit(Some(1)), 1);
    assert_eq!(clamp_limit(Some(500)), 500);
}

#[test]
fn absent_filter_compiles_to_archived_exclusion_only() {
    let (preds, params) = compile_issue_filter(&None);
    assert_eq!(preds, vec![IssuePred::NotArchived]);
    assert!(params.is_empty());

    let (preds, params) = compile_issue_filter(&Some(empty_issues_filter()));
    assert_eq!(preds, vec![IssuePred::NotArchived]);
    assert!(params.is_empty());
}

#[test]
fn absent_team_filter_compiles_cleanly() {
    let filter = IssuesFilter {
        team: Some(TeamFilter {
            id: Some(IdFilter { eq: Some("absent-team".to_string()) }),
            key: None,
            name: None,
        }),
        project: None,
        state: None,
        number: None,
    };
    let (preds, params) = compile_issue_filter(&Some(filter));
    assert_eq!(preds, vec![IssuePred::NotArchived, IssuePred::TeamIdEq]);
    assert_eq!(params, vec![Param::Text("absent-team".to_string())]);
}

#[test]
fn blank_equality_values_are_skipped() {
    let filter = IssuesFilter {
        team: Some(TeamFilter {
            id: Some(IdFilter { eq: Some(String::new()) }),
            key: Some(StringFilter { eq: Some(String::new()), neq: None }),
            name: None,
        }),
        project: None,
        state: Some(StateFilter {
            name: Some(StringFilter { eq: Some(String::new()), neq: None }),
        }),
        number: None,
    };
    let (preds, params) = compile_issue_filter(&Some(filter));
    assert_eq!(preds, vec![IssuePred::NotArchived]);
    assert!(params.is_empty());
}

#[test]
fn empty_number_set_matches_everything() {
    let filter = IssuesFilter {
        team: None,
        project: None,
        state: None,
        number: Some(NumberFilter { in_values: Some(vec![]) }),
    };
    let (preds, params) = compile_issue_filter(&Some(filter));
    assert_eq!(preds, vec![IssuePred::NotArchived]);
    assert!(params.is_empty());
}

#[test]
fn full_filter_compiles_in_fixed_order() {
    let filter = IssuesFilter {
        team: Some(TeamFilter {
            id: Some(IdFilter { eq: Some("t1".to_string()) }),
            key: Some(StringFilter { eq: Some("SYN".to_string()), neq: None }),
            name: None,
        }),
        project: Some(sublinear::filters::ProjectFilter {
            id: Some(IdFilter { eq: Some("p1".to_string()) }),
            name: None,
        }),
        state: Some(StateFilter {
            name: Some(StringFilter {
                eq: Some("Backlog".to_string()),
                neq: Some("Done".to_string()),
            }),
        }),
        number: Some(NumberFilter { in_values: Some(vec![1, 2, 3]) }),
    };
    let (preds, params) = compile_issue_filter(&Some(filter));
    assert_eq!(
        preds,
        vec![
            IssuePred::NotArchived,
            IssuePred::TeamIdEq,
            IssuePred::TeamKeyEq,
            IssuePred::ProjectIdEq,
            IssuePred::StateNameEq,
            IssuePred::StateNameNeq,
            IssuePred::NumberIn(3),
        ]
    );
    assert_eq!(
        params,
        vec![
            Param::Text("t1".to_string()),
            Param::Text("SYN".to_string()),
            Param::Text("p1".to_string()),
            Param::Text("Backlog".to_string()),
            Param::Text("Done".to_string()),
            Param::Int(1),
            Param::Int(2),
            Param::Int(3),
        ]
    );
}

#[test]
fn issues_query_always_excludes_archived() {
    let s = issues_query(&None, None, None);
    assert_eq!(
        s.sql,
        format!(
            "{} WHERE i.archived = 0 ORDER BY i.updated_at DESC LIMIT ?",
            issue_base_select()
        )
    );
    assert_eq!(s.params, vec![Param::Int(50)]);

    let filter = IssuesFilter {
        team: Some(TeamFilter {
            id: Some(IdFilter { eq: Some("absent-team".to_string()) }),
            key: None,
            name: None,
        }),
        project: None,
        state: None,
        number: None,
    };
    let s = issues_query(&Some(filter), Some(10), None);
    assert_eq!(
        s.sql,
        format!(
            "{} WHERE i.archived = 0 AND i.team_id = ? ORDER BY i.updated_at DESC LIMIT ?",
            issue_base_select()
        )
    );
    assert_eq!(s.params, vec![Param::Text("absent-team".to_string()), Param::Int(10)]);
}

#[test]
fn issues_query_renders_number_placeholders() {
    let filter = IssuesFilter {
        team: None,
        project: None,
        state: None,
        number: Some(NumberFilter { in_values: Some(vec![7, 9]) }),
    };
    let s = issues_query(&Some(filter), None, None);
    assert_eq!(
        s.sql,
        format!(
            "{} WHERE i.archived = 0 AND i.number IN (?, ?) ORDER BY i.updated_at DESC LIMIT ?",
            issue_base_select()
        )
    );
    assert_eq!(s.params, vec![Param::Int(7), Param::Int(9), Param::Int(50)]);
}

#[test]
fn teams_query_with_and_without_name() {
    let s = teams_query(&None, None);
    assert_eq!(s.sql, "SELECT id, name, key FROM teams ORDER BY name ASC LIMIT ?1");
    assert_eq!(s.params, vec![Param::Int(50)]);

    let filter = TeamsFilter {
        name: Some(StringFilter { eq: Some("Synth".to_string()), neq: None }),
    };
    let s = teams_query(&Some(filter), Some(5));
    assert_eq!(
        s.sql,
        "SELECT id, name, key FROM teams WHERE name = ?1 ORDER BY name ASC LIMIT ?2"
    );
    assert_eq!(s.params, vec![Param::Text("Synth".to_string()), Param::Int(5)]);

    let blank = TeamsFilter { name: Some(StringFilter { eq: Some(String::new()), neq: None }) };
    let s = teams_query(&Some(blank), None);
    assert_eq!(s.sql, "SELECT id, name, key FROM teams ORDER BY name ASC LIMIT ?1");
}

#[test]
fn projects_query_with_and_without_name() {
    let s = projects_query(&None, None);
    assert_eq!(
        s.sql,
        "SELECT id, name, slug_id, state, archived_at, url FROM projects ORDER BY created_at DESC LIMIT ?"
    );
    assert_eq!(s.params, vec![Param::Int(50)]);

    let filter = ProjectsFilter {
        name: Some(StringFilter { eq: Some("Website".to_string()), neq: None }),
    };
    let s = projects_query(&Some(filter), Some(3));
    assert_eq!(
        s.sql,
        "SELECT id, name, slug_id, state, archived_at, url FROM projects WHERE name = ? ORDER BY created_at DESC LIMIT ?"
    );
    assert_eq!(s.params, vec![Param::Text("Website".to_string()), Param::Int(3)]);
}

#[test]
fn workflow_states_query_with_and_without_team() {
    let s = workflow_states_query(&None);
    assert_eq!(
        s.sql,
        "SELECT id, name, type AS state_type FROM workflow_states ORDER BY position ASC"
    );
    assert!(s.params.is_empty());

    let filter = WorkflowStatesFilter {
        team: Some(TeamFilter {
            id: Some(IdFilter { eq: Some("team_default".to_string()) }),
            key: None,
            name: None,
        }),
    };
    let s = workflow_states_query(&Some(filter));
    assert_eq!(
        s.sql,
        "SELECT id, name, type AS state_type FROM workflow_states WHERE team_id = ?1 ORDER BY position ASC"
    );
    assert_eq!(s.params, vec![Param::Text("team_default".to_string())]);
}
