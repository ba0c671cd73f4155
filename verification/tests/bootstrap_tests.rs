use sublinear::bootstrap::{
    default_workflow_ladder, migration_statements, need_seed, seed_member_stmt, seed_team_id,
    seed_team_stmt, seed_user_stmt, seed_viewer_id, workflow_state_insert_stmt, StateSeed,
};
use sublinear::stmt::Param;

#[test]
fn migration_covers_every_table_idempotently() {
    let stmts = migration_statements();
    assert_eq!(stmts.len(), 11);
    assert_eq!(stmts[0], "PRAGMA foreign_keys = ON");
    for stmt in &stmts[1..] {
        assert!(stmt.starts_with("CREATE TABLE IF NOT EXISTS "));
    }
    assert!(stmts[7].contains("identifier TEXT NOT NULL UNIQUE"));
    assert!(stmts[5].contains("slug_id TEXT NOT NULL UNIQUE"));
}

#[test]
fn ladder_is_the_fixed_five_stages() {
    let ladder = default_workflow_ladder();
    let expected = [
        ("Backlog", "unstarted", 0),
        ("In Progress", "started", 1),
        ("In Review", "started", 2),
        ("Done", "completed", 3),
        ("Canceled", "canceled", 4),
    ];
    assert_eq!(ladder.len(), expected.len());
    for (seed, (name, kind, position)) in ladder.iter().zip(expected) {
        assert_eq!(seed.name, name);
        assert_eq!(seed.kind, kind);
        assert_eq!(seed.position, position);
    }
}

#[test]
fn seeding_runs_only_against_an_empty_table() {
    assert!(need_seed(0));
    assert!(!need_seed(1));
    assert!(!need_seed(42));
}

#[test]
fn seed_rows_use_the_fixed_ids() {
    assert_eq!(seed_viewer_id(), "viewer_default");
    assert_eq!(seed_team_id(), "team_default");

    let user = seed_user_stmt("Sublinear Dev", "sublinear@example.com");
    assert_eq!(user.params[0], Param::Text("viewer_default".to_string()));
    assert_eq!(user.params[1], Param::Text("Sublinear Dev".to_string()));
    assert_eq!(user.params[2], Param::Text("sublinear@example.com".to_string()));

    let team = seed_team_stmt("Synth", "SYN");
    assert_eq!(team.params[0], Param::Text("team_default".to_string()));
    assert_eq!(team.params[2], Param::Text("SYN".to_string()));

    let member = seed_member_stmt();
    assert_eq!(member.sql, "INSERT OR IGNORE INTO team_members (team_id, user_id) VALUES (?1, ?2)");
    assert_eq!(
        member.params,
        vec![Param::Text("team_default".to_string()), Param::Text("viewer_default".to_string())]
    );
}

#[test]
fn workflow_state_insert_binds_seed_values() {
    let seed = StateSeed {
        name: "Backlog".to_string(),
        kind: "unstarted".to_string(),
        position: 0,
    };
    let s = workflow_state_insert_stmt("team_default", &seed);
    assert_eq!(
        s.sql,
        "INSERT INTO workflow_states (id, team_id, name, type, position) VALUES (?1, ?2, ?3, ?4, ?5)"
    );
    assert_eq!(s.params.len(), 5);
    match &s.params[0] {
        Param::Text(id) => assert!(id.starts_with("state_") && id.len() == 18),
        other => panic!("expected a state id, got {other:?}"),
    }
    assert_eq!(s.params[1], Param::Text("team_default".to_string()));
    assert_eq!(s.params[2], Param::Text("Backlog".to_string()));
    assert_eq!(s.params[3], Param::Text("unstarted".to_string()));
    assert_eq!(s.params[4], Param::Int(0));
}
