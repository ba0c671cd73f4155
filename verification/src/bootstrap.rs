//! Schema bootstrap planning: idempotent table creation statements, the
//! seeded viewer / team rows guarded by existence checks, and the fixed
//! five-stage workflow ladder ensured by name per seeded team.

use vstd::prelude::*;

use crate::ids::{new_opaque_id, now_iso};
use crate::stmt::{Param, ParamV, Stmt, params_view};
use crate::text::spec_starts_with;

verus! {

/// The idempotent schema statements, in execution order: the foreign-key
/// pragma, then one create-if-absent per table.
pub fn migration_statements() -> (r: Vec<&'static str>)
    ensures
        r@.len() == 11,
        r@[0]@ == "PRAGMA foreign_keys = ON"@,
        r@[1]@ == "CREATE TABLE IF NOT EXISTS users (id TEXT PRIMARY KEY, name TEXT NOT NULL, email TEXT NOT NULL, created_at TEXT NOT NULL)"@,
        r@[2]@ == "CREATE TABLE IF NOT EXISTS teams (id TEXT PRIMARY KEY, name TEXT NOT NULL, key TEXT NOT NULL UNIQUE, created_at TEXT NOT NULL)"@,
        r@[3]@ == "CREATE TABLE IF NOT EXISTS team_members (team_id TEXT NOT NULL, user_id TEXT NOT NULL, PRIMARY KEY(team_id, user_id))"@,
        r@[4]@ == "CREATE TABLE IF NOT EXISTS workflow_states (id TEXT PRIMARY KEY, team_id TEXT NOT NULL, name TEXT NOT NULL, type TEXT NOT NULL, position INTEGER NOT NULL)"@,
        r@[5]@ == "CREATE TABLE IF NOT EXISTS projects (id TEXT PRIMARY KEY, name TEXT NOT NULL, slug_id TEXT NOT NULL UNIQUE, state TEXT, archived_at TEXT, url TEXT NOT NULL, created_at TEXT NOT NULL)"@,
        r@[6]@ == "CREATE TABLE IF NOT EXISTS project_teams (project_id TEXT NOT NULL, team_id TEXT NOT NULL, PRIMARY KEY(project_id, team_id))"@,
        r@[7]@ == "CREATE TABLE IF NOT EXISTS issues (id TEXT PRIMARY KEY, team_id TEXT NOT NULL, project_id TEXT, number INTEGER NOT NULL, identifier TEXT NOT NULL UNIQUE, title TEXT NOT NULL, description TEXT, state_id TEXT NOT NULL, assignee_id TEXT, archived INTEGER NOT NULL DEFAULT 0, url TEXT NOT NULL, created_at TEXT NOT NULL, updated_at TEXT NOT NULL)"@,
        r@[8]@ == "CREATE TABLE IF NOT EXISTS labels (id TEXT PRIMARY KEY, name TEXT NOT NULL)"@,
        r@[9]@ == "CREATE TABLE IF NOT EXISTS issue_labels (issue_id TEXT NOT NULL, label_id TEXT NOT NULL, PRIMARY KEY(issue_id, label_id))"@,
        r@[10]@ == "CREATE TABLE IF NOT EXISTS comments (id TEXT PRIMARY KEY, issue_id TEXT NOT NULL, body TEXT NOT NULL, url TEXT NOT NULL, created_at TEXT NOT NULL)"@,
{
    let mut v: Vec<&'static str> = Vec::new();
    v.push("PRAGMA foreign_keys = ON");
    v.push(
        "CREATE TABLE IF NOT EXISTS users (id TEXT PRIMARY KEY, name TEXT NOT NULL, email TEXT NOT NULL, created_at TEXT NOT NULL)",
    );
    v.push(
        "CREATE TABLE IF NOT EXISTS teams (id TEXT PRIMARY KEY, name TEXT NOT NULL, key TEXT NOT NULL UNIQUE, created_at TEXT NOT NULL)",
    );
    v.push(
        "CREATE TABLE IF NOT EXISTS team_members (team_id TEXT NOT NULL, user_id TEXT NOT NULL, PRIMARY KEY(team_id, user_id))",
    );
    v.push(
        "CREATE TABLE IF NOT EXISTS workflow_states (id TEXT PRIMARY KEY, team_id TEXT NOT NULL, name TEXT NOT NULL, type TEXT NOT NULL, position INTEGER NOT NULL)",
    );
    v.push(
        "CREATE TABLE IF NOT EXISTS projects (id TEXT PRIMARY KEY, name TEXT NOT NULL, slug_id TEXT NOT NULL UNIQUE, state TEXT, archived_at TEXT, url TEXT NOT NULL, created_at TEXT NOT NULL)",
    );
    v.push(
        "CREATE TABLE IF NOT EXISTS project_teams (project_id TEXT NOT NULL, team_id TEXT NOT NULL, PRIMARY KEY(project_id, team_id))",
    );
    v.push(
        "CREATE TABLE IF NOT EXISTS issues (id TEXT PRIMARY KEY, team_id TEXT NOT NULL, project_id TEXT, number INTEGER NOT NULL, identifier TEXT NOT NULL UNIQUE, title TEXT NOT NULL, description TEXT, state_id TEXT NOT NULL, assignee_id TEXT, archived INTEGER NOT NULL DEFAULT 0, url TEXT NOT NULL, created_at TEXT NOT NULL, updated_at TEXT NOT NULL)",
    );
    v.push("CREATE TABLE IF NOT EXISTS labels (id TEXT PRIMARY KEY, name TEXT NOT NULL)");
    v.push(
        "CREATE TABLE IF NOT EXISTS issue_labels (issue_id TEXT NOT NULL, label_id TEXT NOT NULL, PRIMARY KEY(issue_id, label_id))",
    );
    v.push(
        "CREATE TABLE IF NOT EXISTS comments (id TEXT PRIMARY KEY, issue_id TEXT NOT NULL, body TEXT NOT NULL, url TEXT NOT NULL, created_at TEXT NOT NULL)",
    );
    v
}

/// The id of the seeded viewer.
pub fn seed_viewer_id() -> (r: &'static str)
    ensures
        r@ == "viewer_default"@,
{
    "viewer_default"
}

/// The id of the seeded team.
pub fn seed_team_id() -> (r: &'static str)
    ensures
        r@ == "team_default"@,
{
    "team_default"
}

/// Whether seeding must run: only against an empty table. Running seeding
/// twice never duplicates or overwrites.
pub fn need_seed(count: i64) -> (r: bool)
    ensures
        r == (count == 0),
{
    count == 0
}

/// One stage of the default workflow ladder.
#[derive(Clone, Debug, PartialEq, Eq)]
pub struct StateSeed {
    pub name: String,
    pub kind: String,
    pub position: i64,
}

/// The fixed five-stage ladder ensured per seeded team, by ascending
/// position: Backlog, In Progress, In Review, Done, Canceled.
pub fn default_workflow_ladder() -> (r: Vec<StateSeed>)
    ensures
        r@.len() == 5,
        r@[0].name@ == "Backlog"@ && r@[0].kind@ == "unstarted"@ && r@[0].position == 0,
        r@[1].name@ == "In Progress"@ && r@[1].kind@ == "started"@ && r@[1].position == 1,
        r@[2].name@ == "In Review"@ && r@[2].kind@ == "started"@ && r@[2].position == 2,
        r@[3].name@ == "Done"@ && r@[3].kind@ == "completed"@ && r@[3].position == 3,
        r@[4].name@ == "Canceled"@ && r@[4].kind@ == "canceled"@ && r@[4].position == 4,
{
    let mut v: Vec<StateSeed> = Vec::new();
    v.push(StateSeed { name: "Backlog".to_owned(), kind: "unstarted".to_owned(), position: 0 });
    v.push(
        StateSeed { name: "In Progress".to_owned(), kind: "started".to_owned(), position: 1 },
    );
    v.push(StateSeed { name: "In Review".to_owned(), kind: "started".to_owned(), position: 2 });
    v.push(StateSeed { name: "Done".to_owned(), kind: "completed".to_owned(), position: 3 });
    v.push(StateSeed { name: "Canceled".to_owned(), kind: "canceled".to_owned(), position: 4 });
    v
}

/// The insert seeding the single viewer user.
pub fn seed_user_stmt(name: &str, email: &str) -> (s: Stmt)
    ensures
        s.sql@ == "INSERT INTO users (id, name, email, created_at) VALUES (?1, ?2, ?3, ?4)"@,
        params_view(s.params@).len() == 4,
        params_view(s.params@)[0] == ParamV::Text("viewer_default"@),
        params_view(s.params@)[1] == ParamV::Text(name@),
        params_view(s.params@)[2] == ParamV::Text(email@),
        match params_view(s.params@)[3] {
            ParamV::Text(t) => t.len() > 0,
            _ => false,
        },
{
    let now = now_iso();
    let params = vec![
        Param::Text("viewer_default".to_owned()),
        Param::Text(name.to_owned()),
        Param::Text(email.to_owned()),
        Param::Text(now),
    ];
    Stmt {
        sql: "INSERT INTO users (id, name, email, created_at) VALUES (?1, ?2, ?3, ?4)".to_owned(),
        params,
    }
}

/// The insert seeding the single team.
pub fn seed_team_stmt(name: &str, key: &str) -> (s: Stmt)
    ensures
        s.sql@ == "INSERT INTO teams (id, name, key, created_at) VALUES (?1, ?2, ?3, ?4)"@,
        params_view(s.params@).len() == 4,
        params_view(s.params@)[0] == ParamV::Text("team_default"@),
        params_view(s.params@)[1] == ParamV::Text(name@),
        params_view(s.params@)[2] == ParamV::Text(key@),
        match params_view(s.params@)[3] {
            ParamV::Text(t) => t.len() > 0,
            _ => false,
        },
{
    let now = now_iso();
    let params = vec![
        Param::Text("team_default".to_owned()),
        Param::Text(name.to_owned()),
        Param::Text(key.to_owned()),
        Param::Text(now),
    ];
    Stmt {
        sql: "INSERT INTO teams (id, name, key, created_at) VALUES (?1, ?2, ?3, ?4)".to_owned(),
        params,
    }
}

/// The idempotent link between the seeded user and the seeded team.
pub fn seed_member_stmt() -> (s: Stmt)
    ensures
        s.sql@ == "INSERT OR IGNORE INTO team_members (team_id, user_id) VALUES (?1, ?2)"@,
        params_view(s.params@) == seq![
            ParamV::Text("team_default"@),
            ParamV::Text("viewer_default"@),
        ],
{
    let params = vec![
        Param::Text("team_default".to_owned()),
        Param::Text("viewer_default".to_owned()),
    ];
    proof {
        assert(params_view(params@) =~= seq![
            ParamV::Text("team_default"@),
            ParamV::Text("viewer_default"@),
        ]);
    }
    Stmt {
        sql: "INSERT OR IGNORE INTO team_members (team_id, user_id) VALUES (?1, ?2)".to_owned(),
        params,
    }
}

/// The insert creating one missing workflow state, with a fresh opaque id.
pub fn workflow_state_insert_stmt(team_id: &str, seed: &StateSeed) -> (s: Stmt)
    ensures
        s.sql@ == "INSERT INTO workflow_states (id, team_id, name, type, position) VALUES (?1, ?2, ?3, ?4, ?5)"@,
        params_view(s.params@).len() == 5,
        match params_view(s.params@)[0] {
            ParamV::Text(t) => t.len() == 18 && spec_starts_with(t, "state"@ + seq!['_']),
            _ => false,
        },
        params_view(s.params@)[1] == ParamV::Text(team_id@),
        params_view(s.params@)[2] == ParamV::Text(seed.name@),
        params_view(s.params@)[3] == ParamV::Text(seed.kind@),
        params_view(s.params@)[4] == ParamV::Int(seed.position as int),
{
    let id = new_opaque_id("state");
    proof {
        reveal_strlit("state");
    }
    let params = vec![
        Param::Text(id),
        Param::Text(team_id.to_owned()),
        Param::Text(seed.name.clone()),
        Param::Text(seed.kind.clone()),
        Param::Int(seed.position),
    ];
    Stmt {
        sql: "INSERT INTO workflow_states (id, team_id, name, type, position) VALUES (?1, ?2, ?3, ?4, ?5)".to_owned(),
        params,
    }
}

} // verus!
