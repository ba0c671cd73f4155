//! Fixed read statements: direct by-id fetches, scoped sub-collection
//! resolutions, and the existence / maximum lookups that mutations consult.
//! Every statement binds its values positionally.

use vstd::prelude::*;
use vstd::string::*;

use crate::filters::{clamp_limit, issue_base_select, spec_clamp_limit, spec_issue_base_select};
use crate::stmt::{Param, ParamV, Stmt, params_view};

verus! {

/// The earliest-created user: the viewer.
pub fn viewer_query() -> (s: Stmt)
    ensures
        s.sql@ == "SELECT id, name, email FROM users ORDER BY created_at ASC LIMIT 1"@,
        params_view(s.params@) == Seq::<ParamV>::empty(),
{
    let params: Vec<Param> = Vec::new();
    proof {
        assert(params_view(params@) =~= Seq::<ParamV>::empty());
    }
    Stmt {
        sql: "SELECT id, name, email FROM users ORDER BY created_at ASC LIMIT 1".to_owned(),
        params,
    }
}

/// One team by id.
pub fn team_by_id_query(id: &str) -> (s: Stmt)
    ensures
        s.sql@ == "SELECT id, name, key FROM teams WHERE id = ?1"@,
        params_view(s.params@) == seq![ParamV::Text(id@)],
{
    let params = vec![Param::Text(id.to_owned())];
    proof {
        assert(params_view(params@) =~= seq![ParamV::Text(id@)]);
    }
    Stmt { sql: "SELECT id, name, key FROM teams WHERE id = ?1".to_owned(), params }
}

/// One project by id.
pub fn project_by_id_query(id: &str) -> (s: Stmt)
    ensures
        s.sql@ == "SELECT id, name, slug_id, state, archived_at, url FROM projects WHERE id = ?1"@,
        params_view(s.params@) == seq![ParamV::Text(id@)],
{
    let params = vec![Param::Text(id.to_owned())];
    proof {
        assert(params_view(params@) =~= seq![ParamV::Text(id@)]);
    }
    Stmt {
        sql: "SELECT id, name, slug_id, state, archived_at, url FROM projects WHERE id = ?1".to_owned(),
        params,
    }
}

/// One issue by id, through the join-denormalized base selection.
pub fn issue_by_id_query(id: &str) -> (s: Stmt)
    ensures
        s.sql@ == spec_issue_base_select() + " WHERE i.id = ?1"@,
        params_view(s.params@) == seq![ParamV::Text(id@)],
{
    let mut sql = issue_base_select().to_owned();
    sql.append(" WHERE i.id = ?1");
    let params = vec![Param::Text(id.to_owned())];
    proof {
        assert(params_view(params@) =~= seq![ParamV::Text(id@)]);
    }
    Stmt { sql, params }
}

/// The teams a user belongs to, by name, limited.
pub fn viewer_teams_query(user_id: &str, first: Option<i32>) -> (s: Stmt)
    ensures
        s.sql@ == "SELECT t.id, t.name, t.key
             FROM teams t
             INNER JOIN team_members tm ON tm.team_id = t.id
             WHERE tm.user_id = ?1
             ORDER BY t.name ASC
             LIMIT ?2"@,
        params_view(s.params@) == seq![
            ParamV::Text(user_id@),
            ParamV::Int(spec_clamp_limit(first)),
        ],
{
    let limit = clamp_limit(first);
    let params = vec![Param::Text(user_id.to_owned()), Param::Int(limit as i64)];
    proof {
        assert(params_view(params@) =~= seq![
            ParamV::Text(user_id@),
            ParamV::Int(spec_clamp_limit(first)),
        ]);
    }
    Stmt {
        sql: "SELECT t.id, t.name, t.key
             FROM teams t
             INNER JOIN team_members tm ON tm.team_id = t.id
             WHERE tm.user_id = ?1
             ORDER BY t.name ASC
             LIMIT ?2".to_owned(),
        params,
    }
}

/// A team's workflow-state ladder, position ascending.
pub fn team_states_query(team_id: &str) -> (s: Stmt)
    ensures
        s.sql@ == "SELECT id, name, type AS state_type
             FROM workflow_states
             WHERE team_id = ?1
             ORDER BY position ASC"@,
        params_view(s.params@) == seq![ParamV::Text(team_id@)],
{
    let params = vec![Param::Text(team_id.to_owned())];
    proof {
        assert(params_view(params@) =~= seq![ParamV::Text(team_id@)]);
    }
    Stmt {
        sql: "SELECT id, name, type AS state_type
             FROM workflow_states
             WHERE team_id = ?1
             ORDER BY position ASC".to_owned(),
        params,
    }
}

/// A team's workflow-state ladder with positions, for picking the default
/// state of new issues.
pub fn team_states_pos_query(team_id: &str) -> (s: Stmt)
    ensures
        s.sql@ == "SELECT id, name, type AS state_type, position FROM workflow_states WHERE team_id = ?1 ORDER BY position ASC"@,
        params_view(s.params@) == seq![ParamV::Text(team_id@)],
{
    let params = vec![Param::Text(team_id.to_owned())];
    proof {
        assert(params_view(params@) =~= seq![ParamV::Text(team_id@)]);
    }
    Stmt {
        sql: "SELECT id, name, type AS state_type, position FROM workflow_states WHERE team_id = ?1 ORDER BY position ASC".to_owned(),
        params,
    }
}

/// A project's issues: never archived ones, last updated first, limited.
pub fn project_issues_query(project_id: &str, first: Option<i32>) -> (s: Stmt)
    ensures
        s.sql@ == spec_issue_base_select()
            + " WHERE i.archived = 0 AND i.project_id = ?1 ORDER BY i.updated_at DESC LIMIT ?2"@,
        params_view(s.params@) == seq![
            ParamV::Text(project_id@),
            ParamV::Int(spec_clamp_limit(first)),
        ],
{
    let limit = clamp_limit(first);
    let mut sql = issue_base_select().to_owned();
    sql.append(" WHERE i.archived = 0 AND i.project_id = ?1 ORDER BY i.updated_at DESC LIMIT ?2");
    let params = vec![Param::Text(project_id.to_owned()), Param::Int(limit as i64)];
    proof {
        assert(params_view(params@) =~= seq![
            ParamV::Text(project_id@),
            ParamV::Int(spec_clamp_limit(first)),
        ]);
    }
    Stmt { sql, params }
}

/// An issue's labels, name ascending.
pub fn issue_labels_query(issue_id: &str) -> (s: Stmt)
    ensures
        s.sql@ == "SELECT l.id, l.name
         FROM labels l
         INNER JOIN issue_labels il ON il.label_id = l.id
         WHERE il.issue_id = ?1
         ORDER BY l.name ASC"@,
        params_view(s.params@) == seq![ParamV::Text(issue_id@)],
{
    let params = vec![Param::Text(issue_id.to_owned())];
    proof {
        assert(params_view(params@) =~= seq![ParamV::Text(issue_id@)]);
    }
    Stmt {
        sql: "SELECT l.id, l.name
         FROM labels l
         INNER JOIN issue_labels il ON il.label_id = l.id
         WHERE il.issue_id = ?1
         ORDER BY l.name ASC".to_owned(),
        params,
    }
}

/// How many users exist; seeding runs only against zero.
pub fn user_count_query() -> (s: Stmt)
    ensures
        s.sql@ == "SELECT COUNT(*) as value FROM users"@,
        params_view(s.params@) == Seq::<ParamV>::empty(),
{
    let params: Vec<Param> = Vec::new();
    proof {
        assert(params_view(params@) =~= Seq::<ParamV>::empty());
    }
    Stmt { sql: "SELECT COUNT(*) as value FROM users".to_owned(), params }
}

/// How many teams exist; seeding runs only against zero.
pub fn team_count_query() -> (s: Stmt)
    ensures
        s.sql@ == "SELECT COUNT(*) as value FROM teams"@,
        params_view(s.params@) == Seq::<ParamV>::empty(),
{
    let params: Vec<Param> = Vec::new();
    proof {
        assert(params_view(params@) =~= Seq::<ParamV>::empty());
    }
    Stmt { sql: "SELECT COUNT(*) as value FROM teams".to_owned(), params }
}

/// Whether a team with this id exists.
pub fn team_exists_query(id: &str) -> (s: Stmt)
    ensures
        s.sql@ == "SELECT COUNT(*) as value FROM teams WHERE id = ?1"@,
        params_view(s.params@) == seq![ParamV::Text(id@)],
{
    let params = vec![Param::Text(id.to_owned())];
    proof {
        assert(params_view(params@) =~= seq![ParamV::Text(id@)]);
    }
    Stmt { sql: "SELECT COUNT(*) as value FROM teams WHERE id = ?1".to_owned(), params }
}

/// Whether a project with this id exists.
pub fn project_exists_query(id: &str) -> (s: Stmt)
    ensures
        s.sql@ == "SELECT COUNT(*) as value FROM projects WHERE id = ?1"@,
        params_view(s.params@) == seq![ParamV::Text(id@)],
{
    let params = vec![Param::Text(id.to_owned())];
    proof {
        assert(params_view(params@) =~= seq![ParamV::Text(id@)]);
    }
    Stmt { sql: "SELECT COUNT(*) as value FROM projects WHERE id = ?1".to_owned(), params }
}

/// Whether an issue with this id exists.
pub fn issue_exists_query(id: &str) -> (s: Stmt)
    ensures
        s.sql@ == "SELECT COUNT(*) as value FROM issues WHERE id = ?1"@,
        params_view(s.params@) == seq![ParamV::Text(id@)],
{
    let params = vec![Param::Text(id.to_owned())];
    proof {
        assert(params_view(params@) =~= seq![ParamV::Text(id@)]);
    }
    Stmt { sql: "SELECT COUNT(*) as value FROM issues WHERE id = ?1".to_owned(), params }
}

/// Whether a team already has a workflow state of this name.
pub fn workflow_state_count_query(team_id: &str, name: &str) -> (s: Stmt)
    ensures
        s.sql@ == "SELECT COUNT(*) as value FROM workflow_states WHERE team_id = ?1 AND name = ?2"@,
        params_view(s.params@) == seq![ParamV::Text(team_id@), ParamV::Text(name@)],
{
    let params = vec![Param::Text(team_id.to_owned()), Param::Text(name.to_owned())];
    proof {
        assert(params_view(params@) =~= seq![ParamV::Text(team_id@), ParamV::Text(name@)]);
    }
    Stmt {
        sql: "SELECT COUNT(*) as value FROM workflow_states WHERE team_id = ?1 AND name = ?2".to_owned(),
        params,
    }
}

/// The highest issue number a team has assigned, zero when none exist.
pub fn max_issue_number_query(team_id: &str) -> (s: Stmt)
    ensures
        s.sql@ == "SELECT COALESCE(MAX(number), 0) as value FROM issues WHERE team_id = ?1"@,
        params_view(s.params@) == seq![ParamV::Text(team_id@)],
{
    let params = vec![Param::Text(team_id.to_owned())];
    proof {
        assert(params_view(params@) =~= seq![ParamV::Text(team_id@)]);
    }
    Stmt {
        sql: "SELECT COALESCE(MAX(number), 0) as value FROM issues WHERE team_id = ?1".to_owned(),
        params,
    }
}

/// Every persisted project slug, for collision-resolved allocation.
pub fn project_slugs_query() -> (s: Stmt)
    ensures
        s.sql@ == "SELECT slug_id as value FROM projects"@,
        params_view(s.params@) == Seq::<ParamV>::empty(),
{
    let params: Vec<Param> = Vec::new();
    proof {
        assert(params_view(params@) =~= Seq::<ParamV>::empty());
    }
    Stmt { sql: "SELECT slug_id as value FROM projects".to_owned(), params }
}

/// Whether a count shows at least one matching row.
pub fn exists_from_count(count: i64) -> (r: bool)
    ensures
        r == (count > 0),
{
    count > 0
}

} // verus!
