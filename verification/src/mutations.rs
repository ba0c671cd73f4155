//! Mutation planning: validate input against the relevant reads, allocate
//! identifiers and slugs, and produce the exact statements to execute plus
//! the entity values to return. Validation completes before any statement
//! is produced, so a rejected mutation writes nothing.

use vstd::prelude::*;
use vstd::string::*;

use crate::entities::{Comment, Issue, Project, TeamRow, WorkflowStatePosRow, default_workflow_state};
use crate::errors::CoreError;
use crate::ids::{
    issue_url, new_opaque_id, next_issue_number, now_iso, project_url, comment_url,
    spec_entity_url, spec_identifier, format_identifier,
};
use crate::slug::{next_project_slug, spec_candidate, spec_taken};
use crate::stmt::{Param, ParamV, Stmt, option_string_param, params_view};
use crate::text::{spec_slugify, spec_starts_with};

verus! {

/// Input of the project-creation mutation.
#[derive(Clone, Debug)]
pub struct ProjectCreateInput {
    pub team_ids: Vec<String>,
    pub name: String,
}

/// Input of the issue-creation mutation.
#[derive(Clone, Debug)]
pub struct IssueCreateInput {
    pub team_id: String,
    pub project_id: Option<String>,
    pub title: String,
    pub description: Option<String>,
}

/// Input of the issue-update mutation; absent fields stay unchanged.
#[derive(Clone, Debug)]
pub struct IssueUpdateInput {
    pub title: Option<String>,
    pub description: Option<String>,
    pub state_id: Option<String>,
}

/// Input of the comment-creation mutation.
#[derive(Clone, Debug)]
pub struct CommentCreateInput {
    pub issue_id: String,
    pub body: String,
}

/// Input of the administrative project import (upsert by id).
#[derive(Clone, Debug)]
pub struct AdminImportProjectInput {
    pub id: String,
    pub name: String,
    pub slug_id: String,
    pub state: Option<String>,
    pub archived_at: Option<String>,
    pub url: String,
}

/// Result of the project-creation mutation.
#[derive(Clone, Debug, PartialEq, Eq)]
pub struct ProjectCreatePayload {
    pub success: bool,
    pub project: Project,
}

/// Result of the issue-creation mutation.
#[derive(Clone, Debug, PartialEq, Eq)]
pub struct IssueCreatePayload {
    pub success: bool,
    pub issue: Issue,
}

/// Result of the comment-creation mutation.
#[derive(Clone, Debug, PartialEq, Eq)]
pub struct CommentCreatePayload {
    pub success: bool,
    pub comment: Comment,
}

/// Result of the issue-update mutation.
#[derive(Clone, Debug, PartialEq, Eq)]
pub struct IssueUpdatePayload {
    pub success: bool,
    pub issue: Issue,
}

/// Result of the issue-archive mutation.
#[derive(Clone, Copy, Debug, PartialEq, Eq, Structural)]
pub struct IssueArchivePayload {
    pub success: bool,
}

/// Result of the add-label mutation.
#[derive(Clone, Copy, Debug, PartialEq, Eq, Structural)]
pub struct IssueAddLabelPayload {
    pub success: bool,
}

/// Result of the administrative project import.
#[derive(Clone, Debug, PartialEq, Eq)]
pub struct AdminImportProjectPayload {
    pub success: bool,
    pub project: Project,
}

/// A validated project creation: the project to return, its insert
/// statement, and one link statement per team.
#[derive(Clone, Debug)]
pub struct ProjectPlan {
    pub project: Project,
    pub insert: Stmt,
    pub links: Vec<Stmt>,
}

/// A validated issue creation: the allocated ids and the insert statement.
/// The created issue is re-read through the assembler afterwards.
#[derive(Clone, Debug)]
pub struct IssuePlan {
    pub issue_id: String,
    pub identifier: String,
    pub number: i64,
    pub state_id: String,
    pub url: String,
    pub insert: Stmt,
}

/// A validated comment creation: the comment to return and its insert.
#[derive(Clone, Debug)]
pub struct CommentPlan {
    pub comment: Comment,
    pub insert: Stmt,
}

/// An add-label mutation: its payload, and the statements to run (none
/// when the issue does not exist).
#[derive(Clone, Debug)]
pub struct AddLabelPlan {
    pub payload: IssueAddLabelPayload,
    pub stmts: Vec<Stmt>,
}

/// A project import: delete any other project owning the slug, then upsert.
#[derive(Clone, Debug)]
pub struct ImportPlan {
    pub delete: Stmt,
    pub upsert: Stmt,
}

fn concat2(a: &str, b: &str) -> (r: String)
    ensures
        r@ == a@ + b@,
{
    let mut r = a.to_owned();
    r.append(b);
    r
}

fn concat3(a: &str, b: &str, c: &str) -> (r: String)
    ensures
        r@ == a@ + b@ + c@,
{
    let mut r = a.to_owned();
    r.append(b);
    r.append(c);
    r
}

/// What a successful project plan guarantees: the returned project, the
/// slug contract against the persisted slugs, and the exact statements.
pub open spec fn spec_project_plan_ok(
    p: ProjectPlan,
    input: ProjectCreateInput,
    taken: Seq<String>,
    base_url: Seq<char>,
) -> bool {
    &&& p.project.name == input.name
    &&& p.project.id@.len() == 20
    &&& spec_starts_with(p.project.id@, "project"@ + seq!['_'])
    &&& match p.project.slug_id {
        Some(s) => {
            &&& !spec_taken(taken, s@)
            &&& exists|k: nat|
                1 <= k && s@ == #[trigger] spec_candidate(spec_slugify(input.name@), k) && (
                forall|j: nat|
                    1 <= j < k ==> spec_taken(taken, spec_candidate(spec_slugify(input.name@), j)))
        },
        None => false,
    }
    &&& match p.project.state {
        Some(st) => st@ == "planned"@,
        None => false,
    }
    &&& p.project.archived_at is None
    &&& match p.project.url {
        Some(u) => u@ == spec_entity_url(base_url, "/project/"@, p.project.id@),
        None => false,
    }
    &&& p.insert.sql@ == "INSERT INTO projects (id, name, slug_id, state, archived_at, url, created_at)
         VALUES (?1, ?2, ?3, ?4, NULL, ?5, ?6)"@
    &&& params_view(p.insert.params@).len() == 6
    &&& params_view(p.insert.params@)[0] == ParamV::Text(p.project.id@)
    &&& params_view(p.insert.params@)[1] == ParamV::Text(input.name@)
    &&& params_view(p.insert.params@)[2] == ParamV::Text(p.project.slug_id->0@)
    &&& params_view(p.insert.params@)[3] == ParamV::Text("planned"@)
    &&& params_view(p.insert.params@)[4] == ParamV::Text(p.project.url->0@)
    &&& match params_view(p.insert.params@)[5] {
        ParamV::Text(t) => t.len() > 0,
        _ => false,
    }
    &&& p.links@.len() == input.team_ids@.len()
    &&& forall|i: int|
        0 <= i < p.links@.len() ==> (#[trigger] p.links@[i]).sql@
            == "INSERT OR IGNORE INTO project_teams (project_id, team_id) VALUES (?1, ?2)"@
            && params_view(p.links@[i].params@) == seq![
            ParamV::Text(p.project.id@),
            ParamV::Text(input.team_ids@[i]@),
        ]
}

/// Validate and plan a project creation. The team list must be non-empty
/// and every referenced team must exist (checked in order); only then are
/// any statements produced.
pub fn plan_create_project(
    input: ProjectCreateInput,
    team_exists: &Vec<bool>,
    taken_slugs: &Vec<String>,
    base_url: &str,
) -> (r: Result<ProjectPlan, CoreError>)
    requires
        team_exists@.len() == input.team_ids@.len(),
        taken_slugs@.len() < u64::MAX,
    ensures
        input.team_ids@.len() == 0 ==> match r {
            Err(e) => e.spec_message() == "teamIds must contain at least one team id"@,
            Ok(_) => false,
        },
        input.team_ids@.len() > 0 && (exists|i: int|
            0 <= i < team_exists@.len() && !team_exists@[i]) ==> match r {
            Err(e) => exists|i: int|
                0 <= i < team_exists@.len() && !(#[trigger] team_exists@[i]) && (forall|j: int|
                    0 <= j < i ==> team_exists@[j]) && e.spec_message() == "team not found: "@
                    + input.team_ids@[i]@,
            Ok(_) => false,
        },
        input.team_ids@.len() > 0 && (forall|i: int|
            0 <= i < team_exists@.len() ==> #[trigger] team_exists@[i]) ==> match r {
            Ok(p) => spec_project_plan_ok(p, input, taken_slugs@, base_url@),
            Err(_) => false,
        },
{
    if input.team_ids.len() == 0 {
        return Err(CoreError::Validation("teamIds must contain at least one team id".to_owned()));
    }
    let mut i: usize = 0;
    while i < team_exists.len()
        invariant
            i <= team_exists@.len(),
            team_exists@.len() == input.team_ids@.len(),
            forall|j: int| 0 <= j < i ==> #[trigger] team_exists@[j],
        decreases team_exists@.len() - i,
    {
        if !team_exists[i] {
            let msg = concat2("team not found: ", input.team_ids[i].as_str());
            return Err(CoreError::Validation(msg));
        }
        i = i + 1;
    }

    let project_id = new_opaque_id("project");
    proof {
        reveal_strlit("project");
    }
    let slug = next_project_slug(input.name.as_str(), taken_slugs);
    let now = now_iso();
    let url = project_url(base_url, project_id.as_str());

    let insert_params = vec![
        Param::Text(project_id.clone()),
        Param::Text(input.name.clone()),
        Param::Text(slug.clone()),
        Param::Text("planned".to_owned()),
        Param::Text(url.clone()),
        Param::Text(now),
    ];
    let insert = Stmt {
        sql: "INSERT INTO projects (id, name, slug_id, state, archived_at, url, created_at)
         VALUES (?1, ?2, ?3, ?4, NULL, ?5, ?6)".to_owned(),
        params: insert_params,
    };

    let mut links: Vec<Stmt> = Vec::new();
    let mut t: usize = 0;
    while t < input.team_ids.len()
        invariant
            t <= input.team_ids@.len(),
            links@.len() == t,
            forall|j: int|
                0 <= j < t ==> (#[trigger] links@[j]).sql@
                    == "INSERT OR IGNORE INTO project_teams (project_id, team_id) VALUES (?1, ?2)"@
                    && params_view(links@[j].params@) == seq![
                    ParamV::Text(project_id@),
                    ParamV::Text(input.team_ids@[j]@),
                ],
        decreases input.team_ids@.len() - t,
    {
        let link_params = vec![
            Param::Text(project_id.clone()),
            Param::Text(input.team_ids[t].clone()),
        ];
        proof {
            assert(params_view(link_params@) =~= seq![
                ParamV::Text(project_id@),
                ParamV::Text(input.team_ids@[t as int]@),
            ]);
        }
        links.push(
            Stmt {
                sql: "INSERT OR IGNORE INTO project_teams (project_id, team_id) VALUES (?1, ?2)".to_owned(),
                params: link_params,
            },
        );
        t = t + 1;
    }

    let project = Project {
        id: project_id,
        name: input.name,
        slug_id: Some(slug),
        state: Some("planned".to_owned()),
        archived_at: None,
        url: Some(url),
    };
    Ok(ProjectPlan { project, insert, links })
}

/// What a successful issue plan guarantees: the allocated number and
/// identifier, the default workflow state, and the exact insert statement.
pub open spec fn spec_issue_plan_ok(
    p: IssuePlan,
    input: IssueCreateInput,
    team: TeamRow,
    states: Seq<WorkflowStatePosRow>,
    max_number: int,
    base_url: Seq<char>,
) -> bool {
    &&& p.number == max_number + 1
    &&& p.identifier@ == spec_identifier(team.key@, (max_number + 1) as nat)
    &&& exists|i: int|
        0 <= i < states.len() && (forall|j: int|
            0 <= j < states.len() ==> (#[trigger] states[j]).position >= states[i].position) && (
        forall|j: int| 0 <= j < i ==> (#[trigger] states[j]).position > states[i].position)
            && p.state_id == states[i].id
    &&& p.issue_id@.len() == 18
    &&& spec_starts_with(p.issue_id@, "issue"@ + seq!['_'])
    &&& p.url@ == spec_entity_url(base_url, "/issue/"@, p.identifier@)
    &&& p.insert.sql@ == "INSERT INTO issues
         (id, team_id, project_id, number, identifier, title, description, state_id, assignee_id, archived, url, created_at, updated_at)
         VALUES (?1, ?2, ?3, ?4, ?5, ?6, ?7, ?8, NULL, 0, ?9, ?10, ?11)"@
    &&& params_view(p.insert.params@).len() == 11
    &&& params_view(p.insert.params@)[0] == ParamV::Text(p.issue_id@)
    &&& params_view(p.insert.params@)[1] == ParamV::Text(team.id@)
    &&& params_view(p.insert.params@)[2] == (match input.project_id {
        Some(pid) => ParamV::Text(pid@),
        None => ParamV::Null,
    })
    &&& params_view(p.insert.params@)[3] == ParamV::Int(max_number + 1)
    &&& params_view(p.insert.params@)[4] == ParamV::Text(p.identifier@)
    &&& params_view(p.insert.params@)[5] == ParamV::Text(input.title@)
    &&& params_view(p.insert.params@)[6] == (match input.description {
        Some(d) => ParamV::Text(d@),
        None => ParamV::Null,
    })
    &&& params_view(p.insert.params@)[7] == ParamV::Text(p.state_id@)
    &&& params_view(p.insert.params@)[8] == ParamV::Text(p.url@)
    &&& match params_view(p.insert.params@)[9] {
        ParamV::Text(t) => t.len() > 0,
        _ => false,
    }
    &&& params_view(p.insert.params@)[10] == params_view(p.insert.params@)[9]
}

/// Validate and plan an issue creation. The team must exist, a referenced
/// project must exist, and the team must have a workflow ladder; the new
/// issue gets the next sequential number, the derived identifier, the
/// lowest-position state, and identical creation and update timestamps.
pub fn plan_create_issue(
    input: IssueCreateInput,
    team: Option<TeamRow>,
    project_count: i64,
    states: &Vec<WorkflowStatePosRow>,
    max_number: i64,
    base_url: &str,
) -> (r: Result<IssuePlan, CoreError>)
    requires
        0 <= max_number < i64::MAX,
        project_count >= 0,
    ensures
        team is None ==> match r {
            Err(e) => e.spec_message() == "team not found: "@ + input.team_id@,
            Ok(_) => false,
        },
        team is Some && input.project_id is Some && project_count == 0 ==> match r {
            Err(e) => e.spec_message() == "project not found: "@ + input.project_id->0@,
            Ok(_) => false,
        },
        team is Some && (input.project_id is None || project_count > 0) && states@.len() == 0
            ==> match r {
            Err(e) => e.spec_message() == "team "@ + team->0.id@ + " has no workflow states"@,
            Ok(_) => false,
        },
        team is Some && (input.project_id is None || project_count > 0) && states@.len() > 0
            ==> match r {
            Ok(p) => spec_issue_plan_ok(p, input, team->0, states@, max_number as int, base_url@),
            Err(_) => false,
        },
{
    let team = match team {
        None => {
            let msg = concat2("team not found: ", input.team_id.as_str());
            return Err(CoreError::Validation(msg));
        },
        Some(t) => t,
    };
    if let Some(ref project_id) = input.project_id {
        if project_count == 0 {
            let msg = concat2("project not found: ", project_id.as_str());
            return Err(CoreError::Validation(msg));
        }
    }
    let state_idx = match default_workflow_state(states) {
        None => {
            let msg = concat3("team ", team.id.as_str(), " has no workflow states");
            return Err(CoreError::Validation(msg));
        },
        Some(i) => i,
    };
    let state_id = states[state_idx].id.clone();

    let number = next_issue_number(max_number);
    let identifier = format_identifier(team.key.as_str(), number as u64);
    let issue_id = new_opaque_id("issue");
    proof {
        reveal_strlit("issue");
    }
    let url = issue_url(base_url, identifier.as_str());
    let now = now_iso();

    let insert_params = vec![
        Param::Text(issue_id.clone()),
        Param::Text(team.id.clone()),
        option_string_param(input.project_id.clone()),
        Param::Int(number),
        Param::Text(identifier.clone()),
        Param::Text(input.title.clone()),
        option_string_param(input.description.clone()),
        Param::Text(state_id.clone()),
        Param::Text(url.clone()),
        Param::Text(now.clone()),
        Param::Text(now),
    ];
    let insert = Stmt {
        sql: "INSERT INTO issues
         (id, team_id, project_id, number, identifier, title, description, state_id, assignee_id, archived, url, created_at, updated_at)
         VALUES (?1, ?2, ?3, ?4, ?5, ?6, ?7, ?8, NULL, 0, ?9, ?10, ?11)".to_owned(),
        params: insert_params,
    };
    Ok(IssuePlan { issue_id, identifier, number, state_id, url, insert })
}

/// Validate and plan a comment creation: the issue must exist; the comment
/// is returned directly, without a re-read.
pub fn plan_create_comment(input: CommentCreateInput, issue_count: i64, base_url: &str) -> (r:
    Result<CommentPlan, CoreError>)
    ensures
        issue_count == 0 ==> match r {
            Err(e) => e.spec_message() == "issue not found: "@ + input.issue_id@,
            Ok(_) => false,
        },
        issue_count != 0 ==> match r {
            Ok(p) => {
                &&& p.comment.id@.len() == 20
                &&& spec_starts_with(p.comment.id@, "comment"@ + seq!['_'])
                &&& p.comment.body == input.body
                &&& p.comment.url@ == spec_entity_url(base_url@, "/comment/"@, p.comment.id@)
                &&& p.insert.sql@ == "INSERT INTO comments (id, issue_id, body, url, created_at) VALUES (?1, ?2, ?3, ?4, ?5)"@
                &&& params_view(p.insert.params@).len() == 5
                &&& params_view(p.insert.params@)[0] == ParamV::Text(p.comment.id@)
                &&& params_view(p.insert.params@)[1] == ParamV::Text(input.issue_id@)
                &&& params_view(p.insert.params@)[2] == ParamV::Text(input.body@)
                &&& params_view(p.insert.params@)[3] == ParamV::Text(p.comment.url@)
                &&& match params_view(p.insert.params@)[4] {
                    ParamV::Text(t) => t.len() > 0,
                    _ => false,
                }
            },
            Err(_) => false,
        },
{
    if issue_count == 0 {
        let msg = concat2("issue not found: ", input.issue_id.as_str());
        return Err(CoreError::Validation(msg));
    }
    let comment_id = new_opaque_id("comment");
    proof {
        reveal_strlit("comment");
    }
    let url = comment_url(base_url, comment_id.as_str());
    let now = now_iso();
    let insert_params = vec![
        Param::Text(comment_id.clone()),
        Param::Text(input.issue_id),
        Param::Text(input.body.clone()),
        Param::Text(url.clone()),
        Param::Text(now),
    ];
    let insert = Stmt {
        sql: "INSERT INTO comments (id, issue_id, body, url, created_at) VALUES (?1, ?2, ?3, ?4, ?5)".to_owned(),
        params: insert_params,
    };
    Ok(CommentPlan { comment: Comment { id: comment_id, body: input.body, url }, insert })
}

/// The SET segments of an issue update: each present field, then always
/// the update timestamp.
pub open spec fn spec_update_sets_sql(input: IssueUpdateInput) -> Seq<char> {
    (if input.title is Some {
        "title = ?, "@
    } else {
        Seq::<char>::empty()
    }) + (if input.description is Some {
        "description = ?, "@
    } else {
        Seq::<char>::empty()
    }) + (if input.state_id is Some {
        "state_id = ?, "@
    } else {
        Seq::<char>::empty()
    }) + "updated_at = ?"@
}

/// The parameters bound by the present SET segments, in order.
pub open spec fn spec_update_set_params(input: IssueUpdateInput) -> Seq<ParamV> {
    (match input.title {
        Some(t) => seq![ParamV::Text(t@)],
        None => Seq::<ParamV>::empty(),
    }) + (match input.description {
        Some(d) => seq![ParamV::Text(d@)],
        None => Seq::<ParamV>::empty(),
    }) + (match input.state_id {
        Some(s) => seq![ParamV::Text(s@)],
        None => Seq::<ParamV>::empty(),
    })
}

/// Build the issue-update statement: only the supplied fields are set, the
/// update timestamp always is, and the issue id binds last.
pub fn update_issue_stmt(issue_id: &str, input: IssueUpdateInput) -> (s: Stmt)
    ensures
        s.sql@ == "UPDATE issues SET "@ + spec_update_sets_sql(input) + " WHERE id = ?"@,
        exists|ts: Seq<char>|
            ts.len() > 0 && params_view(s.params@) == spec_update_set_params(input) + seq![
                ParamV::Text(ts),
                ParamV::Text(issue_id@),
            ],
{
    let ghost gin = input;
    let mut sets = String::new();
    let mut params: Vec<Param> = Vec::new();
    let ghost mut sexp: Seq<char> = Seq::<char>::empty();
    let ghost mut vexp: Seq<ParamV> = Seq::<ParamV>::empty();

    if let Some(title) = input.title {
        sets.append("title = ?, ");
        params.push(Param::Text(title));
    }
    proof {
        sexp = sexp + (if gin.title is Some {
            "title = ?, "@
        } else {
            Seq::<char>::empty()
        });
        vexp = vexp + (match gin.title {
            Some(t) => seq![ParamV::Text(t@)],
            None => Seq::<ParamV>::empty(),
        });
        assert(sets@ =~= sexp);
        assert(params_view(params@) =~= vexp);
    }
    if let Some(description) = input.description {
        sets.append("description = ?, ");
        params.push(Param::Text(description));
    }
    proof {
        sexp = sexp + (if gin.description is Some {
            "description = ?, "@
        } else {
            Seq::<char>::empty()
        });
        vexp = vexp + (match gin.description {
            Some(d) => seq![ParamV::Text(d@)],
            None => Seq::<ParamV>::empty(),
        });
        assert(sets@ =~= sexp);
        assert(params_view(params@) =~= vexp);
    }
    if let Some(state_id) = input.state_id {
        sets.append("state_id = ?, ");
        params.push(Param::Text(state_id));
    }
    proof {
        sexp = sexp + (if gin.state_id is Some {
            "state_id = ?, "@
        } else {
            Seq::<char>::empty()
        });
        vexp = vexp + (match gin.state_id {
            Some(s) => seq![ParamV::Text(s@)],
            None => Seq::<ParamV>::empty(),
        });
        assert(sets@ =~= sexp);
        assert(params_view(params@) =~= vexp);
    }
    sets.append("updated_at = ?");
    let now = now_iso();
    let ghost ts = now@;
    params.push(Param::Text(now));
    params.push(Param::Text(issue_id.to_owned()));
    proof {
        assert(sets@ =~= spec_update_sets_sql(gin));
        assert(params_view(params@) =~= spec_update_set_params(gin) + seq![
            ParamV::Text(ts),
            ParamV::Text(issue_id@),
        ]);
    }
    let mut sql = "UPDATE issues SET ".to_owned();
    sql.append(sets.as_str());
    sql.append(" WHERE id = ?");
    Stmt { sql, params }
}

/// Translate the affected-row count of an issue update: zero rows means
/// the issue does not exist.
pub fn update_issue_result(changed: u64, issue_id: &str) -> (r: Result<(), CoreError>)
    ensures
        changed == 0 ==> match r {
            Err(e) => e.spec_message() == "issue not found: "@ + issue_id@,
            Ok(_) => false,
        },
        changed > 0 ==> r == Ok::<(), CoreError>(()),
{
    if changed == 0 {
        let msg = concat2("issue not found: ", issue_id);
        return Err(CoreError::Validation(msg));
    }
    Ok(())
}

/// Build the archive statement: a soft delete that sets the archived flag
/// and refreshes the update timestamp.
pub fn archive_issue_stmt(issue_id: &str) -> (s: Stmt)
    ensures
        s.sql@ == "UPDATE issues SET archived = 1, updated_at = ?1 WHERE id = ?2"@,
        params_view(s.params@).len() == 2,
        match params_view(s.params@)[0] {
            ParamV::Text(t) => t.len() > 0,
            _ => false,
        },
        params_view(s.params@)[1] == ParamV::Text(issue_id@),
{
    let now = now_iso();
    let params = vec![Param::Text(now), Param::Text(issue_id.to_owned())];
    proof {
        assert(params_view(params@).len() == 2);
    }
    Stmt { sql: "UPDATE issues SET archived = 1, updated_at = ?1 WHERE id = ?2".to_owned(), params }
}

/// The archive payload: success exactly when a row was archived; a
/// nonexistent id is reported as failure, not as an error.
pub fn archive_payload(changed: u64) -> (r: IssueArchivePayload)
    ensures
        r.success == (changed > 0),
{
    IssueArchivePayload { success: changed > 0 }
}

/// Plan an add-label mutation: when the issue exists, ensure the label row
/// and link it; when it does not, succeed with `success = false` and no
/// statements.
pub fn plan_add_label(issue_id: &str, label_id: &str, issue_exists: bool) -> (r: AddLabelPlan)
    ensures
        !issue_exists ==> !r.payload.success && r.stmts@.len() == 0,
        issue_exists ==> {
            &&& r.payload.success
            &&& r.stmts@.len() == 2
            &&& r.stmts@[0].sql@ == "INSERT OR IGNORE INTO labels (id, name) VALUES (?1, ?2)"@
            &&& params_view(r.stmts@[0].params@) == seq![
                ParamV::Text(label_id@),
                ParamV::Text(label_id@),
            ]
            &&& r.stmts@[1].sql@
                == "INSERT OR IGNORE INTO issue_labels (issue_id, label_id) VALUES (?1, ?2)"@
            &&& params_view(r.stmts@[1].params@) == seq![
                ParamV::Text(issue_id@),
                ParamV::Text(label_id@),
            ]
        },
{
    if !issue_exists {
        return AddLabelPlan { payload: IssueAddLabelPayload { success: false }, stmts: Vec::new() };
    }
    let label_params = vec![Param::Text(label_id.to_owned()), Param::Text(label_id.to_owned())];
    let link_params = vec![Param::Text(issue_id.to_owned()), Param::Text(label_id.to_owned())];
    proof {
        assert(params_view(label_params@) =~= seq![
            ParamV::Text(label_id@),
            ParamV::Text(label_id@),
        ]);
        assert(params_view(link_params@) =~= seq![
            ParamV::Text(issue_id@),
            ParamV::Text(label_id@),
        ]);
    }
    let mut stmts: Vec<Stmt> = Vec::new();
    stmts.push(
        Stmt {
            sql: "INSERT OR IGNORE INTO labels (id, name) VALUES (?1, ?2)".to_owned(),
            params: label_params,
        },
    );
    stmts.push(
        Stmt {
            sql: "INSERT OR IGNORE INTO issue_labels (issue_id, label_id) VALUES (?1, ?2)".to_owned(),
            params: link_params,
        },
    );
    AddLabelPlan { payload: IssueAddLabelPayload { success: true }, stmts }
}

/// Plan a project import: delete any other project owning the slug (1:1
/// slug ownership), then upsert the imported project by id.
pub fn plan_import_project(input: AdminImportProjectInput) -> (r: ImportPlan)
    ensures
        r.delete.sql@ == "DELETE FROM projects WHERE slug_id = ?1 AND id <> ?2"@,
        params_view(r.delete.params@) == seq![
            ParamV::Text(input.slug_id@),
            ParamV::Text(input.id@),
        ],
        r.upsert.sql@ == "INSERT INTO projects (id, name, slug_id, state, archived_at, url, created_at)
         VALUES (?1, ?2, ?3, ?4, ?5, ?6, ?7)
         ON CONFLICT(id) DO UPDATE SET
           name = excluded.name,
           slug_id = excluded.slug_id,
           state = excluded.state,
           archived_at = excluded.archived_at,
           url = excluded.url"@,
        params_view(r.upsert.params@).len() == 7,
        params_view(r.upsert.params@)[0] == ParamV::Text(input.id@),
        params_view(r.upsert.params@)[1] == ParamV::Text(input.name@),
        params_view(r.upsert.params@)[2] == ParamV::Text(input.slug_id@),
        params_view(r.upsert.params@)[3] == (match input.state {
            Some(s) => ParamV::Text(s@),
            None => ParamV::Null,
        }),
        params_view(r.upsert.params@)[4] == (match input.archived_at {
            Some(a) => ParamV::Text(a@),
            None => ParamV::Null,
        }),
        params_view(r.upsert.params@)[5] == ParamV::Text(input.url@),
        match params_view(r.upsert.params@)[6] {
            ParamV::Text(t) => t.len() > 0,
            _ => false,
        },
{
    let delete_params = vec![Param::Text(input.slug_id.clone()), Param::Text(input.id.clone())];
    proof {
        assert(params_view(delete_params@) =~= seq![
            ParamV::Text(input.slug_id@),
            ParamV::Text(input.id@),
        ]);
    }
    let delete = Stmt {
        sql: "DELETE FROM projects WHERE slug_id = ?1 AND id <> ?2".to_owned(),
        params: delete_params,
    };
    let now = now_iso();
    let upsert_params = vec![
        Param::Text(input.id),
        Param::Text(input.name),
        Param::Text(input.slug_id),
        option_string_param(input.state),
        option_string_param(input.archived_at),
        Param::Text(input.url),
        Param::Text(now),
    ];
    let upsert = Stmt {
        sql: "INSERT INTO projects (id, name, slug_id, state, archived_at, url, created_at)
         VALUES (?1, ?2, ?3, ?4, ?5, ?6, ?7)
         ON CONFLICT(id) DO UPDATE SET
           name = excluded.name,
           slug_id = excluded.slug_id,
           state = excluded.state,
           archived_at = excluded.archived_at,
           url = excluded.url".to_owned(),
        params: upsert_params,
    };
    ImportPlan { delete, upsert }
}

/// Wrap the created project: creation reports success with the project.
pub fn project_create_payload(project: Project) -> (r: ProjectCreatePayload)
    ensures
        r.success,
        r.project == project,
{
    ProjectCreatePayload { success: true, project }
}

/// Wrap the re-read created issue; a vanished row is an internal
/// inconsistency for this operation alone.
pub fn issue_create_payload(issue: Option<Issue>) -> (r: Result<IssueCreatePayload, CoreError>)
    ensures
        match issue {
            Some(i) => match r {
                Ok(p) => p.success && p.issue == i,
                Err(_) => false,
            },
            None => match r {
                Ok(_) => false,
                Err(e) => e.spec_message() == "failed to load created issue"@,
            },
        },
{
    match issue {
        Some(i) => Ok(IssueCreatePayload { success: true, issue: i }),
        None => Err(CoreError::Internal("failed to load created issue".to_owned())),
    }
}

/// Wrap the re-read updated issue.
pub fn issue_update_payload(issue: Option<Issue>) -> (r: Result<IssueUpdatePayload, CoreError>)
    ensures
        match issue {
            Some(i) => match r {
                Ok(p) => p.success && p.issue == i,
                Err(_) => false,
            },
            None => match r {
                Ok(_) => false,
                Err(e) => e.spec_message() == "failed to load updated issue"@,
            },
        },
{
    match issue {
        Some(i) => Ok(IssueUpdatePayload { success: true, issue: i }),
        None => Err(CoreError::Internal("failed to load updated issue".to_owned())),
    }
}

/// Wrap the comment produced by a planned comment creation.
pub fn comment_create_payload(comment: Comment) -> (r: CommentCreatePayload)
    ensures
        r.success,
        r.comment == comment,
{
    CommentCreatePayload { success: true, comment }
}

/// Wrap the re-read imported project.
pub fn import_project_payload(project: Option<Project>) -> (r: Result<
    AdminImportProjectPayload,
    CoreError,
>)
    ensures
        match project {
            Some(p) => match r {
                Ok(pl) => pl.success && pl.project == p,
                Err(_) => false,
            },
            None => match r {
                Ok(_) => false,
                Err(e) => e.spec_message() == "failed to load imported project"@,
            },
        },
{
    match project {
        Some(p) => Ok(AdminImportProjectPayload { success: true, project: p }),
        None => Err(CoreError::Internal("failed to load imported project".to_owned())),
    }
}

} // verus!
