//! The row-to-graph assembler: flat, possibly join-denormalized rows from
//! storage become typed entities. Nullable relation columns map to absent
//! relations; a missing sibling row falls back to a safe placeholder rather
//! than failing the resolution.

use vstd::prelude::*;

use crate::errors::{CoreError, EntityKind};

verus! {

/// A flat user row.
#[derive(Clone, Debug, PartialEq, Eq)]
pub struct UserRow {
    pub id: String,
    pub name: String,
    pub email: String,
}

/// A flat team row.
#[derive(Clone, Debug, PartialEq, Eq)]
pub struct TeamRow {
    pub id: String,
    pub name: String,
    pub key: String,
}

/// A flat project row.
#[derive(Clone, Debug, PartialEq, Eq)]
pub struct ProjectRow {
    pub id: String,
    pub name: String,
    pub slug_id: Option<String>,
    pub state: Option<String>,
    pub archived_at: Option<String>,
    pub url: Option<String>,
}

/// A flat workflow-state row.
#[derive(Clone, Debug, PartialEq, Eq)]
pub struct WorkflowStateRow {
    pub id: String,
    pub name: String,
    pub state_type: Option<String>,
}

/// A flat workflow-state row carrying its ladder position.
#[derive(Clone, Debug, PartialEq, Eq)]
pub struct WorkflowStatePosRow {
    pub id: String,
    pub name: String,
    pub state_type: Option<String>,
    pub position: i64,
}

/// A flat label row.
#[derive(Clone, Debug, PartialEq, Eq)]
pub struct LabelRow {
    pub id: String,
    pub name: String,
}

/// The join-denormalized issue row produced by the issue base selection.
/// Relation columns come from outer joins and are nullable.
#[derive(Clone, Debug, PartialEq, Eq)]
pub struct IssueBaseRow {
    pub id: String,
    pub identifier: String,
    pub title: String,
    pub url: String,
    pub description: Option<String>,
    pub updated_at: Option<String>,
    pub ws_id: Option<String>,
    pub ws_name: Option<String>,
    pub ws_type: Option<String>,
    pub p_id: Option<String>,
    pub p_name: Option<String>,
    pub p_slug_id: Option<String>,
    pub p_state: Option<String>,
    pub p_archived_at: Option<String>,
    pub p_url: Option<String>,
    pub u_id: Option<String>,
    pub u_name: Option<String>,
    pub u_email: Option<String>,
}

/// The viewer: the seeded user every deployment has.
#[derive(Clone, Debug, PartialEq, Eq)]
pub struct Viewer {
    pub id: String,
    pub name: String,
    pub email: String,
}

/// A user.
#[derive(Clone, Debug, PartialEq, Eq)]
pub struct User {
    pub id: String,
    pub name: String,
    pub email: String,
}

/// A team.
#[derive(Clone, Debug, PartialEq, Eq)]
pub struct Team {
    pub id: String,
    pub name: String,
    pub key: String,
}

/// A project.
#[derive(Clone, Debug, PartialEq, Eq)]
pub struct Project {
    pub id: String,
    pub name: String,
    pub slug_id: Option<String>,
    pub state: Option<String>,
    pub archived_at: Option<String>,
    pub url: Option<String>,
}

/// A workflow state.
#[derive(Clone, Debug, PartialEq, Eq)]
pub struct WorkflowState {
    pub id: String,
    pub name: String,
    pub state_type: Option<String>,
}

/// A label.
#[derive(Clone, Debug, PartialEq, Eq)]
pub struct Label {
    pub id: String,
    pub name: String,
}

/// A comment.
#[derive(Clone, Debug, PartialEq, Eq)]
pub struct Comment {
    pub id: String,
    pub body: String,
    pub url: String,
}

/// The labels attached to an issue.
#[derive(Clone, Debug, PartialEq, Eq)]
pub struct LabelConnection {
    pub nodes: Vec<Label>,
}

/// An issue with its eagerly joined relations.
#[derive(Clone, Debug, PartialEq, Eq)]
pub struct Issue {
    pub id: String,
    pub identifier: String,
    pub title: String,
    pub url: String,
    pub description: Option<String>,
    pub assignee: Option<User>,
    pub project: Option<Project>,
    pub state: WorkflowState,
    pub labels: LabelConnection,
    pub updated_at: Option<String>,
}

/// A listing of teams.
#[derive(Clone, Debug, PartialEq, Eq)]
pub struct TeamConnection {
    pub nodes: Vec<Team>,
}

/// A listing of projects.
#[derive(Clone, Debug, PartialEq, Eq)]
pub struct ProjectConnection {
    pub nodes: Vec<Project>,
}

/// A listing of issues.
#[derive(Clone, Debug, PartialEq, Eq)]
pub struct IssueConnection {
    pub nodes: Vec<Issue>,
}

/// A listing of workflow states.
#[derive(Clone, Debug, PartialEq, Eq)]
pub struct WorkflowStateConnection {
    pub nodes: Vec<WorkflowState>,
}

impl From<UserRow> for User {
    fn from(v: UserRow) -> (r: Self) {
        User { id: v.id, name: v.name, email: v.email }
    }
}

impl vstd::std_specs::convert::FromSpecImpl<UserRow> for User {
    open spec fn obeys_from_spec() -> bool {
        true
    }

    open spec fn from_spec(v: UserRow) -> Self {
        User { id: v.id, name: v.name, email: v.email }
    }
}

impl From<TeamRow> for Team {
    fn from(v: TeamRow) -> (r: Self) {
        Team { id: v.id, name: v.name, key: v.key }
    }
}

impl vstd::std_specs::convert::FromSpecImpl<TeamRow> for Team {
    open spec fn obeys_from_spec() -> bool {
        true
    }

    open spec fn from_spec(v: TeamRow) -> Self {
        Team { id: v.id, name: v.name, key: v.key }
    }
}

impl From<ProjectRow> for Project {
    fn from(v: ProjectRow) -> (r: Self) {
        Project {
            id: v.id,
            name: v.name,
            slug_id: v.slug_id,
            state: v.state,
            archived_at: v.archived_at,
            url: v.url,
        }
    }
}

impl vstd::std_specs::convert::FromSpecImpl<ProjectRow> for Project {
    open spec fn obeys_from_spec() -> bool {
        true
    }

    open spec fn from_spec(v: ProjectRow) -> Self {
        Project {
            id: v.id,
            name: v.name,
            slug_id: v.slug_id,
            state: v.state,
            archived_at: v.archived_at,
            url: v.url,
        }
    }
}

impl From<WorkflowStateRow> for WorkflowState {
    fn from(v: WorkflowStateRow) -> (r: Self) {
        WorkflowState { id: v.id, name: v.name, state_type: v.state_type }
    }
}

impl vstd::std_specs::convert::FromSpecImpl<WorkflowStateRow> for WorkflowState {
    open spec fn obeys_from_spec() -> bool {
        true
    }

    open spec fn from_spec(v: WorkflowStateRow) -> Self {
        WorkflowState { id: v.id, name: v.name, state_type: v.state_type }
    }
}

/// What assembling one issue from its base row and label rows guarantees:
/// scalars carried over, nullable relation columns mapped to absent
/// relations, the synthetic `Backlog` placeholder for a missing state, and
/// the labels in row order.
pub open spec fn spec_issue_assembled(r: Issue, row: IssueBaseRow, labels: Seq<LabelRow>) -> bool {
    &&& r.id == row.id
    &&& r.identifier == row.identifier
    &&& r.title == row.title
    &&& r.url == row.url
    &&& r.description == row.description
    &&& r.updated_at == row.updated_at
    &&& match row.ws_id {
        Some(v) => r.state.id == v,
        None => r.state.id@ == "state_missing"@,
    }
    &&& match row.ws_name {
        Some(v) => r.state.name == v,
        None => r.state.name@ == "Backlog"@,
    }
    &&& r.state.state_type == row.ws_type
    &&& match row.p_id {
        Some(id) => match r.project {
            Some(p) => p.id == id && p.slug_id == row.p_slug_id && p.state == row.p_state
                && p.archived_at == row.p_archived_at && p.url == row.p_url && (
            match row.p_name {
                Some(n) => p.name == n,
                None => p.name@ == Seq::<char>::empty(),
            }),
            None => false,
        },
        None => r.project is None,
    }
    &&& match row.u_id {
        Some(id) => match r.assignee {
            Some(u) => u.id == id && (match row.u_name {
                Some(n) => u.name == n,
                None => u.name@ == Seq::<char>::empty(),
            }) && (match row.u_email {
                Some(e) => u.email == e,
                None => u.email@ == Seq::<char>::empty(),
            }),
            None => false,
        },
        None => r.assignee is None,
    }
    &&& r.labels.nodes@.len() == labels.len()
    &&& forall|i: int|
        0 <= i < labels.len() ==> (#[trigger] r.labels.nodes@[i]).id == labels[i].id
            && r.labels.nodes@[i].name == labels[i].name
}

/// Assemble an issue from its join-denormalized base row and its label
/// rows. Null relation columns become absent relations; a missing workflow
/// state falls back to the synthetic `Backlog` placeholder.
pub fn issue_from_row(row: IssueBaseRow, label_rows: Vec<LabelRow>) -> (r: Issue)
    ensures
        spec_issue_assembled(r, row, label_rows@),
{
    let mut nodes: Vec<Label> = Vec::new();
    let mut i: usize = 0;
    while i < label_rows.len()
        invariant
            i <= label_rows@.len(),
            nodes@.len() == i,
            forall|j: int|
                0 <= j < i ==> (#[trigger] nodes@[j]).id == label_rows@[j].id && nodes@[j].name
                    == label_rows@[j].name,
        decreases label_rows@.len() - i,
    {
        nodes.push(
            Label { id: label_rows[i].id.clone(), name: label_rows[i].name.clone() },
        );
        i = i + 1;
    }

    let state = WorkflowState {
        id: match row.ws_id {
            Some(v) => v,
            None => "state_missing".to_owned(),
        },
        name: match row.ws_name {
            Some(v) => v,
            None => "Backlog".to_owned(),
        },
        state_type: row.ws_type,
    };

    let project = match row.p_id {
        Some(id) => Some(
            Project {
                id,
                name: match row.p_name {
                    Some(n) => n,
                    None => String::new(),
                },
                slug_id: row.p_slug_id,
                state: row.p_state,
                archived_at: row.p_archived_at,
                url: row.p_url,
            },
        ),
        None => None,
    };

    let assignee = match row.u_id {
        Some(id) => Some(
            User {
                id,
                name: match row.u_name {
                    Some(n) => n,
                    None => String::new(),
                },
                email: match row.u_email {
                    Some(e) => e,
                    None => String::new(),
                },
            },
        ),
        None => None,
    };

    Issue {
        id: row.id,
        identifier: row.identifier,
        title: row.title,
        url: row.url,
        description: row.description,
        assignee,
        project,
        state,
        labels: LabelConnection { nodes },
        updated_at: row.updated_at,
    }
}

/// The default workflow state for new issues: the first state with the
/// lowest ladder position, or nothing when the team has no states.
pub fn default_workflow_state(states: &Vec<WorkflowStatePosRow>) -> (r: Option<usize>)
    ensures
        states@.len() == 0 <==> r is None,
        match r {
            Some(i) => i < states@.len() && (forall|j: int|
                0 <= j < states@.len() ==> (#[trigger] states@[j]).position
                    >= states@[i as int].position) && (forall|j: int|
                0 <= j < i ==> (#[trigger] states@[j]).position > states@[i as int].position),
            None => true,
        },
{
    if states.len() == 0 {
        return None;
    }
    let mut best: usize = 0;
    let mut i: usize = 1;
    while i < states.len()
        invariant
            best < i <= states@.len(),
            forall|j: int|
                0 <= j < i ==> (#[trigger] states@[j]).position >= states@[best as int].position,
            forall|j: int|
                0 <= j < best ==> (#[trigger] states@[j]).position
                    > states@[best as int].position,
        decreases states@.len() - i,
    {
        if states[i].position < states[best].position {
            best = i;
        }
        i = i + 1;
    }
    Some(best)
}

/// Assemble an issue listing: one issue per base row, each with its own
/// label rows. No rows yield an empty listing, never an error.
pub fn issues_from_rows(rows: Vec<IssueBaseRow>, labels: Vec<Vec<LabelRow>>) -> (r:
    IssueConnection)
    requires
        labels@.len() == rows@.len(),
    ensures
        r.nodes@.len() == rows@.len(),
        forall|i: int|
            0 <= i < rows@.len() ==> spec_issue_assembled(
                #[trigger] r.nodes@[i],
                rows@[i],
                labels@[i]@,
            ),
{
    let ghost orig_rows = rows@;
    let ghost orig_labels = labels@;
    let mut rows = rows;
    let mut labels = labels;
    let mut nodes: Vec<Issue> = Vec::new();
    while rows.len() > 0
        invariant
            rows@.len() == labels@.len(),
            nodes@.len() + rows@.len() == orig_rows.len(),
            orig_labels.len() == orig_rows.len(),
            rows@ =~= orig_rows.skip(nodes@.len() as int),
            labels@ =~= orig_labels.skip(nodes@.len() as int),
            forall|j: int|
                0 <= j < nodes@.len() ==> spec_issue_assembled(
                    #[trigger] nodes@[j],
                    orig_rows[j],
                    orig_labels[j]@,
                ),
        decreases rows@.len(),
    {
        let ghost k = nodes@.len() as int;
        let row = rows.remove(0);
        let lab = labels.remove(0);
        proof {
            assert(row == orig_rows[k]);
            assert(lab == orig_labels[k]);
            assert(rows@ =~= orig_rows.skip(k + 1));
            assert(labels@ =~= orig_labels.skip(k + 1));
        }
        nodes.push(issue_from_row(row, lab));
    }
    IssueConnection { nodes }
}

/// Assemble a team listing from its rows, in row order.
pub fn teams_from_rows(rows: Vec<TeamRow>) -> (r: TeamConnection)
    ensures
        r.nodes@.len() == rows@.len(),
        forall|i: int|
            0 <= i < rows@.len() ==> (#[trigger] r.nodes@[i]).id == rows@[i].id
                && r.nodes@[i].name == rows@[i].name && r.nodes@[i].key == rows@[i].key,
{
    let ghost orig = rows@;
    let mut rows = rows;
    let mut nodes: Vec<Team> = Vec::new();
    while rows.len() > 0
        invariant
            nodes@.len() + rows@.len() == orig.len(),
            rows@ =~= orig.skip(nodes@.len() as int),
            forall|j: int|
                0 <= j < nodes@.len() ==> (#[trigger] nodes@[j]).id == orig[j].id
                    && nodes@[j].name == orig[j].name && nodes@[j].key == orig[j].key,
        decreases rows@.len(),
    {
        let ghost k = nodes@.len() as int;
        let row = rows.remove(0);
        proof {
            assert(row == orig[k]);
            assert(rows@ =~= orig.skip(k + 1));
        }
        nodes.push(Team::from(row));
    }
    TeamConnection { nodes }
}

/// Assemble a project listing from its rows, in row order.
pub fn projects_from_rows(rows: Vec<ProjectRow>) -> (r: ProjectConnection)
    ensures
        r.nodes@.len() == rows@.len(),
        forall|i: int|
            0 <= i < rows@.len() ==> (#[trigger] r.nodes@[i]).id == rows@[i].id
                && r.nodes@[i].name == rows@[i].name && r.nodes@[i].slug_id == rows@[i].slug_id
                && r.nodes@[i].state == rows@[i].state && r.nodes@[i].archived_at
                == rows@[i].archived_at && r.nodes@[i].url == rows@[i].url,
{
    let ghost orig = rows@;
    let mut rows = rows;
    let mut nodes: Vec<Project> = Vec::new();
    while rows.len() > 0
        invariant
            nodes@.len() + rows@.len() == orig.len(),
            rows@ =~= orig.skip(nodes@.len() as int),
            forall|j: int|
                0 <= j < nodes@.len() ==> (#[trigger] nodes@[j]).id == orig[j].id
                    && nodes@[j].name == orig[j].name && nodes@[j].slug_id == orig[j].slug_id
                    && nodes@[j].state == orig[j].state && nodes@[j].archived_at
                    == orig[j].archived_at && nodes@[j].url == orig[j].url,
        decreases rows@.len(),
    {
        let ghost k = nodes@.len() as int;
        let row = rows.remove(0);
        proof {
            assert(row == orig[k]);
            assert(rows@ =~= orig.skip(k + 1));
        }
        nodes.push(Project::from(row));
    }
    ProjectConnection { nodes }
}

/// Assemble a workflow-state listing from its rows, in row order.
pub fn workflow_states_from_rows(rows: Vec<WorkflowStateRow>) -> (r: WorkflowStateConnection)
    ensures
        r.nodes@.len() == rows@.len(),
        forall|i: int|
            0 <= i < rows@.len() ==> (#[trigger] r.nodes@[i]).id == rows@[i].id
                && r.nodes@[i].name == rows@[i].name && r.nodes@[i].state_type
                == rows@[i].state_type,
{
    let ghost orig = rows@;
    let mut rows = rows;
    let mut nodes: Vec<WorkflowState> = Vec::new();
    while rows.len() > 0
        invariant
            nodes@.len() + rows@.len() == orig.len(),
            rows@ =~= orig.skip(nodes@.len() as int),
            forall|j: int|
                0 <= j < nodes@.len() ==> (#[trigger] nodes@[j]).id == orig[j].id
                    && nodes@[j].name == orig[j].name && nodes@[j].state_type
                    == orig[j].state_type,
        decreases rows@.len(),
    {
        let ghost k = nodes@.len() as int;
        let row = rows.remove(0);
        proof {
            assert(row == orig[k]);
            assert(rows@ =~= orig.skip(k + 1));
        }
        nodes.push(WorkflowState::from(row));
    }
    WorkflowStateConnection { nodes }
}

/// Translate an absent project on a direct by-id fetch into the typed
/// not-found failure; listings never take this path.
pub fn require_project_found(o: Option<Project>) -> (r: Result<Project, CoreError>)
    ensures
        match o {
            Some(p) => r == Ok::<Project, CoreError>(p),
            None => r == Err::<Project, CoreError>(CoreError::NotFound(EntityKind::Project)),
        },
{
    match o {
        Some(p) => Ok(p),
        None => Err(CoreError::NotFound(EntityKind::Project)),
    }
}

/// Translate an absent issue on a direct by-id fetch into the typed
/// not-found failure.
pub fn require_issue_found(o: Option<Issue>) -> (r: Result<Issue, CoreError>)
    ensures
        match o {
            Some(i) => r == Ok::<Issue, CoreError>(i),
            None => r == Err::<Issue, CoreError>(CoreError::NotFound(EntityKind::Issue)),
        },
{
    match o {
        Some(i) => Ok(i),
        None => Err(CoreError::NotFound(EntityKind::Issue)),
    }
}

/// Build the viewer from the earliest-created user row; a deployment with
/// no user at all is an internal inconsistency.
pub fn viewer_from_row(row: Option<UserRow>) -> (r: Result<Viewer, CoreError>)
    ensures
        match row {
            Some(u) => match r {
                Ok(v) => v.id == u.id && v.name == u.name && v.email == u.email,
                Err(_) => false,
            },
            None => match r {
                Ok(_) => false,
                Err(e) => e.spec_message() == "no viewer configured"@,
            },
        },
{
    match row {
        Some(u) => Ok(Viewer { id: u.id, name: u.name, email: u.email }),
        None => Err(CoreError::Internal("no viewer configured".to_owned())),
    }
}

} // verus!
