//! The filter compiler: optional, nested filter criteria become an ordered
//! list of predicate fragments plus a positionally bound parameter list,
//! combined with logical AND. Absent branches contribute nothing; blank
//! equality values are treated as unspecified; empty set-membership lists
//! match everything. Issue listings always exclude archived issues first.

use vstd::prelude::*;
use vstd::string::*;

use crate::stmt::{Param, ParamV, Stmt, params_view};
use crate::text::spec_starts_with;

verus! {

/// Clamp the optional `first` argument of a listing operation into the
/// inclusive range [1, 500], defaulting to 50 when it is absent or
/// non-positive.
pub fn clamp_limit(first: Option<i32>) -> (limit: i32)
    ensures
        limit == spec_clamp_limit(first),
        1 <= limit <= 500,
{
    let raw = match first {
        Some(v) => v,
        None => 50,
    };
    if raw < 1 {
        50
    } else if raw > 500 {
        500
    } else {
        raw
    }
}

/// The clamped record limit: the default 50 when absent or non-positive,
/// otherwise capped at 500.
pub open spec fn spec_clamp_limit(first: Option<i32>) -> int {
    let raw = match first {
        Some(v) => v as int,
        None => 50,
    };
    if raw < 1 {
        50
    } else if raw > 500 {
        500
    } else {
        raw
    }
}

/// Equality / inequality criteria on a string field.
#[derive(Clone, Debug)]
pub struct StringFilter {
    pub eq: Option<String>,
    pub neq: Option<String>,
}

/// Equality criterion on an identifier field.
#[derive(Clone, Debug)]
pub struct IdFilter {
    pub eq: Option<String>,
}

/// Set-membership criterion on a numeric field.
#[derive(Clone, Debug)]
pub struct NumberFilter {
    pub in_values: Option<Vec<i64>>,
}

/// Criteria on a team reference.
#[derive(Clone, Debug)]
pub struct TeamFilter {
    pub id: Option<IdFilter>,
    pub key: Option<StringFilter>,
    pub name: Option<StringFilter>,
}

/// Criteria on a project reference.
#[derive(Clone, Debug)]
pub struct ProjectFilter {
    pub id: Option<IdFilter>,
    pub name: Option<StringFilter>,
}

/// Criteria on a workflow-state reference.
#[derive(Clone, Debug)]
pub struct StateFilter {
    pub name: Option<StringFilter>,
}

/// The filter accepted by the issues listing.
#[derive(Clone, Debug)]
pub struct IssuesFilter {
    pub team: Option<TeamFilter>,
    pub project: Option<ProjectFilter>,
    pub state: Option<StateFilter>,
    pub number: Option<NumberFilter>,
}

/// The filter accepted by the teams listing.
#[derive(Clone, Debug)]
pub struct TeamsFilter {
    pub name: Option<StringFilter>,
}

/// The filter accepted by the projects listing.
#[derive(Clone, Debug)]
pub struct ProjectsFilter {
    pub name: Option<StringFilter>,
}

/// The filter accepted by the workflow-states listing.
#[derive(Clone, Debug)]
pub struct WorkflowStatesFilter {
    pub team: Option<TeamFilter>,
}

/// The ordering hint of the issues listing. Ordering is fixed per entity
/// type, so the hint never changes the produced statement.
#[derive(Clone, Copy, Debug, PartialEq, Eq, Structural)]
pub enum IssueOrderBy {
    UpdatedAt,
}

/// One predicate fragment of a compiled issues filter. `NumberIn` carries
/// how many values are bound to its placeholders.
#[derive(Clone, Copy, Debug, PartialEq, Eq, Structural)]
pub enum IssuePred {
    NotArchived,
    TeamIdEq,
    TeamKeyEq,
    ProjectIdEq,
    StateNameEq,
    StateNameNeq,
    NumberIn(usize),
}

/// The team-id equality value of an issues filter, with a blank value
/// treated as unspecified.
pub open spec fn spec_issue_team_id(f: Option<IssuesFilter>) -> Option<Seq<char>> {
    match f {
        None => None,
        Some(f) => match f.team {
            None => None,
            Some(t) => match t.id {
                None => None,
                Some(idf) => match idf.eq {
                    None => None,
                    Some(v) => if v@.len() > 0 {
                        Some(v@)
                    } else {
                        None
                    },
                },
            },
        },
    }
}

/// The team-key equality value of an issues filter.
pub open spec fn spec_issue_team_key(f: Option<IssuesFilter>) -> Option<Seq<char>> {
    match f {
        None => None,
        Some(f) => match f.team {
            None => None,
            Some(t) => match t.key {
                None => None,
                Some(k) => match k.eq {
                    None => None,
                    Some(v) => if v@.len() > 0 {
                        Some(v@)
                    } else {
                        None
                    },
                },
            },
        },
    }
}

/// The project-id equality value of an issues filter.
pub open spec fn spec_issue_project_id(f: Option<IssuesFilter>) -> Option<Seq<char>> {
    match f {
        None => None,
        Some(f) => match f.project {
            None => None,
            Some(p) => match p.id {
                None => None,
                Some(idf) => match idf.eq {
                    None => None,
                    Some(v) => if v@.len() > 0 {
                        Some(v@)
                    } else {
                        None
                    },
                },
            },
        },
    }
}

/// The state-name equality value of an issues filter.
pub open spec fn spec_issue_state_eq(f: Option<IssuesFilter>) -> Option<Seq<char>> {
    match f {
        None => None,
        Some(f) => match f.state {
            None => None,
            Some(s) => match s.name {
                None => None,
                Some(n) => match n.eq {
                    None => None,
                    Some(v) => if v@.len() > 0 {
                        Some(v@)
                    } else {
                        None
                    },
                },
            },
        },
    }
}

/// The state-name inequality value of an issues filter. Inequalities are
/// kept as given, including a blank value.
pub open spec fn spec_issue_state_neq(f: Option<IssuesFilter>) -> Option<Seq<char>> {
    match f {
        None => None,
        Some(f) => match f.state {
            None => None,
            Some(s) => match s.name {
                None => None,
                Some(n) => match n.neq {
                    None => None,
                    Some(v) => Some(v@),
                },
            },
        },
    }
}

/// The number set of an issues filter, with an empty set treated as
/// unspecified (matching everything, not nothing).
pub open spec fn spec_issue_numbers(f: Option<IssuesFilter>) -> Option<Seq<i64>> {
    match f {
        None => None,
        Some(f) => match f.number {
            None => None,
            Some(n) => match n.in_values {
                None => None,
                Some(v) => if v@.len() > 0 {
                    Some(v@)
                } else {
                    None
                },
            },
        },
    }
}

/// A predicate fragment contributed when a criterion is present.
pub open spec fn opt_pred(o: Option<Seq<char>>, p: IssuePred) -> Seq<IssuePred> {
    match o {
        Some(_) => seq![p],
        None => Seq::<IssuePred>::empty(),
    }
}

/// A text parameter contributed when a criterion is present.
pub open spec fn opt_text_param(o: Option<Seq<char>>) -> Seq<ParamV> {
    match o {
        Some(s) => seq![ParamV::Text(s)],
        None => Seq::<ParamV>::empty(),
    }
}

/// The ordered predicate fragments of a compiled issues filter: the
/// archived exclusion always comes first, then each present criterion in a
/// fixed order.
pub open spec fn spec_issue_preds(f: Option<IssuesFilter>) -> Seq<IssuePred> {
    seq![IssuePred::NotArchived] + opt_pred(spec_issue_team_id(f), IssuePred::TeamIdEq) + opt_pred(
        spec_issue_team_key(f),
        IssuePred::TeamKeyEq,
    ) + opt_pred(spec_issue_project_id(f), IssuePred::ProjectIdEq) + opt_pred(
        spec_issue_state_eq(f),
        IssuePred::StateNameEq,
    ) + opt_pred(spec_issue_state_neq(f), IssuePred::StateNameNeq) + (
    match spec_issue_numbers(f) {
        Some(v) => seq![IssuePred::NumberIn(v.len() as usize)],
        None => Seq::<IssuePred>::empty(),
    })
}

/// The positional parameters of a compiled issues filter, aligned with
/// `spec_issue_preds`.
pub open spec fn spec_issue_params(f: Option<IssuesFilter>) -> Seq<ParamV> {
    opt_text_param(spec_issue_team_id(f)) + opt_text_param(spec_issue_team_key(f)) + opt_text_param(
        spec_issue_project_id(f),
    ) + opt_text_param(spec_issue_state_eq(f)) + opt_text_param(spec_issue_state_neq(f)) + (
    match spec_issue_numbers(f) {
        Some(v) => v.map_values(|x: i64| ParamV::Int(x as int)),
        None => Seq::<ParamV>::empty(),
    })
}

fn issue_team_id(filter: &Option<IssuesFilter>) -> (r: Option<String>)
    ensures
        match r {
            Some(s) => spec_issue_team_id(*filter) == Some(s@),
            None => spec_issue_team_id(*filter) is None,
        },
{
    match filter {
        None => None,
        Some(f) => match &f.team {
            None => None,
            Some(t) => match &t.id {
                None => None,
                Some(idf) => match &idf.eq {
                    None => None,
                    Some(v) => if !v.as_str().is_empty() {
                        Some(v.clone())
                    } else {
                        None
                    },
                },
            },
        },
    }
}

fn issue_team_key(filter: &Option<IssuesFilter>) -> (r: Option<String>)
    ensures
        match r {
            Some(s) => spec_issue_team_key(*filter) == Some(s@),
            None => spec_issue_team_key(*filter) is None,
        },
{
    match filter {
        None => None,
        Some(f) => match &f.team {
            None => None,
            Some(t) => match &t.key {
                None => None,
                Some(k) => match &k.eq {
                    None => None,
                    Some(v) => if !v.as_str().is_empty() {
                        Some(v.clone())
                    } else {
                        None
                    },
                },
            },
        },
    }
}

fn issue_project_id(filter: &Option<IssuesFilter>) -> (r: Option<String>)
    ensures
        match r {
            Some(s) => spec_issue_project_id(*filter) == Some(s@),
            None => spec_issue_project_id(*filter) is None,
        },
{
    match filter {
        None => None,
        Some(f) => match &f.project {
            None => None,
            Some(p) => match &p.id {
                None => None,
                Some(idf) => match &idf.eq {
                    None => None,
                    Some(v) => if !v.as_str().is_empty() {
                        Some(v.clone())
                    } else {
                        None
                    },
                },
            },
        },
    }
}

fn issue_state_eq(filter: &Option<IssuesFilter>) -> (r: Option<String>)
    ensures
        match r {
            Some(s) => spec_issue_state_eq(*filter) == Some(s@),
            None => spec_issue_state_eq(*filter) is None,
        },
{
    match filter {
        None => None,
        Some(f) => match &f.state {
            None => None,
            Some(s) => match &s.name {
                None => None,
                Some(n) => match &n.eq {
                    None => None,
                    Some(v) => if !v.as_str().is_empty() {
                        Some(v.clone())
                    } else {
                        None
                    },
                },
            },
        },
    }
}

fn issue_state_neq(filter: &Option<IssuesFilter>) -> (r: Option<String>)
    ensures
        match r {
            Some(s) => spec_issue_state_neq(*filter) == Some(s@),
            None => spec_issue_state_neq(*filter) is None,
        },
{
    match filter {
        None => None,
        Some(f) => match &f.state {
            None => None,
            Some(s) => match &s.name {
                None => None,
                Some(n) => match &n.neq {
                    None => None,
                    Some(v) => Some(v.clone()),
                },
            },
        },
    }
}

fn issue_numbers(filter: &Option<IssuesFilter>) -> (r: Option<Vec<i64>>)
    ensures
        match r {
            Some(v) => spec_issue_numbers(*filter) == Some(v@) && v@.len() > 0,
            None => spec_issue_numbers(*filter) is None,
        },
{
    match filter {
        None => None,
        Some(f) => match &f.number {
            None => None,
            Some(n) => match &n.in_values {
                None => None,
                Some(v) => if v.len() > 0 {
                    Some(v.clone())
                } else {
                    None
                },
            },
        },
    }
}

/// Compile an issues filter into its ordered predicate fragments and their
/// positional parameters. The archived exclusion is always first and binds
/// no parameter.
#[verifier::rlimit(50)]
pub fn compile_issue_filter(filter: &Option<IssuesFilter>) -> (r: (Vec<IssuePred>, Vec<Param>))
    ensures
        r.0@ == spec_issue_preds(*filter),
        params_view(r.1@) == spec_issue_params(*filter),
        forall|i: int|
            0 <= i < r.0@.len() ==> match #[trigger] r.0@[i] {
                IssuePred::NumberIn(n) => n >= 1,
                _ => true,
            },
{
    let ghost f = *filter;
    let mut preds: Vec<IssuePred> = Vec::new();
    let mut params: Vec<Param> = Vec::new();
    preds.push(IssuePred::NotArchived);
    let ghost mut pexp: Seq<IssuePred> = seq![IssuePred::NotArchived];
    let ghost mut vexp: Seq<ParamV> = Seq::<ParamV>::empty();
    proof {
        assert(preds@ =~= pexp);
        assert(params_view(params@) =~= vexp);
    }

    if let Some(v) = issue_team_id(filter) {
        preds.push(IssuePred::TeamIdEq);
        params.push(Param::Text(v));
    }
    proof {
        pexp = pexp + opt_pred(spec_issue_team_id(f), IssuePred::TeamIdEq);
        vexp = vexp + opt_text_param(spec_issue_team_id(f));
        assert(preds@ =~= pexp);
        assert(params_view(params@) =~= vexp);
    }

    if let Some(v) = issue_team_key(filter) {
        preds.push(IssuePred::TeamKeyEq);
        params.push(Param::Text(v));
    }
    proof {
        pexp = pexp + opt_pred(spec_issue_team_key(f), IssuePred::TeamKeyEq);
        vexp = vexp + opt_text_param(spec_issue_team_key(f));
        assert(preds@ =~= pexp);
        assert(params_view(params@) =~= vexp);
    }

    if let Some(v) = issue_project_id(filter) {
        preds.push(IssuePred::ProjectIdEq);
        params.push(Param::Text(v));
    }
    proof {
        pexp = pexp + opt_pred(spec_issue_project_id(f), IssuePred::ProjectIdEq);
        vexp = vexp + opt_text_param(spec_issue_project_id(f));
        assert(preds@ =~= pexp);
        assert(params_view(params@) =~= vexp);
    }

    if let Some(v) = issue_state_eq(filter) {
        preds.push(IssuePred::StateNameEq);
        params.push(Param::Text(v));
    }
    proof {
        pexp = pexp + opt_pred(spec_issue_state_eq(f), IssuePred::StateNameEq);
        vexp = vexp + opt_text_param(spec_issue_state_eq(f));
        assert(preds@ =~= pexp);
        assert(params_view(params@) =~= vexp);
    }

    if let Some(v) = issue_state_neq(filter) {
        preds.push(IssuePred::StateNameNeq);
        params.push(Param::Text(v));
    }
    proof {
        pexp = pexp + opt_pred(spec_issue_state_neq(f), IssuePred::StateNameNeq);
        vexp = vexp + opt_text_param(spec_issue_state_neq(f));
        assert(preds@ =~= pexp);
        assert(params_view(params@) =~= vexp);
    }

    if let Some(numbers) = issue_numbers(filter) {
        preds.push(IssuePred::NumberIn(numbers.len()));
        let ghost before = params_view(params@);
        let ghost nums = numbers@;
        let mut j: usize = 0;
        while j < numbers.len()
            invariant
                j <= numbers@.len(),
                numbers@ == nums,
                params_view(params@) =~= before + nums.take(j as int).map_values(
                    |x: i64| ParamV::Int(x as int),
                ),
            decreases numbers@.len() - j,
        {
            let ghost prev = params@;
            params.push(Param::Int(numbers[j]));
            proof {
                assert(params@ =~= prev.push(Param::Int(nums[j as int])));
                assert(params_view(params@) =~= params_view(prev).push(
                    ParamV::Int(nums[j as int] as int),
                ));
                assert(nums.take(j as int + 1) =~= nums.take(j as int).push(nums[j as int]));
                assert(nums.take(j as int + 1).map_values(|x: i64| ParamV::Int(x as int))
                    =~= nums.take(j as int).map_values(|x: i64| ParamV::Int(x as int)).push(
                    ParamV::Int(nums[j as int] as int),
                ));
            }
            j = j + 1;
        }
        proof {
            assert(nums.take(nums.len() as int) =~= nums);
            pexp = pexp + seq![IssuePred::NumberIn(nums.len() as usize)];
            vexp = vexp + nums.map_values(|x: i64| ParamV::Int(x as int));
            assert(preds@ =~= pexp);
            assert(params_view(params@) =~= vexp);
        }
    } else {
        proof {
            assert(preds@ =~= pexp);
            assert(params_view(params@) =~= vexp);
        }
    }
    proof {
        assert(pexp =~= spec_issue_preds(f));
        assert(vexp =~= spec_issue_params(f));
    }
    (preds, params)
}

/// Every compiled issues filter begins with the archived exclusion,
/// whatever the filter contains: archived issues are excluded from every
/// issue listing, implicitly and unconditionally.
pub proof fn lemma_archived_always_excluded(f: Option<IssuesFilter>)
    ensures
        spec_issue_preds(f).len() >= 1,
        spec_issue_preds(f)[0] == IssuePred::NotArchived,
{
}

/// The statement text of one predicate fragment.
pub open spec fn spec_pred_sql(p: IssuePred) -> Seq<char> {
    match p {
        IssuePred::NotArchived => "i.archived = 0"@,
        IssuePred::TeamIdEq => "i.team_id = ?"@,
        IssuePred::TeamKeyEq => "t.key = ?"@,
        IssuePred::ProjectIdEq => "i.project_id = ?"@,
        IssuePred::StateNameEq => "ws.name = ?"@,
        IssuePred::StateNameNeq => "ws.name <> ?"@,
        IssuePred::NumberIn(n) => "i.number IN ("@ + spec_placeholders(n as nat) + ")"@,
    }
}

/// `n` placeholders separated by commas.
pub open spec fn spec_placeholders(n: nat) -> Seq<char>
    recommends
        n >= 1,
    decreases n,
{
    if n <= 1 {
        "?"@
    } else {
        spec_placeholders((n - 1) as nat) + ", "@ + "?"@
    }
}

/// The predicate fragments joined with AND.
pub open spec fn spec_join_and(ps: Seq<IssuePred>) -> Seq<char>
    decreases ps.len(),
{
    if ps.len() == 0 {
        Seq::<char>::empty()
    } else if ps.len() == 1 {
        spec_pred_sql(ps[0])
    } else {
        spec_join_and(ps.drop_last()) + " AND "@ + spec_pred_sql(ps.last())
    }
}

/// A joined predicate list starts with its first fragment's text.
pub proof fn lemma_join_and_prefix(ps: Seq<IssuePred>)
    requires
        ps.len() >= 1,
    ensures
        spec_starts_with(spec_join_and(ps), spec_pred_sql(ps[0])),
    decreases ps.len(),
{
    if ps.len() == 1 {
        assert(spec_join_and(ps).take(spec_pred_sql(ps[0]).len() as int) =~= spec_pred_sql(
            ps[0],
        ));
    } else {
        let front = ps.drop_last();
        lemma_join_and_prefix(front);
        let p0 = spec_pred_sql(ps[0]);
        assert(front[0] == ps[0]);
        assert(spec_join_and(front).take(p0.len() as int) =~= p0);
        assert(spec_join_and(ps).take(p0.len() as int) =~= spec_join_and(front).take(
            p0.len() as int,
        ));
    }
}

/// The statement text of every compiled issues filter starts with the
/// archived exclusion.
pub proof fn lemma_issues_where_excludes_archived(f: Option<IssuesFilter>)
    ensures
        spec_starts_with(spec_join_and(spec_issue_preds(f)), "i.archived = 0"@),
{
    lemma_archived_always_excluded(f);
    lemma_join_and_prefix(spec_issue_preds(f));
}

fn placeholders(n: usize) -> (r: String)
    requires
        n >= 1,
    ensures
        r@ == spec_placeholders(n as nat),
{
    let mut r = "?".to_owned();
    let mut i: usize = 1;
    while i < n
        invariant
            1 <= i <= n || (n == 1 && i == 1),
            r@ == spec_placeholders(i as nat),
        decreases n - i,
    {
        r.append(", ?");
        proof {
            reveal_strlit("?");
            reveal_strlit(", ");
            reveal_strlit(", ?");
            assert(", ?"@ =~= ", "@ + "?"@);
            assert(spec_placeholders(i as nat) + ", ?"@ =~= spec_placeholders((i + 1) as nat));
        }
        i = i + 1;
    }
    r
}

fn pred_sql(p: &IssuePred) -> (r: String)
    requires
        match *p {
            IssuePred::NumberIn(n) => n >= 1,
            _ => true,
        },
    ensures
        r@ == spec_pred_sql(*p),
{
    match p {
        IssuePred::NotArchived => "i.archived = 0".to_owned(),
        IssuePred::TeamIdEq => "i.team_id = ?".to_owned(),
        IssuePred::TeamKeyEq => "t.key = ?".to_owned(),
        IssuePred::ProjectIdEq => "i.project_id = ?".to_owned(),
        IssuePred::StateNameEq => "ws.name = ?".to_owned(),
        IssuePred::StateNameNeq => "ws.name <> ?".to_owned(),
        IssuePred::NumberIn(n) => {
            let mut r = "i.number IN (".to_owned();
            r.append(placeholders(*n).as_str());
            r.append(")");
            r
        },
    }
}

/// Render compiled predicate fragments into AND-joined statement text.
pub fn render_where(preds: &Vec<IssuePred>) -> (r: String)
    requires
        forall|i: int|
            0 <= i < preds@.len() ==> match #[trigger] preds@[i] {
                IssuePred::NumberIn(n) => n >= 1,
                _ => true,
            },
    ensures
        r@ == spec_join_and(preds@),
{
    let mut r = String::new();
    let mut i: usize = 0;
    while i < preds.len()
        invariant
            i <= preds@.len(),
            r@ == spec_join_and(preds@.take(i as int)),
            forall|k: int|
                0 <= k < preds@.len() ==> match #[trigger] preds@[k] {
                    IssuePred::NumberIn(n) => n >= 1,
                    _ => true,
                },
        decreases preds@.len() - i,
    {
        if i > 0 {
            r.append(" AND ");
        }
        let frag = pred_sql(&preds[i]);
        r.append(frag.as_str());
        proof {
            assert(preds@.take(i as int + 1).drop_last() =~= preds@.take(i as int));
            assert(preds@.take(i as int + 1).last() == preds@[i as int]);
            if i == 0 {
                assert(r@ =~= spec_join_and(preds@.take(1)));
            }
        }
        i = i + 1;
    }
    proof {
        assert(preds@.take(preds@.len() as int) =~= preds@);
    }
    r
}

/// The join-denormalized base selection every issue read starts from.
pub open spec fn spec_issue_base_select() -> Seq<char> {
    "SELECT
       i.id,
       i.identifier,
       i.title,
       i.url,
       i.description,
       i.updated_at,
       ws.id AS ws_id,
       ws.name AS ws_name,
       ws.type AS ws_type,
       p.id AS p_id,
       p.name AS p_name,
       p.slug_id AS p_slug_id,
       p.state AS p_state,
       p.archived_at AS p_archived_at,
       p.url AS p_url,
       u.id AS u_id,
       u.name AS u_name,
       u.email AS u_email
     FROM issues i
     LEFT JOIN workflow_states ws ON ws.id = i.state_id
     LEFT JOIN projects p ON p.id = i.project_id
     LEFT JOIN users u ON u.id = i.assignee_id
     LEFT JOIN teams t ON t.id = i.team_id"@
}

/// The base selection joining an issue with its state, project, assignee
/// and team rows.
pub fn issue_base_select() -> (r: &'static str)
    ensures
        r@ == spec_issue_base_select(),
{
    "SELECT
       i.id,
       i.identifier,
       i.title,
       i.url,
       i.description,
       i.updated_at,
       ws.id AS ws_id,
       ws.name AS ws_name,
       ws.type AS ws_type,
       p.id AS p_id,
       p.name AS p_name,
       p.slug_id AS p_slug_id,
       p.state AS p_state,
       p.archived_at AS p_archived_at,
       p.url AS p_url,
       u.id AS u_id,
       u.name AS u_name,
       u.email AS u_email
     FROM issues i
     LEFT JOIN workflow_states ws ON ws.id = i.state_id
     LEFT JOIN projects p ON p.id = i.project_id
     LEFT JOIN users u ON u.id = i.assignee_id
     LEFT JOIN teams t ON t.id = i.team_id"
}

/// Compile the issues listing: the base selection, the AND-joined compiled
/// filter (archived exclusion first), the fixed last-updated-descending
/// order, and the clamped record limit bound last. The ordering hint is a
/// no-op: `updatedAt` is already the fixed order.
pub fn issues_query(
    filter: &Option<IssuesFilter>,
    first: Option<i32>,
    order_by: Option<IssueOrderBy>,
) -> (s: Stmt)
    ensures
        s.sql@ == spec_issue_base_select() + " WHERE "@ + spec_join_and(spec_issue_preds(*filter))
            + " ORDER BY i.updated_at DESC LIMIT ?"@,
        params_view(s.params@) == spec_issue_params(*filter) + seq![
            ParamV::Int(spec_clamp_limit(first)),
        ],
{
    let _ = order_by;
    let limit = clamp_limit(first);
    let (preds, mut params) = compile_issue_filter(filter);
    let mut sql = issue_base_select().to_owned();
    sql.append(" WHERE ");
    let where_sql = render_where(&preds);
    sql.append(where_sql.as_str());
    sql.append(" ORDER BY i.updated_at DESC LIMIT ?");
    params.push(Param::Int(limit as i64));
    proof {
        assert(params_view(params@) =~= spec_issue_params(*filter) + seq![
            ParamV::Int(spec_clamp_limit(first)),
        ]);
    }
    Stmt { sql, params }
}

/// Compile the teams listing: an optional non-blank name equality, the
/// fixed name ordering, and the clamped limit.
pub fn teams_query(filter: &Option<TeamsFilter>, first: Option<i32>) -> (s: Stmt)
    ensures
        ({
            let name = spec_teams_name(*filter);
            match name {
                Some(v) => s.sql@ == "SELECT id, name, key FROM teams WHERE name = ?1 ORDER BY name ASC LIMIT ?2"@
                    && params_view(s.params@) == seq![
                    ParamV::Text(v),
                    ParamV::Int(spec_clamp_limit(first)),
                ],
                None => s.sql@ == "SELECT id, name, key FROM teams ORDER BY name ASC LIMIT ?1"@
                    && params_view(s.params@) == seq![ParamV::Int(spec_clamp_limit(first))],
            }
        }),
{
    let limit = clamp_limit(first);
    let name = teams_name(filter);
    match name {
        Some(v) => {
            let params = vec![Param::Text(v), Param::Int(limit as i64)];
            proof {
                assert(params_view(params@) =~= seq![
                    ParamV::Text(spec_teams_name(*filter)->0),
                    ParamV::Int(spec_clamp_limit(first)),
                ]);
            }
            Stmt {
                sql: "SELECT id, name, key FROM teams WHERE name = ?1 ORDER BY name ASC LIMIT ?2".to_owned(),
                params,
            }
        },
        None => {
            let params = vec![Param::Int(limit as i64)];
            proof {
                assert(params_view(params@) =~= seq![ParamV::Int(spec_clamp_limit(first))]);
            }
            Stmt {
                sql: "SELECT id, name, key FROM teams ORDER BY name ASC LIMIT ?1".to_owned(),
                params,
            }
        },
    }
}

/// The non-blank name equality of a teams filter.
pub open spec fn spec_teams_name(f: Option<TeamsFilter>) -> Option<Seq<char>> {
    match f {
        None => None,
        Some(f) => match f.name {
            None => None,
            Some(n) => match n.eq {
                None => None,
                Some(v) => if v@.len() > 0 {
                    Some(v@)
                } else {
                    None
                },
            },
        },
    }
}

fn teams_name(filter: &Option<TeamsFilter>) -> (r: Option<String>)
    ensures
        match r {
            Some(s) => spec_teams_name(*filter) == Some(s@),
            None => spec_teams_name(*filter) is None,
        },
{
    match filter {
        None => None,
        Some(f) => match &f.name {
            None => None,
            Some(n) => match &n.eq {
                None => None,
                Some(v) => if !v.as_str().is_empty() {
                    Some(v.clone())
                } else {
                    None
                },
            },
        },
    }
}

/// The non-blank name equality of a projects filter.
pub open spec fn spec_projects_name(f: Option<ProjectsFilter>) -> Option<Seq<char>> {
    match f {
        None => None,
        Some(f) => match f.name {
            None => None,
            Some(n) => match n.eq {
                None => None,
                Some(v) => if v@.len() > 0 {
                    Some(v@)
                } else {
                    None
                },
            },
        },
    }
}

fn projects_name(filter: &Option<ProjectsFilter>) -> (r: Option<String>)
    ensures
        match r {
            Some(s) => spec_projects_name(*filter) == Some(s@),
            None => spec_projects_name(*filter) is None,
        },
{
    match filter {
        None => None,
        Some(f) => match &f.name {
            None => None,
            Some(n) => match &n.eq {
                None => None,
                Some(v) => if !v.as_str().is_empty() {
                    Some(v.clone())
                } else {
                    None
                },
            },
        },
    }
}

/// Compile the projects listing: an optional non-blank name equality, the
/// fixed creation-order descending ordering, and the clamped limit.
pub fn projects_query(filter: &Option<ProjectsFilter>, first: Option<i32>) -> (s: Stmt)
    ensures
        ({
            let name = spec_projects_name(*filter);
            match name {
                Some(v) => s.sql@ == "SELECT id, name, slug_id, state, archived_at, url FROM projects WHERE name = ? ORDER BY created_at DESC LIMIT ?"@
                    && params_view(s.params@) == seq![
                    ParamV::Text(v),
                    ParamV::Int(spec_clamp_limit(first)),
                ],
                None => s.sql@ == "SELECT id, name, slug_id, state, archived_at, url FROM projects ORDER BY created_at DESC LIMIT ?"@
                    && params_view(s.params@) == seq![ParamV::Int(spec_clamp_limit(first))],
            }
        }),
{
    let limit = clamp_limit(first);
    let name = projects_name(filter);
    match name {
        Some(v) => {
            let params = vec![Param::Text(v), Param::Int(limit as i64)];
            proof {
                assert(params_view(params@) =~= seq![
                    ParamV::Text(spec_projects_name(*filter)->0),
                    ParamV::Int(spec_clamp_limit(first)),
                ]);
            }
            Stmt {
                sql: "SELECT id, name, slug_id, state, archived_at, url FROM projects WHERE name = ? ORDER BY created_at DESC LIMIT ?".to_owned(),
                params,
            }
        },
        None => {
            let params = vec![Param::Int(limit as i64)];
            proof {
                assert(params_view(params@) =~= seq![ParamV::Int(spec_clamp_limit(first))]);
            }
            Stmt {
                sql: "SELECT id, name, slug_id, state, archived_at, url FROM projects ORDER BY created_at DESC LIMIT ?".to_owned(),
                params,
            }
        },
    }
}

/// The team-id equality of a workflow-states filter.
pub open spec fn spec_states_team_id(f: Option<WorkflowStatesFilter>) -> Option<Seq<char>> {
    match f {
        None => None,
        Some(f) => match f.team {
            None => None,
            Some(t) => match t.id {
                None => None,
                Some(idf) => match idf.eq {
                    None => None,
                    Some(v) => if v@.len() > 0 {
                        Some(v@)
                    } else {
                        None
                    },
                },
            },
        },
    }
}

fn states_team_id(filter: &Option<WorkflowStatesFilter>) -> (r: Option<String>)
    ensures
        match r {
            Some(s) => spec_states_team_id(*filter) == Some(s@),
            None => spec_states_team_id(*filter) is None,
        },
{
    match filter {
        None => None,
        Some(f) => match &f.team {
            None => None,
            Some(t) => match &t.id {
                None => None,
                Some(idf) => match &idf.eq {
                    None => None,
                    Some(v) => if !v.as_str().is_empty() {
                        Some(v.clone())
                    } else {
                        None
                    },
                },
            },
        },
    }
}

/// Compile the workflow-states listing: an optional team-id equality and
/// the fixed position-ascending ordering. No record limit applies.
pub fn workflow_states_query(filter: &Option<WorkflowStatesFilter>) -> (s: Stmt)
    ensures
        ({
            let team = spec_states_team_id(*filter);
            match team {
                Some(v) => s.sql@ == "SELECT id, name, type AS state_type FROM workflow_states WHERE team_id = ?1 ORDER BY position ASC"@
                    && params_view(s.params@) == seq![ParamV::Text(v)],
                None => s.sql@ == "SELECT id, name, type AS state_type FROM workflow_states ORDER BY position ASC"@
                    && params_view(s.params@) == Seq::<ParamV>::empty(),
            }
        }),
{
    let team = states_team_id(filter);
    match team {
        Some(v) => {
            let params = vec![Param::Text(v)];
            proof {
                assert(params_view(params@) =~= seq![
                    ParamV::Text(spec_states_team_id(*filter)->0),
                ]);
            }
            Stmt {
                sql: "SELECT id, name, type AS state_type FROM workflow_states WHERE team_id = ?1 ORDER BY position ASC".to_owned(),
                params,
            }
        },
        None => {
            let params: Vec<Param> = Vec::new();
            proof {
                assert(params_view(params@) =~= Seq::<ParamV>::empty());
            }
            Stmt {
                sql: "SELECT id, name, type AS state_type FROM workflow_states ORDER BY position ASC".to_owned(),
                params,
            }
        },
    }
}

} // verus!
