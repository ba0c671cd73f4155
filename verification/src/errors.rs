//! Operation-local failures surfaced to callers: authorization rejection,
//! missing entities on direct fetches, and mutation input validation.

use vstd::prelude::*;

verus! {

/// The kinds of entity a direct by-id fetch can fail to find.
#[derive(Clone, Copy, Debug, PartialEq, Eq, Structural)]
pub enum EntityKind {
    Project,
    Issue,
}

/// A failure local to one operation. Listings never produce `NotFound`;
/// storage-level constraint violations are surfaced by the storage layer,
/// not built here.
#[derive(Clone, Debug)]
pub enum CoreError {
    /// The authorization gate rejected the operation.
    Unauthorized,
    /// A direct by-id fetch found no row for the named entity kind.
    NotFound(EntityKind),
    /// Malformed mutation input; the message describes the problem.
    Validation(String),
    /// An unexpected local inconsistency, fatal for this operation only.
    Internal(String),
}

impl CoreError {
    /// The message surfaced verbatim to the caller.
    pub open spec fn spec_message(&self) -> Seq<char> {
        match self {
            CoreError::Unauthorized => "Unauthorized"@,
            CoreError::NotFound(EntityKind::Project) => "Entity not found: Project"@,
            CoreError::NotFound(EntityKind::Issue) => "Entity not found: Issue"@,
            CoreError::Validation(m) => m@,
            CoreError::Internal(m) => m@,
        }
    }

    pub fn message(&self) -> (r: String)
        ensures
            r@ == self.spec_message(),
    {
        match self {
            CoreError::Unauthorized => "Unauthorized".to_owned(),
            CoreError::NotFound(EntityKind::Project) => "Entity not found: Project".to_owned(),
            CoreError::NotFound(EntityKind::Issue) => "Entity not found: Issue".to_owned(),
            CoreError::Validation(m) => m.clone(),
            CoreError::Internal(m) => m.clone(),
        }
    }
}

} // verus!
