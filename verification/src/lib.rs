//! Core logic of a local project-tracking service: filter compilation into
//! parameterized predicates, team-scoped identifier and slug allocation,
//! authorization gating, row-to-entity assembly, and bootstrap planning.
//! Transport, storage I/O and schema wire format live outside this crate.

pub mod auth;
pub mod bootstrap;
pub mod config;
pub mod digits;
pub mod entities;
pub mod errors;
pub mod filters;
pub mod ids;
pub mod mutations;
pub mod queries;
pub mod slug;
pub mod stmt;
pub mod text;
