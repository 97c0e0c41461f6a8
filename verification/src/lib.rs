//! Verified core of the kanban and workspace back end: the decisions, record
//! merges, name derivation, query texts and summary assembly that the HTTP
//! handlers and database models perform around their I/O.

pub mod clock;
pub mod ids;
pub mod json;
pub mod kanban;
pub mod naming;
pub mod queries;
pub mod summary;
pub mod time;
pub mod workspace;
