//! Row-level access control for SQL queries.
//!
//! The crate models per-user access rules over named data views
//! ([`define`]), keeps the current rule set of every user in a registry
//! ([`manager`]), and rewrites incoming SQL statements so that a rule's
//! compiled filter predicate is always part of the statement's `WHERE`
//! clause ([`sql`]).  A thin configuration type for a backing PostgreSQL
//! store lives in [`postgresql`].

pub mod define;
pub mod manager;
pub mod postgresql;
pub mod sql;
pub mod traits;
