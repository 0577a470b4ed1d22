//! Lock and table-rewrite analysis of Postgres DDL statements: reading the
//! pg_locks columns, detecting table rewrites from pg_class snapshots, and
//! rendering the reports.

pub mod lock;
mod pg_text;
pub mod rewrite;
pub mod statement;

pub use lock::{LockMode, LockType};
pub use rewrite::{RelfilenodeSnapshot, TableRewrite, TableRewrites};
pub use statement::{Location, Statement};
