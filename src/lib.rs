//! Queries over a repository's commit history: commits filtered by author and
//! time window, with per-commit line statistics, and the distinct contributors.

pub mod filter;
pub mod contributors;
pub mod record;
pub mod history;
