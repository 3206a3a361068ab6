//! Commit history extraction: typed commit records, the log-output parser
//! that folds a line stream into them, and the decisions of the fetch facade.
pub mod cli;
pub mod error;
pub mod fetch;
pub mod models;
pub mod parser;
