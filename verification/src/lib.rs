//! Extracts commit-history metadata from a set of independent git
//! repositories and loads it into a sqlite store, tolerating the failure
//! of any one repository without aborting the batch.
//!
//! The lifecycle of one repository is the typestate machine in
//! [`repository`]; the commit-graph traversal, diff summarizing and
//! author-identity normalization live in [`extract`]; the orchestrator
//! and its outcomes in [`analyzer`]; the transactional writer in
//! [`store`]. The trusted boundaries to the git backend, the filesystem
//! and the database are collected in [`gitio`], [`paths`] and [`db`].

pub mod analyzer;
pub mod config;
pub mod db;
pub mod error;
pub mod extract;
pub mod file;
pub mod gitio;
pub mod log;
pub mod paths;
pub mod repository;
pub mod store;
pub mod text;
