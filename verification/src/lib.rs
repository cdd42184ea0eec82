//! Keeps a local workspace of Git repositories in step with a declarative manifest.
//!
//! The crate holds the decisions of a synchronisation run: how a repository is named and
//! where it lives on disk, how a GitLab group is paged through and expanded, which
//! repositories are cloned and which are fetched, and how the outcomes add up to a report.
//! Network, file system and subprocess work is done by the caller, which hands the results
//! back as plain values.

pub mod commands;
pub mod config;
pub mod discovery;
pub mod git;
pub mod paths;
pub mod providers;
pub mod report;
pub mod targets;
pub mod text;
pub mod workspace;
