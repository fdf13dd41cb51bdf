//! Ticket-branch-PR lifecycle orchestration.
//!
//! The crate ties an issue tracker, a local repository and a pull-request
//! host into one ticket-driven workflow: pick up a ticket, create and check
//! out a branch, open a pull request, detect merges and close tickets out.
//! Everything that decides — key normalization, transition resolution, the
//! guarded workflow steps — lives here and is verified; the surrounding
//! process (network, git commands, prompts) drives these decisions from the
//! outside through plain events and actions.

pub mod text;
pub mod cli;
pub mod error;
pub mod keys;
pub mod config;
pub mod auth;
pub mod jira;
pub mod github;
pub mod transitions;
pub mod start;
pub mod review;
pub mod sync;
