//! Core logic of a remote-command agent that listens on a topic-based
//! message broker: broker address construction, client identity and
//! routing topology derivation, the connection supervisor's retry state
//! machine, envelope routing with self-echo suppression, and the plans
//! and report strings for the command handlers.
pub mod config;
pub mod dispatch;
pub mod git_cred;
pub mod report;
pub mod shell;
pub mod supervisor;
pub mod text;
pub mod topology;
