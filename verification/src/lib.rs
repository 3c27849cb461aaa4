//! Verified core of the Codex Responses to Chat Completions bridge: the
//! configuration model and its validation, the upstream URL construction, the
//! route table and the per-request decisions of the HTTP shell.
pub mod text;
pub mod provider;
pub mod config;
pub mod bridge;
