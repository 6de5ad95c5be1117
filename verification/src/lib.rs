//! Vesper Harness core: a verified, approval-gated five-stage engine for
//! driving a coding agent.
//!
//! - `machine` and `engine`: the engine as a state machine. Each turn takes
//!   the answer to the engine's last request and hands back the effects to
//!   perform and the next request; `machine::transition` says what every
//!   turn does, and the methods of `VesperEngine` are proved to follow it.
//! - `approval`, `cli`, `config`: reading approval replies, the command
//!   line and the default settings.
//! - `skills`, `content`, `agent`, `ai`: what the stages write, inject, run
//!   and ask.
//! - `store`: the order of file operations that stores a snapshot without
//!   losing the previous one.
//! - `text`, `json`: the text operations and JSON reading underneath.
//! - `laws`, `runs`: properties that span turns and whole runs, proved over
//!   `machine::transition` and `store::store_transition`.
pub mod text;
pub mod json;
pub mod approval;
pub mod stage;
pub mod skills;
pub mod content;
pub mod agent;
pub mod ai;
pub mod reply;
pub mod cli;
pub mod config;
pub mod store;
pub mod machine;
pub mod engine;
pub mod laws;
pub mod runs;
