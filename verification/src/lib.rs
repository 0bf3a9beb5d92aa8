//! Client-side core of a desktop shell for an agent-automation service:
//! the data model and request planning for a job-runner HTTP API, and a
//! facade over the OS-native credential store.
//!
//! Network and GUI plumbing live outside this crate; everything here is
//! plain logic with contracts.

pub mod job;
pub mod keychain;
pub mod runner;
pub mod settings;
pub mod wire;
