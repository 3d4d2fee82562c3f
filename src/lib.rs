//! Cross-target build orchestration: target discovery, application listing,
//! per-target builds that collect every binary variant, and cleanup of
//! leftover containers and directories.
//!
//! Outside work (processes, files) is left to the caller: the build run and
//! the cleanup are state machines that name the next action and decide from
//! what the caller reports.
pub mod command;
pub mod defaults;
pub mod error;
pub mod laws;
pub mod manifest;
pub mod order;
pub mod paths;
pub mod pattern;
pub mod reaper;
pub mod run;
pub mod target_build;
pub mod targets;
pub mod text;
pub mod toml_doc;
