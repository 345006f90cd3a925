//! Orchestration rules for building Debian packages reproducibly: checksum
//! verification of build artifacts, build status, the phases of a build run
//! and the exact command lines handed to the external tools.
//!
//! Nothing here touches the file system or runs a program: files come in as
//! bytes, and commands go out as values for the caller to run.

pub mod artifact;
pub mod cli;
pub mod command;
pub mod config;
pub mod coordinator;
pub mod digest;
pub mod document;
pub mod error;
pub mod listing;
pub mod loader;
pub mod publish;
pub mod report;
pub mod status;
pub mod text;
