//! `now`: a local task runner that runs project commands inside ephemeral,
//! project-aware container images.
//!
//! This crate holds the decisions of the runner: which image a project or a
//! toolchain selector maps to, how an image reference splits into name and tag,
//! how a `.now.yaml` command unfolds into steps and how a pipeline of steps
//! ends, which Docker endpoint is used, and how the container is configured.
//! Reading the disk, talking to the Docker daemon and drawing the terminal are
//! left to the caller.

mod text;
pub mod cli;
pub mod config;
pub mod detect;
pub mod docker;
pub mod error;
pub mod image;
pub mod workflow;
pub mod ui;
