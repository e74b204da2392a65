//! Project resolution and build planning for Odra smart-contract projects.
//!
//! The crate decides; it never touches the disk, the network or a child
//! process. Callers hand it what they found (which files exist, what a
//! manifest holds, what a command printed) and get back values, errors and
//! ordered lists of steps to carry out.

pub mod actions;
pub mod backend;
pub mod builder;
pub mod cargo_toml;
pub mod clean;
pub mod cli;
pub mod command;
pub mod consts;
pub mod errors;
pub mod generate;
pub mod init;
pub mod odra_dependency;
pub mod odra_toml;
pub mod paths;
pub mod pattern;
pub mod project;
pub mod template;
pub mod text;
pub mod update;
