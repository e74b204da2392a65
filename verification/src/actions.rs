//! What each subcommand does: checks, then a plan of steps.

pub mod build_wasm;
pub mod clean;
pub mod client;
pub mod generate;
pub mod init;
pub mod schema;
pub mod test;
pub mod update;
pub mod utils;
