//! Build, locate, stage and mirror: the decisions of a local
//! build-and-deploy pipeline, stated over plain values and proved.
//!
//! The library never touches the disk and never spawns a process. It says
//! which command to run, where the compiled binary is expected, where it is
//! to be staged, which directories and files a vendor mirror consists of, and
//! which error each failed step amounts to.

pub mod path;
pub mod error;
pub mod command;
pub mod manifest;
pub mod install;
pub mod mirror;
pub mod pipeline;
pub mod config;

pub use command::build_project;
pub use config::Config;
pub use install::copy_binary;
pub use mirror::{copy_dir, vendor_dependencies};
