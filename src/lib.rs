//! Toolchain probing: finding a Rust compiler, working out how to make it
//! target a given triple, what it says about itself, and whether what it
//! builds can run.

pub mod config;
pub mod locate;
pub mod naming;
pub mod session;
pub mod target;
pub mod text;
pub mod version;
