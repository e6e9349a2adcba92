//! A command-line scaffolding and toolchain-management library for a
//! game-modding ecosystem.
//!
//! The library holds the verified core: it plans external tool
//! invocations, interprets their captured output, parses version
//! strings, and renders the files of a new mod skeleton. The thin
//! binary around it performs the actual process spawning and file
//! system work and feeds the results back in as plain values.

pub mod casing;
pub mod cli;
pub mod conda;
pub mod node;
pub mod nvm;
pub mod process;
pub mod template;
pub mod text;

