//! bonk: a NixOS workflow multitool.
//!
//! The library resolves where and how the wrapped tools run (flake location,
//! build host, deploy target), composes their command lines, and lays out each
//! user intent as an ordered plan of messages and commands. Running the plan
//! (spawning processes, reading the terminal, touching the filesystem) is left
//! to the caller.
pub mod cli;
pub mod commands;
pub mod env;
pub mod exec;
pub mod flake;
pub mod host;
pub mod parse;
pub mod plan;
pub mod store;
pub mod text;

