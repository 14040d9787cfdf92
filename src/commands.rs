//! One handler per user intent. Each resolves its configuration and lays out
//! its plan: the messages to show and the commands to run, in order.
pub mod nix_build;
pub mod os;
pub mod rebuild;
pub mod try_pkg;
pub mod update;
