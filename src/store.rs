//! The `store` subcommands.
pub mod gc;
pub mod info;
pub mod nuke;
pub mod optimize;
pub mod repair;
