//! Where the flake to build comes from.
use vstd::prelude::*;

use crate::env::{env_flake_path, get_flake_path, EnvVars};
use crate::text::owned;

verus! {

/// Why the configuration could not be resolved.
#[derive(Debug, Clone, Copy, PartialEq, Eq, Structural)]
pub enum ConfigError {
    /// No flake path was given, found or configured.
    NoFlakeFound,
    /// The system host name could not be read.
    HostnameUnavailable,
}

impl ConfigError {
    /// A message for the user, naming the remedies.
    pub fn message(&self) -> (r: &'static str)
        ensures
            *self == ConfigError::NoFlakeFound ==> r@ == no_flake_message(),
            *self == ConfigError::HostnameUnavailable ==> r@ == "could not determine hostname for rebuild"@,
    {
        match self {
            ConfigError::NoFlakeFound => "no flake path found. Either:\n - Run from a directory containing flake.nix\n - Set BONK_FLAKE_PATH environment variable\n - Use --flake-path / -p option",
            ConfigError::HostnameUnavailable => "could not determine hostname for rebuild",
        }
    }
}

/// The message for a missing flake, which names the three ways to give one.
pub open spec fn no_flake_message() -> Seq<char> {
    "no flake path found. Either:\n - Run from a directory containing flake.nix\n - Set BONK_FLAKE_PATH environment variable\n - Use --flake-path / -p option"@
}

/// The optional string slice's characters.
pub open spec fn opt_str_view(o: Option<&str>) -> Option<Seq<char>> {
    match o {
        Some(s) => Some(s@),
        None => None,
    }
}

/// The flake location, first match wins: the explicit path as given; "." when
/// the working directory holds the marker file; the environment's path; else none.
pub open spec fn flake_location(explicit: Option<Seq<char>>, marker: bool, env: EnvVars) -> Option<Seq<char>> {
    match explicit {
        Some(p) => Some(p),
        None => if marker { Some("."@) } else { env_flake_path(env) },
    }
}

/// Resolves the flake location. An explicit path is returned as given, with
/// no check that it exists.
pub fn resolve_flake_path(explicit_path: Option<&str>, marker_present: bool, env: &EnvVars) -> (r: Result<String, ConfigError>)
    ensures
        match flake_location(opt_str_view(explicit_path), marker_present, *env) {
            Some(p) => r matches Ok(s) && s@ == p,
            None => r == Err::<String, ConfigError>(ConfigError::NoFlakeFound),
        },
        explicit_path matches Some(p) ==> (r matches Ok(s) && s@ == p@),
        explicit_path is None && !marker_present && env_flake_path(*env) is None
            ==> r == Err::<String, ConfigError>(ConfigError::NoFlakeFound),
        explicit_path is None && r is Ok ==> r->Ok_0@.len() > 0,
{
    if let Some(p) = explicit_path {
        return Ok(owned(p));
    }
    if marker_present {
        proof { reveal_strlit("."); }
        return Ok(owned("."));
    }
    match get_flake_path(env) {
        Some(p) => Ok(p),
        None => Err(ConfigError::NoFlakeFound),
    }
}

} // verus!
