//! The environment variables the tool reads, and what it makes of them.
//!
//! | Variable          | Purpose                            |
//! |-------------------|------------------------------------|
//! | `BONK_FLAKE_PATH` | Default flake path (`FLAKE` after) |
//! | `BONK_BUILD_HOST` | Default build host (empty = local) |
//! | `BONK_EXTRA_ARGS` | Extra args (colon-separated)       |
use vstd::prelude::*;

use crate::exec::{opt_view, views};
use crate::text::{fields, split_fields};

verus! {

/// The raw values of the variables, as read from the process environment
/// (`None` where a variable is unset or not valid Unicode).
#[derive(Debug, Default)]
pub struct EnvVars {
    /// `BONK_FLAKE_PATH`.
    pub bonk_flake_path: Option<String>,
    /// `FLAKE`, consulted only when `BONK_FLAKE_PATH` is unset.
    pub flake: Option<String>,
    /// `BONK_BUILD_HOST`.
    pub bonk_build_host: Option<String>,
    /// `BONK_EXTRA_ARGS`.
    pub bonk_extra_args: Option<String>,
}

/// What the handlers read from their surroundings, gathered once per run.
#[derive(Debug, Default)]
pub struct Ambient {
    /// The environment variables.
    pub env: EnvVars,
    /// Whether the working directory holds a `flake.nix`.
    pub flake_marker: bool,
}

/// `o`, with an empty value counted as no value.
pub open spec fn nonempty(o: Option<Seq<char>>) -> Option<Seq<char>> {
    match o {
        Some(s) => if s.len() > 0 { Some(s) } else { None },
        None => None,
    }
}

/// The flake path the environment gives: `BONK_FLAKE_PATH` if set, else
/// `FLAKE`; empty means none.
pub open spec fn env_flake_path(e: EnvVars) -> Option<Seq<char>> {
    nonempty(if e.bonk_flake_path is Some { opt_view(e.bonk_flake_path) } else { opt_view(e.flake) })
}

/// The build host the environment gives; empty means none.
pub open spec fn env_build_host(e: EnvVars) -> Option<Seq<char>> {
    nonempty(opt_view(e.bonk_build_host))
}

/// The extra arguments the environment gives: the non-empty pieces between
/// colons, in order.
pub open spec fn env_extra_args(e: EnvVars) -> Seq<Seq<char>> {
    match e.bonk_extra_args {
        Some(s) => fields(s@, ':'),
        None => Seq::empty(),
    }
}

fn keep_nonempty(o: &Option<String>) -> (r: Option<String>)
    ensures
        opt_view(r) == nonempty(opt_view(*o)),
{
    match o {
        Some(s) => if s.unicode_len() > 0 { Some(s.clone()) } else { None },
        None => None,
    }
}

/// The flake path from the environment.
pub fn get_flake_path(env: &EnvVars) -> (r: Option<String>)
    ensures
        opt_view(r) == env_flake_path(*env),
{
    if env.bonk_flake_path.is_some() {
        keep_nonempty(&env.bonk_flake_path)
    } else {
        keep_nonempty(&env.flake)
    }
}

/// The default build host from the environment.
pub fn get_build_host(env: &EnvVars) -> (r: Option<String>)
    ensures
        opt_view(r) == env_build_host(*env),
{
    keep_nonempty(&env.bonk_build_host)
}

/// The extra arguments from the environment.
pub fn get_extra_args(env: &EnvVars) -> (r: Vec<String>)
    ensures
        views(r@) == env_extra_args(*env),
{
    match &env.bonk_extra_args {
        Some(s) => split_fields(s.as_str(), ':'),
        None => {
            let r: Vec<String> = Vec::new();
            assert(views(r@) =~= Seq::<Seq<char>>::empty());
            r
        },
    }
}

} // verus!
