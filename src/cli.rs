//! The command line, as values: the global options and one subcommand with
//! its arguments. `parse` reads it from the words of a command line.
use vstd::prelude::*;

verus! {

/// Arguments shared by `switch` and `boot`.
#[derive(Debug, Default, PartialEq, Eq)]
pub struct OsArgs {
    /// The flake configuration to build (`-H`); the host name by default.
    /// It does not say where the result is deployed.
    pub host: Option<String>,
    /// Also deploy to the `-H` host over SSH (`-T`).
    pub target: bool,
    /// Deploy to this SSH target, which may differ from `-H`.
    pub target_host: Option<String>,
    /// Build on this remote host (`-B`).
    pub build_host: Option<String>,
    /// Build locally, ignoring `BONK_BUILD_HOST` (`-l`).
    pub local: bool,
    /// Pass `--show-trace` (`-t`).
    pub trace: bool,
    /// An extra binary cache (`-s`).
    pub substituter: Option<String>,
    /// A trusted public key for that cache (`-k`).
    pub key: Option<String>,
    /// Show what would be built without building (`-n`).
    pub dry_run: bool,
}

/// Arguments of the plain rebuild (always `switch`, deployed locally).
#[derive(Debug, Default, PartialEq, Eq)]
pub struct RebuildArgs {
    /// The host to build for; the host name by default.
    pub host: Option<String>,
    /// Build on this remote host.
    pub build_host: Option<String>,
    /// Build locally, ignoring `BONK_BUILD_HOST`.
    pub local: bool,
    /// Pass `--show-trace`.
    pub trace: bool,
    /// An extra binary cache.
    pub substituter: Option<String>,
    /// A trusted public key for that cache.
    pub key: Option<String>,
    /// Show what would be built without building.
    pub dry_run: bool,
}

/// Arguments of `build`.
#[derive(Debug, Default, PartialEq, Eq)]
pub struct BuildArgs {
    /// The package or flake output to build; the flake's default package if absent.
    pub target: Option<String>,
    /// Do not create the result link (`--no-link`).
    pub no_link: bool,
    /// Where to put the result link (`-o`).
    pub out_link: Option<String>,
    /// Pass `--show-trace` (`-t`).
    pub trace: bool,
    /// Show what would be built without building (`-n`).
    pub dry_run: bool,
}

/// Arguments of `update`.
#[derive(Debug, Default, PartialEq, Eq)]
pub struct UpdateArgs {
    /// The inputs to update; all of them if empty.
    pub inputs: Vec<String>,
    /// Commit the lock file (`-c`).
    pub commit: bool,
}

/// Arguments of `try`.
#[derive(Debug, Default, PartialEq, Eq)]
pub struct TryArgs {
    /// The packages to make available, from nixpkgs unless they name a flake.
    pub packages: Vec<String>,
    /// The command to run (after `--`); an interactive shell if empty.
    pub cmd: Vec<String>,
    /// Do not inherit the environment (`--pure`).
    pub pure: bool,
}

/// Arguments of `store gc`.
#[derive(Debug, PartialEq, Eq)]
pub struct GcArgs {
    /// Delete generations older than this (`7d`, `2w`, ...).
    pub older_than: Option<String>,
    /// Keep at least this many generations.
    pub keep: u32,
    /// Show what would be deleted without deleting (`-n`).
    pub dry_run: bool,
}

/// Arguments of `store optimize`.
#[derive(Debug, Default, PartialEq, Eq)]
pub struct OptimizeArgs {
    /// Report the store size instead of optimizing (`-n`).
    pub dry_run: bool,
}

/// Arguments of `store repair`.
#[derive(Debug, Default, PartialEq, Eq)]
pub struct RepairArgs {
    /// The store paths to check; the whole store if empty.
    pub paths: Vec<String>,
    /// Only verify, do not repair (`-c`).
    pub check_only: bool,
}

/// Arguments of `store nuke`.
#[derive(Debug, Default, PartialEq, Eq)]
pub struct NukeArgs {
    /// Do not ask for confirmation (`-y`).
    pub yes: bool,
    /// Also remove result links in the working directory (`-r`).
    pub remove_results: bool,
    /// Leave out the final rebuild of the boot entries (`--skip-rebuild`).
    pub skip_rebuild: bool,
}

/// Arguments of `store info`.
#[derive(Debug, Default, PartialEq, Eq)]
pub struct InfoArgs {
    /// Also count live and dead store paths (`-d`).
    pub detailed: bool,
}

/// The subcommands of `store`.
#[derive(Debug, PartialEq, Eq)]
pub enum StoreCommands {
    /// `gc` (or `clean`): collect old generations.
    Gc(GcArgs),
    /// `optimize`: deduplicate the store by hard links.
    Optimize(OptimizeArgs),
    /// `repair`: verify, and repair, the store.
    Repair(RepairArgs),
    /// `nuke`: the aggressive full cleanup.
    Nuke(NukeArgs),
    /// `info`: store statistics.
    Info(InfoArgs),
}

/// The subcommands.
#[derive(Debug, PartialEq, Eq)]
pub enum Commands {
    /// `switch` (or `s`): build and activate now.
    Switch(OsArgs),
    /// `boot`: build and add a boot entry without switching.
    Boot(OsArgs),
    /// `build` (or `b`): build packages into the store.
    Build(BuildArgs),
    /// `update` (or `u`): update flake inputs.
    Update(UpdateArgs),
    /// `store`: store management.
    Store { command: StoreCommands },
    /// `try`: a temporary shell with packages.
    Try(TryArgs),
}

/// A whole command line.
#[derive(Debug, PartialEq, Eq)]
pub struct Cli {
    /// The flake path given with `-p` / `--flake-path`.
    pub flake_path: Option<String>,
    /// Verbose output (`-v`).
    pub verbose: bool,
    /// The subcommand.
    pub command: Commands,
}

} // verus!
