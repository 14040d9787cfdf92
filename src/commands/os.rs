//! `switch` and `boot`: rebuild the system through `nh os`.
use vstd::prelude::*;

use crate::cli::OsArgs;
use crate::env::{env_build_host, env_extra_args, get_build_host, get_extra_args, Ambient, EnvVars};
use crate::exec::{command, opt_pair, opt_view, views, CommandRunner};
use crate::flake::{flake_location, opt_str_view, resolve_flake_path, ConfigError};
use crate::host::resolve_host;
use crate::plan::{Step, StepView, plan_view};
use crate::text::{cat, cat3, owned};

verus! {

/// Which `nh os` action to perform.
#[derive(Debug, Clone, Copy, PartialEq, Eq, Structural)]
pub enum OsAction {
    /// Activate now.
    Switch,
    /// Activate at the next boot.
    Boot,
}

/// The `nh os` subcommand of an action.
pub open spec fn action_label(a: OsAction) -> Seq<char> {
    match a {
        OsAction::Switch => "switch"@,
        OsAction::Boot => "boot"@,
    }
}

impl OsAction {
    /// The `nh os` subcommand.
    pub fn as_str(self) -> (r: &'static str)
        ensures
            r@ == action_label(self),
    {
        match self {
            OsAction::Switch => "switch",
            OsAction::Boot => "boot",
        }
    }
}

/// Where to deploy: the explicit target host if given; else the selected host
/// when deployment was asked for; else nowhere (a local activation).
pub open spec fn deploy_target(target: bool, target_host: Option<Seq<char>>, host: Seq<char>) -> Option<Seq<char>> {
    match target_host {
        Some(t) => Some(t),
        None => if target { Some(host) } else { None },
    }
}

/// Where to build: nowhere remote when local building is forced; else the
/// host given by flag; else the environment's.
pub open spec fn build_host(local: bool, given: Option<Seq<char>>, from_env: Option<Seq<char>>) -> Option<Seq<char>> {
    if local {
        None
    } else if given is Some {
        given
    } else {
        from_env
    }
}

/// Resolves the deploy target.
pub fn resolve_deploy_target(target: bool, target_host: &Option<String>, host: &str) -> (r: Option<String>)
    ensures
        opt_view(r) == deploy_target(target, opt_view(*target_host), host@),
        target_host matches Some(t) ==> opt_view(r) == Some(t@),
        target_host is None && target ==> opt_view(r) == Some(host@),
        target_host is None && !target ==> r is None,
{
    match target_host {
        Some(t) => Some(t.clone()),
        None => if target { Some(owned(host)) } else { None },
    }
}

/// Resolves the build host; forcing a local build wins over every other source.
pub fn resolve_build_host(local: bool, given: &Option<String>, env: &EnvVars) -> (r: Option<String>)
    ensures
        opt_view(r) == build_host(local, opt_view(*given), env_build_host(*env)),
        local ==> r is None,
        !local && given is None ==> opt_view(r) == env_build_host(*env),
{
    if local {
        None
    } else {
        match given {
            Some(b) => Some(b.clone()),
            None => get_build_host(env),
        }
    }
}

/// `flag` when `cond` holds, else nothing.
pub open spec fn flag_if(cond: bool, flag: Seq<char>) -> Seq<Seq<char>> {
    if cond { seq![flag] } else { Seq::empty() }
}

/// The pass-through arguments after a `--` separator, or nothing when there are none.
pub open spec fn pass_through(extra: Seq<Seq<char>>) -> Seq<Seq<char>> {
    if extra.len() == 0 { Seq::empty() } else { seq!["--"@] + extra }
}

/// The arguments of a rebuild through `nh os`, shared by `switch`, `boot`
/// and the plain rebuild.
pub open spec fn nh_os_args(
    label: Seq<char>,
    flake: Seq<char>,
    host: Seq<char>,
    deploy: Option<Seq<char>>,
    builder: Option<Seq<char>>,
    substituter: Option<Seq<char>>,
    key: Option<Seq<char>>,
    trace: bool,
    dry_run: bool,
    extra: Seq<Seq<char>>,
) -> Seq<Seq<char>> {
    seq!["os"@, label, flake, "-H"@, host]
        + opt_pair("--target-host"@, deploy)
        + opt_pair("--build-host"@, builder)
        + opt_pair("--extra-substituters"@, substituter)
        + opt_pair("--extra-trusted-public-keys"@, key)
        + flag_if(trace, "--show-trace"@)
        + flag_if(dry_run, "--dry-run"@)
        + pass_through(extra)
}

/// Composes an `nh os` rebuild.
pub fn nh_os_command(
    label: &str,
    flake: &str,
    host: &str,
    deploy: &Option<String>,
    builder: &Option<String>,
    substituter: &Option<String>,
    key: &Option<String>,
    trace: bool,
    dry_run: bool,
    extra: &Vec<String>,
) -> (r: CommandRunner)
    ensures
        r@ == command("nh"@).push_args(nh_os_args(label@, flake@, host@, opt_view(*deploy),
            opt_view(*builder), opt_view(*substituter), opt_view(*key), trace, dry_run, views(extra@))),
{
    let r = CommandRunner::new("nh").arg("os").arg(label).arg(flake).arg("-H").arg(host);
    let r = r.arg_pair("--target-host", deploy);
    let r = r.arg_pair("--build-host", builder);
    let r = r.arg_pair("--extra-substituters", substituter);
    let r = r.arg_pair("--extra-trusted-public-keys", key);
    let r = r.arg_if(trace, "--show-trace");
    let r = r.arg_if(dry_run, "--dry-run");
    let r = if extra.len() > 0 {
        r.arg("--").args_owned(extra)
    } else {
        r
    };
    assert(r@.args =~= nh_os_args(label@, flake@, host@, opt_view(*deploy),
        opt_view(*builder), opt_view(*substituter), opt_view(*key), trace, dry_run, views(extra@)));
    r
}

/// A status line for an optional value: `prefix` and the value, when there is one.
pub open spec fn status_if(prefix: Seq<char>, v: Option<Seq<char>>) -> Seq<StepView> {
    match v {
        Some(x) => seq![StepView::Status(prefix + x)],
        None => Seq::empty(),
    }
}

/// The plan of `switch` or `boot` for a resolved flake and host.
pub open spec fn os_plan(action: OsAction, args: OsArgs, flake: Seq<char>, host: Seq<char>, env: EnvVars) -> Seq<StepView> {
    let label = action_label(action);
    let deploy = deploy_target(args.target, opt_view(args.target_host), host);
    let builder = build_host(args.local, opt_view(args.build_host), env_build_host(env));
    seq![StepView::Info("Rebuilding configuration for host: "@ + host + " ("@ + label + ")"@)]
        + status_if("Deploying to target host: "@, deploy)
        + status_if("Building on remote host: "@, builder)
        + seq![
            StepView::Run(command("nh"@).push_args(nh_os_args(label, flake, host, deploy, builder,
                opt_view(args.substituter), opt_view(args.key), args.trace, args.dry_run, env_extra_args(env)))),
            StepView::Success(
                (if args.dry_run { "Dry run complete ("@ } else { "Rebuild complete! ("@ }) + label + ")"@,
            ),
        ]
}

/// Lays out `switch` or `boot` for a resolved flake location and host.
pub fn plan(action: OsAction, args: &OsArgs, flake: &str, host: &str, env: &EnvVars) -> (r: Vec<Step>)
    ensures
        plan_view(r@) == os_plan(action, *args, flake@, host@, *env),
{
    let label = action.as_str();
    let deploy = resolve_deploy_target(args.target, &args.target_host, host);
    let builder = resolve_build_host(args.local, &args.build_host, env);
    let extra = get_extra_args(env);
    let mut r: Vec<Step> = Vec::new();
    r.push(Step::Info(cat(cat3("Rebuilding configuration for host: ", host, " (").as_str(), label).concat(")")));
    if let Some(dt) = &deploy {
        r.push(Step::Status(cat("Deploying to target host: ", dt.as_str())));
    }
    if let Some(bh) = &builder {
        r.push(Step::Status(cat("Building on remote host: ", bh.as_str())));
    }
    let cmd = nh_os_command(label, flake, host, &deploy, &builder, &args.substituter, &args.key,
        args.trace, args.dry_run, &extra);
    r.push(Step::Run(cmd));
    let head = if args.dry_run { "Dry run complete (" } else { "Rebuild complete! (" };
    r.push(Step::Success(cat3(head, label, ")")));
    assert(plan_view(r@) =~= os_plan(action, *args, flake@, host@, *env));
    r
}

/// Runs `switch` or `boot`: resolves the host (the one given, else the system
/// host name) and the flake location, then lays out the rebuild.
pub fn run(action: OsAction, args: &OsArgs, flake_path: Option<&str>, ambient: &Ambient) -> (r: Result<Vec<Step>, ConfigError>)
    ensures
        ({
            let flake = flake_location(opt_str_view(flake_path), ambient.flake_marker, ambient.env);
            &&& r is Ok ==> flake is Some && exists|host: Seq<char>|
                (args.host is Some ==> Some(host) == opt_view(args.host))
                && #[trigger] os_plan(action, *args, flake->0, host, ambient.env) == plan_view(r->Ok_0@)
            &&& args.host is Some && flake is Some ==> r is Ok
            &&& flake is None ==> r is Err
            &&& r matches Err(e) ==> (e == ConfigError::HostnameUnavailable && args.host is None)
                || (e == ConfigError::NoFlakeFound && flake is None)
        }),
{
    let host = resolve_host(&args.host)?;
    let flake = resolve_flake_path(flake_path, ambient.flake_marker, &ambient.env)?;
    let r = plan(action, args, flake.as_str(), host.as_str(), &ambient.env);
    Ok(r)
}

} // verus!
