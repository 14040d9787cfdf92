//! The plain rebuild: `nh os switch` for a host, activated locally.
use vstd::prelude::*;

use crate::cli::RebuildArgs;
use crate::commands::os::{build_host, nh_os_args, nh_os_command, resolve_build_host, status_if};
use crate::env::{env_build_host, env_extra_args, get_extra_args, Ambient, EnvVars};
use crate::exec::{command, opt_view};
use crate::flake::{flake_location, opt_str_view, resolve_flake_path, ConfigError};
use crate::host::resolve_host;
use crate::plan::{plan_view, Step, StepView};
use crate::text::cat;

verus! {

/// The plan of a plain rebuild for a resolved flake and host.
pub open spec fn rebuild_plan(args: RebuildArgs, flake: Seq<char>, host: Seq<char>, env: EnvVars) -> Seq<StepView> {
    let builder = build_host(args.local, opt_view(args.build_host), env_build_host(env));
    seq![StepView::Info("Rebuilding configuration for host: "@ + host)]
        + status_if("Building on remote host: "@, builder)
        + seq![
            StepView::Run(command("nh"@).push_args(nh_os_args("switch"@, flake, host, None, builder,
                opt_view(args.substituter), opt_view(args.key), args.trace, args.dry_run, env_extra_args(env)))),
            StepView::Success(if args.dry_run { "Dry run complete"@ } else { "Rebuild complete!"@ }),
        ]
}

/// Lays out a plain rebuild for a resolved flake location and host.
pub fn plan(args: &RebuildArgs, flake: &str, host: &str, env: &EnvVars) -> (r: Vec<Step>)
    ensures
        plan_view(r@) == rebuild_plan(*args, flake@, host@, *env),
{
    let builder = resolve_build_host(args.local, &args.build_host, env);
    let extra = get_extra_args(env);
    let mut r: Vec<Step> = Vec::new();
    r.push(Step::Info(cat("Rebuilding configuration for host: ", host)));
    if let Some(bh) = &builder {
        r.push(Step::Status(cat("Building on remote host: ", bh.as_str())));
    }
    let cmd = nh_os_command("switch", flake, host, &None, &builder, &args.substituter, &args.key,
        args.trace, args.dry_run, &extra);
    r.push(Step::Run(cmd));
    let done = if args.dry_run { "Dry run complete" } else { "Rebuild complete!" };
    r.push(Step::Success(String::from_str(done)));
    assert(plan_view(r@) =~= rebuild_plan(*args, flake@, host@, *env));
    r
}

/// Runs a plain rebuild: resolves the host and the flake location, then lays
/// out the rebuild.
pub fn run(args: &RebuildArgs, flake_path: Option<&str>, ambient: &Ambient) -> (r: Result<Vec<Step>, ConfigError>)
    ensures
        ({
            let flake = flake_location(opt_str_view(flake_path), ambient.flake_marker, ambient.env);
            &&& r is Ok ==> flake is Some && exists|host: Seq<char>|
                (args.host is Some ==> Some(host) == opt_view(args.host))
                && #[trigger] rebuild_plan(*args, flake->0, host, ambient.env) == plan_view(r->Ok_0@)
            &&& args.host is Some && flake is Some ==> r is Ok
            &&& flake is None ==> r is Err
            &&& r matches Err(e) ==> (e == ConfigError::HostnameUnavailable && args.host is None)
                || (e == ConfigError::NoFlakeFound && flake is None)
        }),
{
    let host = resolve_host(&args.host)?;
    let flake = resolve_flake_path(flake_path, ambient.flake_marker, &ambient.env)?;
    Ok(plan(args, flake.as_str(), host.as_str(), &ambient.env))
}

} // verus!
