//! `build`: build a package or flake output with `nix build`.
use vstd::prelude::*;

use crate::cli::BuildArgs;
use crate::commands::os::flag_if;
use crate::env::Ambient;
use crate::exec::{command, opt_pair, opt_view, CommandRunner, CommandView};
use crate::flake::{flake_location, opt_str_view, resolve_flake_path, ConfigError};
use crate::plan::{plan_view, Step, StepView};
use crate::text::cat;

verus! {

/// The `nix build` command for a target.
pub open spec fn build_command(args: BuildArgs, target: Seq<char>) -> CommandView {
    command("nix"@).push_args(
        seq!["build"@, target]
            + (if args.no_link { seq!["--no-link"@] } else { opt_pair("-o"@, opt_view(args.out_link)) })
            + flag_if(args.trace, "--show-trace"@)
            + flag_if(args.dry_run, "--dry-run"@),
    )
}

/// The plan of `build` for a target.
pub open spec fn build_plan(args: BuildArgs, target: Seq<char>) -> Seq<StepView> {
    seq![
        StepView::Info("Building: "@ + target),
        StepView::Run(build_command(args, target)),
        StepView::Success(if args.dry_run { "Dry run complete"@ } else { "Build complete!"@ }),
    ]
}

/// Lays out `build` for a target.
pub fn plan(args: &BuildArgs, target: &str) -> (r: Vec<Step>)
    ensures
        plan_view(r@) == build_plan(*args, target@),
{
    let c = CommandRunner::new("nix").arg("build").arg(target);
    let c = if args.no_link {
        c.arg("--no-link")
    } else {
        c.arg_pair("-o", &args.out_link)
    };
    let c = c.arg_if(args.trace, "--show-trace").arg_if(args.dry_run, "--dry-run");
    assert(c@.args =~= build_command(*args, target@).args);
    let mut r: Vec<Step> = Vec::new();
    r.push(Step::Info(cat("Building: ", target)));
    r.push(Step::Run(c));
    let done = if args.dry_run { "Dry run complete" } else { "Build complete!" };
    r.push(Step::Success(String::from_str(done)));
    assert(plan_view(r@) =~= build_plan(*args, target@));
    r
}

/// Runs `build`: the target given, else the resolved flake location.
pub fn run(args: &BuildArgs, flake_path: Option<&str>, ambient: &Ambient) -> (r: Result<Vec<Step>, ConfigError>)
    ensures
        match args.target {
            Some(t) => r matches Ok(p) && plan_view(p@) == build_plan(*args, t@),
            None => match flake_location(opt_str_view(flake_path), ambient.flake_marker, ambient.env) {
                Some(f) => r matches Ok(p) && plan_view(p@) == build_plan(*args, f),
                None => r == Err::<Vec<Step>, ConfigError>(ConfigError::NoFlakeFound),
            },
        },
{
    match &args.target {
        Some(t) => Ok(plan(args, t.as_str())),
        None => {
            let f = resolve_flake_path(flake_path, ambient.flake_marker, &ambient.env)?;
            Ok(plan(args, f.as_str()))
        },
    }
}

} // verus!
