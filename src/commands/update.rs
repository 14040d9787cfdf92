//! `update`: update flake inputs with `nix flake update`.
use vstd::prelude::*;

use crate::cli::UpdateArgs;
use crate::commands::os::flag_if;
use crate::env::Ambient;
use crate::exec::{command, views, CommandRunner, CommandView};
use crate::flake::{flake_location, opt_str_view, resolve_flake_path, ConfigError};
use crate::plan::{plan_view, Step, StepView};
use crate::text::{cat, join_words, joined_with};

verus! {

/// The `nix flake update` command for a flake.
pub open spec fn update_command(args: UpdateArgs, flake: Seq<char>) -> CommandView {
    command("nix"@).push_args(
        seq!["flake"@, "update"@, "--flake"@, flake] + views(args.inputs@)
            + flag_if(args.commit, "--commit-lock-file"@),
    )
}

/// The plan of `update` for a flake.
pub open spec fn update_plan(args: UpdateArgs, flake: Seq<char>) -> Seq<StepView> {
    seq![
        StepView::Info(
            if args.inputs@.len() == 0 {
                "Updating all flake inputs..."@
            } else {
                "Updating inputs: "@ + joined_with(views(args.inputs@), ", "@)
            },
        ),
        StepView::Run(update_command(args, flake)),
        StepView::Success("Update complete!"@),
    ]
}

/// Lays out `update` for a resolved flake location.
pub fn plan(args: &UpdateArgs, flake: &str) -> (r: Vec<Step>)
    ensures
        plan_view(r@) == update_plan(*args, flake@),
{
    let mut r: Vec<Step> = Vec::new();
    if args.inputs.len() == 0 {
        r.push(Step::Info(String::from_str("Updating all flake inputs...")));
    } else {
        r.push(Step::Info(cat("Updating inputs: ", join_words(&args.inputs, ", ").as_str())));
    }
    let c = CommandRunner::new("nix").args(&["flake", "update", "--flake"]).arg(flake);
    let c = c.args_owned(&args.inputs).arg_if(args.commit, "--commit-lock-file");
    assert(c@.args =~= update_command(*args, flake@).args);
    r.push(Step::Run(c));
    r.push(Step::Success(String::from_str("Update complete!")));
    assert(plan_view(r@) =~= update_plan(*args, flake@));
    r
}

/// Runs `update`: resolves the flake location, then lays out the update.
pub fn run(args: &UpdateArgs, flake_path: Option<&str>, ambient: &Ambient) -> (r: Result<Vec<Step>, ConfigError>)
    ensures
        match flake_location(opt_str_view(flake_path), ambient.flake_marker, ambient.env) {
            Some(f) => r matches Ok(p) && plan_view(p@) == update_plan(*args, f),
            None => r == Err::<Vec<Step>, ConfigError>(ConfigError::NoFlakeFound),
        },
{
    let f = resolve_flake_path(flake_path, ambient.flake_marker, &ambient.env)?;
    Ok(plan(args, f.as_str()))
}

} // verus!
