//! `store repair`: verify, and repair, store integrity with `nix store`.
use vstd::prelude::*;

use crate::cli::RepairArgs;
use crate::exec::{command, views, CommandRunner, CommandView};
use crate::plan::{plan_view, Step, StepView};

verus! {

/// `nix store <verb>` over the whole store when no paths are given, else over
/// exactly those paths.
pub open spec fn store_check_command(verb: Seq<char>, paths: Seq<Seq<char>>) -> CommandView {
    if paths.len() == 0 {
        command("nix"@).push_args(seq!["store"@, verb, "--all"@])
    } else {
        command("nix"@).push_args(seq!["store"@, verb] + paths)
    }
}

/// The plan of `store repair`.
pub open spec fn repair_plan(args: RepairArgs) -> Seq<StepView> {
    if args.check_only {
        seq![
            StepView::Info("Verifying store integrity..."@),
            StepView::Run(store_check_command("verify"@, views(args.paths@))),
            StepView::Success("Store verification complete!"@),
        ]
    } else {
        seq![
            StepView::Info("Verifying and repairing store..."@),
            StepView::Status("Corrupted paths will be re-downloaded from caches..."@),
            StepView::Run(store_check_command("repair"@, views(args.paths@))),
            StepView::Success("Store repair complete!"@),
        ]
    }
}

fn check_command(verb: &str, paths: &Vec<String>) -> (r: CommandRunner)
    ensures
        r@ == store_check_command(verb@, views(paths@)),
{
    let r = if paths.len() == 0 {
        CommandRunner::new("nix").arg("store").arg(verb).arg("--all")
    } else {
        CommandRunner::new("nix").arg("store").arg(verb).args_owned(paths)
    };
    assert(r@.args =~= store_check_command(verb@, views(paths@)).args);
    r
}

/// Lays out `store repair`.
pub fn run(args: &RepairArgs) -> (r: Vec<Step>)
    ensures
        plan_view(r@) == repair_plan(*args),
{
    let mut r: Vec<Step> = Vec::new();
    if args.check_only {
        r.push(Step::Info(String::from_str("Verifying store integrity...")));
        r.push(Step::Run(check_command("verify", &args.paths)));
        r.push(Step::Success(String::from_str("Store verification complete!")));
    } else {
        r.push(Step::Info(String::from_str("Verifying and repairing store...")));
        r.push(Step::Status(String::from_str("Corrupted paths will be re-downloaded from caches...")));
        r.push(Step::Run(check_command("repair", &args.paths)));
        r.push(Step::Success(String::from_str("Store repair complete!")));
    }
    assert(plan_view(r@) =~= repair_plan(*args));
    r
}

} // verus!
