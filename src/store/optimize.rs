//! `store optimize`: deduplicate the store with `nix store optimise`.
//!
//! The optimizer has no dry run of its own. A dry run therefore does not run it
//! at all: it reports the store's size instead and says how to optimize for real.
use vstd::prelude::*;

use crate::cli::OptimizeArgs;
use crate::exec::{command, command_with, CommandRunner, CommandView};
use crate::plan::{commands_of, plan_view, Step, StepView};

verus! {

/// `du -sh /nix/store`, run quietly: the store's size.
pub open spec fn store_size_command() -> CommandView {
    CommandView { show: false, ..command_with("du"@, seq!["-sh"@, "/nix/store"@]) }
}

/// `nix store optimise`, with no other flags.
pub open spec fn optimise_command() -> CommandView {
    command_with("nix"@, seq!["store"@, "optimise"@])
}

/// The command that reports the store's size.
pub fn size_command() -> (r: CommandRunner)
    ensures
        r@ == store_size_command(),
{
    let r = CommandRunner::new("du").args(&["-sh", "/nix/store"]).show_command(false);
    assert(r@.args =~= store_size_command().args);
    r
}

/// The command that deduplicates the store.
pub fn optimise() -> (r: CommandRunner)
    ensures
        r@ == optimise_command(),
{
    let r = CommandRunner::new("nix").args(&["store", "optimise"]);
    assert(r@.args =~= optimise_command().args);
    r
}

/// The plan of `store optimize`.
pub open spec fn optimize_plan(args: OptimizeArgs) -> Seq<StepView> {
    if args.dry_run {
        seq![
            StepView::Info("Dry run: analyzing store for optimization opportunities..."@),
            StepView::Warn("Note: nix store optimise does not support dry-run directly."@),
            StepView::Warn("Running du to estimate store size..."@),
            StepView::Run(store_size_command()),
            StepView::Info("Run without --dry-run to actually optimize."@),
        ]
    } else {
        seq![
            StepView::Info("Optimizing Nix store (deduplicating via hard-links)..."@),
            StepView::Status("This may take a while for large stores..."@),
            StepView::Run(optimise_command()),
            StepView::Success("Store optimization complete!"@),
        ]
    }
}

/// Lays out `store optimize`.
pub fn run(args: &OptimizeArgs) -> (r: Vec<Step>)
    ensures
        plan_view(r@) == optimize_plan(*args),
        args.dry_run ==> commands_of(plan_view(r@)) == seq![store_size_command()],
        !args.dry_run ==> commands_of(plan_view(r@)) == seq![optimise_command()],
{
    let mut r: Vec<Step> = Vec::new();
    if args.dry_run {
        r.push(Step::Info(String::from_str("Dry run: analyzing store for optimization opportunities...")));
        r.push(Step::Warn(String::from_str("Note: nix store optimise does not support dry-run directly.")));
        r.push(Step::Warn(String::from_str("Running du to estimate store size...")));
        r.push(Step::Run(size_command()));
        r.push(Step::Info(String::from_str("Run without --dry-run to actually optimize.")));
    } else {
        r.push(Step::Info(String::from_str("Optimizing Nix store (deduplicating via hard-links)...")));
        r.push(Step::Status(String::from_str("This may take a while for large stores...")));
        r.push(Step::Run(optimise()));
        r.push(Step::Success(String::from_str("Store optimization complete!")));
    }
    assert(plan_view(r@) =~= optimize_plan(*args));
    proof {
        reveal_with_fuel(commands_of, 6);
        let p = plan_view(r@);
        if args.dry_run {
            assert(p.drop_last().drop_last().drop_last().drop_last().drop_last() =~= Seq::<StepView>::empty());
            assert(commands_of(p) =~= seq![store_size_command()]);
        } else {
            assert(p.drop_last().drop_last().drop_last().drop_last() =~= Seq::<StepView>::empty());
            assert(commands_of(p) =~= seq![optimise_command()]);
        }
    }
    r
}

} // verus!
