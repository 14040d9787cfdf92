//! `store gc`: collect old generations with `nh clean all`.
use vstd::prelude::*;

use crate::cli::GcArgs;
use crate::commands::os::flag_if;
use crate::exec::{command, opt_pair, opt_view, CommandRunner, CommandView};
use crate::plan::{plan_view, Step, StepView};
use crate::text::{decimal, decimal_string};

verus! {

/// The `nh clean all` command.
pub open spec fn gc_command(args: GcArgs) -> CommandView {
    command("nh"@).push_args(
        seq!["clean"@, "all"@, "--keep"@, decimal(args.keep as nat)]
            + opt_pair("--keep-since"@, opt_view(args.older_than))
            + flag_if(args.dry_run, "--dry-run"@),
    )
}

/// The plan of `store gc`.
pub open spec fn gc_plan(args: GcArgs) -> Seq<StepView> {
    seq![
        StepView::Info(
            if args.dry_run {
                "Dry run: showing what would be garbage collected..."@
            } else {
                "Garbage collecting old generations..."@
            },
        ),
        StepView::Run(gc_command(args)),
        StepView::Success(if args.dry_run { "Dry run complete"@ } else { "Garbage collection complete!"@ }),
    ]
}

/// Lays out `store gc`.
pub fn run(args: &GcArgs) -> (r: Vec<Step>)
    ensures
        plan_view(r@) == gc_plan(*args),
{
    let intro = if args.dry_run {
        "Dry run: showing what would be garbage collected..."
    } else {
        "Garbage collecting old generations..."
    };
    let keep = decimal_string(args.keep as u64);
    let c = CommandRunner::new("nh").args(&["clean", "all", "--keep"]).arg(keep.as_str());
    let c = c.arg_pair("--keep-since", &args.older_than).arg_if(args.dry_run, "--dry-run");
    assert(c@.args =~= gc_command(*args).args);
    let done = if args.dry_run { "Dry run complete" } else { "Garbage collection complete!" };
    let mut r: Vec<Step> = Vec::new();
    r.push(Step::Info(String::from_str(intro)));
    r.push(Step::Run(c));
    r.push(Step::Success(String::from_str(done)));
    assert(plan_view(r@) =~= gc_plan(*args));
    r
}

} // verus!
