//! `store info`: store statistics.
//!
//! The counts come from listing directories and from the output of
//! `nix-store`; the caller gathers them. A count that could not be had is shown
//! as unknown, never as zero, so that "none" and "unreadable" stay apart.
use vstd::prelude::*;

use crate::cli::InfoArgs;
use crate::exec::{command_with, CommandRunner, CommandView};
use crate::plan::{plan_view, Step, StepView};
use crate::store::optimize::{size_command, store_size_command};
use crate::text::{cat3, decimal, decimal_string, ends_with, has_prefix, has_suffix, starts_with};

verus! {

/// Whether a profile entry is a system generation: `system-<n>-link`.
pub open spec fn is_generation_name(name: Seq<char>) -> bool {
    has_prefix(name, "system-"@) && has_suffix(name, "-link"@)
}

/// Whether a profile entry is a system generation.
pub fn is_generation_link(name: &str) -> (r: bool)
    ensures
        r == is_generation_name(name@),
{
    starts_with(name, "system-") && ends_with(name, "-link")
}

/// The counts that `store info` shows; `None` where they could not be had.
#[derive(Debug, Default)]
pub struct StoreCounts {
    /// Entries at the top of the store.
    pub store_paths: Option<usize>,
    /// System generation links among the profiles.
    pub system_generations: Option<usize>,
    /// Entries of the per-user profile directories, all users together.
    pub user_generations: Option<usize>,
    /// Live store paths (detailed only).
    pub live_paths: Option<usize>,
    /// Dead store paths (detailed only).
    pub dead_paths: Option<usize>,
}

/// A count with what it counts, or an unknown marker.
pub open spec fn count_text(n: Option<usize>, noun: Seq<char>, unknown: Seq<char>) -> Seq<char> {
    match n {
        Some(k) => "  "@ + decimal(k as nat) + " "@ + noun,
        None => unknown,
    }
}

fn count_string(n: Option<usize>, noun: &str, unknown: &str) -> (r: String)
    ensures
        r@ == count_text(n, noun@, unknown@),
{
    match n {
        Some(k) => cat3("  ", decimal_string(k as u64).as_str(), " ").concat(noun),
        None => String::from_str(unknown),
    }
}

/// `nix-store --gc <flag>`, quiet and captured: one store path per line.
pub open spec fn gc_listing(flag: Seq<char>) -> CommandView {
    CommandView { show: false, inherit: false, ..command_with("nix-store"@, seq!["--gc"@, flag]) }
}

/// The command that lists the live store paths, one per line.
pub fn live_paths_command() -> (r: CommandRunner)
    ensures
        r@ == gc_listing("--print-live"@),
{
    let r = CommandRunner::new("nix-store").args(&["--gc", "--print-live"]).show_command(false).inherit_stdio(false);
    assert(r@.args =~= gc_listing("--print-live"@).args);
    r
}

/// The command that lists the dead store paths, one per line.
pub fn dead_paths_command() -> (r: CommandRunner)
    ensures
        r@ == gc_listing("--print-dead"@),
{
    let r = CommandRunner::new("nix-store").args(&["--gc", "--print-dead"]).show_command(false).inherit_stdio(false);
    assert(r@.args =~= gc_listing("--print-dead"@).args);
    r
}

/// The plan of `store info` for the counts gathered.
pub open spec fn info_plan(args: InfoArgs, c: StoreCounts) -> Seq<StepView> {
    seq![
        StepView::Header("Nix Store Information"@),
        StepView::Info("Store size:"@),
        StepView::Run(store_size_command()),
        StepView::Info("Store path count:"@),
        StepView::Line(count_text(c.store_paths, "paths"@, "  (could not determine)"@)),
        StepView::Line(""@),
        StepView::Info("System generations:"@),
        StepView::Line(count_text(c.system_generations, "system generations"@, "  (could not determine)"@)),
        StepView::Line(count_text(c.user_generations, "user profile generations"@, "  (could not determine)"@)),
    ] + if args.detailed {
        seq![
            StepView::Line(""@),
            StepView::Info("Detailed breakdown (this may take a while)..."@),
            StepView::Line(""@),
            StepView::Status("Live paths:"@),
            StepView::Line(count_text(c.live_paths, "live paths"@, "  ?"@)),
            StepView::Status("Dead paths (can be garbage collected):"@),
            StepView::Line(count_text(c.dead_paths, "dead paths"@, "  ?"@)),
        ]
    } else {
        Seq::empty()
    }
}

/// Lays out `store info` for the counts gathered.
pub fn run(args: &InfoArgs, counts: &StoreCounts) -> (r: Vec<Step>)
    ensures
        plan_view(r@) == info_plan(*args, *counts),
{
    let mut r: Vec<Step> = Vec::new();
    r.push(Step::Header(String::from_str("Nix Store Information")));
    r.push(Step::Info(String::from_str("Store size:")));
    r.push(Step::Run(size_command()));
    r.push(Step::Info(String::from_str("Store path count:")));
    r.push(Step::Line(count_string(counts.store_paths, "paths", "  (could not determine)")));
    r.push(Step::Line(String::from_str("")));
    r.push(Step::Info(String::from_str("System generations:")));
    r.push(Step::Line(count_string(counts.system_generations, "system generations", "  (could not determine)")));
    r.push(Step::Line(count_string(counts.user_generations, "user profile generations", "  (could not determine)")));
    if args.detailed {
        r.push(Step::Line(String::from_str("")));
        r.push(Step::Info(String::from_str("Detailed breakdown (this may take a while)...")));
        r.push(Step::Line(String::from_str("")));
        r.push(Step::Status(String::from_str("Live paths:")));
        r.push(Step::Line(count_string(counts.live_paths, "live paths", "  ?")));
        r.push(Step::Status(String::from_str("Dead paths (can be garbage collected):")));
        r.push(Step::Line(count_string(counts.dead_paths, "dead paths", "  ?")));
    }
    assert(plan_view(r@) =~= info_plan(*args, *counts));
    r
}

} // verus!
