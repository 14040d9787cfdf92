//! `try`: a temporary shell with packages, through `nix shell`.
use vstd::prelude::*;

use crate::cli::TryArgs;
use crate::commands::os::flag_if;
use crate::exec::{command, views, CommandRunner, CommandView};
use crate::plan::{plan_view, Step, StepView};
use crate::text::{cat, has_char, has_prefix, join_words, joined_with, owned, starts_with};

verus! {

/// The installable for a package: a flake reference or a path as given, a
/// bare name from nixpkgs.
pub open spec fn installable(pkg: Seq<char>) -> Seq<char> {
    if pkg.contains('#') || has_prefix(pkg, "."@) || has_prefix(pkg, "/"@) {
        pkg
    } else {
        "nixpkgs#"@ + pkg
    }
}

/// The installable for a package.
pub fn to_installable(pkg: &str) -> (r: String)
    ensures
        r@ == installable(pkg@),
{
    if has_char(pkg, '#') || starts_with(pkg, ".") || starts_with(pkg, "/") {
        owned(pkg)
    } else {
        cat("nixpkgs#", pkg)
    }
}

/// The command to run in the shell: `--command` and its words, or nothing.
pub open spec fn shell_command(cmd: Seq<Seq<char>>) -> Seq<Seq<char>> {
    if cmd.len() == 0 { Seq::empty() } else { seq!["--command"@] + cmd }
}

/// The `nix shell` command for `try`.
pub open spec fn try_command(args: TryArgs) -> CommandView {
    command("nix"@).push_args(
        seq!["shell"@]
            + views(args.packages@).map_values(|p: Seq<char>| installable(p))
            + flag_if(args.pure, "--ignore-environment"@)
            + shell_command(views(args.cmd@)),
    )
}

/// The plan of `try`.
pub open spec fn try_plan(args: TryArgs) -> Seq<StepView> {
    seq![
        StepView::Info("Starting shell with: "@ + joined_with(views(args.packages@), ", "@)),
        StepView::Run(try_command(args)),
    ]
}

/// Lays out `try`.
pub fn run(args: &TryArgs) -> (r: Vec<Step>)
    ensures
        plan_view(r@) == try_plan(*args),
{
    let mut c = CommandRunner::new("nix").arg("shell");
    let ghost base = c@;
    let mut i: usize = 0;
    while i < args.packages.len()
        invariant
            i <= args.packages@.len(),
            c@ == base.push_args(views(args.packages@.subrange(0, i as int)).map_values(|p: Seq<char>| installable(p))),
        decreases args.packages@.len() - i,
    {
        let inst = to_installable(args.packages[i].as_str());
        c = c.arg(inst.as_str());
        assert(views(args.packages@.subrange(0, i + 1)).map_values(|p: Seq<char>| installable(p)) =~=
            views(args.packages@.subrange(0, i as int)).map_values(|p: Seq<char>| installable(p)).push(inst@));
        i += 1;
    }
    assert(args.packages@.subrange(0, args.packages@.len() as int) =~= args.packages@);
    c = c.arg_if(args.pure, "--ignore-environment");
    if args.cmd.len() > 0 {
        c = c.arg("--command").args_owned(&args.cmd);
    }
    assert(c@.args =~= try_command(*args).args);
    let mut r: Vec<Step> = Vec::new();
    r.push(Step::Info(cat("Starting shell with: ", join_words(&args.packages, ", ").as_str())));
    r.push(Step::Run(c));
    assert(plan_view(r@) =~= try_plan(*args));
    r
}

} // verus!
