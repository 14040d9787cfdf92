//! `store nuke`: the aggressive full cleanup.
//!
//! After a confirmation gate, the cleanup runs two full passes of four steps:
//!   1. rebuild the boot entries for the current generation only, which drops
//!      the garbage-collection roots the bootloader holds for old generations;
//!   2. delete the old generation profiles, keeping none;
//!   3. collect the store paths no longer referenced;
//!   4. deduplicate what is left by hard-linking.
//! The order matters: without step 1, step 3 cannot reclaim old generations.
//! The second pass catches paths that became unreferenced only through the
//! first. Result links, when asked for, are removed before the passes, so none
//! is left dangling. A final rebuild of the boot entries keeps the system
//! bootable. The first failing command stops everything after it; nothing is
//! retried or rolled back, and every step can safely be run again.
use vstd::prelude::*;

use crate::cli::{NukeArgs, OsArgs};
use crate::commands::os::{self, nh_os_args, os_plan, OsAction};
use crate::env::{env_extra_args, Ambient, EnvVars};
use crate::exec::{command, command_with, views, CommandRunner, CommandView};
use crate::flake::{flake_location, opt_str_view, resolve_flake_path, ConfigError};
use crate::host::resolve_host;
use crate::plan::{append_plan, commands_of, lemma_commands_of_append, plan_view, Step, StepView};
use crate::store::optimize::{optimise, optimise_command};
use crate::text::{
    cat3, decimal, decimal_string, fields, has_prefix, owned, split_fields, starts_with, str_eq, trim, trimmed,
};

verus! {

/// The number of full cleanup passes.
pub const NUKE_PASSES: u32 = 2;

/// Whether an answer to the prompt grants confirmation: it is a "y", in either
/// case, once white space around it is dropped.
pub open spec fn is_confirmation(answer: Seq<char>) -> bool {
    trimmed(answer) == seq!['y'] || trimmed(answer) == seq!['Y']
}

/// Whether an answer to the prompt grants confirmation.
pub fn confirmed(answer: &str) -> (r: bool)
    ensures
        r == is_confirmation(answer@),
{
    let t = trim(answer);
    if t.unicode_len() != 1 {
        return false;
    }
    let c = t.get_char(0);
    assert(t@ == seq![c] <==> t@ =~= seq![c]);
    c == 'y' || c == 'Y'
}

/// The warning and the question put before any cleanup.
pub open spec fn prompt_plan(args: NukeArgs) -> Seq<StepView> {
    seq![
        StepView::Warn("WARNING: This will perform aggressive cleanup:"@),
        StepView::Line("  - Rebuild bootloader entries (drop old generation GC roots)"@),
        StepView::Line("  - Remove ALL old generations (keeps only current)"@),
        StepView::Line("  - Run full garbage collection"@),
        StepView::Line("  - Optimize the store"@),
        StepView::Line("  - Run the full cycle twice to catch transitive references"@),
    ]
        + (if args.remove_results {
            seq![StepView::Line("  - Remove result symlinks in current directory"@)]
        } else {
            Seq::empty()
        })
        + (if args.skip_rebuild {
            Seq::empty()
        } else {
            seq![StepView::Line("  - Rebuild the boot entries of the current host at the end"@)]
        })
        + seq![StepView::Line(""@), StepView::Ask("Are you sure? [y/N] "@)]
}

/// Lays out the warning and the question; the answer goes to `run`.
pub fn confirmation_prompt(args: &NukeArgs) -> (r: Vec<Step>)
    ensures
        plan_view(r@) == prompt_plan(*args),
{
    let mut r: Vec<Step> = Vec::new();
    r.push(Step::Warn(String::from_str("WARNING: This will perform aggressive cleanup:")));
    r.push(Step::Line(String::from_str("  - Rebuild bootloader entries (drop old generation GC roots)")));
    r.push(Step::Line(String::from_str("  - Remove ALL old generations (keeps only current)")));
    r.push(Step::Line(String::from_str("  - Run full garbage collection")));
    r.push(Step::Line(String::from_str("  - Optimize the store")));
    r.push(Step::Line(String::from_str("  - Run the full cycle twice to catch transitive references")));
    if args.remove_results {
        r.push(Step::Line(String::from_str("  - Remove result symlinks in current directory")));
    }
    if !args.skip_rebuild {
        r.push(Step::Line(String::from_str("  - Rebuild the boot entries of the current host at the end")));
    }
    r.push(Step::Line(String::from_str("")));
    r.push(Step::Ask(String::from_str("Are you sure? [y/N] ")));
    assert(plan_view(r@) =~= prompt_plan(*args));
    r
}

/// Step 1: rebuild the boot entries of the current generation.
pub open spec fn boot_entries_command() -> CommandView {
    command_with("sudo"@, seq!["/run/current-system/bin/switch-to-configuration"@, "boot"@])
}

/// Step 2: delete the old generation profiles, keeping none.
pub open spec fn clean_generations_command() -> CommandView {
    command_with("nh"@, seq!["clean"@, "all"@, "--keep"@, "0"@])
}

/// Step 3: delete what is left of old generations and collect unreferenced paths.
pub open spec fn collect_garbage_command() -> CommandView {
    command_with("nix-collect-garbage"@, seq!["-d"@])
}

/// The title of one step of a pass.
pub open spec fn step_title(pass: nat, total: nat, what: Seq<char>) -> Seq<char> {
    "  ["@ + decimal(pass) + "/"@ + decimal(total) + "] "@ + what
}

/// One cleanup pass: each of the four steps under its title.
pub open spec fn pass_plan(pass: nat, total: nat) -> Seq<StepView> {
    seq![
        StepView::Header(step_title(pass, total, "Step 1/4: Rebuilding bootloader entries"@)),
        StepView::Run(boot_entries_command()),
        StepView::Header(step_title(pass, total, "Step 2/4: Removing old generations"@)),
        StepView::Run(clean_generations_command()),
        StepView::Header(step_title(pass, total, "Step 3/4: Garbage collecting store"@)),
        StepView::Run(collect_garbage_command()),
        StepView::Header(step_title(pass, total, "Step 4/4: Optimizing store"@)),
        StepView::Run(optimise_command()),
    ]
}

/// The commands of one pass, in order.
pub open spec fn pass_commands() -> Seq<CommandView> {
    seq![boot_entries_command(), clean_generations_command(), collect_garbage_command(), optimise_command()]
}

fn step_title_string(pass: &str, total: &str, what: &str) -> (r: String)
    ensures
        r@ == "  ["@ + pass@ + "/"@ + total@ + "] "@ + what@,
{
    cat3("  [", pass, "/").concat(total).concat("] ").concat(what)
}

/// Lays out one cleanup pass.
pub fn run_cleanup_pass(pass: u32, total: u32) -> (r: Vec<Step>)
    ensures
        plan_view(r@) == pass_plan(pass as nat, total as nat),
{
    let p = decimal_string(pass as u64);
    let t = decimal_string(total as u64);
    let mut r: Vec<Step> = Vec::new();
    r.push(Step::Header(step_title_string(p.as_str(), t.as_str(), "Step 1/4: Rebuilding bootloader entries")));
    let c = CommandRunner::new("sudo").args(&["/run/current-system/bin/switch-to-configuration", "boot"]);
    assert(c@.args =~= boot_entries_command().args);
    r.push(Step::Run(c));
    r.push(Step::Header(step_title_string(p.as_str(), t.as_str(), "Step 2/4: Removing old generations")));
    let c = CommandRunner::new("nh").args(&["clean", "all", "--keep", "0"]);
    assert(c@.args =~= clean_generations_command().args);
    r.push(Step::Run(c));
    r.push(Step::Header(step_title_string(p.as_str(), t.as_str(), "Step 3/4: Garbage collecting store")));
    let c = CommandRunner::new("nix-collect-garbage").arg("-d");
    assert(c@.args =~= collect_garbage_command().args);
    r.push(Step::Run(c));
    r.push(Step::Header(step_title_string(p.as_str(), t.as_str(), "Step 4/4: Optimizing store")));
    r.push(Step::Run(optimise()));
    assert(plan_view(r@) =~= pass_plan(pass as nat, total as nat));
    r
}

/// The commands of one pass are its four steps, in order.
pub proof fn lemma_pass_commands(pass: nat, total: nat)
    ensures
        commands_of(pass_plan(pass, total)) == pass_commands(),
{
    reveal_with_fuel(commands_of, 9);
    let p = pass_plan(pass, total);
    assert(p.drop_last().drop_last().drop_last().drop_last().drop_last().drop_last().drop_last().drop_last()
        =~= Seq::<StepView>::empty());
    assert(commands_of(p) =~= pass_commands());
}

/// `parts` without its `.` pieces.
pub open spec fn without_dots(parts: Seq<Seq<char>>) -> Seq<Seq<char>>
    decreases parts.len(),
{
    if parts.len() == 0 {
        parts
    } else {
        without_dots(parts.drop_last()) + if parts.last() == seq!['.'] {
            Seq::empty()
        } else {
            seq![parts.last()]
        }
    }
}

/// The named components of a path: the pieces between slashes, a run of
/// slashes counting as one, and `.` pieces skipped.
pub open spec fn path_parts(t: Seq<char>) -> Seq<Seq<char>> {
    without_dots(fields(t, '/'))
}

/// Whether a path lies under the store root `/nix/store`, comparing by
/// components: it is absolute and its first two components are `nix` and `store`.
pub open spec fn under_store(t: Seq<char>) -> bool {
    &&& t.len() > 0 && t[0] == '/'
    &&& path_parts(t).len() >= 2
    &&& path_parts(t)[0] == "nix"@
    &&& path_parts(t)[1] == "store"@
}

/// Whether a link in the working directory is a build result to remove: it is
/// named `result` or `result-...`, and it points under the store root.
pub open spec fn is_result_link(name: Seq<char>, target: Seq<char>) -> bool {
    (name == "result"@ || has_prefix(name, "result-"@)) && under_store(target)
}

/// Whether the path `t` lies under the store root, by components.
pub fn in_store(t: &str) -> (r: bool)
    ensures
        r == under_store(t@),
{
    if t.unicode_len() == 0 || t.get_char(0) != '/' {
        return false;
    }
    let parts = split_fields(t, '/');
    let mut named: Vec<String> = Vec::new();
    let mut i: usize = 0;
    while i < parts.len()
        invariant
            i <= parts@.len(),
            views(parts@) == fields(t@, '/'),
            views(named@) == without_dots(views(parts@).subrange(0, i as int)),
        decreases parts@.len() - i,
    {
        let p = parts[i].as_str();
        let dot = p.unicode_len() == 1 && p.get_char(0) == '.';
        proof {
            let pre = views(parts@).subrange(0, i as int);
            let next = views(parts@).subrange(0, i + 1);
            assert(next.drop_last() =~= pre);
            assert(next.last() == p@);
            assert(dot == (p@ == seq!['.'])) by {
                if p@.len() == 1 && p@[0] == '.' {
                    assert(p@ =~= seq!['.']);
                }
            }
        }
        if !dot {
            let ghost before = views(named@);
            named.push(owned(p));
            assert(views(named@) =~= before.push(p@));
        }
        assert(views(named@) =~= without_dots(views(parts@).subrange(0, i + 1)));
        i += 1;
    }
    assert(views(parts@).subrange(0, parts@.len() as int) =~= views(parts@));
    named.len() >= 2 && str_eq(named[0].as_str(), "nix") && str_eq(named[1].as_str(), "store")
}

/// Whether the link `name`, pointing at `target`, is a build result to remove.
pub fn is_removable_result_link(name: &str, target: &str) -> (r: bool)
    ensures
        r == is_result_link(name@, target@),
{
    (str_eq(name, "result") || starts_with(name, "result-")) && in_store(target)
}

/// The arguments of the final rebuild: the current host, deployed and built locally.
pub open spec fn local_boot_args() -> OsArgs {
    OsArgs {
        host: None,
        target: false,
        target_host: None,
        build_host: None,
        local: true,
        trace: false,
        substituter: None,
        key: None,
        dry_run: false,
    }
}

/// The title of the final rebuild.
pub open spec fn final_title() -> Seq<char> {
    "Final: rebuilding boot entries"@
}

/// The warning given when the final rebuild is skipped.
pub open spec fn skipped_rebuild_warning() -> Seq<char> {
    "Skipped the final rebuild: the system may not boot until it is rebuilt by hand."@
}

/// The final rebuild of the boot entries for a resolved flake and host.
pub open spec fn final_rebuild_plan(flake: Seq<char>, host: Seq<char>, env: EnvVars) -> Seq<StepView> {
    seq![StepView::Header(final_title())] + os_plan(OsAction::Boot, local_boot_args(), flake, host, env)
}

/// The removal of result links, when asked for.
pub open spec fn removal_plan(args: NukeArgs) -> Seq<StepView> {
    if args.remove_results {
        seq![StepView::Info("Removing result symlinks..."@), StepView::RemoveResultLinks]
    } else {
        Seq::empty()
    }
}

/// A cleanup pass under its title.
pub open spec fn pass_section(pass: nat) -> Seq<StepView> {
    seq![StepView::Header("Pass "@ + decimal(pass) + "/"@ + decimal(NUKE_PASSES as nat))]
        + pass_plan(pass, NUKE_PASSES as nat)
}

/// The message once everything is done.
pub open spec fn done_message() -> Seq<char> {
    "Nuke complete! Store is now clean and optimized."@
}

/// The full cleanup once confirmed, with `last` as what follows the passes.
pub open spec fn nuke_plan(args: NukeArgs, last: Seq<StepView>) -> Seq<StepView> {
    removal_plan(args) + pass_section(1) + pass_section(2) + last + seq![StepView::Success(done_message())]
}

/// The plan when the user declines.
pub open spec fn cancelled_plan() -> Seq<StepView> {
    seq![StepView::Info("Cancelled."@)]
}

/// Lays out a confirmed cleanup. `host` is the host whose boot entries the
/// final rebuild writes; it is not used when that rebuild is skipped. The
/// only failure is a missing flake location for the final rebuild.
pub fn cleanup_plan(args: &NukeArgs, host: &str, flake_path: Option<&str>, ambient: &Ambient) -> (r: Result<Vec<Step>, ConfigError>)
    ensures
        args.skip_rebuild ==> (r matches Ok(p)
            && plan_view(p@) == nuke_plan(*args, seq![StepView::Warn(skipped_rebuild_warning())])),
        !args.skip_rebuild ==> match flake_location(opt_str_view(flake_path), ambient.flake_marker, ambient.env) {
            Some(f) => r matches Ok(p) && plan_view(p@) == nuke_plan(*args, final_rebuild_plan(f, host@, ambient.env)),
            None => r == Err::<Vec<Step>, ConfigError>(ConfigError::NoFlakeFound),
        },
{
    let mut last: Vec<Step> = Vec::new();
    if args.skip_rebuild {
        last.push(Step::Warn(String::from_str("Skipped the final rebuild: the system may not boot until it is rebuilt by hand.")));
        assert(plan_view(last@) =~= seq![StepView::Warn(skipped_rebuild_warning())]);
    } else {
        let boot_args = OsArgs {
            host: None,
            target: false,
            target_host: None,
            build_host: None,
            local: true,
            trace: false,
            substituter: None,
            key: None,
            dry_run: false,
        };
        let flake = resolve_flake_path(flake_path, ambient.flake_marker, &ambient.env)?;
        last.push(Step::Header(String::from_str("Final: rebuilding boot entries")));
        let mut rebuild = os::plan(OsAction::Boot, &boot_args, flake.as_str(), host, &ambient.env);
        append_plan(&mut last, &mut rebuild);
        assert(plan_view(last@) =~= final_rebuild_plan(flake@, host@, ambient.env));
    }
    let ghost last_view = plan_view(last@);
    let mut r: Vec<Step> = Vec::new();
    if args.remove_results {
        r.push(Step::Info(String::from_str("Removing result symlinks...")));
        r.push(Step::RemoveResultLinks);
    }
    let mut pass: u32 = 1;
    while pass <= NUKE_PASSES
        invariant
            1 <= pass <= NUKE_PASSES + 1,
            plan_view(r@) == removal_plan(*args)
                + (if pass >= 2 { pass_section(1) } else { Seq::empty() })
                + (if pass >= 3 { pass_section(2) } else { Seq::empty() }),
        decreases NUKE_PASSES + 1 - pass,
    {
        let title = cat3("Pass ", decimal_string(pass as u64).as_str(), "/").concat(decimal_string(NUKE_PASSES as u64).as_str());
        r.push(Step::Header(title));
        let mut steps = run_cleanup_pass(pass, NUKE_PASSES);
        append_plan(&mut r, &mut steps);
        pass += 1;
        assert(plan_view(r@) =~= removal_plan(*args)
            + (if pass >= 2 { pass_section(1) } else { Seq::empty() })
            + (if pass >= 3 { pass_section(2) } else { Seq::empty() }));
    }
    assert(plan_view(r@) =~= removal_plan(*args) + pass_section(1) + pass_section(2));
    append_plan(&mut r, &mut last);
    r.push(Step::Success(String::from_str("Nuke complete! Store is now clean and optimized.")));
    assert(plan_view(r@) =~= nuke_plan(*args, last_view));
    Ok(r)
}

/// Runs `store nuke`. Unless `args.yes`, `answer` is the user's reply to the
/// prompt of `confirmation_prompt` (`None` if there was none): anything but a
/// "y" cancels, which is no failure and runs nothing. The final rebuild's
/// host and flake are resolved before anything runs, so a resolution failure
/// stops the cleanup before its first step.
pub fn run(args: &NukeArgs, answer: Option<&str>, flake_path: Option<&str>, ambient: &Ambient) -> (r: Result<Vec<Step>, ConfigError>)
    ensures
        ({
            let go = args.yes || (answer matches Some(a) && is_confirmation(a@));
            let flake = flake_location(opt_str_view(flake_path), ambient.flake_marker, ambient.env);
            &&& !go ==> (r matches Ok(p) && plan_view(p@) == cancelled_plan()
                && commands_of(plan_view(p@)).len() == 0)
            &&& go && args.skip_rebuild ==> (r matches Ok(p)
                && plan_view(p@) == nuke_plan(*args, seq![StepView::Warn(skipped_rebuild_warning())]))
            &&& go && !args.skip_rebuild && r is Ok ==> flake is Some && exists|host: Seq<char>|
                #[trigger] nuke_plan(*args, final_rebuild_plan(flake->0, host, ambient.env)) == plan_view(r->Ok_0@)
            &&& go && !args.skip_rebuild && flake is None ==> r is Err
            &&& r matches Err(e) ==> e == ConfigError::HostnameUnavailable
                || (e == ConfigError::NoFlakeFound && flake is None)
        }),
{
    let go = if args.yes {
        true
    } else {
        match answer {
            Some(a) => confirmed(a),
            None => false,
        }
    };
    if !go {
        let mut r: Vec<Step> = Vec::new();
        r.push(Step::Info(String::from_str("Cancelled.")));
        assert(plan_view(r@) =~= cancelled_plan());
        proof {
            reveal_with_fuel(commands_of, 2);
            assert(cancelled_plan().drop_last() =~= Seq::<StepView>::empty());
        }
        return Ok(r);
    }
    if args.skip_rebuild {
        cleanup_plan(args, "", flake_path, ambient)
    } else {
        let host = resolve_host(&None)?;
        let r = cleanup_plan(args, host.as_str(), flake_path, ambient);
        assert(r is Ok ==> nuke_plan(*args, final_rebuild_plan(
            flake_location(opt_str_view(flake_path), ambient.flake_marker, ambient.env)->0, host@, ambient.env))
            == plan_view(r->Ok_0@));
        r
    }
}

/// The command of the final rebuild: `nh os boot` for the current host, built
/// and deployed locally.
pub open spec fn final_rebuild_command(flake: Seq<char>, host: Seq<char>, env: EnvVars) -> CommandView {
    command("nh"@).push_args(nh_os_args("boot"@, flake, host, None, None, None, None, false, false, env_extra_args(env)))
}

/// A confirmed full cleanup with the final rebuild runs exactly nine commands:
/// the four steps of a pass, twice over in the same order, then the rebuild
/// of the boot entries.
pub proof fn lemma_full_nuke_runs_nine_commands(args: NukeArgs, flake: Seq<char>, host: Seq<char>, env: EnvVars)
    ensures
        commands_of(nuke_plan(args, final_rebuild_plan(flake, host, env)))
            == pass_commands() + pass_commands() + seq![final_rebuild_command(flake, host, env)],
        commands_of(nuke_plan(args, final_rebuild_plan(flake, host, env))).len() == 9,
{
    reveal_with_fuel(commands_of, 3);
    let pre = removal_plan(args);
    let first_title = seq![StepView::Header("Pass "@ + decimal(1) + "/"@ + decimal(2))];
    let second_title = seq![StepView::Header("Pass "@ + decimal(2) + "/"@ + decimal(2))];
    let last = final_rebuild_plan(flake, host, env);
    let done = seq![StepView::Success(done_message())];
    assert(commands_of(pre) =~= Seq::<CommandView>::empty()) by {
        if args.remove_results {
            assert(pre.drop_last().drop_last() =~= Seq::<StepView>::empty());
        }
    }
    assert(first_title.drop_last() =~= Seq::<StepView>::empty());
    assert(second_title.drop_last() =~= Seq::<StepView>::empty());
    assert(done.drop_last() =~= Seq::<StepView>::empty());
    assert(commands_of(first_title) =~= Seq::<CommandView>::empty());
    assert(commands_of(second_title) =~= Seq::<CommandView>::empty());
    assert(commands_of(done) =~= Seq::<CommandView>::empty());
    lemma_pass_commands(1, 2);
    lemma_pass_commands(2, 2);
    let cmd = final_rebuild_command(flake, host, env);
    let os = os_plan(OsAction::Boot, local_boot_args(), flake, host, env);
    let head = seq![StepView::Header(final_title()), os[0]];
    let tail = seq![StepView::Run(cmd), os[2]];
    assert(os =~= seq![os[0]] + seq![StepView::Run(cmd), os[2]]);
    assert(last =~= head + tail);
    assert(head.drop_last().drop_last() =~= Seq::<StepView>::empty());
    assert(tail.drop_last().drop_last() =~= Seq::<StepView>::empty());
    assert(tail.drop_last() =~= seq![StepView::Run(cmd)]);
    assert(commands_of(head) =~= Seq::<CommandView>::empty());
    assert(commands_of(tail) =~= seq![cmd]);
    lemma_commands_of_append(head, tail);
    let p = nuke_plan(args, last);
    assert(p =~= pre + first_title + pass_plan(1, 2) + second_title + pass_plan(2, 2) + last + done);
    lemma_commands_of_append(pre, first_title);
    lemma_commands_of_append(pre + first_title, pass_plan(1, 2));
    lemma_commands_of_append(pre + first_title + pass_plan(1, 2), second_title);
    lemma_commands_of_append(pre + first_title + pass_plan(1, 2) + second_title, pass_plan(2, 2));
    lemma_commands_of_append(pre + first_title + pass_plan(1, 2) + second_title + pass_plan(2, 2), last);
    lemma_commands_of_append(pre + first_title + pass_plan(1, 2) + second_title + pass_plan(2, 2) + last, done);
    assert(commands_of(p) =~= pass_commands() + pass_commands() + seq![cmd]);
}

} // verus!
