use bonk::cli::{BuildArgs, GcArgs, InfoArgs, NukeArgs, OptimizeArgs, OsArgs, RebuildArgs, RepairArgs, TryArgs, UpdateArgs};
use bonk::commands::os::OsAction;
use bonk::env::{Ambient, EnvVars};
use bonk::exec::{CommandRunner, ExecError};
use bonk::plan::{Execution, Step, StepFailure};
use bonk::store::info::{is_generation_link, StoreCounts};
use bonk::store::nuke::{confirmed, is_removable_result_link};
use bonk::text::count_lines;

fn commands(p: &[Step]) -> Vec<String> {
    p.iter()
        .filter_map(|s| match s {
            Step::Run(c) => Some(c.command_string()),
            _ => None,
        })
        .collect()
}

fn texts(p: &[Step]) -> Vec<String> {
    p.iter()
        .filter_map(|s| match s {
            Step::Info(t) | Step::Status(t) | Step::Success(t) | Step::Warn(t) | Step::Header(t) | Step::Line(t) | Step::Ask(t) => Some(t.clone()),
            _ => None,
        })
        .collect()
}

fn ambient(extra: Option<&str>, build_host: Option<&str>) -> Ambient {
    Ambient {
        env: EnvVars {
            bonk_flake_path: Some("/etc/nixos".to_string()),
            flake: None,
            bonk_build_host: build_host.map(String::from),
            bonk_extra_args: extra.map(String::from),
        },
        flake_marker: false,
    }
}

#[test]
fn switch_full_command_line() {
    let args = OsArgs {
        host: Some("zebes".to_string()),
        target: true,
        substituter: Some("https://cache.example.com".to_string()),
        key: Some("key:AAAA...".to_string()),
        trace: true,
        dry_run: true,
        ..OsArgs::default()
    };
    let p = bonk::commands::os::run(OsAction::Switch, &args, None, &ambient(Some("--impure"), Some("bh"))).unwrap();
    assert_eq!(
        commands(&p),
        vec!["nh os switch /etc/nixos -H zebes --target-host zebes --build-host bh --extra-substituters https://cache.example.com --extra-trusted-public-keys key:AAAA... --show-trace --dry-run -- --impure"]
    );
    let t = texts(&p);
    assert_eq!(t[0], "Rebuilding configuration for host: zebes (switch)");
    assert_eq!(t[1], "Deploying to target host: zebes");
    assert_eq!(t[2], "Building on remote host: bh");
    assert_eq!(t[3], "Dry run complete (switch)");
}

#[test]
fn boot_local_ignores_environment_build_host() {
    let args = OsArgs { host: Some("rune".to_string()), local: true, ..OsArgs::default() };
    let p = bonk::commands::os::run(OsAction::Boot, &args, Some("/f"), &ambient(None, Some("bh"))).unwrap();
    assert_eq!(commands(&p), vec!["nh os boot /f -H rune"]);
    assert_eq!(texts(&p).last().unwrap(), "Rebuild complete! (boot)");
}

#[test]
fn rebuild_plan_uses_switch() {
    let args = RebuildArgs { host: Some("rune".to_string()), build_host: Some("b".to_string()), ..RebuildArgs::default() };
    let p = bonk::commands::rebuild::run(&args, None, &ambient(None, None)).unwrap();
    assert_eq!(commands(&p), vec!["nh os switch /etc/nixos -H rune --build-host b"]);
}

#[test]
fn build_plan_variants() {
    let args = BuildArgs { target: Some(".#pkg".to_string()), no_link: true, out_link: Some("o".to_string()), ..BuildArgs::default() };
    let p = bonk::commands::nix_build::run(&args, None, &Ambient::default()).unwrap();
    assert_eq!(commands(&p), vec!["nix build .#pkg --no-link"]);
    let args = BuildArgs { out_link: Some("my-result".to_string()), trace: true, dry_run: true, ..BuildArgs::default() };
    let p = bonk::commands::nix_build::run(&args, Some("/f"), &Ambient::default()).unwrap();
    assert_eq!(commands(&p), vec!["nix build /f -o my-result --show-trace --dry-run"]);
    assert_eq!(texts(&p), vec!["Building: /f", "Dry run complete"]);
}

#[test]
fn try_plan_installables() {
    let args = TryArgs {
        packages: vec!["ripgrep".to_string(), ".#local".to_string(), "github:a/b#c".to_string(), "/p".to_string()],
        cmd: vec!["rg".to_string(), "--version".to_string()],
        pure: true,
    };
    let p = bonk::commands::try_pkg::run(&args);
    assert_eq!(commands(&p), vec!["nix shell nixpkgs#ripgrep .#local github:a/b#c /p --ignore-environment --command rg --version"]);
    assert_eq!(texts(&p), vec!["Starting shell with: ripgrep, .#local, github:a/b#c, /p"]);
}

#[test]
fn update_plan() {
    let args = UpdateArgs { inputs: vec!["nixpkgs".to_string(), "home-manager".to_string()], commit: true };
    let p = bonk::commands::update::run(&args, Some("."), &Ambient::default()).unwrap();
    assert_eq!(commands(&p), vec!["nix flake update --flake . nixpkgs home-manager --commit-lock-file"]);
    assert_eq!(texts(&p)[0], "Updating inputs: nixpkgs, home-manager");
    let p = bonk::commands::update::run(&UpdateArgs::default(), None, &Ambient { flake_marker: true, ..Ambient::default() }).unwrap();
    assert_eq!(commands(&p), vec!["nix flake update --flake ."]);
    assert_eq!(texts(&p)[0], "Updating all flake inputs...");
}

#[test]
fn gc_plan() {
    let args = GcArgs { older_than: Some("7d".to_string()), keep: 12, dry_run: true };
    let p = bonk::store::gc::run(&args);
    assert_eq!(commands(&p), vec!["nh clean all --keep 12 --keep-since 7d --dry-run"]);
    let args = GcArgs { older_than: None, keep: 0, dry_run: false };
    assert_eq!(commands(&bonk::store::gc::run(&args)), vec!["nh clean all --keep 0"]);
}

#[test]
fn optimize_dry_run_never_runs_optimizer() {
    let p = bonk::store::optimize::run(&OptimizeArgs { dry_run: true });
    assert_eq!(commands(&p), vec!["du -sh /nix/store"]);
    assert!(texts(&p).iter().any(|t| t.contains("does not support dry-run")));
    let p = bonk::store::optimize::run(&OptimizeArgs { dry_run: false });
    assert_eq!(commands(&p), vec!["nix store optimise"]);
}

#[test]
fn repair_plans() {
    let p = bonk::store::repair::run(&RepairArgs { paths: vec![], check_only: true });
    assert_eq!(commands(&p), vec!["nix store verify --all"]);
    let p = bonk::store::repair::run(&RepairArgs { paths: vec!["/nix/store/a".to_string()], check_only: false });
    assert_eq!(commands(&p), vec!["nix store repair /nix/store/a"]);
}

#[test]
fn nuke_declined_runs_nothing() {
    let args = NukeArgs::default();
    for answer in ["", "yes", "N", "n", " no ", "yy"] {
        let p = bonk::store::nuke::run(&args, Some(answer), None, &Ambient::default()).unwrap();
        assert!(commands(&p).is_empty());
        assert_eq!(texts(&p), vec!["Cancelled."]);
    }
    let p = bonk::store::nuke::run(&args, None, None, &Ambient::default()).unwrap();
    assert!(commands(&p).is_empty());
}

#[test]
fn nuke_confirmation_answers() {
    assert!(confirmed("y"));
    assert!(confirmed("Y\n"));
    assert!(confirmed("  y \t"));
    assert!(!confirmed(""));
    assert!(!confirmed("yes"));
    assert!(!confirmed("N"));
}

#[test]
fn nuke_full_run_has_nine_commands_in_order() {
    let args = NukeArgs { yes: false, remove_results: false, skip_rebuild: false };
    let amb = Ambient { flake_marker: true, ..Ambient::default() };
    let p = bonk::store::nuke::run(&args, Some("y\n"), None, &amb).unwrap();
    let c = commands(&p);
    assert_eq!(c.len(), 9);
    let pass = [
        "sudo /run/current-system/bin/switch-to-configuration boot",
        "nh clean all --keep 0",
        "nix-collect-garbage -d",
        "nix store optimise",
    ];
    for k in 0..8 {
        assert_eq!(c[k], pass[k % 4]);
    }
    assert!(c[8].starts_with("nh os boot . -H "));
    let t = texts(&p);
    assert!(t.contains(&"Pass 1/2".to_string()));
    assert!(t.contains(&"  [2/2] Step 3/4: Garbage collecting store".to_string()));
}

#[test]
fn nuke_skip_rebuild_warns_and_removes_links_first() {
    let args = NukeArgs { yes: true, remove_results: true, skip_rebuild: true };
    let p = bonk::store::nuke::run(&args, None, None, &Ambient::default()).unwrap();
    assert_eq!(commands(&p).len(), 8);
    assert!(matches!(p[1], Step::RemoveResultLinks));
    assert!(texts(&p).iter().any(|t| t.contains("may not boot")));
}

#[test]
fn nuke_prompt_lists_effects() {
    let p = bonk::store::nuke::confirmation_prompt(&NukeArgs { yes: false, remove_results: true, skip_rebuild: false });
    assert!(matches!(p.last(), Some(Step::Ask(q)) if q == "Are you sure? [y/N] "));
    assert!(texts(&p).iter().any(|t| t.contains("Remove result symlinks")));
}

#[test]
fn result_link_selection() {
    assert!(!is_removable_result_link("result-foo", "/home/u/elsewhere"));
    assert!(is_removable_result_link("result", "/nix/store/abc-hello"));
    assert!(!is_removable_result_link("other", "/nix/store/abc-hello"));
    assert!(is_removable_result_link("result-dev", "/nix/store/xyz"));
    assert!(!is_removable_result_link("result", "/nix/store-other/x"));
    assert!(!is_removable_result_link("results", "/nix/store/x"));
}

#[test]
fn info_plan_marks_unknown_counts() {
    let counts = StoreCounts {
        store_paths: Some(1234),
        system_generations: None,
        user_generations: Some(0),
        live_paths: Some(10),
        dead_paths: None,
    };
    let p = bonk::store::info::run(&InfoArgs { detailed: true }, &counts);
    assert_eq!(commands(&p), vec!["du -sh /nix/store"]);
    let t = texts(&p);
    assert!(t.contains(&"  1234 paths".to_string()));
    assert!(t.contains(&"  (could not determine)".to_string()));
    assert!(t.contains(&"  0 user profile generations".to_string()));
    assert!(t.contains(&"  10 live paths".to_string()));
    assert!(t.contains(&"  ?".to_string()));
}

#[test]
fn generation_names_and_line_counts() {
    assert!(is_generation_link("system-42-link"));
    assert!(!is_generation_link("system-42"));
    assert!(!is_generation_link("default-1-link"));
    assert_eq!(count_lines(""), 0);
    assert_eq!(count_lines("a\nb\n"), 2);
    assert_eq!(count_lines("a\nb"), 2);
    assert_eq!(count_lines("\n\n"), 2);
}

#[test]
fn result_links_by_path_components() {
    assert!(is_removable_result_link("result", "/nix//store/abc-pkg"));
    assert!(is_removable_result_link("result", "/nix/./store/abc-pkg"));
    assert!(is_removable_result_link("result-bin", "/nix/store"));
    assert!(is_removable_result_link("result", "//nix/store/"));
    assert!(!is_removable_result_link("result", "nix/store/abc"));
    assert!(!is_removable_result_link("result", "/nix/stor/abc"));
    assert!(!is_removable_result_link("result", "/nix"));
    assert!(!is_removable_result_link("result", ""));
}

#[test]
fn execution_stops_at_first_failure() {
    let plan = vec![
        Step::Header("Pass 1/2".to_string()),
        Step::Run(CommandRunner::new("a")),
        Step::Header("  [1/2] Step 2/4: Removing old generations".to_string()),
        Step::Run(CommandRunner::new("b")),
        Step::Run(CommandRunner::new("c")),
        Step::Success("done".to_string()),
    ];
    let mut run = Execution::start(plan);
    let mut ran = Vec::new();
    while let Some(step) = run.next() {
        if let Step::Run(cmd) = step {
            let failed = cmd.program == "b";
            ran.push(cmd.program.clone());
            run.record(if failed {
                Err(ExecError::NonZeroExit { code: Some(1), stderr: None })
            } else {
                Ok(())
            });
        }
    }
    assert_eq!(ran, vec!["a", "b"]);
    assert!(run.next().is_none());
    assert_eq!(
        run.finish(),
        Err(StepFailure {
            section: Some("  [1/2] Step 2/4: Removing old generations".to_string()),
            error: ExecError::NonZeroExit { code: Some(1), stderr: None },
        })
    );
}

#[test]
fn execution_runs_everything_when_all_succeed() {
    let p = bonk::store::gc::run(&GcArgs { older_than: None, keep: 3, dry_run: false });
    let mut run = Execution::start(p);
    let mut n = 0;
    while let Some(step) = run.next() {
        if let Step::Run(_) = step {
            n += 1;
            run.record(Ok(()));
        }
    }
    assert_eq!(n, 1);
    assert_eq!(run.finish(), Ok(()));
}

#[test]
fn confirmed_cleanup_plan_with_known_host() {
    let args = NukeArgs { yes: true, remove_results: false, skip_rebuild: false };
    let p = bonk::store::nuke::cleanup_plan(&args, "zebes", Some("/f"), &Ambient::default()).unwrap();
    let c = commands(&p);
    assert_eq!(c.len(), 9);
    assert_eq!(c[8], "nh os boot /f -H zebes");
    assert_eq!(
        bonk::store::nuke::cleanup_plan(&args, "zebes", None, &Ambient::default()).err(),
        Some(bonk::flake::ConfigError::NoFlakeFound)
    );
}
