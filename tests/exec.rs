use bonk::exec::{CommandRunner, ExecError, ProcessOutcome};

#[test]
fn test_command_string() {
    let runner = CommandRunner::new("nh")
        .args(&["os", "switch", "."])
        .arg("-H")
        .arg("rune");
    assert_eq!(runner.command_string(), "nh os switch . -H rune");
}

#[test]
fn test_args_if_true() {
    let runner = CommandRunner::new("test").args_if(true, &["--flag"]);
    assert_eq!(runner.args, vec!["--flag"]);
}

#[test]
fn test_args_if_false() {
    let runner = CommandRunner::new("test").args_if(false, &["--flag"]);
    assert!(runner.args.is_empty());
}

#[test]
fn arg_if_true_appends_in_place() {
    let r = CommandRunner::new("nix")
        .arg("build")
        .arg_if(true, "--show-trace")
        .arg("x")
        .arg_if(true, "--dry-run");
    assert_eq!(r.args, vec!["build", "--show-trace", "x", "--dry-run"]);
}

#[test]
fn arg_if_false_is_noop() {
    let with = CommandRunner::new("nix").arg("a").arg_if(false, "--x").arg("b");
    let without = CommandRunner::new("nix").arg("a").arg("b");
    assert_eq!(with.args, without.args);
    assert_eq!(with.command_string(), "nix a b");
}

#[test]
fn new_runner_defaults() {
    let r = CommandRunner::new("du");
    assert_eq!(r.program, "du");
    assert!(r.args.is_empty());
    assert!(r.show_command);
    assert!(r.inherit_stdio);
    let r = r.show_command(false).inherit_stdio(false);
    assert!(!r.show_command);
    assert!(!r.inherit_stdio);
    assert_eq!(r.command_string(), "du");
}

#[test]
fn arg_pair_only_with_value() {
    let r = CommandRunner::new("nh")
        .arg_pair("--build-host", &Some("b".to_string()))
        .arg_pair("--target-host", &None);
    assert_eq!(r.args, vec!["--build-host", "b"]);
}

#[test]
fn run_settles_exit_status() {
    assert_eq!(CommandRunner::new("true").run(ProcessOutcome::Exited(0)), Ok(()));
    assert_eq!(
        CommandRunner::new("false").run(ProcessOutcome::Exited(1)),
        Err(ExecError::NonZeroExit { code: Some(1), stderr: None })
    );
    assert_eq!(
        CommandRunner::new("x").run(ProcessOutcome::Killed),
        Err(ExecError::NonZeroExit { code: None, stderr: None })
    );
    assert_eq!(
        CommandRunner::new("nope").run(ProcessOutcome::NotStarted),
        Err(ExecError::SpawnFailed { program: "nope".to_string() })
    );
}

#[test]
fn run_output_settles_captured_output() {
    let ok = CommandRunner::new("x").run_output(
        ProcessOutcome::Exited(0),
        Some("out\n".to_string()),
        Some(String::new()),
        "",
    );
    assert_eq!(ok, Ok(("out\n".to_string(), String::new())));
    let bad = CommandRunner::new("x").run_output(ProcessOutcome::Exited(0), None, Some(String::new()), "");
    assert_eq!(bad, Err(ExecError::InvalidOutputEncoding));
    let failed = CommandRunner::new("x").run_output(ProcessOutcome::Exited(2), None, None, "  boom \n");
    assert_eq!(
        failed,
        Err(ExecError::NonZeroExit { code: Some(2), stderr: Some("boom".to_string()) })
    );
}
