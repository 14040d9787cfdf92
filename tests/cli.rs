use bonk::cli::{BuildArgs, Cli, Commands, OsArgs, StoreCommands, TryArgs, UpdateArgs};
use bonk::parse::ParseError;

fn parse_under(sub: &str, args: &[&str]) -> Commands {
    let mut full = vec!["test", sub];
    full.extend(args);
    Cli::try_parse_from(&full).unwrap().command
}

fn parse_os(args: &[&str]) -> OsArgs {
    match parse_under("switch", args) {
        Commands::Switch(a) => a,
        _ => panic!("expected switch"),
    }
}

fn parse_build(args: &[&str]) -> BuildArgs {
    match parse_under("build", args) {
        Commands::Build(a) => a,
        _ => panic!("expected build"),
    }
}

fn parse_try(args: &[&str]) -> TryArgs {
    match parse_under("try", args) {
        Commands::Try(a) => a,
        _ => panic!("expected try"),
    }
}

fn parse_update(args: &[&str]) -> UpdateArgs {
    match parse_under("update", args) {
        Commands::Update(a) => a,
        _ => panic!("expected update"),
    }
}

fn parse_store(args: &[&str]) -> StoreCommands {
    match parse_under("store", args) {
        Commands::Store { command } => command,
        _ => panic!("expected store"),
    }
}

#[test]
fn test_cli_parsing_switch() {
    let cli = Cli::try_parse_from(&["bonk", "switch"]).unwrap();
    assert!(matches!(cli.command, Commands::Switch(_)));
}

#[test]
fn test_cli_parsing_switch_alias() {
    let cli = Cli::try_parse_from(&["bonk", "s"]).unwrap();
    assert!(matches!(cli.command, Commands::Switch(_)));
}

#[test]
fn test_cli_parsing_boot() {
    let cli = Cli::try_parse_from(&["bonk", "boot"]).unwrap();
    assert!(matches!(cli.command, Commands::Boot(_)));
}

#[test]
fn test_cli_parsing_with_flake_path() {
    let cli = Cli::try_parse_from(&["bonk", "-p", "/path/to/flake", "switch"]).unwrap();
    assert_eq!(cli.flake_path, Some("/path/to/flake".to_string()));
}

#[test]
fn test_cli_parsing_verbose() {
    let cli = Cli::try_parse_from(&["bonk", "-v", "switch"]).unwrap();
    assert!(cli.verbose);
}

#[test]
fn test_cli_parsing_store_gc() {
    let cli = Cli::try_parse_from(&["bonk", "store", "gc"]).unwrap();
    assert!(matches!(
        cli.command,
        Commands::Store {
            command: StoreCommands::Gc(_)
        }
    ));
}

#[test]
fn test_gc_default() {
    match parse_store(&["gc"]) {
        StoreCommands::Gc(args) => {
            assert!(args.older_than.is_none());
            assert_eq!(args.keep, 3);
            assert!(!args.dry_run);
        }
        _ => panic!("expected gc"),
    }
}

#[test]
fn test_gc_with_older_than() {
    match parse_store(&["gc", "--older-than", "7d"]) {
        StoreCommands::Gc(args) => assert_eq!(args.older_than, Some("7d".to_string())),
        _ => panic!("expected gc"),
    }
}

#[test]
fn test_gc_alias_clean() {
    assert!(matches!(parse_store(&["clean"]), StoreCommands::Gc(_)));
}

#[test]
fn test_optimize() {
    assert!(matches!(parse_store(&["optimize"]), StoreCommands::Optimize(_)));
}

#[test]
fn test_repair_check_only() {
    match parse_store(&["repair", "--check-only"]) {
        StoreCommands::Repair(args) => assert!(args.check_only),
        _ => panic!("expected repair"),
    }
}

#[test]
fn test_nuke_with_yes() {
    match parse_store(&["nuke", "-y"]) {
        StoreCommands::Nuke(args) => assert!(args.yes),
        _ => panic!("expected nuke"),
    }
}

#[test]
fn test_info() {
    assert!(matches!(parse_store(&["info"]), StoreCommands::Info(_)));
}

#[test]
fn build_test_default_args() {
    let args = parse_build(&[]);
    assert!(args.target.is_none());
    assert!(!args.no_link);
    assert!(args.out_link.is_none());
    assert!(!args.trace);
    assert!(!args.dry_run);
}

#[test]
fn test_target() {
    assert_eq!(parse_build(&[".#pkg"]).target, Some(".#pkg".to_string()));
}

#[test]
fn test_no_link() {
    assert!(parse_build(&["--no-link"]).no_link);
}

#[test]
fn test_out_link() {
    assert_eq!(
        parse_build(&["-o", "my-result"]).out_link,
        Some("my-result".to_string())
    );
}

#[test]
fn test_trace() {
    assert!(parse_build(&["-t"]).trace);
}

#[test]
fn os_test_default_args() {
    let args = parse_os(&[]);
    assert!(args.host.is_none());
    assert!(!args.target);
    assert!(args.target_host.is_none());
    assert!(args.build_host.is_none());
    assert!(!args.local);
    assert!(!args.trace);
    assert!(!args.dry_run);
}

#[test]
fn os_test_host_flag() {
    let args = parse_os(&["-H", "rune"]);
    assert_eq!(args.host, Some("rune".to_string()));
}

#[test]
fn test_combined_target_host() {
    let args = parse_os(&["-TH", "zebes"]);
    assert!(args.target);
    assert_eq!(args.host, Some("zebes".to_string()));
}

#[test]
fn test_target_flag_alone() {
    let args = parse_os(&["-T"]);
    assert!(args.target);
    assert!(args.host.is_none());
}

#[test]
fn test_target_host_long() {
    let args = parse_os(&["--target-host", "root@192.168.1.50"]);
    assert_eq!(args.target_host, Some("root@192.168.1.50".to_string()));
    assert!(!args.target);
}

#[test]
fn os_test_build_host_flag() {
    let args = parse_os(&["-B", "buildserver"]);
    assert_eq!(args.build_host, Some("buildserver".to_string()));
}

#[test]
fn os_test_local_flag() {
    assert!(parse_os(&["--local"]).local);
}

#[test]
fn os_test_trace_flag() {
    assert!(parse_os(&["-t"]).trace);
}

#[test]
fn os_test_substituter_and_key() {
    let args = parse_os(&["-s", "https://cache.example.com", "-k", "key:AAAA..."]);
    assert_eq!(
        args.substituter,
        Some("https://cache.example.com".to_string())
    );
    assert_eq!(args.key, Some("key:AAAA...".to_string()));
}

#[test]
fn os_test_dry_run_flag() {
    assert!(parse_os(&["-n"]).dry_run);
}

#[test]
fn test_single_package() {
    let args = parse_try(&["ripgrep"]);
    assert_eq!(args.packages, vec!["ripgrep"]);
    assert!(args.cmd.is_empty());
    assert!(!args.pure);
}

#[test]
fn test_multiple_packages() {
    assert_eq!(
        parse_try(&["ripgrep", "fd", "bat"]).packages,
        vec!["ripgrep", "fd", "bat"]
    );
}

#[test]
fn test_with_command() {
    let args = parse_try(&["cowsay", "--", "cowsay", "moo"]);
    assert_eq!(args.packages, vec!["cowsay"]);
    assert_eq!(args.cmd, vec!["cowsay", "moo"]);
}

#[test]
fn test_pure_flag() {
    assert!(parse_try(&["python3", "--pure"]).pure);
}

#[test]
fn test_pure_with_command() {
    let args = parse_try(&["python3", "--pure", "--", "python", "-c", "print('hi')"]);
    assert_eq!(args.packages, vec!["python3"]);
    assert!(args.pure);
    assert_eq!(args.cmd, vec!["python", "-c", "print('hi')"]);
}

#[test]
fn update_test_default_args() {
    let args = parse_update(&[]);
    assert!(args.inputs.is_empty());
    assert!(!args.commit);
}

#[test]
fn test_single_input() {
    assert_eq!(parse_update(&["nixpkgs"]).inputs, vec!["nixpkgs"]);
}

#[test]
fn test_multiple_inputs() {
    assert_eq!(
        parse_update(&["nixpkgs", "home-manager"]).inputs,
        vec!["nixpkgs", "home-manager"]
    );
}

#[test]
fn test_commit_flag() {
    assert!(parse_update(&["--commit"]).commit);
}

#[test]
fn parse_global_options_after_subcommand() {
    let cli = Cli::try_parse_from(&["bonk", "switch", "-v", "--flake-path=/etc/nixos"]).unwrap();
    assert!(cli.verbose);
    assert_eq!(cli.flake_path, Some("/etc/nixos".to_string()));
}

#[test]
fn parse_inline_short_values() {
    let a = parse_os(&["-Hzebes", "-B=builder"]);
    assert_eq!(a.host, Some("zebes".to_string()));
    assert_eq!(a.build_host, Some("builder".to_string()));
}

#[test]
fn parse_gc_keep_values() {
    match parse_store(&["gc", "-k", "0"]) {
        StoreCommands::Gc(a) => assert_eq!(a.keep, 0),
        _ => panic!("expected gc"),
    }
    match parse_store(&["gc", "--keep=4294967295"]) {
        StoreCommands::Gc(a) => assert_eq!(a.keep, u32::MAX),
        _ => panic!("expected gc"),
    }
    assert_eq!(
        Cli::try_parse_from(&["bonk", "store", "gc", "--keep", "4294967296"]),
        Err(ParseError::InvalidKeep)
    );
    assert_eq!(
        Cli::try_parse_from(&["bonk", "store", "gc", "--keep", "7d"]),
        Err(ParseError::InvalidKeep)
    );
}

#[test]
fn parse_nuke_flags() {
    match parse_store(&["nuke", "-yr", "--skip-rebuild"]) {
        StoreCommands::Nuke(a) => {
            assert!(a.yes);
            assert!(a.remove_results);
            assert!(a.skip_rebuild);
        }
        _ => panic!("expected nuke"),
    }
}

#[test]
fn parse_errors() {
    assert_eq!(Cli::try_parse_from(&["bonk"]), Err(ParseError::MissingSubcommand));
    assert_eq!(Cli::try_parse_from(&[]), Err(ParseError::MissingSubcommand));
    assert_eq!(Cli::try_parse_from(&["bonk", "store"]), Err(ParseError::MissingSubcommand));
    assert_eq!(Cli::try_parse_from(&["bonk", "frobnicate"]), Err(ParseError::UnexpectedArgument(1)));
    assert_eq!(Cli::try_parse_from(&["bonk", "switch", "--bogus"]), Err(ParseError::UnexpectedArgument(2)));
    assert_eq!(Cli::try_parse_from(&["bonk", "switch", "extra"]), Err(ParseError::UnexpectedArgument(2)));
    assert_eq!(Cli::try_parse_from(&["bonk", "switch", "-H"]), Err(ParseError::MissingValue(2)));
    assert_eq!(Cli::try_parse_from(&["bonk", "switch", "-H", "-t"]), Err(ParseError::MissingValue(2)));
    assert_eq!(Cli::try_parse_from(&["bonk", "switch", "-t", "-t"]), Err(ParseError::Repeated(3)));
    assert_eq!(Cli::try_parse_from(&["bonk", "switch", "--trace=yes"]), Err(ParseError::UnexpectedValue(2)));
    assert_eq!(Cli::try_parse_from(&["bonk", "try"]), Err(ParseError::MissingPackages));
    assert_eq!(Cli::try_parse_from(&["bonk", "build", "a", "b"]), Err(ParseError::UnexpectedArgument(3)));
    assert_eq!(Cli::try_parse_from(&["bonk", "--help"]), Err(ParseError::HelpRequested));
    assert_eq!(Cli::try_parse_from(&["bonk", "switch", "-V"]), Err(ParseError::VersionRequested));
}
