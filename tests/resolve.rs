use bonk::cli::OsArgs;
use bonk::commands::os::{resolve_build_host, resolve_deploy_target, OsAction};
use bonk::env::{get_build_host, get_extra_args, get_flake_path, Ambient, EnvVars};
use bonk::flake::{resolve_flake_path, ConfigError};
use bonk::host::{get_hostname, resolve_host};

fn env_with(flake: Option<&str>, build_host: Option<&str>, extra: Option<&str>) -> EnvVars {
    EnvVars {
        bonk_flake_path: flake.map(String::from),
        flake: None,
        bonk_build_host: build_host.map(String::from),
        bonk_extra_args: extra.map(String::from),
    }
}

#[test]
fn test_get_flake_path_none_when_unset() {
    assert!(get_flake_path(&EnvVars::default()).is_none());
}

#[test]
fn test_get_extra_args_empty_when_unset() {
    assert!(get_extra_args(&EnvVars::default()).is_empty());
}

#[test]
fn flake_path_prefers_bonk_variable_and_rejects_empty() {
    let mut e = EnvVars::default();
    e.flake = Some("/from/flake".to_string());
    assert_eq!(get_flake_path(&e), Some("/from/flake".to_string()));
    e.bonk_flake_path = Some("/from/bonk".to_string());
    assert_eq!(get_flake_path(&e), Some("/from/bonk".to_string()));
    e.bonk_flake_path = Some(String::new());
    assert_eq!(get_flake_path(&e), None);
}

#[test]
fn build_host_empty_is_unset() {
    assert_eq!(get_build_host(&env_with(None, Some(""), None)), None);
    assert_eq!(get_build_host(&env_with(None, Some("b1"), None)), Some("b1".to_string()));
}

#[test]
fn extra_args_split_on_colons() {
    let e = env_with(None, None, Some(":--impure::--option:x:"));
    assert_eq!(get_extra_args(&e), vec!["--impure", "--option", "x"]);
    assert!(get_extra_args(&env_with(None, None, Some(":::"))).is_empty());
}

#[test]
fn test_resolve_flake_path_explicit() {
    let result = resolve_flake_path(Some("/some/path"), false, &EnvVars::default()).unwrap();
    assert_eq!(result, "/some/path");
}

#[test]
fn test_resolve_flake_path_explicit_relative() {
    let result = resolve_flake_path(Some("./relative/path"), false, &EnvVars::default()).unwrap();
    assert_eq!(result, "./relative/path");
}

#[test]
fn explicit_flake_path_wins_over_everything() {
    let e = env_with(Some("/env"), None, None);
    assert_eq!(resolve_flake_path(Some("/x"), true, &e).unwrap(), "/x");
    assert_eq!(resolve_flake_path(Some(""), true, &e).unwrap(), "");
}

#[test]
fn flake_marker_then_environment() {
    let e = env_with(Some("/env"), None, None);
    assert_eq!(resolve_flake_path(None, true, &e).unwrap(), ".");
    assert_eq!(resolve_flake_path(None, false, &e).unwrap(), "/env");
}

#[test]
fn no_flake_anywhere_is_an_error() {
    let r = resolve_flake_path(None, false, &EnvVars::default());
    assert_eq!(r, Err(ConfigError::NoFlakeFound));
    let m = ConfigError::NoFlakeFound.message();
    assert!(m.contains("flake.nix"));
    assert!(m.contains("BONK_FLAKE_PATH"));
    assert!(m.contains("--flake-path"));
}

#[test]
fn test_get_hostname_returns_non_empty() {
    let hostname = get_hostname().expect("should get hostname");
    assert!(!hostname.is_empty());
}

#[test]
fn given_host_is_used_as_is() {
    assert_eq!(resolve_host(&Some("rune".to_string())), Ok("rune".to_string()));
}

#[test]
fn local_flag_overrides_environment_build_host() {
    let e = env_with(None, Some("remote"), None);
    assert_eq!(resolve_build_host(true, &None, &e), None);
    assert_eq!(resolve_build_host(true, &Some("b".to_string()), &e), None);
    assert_eq!(resolve_build_host(false, &None, &e), Some("remote".to_string()));
    assert_eq!(resolve_build_host(false, &Some("b".to_string()), &e), Some("b".to_string()));
}

#[test]
fn deploy_target_resolution() {
    assert_eq!(resolve_deploy_target(false, &None, "zebes"), None);
    let th = Some("root@H".to_string());
    assert_eq!(resolve_deploy_target(false, &th, "zebes"), Some("root@H".to_string()));
    assert_eq!(resolve_deploy_target(true, &th, "zebes"), Some("root@H".to_string()));
    assert_eq!(resolve_deploy_target(true, &None, "zebes"), Some("zebes".to_string()));
}

#[test]
fn action_labels() {
    assert_eq!(OsAction::Switch.as_str(), "switch");
    assert_eq!(OsAction::Boot.as_str(), "boot");
}

#[test]
fn os_run_without_flake_fails() {
    let args = OsArgs { host: Some("rune".to_string()), ..OsArgs::default() };
    let r = bonk::commands::os::run(OsAction::Switch, &args, None, &Ambient::default());
    assert_eq!(r.err(), Some(ConfigError::NoFlakeFound));
}
