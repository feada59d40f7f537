use nix_shell_locked::cli::{Args, Override};
use nix_shell_locked::error::Error;

fn strings(items: &[&str]) -> Vec<String> {
    items.iter().map(|item| item.to_string()).collect()
}

#[test]
fn both_overrides_conflict() {
    let result = Args::from_flags(
        false,
        Some("config.toml".to_string()),
        Some("/tmp/flake.lock".to_string()),
        strings(&["hello"]),
        vec![],
    );
    assert_eq!(result, Err(Error::ConflictingOverrides));
}

#[test]
fn both_overrides_conflict_whatever_else_is_given() {
    for dryrun in [false, true] {
        let result = Args::from_flags(
            dryrun,
            Some(String::new()),
            Some(String::new()),
            vec![],
            strings(&["--impure"]),
        );
        assert_eq!(result, Err(Error::ConflictingOverrides));
    }
}

#[test]
fn config_file_alone_is_the_override() {
    let result = Args::from_flags(
        false,
        Some("config.toml".to_string()),
        None,
        strings(&["hello", "cowsay"]),
        strings(&["--impure"]),
    );
    assert_eq!(
        result,
        Ok(Args {
            dryrun: false,
            override_: Some(Override::ConfigFile("config.toml".to_string())),
            packages: strings(&["hello", "cowsay"]),
            passthrough_args: strings(&["--impure"]),
        })
    );
}

#[test]
fn lockfile_alone_is_the_override() {
    let result = Args::from_flags(true, None, Some("/tmp/flake.lock".to_string()), vec![], vec![]);
    assert_eq!(
        result,
        Ok(Args {
            dryrun: true,
            override_: Some(Override::FlakeLockfile("/tmp/flake.lock".to_string())),
            packages: vec![],
            passthrough_args: vec![],
        })
    );
}

#[test]
fn no_option_is_no_override() {
    let result = Args::from_flags(true, None, None, strings(&["b", "a", "b"]), vec![]);
    assert_eq!(
        result,
        Ok(Args {
            dryrun: true,
            override_: None,
            packages: strings(&["b", "a", "b"]),
            passthrough_args: vec![],
        })
    );
}
