use marker_api::cli::{collect_lint_deps, CheckArgs, CliCommand, CliError, ExitStatus, MarkerCli};

fn args(words: &[&str]) -> Vec<String> {
    words.iter().map(|w| w.to_string()).collect()
}

#[test]
fn test_marker_cli() {
    let cli = MarkerCli::parse_from(&args(&["cargo-marker", "check"])).unwrap();
    assert!(matches!(cli.command, Some(CliCommand::Check(_))));

    let cli = MarkerCli::parse_from(&args(&["cargo-marker"])).unwrap();
    assert!(matches!(cli.command, None));
    assert!(cli.check_args.cargo_args.is_empty());

    let cli = MarkerCli::parse_from(&args(&["cargo-marker", "--", "ducks", "penguins"])).unwrap();
    assert!(matches!(cli.command, None));
    assert!(cli.check_args.cargo_args.len() == 2);
    assert!(cli.check_args.cargo_args[0] == "ducks");
    assert!(cli.check_args.cargo_args[1] == "penguins");

    let cli = MarkerCli::parse_from(&args(&["cargo-marker", "check", "--", "ducks", "penguins"])).unwrap();
    assert!(cli.check_args.cargo_args.is_empty());
    if let Some(CliCommand::Check(check_args)) = cli.command {
        assert!(check_args.cargo_args.len() == 2);
        assert!(check_args.cargo_args[0] == "ducks");
        assert!(check_args.cargo_args[1] == "penguins");
    } else {
        assert!(false, "the `check` subcommand was not detected");
    }
}

#[test]
fn parse_from_reads_lints_and_flags() {
    let cli = MarkerCli::parse_from(&args(&[
        "cargo-marker",
        "-l",
        "a = '1'",
        "--forward-rust-flags",
        "--lints",
        "b = '2'",
    ]))
    .unwrap();
    assert!(cli.command.is_none());
    assert_eq!(cli.check_args.lints, vec!["a = '1'".to_string(), "b = '2'".to_string()]);
    assert!(cli.check_args.forward_rust_flags);
    assert!(cli.check_args.cargo_args.is_empty());
}

#[test]
fn parse_from_keeps_the_arguments_before_a_command_apart() {
    let cli = MarkerCli::parse_from(&args(&["cargo-marker", "-l", "top", "test-setup", "-l", "sub", "--", "x"])).unwrap();
    assert_eq!(cli.check_args.lints, vec!["top".to_string()]);
    match cli.command {
        Some(CliCommand::TestSetup(sub)) => {
            assert_eq!(sub.lints, vec!["sub".to_string()]);
            assert!(!sub.forward_rust_flags);
            assert_eq!(sub.cargo_args, vec!["x".to_string()]);
        },
        _ => panic!("the `test-setup` subcommand was not detected"),
    }
}

#[test]
fn parse_from_reads_setup() {
    let cli = MarkerCli::parse_from(&args(&["cargo-marker", "setup", "--auto-install-toolchain"])).unwrap();
    match cli.command {
        Some(CliCommand::Setup(setup)) => {
            assert!(setup.auto_install_toolchain);
            assert!(!setup.forward_rust_flags);
        },
        _ => panic!("the `setup` subcommand was not detected"),
    }
    let cli = MarkerCli::parse_from(&args(&["cargo-marker", "setup", "--forward-rust-flags"])).unwrap();
    match cli.command {
        Some(CliCommand::Setup(setup)) => {
            assert!(!setup.auto_install_toolchain);
            assert!(setup.forward_rust_flags);
        },
        _ => panic!("the `setup` subcommand was not detected"),
    }
}

#[test]
fn parse_from_without_a_program_name() {
    let cli = MarkerCli::parse_from(&Vec::new()).unwrap();
    assert!(cli.command.is_none());
    assert!(cli.check_args.lints.is_empty());
    assert!(!cli.check_args.forward_rust_flags);
}

#[test]
fn parse_from_reports_a_missing_value() {
    let r = MarkerCli::parse_from(&args(&["cargo-marker", "--lints"]));
    assert_eq!(r.err(), Some(CliError::MissingValue(1)));
    let r = MarkerCli::parse_from(&args(&["cargo-marker", "check", "-l"]));
    assert_eq!(r.err(), Some(CliError::MissingValue(2)));
}

#[test]
fn parse_from_reports_an_unexpected_argument() {
    let r = MarkerCli::parse_from(&args(&["cargo-marker", "ducks"]));
    assert_eq!(r.err(), Some(CliError::UnexpectedArgument(1)));
    let r = MarkerCli::parse_from(&args(&["cargo-marker", "check", "check"]));
    assert_eq!(r.err(), Some(CliError::UnexpectedArgument(2)));
    let r = MarkerCli::parse_from(&args(&["cargo-marker", "setup", "--", "x"]));
    assert_eq!(r.err(), Some(CliError::UnexpectedArgument(2)));
}

#[test]
fn parse_args_wants_the_marker_subcommand() {
    let cli = MarkerCli::parse_args(&args(&["cargo-marker", "marker", "check", "--", "ducks"])).unwrap();
    match cli.command {
        Some(CliCommand::Check(check)) => assert_eq!(check.cargo_args, vec!["ducks".to_string()]),
        _ => panic!("the `check` subcommand was not detected"),
    }
    assert_eq!(MarkerCli::parse_args(&args(&["cargo-marker", "check"])).err(), Some(CliError::MissingMarker));
    assert_eq!(MarkerCli::parse_args(&args(&["cargo-marker"])).err(), Some(CliError::MissingMarker));
    assert_eq!(MarkerCli::parse_args(&Vec::new()).err(), Some(CliError::MissingMarker));
}

#[test]
fn collect_lint_deps_without_lints() {
    let check = CheckArgs { lints: Vec::new(), forward_rust_flags: false, cargo_args: Vec::new() };
    assert_eq!(collect_lint_deps(&check), Err(ExitStatus::NoLints));
}

#[test]
fn collect_lint_deps_writes_one_line_for_each_lint() {
    let check = CheckArgs {
        lints: vec!["a = '1'".to_string(), "b = { path = 'b' }".to_string()],
        forward_rust_flags: true,
        cargo_args: vec!["--release".to_string()],
    };
    assert_eq!(
        collect_lint_deps(&check),
        Ok("[workspace.metadata.marker.lints]\na = '1'\nb = { path = 'b' }\n".to_string())
    );
}
