use lib::config::{ArgError, Config};

fn args(list: &[&str]) -> Vec<String> {
    list.iter().map(|s| s.to_string()).collect()
}

#[test]
fn no_arguments_give_the_defaults() {
    let c = Config::parse(&args(&[])).unwrap();
    assert_eq!(c.target, "x86_64-seele");
    assert_eq!(c.toolchain, "seele");
    assert!(c.build_std);
    assert!(!c.skip_build);
    assert!(c.force);
    assert!(c.stage2);
    assert!(c.llvm_cxx);
    assert_eq!(c, Config::defaults());
}

#[test]
fn every_switch_sets_its_field() {
    let c = Config::parse(&args(&[
        "--no-std", "--skip-build", "--no-force", "--no-stage2", "--no-llvm-cxx",
    ]))
    .unwrap();
    assert!(!c.build_std);
    assert!(c.skip_build);
    assert!(!c.force);
    assert!(!c.stage2);
    assert!(!c.llvm_cxx);
    let c = Config::parse(&args(&["--no-std", "--std", "--no-force", "--force", "--no-stage2", "--stage2",
        "--no-llvm-cxx", "--llvm-cxx"]))
    .unwrap();
    assert!(c.build_std && c.force && c.stage2 && c.llvm_cxx);
}

#[test]
fn value_options_take_the_next_argument() {
    let c = Config::parse(&args(&["--target", "x86_64-unknown-linux-gnu", "--toolchain", "mine"])).unwrap();
    assert_eq!(c.target, "x86_64-unknown-linux-gnu");
    assert_eq!(c.toolchain, "mine");
    // The value is taken verbatim, even when it looks like an option.
    let c = Config::parse(&args(&["--toolchain", "--help"])).unwrap();
    assert_eq!(c.toolchain, "--help");
}

#[test]
fn the_last_target_wins() {
    let c = Config::parse(&args(&["--target", "a", "--no-std", "--target", "b"])).unwrap();
    assert_eq!(c.target, "b");
    assert!(!c.build_std);
}

#[test]
fn a_missing_value_is_an_error() {
    assert_eq!(Config::parse(&args(&["--target"])), Err(ArgError::MissingTarget));
    assert_eq!(Config::parse(&args(&["--no-std", "--toolchain"])), Err(ArgError::MissingToolchain));
    assert_eq!(ArgError::MissingTarget.message(), "--target requires a value");
    assert_eq!(ArgError::MissingToolchain.message(), "--toolchain requires a value");
}

#[test]
fn help_is_asked_for() {
    assert_eq!(Config::parse(&args(&["--help"])), Err(ArgError::Help));
    assert_eq!(Config::parse(&args(&["--no-std", "-h", "--bogus"])), Err(ArgError::Help));
    assert_eq!(ArgError::Help.message(), "");
}

#[test]
fn unknown_arguments_are_refused() {
    let e = Config::parse(&args(&["--stage", "2"])).unwrap_err();
    assert_eq!(e, ArgError::Unknown("--stage".to_string()));
    assert_eq!(e.message(), "unknown argument: --stage");
}

#[test]
fn llvm_target_spells_out_the_seele_vendor() {
    let mut c = Config::defaults();
    assert_eq!(c.llvm_target(), "x86_64-unknown-seele");
    c.target = "aarch64-unknown-none".to_string();
    assert_eq!(c.llvm_target(), "aarch64-unknown-none");
    c.target = "x86_64-seele-extra".to_string();
    assert_eq!(c.llvm_target(), "x86_64-seele-extra");
}

#[test]
fn arguments_read_in_two_pieces_agree() {
    let first = Config::parse(&args(&["--no-std", "--target", "t"])).unwrap();
    let both = Config::parse(&args(&["--no-std", "--target", "t", "--no-force", "--toolchain", "x"])).unwrap();
    let mut expected = first.clone();
    expected.force = false;
    expected.toolchain = "x".to_string();
    assert_eq!(both, expected);
}

#[test]
fn refused_command_lines_are_reported_with_the_usage() {
    let usage = "usage: install [--target <triple>] [--toolchain <name>] [--no-std] [--skip-build] [--no-force] [--no-stage2] [--no-llvm-cxx]";
    assert_eq!(ArgError::Help.report(), vec![usage.to_string()]);
    assert_eq!(
        ArgError::Unknown("-x".to_string()).report(),
        vec!["error: unknown argument: -x".to_string(), usage.to_string()]
    );
    assert_eq!(ArgError::MissingTarget.report()[0], "error: --target requires a value");
}

#[test]
fn every_option_takes_its_last_value() {
    let c = Config::parse(&args(&[
        "--no-force", "--toolchain", "a", "--no-std", "--force", "--target", "--std", "--no-stage2",
        "--toolchain", "b", "--stage2", "--no-llvm-cxx", "--llvm-cxx", "--no-llvm-cxx",
    ]))
    .unwrap();
    assert_eq!(c.target, "--std");
    assert_eq!(c.toolchain, "b");
    assert!(!c.build_std);
    assert!(!c.skip_build);
    assert!(c.force);
    assert!(c.stage2);
    assert!(!c.llvm_cxx);
}
