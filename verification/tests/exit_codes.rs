use git_shim::error::ShimError;
use git_shim::os::exec::{exit_code_of, CODELESS_EXIT};
use git_shim::{
    clamp_exit, diagnostic, exit_status, print_resolved_requested, FAILURE_EXIT, PRINT_RESOLVED_VAR,
};

#[test]
fn clamp_exit_passes_through_small_codes() {
    assert_eq!(clamp_exit(0), 0);
    assert_eq!(clamp_exit(1), 1);
    assert_eq!(clamp_exit(42), 42);
    assert_eq!(clamp_exit(255), 255);
}

#[test]
fn clamp_exit_truncates_high_codes() {
    assert_eq!(clamp_exit(256), 0);
    assert_eq!(clamp_exit(257), 1);
}

#[test]
fn clamp_exit_maps_negative_to_128() {
    assert_eq!(clamp_exit(-1), 128);
    assert_eq!(clamp_exit(-15), 128);
}

#[test]
fn clamp_exit_extremes() {
    assert_eq!(clamp_exit(i32::MAX), 255);
    assert_eq!(clamp_exit(i32::MIN), 128);
    assert_eq!(clamp_exit(0x1_2345), 0x45);
}

#[test]
fn clamp_exit_codes_a_multiple_of_256_apart_agree() {
    for code in [0, 3, 200, 255] {
        assert_eq!(clamp_exit(code), clamp_exit(code + 256 * 7));
    }
}

#[test]
fn exit_status_forwards_clamped_child_code() {
    assert_eq!(exit_status(&Ok(0)), 0);
    assert_eq!(exit_status(&Ok(3)), 3);
    assert_eq!(exit_status(&Ok(258)), 2);
    assert_eq!(exit_status(&Ok(-9)), 128);
}

#[test]
fn exit_status_is_127_for_every_failure() {
    let failures = vec![
        ShimError::MissingArgv0,
        ShimError::LocalAppDataMissing,
        ShimError::LauncherMissing(vec!["C:\\u".to_string()]),
        ShimError::Spawn("denied".to_string()),
    ];
    for err in failures {
        assert_eq!(exit_status(&Err(err)), FAILURE_EXIT);
    }
    assert_eq!(FAILURE_EXIT, 127);
}

#[test]
fn diagnostic_prefixes_the_message() {
    assert_eq!(
        diagnostic(&ShimError::MissingArgv0),
        "git-shim: argv[0] was not provided by the OS"
    );
    assert_eq!(
        diagnostic(&ShimError::Spawn("access is denied".to_string())),
        "git-shim: failed to spawn git: access is denied"
    );
}

#[test]
fn child_without_code_exits_with_1() {
    assert_eq!(exit_code_of(None), 1);
    assert_eq!(CODELESS_EXIT, 1);
    assert_eq!(exit_code_of(Some(0)), 0);
    assert_eq!(exit_code_of(Some(-5)), -5);
    assert_eq!(exit_code_of(Some(300)), 300);
}

#[test]
fn print_resolved_only_when_set_to_1() {
    assert_eq!(PRINT_RESOLVED_VAR, "GIT_SHIM_PRINT_RESOLVED");
    assert!(print_resolved_requested(Some("1")));
    assert!(!print_resolved_requested(None));
    assert!(!print_resolved_requested(Some("")));
    assert!(!print_resolved_requested(Some("0")));
    assert!(!print_resolved_requested(Some("11")));
    assert!(!print_resolved_requested(Some("true")));
}
