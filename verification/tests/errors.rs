use git_shim::error::{render_path, ShimError};

fn parts(p: &[&str]) -> Vec<String> {
    p.iter().map(|s| s.to_string()).collect()
}

#[test]
fn render_path_joins_components_with_backslash() {
    assert_eq!(render_path(&parts(&[])), "");
    assert_eq!(render_path(&parts(&["C:\\Users\\u"])), "C:\\Users\\u");
    assert_eq!(
        render_path(&parts(&["C:\\L", "GitHubDesktop", "bin", "github"])),
        "C:\\L\\GitHubDesktop\\bin\\github"
    );
}

#[test]
fn render_path_adds_no_separator_after_one() {
    assert_eq!(
        render_path(&parts(&["C:\\L\\", "GitHubDesktop", "bin"])),
        "C:\\L\\GitHubDesktop\\bin"
    );
    assert_eq!(render_path(&parts(&["C:/L/", "GitHubDesktop"])), "C:/L/GitHubDesktop");
    assert_eq!(render_path(&parts(&["C:\\", "x"])), "C:\\x");
}

#[test]
fn render_path_adds_no_separator_after_a_bare_drive() {
    assert_eq!(render_path(&parts(&["C:", "GitHubDesktop"])), "C:GitHubDesktop");
    assert_eq!(render_path(&parts(&["d:", "x", "y"])), "d:x\\y");
    // Not a drive: a separator follows.
    assert_eq!(render_path(&parts(&["\\\\?\\C:", "x"])), "\\\\?\\C:\\x");
    assert_eq!(render_path(&parts(&["1:", "x"])), "1:\\x");
    assert_eq!(render_path(&parts(&["C:x", "y"])), "C:x\\y");
}

#[test]
fn verbatim_paths_take_only_backslash_as_a_separator() {
    assert_eq!(render_path(&parts(&["\\\\?\\C:\\L/", "x"])), "\\\\?\\C:\\L/\\x");
    assert_eq!(render_path(&parts(&["\\\\?\\C:\\L\\", "x"])), "\\\\?\\C:\\L\\x");
}

#[test]
fn render_path_skips_the_separator_after_an_empty_start() {
    assert_eq!(render_path(&parts(&["", "x"])), "x");
}

#[test]
fn every_error_has_its_message() {
    let launcher = parts(&["C:\\L", "GitHubDesktop", "bin", "github"]);
    let cases = vec![
        (ShimError::MissingArgv0, "argv[0] was not provided by the OS".to_string()),
        (
            ShimError::LocalAppDataMissing,
            "%LOCALAPPDATA% is not set; cannot locate GitHub Desktop install root".to_string(),
        ),
        (
            ShimError::LauncherMissing(launcher.clone()),
            "GitHub Desktop launcher script not found at C:\\L\\GitHubDesktop\\bin\\github (is GitHub Desktop installed?)".to_string(),
        ),
        (
            ShimError::LauncherRead(launcher.clone(), "boom".to_string()),
            "failed to read launcher script C:\\L\\GitHubDesktop\\bin\\github: boom".to_string(),
        ),
        (
            ShimError::VersionTokenMissing(launcher.clone()),
            "could not parse `app-<version>` token from C:\\L\\GitHubDesktop\\bin\\github (GitHub Desktop layout may have changed)".to_string(),
        ),
        (
            ShimError::GitExecutableMissing(parts(&["C:\\g\\git.exe"])),
            "resolved git executable does not exist: C:\\g\\git.exe".to_string(),
        ),
        (
            ShimError::CanonicalizeFailed(parts(&["C:\\L", "x"]), "not found".to_string()),
            "failed to canonicalize C:\\L\\x: not found".to_string(),
        ),
        (ShimError::Spawn("denied".to_string()), "failed to spawn git: denied".to_string()),
    ];
    for (err, expected) in cases {
        assert_eq!(err.message(), expected);
    }
}

#[test]
fn source_is_the_underlying_error_text() {
    let p = parts(&["C:\\L"]);
    assert_eq!(
        ShimError::LauncherRead(p.clone(), "io a".to_string()).source().map(|s| s.as_str()),
        Some("io a")
    );
    assert_eq!(
        ShimError::CanonicalizeFailed(p.clone(), "io b".to_string()).source().map(|s| s.as_str()),
        Some("io b")
    );
    assert_eq!(ShimError::Spawn("io c".to_string()).source().map(|s| s.as_str()), Some("io c"));
    assert!(ShimError::MissingArgv0.source().is_none());
    assert!(ShimError::LocalAppDataMissing.source().is_none());
    assert!(ShimError::LauncherMissing(p.clone()).source().is_none());
    assert!(ShimError::VersionTokenMissing(p.clone()).source().is_none());
    assert!(ShimError::GitExecutableMissing(p).source().is_none());
}
