use git_shim::resolver::{git_path_for, parse_app_version, LAUNCHER_NEEDLE};

#[test]
fn parses_typical_launcher_body() {
    // The path inside the launcher embeds whatever user profile the installer
    // ran under; a generic name shows that the parser is username-agnostic.
    let body = r#"#!/bin/sh
exec "/c/Users/example/AppData/Local/GitHubDesktop/app-3.4.5/resources/app/static/github.sh" "$@"
"#;
    assert_eq!(parse_app_version(body), Some("app-3.4.5"));
}

#[test]
fn parses_version_with_dashes_and_digits() {
    let body =
        "anything /Users/x/Local/GitHubDesktop/app-3.5.0-beta1/resources/app/static/github.sh";
    assert_eq!(parse_app_version(body), Some("app-3.5.0-beta1"));
}

#[test]
fn parser_is_username_agnostic() {
    for user in ["alice", "bob.smith", "carol-dev", "ARK Builder"] {
        let body = format!(
            "exec \"/c/Users/{user}/AppData/Local/GitHubDesktop/app-9.9.9/resources/app/static/github.sh\""
        );
        assert_eq!(parse_app_version(&body), Some("app-9.9.9"), "user={user}");
    }
}

#[test]
fn rejects_missing_needle() {
    assert!(parse_app_version("nothing relevant here").is_none());
}

#[test]
fn rejects_segment_without_app_prefix() {
    let body = "/foo/bar/baz-1.0/resources/app/static/github.sh";
    assert!(parse_app_version(body).is_none());
}

#[test]
fn rejects_bare_app_segment() {
    let body = "/foo/bar/app-/resources/app/static/github.sh";
    assert!(parse_app_version(body).is_none());
}

#[test]
fn rejects_segment_without_leading_slash() {
    // No leading `/` before `app-X`.
    assert!(parse_app_version("app-3.4.5/resources/app/static/github.sh").is_none());
}

#[test]
fn picks_last_matching_segment_when_path_is_nested() {
    // The segment immediately preceding the needle wins, not an earlier one.
    let body = "/old/app-1.0.0/x/app-2.0.0/resources/app/static/github.sh";
    assert_eq!(parse_app_version(body), Some("app-2.0.0"));
}

#[test]
fn git_path_for_assembles_expected_layout() {
    let root = vec!["C:/install".to_string()];
    let p = git_path_for(&root, "app-3.4.5");
    let expected: Vec<String> = [
        "C:/install",
        "app-3.4.5",
        "resources",
        "app",
        "git",
        "cmd",
        "git.exe",
    ]
    .iter()
    .map(|s| s.to_string())
    .collect();
    assert_eq!(p, expected);
    let as_path: std::path::PathBuf = p.iter().collect();
    let expected_path: std::path::PathBuf = expected.iter().collect();
    assert_eq!(as_path, expected_path);
}

#[test]
fn git_path_for_keeps_a_multi_component_root() {
    let root = vec!["C:\\Users\\u\\AppData\\Local".to_string(), "GitHubDesktop".to_string()];
    let p = git_path_for(&root, "app-1.2");
    assert_eq!(
        p,
        vec![
            "C:\\Users\\u\\AppData\\Local",
            "GitHubDesktop",
            "app-1.2",
            "resources",
            "app",
            "git",
            "cmd",
            "git.exe"
        ]
    );
}

#[test]
fn first_needle_occurrence_decides() {
    let body = "/a/app-1.0/resources/app/static/github.sh /b/app-2.0/resources/app/static/github.sh";
    assert_eq!(parse_app_version(body), Some("app-1.0"));
    // A first occurrence whose segment is malformed is not skipped over.
    let body = "/a/zzz/resources/app/static/github.sh /b/app-2.0/resources/app/static/github.sh";
    assert_eq!(parse_app_version(body), None);
}

#[test]
fn version_may_hold_non_ascii_characters() {
    let body = "/Users/Jürgen/app-1.0-ß/resources/app/static/github.sh";
    assert_eq!(parse_app_version(body), Some("app-1.0-ß"));
}

#[test]
fn needle_alone_or_at_start_is_rejected() {
    assert_eq!(parse_app_version(LAUNCHER_NEEDLE), None);
    assert_eq!(parse_app_version(""), None);
    assert_eq!(parse_app_version("/resources/app/static/github"), None);
}

#[test]
fn segment_is_the_whole_text_after_the_last_slash() {
    assert_eq!(
        parse_app_version("/app-7/resources/app/static/github.sh trailing"),
        Some("app-7")
    );
    assert_eq!(parse_app_version("x/app-/resources/app/static/github.sh"), None);
    assert_eq!(parse_app_version("x/App-1/resources/app/static/github.sh"), None);
}
