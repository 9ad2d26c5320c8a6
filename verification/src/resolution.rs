//! The decisions that resolve the active `git.exe`, as a state machine.
//!
//! Resolution reads the environment and the file system between its
//! decisions. Each state but the last two names the one observation it waits
//! for; [`resolve_step`] takes that observation and decides the next state.
//! The caller performs the observations, so every decision, and every error
//! and the path it carries, is made here:
//!
//! 1. The Local AppData directory is the value of `%LOCALAPPDATA%` when it is
//!    set and non-empty, else the answer of the Known Folders API
//!    (`SHGetKnownFolderPath(FOLDERID_LocalAppData)`), which does not depend on
//!    the process environment; without either, resolution fails.
//! 2. `%LOCALAPPDATA%\GitHubDesktop\bin\github` must be a file.
//! 3. Its text must be readable and name an `app-<version>` directory.
//! 4. `%LOCALAPPDATA%\GitHubDesktop\app-<version>\resources\app\git\cmd\git.exe`
//!    must canonicalize, and the canonical path must be a file.

use vstd::prelude::*;

use crate::error::{parts_view, ErrorModel, ShimError};
use crate::resolver::{app_version_of, git_layout, git_path_for, parse_app_version};

verus! {

/// Where resolution stands, and what it waits for.
#[derive(Debug)]
pub enum Resolution {
    /// Waits for the value of `%LOCALAPPDATA%`, if it is set.
    NeedLocalAppData,
    /// Waits for the Local AppData directory that the Known Folders API gives, if any.
    NeedKnownFolder,
    /// Waits to learn whether `launcher` is a regular file.
    NeedLauncherIsFile { install_root: Vec<String>, launcher: Vec<String> },
    /// Waits for the text of `launcher`.
    NeedLauncherText { install_root: Vec<String>, launcher: Vec<String> },
    /// Waits for the canonical form of `candidate`.
    NeedCanonical { candidate: Vec<String> },
    /// Waits to learn whether `canonical` is a regular file.
    NeedGitIsFile { canonical: Vec<String> },
    /// The active `git.exe`.
    Resolved { git: Vec<String> },
    /// Resolution failed.
    Failed(ShimError),
}

/// What the caller observed for the state that waited for it.
#[derive(Debug)]
pub enum Observation {
    /// The value of `%LOCALAPPDATA%`, if it is set.
    LocalAppData(Option<String>),
    /// The Local AppData directory that the Known Folders API gives, if any.
    KnownFolder(Option<String>),
    /// Whether the path asked about is a regular file.
    IsFile(bool),
    /// The text of the launcher script, or the text of the error that reading it gave.
    Text(Result<String, String>),
    /// The components of the canonical path, or the text of the error that
    /// canonicalizing gave.
    Canonical(Result<Vec<String>, String>),
}

/// The mathematical value of a [`Resolution`].
pub enum ResolutionModel {
    NeedLocalAppData,
    NeedKnownFolder,
    NeedLauncherIsFile { install_root: Seq<Seq<char>>, launcher: Seq<Seq<char>> },
    NeedLauncherText { install_root: Seq<Seq<char>>, launcher: Seq<Seq<char>> },
    NeedCanonical { candidate: Seq<Seq<char>> },
    NeedGitIsFile { canonical: Seq<Seq<char>> },
    Resolved { git: Seq<Seq<char>> },
    Failed(ErrorModel),
}

/// The mathematical value of an [`Observation`].
pub enum ObservationModel {
    LocalAppData(Option<Seq<char>>),
    KnownFolder(Option<Seq<char>>),
    IsFile(bool),
    Text(Result<Seq<char>, Seq<char>>),
    Canonical(Result<Seq<Seq<char>>, Seq<char>>),
}

impl View for Resolution {
    type V = ResolutionModel;

    open spec fn view(&self) -> ResolutionModel {
        match self {
            Resolution::NeedLocalAppData => ResolutionModel::NeedLocalAppData,
            Resolution::NeedKnownFolder => ResolutionModel::NeedKnownFolder,
            Resolution::NeedLauncherIsFile { install_root, launcher } =>
                ResolutionModel::NeedLauncherIsFile {
                install_root: parts_view(install_root@),
                launcher: parts_view(launcher@),
            },
            Resolution::NeedLauncherText { install_root, launcher } =>
                ResolutionModel::NeedLauncherText {
                install_root: parts_view(install_root@),
                launcher: parts_view(launcher@),
            },
            Resolution::NeedCanonical { candidate } => ResolutionModel::NeedCanonical {
                candidate: parts_view(candidate@),
            },
            Resolution::NeedGitIsFile { canonical } => ResolutionModel::NeedGitIsFile {
                canonical: parts_view(canonical@),
            },
            Resolution::Resolved { git } => ResolutionModel::Resolved { git: parts_view(git@) },
            Resolution::Failed(e) => ResolutionModel::Failed(e@),
        }
    }
}

impl View for Observation {
    type V = ObservationModel;

    open spec fn view(&self) -> ObservationModel {
        match self {
            Observation::LocalAppData(v) => ObservationModel::LocalAppData(text_of(v)),
            Observation::KnownFolder(v) => ObservationModel::KnownFolder(text_of(v)),
            Observation::IsFile(b) => ObservationModel::IsFile(*b),
            Observation::Text(r) => ObservationModel::Text(
                match r {
                    Ok(t) => Ok(t@),
                    Err(e) => Err(e@),
                },
            ),
            Observation::Canonical(r) => ObservationModel::Canonical(
                match r {
                    Ok(p) => Ok(parts_view(p@)),
                    Err(e) => Err(e@),
                },
            ),
        }
    }
}

/// The text of an optional string.
pub open spec fn text_of(s: &Option<String>) -> Option<Seq<char>> {
    match s {
        Some(v) => Some(v@),
        None => None,
    }
}

/// The state that waits on the launcher beneath the Local AppData directory `lad`.
pub open spec fn launcher_check_at(lad: Seq<char>) -> ResolutionModel {
    ResolutionModel::NeedLauncherIsFile {
        install_root: install_root_of(lad),
        launcher: launcher_of(install_root_of(lad)),
    }
}

/// The install root beneath the Local AppData directory `local_app_data`.
pub open spec fn install_root_of(local_app_data: Seq<char>) -> Seq<Seq<char>> {
    seq![local_app_data, "GitHubDesktop"@]
}

/// The launcher script beneath an install root.
pub open spec fn launcher_of(install_root: Seq<Seq<char>>) -> Seq<Seq<char>> {
    install_root + seq!["bin"@, "github"@]
}

/// The state that follows `s` once `o` is observed. An observation that does
/// not answer what `s` waits for, and any observation once resolution has
/// ended, leaves the state as it is.
pub open spec fn next_resolution(s: ResolutionModel, o: ObservationModel) -> ResolutionModel {
    match (s, o) {
        (ResolutionModel::NeedLocalAppData, ObservationModel::LocalAppData(v)) => match v {
            Some(lad) => if lad.len() == 0 {
                ResolutionModel::NeedKnownFolder
            } else {
                launcher_check_at(lad)
            },
            None => ResolutionModel::NeedKnownFolder,
        },
        (ResolutionModel::NeedKnownFolder, ObservationModel::KnownFolder(v)) => match v {
            Some(lad) => launcher_check_at(lad),
            None => ResolutionModel::Failed(ErrorModel::LocalAppDataMissing),
        },
        (
            ResolutionModel::NeedLauncherIsFile { install_root, launcher },
            ObservationModel::IsFile(is_file),
        ) => if is_file {
            ResolutionModel::NeedLauncherText { install_root, launcher }
        } else {
            ResolutionModel::Failed(ErrorModel::LauncherMissing(launcher))
        },
        (
            ResolutionModel::NeedLauncherText { install_root, launcher },
            ObservationModel::Text(r),
        ) => match r {
            Ok(text) => match app_version_of(text) {
                Some(v) => ResolutionModel::NeedCanonical { candidate: git_layout(install_root, v) },
                None => ResolutionModel::Failed(ErrorModel::VersionTokenMissing(launcher)),
            },
            Err(e) => ResolutionModel::Failed(ErrorModel::LauncherRead(launcher, e)),
        },
        (ResolutionModel::NeedCanonical { candidate }, ObservationModel::Canonical(r)) => match r {
            Ok(canonical) => ResolutionModel::NeedGitIsFile { canonical },
            Err(e) => ResolutionModel::Failed(ErrorModel::CanonicalizeFailed(candidate, e)),
        },
        (ResolutionModel::NeedGitIsFile { canonical }, ObservationModel::IsFile(is_file)) =>
            if is_file {
            ResolutionModel::Resolved { git: canonical }
        } else {
            ResolutionModel::Failed(ErrorModel::GitExecutableMissing(canonical))
        },
        (s, _) => s,
    }
}

/// `path` starts at the directory `root`.
pub open spec fn rooted_at(path: Seq<Seq<char>>, root: Seq<char>) -> bool {
    path.len() > 0 && path[0] == root
}

/// Every path that `s` holds and that the shim built itself (all but the
/// canonical path, which the operating system gives) starts at `root`.
pub open spec fn paths_rooted_at(s: ResolutionModel, root: Seq<char>) -> bool {
    match s {
        ResolutionModel::NeedLauncherIsFile { install_root, launcher } => rooted_at(
            install_root,
            root,
        ) && rooted_at(launcher, root),
        ResolutionModel::NeedLauncherText { install_root, launcher } => rooted_at(
            install_root,
            root,
        ) && rooted_at(launcher, root),
        ResolutionModel::NeedCanonical { candidate } => rooted_at(candidate, root),
        ResolutionModel::Failed(e) => match e {
            ErrorModel::LauncherMissing(p) => rooted_at(p, root),
            ErrorModel::LauncherRead(p, _) => rooted_at(p, root),
            ErrorModel::VersionTokenMissing(p) => rooted_at(p, root),
            ErrorModel::CanonicalizeFailed(p, _) => rooted_at(p, root),
            _ => true,
        },
        _ => true,
    }
}

/// Once resolution has ended, resolved or failed, no observation changes it.
pub proof fn lemma_ended_resolution_is_final(s: ResolutionModel, o: ObservationModel)
    requires
        s is Resolved || s is Failed,
    ensures
        next_resolution(s, o) == s,
{
}

/// The paths that resolution builds derive from the Local AppData directory
/// alone, never from a user name: they start at it as soon as it is known,
/// from the environment or from the Known Folders API ...
pub proof fn lemma_paths_start_at_local_app_data(local_app_data: Seq<char>)
    ensures
        paths_rooted_at(
            next_resolution(
                ResolutionModel::NeedLocalAppData,
                ObservationModel::LocalAppData(Some(local_app_data)),
            ),
            local_app_data,
        ),
        paths_rooted_at(
            next_resolution(
                ResolutionModel::NeedKnownFolder,
                ObservationModel::KnownFolder(Some(local_app_data)),
            ),
            local_app_data,
        ),
{
}

/// ... and every later step keeps them so, whatever it observes.
pub proof fn lemma_paths_stay_at_local_app_data(
    s: ResolutionModel,
    o: ObservationModel,
    local_app_data: Seq<char>,
)
    requires
        !(s is NeedLocalAppData),
        !(s is NeedKnownFolder),
        paths_rooted_at(s, local_app_data),
    ensures
        paths_rooted_at(next_resolution(s, o), local_app_data),
{
}

/// Where resolution looks for `git.exe`: once `%LOCALAPPDATA%` is read and
/// the launcher is found to be a file, its text decides the candidate
/// `%LOCALAPPDATA%\GitHubDesktop\app-<version>\resources\app\git\cmd\git.exe`,
/// or the failure that names the launcher.
pub proof fn lemma_candidate_location(local_app_data: Seq<char>, text: Seq<char>)
    requires
        local_app_data.len() > 0,
    ensures
        next_resolution(
            next_resolution(
                next_resolution(
                    ResolutionModel::NeedLocalAppData,
                    ObservationModel::LocalAppData(Some(local_app_data)),
                ),
                ObservationModel::IsFile(true),
            ),
            ObservationModel::Text(Ok(text)),
        ) == match app_version_of(text) {
            Some(v) => ResolutionModel::NeedCanonical {
                candidate: seq![
                    local_app_data,
                    "GitHubDesktop"@,
                    v,
                    "resources"@,
                    "app"@,
                    "git"@,
                    "cmd"@,
                    "git.exe"@,
                ],
            },
            None => ResolutionModel::Failed(
                ErrorModel::VersionTokenMissing(
                    seq![local_app_data, "GitHubDesktop"@, "bin"@, "github"@],
                ),
            ),
        },
{
    let root = install_root_of(local_app_data);
    assert(launcher_of(root) =~= seq![local_app_data, "GitHubDesktop"@, "bin"@, "github"@]);
    if let Some(v) = app_version_of(text) {
        assert(git_layout(root, v) =~= seq![
            local_app_data,
            "GitHubDesktop"@,
            v,
            "resources"@,
            "app"@,
            "git"@,
            "cmd"@,
            "git.exe"@,
        ]);
    }
}

/// The Local AppData directory comes from `%LOCALAPPDATA%` when it is set and
/// non-empty, and from the Known Folders API otherwise; without either,
/// resolution fails. Either way the install root is that directory followed by
/// `GitHubDesktop`, and the launcher is `bin\github` beneath it.
pub proof fn lemma_local_app_data_steps(value: Seq<char>)
    ensures
        value.len() > 0 ==> next_resolution(
            ResolutionModel::NeedLocalAppData,
            ObservationModel::LocalAppData(Some(value)),
        ) == (ResolutionModel::NeedLauncherIsFile {
            install_root: seq![value, "GitHubDesktop"@],
            launcher: seq![value, "GitHubDesktop"@, "bin"@, "github"@],
        }),
        value.len() == 0 ==> next_resolution(
            ResolutionModel::NeedLocalAppData,
            ObservationModel::LocalAppData(Some(value)),
        ) == ResolutionModel::NeedKnownFolder,
        next_resolution(ResolutionModel::NeedLocalAppData, ObservationModel::LocalAppData(None))
            == ResolutionModel::NeedKnownFolder,
        next_resolution(
            ResolutionModel::NeedKnownFolder,
            ObservationModel::KnownFolder(Some(value)),
        ) == (ResolutionModel::NeedLauncherIsFile {
            install_root: seq![value, "GitHubDesktop"@],
            launcher: seq![value, "GitHubDesktop"@, "bin"@, "github"@],
        }),
        next_resolution(ResolutionModel::NeedKnownFolder, ObservationModel::KnownFolder(None))
            == ResolutionModel::Failed(ErrorModel::LocalAppDataMissing),
{
    assert(launcher_of(install_root_of(value)) =~= seq![
        value,
        "GitHubDesktop"@,
        "bin"@,
        "github"@,
    ]);
}

/// A launcher that is not a file fails naming the launcher; one that is a
/// file is read next; a read error fails naming the launcher and keeping the
/// error's text unchanged.
pub proof fn lemma_launcher_steps(
    install_root: Seq<Seq<char>>,
    launcher: Seq<Seq<char>>,
    err: Seq<char>,
)
    ensures
        next_resolution(
            ResolutionModel::NeedLauncherIsFile { install_root, launcher },
            ObservationModel::IsFile(false),
        ) == ResolutionModel::Failed(ErrorModel::LauncherMissing(launcher)),
        next_resolution(
            ResolutionModel::NeedLauncherIsFile { install_root, launcher },
            ObservationModel::IsFile(true),
        ) == (ResolutionModel::NeedLauncherText { install_root, launcher }),
        next_resolution(
            ResolutionModel::NeedLauncherText { install_root, launcher },
            ObservationModel::Text(Err(err)),
        ) == ResolutionModel::Failed(ErrorModel::LauncherRead(launcher, err)),
{
}

/// The launcher's text decides the candidate: the whole install root, then
/// the version found, then `resources\app\git\cmd\git.exe`; a text without
/// a version fails naming the launcher.
pub proof fn lemma_launcher_text_step(
    install_root: Seq<Seq<char>>,
    launcher: Seq<Seq<char>>,
    text: Seq<char>,
)
    ensures
        next_resolution(
            ResolutionModel::NeedLauncherText { install_root, launcher },
            ObservationModel::Text(Ok(text)),
        ) == match app_version_of(text) {
            Some(v) => ResolutionModel::NeedCanonical {
                candidate: install_root + seq![
                    v,
                    "resources"@,
                    "app"@,
                    "git"@,
                    "cmd"@,
                    "git.exe"@,
                ],
            },
            None => ResolutionModel::Failed(ErrorModel::VersionTokenMissing(launcher)),
        },
{
}

/// The canonical path is carried as the operating system gave it, whatever
/// characters it holds: canonicalizing leads to the file check on exactly that
/// path, and a positive check resolves to exactly that path. A failed
/// canonicalization names the candidate with the error's text unchanged; a
/// negative check names the canonical path.
pub proof fn lemma_canonical_path_is_kept(
    candidate: Seq<Seq<char>>,
    canonical: Seq<Seq<char>>,
    err: Seq<char>,
)
    ensures
        next_resolution(
            ResolutionModel::NeedCanonical { candidate },
            ObservationModel::Canonical(Ok(canonical)),
        ) == (ResolutionModel::NeedGitIsFile { canonical }),
        next_resolution(
            ResolutionModel::NeedGitIsFile { canonical },
            ObservationModel::IsFile(true),
        ) == (ResolutionModel::Resolved { git: canonical }),
        next_resolution(
            next_resolution(
                ResolutionModel::NeedCanonical { candidate },
                ObservationModel::Canonical(Ok(canonical)),
            ),
            ObservationModel::IsFile(true),
        ) == (ResolutionModel::Resolved { git: canonical }),
        next_resolution(
            ResolutionModel::NeedGitIsFile { canonical },
            ObservationModel::IsFile(false),
        ) == ResolutionModel::Failed(ErrorModel::GitExecutableMissing(canonical)),
        next_resolution(
            ResolutionModel::NeedCanonical { candidate },
            ObservationModel::Canonical(Err(err)),
        ) == ResolutionModel::Failed(ErrorModel::CanonicalizeFailed(candidate, err)),
{
}

/// The state in which resolution starts.
pub fn start_resolution() -> (res: Resolution)
    ensures
        res@ == ResolutionModel::NeedLocalAppData,
{
    Resolution::NeedLocalAppData
}

/// The state that waits on the launcher beneath the Local AppData directory `lad`.
fn launcher_check(lad: String) -> (res: Resolution)
    ensures
        res@ == launcher_check_at(lad@),
{
    let mut install_root: Vec<String> = Vec::new();
    install_root.push(lad);
    install_root.push(String::from_str("GitHubDesktop"));
    let mut launcher: Vec<String> = Vec::new();
    launcher.push(install_root[0].clone());
    launcher.push(String::from_str("GitHubDesktop"));
    launcher.push(String::from_str("bin"));
    launcher.push(String::from_str("github"));
    proof {
        let v = install_root@[0]@;
        assert(parts_view(install_root@) =~= install_root_of(v));
        assert(parts_view(launcher@) =~= launcher_of(install_root_of(v)));
    }
    Resolution::NeedLauncherIsFile { install_root, launcher }
}

/// Decide the state that follows `state` once `observation` is made.
pub fn resolve_step(state: Resolution, observation: Observation) -> (res: Resolution)
    ensures
        res@ == next_resolution(state@, observation@),
{
    match state {
        Resolution::NeedLocalAppData => match observation {
            Observation::LocalAppData(Some(lad)) => {
                if lad.as_str().is_empty() {
                    Resolution::NeedKnownFolder
                } else {
                    launcher_check(lad)
                }
            },
            Observation::LocalAppData(None) => Resolution::NeedKnownFolder,
            _ => Resolution::NeedLocalAppData,
        },
        Resolution::NeedKnownFolder => match observation {
            Observation::KnownFolder(Some(lad)) => launcher_check(lad),
            Observation::KnownFolder(None) => Resolution::Failed(ShimError::LocalAppDataMissing),
            _ => Resolution::NeedKnownFolder,
        },
        Resolution::NeedLauncherIsFile { install_root, launcher } => match observation {
            Observation::IsFile(true) => Resolution::NeedLauncherText { install_root, launcher },
            Observation::IsFile(false) => Resolution::Failed(ShimError::LauncherMissing(launcher)),
            _ => Resolution::NeedLauncherIsFile { install_root, launcher },
        },
        Resolution::NeedLauncherText { install_root, launcher } => match observation {
            Observation::Text(Ok(text)) => match parse_app_version(text.as_str()) {
                Some(version) => Resolution::NeedCanonical {
                    candidate: git_path_for(install_root.as_slice(), version),
                },
                None => Resolution::Failed(ShimError::VersionTokenMissing(launcher)),
            },
            Observation::Text(Err(e)) => Resolution::Failed(ShimError::LauncherRead(launcher, e)),
            _ => Resolution::NeedLauncherText { install_root, launcher },
        },
        Resolution::NeedCanonical { candidate } => match observation {
            Observation::Canonical(Ok(canonical)) => Resolution::NeedGitIsFile { canonical },
            Observation::Canonical(Err(e)) => Resolution::Failed(
                ShimError::CanonicalizeFailed(candidate, e),
            ),
            _ => Resolution::NeedCanonical { candidate },
        },
        Resolution::NeedGitIsFile { canonical } => match observation {
            Observation::IsFile(true) => Resolution::Resolved { git: canonical },
            Observation::IsFile(false) => Resolution::Failed(
                ShimError::GitExecutableMissing(canonical),
            ),
            _ => Resolution::NeedGitIsFile { canonical },
        },
        Resolution::Resolved { git } => Resolution::Resolved { git },
        Resolution::Failed(e) => Resolution::Failed(e),
    }
}

} // verus!
