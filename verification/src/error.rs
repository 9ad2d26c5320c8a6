//! Explicit, typed failure modes for the shim.
//!
//! Every fallible step returns `Result<_, ShimError>`, so callers (and tests)
//! can match on exact variants and surface stable error messages.
//!
//! Paths are carried as their components (the first one is the root the path
//! was derived from, such as the value of `%LOCALAPPDATA%`), and the text of an
//! operating-system error as the message it displays.

use vstd::prelude::*;

verus! {

/// What separates the components of a path when it is displayed.
pub const PATH_SEPARATOR: &'static str = "\\";

/// The components of a path, each taken by its text.
pub open spec fn parts_view(parts: Seq<String>) -> Seq<Seq<char>> {
    parts.map_values(|p: String| p@)
}

/// `p` is a verbatim path: it starts with `\\?\`.
pub open spec fn is_verbatim(p: Seq<char>) -> bool {
    p.len() >= 4 && p[0] == '\\' && p[1] == '\\' && p[2] == '?' && p[3] == '\\'
}

/// `c` separates the components of the path `p` on Windows: `\` always, and
/// `/` too unless `p` is verbatim.
pub open spec fn is_separator_in(p: Seq<char>, c: char) -> bool {
    c == '\\' || (c == '/' && !is_verbatim(p))
}

/// `c` is an ASCII letter, as a drive letter is.
pub open spec fn is_ascii_letter(c: char) -> bool {
    ('a' <= c && c <= 'z') || ('A' <= c && c <= 'Z')
}

/// `p` is a bare drive prefix such as `C:`, with nothing after it.
pub open spec fn is_drive_prefix(p: Seq<char>) -> bool {
    p.len() == 2 && is_ascii_letter(p[0]) && p[1] == ':'
}

/// Joining a component onto the path `p` puts a separator between them: `p`
/// is not empty, does not end in a separator, and is not a bare drive prefix.
pub open spec fn needs_separator(p: Seq<char>) -> bool {
    p.len() > 0 && !is_separator_in(p, p.last()) && !is_drive_prefix(p)
}

/// A path as it is displayed: its components joined one by one, with
/// [`PATH_SEPARATOR`] between two of them wherever the path so far needs one.
pub open spec fn display_path(parts: Seq<Seq<char>>) -> Seq<char>
    decreases parts.len(),
{
    if parts.len() == 0 {
        Seq::empty()
    } else {
        let head = display_path(parts.drop_last());
        if needs_separator(head) {
            head + PATH_SEPARATOR@ + parts.last()
        } else {
            head + parts.last()
        }
    }
}

#[derive(Debug)]
pub enum ShimError {
    /// The host OS did not provide `argv[0]`.
    MissingArgv0,
    /// `%LOCALAPPDATA%` is unset or empty; cannot derive the install root.
    LocalAppDataMissing,
    /// The GitHub Desktop launcher script could not be found at the expected
    /// path. Usually means GitHub Desktop is not installed for this user.
    LauncherMissing(Vec<String>),
    /// Failed to read the launcher script (path, then the error's text).
    LauncherRead(Vec<String>, String),
    /// The launcher script did not contain a parseable `app-<version>` token.
    VersionTokenMissing(Vec<String>),
    /// The resolved `git.exe` path does not exist or is not a file.
    GitExecutableMissing(Vec<String>),
    /// The resolved `git.exe` could not be canonicalized (path, then the error's text).
    CanonicalizeFailed(Vec<String>, String),
    /// Spawning / waiting on the child process failed (the error's text).
    Spawn(String),
}

/// The mathematical value of a [`ShimError`]: paths by their components'
/// texts, error texts by their characters.
pub enum ErrorModel {
    MissingArgv0,
    LocalAppDataMissing,
    LauncherMissing(Seq<Seq<char>>),
    LauncherRead(Seq<Seq<char>>, Seq<char>),
    VersionTokenMissing(Seq<Seq<char>>),
    GitExecutableMissing(Seq<Seq<char>>),
    CanonicalizeFailed(Seq<Seq<char>>, Seq<char>),
    Spawn(Seq<char>),
}

impl View for ShimError {
    type V = ErrorModel;

    open spec fn view(&self) -> ErrorModel {
        match self {
            ShimError::MissingArgv0 => ErrorModel::MissingArgv0,
            ShimError::LocalAppDataMissing => ErrorModel::LocalAppDataMissing,
            ShimError::LauncherMissing(p) => ErrorModel::LauncherMissing(parts_view(p@)),
            ShimError::LauncherRead(p, e) => ErrorModel::LauncherRead(parts_view(p@), e@),
            ShimError::VersionTokenMissing(p) => ErrorModel::VersionTokenMissing(parts_view(p@)),
            ShimError::GitExecutableMissing(p) => ErrorModel::GitExecutableMissing(parts_view(p@)),
            ShimError::CanonicalizeFailed(p, e) => ErrorModel::CanonicalizeFailed(
                parts_view(p@),
                e@,
            ),
            ShimError::Spawn(e) => ErrorModel::Spawn(e@),
        }
    }
}

/// The single-line message that describes an error.
pub open spec fn spec_message(e: ErrorModel) -> Seq<char> {
    match e {
        ErrorModel::MissingArgv0 => "argv[0] was not provided by the OS"@,
        ErrorModel::LocalAppDataMissing => "%LOCALAPPDATA% is not set; cannot locate GitHub Desktop install root"@,
        ErrorModel::LauncherMissing(p) => "GitHub Desktop launcher script not found at "@
            + display_path(p) + " (is GitHub Desktop installed?)"@,
        ErrorModel::LauncherRead(p, err) => "failed to read launcher script "@ + display_path(p)
            + ": "@ + err,
        ErrorModel::VersionTokenMissing(p) => "could not parse `app-<version>` token from "@
            + display_path(p) + " (GitHub Desktop layout may have changed)"@,
        ErrorModel::GitExecutableMissing(p) => "resolved git executable does not exist: "@
            + display_path(p),
        ErrorModel::CanonicalizeFailed(p, err) => "failed to canonicalize "@ + display_path(p)
            + ": "@ + err,
        ErrorModel::Spawn(err) => "failed to spawn git: "@ + err,
    }
}

/// The text of the underlying operating-system error, for the variants that have one.
pub open spec fn spec_source(e: ErrorModel) -> Option<Seq<char>> {
    match e {
        ErrorModel::LauncherRead(_, err) => Some(err),
        ErrorModel::CanonicalizeFailed(_, err) => Some(err),
        ErrorModel::Spawn(err) => Some(err),
        _ => None,
    }
}

/// A single component displays as itself, and a second one follows the
/// first after exactly one separator when the first is a non-empty path that
/// neither ends in a separator nor is a bare drive such as `C:`, and directly
/// otherwise.
pub proof fn lemma_display_path_joins(first: Seq<char>, second: Seq<char>)
    ensures
        display_path(seq![first]) == first,
        (first.len() > 0 && first.last() != '\\' && !(first.last() == '/' && !is_verbatim(first))
            && !(first.len() == 2 && is_ascii_letter(first[0]) && first[1] == ':'))
            ==> display_path(seq![first, second]) == first + seq!['\\'] + second,
        !(first.len() > 0 && first.last() != '\\' && !(first.last() == '/' && !is_verbatim(first))
            && !(first.len() == 2 && is_ascii_letter(first[0]) && first[1] == ':'))
            ==> display_path(seq![first, second]) == first + second,
{
    reveal_strlit("\\");
    reveal_with_fuel(display_path, 3);
    assert(seq![first].drop_last() =~= Seq::<Seq<char>>::empty());
    assert(!needs_separator(Seq::<char>::empty()));
    assert(Seq::<char>::empty() + first =~= first);
    assert(display_path(seq![first]) == first);
    assert(seq![first, second].drop_last() =~= seq![first]);
    assert(PATH_SEPARATOR@ =~= seq!['\\']);
}

/// The message of an error that has an underlying operating-system error
/// ends with that error's text, unchanged.
pub proof fn lemma_message_ends_with_source(e: ErrorModel)
    requires
        spec_source(e) is Some,
    ensures
        ({
            let m = spec_message(e);
            let t = spec_source(e)->0;
            m.len() >= t.len() && m.subrange(m.len() - t.len(), m.len() as int) == t
        }),
{
    let m = spec_message(e);
    let t = spec_source(e)->0;
    assert(m.subrange(m.len() - t.len(), m.len() as int) =~= t);
}

/// Whether `c` is an ASCII letter.
fn ascii_letter(c: char) -> (res: bool)
    ensures
        res == is_ascii_letter(c),
{
    ('a' <= c && c <= 'z') || ('A' <= c && c <= 'Z')
}

/// Whether joining a component onto the path `p` puts a separator between them.
fn separator_needed(p: &str) -> (res: bool)
    ensures
        res == needs_separator(p@),
{
    let n = p.unicode_len();
    if n == 0 {
        return false;
    }
    let verbatim = n >= 4 && p.get_char(0) == '\\' && p.get_char(1) == '\\' && p.get_char(2)
        == '?' && p.get_char(3) == '\\';
    let last = p.get_char(n - 1);
    if last == '\\' || (last == '/' && !verbatim) {
        return false;
    }
    let drive = n == 2 && ascii_letter(p.get_char(0)) && p.get_char(1) == ':';
    !drive
}

/// Display a path: its components joined one by one, with
/// [`PATH_SEPARATOR`] between two of them wherever the path so far needs one.
pub fn render_path(parts: &Vec<String>) -> (res: String)
    ensures
        res@ == display_path(parts_view(parts@)),
{
    let mut out = String::new();
    let mut i: usize = 0;
    while i < parts.len()
        invariant
            i <= parts.len(),
            out@ == display_path(parts_view(parts@).take(i as int)),
        decreases parts.len() - i,
    {
        proof {
            let pv = parts_view(parts@);
            assert(pv.take(i + 1).drop_last() =~= pv.take(i as int));
            assert(pv.take(i + 1).last() == parts@[i as int]@);
        }
        if separator_needed(out.as_str()) {
            out.append(PATH_SEPARATOR);
        }
        out.append(parts[i].as_str());
        i += 1;
    }
    proof {
        assert(parts_view(parts@).take(parts@.len() as int) =~= parts_view(parts@));
    }
    out
}

/// Build `head + middle + tail`.
fn concat3(head: &str, middle: &str, tail: &str) -> (res: String)
    ensures
        res@ == head@ + middle@ + tail@,
{
    let mut out = String::from_str(head);
    out.append(middle);
    out.append(tail);
    out
}

impl ShimError {
    /// The single-line message that describes this error.
    pub fn message(&self) -> (res: String)
        ensures
            res@ == spec_message(self@),
    {
        match self {
            ShimError::MissingArgv0 => String::from_str("argv[0] was not provided by the OS"),
            ShimError::LocalAppDataMissing => String::from_str(
                "%LOCALAPPDATA% is not set; cannot locate GitHub Desktop install root",
            ),
            ShimError::LauncherMissing(p) => {
                let shown = render_path(p);
                concat3(
                    "GitHub Desktop launcher script not found at ",
                    shown.as_str(),
                    " (is GitHub Desktop installed?)",
                )
            },
            ShimError::LauncherRead(p, e) => {
                let shown = render_path(p);
                let mut out = concat3("failed to read launcher script ", shown.as_str(), ": ");
                out.append(e.as_str());
                out
            },
            ShimError::VersionTokenMissing(p) => {
                let shown = render_path(p);
                concat3(
                    "could not parse `app-<version>` token from ",
                    shown.as_str(),
                    " (GitHub Desktop layout may have changed)",
                )
            },
            ShimError::GitExecutableMissing(p) => {
                let shown = render_path(p);
                let mut out = String::from_str("resolved git executable does not exist: ");
                out.append(shown.as_str());
                out
            },
            ShimError::CanonicalizeFailed(p, e) => {
                let shown = render_path(p);
                let mut out = concat3("failed to canonicalize ", shown.as_str(), ": ");
                out.append(e.as_str());
                out
            },
            ShimError::Spawn(e) => {
                let mut out = String::from_str("failed to spawn git: ");
                out.append(e.as_str());
                out
            },
        }
    }

    /// The text of the underlying operating-system error, where there is one.
    pub fn source(&self) -> (res: Option<&String>)
        ensures
            match res {
                Some(t) => spec_source(self@) == Some(t@),
                None => spec_source(self@) is None,
            },
    {
        match self {
            ShimError::LauncherRead(_, e) => Some(e),
            ShimError::CanonicalizeFailed(_, e) => Some(e),
            ShimError::Spawn(e) => Some(e),
            _ => None,
        }
    }
}

} // verus!
