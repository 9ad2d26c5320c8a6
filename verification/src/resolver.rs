//! Locate the `git.exe` shipped inside the current user's GitHub Desktop
//! installation.
//!
//! ## Layout assumptions
//!
//! GitHub Desktop on Windows installs per-user under `%LOCALAPPDATA%`:
//!
//! ```text
//! %LOCALAPPDATA%\GitHubDesktop\
//!     bin\
//!         github                 (POSIX shell script launcher)
//!     app-<version>\
//!         resources\app\git\cmd\git.exe
//! ```
//!
//! The launcher script embeds the current `app-<version>` directory in its
//! body. Parsing that token locates the active install without hard-coding a
//! version that changes on every GitHub Desktop update, and without ever
//! referring to a specific user profile name. Multiple `app-*` directories can
//! coexist briefly during an update; the launcher is the single source of
//! truth for which one is active.

use vstd::prelude::*;

use crate::error::parts_view;

verus! {

broadcast use vstd::string::group_string_axioms;

/// Token that always follows the `app-<version>` segment in the launcher
/// script body, regardless of how the user's `%LOCALAPPDATA%` is spelled.
pub const LAUNCHER_NEEDLE: &'static str = "/resources/app/static/github.sh";

/// `p` occurs in `s` starting at index `i`.
pub open spec fn occurs_at(s: Seq<char>, p: Seq<char>, i: int) -> bool {
    0 <= i && i + p.len() <= s.len() && s.subrange(i, i + p.len()) == p
}

/// `i` is the first index at which `p` occurs in `s`.
pub open spec fn is_first_occurrence(s: Seq<char>, p: Seq<char>, i: int) -> bool {
    occurs_at(s, p, i) && forall|j: int| 0 <= j < i ==> !occurs_at(s, p, j)
}

/// The first index at which `p` occurs in `s`, if it occurs.
pub open spec fn first_occurrence(s: Seq<char>, p: Seq<char>) -> Option<int> {
    if exists|i: int| is_first_occurrence(s, p, i) {
        Some(choose|i: int| is_first_occurrence(s, p, i))
    } else {
        None
    }
}

/// `j` is the last index of `c` in `s`.
pub open spec fn is_last_index_of(s: Seq<char>, c: char, j: int) -> bool {
    0 <= j < s.len() && s[j] == c && forall|k: int| j < k < s.len() ==> s[k] != c
}

/// The last index of `c` in `s`, if `c` occurs.
pub open spec fn last_index_of(s: Seq<char>, c: char) -> Option<int> {
    if exists|j: int| is_last_index_of(s, c, j) {
        Some(choose|j: int| is_last_index_of(s, c, j))
    } else {
        None
    }
}

/// The name every GitHub Desktop install directory starts with.
pub open spec fn app_prefix() -> Seq<char> {
    seq!['a', 'p', 'p', '-']
}

/// `seg` names an install directory: `app-` followed by at least one character.
pub open spec fn is_app_segment(seg: Seq<char>) -> bool {
    seg.len() > app_prefix().len() && seg.take(app_prefix().len() as int) == app_prefix()
}

/// The `app-<version>` directory name embedded in a launcher script: the
/// `/`-delimited path component right before the first occurrence of
/// [`LAUNCHER_NEEDLE`], provided it is a well-formed `app-<version>` name.
pub open spec fn app_version_of(contents: Seq<char>) -> Option<Seq<char>> {
    match first_occurrence(contents, LAUNCHER_NEEDLE@) {
        None => None,
        Some(i) => match last_index_of(contents.take(i), '/') {
            None => None,
            Some(j) => if is_app_segment(contents.subrange(j + 1, i)) {
                Some(contents.subrange(j + 1, i))
            } else {
                None
            },
        },
    }
}

/// The characters of `s`, in order.
fn chars_of(s: &str) -> (res: Vec<char>)
    ensures
        res@ == s@,
{
    let mut out: Vec<char> = Vec::new();
    for c in it: s.chars()
        invariant
            out@ == it.seq().take(it.index() as int),
    {
        out.push(c);
    }
    out
}

/// Whether `pat` occurs in `text` at index `at`.
fn matches_at(text: &Vec<char>, pat: &Vec<char>, at: usize) -> (res: bool)
    requires
        at + pat.len() <= text.len(),
    ensures
        res == occurs_at(text@, pat@, at as int),
{
    let mut k: usize = 0;
    while k < pat.len()
        invariant
            k <= pat.len(),
            at + pat.len() <= text.len(),
            forall|m: int| 0 <= m < k ==> text@[at + m] == pat@[m],
        decreases pat.len() - k,
    {
        if text[at + k] != pat[k] {
            assert(text@.subrange(at as int, at + pat.len())[k as int] != pat@[k as int]);
            return false;
        }
        k += 1;
    }
    assert(text@.subrange(at as int, at + pat.len()) =~= pat@);
    true
}

/// The first index at which `pat` occurs in `text`.
fn find_first(text: &Vec<char>, pat: &Vec<char>) -> (res: Option<usize>)
    ensures
        match res {
            Some(i) => is_first_occurrence(text@, pat@, i as int),
            None => forall|i: int| !occurs_at(text@, pat@, i),
        },
{
    if pat.len() > text.len() {
        return None;
    }
    let last = text.len() - pat.len();
    let mut i: usize = 0;
    loop
        invariant
            last + pat.len() == text.len(),
            i <= last,
            forall|j: int| 0 <= j < i ==> !occurs_at(text@, pat@, j),
        decreases last - i,
    {
        if matches_at(text, pat, i) {
            return Some(i);
        }
        if i == last {
            return None;
        }
        i += 1;
    }
}

/// The last index of `c` among the first `end` characters of `text`.
fn find_last_before(text: &Vec<char>, end: usize, c: char) -> (res: Option<usize>)
    requires
        end <= text.len(),
    ensures
        match res {
            Some(j) => is_last_index_of(text@.take(end as int), c, j as int),
            None => forall|j: int| 0 <= j < end ==> text@[j] != c,
        },
{
    let mut k: usize = end;
    while k > 0
        invariant
            k <= end <= text.len(),
            forall|m: int| k <= m < end ==> text@[m] != c,
        decreases k,
    {
        if text[k - 1] == c {
            return Some(k - 1);
        }
        k -= 1;
    }
    None
}

/// Whether `text[start..end]` is a well-formed `app-<version>` name.
fn is_app_segment_at(text: &Vec<char>, start: usize, end: usize) -> (res: bool)
    requires
        start <= end <= text.len(),
    ensures
        res == is_app_segment(text@.subrange(start as int, end as int)),
{
    let ghost seg = text@.subrange(start as int, end as int);
    if end - start <= 4 {
        return false;
    }
    let res = text[start] == 'a' && text[start + 1] == 'p' && text[start + 2] == 'p' && text[start
        + 3] == '-';
    proof {
        if res {
            assert(seg.take(4) =~= app_prefix());
        } else if seg.take(4) == app_prefix() {
            assert(seg.take(4)[0] == text@[start as int]);
            assert(seg.take(4)[1] == text@[start + 1]);
            assert(seg.take(4)[2] == text@[start + 2]);
            assert(seg.take(4)[3] == text@[start + 3]);
        }
    }
    res
}

/// Given the textual contents of the GitHub Desktop launcher script, extract
/// the `app-<version>` directory name embedded in it.
///
/// The launcher embeds a POSIX-style path of the form
/// `.../app-3.4.5/resources/app/static/github.sh`: the result is the path
/// component right before the first occurrence of that suffix. Returns `None`
/// if the suffix is missing, no `/` precedes it, or the component is not
/// `app-` followed by at least one character.
pub fn parse_app_version(launcher_contents: &str) -> (res: Option<&str>)
    ensures
        match res {
            Some(v) => app_version_of(launcher_contents@) == Some(v@),
            None => app_version_of(launcher_contents@) is None,
        },
{
    let text = chars_of(launcher_contents);
    let needle = chars_of(LAUNCHER_NEEDLE);
    let ghost s = launcher_contents@;
    let ghost n = LAUNCHER_NEEDLE@;
    match find_first(&text, &needle) {
        None => {
            assert(!exists|i: int| is_first_occurrence(s, n, i));
            None
        },
        Some(i) => {
            proof {
                assert forall|i2: int| is_first_occurrence(s, n, i2) implies i2 == i by {
                    if i2 < i {
                        assert(!occurs_at(s, n, i2));
                    } else if i2 > i {
                        assert(!occurs_at(s, n, i as int));
                    }
                }
                assert(first_occurrence(s, n) == Some(i as int));
            }
            match find_last_before(&text, i, '/') {
                None => {
                    proof {
                        assert forall|j: int| !is_last_index_of(s.take(i as int), '/', j) by {
                            if 0 <= j < i {
                                assert(s.take(i as int)[j] == s[j]);
                            }
                        }
                    }
                    None
                },
                Some(j) => {
                    proof {
                        let pre = s.take(i as int);
                        assert forall|j2: int| is_last_index_of(pre, '/', j2) implies j2 == j by {
                            if j2 < j {
                                assert(pre[j as int] == '/');
                            } else if j2 > j {
                                assert(pre[j2] == '/');
                            }
                        }
                        assert(last_index_of(pre, '/') == Some(j as int));
                    }
                    if is_app_segment_at(&text, j + 1, i) {
                        Some(launcher_contents.substring_char(j + 1, i))
                    } else {
                        None
                    }
                },
            }
        },
    }
}

/// A version found in a launcher script is an `app-<version>` name without any
/// `/`, and it stands in the script right after a `/` and right before
/// [`LAUNCHER_NEEDLE`].
pub proof fn lemma_found_version_shape(contents: Seq<char>)
    requires
        app_version_of(contents) is Some,
    ensures
        ({
            let v = app_version_of(contents)->0;
            &&& is_app_segment(v)
            &&& forall|k: int| 0 <= k < v.len() ==> v[k] != '/'
            &&& exists|i: int|
                #![trigger occurs_at(contents, LAUNCHER_NEEDLE@, i)]
                i > v.len() && occurs_at(contents, LAUNCHER_NEEDLE@, i) && contents[i - v.len()
                    - 1] == '/' && contents.subrange(i - v.len(), i) == v
        }),
{
    let n = LAUNCHER_NEEDLE@;
    let i = first_occurrence(contents, n)->0;
    assert(is_first_occurrence(contents, n, i));
    let pre = contents.take(i);
    let j = last_index_of(pre, '/')->0;
    assert(is_last_index_of(pre, '/', j));
    let v = contents.subrange(j + 1, i);
    assert forall|k: int| 0 <= k < v.len() implies v[k] != '/' by {
        assert(v[k] == pre[j + 1 + k]);
    }
    assert(occurs_at(contents, n, i));
}

/// The parser does not depend on who the user is: whatever path precedes the
/// `/app-<version>` component (the user's profile directory among it), the
/// version is found, provided that path does not itself hold the launcher
/// suffix.
pub proof fn lemma_version_found_after_any_prefix(
    prefix: Seq<char>,
    version: Seq<char>,
    rest: Seq<char>,
)
    requires
        is_app_segment(version),
        forall|k: int| 0 <= k < version.len() ==> version[k] != '/',
        forall|k: int|
            0 <= k < prefix.len() ==> !occurs_at(
                prefix + seq!['/'] + version + LAUNCHER_NEEDLE@ + rest,
                LAUNCHER_NEEDLE@,
                k,
            ),
    ensures
        app_version_of(prefix + seq!['/'] + version + LAUNCHER_NEEDLE@ + rest) == Some(version),
{
    let n = LAUNCHER_NEEDLE@;
    let text = prefix + seq!['/'] + version + n + rest;
    let p = prefix.len() as int;
    let i = p + 1 + version.len();
    reveal_strlit("/resources/app/static/github.sh");
    assert(n[0] == '/');
    assert(n[1] == 'r');
    assert(version.take(4)[0] == 'a');
    assert(text.subrange(i, i + n.len()) =~= n);
    assert forall|k: int| 0 <= k < i implies !occurs_at(text, n, k) by {
        if k == p {
            if occurs_at(text, n, k) {
                assert(text.subrange(k, k + n.len())[1] == text[p + 1]);
                assert(text[p + 1] == version[0]);
            }
        } else if k > p {
            if occurs_at(text, n, k) {
                assert(text.subrange(k, k + n.len())[0] == text[k]);
                assert(text[k] == version[k - p - 1]);
            }
        }
    }
    assert(is_first_occurrence(text, n, i));
    assert forall|i2: int| is_first_occurrence(text, n, i2) implies i2 == i by {
        if i2 < i {
            assert(!occurs_at(text, n, i2));
        } else if i2 > i {
            assert(!occurs_at(text, n, i));
        }
    }
    assert(first_occurrence(text, n) == Some(i));
    let pre = text.take(i);
    assert(pre[p] == '/');
    assert forall|k: int| p < k < pre.len() implies pre[k] != '/' by {
        assert(pre[k] == version[k - p - 1]);
    }
    assert(is_last_index_of(pre, '/', p));
    assert forall|j2: int| is_last_index_of(pre, '/', j2) implies j2 == p by {
        if j2 < p {
            assert(pre[p] == '/');
        } else if j2 > p {
            assert(pre[j2] != '/');
        }
    }
    assert(last_index_of(pre, '/') == Some(p));
    assert(text.subrange(p + 1, i) =~= version);
}

/// The components of the `git.exe` path beneath a GitHub Desktop install root,
/// given the active `app-<version>` directory name.
pub open spec fn git_layout(install_root: Seq<Seq<char>>, app_version: Seq<char>) -> Seq<Seq<char>> {
    install_root + seq![app_version, "resources"@, "app"@, "git"@, "cmd"@, "git.exe"@]
}

/// The `git.exe` path keeps the whole install root, whatever its length, and
/// appends exactly `app_version`, `resources`, `app`, `git`, `cmd`,
/// `git.exe` to it.
pub proof fn lemma_git_layout_keeps_whole_root(install_root: Seq<Seq<char>>, app_version: Seq<char>)
    ensures
        git_layout(install_root, app_version).len() == install_root.len() + 6,
        git_layout(install_root, app_version).take(install_root.len() as int) == install_root,
        forall|k: int|
            0 <= k < install_root.len() ==> #[trigger] git_layout(install_root, app_version)[k]
                == install_root[k],
        git_layout(install_root, app_version)[install_root.len() as int] == app_version,
        git_layout(install_root, app_version)[install_root.len() + 1int] == "resources"@,
        git_layout(install_root, app_version)[install_root.len() + 2int] == "app"@,
        git_layout(install_root, app_version)[install_root.len() + 3int] == "git"@,
        git_layout(install_root, app_version)[install_root.len() + 4int] == "cmd"@,
        git_layout(install_root, app_version)[install_root.len() + 5int] == "git.exe"@,
{
    let g = git_layout(install_root, app_version);
    assert(g.take(install_root.len() as int) =~= install_root);
}

/// The components of `root` followed by `extra`.
fn extend_path(root: &[String], extra: Vec<String>) -> (res: Vec<String>)
    ensures
        parts_view(res@) == parts_view(root@) + parts_view(extra@),
{
    let mut out: Vec<String> = Vec::new();
    let mut i: usize = 0;
    while i < root.len()
        invariant
            i <= root@.len(),
            out@ == root@.take(i as int),
        decreases root.len() - i,
    {
        out.push(root[i].clone());
        proof {
            assert(root@.take(i + 1) =~= root@.take(i as int).push(root@[i as int]));
        }
        i += 1;
    }
    assert(root@.take(root@.len() as int) =~= root@);
    let ghost before = out@;
    let ghost added = extra@;
    let mut extra = extra;
    out.append(&mut extra);
    assert(parts_view(out@) =~= parts_view(before) + parts_view(added));
    out
}

/// Build the expected `git.exe` path beneath a GitHub Desktop install root,
/// given the resolved `app-<version>` directory name: pure path arithmetic,
/// which touches no file system.
pub fn git_path_for(install_root: &[String], app_version: &str) -> (res: Vec<String>)
    ensures
        parts_view(res@) == git_layout(parts_view(install_root@), app_version@),
{
    let mut tail: Vec<String> = Vec::new();
    tail.push(String::from_str(app_version));
    tail.push(String::from_str("resources"));
    tail.push(String::from_str("app"));
    tail.push(String::from_str("git"));
    tail.push(String::from_str("cmd"));
    tail.push(String::from_str("git.exe"));
    let res = extend_path(install_root, tail);
    proof {
        assert(parts_view(tail@) =~= seq![
            app_version@,
            "resources"@,
            "app"@,
            "git"@,
            "cmd"@,
            "git.exe"@,
        ]);
    }
    res
}

} // verus!
