//! Session log files: a session's file name, the session id a file stands
//! for, the file of a requested session, and the newest session file.
use crate::text::{append_str, opt_view, owned, str_eq};
use vstd::prelude::*;

verus! {

/// What `Path::join` returns for `base` and `name`, as text.
pub uninterp spec fn std_path_join(base: Seq<char>, name: Seq<char>) -> Seq<char>;

/// What `Path::extension` returns for `path`, as text.
pub uninterp spec fn std_path_extension(path: Seq<char>) -> Option<Seq<char>>;

/// What `Path::file_stem` returns for `path`, as text.
pub uninterp spec fn std_path_file_stem(path: Seq<char>) -> Option<Seq<char>>;

/// What `Path::parent` returns for `path`, as text.
pub uninterp spec fn std_path_parent(path: Seq<char>) -> Option<Seq<char>>;

/// What `==` on two `Path`s returns: whether their components are equal.
pub uninterp spec fn std_path_eq(a: Seq<char>, b: Seq<char>) -> bool;

/// A name `Path::join` appends as one normal component on every platform:
/// not empty, not `.` or `..`, and without `/`, a backslash or `:`.
pub open spec fn plain_file_name(name: Seq<char>) -> bool {
    &&& name.len() > 0
    &&& name != "."@
    &&& name != ".."@
    &&& !name.contains('/')
    &&& !name.contains('\\')
    &&& !name.contains(':')
}

/// The stem of a name `<stem>.jsonl` with a non-empty stem.
pub open spec fn jsonl_stem(name: Seq<char>) -> Option<Seq<char>> {
    if name.len() > 6 && name.subrange(name.len() - 6, name.len() as int) == ".jsonl"@ {
        Some(name.subrange(0, name.len() - 6))
    } else {
        None
    }
}

/// Calls `Path::join`; the joined path is named by `std_path_join`. Joined
/// with a plain file name `<stem>.jsonl`, the path's file name is that
/// name, so (as `Path::extension` and `Path::file_stem` document, splitting
/// the file name at its last `.`) its extension is `jsonl` and its stem is
/// `<stem>`.
#[verifier::external_body]
fn path_join(base: &str, name: &str) -> (r: String)
    ensures
        r@ == std_path_join(base@, name@),
        plain_file_name(name@) && jsonl_stem(name@) is Some ==> std_path_extension(r@) == Some(
            "jsonl"@,
        ) && std_path_file_stem(r@) == jsonl_stem(name@),
{
    std::path::Path::new(base).join(name).to_string_lossy().into_owned()
}

/// Calls `Path::extension`; the result is named by `std_path_extension`.
/// A path given as text has a text extension, so `to_str` keeps it whole.
#[verifier::external_body]
fn path_extension(path: &str) -> (r: Option<String>)
    ensures
        opt_view(r) == std_path_extension(path@),
{
    match std::path::Path::new(path).extension() {
        Some(extension) => extension.to_str().map(str::to_owned),
        None => None,
    }
}

/// Calls `Path::file_stem`; the result is named by `std_path_file_stem`.
#[verifier::external_body]
fn path_file_stem(path: &str) -> (r: Option<String>)
    ensures
        opt_view(r) == std_path_file_stem(path@),
{
    match std::path::Path::new(path).file_stem() {
        Some(stem) => stem.to_str().map(str::to_owned),
        None => None,
    }
}

/// Calls `Path::parent`; the result is named by `std_path_parent`.
#[verifier::external_body]
pub(crate) fn path_parent(path: &str) -> (r: Option<String>)
    ensures
        opt_view(r) == std_path_parent(path@),
{
    match std::path::Path::new(path).parent() {
        Some(parent) => parent.to_str().map(str::to_owned),
        None => None,
    }
}

/// Compares two paths with `Path`'s `==`; the result is named by `std_path_eq`.
#[verifier::external_body]
pub(crate) fn path_eq(a: &str, b: &str) -> (r: bool)
    ensures
        r == std_path_eq(a@, b@),
{
    std::path::Path::new(a) == std::path::Path::new(b)
}

/// The file of session `session_id` in `session_dir`: `<session_id>.jsonl`.
pub fn native_session_log_path(session_dir: &str, session_id: &str) -> (p: String)
    ensures
        p@ == std_path_join(session_dir@, session_id@ + ".jsonl"@),
        session_id@.len() > 0 && !session_id@.contains('/') && !session_id@.contains('\\')
            && !session_id@.contains(':') ==> session_id_of_path(p@) == Some(session_id@),
{
    let mut name = owned(session_id);
    append_str(&mut name, ".jsonl");
    proof {
        let n = session_id@ + ".jsonl"@;
        reveal_strlit(".jsonl");
        reveal_strlit(".");
        reveal_strlit("..");
        reveal_strlit("jsonl");
        assert(n.subrange(n.len() - 6, n.len() as int) =~= ".jsonl"@);
        assert(n.subrange(0, n.len() - 6) =~= session_id@);
        if session_id@.len() > 0 && !session_id@.contains('/') && !session_id@.contains('\\')
            && !session_id@.contains(':') {
            assert forall|c: char| (c == '/' || c == '\\' || c == ':') implies !n.contains(c) by {
                if n.contains(c) {
                    let i = choose|i: int| 0 <= i < n.len() && n[i] == c;
                    if i < session_id@.len() {
                        assert(session_id@[i] == c);
                    } else {
                        assert(".jsonl"@[i - session_id@.len()] == c);
                    }
                }
            }
            assert(n.len() > 6);
            assert(n != "."@);
            assert(n != ".."@);
        }
    }
    path_join(session_dir, name.as_str())
}

/// The session id a file stands for, from its extension and stem: the
/// extension must be `jsonl` and the stem non-empty.
pub open spec fn session_id_from_parts(
    extension: Option<Seq<char>>,
    stem: Option<Seq<char>>,
) -> Option<Seq<char>> {
    match extension {
        Some(e) => if e == "jsonl"@ {
            match stem {
                Some(s) => if s.len() > 0 {
                    Some(s)
                } else {
                    None
                },
                None => None,
            }
        } else {
            None
        },
        None => None,
    }
}

/// The session id of a path, over the names of its extension and stem.
pub open spec fn session_id_of_path(path: Seq<char>) -> Option<Seq<char>> {
    session_id_from_parts(std_path_extension(path), std_path_file_stem(path))
}

/// The session id for a file's extension and stem.
pub fn native_session_id_from_parts(extension: Option<&str>, stem: Option<&str>) -> (r: Option<
    String,
>)
    ensures
        opt_view(r) == session_id_from_parts(
            match extension {
                Some(e) => Some(e@),
                None => None,
            },
            match stem {
                Some(s) => Some(s@),
                None => None,
            },
        ),
{
    match extension {
        Some(extension) => {
            if !str_eq(extension, "jsonl") {
                return None;
            }
        },
        None => {
            return None;
        },
    }
    match stem {
        Some(stem) => {
            if stem.is_empty() {
                None
            } else {
                Some(owned(stem))
            }
        },
        None => None,
    }
}

/// The session id a session file stands for: its stem, when the file has
/// the `jsonl` extension and a non-empty stem.
pub fn native_session_id_from_log_path(path: &str) -> (r: Option<String>)
    ensures
        opt_view(r) == session_id_of_path(path@),
{
    let extension = path_extension(path);
    let stem = path_file_stem(path);
    let e = match &extension {
        Some(e) => Some(e.as_str()),
        None => None,
    };
    let s = match &stem {
        Some(s) => Some(s.as_str()),
        None => None,
    };
    native_session_id_from_parts(e, s)
}

/// A requested session id names a file of its own only when it is not
/// empty, not `.` or `..`, and holds no path separator.
pub open spec fn valid_session_id(id: Seq<char>) -> bool {
    &&& id.len() > 0
    &&& id != "."@
    &&& id != ".."@
    &&& !id.contains('/')
    &&& !id.contains('\\')
}

fn has_separator(id: &str) -> (b: bool)
    ensures
        b == (id@.contains('/') || id@.contains('\\')),
{
    let chars = crate::text::chars_of(id);
    let mut i: usize = 0;
    while i < chars.len()
        invariant
            chars@ == id@,
            i <= chars@.len(),
            forall|k: int| 0 <= k < i ==> chars@[k] != '/' && chars@[k] != '\\',
        decreases chars.len() - i,
    {
        if chars[i] == '/' || chars[i] == '\\' {
            assert(id@[i as int] == chars@[i as int]);
            return true;
        }
        i = i + 1;
    }
    false
}

/// The file of a requested session in the session directory.
pub fn native_session_path_for_id_in_dir(session_dir: Option<&str>, session_id: &str) -> (r:
    Option<String>)
    ensures
        !valid_session_id(session_id@) ==> r is None,
        valid_session_id(session_id@) ==> match session_dir {
            Some(d) => r is Some && r.unwrap()@ == std_path_join(d@, session_id@ + ".jsonl"@),
            None => r is None,
        },
{
    if session_id.is_empty() || str_eq(session_id, ".") || str_eq(session_id, "..") {
        return None;
    }
    if has_separator(session_id) {
        return None;
    }
    match session_dir {
        Some(dir) => Some(native_session_log_path(dir, session_id)),
        None => None,
    }
}

/// Both paths have equal parents (or neither has one), as `Path`'s `==` on
/// the parents decides.
pub open spec fn same_parent(a: Seq<char>, b: Seq<char>) -> bool {
    match (std_path_parent(a), std_path_parent(b)) {
        (Some(x), Some(y)) => std_path_eq(x, y),
        (None, None) => true,
        _ => false,
    }
}

/// A selected session file can be switched to when it names a session,
/// exists, and lies beside the current session file.
pub fn native_session_path_is_selectable(
    selected_session_path: &str,
    current_session_path: &str,
    selected_exists: bool,
) -> (b: bool)
    ensures
        b == (session_id_of_path(selected_session_path@) is Some && selected_exists && same_parent(
            selected_session_path@,
            current_session_path@,
        )),
{
    if native_session_id_from_log_path(selected_session_path).is_none() || !selected_exists {
        return false;
    }
    let a = path_parent(selected_session_path);
    let b = path_parent(current_session_path);
    match (&a, &b) {
        (Some(x), Some(y)) => path_eq(x.as_str(), y.as_str()),
        (None, None) => true,
        _ => false,
    }
}

/// Entry `i` is a session file.
pub open spec fn is_session_entry(entries: Seq<(String, u128)>, i: int) -> bool {
    session_id_of_path(entries[i].0@) is Some
}

/// Entry `i` is the newest session file: no session file is newer, and
/// any later one of equal age would have been chosen instead.
pub open spec fn newest_session_entry(entries: Seq<(String, u128)>, i: int) -> bool {
    &&& 0 <= i < entries.len()
    &&& is_session_entry(entries, i)
    &&& forall|j: int|
        0 <= j < entries.len() && is_session_entry(entries, j) ==> #[trigger] entries[j].1
            <= entries[i].1
    &&& forall|j: int|
        i < j < entries.len() && is_session_entry(entries, j) ==> #[trigger] entries[j].1
            < entries[i].1
}

/// The newest session file among directory entries, given in directory
/// order with their modification times: the last of those with the
/// greatest time; `None` when no entry is a session file.
pub fn latest_native_session_log_path(entries: &Vec<(String, u128)>) -> (r: Option<String>)
    ensures
        r is None <==> forall|i: int| 0 <= i < entries@.len() ==> !is_session_entry(entries@, i),
        r is Some ==> exists|i: int|
            newest_session_entry(entries@, i) && r.unwrap()@ == #[trigger] entries@[i].0@,
{
    let mut best: Option<usize> = None;
    let mut k: usize = 0;
    while k < entries.len()
        invariant
            k <= entries@.len(),
            best is None ==> forall|i: int| 0 <= i < k ==> !is_session_entry(entries@, i),
            best matches Some(b) ==> {
                &&& b < k
                &&& is_session_entry(entries@, b as int)
                &&& forall|j: int|
                    0 <= j < k && is_session_entry(entries@, j) ==> #[trigger] entries@[j].1
                        <= entries@[b as int].1
                &&& forall|j: int|
                    b < j < k && is_session_entry(entries@, j) ==> #[trigger] entries@[j].1
                        < entries@[b as int].1
            },
        decreases entries.len() - k,
    {
        let selectable = native_session_id_from_log_path(entries[k].0.as_str()).is_some();
        if selectable {
            match best {
                None => {
                    best = Some(k);
                },
                Some(b) => {
                    if entries[k].1 >= entries[b].1 {
                        best = Some(k);
                    }
                },
            }
        }
        k = k + 1;
    }
    match best {
        None => None,
        Some(b) => {
            assert(newest_session_entry(entries@, b as int));
            Some(entries[b].0.clone())
        },
    }
}

/// One directory from the launch directory upwards, with the project
/// markers found in it: a `.git` entry, and `.yach/APPEND_SYSTEM.md`.
#[derive(Debug, Clone, PartialEq, Eq)]
pub struct NativeAncestorMarkers {
    pub directory: String,
    pub has_git: bool,
    pub has_append_system: bool,
}

/// The project root for a launch directory, given its ancestors nearest
/// first: the nearest one holding `.git`, else the nearest holding
/// `.yach/APPEND_SYSTEM.md`, else none.
pub fn nearest_project_marker_root(ancestors: &Vec<NativeAncestorMarkers>) -> (r: Option<String>)
    ensures
        (exists|i: int| 0 <= i < ancestors@.len() && #[trigger] ancestors@[i].has_git) ==> exists|i: int|
            0 <= i < ancestors@.len() && ancestors@[i].has_git && (forall|j: int|
                0 <= j < i ==> !#[trigger] ancestors@[j].has_git) && r == Some(ancestors@[i].directory),
        (forall|i: int| 0 <= i < ancestors@.len() ==> !#[trigger] ancestors@[i].has_git) && (exists|i: int|
            0 <= i < ancestors@.len() && #[trigger] ancestors@[i].has_append_system) ==> exists|i: int|
            0 <= i < ancestors@.len() && ancestors@[i].has_append_system && (forall|j: int|
                0 <= j < i ==> !#[trigger] ancestors@[j].has_append_system) && r == Some(
                ancestors@[i].directory,
            ),
        (forall|i: int| 0 <= i < ancestors@.len() ==> !#[trigger] ancestors@[i].has_git) && (forall|i: int|
            0 <= i < ancestors@.len() ==> !#[trigger] ancestors@[i].has_append_system) ==> r is None,
{
    let mut i: usize = 0;
    while i < ancestors.len()
        invariant
            i <= ancestors@.len(),
            forall|j: int| 0 <= j < i ==> !#[trigger] ancestors@[j].has_git,
        decreases ancestors.len() - i,
    {
        if ancestors[i].has_git {
            return Some(ancestors[i].directory.clone());
        }
        i = i + 1;
    }
    let mut k: usize = 0;
    while k < ancestors.len()
        invariant
            k <= ancestors@.len(),
            forall|j: int| 0 <= j < ancestors@.len() ==> !#[trigger] ancestors@[j].has_git,
            forall|j: int| 0 <= j < k ==> !#[trigger] ancestors@[j].has_append_system,
        decreases ancestors.len() - k,
    {
        if ancestors[k].has_append_system {
            return Some(ancestors[k].directory.clone());
        }
        k = k + 1;
    }
    None
}

} // verus!
