//! Paths as text: the home shorthand and the path of an entry below the base
//! directory.

use vstd::prelude::*;

verus! {

/// The base directory whose subdirectories are the projects.
pub const BASE_DIR: &'static str = "~/Documents/rakesh/projects";

/// The path starts with the home shorthand, a tilde and a slash.
pub open spec fn has_home_prefix(path: Seq<char>) -> bool {
    path.len() >= 2 && path[0] == '~' && path[1] == '/'
}

/// The path with the home shorthand resolved: the home directory takes the
/// place of the tilde and the rest stays as it is. A path without the
/// shorthand, and any path while no home directory is known, stays unchanged.
pub open spec fn expanded(path: Seq<char>, home: Option<Seq<char>>) -> Seq<char> {
    match home {
        Some(h) => if has_home_prefix(path) {
            h + path.skip(1)
        } else {
            path
        },
        None => path,
    }
}

/// `full` is what `path` resolves to under some home directory, or under none.
pub open spec fn is_expansion_of(full: Seq<char>, path: Seq<char>) -> bool {
    full == path || exists|h: Seq<char>| full == expanded(path, Some(h))
}

/// The path of `name` directly below `parent`.
pub open spec fn child_of(parent: Seq<char>, name: Seq<char>) -> Seq<char> {
    parent + seq!['/'] + name
}

/// The path of an entry of a project below the base directory.
pub open spec fn entry_path_of(base: Seq<char>, project: Seq<char>, entry: Seq<char>) -> Seq<
    char,
> {
    child_of(child_of(base, project), entry)
}

/// What an optional text holds.
pub open spec fn text_of(text: Option<String>) -> Option<Seq<char>> {
    match text {
        Some(t) => Some(t@),
        None => None,
    }
}

/// The home directory of the current user as `dirs::home_dir` reports it, as
/// text. Nothing is claimed of the answer: it depends on the environment of the
/// process. A home directory whose path is not valid Unicode counts as unknown.
#[verifier::external_body]
fn home_dir() -> (home: Option<String>) {
    dirs::home_dir().and_then(|p| p.into_os_string().into_string().ok())
}

/// Tells whether the path starts with the home shorthand.
pub fn starts_with_home(path: &str) -> (r: bool)
    ensures
        r == has_home_prefix(path@),
{
    path.unicode_len() >= 2 && path.get_char(0) == '~' && path.get_char(1) == '/'
}

/// Resolves the home shorthand of `path` against the given home directory.
pub fn expand_home_with(path: &str, home: Option<String>) -> (full: String)
    ensures
        full@ == expanded(path@, text_of(home)),
{
    match home {
        Some(h) => {
            if starts_with_home(path) {
                let rest = path.substring_char(1, path.unicode_len());
                h.concat(rest)
            } else {
                path.to_owned()
            }
        },
        None => path.to_owned(),
    }
}

/// Resolves the home shorthand of `path` against the home directory of the
/// current user, looked up anew at each call.
pub fn expand_home(path: &str) -> (full: String)
    ensures
        is_expansion_of(full@, path@),
        !has_home_prefix(path@) ==> full@ == path@,
{
    let home = home_dir();
    let ghost known = text_of(home);
    let full = expand_home_with(path, home);
    proof {
        if let Some(h) = known {
            assert(full@ == expanded(path@, Some(h)));
        }
    }
    full
}

/// The base directory as it resolves at this moment.
pub fn base_dir() -> (full: String)
    ensures
        is_expansion_of(full@, BASE_DIR@),
{
    expand_home(BASE_DIR)
}

/// The path of `name` directly below `parent`.
pub fn child_path(parent: &str, name: &str) -> (path: String)
    ensures
        path@ == child_of(parent@, name@),
{
    proof {
        reveal_strlit("/");
    }
    let mut path = parent.to_owned();
    path.append("/");
    assert(path@ =~= parent@ + seq!['/']);
    path.append(name);
    path
}

/// The path of an entry of a project below the base directory: the base, the
/// project's name and the entry's name, in that order.
pub fn entry_path(base: &str, project: &str, entry: &str) -> (path: String)
    ensures
        path@ == entry_path_of(base@, project@, entry@),
{
    let dir = child_path(base, project);
    child_path(dir.as_str(), entry)
}

} // verus!
