//! Paths that are given relative to the directory of the configuration.

use vstd::prelude::*;

verus! {

/// `Path::is_absolute`: whether a path is absolute on this platform.
#[verifier::external_body]
fn path_is_absolute(path: &str) -> (absolute: bool) {
    std::path::Path::new(path).is_absolute()
}

/// `Path::join`: a path put behind a base directory, as text.
#[verifier::external_body]
fn path_join(base: &str, path: &str) -> (joined: String) {
    std::path::Path::new(base).join(path).to_string_lossy().to_string()
}

/// `Path::parent`: the directory that holds a path, as text, where the path
/// has one.
#[verifier::external_body]
pub(crate) fn path_parent(path: &str) -> (parent: Option<String>) {
    std::path::Path::new(path).parent().map(|p| p.to_string_lossy().to_string())
}

/// The path to use, given what the platform says of it: an absolute path, and
/// a path without a base to put it behind, stay as they are; any other is
/// taken as joined to the base.
pub open spec fn resolved(path: Seq<char>, absolute: bool, joined: Option<Seq<char>>) -> Seq<char> {
    if absolute {
        path
    } else {
        match joined {
            Some(j) => j,
            None => path,
        }
    }
}

/// Picks the path to use: see [`resolved`].
pub fn pick_path(path: &str, absolute: bool, joined: Option<String>) -> (picked: String)
    ensures
        picked@ == resolved(path@, absolute, crate::text::opt_text(joined)),
{
    if absolute {
        String::from_str(path)
    } else {
        match joined {
            Some(j) => j,
            None => String::from_str(path),
        }
    }
}

/// Resolves a path against the base directory, if there is one. Without a
/// base the path stays as it is; with one, it is for the platform to say
/// whether the path is absolute and what the joined path is.
pub fn resolve_path(path: &str, base_path: Option<&str>) -> (resolved_path: String)
    ensures
        base_path is None ==> resolved_path@ == path@,
{
    let absolute = path_is_absolute(path);
    let joined = match base_path {
        Some(base) => if absolute {
            None
        } else {
            Some(path_join(base, path))
        },
        None => None,
    };
    pick_path(path, absolute, joined)
}

} // verus!
