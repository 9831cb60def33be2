//! A stand-in for `pyenv` that answers some subcommands itself and passes the
//! others to the real one, keeping its answers where that is safe.
use vstd::prelude::*;

use crate::path::{join, join_path};
use crate::probe::PathKind;
use crate::python::{PyenvRoot, PyenvRootError};
use crate::version::PyenvVersion;

pub mod action;
pub mod cache;
pub mod command;
pub mod version;

verus! {

/// What `pyenv root` prints, given where the root is (see `root_location`)
/// and what its metadata says it is: the root, where it is a directory.
pub fn root(location: Result<String, PyenvRootError>, kind: PathKind) -> (r: Option<String>)
    ensures
        match location {
            Ok(p) => if kind is Dir {
                r == Some(p)
            } else {
                r is None
            },
            Err(_) => r is None,
        },
{
    match location {
        Ok(p) => match PyenvRoot::new(p, kind) {
            Ok(root) => Some(root.root),
            Err(_) => None,
        },
        Err(_) => None,
    }
}

/// What `pyenv prefix <version>` prints: `<root>/versions/<version>`.
/// For a virtualenv the prefix of its base `python` is asked for, which is
/// not known here: `None`.
pub fn prefix(root: &PyenvRoot, version: String, virtualenv: bool) -> (r: Option<String>)
    ensures
        virtualenv ==> r is None,
        !virtualenv ==> (r matches Some(p) && p@ == join_path(
            join_path(root.root@, "versions"@),
            version@,
        )),
{
    if virtualenv {
        return None;
    }
    let versions = join(root.root.as_str(), "versions");
    Some(join(versions.as_str(), version.as_str()))
}

/// The directory of the shims: `<root>/shims`.
pub fn shims_dir(root: &PyenvRoot) -> (r: String)
    ensures
        r@ == join_path(root.root@, "shims"@),
{
    join(root.root.as_str(), "shims")
}

/// What `pyenv shims` prints, given the names in the shims directory: the
/// names alone where `short`, else their paths in that directory.
pub fn shims(root: &PyenvRoot, names: &Vec<String>, short: bool) -> (r: Vec<String>)
    ensures
        r@.len() == names@.len(),
        forall|i: int|
            0 <= i < r@.len() ==> #[trigger] r@[i]@ == if short {
                names@[i]@
            } else {
                join_path(join_path(root.root@, "shims"@), names@[i]@)
            },
{
    let dir = shims_dir(root);
    let mut r: Vec<String> = Vec::new();
    let mut i: usize = 0;
    while i < names.len()
        invariant
            dir@ == join_path(root.root@, "shims"@),
            i <= names@.len(),
            r@.len() == i,
            forall|k: int|
                0 <= k < i ==> #[trigger] r@[k]@ == if short {
                    names@[k]@
                } else {
                    join_path(join_path(root.root@, "shims"@), names@[k]@)
                },
        decreases names@.len() - i,
    {
        if short {
            r.push(names[i].clone());
        } else {
            r.push(join(dir.as_str(), names[i].as_str()));
        }
        i = i + 1;
    }
    r
}

/// What `pyenv which <command>` prints for `version`:
/// `<root>/versions/<version>/bin/<command>`. For the system version the
/// command is looked up on `$PATH`, which is not done here: `None`.
pub fn which(root: &PyenvRoot, version: &PyenvVersion, command: &str) -> (r: Option<String>)
    ensures
        version.version@ == "system"@ ==> r is None,
        version.version@ != "system"@ ==> (r matches Some(p) && p@ == join_path(
            join_path(join_path(join_path(root.root@, "versions"@), version.version@), "bin"@),
            command@,
        )),
{
    if version.version == String::from_str("system") {
        return None;
    }
    let p = join(root.root.as_str(), "versions");
    let p = join(p.as_str(), version.version.as_str());
    let p = join(p.as_str(), "bin");
    Some(join(p.as_str(), command))
}

} // verus!
