//! Versions as `pyenv` reports them: a name and the place it came from.
use vstd::prelude::*;

use crate::path::{ancestors, join_path};
use crate::python::PyenvRoot;
use crate::version::{global_version_file, local_version_files};

verus! {

/// A file that names a version on its first line.
#[derive(Debug)]
pub struct VersionFile {
    pub path: String,
}

/// Where a version was set.
#[derive(Debug)]
pub enum Origin {
    /// The shell's version variable.
    Shell,
    /// A version file.
    File(VersionFile),
    /// Nowhere: the system `python` is used.
    System,
}

/// A version name and where it was set.
#[derive(Debug)]
pub struct Version {
    pub name: String,
    pub origin: Origin,
}

impl Default for Version {
    /// The system version, which holds where no other is set.
    fn default() -> (r: Self)
        ensures
            r.name@ == "system"@,
            r.origin is System,
    {
        Version { name: String::from_str("system"), origin: Origin::System }
    }
}

/// The version set in the shell, where its variable holds one.
pub fn shell(var: Option<String>) -> (r: Option<Version>)
    ensures
        match var {
            Some(v) => r matches Some(ver) && ver.name == v && ver.origin is Shell,
            None => r is None,
        },
{
    match var {
        Some(name) => Some(Version { name, origin: Origin::Shell }),
        None => None,
    }
}

/// The local version seen from `dir`, given what reading each of its local
/// version files gave (nearest first, see `local_version_files`): the first
/// that was read, and the file it came from.
pub fn local(dir: &str, reads: Vec<Option<String>>) -> (r: Option<Version>)
    ensures
        match r {
            Some(v) => exists|i: int|
                0 <= i < reads@.len() && i < ancestors(dir@).len() && reads@[i] == Some(v.name) && (
                forall|j: int| 0 <= j < i ==> reads@[j] is None) && (v.origin matches Origin::File(
                    f,
                ) && f.path@ == join_path(ancestors(dir@)[i], ".python-version"@)),
            None => forall|j: int|
                0 <= j < reads@.len() && j < ancestors(dir@).len() ==> reads@[j] is None,
        },
{
    let ghost all = reads@;
    let mut files = local_version_files(dir);
    let mut items = reads;
    let mut i: usize = 0;
    while i < items.len() && i < files.len()
        invariant
            items@ == all,
            reads@ == all,
            files@.len() == ancestors(dir@).len(),
            forall|k: int|
                0 <= k < files@.len() ==> #[trigger] files@[k]@ == join_path(
                    ancestors(dir@)[k],
                    ".python-version"@,
                ),
            forall|j: int| 0 <= j < i ==> items@[j] is None,
            i <= items@.len(),
        decreases items@.len() - i,
    {
        if items[i].is_some() {
            let path = files.remove(i);
            let name = items.remove(i);
            if let Some(name) = name {
                assert(all[i as int] == Some(name));
                return Some(Version { name, origin: Origin::File(VersionFile { path }) });
            }
        }
        i = i + 1;
    }
    None
}

/// The first of `paths` that could be read (`readable`, entry by entry).
pub fn first_found(paths: Vec<String>, readable: &Vec<bool>) -> (r: Option<String>)
    ensures
        match r {
            Some(p) => exists|i: int|
                0 <= i < paths@.len() && i < readable@.len() && readable@[i] && paths@[i] == p
                    && forall|j: int| 0 <= j < i ==> !#[trigger] readable@[j],
            None => forall|j: int|
                0 <= j < paths@.len() && j < readable@.len() ==> !#[trigger] readable@[j],
        },
{
    let ghost all = paths@;
    let mut items = paths;
    let mut i: usize = 0;
    while i < items.len() && i < readable.len()
        invariant
            items@ == all,
            paths@ == all,
            i <= items@.len(),
            forall|j: int| 0 <= j < i ==> !#[trigger] readable@[j],
        decreases items@.len() - i,
    {
        if readable[i] {
            let p = items.remove(i);
            return Some(p);
        }
        i = i + 1;
    }
    None
}

/// The global version, given what reading the root's version file gave.
pub fn global(root: &PyenvRoot, read: Option<String>) -> (r: Option<Version>)
    ensures
        match read {
            Some(v) => r matches Some(ver) && ver.name == v && (ver.origin matches Origin::File(f)
                && f.path@ == join_path(root.root@, "version"@)),
            None => r is None,
        },
{
    match read {
        Some(name) => Some(
            Version {
                name,
                origin: Origin::File(VersionFile { path: global_version_file(root.root.as_str()) }),
            },
        ),
        None => None,
    }
}

/// The version seen from `dir`: the shell's (unless `skip_shell`), else the
/// local, else the global, else the system version.
pub fn get_in_dir(
    dir: &str,
    root: &PyenvRoot,
    skip_shell: bool,
    shell_var: Option<String>,
    local_reads: Vec<Option<String>>,
    global_read: Option<String>,
) -> (r: Version)
    ensures
        !skip_shell && shell_var is Some ==> r.origin is Shell && Some(r.name) == shell_var,
        (skip_shell || shell_var is None) ==> (forall|i: int|
            0 <= i < local_reads@.len() && i < ancestors(dir@).len() && local_reads@[i] is Some
                && (forall|j: int| 0 <= j < i ==> #[trigger] local_reads@[j] is None) ==> (Some(
                r.name,
            ) == local_reads@[i] && (r.origin matches Origin::File(f) && f.path@ == join_path(
                ancestors(dir@)[i],
                ".python-version"@,
            )))),
        (skip_shell || shell_var is None) && (forall|j: int|
            0 <= j < local_reads@.len() && j < ancestors(dir@).len() ==> local_reads@[j] is None)
            ==> match global_read {
            Some(g) => r.name == g && (r.origin matches Origin::File(f) && f.path@ == join_path(
                root.root@,
                "version"@,
            )),
            None => r.name@ == "system"@ && r.origin is System,
        },
{
    if !skip_shell {
        if let Some(v) = shell(shell_var) {
            return v;
        }
    }
    if let Some(v) = local(dir, local_reads) {
        return v;
    }
    if let Some(v) = global(root, global_read) {
        return v;
    }
    Version::default()
}

} // verus!
