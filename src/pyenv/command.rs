//! The subcommands answered here rather than by the real `pyenv`.
use vstd::prelude::*;

use crate::path::{ancestors, join, join_path};
use crate::pyenv::version::{Origin, Version, VersionFile};
use crate::pyenv::{prefix, shims, which};
use crate::python::PyenvRoot;
use crate::version::{
    first_read, first_some, global_version_file, local_version_files, PyenvVersion,
    PyenvVersionFrom,
};

verus! {

/// A subcommand that is answered here, with its arguments.
#[derive(Debug)]
pub enum Command {
    Root,
    Prefix { version: Option<String>, virtualenv: bool },
    Shell,
    Version,
    VersionFile { dir: Option<String> },
    VersionFileRead { path: String },
    VersionName,
    VersionOrigin,
    Global,
    Local,
    Exec,
    Shims { short: bool },
    Which { command: Option<String> },
}

/// What the commands answered here need to know of their surroundings.
#[derive(Debug)]
pub struct Context {
    /// The `pyenv` root, where one was found.
    pub root: Option<PyenvRoot>,
    /// The active version, as seen from the working directory.
    pub version: Version,
    /// What reading each local version file from the working directory gave,
    /// nearest first (see `local_version_files`).
    pub local_reads: Vec<Option<String>>,
    /// What reading the global version file gave.
    pub global_read: Option<String>,
    /// The names in the shims directory.
    pub shim_names: Vec<String>,
}

/// The answer to a command.
#[derive(Debug)]
pub enum Answer {
    /// Print these lines.
    Print(Vec<String>),
    /// Read this version file and print its first line.
    ReadVersionFile(VersionFile),
    /// Print the first of these version files that can be read.
    FirstReadable(Vec<String>),
    /// The command fails.
    Fail,
}

/// Where the active version was set, in words: the shell variable, or the file.
/// The system version is set nowhere, which `pyenv` reports as the global file.
pub open spec fn origin_text(o: Origin, root: Option<PyenvRoot>) -> Option<Seq<char>> {
    match o {
        Origin::Shell => Some("PYENV_VERSION environment variable"@),
        Origin::File(f) => Some(f.path@),
        Origin::System => match root {
            Some(r) => Some(join_path(r.root@, "version"@)),
            None => None,
        },
    }
}

fn origin_words(ctx: &Context) -> (r: Option<String>)
    ensures
        match origin_text(ctx.version.origin, ctx.root) {
            Some(t) => r matches Some(s) && s@ == t,
            None => r is None,
        },
{
    match &ctx.version.origin {
        Origin::Shell => Some(String::from_str("PYENV_VERSION environment variable")),
        Origin::File(f) => Some(f.path.clone()),
        Origin::System => match &ctx.root {
            Some(r) => Some(join(r.root.as_str(), "version")),
            None => None,
        },
    }
}

fn one_line(s: String) -> (r: Answer)
    ensures
        r matches Answer::Print(v) && v@.len() == 1 && v@[0] == s,
{
    let mut v: Vec<String> = Vec::new();
    v.push(s);
    Answer::Print(v)
}

/// `a` is the answer to `c` in the context `ctx`; see [`Command::run`].
pub open spec fn answers(c: Command, ctx: Context, a: Answer) -> bool {
    match c {
        Command::Root => match ctx.root {
            Some(rt) => a matches Answer::Print(v) && v@.len() == 1 && v@[0] == rt.root,
            None => a is Fail,
        },
        Command::Prefix { version, virtualenv } => match ctx.root {
            Some(rt) => if virtualenv {
                a is Fail
            } else {
                a matches Answer::Print(v) && v@.len() == 1 && v@[0]@ == join_path(
                    join_path(rt.root@, "versions"@),
                    match version {
                        Some(n) => n@,
                        None => ctx.version.name@,
                    },
                )
            },
            None => a is Fail,
        },
        Command::VersionName => a matches Answer::Print(v) && v@.len() == 1 && v@[0]
            == ctx.version.name,
        Command::VersionOrigin => match origin_text(ctx.version.origin, ctx.root) {
            Some(t) => a matches Answer::Print(v) && v@.len() == 1 && v@[0]@ == t,
            None => a is Fail,
        },
        Command::Version => match origin_text(ctx.version.origin, ctx.root) {
            Some(t) => a matches Answer::Print(v) && v@.len() == 1 && v@[0]@
                == ctx.version.name@ + " (set by "@ + t + ")"@,
            None => a is Fail,
        },
        Command::VersionFile { dir } => match dir {
            Some(d) => a matches Answer::FirstReadable(v) && v@.len() == ancestors(d@).len() + (
            if ctx.root is Some {
                1int
            } else {
                0int
            }) && (forall|i: int|
                0 <= i < ancestors(d@).len() ==> #[trigger] v@[i]@ == join_path(
                    ancestors(d@)[i],
                    ".python-version"@,
                )) && (ctx.root matches Some(rt) ==> v@.last()@ == join_path(
                rt.root@,
                "version"@,
            )),
            None => match ctx.version.origin {
                Origin::Shell => a is Fail,
                _ => match origin_text(ctx.version.origin, ctx.root) {
                    Some(t) => a matches Answer::Print(v) && v@.len() == 1 && v@[0]@ == t,
                    None => a is Fail,
                },
            },
        },
        Command::VersionFileRead { path } => a matches Answer::ReadVersionFile(f)
            && f.path == path,
        Command::Shell => match ctx.version.origin {
            Origin::Shell => a matches Answer::Print(v) && v@.len() == 1 && v@[0]
                == ctx.version.name,
            _ => a is Fail,
        },
        Command::Shims { short } => match ctx.root {
            Some(rt) => a matches Answer::Print(v) && v@.len() == ctx.shim_names@.len()
                && forall|i: int|
                0 <= i < v@.len() ==> #[trigger] v@[i]@ == if short {
                    ctx.shim_names@[i]@
                } else {
                    join_path(join_path(rt.root@, "shims"@), ctx.shim_names@[i]@)
                },
            None => a is Fail,
        },
        Command::Which { command } => match (ctx.root, command) {
            (Some(rt), Some(c)) => if ctx.version.name@ == "system"@ {
                a is Fail
            } else {
                a matches Answer::Print(v) && v@.len() == 1 && v@[0]@ == join_path(
                    join_path(
                        join_path(join_path(rt.root@, "versions"@), ctx.version.name@),
                        "bin"@,
                    ),
                    c@,
                )
            },
            _ => a is Fail,
        },
        Command::Global => match ctx.global_read {
            Some(g) => a matches Answer::Print(v) && v@.len() == 1 && v@[0] == g,
            None => a matches Answer::Print(v) && v@.len() == 1 && v@[0]@ == "system"@,
        },
        Command::Local => match first_some(ctx.local_reads@) {
            Some(l) => a matches Answer::Print(v) && v@.len() == 1 && v@[0] == l,
            None => a is Fail,
        },
        Command::Exec => a is Fail,
    }
}

impl Command {
    /// The answer to the command in the context `ctx`:
    /// - `root`: the root; `prefix [v]`: `<root>/versions/<v>` (the active
    ///   version where `v` is not given); `shims`: the shims (see [`shims`]);
    ///   `which <cmd>`: `<root>/versions/<active>/bin/<cmd>`;
    /// - `version-name`, `version-origin`, `version`: the active version, where it
    ///   was set, and both as `<name> (set by <origin>)`; `version-file`: the file
    ///   that sets it; `shell`: the shell's version;
    /// - `version-file-read <path>`: that file is read.
    /// - `global`: the global version file's first line, or `system`;
    ///   `local`: the first readable local version file's first line;
    /// - `version-file <dir>`: the local version files seen from `dir`, then
    ///   the global one, of which the first readable is printed.
    /// Each fails where the context lacks what it needs; `exec`, the prefix of a
    /// virtualenv and `which` for the system version are not done here and fail.
    pub fn run(self, ctx: &Context) -> (r: Answer)
        ensures
            answers(self, *ctx, r),
    {
        match self {
            Command::Root => match &ctx.root {
                Some(rt) => one_line(rt.root.clone()),
                None => Answer::Fail,
            },
            Command::Prefix { version, virtualenv } => match &ctx.root {
                Some(rt) => {
                    let name = match version {
                        Some(n) => n,
                        None => ctx.version.name.clone(),
                    };
                    match prefix(rt, name, virtualenv) {
                        Some(p) => one_line(p),
                        None => Answer::Fail,
                    }
                },
                None => Answer::Fail,
            },
            Command::VersionName => one_line(ctx.version.name.clone()),
            Command::VersionOrigin => match origin_words(ctx) {
                Some(t) => one_line(t),
                None => Answer::Fail,
            },
            Command::Version => match origin_words(ctx) {
                Some(t) => {
                    let mut s = ctx.version.name.clone();
                    s.append(" (set by ");
                    s.append(t.as_str());
                    s.append(")");
                    one_line(s)
                },
                None => Answer::Fail,
            },
            Command::VersionFile { dir } => match dir {
                Some(d) => {
                    let mut files = local_version_files(d.as_str());
                    if let Some(rt) = &ctx.root {
                        let ghost before = files@;
                        files.push(global_version_file(rt.root.as_str()));
                        assert(forall|i: int|
                            0 <= i < before.len() ==> files@[i] == before[i]);
                    }
                    Answer::FirstReadable(files)
                },
                None => match &ctx.version.origin {
                    Origin::Shell => Answer::Fail,
                    _ => match origin_words(ctx) {
                        Some(t) => one_line(t),
                        None => Answer::Fail,
                    },
                },
            },
            Command::VersionFileRead { path } => Answer::ReadVersionFile(VersionFile { path }),
            Command::Shell => match &ctx.version.origin {
                Origin::Shell => one_line(ctx.version.name.clone()),
                _ => Answer::Fail,
            },
            Command::Shims { short } => match &ctx.root {
                Some(rt) => Answer::Print(shims(rt, &ctx.shim_names, short)),
                None => Answer::Fail,
            },
            Command::Which { command } => match (&ctx.root, command) {
                (Some(rt), Some(c)) => {
                    let active = PyenvVersion::from(
                        PyenvVersionFrom::Global,
                        ctx.version.name.clone(),
                    );
                    match which(rt, &active, c.as_str()) {
                        Some(p) => one_line(p),
                        None => Answer::Fail,
                    }
                },
                _ => Answer::Fail,
            },
            Command::Global => match &ctx.global_read {
                Some(g) => one_line(g.clone()),
                None => one_line(String::from_str("system")),
            },
            Command::Local => match first_read(&ctx.local_reads) {
                Some(l) => one_line(l),
                None => Answer::Fail,
            },
            Command::Exec => Answer::Fail,
        }
    }
}

} // verus!
