//! Finding the `python` to run: the `pyenv` one, or else the next one on `$PATH`.
use vstd::prelude::*;

use crate::path::{file_name, file_name_of, join, join_path};
use crate::probe::{file_id, home_dir, is_executable_file, FileId, PathKind};
use crate::version::PyenvVersion;

verus! {

/// A root `pyenv` directory.
#[derive(Debug)]
pub struct PyenvRoot {
    pub root: String,
}

/// Why the `pyenv` root could not be found.
#[derive(Debug)]
pub enum PyenvRootError {
    /// Neither the root variable nor a home directory is there.
    NoEnvVarOrHomeDir,
    /// The `pyenv` root is not a directory.
    NotADir { root: String },
    /// The `pyenv` root could not be accessed (usually it does not exist).
    IOError { root: String },
}

/// `<root>/versions/<version>/bin/python`.
pub open spec fn version_python_path(root: Seq<char>, version: Seq<char>) -> Seq<char> {
    join_path(join_path(join_path(join_path(root, "versions"@), version), "bin"@), "python"@)
}

/// `<root>/shims/python`.
pub open spec fn shim_python_path(root: Seq<char>) -> Seq<char> {
    join_path(join_path(root, "shims"@), "python"@)
}

/// Where the `pyenv` root is: the root variable's value where it is set,
/// else `.pyenv` in the home directory.
pub fn root_location(env_root: Option<String>) -> (r: Result<String, PyenvRootError>)
    ensures
        env_root matches Some(root) ==> r == Ok::<String, PyenvRootError>(root),
        env_root is None ==> match r {
            Ok(p) => exists|home: Seq<char>| p@ == join_path(home, ".pyenv"@),
            Err(e) => e is NoEnvVarOrHomeDir,
        },
{
    match env_root {
        Some(root) => Ok(root),
        None => match home_dir() {
            Some(home) => Ok(join(home.as_str(), ".pyenv")),
            None => Err(PyenvRootError::NoEnvVarOrHomeDir),
        },
    }
}

impl PyenvRoot {
    /// The root at `root`, given what its metadata says it is.
    pub fn new(root: String, kind: PathKind) -> (r: Result<Self, PyenvRootError>)
        ensures
            kind is Dir ==> (r matches Ok(pr) && pr.root == root),
            kind is Missing ==> (r matches Err(PyenvRootError::IOError { root: p }) && p == root),
            (kind is File || kind is Other) ==> (r matches Err(
                PyenvRootError::NotADir { root: p },
            ) && p == root),
    {
        match kind {
            PathKind::Dir => Ok(PyenvRoot { root }),
            PathKind::Missing => Err(PyenvRootError::IOError { root }),
            _ => Err(PyenvRootError::NotADir { root }),
        }
    }

    /// The path to the root directory.
    pub fn path(&self) -> (r: &String)
        ensures
            r == &self.root,
    {
        &self.root
    }

    /// The `python` of `version` under this root.
    pub fn python_version_path(&self, version: &PyenvVersion) -> (r: UncheckedPythonPath)
        ensures
            r.path@ == version_python_path(self.root@, version.version@),
    {
        let p = join(self.root.as_str(), "versions");
        let p = join(p.as_str(), version.version.as_str());
        let p = join(p.as_str(), "bin");
        UncheckedPythonPath::from_existing(join(p.as_str(), "python"))
    }

    /// The `python` shim under this root.
    pub fn python_shim_path(&self) -> (r: UncheckedPythonPath)
        ensures
            r.path@ == shim_python_path(self.root@),
    {
        let p = join(self.root.as_str(), "shims");
        UncheckedPythonPath::from_existing(join(p.as_str(), "python"))
    }

    /// The `python` shim under this root, where it is an executable.
    pub fn shim_python(&self) -> (r: Option<PythonExecutable>)
        ensures
            r matches Some(e) ==> e.path@ == shim_python_path(self.root@) && e.wf(),
    {
        match self.python_shim_path().check() {
            Ok(e) => Some(e),
            Err(_) => None,
        }
    }
}

/// A path that might be a `python` executable.
#[derive(Debug)]
pub struct UncheckedPythonPath {
    pub path: String,
}

impl UncheckedPythonPath {
    pub fn from_existing(path: String) -> (r: Self)
        ensures
            r.path == path,
    {
        UncheckedPythonPath { path }
    }

    /// See [`PythonExecutable::new`].
    pub fn check(self) -> (r: Result<PythonExecutable, (PyenvPythonExecutableError, String)>)
        ensures
            r matches Ok(e) ==> e.path == self.path && e.name is None && e.wf(),
            r matches Err((_, p)) ==> p == self.path,
            exists|probe: (Option<FileId>, bool)|
                r == #[trigger] probe_outcome(self.path, probe),
    {
        PythonExecutable::new(self.path)
    }
}

/// The outcome of checking `path`, given whether it could be opened (and its
/// identity) and whether it is an executable file: `NotFound` exactly where
/// it could not be opened, else `NotExecutable` unless it is an executable
/// file with a file name.
pub open spec fn probe_outcome(path: String, probe: (Option<FileId>, bool)) -> Result<
    PythonExecutable,
    (PyenvPythonExecutableError, String),
> {
    match probe.0 {
        None => Err((PyenvPythonExecutableError::NotFound, path)),
        Some(i) => if probe.1 && file_name_of(path@) is Some {
            Ok(PythonExecutable { name: None, path, id: i })
        } else {
            Err((PyenvPythonExecutableError::NotExecutable, path))
        },
    }
}

/// An existing (likely) `python` executable, compared by file identity.
#[derive(Debug)]
pub struct PythonExecutable {
    /// The name to run it as (argv0); where `None`, the file name of `path`.
    pub name: Option<String>,
    pub path: String,
    pub id: FileId,
}

impl PartialEq for PythonExecutable {
    fn eq(&self, other: &PythonExecutable) -> (r: bool) {
        self.id == other.id
    }
}

impl vstd::std_specs::cmp::PartialEqSpecImpl for PythonExecutable {
    open spec fn obeys_eq_spec() -> bool {
        true
    }

    open spec fn eq_spec(&self, other: &PythonExecutable) -> bool {
        self.id == other.id
    }
}

/// Why a path is not a `python` executable.
#[derive(Debug)]
pub enum PyenvPythonExecutableError {
    /// It cannot be opened.
    NotFound,
    /// It is not an executable file.
    NotExecutable,
}

impl PythonExecutable {
    /// It has a name to run it as.
    pub open spec fn wf(&self) -> bool {
        self.name is Some || file_name_of(self.path@) is Some
    }

    /// The name to run it as.
    pub open spec fn name_of(&self) -> Seq<char> {
        match self.name {
            Some(n) => n@,
            None => file_name_of(self.path@)->0,
        }
    }

    pub fn path(&self) -> (r: &String)
        ensures
            r == &self.path,
    {
        &self.path
    }

    pub fn into_path(self) -> (r: String)
        ensures
            r == self.path,
    {
        self.path
    }

    /// The name to run it as (argv0).
    pub fn name(&self) -> (r: String)
        requires
            self.wf(),
        ensures
            r@ == self.name_of(),
    {
        match &self.name {
            Some(n) => n.clone(),
            None => match file_name(self.path.as_str()) {
                Some(n) => n,
                None => String::new(),
            },
        }
    }

    /// Its file identity.
    pub fn handle(&self) -> (r: FileId)
        ensures
            r == self.id,
    {
        self.id
    }

    /// The outcome of checking `path`, given whether it could be opened (and
    /// its identity) and whether it is an executable file. A path without a
    /// file name (`/`, `..`) is never an executable file.
    pub fn from_probe(path: String, id: Option<FileId>, executable: bool) -> (r: Result<
        Self,
        (PyenvPythonExecutableError, String),
    >)
        ensures
            id is None ==> (r matches Err((e, p)) && e is NotFound && p == path),
            id is Some ==> (r is Ok <==> executable && file_name_of(path@) is Some),
            r matches Ok(e) ==> e.path == path && e.name is None && e.id == id->0 && e.wf(),
            r matches Err((e, p)) ==> p == path && (id is Some ==> e is NotExecutable),
            r == probe_outcome(path, (id, executable)),
    {
        match id {
            None => Err((PyenvPythonExecutableError::NotFound, path)),
            Some(id) => {
                if !executable || file_name(path.as_str()).is_none() {
                    Err((PyenvPythonExecutableError::NotExecutable, path))
                } else {
                    Ok(PythonExecutable { name: None, path, id })
                }
            },
        }
    }

    /// Checks that `path` can be opened and is an executable file
    /// (it cannot tell that it is Python); see [`PythonExecutable::from_probe`].
    pub fn new(path: String) -> (r: Result<Self, (PyenvPythonExecutableError, String)>)
        ensures
            r matches Ok(e) ==> e.path == path && e.name is None && e.wf(),
            r matches Err((_, p)) ==> p == path,
            exists|probe: (Option<FileId>, bool)|
                r == #[trigger] probe_outcome(path, probe),
    {
        let id = file_id(path.as_str());
        let executable = match id {
            Some(_) => is_executable_file(path.as_str()),
            None => false,
        };
        let ghost p = path;
        let r = PythonExecutable::from_probe(path, id, executable);
        assert(r == probe_outcome(p, (id, executable)));
        r
    }

    /// The running executable at `exe`, run under the name `argv0`.
    pub fn current(argv0: Option<String>, exe: String) -> (r: Option<Self>)
        ensures
            r matches Some(e) ==> e.path == exe && e.wf() && match argv0 {
                Some(a) => e.name matches Some(n) ==> file_name_of(a@) == Some(n@),
                None => e.name is None,
            },
            r matches Some(e) ==> argv0 matches Some(a) && file_name_of(a@) is Some ==> e.name
                is Some,
    {
        let name = match argv0 {
            Some(a) => file_name(a.as_str()),
            None => None,
        };
        if name.is_none() && file_name(exe.as_str()).is_none() {
            return None;
        }
        match file_id(exe.as_str()) {
            Some(id) => Some(PythonExecutable { name, path: exe, id }),
            None => None,
        }
    }

    /// `<path>`.
    pub fn describe(&self) -> (r: String)
        ensures
            r@ == self.path@,
    {
        self.path.clone()
    }
}

/// Access to the `python` executable that a value stands for.
pub trait HasPython {
    fn python(&self) -> &PythonExecutable;

    fn into_python(self) -> PythonExecutable;
}

impl HasPython for PythonExecutable {
    fn python(&self) -> &PythonExecutable {
        self
    }

    fn into_python(self) -> PythonExecutable {
        self
    }
}

/// An existing `pyenv` `python` executable.
#[derive(Debug)]
pub struct Pyenv {
    pub root: PyenvRoot,
    pub version: PyenvVersion,
    pub python_path: PythonExecutable,
}

impl HasPython for Pyenv {
    fn python(&self) -> &PythonExecutable {
        &self.python_path
    }

    fn into_python(self) -> PythonExecutable {
        self.python_path
    }
}

/// Why the `pyenv` `python` could not be found.
#[derive(Debug)]
pub enum PyenvError {
    /// No root was found, so neither a version nor an executable could be.
    NoRoot { error: PyenvRootError },
    /// No version is set: not in the shell, locally, nor globally.
    NoVersion { root: PyenvRoot },
    /// The version's `python` is missing or not an executable.
    NoExecutable {
        error: PyenvPythonExecutableError,
        root: PyenvRoot,
        version: PyenvVersion,
        python_path: String,
    },
}

impl Pyenv {
    /// The `pyenv` `python`, from the root and the active version, or the
    /// first stage that failed.
    pub fn new(root: Result<PyenvRoot, PyenvRootError>, version: Option<PyenvVersion>) -> (r:
        Result<Self, PyenvError>)
        ensures
            root matches Err(e) ==> (r matches Err(PyenvError::NoRoot { error }) && error == e),
            root matches Ok(rt) ==> (version is None ==> (r matches Err(
                PyenvError::NoVersion { root },
            ) && root == rt)),
            root matches Ok(rt) ==> (version matches Some(v) ==> match r {
                Ok(p) => p.root == rt && p.version == v && p.python_path.path@
                    == version_python_path(rt.root@, v.version@) && p.python_path.wf() && exists|
                    probe: (Option<FileId>, bool),
                | #[trigger] probe_outcome(p.python_path.path, probe) == Ok::<
                    PythonExecutable,
                    (PyenvPythonExecutableError, String),
                >(p.python_path),
                Err(PyenvError::NoExecutable { error, root, version, python_path }) => root == rt
                    && version == v && python_path@ == version_python_path(rt.root@, v.version@)
                    && exists|probe: (Option<FileId>, bool)|
                    #[trigger] probe_outcome(python_path, probe) == Err::<
                        PythonExecutable,
                        (PyenvPythonExecutableError, String),
                    >((error, python_path)),
                Err(_) => false,
            }),
    {
        let root = match root {
            Err(error) => return Err(PyenvError::NoRoot { error }),
            Ok(root) => root,
        };
        let version = match version {
            None => return Err(PyenvError::NoVersion { root }),
            Some(version) => version,
        };
        let unchecked = root.python_version_path(&version);
        let ghost path = unchecked.path;
        let checked = unchecked.check();
        let ghost probe = choose|probe: (Option<FileId>, bool)|
            checked == #[trigger] probe_outcome(path, probe);
        match checked {
            Err((error, python_path)) => {
                assert(probe_outcome(python_path, probe) == Err::<
                    PythonExecutable,
                    (PyenvPythonExecutableError, String),
                >((error, python_path)));
                let result = Err(PyenvError::NoExecutable { error, root, version, python_path });
                assert(result matches Err(PyenvError::NoExecutable { error: e2, python_path: p2, .. })
                    && exists|w: (Option<FileId>, bool)|
                    #[trigger] probe_outcome(p2, w) == Err::<
                        PythonExecutable,
                        (PyenvPythonExecutableError, String),
                    >((e2, p2)));
                result
            },
            Ok(python_path) => {
                assert(probe_outcome(python_path.path, probe) == Ok::<
                    PythonExecutable,
                    (PyenvPythonExecutableError, String),
                >(python_path));
                Ok(Pyenv { root, version, python_path })
            },
        }
    }

    /// `pyenv <version> at <path>`.
    pub fn describe(&self) -> (r: String)
        ensures
            r@ == "pyenv "@ + self.version.describe_spec() + " at "@ + self.python_path.path@,
    {
        let mut r = String::from_str("pyenv ");
        let v = self.version.describe();
        r.append(v.as_str());
        r.append(" at ");
        r.append(self.python_path.path.as_str());
        r
    }
}

/// A `python` executable: the `pyenv` one, or the system one (the next on `$PATH`).
#[derive(Debug)]
pub enum Python {
    Pyenv(Pyenv),
    System(PythonExecutable),
}

impl HasPython for Python {
    fn python(&self) -> &PythonExecutable {
        match self {
            Python::Pyenv(pyenv) => pyenv.python(),
            Python::System(python) => python.python(),
        }
    }

    fn into_python(self) -> PythonExecutable {
        match self {
            Python::Pyenv(pyenv) => pyenv.into_python(),
            Python::System(python) => python.into_python(),
        }
    }
}

/// Why no system `python` was found.
#[derive(Debug)]
pub enum SystemPythonError {
    /// The running executable could not be identified.
    NoCurrentExe,
    /// There is no `$PATH` to search.
    NoPath,
    /// No other `python` is on `$PATH`.
    NotInPath,
}

/// Neither a `pyenv` nor a system `python` was found.
#[derive(Debug)]
pub struct PythonError {
    pub pyenv: PyenvError,
    pub system: SystemPythonError,
}

/// A candidate that may stand for the system `python`: it is neither the
/// running executable nor the shim, by file identity.
pub open spec fn is_other_python(
    candidate: FileId,
    current: FileId,
    shim: Option<PythonExecutable>,
) -> bool {
    candidate != current && match shim {
        Some(s) => candidate != s.id,
        None => true,
    }
}

/// `found` may be what checking `<dir>/python` gave for the first
/// directories of `dirs`, in order.
pub open spec fn probed(found: Seq<Option<PythonExecutable>>, dirs: Seq<String>) -> bool {
    &&& found.len() <= dirs.len()
    &&& forall|j: int|
        0 <= j < found.len() ==> (#[trigger] found[j] matches Some(x) ==> x.path@ == join_path(
            dirs[j]@,
            "python"@,
        ) && x.name is None && x.wf())
}

/// A checked candidate that may stand for the system `python`.
pub open spec fn acceptable(
    o: Option<PythonExecutable>,
    current: FileId,
    shim: Option<PythonExecutable>,
) -> bool {
    o matches Some(e) && is_other_python(e.id, current, shim)
}

/// What the system search may give, for each outcome of the checks on
/// `<dir>/python`: the running executable and `$PATH` are needed (in that
/// order); then the first acceptable `python` in `$PATH` order wins, and
/// `NotInPath` comes only where none of them was acceptable.
pub open spec fn system_result(
    r: Result<PythonExecutable, SystemPythonError>,
    current: Option<PythonExecutable>,
    shim: Option<PythonExecutable>,
    dirs: Option<Vec<String>>,
) -> bool {
    match (current, dirs) {
        (None, _) => r matches Err(SystemPythonError::NoCurrentExe),
        (Some(_), None) => r matches Err(SystemPythonError::NoPath),
        (Some(c), Some(d)) => match r {
            Ok(e) => exists|found: Seq<Option<PythonExecutable>>|
                probed(found, d@) && found.len() > 0 && found.last() == Some(e) && acceptable(
                    found.last(),
                    c.id,
                    shim,
                ) && forall|j: int|
                    0 <= j < found.len() - 1 ==> !acceptable(#[trigger] found[j], c.id, shim),
            Err(SystemPythonError::NotInPath) => exists|found: Seq<Option<PythonExecutable>>|
                probed(found, d@) && found.len() == d@.len() && forall|j: int|
                    0 <= j < found.len() ==> !acceptable(#[trigger] found[j], c.id, shim),
            Err(_) => false,
        },
    }
}

impl Python {
    /// Whether `candidate` may stand for the system `python`: it is neither
    /// the running executable nor the shim, by file identity (so not through
    /// a link or another alias either).
    pub fn is_other(
        candidate: &PythonExecutable,
        current: &PythonExecutable,
        shim: &Option<PythonExecutable>,
    ) -> (r: bool)
        ensures
            r == is_other_python(candidate.id, current.id, *shim),
    {
        candidate.id != current.id && match shim {
            Some(s) => candidate.id != s.id,
            None => true,
        }
    }

    /// The index of the first checked candidate that may stand for the
    /// system `python`: one that was found and is neither the running
    /// executable nor the shim.
    pub fn first_other(
        found: &Vec<Option<PythonExecutable>>,
        current: &PythonExecutable,
        shim: &Option<PythonExecutable>,
    ) -> (r: Option<usize>)
        ensures
            match r {
                Some(i) => i < found@.len() && acceptable(found@[i as int], current.id, *shim)
                    && forall|j: int|
                    0 <= j < i ==> !acceptable(#[trigger] found@[j], current.id, *shim),
                None => forall|j: int|
                    0 <= j < found@.len() ==> !acceptable(#[trigger] found@[j], current.id, *shim),
            },
    {
        let mut i: usize = 0;
        while i < found.len()
            invariant
                i <= found@.len(),
                forall|j: int| 0 <= j < i ==> !acceptable(#[trigger] found@[j], current.id, *shim),
            decreases found@.len() - i,
        {
            if let Some(e) = &found[i] {
                if Python::is_other(e, current, shim) {
                    return Some(i);
                }
            }
            i = i + 1;
        }
        None
    }

    /// The system `python`: the first `<dir>/python` on `$PATH` (`path_dirs`,
    /// in order) that is an executable and neither the running executable nor
    /// the `pyenv` shim.
    pub fn system(
        shim: Option<PythonExecutable>,
        current: Option<PythonExecutable>,
        path_dirs: Option<Vec<String>>,
    ) -> (r: Result<PythonExecutable, SystemPythonError>)
        ensures
            system_result(r, current, shim, path_dirs),
    {
        let cur = match current {
            None => return Err(SystemPythonError::NoCurrentExe),
            Some(c) => c,
        };
        let dirs = match path_dirs {
            None => return Err(SystemPythonError::NoPath),
            Some(d) => d,
        };
        let mut found: Vec<Option<PythonExecutable>> = Vec::new();
        let mut i: usize = 0;
        while i < dirs.len()
            invariant
                current == Some(cur),
                path_dirs == Some(dirs),
                i <= dirs@.len(),
                found@.len() == i,
                probed(found@, dirs@),
                forall|j: int| 0 <= j < i ==> !acceptable(#[trigger] found@[j], cur.id, shim),
            decreases dirs@.len() - i,
        {
            let candidate = join(dirs[i].as_str(), "python");
            let checked = match PythonExecutable::new(candidate) {
                Ok(e) => Some(e),
                Err(_) => None,
            };
            let ghost before = found@;
            found.push(checked);
            proof {
                assert forall|j: int| 0 <= j < found@.len() implies (#[trigger] found@[j] matches Some(
                    x,
                ) ==> x.path@ == join_path(dirs@[j]@, "python"@) && x.name is None && x.wf()) by {
                    if j < i {
                        assert(found@[j] == before[j]);
                    }
                }
            }
            let accept = match &found[i] {
                Some(e) => Python::is_other(e, &cur, &shim),
                None => false,
            };
            if accept {
                let ghost all = found@;
                proof {
                    assert forall|j: int| 0 <= j < all.len() - 1 implies !acceptable(
                        #[trigger] all[j],
                        cur.id,
                        shim,
                    ) by {
                        assert(all[j] == before[j]);
                    }
                }
                let e = found.remove(i);
                assert(e == all[i as int]);
                return match e {
                    Some(e) => {
                        assert(all.last() == Some(e));
                        assert(probed(all, dirs@));
                        Ok(e)
                    },
                    None => {
                        assert(false);
                        Err(SystemPythonError::NotInPath)
                    },
                };
            }
            i = i + 1;
        }
        assert(probed(found@, dirs@) && found@.len() == dirs@.len());
        Err(SystemPythonError::NotInPath)
    }

    /// The `pyenv` `python` where it was found, else the system `python`;
    /// where neither is found, both reasons.
    pub fn new(
        pyenv: Result<Pyenv, PyenvError>,
        shim: Option<PythonExecutable>,
        current: Option<PythonExecutable>,
        path_dirs: Option<Vec<String>>,
    ) -> (r: Result<Self, PythonError>)
        ensures
            pyenv matches Ok(p) ==> (r matches Ok(Python::Pyenv(q)) && q == p),
            pyenv matches Err(e) ==> match r {
                Ok(Python::System(s)) => system_result(Ok(s), current, shim, path_dirs),
                Ok(Python::Pyenv(_)) => false,
                Err(err) => err.pyenv == e && system_result(Err(err.system), current, shim, path_dirs),
            },
    {
        match pyenv {
            Ok(pyenv) => Ok(Python::Pyenv(pyenv)),
            Err(pyenv_error) => {
                match Python::system(shim, current, path_dirs) {
                    Ok(system_python) => Ok(Python::System(system_python)),
                    Err(system_python_error) => Err(
                        PythonError { pyenv: pyenv_error, system: system_python_error },
                    ),
                }
            },
        }
    }

    /// Which `python` this is, and why.
    pub fn describe(&self) -> (r: String)
        ensures
            r@ == match self {
                Python::Pyenv(p) => "pyenv "@ + p.version.describe_spec() + " at "@
                    + p.python_path.path@,
                Python::System(e) => "system python on $PATH at "@ + e.path@,
            },
    {
        match self {
            Python::Pyenv(pyenv) => pyenv.describe(),
            Python::System(python) => {
                let mut r = String::from_str("system python on $PATH at ");
                r.append(python.path.as_str());
                r
            },
        }
    }
}

} // verus!
