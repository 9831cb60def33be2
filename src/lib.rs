//! Locating the `python` that `pyenv` would choose, and running it.
pub mod argv0;
pub mod path;
pub mod probe;
pub mod pyenv;
pub mod python;
pub mod version;

pub use argv0::{Argv0Problem, Argv0Program, Argv0ProgramError, Argv0ProgramType};
pub use probe::{FileId, PathKind};
pub use python::{
    HasPython, Pyenv, PyenvError, PyenvPythonExecutableError, PyenvRoot, PyenvRootError, Python,
    PythonError, PythonExecutable, SystemPythonError, UncheckedPythonPath,
};
pub use version::{PyenvVersion, PyenvVersionFrom};
