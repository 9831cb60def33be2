//! What the library asks of the file system and the environment through
//! outside crates. The answers depend on the machine, so nothing is promised
//! of them beyond their type.
use vstd::prelude::*;

verus! {

/// The identity of a file: its device and inode numbers.
/// Two paths name the same file exactly when their identities are equal,
/// whichever links or aliases lead to it.
#[derive(Debug, Clone, Copy, PartialEq, Eq, Structural)]
pub struct FileId {
    pub dev: u64,
    pub ino: u64,
}

/// What a path names, as its metadata (following links) tells.
#[derive(Debug, Clone, Copy, PartialEq, Eq, Structural)]
pub enum PathKind {
    /// Nothing, or nothing that can be reached.
    Missing,
    Dir,
    File,
    /// Something else, such as a device.
    Other,
}

/// Relies on `same_file::Handle::from_path`, `Handle::dev` and `Handle::ino`:
/// opens `path` and reads its device and inode numbers; `None` where it
/// cannot be opened.
#[verifier::external_body]
pub(crate) fn file_id(path: &str) -> (r: Option<FileId>) {
    match same_file::Handle::from_path(path) {
        Ok(handle) => Some(FileId { dev: handle.dev(), ino: handle.ino() }),
        Err(_) => None,
    }
}

/// Relies on `is_executable::is_executable`: whether `path` is a file that
/// may be executed.
#[verifier::external_body]
pub(crate) fn is_executable_file(path: &str) -> (r: bool) {
    is_executable::is_executable(path)
}

/// Relies on `dirs_next::home_dir`: the user's home directory, where it is known.
#[verifier::external_body]
pub(crate) fn home_dir() -> (r: Option<String>) {
    dirs_next::home_dir().map(|home| home.to_string_lossy().into_owned())
}

} // verus!
