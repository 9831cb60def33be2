//! Which `pyenv` version is active, and where that was decided.
use vstd::prelude::*;

use crate::path::{ancestors, in_each_ancestor, join, join_path};

verus! {

/// Where a `pyenv` version was found.
#[derive(Debug, Clone, Copy, PartialEq, Eq, Structural)]
pub enum PyenvVersionFrom {
    /// The shell's version variable.
    Shell,
    /// A `.python-version` file in the working directory or one of its ancestors.
    Local,
    /// The `version` file in the `pyenv` root.
    Global,
}

impl PyenvVersionFrom {
    /// The word `pyenv` uses for this origin.
    pub fn name(&self) -> (r: &'static str)
        ensures
            r@ == origin_name(*self),
    {
        match self {
            PyenvVersionFrom::Shell => "shell",
            PyenvVersionFrom::Local => "local",
            PyenvVersionFrom::Global => "global",
        }
    }
}

pub open spec fn origin_name(from: PyenvVersionFrom) -> Seq<char> {
    match from {
        PyenvVersionFrom::Shell => "shell"@,
        PyenvVersionFrom::Local => "local"@,
        PyenvVersionFrom::Global => "global"@,
    }
}

/// A `pyenv` version, either a `python` version or a virtualenv name,
/// and where it was found.
#[derive(Debug)]
pub struct PyenvVersion {
    pub version: String,
    pub from: PyenvVersionFrom,
}

impl PyenvVersion {
    /// The version named `version`, found at `from`.
    pub fn from(from: PyenvVersionFrom, version: String) -> (r: Self)
        ensures
            r.version == version,
            r.from == from,
    {
        PyenvVersion { version, from }
    }

    /// `python <version> from <origin>`.
    pub open spec fn describe_spec(&self) -> Seq<char> {
        "python "@ + self.version@ + " from "@ + origin_name(self.from)
    }

    /// `python <version> from <origin>`.
    pub fn describe(&self) -> (r: String)
        ensures
            r@ == self.describe_spec(),
    {
        let mut r = String::from_str("python ");
        r.append(self.version.as_str());
        r.append(" from ");
        r.append(self.from.name());
        r
    }
}

/// The index of the first line break in `s`, or its length where there is none.
pub open spec fn first_newline(s: Seq<char>) -> nat
    decreases s.len(),
{
    if s.len() == 0 {
        0
    } else if s[0] == '\n' {
        0
    } else {
        1 + first_newline(s.drop_first())
    }
}

/// The first line of `s` without its line ending (`\n` or `\r\n`);
/// `None` for an empty text, which has no line.
pub open spec fn first_line_of(s: Seq<char>) -> Option<Seq<char>> {
    if s.len() == 0 {
        None
    } else {
        let i = first_newline(s) as int;
        if i < s.len() && i > 0 && s[i - 1] == '\r' {
            Some(s.subrange(0, i - 1))
        } else {
            Some(s.subrange(0, i))
        }
    }
}

proof fn lemma_first_newline_bound(s: Seq<char>)
    ensures
        first_newline(s) <= s.len(),
        first_newline(s) < s.len() ==> s[first_newline(s) as int] == '\n',
    decreases s.len(),
{
    if s.len() > 0 && s[0] != '\n' {
        lemma_first_newline_bound(s.drop_first());
    }
}

/// The first line of a version file's text: the only part of it that counts.
pub fn first_line(text: &str) -> (r: Option<String>)
    ensures
        r is Some <==> first_line_of(text@) is Some,
        r is Some ==> r->0@ == first_line_of(text@)->0,
{
    let n = text.unicode_len();
    if n == 0 {
        return None;
    }
    let mut i: usize = 0;
    assert(text@.subrange(0, n as int) =~= text@);
    while i < n && text.get_char(i) != '\n'
        invariant
            n == text@.len(),
            i <= n,
            first_newline(text@) == i + first_newline(text@.subrange(i as int, n as int)),
        decreases n - i,
    {
        assert(text@.subrange(i as int, n as int).drop_first() =~= text@.subrange(
            i + 1,
            n as int,
        ));
        i = i + 1;
    }
    proof {
        if i == n {
            assert(text@.subrange(i as int, n as int).len() == 0);
        }
        lemma_first_newline_bound(text@);
    }
    if i < n && i > 0 && text.get_char(i - 1) == '\r' {
        Some(text.substring_char(0, i - 1).to_owned())
    } else {
        Some(text.substring_char(0, i).to_owned())
    }
}

/// The first entry of `reads` that holds a value.
pub open spec fn first_some(reads: Seq<Option<String>>) -> Option<String>
    decreases reads.len(),
{
    if reads.len() == 0 {
        None
    } else if reads[0] is Some {
        reads[0]
    } else {
        first_some(reads.drop_first())
    }
}

/// The version that the chain shell, then local, then global settles on.
pub open spec fn chosen_version(
    shell: Option<String>,
    local: Seq<Option<String>>,
    global: Option<String>,
) -> Option<PyenvVersion> {
    if shell is Some {
        Some(PyenvVersion { version: shell->0, from: PyenvVersionFrom::Shell })
    } else if first_some(local) is Some {
        Some(PyenvVersion { version: first_some(local)->0, from: PyenvVersionFrom::Local })
    } else if global is Some {
        Some(PyenvVersion { version: global->0, from: PyenvVersionFrom::Global })
    } else {
        None
    }
}

/// A set shell variable decides the version, whatever the local and global
/// version files hold.
pub proof fn lemma_shell_wins(
    shell: String,
    local: Seq<Option<String>>,
    global: Option<String>,
)
    ensures
        chosen_version(Some(shell), local, global) == Some(
            PyenvVersion { version: shell, from: PyenvVersionFrom::Shell },
        ),
{
}

/// The first line of the first readable local version file, given what
/// reading each of them gave, nearest directory first.
pub fn first_readable(reads: Vec<Option<String>>) -> (r: Option<String>)
    ensures
        r == first_some(reads@),
{
    let ghost all = reads@;
    let mut items = reads;
    let n = items.len();
    let mut i: usize = 0;
    assert(items@.subrange(0, n as int) =~= items@);
    while i < n
        invariant
            items@ == all,
            reads@ == all,
            n == items@.len(),
            i <= n,
            first_some(items@) == first_some(items@.subrange(i as int, n as int)),
        decreases n - i,
    {
        if items[i].is_some() {
            assert(items@.subrange(i as int, n as int)[0] == items@[i as int]);
            assert(first_some(items@.subrange(i as int, n as int)) == items@[i as int]);
            let found = items.remove(i);
            return found;
        }
        assert(items@.subrange(i as int, n as int).drop_first() =~= items@.subrange(
            i + 1,
            n as int,
        ));
        i = i + 1;
    }
    assert(items@.subrange(i as int, n as int).len() == 0);
    None
}

/// [`first_readable`], leaving `reads` in place.
pub fn first_read(reads: &Vec<Option<String>>) -> (r: Option<String>)
    ensures
        r == first_some(reads@),
{
    let n = reads.len();
    let mut i: usize = 0;
    assert(reads@.subrange(0, n as int) =~= reads@);
    while i < n
        invariant
            n == reads@.len(),
            i <= n,
            first_some(reads@) == first_some(reads@.subrange(i as int, n as int)),
        decreases n - i,
    {
        if let Some(v) = &reads[i] {
            assert(reads@.subrange(i as int, n as int)[0] == reads@[i as int]);
            return Some(v.clone());
        }
        assert(reads@.subrange(i as int, n as int).drop_first() =~= reads@.subrange(
            i + 1,
            n as int,
        ));
        i = i + 1;
    }
    assert(reads@.subrange(i as int, n as int).len() == 0);
    None
}

/// The active version: the shell's variable where it is set (even to an empty
/// value), else the first readable local version file (`local`, nearest
/// directory first), else the global version file; `None` where all fail.
pub fn pyenv_version(
    shell: Option<String>,
    local: Vec<Option<String>>,
    global: Option<String>,
) -> (r: Option<PyenvVersion>)
    ensures
        r == chosen_version(shell, local@, global),
{
    if let Some(version) = shell {
        return Some(PyenvVersion::from(PyenvVersionFrom::Shell, version));
    }
    match first_readable(local) {
        Some(version) => Some(PyenvVersion::from(PyenvVersionFrom::Local, version)),
        None => match global {
            Some(version) => Some(PyenvVersion::from(PyenvVersionFrom::Global, version)),
            None => None,
        },
    }
}

/// The local version files to try from `cwd`, nearest first:
/// `.python-version` in `cwd` and in each of its ancestors up to the root.
pub fn local_version_files(cwd: &str) -> (r: Vec<String>)
    ensures
        r@.len() == ancestors(cwd@).len(),
        forall|i: int|
            0 <= i < r@.len() ==> #[trigger] r@[i]@ == join_path(
                ancestors(cwd@)[i],
                ".python-version"@,
            ),
{
    in_each_ancestor(cwd, ".python-version")
}

/// The global version file under the `pyenv` root.
pub fn global_version_file(root: &str) -> (r: String)
    ensures
        r@ == join_path(root@, "version"@),
{
    join(root, "version")
}

} // verus!
