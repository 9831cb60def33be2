//! What the program was invoked as (`python`, `pip`, ...), and how to run it.
use vstd::prelude::*;

use crate::path::{file_name, file_name_of, join, join_path, parent, parent_path};
use crate::probe::{is_executable_file, PathKind};

verus! {

/// How a program found beside `python` is run.
#[derive(Debug, Clone, Copy, PartialEq, Eq, Structural)]
pub enum Argv0ProgramType {
    /// Not a script: run it directly.
    Binary,
    /// A script whose `#!` line names `python` or `pip`: run it with `python`.
    PythonScript,
    /// Another script: run it directly, and its `#!` line picks the interpreter.
    Script,
}

/// The length of the first line of `s`, without its `\n`.
pub open spec fn line_len(s: Seq<u8>) -> nat
    decreases s.len(),
{
    if s.len() == 0 {
        0
    } else if s[0] == 10u8 {
        0
    } else {
        1 + line_len(s.drop_first())
    }
}

/// `needle` occurs in `hay` at `i`.
pub open spec fn occurs_at(hay: Seq<u8>, needle: Seq<u8>, i: int) -> bool {
    0 <= i && i + needle.len() <= hay.len() && hay.subrange(i, i + needle.len()) == needle
}

/// `needle` occurs somewhere in `hay`.
pub open spec fn contains_bytes(hay: Seq<u8>, needle: Seq<u8>) -> bool {
    exists|i: int| occurs_at(hay, needle, i)
}

/// The bytes of `python`.
pub open spec fn python_bytes() -> Seq<u8> {
    seq![112u8, 121u8, 116u8, 104u8, 111u8, 110u8]
}

/// The bytes of `pip`.
pub open spec fn pip_bytes() -> Seq<u8> {
    seq![112u8, 105u8, 112u8]
}

/// The file starts with `#!`.
pub open spec fn has_shebang(head: Seq<u8>) -> bool {
    head.len() >= 2 && head[0] == 35u8 && head[1] == 33u8
}

/// The type of a program whose file starts with `head`.
pub open spec fn program_type_of(head: Seq<u8>) -> Argv0ProgramType {
    let line = head.subrange(0, line_len(head) as int);
    if !has_shebang(head) {
        Argv0ProgramType::Binary
    } else if contains_bytes(line, python_bytes()) || contains_bytes(line, pip_bytes()) {
        Argv0ProgramType::PythonScript
    } else {
        Argv0ProgramType::Script
    }
}

proof fn lemma_line_len_bound(s: Seq<u8>)
    ensures
        line_len(s) <= s.len(),
    decreases s.len(),
{
    if s.len() > 0 && s[0] != 10u8 {
        lemma_line_len_bound(s.drop_first());
    }
}

/// The length of the first line of `head`.
fn first_line_len(head: &Vec<u8>) -> (n: usize)
    ensures
        n == line_len(head@),
{
    let len = head.len();
    let mut i: usize = 0;
    assert(head@.subrange(0, len as int) =~= head@);
    while i < len && head[i] != 10u8
        invariant
            len == head@.len(),
            i <= len,
            line_len(head@) == i + line_len(head@.subrange(i as int, len as int)),
        decreases len - i,
    {
        assert(head@.subrange(i as int, len as int).drop_first() =~= head@.subrange(
            i + 1,
            len as int,
        ));
        i = i + 1;
    }
    proof {
        if i == len {
            assert(head@.subrange(i as int, len as int).len() == 0);
        }
    }
    i
}

/// Whether `needle` occurs in the first `end` bytes of `hay`.
fn occurs_in(hay: &Vec<u8>, end: usize, needle: &[u8]) -> (r: bool)
    requires
        end <= hay@.len(),
    ensures
        r == contains_bytes(hay@.subrange(0, end as int), needle@),
{
    let ghost h = hay@.subrange(0, end as int);
    let n = needle.len();
    if n > end {
        assert forall|i: int| !occurs_at(h, needle@, i) by {}
        return false;
    }
    let mut i: usize = 0;
    while i <= end - n
        invariant
            n == needle@.len(),
            n <= end <= hay@.len(),
            i <= end - n + 1,
            h == hay@.subrange(0, end as int),
            forall|k: int| 0 <= k < i ==> !occurs_at(h, needle@, k),
        decreases end - i,
    {
        let mut j: usize = 0;
        while j < n && hay[i + j] == needle[j]
            invariant
                n == needle@.len(),
                i + n <= end <= hay@.len(),
                j <= n,
                forall|k: int| 0 <= k < j ==> hay@[i + k] == needle@[k],
            decreases n - j,
        {
            j = j + 1;
        }
        if j == n {
            assert(h.subrange(i as int, i + n) =~= needle@);
            assert(occurs_at(h, needle@, i as int));
            return true;
        }
        assert(!occurs_at(h, needle@, i as int)) by {
            if occurs_at(h, needle@, i as int) {
                assert(h.subrange(i as int, i + n)[j as int] == needle@[j as int]);
            }
        }
        i = i + 1;
    }
    assert forall|k: int| !occurs_at(h, needle@, k) by {
        if 0 <= k && k + n <= h.len() {
            assert(k < i);
        }
    }
    false
}

/// Why a program beside `python` cannot be run.
#[derive(Debug, Clone, Copy, PartialEq, Eq, Structural)]
pub enum Argv0Problem {
    DoesNotExist,
    NotAFile,
    NotExecutable,
    /// Its first line could not be read.
    Unreadable,
}

/// A program beside `python` that cannot be run, and why.
#[derive(Debug)]
pub struct Argv0ProgramError {
    pub path: String,
    pub problem: Argv0Problem,
}

impl Argv0ProgramError {
    /// What went wrong, in words.
    pub fn message(&self) -> (r: &'static str)
        ensures
            r@ == match self.problem {
                Argv0Problem::DoesNotExist => "does not exist"@,
                Argv0Problem::NotAFile => "not a file"@,
                Argv0Problem::NotExecutable => "not executable"@,
                Argv0Problem::Unreadable => "could not be read"@,
            },
    {
        match self.problem {
            Argv0Problem::DoesNotExist => "does not exist",
            Argv0Problem::NotAFile => "not a file",
            Argv0Problem::NotExecutable => "not executable",
            Argv0Problem::Unreadable => "could not be read",
        }
    }
}

impl Argv0ProgramType {
    /// The type of a program whose file starts with `head` (at least its
    /// first line): a script where it starts with `#!`, a Python script where
    /// that line names `python` or `pip`.
    pub fn classify(head: &Vec<u8>) -> (r: Self)
        ensures
            r == program_type_of(head@),
    {
        if !(head.len() >= 2 && head[0] == 35u8 && head[1] == 33u8) {
            return Argv0ProgramType::Binary;
        }
        let n = first_line_len(head);
        proof {
            lemma_line_len_bound(head@);
        }
        let python: [u8; 6] = [112u8, 121u8, 116u8, 104u8, 111u8, 110u8];
        let pip: [u8; 3] = [112u8, 105u8, 112u8];
        assert(python@ =~= python_bytes());
        assert(pip@ =~= pip_bytes());
        if occurs_in(head, n, python.as_slice()) || occurs_in(head, n, pip.as_slice()) {
            Argv0ProgramType::PythonScript
        } else {
            Argv0ProgramType::Script
        }
    }

    /// The type of the program at `path`, given what its metadata says it is,
    /// whether it is executable, and the first bytes of the file; fails where
    /// it does not exist, is not a file, or is not executable.
    pub fn from_probe(path: &str, kind: PathKind, executable: bool, head: &Vec<u8>) -> (r: Result<
        Self,
        Argv0ProgramError,
    >)
        ensures
            kind is Missing ==> (r matches Err(e) && e.problem == Argv0Problem::DoesNotExist
                && e.path@ == path@),
            (kind is Dir || kind is Other) ==> (r matches Err(e) && e.problem
                == Argv0Problem::NotAFile && e.path@ == path@),
            kind is File && executable ==> r == Ok::<Self, Argv0ProgramError>(
                program_type_of(head@),
            ),
            kind is File && !executable ==> (r matches Err(e) && e.problem
                == Argv0Problem::NotExecutable && e.path@ == path@),
    {
        let problem = match kind {
            PathKind::Missing => Argv0Problem::DoesNotExist,
            PathKind::Dir | PathKind::Other => Argv0Problem::NotAFile,
            PathKind::File => {
                if executable {
                    return Ok(Argv0ProgramType::classify(head));
                }
                Argv0Problem::NotExecutable
            },
        };
        Err(Argv0ProgramError { path: path.to_owned(), problem })
    }

    /// The type of the program at `path`, given what its metadata says it is
    /// and the first bytes of the file; see [`Argv0ProgramType::from_probe`],
    /// to which it hands whether the file is executable.
    pub fn detect(path: &str, kind: PathKind, head: &Vec<u8>) -> (r: Result<
        Self,
        Argv0ProgramError,
    >)
        ensures
            kind is Missing ==> (r matches Err(e) && e.problem == Argv0Problem::DoesNotExist
                && e.path@ == path@),
            (kind is Dir || kind is Other) ==> (r matches Err(e) && e.problem
                == Argv0Problem::NotAFile && e.path@ == path@),
            kind is File ==> match r {
                Ok(t) => t == program_type_of(head@),
                Err(e) => e.problem == Argv0Problem::NotExecutable && e.path@ == path@,
            },
    {
        let executable = match kind {
            PathKind::File => is_executable_file(path),
            _ => false,
        };
        Argv0ProgramType::from_probe(path, kind, executable, head)
    }
}

/// The program that was invoked, found beside `python`.
#[derive(Debug)]
pub struct Argv0Program {
    pub python_path: String,
    pub path: String,
    pub exe_type: Argv0ProgramType,
}

/// The invoked program's path: the file name of `argv0` in the directory of
/// `python`, or `python` itself where either part is missing.
pub open spec fn program_path_of(python: Seq<char>, argv0: Option<Seq<char>>) -> Seq<char> {
    match argv0 {
        Some(a) => match (file_name_of(a), parent_path(python)) {
            (Some(name), Some(dir)) => join_path(dir, name),
            _ => python,
        },
        None => python,
    }
}

/// The views of a sequence of strings.
pub open spec fn views(s: Seq<String>) -> Seq<Seq<char>> {
    s.map_values(|x: String| x@)
}

impl Argv0Program {
    /// Where the invoked program is: `argv0`'s file name beside `python_path`.
    pub fn program_path(python_path: &str, argv0: &Option<String>) -> (r: String)
        ensures
            r@ == program_path_of(
                python_path@,
                match argv0 {
                    Some(a) => Some(a@),
                    None => None,
                },
            ),
    {
        if let Some(a) = argv0 {
            if let Some(name) = file_name(a.as_str()) {
                if let Some(dir) = parent(python_path) {
                    return join(dir.as_str(), name.as_str());
                }
            }
        }
        python_path.to_owned()
    }

    /// The program at `path`, beside `python_path`; see
    /// [`Argv0ProgramType::detect`] for `kind` and `head`.
    pub fn new(python_path: String, path: String, kind: PathKind, head: &Vec<u8>) -> (r: Result<
        Self,
        Argv0ProgramError,
    >)
        ensures
            r matches Ok(p) ==> p.python_path == python_path && p.path == path && p.exe_type
                == program_type_of(head@) && kind is File,
            r matches Err(e) ==> e.path@ == path@ && (kind is File ==> e.problem
                == Argv0Problem::NotExecutable),
            kind is Missing ==> (r matches Err(e) && e.problem == Argv0Problem::DoesNotExist),
            (kind is Dir || kind is Other) ==> (r matches Err(e) && e.problem
                == Argv0Problem::NotAFile),
    {
        match Argv0ProgramType::detect(path.as_str(), kind, head) {
            Ok(exe_type) => Ok(Argv0Program { python_path, path, exe_type }),
            Err(e) => Err(e),
        }
    }

    pub fn python_path(&self) -> (r: &String)
        ensures
            r == &self.python_path,
    {
        &self.python_path
    }

    pub fn path(&self) -> (r: &String)
        ensures
            r == &self.path,
    {
        &self.path
    }

    /// The program to run: `python` for a Python script, else the program itself.
    pub fn argv0(&self) -> (r: &String)
        ensures
            r == if self.exe_type == Argv0ProgramType::PythonScript {
                &self.python_path
            } else {
                &self.path
            },
    {
        match self.exe_type {
            Argv0ProgramType::PythonScript => &self.python_path,
            _ => &self.path,
        }
    }

    /// The script for `python` to run, for a Python script.
    pub fn python_script(&self) -> (r: Option<&String>)
        ensures
            r == if self.exe_type == Argv0ProgramType::PythonScript {
                Some(&self.path)
            } else {
                None
            },
    {
        match self.exe_type {
            Argv0ProgramType::PythonScript => Some(&self.path),
            _ => None,
        }
    }

    /// The command line to run.
    pub open spec fn command_line_of(&self, args: Seq<Seq<char>>) -> Seq<Seq<char>> {
        if self.exe_type == Argv0ProgramType::PythonScript {
            seq![self.python_path@, self.path@] + args
        } else {
            seq![self.path@] + args
        }
    }

    /// The command line to run, given the arguments after the program's own name:
    /// the program, then (for a Python script) the script, then `args` unchanged.
    pub fn command_line(&self, args: &Vec<String>) -> (r: Vec<String>)
        ensures
            views(r@) == self.command_line_of(views(args@)),
    {
        let mut r: Vec<String> = Vec::new();
        r.push(self.argv0().clone());
        if let Some(script) = self.python_script() {
            r.push(script.clone());
        }
        let ghost start = r@.len();
        let mut i: usize = 0;
        while i < args.len()
            invariant
                start == r@.len() - i,
                start == if self.exe_type == Argv0ProgramType::PythonScript {
                    2int
                } else {
                    1int
                },
                i <= args@.len(),
                views(r@) == self.command_line_of(views(args@.subrange(0, i as int))),
            decreases args@.len() - i,
        {
            let ghost old_r = r@;
            r.push(args[i].clone());
            i = i + 1;
            proof {
                assert(views(r@) =~= views(old_r).push(args@[i - 1]@));
                assert(views(args@.subrange(0, i as int)) =~= views(
                    args@.subrange(0, i - 1),
                ).push(args@[i - 1]@));
                assert(views(r@) =~= self.command_line_of(views(args@.subrange(0, i as int))));
            }
        }
        assert(args@.subrange(0, i as int) =~= args@);
        r
    }

    /// How `--which` names the program: `python` itself, `<script>` for
    /// another program, or `python <script>` for a Python script.
    pub open spec fn describe_of(&self) -> Seq<char> {
        let name = file_name_of(self.path@)->0;
        let python = file_name_of(self.python_path@)->0;
        if name == python {
            python
        } else if self.exe_type == Argv0ProgramType::PythonScript {
            python + " "@ + name
        } else {
            name
        }
    }

    /// See [`Argv0Program::describe_of`].
    pub fn describe(&self) -> (r: String)
        requires
            file_name_of(self.path@) is Some,
            file_name_of(self.python_path@) is Some,
        ensures
            r@ == self.describe_of(),
    {
        let name = match file_name(self.path.as_str()) {
            Some(n) => n,
            None => String::new(),
        };
        let python = match file_name(self.python_path.as_str()) {
            Some(n) => n,
            None => String::new(),
        };
        if name == python {
            python
        } else if self.exe_type == Argv0ProgramType::PythonScript {
            let mut r = python;
            r.append(" ");
            r.append(name.as_str());
            r
        } else {
            name
        }
    }
}

} // verus!
