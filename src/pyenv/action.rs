//! Deciding, from the argument vector, whether a subcommand is answered here
//! or passed to the real `pyenv`, and what the cache does around it.
use vstd::prelude::*;

use crate::pyenv::cache::{CacheBehavior, CacheType};
use crate::pyenv::command::{answers, Answer, Command, Context};

verus! {

/// What to do with a subcommand.
#[derive(Debug)]
pub enum Action {
    /// Answer it here.
    Intercept(Command),
    /// Pass it to the real `pyenv`, with this cache behaviour.
    Delegate(CacheBehavior),
}

/// What running an action takes.
#[derive(Debug)]
pub enum Step {
    /// Answered here.
    Answer(Answer),
    /// Run the real `pyenv`, with this cache behaviour.
    Delegate(CacheBehavior),
}

/// `args` holds `word` at index `i`.
pub open spec fn arg_is(args: Seq<String>, i: int, word: Seq<char>) -> bool {
    0 <= i < args.len() && args[i]@ == word
}

/// The cache behaviour for a delegated subcommand `cmd`; `version_flag`:
/// its first argument is `--version`.
pub open spec fn behavior_of(cmd: Seq<char>, version_flag: bool) -> CacheBehavior {
    if cmd == "shell"@ || cmd == "global"@ || cmd == "local"@ || cmd == "rehash"@ || cmd
        == "completions"@ || cmd == "version-file-read"@ || cmd == "version-file-write"@ {
        CacheBehavior::Ignore
    } else if cmd == "--version"@ || cmd == "commands"@ || cmd == "help"@ || cmd == "hooks"@
        || cmd == "init"@ || cmd == "virtualenv-init"@ {
        CacheBehavior::Cache(CacheType::Help)
    } else if cmd == "versions"@ || cmd == "virtualenvs"@ || cmd == "whence"@ || (cmd
        == "virtualenv"@ && version_flag) {
        CacheBehavior::Cache(CacheType::Versions)
    } else if cmd == "activate"@ || cmd == "deactivate"@ || cmd == "install"@ || cmd
        == "uninstall"@ {
        CacheBehavior::Invalidate(CacheType::Versions)
    } else if cmd == "update"@ {
        CacheBehavior::Invalidate(CacheType::Help)
    } else {
        // Whether an unknown subcommand should rather invalidate the versions
        // is an open question; for now it leaves the cache alone.
        CacheBehavior::Ignore
    }
}

/// The subcommand `cmd` with first argument `arg1`, where it is answered here.
pub open spec fn command_of(cmd: Seq<char>, arg1: Option<String>) -> Option<Command> {
    if cmd == "root"@ {
        Some(Command::Root)
    } else if cmd == "prefix"@ {
        Some(Command::Prefix { version: arg1, virtualenv: false })
    } else if cmd == "virtualenv-prefix"@ {
        Some(Command::Prefix { version: arg1, virtualenv: true })
    } else if cmd == "version"@ {
        Some(Command::Version)
    } else if cmd == "version-file"@ {
        Some(Command::VersionFile { dir: arg1 })
    } else if cmd == "version-file-read"@ && arg1 is Some {
        Some(Command::VersionFileRead { path: arg1->0 })
    } else if cmd == "version-name"@ {
        Some(Command::VersionName)
    } else if cmd == "version-origin"@ {
        Some(Command::VersionOrigin)
    } else if cmd == "exec"@ {
        Some(Command::Exec)
    } else if cmd == "shims"@ {
        Some(Command::Shims { short: arg1 matches Some(a) && a@ == "--short"@ })
    } else if cmd == "which"@ {
        Some(Command::Which { command: arg1 })
    } else if arg1 is None && cmd == "shell"@ {
        Some(Command::Shell)
    } else if arg1 is None && cmd == "global"@ {
        Some(Command::Global)
    } else if arg1 is None && cmd == "local"@ {
        Some(Command::Local)
    } else {
        None
    }
}

/// The action for the argument vector `args` (the program's own name first).
pub open spec fn action_of(args: Seq<String>) -> Action {
    let help = Action::Delegate(CacheBehavior::Cache(CacheType::Help));
    if args.len() < 2 || arg_is(args, 1, "--help"@) || arg_is(args, 2, "--help"@) {
        help
    } else {
        let cmd = args[1]@;
        let arg1 = if args.len() > 2 {
            Some(args[2])
        } else {
            None
        };
        match command_of(cmd, arg1) {
            Some(c) => Action::Intercept(c),
            None => if cmd == "version-file-read"@ {
                help
            } else {
                Action::Delegate(behavior_of(cmd, arg_is(args, 2, "--version"@)))
            },
        }
    }
}

/// Whether `s` is `word`.
fn is(s: &String, word: &str) -> (r: bool)
    ensures
        r == (s@ == word@),
{
    *s == String::from_str(word)
}

fn behavior_for(cmd: &String, version_flag: bool) -> (r: CacheBehavior)
    ensures
        r == behavior_of(cmd@, version_flag),
{
    if is(cmd, "shell") || is(cmd, "global") || is(cmd, "local") || is(cmd, "rehash") || is(
        cmd,
        "completions",
    ) || is(cmd, "version-file-read") || is(cmd, "version-file-write") {
        CacheBehavior::Ignore
    } else if is(cmd, "--version") || is(cmd, "commands") || is(cmd, "help") || is(cmd, "hooks")
        || is(cmd, "init") || is(cmd, "virtualenv-init") {
        CacheBehavior::Cache(CacheType::Help)
    } else if is(cmd, "versions") || is(cmd, "virtualenvs") || is(cmd, "whence") || (is(
        cmd,
        "virtualenv",
    ) && version_flag) {
        CacheBehavior::Cache(CacheType::Versions)
    } else if is(cmd, "activate") || is(cmd, "deactivate") || is(cmd, "install") || is(
        cmd,
        "uninstall",
    ) {
        CacheBehavior::Invalidate(CacheType::Versions)
    } else if is(cmd, "update") {
        CacheBehavior::Invalidate(CacheType::Help)
    } else {
        CacheBehavior::Ignore
    }
}

fn command_for(cmd: &String, arg1: Option<String>) -> (r: Result<Command, Option<String>>)
    ensures
        match command_of(cmd@, arg1) {
            Some(c) => r == Ok::<Command, Option<String>>(c),
            None => r == Err::<Command, Option<String>>(arg1),
        },
{
    if is(cmd, "root") {
        Ok(Command::Root)
    } else if is(cmd, "prefix") {
        Ok(Command::Prefix { version: arg1, virtualenv: false })
    } else if is(cmd, "virtualenv-prefix") {
        Ok(Command::Prefix { version: arg1, virtualenv: true })
    } else if is(cmd, "version") {
        Ok(Command::Version)
    } else if is(cmd, "version-file") {
        Ok(Command::VersionFile { dir: arg1 })
    } else if is(cmd, "version-file-read") && arg1.is_some() {
        match arg1 {
            Some(path) => Ok(Command::VersionFileRead { path }),
            None => Err(None),
        }
    } else if is(cmd, "version-name") {
        Ok(Command::VersionName)
    } else if is(cmd, "version-origin") {
        Ok(Command::VersionOrigin)
    } else if is(cmd, "exec") {
        Ok(Command::Exec)
    } else if is(cmd, "shims") {
        let short = match &arg1 {
            Some(a) => is(a, "--short"),
            None => false,
        };
        Ok(Command::Shims { short })
    } else if is(cmd, "which") {
        Ok(Command::Which { command: arg1 })
    } else if arg1.is_none() && is(cmd, "shell") {
        Ok(Command::Shell)
    } else if arg1.is_none() && is(cmd, "global") {
        Ok(Command::Global)
    } else if arg1.is_none() && is(cmd, "local") {
        Ok(Command::Local)
    } else {
        Err(arg1)
    }
}

impl Action {
    /// The action for the argument vector `args` (the program's own name
    /// first): help where there is no subcommand or `--help` is asked for; the
    /// subcommand answered here where it can be; else the real `pyenv`, with
    /// the subcommand's cache behaviour.
    pub fn from_args(args: Vec<String>) -> (r: Action)
        ensures
            r == action_of(args@),
    {
        let help = Action::Delegate(CacheBehavior::Cache(CacheType::Help));
        if args.len() < 2 {
            return help;
        }
        let has_arg1 = args.len() > 2;
        if is(&args[1], "--help") || (has_arg1 && is(&args[2], "--help")) {
            return help;
        }
        let version_flag = has_arg1 && is(&args[2], "--version");
        let ghost all = args@;
        let mut args = args;
        let arg1 = if has_arg1 {
            Some(args.remove(2))
        } else {
            None
        };
        assert(args@[1] == all[1]);
        let cmd = &args[1];
        match command_for(cmd, arg1) {
            Ok(c) => Action::Intercept(c),
            Err(_) => if is(cmd, "version-file-read") {
                help
            } else {
                Action::Delegate(behavior_for(cmd, version_flag))
            },
        }
    }

    /// What running the action takes in the context `ctx`: the command's
    /// answer (see [`Command::run`]), or the real `pyenv` with the cache
    /// behaviour. An intercepted command is always answered here.
    pub fn run(self, ctx: &Context) -> (r: Step)
        ensures
            match self {
                Action::Intercept(c) => r matches Step::Answer(a) && answers(c, *ctx, a),
                Action::Delegate(b) => r == Step::Delegate(b),
            },
    {
        match self {
            Action::Intercept(cmd) => Step::Answer(cmd.run(ctx)),
            Action::Delegate(behavior) => Step::Delegate(behavior),
        }
    }
}

} // verus!
