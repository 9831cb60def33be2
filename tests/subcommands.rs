use pyenv_python::pyenv::action::{Action, Step};
use pyenv_python::pyenv::cache::{Cache, CacheBehavior, CacheType, Output};
use pyenv_python::pyenv::command::{Answer, Command, Context};
use pyenv_python::pyenv::version::{
    first_found, get_in_dir, global, local, shell, Origin, Version, VersionFile,
};
use pyenv_python::pyenv::{prefix, root, shims, shims_dir, which};
use pyenv_python::{PathKind, PyenvRoot, PyenvRootError, PyenvVersion, PyenvVersionFrom};

fn argv(words: &[&str]) -> Vec<String> {
    words.iter().map(|w| w.to_string()).collect()
}

fn out(status: i32, text: &str) -> Output {
    Output { status, stdout: text.as_bytes().to_vec(), stderr: b"warn".to_vec() }
}

#[test]
fn no_subcommand_or_help_flag_gives_help() {
    for args in [argv(&["pyenv"]), argv(&[]), argv(&["pyenv", "versions", "--help"]), argv(&["pyenv", "--help"])] {
        assert!(matches!(Action::from_args(args), Action::Delegate(CacheBehavior::Cache(CacheType::Help))));
    }
}

#[test]
fn local_subcommands_are_intercepted() {
    assert!(matches!(Action::from_args(argv(&["pyenv", "root"])), Action::Intercept(Command::Root)));
    assert!(matches!(
        Action::from_args(argv(&["pyenv", "prefix", "3.9"])),
        Action::Intercept(Command::Prefix { version: Some(v), virtualenv: false }) if v == "3.9"
    ));
    assert!(matches!(
        Action::from_args(argv(&["pyenv", "virtualenv-prefix"])),
        Action::Intercept(Command::Prefix { version: None, virtualenv: true })
    ));
    assert!(matches!(
        Action::from_args(argv(&["pyenv", "shims", "--short"])),
        Action::Intercept(Command::Shims { short: true })
    ));
    assert!(matches!(
        Action::from_args(argv(&["pyenv", "shims"])),
        Action::Intercept(Command::Shims { short: false })
    ));
    assert!(matches!(
        Action::from_args(argv(&["pyenv", "which", "pip"])),
        Action::Intercept(Command::Which { command: Some(c) }) if c == "pip"
    ));
    assert!(matches!(
        Action::from_args(argv(&["pyenv", "version-file-read", "/a/.python-version"])),
        Action::Intercept(Command::VersionFileRead { path }) if path == "/a/.python-version"
    ));
    assert!(matches!(Action::from_args(argv(&["pyenv", "global"])), Action::Intercept(Command::Global)));
    assert!(matches!(Action::from_args(argv(&["pyenv", "version-name"])), Action::Intercept(Command::VersionName)));
}

#[test]
fn version_file_read_without_path_gives_help() {
    assert!(matches!(
        Action::from_args(argv(&["pyenv", "version-file-read"])),
        Action::Delegate(CacheBehavior::Cache(CacheType::Help))
    ));
}

#[test]
fn setting_a_version_is_delegated() {
    for cmd in ["shell", "global", "local"] {
        assert!(matches!(
            Action::from_args(argv(&["pyenv", cmd, "3.9"])),
            Action::Delegate(CacheBehavior::Ignore)
        ));
    }
}

#[test]
fn delegated_cache_policies() {
    let b = |words: &[&str]| match Action::from_args(argv(words)) {
        Action::Delegate(b) => b,
        Action::Intercept(c) => panic!("intercepted {:?}", c),
    };
    assert_eq!(b(&["pyenv", "rehash"]), CacheBehavior::Ignore);
    assert_eq!(b(&["pyenv", "commands"]), CacheBehavior::Cache(CacheType::Help));
    assert_eq!(b(&["pyenv", "--version"]), CacheBehavior::Cache(CacheType::Help));
    assert_eq!(b(&["pyenv", "versions"]), CacheBehavior::Cache(CacheType::Versions));
    assert_eq!(b(&["pyenv", "virtualenv", "--version"]), CacheBehavior::Cache(CacheType::Versions));
    assert_eq!(b(&["pyenv", "virtualenv", "3.9", "env"]), CacheBehavior::Ignore);
    assert_eq!(b(&["pyenv", "install", "3.12"]), CacheBehavior::Invalidate(CacheType::Versions));
    assert_eq!(b(&["pyenv", "update"]), CacheBehavior::Invalidate(CacheType::Help));
    assert_eq!(b(&["pyenv", "something-new"]), CacheBehavior::Ignore);
}

fn context(root: Option<&str>, version: Version) -> Context {
    Context {
        root: root.map(|r| PyenvRoot { root: r.to_string() }),
        version,
        local_reads: vec![None, Some("3.8".to_string()), Some("3.7".to_string())],
        global_read: Some("3.6".to_string()),
        shim_names: argv(&["pip", "python"]),
    }
}

fn file_version(name: &str, path: &str) -> Version {
    Version { name: name.to_string(), origin: Origin::File(VersionFile { path: path.to_string() }) }
}

fn printed(a: Answer) -> Vec<String> {
    match a {
        Answer::Print(lines) => lines,
        other => panic!("unexpected {:?}", other),
    }
}

#[test]
fn actions_run_to_steps() {
    let ctx = context(Some("/r"), file_version("3.9", "/a/.python-version"));
    match Action::from_args(argv(&["pyenv", "version-file-read", "/v"])).run(&ctx) {
        Step::Answer(Answer::ReadVersionFile(f)) => assert_eq!(f.path, "/v"),
        other => panic!("unexpected {:?}", other),
    }
    match Action::from_args(argv(&["pyenv", "root"])).run(&ctx) {
        Step::Answer(a) => assert_eq!(printed(a), vec!["/r"]),
        other => panic!("unexpected {:?}", other),
    }
    assert!(matches!(
        Action::from_args(argv(&["pyenv", "versions"])).run(&ctx),
        Step::Delegate(CacheBehavior::Cache(CacheType::Versions))
    ));
    for words in [&["pyenv", "exec"][..], &["pyenv", "global"][..], &["pyenv", "local"][..], &["pyenv", "which"][..]] {
        assert!(matches!(Action::from_args(argv(words)).run(&ctx), Step::Answer(_)));
    }
}

#[test]
fn commands_answer_from_the_context() {
    let ctx = context(Some("/r"), file_version("3.9", "/a/.python-version"));
    assert_eq!(printed(Command::Root.run(&ctx)), vec!["/r"]);
    assert_eq!(printed(Command::VersionName.run(&ctx)), vec!["3.9"]);
    assert_eq!(printed(Command::VersionOrigin.run(&ctx)), vec!["/a/.python-version"]);
    assert_eq!(printed(Command::Version.run(&ctx)), vec!["3.9 (set by /a/.python-version)"]);
    assert_eq!(printed(Command::VersionFile { dir: None }.run(&ctx)), vec!["/a/.python-version"]);
    match (Command::VersionFile { dir: Some("/b/c".to_string()) }).run(&ctx) {
        Answer::FirstReadable(files) => assert_eq!(
            files,
            vec!["/b/c/.python-version", "/b/.python-version", "/.python-version", "/r/version"]
        ),
        other => panic!("unexpected {:?}", other),
    }
    assert_eq!(
        printed(Command::Prefix { version: None, virtualenv: false }.run(&ctx)),
        vec!["/r/versions/3.9"]
    );
    assert_eq!(
        printed(Command::Prefix { version: Some("3.8".to_string()), virtualenv: false }.run(&ctx)),
        vec!["/r/versions/3.8"]
    );
    assert!(matches!(Command::Prefix { version: None, virtualenv: true }.run(&ctx), Answer::Fail));
    assert_eq!(printed(Command::Shims { short: true }.run(&ctx)), vec!["pip", "python"]);
    assert_eq!(
        printed(Command::Shims { short: false }.run(&ctx)),
        vec!["/r/shims/pip", "/r/shims/python"]
    );
    assert_eq!(
        printed(Command::Which { command: Some("pip".to_string()) }.run(&ctx)),
        vec!["/r/versions/3.9/bin/pip"]
    );
    assert!(matches!(Command::Shell.run(&ctx), Answer::Fail));
    assert_eq!(printed(Command::Global.run(&ctx)), vec!["3.6"]);
    assert_eq!(printed(Command::Local.run(&ctx)), vec!["3.8"]);
    assert!(matches!(Command::Exec.run(&ctx), Answer::Fail));
    assert!(matches!(Command::Which { command: None }.run(&ctx), Answer::Fail));
}

#[test]
fn commands_without_root_or_with_shell_version() {
    let ctx = context(None, Version { name: "3.11".to_string(), origin: Origin::Shell });
    assert!(matches!(Command::Root.run(&ctx), Answer::Fail));
    assert_eq!(printed(Command::Shell.run(&ctx)), vec!["3.11"]);
    assert_eq!(
        printed(Command::VersionOrigin.run(&ctx)),
        vec!["PYENV_VERSION environment variable"]
    );
    assert!(matches!(Command::VersionFile { dir: None }.run(&ctx), Answer::Fail));
    let sys = context(None, Version::default());
    assert!(matches!(Command::VersionOrigin.run(&sys), Answer::Fail));
    let sys = context(Some("/r"), Version::default());
    assert_eq!(printed(Command::VersionOrigin.run(&sys)), vec!["/r/version"]);
    assert!(matches!(Command::Which { command: Some("pip".to_string()) }.run(&sys), Answer::Fail));
    let bare = Context {
        root: None,
        version: Version::default(),
        local_reads: vec![None, None],
        global_read: None,
        shim_names: vec![],
    };
    assert_eq!(printed(Command::Global.run(&bare)), vec!["system"]);
    assert!(matches!(Command::Local.run(&bare), Answer::Fail));
    match (Command::VersionFile { dir: Some("/a".to_string()) }).run(&bare) {
        Answer::FirstReadable(files) => assert_eq!(files, vec!["/a/.python-version", "/.python-version"]),
        other => panic!("unexpected {:?}", other),
    }
}

#[test]
fn help_invalidates_both_domains() {
    assert_eq!(CacheType::Help.invalidates(), vec![CacheType::Help, CacheType::Versions]);
    assert_eq!(CacheType::Versions.invalidates(), vec![CacheType::Versions]);
}

#[test]
fn second_identical_cached_call_reuses_the_answer() {
    let mut cache = Cache::new();
    let args = argv(&["pyenv", "versions"]);
    let behavior = CacheBehavior::Cache(CacheType::Versions);
    assert!(behavior.run(&mut cache, &args).is_none());
    let first = behavior.store(&mut cache, &args, out(0, "3.9\n3.10\n"));
    let second = behavior.run(&mut cache, &args).expect("kept");
    assert_eq!(second.status, first.status);
    assert_eq!(second.stdout, first.stdout);
    assert_eq!(second.stderr, first.stderr);
    assert!(behavior.run(&mut cache, &argv(&["pyenv", "versions", "--bare"])).is_none());
    assert!(CacheBehavior::Cache(CacheType::Help).run(&mut cache, &args).is_none());
}

#[test]
fn invalidate_makes_the_next_call_run_afresh() {
    let mut cache = Cache::new();
    let args = argv(&["pyenv", "versions"]);
    let cached = CacheBehavior::Cache(CacheType::Versions);
    cached.store(&mut cache, &args, out(0, "3.9\n"));
    let help_args = argv(&["pyenv", "commands"]);
    CacheBehavior::Cache(CacheType::Help).store(&mut cache, &help_args, out(0, "x"));
    let install = argv(&["pyenv", "install", "3.12"]);
    let inv = CacheBehavior::Invalidate(CacheType::Versions);
    assert!(inv.run(&mut cache, &install).is_none());
    inv.store(&mut cache, &install, out(1, ""));
    assert!(cached.run(&mut cache, &args).is_none());
    assert!(CacheBehavior::Cache(CacheType::Help).run(&mut cache, &help_args).is_some());
    assert!(CacheBehavior::Invalidate(CacheType::Help).run(&mut cache, &install).is_none());
    assert!(CacheBehavior::Cache(CacheType::Help).run(&mut cache, &help_args).is_none());
}

#[test]
fn ignore_never_caches() {
    let mut cache = Cache::new();
    let args = argv(&["pyenv", "rehash"]);
    let r = CacheBehavior::Ignore.store(&mut cache, &args, out(3, "y"));
    assert_eq!(r.status, 3);
    assert!(CacheBehavior::Ignore.run(&mut cache, &args).is_none());
    assert!(cache.get(&CacheType::Help, &args).is_none());
    assert!(cache.get(&CacheType::Versions, &args).is_none());
}

#[test]
fn pyenv_paths() {
    let r = PyenvRoot { root: "/r".to_string() };
    assert_eq!(root(Ok("/r".to_string()), PathKind::Dir), Some("/r".to_string()));
    assert_eq!(root(Ok("/r".to_string()), PathKind::File), None);
    assert_eq!(root(Ok("/r".to_string()), PathKind::Missing), None);
    assert_eq!(root(Err(PyenvRootError::NoEnvVarOrHomeDir), PathKind::Dir), None);
    assert_eq!(prefix(&r, "3.9".to_string(), false), Some("/r/versions/3.9".to_string()));
    assert_eq!(prefix(&r, "env".to_string(), true), None);
    assert_eq!(shims_dir(&r), "/r/shims");
    let names = argv(&["pip", "python"]);
    assert_eq!(shims(&r, &names, true), names);
    assert_eq!(shims(&r, &names, false), vec!["/r/shims/pip", "/r/shims/python"]);
    let v = PyenvVersion::from(PyenvVersionFrom::Local, "3.9".to_string());
    assert_eq!(which(&r, &v, "pip"), Some("/r/versions/3.9/bin/pip".to_string()));
    let sys = PyenvVersion::from(PyenvVersionFrom::Global, "system".to_string());
    assert_eq!(which(&r, &sys, "pip"), None);
}

#[test]
fn version_lookups() {
    let r = PyenvRoot { root: "/r".to_string() };
    assert!(matches!(shell(Some("3.9".to_string())), Some(Version { origin: Origin::Shell, .. })));
    assert!(shell(None).is_none());
    match local("/a/b", vec![None, Some("3.8".to_string()), None]) {
        Some(Version { name, origin: Origin::File(f) }) => {
            assert_eq!(name, "3.8");
            assert_eq!(f.path, "/a/.python-version");
        }
        other => panic!("unexpected {:?}", other),
    }
    match global(&r, Some("3.7".to_string())) {
        Some(Version { name, origin: Origin::File(f) }) => {
            assert_eq!(name, "3.7");
            assert_eq!(f.path, "/r/version");
        }
        other => panic!("unexpected {:?}", other),
    }
    let v = get_in_dir("/a", &r, true, Some("3.11".to_string()), vec![None, None], None);
    assert_eq!(v.name, "system");
    assert!(matches!(v.origin, Origin::System));
    let v = get_in_dir("/a", &r, false, Some("3.11".to_string()), vec![None, None], None);
    assert_eq!(v.name, "3.11");
    let d = Version::default();
    assert_eq!(d.name, "system");
}

#[test]
fn cache_insert_keeps_the_first_answer() {
    let mut cache = Cache::new();
    let args = argv(&["pyenv", "versions"]);
    cache.insert(&CacheType::Versions, &args, &out(0, "first"));
    cache.insert(&CacheType::Versions, &args, &out(0, "second"));
    assert_eq!(cache.get(&CacheType::Versions, &args).unwrap().stdout, b"first".to_vec());
}

#[test]
fn first_readable_path_wins() {
    let paths = argv(&["/a/.python-version", "/.python-version", "/r/version"]);
    assert_eq!(first_found(paths.clone(), &vec![false, true, true]), Some("/.python-version".to_string()));
    assert_eq!(first_found(paths.clone(), &vec![false, false, false]), None);
    assert_eq!(first_found(paths, &vec![false]), None);
}
