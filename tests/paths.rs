use pyenv_python::path::{ancestor_at, file_name, join, parent};
use pyenv_python::version::local_version_files;

#[test]
fn join_adds_one_separator() {
    assert_eq!(join("/root", "versions"), "/root/versions");
    assert_eq!(join("/root/", "versions"), "/root/versions");
    assert_eq!(join("", "python"), "python");
    assert_eq!(join("/root", "/abs"), "/abs");
}

#[test]
fn parent_drops_last_component() {
    assert_eq!(parent("/a/b/c"), Some("/a/b".to_string()));
    assert_eq!(parent("/a/b/"), Some("/a".to_string()));
    assert_eq!(parent("/a"), Some("/".to_string()));
    assert_eq!(parent("a"), Some(String::new()));
    assert_eq!(parent("/"), None);
    assert_eq!(parent(""), None);
}

#[test]
fn file_name_is_last_component() {
    assert_eq!(file_name("/opt/py/bin/pip"), Some("pip".to_string()));
    assert_eq!(file_name("/opt/py/bin/"), Some("bin".to_string()));
    assert_eq!(file_name("python"), Some("python".to_string()));
    assert_eq!(file_name("/"), None);
    assert_eq!(file_name("/a/.."), None);
}

#[test]
fn dir_and_prefix_levels() {
    let p = "/root/versions/3.9/bin/python";
    assert_eq!(ancestor_at(p, 0), Ok(p.to_string()));
    assert_eq!(ancestor_at(p, 1), Ok("/root/versions/3.9/bin".to_string()));
    assert_eq!(ancestor_at(p, 2), Ok("/root/versions/3.9".to_string()));
}

#[test]
fn too_many_levels_is_an_error() {
    assert_eq!(ancestor_at("/a/b", 2), Ok("/".to_string()));
    assert_eq!(ancestor_at("/a/b", 3), Err(2));
    assert_eq!(ancestor_at("/a/b", 10), Err(2));
    assert_eq!(ancestor_at("/", 1), Err(0));
}

#[test]
fn local_files_walk_up_to_the_root() {
    let files = local_version_files("/a/b/c");
    assert_eq!(
        files,
        vec![
            "/a/b/c/.python-version".to_string(),
            "/a/b/.python-version".to_string(),
            "/a/.python-version".to_string(),
            "/.python-version".to_string(),
        ]
    );
}
