use pyenv_python::version::{
    first_line, first_read, first_readable, global_version_file, local_version_files, pyenv_version,
};
use pyenv_python::{PyenvVersion, PyenvVersionFrom};

#[test]
fn only_the_first_line_counts() {
    assert_eq!(first_line("3.9.1\n3.8\n"), Some("3.9.1".to_string()));
    assert_eq!(first_line("3.9.1\r\nx"), Some("3.9.1".to_string()));
    assert_eq!(first_line("3.10"), Some("3.10".to_string()));
    assert_eq!(first_line("\n"), Some(String::new()));
    assert_eq!(first_line(""), None);
}

#[test]
fn shell_wins_over_local_and_global() {
    let v = pyenv_version(
        Some("3.11".to_string()),
        vec![Some("3.9".to_string())],
        Some("3.8".to_string()),
    )
    .unwrap();
    assert_eq!(v.version, "3.11");
    assert_eq!(v.from, PyenvVersionFrom::Shell);
}

#[test]
fn empty_shell_variable_still_wins() {
    let v = pyenv_version(Some(String::new()), vec![Some("3.9".to_string())], None).unwrap();
    assert_eq!(v.version, "");
    assert_eq!(v.from, PyenvVersionFrom::Shell);
}

#[test]
fn local_marker_found_in_an_ancestor() {
    let files = local_version_files("/a/b/c");
    let reads: Vec<Option<String>> = files
        .iter()
        .map(|f| if f == "/a/.python-version" { Some("3.7".to_string()) } else { None })
        .collect();
    assert_eq!(reads, vec![None, None, Some("3.7".to_string()), None]);
    let v = pyenv_version(None, reads, Some("3.8".to_string())).unwrap();
    assert_eq!(v.version, "3.7");
    assert_eq!(v.from, PyenvVersionFrom::Local);
}

#[test]
fn nearest_local_marker_wins() {
    assert_eq!(
        first_readable(vec![None, Some("a".to_string()), Some("b".to_string())]),
        Some("a".to_string())
    );
    assert_eq!(first_readable(vec![None, None]), None);
    assert_eq!(first_readable(vec![]), None);
}

#[test]
fn global_is_the_last_resort() {
    let v = pyenv_version(None, vec![None, None], Some("3.8".to_string())).unwrap();
    assert_eq!(v.version, "3.8");
    assert_eq!(v.from, PyenvVersionFrom::Global);
    assert!(pyenv_version(None, vec![None], None).is_none());
    assert_eq!(global_version_file("/root/.pyenv"), "/root/.pyenv/version");
}

#[test]
fn version_describes_itself() {
    let v = PyenvVersion::from(PyenvVersionFrom::Local, "3.9".to_string());
    assert_eq!(v.describe(), "python 3.9 from local");
    assert_eq!(PyenvVersionFrom::Global.name(), "global");
}

#[test]
fn first_read_leaves_the_reads() {
    let reads = vec![None, Some("a".to_string()), Some("b".to_string())];
    assert_eq!(first_read(&reads), Some("a".to_string()));
    assert_eq!(reads.len(), 3);
    assert_eq!(first_read(&vec![None]), None);
}
