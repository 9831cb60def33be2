use pyenv_python::{Argv0Problem, Argv0Program, Argv0ProgramType, PathKind};

#[test]
fn shebang_naming_python_is_a_python_script() {
    let head = b"#!/usr/bin/env python3\nimport sys\n".to_vec();
    assert_eq!(Argv0ProgramType::classify(&head), Argv0ProgramType::PythonScript);
}

#[test]
fn shebang_naming_pip_is_a_python_script() {
    let head = b"#!/opt/pip-env/bin/interp\n".to_vec();
    assert_eq!(Argv0ProgramType::classify(&head), Argv0ProgramType::PythonScript);
}

#[test]
fn other_shebang_is_a_script() {
    let head = b"#!/bin/sh\necho python\n".to_vec();
    assert_eq!(Argv0ProgramType::classify(&head), Argv0ProgramType::Script);
}

#[test]
fn no_shebang_is_a_binary() {
    let head = vec![0x7f, b'E', b'L', b'F', 2, 1, 1, 0];
    assert_eq!(Argv0ProgramType::classify(&head), Argv0ProgramType::Binary);
    assert_eq!(Argv0ProgramType::classify(&vec![b'#']), Argv0ProgramType::Binary);
    assert_eq!(Argv0ProgramType::classify(&vec![]), Argv0ProgramType::Binary);
}

#[test]
fn detect_fails_distinctly() {
    let head = b"#!/bin/sh\n".to_vec();
    let e = Argv0ProgramType::detect("/nowhere/pip", PathKind::Missing, &head).unwrap_err();
    assert_eq!(e.problem, Argv0Problem::DoesNotExist);
    assert_eq!(e.path, "/nowhere/pip");
    assert_eq!(e.message(), "does not exist");
    let e = Argv0ProgramType::detect("/tmp", PathKind::Dir, &head).unwrap_err();
    assert_eq!(e.problem, Argv0Problem::NotAFile);
    let e = Argv0ProgramType::detect("/dev/null", PathKind::Other, &head).unwrap_err();
    assert_eq!(e.problem, Argv0Problem::NotAFile);
}

#[test]
fn python_script_runs_through_the_interpreter() {
    let program = Argv0Program {
        python_path: "/opt/py/bin/python".to_string(),
        path: "/opt/py/bin/pip".to_string(),
        exe_type: Argv0ProgramType::PythonScript,
    };
    let args = vec!["install".to_string(), "x".to_string()];
    assert_eq!(
        program.command_line(&args),
        vec!["/opt/py/bin/python", "/opt/py/bin/pip", "install", "x"]
    );
    assert_eq!(program.argv0(), "/opt/py/bin/python");
    assert_eq!(program.python_script().map(|s| s.as_str()), Some("/opt/py/bin/pip"));
    assert_eq!(program.describe(), "python pip");
}

#[test]
fn binary_and_script_run_directly() {
    for exe_type in [Argv0ProgramType::Binary, Argv0ProgramType::Script] {
        let program = Argv0Program {
            python_path: "/opt/py/bin/python".to_string(),
            path: "/opt/py/bin/tool".to_string(),
            exe_type,
        };
        let args = vec!["-v".to_string()];
        assert_eq!(program.command_line(&args), vec!["/opt/py/bin/tool", "-v"]);
        assert_eq!(program.python_script(), None);
        assert_eq!(program.describe(), "tool");
    }
}

#[test]
fn plain_python_describes_as_python() {
    let program = Argv0Program {
        python_path: "/opt/py/bin/python".to_string(),
        path: "/opt/py/bin/python".to_string(),
        exe_type: Argv0ProgramType::Binary,
    };
    assert_eq!(program.describe(), "python");
    assert_eq!(program.command_line(&vec![]), vec!["/opt/py/bin/python"]);
}

#[test]
fn invoked_name_is_looked_up_beside_python() {
    let python = "/root/.pyenv/versions/3.9/bin/python";
    assert_eq!(
        Argv0Program::program_path(python, &Some("/usr/local/bin/pip3".to_string())),
        "/root/.pyenv/versions/3.9/bin/pip3"
    );
    assert_eq!(Argv0Program::program_path(python, &None), python);
    assert_eq!(Argv0Program::program_path(python, &Some("/".to_string())), python);
}

#[test]
fn new_program_keeps_its_paths() {
    let head = b"\x7fELF".to_vec();
    let e = Argv0Program::new(
        "/opt/py/bin/python".to_string(),
        "/nowhere/python".to_string(),
        PathKind::Missing,
        &head,
    )
    .unwrap_err();
    assert_eq!(e.problem, Argv0Problem::DoesNotExist);
    assert_eq!(e.path, "/nowhere/python");
}

#[test]
fn executable_probe_decides_the_type() {
    let head = b"#!/usr/bin/python3\n".to_vec();
    assert_eq!(
        Argv0ProgramType::from_probe("/b/pip", PathKind::File, true, &head).unwrap(),
        Argv0ProgramType::PythonScript
    );
    let e = Argv0ProgramType::from_probe("/b/pip", PathKind::File, false, &head).unwrap_err();
    assert_eq!(e.problem, Argv0Problem::NotExecutable);
    let e = Argv0ProgramType::from_probe("/b/pip", PathKind::Missing, true, &head).unwrap_err();
    assert_eq!(e.problem, Argv0Problem::DoesNotExist);
}
