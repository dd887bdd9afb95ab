use compdiff::{
    first_found, get_command, get_exe_command, get_python_command, interpreter_names,
    program_kind, python_command, Executable, Invocation, ProgramKind, ResolveError, WorkingDir,
};
use std::path::PathBuf;

fn first_interpreter_on_this_machine() -> Option<PathBuf> {
    for name in ["python", "python3", "python"] {
        if let Ok(path) = which::which(name) {
            return Some(path);
        }
    }
    None
}

#[test]
fn python_extension_is_a_script() {
    assert_eq!(program_kind(Some("py")), Ok(ProgramKind::InterpretedScript));
}

#[test]
fn exe_extension_and_no_extension_are_native() {
    assert_eq!(program_kind(Some("exe")), Ok(ProgramKind::NativeExecutable));
    assert_eq!(program_kind(None), Ok(ProgramKind::NativeExecutable));
}

#[test]
fn other_extensions_are_unsupported() {
    assert_eq!(
        program_kind(Some("txt")),
        Err(ResolveError::UnsupportedProgramType("txt".to_string()))
    );
    assert_eq!(program_kind(Some("PY")), Err(ResolveError::UnsupportedProgramType("PY".to_string())));
    assert_eq!(program_kind(Some("pyc")), Err(ResolveError::UnsupportedProgramType("pyc".to_string())));
    assert_eq!(program_kind(Some("p")), Err(ResolveError::UnsupportedProgramType("p".to_string())));
    assert_eq!(program_kind(Some("")), Err(ResolveError::UnsupportedProgramType(String::new())));
    assert_eq!(program_kind(Some("ex")), Err(ResolveError::UnsupportedProgramType("ex".to_string())));
    assert_eq!(program_kind(Some("exf")), Err(ResolveError::UnsupportedProgramType("exf".to_string())));
}

#[test]
fn interpreter_names_in_order() {
    assert_eq!(interpreter_names(), vec!["python", "python3", "python"]);
}

#[test]
fn native_invocation_is_the_file_itself() {
    assert_eq!(
        get_exe_command("./bin/solver"),
        Invocation {
            executable: Executable::Program("./bin/solver"),
            arguments: vec![],
            working_dir: WorkingDir::Inherited,
        }
    );
}

#[test]
fn script_invocation_hands_the_script_to_the_interpreter() {
    let found = PathBuf::from("/usr/bin/python3");
    assert_eq!(
        python_command("gen.py", Some(found.clone())),
        Ok(Invocation {
            executable: Executable::Interpreter(found),
            arguments: vec!["gen.py"],
            working_dir: WorkingDir::Current,
        })
    );
}

#[test]
fn script_without_interpreter_is_an_error() {
    assert_eq!(python_command("gen.py", None), Err(ResolveError::InterpreterNotFound));
}

#[test]
fn path_without_extension_resolves_natively() {
    assert_eq!(get_command("a.out.d/solver"), Ok(get_exe_command("a.out.d/solver")));
    assert_eq!(get_command("solver"), Ok(get_exe_command("solver")));
}

#[test]
fn exe_path_resolves_natively() {
    assert_eq!(get_command("build/solver.exe"), Ok(get_exe_command("build/solver.exe")));
}

#[test]
fn hidden_file_has_no_extension() {
    assert_eq!(get_command(".solver"), Ok(get_exe_command(".solver")));
}

#[test]
fn unsupported_extension_is_named_in_the_error() {
    assert_eq!(
        get_command("solver.cpp"),
        Err(ResolveError::UnsupportedProgramType("cpp".to_string()))
    );
    assert_eq!(
        get_command("dir/archive.tar.gz"),
        Err(ResolveError::UnsupportedProgramType("gz".to_string()))
    );
    assert_eq!(
        get_command("py.txt"),
        Err(ResolveError::UnsupportedProgramType("txt".to_string()))
    );
}

#[test]
fn only_the_last_extension_counts() {
    assert_eq!(get_command("solver.py.exe"), Ok(get_exe_command("solver.py.exe")));
}

#[test]
fn script_resolves_to_an_interpreter_if_the_machine_has_one() {
    let expected = match first_interpreter_on_this_machine() {
        Some(found) => python_command("tests/gen.py", Some(found)),
        None => Err(ResolveError::InterpreterNotFound),
    };
    assert_eq!(get_command("tests/gen.py"), expected);
    let expected = match first_interpreter_on_this_machine() {
        Some(found) => python_command("x.py", Some(found)),
        None => Err(ResolveError::InterpreterNotFound),
    };
    assert_eq!(get_python_command("x.py"), expected);
}

#[test]
fn first_lookup_that_succeeded_is_kept() {
    let python = PathBuf::from("/usr/bin/python");
    let python3 = PathBuf::from("/usr/local/bin/python3");
    assert_eq!(
        first_found(vec![Some(python.clone()), Some(python3.clone()), Some(python.clone())]),
        Some(python.clone())
    );
    assert_eq!(first_found(vec![None, Some(python3.clone()), None]), Some(python3.clone()));
    assert_eq!(
        first_found(vec![None, Some(python3.clone()), Some(python.clone())]),
        Some(python3.clone())
    );
    assert_eq!(first_found(vec![None, None, Some(python.clone())]), Some(python));
    assert_eq!(first_found(vec![Some(python3.clone())]), Some(python3));
}

#[test]
fn no_lookup_succeeded_nothing_is_found() {
    assert_eq!(first_found(vec![None, None, None]), None);
    assert_eq!(first_found(vec![]), None);
}

#[test]
fn python_is_preferred_to_python3() {
    let lookups: Vec<Option<PathBuf>> =
        interpreter_names().into_iter().map(|name| which::which(name).ok()).collect();
    let expected = match (which::which("python"), which::which("python3")) {
        (Ok(python), _) => python_command("s.py", Some(python)),
        (Err(_), Ok(python3)) => python_command("s.py", Some(python3)),
        (Err(_), Err(_)) => Err(ResolveError::InterpreterNotFound),
    };
    assert_eq!(python_command("s.py", first_found(lookups)), expected);
    assert_eq!(get_python_command("s.py"), expected);
}

#[test]
fn errors_in_words() {
    assert_eq!(
        ResolveError::UnsupportedProgramType("txt".to_string()).message(),
        "unsupported file type txt"
    );
    assert_eq!(
        ResolveError::UnsupportedProgramType(String::new()).message(),
        "unsupported file type "
    );
    assert_eq!(ResolveError::InterpreterNotFound.message(), "cannot find a python intepreter!");
}
