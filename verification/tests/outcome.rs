use compdiff::{
    execute_prog, execute_prog_input, execute_prog_input_limits, execute_progs_input,
    output_to_execution, Failure, FailureKind, ProcessOutput, ResolveError,
};

fn left(success: bool, status: &str, stdout: &[u8], stderr: &[u8]) -> ProcessOutput {
    ProcessOutput {
        success,
        status: status.to_string(),
        stdout: stdout.to_vec(),
        stderr: stderr.to_vec(),
    }
}

#[test]
fn clean_run_is_success_with_output_text() {
    let run = output_to_execution(left(true, "exit status: 0", b"1 2 3\n", b""), "gen");
    assert_eq!(run, Ok(("gen", "1 2 3\n".to_string())));
}

#[test]
fn output_is_decoded_as_utf8() {
    let bytes = [0x68, 0xc3, 0xa9, 0x20, 0xe2, 0x82, 0xac, 0x20, 0xf0, 0x9f, 0x98, 0x80];
    let run = output_to_execution(left(true, "exit status: 0", &bytes, b""), "p");
    assert_eq!(run, Ok(("p", "h\u{e9} \u{20ac} \u{1f600}".to_string())));
}

#[test]
fn empty_output_is_success_with_empty_text() {
    let run = output_to_execution(left(true, "exit status: 0", b"", b""), "p");
    assert_eq!(run, Ok(("p", String::new())));
}

#[test]
fn diagnostics_override_successful_status() {
    let run = output_to_execution(left(true, "exit status: 0", b"answer", b"warning: x\n"), "p");
    assert_eq!(
        run,
        Err(Failure::Prog("p", "exit status: 0".to_string(), "warning: x\n".to_string()))
    );
    assert_eq!(run.unwrap_err().kind(), FailureKind::DiagnosticOutput);
}

#[test]
fn failing_status_without_diagnostics_is_failure() {
    let run = output_to_execution(left(false, "exit status: 3", b"partial", b""), "p");
    assert_eq!(run, Err(Failure::Prog("p", "exit status: 3".to_string(), String::new())));
    assert_eq!(run.unwrap_err().kind(), FailureKind::NonZeroExit);
}

#[test]
fn failing_status_with_diagnostics_carries_both() {
    let run = output_to_execution(left(false, "signal: 9 (SIGKILL)", b"", b"boom"), "p");
    assert_eq!(
        run,
        Err(Failure::Prog("p", "signal: 9 (SIGKILL)".to_string(), "boom".to_string()))
    );
    assert_eq!(run.unwrap_err().kind(), FailureKind::DiagnosticOutput);
}

#[test]
fn failed_run_does_not_read_its_output_stream() {
    let run = output_to_execution(left(false, "exit status: 1", &[0xff, 0xfe], b"bad"), "p");
    assert_eq!(run, Err(Failure::Prog("p", "exit status: 1".to_string(), "bad".to_string())));
}

#[test]
fn diagnostics_that_are_not_text_are_read_with_replacements() {
    let run = output_to_execution(left(true, "exit status: 0", b"ok", &[0xc3]), "p");
    assert_eq!(
        run,
        Err(Failure::Prog("p", "exit status: 0".to_string(), "\u{fffd}".to_string()))
    );
    assert_eq!(run.unwrap_err().kind(), FailureKind::DiagnosticOutput);
    let run =
        output_to_execution(left(false, "exit status: 1", b"", &[0x65, 0x80, 0x72, 0xff]), "p");
    assert_eq!(
        run,
        Err(Failure::Prog("p", "exit status: 1".to_string(), "e\u{fffd}r\u{fffd}".to_string()))
    );
    assert_eq!(run.unwrap_err().kind(), FailureKind::DiagnosticOutput);
}

#[test]
fn clean_output_that_is_not_text_is_read_with_replacements() {
    let run = output_to_execution(left(true, "exit status: 0", &[0xff], b""), "p");
    assert_eq!(run, Ok(("p", "\u{fffd}".to_string())));
    let run = output_to_execution(left(true, "exit status: 0", &[0x68, 0xff, 0x69], b""), "p");
    assert_eq!(run, Ok(("p", "h\u{fffd}i".to_string())));
    let run = output_to_execution(left(true, "exit status: 0", &[0xed, 0xa0, 0x80], b""), "p");
    assert_eq!(run, Ok(("p", "\u{fffd}\u{fffd}\u{fffd}".to_string())));
}

#[test]
fn failed_run_with_unreadable_output_is_a_failure_like_any_other() {
    let run = output_to_execution(left(false, "exit status: 2", &[0xff], b""), "p");
    assert_eq!(run, Err(Failure::Prog("p", "exit status: 2".to_string(), String::new())));
    assert_eq!(run.unwrap_err().kind(), FailureKind::NonZeroExit);
}

#[test]
fn program_that_cannot_be_resolved_is_a_failure_of_its_own() {
    let unsupported = || ResolveError::UnsupportedProgramType("txt".to_string());
    let run = execute_prog("gen.txt", Err(unsupported()));
    assert_eq!(run, Err(Failure::Unresolved("gen.txt", unsupported())));
    let failure = run.unwrap_err();
    assert_eq!(failure.kind(), FailureKind::Unresolved);
    assert_eq!(failure.path(), "gen.txt");
    assert_eq!(
        execute_prog_input("r.py", Err(ResolveError::InterpreterNotFound)),
        Err(Failure::Unresolved("r.py", ResolveError::InterpreterNotFound))
    );
    assert_eq!(
        execute_prog_input_limits("c.cpp", Err(ResolveError::UnsupportedProgramType("cpp".to_string()))),
        Err(Failure::Unresolved("c.cpp", ResolveError::UnsupportedProgramType("cpp".to_string())))
    );
}

#[test]
fn execute_prog_classifies_like_output_to_execution() {
    assert_eq!(
        execute_prog("gen", Ok(left(true, "exit status: 0", b"5\n", b""))),
        Ok(("gen", "5\n".to_string()))
    );
    assert_eq!(
        execute_prog("gen", Ok(left(true, "exit status: 0", b"5\n", b"oops"))),
        Err(Failure::Prog("gen", "exit status: 0".to_string(), "oops".to_string()))
    );
    assert_eq!(
        execute_prog("gen", Ok(left(false, "exit status: 101", b"5\n", b""))),
        Err(Failure::Prog("gen", "exit status: 101".to_string(), String::new()))
    );
}

#[test]
fn execute_prog_input_classifies_output() {
    assert_eq!(
        execute_prog_input("ref", Ok(left(true, "exit status: 0", b"out", b""))),
        Ok(("ref", "out".to_string()))
    );
    assert_eq!(
        execute_prog_input("ref", Ok(left(true, "exit status: 0", b"out", b"err"))),
        Err(Failure::Prog("ref", "exit status: 0".to_string(), "err".to_string()))
    );
}

#[test]
fn missing_output_of_bounded_run_is_time_limit() {
    let run = execute_prog_input_limits("cand", Ok(None));
    assert_eq!(run, Err(Failure::TimeLimit("cand")));
    let failure = run.unwrap_err();
    assert_eq!(failure.kind(), FailureKind::TimeLimitExceeded);
    assert_eq!(failure.path(), "cand");
}

#[test]
fn bounded_run_that_finished_is_classified_by_its_output() {
    assert_eq!(
        execute_prog_input_limits("cand", Ok(Some(left(true, "exit status: 0", b"7", b"")))),
        Ok(("cand", "7".to_string()))
    );
    assert_eq!(
        execute_prog_input_limits("cand", Ok(Some(left(true, "exit status: 0", b"7", b"d")))),
        Err(Failure::Prog("cand", "exit status: 0".to_string(), "d".to_string()))
    );
}

#[test]
fn process_stopped_for_memory_is_an_ordinary_failure() {
    let run =
        execute_prog_input_limits("cand", Ok(Some(left(false, "signal: 9 (SIGKILL)", b"", b""))));
    assert_eq!(run, Err(Failure::Prog("cand", "signal: 9 (SIGKILL)".to_string(), String::new())));
    assert_eq!(run.unwrap_err().kind(), FailureKind::NonZeroExit);
}

#[test]
fn unbounded_run_never_reports_time_limit() {
    let outs = vec![
        left(true, "exit status: 0", b"a", b""),
        left(false, "exit status: 1", b"a", b""),
        left(true, "exit status: 0", b"", b"x"),
    ];
    for out in outs {
        match execute_prog_input("ref", Ok(out)) {
            Err(Failure::TimeLimit(_)) => panic!("a run without deadline timed out"),
            _ => {}
        }
    }
}

#[test]
fn several_programs_keep_their_order() {
    let runs = vec![
        ("r1", Ok(left(true, "exit status: 0", b"one", b""))),
        ("r2", Ok(left(false, "exit status: 1", b"", b"bad"))),
        ("r3.txt", Err(ResolveError::UnsupportedProgramType("txt".to_string()))),
        ("r4", Ok(left(true, "exit status: 0", b"four", b""))),
    ];
    assert_eq!(
        execute_progs_input(runs),
        vec![
            Ok(("r1", "one".to_string())),
            Err(Failure::Prog("r2", "exit status: 1".to_string(), "bad".to_string())),
            Err(Failure::Unresolved(
                "r3.txt",
                ResolveError::UnsupportedProgramType("txt".to_string())
            )),
            Ok(("r4", "four".to_string())),
        ]
    );
}

#[test]
fn no_programs_no_outcomes() {
    assert_eq!(execute_progs_input(vec![]), vec![]);
}

#[test]
fn failure_names_its_program() {
    assert_eq!(Failure::Prog("a/b", "s".to_string(), "d".to_string()).path(), "a/b");
    assert_eq!(Failure::TimeLimit("c").path(), "c");
    assert_eq!(Failure::Unresolved("d.py", ResolveError::InterpreterNotFound).path(), "d.py");
}
