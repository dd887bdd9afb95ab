//! Outcomes of single program runs: what a finished process left behind, and
//! whether that counts as a clean run; and what stands for a run that could
//! not be started.

use vstd::prelude::*;
use vstd::utf8::{decode_utf8, valid_utf8};
use crate::resolve::ResolveError;

verus! {

/// Why a run did not yield a usable output.
#[derive(Debug, PartialEq, Eq)]
pub enum Failure<'a> {
    /// The program at the path malfunctioned: the description of its exit
    /// status and the text of its diagnostic stream.
    Prog(&'a str, String, String),
    /// The program at the path was still running at its deadline.
    TimeLimit(&'a str),
    /// The program at the path could not be started, for this reason; no
    /// process was created for it.
    Unresolved(&'a str, ResolveError),
}

/// A clean run: the program's path and the text it wrote to its output stream.
pub type Success<'a> = (&'a str, String);

/// What one run of a program came to.
pub type Execution<'a> = Result<Success<'a>, Failure<'a>>;

/// The ways in which a run can fail.
#[derive(Clone, Copy, PartialEq, Eq, Structural, Debug)]
pub enum FailureKind {
    /// The exit status reported failure and the diagnostic stream was empty.
    /// A process killed for exceeding its memory ceiling is seen as this.
    NonZeroExit,
    /// The diagnostic stream was not empty, whatever the exit status.
    DiagnosticOutput,
    /// The deadline passed before the process finished.
    TimeLimitExceeded,
    /// The path did not resolve to anything that can be started.
    Unresolved,
}

impl<'a> Failure<'a> {
    /// The path of the program that failed.
    pub open spec fn spec_path(&self) -> &'a str {
        match *self {
            Failure::Prog(path, _, _) => path,
            Failure::TimeLimit(path) => path,
            Failure::Unresolved(path, _) => path,
        }
    }

    /// The kind of the failure, as a function of what was captured.
    pub open spec fn spec_kind(&self) -> FailureKind {
        match *self {
            Failure::Prog(_, _, diagnostics) => if diagnostics@.len() == 0 {
                FailureKind::NonZeroExit
            } else {
                FailureKind::DiagnosticOutput
            },
            Failure::TimeLimit(_) => FailureKind::TimeLimitExceeded,
            Failure::Unresolved(_, _) => FailureKind::Unresolved,
        }
    }

    /// The path of the program that failed.
    pub fn path(&self) -> (path: &'a str)
        ensures
            path == self.spec_path(),
    {
        match self {
            Failure::Prog(path, _, _) => *path,
            Failure::TimeLimit(path) => *path,
            Failure::Unresolved(path, _) => *path,
        }
    }

    /// The kind of the failure. Diagnostic text decides before the exit
    /// status does.
    pub fn kind(&self) -> (kind: FailureKind)
        ensures
            kind == self.spec_kind(),
    {
        match self {
            Failure::Prog(_, _, diagnostics) => if diagnostics.as_str().is_empty() {
                FailureKind::NonZeroExit
            } else {
                FailureKind::DiagnosticOutput
            },
            Failure::TimeLimit(_) => FailureKind::TimeLimitExceeded,
            Failure::Unresolved(_, _) => FailureKind::Unresolved,
        }
    }
}

/// What a finished process left behind, as plain values.
#[derive(Debug, PartialEq, Eq)]
pub struct ProcessOutput {
    /// Whether the exit status reports success.
    pub success: bool,
    /// The exit status, described for a reader.
    pub status: String,
    /// The bytes written to the output stream.
    pub stdout: Vec<u8>,
    /// The bytes written to the diagnostic stream.
    pub stderr: Vec<u8>,
}

impl ProcessOutput {
    /// The process reported success and wrote no diagnostics.
    pub open spec fn is_clean(&self) -> bool {
        self.success && self.stderr@.len() == 0
    }
}

/// The text that bytes which are not UTF-8 are read as: every ill-formed
/// sequence among them gives way to the replacement character U+FFFD, and
/// what is well-formed is kept.
pub uninterp spec fn lossy_text(bytes: Seq<u8>) -> Seq<char>;

/// The text of a stream: the characters that its bytes encode where they are
/// UTF-8, and their lossy reading where they are not.
pub open spec fn stream_text(bytes: Seq<u8>) -> Seq<char> {
    if valid_utf8(bytes) {
        decode_utf8(bytes)
    } else {
        lossy_text(bytes)
    }
}

/// Whether `run` is the outcome of the program at `path` having left `out`.
///
/// Diagnostic output or a failing exit status make the run a failure that
/// carries the status and the text of the diagnostic stream, which is empty
/// only where the stream is; only a clean run is a success, and it carries
/// the text of the output stream.
pub open spec fn is_outcome_of(run: Execution, path: Seq<char>, out: ProcessOutput) -> bool {
    match run {
        Ok((program, text)) => out.is_clean() && program@ == path && text@ == stream_text(
            out.stdout@,
        ),
        Err(Failure::Prog(program, status, diagnostics)) => !out.is_clean() && program@ == path
            && status@ == out.status@ && diagnostics@ == stream_text(out.stderr@) && (
        diagnostics@.len() == 0 <==> out.stderr@.len() == 0),
        Err(_) => false,
    }
}

/// Whether `run` is the outcome of a bounded run of the program at `path`:
/// no output at all means that the deadline passed.
pub open spec fn is_bounded_outcome_of(
    run: Execution,
    path: Seq<char>,
    out: Option<ProcessOutput>,
) -> bool {
    match out {
        None => run is Err && run.unwrap_err() is TimeLimit && run.unwrap_err().spec_path()@
            == path,
        Some(out) => is_outcome_of(run, path, out),
    }
}

/// Whether `run` is the failure that stands for a program at `path` which
/// could not be started for the reason `error`.
pub open spec fn is_unresolved(run: Execution, path: Seq<char>, error: ResolveError) -> bool {
    run matches Err(Failure::Unresolved(program, reason)) && program@ == path && reason == error
}

/// Whether `run` is what came of the program at `path`: the failure to
/// resolve it, where it could not be started, and else the outcome of what
/// the process left behind.
pub open spec fn is_run_of(
    run: Execution,
    path: Seq<char>,
    ran: Result<ProcessOutput, ResolveError>,
) -> bool {
    match ran {
        Err(error) => is_unresolved(run, path, error),
        Ok(out) => is_outcome_of(run, path, out),
    }
}

/// Whether `run` is what came of the program at `path` under limits: the
/// failure to resolve it, where it could not be started, and else the
/// outcome of the bounded run.
pub open spec fn is_bounded_run_of(
    run: Execution,
    path: Seq<char>,
    ran: Result<Option<ProcessOutput>, ResolveError>,
) -> bool {
    match ran {
        Err(error) => is_unresolved(run, path, error),
        Ok(out) => is_bounded_outcome_of(run, path, out),
    }
}

/// Diagnostic output overrides the exit status: a process that wrote to its
/// diagnostic stream has failed, with the kind `DiagnosticOutput`, whatever
/// it wrote there and even where its exit status reports success.
pub proof fn lemma_diagnostics_override_status(run: Execution, path: Seq<char>, out: ProcessOutput)
    requires
        is_outcome_of(run, path, out),
        out.stderr@.len() > 0,
    ensures
        run is Err,
        run.unwrap_err().spec_kind() == FailureKind::DiagnosticOutput,
{
}

/// A process that wrote no diagnostics fails exactly when its exit status
/// reports failure, and then with the kind `NonZeroExit`.
pub proof fn lemma_silent_run_goes_by_status(run: Execution, path: Seq<char>, out: ProcessOutput)
    requires
        is_outcome_of(run, path, out),
        out.stderr@.len() == 0,
    ensures
        run is Ok <==> out.success,
        run is Err ==> run.unwrap_err().spec_kind() == FailureKind::NonZeroExit,
{
}

/// Only a run under a deadline can fail for want of time: a process that was
/// left to finish never has the outcome `TimeLimit`, however long it ran,
/// and a process that was cut off at its deadline has no other.
pub proof fn lemma_only_bounded_runs_time_out(
    run: Execution,
    bounded: Execution,
    path: Seq<char>,
    out: ProcessOutput,
)
    requires
        is_outcome_of(run, path, out),
        is_bounded_outcome_of(bounded, path, None),
    ensures
        !(run is Err && run.unwrap_err() is TimeLimit),
        bounded is Err && bounded.unwrap_err().spec_kind() == FailureKind::TimeLimitExceeded,
{
}

/// Reads bytes as text with `String::from_utf8_lossy`. Bytes that are UTF-8
/// give the characters that they encode. Other bytes give their lossy
/// reading, named by [`lossy_text`], which holds the replacement character
/// at least once.
#[verifier::external_body]
fn read_text(bytes: &Vec<u8>) -> (text: String)
    ensures
        valid_utf8(bytes@) ==> text@ == decode_utf8(bytes@),
        !valid_utf8(bytes@) ==> text@ == lossy_text(bytes@) && text@.contains('\u{FFFD}'),
{
    String::from_utf8_lossy(bytes).into_owned()
}

/// Turns what a finished process left behind into the outcome of the run.
///
/// Diagnostic output overrides the exit status: a process that wrote any is a
/// failure even where it exited with success. Every output has an outcome:
/// a stream that is not UTF-8 is read with its ill-formed parts replaced.
pub fn output_to_execution<'a>(out: ProcessOutput, path: &'a str) -> (run: Execution<'a>)
    ensures
        is_outcome_of(run, path@, out),
        run is Ok <==> out.is_clean(),
{
    let ProcessOutput { success, status, stdout, stderr } = out;
    if success && stderr.len() == 0 {
        Ok((path, read_text(&stdout)))
    } else {
        let diagnostics = read_text(&stderr);
        proof {
            if valid_utf8(stderr@) {
                assert(decode_utf8(stderr@).len() == 0 <==> stderr@.len() == 0);
            }
        }
        Err(Failure::Prog(path, status, diagnostics))
    }
}

/// What came of a program that was to run without input: the failure to
/// resolve it, or the outcome of what its process left behind.
pub fn execute_prog<'a>(path: &'a str, ran: Result<ProcessOutput, ResolveError>) -> (run:
    Execution<'a>)
    ensures
        is_run_of(run, path@, ran),
        run is Ok <==> ran is Ok && ran.unwrap().is_clean(),
{
    match ran {
        Err(error) => Err(Failure::Unresolved(path, error)),
        Ok(out) => output_to_execution(out, path),
    }
}

/// What came of a program that was to run on an input without limits: the
/// failure to resolve it, or the outcome of what its process left behind.
pub fn execute_prog_input<'a>(path: &'a str, ran: Result<ProcessOutput, ResolveError>) -> (run:
    Execution<'a>)
    ensures
        is_run_of(run, path@, ran),
        run is Ok <==> ran is Ok && ran.unwrap().is_clean(),
{
    execute_prog(path, ran)
}

/// What came of a program that was to run on an input under limits.
///
/// A program that could not be resolved has that failure. Of a program that
/// was started, `None` says that the deadline passed before the process
/// finished: that is a `TimeLimit` failure, and whatever the process had
/// written is gone. A process stopped for its memory use has an output like
/// any other, with a failing exit status.
pub fn execute_prog_input_limits<'a>(
    path: &'a str,
    ran: Result<Option<ProcessOutput>, ResolveError>,
) -> (run: Execution<'a>)
    ensures
        is_bounded_run_of(run, path@, ran),
        run is Ok <==> (ran matches Ok(Some(out)) && out.is_clean()),
{
    match ran {
        Err(error) => Err(Failure::Unresolved(path, error)),
        Ok(None) => Err(Failure::TimeLimit(path)),
        Ok(Some(out)) => output_to_execution(out, path),
    }
}

/// What came of several programs that were to run on one input without
/// limits, in the order in which the programs are listed.
pub fn execute_progs_input<'a>(
    runs: Vec<(&'a str, Result<ProcessOutput, ResolveError>)>,
) -> (outcomes: Vec<Execution<'a>>)
    ensures
        outcomes.len() == runs.len(),
        forall|i: int|
            0 <= i < runs.len() ==> is_run_of(#[trigger] outcomes[i], runs[i].0@, runs[i].1),
{
    let mut outcomes: Vec<Execution<'a>> = Vec::new();
    for run in it: runs.into_iter()
        invariant
            it.seq() == runs@,
            outcomes.len() == it.index(),
            forall|i: int|
                0 <= i < it.index() ==> is_run_of(#[trigger] outcomes[i], runs[i].0@, runs[i].1),
    {
        assert(run == runs[it.index() as int]);
        let (path, ran) = run;
        outcomes.push(execute_prog_input(path, ran));
    }
    outcomes
}

} // verus!
