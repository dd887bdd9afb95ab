//! Differential stress testing of a candidate program against reference
//! programs: resolving how a program is invoked, turning what a finished
//! process left behind into an outcome, sequencing one round, and
//! classifying the outputs of a completed round.
//!
//! Nothing here starts a process. The caller runs the programs and hands in
//! what they left behind; every decision about it is taken, and proved, here.

pub mod cli;
pub mod outcome;
pub mod resolve;
pub mod round;
pub mod verdict;

pub use outcome::{
    execute_prog, execute_prog_input, execute_prog_input_limits, execute_progs_input,
    output_to_execution, Execution, Failure, FailureKind, ProcessOutput,
    Success,
};
pub use resolve::{
    first_found, get_command, get_exe_command, get_python_command, interpreter_names,
    program_kind,
    python_command, Executable, Invocation, ProgramKind, ResolveError, WorkingDir,
};
pub use round::{generate_input, run_round, Round, RoundAction, RoundEvent, RoundState};
pub use verdict::{test_mismatch, Mismatch};
