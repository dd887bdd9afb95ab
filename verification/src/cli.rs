//! The settings of a test session.

use vstd::prelude::*;
use crate::outcome::Failure;
use crate::round::Round;
use crate::verdict::{answer, answers, classify, test_mismatch, Mismatch};

verus! {

/// The ceilings under which the candidate runs. References and the generator
/// run under none.
#[derive(Clone, Copy, Debug, PartialEq, Eq)]
pub struct ResourceLimits {
    /// The longest the process may run.
    pub wall_clock: Option<std::time::Duration>,
    /// The most memory the process may hold, in bytes.
    pub resident_memory_bytes: Option<usize>,
}

/// The settings of a test session.
#[derive(Debug, PartialEq, Eq)]
pub struct Cli {
    /// The program that writes the input of a round.
    pub generator: String,
    /// The program under test.
    pub program: String,
    /// The programs whose output is trusted.
    pub reference: Vec<String>,
    /// How many rounds to run; one if not given.
    pub rounds: Option<u64>,
    /// The time limit of the program under test.
    pub time_limit: Option<std::time::Duration>,
    /// The memory limit of the program under test, in kilobytes of 1000 bytes.
    pub memory_limit: Option<usize>,
    /// Whether to report more than the results.
    pub verbose: bool,
    /// Options for the compiler of programs given as source.
    pub cpp_compiler_flags: String,
}

impl Cli {
    /// The memory limit, if there is one, can be counted in bytes.
    pub open spec fn is_valid(&self) -> bool {
        self.memory_limit is Some ==> self.memory_limit.unwrap() * 1000 <= usize::MAX
    }

    /// The limits that the settings put on the program under test: the time
    /// limit as given, the memory limit in bytes.
    pub open spec fn spec_limits(&self) -> ResourceLimits {
        ResourceLimits {
            wall_clock: self.time_limit,
            resident_memory_bytes: match self.memory_limit {
                Some(kilobytes) => Some((kilobytes * 1000) as usize),
                None => None,
            },
        }
    }

    /// The number of rounds to run.
    pub open spec fn spec_round_count(&self) -> u64 {
        match self.rounds {
            Some(n) => n,
            None => 1,
        }
    }

    /// Whether the memory limit can be counted in bytes.
    pub fn check(&self) -> (valid: bool)
        ensures
            valid == self.is_valid(),
    {
        match self.memory_limit {
            Some(kilobytes) => kilobytes <= usize::MAX / 1000,
            None => true,
        }
    }

    /// The limits that the settings put on the program under test.
    pub fn limits(&self) -> (limits: ResourceLimits)
        requires
            self.is_valid(),
        ensures
            limits == self.spec_limits(),
    {
        ResourceLimits {
            wall_clock: self.time_limit,
            resident_memory_bytes: match self.memory_limit {
                Some(kilobytes) => Some(kilobytes * 1000),
                None => None,
            },
        }
    }

    /// The number of rounds to run.
    pub fn round_count(&self) -> (count: u64)
        ensures
            count == self.spec_round_count(),
    {
        match self.rounds {
            Some(n) => n,
            None => 1,
        }
    }
}

/// What there is to say of a finished round.
#[derive(Debug, PartialEq, Eq)]
pub enum Report<'a> {
    /// The generator failed.
    GeneratorFail(Failure<'a>),
    /// The program under test failed on the input.
    ProgramFail(String, Failure<'a>),
    /// References failed on the input.
    ReferenceFails(String, Vec<Failure<'a>>),
    /// Every program ran cleanly, and there was no reference to compare the
    /// program under test with.
    Unchecked,
    /// Every program ran cleanly on the input, and this is how the outputs
    /// compare.
    Checked(String, Mismatch<'a>),
}

impl<'a> Report<'a> {
    /// Whether the round goes into the summary of a session: it does when
    /// the outputs were compared and did not all match.
    pub open spec fn spec_is_mismatch(&self) -> bool {
        match *self {
            Report::Checked(_, verdict) => !(verdict is AllMatch),
            _ => false,
        }
    }

    /// Whether the round goes into the summary of a session.
    pub fn is_mismatch(&self) -> (mismatch: bool)
        ensures
            mismatch == self.spec_is_mismatch(),
    {
        match self {
            Report::Checked(_, Mismatch::AllMatch) => false,
            Report::Checked(_, _) => true,
            _ => false,
        }
    }
}

/// Whether `report` says of `round` what there is to say: a failure is
/// passed on as it is; a complete round is compared, unless it has no
/// reference, in which case there is nothing to compare.
pub open spec fn reports<'a>(report: Report<'a>, round: Round<'a>) -> bool {
    match round {
        Round::GeneratorFail(failure) => report == Report::GeneratorFail(failure),
        Round::ProgramFail(input, failure) => report == Report::ProgramFail(input, failure),
        Round::ReferenceFails(input, failures) => report == Report::ReferenceFails(
            input,
            failures,
        ),
        Round::Success(input, prog, refs) => if refs@.len() == 0 {
            report is Unchecked
        } else {
            report matches Report::Checked(given, verdict) && given == input && verdict@
                == classify(answer(prog), answers(refs@))
        },
    }
}

/// Decides what to say of a finished round. The outputs of a complete round
/// are compared only where there is a reference to compare with.
pub fn review_round<'a>(round: Round<'a>) -> (report: Report<'a>)
    ensures
        reports(report, round),
{
    match round {
        Round::GeneratorFail(failure) => Report::GeneratorFail(failure),
        Round::ProgramFail(input, failure) => Report::ProgramFail(input, failure),
        Round::ReferenceFails(input, failures) => Report::ReferenceFails(input, failures),
        Round::Success(input, prog, refs) => {
            if refs.len() == 0 {
                Report::Unchecked
            } else {
                Report::Checked(input, test_mismatch(prog, refs))
            }
        },
    }
}

} // verus!
