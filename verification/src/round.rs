//! One round of testing: the generator writes an input, the program under
//! test and the references all run on it, and what they leave behind is put
//! together into the result of the round.
//!
//! Starting and awaiting processes is the caller's business. The decisions
//! are taken here, in [`run_round`]: the caller hands in what has happened
//! and is told what to do next.

use vstd::prelude::*;
use crate::cli::{Cli, ResourceLimits};
use crate::outcome::{
    execute_prog, is_run_of, is_unresolved, Execution, Failure, ProcessOutput, Success,
};
use crate::resolve::ResolveError;

verus! {

/// The result of a round.
#[derive(Debug, PartialEq, Eq)]
pub enum Round<'a> {
    /// The generator failed; nothing else was started.
    GeneratorFail(Failure<'a>),
    /// The input, and the failures of the references that failed.
    ReferenceFails(String, Vec<Failure<'a>>),
    /// The input, and the failure of the program under test.
    ProgramFail(String, Failure<'a>),
    /// The input, the run of the program under test and the runs of the
    /// references, all of them clean.
    Success(String, Success<'a>, Vec<Success<'a>>),
}

/// How far a round has come.
#[derive(Debug, PartialEq, Eq)]
pub enum RoundState<'a> {
    /// Nothing has been started.
    Start,
    /// The generator is running.
    Generating,
    /// The program under test and the references are running on the input.
    Running(String),
    /// The program under test has run cleanly on the input; the references
    /// are awaited.
    Collecting(String, Success<'a>),
    /// The round has its result.
    Done,
}

/// What has happened since the last step.
#[derive(Debug, PartialEq, Eq)]
pub enum RoundEvent<'a> {
    /// The round is to begin.
    Begin,
    /// The generator has finished, or could not be started.
    Generated(Execution<'a>),
    /// The program under test has finished, has run out of time, or could
    /// not be started.
    CandidateFinished(Execution<'a>),
    /// Every reference has finished or could not be started: what came of
    /// each, in the order in which the references are listed.
    ReferencesFinished(Vec<Execution<'a>>),
}

/// What the caller is to do next.
#[derive(Debug, PartialEq, Eq)]
pub enum RoundAction<'a> {
    /// Run the generator at this path, without input and without limits, and
    /// report its outcome.
    Generate(&'a str),
    /// Start the program under test within the limits and every reference
    /// without any, each on the same input and all of them before waiting
    /// for any; then report the outcome of the program under test.
    Launch { input: String, candidate: &'a str, limits: ResourceLimits, references: Vec<&'a str> },
    /// Wait for the references and report their outcomes.
    Collect,
    /// The round is over, with this result.
    Finish(Round<'a>),
    /// The event does not belong to the state of the round: nothing is to be
    /// done, and the state is as it was.
    Ignore,
}

/// What came of the generator, which runs without input: the failure to
/// resolve it, or the outcome of what its process left behind.
pub fn generate_input<'a>(args: &'a Cli, ran: Result<ProcessOutput, ResolveError>) -> (run:
    Execution<'a>)
    ensures
        is_run_of(run, args.generator@, ran),
        run is Ok <==> ran is Ok && ran.unwrap().is_clean(),
{
    execute_prog(args.generator.as_str(), ran)
}

/// Whether a run failed.
pub open spec fn failed<'a>() -> spec_fn(Execution<'a>) -> bool {
    |run: Execution<'a>| run is Err
}

/// Whether a run was clean.
pub open spec fn succeeded<'a>() -> spec_fn(Execution<'a>) -> bool {
    |run: Execution<'a>| run is Ok
}

/// The failure of a failed run.
pub open spec fn failure_in<'a>() -> spec_fn(Execution<'a>) -> Failure<'a> {
    |run: Execution<'a>| run->Err_0
}

/// The program and the output of a clean run.
pub open spec fn success_in<'a>() -> spec_fn(Execution<'a>) -> Success<'a> {
    |run: Execution<'a>| run->Ok_0
}

/// The failures among the outcomes, in order.
pub open spec fn failures_of<'a>(outcomes: Seq<Execution<'a>>) -> Seq<Failure<'a>> {
    outcomes.filter(failed()).map_values(failure_in())
}

/// The clean runs among the outcomes, in order.
pub open spec fn successes_of<'a>(outcomes: Seq<Execution<'a>>) -> Seq<Success<'a>> {
    outcomes.filter(succeeded()).map_values(success_in())
}

/// Whether `round` is the result of a round in which the program under test
/// ran cleanly and the references came to `outcomes`: if any reference
/// failed, the failures; otherwise the complete round.
pub open spec fn concludes<'a>(
    round: Round<'a>,
    input: String,
    candidate: Success<'a>,
    outcomes: Seq<Execution<'a>>,
) -> bool {
    if failures_of(outcomes).len() > 0 {
        round matches Round::ReferenceFails(given, failures) && given == input && failures@
            == failures_of(outcomes)
    } else {
        round matches Round::Success(given, run, references) && given == input && run
            == candidate && references@ == successes_of(outcomes)
    }
}

/// Whether `action` starts the participants of a round as the settings say:
/// the program under test within the configured limits, every listed
/// reference in order, all on `input`.
pub open spec fn launches(action: RoundAction, args: &Cli, input: String) -> bool {
    action matches RoundAction::Launch { input: given, candidate, limits, references } && given
        == input && candidate@ == args.program@ && limits == args.spec_limits()
        && references@.len() == args.reference@.len() && forall|i: int|
        0 <= i < references@.len() ==> (#[trigger] references@[i])@ == args.reference@[i]@
}

/// The one step that a round takes from `state` on `event`: the state that
/// follows and what the caller is told to do.
pub open spec fn is_step<'a>(
    args: &Cli,
    state: RoundState<'a>,
    event: RoundEvent<'a>,
    next: RoundState<'a>,
    action: RoundAction<'a>,
) -> bool {
    match (state, event) {
        (RoundState::Start, RoundEvent::Begin) => next is Generating && (
        action matches RoundAction::Generate(generator) && generator@ == args.generator@),
        (RoundState::Generating, RoundEvent::Generated(Err(failure))) => next is Done && action
            == RoundAction::Finish(Round::GeneratorFail(failure)),
        (RoundState::Generating, RoundEvent::Generated(Ok((_, input)))) => next
            == RoundState::Running(input) && launches(action, args, input),
        (RoundState::Running(input), RoundEvent::CandidateFinished(Err(failure))) => next is Done
            && action == RoundAction::Finish(Round::ProgramFail(input, failure)),
        (RoundState::Running(input), RoundEvent::CandidateFinished(Ok(run))) => next
            == RoundState::Collecting(input, run) && action is Collect,
        (RoundState::Collecting(input, run), RoundEvent::ReferencesFinished(outcomes)) => next
            is Done && (action matches RoundAction::Finish(round) && concludes(
            round,
            input,
            run,
            outcomes@,
        )),
        _ => next == state && action is Ignore,
    }
}

/// A failure of the generator ends the round at once, with that failure as
/// its result.
pub proof fn lemma_generator_failure_ends_round<'a>(
    args: &Cli,
    failure: Failure<'a>,
    next: RoundState<'a>,
    action: RoundAction<'a>,
)
    requires
        is_step(
            args,
            RoundState::Generating,
            RoundEvent::Generated(Err(failure)),
            next,
            action,
        ),
    ensures
        next is Done,
        action == RoundAction::Finish(Round::GeneratorFail(failure)),
{
}

/// Programs are started on an input only when the generator has just run
/// cleanly. So once the generator has failed, nothing is started any more:
/// the round is `Done`, and stays so whatever is reported.
pub proof fn lemma_launch_needs_generated_input<'a>(
    args: &Cli,
    state: RoundState<'a>,
    event: RoundEvent<'a>,
    next: RoundState<'a>,
    action: RoundAction<'a>,
)
    requires
        is_step(args, state, event, next, action),
    ensures
        action is Launch ==> state is Generating && (event matches RoundEvent::Generated(run)
            && run is Ok),
        action is Generate ==> state is Start,
        state is Done ==> next is Done && action is Ignore,
{
}

/// Whether the states, events and actions are those of one round as it is
/// stepped through: each event takes the state before it to the state after
/// it and yields the action at its place.
pub open spec fn is_course<'a>(
    args: &Cli,
    states: Seq<RoundState<'a>>,
    events: Seq<RoundEvent<'a>>,
    actions: Seq<RoundAction<'a>>,
) -> bool {
    &&& states.len() == events.len() + 1
    &&& actions.len() == events.len()
    &&& forall|i: int|
        0 <= i < events.len() ==> is_step(
            args,
            #[trigger] states[i],
            events[i],
            states[i + 1],
            actions[i],
        )
}

/// A round that is done stays done: whatever is reported afterwards, no
/// program is started and no further result is given.
pub proof fn lemma_done_is_final<'a>(
    args: &Cli,
    states: Seq<RoundState<'a>>,
    events: Seq<RoundEvent<'a>>,
    actions: Seq<RoundAction<'a>>,
    at: int,
    later: int,
)
    requires
        is_course(args, states, events, actions),
        0 <= at <= later < events.len(),
        states[at] is Done,
    ensures
        states[later] is Done,
        actions[later] is Ignore,
    decreases later - at,
{
    if at < later {
        assert(is_step(args, states[at], events[at], states[at + 1], actions[at]));
        lemma_done_is_final(args, states, events, actions, at + 1, later);
    } else {
        assert(is_step(args, states[at], events[at], states[at + 1], actions[at]));
    }
}

/// Once the generator has failed, no program is started in the rest of the
/// round: every later event is ignored.
pub proof fn lemma_nothing_starts_after_generator_failure<'a>(
    args: &Cli,
    states: Seq<RoundState<'a>>,
    events: Seq<RoundEvent<'a>>,
    actions: Seq<RoundAction<'a>>,
    at: int,
    later: int,
)
    requires
        is_course(args, states, events, actions),
        0 <= at < later < events.len(),
        states[at] is Generating,
        events[at] matches RoundEvent::Generated(run) && run is Err,
    ensures
        actions[at] matches RoundAction::Finish(round) && round is GeneratorFail,
        actions[later] is Ignore,
{
    assert(is_step(args, states[at], events[at], states[at + 1], actions[at]));
    lemma_done_is_final(args, states, events, actions, at + 1, later);
}

/// Once the program under test has failed, the round never comes to be
/// reported as complete: its result is that failure, and every later event
/// is ignored.
pub proof fn lemma_no_completion_after_candidate_failure<'a>(
    args: &Cli,
    states: Seq<RoundState<'a>>,
    events: Seq<RoundEvent<'a>>,
    actions: Seq<RoundAction<'a>>,
    at: int,
    later: int,
)
    requires
        is_course(args, states, events, actions),
        0 <= at < later < events.len(),
        states[at] is Running,
        events[at] matches RoundEvent::CandidateFinished(run) && run is Err,
    ensures
        actions[at] matches RoundAction::Finish(round) && round is ProgramFail,
        actions[later] is Ignore,
{
    assert(is_step(args, states[at], events[at], states[at + 1], actions[at]));
    lemma_done_is_final(args, states, events, actions, at + 1, later);
}

/// A failure of the program under test ends the round with that failure and
/// the input that caused it, whatever the references do; the round is not
/// reported as complete.
pub proof fn lemma_candidate_failure_ends_round<'a>(
    args: &Cli,
    input: String,
    failure: Failure<'a>,
    next: RoundState<'a>,
    action: RoundAction<'a>,
)
    requires
        is_step(
            args,
            RoundState::Running(input),
            RoundEvent::CandidateFinished(Err(failure)),
            next,
            action,
        ),
    ensures
        next is Done,
        action == RoundAction::Finish(Round::ProgramFail(input, failure)),
{
}

/// A round is reported as complete only when the references have all run
/// cleanly, after the program under test has; the result then holds the
/// run of every reference, in order.
pub proof fn lemma_complete_round_is_clean<'a>(
    args: &Cli,
    state: RoundState<'a>,
    event: RoundEvent<'a>,
    next: RoundState<'a>,
    action: RoundAction<'a>,
)
    requires
        is_step(args, state, event, next, action),
        action matches RoundAction::Finish(round) && round is Success,
    ensures
        state matches RoundState::Collecting(input, candidate) && (
        event matches RoundEvent::ReferencesFinished(outcomes) && (
        action matches RoundAction::Finish(Round::Success(given, run, references)) && given
            == input && run == candidate && references@.len() == outcomes@.len() && forall|
            i: int,
        |
            0 <= i < outcomes@.len() ==> (#[trigger] outcomes@[i]) == Ok::<Success, Failure>(
                references@[i],
            ))),
{
    match (state, event) {
        (RoundState::Collecting(input, candidate), RoundEvent::ReferencesFinished(outcomes)) => {
            lemma_no_failures_means_all_clean(outcomes@);
        },
        _ => {},
    }
}

/// Where no outcome is a failure, the clean runs are all the outcomes.
pub proof fn lemma_no_failures_means_all_clean<'a>(outcomes: Seq<Execution<'a>>)
    requires
        failures_of(outcomes).len() == 0,
    ensures
        successes_of(outcomes).len() == outcomes.len(),
        forall|i: int|
            0 <= i < outcomes.len() ==> (#[trigger] outcomes[i]) == Ok::<Success, Failure>(
                successes_of(outcomes)[i],
            ),
    decreases outcomes.len(),
{
    reveal(Seq::filter);
    if outcomes.len() > 0 {
        let front = outcomes.drop_last();
        let last = outcomes.last();
        assert(outcomes =~= front.push(last));
        front.lemma_filter_push(last, failed());
        front.lemma_filter_push(last, succeeded());
        assert(last is Ok);
        lemma_no_failures_means_all_clean(front);
        assert(front.filter(succeeded()).push(last).map_values(success_in())
            =~= front.filter(succeeded()).map_values(success_in()).push(last->Ok_0));
    }
}

/// A generator that cannot be started ends the round at once, and the
/// reason is the result of the round: nothing is started on its account.
pub proof fn lemma_unresolved_generator_is_the_result<'a>(
    args: &Cli,
    run: Execution<'a>,
    error: ResolveError,
    next: RoundState<'a>,
    action: RoundAction<'a>,
)
    requires
        is_unresolved(run, args.generator@, error),
        is_step(args, RoundState::Generating, RoundEvent::Generated(run), next, action),
    ensures
        next is Done,
        action matches RoundAction::Finish(Round::GeneratorFail(Failure::Unresolved(path, reason)))
            && path@ == args.generator@ && reason == error,
{
}

/// A program under test that cannot be started ends the round, and the
/// reason is the result of the round, with the input.
pub proof fn lemma_unresolved_candidate_is_the_result<'a>(
    args: &Cli,
    input: String,
    run: Execution<'a>,
    error: ResolveError,
    next: RoundState<'a>,
    action: RoundAction<'a>,
)
    requires
        is_unresolved(run, args.program@, error),
        is_step(
            args,
            RoundState::Running(input),
            RoundEvent::CandidateFinished(run),
            next,
            action,
        ),
    ensures
        next is Done,
        action matches RoundAction::Finish(
            Round::ProgramFail(given, Failure::Unresolved(path, reason)),
        ) && given == input && path@ == args.program@ && reason == error,
{
}

/// Every failure among the outcomes is among the failures kept.
pub proof fn lemma_failures_keep_every_failure<'a>(outcomes: Seq<Execution<'a>>, i: int)
    requires
        0 <= i < outcomes.len(),
        outcomes[i] is Err,
    ensures
        failures_of(outcomes).contains(outcomes[i]->Err_0),
{
    let kept = outcomes.filter(failed());
    outcomes.lemma_filter_contains(failed(), i);
    let k = choose|k: int| 0 <= k < kept.len() && kept[k] == outcomes[i];
    assert(failures_of(outcomes)[k] == outcomes[i]->Err_0);
}

/// A reference that cannot be started, or that fails in any other way,
/// keeps the round from being complete: the result is the failures of the
/// references, and this one is among them.
pub proof fn lemma_failed_reference_is_in_the_result<'a>(
    args: &Cli,
    input: String,
    candidate: Success<'a>,
    outcomes: Vec<Execution<'a>>,
    i: int,
    next: RoundState<'a>,
    action: RoundAction<'a>,
)
    requires
        0 <= i < outcomes@.len(),
        outcomes@[i] is Err,
        is_step(
            args,
            RoundState::Collecting(input, candidate),
            RoundEvent::ReferencesFinished(outcomes),
            next,
            action,
        ),
    ensures
        next is Done,
        action matches RoundAction::Finish(Round::ReferenceFails(given, failures)) && given
            == input && failures@.contains(outcomes@[i]->Err_0),
{
    lemma_failures_keep_every_failure(outcomes@, i);
}

/// The paths of the references, in the order of the settings.
fn reference_paths<'a>(args: &'a Cli) -> (paths: Vec<&'a str>)
    ensures
        paths@.len() == args.reference@.len(),
        forall|i: int| 0 <= i < paths@.len() ==> (#[trigger] paths@[i])@ == args.reference@[i]@,
{
    let mut paths: Vec<&'a str> = Vec::new();
    let mut i: usize = 0;
    while i < args.reference.len()
        invariant
            i <= args.reference@.len(),
            paths@.len() == i,
            forall|k: int| 0 <= k < i ==> (#[trigger] paths@[k])@ == args.reference@[k]@,
        decreases args.reference@.len() - i,
    {
        paths.push(args.reference[i].as_str());
        i += 1;
    }
    paths
}

/// Puts the result of a round together once the references have finished.
fn conclude<'a>(input: String, candidate: Success<'a>, outcomes: Vec<Execution<'a>>) -> (round:
    Round<'a>)
    ensures
        concludes(round, input, candidate, outcomes@),
{
    let mut failures: Vec<Failure<'a>> = Vec::new();
    let mut successes: Vec<Success<'a>> = Vec::new();
    let ghost all = outcomes@;
    for run in it: outcomes.into_iter()
        invariant
            it.seq() == all,
            failures@ == failures_of(all.take(it.index() as int)),
            successes@ == successes_of(all.take(it.index() as int)),
    {
        proof {
            let k = it.index() as int;
            assert(all.take(k + 1) =~= all.take(k).push(run));
            all.take(k).lemma_filter_push(run, failed());
            all.take(k).lemma_filter_push(run, succeeded());
        }
        match run {
            Err(failure) => {
                proof {
                    let before = all.take(it.index() as int).filter(failed());
                    assert(before.push(run).map_values(failure_in()) =~= before.map_values(
                        failure_in(),
                    ).push(failure));
                }
                failures.push(failure);
            },
            Ok(success) => {
                proof {
                    let before = all.take(it.index() as int).filter(succeeded());
                    assert(before.push(run).map_values(success_in()) =~= before.map_values(
                        success_in(),
                    ).push(success));
                }
                successes.push(success);
            },
        }
    }
    proof {
        assert(all.take(all.len() as int) =~= all);
    }
    if failures.len() > 0 {
        Round::ReferenceFails(input, failures)
    } else {
        Round::Success(input, candidate, successes)
    }
}

/// Takes one step of a round: given the state of the round and what has
/// happened, says what to do next and what the state then is.
///
/// A round begins in `Start` with `Begin`. The generator runs first; if it
/// fails the round is over and nothing else is started. Otherwise its output
/// is the input on which the program under test and all references are
/// started. A failure of the program under test ends the round, whatever the
/// references do. Otherwise the references are awaited: their failures, if
/// there are any, are the result, and else the complete round is.
pub fn run_round<'a>(args: &'a Cli, state: RoundState<'a>, event: RoundEvent<'a>) -> (step: (
    RoundState<'a>,
    RoundAction<'a>,
))
    requires
        args.is_valid(),
    ensures
        is_step(args, state, event, step.0, step.1),
{
    match (state, event) {
        (RoundState::Start, RoundEvent::Begin) => (
            RoundState::Generating,
            RoundAction::Generate(args.generator.as_str()),
        ),
        (RoundState::Generating, RoundEvent::Generated(Err(failure))) => (
            RoundState::Done,
            RoundAction::Finish(Round::GeneratorFail(failure)),
        ),
        (RoundState::Generating, RoundEvent::Generated(Ok((_, input)))) => {
            let action = RoundAction::Launch {
                input: input.clone(),
                candidate: args.program.as_str(),
                limits: args.limits(),
                references: reference_paths(args),
            };
            (RoundState::Running(input), action)
        },
        (RoundState::Running(input), RoundEvent::CandidateFinished(Err(failure))) => (
            RoundState::Done,
            RoundAction::Finish(Round::ProgramFail(input, failure)),
        ),
        (RoundState::Running(input), RoundEvent::CandidateFinished(Ok(run))) => (
            RoundState::Collecting(input, run),
            RoundAction::Collect,
        ),
        (RoundState::Collecting(input, run), RoundEvent::ReferencesFinished(outcomes)) => (
            RoundState::Done,
            RoundAction::Finish(conclude(input, run, outcomes)),
        ),
        (state, _) => (state, RoundAction::Ignore),
    }
}

} // verus!
