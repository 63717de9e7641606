//! The course of a run: an abort trap is set, the tests are run, and the trap is cleared.
//!
//! A step names the outside work that is due. For each step there is a function that takes what
//! came of this work and gives the step that follows.
use vstd::prelude::*;
use crate::messages::Message;
use crate::text::views;

verus! {

/// What came of a git command.
#[derive(Clone, Copy, Debug, PartialEq, Eq, Structural)]
pub struct GitOutcome {
    pub exit_code: isize,
    /// Whether the exit code stands for success.
    pub success: bool,
}

/// The commands of a rebase plan that are used.
#[derive(Clone, Copy, Debug, PartialEq, Eq, Structural)]
pub enum RebaseCommand {
    /// Stop, and leave the rebase in progress.
    Break,
}

/// A rebase, and how it is to be carried out. `O` identifies a commit.
#[derive(Debug)]
pub struct RebasePlan<O> {
    /// The commit that the rebase starts on.
    pub first_dest_oid: O,
    pub commands: Vec<RebaseCommand>,
    pub preserve_timestamps: bool,
    pub force_in_memory: bool,
    pub force_on_disk: bool,
    pub resolve_merge_conflicts: bool,
}

impl<O> RebasePlan<O> {
    /// A rebase that does nothing but stay in progress on disk, on the commit that is checked out.
    /// Until it is aborted, no other operation can be started.
    pub fn abort_trap(head_oid: O) -> (plan: RebasePlan<O>)
        ensures
            plan.first_dest_oid == head_oid,
            plan.commands@ == seq![RebaseCommand::Break],
            plan.preserve_timestamps,
            !plan.force_in_memory,
            plan.force_on_disk,
            !plan.resolve_merge_conflicts,
    {
        let mut commands: Vec<RebaseCommand> = Vec::new();
        commands.push(RebaseCommand::Break);
        RebasePlan {
            first_dest_oid: head_oid,
            commands,
            preserve_timestamps: true,
            force_in_memory: false,
            force_on_disk: true,
            resolve_merge_conflicts: false,
        }
    }
}

/// What came of carrying out a rebase plan.
#[derive(Debug)]
pub enum RebaseResult {
    Succeeded,
    /// There was a merge conflict, described by the text.
    DeclinedToMerge(String),
    Failed { exit_code: isize },
}

/// The git command that clears the abort trap.
pub fn abort_rebase_args() -> (args: Vec<String>)
    ensures
        views(args@) == seq!["rebase"@, "--abort"@],
{
    let mut args: Vec<String> = Vec::new();
    args.push("rebase".to_string());
    args.push("--abort".to_string());
    assert(views(args@) =~= seq!["rebase"@, "--abort"@]);
    args
}

/// The outside work that is due next. `O` identifies a commit, and `E` is an error of this work.
pub enum RunStep<O, E> {
    /// Find the commits to test.
    ResolveCommits,
    /// Say why there are no commits to test.
    DescribeResolveError,
    /// Find out whether an operation is in progress.
    QueryOperation,
    /// Find out which commit is checked out.
    QueryHead,
    /// Set the abort trap on the commit that is checked out.
    StartRebase(O),
    /// Say why the abort trap cannot be set.
    Refuse(Message),
    /// Put the commits to test in order.
    SortCommits,
    /// Run the tests.
    RunTests,
    /// Clear the abort trap, now that the tests have ended as given.
    AbortRebase(Result<isize, E>),
    /// Say that clearing the abort trap failed with the given exit code.
    ReportAbortFailure(isize),
    /// End with an exit code or an error.
    Finish(Result<isize, E>),
}

/// What came of the outside work of a step.
pub enum RunEvent<O, E> {
    /// Whether the commits to test were found.
    Resolved(bool),
    /// Something was said, or could not be said.
    Said(Result<(), E>),
    /// The operation in progress, if any.
    Operation(Option<String>),
    /// The commit that is checked out, if any.
    Head(Result<Option<O>, E>),
    /// The rebase plan of the abort trap was carried out.
    RebaseStarted(Result<RebaseResult, E>),
    /// The commits were put in order.
    Sorted(Result<(), E>),
    /// The tests have ended.
    TestsEnded(Result<isize, E>),
    /// Git was asked to abort the rebase.
    Aborted(Result<GitOutcome, E>),
}

/// The exit code of a run that could not do what was asked for.
pub const FAILURE: isize = 1;

/// The end of a run that has said what it had to say, and gives the exit code unless it could not
/// be said.
pub open spec fn finish_after<O, E>(said: Result<(), E>, exit_code: isize) -> RunStep<O, E> {
    RunStep::Finish(
        match said {
            Ok(_) => Ok(exit_code),
            Err(err) => Err(err),
        },
    )
}

/// The step that follows a step, given what came of it. No other event can come of a step.
pub open spec fn next<O, E>(step: RunStep<O, E>, event: RunEvent<O, E>) -> Option<RunStep<O, E>> {
    match (step, event) {
        (RunStep::ResolveCommits, RunEvent::Resolved(resolved)) => Some(
            if resolved {
                RunStep::QueryOperation
            } else {
                RunStep::DescribeResolveError
            },
        ),
        (RunStep::DescribeResolveError, RunEvent::Said(said)) => Some(finish_after(said, FAILURE)),
        (RunStep::QueryOperation, RunEvent::Operation(operation)) => Some(
            match operation {
                Some(operation) => RunStep::Refuse(Message::OperationInProgress(operation)),
                None => RunStep::QueryHead,
            },
        ),
        (RunStep::QueryHead, RunEvent::Head(head)) => Some(
            match head {
                Ok(Some(head_oid)) => RunStep::StartRebase(head_oid),
                Ok(None) => RunStep::Refuse(Message::NoCommitCheckedOut),
                Err(err) => RunStep::Finish(Err(err)),
            },
        ),
        (RunStep::StartRebase(_), RunEvent::RebaseStarted(result)) => Some(
            match result {
                Ok(RebaseResult::Succeeded) => RunStep::SortCommits,
                Ok(RebaseResult::DeclinedToMerge(conflict)) => RunStep::Refuse(
                    Message::UnexpectedMergeConflict(conflict),
                ),
                Ok(RebaseResult::Failed { exit_code }) => RunStep::Finish(Ok(exit_code)),
                Err(err) => RunStep::Finish(Err(err)),
            },
        ),
        (RunStep::Refuse(_), RunEvent::Said(said)) => Some(finish_after(said, FAILURE)),
        (RunStep::SortCommits, RunEvent::Sorted(sorted)) => Some(
            match sorted {
                Ok(_) => RunStep::RunTests,
                Err(err) => RunStep::Finish(Err(err)),
            },
        ),
        (RunStep::RunTests, RunEvent::TestsEnded(tests)) => Some(RunStep::AbortRebase(tests)),
        (RunStep::AbortRebase(tests), RunEvent::Aborted(abort)) => Some(
            match abort {
                Ok(outcome) => if outcome.success {
                    RunStep::Finish(tests)
                } else {
                    RunStep::ReportAbortFailure(outcome.exit_code)
                },
                Err(err) => RunStep::Finish(Err(err)),
            },
        ),
        (RunStep::ReportAbortFailure(exit_code), RunEvent::Said(said)) => Some(
            finish_after(said, exit_code),
        ),
        _ => None,
    }
}

/// The step after the commits to test were looked up.
pub fn after_resolve<O, E>(resolved: bool) -> (step: RunStep<O, E>)
    ensures
        Some(step) == next(RunStep::<O, E>::ResolveCommits, RunEvent::Resolved(resolved)),
{
    if resolved {
        RunStep::QueryOperation
    } else {
        RunStep::DescribeResolveError
    }
}

/// The end of a run that has said what it had to say.
fn finish<O, E>(said: Result<(), E>, exit_code: isize) -> (step: RunStep<O, E>)
    ensures
        step == finish_after::<O, E>(said, exit_code),
{
    match said {
        Ok(_) => RunStep::Finish(Ok(exit_code)),
        Err(err) => RunStep::Finish(Err(err)),
    }
}

/// The step after the failure to look up the commits was explained.
pub fn after_describe_resolve_error<O, E>(said: Result<(), E>) -> (step: RunStep<O, E>)
    ensures
        Some(step) == next(RunStep::<O, E>::DescribeResolveError, RunEvent::Said(said)),
{
    finish(said, FAILURE)
}

/// The step after the operation in progress was looked up.
pub fn after_operation_query<O, E>(operation: Option<String>) -> (step: RunStep<O, E>)
    ensures
        Some(step) == next(RunStep::<O, E>::QueryOperation, RunEvent::Operation(operation)),
{
    match operation {
        Some(operation) => RunStep::Refuse(Message::OperationInProgress(operation)),
        None => RunStep::QueryHead,
    }
}

/// The step after the commit that is checked out was looked up.
pub fn after_head_query<O, E>(head: Result<Option<O>, E>) -> (step: RunStep<O, E>)
    ensures
        Some(step) == next(RunStep::<O, E>::QueryHead, RunEvent::Head(head)),
{
    match head {
        Ok(Some(head_oid)) => RunStep::StartRebase(head_oid),
        Ok(None) => RunStep::Refuse(Message::NoCommitCheckedOut),
        Err(err) => RunStep::Finish(Err(err)),
    }
}

/// The step after the rebase plan of the abort trap was carried out.
pub fn after_start_rebase<O, E>(result: Result<RebaseResult, E>) -> (step: RunStep<O, E>)
    ensures
        forall|head_oid: O|
            Some(step) == #[trigger] next(
                RunStep::StartRebase(head_oid),
                RunEvent::RebaseStarted(result),
            ),
        step == match result {
            Ok(RebaseResult::Succeeded) => RunStep::<O, E>::SortCommits,
            Ok(RebaseResult::DeclinedToMerge(conflict)) => RunStep::<O, E>::Refuse(
                Message::UnexpectedMergeConflict(conflict),
            ),
            Ok(RebaseResult::Failed { exit_code }) => RunStep::<O, E>::Finish(Ok(exit_code)),
            Err(err) => RunStep::<O, E>::Finish(Err(err)),
        },
{
    match result {
        Ok(RebaseResult::Succeeded) => RunStep::SortCommits,
        Ok(RebaseResult::DeclinedToMerge(conflict)) => RunStep::Refuse(
            Message::UnexpectedMergeConflict(conflict),
        ),
        Ok(RebaseResult::Failed { exit_code }) => RunStep::Finish(Ok(exit_code)),
        Err(err) => RunStep::Finish(Err(err)),
    }
}

/// The step after it was explained why the abort trap cannot be set.
pub fn after_refuse<O, E>(said: Result<(), E>) -> (step: RunStep<O, E>)
    ensures
        forall|message: Message|
            Some(step) == #[trigger] next(RunStep::<O, E>::Refuse(message), RunEvent::Said(said)),
        step == finish_after::<O, E>(said, FAILURE),
{
    finish(said, FAILURE)
}

/// The step after the commits were put in order.
pub fn after_sort<O, E>(sorted: Result<(), E>) -> (step: RunStep<O, E>)
    ensures
        Some(step) == next(RunStep::<O, E>::SortCommits, RunEvent::Sorted(sorted)),
{
    match sorted {
        Ok(_) => RunStep::RunTests,
        Err(err) => RunStep::Finish(Err(err)),
    }
}

/// The step after the tests have ended, in whatever way: the abort trap is cleared.
pub fn after_tests<O, E>(tests: Result<isize, E>) -> (step: RunStep<O, E>)
    ensures
        Some(step) == next(RunStep::<O, E>::RunTests, RunEvent::TestsEnded(tests)),
{
    RunStep::AbortRebase(tests)
}

/// The step after the attempt to clear the abort trap. If it failed, so has the run, whatever the
/// tests gave.
pub fn after_abort<O, E>(tests: Result<isize, E>, abort: Result<GitOutcome, E>) -> (step: RunStep<
    O,
    E,
>)
    ensures
        Some(step) == next(RunStep::<O, E>::AbortRebase(tests), RunEvent::Aborted(abort)),
{
    match abort {
        Ok(outcome) => if outcome.success {
            RunStep::Finish(tests)
        } else {
            RunStep::ReportAbortFailure(outcome.exit_code)
        },
        Err(err) => RunStep::Finish(Err(err)),
    }
}

/// The step after the failure to clear the abort trap was reported.
pub fn after_abort_failure<O, E>(exit_code: isize, said: Result<(), E>) -> (step: RunStep<O, E>)
    ensures
        Some(step) == next(RunStep::<O, E>::ReportAbortFailure(exit_code), RunEvent::Said(said)),
{
    finish(said, exit_code)
}

/// The steps of a run up to some point, and what came of each but the last.
pub struct RunTrace<O, E> {
    pub steps: Seq<RunStep<O, E>>,
    pub events: Seq<RunEvent<O, E>>,
}

/// Whether a run can take these steps.
pub open spec fn is_trace<O, E>(trace: RunTrace<O, E>) -> bool {
    &&& trace.steps.len() == trace.events.len() + 1
    &&& trace.steps[0] is ResolveCommits
    &&& forall|i: int|
        0 <= i < trace.events.len() ==> next(trace.steps[i], #[trigger] trace.events[i]) == Some(
            trace.steps[i + 1],
        )
}

/// Whether a run can take these steps and has then ended.
pub open spec fn is_complete_trace<O, E>(trace: RunTrace<O, E>) -> bool {
    is_trace(trace) && trace.steps.last() is Finish
}

/// How far a run has come.
pub open spec fn progress<O, E>(step: RunStep<O, E>) -> int {
    match step {
        RunStep::ResolveCommits => 0,
        RunStep::DescribeResolveError => 1,
        RunStep::QueryOperation => 1,
        RunStep::QueryHead => 2,
        RunStep::StartRebase(_) => 3,
        RunStep::Refuse(_) => 4,
        RunStep::SortCommits => 4,
        RunStep::RunTests => 5,
        RunStep::AbortRebase(_) => 6,
        RunStep::ReportAbortFailure(_) => 7,
        RunStep::Finish(_) => 8,
    }
}

/// `trace` goes from its step `i` to the next by the event that came of it.
pub(crate) proof fn lemma_step<O, E>(trace: RunTrace<O, E>, i: int)
    requires
        is_trace(trace),
        0 <= i < trace.events.len(),
    ensures
        next(trace.steps[i], trace.events[i]) == Some(trace.steps[i + 1]),
        progress(trace.steps[i]) < progress(trace.steps[i + 1]),
        !(trace.steps[i] is Finish),
{
}

pub(crate) proof fn lemma_progress<O, E>(trace: RunTrace<O, E>, i: int, j: int)
    requires
        is_trace(trace),
        0 <= i <= j < trace.steps.len(),
    ensures
        progress(trace.steps[i]) + (j - i) <= progress(trace.steps[j]),
    decreases j - i,
{
    if i < j {
        lemma_progress(trace, i, j - 1);
        lemma_step(trace, j - 1);
    }
}

/// Every run ends: it comes further with every step, so that no kind of step comes up twice, and no
/// run has more than nine steps.
pub proof fn law_run_ends<O, E>(trace: RunTrace<O, E>)
    requires
        is_trace(trace),
    ensures
        trace.steps.len() <= 9,
        forall|i: int, j: int|
            0 <= i < j < trace.steps.len() ==> progress(#[trigger] trace.steps[i]) < progress(
                #[trigger] trace.steps[j],
            ),
{
    lemma_progress(trace, 0, trace.steps.len() - 1);
    assert forall|i: int, j: int| 0 <= i < j < trace.steps.len() implies progress(
        #[trigger] trace.steps[i],
    ) < progress(#[trigger] trace.steps[j]) by {
        lemma_progress(trace, i, j);
    }
}

/// Only the end of a run has no step after it.
pub proof fn law_run_goes_on<O, E>(trace: RunTrace<O, E>, i: int)
    requires
        is_complete_trace(trace),
        0 <= i < trace.steps.len(),
    ensures
        trace.steps[i] is Finish <==> i == trace.steps.len() - 1,
{
    if i < trace.events.len() {
        lemma_step(trace, i);
    }
}

/// The tests are run only while the abort trap is set, and the trap is set only once the repository
/// was found to be in no operation and to have a commit checked out: the steps of a run that
/// reaches the tests are fixed.
pub proof fn law_tests_run_inside_trap<O, E>(trace: RunTrace<O, E>, i: int)
    requires
        is_trace(trace),
        0 <= i < trace.steps.len(),
        trace.steps[i] is RunTests,
    ensures
        i == 5,
        trace.steps[1] is QueryOperation,
        trace.events[1] == RunEvent::<O, E>::Operation(None),
        trace.steps[2] is QueryHead,
        trace.steps[3] is StartRebase,
        trace.events[2] == RunEvent::<O, E>::Head(Ok(Some(trace.steps[3]->StartRebase_0))),
        trace.events[3] == RunEvent::<O, E>::RebaseStarted(Ok(RebaseResult::Succeeded)),
        trace.steps[4] is SortCommits,
{
    lemma_progress(trace, 0, i);
    lemma_step(trace, i - 1);
    lemma_step(trace, i - 2);
    lemma_step(trace, i - 3);
    lemma_step(trace, i - 4);
    lemma_step(trace, i - 5);
}

/// Whether a run has set the abort trap.
pub open spec fn sets_trap<O, E>(trace: RunTrace<O, E>) -> bool {
    exists|i: int| 0 <= i < trace.steps.len() && #[trigger] trace.steps[i] is SortCommits
}

/// Whether a run has asked for the abort trap to be cleared.
pub open spec fn clears_trap<O, E>(trace: RunTrace<O, E>) -> bool {
    exists|i: int| 0 <= i < trace.steps.len() && #[trigger] trace.steps[i] is AbortRebase
}

/// Whether a run has run the tests.
pub open spec fn runs_tests<O, E>(trace: RunTrace<O, E>) -> bool {
    exists|i: int| 0 <= i < trace.steps.len() && #[trigger] trace.steps[i] is RunTests
}

/// A run that has run the tests clears the abort trap before it ends, however the tests went: it
/// does so right after them, keeps what they gave, and does so only once.
pub proof fn law_trap_is_cleared_after_tests<O, E>(trace: RunTrace<O, E>, i: int)
    requires
        is_complete_trace(trace),
        0 <= i < trace.steps.len(),
        trace.steps[i] is RunTests,
    ensures
        i + 1 < trace.steps.len(),
        trace.steps[i + 1] is AbortRebase,
        trace.events[i] == RunEvent::<O, E>::TestsEnded(trace.steps[i + 1]->AbortRebase_0),
        forall|j: int|
            0 <= j < trace.steps.len() && #[trigger] trace.steps[j] is AbortRebase ==> j == i + 1,
{
    lemma_step(trace, i);
    assert forall|j: int|
        0 <= j < trace.steps.len() && #[trigger] trace.steps[j] is AbortRebase implies j == i + 1 by {
        if j <= i {
            lemma_progress(trace, j, i);
        } else {
            lemma_progress(trace, i + 1, j);
        }
    }
}

/// A run that has set the abort trap clears it before it ends, unless the commits could not be put
/// in order: it then ends with this error, and the trap stays set.
pub proof fn law_trap_is_cleared<O, E>(trace: RunTrace<O, E>, i: int)
    requires
        is_complete_trace(trace),
        0 <= i < trace.steps.len(),
        trace.steps[i] is SortCommits,
    ensures
        i < trace.events.len() && trace.events[i] is Sorted,
        trace.events[i]->Sorted_0 is Ok ==> clears_trap(trace),
        trace.events[i]->Sorted_0 is Err ==> !clears_trap(trace) && trace.steps.last()
            == RunStep::<O, E>::Finish(Err(trace.events[i]->Sorted_0->Err_0)),
{
    lemma_step(trace, i);
    if trace.steps[i + 1] is RunTests {
        law_trap_is_cleared_after_tests(trace, i + 1);
    } else {
        law_run_goes_on(trace, i + 1);
        if clears_trap(trace) {
            let k = choose|k: int|
                0 <= k < trace.steps.len() && #[trigger] trace.steps[k] is AbortRebase;
            lemma_progress(trace, k, i + 1);
            if k <= i {
                lemma_progress(trace, k, i);
            }
        }
    }
}

/// The abort trap is cleared only by a run that has set it.
pub proof fn law_only_own_trap_is_cleared<O, E>(trace: RunTrace<O, E>)
    requires
        is_trace(trace),
        clears_trap(trace),
    ensures
        sets_trap(trace),
        runs_tests(trace),
{
    let i = choose|i: int| 0 <= i < trace.steps.len() && #[trigger] trace.steps[i] is AbortRebase;
    lemma_progress(trace, 0, i);
    lemma_step(trace, i - 1);
    assert(trace.steps[i - 1] is RunTests);
    lemma_step(trace, i - 2);
    assert(trace.steps[i - 2] is SortCommits);
}

/// A run that refuses to start runs no test, leaves the repository as it is unless starting the
/// rebase itself ran into a conflict, and gives an exit code of failure unless it cannot say why.
pub proof fn law_refusal<O, E>(trace: RunTrace<O, E>, i: int)
    requires
        is_complete_trace(trace),
        0 <= i < trace.steps.len(),
        trace.steps[i] is Refuse,
    ensures
        !runs_tests(trace),
        !sets_trap(trace),
        trace.steps[i]->Refuse_0 is UnexpectedMergeConflict || forall|j: int|
            0 <= j < trace.steps.len() ==> !(#[trigger] trace.steps[j] is StartRebase),
        i < trace.events.len() && trace.events[i] is Said,
        trace.steps.last() == finish_after::<O, E>(trace.events[i]->Said_0, FAILURE),
{
    lemma_step(trace, i);
    law_run_goes_on(trace, i + 1);
    assert forall|j: int| 0 <= j < trace.steps.len() implies !(trace.steps[j] is RunTests
        || #[trigger] trace.steps[j] is SortCommits) by {
        if j < i {
            lemma_progress(trace, j, i);
        } else {
            lemma_progress(trace, i, j);
        }
    }
    if !(trace.steps[i]->Refuse_0 is UnexpectedMergeConflict) {
        assert forall|j: int| 0 <= j < trace.steps.len() implies !(#[trigger] trace.steps[j]
            is StartRebase) by {
            if j < i {
                lemma_progress(trace, j, i);
                lemma_step(trace, i - 1);
            } else {
                lemma_progress(trace, i, j);
            }
        }
    }
}

/// The result of the tests is the result of the run if the abort trap was cleared. If git failed to
/// clear it, the run gives the exit code of git, unless this failure cannot be reported. If git
/// could not be run, this error is the result.
pub proof fn law_result_of_tests_is_result_of_run<O, E>(trace: RunTrace<O, E>, i: int)
    requires
        is_complete_trace(trace),
        0 <= i < trace.steps.len(),
        trace.steps[i] is AbortRebase,
    ensures
        i < trace.events.len() && trace.events[i] is Aborted,
        match trace.events[i]->Aborted_0 {
            Ok(outcome) => if outcome.success {
                trace.steps.last() == RunStep::<O, E>::Finish(trace.steps[i]->AbortRebase_0)
            } else {
                &&& i + 1 < trace.events.len() && trace.events[i + 1] is Said
                &&& trace.steps.last() == finish_after::<O, E>(
                    trace.events[i + 1]->Said_0,
                    outcome.exit_code,
                )
            },
            Err(err) => trace.steps.last() == RunStep::<O, E>::Finish(Err(err)),
        },
{
    lemma_step(trace, i);
    if trace.steps[i + 1] is Finish {
        law_run_goes_on(trace, i + 1);
    } else {
        lemma_step(trace, i + 1);
        law_run_goes_on(trace, i + 2);
    }
}

/// What each step leads to, for everything that can come of it.
pub proof fn law_run_transitions<O, E>(
    step: RunStep<O, E>,
    event: RunEvent<O, E>,
    to: RunStep<O, E>,
)
    requires
        next(step, event) == Some(to),
    ensures
        step is ResolveCommits ==> event is Resolved && {
            &&& event->Resolved_0 ==> to is QueryOperation
            &&& !event->Resolved_0 ==> to is DescribeResolveError
        },
        step is DescribeResolveError || step is Refuse ==> event is Said && {
            &&& event->Said_0 is Ok ==> to == RunStep::<O, E>::Finish(Ok(1))
            &&& event->Said_0 is Err ==> to == RunStep::<O, E>::Finish(Err(event->Said_0->Err_0))
        },
        step is QueryOperation ==> event is Operation && {
            &&& event->Operation_0 is None ==> to is QueryHead
            &&& event->Operation_0 is Some ==> to == RunStep::<O, E>::Refuse(
                Message::OperationInProgress(event->Operation_0->Some_0),
            )
        },
        step is QueryHead ==> event is Head && {
            &&& event->Head_0 is Ok && event->Head_0->Ok_0 is Some ==> to == RunStep::<
                O,
                E,
            >::StartRebase(event->Head_0->Ok_0->Some_0)
            &&& event->Head_0 is Ok && event->Head_0->Ok_0 is None ==> to == RunStep::<
                O,
                E,
            >::Refuse(Message::NoCommitCheckedOut)
            &&& event->Head_0 is Err ==> to == RunStep::<O, E>::Finish(Err(event->Head_0->Err_0))
        },
        step is StartRebase ==> event is RebaseStarted && {
            let result = event->RebaseStarted_0;
            &&& result is Ok && result->Ok_0 is Succeeded ==> to is SortCommits
            &&& result is Ok && result->Ok_0 is DeclinedToMerge ==> to == RunStep::<O, E>::Refuse(
                Message::UnexpectedMergeConflict(result->Ok_0->DeclinedToMerge_0),
            )
            &&& result is Ok && result->Ok_0 is Failed ==> to == RunStep::<O, E>::Finish(
                Ok(result->Ok_0->exit_code),
            )
            &&& result is Err ==> to == RunStep::<O, E>::Finish(Err(result->Err_0))
        },
        step is SortCommits ==> event is Sorted && {
            &&& event->Sorted_0 is Ok ==> to is RunTests
            &&& event->Sorted_0 is Err ==> to == RunStep::<O, E>::Finish(
                Err(event->Sorted_0->Err_0),
            )
        },
        step is RunTests ==> event is TestsEnded && to == RunStep::<O, E>::AbortRebase(
            event->TestsEnded_0,
        ),
        step is AbortRebase ==> event is Aborted && {
            let abort = event->Aborted_0;
            &&& abort is Ok && abort->Ok_0.success ==> to == RunStep::<O, E>::Finish(
                step->AbortRebase_0,
            )
            &&& abort is Ok && !abort->Ok_0.success ==> to == RunStep::<O, E>::ReportAbortFailure(
                abort->Ok_0.exit_code,
            )
            &&& abort is Err ==> to == RunStep::<O, E>::Finish(Err(abort->Err_0))
        },
        step is ReportAbortFailure ==> event is Said && {
            &&& event->Said_0 is Ok ==> to == RunStep::<O, E>::Finish(
                Ok(step->ReportAbortFailure_0),
            )
            &&& event->Said_0 is Err ==> to == RunStep::<O, E>::Finish(Err(event->Said_0->Err_0))
        },
        !(step is Finish),
{
}

} // verus!
