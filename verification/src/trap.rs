//! What the abort trap does to a repository: while it is set no other run can start, and clearing it
//! brings back the commit that was checked out.
use vstd::prelude::*;
use crate::run::{
    finish_after, is_complete_trace, is_trace, law_run_goes_on, lemma_progress, lemma_step,
    runs_tests, RebaseResult, RunEvent, RunStep, RunTrace, FAILURE,
};

verus! {

/// What a run can find out of a repository, or change.
pub struct Repository<O> {
    /// The operation in progress, if any.
    pub operation: Option<Seq<char>>,
    /// The commit that is checked out, if any.
    pub head: Option<O>,
    /// The commit that aborting the rebase in progress checks out again.
    pub returns_to: Option<O>,
}

/// Whether a step of a run, and what came of it, tells of a repository that is one way before and
/// the other after it. Git does this much:
///
/// - it says which operation is in progress, and which commit is checked out;
/// - a rebase that only stops stays in progress, with the commit it was started on checked out;
/// - checking out commits for the tests leaves a rebase in progress, and the commit it returns to;
/// - aborting the rebase, if it succeeds, ends it and checks out the commit that it returns to.
///
/// Nothing is known of the repository after a rebase that failed to start or could not be aborted.
pub open spec fn tells_of_repository<O, E>(
    before: Repository<O>,
    step: RunStep<O, E>,
    event: RunEvent<O, E>,
    after: Repository<O>,
) -> bool {
    match (step, event) {
        (RunStep::QueryOperation, RunEvent::Operation(operation)) => {
            &&& after == before
            &&& operation is Some <==> before.operation is Some
            &&& operation is Some ==> operation->Some_0@ == before.operation->Some_0
        },
        (RunStep::QueryHead, RunEvent::Head(head)) => {
            &&& after == before
            &&& head is Ok ==> head->Ok_0 == before.head
        },
        (RunStep::StartRebase(head_oid), RunEvent::RebaseStarted(result)) => result == Ok::<_, E>(
            RebaseResult::Succeeded,
        ) ==> {
            &&& after.operation is Some
            &&& after.head == Some(head_oid)
            &&& after.returns_to == Some(head_oid)
        },
        (RunStep::RunTests, RunEvent::TestsEnded(_)) => {
            &&& after.operation == before.operation
            &&& after.returns_to == before.returns_to
        },
        (RunStep::AbortRebase(_), RunEvent::Aborted(abort)) => abort is Ok && abort->Ok_0.success
            ==> {
            &&& after.operation is None
            &&& after.head == before.returns_to
        },
        _ => after == before,
    }
}

/// A run, with the repository before each step.
pub struct Course<O, E> {
    pub trace: RunTrace<O, E>,
    pub repositories: Seq<Repository<O>>,
}

/// Whether a run can take these steps in a repository that changes in this way.
pub open spec fn is_course<O, E>(course: Course<O, E>) -> bool {
    &&& is_trace(course.trace)
    &&& course.repositories.len() == course.trace.steps.len()
    &&& forall|i: int|
        0 <= i < course.trace.events.len() ==> tells_of_repository(
            course.repositories[i],
            course.trace.steps[i],
            #[trigger] course.trace.events[i],
            course.repositories[i + 1],
        )
}

/// Whether the abort trap is set at a step: the rebase was started, and has not been aborted yet.
pub open spec fn is_trapped<O, E>(step: RunStep<O, E>) -> bool {
    step is SortCommits || step is RunTests || step is AbortRebase
}

proof fn lemma_course_step<O, E>(course: Course<O, E>, i: int)
    requires
        is_course(course),
        0 <= i < course.trace.events.len(),
    ensures
        tells_of_repository(
            course.repositories[i],
            course.trace.steps[i],
            course.trace.events[i],
            course.repositories[i + 1],
        ),
{
}

/// While the abort trap is set, the repository is in an operation, which returns to the commit that
/// was checked out when the run began.
pub proof fn law_trap_is_an_operation<O, E>(course: Course<O, E>, i: int)
    requires
        is_course(course),
        0 <= i < course.trace.steps.len(),
        is_trapped(course.trace.steps[i]),
    ensures
        course.repositories[0].operation is None,
        course.repositories[0].head is Some,
        course.repositories[i].operation is Some,
        course.repositories[i].returns_to == course.repositories[0].head,
    decreases i,
{
    let trace = course.trace;
    lemma_progress(trace, 0, i);
    lemma_step(trace, i - 1);
    lemma_course_step(course, i - 1);
    if trace.steps[i] is SortCommits {
        lemma_step(trace, i - 2);
        lemma_course_step(course, i - 2);
        lemma_step(trace, i - 3);
        lemma_course_step(course, i - 3);
        lemma_progress(trace, 0, i - 3);
        lemma_step(trace, i - 4);
        lemma_course_step(course, i - 4);
    } else {
        law_trap_is_an_operation(course, i - 1);
    }
}

/// A run that starts in a repository that is in an operation sets no abort trap, runs no test and
/// changes nothing. If it has found commits to test, it says which operation is in progress, and
/// ends with an exit code of failure unless it cannot say so.
pub proof fn law_operation_refuses_run<O, E>(course: Course<O, E>)
    requires
        is_course(course),
        is_complete_trace(course.trace),
        course.repositories[0].operation is Some,
    ensures
        forall|i: int|
            0 <= i < course.trace.steps.len() ==> !(#[trigger] course.trace.steps[i]
                is StartRebase),
        !runs_tests(course.trace),
        course.repositories.last() == course.repositories[0],
        course.trace.events[0] == RunEvent::<O, E>::Resolved(true) ==> {
            &&& course.trace.steps.len() == 4
            &&& course.trace.steps[2] is Refuse
            &&& course.trace.steps[2]->Refuse_0 is OperationInProgress
            &&& course.trace.steps[2]->Refuse_0->OperationInProgress_0@
                == course.repositories[0].operation->Some_0
            &&& course.trace.events[2] is Said
            &&& course.trace.steps[3] == finish_after::<O, E>(
                course.trace.events[2]->Said_0,
                FAILURE,
            )
        },
{
    let trace = course.trace;
    lemma_step(trace, 0);
    lemma_course_step(course, 0);
    lemma_step(trace, 1);
    lemma_course_step(course, 1);
    if trace.steps[1] is QueryOperation {
        lemma_step(trace, 2);
        lemma_course_step(course, 2);
        law_run_goes_on(trace, 3);
    } else {
        law_run_goes_on(trace, 2);
    }
}

/// As long as the abort trap of one run is set, no other run can start: until the rebase is aborted,
/// and even if the first run was interrupted, a run in the same repository is refused.
pub proof fn law_trap_refuses_other_runs<O, E>(
    first: Course<O, E>,
    i: int,
    second: Course<O, E>,
)
    requires
        is_course(first),
        0 <= i < first.trace.steps.len(),
        is_trapped(first.trace.steps[i]),
        is_course(second),
        is_complete_trace(second.trace),
        second.repositories[0].operation == first.repositories[i].operation,
    ensures
        forall|j: int|
            0 <= j < second.trace.steps.len() ==> !(#[trigger] second.trace.steps[j]
                is StartRebase),
        !runs_tests(second.trace),
        second.repositories.last() == second.repositories[0],
        second.trace.events[0] == RunEvent::<O, E>::Resolved(true) ==> {
            &&& second.trace.steps[2] is Refuse
            &&& second.trace.events[2] is Said
            &&& second.trace.steps.last() == finish_after::<O, E>(
                second.trace.events[2]->Said_0,
                FAILURE,
            )
        },
{
    law_trap_is_an_operation(first, i);
    law_operation_refuses_run(second);
}

/// A run whose abort trap was cleared leaves the repository in no operation, with the commit checked
/// out that was checked out before, whichever commits the tests have checked out.
pub proof fn law_cleared_trap_brings_back_head<O, E>(course: Course<O, E>, i: int)
    requires
        is_course(course),
        is_complete_trace(course.trace),
        0 <= i < course.trace.steps.len(),
        course.trace.steps[i] is AbortRebase,
        course.trace.events[i]->Aborted_0 is Ok,
        course.trace.events[i]->Aborted_0->Ok_0.success,
    ensures
        course.repositories.last().operation is None,
        course.repositories.last().head is Some,
        course.repositories.last().head == course.repositories[0].head,
{
    law_run_goes_on(course.trace, i);
    law_trap_is_an_operation(course, i);
    lemma_step(course.trace, i);
    lemma_course_step(course, i);
    law_run_goes_on(course.trace, i + 1);
}

/// After a run whose abort trap was cleared, another run can start: if it finds commits to test and
/// can look up the commit that is checked out, it sets its abort trap on the same commit.
pub proof fn law_next_run_can_start<O, E>(first: Course<O, E>, i: int, second: Course<O, E>)
    requires
        is_course(first),
        is_complete_trace(first.trace),
        0 <= i < first.trace.steps.len(),
        first.trace.steps[i] is AbortRebase,
        first.trace.events[i]->Aborted_0 is Ok,
        first.trace.events[i]->Aborted_0->Ok_0.success,
        is_course(second),
        is_complete_trace(second.trace),
        second.repositories[0] == first.repositories.last(),
        second.trace.events[0] == RunEvent::<O, E>::Resolved(true),
    ensures
        second.trace.steps[2] is QueryHead,
        second.trace.events[2] is Head,
        second.trace.events[2]->Head_0 is Ok ==> second.trace.steps[3] == RunStep::<
            O,
            E,
        >::StartRebase(first.repositories[0].head->Some_0),
{
    law_cleared_trap_brings_back_head(first, i);
    lemma_step(second.trace, 0);
    lemma_course_step(second, 0);
    law_run_goes_on(second.trace, 1);
    lemma_step(second.trace, 1);
    lemma_course_step(second, 1);
    law_run_goes_on(second.trace, 2);
    lemma_step(second.trace, 2);
    lemma_course_step(second, 2);
}

} // verus!
