//! The course of the tests of a run: each commit is tested, then each result is shown, then they
//! are summed up.
use vstd::prelude::*;
use vstd::string::StringExecFns;
use crate::describe::{Line, Segment, SegmentView, TestOutput};
use crate::run::FAILURE;
use crate::status::{is_repeat_of, law_repeat_keeps_verdict, verdict_of, TestStatus, Verdict};
use crate::style::TextStyle;
use crate::text::{decimal, decimal_text, law_decimal_is_injective};

verus! {

/// How many results there are of each kind.
#[derive(Clone, Copy, Debug, PartialEq, Eq, Structural)]
pub struct Tally {
    pub passed: usize,
    pub failed: usize,
    pub skipped: usize,
}

/// The number of results of a kind.
pub open spec fn count(statuses: Seq<TestStatus>, verdict: Verdict) -> nat
    decreases statuses.len(),
{
    if statuses.len() == 0 {
        0
    } else {
        count(statuses.drop_last(), verdict) + if verdict_of(statuses.last()) == verdict {
            1nat
        } else {
            0nat
        }
    }
}

/// Whether a tally counts the given results.
pub open spec fn is_tally_of(tally: Tally, statuses: Seq<TestStatus>) -> bool {
    &&& tally.passed == count(statuses, Verdict::Passed)
    &&& tally.failed == count(statuses, Verdict::Failed)
    &&& tally.skipped == count(statuses, Verdict::Skipped)
}

/// Every result is of exactly one kind.
pub proof fn law_counts_add_up(statuses: Seq<TestStatus>)
    ensures
        count(statuses, Verdict::Passed) + count(statuses, Verdict::Failed) + count(
            statuses,
            Verdict::Skipped,
        ) == statuses.len(),
    decreases statuses.len(),
{
    if statuses.len() > 0 {
        law_counts_add_up(statuses.drop_last());
    }
}

/// The results of a series of tests.
pub open spec fn statuses_of(outputs: Seq<TestOutput>) -> Seq<TestStatus> {
    outputs.map_values(|output: TestOutput| output.test_status)
}

/// Counts the results of a series of tests.
pub fn tally(outputs: &Vec<TestOutput>) -> (tally: Tally)
    ensures
        is_tally_of(tally, statuses_of(outputs@)),
        tally.passed + tally.failed + tally.skipped == outputs@.len(),
        tally.failed == 0 && tally.skipped == 0 <==> forall|i: int|
            0 <= i < outputs@.len() ==> (#[trigger] outputs@[i]).test_status is Passed
                || outputs@[i].test_status is PassedCached,
{
    let ghost statuses = statuses_of(outputs@);
    let mut tally = Tally { passed: 0, failed: 0, skipped: 0 };
    let mut i: usize = 0;
    while i < outputs.len()
        invariant
            i <= outputs.len(),
            statuses == statuses_of(outputs@),
            is_tally_of(tally, statuses.take(i as int)),
        decreases outputs.len() - i,
    {
        proof {
            law_counts_add_up(statuses.take(i as int));
            assert(statuses.take(i + 1).drop_last() =~= statuses.take(i as int));
        }
        match outputs[i].test_status.verdict() {
            Verdict::Passed => {
                tally.passed = tally.passed + 1;
            },
            Verdict::Failed => {
                tally.failed = tally.failed + 1;
            },
            Verdict::Skipped => {
                tally.skipped = tally.skipped + 1;
            },
        }
        i += 1;
    }
    assert(statuses.take(statuses.len() as int) =~= statuses);
    proof {
        law_tally_of_outputs(outputs@, tally);
    }
    tally
}

/// The exit code of tests with the given results: success if no test failed or was skipped.
pub open spec fn exit_code_of(tally: Tally) -> isize {
    if tally.failed > 0 || tally.skipped > 0 {
        FAILURE
    } else {
        0
    }
}

proof fn lemma_all_passed(statuses: Seq<TestStatus>)
    ensures
        count(statuses, Verdict::Passed) == statuses.len() <==> forall|i: int|
            0 <= i < statuses.len() ==> verdict_of(#[trigger] statuses[i]) == Verdict::Passed,
    decreases statuses.len(),
{
    if statuses.len() > 0 {
        let init = statuses.drop_last();
        lemma_all_passed(init);
        law_counts_add_up(init);
        assert(forall|i: int| 0 <= i < init.len() ==> init[i] == statuses[i]);
        if forall|i: int|
            0 <= i < init.len() ==> verdict_of(#[trigger] init[i]) == Verdict::Passed {
            assert forall|i: int| 0 <= i < statuses.len() && i != statuses.len() - 1 implies verdict_of(
                #[trigger] statuses[i],
            ) == Verdict::Passed by {
                assert(init[i] == statuses[i]);
            }
        } else {
            let i = choose|i: int|
                0 <= i < init.len() && verdict_of(#[trigger] init[i]) != Verdict::Passed;
            assert(verdict_of(statuses[i]) != Verdict::Passed);
        }
    }
}

/// The tests succeed exactly if each of them passed, now or in an earlier run.
pub proof fn law_success_means_all_passed(statuses: Seq<TestStatus>, tally: Tally)
    requires
        is_tally_of(tally, statuses),
    ensures
        exit_code_of(tally) == 0 <==> forall|i: int|
            0 <= i < statuses.len() ==> verdict_of(#[trigger] statuses[i]) == Verdict::Passed,
{
    law_counts_add_up(statuses);
    lemma_all_passed(statuses);
}

proof fn lemma_same_verdicts(first: Seq<TestStatus>, second: Seq<TestStatus>, verdict: Verdict)
    requires
        first.len() == second.len(),
        forall|i: int|
            0 <= i < first.len() ==> verdict_of(#[trigger] first[i]) == verdict_of(second[i]),
    ensures
        count(first, verdict) == count(second, verdict),
    decreases first.len(),
{
    if first.len() > 0 {
        let last = first.len() - 1;
        assert(verdict_of(first[last]) == verdict_of(second[last]));
        assert forall|i: int| 0 <= i < last implies verdict_of(#[trigger] first.drop_last()[i])
            == verdict_of(second.drop_last()[i]) by {
            assert(verdict_of(first[i]) == verdict_of(second[i]));
        }
        lemma_same_verdicts(first.drop_last(), second.drop_last(), verdict);
    }
}

/// A series of tests whose results are all repeats of the results of an earlier series has the same
/// counts of each kind, and with them the same summary and the same exit code.
pub proof fn law_repeated_results_repeat_counts(
    first: Seq<TestStatus>,
    second: Seq<TestStatus>,
    first_tally: Tally,
    second_tally: Tally,
)
    requires
        first.len() == second.len(),
        forall|i: int| 0 <= i < first.len() ==> is_repeat_of(#[trigger] first[i], second[i]),
        is_tally_of(first_tally, first),
        is_tally_of(second_tally, second),
    ensures
        forall|verdict: Verdict| #[trigger] count(first, verdict) == count(second, verdict),
        first_tally == second_tally,
        summary_of(first_tally) == summary_of(second_tally),
        exit_code_of(first_tally) == exit_code_of(second_tally),
{
    assert forall|i: int| 0 <= i < first.len() implies verdict_of(#[trigger] first[i])
        == verdict_of(second[i]) by {
        law_repeat_keeps_verdict(first[i], second[i]);
    }
    assert forall|verdict: Verdict| #[trigger] count(first, verdict) == count(second, verdict) by {
        lemma_same_verdicts(first, second, verdict);
    }
}

/// The line that introduces the results.
pub open spec fn header_of(command: Seq<char>, total: usize) -> Seq<SegmentView> {
    seq![
        SegmentView::Plain("Ran "@),
        SegmentView::Styled(command, TextStyle::Bold),
        SegmentView::Plain(" on "@),
        SegmentView::Count { amount: total, singular: "commit"@, plural: "commits"@ },
        SegmentView::Plain(":"@),
    ]
}

/// The line that introduces the results of a command on a number of commits.
pub fn header_line(command: &String, total: usize) -> (line: Line)
    ensures
        line@ == header_of(command@, total),
{
    let line = Line::of(Segment::Plain("Ran ".to_string())).and(
        Segment::Styled(command.clone(), TextStyle::Bold),
    ).and(Segment::Plain(" on ".to_string())).and(
        Segment::Count {
            amount: total,
            singular: "commit".to_string(),
            plural: "commits".to_string(),
        },
    ).and(Segment::Plain(":".to_string()));
    assert(line@ =~= header_of(command@, total));
    line
}

/// The line that sums up the results.
pub open spec fn summary_of(tally: Tally) -> Seq<SegmentView> {
    seq![
        SegmentView::Styled(decimal(tally.passed as nat) + " passed"@, TextStyle::Success),
        SegmentView::Plain(", "@),
        SegmentView::Styled(decimal(tally.failed as nat) + " failed"@, TextStyle::Failure),
        SegmentView::Plain(", "@),
        SegmentView::Styled(decimal(tally.skipped as nat) + " skipped"@, TextStyle::Skipped),
    ]
}

impl Tally {
    /// The line that sums up the results.
    pub fn summary_line(&self) -> (line: Line)
        ensures
            line@ == summary_of(*self),
    {
        let passed = decimal_text(self.passed).concat(" passed");
        let failed = decimal_text(self.failed).concat(" failed");
        let skipped = decimal_text(self.skipped).concat(" skipped");
        let line = Line::of(Segment::Styled(passed, TextStyle::Success)).and(
            Segment::Plain(", ".to_string()),
        ).and(Segment::Styled(failed, TextStyle::Failure)).and(
            Segment::Plain(", ".to_string()),
        ).and(Segment::Styled(skipped, TextStyle::Skipped));
        assert(line@ =~= summary_of(*self));
        line
    }

    /// The exit code of tests with these results.
    pub fn exit_code(&self) -> (exit_code: isize)
        ensures
            exit_code == exit_code_of(*self),
    {
        if self.failed > 0 || self.skipped > 0 {
            FAILURE
        } else {
            0
        }
    }
}

/// The outside work that is due next.
pub enum SuiteStep<E> {
    /// Find the shell to run the test command in.
    FindShell,
    /// Say that there is no shell.
    ReportNoShell,
    /// Test the commit of the given number.
    RunTest(usize),
    /// Introduce the results.
    ReportHeader,
    /// Show the result for the commit of the given number.
    ReportResult(usize),
    /// Sum up the results.
    ReportSummary,
    /// End with an exit code or an error.
    Finish(Result<isize, E>),
}

/// The step after the given number of commits was tested.
pub open spec fn step_after_tests<E>(tested: int, total: usize) -> SuiteStep<E> {
    if tested < total {
        SuiteStep::RunTest(tested as usize)
    } else {
        SuiteStep::ReportHeader
    }
}

/// The step after the given number of results was shown.
pub open spec fn step_after_results<E>(shown: int, total: usize) -> SuiteStep<E> {
    if shown < total {
        SuiteStep::ReportResult(shown as usize)
    } else {
        SuiteStep::ReportSummary
    }
}

/// What came of the outside work of a step.
pub enum SuiteEvent<E> {
    /// Whether a shell was found.
    ShellFound(bool),
    /// A commit was tested, or could not be.
    Tested(Result<(), E>),
    /// Something was said, or could not be said.
    Said(Result<(), E>),
    /// The results were summed up in the given counts, or could not be.
    SummedUp(Tally, Result<(), E>),
}

/// The step that follows a step, given what came of it, with the given number of commits. No other
/// event can come of a step.
pub open spec fn next<E>(total: usize, step: SuiteStep<E>, event: SuiteEvent<E>) -> Option<
    SuiteStep<E>,
> {
    match (step, event) {
        (SuiteStep::FindShell, SuiteEvent::ShellFound(found)) => Some(
            if found {
                step_after_tests(0, total)
            } else {
                SuiteStep::ReportNoShell
            },
        ),
        (SuiteStep::ReportNoShell, SuiteEvent::Said(said)) => Some(
            SuiteStep::Finish(
                match said {
                    Ok(_) => Ok(FAILURE),
                    Err(err) => Err(err),
                },
            ),
        ),
        (SuiteStep::RunTest(index), SuiteEvent::Tested(tested)) => Some(
            match tested {
                Ok(_) => step_after_tests(index + 1, total),
                Err(err) => SuiteStep::Finish(Err(err)),
            },
        ),
        (SuiteStep::ReportHeader, SuiteEvent::Said(said)) => Some(
            match said {
                Ok(_) => step_after_results(0, total),
                Err(err) => SuiteStep::Finish(Err(err)),
            },
        ),
        (SuiteStep::ReportResult(index), SuiteEvent::Said(said)) => Some(
            match said {
                Ok(_) => step_after_results(index + 1, total),
                Err(err) => SuiteStep::Finish(Err(err)),
            },
        ),
        (SuiteStep::ReportSummary, SuiteEvent::SummedUp(tally, said)) => Some(
            SuiteStep::Finish(
                match said {
                    Ok(_) => Ok(exit_code_of(tally)),
                    Err(err) => Err(err),
                },
            ),
        ),
        _ => None,
    }
}

/// The step after the shell was looked up.
pub fn after_find_shell<E>(found: bool, total: usize) -> (step: SuiteStep<E>)
    ensures
        Some(step) == next(total, SuiteStep::<E>::FindShell, SuiteEvent::ShellFound(found)),
{
    if !found {
        SuiteStep::ReportNoShell
    } else if total > 0 {
        SuiteStep::RunTest(0)
    } else {
        SuiteStep::ReportHeader
    }
}

/// The step after it was said that there is no shell.
pub fn after_no_shell<E>(said: Result<(), E>) -> (step: SuiteStep<E>)
    ensures
        forall|total: usize|
            Some(step) == #[trigger] next(total, SuiteStep::ReportNoShell, SuiteEvent::Said(said)),
        step == SuiteStep::<E>::Finish(
            match said {
                Ok(_) => Ok(FAILURE),
                Err(err) => Err(err),
            },
        ),
{
    match said {
        Ok(_) => SuiteStep::Finish(Ok(FAILURE)),
        Err(err) => SuiteStep::Finish(Err(err)),
    }
}

/// The step after the commit of the given number was tested.
pub fn after_test<E>(index: usize, total: usize, tested: Result<(), E>) -> (step: SuiteStep<E>)
    ensures
        Some(step) == next(total, SuiteStep::RunTest(index), SuiteEvent::Tested(tested)),
{
    match tested {
        Ok(_) => if total > 0 && index < total - 1 {
            SuiteStep::RunTest(index + 1)
        } else {
            SuiteStep::ReportHeader
        },
        Err(err) => SuiteStep::Finish(Err(err)),
    }
}

/// The step after the results were introduced.
pub fn after_header<E>(total: usize, said: Result<(), E>) -> (step: SuiteStep<E>)
    ensures
        Some(step) == next(total, SuiteStep::ReportHeader, SuiteEvent::Said(said)),
{
    match said {
        Ok(_) => if total > 0 {
            SuiteStep::ReportResult(0)
        } else {
            SuiteStep::ReportSummary
        },
        Err(err) => SuiteStep::Finish(Err(err)),
    }
}

/// The step after the result for the commit of the given number was shown.
pub fn after_result<E>(index: usize, total: usize, said: Result<(), E>) -> (step: SuiteStep<E>)
    ensures
        Some(step) == next(total, SuiteStep::ReportResult(index), SuiteEvent::Said(said)),
{
    match said {
        Ok(_) => if total > 0 && index < total - 1 {
            SuiteStep::ReportResult(index + 1)
        } else {
            SuiteStep::ReportSummary
        },
        Err(err) => SuiteStep::Finish(Err(err)),
    }
}

/// The step after the results were summed up.
pub fn after_summary<E>(tally: Tally, said: Result<(), E>) -> (step: SuiteStep<E>)
    ensures
        forall|total: usize|
            Some(step) == #[trigger] next(
                total,
                SuiteStep::ReportSummary,
                SuiteEvent::SummedUp(tally, said),
            ),
        step == SuiteStep::<E>::Finish(
            match said {
                Ok(_) => Ok(exit_code_of(tally)),
                Err(err) => Err(err),
            },
        ),
{
    match said {
        Ok(_) => SuiteStep::Finish(Ok(tally.exit_code())),
        Err(err) => SuiteStep::Finish(Err(err)),
    }
}

/// The steps of the tests of a number of commits up to some point, and what came of each but the
/// last.
pub struct SuiteTrace<E> {
    pub total: usize,
    pub steps: Seq<SuiteStep<E>>,
    pub events: Seq<SuiteEvent<E>>,
}

/// Whether tests can take these steps.
pub open spec fn is_trace<E>(trace: SuiteTrace<E>) -> bool {
    &&& trace.steps.len() == trace.events.len() + 1
    &&& trace.steps[0] is FindShell
    &&& forall|i: int|
        0 <= i < trace.events.len() ==> next(
            trace.total,
            trace.steps[i],
            #[trigger] trace.events[i],
        ) == Some(trace.steps[i + 1])
}

/// Whether tests can take these steps and then end with an exit code.
pub open spec fn is_successful_trace<E>(trace: SuiteTrace<E>) -> bool {
    &&& is_trace(trace)
    &&& trace.steps.last() is Finish
    &&& trace.steps.last()->Finish_0 is Ok
}

/// The step that comes at a position, unless there is no shell or the tests have ended.
pub open spec fn scheduled<E>(total: usize, i: int) -> SuiteStep<E> {
    if i == 0 {
        SuiteStep::FindShell
    } else if i <= total {
        SuiteStep::RunTest((i - 1) as usize)
    } else if i == total + 1 {
        SuiteStep::ReportHeader
    } else if i <= 2 * total + 1 {
        SuiteStep::ReportResult((i - total - 2) as usize)
    } else {
        SuiteStep::ReportSummary
    }
}

/// `trace` goes from its step `i` to the next by the event that came of it.
proof fn lemma_step<E>(trace: SuiteTrace<E>, i: int)
    requires
        is_trace(trace),
        0 <= i < trace.events.len(),
    ensures
        next(trace.total, trace.steps[i], trace.events[i]) == Some(trace.steps[i + 1]),
{
}

/// Every commit is tested once, in order, and then every result is shown once, in the same order,
/// followed by the summary. Nothing is shown before all commits are tested.
pub proof fn law_schedule<E>(trace: SuiteTrace<E>, i: int)
    requires
        is_trace(trace),
        0 <= i < trace.steps.len(),
    ensures
        trace.steps[i] is Finish || trace.steps[i] == scheduled::<E>(trace.total, i) || i == 1
            && trace.steps[i] is ReportNoShell,
        trace.steps[i] is ReportSummary ==> i == 2 * trace.total + 2,
        i > 0 && trace.steps[i] is Finish ==> i <= 2 * trace.total + 3,
    decreases i,
{
    if i > 0 {
        law_schedule(trace, i - 1);
        lemma_step(trace, i - 1);
        if i > 1 {
            lemma_step(trace, i - 2);
        }
    }
}

/// Tests that find a shell and end with an exit code have tested every commit and shown every
/// result, and the exit code is that of the counts that were shown.
pub proof fn law_exit_code_needs_all_tests<E>(trace: SuiteTrace<E>)
    requires
        is_successful_trace(trace),
        trace.events[0] == SuiteEvent::<E>::ShellFound(true),
    ensures
        trace.steps.len() == 2 * trace.total + 4,
        forall|i: int|
            0 <= i < trace.total ==> {
                &&& #[trigger] trace.steps[1 + i] == SuiteStep::<E>::RunTest(i as usize)
                &&& trace.steps[trace.total + 2 + i] == SuiteStep::<E>::ReportResult(i as usize)
            },
        trace.steps[trace.total + 1] == SuiteStep::<E>::ReportHeader,
        trace.steps[2 * trace.total + 2] == SuiteStep::<E>::ReportSummary,
        forall|i: int|
            0 <= i < trace.steps.len() - 1 ==> #[trigger] trace.steps[i] == scheduled::<E>(
                trace.total,
                i,
            ),
        trace.events.last() is SummedUp,
        trace.steps.last() == SuiteStep::<E>::Finish(
            Ok(exit_code_of(trace.events.last()->SummedUp_0)),
        ),
{
    let last = trace.steps.len() - 1;
    lemma_step(trace, 0);
    lemma_step(trace, last - 1);
    law_schedule(trace, last - 1);
    assert forall|i: int| 0 <= i < last implies #[trigger] trace.steps[i] == scheduled::<E>(
        trace.total,
        i,
    ) by {
        law_schedule(trace, i);
        lemma_step(trace, i);
    }
}

/// Tests that find no shell test nothing, and give an exit code of failure unless they cannot say
/// so.
pub proof fn law_no_shell_is_a_failure<E>(trace: SuiteTrace<E>)
    requires
        is_successful_trace(trace),
        trace.events[0] == SuiteEvent::<E>::ShellFound(false),
    ensures
        trace.steps.len() == 3,
        trace.steps[1] is ReportNoShell,
        trace.steps[2] == SuiteStep::<E>::Finish(Ok(FAILURE)),
{
    lemma_step(trace, 0);
    lemma_step(trace, 1);
    if trace.steps.len() > 3 {
        lemma_step(trace, 2);
    }
}

/// One more result adds one to the count of its kind, and nothing to the others.
pub proof fn law_count(statuses: Seq<TestStatus>, status: TestStatus, verdict: Verdict)
    ensures
        count(seq![], verdict) == 0,
        verdict_of(status) == verdict ==> count(statuses.push(status), verdict) == count(
            statuses,
            verdict,
        ) + 1,
        verdict_of(status) != verdict ==> count(statuses.push(status), verdict) == count(
            statuses,
            verdict,
        ),
{
    assert(statuses.push(status).drop_last() =~= statuses);
}

proof fn lemma_count_outputs(
    outputs: Seq<TestOutput>,
    verdict: Verdict,
    counted: spec_fn(TestOutput) -> bool,
)
    requires
        forall|output: TestOutput| #[trigger]
            counted(output) <==> verdict_of(output.test_status) == verdict,
    ensures
        count(statuses_of(outputs), verdict) == outputs.filter(counted).len(),
    decreases outputs.len(),
{
    reveal(Seq::filter);
    if outputs.len() > 0 {
        lemma_count_outputs(outputs.drop_last(), verdict, counted);
        assert(statuses_of(outputs).drop_last() =~= statuses_of(outputs.drop_last()));
        assert(counted(outputs.last()) <==> verdict_of(outputs.last().test_status) == verdict);
    }
}

/// A tally of outputs counts every one of them, each by the result that it holds, and its exit code
/// is zero exactly if all of them passed, now or in an earlier run.
pub proof fn law_tally_of_outputs(outputs: Seq<TestOutput>, tally: Tally)
    requires
        is_tally_of(tally, statuses_of(outputs)),
    ensures
        statuses_of(outputs).len() == outputs.len(),
        forall|i: int|
            0 <= i < outputs.len() ==> #[trigger] statuses_of(outputs)[i] == outputs[i].test_status,
        tally.passed + tally.failed + tally.skipped == outputs.len(),
        tally.passed == outputs.filter(
            |output: TestOutput|
                output.test_status is Passed || output.test_status is PassedCached,
        ).len(),
        tally.failed == outputs.filter(
            |output: TestOutput|
                output.test_status is Failed || output.test_status is FailedCached,
        ).len(),
        tally.failed == 0 && tally.skipped == 0 <==> forall|i: int|
            0 <= i < outputs.len() ==> (#[trigger] outputs[i]).test_status is Passed
                || outputs[i].test_status is PassedCached,
        exit_code_of(tally) == 0 <==> forall|i: int|
            0 <= i < outputs.len() ==> (#[trigger] outputs[i]).test_status is Passed
                || outputs[i].test_status is PassedCached,
{
    let statuses = statuses_of(outputs);
    law_counts_add_up(statuses);
    lemma_count_outputs(
        outputs,
        Verdict::Passed,
        |output: TestOutput| output.test_status is Passed || output.test_status is PassedCached,
    );
    lemma_count_outputs(
        outputs,
        Verdict::Failed,
        |output: TestOutput| output.test_status is Failed || output.test_status is FailedCached,
    );
    lemma_all_passed(statuses);
    assert(forall|i: int|
        0 <= i < outputs.len() ==> statuses[i] == (#[trigger] outputs[i]).test_status);
    if forall|i: int|
        0 <= i < statuses.len() ==> verdict_of(#[trigger] statuses[i]) == Verdict::Passed {
        assert forall|i: int| 0 <= i < outputs.len() implies (#[trigger] outputs[i]).test_status
            is Passed || outputs[i].test_status is PassedCached by {
            assert(verdict_of(statuses[i]) == Verdict::Passed);
        }
    } else {
        let i = choose|i: int|
            0 <= i < statuses.len() && verdict_of(#[trigger] statuses[i]) != Verdict::Passed;
        assert(!(outputs[i].test_status is Passed || outputs[i].test_status is PassedCached));
    }
}

/// The exit code is zero if nothing failed and nothing was skipped, and one otherwise.
pub proof fn law_exit_code(tally: Tally)
    ensures
        exit_code_of(tally) == 0 <==> tally.failed == 0 && tally.skipped == 0,
        exit_code_of(tally) == 1 <==> tally.failed > 0 || tally.skipped > 0,
{
}

/// The summary gives each count in decimal, in front of its word and in its own look, separated by
/// commas.
pub proof fn law_summary(tally: Tally)
    ensures
        summary_of(tally).len() == 5,
        summary_of(tally)[0] == SegmentView::Styled(
            decimal(tally.passed as nat) + " passed"@,
            TextStyle::Success,
        ),
        summary_of(tally)[1] == SegmentView::Plain(", "@),
        summary_of(tally)[2] == SegmentView::Styled(
            decimal(tally.failed as nat) + " failed"@,
            TextStyle::Failure,
        ),
        summary_of(tally)[3] == SegmentView::Plain(", "@),
        summary_of(tally)[4] == SegmentView::Styled(
            decimal(tally.skipped as nat) + " skipped"@,
            TextStyle::Skipped,
        ),
{
}

proof fn lemma_same_number(a: nat, b: nat, word: Seq<char>)
    requires
        decimal(a) + word == decimal(b) + word,
    ensures
        a == b,
{
    assert((decimal(a) + word).len() == (decimal(b) + word).len());
    assert((decimal(a) + word).take(decimal(a).len() as int) =~= decimal(a));
    assert((decimal(b) + word).take(decimal(b).len() as int) =~= decimal(b));
    law_decimal_is_injective(a, b);
}

/// Each count can be told from its segment of the summary: two tallies agree on it exactly if they
/// agree on the count.
pub proof fn law_summary_tells_counts(a: Tally, b: Tally)
    ensures
        summary_of(a)[0] == summary_of(b)[0] <==> a.passed == b.passed,
        summary_of(a)[2] == summary_of(b)[2] <==> a.failed == b.failed,
        summary_of(a)[4] == summary_of(b)[4] <==> a.skipped == b.skipped,
        summary_of(a) == summary_of(b) <==> a == b,
{
    law_summary(a);
    law_summary(b);
    if summary_of(a)[0] == summary_of(b)[0] {
        lemma_same_number(a.passed as nat, b.passed as nat, " passed"@);
    }
    if summary_of(a)[2] == summary_of(b)[2] {
        lemma_same_number(a.failed as nat, b.failed as nat, " failed"@);
    }
    if summary_of(a)[4] == summary_of(b)[4] {
        lemma_same_number(a.skipped as nat, b.skipped as nat, " skipped"@);
    }
}

/// The results are introduced by the command, in bold, and the number of commits.
pub proof fn law_header(command: Seq<char>, total: usize)
    ensures
        header_of(command, total).len() == 5,
        header_of(command, total)[0] == SegmentView::Plain("Ran "@),
        header_of(command, total)[1] == SegmentView::Styled(command, TextStyle::Bold),
        header_of(command, total)[2] == SegmentView::Plain(" on "@),
        header_of(command, total)[3] == (SegmentView::Count {
            amount: total,
            singular: "commit"@,
            plural: "commits"@,
        }),
        header_of(command, total)[4] == SegmentView::Plain(":"@),
{
}

/// What each step leads to: the commits are tested one after the other, the results are introduced
/// and shown one after the other, and then summed up. Any error is the end.
pub proof fn law_suite_transitions<E>(
    total: usize,
    step: SuiteStep<E>,
    event: SuiteEvent<E>,
    to: SuiteStep<E>,
)
    requires
        next(total, step, event) == Some(to),
    ensures
        step is FindShell ==> event is ShellFound && {
            &&& !event->ShellFound_0 ==> to is ReportNoShell
            &&& event->ShellFound_0 && total > 0 ==> to == SuiteStep::<E>::RunTest(0)
            &&& event->ShellFound_0 && total == 0 ==> to is ReportHeader
        },
        step is ReportNoShell ==> event is Said && {
            &&& event->Said_0 is Ok ==> to == SuiteStep::<E>::Finish(Ok(1))
            &&& event->Said_0 is Err ==> to == SuiteStep::<E>::Finish(Err(event->Said_0->Err_0))
        },
        step is RunTest ==> event is Tested && {
            &&& event->Tested_0 is Ok && step->RunTest_0 + 1 < total ==> to is RunTest
                && to->RunTest_0 == step->RunTest_0 + 1
            &&& event->Tested_0 is Ok && step->RunTest_0 + 1 >= total ==> to is ReportHeader
            &&& event->Tested_0 is Err ==> to == SuiteStep::<E>::Finish(
                Err(event->Tested_0->Err_0),
            )
        },
        step is ReportHeader ==> event is Said && {
            &&& event->Said_0 is Ok && total > 0 ==> to == SuiteStep::<E>::ReportResult(0)
            &&& event->Said_0 is Ok && total == 0 ==> to is ReportSummary
            &&& event->Said_0 is Err ==> to == SuiteStep::<E>::Finish(Err(event->Said_0->Err_0))
        },
        step is ReportResult ==> event is Said && {
            &&& event->Said_0 is Ok && step->ReportResult_0 + 1 < total ==> to is ReportResult
                && to->ReportResult_0 == step->ReportResult_0 + 1
            &&& event->Said_0 is Ok && step->ReportResult_0 + 1 >= total ==> to is ReportSummary
            &&& event->Said_0 is Err ==> to == SuiteStep::<E>::Finish(Err(event->Said_0->Err_0))
        },
        step is ReportSummary ==> event is SummedUp && {
            let tally = event->SummedUp_0;
            &&& event->SummedUp_1 is Ok && tally.failed == 0 && tally.skipped == 0 ==> to
                == SuiteStep::<E>::Finish(Ok(0))
            &&& event->SummedUp_1 is Ok && (tally.failed > 0 || tally.skipped > 0) ==> to
                == SuiteStep::<E>::Finish(Ok(1))
            &&& event->SummedUp_1 is Err ==> to == SuiteStep::<E>::Finish(
                Err(event->SummedUp_1->Err_0),
            )
        },
        !(step is Finish),
{
}

} // verus!
