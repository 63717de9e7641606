//! What becomes of tests that are asked for again: the result files that earlier tests have left
//! decide.
use vstd::prelude::*;
use crate::status::{
    icon_of, is_from_file, is_recorded, is_repeat_of, is_status_of_record, law_exit_code_decides,
    law_record_is_read_back, law_repeat_keeps_verdict, verdict_of, TestStatus, Verdict,
};
use crate::suite::{
    is_tally_of, law_exit_code_needs_all_tests, law_repeated_results_repeat_counts,
    law_success_means_all_passed, summary_of, SuiteEvent, SuiteStep, SuiteTrace,
};
use crate::test_run::{
    checks_out, creates_output, creates_result, is_successful_trace, is_trace,
    law_known_test_is_not_run, law_only_creator_goes_on, law_result_is_read,
    law_result_is_recorded, law_result_tells_its_origin, law_test_sets_up_files, lemma_creation,
    lemma_step, reads_result, result_of, runs_command, writes_record, TestEvent, TestStep,
    TestTrace,
};

verus! {

/// What there is at the path of a result file.
pub enum ResultFile {
    /// Nothing, so that the file can be created.
    Absent,
    /// Something that can neither be created nor read, for the reason given.
    Unreadable(Seq<char>),
    /// A file with the given contents.
    Readable(Seq<char>),
}

/// How results are written to a result file and read from it.
pub struct Codec {
    /// The contents that stand for a result.
    pub encode: spec_fn(TestStatus) -> Seq<char>,
    /// The result that contents hold, or the reason why they hold none.
    pub decode: spec_fn(Seq<char>) -> Result<TestStatus, String>,
}

/// The contents that stand for a result.
pub open spec fn encoded(codec: Codec, status: TestStatus) -> Seq<char> {
    (codec.encode)(status)
}

/// The result that contents hold, or the reason why they hold none.
pub open spec fn decoded(codec: Codec, contents: Seq<char>) -> Result<TestStatus, String> {
    (codec.decode)(contents)
}

/// Whether what is written of a recorded result is something, and gives back this result.
pub open spec fn gives_back(codec: Codec) -> bool {
    forall|status: TestStatus| #[trigger]
        is_recorded(status) ==> encoded(codec, status).len() > 0 && decoded(
            codec,
            encoded(codec, status),
        ) == Ok::<_, String>(status)
}

/// Whether this is what comes of reading a file.
pub open spec fn is_read_of(file: ResultFile, read: Result<String, String>) -> bool {
    match file {
        ResultFile::Absent => read is Err,
        ResultFile::Unreadable(reason) => read is Err && read->Err_0@ == reason,
        ResultFile::Readable(contents) => read is Ok && read->Ok_0@ == contents,
    }
}

/// Whether the events of a test tell of the given result file, and the file is left as given: it is
/// created, empty, exactly if there is none, what is read of it is what it holds, and once a result
/// is written to it, it holds what stands for this result. Nothing else is done to it.
pub open spec fn tells_of_file<E>(
    codec: Codec,
    before: ResultFile,
    trace: TestTrace<E>,
    after: ResultFile,
) -> bool {
    &&& forall|i: int|
        0 <= i < trace.events.len() ==> match #[trigger] trace.events[i] {
            TestEvent::ResultCreated(created) => created == (before is Absent),
            TestEvent::ResultRead(read) => is_read_of(before, read),
            TestEvent::Decoded(record) => record == decoded(codec, trace.steps[i]->DecodeResult_0@),
            TestEvent::Recorded(written) => written is Ok ==> after == ResultFile::Readable(
                encoded(codec, trace.steps[i]->Record_0),
            ),
            _ => true,
        }
    &&& !writes_record(trace) ==> after == if creates_result(trace) {
        ResultFile::Readable(seq![])
    } else {
        before
    }
}

/// Whether a file that is there gives a result.
pub open spec fn gives(codec: Codec, file: ResultFile, status: TestStatus) -> bool {
    match file {
        ResultFile::Absent => false,
        ResultFile::Unreadable(reason) => status is ReadCacheFailed && status->ReadCacheFailed_0@
            == reason,
        ResultFile::Readable(contents) => if contents.len() == 0 {
            status == TestStatus::AlreadyInProgress
        } else {
            is_status_of_record(decoded(codec, contents), status)
        },
    }
}

/// Whether a test that finds one file can end with a result and leave the other.
pub open spec fn leaves(
    codec: Codec,
    before: ResultFile,
    status: TestStatus,
    after: ResultFile,
) -> bool {
    if before is Absent {
        &&& !is_from_file(status)
        &&& after == ResultFile::Readable(
            if is_recorded(status) {
                encoded(codec, status)
            } else {
                seq![]
            },
        )
    } else {
        gives(codec, before, status) && after == before
    }
}

/// The result file alone decides a test for which there is one: no output file is touched, the
/// commit is not checked out, the command is not run, and the result file stays as it is. Otherwise
/// the test leaves what stands for its result, or an empty file if the result is not one to be
/// recorded.
pub proof fn law_file_decides<E>(
    codec: Codec,
    before: ResultFile,
    trace: TestTrace<E>,
    after: ResultFile,
)
    requires
        is_successful_trace(trace),
        tells_of_file(codec, before, trace, after),
    ensures
        leaves(codec, before, result_of(trace), after),
        before is Absent <==> creates_result(trace),
        !(before is Absent) ==> !creates_output(trace) && !checks_out(trace) && !runs_command(
            trace,
        ) && !writes_record(trace),
{
    law_test_sets_up_files(trace);
    law_result_tells_its_origin(trace);
    law_result_is_recorded(trace);
    assert(trace.events[4]->ResultCreated_0 == (before is Absent));
    if before is Absent {
        assert(trace.events[4] == TestEvent::<E>::ResultCreated(true));
        assert(creates_result(trace));
        if reads_result(trace) {
            law_result_is_read(trace);
            lemma_step(trace, 5);
        }
    } else {
        assert(trace.steps[5] is ReadResult);
        law_known_test_is_not_run(trace);
        law_result_is_read(trace);
        if creates_result(trace) {
            let k = choose|k: int|
                0 <= k < trace.events.len() && #[trigger] trace.events[k] == TestEvent::<
                    E,
                >::ResultCreated(true);
            lemma_creation(trace, k);
        }
    }
}

/// A test that finds the file that an earlier test has left repeats the result of that test, and
/// leaves the file as it is.
pub proof fn law_left_file_repeats_result(
    codec: Codec,
    before: ResultFile,
    first: TestStatus,
    between: ResultFile,
    second: TestStatus,
    after: ResultFile,
)
    requires
        gives_back(codec),
        leaves(codec, before, first, between),
        leaves(codec, between, second, after),
    ensures
        is_repeat_of(first, second),
        after == between,
{
    assert(is_recorded(first) ==> encoded(codec, first).len() > 0);
}

/// A recorded result is read back by a later test that finds the same result file: the result is
/// the cached counterpart, with the same exit code, which is not zero if the test failed. The
/// command is not run again, and both the result file and the output files stay as the first test
/// has left them.
pub proof fn law_recorded_test_is_read_back<E>(
    codec: Codec,
    before: ResultFile,
    first: TestTrace<E>,
    between: ResultFile,
    second: TestTrace<E>,
    after: ResultFile,
)
    requires
        gives_back(codec),
        is_successful_trace(first),
        is_recorded(result_of(first)),
        tells_of_file(codec, before, first, between),
        is_successful_trace(second),
        tells_of_file(codec, between, second, after),
    ensures
        result_of(first) is Passed ==> result_of(second) == TestStatus::PassedCached,
        result_of(first) is Failed ==> {
            &&& result_of(first)->Failed_0 != 0
            &&& result_of(second) == TestStatus::FailedCached(result_of(first)->Failed_0)
        },
        verdict_of(result_of(second)) == verdict_of(result_of(first)),
        icon_of(result_of(second)) == icon_of(result_of(first)),
        !checks_out(second),
        !runs_command(second),
        !creates_output(second),
        after == between,
{
    law_file_decides(codec, before, first, between);
    law_file_decides(codec, between, second, after);
    law_left_file_repeats_result(
        codec,
        before,
        result_of(first),
        between,
        result_of(second),
        after,
    );
    law_record_is_read_back(result_of(first), result_of(second));
    law_result_is_recorded(first);
    law_exit_code_decides(first.events[9]->CommandEnded_0);
}

/// A test that has created its result file and does not get as far as writing its result,
/// because of an error or because it is interrupted, leaves an empty file. A test that reads this
/// file is shown as being in progress already, and leaves the file as it is.
pub proof fn law_unfinished_test_seems_in_progress<E>(
    codec: Codec,
    before: ResultFile,
    first: TestTrace<E>,
    between: ResultFile,
    second: TestTrace<E>,
    after: ResultFile,
    k: int,
)
    requires
        is_trace(first),
        creates_result(first),
        !writes_record(first),
        tells_of_file(codec, before, first, between),
        is_trace(second),
        tells_of_file(codec, between, second, after),
        0 <= k < second.events.len(),
        second.steps[k] is ReadResult,
    ensures
        between == ResultFile::Readable(seq![]),
        second.steps[k + 1] == TestStep::<E>::ShowStatus(TestStatus::AlreadyInProgress),
        after == between,
{
    lemma_step(second, k);
    assert(is_read_of(between, second.events[k]->ResultRead_0));
    assert(reads_result(second));
    law_known_test_is_not_run(second);
    if creates_result(second) {
        let c = choose|c: int|
            0 <= c < second.events.len() && #[trigger] second.events[c] == TestEvent::<
                E,
            >::ResultCreated(true);
        assert(between is Absent);
    }
}

/// Whether tests with one result file, in the order in which they try to create it, can be told so:
/// the file is created only if it is not there, and is never deleted. `present` says whether the
/// file is there before each attempt and at the end. The tests may overlap in every other way.
pub open spec fn is_creation_order<E>(tests: Seq<TestTrace<E>>, present: Seq<bool>) -> bool {
    &&& present.len() == tests.len() + 1
    &&& forall|i: int|
        0 <= i < tests.len() ==> {
            &&& is_trace(#[trigger] tests[i])
            &&& present[i] ==> present[i + 1]
            &&& creates_result(tests[i]) ==> !present[i] && present[i + 1]
        }
}

proof fn lemma_file_remains<E>(tests: Seq<TestTrace<E>>, present: Seq<bool>, i: int, j: int)
    requires
        is_creation_order(tests, present),
        0 <= i <= j < present.len(),
        present[i],
    ensures
        present[j],
    decreases j - i,
{
    if i < j {
        lemma_file_remains(tests, present, i, j - 1);
        assert(is_trace(tests[j - 1]));
    }
}

/// Of any number of tests with one result file, at most one gets to check out the commit, run the
/// command and write to the files, whichever way the tests overlap.
pub proof fn law_one_test_runs<E>(tests: Seq<TestTrace<E>>, present: Seq<bool>, i: int, j: int)
    requires
        is_creation_order(tests, present),
        0 <= i < tests.len(),
        0 <= j < tests.len(),
        i != j,
        creates_result(tests[i]),
    ensures
        !creates_result(tests[j]),
        !creates_output(tests[j]),
        !checks_out(tests[j]),
        !runs_command(tests[j]),
        !writes_record(tests[j]),
{
    assert(is_trace(tests[i]) && is_trace(tests[j]));
    if i < j {
        lemma_file_remains(tests, present, i + 1, j);
    } else if creates_result(tests[j]) {
        lemma_file_remains(tests, present, j + 1, i);
    }
    if creates_output(tests[j]) || checks_out(tests[j]) || runs_command(tests[j]) || writes_record(
        tests[j],
    ) {
        law_only_creator_goes_on(tests[j]);
    }
}

/// Where the result file of a test is: in the directory of the command, in that of the tree.
pub open spec fn path_of<E>(trace: TestTrace<E>) -> (Seq<char>, Seq<char>) {
    (trace.steps[1]->CreateCommandDir_0@, trace.steps[3]->CreateTreeDir_0@)
}

/// The result files, by their paths.
pub type ResultFiles = Map<(Seq<char>, Seq<char>), ResultFile>;

/// What there is at a path.
pub open spec fn file_at(files: ResultFiles, path: (Seq<char>, Seq<char>)) -> ResultFile {
    if files.contains_key(path) {
        files[path]
    } else {
        ResultFile::Absent
    }
}

/// A series of tests, with the result files before each test and at the end.
pub struct Series<E> {
    pub tests: Seq<TestTrace<E>>,
    pub files: Seq<ResultFiles>,
}

/// The results of a series.
pub open spec fn results_of<E>(series: Series<E>) -> Seq<TestStatus> {
    series.tests.map_values(|trace: TestTrace<E>| result_of(trace))
}

/// Whether each test of a series ends with a result and tells of the result files, and nothing but
/// these tests alters the files. Tests of commits with the same tree share their file.
pub open spec fn is_series<E>(codec: Codec, series: Series<E>) -> bool {
    &&& series.files.len() == series.tests.len() + 1
    &&& forall|i: int|
        0 <= i < series.tests.len() ==> {
            let path = path_of(#[trigger] series.tests[i]);
            let after = file_at(series.files[i + 1], path);
            &&& is_successful_trace(series.tests[i])
            &&& tells_of_file(codec, file_at(series.files[i], path), series.tests[i], after)
            &&& series.files[i + 1] == series.files[i].insert(path, after)
        }
}

/// What the test at a position of a series finds, gives and leaves.
proof fn lemma_test_in_series<E>(codec: Codec, series: Series<E>, i: int)
    requires
        is_series(codec, series),
        0 <= i < series.tests.len(),
    ensures
        ({
            let path = path_of(series.tests[i]);
            let before = file_at(series.files[i], path);
            let after = file_at(series.files[i + 1], path);
            &&& leaves(codec, before, result_of(series.tests[i]), after)
            &&& !(after is Absent)
            &&& !(before is Absent) ==> !checks_out(series.tests[i]) && !runs_command(
                series.tests[i],
            )
            &&& series.files[i + 1] == series.files[i].insert(path, after)
        }),
{
    let path = path_of(series.tests[i]);
    law_file_decides(
        codec,
        file_at(series.files[i], path),
        series.tests[i],
        file_at(series.files[i + 1], path),
    );
}

/// A file that is there is never altered again.
proof fn lemma_file_stays<E>(
    codec: Codec,
    series: Series<E>,
    path: (Seq<char>, Seq<char>),
    i: int,
    j: int,
)
    requires
        is_series(codec, series),
        0 <= i <= j < series.files.len(),
        !(file_at(series.files[i], path) is Absent),
    ensures
        file_at(series.files[j], path) == file_at(series.files[i], path),
    decreases j - i,
{
    if i < j {
        lemma_file_stays(codec, series, path, i, j - 1);
        lemma_test_in_series(codec, series, j - 1);
    }
}

/// Tests of commits with the same tree share their result file, so that only the first of them is
/// run: a later one repeats its result.
pub proof fn law_tree_is_tested_once<E>(codec: Codec, series: Series<E>, i: int, j: int)
    requires
        gives_back(codec),
        is_series(codec, series),
        0 <= i < j < series.tests.len(),
        path_of(series.tests[i]) == path_of(series.tests[j]),
    ensures
        is_repeat_of(result_of(series.tests[i]), result_of(series.tests[j])),
        verdict_of(result_of(series.tests[j])) == verdict_of(result_of(series.tests[i])),
        !checks_out(series.tests[j]),
        !runs_command(series.tests[j]),
{
    let path = path_of(series.tests[i]);
    lemma_test_in_series(codec, series, i);
    lemma_file_stays(codec, series, path, i + 1, j);
    lemma_test_in_series(codec, series, j);
    law_left_file_repeats_result(
        codec,
        file_at(series.files[i], path),
        result_of(series.tests[i]),
        file_at(series.files[i + 1], path),
        result_of(series.tests[j]),
        file_at(series.files[j + 1], path),
    );
    law_repeat_keeps_verdict(result_of(series.tests[i]), result_of(series.tests[j]));
}

/// Each test of a repeated series finds the file that its counterpart has left.
proof fn lemma_repeated_test<E>(codec: Codec, first: Series<E>, second: Series<E>, i: int)
    requires
        gives_back(codec),
        is_series(codec, first),
        is_series(codec, second),
        second.files[0] == first.files.last(),
        first.tests.len() == second.tests.len(),
        0 <= i < first.tests.len(),
        path_of(first.tests[i]) == path_of(second.tests[i]),
    ensures
        is_repeat_of(result_of(first.tests[i]), result_of(second.tests[i])),
        !checks_out(second.tests[i]),
        !runs_command(second.tests[i]),
        second.files[i + 1] == second.files[i],
{
    let path = path_of(first.tests[i]);
    let left = file_at(first.files[i + 1], path);
    lemma_test_in_series(codec, first, i);
    lemma_file_stays(codec, first, path, i + 1, first.files.len() - 1);
    lemma_file_stays(codec, second, path, 0, i);
    lemma_test_in_series(codec, second, i);
    law_left_file_repeats_result(
        codec,
        file_at(first.files[i], path),
        result_of(first.tests[i]),
        left,
        result_of(second.tests[i]),
        file_at(second.files[i + 1], path),
    );
    assert(second.files[i].insert(path, left) =~= second.files[i]);
}

/// Asking for the tests of the same commits again, with nothing else altering the result files,
/// repeats every result: no commit is checked out, no command is run, and no result file changes.
pub proof fn law_repeated_series<E>(codec: Codec, first: Series<E>, second: Series<E>)
    requires
        gives_back(codec),
        is_series(codec, first),
        is_series(codec, second),
        second.files[0] == first.files.last(),
        first.tests.len() == second.tests.len(),
        forall|i: int|
            0 <= i < first.tests.len() ==> path_of(#[trigger] first.tests[i]) == path_of(
                second.tests[i],
            ),
    ensures
        forall|i: int|
            0 <= i < second.tests.len() ==> {
                &&& is_repeat_of(
                    result_of(first.tests[i]),
                    result_of(#[trigger] second.tests[i]),
                )
                &&& is_from_file(result_of(second.tests[i]))
                &&& !checks_out(second.tests[i])
                &&& !runs_command(second.tests[i])
            },
        forall|i: int|
            0 <= i < second.files.len() ==> #[trigger] second.files[i] == first.files.last(),
{
    assert forall|i: int| 0 <= i < second.tests.len() implies {
        &&& is_repeat_of(result_of(first.tests[i]), result_of(#[trigger] second.tests[i]))
        &&& is_from_file(result_of(second.tests[i]))
        &&& !checks_out(second.tests[i])
        &&& !runs_command(second.tests[i])
    } by {
        assert(path_of(first.tests[i]) == path_of(second.tests[i]));
        lemma_repeated_test(codec, first, second, i);
        law_repeat_keeps_verdict(result_of(first.tests[i]), result_of(second.tests[i]));
    }
    assert forall|i: int| 0 <= i < second.files.len() implies #[trigger] second.files[i]
        == first.files.last() by {
        lemma_files_unchanged(codec, first, second, i);
    }
}

proof fn lemma_files_unchanged<E>(codec: Codec, first: Series<E>, second: Series<E>, i: int)
    requires
        gives_back(codec),
        is_series(codec, first),
        is_series(codec, second),
        second.files[0] == first.files.last(),
        first.tests.len() == second.tests.len(),
        forall|k: int|
            0 <= k < first.tests.len() ==> path_of(#[trigger] first.tests[k]) == path_of(
                second.tests[k],
            ),
        0 <= i < second.files.len(),
    ensures
        second.files[i] == first.files.last(),
    decreases i,
{
    if i > 0 {
        lemma_files_unchanged(codec, first, second, i - 1);
        assert(path_of(first.tests[i - 1]) == path_of(second.tests[i - 1]));
        lemma_repeated_test(codec, first, second, i - 1);
    }
}

/// Whether the course of the tests of a number of commits found a shell, ended with an exit code,
/// and summed up the results of the given series.
pub open spec fn sums_up<E>(suite: SuiteTrace<E>, series: Series<E>) -> bool {
    &&& crate::suite::is_successful_trace(suite)
    &&& suite.total == series.tests.len()
    &&& suite.events[0] == SuiteEvent::<E>::ShellFound(true)
    &&& suite.events.last() is SummedUp ==> is_tally_of(
        suite.events.last()->SummedUp_0,
        results_of(series),
    )
}

/// The tests of a number of commits succeed exactly if each commit passed, now or in an earlier run.
pub proof fn law_exit_code_tells_of_tests<E>(suite: SuiteTrace<E>, series: Series<E>)
    requires
        sums_up(suite, series),
    ensures
        suite.steps.last() == SuiteStep::<E>::Finish(Ok(0)) <==> forall|i: int|
            0 <= i < series.tests.len() ==> verdict_of(result_of(#[trigger] series.tests[i]))
                == Verdict::Passed,
{
    let results = results_of(series);
    law_exit_code_needs_all_tests(suite);
    law_success_means_all_passed(results, suite.events.last()->SummedUp_0);
    if forall|i: int|
        0 <= i < series.tests.len() ==> verdict_of(result_of(#[trigger] series.tests[i]))
            == Verdict::Passed {
        assert forall|i: int| 0 <= i < results.len() implies verdict_of(#[trigger] results[i])
            == Verdict::Passed by {
            assert(results[i] == result_of(series.tests[i]));
        }
    } else {
        let i = choose|i: int|
            0 <= i < series.tests.len() && verdict_of(result_of(#[trigger] series.tests[i]))
                != Verdict::Passed;
        assert(verdict_of(results[i]) != Verdict::Passed);
    }
}

/// Running the same command on the same commits again, with nothing else altering the result files,
/// gives the same summary and the same exit code.
pub proof fn law_repeated_run<E>(
    codec: Codec,
    first: Series<E>,
    first_suite: SuiteTrace<E>,
    second: Series<E>,
    second_suite: SuiteTrace<E>,
)
    requires
        gives_back(codec),
        is_series(codec, first),
        is_series(codec, second),
        second.files[0] == first.files.last(),
        first.tests.len() == second.tests.len(),
        forall|i: int|
            0 <= i < first.tests.len() ==> path_of(#[trigger] first.tests[i]) == path_of(
                second.tests[i],
            ),
        sums_up(first_suite, first),
        sums_up(second_suite, second),
    ensures
        first_suite.events.last() is SummedUp,
        second_suite.events.last() is SummedUp,
        second_suite.events.last()->SummedUp_0 == first_suite.events.last()->SummedUp_0,
        summary_of(second_suite.events.last()->SummedUp_0) == summary_of(
            first_suite.events.last()->SummedUp_0,
        ),
        second_suite.steps.last() == first_suite.steps.last(),
        forall|i: int|
            0 <= i < second.tests.len() ==> {
                &&& is_from_file(result_of(#[trigger] second.tests[i]))
                &&& !checks_out(second.tests[i])
                &&& !runs_command(second.tests[i])
            },
{
    law_exit_code_needs_all_tests(first_suite);
    law_exit_code_needs_all_tests(second_suite);
    law_repeated_series(codec, first, second);
    let before = results_of(first);
    let after = results_of(second);
    assert forall|i: int| 0 <= i < before.len() implies is_repeat_of(
        #[trigger] before[i],
        after[i],
    ) by {
        assert(after[i] == result_of(second.tests[i]));
    }
    law_repeated_results_repeat_counts(
        before,
        after,
        first_suite.events.last()->SummedUp_0,
        second_suite.events.last()->SummedUp_0,
    );
}

} // verus!
