//! The course of one test: its files are set up, and unless a result is there already, the commit
//! is checked out, the test command is run on it, and the result is recorded.
use vstd::prelude::*;
use crate::options::{command_slug, TestOptions};
use crate::run::GitOutcome;
use crate::status::{
    cache_read_of, icon_of, is_from_file, is_recorded, is_status_of_record, law_record_is_read_back,
    read_cache, status_of_command, verdict_of, CacheRead, TestStatus,
};
use crate::text::views;

verus! {

/// The name of the file that holds the result of a test.
pub const RESULT_FILE: &'static str = "result";

/// The name of the file that holds the output of a test.
pub const STDOUT_FILE: &'static str = "stdout";

/// The name of the file that holds the error output of a test.
pub const STDERR_FILE: &'static str = "stderr";

/// The arguments with which a shell runs the test command.
pub fn shell_args(options: &TestOptions) -> (args: Vec<String>)
    ensures
        views(args@) == seq!["-c"@, options.command@],
{
    let mut args: Vec<String> = Vec::new();
    args.push("-c".to_string());
    args.push(options.command.clone());
    assert(views(args@) =~= seq!["-c"@, options.command@]);
    args
}

/// The git command that checks out a commit.
pub fn checkout_args(commit_oid: String) -> (args: Vec<String>)
    ensures
        views(args@) == seq!["checkout"@, commit_oid@],
{
    let mut args: Vec<String> = Vec::new();
    args.push("checkout".to_string());
    args.push(commit_oid);
    assert(views(args@) =~= seq!["checkout"@, commit_oid@]);
    args
}

/// The outside work that is due next.
pub enum TestStep<E> {
    /// Describe the commit, and show that it is being tested.
    StartProgress,
    /// Create the directory of the test command, which has the given name.
    CreateCommandDir(String),
    /// Look up the identifier of the commit's tree.
    LookUpTree,
    /// Create the directory of the tree, which has the given name, in that of the test command.
    CreateTreeDir(String),
    /// Create the result file in the directory of the tree, unless it is there.
    CreateResult,
    /// Read the result file that is there.
    ReadResult,
    /// Decode the given contents of the result file.
    DecodeResult(String),
    /// Create the file for the output.
    CreateStdout,
    /// Create the file for the error output.
    CreateStderr,
    /// Check out the commit.
    CheckOut,
    /// Look up the working copy.
    FindWorkingCopy,
    /// Run the test command in the working copy.
    RunCommand,
    /// Write a result to the result file.
    Record(TestStatus),
    /// Show a result.
    ShowStatus(TestStatus),
    /// End with a result or an error.
    Finish(Result<TestStatus, E>),
}

/// What came of the outside work of a step.
pub enum TestEvent<E> {
    /// The progress display was started.
    Started(Result<(), E>),
    /// A directory was created, or was there.
    DirCreated(Result<(), E>),
    /// The identifier of the commit's tree.
    Tree(Result<String, E>),
    /// Whether the result file was created.
    ResultCreated(bool),
    /// The contents of the result file, or the reason why they cannot be read.
    ResultRead(Result<String, String>),
    /// The result that the contents hold, or the reason why they hold none.
    Decoded(Result<TestStatus, String>),
    /// A file for output was created.
    FileCreated(Result<(), E>),
    /// Git was asked to check out the commit.
    CheckedOut(Result<GitOutcome, E>),
    /// Whether there is a working copy.
    WorkingCopy(bool),
    /// The exit code of the test command, if it gave one, or the reason why it was not started.
    CommandEnded(Result<Option<i32>, String>),
    /// The result was written to the result file.
    Recorded(Result<(), E>),
    /// The result was shown.
    Shown(Result<(), E>),
}

/// The step that follows outside work that can fail with an error.
pub open spec fn or_finish<E>(result: Result<(), E>, step: TestStep<E>) -> TestStep<E> {
    match result {
        Ok(_) => step,
        Err(err) => TestStep::Finish(Err(err)),
    }
}

/// Whether a step follows another, given what came of that one, in a test with the given command.
/// No other event can come of a step.
pub open spec fn follows<E>(
    command: Seq<char>,
    from: TestStep<E>,
    event: TestEvent<E>,
    to: TestStep<E>,
) -> bool {
    match (from, event) {
        (TestStep::StartProgress, TestEvent::Started(started)) => match started {
            Ok(_) => to is CreateCommandDir && to->CreateCommandDir_0@ == command_slug(command),
            Err(err) => to == TestStep::<E>::Finish(Err(err)),
        },
        (TestStep::CreateCommandDir(_), TestEvent::DirCreated(created)) => to == or_finish(
            created,
            TestStep::LookUpTree,
        ),
        (TestStep::LookUpTree, TestEvent::Tree(tree)) => to == match tree {
            Ok(tree_oid) => TestStep::<E>::CreateTreeDir(tree_oid),
            Err(err) => TestStep::<E>::Finish(Err(err)),
        },
        (TestStep::CreateTreeDir(_), TestEvent::DirCreated(created)) => to == or_finish(
            created,
            TestStep::CreateResult,
        ),
        (TestStep::CreateResult, TestEvent::ResultCreated(created)) => to == if created {
            TestStep::<E>::CreateStdout
        } else {
            TestStep::<E>::ReadResult
        },
        (TestStep::ReadResult, TestEvent::ResultRead(read)) => to == match cache_read_of(read) {
            CacheRead::Known(status) => TestStep::<E>::ShowStatus(status),
            CacheRead::Decode(contents) => TestStep::<E>::DecodeResult(contents),
        },
        (TestStep::DecodeResult(_), TestEvent::Decoded(record)) => to is ShowStatus
            && is_status_of_record(record, to->ShowStatus_0),
        (TestStep::CreateStdout, TestEvent::FileCreated(created)) => to == or_finish(
            created,
            TestStep::CreateStderr,
        ),
        (TestStep::CreateStderr, TestEvent::FileCreated(created)) => to == or_finish(
            created,
            TestStep::CheckOut,
        ),
        (TestStep::CheckOut, TestEvent::CheckedOut(checkout)) => to == match checkout {
            Ok(outcome) => if outcome.success {
                TestStep::<E>::FindWorkingCopy
            } else {
                TestStep::<E>::ShowStatus(TestStatus::CheckoutFailed)
            },
            Err(err) => TestStep::<E>::Finish(Err(err)),
        },
        (TestStep::FindWorkingCopy, TestEvent::WorkingCopy(found)) => to == if found {
            TestStep::<E>::RunCommand
        } else {
            TestStep::<E>::ShowStatus(TestStatus::CheckoutFailed)
        },
        (TestStep::RunCommand, TestEvent::CommandEnded(outcome)) => to == if is_recorded(
            status_of_command(outcome),
        ) {
            TestStep::<E>::Record(status_of_command(outcome))
        } else {
            TestStep::<E>::ShowStatus(status_of_command(outcome))
        },
        (TestStep::Record(status), TestEvent::Recorded(written)) => to == or_finish(
            written,
            TestStep::ShowStatus(status),
        ),
        (TestStep::ShowStatus(status), TestEvent::Shown(shown)) => to == or_finish(
            shown,
            TestStep::Finish(Ok(status)),
        ),
        _ => false,
    }
}

/// The step after the progress display was started.
pub fn after_progress<E>(options: &TestOptions, started: Result<(), E>) -> (step: TestStep<E>)
    ensures
        match started {
            Ok(_) => step is CreateCommandDir && step->CreateCommandDir_0@ == command_slug(
                options.command@,
            ),
            Err(err) => step == TestStep::<E>::Finish(Err(err)),
        },
        follows(options.command@, TestStep::StartProgress, TestEvent::Started(started), step),
{
    match started {
        Ok(_) => TestStep::CreateCommandDir(options.make_command_slug()),
        Err(err) => TestStep::Finish(Err(err)),
    }
}

/// The step after the directory of the test command was created.
pub fn after_command_dir<E>(created: Result<(), E>) -> (step: TestStep<E>)
    ensures
        step == match created {
            Ok(_) => TestStep::<E>::LookUpTree,
            Err(err) => TestStep::<E>::Finish(Err(err)),
        },
        forall|command: Seq<char>, slug: String| #[trigger]
            follows(command, TestStep::CreateCommandDir(slug), TestEvent::DirCreated(created), step),
{
    match created {
        Ok(_) => TestStep::LookUpTree,
        Err(err) => TestStep::Finish(Err(err)),
    }
}

/// The step after the tree of the commit was looked up.
pub fn after_tree<E>(tree_oid: Result<String, E>) -> (step: TestStep<E>)
    ensures
        step == match tree_oid {
            Ok(tree_oid) => TestStep::<E>::CreateTreeDir(tree_oid),
            Err(err) => TestStep::<E>::Finish(Err(err)),
        },
        forall|command: Seq<char>| #[trigger]
            follows(command, TestStep::LookUpTree, TestEvent::Tree(tree_oid), step),
{
    match tree_oid {
        Ok(tree_oid) => TestStep::CreateTreeDir(tree_oid),
        Err(err) => TestStep::Finish(Err(err)),
    }
}

/// The step after the directory of the tree was created.
pub fn after_tree_dir<E>(created: Result<(), E>) -> (step: TestStep<E>)
    ensures
        step == match created {
            Ok(_) => TestStep::<E>::CreateResult,
            Err(err) => TestStep::<E>::Finish(Err(err)),
        },
        forall|command: Seq<char>, tree_oid: String| #[trigger]
            follows(command, TestStep::CreateTreeDir(tree_oid), TestEvent::DirCreated(created), step),
{
    match created {
        Ok(_) => TestStep::CreateResult,
        Err(err) => TestStep::Finish(Err(err)),
    }
}

/// The step after the attempt to create the result file.
pub fn after_create_result<E>(created: bool) -> (step: TestStep<E>)
    ensures
        step == if created {
            TestStep::<E>::CreateStdout
        } else {
            TestStep::<E>::ReadResult
        },
        forall|command: Seq<char>| #[trigger]
            follows(command, TestStep::CreateResult, TestEvent::ResultCreated(created), step),
{
    if created {
        TestStep::CreateStdout
    } else {
        TestStep::ReadResult
    }
}

/// The step after the result file was read, or could not be read for the reason given.
pub fn after_read<E>(read: Result<String, String>) -> (step: TestStep<E>)
    ensures
        step == match cache_read_of(read) {
            CacheRead::Known(status) => TestStep::<E>::ShowStatus(status),
            CacheRead::Decode(contents) => TestStep::<E>::DecodeResult(contents),
        },
        forall|command: Seq<char>| #[trigger]
            follows(command, TestStep::ReadResult, TestEvent::ResultRead(read), step),
{
    match read_cache(read) {
        CacheRead::Known(status) => TestStep::ShowStatus(status),
        CacheRead::Decode(contents) => TestStep::DecodeResult(contents),
    }
}

/// The step after the contents of the result file were decoded, or could not be for the reason
/// given.
pub fn after_decode<E>(record: Result<TestStatus, String>) -> (step: TestStep<E>)
    ensures
        step is ShowStatus,
        is_status_of_record(record, step->ShowStatus_0),
        forall|command: Seq<char>, contents: String| #[trigger]
            follows(command, TestStep::DecodeResult(contents), TestEvent::Decoded(record), step),
{
    TestStep::ShowStatus(TestStatus::from_record(record))
}

/// The step after the file for the output was created.
pub fn after_stdout<E>(created: Result<(), E>) -> (step: TestStep<E>)
    ensures
        step == match created {
            Ok(_) => TestStep::<E>::CreateStderr,
            Err(err) => TestStep::<E>::Finish(Err(err)),
        },
        forall|command: Seq<char>| #[trigger]
            follows(command, TestStep::CreateStdout, TestEvent::FileCreated(created), step),
{
    match created {
        Ok(_) => TestStep::CreateStderr,
        Err(err) => TestStep::Finish(Err(err)),
    }
}

/// The step after the file for the error output was created.
pub fn after_stderr<E>(created: Result<(), E>) -> (step: TestStep<E>)
    ensures
        step == match created {
            Ok(_) => TestStep::<E>::CheckOut,
            Err(err) => TestStep::<E>::Finish(Err(err)),
        },
        forall|command: Seq<char>| #[trigger]
            follows(command, TestStep::CreateStderr, TestEvent::FileCreated(created), step),
{
    match created {
        Ok(_) => TestStep::CheckOut,
        Err(err) => TestStep::Finish(Err(err)),
    }
}

/// The step after the attempt to check out the commit.
pub fn after_check_out<E>(checkout: Result<GitOutcome, E>) -> (step: TestStep<E>)
    ensures
        step == match checkout {
            Ok(outcome) => if outcome.success {
                TestStep::<E>::FindWorkingCopy
            } else {
                TestStep::<E>::ShowStatus(TestStatus::CheckoutFailed)
            },
            Err(err) => TestStep::<E>::Finish(Err(err)),
        },
        forall|command: Seq<char>| #[trigger]
            follows(command, TestStep::CheckOut, TestEvent::CheckedOut(checkout), step),
{
    match checkout {
        Ok(outcome) => if outcome.success {
            TestStep::FindWorkingCopy
        } else {
            TestStep::ShowStatus(TestStatus::CheckoutFailed)
        },
        Err(err) => TestStep::Finish(Err(err)),
    }
}

/// The step after the working copy was looked up. A repository without one cannot be tested.
pub fn after_working_copy<E>(found: bool) -> (step: TestStep<E>)
    ensures
        step == if found {
            TestStep::<E>::RunCommand
        } else {
            TestStep::<E>::ShowStatus(TestStatus::CheckoutFailed)
        },
        forall|command: Seq<char>| #[trigger]
            follows(command, TestStep::FindWorkingCopy, TestEvent::WorkingCopy(found), step),
{
    if found {
        TestStep::RunCommand
    } else {
        TestStep::ShowStatus(TestStatus::CheckoutFailed)
    }
}

/// The step after the test command ended with an exit code or without one, or could not be started
/// for the reason given.
pub fn after_command<E>(outcome: Result<Option<i32>, String>) -> (step: TestStep<E>)
    ensures
        step == if is_recorded(status_of_command(outcome)) {
            TestStep::<E>::Record(status_of_command(outcome))
        } else {
            TestStep::<E>::ShowStatus(status_of_command(outcome))
        },
        forall|command: Seq<char>| #[trigger]
            follows(command, TestStep::RunCommand, TestEvent::CommandEnded(outcome), step),
{
    let status = TestStatus::from_command(outcome);
    if status.recorded() {
        TestStep::Record(status)
    } else {
        TestStep::ShowStatus(status)
    }
}

/// The step after a result was written to the result file.
pub fn after_record<E>(status: TestStatus, written: Result<(), E>) -> (step: TestStep<E>)
    ensures
        step == match written {
            Ok(_) => TestStep::<E>::ShowStatus(status),
            Err(err) => TestStep::<E>::Finish(Err(err)),
        },
        forall|command: Seq<char>| #[trigger]
            follows(command, TestStep::Record(status), TestEvent::Recorded(written), step),
{
    match written {
        Ok(_) => TestStep::ShowStatus(status),
        Err(err) => TestStep::Finish(Err(err)),
    }
}

/// The step after a result was shown.
pub fn after_show<E>(status: TestStatus, shown: Result<(), E>) -> (step: TestStep<E>)
    ensures
        step == TestStep::<E>::Finish(
            match shown {
                Ok(_) => Ok(status),
                Err(err) => Err(err),
            },
        ),
        forall|command: Seq<char>| #[trigger]
            follows(command, TestStep::ShowStatus(status), TestEvent::Shown(shown), step),
{
    match shown {
        Ok(_) => TestStep::Finish(Ok(status)),
        Err(err) => TestStep::Finish(Err(err)),
    }
}

/// The steps of a test up to some point, and what came of each but the last.
pub struct TestTrace<E> {
    /// The test command.
    pub command: Seq<char>,
    pub steps: Seq<TestStep<E>>,
    pub events: Seq<TestEvent<E>>,
}

/// Whether a test can take these steps.
pub open spec fn is_trace<E>(trace: TestTrace<E>) -> bool {
    &&& trace.steps.len() == trace.events.len() + 1
    &&& trace.steps[0] is StartProgress
    &&& forall|i: int|
        0 <= i < trace.events.len() ==> follows(
            trace.command,
            trace.steps[i],
            #[trigger] trace.events[i],
            trace.steps[i + 1],
        )
}

/// Whether a test can take these steps and then end with a result.
pub open spec fn is_successful_trace<E>(trace: TestTrace<E>) -> bool {
    &&& is_trace(trace)
    &&& trace.steps.last() is Finish
    &&& trace.steps.last()->Finish_0 is Ok
}

/// The result that a test ends with.
pub open spec fn result_of<E>(trace: TestTrace<E>) -> TestStatus {
    trace.steps.last()->Finish_0->Ok_0
}

/// Whether a test has found a result file that was there already.
pub open spec fn reads_result<E>(trace: TestTrace<E>) -> bool {
    exists|i: int| 0 <= i < trace.steps.len() && #[trigger] trace.steps[i] is ReadResult
}

/// Whether a test has created its result file.
pub open spec fn creates_result<E>(trace: TestTrace<E>) -> bool {
    exists|i: int|
        0 <= i < trace.events.len() && #[trigger] trace.events[i] == TestEvent::<
            E,
        >::ResultCreated(true)
}

/// Whether a test has created a file for output, and with it has dropped what the file held.
pub open spec fn creates_output<E>(trace: TestTrace<E>) -> bool {
    exists|i: int|
        0 <= i < trace.steps.len() && (#[trigger] trace.steps[i] is CreateStdout || trace.steps[i]
            is CreateStderr)
}

/// Whether a test has come to write its result to the result file.
pub open spec fn writes_record<E>(trace: TestTrace<E>) -> bool {
    exists|i: int| 0 <= i < trace.steps.len() && #[trigger] trace.steps[i] is Record
}

/// Whether a test has checked out its commit.
pub open spec fn checks_out<E>(trace: TestTrace<E>) -> bool {
    exists|i: int| 0 <= i < trace.steps.len() && #[trigger] trace.steps[i] is CheckOut
}

/// Whether a test has run its command.
pub open spec fn runs_command<E>(trace: TestTrace<E>) -> bool {
    exists|i: int| 0 <= i < trace.steps.len() && #[trigger] trace.steps[i] is RunCommand
}

/// Which steps can come at a position.
spec fn fits<E>(i: int, step: TestStep<E>) -> bool {
    match step {
        TestStep::StartProgress => i == 0,
        TestStep::CreateCommandDir(_) => i == 1,
        TestStep::LookUpTree => i == 2,
        TestStep::CreateTreeDir(_) => i == 3,
        TestStep::CreateResult => i == 4,
        TestStep::ReadResult => i == 5,
        TestStep::DecodeResult(_) => i == 6,
        TestStep::CreateStdout => i == 5,
        TestStep::CreateStderr => i == 6,
        TestStep::CheckOut => i == 7,
        TestStep::FindWorkingCopy => i == 8,
        TestStep::RunCommand => i == 9,
        TestStep::Record(status) => i == 10 && is_recorded(status),
        TestStep::ShowStatus(_) => 6 <= i <= 11,
        TestStep::Finish(_) => 1 <= i <= 12,
    }
}

/// Which steps a test takes once it has found a result file that was there already.
spec fn fits_known<E>(step: TestStep<E>) -> bool {
    match step {
        TestStep::ReadResult | TestStep::DecodeResult(_) => true,
        TestStep::ShowStatus(status) => is_from_file(status),
        TestStep::Finish(result) => result is Ok ==> is_from_file(result->Ok_0),
        _ => false,
    }
}

/// Which steps a test takes once it has created its result file.
spec fn fits_new<E>(step: TestStep<E>) -> bool {
    match step {
        TestStep::ReadResult | TestStep::DecodeResult(_) => false,
        TestStep::ShowStatus(status) => !is_from_file(status),
        TestStep::Finish(result) => result is Ok ==> !is_from_file(result->Ok_0),
        _ => true,
    }
}

/// `trace` goes from its step `i` to the next by the event that came of it.
pub(crate) proof fn lemma_step<E>(trace: TestTrace<E>, i: int)
    requires
        is_trace(trace),
        0 <= i < trace.events.len(),
    ensures
        follows(trace.command, trace.steps[i], trace.events[i], trace.steps[i + 1]),
        !(trace.steps[i] is Finish),
{
    assert(follows(trace.command, trace.steps[i], trace.events[i], trace.steps[i + 1]));
}

proof fn lemma_fits<E>(trace: TestTrace<E>, i: int)
    requires
        is_trace(trace),
        0 <= i < trace.steps.len(),
    ensures
        fits(i, trace.steps[i]),
        i >= 5 && trace.steps[5] is ReadResult ==> fits_known(trace.steps[i]),
        i >= 5 && trace.steps[5] is CreateStdout ==> fits_new(trace.steps[i]),
        i > 5 ==> trace.steps[5] is ReadResult || trace.steps[5] is CreateStdout,
    decreases i,
{
    if i > 0 {
        lemma_fits(trace, i - 1);
        lemma_step(trace, i - 1);
    }
}

/// Every test ends: it has at most thirteen steps.
pub proof fn law_test_ends<E>(trace: TestTrace<E>)
    requires
        is_trace(trace),
    ensures
        trace.steps.len() <= 13,
{
    lemma_fits(trace, trace.steps.len() - 1);
}

/// The first steps of a test that ends with a result: it creates the directory named by the slug of
/// its command, and in it that of the commit's tree, and then tries to create the result file.
pub proof fn law_test_sets_up_files<E>(trace: TestTrace<E>)
    requires
        is_successful_trace(trace),
    ensures
        trace.steps.len() >= 8,
        trace.steps[1] is CreateCommandDir,
        trace.steps[1]->CreateCommandDir_0@ == command_slug(trace.command),
        trace.steps[2] is LookUpTree,
        trace.steps[3] is CreateTreeDir,
        trace.events[2] == TestEvent::<E>::Tree(Ok(trace.steps[3]->CreateTreeDir_0)),
        trace.steps[4] is CreateResult,
        trace.events[4] is ResultCreated,
        trace.steps[5] == if trace.events[4]->ResultCreated_0 {
            TestStep::<E>::CreateStdout
        } else {
            TestStep::<E>::ReadResult
        },
{
    let last = trace.steps.len() - 1;
    lemma_step(trace, last - 1);
    lemma_fits(trace, last - 1);
    lemma_step(trace, 0);
    lemma_step(trace, 1);
    lemma_step(trace, 2);
    lemma_step(trace, 3);
    lemma_step(trace, 4);
}

/// A test whose result file is there already is not run again, and none of its files is touched.
pub proof fn law_known_test_is_not_run<E>(trace: TestTrace<E>)
    requires
        is_trace(trace),
        reads_result(trace),
    ensures
        !creates_output(trace),
        !checks_out(trace),
        !runs_command(trace),
        !writes_record(trace),
{
    let k = choose|k: int| 0 <= k < trace.steps.len() && #[trigger] trace.steps[k] is ReadResult;
    lemma_fits(trace, k);
    assert forall|i: int| 0 <= i < trace.steps.len() implies !(#[trigger] trace.steps[i]
        is RunCommand) && !(trace.steps[i] is CheckOut) && !(trace.steps[i] is Record)
        && !(trace.steps[i] is CreateStdout) && !(trace.steps[i] is CreateStderr) by {
        lemma_fits(trace, i);
    }
}

/// Only the test that has created the result file goes on to create the output files, check out
/// the commit, run the command and write the result.
pub proof fn law_only_creator_goes_on<E>(trace: TestTrace<E>)
    requires
        is_trace(trace),
        creates_output(trace) || checks_out(trace) || runs_command(trace) || writes_record(trace),
    ensures
        creates_result(trace),
{
    let i = choose|i: int|
        0 <= i < trace.steps.len() && (#[trigger] trace.steps[i] is CreateStdout || trace.steps[i]
            is CreateStderr || trace.steps[i] is CheckOut || trace.steps[i] is RunCommand
            || trace.steps[i] is Record);
    lemma_fits(trace, i);
    lemma_step(trace, 4);
    lemma_fits(trace, 4);
    lemma_fits(trace, 5);
    assert(trace.events[4] == TestEvent::<E>::ResultCreated(true));
}

/// The result file is created at one point of a test alone, before it goes on.
pub(crate) proof fn lemma_creation<E>(trace: TestTrace<E>, i: int)
    requires
        is_trace(trace),
        0 <= i < trace.events.len(),
        trace.events[i] is ResultCreated,
    ensures
        i == 4,
        trace.steps[5] == if trace.events[i]->ResultCreated_0 {
            TestStep::<E>::CreateStdout
        } else {
            TestStep::<E>::ReadResult
        },
{
    lemma_step(trace, i);
    lemma_fits(trace, i);
}

/// The test command is run only after this test has created the result file and both output files,
/// and has checked out the commit.
pub proof fn law_command_runs_on_checkout<E>(trace: TestTrace<E>, i: int)
    requires
        is_trace(trace),
        0 <= i < trace.steps.len(),
        trace.steps[i] is RunCommand,
    ensures
        i == 9,
        trace.steps[4] is CreateResult,
        trace.events[4] == TestEvent::<E>::ResultCreated(true),
        trace.steps[5] is CreateStdout,
        trace.steps[6] is CreateStderr,
        trace.steps[7] is CheckOut,
        trace.events[7] is CheckedOut,
        trace.events[7]->CheckedOut_0 is Ok,
        trace.events[7]->CheckedOut_0->Ok_0.success,
        trace.steps[8] is FindWorkingCopy,
{
    lemma_fits(trace, i);
    lemma_step(trace, 8);
    lemma_step(trace, 7);
    lemma_step(trace, 6);
    lemma_step(trace, 5);
    lemma_step(trace, 4);
}

/// The result of a test comes from an existing result file exactly if the test found one.
pub proof fn law_result_tells_its_origin<E>(trace: TestTrace<E>)
    requires
        is_successful_trace(trace),
    ensures
        reads_result(trace) <==> is_from_file(result_of(trace)),
{
    law_test_sets_up_files(trace);
    lemma_fits(trace, trace.steps.len() - 1);
    if reads_result(trace) {
        let k = choose|k: int|
            0 <= k < trace.steps.len() && #[trigger] trace.steps[k] is ReadResult;
        lemma_fits(trace, k);
    }
}

/// A result is written to the result file exactly if it is the result of a command that ended with
/// an exit code, and the result that is written is the one that the test ends with.
pub proof fn law_result_is_recorded<E>(trace: TestTrace<E>)
    requires
        is_successful_trace(trace),
    ensures
        is_recorded(result_of(trace)) ==> {
            &&& trace.steps.len() == 13
            &&& trace.steps[10] == TestStep::<E>::Record(result_of(trace))
            &&& trace.events[10] is Recorded && trace.events[10]->Recorded_0 is Ok
            &&& trace.steps[9] is RunCommand && trace.events[9] is CommandEnded
            &&& result_of(trace) == status_of_command(trace.events[9]->CommandEnded_0)
        },
        forall|i: int|
            0 <= i < trace.steps.len() && #[trigger] trace.steps[i] is Record ==> trace.steps[i]
                == TestStep::<E>::Record(result_of(trace)) && is_recorded(result_of(trace)),
{
    let last = trace.steps.len() - 1;
    let status = result_of(trace);
    law_test_sets_up_files(trace);
    lemma_step(trace, last - 1);
    lemma_step(trace, last - 2);
    assert(trace.steps[last - 1] == TestStep::<E>::ShowStatus(status));
    lemma_fits(trace, last - 2);
    if is_recorded(status) {
        assert(trace.steps[last - 2] == TestStep::<E>::Record(status));
        lemma_step(trace, last - 3);
    }
    assert forall|i: int|
        0 <= i < trace.steps.len() && #[trigger] trace.steps[i] is Record implies trace.steps[i]
        == TestStep::<E>::Record(status) && is_recorded(status) by {
        lemma_fits(trace, i);
        lemma_step(trace, i);
        lemma_step(trace, i + 1);
        if i + 2 < last {
            lemma_step(trace, i + 2);
        }
    }
}

/// The result of a test that finds a result file is what the file gives: it is known from reading
/// the file, or it is what the decoded contents stand for.
pub proof fn law_result_is_read<E>(trace: TestTrace<E>)
    requires
        is_successful_trace(trace),
        reads_result(trace),
    ensures
        trace.events[5] is ResultRead,
        match cache_read_of(trace.events[5]->ResultRead_0) {
            CacheRead::Known(status) => result_of(trace) == status,
            CacheRead::Decode(contents) => {
                &&& trace.steps[6] == TestStep::<E>::DecodeResult(contents)
                &&& trace.events[6] is Decoded
                &&& is_status_of_record(trace.events[6]->Decoded_0, result_of(trace))
            },
        },
{
    law_test_sets_up_files(trace);
    let k = choose|k: int| 0 <= k < trace.steps.len() && #[trigger] trace.steps[k] is ReadResult;
    lemma_fits(trace, k);
    lemma_step(trace, 5);
    lemma_step(trace, 6);
    if trace.steps[6] is DecodeResult {
        lemma_step(trace, 7);
        if trace.steps.len() > 9 {
            lemma_step(trace, 8);
        }
    } else if trace.steps.len() > 8 {
        lemma_step(trace, 7);
    }
}

/// A test whose result was recorded is not run again: a later test that decodes the record ends
/// with the cached counterpart of the result, which has the same exit code, verdict and icon.
pub proof fn law_rerun_repeats_result<E>(first: TestTrace<E>, second: TestTrace<E>)
    requires
        is_successful_trace(first),
        is_recorded(result_of(first)),
        is_successful_trace(second),
        second.events.contains(TestEvent::<E>::Decoded(Ok(result_of(first)))),
    ensures
        !runs_command(second),
        result_of(first) is Passed ==> result_of(second) == TestStatus::PassedCached,
        result_of(first) is Failed ==> result_of(second) == TestStatus::FailedCached(
            result_of(first)->Failed_0,
        ),
        verdict_of(result_of(second)) == verdict_of(result_of(first)),
        icon_of(result_of(second)) == icon_of(result_of(first)),
{
    let decoded = TestEvent::<E>::Decoded(Ok(result_of(first)));
    let k = choose|k: int| 0 <= k < second.events.len() && second.events[k] == decoded;
    lemma_step(second, k);
    lemma_fits(second, k);
    lemma_step(second, 5);
    assert(second.steps[5] is ReadResult);
    law_known_test_is_not_run(second);
    law_result_is_read(second);
    law_record_is_read_back(result_of(first), result_of(second));
}

/// The three files of a test have the names by which earlier tests have left them, and these names
/// are different.
pub proof fn law_file_names()
    ensures
        RESULT_FILE@ == "result"@,
        STDOUT_FILE@ == "stdout"@,
        STDERR_FILE@ == "stderr"@,
        RESULT_FILE@ != STDOUT_FILE@,
        RESULT_FILE@ != STDERR_FILE@,
        STDOUT_FILE@ != STDERR_FILE@,
{
    reveal_strlit("result");
    reveal_strlit("stdout");
    reveal_strlit("stderr");
    assert(RESULT_FILE@[0] == 'r');
    assert(STDOUT_FILE@[3] == 'o');
    assert(STDERR_FILE@[3] == 'e');
}

/// What each step leads to, for everything that can come of it.
pub proof fn law_test_transitions<E>(
    command: Seq<char>,
    from: TestStep<E>,
    event: TestEvent<E>,
    to: TestStep<E>,
)
    requires
        follows(command, from, event, to),
    ensures
        from is StartProgress ==> event is Started && {
            &&& event->Started_0 is Ok ==> to is CreateCommandDir && to->CreateCommandDir_0@
                == command_slug(command)
            &&& event->Started_0 is Err ==> to == TestStep::<E>::Finish(
                Err(event->Started_0->Err_0),
            )
        },
        from is CreateCommandDir ==> event is DirCreated && {
            &&& event->DirCreated_0 is Ok ==> to is LookUpTree
            &&& event->DirCreated_0 is Err ==> to == TestStep::<E>::Finish(
                Err(event->DirCreated_0->Err_0),
            )
        },
        from is LookUpTree ==> event is Tree && {
            &&& event->Tree_0 is Ok ==> to == TestStep::<E>::CreateTreeDir(event->Tree_0->Ok_0)
            &&& event->Tree_0 is Err ==> to == TestStep::<E>::Finish(Err(event->Tree_0->Err_0))
        },
        from is CreateTreeDir ==> event is DirCreated && {
            &&& event->DirCreated_0 is Ok ==> to is CreateResult
            &&& event->DirCreated_0 is Err ==> to == TestStep::<E>::Finish(
                Err(event->DirCreated_0->Err_0),
            )
        },
        from is CreateResult ==> event is ResultCreated && {
            &&& event->ResultCreated_0 ==> to is CreateStdout
            &&& !event->ResultCreated_0 ==> to is ReadResult
        },
        from is ReadResult ==> event is ResultRead && {
            let read = event->ResultRead_0;
            &&& read is Err ==> to == TestStep::<E>::ShowStatus(
                TestStatus::ReadCacheFailed(read->Err_0),
            )
            &&& read is Ok && read->Ok_0@.len() == 0 ==> to == TestStep::<E>::ShowStatus(
                TestStatus::AlreadyInProgress,
            )
            &&& read is Ok && read->Ok_0@.len() > 0 ==> to == TestStep::<E>::DecodeResult(
                read->Ok_0,
            )
        },
        from is DecodeResult ==> event is Decoded && {
            let record = event->Decoded_0;
            &&& to is ShowStatus
            &&& record is Ok && record->Ok_0 is Passed ==> to->ShowStatus_0
                == TestStatus::PassedCached
            &&& record is Ok && record->Ok_0 is Failed ==> to->ShowStatus_0
                == TestStatus::FailedCached(record->Ok_0->Failed_0)
            &&& record is Ok && !(record->Ok_0 is Passed) && !(record->Ok_0 is Failed)
                ==> to->ShowStatus_0 is ReadCacheFailed
            &&& record is Err ==> to->ShowStatus_0 == TestStatus::ReadCacheFailed(record->Err_0)
        },
        from is CreateStdout ==> event is FileCreated && {
            &&& event->FileCreated_0 is Ok ==> to is CreateStderr
            &&& event->FileCreated_0 is Err ==> to == TestStep::<E>::Finish(
                Err(event->FileCreated_0->Err_0),
            )
        },
        from is CreateStderr ==> event is FileCreated && {
            &&& event->FileCreated_0 is Ok ==> to is CheckOut
            &&& event->FileCreated_0 is Err ==> to == TestStep::<E>::Finish(
                Err(event->FileCreated_0->Err_0),
            )
        },
        from is CheckOut ==> event is CheckedOut && {
            let checkout = event->CheckedOut_0;
            &&& checkout is Ok && checkout->Ok_0.success ==> to is FindWorkingCopy
            &&& checkout is Ok && !checkout->Ok_0.success ==> to == TestStep::<E>::ShowStatus(
                TestStatus::CheckoutFailed,
            )
            &&& checkout is Err ==> to == TestStep::<E>::Finish(Err(checkout->Err_0))
        },
        from is FindWorkingCopy ==> event is WorkingCopy && {
            &&& event->WorkingCopy_0 ==> to is RunCommand
            &&& !event->WorkingCopy_0 ==> to == TestStep::<E>::ShowStatus(
                TestStatus::CheckoutFailed,
            )
        },
        from is RunCommand ==> event is CommandEnded && {
            let outcome = event->CommandEnded_0;
            &&& outcome is Err ==> to == TestStep::<E>::ShowStatus(
                TestStatus::SpawnTestFailed(outcome->Err_0),
            )
            &&& outcome is Ok && outcome->Ok_0 is None ==> to == TestStep::<E>::ShowStatus(
                TestStatus::TerminatedBySignal,
            )
            &&& outcome is Ok && outcome->Ok_0 is Some && outcome->Ok_0->Some_0 == 0 ==> to
                == TestStep::<E>::Record(TestStatus::Passed)
            &&& outcome is Ok && outcome->Ok_0 is Some && outcome->Ok_0->Some_0 != 0 ==> to
                == TestStep::<E>::Record(TestStatus::Failed(outcome->Ok_0->Some_0))
        },
        from is Record ==> event is Recorded && {
            &&& event->Recorded_0 is Ok ==> to == TestStep::<E>::ShowStatus(from->Record_0)
            &&& event->Recorded_0 is Err ==> to == TestStep::<E>::Finish(
                Err(event->Recorded_0->Err_0),
            )
        },
        from is ShowStatus ==> event is Shown && {
            &&& event->Shown_0 is Ok ==> to == TestStep::<E>::Finish(Ok(from->ShowStatus_0))
            &&& event->Shown_0 is Err ==> to == TestStep::<E>::Finish(Err(event->Shown_0->Err_0))
        },
        !(from is Finish),
{
}

} // verus!
