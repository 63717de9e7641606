//! What became of a test.
use vstd::prelude::*;
use vstd::string::StringExecFns;
use crate::text::{signed_decimal, signed_decimal_text};

verus! {

/// The possible results of attempting to run a test.
#[derive(Debug)]
pub enum TestStatus {
    /// Attempting to set up the working directory for the repository failed.
    CheckoutFailed,
    /// Invoking the test command failed.
    SpawnTestFailed(String),
    /// The test command was invoked successfully, but was terminated by a signal, rather than
    /// returning an exit code normally.
    TerminatedBySignal,
    /// It appears that some other process is already running the test for a commit with the given
    /// tree. (If that process crashed, then the test may need to be re-run.)
    AlreadyInProgress,
    /// Attempting to read cached data failed.
    ReadCacheFailed(String),
    /// The test failed and returned the provided (non-zero) exit code.
    Failed(i32),
    /// Like `Failed`, but the result was cached, so the test was not run again.
    FailedCached(i32),
    /// The test passed and returned a successful exit code.
    Passed,
    /// Like `Passed`, but the result was cached, so the test was not run again.
    PassedCached,
}

/// The three kinds of results that a summary counts.
#[derive(Clone, Copy, Debug, PartialEq, Eq, Structural)]
pub enum Verdict {
    Passed,
    Failed,
    Skipped,
}

/// The icon that a finished test leaves behind on the progress display.
#[derive(Clone, Copy, Debug, PartialEq, Eq, Structural)]
pub enum OperationIcon {
    Success,
    Failure,
    Warning,
}

/// `format!("{:?}", text)` for a string: the text in double quotes, with the characters escaped
/// that cannot be shown as they are.
pub uninterp spec fn quoted(text: Seq<char>) -> Seq<char>;

/// The debug format of a string, as the `Debug` implementation of `str` writes it.
#[verifier::external_body]
fn quoted_text(text: &str) -> (quotation: String)
    ensures
        quotation@ == quoted(text@),
{
    format!("{text:?}")
}

/// How a summary counts a result: a test that gave no exit code, now or in an earlier run, is
/// skipped.
pub open spec fn verdict_of(status: TestStatus) -> Verdict {
    match status {
        TestStatus::Passed | TestStatus::PassedCached => Verdict::Passed,
        TestStatus::Failed(_) | TestStatus::FailedCached(_) => Verdict::Failed,
        _ => Verdict::Skipped,
    }
}

/// The icon for a result: a test that a signal ended counts as skipped, but shows as a failure.
pub open spec fn icon_of(status: TestStatus) -> OperationIcon {
    if status is TerminatedBySignal {
        OperationIcon::Failure
    } else {
        match verdict_of(status) {
            Verdict::Passed => OperationIcon::Success,
            Verdict::Failed => OperationIcon::Failure,
            Verdict::Skipped => OperationIcon::Warning,
        }
    }
}

/// The name of a variant, followed by its value in parentheses.
pub open spec fn with_value(name: Seq<char>, value: Seq<char>) -> Seq<char> {
    name + "("@ + value + ")"@
}

/// The debug format of a result.
pub open spec fn debug_of(status: TestStatus) -> Seq<char> {
    match status {
        TestStatus::CheckoutFailed => "CheckoutFailed"@,
        TestStatus::SpawnTestFailed(err) => with_value("SpawnTestFailed"@, quoted(err@)),
        TestStatus::TerminatedBySignal => "TerminatedBySignal"@,
        TestStatus::AlreadyInProgress => "AlreadyInProgress"@,
        TestStatus::ReadCacheFailed(err) => with_value("ReadCacheFailed"@, quoted(err@)),
        TestStatus::Failed(exit_code) => with_value("Failed"@, signed_decimal(exit_code as int)),
        TestStatus::FailedCached(exit_code) => with_value(
            "FailedCached"@,
            signed_decimal(exit_code as int),
        ),
        TestStatus::Passed => "Passed"@,
        TestStatus::PassedCached => "PassedCached"@,
    }
}

/// The result of a test command that ended with the given exit code.
pub open spec fn status_of_exit_code(exit_code: i32) -> TestStatus {
    if exit_code == 0 {
        TestStatus::Passed
    } else {
        TestStatus::Failed(exit_code)
    }
}

/// The result of invoking a test command, which either could not be started, for the reason given,
/// or ended with an exit code, or ended without one.
pub open spec fn status_of_command(outcome: Result<Option<i32>, String>) -> TestStatus {
    match outcome {
        Err(err) => TestStatus::SpawnTestFailed(err),
        Ok(None) => TestStatus::TerminatedBySignal,
        Ok(Some(exit_code)) => status_of_exit_code(exit_code),
    }
}

/// Whether a result is written to the result file: only the results of a command that ended by
/// itself are.
pub open spec fn is_recorded(status: TestStatus) -> bool {
    status is Passed || status is Failed
}

/// Whether `status` is what a result file with the given contents stands for. The contents are
/// given as the result they hold, or as the reason why they hold none.
pub open spec fn is_status_of_record(
    record: Result<TestStatus, String>,
    status: TestStatus,
) -> bool {
    match record {
        Ok(TestStatus::Passed) => status == TestStatus::PassedCached,
        Ok(TestStatus::Failed(exit_code)) => status == TestStatus::FailedCached(exit_code),
        Ok(unexpected) => {
            &&& status is ReadCacheFailed
            &&& status->ReadCacheFailed_0@ == "Unexpected cached test result: "@ + debug_of(
                unexpected,
            )
        },
        Err(err) => status == TestStatus::ReadCacheFailed(err),
    }
}

/// Whether a result is one of those that a result file that was there already can give.
pub open spec fn is_from_file(status: TestStatus) -> bool {
    ||| status is PassedCached
    ||| status is FailedCached
    ||| status is ReadCacheFailed
    ||| status is AlreadyInProgress
}

/// Whether two results say the same.
pub open spec fn same_status(a: TestStatus, b: TestStatus) -> bool {
    match (a, b) {
        (TestStatus::SpawnTestFailed(x), TestStatus::SpawnTestFailed(y)) => x@ == y@,
        (TestStatus::ReadCacheFailed(x), TestStatus::ReadCacheFailed(y)) => x@ == y@,
        _ => a == b,
    }
}

/// Whether a later result is what becomes of an earlier one when the same test is asked for again:
/// a recorded result is read back, a result from the result file stays as it is, and any other has
/// left an empty result file behind.
pub open spec fn is_repeat_of(first: TestStatus, second: TestStatus) -> bool {
    if is_recorded(first) {
        is_status_of_record(Ok(first), second)
    } else if is_from_file(first) {
        same_status(first, second)
    } else {
        second == TestStatus::AlreadyInProgress
    }
}

/// What is known of a result file that was there already.
pub enum CacheRead {
    /// The result is known.
    Known(TestStatus),
    /// The contents are still to be decoded.
    Decode(String),
}

/// What follows from reading a result file: an empty one belongs to a test that has not recorded
/// its result.
pub open spec fn cache_read_of(read: Result<String, String>) -> CacheRead {
    match read {
        Err(err) => CacheRead::Known(TestStatus::ReadCacheFailed(err)),
        Ok(contents) => if contents@.len() == 0 {
            CacheRead::Known(TestStatus::AlreadyInProgress)
        } else {
            CacheRead::Decode(contents)
        },
    }
}

fn value_text(name: &str, value: &str) -> (text: String)
    ensures
        text@ == with_value(name@, value@),
{
    name.to_string().concat("(").concat(value).concat(")")
}

impl TestStatus {
    /// How a summary counts this result.
    pub fn verdict(&self) -> (verdict: Verdict)
        ensures
            verdict == verdict_of(*self),
    {
        match self {
            TestStatus::CheckoutFailed
            | TestStatus::SpawnTestFailed(_)
            | TestStatus::AlreadyInProgress
            | TestStatus::ReadCacheFailed(_)
            | TestStatus::TerminatedBySignal => Verdict::Skipped,
            TestStatus::Failed(_) | TestStatus::FailedCached(_) => Verdict::Failed,
            TestStatus::Passed | TestStatus::PassedCached => Verdict::Passed,
        }
    }

    /// The icon for this result.
    pub fn icon(&self) -> (icon: OperationIcon)
        ensures
            icon == icon_of(*self),
    {
        match self {
            TestStatus::CheckoutFailed
            | TestStatus::SpawnTestFailed(_)
            | TestStatus::AlreadyInProgress
            | TestStatus::ReadCacheFailed(_) => OperationIcon::Warning,
            TestStatus::TerminatedBySignal
            | TestStatus::Failed(_)
            | TestStatus::FailedCached(_) => OperationIcon::Failure,
            TestStatus::Passed | TestStatus::PassedCached => OperationIcon::Success,
        }
    }

    /// The debug format of this result.
    pub fn debug_text(&self) -> (text: String)
        ensures
            text@ == debug_of(*self),
    {
        match self {
            TestStatus::CheckoutFailed => "CheckoutFailed".to_string(),
            TestStatus::SpawnTestFailed(err) => value_text(
                "SpawnTestFailed",
                quoted_text(err.as_str()).as_str(),
            ),
            TestStatus::TerminatedBySignal => "TerminatedBySignal".to_string(),
            TestStatus::AlreadyInProgress => "AlreadyInProgress".to_string(),
            TestStatus::ReadCacheFailed(err) => value_text(
                "ReadCacheFailed",
                quoted_text(err.as_str()).as_str(),
            ),
            TestStatus::Failed(exit_code) => value_text(
                "Failed",
                signed_decimal_text(*exit_code).as_str(),
            ),
            TestStatus::FailedCached(exit_code) => value_text(
                "FailedCached",
                signed_decimal_text(*exit_code).as_str(),
            ),
            TestStatus::Passed => "Passed".to_string(),
            TestStatus::PassedCached => "PassedCached".to_string(),
        }
    }

    /// The result of invoking a test command, which either could not be started, for the reason
    /// given, or ended with an exit code, or ended without one.
    pub fn from_command(outcome: Result<Option<i32>, String>) -> (status: TestStatus)
        ensures
            status == status_of_command(outcome),
    {
        match outcome {
            Err(err) => TestStatus::SpawnTestFailed(err),
            Ok(None) => TestStatus::TerminatedBySignal,
            Ok(Some(exit_code)) => if exit_code == 0 {
                TestStatus::Passed
            } else {
                TestStatus::Failed(exit_code)
            },
        }
    }

    /// Whether this result is written to the result file.
    pub fn recorded(&self) -> (recorded: bool)
        ensures
            recorded == is_recorded(*self),
    {
        match self {
            TestStatus::Passed | TestStatus::Failed(_) => true,
            _ => false,
        }
    }

    /// The result that a decoded result file stands for.
    pub fn from_record(record: Result<TestStatus, String>) -> (status: TestStatus)
        ensures
            is_status_of_record(record, status),
    {
        match record {
            Ok(TestStatus::Passed) => TestStatus::PassedCached,
            Ok(TestStatus::Failed(exit_code)) => TestStatus::FailedCached(exit_code),
            Ok(unexpected) => TestStatus::ReadCacheFailed(
                "Unexpected cached test result: ".to_string().concat(
                    unexpected.debug_text().as_str(),
                ),
            ),
            Err(err) => TestStatus::ReadCacheFailed(err),
        }
    }
}

/// Decides what a result file that could not be created stands for, as far as its contents need
/// not be decoded.
pub fn read_cache(read: Result<String, String>) -> (known: CacheRead)
    ensures
        known == cache_read_of(read),
{
    match read {
        Err(err) => CacheRead::Known(TestStatus::ReadCacheFailed(err)),
        Ok(contents) => if contents.as_str().is_empty() {
            CacheRead::Known(TestStatus::AlreadyInProgress)
        } else {
            CacheRead::Decode(contents)
        },
    }
}

/// A recorded result is read back as its cached counterpart: with the same exit code, counted in
/// the same way and shown with the same icon.
pub proof fn law_record_is_read_back(recorded: TestStatus, cached: TestStatus)
    requires
        is_recorded(recorded),
        is_status_of_record(Ok(recorded), cached),
    ensures
        recorded is Passed ==> cached == TestStatus::PassedCached,
        recorded is Failed ==> cached == TestStatus::FailedCached(recorded->Failed_0),
        verdict_of(cached) == verdict_of(recorded),
        icon_of(cached) == icon_of(recorded),
{
}

/// A record that holds no recorded result, or cannot be decoded, always reads as a failure to read
/// the cache, never as a result.
pub proof fn law_other_records_are_refused(record: Result<TestStatus, String>, status: TestStatus)
    requires
        is_status_of_record(record, status),
        record is Ok ==> !is_recorded(record->Ok_0),
    ensures
        status is ReadCacheFailed,
        verdict_of(status) == Verdict::Skipped,
{
}

/// A command passes exactly if it ends with exit code zero, fails with every other exit code, and
/// is skipped if it gives none. Exactly the results that an exit code decided are recorded.
pub proof fn law_exit_code_decides(outcome: Result<Option<i32>, String>)
    ensures
        verdict_of(status_of_command(outcome)) is Passed <==> outcome == Ok::<_, String>(
            Some(0i32),
        ),
        verdict_of(status_of_command(outcome)) is Skipped <==> outcome is Err || outcome->Ok_0
            is None,
        status_of_command(outcome) is Failed ==> status_of_command(outcome)->Failed_0 != 0
            && outcome == Ok::<_, String>(Some(status_of_command(outcome)->Failed_0)),
        is_recorded(status_of_command(outcome)) <==> outcome is Ok && outcome->Ok_0 is Some,
{
}

/// As long as nothing has been written to a result file, every other run takes the test to be in
/// progress.
pub proof fn law_empty_file_is_in_progress(contents: String)
    ensures
        cache_read_of(Ok(contents)) == CacheRead::Known(TestStatus::AlreadyInProgress)
            <==> contents@.len() == 0,
{
}

/// Asking for a test again gives a result from the result file that counts as the first one did.
pub proof fn law_repeat_keeps_verdict(first: TestStatus, second: TestStatus)
    requires
        is_repeat_of(first, second),
    ensures
        is_from_file(second),
        verdict_of(second) == verdict_of(first),
{
}

/// Each result counts in one way: a test passed if its command ended with exit code zero, failed if
/// it ended with any other, now or in an earlier run, and was skipped if no exit code is known.
pub proof fn law_verdict(status: TestStatus)
    ensures
        verdict_of(status) == Verdict::Passed <==> status is Passed || status is PassedCached,
        verdict_of(status) == Verdict::Failed <==> status is Failed || status is FailedCached,
        verdict_of(status) == Verdict::Skipped <==> status is CheckoutFailed || status
            is SpawnTestFailed || status is TerminatedBySignal || status is AlreadyInProgress
            || status is ReadCacheFailed,
{
}

/// The icon marks success exactly if the test passed, and failure if it failed, whatever the exit
/// code, or was ended by a signal. Every other result is marked by a warning.
pub proof fn law_icon(status: TestStatus)
    ensures
        icon_of(status) == OperationIcon::Success <==> status is Passed || status is PassedCached,
        icon_of(status) == OperationIcon::Failure <==> status is Failed || status is FailedCached
            || status is TerminatedBySignal,
        icon_of(status) == OperationIcon::Warning <==> status is CheckoutFailed || status
            is SpawnTestFailed || status is AlreadyInProgress || status is ReadCacheFailed,
        icon_of(status) == OperationIcon::Success <==> verdict_of(status) == Verdict::Passed,
        verdict_of(status) == Verdict::Failed ==> icon_of(status) == OperationIcon::Failure,
{
}

/// The debug format names the variant of a result, followed by its value in parentheses if it has
/// one: an exit code in decimal, or a text in quotes.
pub proof fn law_debug_text(status: TestStatus)
    ensures
        status is CheckoutFailed ==> debug_of(status) == "CheckoutFailed"@,
        status is SpawnTestFailed ==> debug_of(status) == "SpawnTestFailed"@ + "("@ + quoted(
            status->SpawnTestFailed_0@,
        ) + ")"@,
        status is TerminatedBySignal ==> debug_of(status) == "TerminatedBySignal"@,
        status is AlreadyInProgress ==> debug_of(status) == "AlreadyInProgress"@,
        status is ReadCacheFailed ==> debug_of(status) == "ReadCacheFailed"@ + "("@ + quoted(
            status->ReadCacheFailed_0@,
        ) + ")"@,
        status is Failed ==> debug_of(status) == "Failed"@ + "("@ + signed_decimal(
            status->Failed_0 as int,
        ) + ")"@,
        status is FailedCached ==> debug_of(status) == "FailedCached"@ + "("@ + signed_decimal(
            status->FailedCached_0 as int,
        ) + ")"@,
        status is Passed ==> debug_of(status) == "Passed"@,
        status is PassedCached ==> debug_of(status) == "PassedCached"@,
{
}

/// What a command comes to: it passes with exit code zero, fails with the exit code that it gave,
/// and otherwise keeps the reason why there is none.
pub proof fn law_status_of_command(outcome: Result<Option<i32>, String>)
    ensures
        outcome is Err ==> status_of_command(outcome) == TestStatus::SpawnTestFailed(
            outcome->Err_0,
        ),
        outcome is Ok && outcome->Ok_0 is None ==> status_of_command(outcome)
            == TestStatus::TerminatedBySignal,
        outcome is Ok && outcome->Ok_0 is Some && outcome->Ok_0->Some_0 == 0 ==> status_of_command(
            outcome,
        ) == TestStatus::Passed,
        outcome is Ok && outcome->Ok_0 is Some && outcome->Ok_0->Some_0 != 0 ==> status_of_command(
            outcome,
        ) == TestStatus::Failed(outcome->Ok_0->Some_0),
{
}

/// Which results are written to the result file, and which an existing file can give.
pub proof fn law_recorded_results(status: TestStatus)
    ensures
        is_recorded(status) <==> status is Passed || status is Failed,
        is_from_file(status) <==> status is PassedCached || status is FailedCached || status
            is ReadCacheFailed || status is AlreadyInProgress,
{
}

/// What a decoded record comes to: only a pass and a failure are taken from it, and a failure keeps
/// its exit code. The reason for refusing anything else names what was found.
pub proof fn law_status_of_record(record: Result<TestStatus, String>, status: TestStatus)
    requires
        is_status_of_record(record, status),
    ensures
        record is Ok && record->Ok_0 is Passed <==> status is PassedCached,
        record is Ok && record->Ok_0 is Failed <==> status is FailedCached,
        status is FailedCached ==> record->Ok_0->Failed_0 == status->FailedCached_0,
        !(status is PassedCached) && !(status is FailedCached) ==> status is ReadCacheFailed,
        record is Err ==> status->ReadCacheFailed_0 == record->Err_0,
        record is Ok && status is ReadCacheFailed ==> status->ReadCacheFailed_0@
            == "Unexpected cached test result: "@ + debug_of(record->Ok_0),
{
}

/// What reading a result file comes to: a failure keeps its reason, an empty file belongs to a test
/// in progress, and any other is to be decoded as it is.
pub proof fn law_cache_read(read: Result<String, String>)
    ensures
        read is Err ==> cache_read_of(read) == CacheRead::Known(
            TestStatus::ReadCacheFailed(read->Err_0),
        ),
        read is Ok && read->Ok_0@.len() == 0 ==> cache_read_of(read) == CacheRead::Known(
            TestStatus::AlreadyInProgress,
        ),
        read is Ok && read->Ok_0@.len() > 0 ==> cache_read_of(read) == CacheRead::Decode(
            read->Ok_0,
        ),
{
}

} // verus!
