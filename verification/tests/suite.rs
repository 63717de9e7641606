use branchless_test::describe::{Segment, TestOutput};
use branchless_test::status::TestStatus;
use branchless_test::style::TextStyle;
use branchless_test::suite::{
    after_find_shell, after_header, after_no_shell, after_result, after_summary, after_test,
    header_line, tally, SuiteStep, Tally,
};

fn name(step: &SuiteStep<String>) -> String {
    match step {
        SuiteStep::FindShell => "find shell".to_string(),
        SuiteStep::ReportNoShell => "no shell".to_string(),
        SuiteStep::RunTest(index) => format!("test {index}"),
        SuiteStep::ReportHeader => "header".to_string(),
        SuiteStep::ReportResult(index) => format!("result {index}"),
        SuiteStep::ReportSummary => "summary".to_string(),
        SuiteStep::Finish(result) => format!("finish {result:?}"),
    }
}

/// The steps of tests in which all outside work succeeds.
fn steps(total: usize, tally: Tally) -> Vec<String> {
    let mut step: SuiteStep<String> = SuiteStep::FindShell;
    let mut names = Vec::new();
    loop {
        names.push(name(&step));
        step = match step {
            SuiteStep::FindShell => after_find_shell(true, total),
            SuiteStep::ReportNoShell => after_no_shell(Ok(())),
            SuiteStep::RunTest(index) => after_test(index, total, Ok(())),
            SuiteStep::ReportHeader => after_header(total, Ok(())),
            SuiteStep::ReportResult(index) => after_result(index, total, Ok(())),
            SuiteStep::ReportSummary => after_summary(tally, Ok(())),
            SuiteStep::Finish(_) => return names,
        };
    }
}

fn outputs(statuses: Vec<TestStatus>) -> Vec<TestOutput> {
    statuses
        .into_iter()
        .map(|test_status| TestOutput {
            result_path: "result".to_string(),
            stdout_path: "stdout".to_string(),
            stderr_path: "stderr".to_string(),
            test_status,
        })
        .collect()
}

const ALL_PASSED: Tally = Tally {
    passed: 2,
    failed: 0,
    skipped: 0,
};

#[test]
fn results_are_counted() {
    let outputs = outputs(vec![
        TestStatus::Passed,
        TestStatus::Failed(1),
        TestStatus::PassedCached,
        TestStatus::TerminatedBySignal,
        TestStatus::FailedCached(2),
        TestStatus::CheckoutFailed,
        TestStatus::SpawnTestFailed(String::new()),
        TestStatus::AlreadyInProgress,
        TestStatus::ReadCacheFailed(String::new()),
        TestStatus::Passed,
    ]);
    let counted = tally(&outputs);
    assert_eq!(
        counted,
        Tally {
            passed: 3,
            failed: 2,
            skipped: 5
        }
    );
    assert_eq!(counted.passed + counted.failed + counted.skipped, outputs.len());
    assert_eq!(
        tally(&Vec::new()),
        Tally {
            passed: 0,
            failed: 0,
            skipped: 0
        }
    );
}

#[test]
fn repeated_results_repeat_counts() {
    let first = outputs(vec![
        TestStatus::Passed,
        TestStatus::Failed(3),
        TestStatus::TerminatedBySignal,
        TestStatus::CheckoutFailed,
        TestStatus::PassedCached,
        TestStatus::ReadCacheFailed("bad record".to_string()),
    ]);
    let second = outputs(vec![
        TestStatus::from_record(Ok(TestStatus::Passed)),
        TestStatus::from_record(Ok(TestStatus::Failed(3))),
        TestStatus::AlreadyInProgress,
        TestStatus::AlreadyInProgress,
        TestStatus::PassedCached,
        TestStatus::ReadCacheFailed("bad record".to_string()),
    ]);
    assert_eq!(tally(&second), tally(&first));
    assert_eq!(
        tally(&second),
        Tally {
            passed: 2,
            failed: 1,
            skipped: 3
        }
    );
    assert_eq!(tally(&second).exit_code(), tally(&first).exit_code());
}

#[test]
fn exit_code_is_zero_only_if_all_passed() {
    assert_eq!(tally(&outputs(vec![TestStatus::Passed, TestStatus::PassedCached])).exit_code(), 0);
    assert_eq!(tally(&Vec::new()).exit_code(), 0);
    assert_eq!(tally(&outputs(vec![TestStatus::Passed, TestStatus::Failed(3)])).exit_code(), 1);
    assert_eq!(
        tally(&outputs(vec![TestStatus::AlreadyInProgress, TestStatus::Passed])).exit_code(),
        1
    );
}

#[test]
fn header_names_command_and_commits() {
    let line = header_line(&"cargo test".to_string(), 3);
    assert_eq!(line.segments.len(), 5);
    assert!(matches!(&line.segments[0], Segment::Plain(text) if text == "Ran "));
    assert!(
        matches!(&line.segments[1], Segment::Styled(text, TextStyle::Bold) if text == "cargo test")
    );
    assert!(matches!(&line.segments[2], Segment::Plain(text) if text == " on "));
    assert!(
        matches!(&line.segments[3], Segment::Count { amount: 3, singular, plural }
            if singular == "commit" && plural == "commits")
    );
    assert!(matches!(&line.segments[4], Segment::Plain(text) if text == ":"));
}

#[test]
fn summary_names_the_counts() {
    let tally = Tally {
        passed: 12,
        failed: 0,
        skipped: 1,
    };
    let line = tally.summary_line();
    assert_eq!(line.segments.len(), 5);
    assert!(matches!(&line.segments[0],
        Segment::Styled(text, TextStyle::Success) if text == "12 passed"));
    assert!(matches!(&line.segments[1], Segment::Plain(text) if text == ", "));
    assert!(matches!(&line.segments[2],
        Segment::Styled(text, TextStyle::Failure) if text == "0 failed"));
    assert!(matches!(&line.segments[3], Segment::Plain(text) if text == ", "));
    assert!(matches!(&line.segments[4],
        Segment::Styled(text, TextStyle::Skipped) if text == "1 skipped"));
}

#[test]
fn every_commit_is_tested_then_shown() {
    assert_eq!(
        steps(2, ALL_PASSED),
        vec![
            "find shell",
            "test 0",
            "test 1",
            "header",
            "result 0",
            "result 1",
            "summary",
            "finish Ok(0)",
        ]
    );
}

#[test]
fn no_commits_still_give_a_summary() {
    assert_eq!(
        steps(0, tally(&Vec::new())),
        vec!["find shell", "header", "summary", "finish Ok(0)"]
    );
}

#[test]
fn missing_shell_is_a_failure() {
    assert_eq!(name(&after_find_shell(false, 2)), "no shell");
    assert_eq!(name(&after_no_shell(Ok(()))), "finish Ok(1)");
    assert_eq!(
        name(&after_no_shell(Err("pipe".to_string()))),
        "finish Err(\"pipe\")"
    );
}

#[test]
fn errors_end_the_tests() {
    let error = || Err("broken".to_string());
    let finish = "finish Err(\"broken\")";
    assert_eq!(name(&after_test(0, 2, error())), finish);
    assert_eq!(name(&after_header(2, error())), finish);
    assert_eq!(name(&after_result(1, 2, error())), finish);
    assert_eq!(name(&after_summary(ALL_PASSED, error())), finish);
}

#[test]
fn failures_give_an_exit_code_of_one() {
    let failed = Tally {
        passed: 1,
        failed: 1,
        skipped: 0,
    };
    assert_eq!(name(&after_summary(failed, Ok(()))), "finish Ok(1)");
}
