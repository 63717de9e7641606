use branchless_test::status::{read_cache, CacheRead, OperationIcon, TestStatus, Verdict};

fn all_statuses() -> Vec<TestStatus> {
    vec![
        TestStatus::CheckoutFailed,
        TestStatus::SpawnTestFailed("no \"shell\"\n".to_string()),
        TestStatus::TerminatedBySignal,
        TestStatus::AlreadyInProgress,
        TestStatus::ReadCacheFailed("tab\there".to_string()),
        TestStatus::Failed(-3),
        TestStatus::FailedCached(101),
        TestStatus::Passed,
        TestStatus::PassedCached,
    ]
}

#[test]
fn verdict_of_each_status() {
    let verdicts: Vec<Verdict> = all_statuses().iter().map(|s| s.verdict()).collect();
    assert_eq!(
        verdicts,
        vec![
            Verdict::Skipped,
            Verdict::Skipped,
            Verdict::Skipped,
            Verdict::Skipped,
            Verdict::Skipped,
            Verdict::Failed,
            Verdict::Failed,
            Verdict::Passed,
            Verdict::Passed,
        ]
    );
}

#[test]
fn icon_of_each_status() {
    let icons: Vec<OperationIcon> = all_statuses().iter().map(|s| s.icon()).collect();
    assert_eq!(
        icons,
        vec![
            OperationIcon::Warning,
            OperationIcon::Warning,
            OperationIcon::Failure,
            OperationIcon::Warning,
            OperationIcon::Warning,
            OperationIcon::Failure,
            OperationIcon::Failure,
            OperationIcon::Success,
            OperationIcon::Success,
        ]
    );
}

#[test]
fn debug_text_of_each_status() {
    assert_eq!(
        all_statuses()[1].debug_text(),
        "SpawnTestFailed(\"no \\\"shell\\\"\\n\")"
    );
    assert_eq!(all_statuses()[5].debug_text(), "Failed(-3)");
    for status in all_statuses() {
        assert_eq!(status.debug_text(), format!("{status:?}"));
    }
}

#[test]
fn status_of_command() {
    assert!(matches!(
        TestStatus::from_command(Ok(Some(0))),
        TestStatus::Passed
    ));
    assert!(matches!(
        TestStatus::from_command(Ok(Some(1))),
        TestStatus::Failed(1)
    ));
    assert!(matches!(
        TestStatus::from_command(Ok(Some(-1))),
        TestStatus::Failed(-1)
    ));
    assert!(matches!(
        TestStatus::from_command(Ok(None)),
        TestStatus::TerminatedBySignal
    ));
    match TestStatus::from_command(Err("not found".to_string())) {
        TestStatus::SpawnTestFailed(err) => assert_eq!(err, "not found"),
        status => panic!("unexpected status {status:?}"),
    }
}

#[test]
fn only_exit_codes_are_recorded() {
    let recorded: Vec<bool> = all_statuses().iter().map(|s| s.recorded()).collect();
    assert_eq!(
        recorded,
        vec![false, false, false, false, false, true, false, true, false]
    );
}

#[test]
fn recorded_results_are_read_back() {
    assert!(matches!(
        TestStatus::from_record(Ok(TestStatus::Passed)),
        TestStatus::PassedCached
    ));
    assert!(matches!(
        TestStatus::from_record(Ok(TestStatus::Failed(42))),
        TestStatus::FailedCached(42)
    ));
    for exit_code in [0, 1, 127, -9] {
        let first = TestStatus::from_command(Ok(Some(exit_code)));
        let verdict = first.verdict();
        let icon = first.icon();
        let second = TestStatus::from_record(Ok(first));
        assert_eq!(second.verdict(), verdict);
        assert_eq!(second.icon(), icon);
    }
}

#[test]
fn unexpected_records_are_refused() {
    let message = |record| match TestStatus::from_record(record) {
        TestStatus::ReadCacheFailed(message) => message,
        status => panic!("unexpected status {status:?}"),
    };
    assert_eq!(
        message(Ok(TestStatus::AlreadyInProgress)),
        "Unexpected cached test result: AlreadyInProgress"
    );
    assert_eq!(
        message(Ok(TestStatus::FailedCached(7))),
        "Unexpected cached test result: FailedCached(7)"
    );
    assert_eq!(
        message(Ok(TestStatus::SpawnTestFailed("a\"b".to_string()))),
        "Unexpected cached test result: SpawnTestFailed(\"a\\\"b\")"
    );
    for status in all_statuses() {
        if !status.recorded() {
            let expected = format!("Unexpected cached test result: {status:?}");
            assert_eq!(message(Ok(status)), expected);
        }
    }
    assert_eq!(message(Err("EOF while parsing".to_string())), "EOF while parsing");
}

#[test]
fn cache_reads() {
    assert!(matches!(
        read_cache(Ok(String::new())),
        CacheRead::Known(TestStatus::AlreadyInProgress)
    ));
    match read_cache(Err("permission denied".to_string())) {
        CacheRead::Known(TestStatus::ReadCacheFailed(err)) => assert_eq!(err, "permission denied"),
        _ => panic!("expected a failed read"),
    }
    match read_cache(Ok("\"Passed\"".to_string())) {
        CacheRead::Decode(contents) => assert_eq!(contents, "\"Passed\""),
        _ => panic!("expected contents"),
    }
}
