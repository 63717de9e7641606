use branchless_test::describe::{Line, Segment};
use branchless_test::messages::Message;
use branchless_test::run::{
    abort_rebase_args, after_abort, after_abort_failure, after_describe_resolve_error,
    after_head_query, after_operation_query, after_refuse, after_resolve, after_sort,
    after_start_rebase, after_tests, GitOutcome, RebaseCommand, RebasePlan, RebaseResult, RunStep,
};
use branchless_test::style::TextStyle;

fn outcome(exit_code: isize) -> Result<GitOutcome, String> {
    Ok(GitOutcome {
        exit_code,
        success: exit_code == 0,
    })
}

type Step = RunStep<String, String>;

fn finished(step: Step) -> Result<isize, String> {
    match step {
        RunStep::Finish(result) => result,
        _ => panic!("expected the end of the run"),
    }
}

fn message(step: Step) -> Message {
    match step {
        RunStep::Refuse(message) => message,
        _ => panic!("expected a refusal"),
    }
}

fn text(line: &Line) -> (String, Option<TextStyle>) {
    assert_eq!(line.segments.len(), 1);
    match &line.segments[0] {
        Segment::Plain(text) => (text.clone(), None),
        Segment::Styled(text, style) => (text.clone(), Some(*style)),
        _ => panic!("expected text"),
    }
}

fn plain_lines(message: &Message) -> Vec<String> {
    let lines: Vec<(String, Option<TextStyle>)> = message.lines().iter().map(text).collect();
    assert!(lines.iter().all(|(_, style)| style.is_none()));
    lines.into_iter().map(|(text, _)| text).collect()
}

#[test]
fn commits_are_resolved_or_the_run_fails() {
    assert!(matches!(after_resolve::<String, String>(true), RunStep::QueryOperation));
    assert!(matches!(
        after_resolve::<String, String>(false),
        RunStep::DescribeResolveError
    ));
    assert_eq!(finished(after_describe_resolve_error(Ok(()))), Ok(1));
    assert_eq!(
        finished(after_describe_resolve_error(Err("pipe".to_string()))),
        Err("pipe".to_string())
    );
}

#[test]
fn operation_in_progress_is_refused() {
    assert!(matches!(
        after_operation_query::<String, String>(None),
        RunStep::QueryHead
    ));
    let message = message(after_operation_query(Some("merge".to_string())));
    assert_eq!(
        plain_lines(&message),
        vec![
            "A merge operation is already in progress.",
            "Run git merge --continue or git merge --abort to resolve it and proceed.",
        ]
    );
    assert_eq!(finished(after_refuse(Ok(()))), Ok(1));
    assert_eq!(
        finished(after_refuse(Err("pipe".to_string()))),
        Err("pipe".to_string())
    );
}

#[test]
fn head_without_commit_is_refused() {
    match after_head_query::<String, String>(Ok(Some("abc123".to_string()))) {
        RunStep::StartRebase(head_oid) => assert_eq!(head_oid, "abc123"),
        _ => panic!("expected the rebase to start"),
    }
    assert_eq!(
        plain_lines(&message(after_head_query(Ok(None)))),
        vec![
            "No commit is currently checked out; cannot start on-disk rebase.",
            "Check out a commit and try again.",
        ]
    );
    assert_eq!(
        finished(after_head_query(Err("bad repository".to_string()))),
        Err("bad repository".to_string())
    );
}

#[test]
fn abort_trap_plan() {
    let plan = RebasePlan::abort_trap("abc123".to_string());
    assert_eq!(plan.first_dest_oid, "abc123");
    assert_eq!(plan.commands, vec![RebaseCommand::Break]);
    assert!(plan.preserve_timestamps);
    assert!(!plan.force_in_memory);
    assert!(plan.force_on_disk);
    assert!(!plan.resolve_merge_conflicts);
    assert_eq!(abort_rebase_args(), vec!["rebase", "--abort"]);
}

#[test]
fn results_of_starting_the_rebase() {
    assert!(matches!(
        after_start_rebase::<String, String>(Ok(RebaseResult::Succeeded)),
        RunStep::SortCommits
    ));
    let conflict = after_start_rebase(Ok(RebaseResult::DeclinedToMerge("Info".to_string())));
    assert_eq!(
        plain_lines(&message(conflict)),
        vec!["BUG: Encountered unexpected merge conflict: Info"]
    );
    assert_eq!(
        finished(after_start_rebase(Ok(RebaseResult::Failed { exit_code: 128 }))),
        Ok(128)
    );
    assert_eq!(
        finished(after_start_rebase(Err("locked".to_string()))),
        Err("locked".to_string())
    );
}

#[test]
fn sorting_error_leaves_the_trap_set() {
    assert!(matches!(after_sort::<String, String>(Ok(())), RunStep::RunTests));
    assert_eq!(
        finished(after_sort(Err("no such commit".to_string()))),
        Err("no such commit".to_string())
    );
}

#[test]
fn trap_is_cleared_however_the_tests_end() {
    for tests in [Ok(0), Ok(1), Err("spawn".to_string())] {
        match after_tests::<String, String>(tests.clone()) {
            RunStep::AbortRebase(result) => assert_eq!(result, tests),
            _ => panic!("expected the trap to be cleared"),
        }
    }
}

#[test]
fn result_of_tests_is_result_of_run() {
    for tests in [Ok(0), Ok(1), Err("spawn".to_string())] {
        assert_eq!(finished(after_abort(tests.clone(), outcome(0))), tests);
    }
}

#[test]
fn failure_to_clear_the_trap_hides_the_tests() {
    for tests in [Ok(0), Err("spawn".to_string())] {
        match after_abort::<String, String>(tests.clone(), outcome(129)) {
            RunStep::ReportAbortFailure(exit_code) => assert_eq!(exit_code, 129),
            _ => panic!("expected a report"),
        }
        assert_eq!(
            finished(after_abort(tests, Err("no git".to_string()))),
            Err("no git".to_string())
        );
    }
    assert_eq!(finished(after_abort_failure(129, Ok(()))), Ok(129));
    assert_eq!(
        finished(after_abort_failure(129, Err("pipe".to_string()))),
        Err("pipe".to_string())
    );
}

/// A repository in which the tests check out commits of their own.
struct Repository {
    operation: Option<String>,
    head: String,
    orig_head: String,
}

/// Runs until the end, or up to the tests if the run is to be interrupted there. Gives the exit
/// code, if there is one, and whether a rebase was started.
fn run_in(repository: &mut Repository, interrupted: bool) -> (Option<isize>, bool) {
    let mut step: Step = RunStep::ResolveCommits;
    let mut started = false;
    loop {
        step = match step {
            RunStep::ResolveCommits => after_resolve(true),
            RunStep::DescribeResolveError => after_describe_resolve_error(Ok(())),
            RunStep::QueryOperation => after_operation_query(repository.operation.clone()),
            RunStep::QueryHead => after_head_query(Ok(Some(repository.head.clone()))),
            RunStep::StartRebase(head_oid) => {
                started = true;
                let plan = RebasePlan::abort_trap(head_oid);
                repository.operation = Some("rebase".to_string());
                repository.orig_head = plan.first_dest_oid;
                after_start_rebase(Ok(RebaseResult::Succeeded))
            }
            RunStep::Refuse(_) => after_refuse(Ok(())),
            RunStep::SortCommits => after_sort(Ok(())),
            RunStep::RunTests => {
                repository.head = "tested".to_string();
                if interrupted {
                    return (None, started);
                }
                after_tests(Ok(0))
            }
            RunStep::AbortRebase(tests) => {
                repository.operation = None;
                repository.head = repository.orig_head.clone();
                after_abort(tests, outcome(0))
            }
            RunStep::ReportAbortFailure(exit_code) => after_abort_failure(exit_code, Ok(())),
            RunStep::Finish(result) => return (Some(result.unwrap()), started),
        };
    }
}

fn repository() -> Repository {
    Repository {
        operation: None,
        head: "abc123".to_string(),
        orig_head: String::new(),
    }
}

#[test]
fn cleared_trap_brings_back_head() {
    let mut repository = repository();
    for _ in 0..2 {
        assert_eq!(run_in(&mut repository, false), (Some(0), true));
        assert_eq!(repository.operation, None);
        assert_eq!(repository.head, "abc123");
    }
}

#[test]
fn trap_of_interrupted_run_refuses_other_runs() {
    let mut repository = repository();
    assert_eq!(run_in(&mut repository, true), (None, true));
    assert_eq!(run_in(&mut repository, false), (Some(1), false));
    assert_eq!(repository.operation, Some("rebase".to_string()));
    assert_eq!(repository.head, "tested");
    assert_eq!(repository.orig_head, "abc123");
}

#[test]
fn error_messages_are_styled() {
    let lines = Message::CouldNotAbort.lines();
    assert_eq!(lines.len(), 1);
    assert_eq!(
        text(&lines[0]),
        (
            "Error: Could not abort tests with `git rebase --abort`.".to_string(),
            Some(TextStyle::Error)
        )
    );
    let lines = Message::NoShell.lines();
    assert_eq!(lines.len(), 1);
    assert_eq!(
        text(&lines[0]),
        (
            "Error: Could not determine path to shell.".to_string(),
            Some(TextStyle::Error)
        )
    );
}
