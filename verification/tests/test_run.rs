use branchless_test::options::{TestOptions, Verbosity};
use branchless_test::run::GitOutcome;
use branchless_test::status::TestStatus;
use branchless_test::test_run::{
    after_check_out, after_command, after_command_dir, after_create_result, after_decode,
    after_progress, after_read, after_record, after_show, after_stderr, after_stdout, after_tree,
    after_tree_dir, after_working_copy, checkout_args, shell_args, TestStep, RESULT_FILE,
    STDERR_FILE, STDOUT_FILE,
};

type Step = TestStep<String>;

fn options() -> TestOptions {
    TestOptions {
        command: "make -C a/b test".to_string(),
        verbosity: Verbosity::PartialOutput,
    }
}

fn name(step: &Step) -> String {
    match step {
        TestStep::StartProgress => "start progress".to_string(),
        TestStep::CreateCommandDir(slug) => format!("create command dir {slug}"),
        TestStep::LookUpTree => "look up tree".to_string(),
        TestStep::CreateTreeDir(tree_oid) => format!("create tree dir {tree_oid}"),
        TestStep::CreateResult => "create result".to_string(),
        TestStep::ReadResult => "read result".to_string(),
        TestStep::DecodeResult(contents) => format!("decode {contents}"),
        TestStep::CreateStdout => "create stdout".to_string(),
        TestStep::CreateStderr => "create stderr".to_string(),
        TestStep::CheckOut => "check out".to_string(),
        TestStep::FindWorkingCopy => "find working copy".to_string(),
        TestStep::RunCommand => "run command".to_string(),
        TestStep::Record(status) => format!("record {status:?}"),
        TestStep::ShowStatus(status) => format!("show {status:?}"),
        TestStep::Finish(result) => format!("finish {result:?}"),
    }
}

/// A world in which a result file may hold the name of a status.
struct World {
    result_file: Option<String>,
    checkout: GitOutcome,
    stdout: Result<(), String>,
    working_copy: bool,
    command: Result<Option<i32>, String>,
}

fn world(command: Result<Option<i32>, String>) -> World {
    World {
        result_file: None,
        checkout: GitOutcome {
            exit_code: 0,
            success: true,
        },
        stdout: Ok(()),
        working_copy: true,
        command,
    }
}

fn decode(contents: &str) -> Result<TestStatus, String> {
    match contents.strip_prefix("Failed ") {
        Some(exit_code) => Ok(TestStatus::Failed(exit_code.parse().unwrap())),
        None if contents == "Passed" => Ok(TestStatus::Passed),
        None => Err("unknown status".to_string()),
    }
}

fn encode(status: &TestStatus) -> String {
    match status {
        TestStatus::Failed(exit_code) => format!("Failed {exit_code}"),
        TestStatus::Passed => "Passed".to_string(),
        _ => panic!("not a recorded status"),
    }
}

fn test(world: &mut World) -> Vec<String> {
    let mut step: Step = TestStep::StartProgress;
    let mut names = Vec::new();
    loop {
        names.push(name(&step));
        step = match step {
            TestStep::StartProgress => after_progress(&options(), Ok(())),
            TestStep::CreateCommandDir(_) => after_command_dir(Ok(())),
            TestStep::LookUpTree => after_tree(Ok("t1".to_string())),
            TestStep::CreateTreeDir(_) => after_tree_dir(Ok(())),
            TestStep::CreateResult => {
                let created = world.result_file.is_none();
                if created {
                    world.result_file = Some(String::new());
                }
                after_create_result(created)
            }
            TestStep::ReadResult => after_read(Ok(world.result_file.clone().unwrap())),
            TestStep::DecodeResult(contents) => after_decode(decode(&contents)),
            TestStep::CreateStdout => after_stdout(world.stdout.clone()),
            TestStep::CreateStderr => after_stderr(Ok(())),
            TestStep::CheckOut => after_check_out(Ok(world.checkout)),
            TestStep::FindWorkingCopy => after_working_copy(world.working_copy),
            TestStep::RunCommand => after_command(world.command.clone()),
            TestStep::Record(status) => {
                world.result_file = Some(encode(&status));
                after_record(status, Ok(()))
            }
            TestStep::ShowStatus(status) => after_show(status, Ok(())),
            TestStep::Finish(_) => return names,
        };
    }
}

const SETUP: [&str; 5] = [
    "start progress",
    "create command dir make_-C_a_b_test",
    "look up tree",
    "create tree dir t1",
    "create result",
];

fn after_setup(steps: Vec<String>) -> Vec<String> {
    assert_eq!(steps[..5], SETUP);
    steps[5..].to_vec()
}

#[test]
fn first_test_is_run_and_recorded() {
    let mut world = world(Ok(Some(2)));
    assert_eq!(
        after_setup(test(&mut world)),
        vec![
            "create stdout",
            "create stderr",
            "check out",
            "find working copy",
            "run command",
            "record Failed(2)",
            "show Failed(2)",
            "finish Ok(Failed(2))",
        ]
    );
    assert_eq!(world.result_file, Some("Failed 2".to_string()));
}

#[test]
fn second_test_reads_the_record() {
    let mut failed = world(Ok(Some(2)));
    test(&mut failed);
    assert_eq!(
        after_setup(test(&mut failed)),
        vec![
            "read result",
            "decode Failed 2",
            "show FailedCached(2)",
            "finish Ok(FailedCached(2))",
        ]
    );
    let mut passed = world(Ok(Some(0)));
    test(&mut passed);
    assert_eq!(
        after_setup(test(&mut passed)),
        vec![
            "read result",
            "decode Passed",
            "show PassedCached",
            "finish Ok(PassedCached)",
        ]
    );
}

#[test]
fn unrecorded_test_seems_in_progress() {
    for command in [Ok(None), Err("not found".to_string())] {
        let mut world = world(command);
        let first = after_setup(test(&mut world));
        assert!(first.iter().all(|step| !step.starts_with("record")));
        assert_eq!(world.result_file, Some(String::new()));
        assert_eq!(
            after_setup(test(&mut world)),
            vec!["read result", "show AlreadyInProgress", "finish Ok(AlreadyInProgress)"]
        );
    }
}

#[test]
fn repeated_tests_only_read_their_files() {
    for command in [Ok(Some(0)), Ok(Some(9)), Ok(None), Err("not found".to_string())] {
        let mut world = world(command);
        test(&mut world);
        let left = world.result_file.clone();
        let second = test(&mut world);
        let third = test(&mut world);
        assert_eq!(second, third);
        assert_eq!(world.result_file, left);
        assert!(!second.contains(&"check out".to_string()));
        assert!(!second.contains(&"run command".to_string()));
    }
}

#[test]
fn unfinished_test_seems_in_progress() {
    let mut world = world(Ok(Some(0)));
    world.stdout = Err("disk full".to_string());
    assert_eq!(
        after_setup(test(&mut world)),
        vec!["create stdout", "finish Err(\"disk full\")"]
    );
    assert_eq!(world.result_file, Some(String::new()));
    assert_eq!(
        after_setup(test(&mut world)),
        vec!["read result", "show AlreadyInProgress", "finish Ok(AlreadyInProgress)"]
    );
}

#[test]
fn only_one_of_many_tests_runs() {
    let mut world = world(Ok(Some(0)));
    let runs: Vec<bool> = (0..4)
        .map(|_| test(&mut world).contains(&"run command".to_string()))
        .collect();
    assert_eq!(runs, vec![true, false, false, false]);
}

#[test]
fn failed_checkout_is_not_tested() {
    let mut failed = world(Ok(Some(0)));
    failed.checkout = GitOutcome {
        exit_code: 1,
        success: false,
    };
    assert_eq!(
        after_setup(test(&mut failed)),
        vec![
            "create stdout",
            "create stderr",
            "check out",
            "show CheckoutFailed",
            "finish Ok(CheckoutFailed)",
        ]
    );
    let mut bare = world(Ok(Some(0)));
    bare.working_copy = false;
    assert_eq!(
        after_setup(test(&mut bare)),
        vec![
            "create stdout",
            "create stderr",
            "check out",
            "find working copy",
            "show CheckoutFailed",
            "finish Ok(CheckoutFailed)",
        ]
    );
}

#[test]
fn unreadable_results_are_shown() {
    let step: Step = after_read(Err("permission denied".to_string()));
    assert_eq!(name(&step), "show ReadCacheFailed(\"permission denied\")");
    let step: Step = after_decode(Err("bad record".to_string()));
    assert_eq!(name(&step), "show ReadCacheFailed(\"bad record\")");
    let step: Step = after_decode(Ok(TestStatus::CheckoutFailed));
    assert_eq!(
        name(&step),
        "show ReadCacheFailed(\"Unexpected cached test result: CheckoutFailed\")"
    );
}

#[test]
fn errors_end_the_test() {
    let error = || Err("broken".to_string());
    let steps: Vec<Step> = vec![
        after_progress(&options(), error()),
        after_command_dir(error()),
        after_tree(Err("broken".to_string())),
        after_tree_dir(error()),
        after_stdout(error()),
        after_stderr(error()),
        after_check_out(Err("broken".to_string())),
        after_record(TestStatus::Passed, error()),
        after_show(TestStatus::Passed, error()),
    ];
    for step in steps {
        assert_eq!(name(&step), "finish Err(\"broken\")");
    }
}

#[test]
fn commands_of_a_test() {
    assert_eq!(shell_args(&options()), vec!["-c", "make -C a/b test"]);
    assert_eq!(checkout_args("abc123".to_string()), vec!["checkout", "abc123"]);
}

#[test]
fn files_of_a_test() {
    assert_eq!(RESULT_FILE, "result");
    assert_eq!(STDOUT_FILE, "stdout");
    assert_eq!(STDERR_FILE, "stderr");
}
