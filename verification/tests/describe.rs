use branchless_test::describe::{
    abbreviate_lines, Description, Icons, Line, Segment, TestOutput,
};
use branchless_test::options::Verbosity;
use branchless_test::status::TestStatus;
use branchless_test::style::TextStyle;

fn icons() -> Icons {
    Icons {
        checkmark: "v".to_string(),
        exclamation: "!".to_string(),
        cross: "X".to_string(),
    }
}

fn output(test_status: TestStatus) -> TestOutput {
    TestOutput {
        result_path: "dir/result".to_string(),
        stdout_path: "dir/stdout".to_string(),
        stderr_path: "dir/stderr".to_string(),
        test_status,
    }
}

fn numbered(n: usize) -> String {
    (1..=n).map(|i| format!("line {i}\n")).collect()
}

/// Writes a line out, with the style of each piece in front of it.
fn shown(line: &Line) -> String {
    line.segments
        .iter()
        .map(|segment| match segment {
            Segment::Plain(text) => text.clone(),
            Segment::Styled(text, style) => format!("[{style:?}]{text}"),
            Segment::Commit => "[commit]".to_string(),
            Segment::Count {
                amount,
                singular,
                plural,
            } => format!("[{amount} {singular}/{plural}]"),
        })
        .collect()
}

fn headline(status: TestStatus) -> String {
    match output(status).describe(&icons(), Verbosity::NoOutput, None, None) {
        Description::Headline(line) => {
            assert!(matches!(line.segments[1], Segment::Commit));
            shown(&line)
        }
        Description::Lines(_) => panic!("expected a headline"),
    }
}

#[test]
fn headline_of_each_status() {
    assert_eq!(
        headline(TestStatus::CheckoutFailed),
        "[Skipped]! Failed to check out: [commit]\n"
    );
    assert_eq!(
        headline(TestStatus::SpawnTestFailed("no shell".to_string())),
        "[Skipped]! Failed to spawn test: no shell: [commit]\n"
    );
    assert_eq!(
        headline(TestStatus::TerminatedBySignal),
        "[Failure]X Test command terminated by signal: [commit]\n"
    );
    assert_eq!(
        headline(TestStatus::AlreadyInProgress),
        "[Skipped]! Test already in progress? [commit]\n"
    );
    assert_eq!(
        headline(TestStatus::ReadCacheFailed("ignored".to_string())),
        "[Skipped]! Could not read cached test result: [commit]\n"
    );
    assert_eq!(
        headline(TestStatus::Failed(1)),
        "[Failure]X Failed with exit code 1: [commit]\n"
    );
    assert_eq!(
        headline(TestStatus::FailedCached(-2)),
        "[Failure]X Failed (cached) with exit code -2: [commit]\n"
    );
    assert_eq!(headline(TestStatus::Passed), "[Success]v Passed: [commit]\n");
    assert_eq!(
        headline(TestStatus::PassedCached),
        "[Success]v Passed (cached): [commit]\n"
    );
}

#[test]
fn description_with_output() {
    let description = output(TestStatus::Passed).describe(
        &icons(),
        Verbosity::PartialOutput,
        Some("hello\nworld\n".to_string()),
        None,
    );
    let lines = match description {
        Description::Lines(lines) => lines,
        Description::Headline(_) => panic!("expected lines"),
    };
    let lines: Vec<String> = lines.iter().map(shown).collect();
    assert_eq!(
        lines,
        vec![
            "[Success]v Passed: [commit]",
            "[Bold]Stdout: dir/stdout",
            "hello",
            "world",
            "[Bold]Stderr: dir/stderr",
            "<failed to read file>",
        ]
    );
}

#[test]
fn no_output_is_abbreviated_to_nothing() {
    assert!(abbreviate_lines(Some("a\n".to_string()), Verbosity::NoOutput).is_empty());
    assert!(abbreviate_lines(None, Verbosity::NoOutput).is_empty());
}

#[test]
fn empty_and_unreadable_files() {
    for verbosity in [Verbosity::PartialOutput, Verbosity::FullOutput] {
        assert_eq!(abbreviate_lines(Some(String::new()), verbosity), vec!["<no output>"]);
        assert_eq!(abbreviate_lines(None, verbosity), vec!["<failed to read file>"]);
    }
}

#[test]
fn short_output_is_shown_whole() {
    for n in [1, 5, 9, 10] {
        let lines = abbreviate_lines(Some(numbered(n)), Verbosity::PartialOutput);
        assert_eq!(lines.len(), n);
        assert_eq!(lines, abbreviate_lines(Some(numbered(n)), Verbosity::FullOutput));
    }
}

#[test]
fn long_output_is_abbreviated() {
    assert_eq!(
        abbreviate_lines(Some(numbered(11)), Verbosity::PartialOutput),
        vec![
            "line 1", "line 2", "line 3", "line 4", "line 5", "<1 more lines>", "line 7", "line 8",
            "line 9", "line 10", "line 11",
        ]
    );
    let lines = abbreviate_lines(Some(numbered(200)), Verbosity::PartialOutput);
    assert_eq!(lines.len(), 11);
    assert_eq!(lines[4], "line 5");
    assert_eq!(lines[5], "<190 more lines>");
    assert_eq!(lines[6], "line 196");
    assert_eq!(lines[10], "line 200");
}

#[test]
fn full_output_is_complete() {
    let lines = abbreviate_lines(Some(numbered(200)), Verbosity::FullOutput);
    assert_eq!(lines.len(), 200);
    assert_eq!(lines[0], "line 1");
    assert_eq!(lines[199], "line 200");
}

#[test]
fn lines_are_put_together() {
    let line = Line::of(Segment::Plain("a".to_string()))
        .and(Segment::Styled("b".to_string(), TextStyle::Bold))
        .and(Segment::Commit);
    assert_eq!(shown(&line), "a[Bold]b[commit]");
}
