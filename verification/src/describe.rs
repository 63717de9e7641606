//! What is shown of a test: a headline, and as much of the command's output as was asked for.
use vstd::prelude::*;
use vstd::string::StringExecFns;
use crate::options::Verbosity;
use crate::status::{icon_of, OperationIcon, TestStatus};
use crate::style::TextStyle;
use crate::text::{
    decimal, decimal_text, lines_of, signed_decimal, signed_decimal_text, split_lines, views,
};

verus! {

/// The icons that start a headline.
#[derive(Debug)]
pub struct Icons {
    pub checkmark: String,
    pub exclamation: String,
    pub cross: String,
}

/// A piece of shown text.
#[derive(Debug)]
pub enum Segment {
    Plain(String),
    Styled(String, TextStyle),
    /// The description of the commit under test.
    Commit,
    /// A number of things, with the word for one of them and the word for several.
    Count { amount: usize, singular: String, plural: String },
}

/// A piece of shown text, in terms of its characters.
pub enum SegmentView {
    Plain(Seq<char>),
    Styled(Seq<char>, TextStyle),
    Commit,
    Count { amount: usize, singular: Seq<char>, plural: Seq<char> },
}

impl View for Segment {
    type V = SegmentView;

    open spec fn view(&self) -> SegmentView {
        match *self {
            Segment::Plain(text) => SegmentView::Plain(text@),
            Segment::Styled(text, style) => SegmentView::Styled(text@, style),
            Segment::Commit => SegmentView::Commit,
            Segment::Count { amount, singular, plural } => SegmentView::Count {
                amount,
                singular: singular@,
                plural: plural@,
            },
        }
    }
}

/// A line of shown text.
#[derive(Debug)]
pub struct Line {
    pub segments: Vec<Segment>,
}

impl View for Line {
    type V = Seq<SegmentView>;

    open spec fn view(&self) -> Seq<SegmentView> {
        self.segments@.map_values(|segment: Segment| segment@)
    }
}

/// The segments of each line.
pub open spec fn line_views(lines: Seq<Line>) -> Seq<Seq<SegmentView>> {
    lines.map_values(|line: Line| line@)
}

impl Line {
    /// A line of a single piece.
    pub fn of(segment: Segment) -> (line: Line)
        ensures
            line@ == seq![segment@],
    {
        let mut segments: Vec<Segment> = Vec::new();
        segments.push(segment);
        let line = Line { segments };
        assert(line@ =~= seq![segment@]);
        line
    }

    /// This line with one more piece at its end.
    pub fn and(self, segment: Segment) -> (line: Line)
        ensures
            line@ == self@.push(segment@),
    {
        let ghost before = self@;
        let mut segments = self.segments;
        segments.push(segment);
        let line = Line { segments };
        assert(line@ =~= before.push(segment@));
        line
    }
}

/// The number of lines that are shown at either end of an output that is too long.
pub const NUM_CONTEXT_LINES: usize = 5;

/// What is shown of an output, of which `lines` were read: all of it if it is short enough or if
/// everything is asked for, else its first and last lines with a note on what is missing between
/// them.
pub open spec fn abbreviated(lines: Seq<Seq<char>>, verbosity: Verbosity) -> Seq<Seq<char>> {
    let shown = 2 * NUM_CONTEXT_LINES as int;
    if lines.len() == 0 {
        seq!["<no output>"@]
    } else if lines.len() <= shown || verbosity == Verbosity::FullOutput {
        lines
    } else {
        lines.take(NUM_CONTEXT_LINES as int) + seq![
            "<"@ + decimal((lines.len() - shown) as nat) + " more lines>"@,
        ] + lines.skip(lines.len() - NUM_CONTEXT_LINES)
    }
}

/// What is shown of a file with the given contents, or of one that could not be read.
pub open spec fn shown_lines(contents: Option<String>, verbosity: Verbosity) -> Seq<Seq<char>> {
    if verbosity == Verbosity::NoOutput {
        seq![]
    } else {
        match contents {
            None => seq!["<failed to read file>"@],
            Some(contents) => abbreviated(lines_of(contents@), verbosity),
        }
    }
}

fn copy_lines(target: &mut Vec<String>, lines: &Vec<String>, from: usize, to: usize)
    requires
        from <= to <= lines.len(),
    ensures
        views(final(target)@) == views(old(target)@) + views(lines@).subrange(
            from as int,
            to as int,
        ),
{
    let ghost before = views(target@);
    let mut i: usize = from;
    assert(views(lines@).subrange(from as int, from as int) =~= seq![]);
    while i < to
        invariant
            from <= i <= to <= lines.len(),
            views(target@) == before + views(lines@).subrange(from as int, i as int),
        decreases to - i,
    {
        let ghost so_far = target@;
        let line = lines[i].clone();
        target.push(line);
        assert(views(target@) =~= views(so_far).push(lines@[i as int]@));
        assert(views(lines@).subrange(from as int, i + 1) =~= views(lines@).subrange(
            from as int,
            i as int,
        ).push(lines@[i as int]@));
        i += 1;
    }
}

/// What is shown of a file with the given contents, or of one that could not be read.
pub fn abbreviate_lines(contents: Option<String>, verbosity: Verbosity) -> (shown: Vec<String>)
    ensures
        views(shown@) == shown_lines(contents, verbosity),
{
    let should_show_all_lines = match verbosity {
        Verbosity::NoOutput => {
            let none: Vec<String> = Vec::new();
            assert(views(none@) =~= seq![]);
            return none;
        },
        Verbosity::PartialOutput => false,
        Verbosity::FullOutput => true,
    };
    let contents = match contents {
        Some(contents) => contents,
        None => {
            let mut notice: Vec<String> = Vec::new();
            notice.push("<failed to read file>".to_string());
            assert(views(notice@) =~= seq!["<failed to read file>"@]);
            return notice;
        },
    };
    let lines = split_lines(contents.as_str());
    let num_missing_lines: usize = lines.len().saturating_sub(2 * NUM_CONTEXT_LINES);
    if lines.len() == 0 {
        let mut notice: Vec<String> = Vec::new();
        notice.push("<no output>".to_string());
        assert(views(notice@) =~= seq!["<no output>"@]);
        notice
    } else if num_missing_lines == 0 || should_show_all_lines {
        lines
    } else {
        let ghost all = views(lines@);
        let mut shown: Vec<String> = Vec::new();
        copy_lines(&mut shown, &lines, 0, NUM_CONTEXT_LINES);
        assert(views(shown@) =~= all.take(NUM_CONTEXT_LINES as int));
        let ghost head = shown@;
        let num_missing_lines_message = "<".to_string().concat(
            decimal_text(num_missing_lines).as_str(),
        ).concat(" more lines>");
        shown.push(num_missing_lines_message);
        assert(views(shown@) =~= views(head).push(shown@.last()@));
        copy_lines(&mut shown, &lines, lines.len() - NUM_CONTEXT_LINES, lines.len());
        assert(all.subrange(all.len() - NUM_CONTEXT_LINES, all.len() as int) =~= all.skip(
            all.len() - NUM_CONTEXT_LINES,
        ));
        assert(views(shown@) =~= abbreviated(all, verbosity));
        shown
    }
}

/// Where the output of a test is kept, and what became of the test.
#[derive(Debug)]
pub struct TestOutput {
    pub result_path: String,
    pub stdout_path: String,
    pub stderr_path: String,
    pub test_status: TestStatus,
}

/// What is shown of a test: a headline that ends in a newline, or a series of lines.
#[derive(Debug)]
pub enum Description {
    Headline(Line),
    Lines(Vec<Line>),
}

/// What a headline says of a result, between the icon and the commit.
pub open spec fn label_of(status: TestStatus) -> Seq<char> {
    match status {
        TestStatus::CheckoutFailed => " Failed to check out: "@,
        TestStatus::SpawnTestFailed(err) => " Failed to spawn test: "@ + err@ + ": "@,
        TestStatus::TerminatedBySignal => " Test command terminated by signal: "@,
        TestStatus::AlreadyInProgress => " Test already in progress? "@,
        TestStatus::ReadCacheFailed(_) => " Could not read cached test result: "@,
        TestStatus::Failed(exit_code) => " Failed with exit code "@ + signed_decimal(
            exit_code as int,
        ) + ": "@,
        TestStatus::FailedCached(exit_code) => " Failed (cached) with exit code "@ + signed_decimal(
            exit_code as int,
        ) + ": "@,
        TestStatus::Passed => " Passed: "@,
        TestStatus::PassedCached => " Passed (cached): "@,
    }
}

/// The text of an icon.
pub open spec fn icon_text_of(icons: Icons, icon: OperationIcon) -> Seq<char> {
    match icon {
        OperationIcon::Success => icons.checkmark@,
        OperationIcon::Failure => icons.cross@,
        OperationIcon::Warning => icons.exclamation@,
    }
}

/// The look of a headline with the given icon.
pub open spec fn icon_style_of(icon: OperationIcon) -> TextStyle {
    match icon {
        OperationIcon::Success => TextStyle::Success,
        OperationIcon::Failure => TextStyle::Failure,
        OperationIcon::Warning => TextStyle::Skipped,
    }
}

/// The headline of a test: what became of it, and on which commit.
pub open spec fn headline_of(status: TestStatus, icons: Icons) -> Seq<SegmentView> {
    let icon = icon_of(status);
    seq![
        SegmentView::Styled(icon_text_of(icons, icon) + label_of(status), icon_style_of(icon)),
        SegmentView::Commit,
    ]
}

/// A line that says where an output is kept.
pub open spec fn path_line_of(label: Seq<char>, path: Seq<char>) -> Seq<SegmentView> {
    seq![SegmentView::Styled(label, TextStyle::Bold), SegmentView::Plain(path)]
}

/// Lines of plain text.
pub open spec fn plain_lines(lines: Seq<Seq<char>>) -> Seq<Seq<SegmentView>> {
    lines.map_values(|line: Seq<char>| seq![SegmentView::Plain(line)])
}

/// The headline of a test, followed by what is shown of its two outputs.
pub open spec fn lines_of_output(
    output: TestOutput,
    icons: Icons,
    verbosity: Verbosity,
    stdout: Option<String>,
    stderr: Option<String>,
) -> Seq<Seq<SegmentView>> {
    seq![
        headline_of(output.test_status, icons),
        path_line_of("Stdout: "@, output.stdout_path@),
    ] + plain_lines(shown_lines(stdout, verbosity)) + seq![
        path_line_of("Stderr: "@, output.stderr_path@),
    ] + plain_lines(shown_lines(stderr, verbosity))
}

fn label_text(status: &TestStatus) -> (text: String)
    ensures
        text@ == label_of(*status),
{
    match status {
        TestStatus::CheckoutFailed => " Failed to check out: ".to_string(),
        TestStatus::SpawnTestFailed(err) => " Failed to spawn test: ".to_string().concat(
            err.as_str(),
        ).concat(": "),
        TestStatus::TerminatedBySignal => " Test command terminated by signal: ".to_string(),
        TestStatus::AlreadyInProgress => " Test already in progress? ".to_string(),
        TestStatus::ReadCacheFailed(_) => " Could not read cached test result: ".to_string(),
        TestStatus::Failed(exit_code) => " Failed with exit code ".to_string().concat(
            signed_decimal_text(*exit_code).as_str(),
        ).concat(": "),
        TestStatus::FailedCached(exit_code) => " Failed (cached) with exit code ".to_string().concat(
            signed_decimal_text(*exit_code).as_str(),
        ).concat(": "),
        TestStatus::Passed => " Passed: ".to_string(),
        TestStatus::PassedCached => " Passed (cached): ".to_string(),
    }
}

fn headline(status: &TestStatus, icons: &Icons) -> (line: Line)
    ensures
        line@ == headline_of(*status, *icons),
{
    let (icon, style) = match status.icon() {
        OperationIcon::Success => (icons.checkmark.clone(), TextStyle::Success),
        OperationIcon::Failure => (icons.cross.clone(), TextStyle::Failure),
        OperationIcon::Warning => (icons.exclamation.clone(), TextStyle::Skipped),
    };
    let text = icon.concat(label_text(status).as_str());
    let line = Line::of(Segment::Styled(text, style)).and(Segment::Commit);
    assert(line@ =~= headline_of(*status, *icons));
    line
}

fn path_line(label: &str, path: &String) -> (line: Line)
    ensures
        line@ == path_line_of(label@, path@),
{
    let line = Line::of(Segment::Styled(label.to_string(), TextStyle::Bold)).and(
        Segment::Plain(path.clone()),
    );
    assert(line@ =~= path_line_of(label@, path@));
    line
}

fn push_plain_lines(target: &mut Vec<Line>, lines: &Vec<String>)
    ensures
        line_views(final(target)@) == line_views(old(target)@) + plain_lines(views(lines@)),
{
    let ghost before = line_views(target@);
    let ghost all = plain_lines(views(lines@));
    let mut i: usize = 0;
    while i < lines.len()
        invariant
            i <= lines.len(),
            all == plain_lines(views(lines@)),
            line_views(target@) == before + all.take(i as int),
        decreases lines.len() - i,
    {
        let ghost so_far = target@;
        let line = Line::of(Segment::Plain(lines[i].clone()));
        target.push(line);
        assert(line_views(target@) =~= line_views(so_far).push(line@));
        assert(all.take(i + 1) =~= all.take(i as int).push(all[i as int]));
        i += 1;
    }
    assert(all.take(all.len() as int) =~= all);
}

impl TestOutput {
    /// Describes this test. `stdout` and `stderr` are the contents of the two files in which the
    /// output of the test is kept, if they could be read; they are not shown unless output is
    /// asked for.
    pub fn describe(
        &self,
        icons: &Icons,
        verbosity: Verbosity,
        stdout: Option<String>,
        stderr: Option<String>,
    ) -> (description: Description)
        ensures
            verbosity == Verbosity::NoOutput ==> {
                &&& description is Headline
                &&& description->Headline_0@ == headline_of(self.test_status, *icons).push(
                    SegmentView::Plain("\n"@),
                )
            },
            verbosity != Verbosity::NoOutput ==> {
                &&& description is Lines
                &&& line_views(description->Lines_0@) == lines_of_output(
                    *self,
                    *icons,
                    verbosity,
                    stdout,
                    stderr,
                )
            },
    {
        let description = headline(&self.test_status, icons);
        if verbosity == Verbosity::NoOutput {
            return Description::Headline(description.and(Segment::Plain("\n".to_string())));
        }
        let stdout_lines = abbreviate_lines(stdout, verbosity);
        let stderr_lines = abbreviate_lines(stderr, verbosity);
        let mut lines: Vec<Line> = Vec::new();
        lines.push(description);
        lines.push(path_line("Stdout: ", &self.stdout_path));
        assert(line_views(lines@) =~= seq![
            headline_of(self.test_status, *icons),
            path_line_of("Stdout: "@, self.stdout_path@),
        ]);
        push_plain_lines(&mut lines, &stdout_lines);
        let ghost with_stdout = lines@;
        let stderr_path_line = path_line("Stderr: ", &self.stderr_path);
        lines.push(stderr_path_line);
        assert(line_views(lines@) =~= line_views(with_stdout) + seq![stderr_path_line@]);
        push_plain_lines(&mut lines, &stderr_lines);
        Description::Lines(lines)
    }
}

/// Something is shown of every output, and partial output never shows more than the lines at both
/// ends and one note.
pub proof fn law_partial_output_is_bounded(lines: Seq<Seq<char>>)
    ensures
        1 <= abbreviated(lines, Verbosity::PartialOutput).len() <= 2 * NUM_CONTEXT_LINES + 1,
{
}

/// Full output shows every line of an output that has any, in order.
pub proof fn law_full_output_is_complete(lines: Seq<Seq<char>>)
    requires
        lines.len() > 0,
    ensures
        abbreviated(lines, Verbosity::FullOutput) == lines,
{
}

/// Partial output differs from full output only if the output is longer than the lines at both
/// ends. It then shows these lines as they are, and the note stands for all the others.
pub proof fn law_partial_output_keeps_both_ends(lines: Seq<Seq<char>>)
    ensures
        lines.len() <= 2 * NUM_CONTEXT_LINES ==> abbreviated(lines, Verbosity::PartialOutput)
            == abbreviated(lines, Verbosity::FullOutput),
        lines.len() > 2 * NUM_CONTEXT_LINES ==> {
            let shown = abbreviated(lines, Verbosity::PartialOutput);
            &&& shown.len() == 2 * NUM_CONTEXT_LINES + 1
            &&& forall|i: int| 0 <= i < NUM_CONTEXT_LINES ==> #[trigger] shown[i] == lines[i]
            &&& forall|i: int|
                1 <= i <= NUM_CONTEXT_LINES ==> shown[shown.len() - i] == #[trigger] lines[lines.len()
                    - i]
            &&& shown[NUM_CONTEXT_LINES as int] == "<"@ + decimal(
                (lines.len() - (shown.len() - 1)) as nat,
            ) + " more lines>"@
        },
{
}

/// The headline of a test carries the icon that its progress display ends with.
pub proof fn law_headline_starts_with_icon(status: TestStatus, icons: Icons)
    ensures
        headline_of(status, icons)[0] is Styled,
        icon_text_of(icons, icon_of(status)).is_prefix_of(headline_of(status, icons)[0]->Styled_0),
        headline_of(status, icons).last() is Commit,
{
}

/// The views of lines and of their pieces leave nothing out: a line has the pieces that it was made
/// of, in order, and a piece has its text, its look and its numbers.
pub proof fn law_line_views(lines: Seq<Line>)
    ensures
        line_views(lines).len() == lines.len(),
        forall|i: int|
            0 <= i < lines.len() ==> {
                &&& #[trigger] line_views(lines)[i] == lines[i]@
                &&& lines[i]@.len() == lines[i].segments@.len()
            },
        forall|i: int, j: int|
            0 <= i < lines.len() && 0 <= j < lines[i].segments@.len() ==> #[trigger] lines[i]@[j]
                == match lines[i].segments@[j] {
                Segment::Plain(text) => SegmentView::Plain(text@),
                Segment::Styled(text, style) => SegmentView::Styled(text@, style),
                Segment::Commit => SegmentView::Commit,
                Segment::Count { amount, singular, plural } => SegmentView::Count {
                    amount,
                    singular: singular@,
                    plural: plural@,
                },
            },
{
}

/// What the headline of each result says, with which icon and in which look, in front of the commit.
pub proof fn law_headline(status: TestStatus, icons: Icons)
    ensures
        headline_of(status, icons).len() == 2,
        headline_of(status, icons)[1] == SegmentView::Commit,
        status is CheckoutFailed ==> headline_of(status, icons)[0] == SegmentView::Styled(
            icons.exclamation@ + " Failed to check out: "@,
            TextStyle::Skipped,
        ),
        status is SpawnTestFailed ==> headline_of(status, icons)[0] == SegmentView::Styled(
            icons.exclamation@ + (" Failed to spawn test: "@ + status->SpawnTestFailed_0@ + ": "@),
            TextStyle::Skipped,
        ),
        status is TerminatedBySignal ==> headline_of(status, icons)[0] == SegmentView::Styled(
            icons.cross@ + " Test command terminated by signal: "@,
            TextStyle::Failure,
        ),
        status is AlreadyInProgress ==> headline_of(status, icons)[0] == SegmentView::Styled(
            icons.exclamation@ + " Test already in progress? "@,
            TextStyle::Skipped,
        ),
        status is ReadCacheFailed ==> headline_of(status, icons)[0] == SegmentView::Styled(
            icons.exclamation@ + " Could not read cached test result: "@,
            TextStyle::Skipped,
        ),
        status is Failed ==> headline_of(status, icons)[0] == SegmentView::Styled(
            icons.cross@ + (" Failed with exit code "@ + signed_decimal(status->Failed_0 as int)
                + ": "@),
            TextStyle::Failure,
        ),
        status is FailedCached ==> headline_of(status, icons)[0] == SegmentView::Styled(
            icons.cross@ + (" Failed (cached) with exit code "@ + signed_decimal(
                status->FailedCached_0 as int,
            ) + ": "@),
            TextStyle::Failure,
        ),
        status is Passed ==> headline_of(status, icons)[0] == SegmentView::Styled(
            icons.checkmark@ + " Passed: "@,
            TextStyle::Success,
        ),
        status is PassedCached ==> headline_of(status, icons)[0] == SegmentView::Styled(
            icons.checkmark@ + " Passed (cached): "@,
            TextStyle::Success,
        ),
{
}

/// What is shown of an output, by verbosity: nothing if none is asked for, a note if the file cannot
/// be read or is empty, and else all lines, but for partial output of more than ten lines the first
/// five and the last five, with the number of the others in between.
pub proof fn law_shown_lines(contents: Option<String>, verbosity: Verbosity)
    ensures
        verbosity == Verbosity::NoOutput ==> shown_lines(contents, verbosity).len() == 0,
        verbosity != Verbosity::NoOutput && contents is None ==> shown_lines(contents, verbosity)
            == seq!["<failed to read file>"@],
        verbosity != Verbosity::NoOutput && contents is Some && lines_of(
            contents->Some_0@,
        ).len() == 0 ==> shown_lines(contents, verbosity) == seq!["<no output>"@],
        verbosity == Verbosity::FullOutput && contents is Some && lines_of(
            contents->Some_0@,
        ).len() > 0 ==> shown_lines(contents, verbosity) == lines_of(contents->Some_0@),
        verbosity == Verbosity::PartialOutput && contents is Some && 0 < lines_of(
            contents->Some_0@,
        ).len() <= 10 ==> shown_lines(contents, verbosity) == lines_of(contents->Some_0@),
        verbosity == Verbosity::PartialOutput && contents is Some && lines_of(
            contents->Some_0@,
        ).len() > 10 ==> {
            let lines = lines_of(contents->Some_0@);
            let shown = shown_lines(contents, verbosity);
            &&& shown.len() == 11
            &&& forall|i: int| 0 <= i < 5 ==> #[trigger] shown[i] == lines[i]
            &&& shown[5] == "<"@ + decimal((lines.len() - 10) as nat) + " more lines>"@
            &&& forall|i: int| 6 <= i < 11 ==> #[trigger] shown[i] == lines[lines.len() - 11 + i]
        },
{
}

/// The description of a test with output, line by line: the headline, where the output is kept, what
/// the verbosity asks for of it, and the same of the error output.
pub proof fn law_description(
    output: TestOutput,
    icons: Icons,
    verbosity: Verbosity,
    stdout: Option<String>,
    stderr: Option<String>,
)
    ensures
        ({
            let lines = lines_of_output(output, icons, verbosity, stdout, stderr);
            let out = shown_lines(stdout, verbosity);
            let err = shown_lines(stderr, verbosity);
            &&& lines.len() == 3 + out.len() + err.len()
            &&& lines[0] == headline_of(output.test_status, icons)
            &&& lines[1] == seq![
                SegmentView::Styled("Stdout: "@, TextStyle::Bold),
                SegmentView::Plain(output.stdout_path@),
            ]
            &&& forall|i: int|
                0 <= i < out.len() ==> lines[2 + i] == seq![SegmentView::Plain(#[trigger] out[i])]
            &&& lines[2 + out.len() as int] == seq![
                SegmentView::Styled("Stderr: "@, TextStyle::Bold),
                SegmentView::Plain(output.stderr_path@),
            ]
            &&& forall|i: int|
                0 <= i < err.len() ==> lines[3 + out.len() + i] == seq![
                    SegmentView::Plain(#[trigger] err[i]),
                ]
        }),
{
}

/// With full output, the description of a test holds every line of both outputs, in order.
pub proof fn law_full_description(
    output: TestOutput,
    icons: Icons,
    stdout: String,
    stderr: String,
)
    requires
        lines_of(stdout@).len() > 0,
        lines_of(stderr@).len() > 0,
    ensures
        ({
            let lines = lines_of_output(
                output,
                icons,
                Verbosity::FullOutput,
                Some(stdout),
                Some(stderr),
            );
            let out = lines_of(stdout@);
            let err = lines_of(stderr@);
            &&& lines.len() == 3 + out.len() + err.len()
            &&& lines[0] == headline_of(output.test_status, icons)
            &&& lines[1] == seq![
                SegmentView::Styled("Stdout: "@, TextStyle::Bold),
                SegmentView::Plain(output.stdout_path@),
            ]
            &&& forall|i: int|
                0 <= i < out.len() ==> lines[2 + i] == seq![SegmentView::Plain(#[trigger] out[i])]
            &&& lines[2 + out.len() as int] == seq![
                SegmentView::Styled("Stderr: "@, TextStyle::Bold),
                SegmentView::Plain(output.stderr_path@),
            ]
            &&& forall|i: int|
                0 <= i < err.len() ==> lines[3 + out.len() + i] == seq![
                    SegmentView::Plain(#[trigger] err[i]),
                ]
        }),
{
    law_shown_lines(Some(stdout), Verbosity::FullOutput);
    law_shown_lines(Some(stderr), Verbosity::FullOutput);
    law_description(output, icons, Verbosity::FullOutput, Some(stdout), Some(stderr));
}

/// With partial output, the description of a test shows of two outputs that have more than ten lines
/// each the first five lines, the number of those left out, and the last five lines.
pub proof fn law_partial_description(
    output: TestOutput,
    icons: Icons,
    stdout: String,
    stderr: String,
)
    requires
        lines_of(stdout@).len() > 10,
        lines_of(stderr@).len() > 10,
    ensures
        ({
            let lines = lines_of_output(
                output,
                icons,
                Verbosity::PartialOutput,
                Some(stdout),
                Some(stderr),
            );
            let out = lines_of(stdout@);
            let err = lines_of(stderr@);
            &&& lines.len() == 25
            &&& forall|i: int|
                0 <= i < 5 ==> {
                    &&& #[trigger] lines[2 + i] == seq![SegmentView::Plain(out[i])]
                    &&& lines[8 + i] == seq![SegmentView::Plain(out[out.len() - 5 + i])]
                    &&& lines[14 + i] == seq![SegmentView::Plain(err[i])]
                    &&& lines[20 + i] == seq![SegmentView::Plain(err[err.len() - 5 + i])]
                }
            &&& lines[7] == seq![
                SegmentView::Plain("<"@ + decimal((out.len() - 10) as nat) + " more lines>"@),
            ]
            &&& lines[19] == seq![
                SegmentView::Plain("<"@ + decimal((err.len() - 10) as nat) + " more lines>"@),
            ]
        }),
{
    law_shown_lines(Some(stdout), Verbosity::PartialOutput);
    law_shown_lines(Some(stderr), Verbosity::PartialOutput);
    law_description(output, icons, Verbosity::PartialOutput, Some(stdout), Some(stderr));
    let lines = lines_of_output(
        output,
        icons,
        Verbosity::PartialOutput,
        Some(stdout),
        Some(stderr),
    );
    let shown_out = shown_lines(Some(stdout), Verbosity::PartialOutput);
    let shown_err = shown_lines(Some(stderr), Verbosity::PartialOutput);
    assert(forall|i: int|
        0 <= i < 11 ==> lines[2 + i] == seq![SegmentView::Plain(#[trigger] shown_out[i])]);
    assert(forall|i: int|
        0 <= i < 11 ==> lines[14 + i] == seq![SegmentView::Plain(#[trigger] shown_err[i])]);
    assert(lines[7] == seq![SegmentView::Plain(shown_out[5])]);
    assert(lines[19] == seq![SegmentView::Plain(shown_err[5])]);
    assert forall|i: int| 0 <= i < 5 implies {
        &&& #[trigger] lines[2 + i] == seq![SegmentView::Plain(lines_of(stdout@)[i])]
        &&& lines[8 + i] == seq![
            SegmentView::Plain(lines_of(stdout@)[lines_of(stdout@).len() - 5 + i]),
        ]
        &&& lines[14 + i] == seq![SegmentView::Plain(lines_of(stderr@)[i])]
        &&& lines[20 + i] == seq![
            SegmentView::Plain(lines_of(stderr@)[lines_of(stderr@).len() - 5 + i]),
        ]
    } by {
        assert(lines[2 + i] == seq![SegmentView::Plain(shown_out[i])]);
        assert(lines[2 + (6 + i)] == seq![SegmentView::Plain(shown_out[6 + i])]);
        assert(lines[14 + i] == seq![SegmentView::Plain(shown_err[i])]);
        assert(lines[14 + (6 + i)] == seq![SegmentView::Plain(shown_err[6 + i])]);
    }
}

} // verus!
