//! What is said when a run cannot go on.
use vstd::prelude::*;
use vstd::string::StringExecFns;
use crate::describe::{line_views, Line, Segment, SegmentView};
use crate::style::TextStyle;

verus! {

/// The reasons why a run cannot go on.
#[derive(Debug)]
pub enum Message {
    /// The repository is in the middle of the named operation.
    OperationInProgress(String),
    /// There is no commit to return to.
    NoCommitCheckedOut,
    /// Starting a rebase ended in the merge conflict described.
    UnexpectedMergeConflict(String),
    /// The rebase that guards the run could not be aborted.
    CouldNotAbort,
    /// There is no shell to run the test command in.
    NoShell,
}

/// A line of one piece of plain text.
pub open spec fn plain(text: Seq<char>) -> Seq<SegmentView> {
    seq![SegmentView::Plain(text)]
}

/// A line of one error.
pub open spec fn error(text: Seq<char>) -> Seq<SegmentView> {
    seq![SegmentView::Styled(text, TextStyle::Error)]
}

/// The lines of a message.
pub open spec fn lines_of_message(message: Message) -> Seq<Seq<SegmentView>> {
    match message {
        Message::OperationInProgress(operation) => seq![
            plain("A "@ + operation@ + " operation is already in progress."@),
            plain(
                "Run git "@ + operation@ + " --continue or git "@ + operation@
                    + " --abort to resolve it and proceed."@,
            ),
        ],
        Message::NoCommitCheckedOut => seq![
            plain("No commit is currently checked out; cannot start on-disk rebase."@),
            plain("Check out a commit and try again."@),
        ],
        Message::UnexpectedMergeConflict(conflict) => seq![
            plain("BUG: Encountered unexpected merge conflict: "@ + conflict@),
        ],
        Message::CouldNotAbort => seq![
            error("Error: Could not abort tests with `git rebase --abort`."@),
        ],
        Message::NoShell => seq![error("Error: Could not determine path to shell."@)],
    }
}

fn plain_line(text: String) -> (line: Line)
    ensures
        line@ == plain(text@),
{
    Line::of(Segment::Plain(text))
}

fn error_line(text: &str) -> (line: Line)
    ensures
        line@ == error(text@),
{
    Line::of(Segment::Styled(text.to_string(), TextStyle::Error))
}

impl Message {
    /// The lines of this message.
    pub fn lines(&self) -> (lines: Vec<Line>)
        ensures
            line_views(lines@) == lines_of_message(*self),
    {
        let mut lines: Vec<Line> = Vec::new();
        match self {
            Message::OperationInProgress(operation) => {
                lines.push(
                    plain_line(
                        "A ".to_string().concat(operation.as_str()).concat(
                            " operation is already in progress.",
                        ),
                    ),
                );
                lines.push(
                    plain_line(
                        "Run git ".to_string().concat(operation.as_str()).concat(
                            " --continue or git ",
                        ).concat(operation.as_str()).concat(" --abort to resolve it and proceed."),
                    ),
                );
            },
            Message::NoCommitCheckedOut => {
                lines.push(
                    plain_line(
                        "No commit is currently checked out; cannot start on-disk rebase.".to_string(),
                    ),
                );
                lines.push(plain_line("Check out a commit and try again.".to_string()));
            },
            Message::UnexpectedMergeConflict(conflict) => {
                lines.push(
                    plain_line(
                        "BUG: Encountered unexpected merge conflict: ".to_string().concat(
                            conflict.as_str(),
                        ),
                    ),
                );
            },
            Message::CouldNotAbort => {
                lines.push(
                    error_line("Error: Could not abort tests with `git rebase --abort`."),
                );
            },
            Message::NoShell => {
                lines.push(error_line("Error: Could not determine path to shell."));
            },
        }
        assert(line_views(lines@) =~= lines_of_message(*self));
        lines
    }
}

/// What each message says, line by line.
pub proof fn law_message(message: Message)
    ensures
        message is OperationInProgress ==> {
            let operation = message->OperationInProgress_0@;
            &&& lines_of_message(message).len() == 2
            &&& lines_of_message(message)[0] == seq![
                SegmentView::Plain("A "@ + operation + " operation is already in progress."@),
            ]
            &&& lines_of_message(message)[1] == seq![
                SegmentView::Plain(
                    "Run git "@ + operation + " --continue or git "@ + operation
                        + " --abort to resolve it and proceed."@,
                ),
            ]
        },
        message is NoCommitCheckedOut ==> lines_of_message(message) == seq![
            seq![
                SegmentView::Plain(
                    "No commit is currently checked out; cannot start on-disk rebase."@,
                ),
            ],
            seq![SegmentView::Plain("Check out a commit and try again."@)],
        ],
        message is UnexpectedMergeConflict ==> lines_of_message(message) == seq![
            seq![
                SegmentView::Plain(
                    "BUG: Encountered unexpected merge conflict: "@
                        + message->UnexpectedMergeConflict_0@,
                ),
            ],
        ],
        message is CouldNotAbort ==> lines_of_message(message) == seq![
            seq![
                SegmentView::Styled(
                    "Error: Could not abort tests with `git rebase --abort`."@,
                    TextStyle::Error,
                ),
            ],
        ],
        message is NoShell ==> lines_of_message(message) == seq![
            seq![
                SegmentView::Styled(
                    "Error: Could not determine path to shell."@,
                    TextStyle::Error,
                ),
            ],
        ],
{
}

} // verus!
