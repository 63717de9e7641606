//! What the command line asks for, where it takes a decision.
use vstd::prelude::*;

verus! {

/// Which commit to move to, where several come next.
#[derive(Clone, Copy, Debug, PartialEq, Eq, Structural)]
pub enum Towards {
    Oldest,
    Newest,
}

/// Both directions were asked for at once.
#[derive(Clone, Copy, Debug, PartialEq, Eq, Structural)]
pub struct ConflictingDirections;

impl ConflictingDirections {
    /// The message for the user.
    pub fn message(&self) -> (message: String)
        ensures
            message@ == "Both --oldest and --newest were set"@,
    {
        "Both --oldest and --newest were set".to_string()
    }
}

/// The direction that the two flags ask for.
pub fn towards(oldest: bool, newest: bool) -> (towards: Result<
    Option<Towards>,
    ConflictingDirections,
>)
    ensures
        towards is Err <==> oldest && newest,
        towards is Ok ==> towards->Ok_0 == if oldest {
            Some(Towards::Oldest)
        } else if newest {
            Some(Towards::Newest)
        } else {
            None
        },
{
    match (oldest, newest) {
        (false, false) => Ok(None),
        (true, false) => Ok(Some(Towards::Oldest)),
        (false, true) => Ok(Some(Towards::Newest)),
        (true, true) => Err(ConflictingDirections),
    }
}

/// An exit code that no process can end with.
#[derive(Clone, Copy, Debug, PartialEq, Eq, Structural)]
pub struct ExitCodeOutOfRange {
    pub exit_code: isize,
}

impl ExitCodeOutOfRange {
    /// The message for the user.
    pub fn message(&self) -> (message: String)
        ensures
            message@ == "out of range integral type conversion attempted"@,
    {
        "out of range integral type conversion attempted".to_string()
    }
}

/// The exit code for the process, if it has the range for it.
pub fn process_exit_code(exit_code: isize) -> (code: Result<i32, ExitCodeOutOfRange>)
    ensures
        i32::MIN <= exit_code <= i32::MAX ==> code is Ok && code->Ok_0 == exit_code,
        !(i32::MIN <= exit_code <= i32::MAX) ==> code == Err::<i32, _>(
            (ExitCodeOutOfRange { exit_code }),
        ),
{
    if exit_code >= i32::MIN as isize && exit_code <= i32::MAX as isize {
        Ok(exit_code as i32)
    } else {
        Err(ExitCodeOutOfRange { exit_code })
    }
}

} // verus!
