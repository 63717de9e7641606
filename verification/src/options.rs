//! What the user asked for: the test command, and how much of its output to show.
use vstd::prelude::*;

verus! {

/// How much of a test command's output is shown.
#[derive(Clone, Copy, Debug, Ord, PartialOrd, Eq, PartialEq, Structural)]
pub enum Verbosity {
    NoOutput,
    PartialOutput,
    FullOutput,
}

impl From<u8> for Verbosity {
    /// The verbosity for the number of times that the verbosity flag was given.
    fn from(value: u8) -> (verbosity: Self) {
        match value {
            0 => Self::NoOutput,
            1 => Self::PartialOutput,
            _ => Self::FullOutput,
        }
    }
}

impl vstd::std_specs::convert::FromSpecImpl<u8> for Verbosity {
    open spec fn obeys_from_spec() -> bool {
        true
    }

    open spec fn from_spec(value: u8) -> Self {
        if value == 0 {
            Verbosity::NoOutput
        } else if value == 1 {
            Verbosity::PartialOutput
        } else {
            Verbosity::FullOutput
        }
    }
}

impl Verbosity {
    /// Whether anything of the command's output is shown.
    pub fn shows_output(self) -> (shown: bool)
        ensures
            shown == (self != Verbosity::NoOutput),
    {
        self != Verbosity::NoOutput
    }
}

/// The options of one invocation.
#[derive(Debug)]
pub struct TestOptions {
    pub command: String,
    pub verbosity: Verbosity,
}

/// Whether a character of a command cannot stand in the name of its directory.
pub open spec fn is_replaced_in_slug(c: char) -> bool {
    c == '/' || c == ' ' || c == '\n'
}

/// The name of the directory in which the results of a command are kept: the command, with an
/// underscore in place of every slash, space and newline.
pub open spec fn command_slug(command: Seq<char>) -> Seq<char> {
    command.map_values(
        |c: char|
            if is_replaced_in_slug(c) {
                '_'
            } else {
                c
            },
    )
}

impl TestOptions {
    /// The name of the directory in which the results of the command are kept.
    pub fn make_command_slug(&self) -> (slug: String)
        ensures
            slug@ == command_slug(self.command@),
            slug@.len() == self.command@.len(),
            forall|i: int|
                0 <= i < slug@.len() ==> #[trigger] slug@[i] == if self.command@[i] == '/'
                    || self.command@[i] == ' ' || self.command@[i] == '\n' {
                    '_'
                } else {
                    self.command@[i]
                },
    {
        let mut slug = String::new();
        for c in it: self.command.as_str().chars()
            invariant
                it.seq() == self.command@,
                slug@ == command_slug(self.command@.take(it.index() as int)),
        {
            let ghost before = self.command@.take(it.index() as int);
            let kept: char = if c == '/' || c == ' ' || c == '\n' {
                '_'
            } else {
                c
            };
            slug.push(kept);
            assert(self.command@.take(it.index() + 1) =~= before.push(c));
            assert(command_slug(before.push(c)) =~= command_slug(before).push(kept));
        }
        assert(self.command@.take(self.command@.len() as int) =~= self.command@);
        slug
    }
}

/// The slug has a character for every character of the command: an underscore for a slash, a space
/// and a newline, and the character itself for every other one.
pub proof fn law_slug_characters(command: Seq<char>)
    ensures
        command_slug(command).len() == command.len(),
        forall|i: int|
            0 <= i < command.len() && (command[i] == '/' || command[i] == ' ' || command[i]
                == '\n') ==> #[trigger] command_slug(command)[i] == '_',
        forall|i: int|
            0 <= i < command.len() && command[i] != '/' && command[i] != ' ' && command[i] != '\n'
                ==> #[trigger] command_slug(command)[i] == command[i],
{
}

/// The slug holds no slash, so that it never names a directory further down, and no space or newline
/// either.
pub proof fn law_slug_holds_no_separator(command: Seq<char>)
    ensures
        !command_slug(command).contains('/'),
        !command_slug(command).contains(' '),
        !command_slug(command).contains('\n'),
{
}

/// Two commands keep their results in the same directory exactly if they differ only where both
/// hold a slash, a space, a newline or an underscore.
pub proof fn law_shared_slug(a: Seq<char>, b: Seq<char>)
    ensures
        command_slug(a) == command_slug(b) <==> a.len() == b.len() && forall|i: int|
            0 <= i < a.len() ==> #[trigger] a[i] == b[i] || {
                &&& a[i] == '/' || a[i] == ' ' || a[i] == '\n' || a[i] == '_'
                &&& b[i] == '/' || b[i] == ' ' || b[i] == '\n' || b[i] == '_'
            },
{
    law_slug_characters(a);
    law_slug_characters(b);
    if command_slug(a) == command_slug(b) {
        assert forall|i: int| 0 <= i < a.len() implies #[trigger] a[i] == b[i] || {
            &&& a[i] == '/' || a[i] == ' ' || a[i] == '\n' || a[i] == '_'
            &&& b[i] == '/' || b[i] == ' ' || b[i] == '\n' || b[i] == '_'
        } by {
            assert(command_slug(a)[i] == command_slug(b)[i]);
        }
    } else if a.len() == b.len() {
        let i = choose|i: int|
            0 <= i < a.len() && #[trigger] command_slug(a)[i] != command_slug(b)[i];
        assert(command_slug(a) =~= command_slug(b) || command_slug(a)[i] != command_slug(b)[i]);
        assert(a[i] != b[i]);
    }
}

/// Taking the slug of a slug changes nothing.
pub proof fn law_slug_is_idempotent(command: Seq<char>)
    ensures
        command_slug(command_slug(command)) == command_slug(command),
{
    assert(command_slug(command_slug(command)) =~= command_slug(command));
}

/// Without the flag no output is shown, with one part of it, and with more of them all of it.
pub proof fn law_verbosity_of_flags(count: u8)
    ensures
        <Verbosity as vstd::std_specs::convert::FromSpec<u8>>::obeys_from_spec(),
        count == 0 <==> <Verbosity as vstd::std_specs::convert::FromSpec<u8>>::from_spec(count)
            == Verbosity::NoOutput,
        count == 1 <==> <Verbosity as vstd::std_specs::convert::FromSpec<u8>>::from_spec(count)
            == Verbosity::PartialOutput,
        count >= 2 <==> <Verbosity as vstd::std_specs::convert::FromSpec<u8>>::from_spec(count)
            == Verbosity::FullOutput,
{
}

} // verus!
