//! Text building blocks: concatenation, decimal numbers and splitting into lines.
use vstd::prelude::*;
use vstd::string::StringExecFns;

verus! {

/// `String::push` appends the character to the end of the string.
pub assume_specification[ String::push ](s: &mut String, c: char)
    ensures
        final(s)@ == old(s)@.push(c),
;

/// The characters of each string of `strings`.
pub open spec fn views(strings: Seq<String>) -> Seq<Seq<char>> {
    strings.map_values(|s: String| s@)
}

/// The character of the digit `d`.
pub open spec fn digit_char(d: nat) -> char {
    ('0' as nat + d) as char
}

/// `n` written in decimal, without leading zeros.
pub open spec fn decimal(n: nat) -> Seq<char>
    decreases n,
{
    if n < 10 {
        seq![digit_char(n)]
    } else {
        decimal(n / 10).push(digit_char(n % 10))
    }
}

/// `n` written in decimal, with a leading minus sign if it is negative.
pub open spec fn signed_decimal(n: int) -> Seq<char> {
    if n < 0 {
        seq!['-'] + decimal((-n) as nat)
    } else {
        decimal(n as nat)
    }
}

fn push_decimal(text: &mut String, n: u64)
    ensures
        final(text)@ == old(text)@ + decimal(n as nat),
    decreases n,
{
    if n >= 10 {
        push_decimal(text, n / 10);
    }
    let digit: u8 = (n % 10) as u8;
    text.push((48 + digit) as char);
}

/// The decimal text of an unsigned number.
pub fn decimal_text(n: usize) -> (text: String)
    ensures
        text@ == decimal(n as nat),
{
    let mut text = String::new();
    push_decimal(&mut text, n as u64);
    text
}

/// The decimal text of a signed number.
pub fn signed_decimal_text(n: i32) -> (text: String)
    ensures
        text@ == signed_decimal(n as int),
{
    let mut text = String::new();
    if n < 0 {
        text.push('-');
        push_decimal(&mut text, (-(n as i64)) as u64);
    } else {
        push_decimal(&mut text, n as u64);
    }
    text
}

/// The number of characters in front of the first newline, or all of them if there is none.
pub open spec fn line_end(text: Seq<char>) -> nat
    decreases text.len(),
{
    if text.len() == 0 || text[0] == '\n' {
        0
    } else {
        1 + line_end(text.skip(1))
    }
}

/// A line that a newline ended, without the carriage return that may stand in front of it.
pub open spec fn without_carriage_return(line: Seq<char>) -> Seq<char> {
    if line.len() > 0 && line.last() == '\r' {
        line.drop_last()
    } else {
        line
    }
}

/// The lines of `text`. A line ends with `\n` or `\r\n`; the last line needs no ending, and keeps a
/// carriage return that no newline follows.
pub open spec fn lines_of(text: Seq<char>) -> Seq<Seq<char>>
    decreases text.len(),
    via lines_of_decreases
{
    let end = line_end(text) as int;
    if text.len() == 0 {
        seq![]
    } else if end == text.len() {
        seq![text]
    } else {
        seq![without_carriage_return(text.take(end))] + lines_of(text.skip(end + 1))
    }
}

#[via_fn]
proof fn lines_of_decreases(text: Seq<char>) {
    lemma_line_end_bounded(text);
}

proof fn lemma_line_end_bounded(text: Seq<char>)
    ensures
        line_end(text) <= text.len(),
        line_end(text) < text.len() ==> text[line_end(text) as int] == '\n',
    decreases text.len(),
{
    if text.len() != 0 && text[0] != '\n' {
        lemma_line_end_bounded(text.skip(1));
    }
}

/// A newline ends the line in front of it, if that line holds no newline itself.
proof fn lemma_line_end_at(line: Seq<char>, rest: Seq<char>)
    requires
        !line.contains('\n'),
        rest.len() > 0 ==> rest[0] == '\n',
    ensures
        line_end(line + rest) == line.len(),
    decreases line.len(),
{
    if line.len() > 0 {
        assert(line[0] != '\n');
        assert((line + rest).skip(1) =~= line.skip(1) + rest);
        assert forall|c: char| line.skip(1).contains(c) implies line.contains(c) by {
            let i = choose|i: int| 0 <= i < line.skip(1).len() && line.skip(1)[i] == c;
            assert(line[i + 1] == c);
        }
        lemma_line_end_at(line.skip(1), rest);
    } else {
        assert(line + rest =~= rest);
    }
}

/// The first newline of a text ends its first line, and the other lines are those of the rest. A
/// carriage return right in front of the newline belongs to it, and everything else to the line.
pub proof fn law_newline_ends_line(line: Seq<char>, rest: Seq<char>)
    requires
        !line.contains('\n'),
    ensures
        lines_of(line + seq!['\n'] + rest).len() == 1 + lines_of(rest).len(),
        lines_of(line + seq!['\n'] + rest).skip(1) == lines_of(rest),
        line.len() > 0 && line.last() == '\r' ==> lines_of(line + seq!['\n'] + rest)[0]
            == line.drop_last(),
        !(line.len() > 0 && line.last() == '\r') ==> lines_of(line + seq!['\n'] + rest)[0] == line,
{
    lemma_lines_of_first(line, rest);
    assert((seq![without_carriage_return(line)] + lines_of(rest)).skip(1) =~= lines_of(rest));
}

/// A text without a newline is a single line as it stands, carriage returns and all, unless it is
/// empty and has no lines.
pub proof fn law_text_without_newline(text: Seq<char>)
    requires
        !text.contains('\n'),
    ensures
        text.len() == 0 ==> lines_of(text).len() == 0,
        text.len() > 0 ==> lines_of(text) == seq![text],
{
    lemma_lines_of_last(text);
}

/// The lines of a text whose first line is `line`.
proof fn lemma_lines_of_first(line: Seq<char>, rest: Seq<char>)
    requires
        !line.contains('\n'),
    ensures
        lines_of(line + seq!['\n'] + rest) == seq![without_carriage_return(line)] + lines_of(rest),
{
    let text = line + seq!['\n'] + rest;
    assert(text =~= line + (seq!['\n'] + rest));
    lemma_line_end_at(line, seq!['\n'] + rest);
    assert(text.take(line.len() as int) =~= line);
    assert(text.skip(line.len() as int + 1) =~= rest);
}

/// The lines of a text without a newline.
proof fn lemma_lines_of_last(line: Seq<char>)
    requires
        !line.contains('\n'),
    ensures
        lines_of(line) == if line.len() == 0 {
            seq![]
        } else {
            seq![line]
        },
{
    lemma_line_end_at(line, seq![]);
    assert(line + Seq::<char>::empty() =~= line);
}

/// What is held back of a line: a carriage return that may belong to the line's ending.
spec fn held_text(held: bool) -> Seq<char> {
    if held {
        seq!['\r']
    } else {
        seq![]
    }
}

/// Splits a text into its lines.
pub fn split_lines(text: &str) -> (lines: Vec<String>)
    ensures
        views(lines@) == lines_of(text@),
{
    let mut lines: Vec<String> = Vec::new();
    let mut line = String::new();
    let mut held = false;
    assert(line@ + held_text(held) + text@.skip(0) =~= text@);
    for c in it: text.chars()
        invariant
            it.seq() == text@,
            !line@.contains('\n'),
            !held && line@.len() > 0 ==> line@.last() != '\r',
            views(lines@) + lines_of(line@ + held_text(held) + text@.skip(it.index() as int))
                == lines_of(text@),
    {
        let ghost read = line@ + held_text(held);
        let ghost rest = text@.skip(it.index() + 1);
        let ghost lines_before = lines@;
        assert(read + text@.skip(it.index() as int) =~= read + seq![c] + rest);
        assert(!read.contains('\n'));
        if c == '\n' {
            proof {
                lemma_lines_of_first(read, rest);
                assert(without_carriage_return(read) =~= line@);
            }
            lines.push(line);
            line = String::new();
            held = false;
            assert(views(lines@) =~= views(lines_before) + seq![without_carriage_return(read)]);
            assert(line@ + held_text(held) + rest =~= rest);
        } else {
            if held {
                line.push('\r');
            }
            held = c == '\r';
            if !held {
                line.push(c);
            }
            assert(line@ + held_text(held) =~= read.push(c));
            assert(read + seq![c] + rest =~= line@ + held_text(held) + rest);
        }
    }
    let ghost read = line@ + held_text(held);
    assert(!read.contains('\n'));
    proof {
        lemma_lines_of_last(read);
        assert(text@.skip(text@.len() as int) =~= seq![]);
        assert(read + Seq::<char>::empty() =~= read);
    }
    let ghost lines_before = lines@;
    if held {
        line.push('\r');
    }
    assert(line@ =~= read);
    if !line.as_str().is_empty() {
        lines.push(line);
        assert(views(lines@) =~= views(lines_before).push(read));
    }
    lines
}

/// The views of a series of strings are their characters, one for one.
pub proof fn law_views(strings: Seq<String>)
    ensures
        views(strings).len() == strings.len(),
        forall|i: int| 0 <= i < strings.len() ==> #[trigger] views(strings)[i] == strings[i]@,
{
}

/// The number that a row of decimal digits stands for.
pub open spec fn decimal_value(digits: Seq<char>) -> int
    decreases digits.len(),
{
    if digits.len() == 0 {
        0
    } else {
        10 * decimal_value(digits.drop_last()) + (digits.last() as int - '0' as int)
    }
}

/// The decimal text of a number is a row of digits that stands for this number, without a leading
/// zero unless it is the digit zero alone.
pub proof fn law_decimal(n: nat)
    ensures
        decimal(n).len() > 0,
        forall|i: int|
            0 <= i < decimal(n).len() ==> '0' as int <= #[trigger] decimal(n)[i] as int <= '9' as int,
        n > 0 ==> decimal(n)[0] != '0',
        n == 0 ==> decimal(n) == seq!['0'],
        decimal(n).last() as int == '0' as int + n % 10,
        n < 10 ==> decimal(n).len() == 1,
        n >= 10 ==> decimal(n).drop_last() == decimal(n / 10),
        decimal_value(decimal(n)) == n,
    decreases n,
{
    reveal_with_fuel(decimal_value, 2);
    if n < 10 {
        assert(decimal(n).drop_last() =~= seq![]);
    } else {
        law_decimal(n / 10);
        assert(decimal(n).drop_last() =~= decimal(n / 10));
    }
}

/// Different numbers have different decimal texts.
pub proof fn law_decimal_is_injective(a: nat, b: nat)
    ensures
        decimal(a) == decimal(b) <==> a == b,
{
    law_decimal(a);
    law_decimal(b);
}

/// The decimal text of a negative number is a minus sign followed by that of the number without its
/// sign; any other has no sign.
pub proof fn law_signed_decimal(n: int)
    ensures
        n < 0 ==> signed_decimal(n)[0] == '-' && decimal_value(signed_decimal(n).skip(1)) == -n
            && signed_decimal(n).skip(1) == decimal((-n) as nat),
        n >= 0 ==> signed_decimal(n) == decimal(n as nat) && decimal_value(signed_decimal(n)) == n,
{
    if n < 0 {
        law_decimal((-n) as nat);
        assert(signed_decimal(n).skip(1) =~= decimal((-n) as nat));
    } else {
        law_decimal(n as nat);
    }
}

} // verus!
