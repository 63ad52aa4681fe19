//! Command mode: a line that begins with the marker names a command.

use vstd::prelude::*;
use crate::text::{chars_of, lowercase_text, lowercased, string_of_range};

verus! {

/// The character that puts a line in command mode.
pub const MARKER: char = ':';

/// What a command line asks for.
#[derive(Clone, Copy, Debug, PartialEq, Eq, Structural)]
pub enum Command {
    /// Reserved for listing the notes; does nothing yet.
    Show,
    /// Closes the window.
    Exit,
    /// Anything else, including a line too short to name a command.
    Unknown,
}

/// A line is a command line when its first character is the marker.
pub open spec fn is_command_line(line: Seq<char>) -> bool {
    line.len() > 0 && line[0] == MARKER
}

/// The command that a case-folded keyword names.
pub open spec fn command_named(word: Seq<char>) -> Command {
    if word == seq!['e', 'x', 'i', 't'] {
        Command::Exit
    } else if word == seq!['s', 'h', 'o', 'w'] {
        Command::Show
    } else {
        Command::Unknown
    }
}

/// The command of a line: the four characters after the marker, case-folded,
/// looked up; a line too short to hold them names no command.
pub open spec fn command_of(line: Seq<char>) -> Command {
    if line.len() >= 5 {
        command_named(lowercased(line.subrange(1, 5)))
    } else {
        Command::Unknown
    }
}

/// Whether `line` is a command line.
pub fn is_command(line: &str) -> (b: bool)
    ensures
        b == is_command_line(line@),
{
    let v = chars_of(line);
    v.len() > 0 && v[0] == MARKER
}

/// Looks up a keyword that is already case-folded.
pub fn classify_folded(word: &str) -> (c: Command)
    ensures
        c == command_named(word@),
{
    let w = chars_of(word);
    if w.len() == 4 && w[0] == 'e' && w[1] == 'x' && w[2] == 'i' && w[3] == 't' {
        assert(w@ =~= seq!['e', 'x', 'i', 't']);
        Command::Exit
    } else if w.len() == 4 && w[0] == 's' && w[1] == 'h' && w[2] == 'o' && w[3] == 'w' {
        assert(w@ =~= seq!['s', 'h', 'o', 'w']);
        Command::Show
    } else {
        Command::Unknown
    }
}

/// Classifies a command line by the four characters that follow its first
/// one. Any line gets an answer; a short one gets `Command::Unknown`.
pub fn classify(raw: &str) -> (c: Command)
    ensures
        c == command_of(raw@),
{
    let v = chars_of(raw);
    if v.len() < 5 {
        return Command::Unknown;
    }
    let word = string_of_range(&v, 1, 5);
    let folded = lowercase_text(word.as_str());
    classify_folded(folded.as_str())
}

/// Classification is total: every line, of any length, names exactly one of
/// the three commands, and the same line always names the same one.
pub proof fn lemma_classify_total(line: Seq<char>)
    ensures
        command_of(line) == Command::Show || command_of(line) == Command::Exit
            || command_of(line) == Command::Unknown,
        line.len() < 5 ==> command_of(line) == Command::Unknown,
{
}

} // verus!
