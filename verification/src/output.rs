//! What the engine prints, made ready for the output view.
//!
//! The engine marks each line with the stream it was written to. A line is
//! sorted by that mark and stripped of it; from the sorted line and its text
//! with the markup characters escaped, the markup for the view is put
//! together.

use vstd::prelude::*;
use vstd::string::{StrSliceExecFns, StringExecFns};
use crate::text::{starts_with_at, strip_all, strip_all_at, trim, trim_bounds};

verus! {

/// The stream that a line of output was written to.
#[derive(Debug, Clone, Copy, PartialEq, Eq, Structural)]
pub enum Stream {
    /// The line is marked as standard output.
    Stdout,
    /// The line is marked as error output.
    Stderr,
    /// The line carries no mark.
    Unmarked,
}

/// A line of output, sorted by its stream and without its mark.
#[derive(Debug, Clone, PartialEq, Eq)]
pub struct OutputLine {
    pub stream: Stream,
    pub text: String,
}

/// The mark of standard output.
pub open spec fn stdout_mark() -> Seq<char> {
    "stdout"@
}

/// The mark of error output.
pub open spec fn stderr_mark() -> Seq<char> {
    "stderr"@
}

/// The stream that the mark at the start of `line` names.
pub open spec fn stream_of(line: Seq<char>) -> Stream {
    if stdout_mark().is_prefix_of(line) {
        Stream::Stdout
    } else if stderr_mark().is_prefix_of(line) {
        Stream::Stderr
    } else {
        Stream::Unmarked
    }
}

/// The text of `line`: what is left when the mark, as often as it is
/// repeated, and the white space around the rest are taken away.
pub open spec fn text_of(line: Seq<char>) -> Seq<char> {
    match stream_of(line) {
        Stream::Stdout => trim(strip_all(line, stdout_mark())),
        Stream::Stderr => trim(strip_all(line, stderr_mark())),
        Stream::Unmarked => trim(line),
    }
}

/// The colour in which a line is shown, if it has one: comments of the
/// engine on standard output, which begin with a star, in green, and error
/// output in red.
pub open spec fn color_of(stream: Stream, text: Seq<char>) -> Option<Seq<char>> {
    match stream {
        Stream::Stdout => if text.len() > 0 && text[0] == '*' {
            Some("green"@)
        } else {
            None
        },
        Stream::Stderr => Some("red"@),
        Stream::Unmarked => None,
    }
}

/// A line of plain text: the text and a line break.
pub open spec fn plain_line(text: Seq<char>) -> Seq<char> {
    text + "\n"@
}

/// A line of markup in the colour `color`, around text that is already
/// escaped.
pub open spec fn colored_line(escaped: Seq<char>, color: Seq<char>) -> Seq<char> {
    "<span color=\""@ + color + "\">"@ + escaped + "</span>\n"@
}

/// A line of markup that shows a command as it was typed, around text that
/// is already escaped.
pub open spec fn command_line(escaped: Seq<char>) -> Seq<char> {
    "<span style=\"italic\">$ "@ + escaped + "</span>\n"@
}

/// The markup for a line of the stream `stream` with the text `text`, whose
/// escaped form is `escaped`.
pub open spec fn markup_of(stream: Stream, text: Seq<char>, escaped: Seq<char>) -> Seq<char> {
    match color_of(stream, text) {
        Some(color) => colored_line(escaped, color),
        None => plain_line(escaped),
    }
}

/// A line that reports the value of a real vector.
pub open spec fn real_value_line(name: Seq<char>, value: Seq<char>) -> Seq<char> {
    name + ": "@ + value + "\n"@
}

/// A line that reports the value of a complex vector.
pub open spec fn complex_value_line(name: Seq<char>, re: Seq<char>, im: Seq<char>) -> Seq<char> {
    name + ": "@ + re + " + "@ + im + "j\n"@
}

impl OutputLine {
    /// Sorts a line as the engine emitted it.
    pub fn parse(line: &str) -> (sorted: OutputLine)
        ensures
            sorted.stream == stream_of(line@),
            sorted.text@ == text_of(line@),
    {
        proof {
            reveal_strlit("stdout");
            reveal_strlit("stderr");
        }
        let len = line.unicode_len();
        assert(line@.subrange(0, len as int) =~= line@);
        let (stream, at) = if starts_with_at(line, 0, "stdout") {
            (Stream::Stdout, strip_all_at(line, "stdout"))
        } else if starts_with_at(line, 0, "stderr") {
            (Stream::Stderr, strip_all_at(line, "stderr"))
        } else {
            (Stream::Unmarked, 0)
        };
        let (lo, hi) = trim_bounds(line, at, len);
        OutputLine { stream, text: line.substring_char(lo, hi).to_owned() }
    }

    /// The colour in which the line is shown, if it has one.
    pub fn color(&self) -> (color: Option<&'static str>)
        ensures
            match color {
                Some(name) => color_of(self.stream, self.text@) == Some(name@),
                None => color_of(self.stream, self.text@) is None,
            },
    {
        match self.stream {
            Stream::Stdout => {
                let text = self.text.as_str();
                if text.unicode_len() > 0 && text.get_char(0) == '*' {
                    Some("green")
                } else {
                    None
                }
            },
            Stream::Stderr => Some("red"),
            Stream::Unmarked => None,
        }
    }

    /// The markup that shows the line, given its text with the markup
    /// characters escaped.
    pub fn markup(&self, escaped: &str) -> (markup: String)
        ensures
            markup@ == markup_of(self.stream, self.text@, escaped@),
    {
        match self.color() {
            Some(color) => colored(escaped, color),
            None => plain(escaped),
        }
    }
}

/// A line of plain text: `text` and a line break.
pub fn plain(text: &str) -> (line: String)
    ensures
        line@ == plain_line(text@),
{
    text.to_owned().concat("\n")
}

/// A line of markup in the colour `color` around `escaped`, which is text
/// with the markup characters escaped.
pub fn colored(escaped: &str, color: &str) -> (line: String)
    ensures
        line@ == colored_line(escaped@, color@),
{
    "<span color=\"".to_owned().concat(color).concat("\">").concat(escaped).concat("</span>\n")
}

/// A line of markup that shows a command as it was typed, around
/// `escaped`, which is the command with the markup characters escaped.
pub fn command(escaped: &str) -> (line: String)
    ensures
        line@ == command_line(escaped@),
{
    "<span style=\"italic\">$ ".to_owned().concat(escaped).concat("</span>\n")
}

/// A line that reports `value`, written out, as the value of the real
/// vector `name`.
pub fn real_value(name: &str, value: &str) -> (line: String)
    ensures
        line@ == real_value_line(name@, value@),
{
    name.to_owned().concat(": ").concat(value).concat("\n")
}

/// A line that reports `re` and `im`, written out, as the real and the
/// imaginary part of the value of the complex vector `name`.
pub fn complex_value(name: &str, re: &str, im: &str) -> (line: String)
    ensures
        line@ == complex_value_line(name@, re@, im@),
{
    name.to_owned().concat(": ").concat(re).concat(" + ").concat(im).concat("j\n")
}

} // verus!
