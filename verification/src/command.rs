//! The commands typed into the command entry.
//!
//! A few words are commands of the front end itself; everything else is
//! meant for the engine and is passed on as it was typed.

use vstd::prelude::*;
use vstd::string::StrSliceExecFns;
use crate::text::{is_space, is_whitespace, is_word, is_word_at, range_equals, trim, trim_bounds};

verus! {

/// What a line typed into the command entry asks for.
#[derive(Debug, Clone, PartialEq, Eq)]
pub enum Command {
    /// Load the circuit in the editor into the engine.
    Source,
    /// Show the plot that is current.
    ShowCurrentPlot,
    /// Show the plot with this name.
    ShowPlot(String),
    /// Empty the output view and the plot view.
    Clear,
    /// Pass this line on to the engine.
    Engine(String),
}

/// A `Command`, with every text as its characters.
pub enum CommandView {
    Source,
    ShowCurrentPlot,
    ShowPlot(Seq<char>),
    Clear,
    Engine(Seq<char>),
}

impl View for Command {
    type V = CommandView;

    open spec fn view(&self) -> CommandView {
        match *self {
            Command::Source => CommandView::Source,
            Command::ShowCurrentPlot => CommandView::ShowCurrentPlot,
            Command::ShowPlot(plot_name) => CommandView::ShowPlot(plot_name@),
            Command::Clear => CommandView::Clear,
            Command::Engine(line) => CommandView::Engine(line@),
        }
    }
}

/// The word that shows a plot.
pub open spec fn showplot_word() -> Seq<char> {
    "showplot"@
}

/// What stands behind the first `width` characters of `words`, trimmed.
pub open spec fn argument(words: Seq<char>, width: int) -> Seq<char> {
    trim(words.subrange(width, words.len() as int))
}

/// Whether `words`, which is trimmed text, is the word that shows a plot
/// followed by white space and exactly one more word.
pub open spec fn names_plot(words: Seq<char>) -> bool {
    let width = showplot_word().len() as int;
    &&& words.len() > width
    &&& words.subrange(0, width) == showplot_word()
    &&& is_whitespace(words[width])
    &&& is_word(argument(words, width))
}

/// What the line `text` asks for. White space around the words of a
/// command of the front end does not count; a line for the engine is kept
/// as it was typed.
pub open spec fn parse_command(text: Seq<char>) -> CommandView {
    let words = trim(text);
    if words == "source"@ {
        CommandView::Source
    } else if words == showplot_word() {
        CommandView::ShowCurrentPlot
    } else if words == "clear"@ {
        CommandView::Clear
    } else if names_plot(words) {
        CommandView::ShowPlot(argument(words, showplot_word().len() as int))
    } else {
        CommandView::Engine(text)
    }
}

impl Command {
    /// Reads the line `text` typed into the command entry.
    pub fn parse(text: &str) -> (command: Command)
        ensures
            command@ == parse_command(text@),
    {
        proof {
            reveal_strlit("showplot");
        }
        let len = text.unicode_len();
        assert(text@.subrange(0, len as int) =~= text@);
        let (lo, hi) = trim_bounds(text, 0, len);
        let ghost words = text@.subrange(lo as int, hi as int);
        if range_equals(text, lo, hi, "source") {
            return Command::Source;
        }
        if range_equals(text, lo, hi, "showplot") {
            return Command::ShowCurrentPlot;
        }
        if range_equals(text, lo, hi, "clear") {
            return Command::Clear;
        }
        if hi - lo > 8 {
            assert(words.subrange(0, 8) =~= text@.subrange(lo as int, lo + 8));
            assert(words.subrange(8, words.len() as int) =~= text@.subrange(lo + 8, hi as int));
            assert(words[8] == text@[lo + 8]);
            if range_equals(text, lo, lo + 8, "showplot") && is_space(text.get_char(lo + 8)) {
                let (from, to) = trim_bounds(text, lo + 8, hi);
                if is_word_at(text, from, to) {
                    return Command::ShowPlot(text.substring_char(from, to).to_owned());
                }
            }
        }
        Command::Engine(text.to_owned())
    }
}

} // verus!
