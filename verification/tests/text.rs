use spicy::command::Command;
use spicy::output::{colored, command, complex_value, plain, real_value, OutputLine, Stream};
use spicy::text::{is_space, trimmed};

#[test]
fn white_space_is_what_the_standard_library_calls_white_space() {
    let mut code: u32 = 0;
    while code <= 0x10FFFF {
        if let Some(c) = char::from_u32(code) {
            assert_eq!(is_space(c), c.is_whitespace(), "U+{:04X}", code);
        }
        code += 1;
    }
}

#[test]
fn trimmed_agrees_with_the_standard_library() {
    let samples = [
        "",
        " ",
        "\t\n\r ",
        "a",
        " a",
        "a ",
        "  a b  ",
        "\u{3000}wide\u{2003}",
        "\u{a0}non-breaking\u{85}",
        "stdout  text \n",
        "é ü ",
        " \u{200b}zero-width is no white space\u{200b} ",
    ];
    for sample in samples {
        assert_eq!(trimmed(sample), sample.trim(), "{:?}", sample);
    }
    assert_eq!(trimmed("  a b  "), "a b");
}

fn line(stream: Stream, text: &str) -> OutputLine {
    OutputLine { stream, text: text.to_string() }
}

#[test]
fn lines_are_sorted_by_their_mark() {
    assert_eq!(OutputLine::parse("stdout hello"), line(Stream::Stdout, "hello"));
    assert_eq!(OutputLine::parse("stderr Error: no circuit"), line(Stream::Stderr, "Error: no circuit"));
    assert_eq!(OutputLine::parse("  no mark \n"), line(Stream::Unmarked, "no mark"));
    assert_eq!(OutputLine::parse(""), line(Stream::Unmarked, ""));
    assert_eq!(OutputLine::parse("stdout"), line(Stream::Stdout, ""));
    assert_eq!(OutputLine::parse("stderr   "), line(Stream::Stderr, ""));
}

#[test]
fn a_repeated_mark_is_taken_away_as_often_as_it_stands() {
    assert_eq!(OutputLine::parse("stdoutstdout x"), line(Stream::Stdout, "x"));
    assert_eq!(OutputLine::parse("stdout stdout x"), line(Stream::Stdout, "stdout x"));
    assert_eq!(OutputLine::parse("stderrstderrstderr"), line(Stream::Stderr, ""));
    assert_eq!(OutputLine::parse("stdoutstderr x"), line(Stream::Stdout, "stderr x"));
    assert_eq!(OutputLine::parse("stderrstdout x"), line(Stream::Stderr, "stdout x"));
}

#[test]
fn a_mark_counts_only_at_the_very_start() {
    assert_eq!(OutputLine::parse(" stdout x"), line(Stream::Unmarked, "stdout x"));
    assert_eq!(OutputLine::parse("Stdout x"), line(Stream::Unmarked, "Stdout x"));
    assert_eq!(OutputLine::parse("stdou"), line(Stream::Unmarked, "stdou"));
    assert_eq!(OutputLine::parse("stdoutx"), line(Stream::Stdout, "x"));
}

fn reference_markup(string: &str) -> String {
    if string.starts_with("stdout") {
        let string = string.trim_start_matches("stdout").trim();
        if string.starts_with('*') {
            format!("<span color=\"green\">{}</span>\n", string)
        } else {
            format!("{}\n", string)
        }
    } else if string.starts_with("stderr") {
        format!("<span color=\"red\">{}</span>\n", string.trim_start_matches("stderr").trim())
    } else {
        format!("{}\n", string.trim())
    }
}

#[test]
fn markup_follows_stream_and_comment() {
    let samples = [
        "stdout hello",
        "stdout * a comment",
        "stdout*",
        "stdout  ****",
        "stdout not * a comment",
        "stderr Error: bad netlist",
        "stderr * still red",
        "stderr",
        "* unmarked star",
        "plain",
        "",
        "stdoutstdout * twice",
        "\tstdout tabbed",
        "stdout \u{3000}",
    ];
    for sample in samples {
        let sorted = OutputLine::parse(sample);
        let text = sorted.text.clone();
        assert_eq!(sorted.markup(&text), reference_markup(sample), "{:?}", sample);
    }
}

#[test]
fn colours_are_green_for_comments_and_red_for_errors() {
    assert_eq!(OutputLine::parse("stdout * note").color(), Some("green"));
    assert_eq!(OutputLine::parse("stdout note").color(), None);
    assert_eq!(OutputLine::parse("stdout").color(), None);
    assert_eq!(OutputLine::parse("stderr note").color(), Some("red"));
    assert_eq!(OutputLine::parse("stderr").color(), Some("red"));
    assert_eq!(OutputLine::parse("* note").color(), None);
}

#[test]
fn markup_wraps_the_escaped_text_not_the_raw_text() {
    let sorted = OutputLine::parse("stderr a < b");
    assert_eq!(sorted.text, "a < b");
    assert_eq!(sorted.markup("a &lt; b"), "<span color=\"red\">a &lt; b</span>\n");
    let sorted = OutputLine::parse("stdout * a & b");
    assert_eq!(sorted.markup("* a &amp; b"), "<span color=\"green\">* a &amp; b</span>\n");
    let sorted = OutputLine::parse("stdout a > b");
    assert_eq!(sorted.markup("a &gt; b"), "a &gt; b\n");
}

#[test]
fn lines_of_markup_are_put_together_exactly() {
    assert_eq!(plain("Shown on plot view"), "Shown on plot view\n");
    assert_eq!(plain(""), "\n");
    assert_eq!(colored("text", "blue"), "<span color=\"blue\">text</span>\n");
    assert_eq!(colored("", ""), "<span color=\"\"></span>\n");
    assert_eq!(command("showplot op1"), "<span style=\"italic\">$ showplot op1</span>\n");
    assert_eq!(command(""), "<span style=\"italic\">$ </span>\n");
}

#[test]
fn value_lines_are_put_together_exactly() {
    assert_eq!(real_value("v(1)", "5"), "v(1): 5\n");
    assert_eq!(real_value("i(v1)", "-0.005"), "i(v1): -0.005\n");
    assert_eq!(complex_value("v(out)", "0.5", "-0.25"), "v(out): 0.5 + -0.25j\n");
    assert_eq!(real_value("v(1)", &format!("{}", 5.0f64)), format!("{}: {}\n", "v(1)", 5.0f64));
    assert_eq!(
        complex_value("x", &format!("{}", 1.5f64), &format!("{}", 2.0f64)),
        format!("{}: {} + {}j\n", "x", 1.5f64, 2.0f64)
    );
}

fn reference_command(text: &str) -> Command {
    match text.split_whitespace().collect::<Vec<_>>().as_slice() {
        ["source"] => Command::Source,
        ["showplot"] => Command::ShowCurrentPlot,
        ["showplot", plot_name] => Command::ShowPlot(plot_name.to_string()),
        ["clear"] => Command::Clear,
        _ => Command::Engine(text.to_string()),
    }
}

#[test]
fn commands_of_the_front_end_are_recognised() {
    assert_eq!(Command::parse("source"), Command::Source);
    assert_eq!(Command::parse("  source\t"), Command::Source);
    assert_eq!(Command::parse("showplot"), Command::ShowCurrentPlot);
    assert_eq!(Command::parse(" showplot "), Command::ShowCurrentPlot);
    assert_eq!(Command::parse("showplot tran1"), Command::ShowPlot("tran1".to_string()));
    assert_eq!(Command::parse("  showplot \t op1  "), Command::ShowPlot("op1".to_string()));
    assert_eq!(Command::parse("clear"), Command::Clear);
    assert_eq!(Command::parse("\nclear\n"), Command::Clear);
}

#[test]
fn everything_else_goes_to_the_engine_as_typed() {
    assert_eq!(Command::parse("run"), Command::Engine("run".to_string()));
    assert_eq!(Command::parse("  tran 1u 1m "), Command::Engine("  tran 1u 1m ".to_string()));
    assert_eq!(Command::parse(""), Command::Engine("".to_string()));
    assert_eq!(Command::parse("   "), Command::Engine("   ".to_string()));
    assert_eq!(Command::parse("source x"), Command::Engine("source x".to_string()));
    assert_eq!(Command::parse("clear all"), Command::Engine("clear all".to_string()));
    assert_eq!(Command::parse("showplot a b"), Command::Engine("showplot a b".to_string()));
    assert_eq!(Command::parse("showplots"), Command::Engine("showplots".to_string()));
    assert_eq!(Command::parse("showplotx y"), Command::Engine("showplotx y".to_string()));
    assert_eq!(Command::parse("Source"), Command::Engine("Source".to_string()));
}

#[test]
fn commands_agree_with_splitting_at_white_space() {
    let pieces = ["", " ", "\t", "source", "showplot", "clear", "tran1", "a", "\u{3000}", "x y"];
    for first in pieces {
        for second in pieces {
            for third in pieces {
                for fourth in pieces {
                    let text = format!("{}{}{}{}", first, second, third, fourth);
                    assert_eq!(Command::parse(&text), reference_command(&text), "{:?}", text);
                }
            }
        }
    }
}
