use super_analyzer::console::{join, paint, paint_each, render, Level, LoggerPlan, Piece, Style};

fn text(style: Style, content: &str) -> Piece {
    Piece::Text(style, content.to_string())
}

#[test]
fn plain_text_is_written_as_it_is() {
    assert_eq!(paint(Style::Plain, "Caused by: "), "Caused by: ");
    assert_eq!(paint(Style::Plain, ""), "");
    assert_eq!(paint(Style::Plain, "\u{2026}\t"), "\u{2026}\t");
}

#[test]
fn styles_are_written_as_escape_sequences_where_colours_are_on() {
    colored::control::set_override(true);
    assert_eq!(paint(Style::Bold, "-v"), "\u{1b}[1m-v\u{1b}[0m");
    assert_eq!(paint(Style::Italic, "app"), "\u{1b}[3mapp\u{1b}[0m");
    assert_eq!(paint(Style::Yellow, "w"), "\u{1b}[33mw\u{1b}[0m");
    assert_eq!(paint(Style::Red, "e"), "\u{1b}[31me\u{1b}[0m");
    assert_eq!(paint(Style::BoldYellow, "Warning: "), "\u{1b}[1;33mWarning: \u{1b}[0m");
    assert_eq!(paint(Style::BoldRed, "Error: "), "\u{1b}[1;31mError: \u{1b}[0m");
    assert_eq!(paint(Style::BoldGreen, "Rust"), "\u{1b}[1;32mRust\u{1b}[0m");
    assert_eq!(paint(Style::Plain, "plain"), "plain");
    assert_eq!(
        render(&vec![
            text(Style::Plain, "\t"),
            text(Style::Bold, "Caused by: "),
            text(Style::Plain, "bad zip"),
            Piece::Break,
        ]),
        "\t\u{1b}[1mCaused by: \u{1b}[0mbad zip\n"
    );
    assert_eq!(
        render(&Level::Error.line("no such file")),
        "\u{1b}[1;31mError: \u{1b}[0m\u{1b}[31mno such file\u{1b}[0m"
    );
    colored::control::set_override(false);
    for style in [
        Style::Bold,
        Style::Italic,
        Style::Yellow,
        Style::Red,
        Style::BoldYellow,
        Style::BoldRed,
        Style::BoldGreen,
    ] {
        assert_eq!(paint(style, "text"), "text");
    }
    assert_eq!(
        render(&Level::Warn.line("careful")),
        "Warning: careful"
    );
    colored::control::unset_override();
}

#[test]
fn breaks_and_pauses_are_rendered_as_a_line_feed_and_as_nothing() {
    let pieces = vec![
        text(Style::Plain, "one"),
        Piece::Break,
        Piece::Pause(1500),
        text(Style::Plain, "two"),
        Piece::Break,
        Piece::Break,
    ];
    assert_eq!(
        paint_each(&pieces),
        vec!["one", "\n", "", "two", "\n", "\n"]
    );
    assert_eq!(render(&pieces), "one\ntwo\n\n");
    assert_eq!(render(&vec![]), "");
}

#[test]
fn joining_puts_the_parts_end_to_end() {
    assert_eq!(join(&vec![]), "");
    assert_eq!(join(&vec!["a".to_string()]), "a");
    assert_eq!(
        join(&vec!["ab".to_string(), "".to_string(), "cd\n".to_string(), "e".to_string()]),
        "abcd\ne"
    );
}

#[test]
fn each_level_has_its_line() {
    assert_eq!(
        Level::Warn.line("disk almost full"),
        vec![
            text(Style::BoldYellow, "Warning: "),
            text(Style::Yellow, "disk almost full"),
        ]
    );
    assert_eq!(
        Level::Error.line("no such file"),
        vec![
            text(Style::BoldRed, "Error: "),
            text(Style::Red, "no such file"),
        ]
    );
    assert_eq!(
        Level::Debug.line("state = 3"),
        vec![text(Style::Bold, "Debug: "), text(Style::Bold, "state = 3")]
    );
    assert_eq!(
        Level::Info.line("Starting"),
        vec![text(Style::Plain, "Starting")]
    );
    assert_eq!(
        Level::Trace.line("entered"),
        vec![text(Style::Plain, "TRACE: entered")]
    );
}

#[test]
fn a_filter_text_from_outside_decides_the_logger_alone() {
    assert_eq!(
        LoggerPlan::select(false, Some("super=trace".to_string())),
        LoggerPlan::Parse("super=trace".to_string())
    );
    assert_eq!(
        LoggerPlan::select(true, Some("".to_string())),
        LoggerPlan::Parse("".to_string())
    );
    assert_eq!(
        LoggerPlan::select(true, None),
        LoggerPlan::Filter("super".to_string(), Level::Debug)
    );
    assert_eq!(
        LoggerPlan::select(false, None),
        LoggerPlan::Filter("super".to_string(), Level::Info)
    );
}
