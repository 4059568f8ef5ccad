//! What the program says on the console: scripts of styled text, line
//! breaks and pauses, and their rendering with terminal styles.

use colored::{ColoredString, Colorize};
use vstd::prelude::*;
use vstd::string::StringExecFns;

use crate::error::Error;
use crate::text::{framed, owned, texts};

verus! {

/// `colored::ColoredString`: a text together with the style and the colour
/// that it is to be written in. Nothing of what it holds is visible here.
#[verifier::external_type_specification]
#[verifier::external_body]
pub struct ExColoredString(ColoredString);

/// How a piece of text is set off on the terminal.
#[derive(Debug, Clone, Copy, PartialEq, Eq, Hash, Structural)]
pub enum Style {
    Plain,
    Bold,
    Italic,
    Yellow,
    Red,
    BoldYellow,
    BoldRed,
    BoldGreen,
}

/// One element of a script.
#[derive(Debug, Clone, PartialEq, Eq)]
pub enum Piece {
    /// Text in a style, without a line break of its own.
    Text(Style, String),
    /// The end of a line.
    Break,
    /// A pause of so many milliseconds.
    Pause(u64),
}

/// The mathematical content of a [`Piece`].
pub enum PieceView {
    Text(Style, Seq<char>),
    Break,
    Pause(u64),
}

impl View for Piece {
    type V = PieceView;

    open spec fn view(&self) -> PieceView {
        match *self {
            Piece::Text(style, text) => PieceView::Text(style, text@),
            Piece::Break => PieceView::Break,
            Piece::Pause(millis) => PieceView::Pause(millis),
        }
    }
}

/// The contents of a script, in order.
pub open spec fn script(pieces: Seq<Piece>) -> Seq<PieceView> {
    Seq::new(pieces.len(), |i: int| pieces[i]@)
}

/// A piece of plain text.
pub open spec fn plain(text: Seq<char>) -> PieceView {
    PieceView::Text(Style::Plain, text)
}

/// What a piece comes out as where no style is applied to it: plain text
/// as it is, a break as a line feed, a pause as nothing. Styled text has no
/// such form: the terminal decides what it comes out as.
pub open spec fn unstyled(piece: PieceView) -> Option<Seq<char>> {
    match piece {
        PieceView::Text(Style::Plain, text) => Some(text),
        PieceView::Text(_, _) => None,
        PieceView::Break => Some("\n"@),
        PieceView::Pause(_) => Some(Seq::empty()),
    }
}

/// Whether `parts` can be what the pieces of `pieces` come out as, one part
/// for each piece: every piece without a style comes out as it is.
pub open spec fn comes_out_as(pieces: Seq<PieceView>, parts: Seq<Seq<char>>) -> bool {
    &&& parts.len() == pieces.len()
    &&& forall|i: int|
        0 <= i < pieces.len() && unstyled(#[trigger] pieces[i]) is Some ==> parts[i] == unstyled(
            pieces[i],
        )->0
}

/// `ColoredString::from` holds `text` without any style.
#[verifier::external_body]
fn unpainted(text: &str) -> ColoredString {
    ColoredString::from(text)
}

/// `Colorize::bold` adds the bold style to a text.
#[verifier::external_body]
fn bold(text: ColoredString) -> ColoredString {
    text.bold()
}

/// `Colorize::italic` adds the italic style to a text.
#[verifier::external_body]
fn italic(text: ColoredString) -> ColoredString {
    text.italic()
}

/// `Colorize::yellow` sets the colour of a text to yellow.
#[verifier::external_body]
fn yellow(text: ColoredString) -> ColoredString {
    text.yellow()
}

/// `Colorize::red` sets the colour of a text to red.
#[verifier::external_body]
fn red(text: ColoredString) -> ColoredString {
    text.red()
}

/// `Colorize::green` sets the colour of a text to green.
#[verifier::external_body]
fn green(text: ColoredString) -> ColoredString {
    text.green()
}

/// The `Display` form of a `ColoredString`: the text, between the escape
/// sequences of its style where the environment of the process allows
/// colours. Nothing is promised of it.
#[verifier::external_body]
fn written(text: &ColoredString) -> String {
    format!("{}", text)
}

/// `text` as it is written to the terminal in `style`. Plain text is
/// written as it is.
pub fn paint(style: Style, text: &str) -> (painted: String)
    ensures
        style == Style::Plain ==> painted@ == text@,
{
    match style {
        Style::Plain => owned(text),
        Style::Bold => written(&bold(unpainted(text))),
        Style::Italic => written(&italic(unpainted(text))),
        Style::Yellow => written(&yellow(unpainted(text))),
        Style::Red => written(&red(unpainted(text))),
        Style::BoldYellow => written(&yellow(bold(unpainted(text)))),
        Style::BoldRed => written(&red(bold(unpainted(text)))),
        Style::BoldGreen => written(&green(bold(unpainted(text)))),
    }
}

/// All of `parts` end to end.
pub fn join(parts: &Vec<String>) -> (whole: String)
    ensures
        whole@ == framed(texts(parts@), Seq::empty(), Seq::empty()),
{
    let mut whole = String::new();
    crate::text::push_framed(&mut whole, parts, "", "");
    proof {
        reveal_strlit("");
        assert(""@ =~= Seq::<char>::empty());
        assert(whole@ =~= framed(texts(parts@), Seq::empty(), Seq::empty()));
    }
    whole
}

/// What each piece of `pieces` comes out as on the terminal.
pub fn paint_each(pieces: &Vec<Piece>) -> (parts: Vec<String>)
    ensures
        comes_out_as(script(pieces@), texts(parts@)),
{
    let mut parts: Vec<String> = Vec::new();
    let mut i: usize = 0;
    while i < pieces.len()
        invariant
            i <= pieces.len(),
            parts.len() == i,
            forall|j: int|
                0 <= j < i && unstyled(#[trigger] script(pieces@)[j]) is Some ==> parts@[j]@
                    == unstyled(script(pieces@)[j])->0,
        decreases pieces.len() - i,
    {
        let part = match &pieces[i] {
            Piece::Text(style, text) => paint(*style, text.as_str()),
            Piece::Break => owned("\n"),
            Piece::Pause(_) => String::new(),
        };
        parts.push(part);
        i = i + 1;
    }
    parts
}

/// The text that `pieces` comes out as on the terminal: what each piece
/// comes out as, end to end.
pub fn render(pieces: &Vec<Piece>) -> (text: String)
    ensures
        exists|parts: Seq<Seq<char>>| #[trigger]
            comes_out_as(script(pieces@), parts) && text@ == framed(
                parts,
                Seq::empty(),
                Seq::empty(),
            ),
{
    let parts = paint_each(pieces);
    join(&parts)
}

/// How much a log record matters, from the most to the least.
#[derive(Debug, Clone, Copy, PartialEq, Eq, Hash, Structural)]
pub enum Level {
    Error,
    Warn,
    Info,
    Debug,
    Trace,
}

/// The line that stands for a log record of `level` with `message`:
/// warnings in yellow and errors in red, each behind its name in bold; debug
/// records in bold; information as it is; anything else behind the name of
/// its level.
pub open spec fn record_line(level: Level, message: Seq<char>) -> Seq<PieceView> {
    match level {
        Level::Warn => seq![
            PieceView::Text(Style::BoldYellow, "Warning: "@),
            PieceView::Text(Style::Yellow, message),
        ],
        Level::Error => seq![
            PieceView::Text(Style::BoldRed, "Error: "@),
            PieceView::Text(Style::Red, message),
        ],
        Level::Debug => seq![
            PieceView::Text(Style::Bold, "Debug: "@),
            PieceView::Text(Style::Bold, message),
        ],
        Level::Info => seq![plain(message)],
        Level::Trace => seq![plain("TRACE: "@ + message)],
    }
}

/// The lines that follow the top-level message of a failure: one for each
/// cause, in the order of the chain.
pub open spec fn causes(chain: Seq<Seq<char>>) -> Seq<PieceView>
    decreases chain.len(),
{
    if chain.len() == 0 {
        Seq::empty()
    } else {
        causes(chain.drop_last()) + seq![
            plain("\t"@),
            PieceView::Text(Style::Bold, "Caused by: "@),
            plain(chain.last()),
            PieceView::Break,
        ]
    }
}

/// The advice to run again with more output.
pub open spec fn hint() -> Seq<PieceView> {
    seq![
        plain("If you need more information, try to run the program again with the "@),
        PieceView::Text(Style::Bold, "-v"@),
        plain(" flag."@),
        PieceView::Break,
    ]
}

/// What is said after the top-level message of a failure: its causes, one
/// line each, then the advice to run again with more output unless that
/// output is on already.
pub open spec fn failure_script(chain: Seq<Seq<char>>, debug: bool) -> Seq<PieceView> {
    let below = if chain.len() > 0 {
        chain.subrange(1, chain.len() as int)
    } else {
        Seq::empty()
    };
    causes(below) + if debug {
        Seq::empty()
    } else {
        hint()
    }
}

/// How the logger is set up.
#[derive(Debug, Clone, PartialEq, Eq)]
pub enum LoggerPlan {
    /// The filters are parsed from this text.
    Parse(String),
    /// Records of this module and of those below it pass from this level up.
    Filter(String, Level),
}

impl Level {
    /// The line that stands for a log record of this level.
    pub fn line(&self, message: &str) -> (line: Vec<Piece>)
        ensures
            script(line@) == record_line(*self, message@),
    {
        let mut line: Vec<Piece> = Vec::new();
        match self {
            Level::Warn => {
                line.push(Piece::Text(Style::BoldYellow, owned("Warning: ")));
                line.push(Piece::Text(Style::Yellow, owned(message)));
            },
            Level::Error => {
                line.push(Piece::Text(Style::BoldRed, owned("Error: ")));
                line.push(Piece::Text(Style::Red, owned(message)));
            },
            Level::Debug => {
                line.push(Piece::Text(Style::Bold, owned("Debug: ")));
                line.push(Piece::Text(Style::Bold, owned(message)));
            },
            Level::Info => {
                line.push(Piece::Text(Style::Plain, owned(message)));
            },
            Level::Trace => {
                line.push(Piece::Text(Style::Plain, owned("TRACE: ").concat(message)));
            },
        }
        assert(script(line@) =~= record_line(*self, message@));
        line
    }
}

impl LoggerPlan {
    /// The set-up of the logger: a filter text given from outside decides
    /// alone; without one, the program's own records pass from the debug
    /// level up in verbose mode and from the information level up otherwise.
    pub fn select(verbose: bool, filters: Option<String>) -> (plan: LoggerPlan)
        ensures
            match filters {
                Some(text) => plan matches LoggerPlan::Parse(parsed) && parsed@ == text@,
                None => plan matches LoggerPlan::Filter(module, level) && module@ == "super"@
                    && level == if verbose {
                    Level::Debug
                } else {
                    Level::Info
                },
            },
    {
        match filters {
            Some(text) => LoggerPlan::Parse(text),
            None => if verbose {
                LoggerPlan::Filter(owned("super"), Level::Debug)
            } else {
                LoggerPlan::Filter(owned("super"), Level::Info)
            },
        }
    }
}

impl Error {
    /// What is said after the top-level message of this failure, where
    /// `debug` says whether the debug output is on.
    pub fn explain(&self, debug: bool) -> (pieces: Vec<Piece>)
        ensures
            script(pieces@) == failure_script(self@.chain, debug),
    {
        let mut pieces: Vec<Piece> = Vec::new();
        let count = self.chain.len();
        let ghost below = if count > 0 {
            self@.chain.subrange(1, count as int)
        } else {
            Seq::<Seq<char>>::empty()
        };
        assert(script(pieces@) =~= causes(below.take(0)));
        if count > 0 {
            let mut i: usize = 1;
            while i < count
                invariant
                    1 <= i <= count,
                    count == self.chain.len(),
                    below == self@.chain.subrange(1, count as int),
                    script(pieces@) == causes(below.take(i - 1)),
                decreases count - i,
            {
                pieces.push(Piece::Text(Style::Plain, owned("\t")));
                pieces.push(Piece::Text(Style::Bold, owned("Caused by: ")));
                pieces.push(Piece::Text(Style::Plain, self.chain[i].clone()));
                pieces.push(Piece::Break);
                proof {
                    let done = below.take(i as int);
                    assert(done.drop_last() =~= below.take(i - 1));
                    assert(done.last() == self.chain@[i as int]@);
                    assert(script(pieces@) =~= causes(done));
                }
                i = i + 1;
            }
            assert(below.take(count - 1) =~= below);
        } else {
            assert(below.take(0) =~= below);
        }
        if !debug {
            pieces.push(
                Piece::Text(
                    Style::Plain,
                    owned("If you need more information, try to run the program again with the "),
                ),
            );
            pieces.push(Piece::Text(Style::Bold, owned("-v")));
            pieces.push(Piece::Text(Style::Plain, owned(" flag.")));
            pieces.push(Piece::Break);
        }
        assert(script(pieces@) =~= failure_script(self@.chain, debug));
        pieces
    }
}

} // verus!
