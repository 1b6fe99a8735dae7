//! Terminal presentation: a pure mapping from a semantic tone and a
//! highlight mode to escape sequences. The plain mode yields empty
//! strings throughout, so output degrades to unstyled text.

use vstd::prelude::*;
use vstd::string::StringExecFns;

verus! {

/// How much color the terminal is asked for.
#[derive(Clone, Copy, PartialEq, Eq, Structural)]
pub enum HighlightMode {
    Plain,
    Ansi16,
    Ansi256,
    TrueColor,
}

/// The semantic tone of a piece of output.
#[derive(Clone, Copy, PartialEq, Eq, Structural)]
pub enum Tone {
    Success,
    Failure,
    Info,
    Warning,
}

/// The escape sequence that switches the terminal to a tone's color.
pub open spec fn color_escape_spec(tone: Tone, mode: HighlightMode) -> Seq<char> {
    match mode {
        HighlightMode::Plain => Seq::<char>::empty(),
        HighlightMode::Ansi16 => match tone {
            Tone::Success => "\u{1b}[32m"@,
            Tone::Failure => "\u{1b}[31m"@,
            Tone::Info => "\u{1b}[36m"@,
            Tone::Warning => "\u{1b}[33m"@,
        },
        HighlightMode::Ansi256 => match tone {
            Tone::Success => "\u{1b}[38;5;2m"@,
            Tone::Failure => "\u{1b}[38;5;1m"@,
            Tone::Info => "\u{1b}[38;5;6m"@,
            Tone::Warning => "\u{1b}[38;5;3m"@,
        },
        HighlightMode::TrueColor => match tone {
            Tone::Success => "\u{1b}[38;2;0;205;0m"@,
            Tone::Failure => "\u{1b}[38;2;205;0;0m"@,
            Tone::Info => "\u{1b}[38;2;0;205;205m"@,
            Tone::Warning => "\u{1b}[38;2;205;205;0m"@,
        },
    }
}

/// The escape sequence that resets the terminal's color.
pub open spec fn reset_escape_spec(mode: HighlightMode) -> Seq<char> {
    match mode {
        HighlightMode::Plain => Seq::<char>::empty(),
        _ => "\u{1b}[0m"@,
    }
}

pub fn color_escape(tone: Tone, mode: HighlightMode) -> (r: &'static str)
    ensures
        r@ == color_escape_spec(tone, mode),
{
    match mode {
        HighlightMode::Plain => {
            proof {
                reveal_strlit("");
                assert(""@ =~= Seq::<char>::empty());
            }
            ""
        },
        HighlightMode::Ansi16 => match tone {
            Tone::Success => "\u{1b}[32m",
            Tone::Failure => "\u{1b}[31m",
            Tone::Info => "\u{1b}[36m",
            Tone::Warning => "\u{1b}[33m",
        },
        HighlightMode::Ansi256 => match tone {
            Tone::Success => "\u{1b}[38;5;2m",
            Tone::Failure => "\u{1b}[38;5;1m",
            Tone::Info => "\u{1b}[38;5;6m",
            Tone::Warning => "\u{1b}[38;5;3m",
        },
        HighlightMode::TrueColor => match tone {
            Tone::Success => "\u{1b}[38;2;0;205;0m",
            Tone::Failure => "\u{1b}[38;2;205;0;0m",
            Tone::Info => "\u{1b}[38;2;0;205;205m",
            Tone::Warning => "\u{1b}[38;2;205;205;0m",
        },
    }
}

pub fn reset_escape(mode: HighlightMode) -> (r: &'static str)
    ensures
        r@ == reset_escape_spec(mode),
{
    match mode {
        HighlightMode::Plain => {
            proof {
                reveal_strlit("");
                assert(""@ =~= Seq::<char>::empty());
            }
            ""
        },
        _ => "\u{1b}[0m",
    }
}

/// `text` wrapped in a tone's color escape and the reset escape.
pub open spec fn painted_spec(text: Seq<char>, tone: Tone, mode: HighlightMode) -> Seq<char> {
    color_escape_spec(tone, mode) + text + reset_escape_spec(mode)
}

pub fn paint(text: &str, tone: Tone, mode: HighlightMode) -> (r: String)
    ensures
        r@ == painted_spec(text@, tone, mode),
{
    let mut r = String::from_str(color_escape(tone, mode));
    r.append(text);
    r.append(reset_escape(mode));
    r
}

/// In the plain mode every escape is empty, so painting changes nothing.
pub proof fn lemma_plain_paint_is_identity(text: Seq<char>, tone: Tone)
    ensures
        painted_spec(text, tone, HighlightMode::Plain) == text,
{
    assert(painted_spec(text, tone, HighlightMode::Plain) =~= text);
}

} // verus!
