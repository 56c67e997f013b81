//! Colouring text for a terminal.
//!
//! The colouring itself is done by the `colored` crate, which decides from
//! the environment whether to colour at all. [`shows`] states what is known
//! of its output either way.

use colored::Colorize;
use vstd::prelude::*;

verus! {

/// The colours that the tools print in.
#[derive(Clone, Copy, Debug, PartialEq, Eq, Structural)]
pub enum Tone {
    Green,
    Red,
    Yellow,
    Blue,
}

/// The character that starts a control sequence.
pub open spec fn escape() -> char {
    '\u{1b}'
}

/// The number by which a control sequence names the colour `tone`.
pub open spec fn code(tone: Tone) -> Seq<char> {
    match tone {
        Tone::Red => seq!['3', '1'],
        Tone::Green => seq!['3', '2'],
        Tone::Yellow => seq!['3', '3'],
        Tone::Blue => seq!['3', '4'],
    }
}

/// `text` between the control sequence that switches to `tone` and the one
/// that switches back.
pub open spec fn wrapped(tone: Tone, text: Seq<char>) -> Seq<char> {
    seq![escape(), '['] + code(tone) + seq!['m'] + text + seq![escape(), '[', '0', 'm']
}

/// Whether `text` holds no control sequence of its own.
pub open spec fn is_plain(text: Seq<char>) -> bool {
    forall|i: int| 0 <= i < text.len() ==> #[trigger] text[i] != escape()
}

/// Whether `out` shows `text` in `tone`: for a text without control
/// sequences, `out` is either the text alone, where colours are switched
/// off, or the text wrapped in the colour. Of a text that holds control
/// sequences nothing is stated.
pub open spec fn shows(out: Seq<char>, tone: Tone, text: Seq<char>) -> bool {
    is_plain(text) ==> out == text || out == wrapped(tone, text)
}

/// `colored::Colorize::green` on `text`, written out through the `Display`
/// impl of `colored::ColoredString`. That impl writes the text unchanged
/// where colours are off, and else the text behind `ESC [ 3 2 m` and before
/// `ESC [ 0 m`; only a text that holds a reset sequence is written otherwise.
#[verifier::external_body]
fn green(text: &str) -> (out: String)
    ensures
        shows(out@, Tone::Green, text@),
{
    text.green().to_string()
}

/// `colored::Colorize::red` on `text`, written out through the `Display`
/// impl of `colored::ColoredString`: as for green, with the code `3 1`.
#[verifier::external_body]
fn red(text: &str) -> (out: String)
    ensures
        shows(out@, Tone::Red, text@),
{
    text.red().to_string()
}

/// `colored::Colorize::yellow` on `text`, written out through the `Display`
/// impl of `colored::ColoredString`: as for green, with the code `3 3`.
#[verifier::external_body]
fn yellow(text: &str) -> (out: String)
    ensures
        shows(out@, Tone::Yellow, text@),
{
    text.yellow().to_string()
}

/// `colored::Colorize::blue` on `text`, written out through the `Display`
/// impl of `colored::ColoredString`: as for green, with the code `3 4`.
#[verifier::external_body]
fn blue(text: &str) -> (out: String)
    ensures
        shows(out@, Tone::Blue, text@),
{
    text.blue().to_string()
}

/// `text` as it is to be printed in `tone`.
pub fn paint(text: &str, tone: Tone) -> (out: String)
    ensures
        shows(out@, tone, text@),
{
    match tone {
        Tone::Green => green(text),
        Tone::Red => red(text),
        Tone::Yellow => yellow(text),
        Tone::Blue => blue(text),
    }
}

} // verus!
