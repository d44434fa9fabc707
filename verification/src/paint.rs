//! Terminal styling of a text: sixteen colours and bold.
//!
//! The styling itself is done by the `colored` crate. At the time of each
//! call that crate decides, from a switch that it keeps for the whole
//! process, whether to style at all. Where it does not, the text comes back
//! as it is. Where it does, the text comes back between an escape sequence
//! that switches the style on and the one that switches every style off;
//! and since a text may itself hold the latter, the style is switched on
//! again behind each such place. A styled text therefore has two possible
//! faces, and the contracts here say which two. Which of them a call gives
//! is not said: it is taken only that the switch stays as it is while one
//! text is written out.

use colored::Colorize;
use vstd::prelude::*;

verus! {

/// The sixteen colours a text can be given.
#[derive(Clone, Copy, Debug, PartialEq, Eq, Structural)]
pub enum Tint {
    Black,
    Red,
    Green,
    Yellow,
    Blue,
    Magenta,
    Cyan,
    White,
    BrightBlack,
    BrightRed,
    BrightGreen,
    BrightYellow,
    BrightBlue,
    BrightMagenta,
    BrightCyan,
    BrightWhite,
}

impl Tint {
    /// The parameter of the escape sequence that selects this colour for
    /// the text.
    pub open spec fn code(self) -> Seq<char> {
        match self {
            Tint::Black => seq!['3', '0'],
            Tint::Red => seq!['3', '1'],
            Tint::Green => seq!['3', '2'],
            Tint::Yellow => seq!['3', '3'],
            Tint::Blue => seq!['3', '4'],
            Tint::Magenta => seq!['3', '5'],
            Tint::Cyan => seq!['3', '6'],
            Tint::White => seq!['3', '7'],
            Tint::BrightBlack => seq!['9', '0'],
            Tint::BrightRed => seq!['9', '1'],
            Tint::BrightGreen => seq!['9', '2'],
            Tint::BrightYellow => seq!['9', '3'],
            Tint::BrightBlue => seq!['9', '4'],
            Tint::BrightMagenta => seq!['9', '5'],
            Tint::BrightCyan => seq!['9', '6'],
            Tint::BrightWhite => seq!['9', '7'],
        }
    }

    /// The parameters that select this colour together with bold.
    pub open spec fn bold_code(self) -> Seq<char> {
        bold_code() + seq![';'] + self.code()
    }
}

/// The parameter of the escape sequence that selects bold.
pub open spec fn bold_code() -> Seq<char> {
    seq!['1']
}

/// The escape sequence that switches a style on.
pub open spec fn style_start(params: Seq<char>) -> Seq<char> {
    seq!['\u{1b}', '['] + params + seq!['m']
}

/// The escape sequence that switches every style off.
pub open spec fn style_end() -> Seq<char> {
    seq!['\u{1b}', '[', '0', 'm']
}

/// `text` with the style switched on again behind every place where the
/// text itself switches styles off.
pub open spec fn resumed(text: Seq<char>, params: Seq<char>) -> Seq<char>
    decreases text.len(),
{
    if text.len() == 0 {
        text
    } else if style_end().is_prefix_of(text) {
        style_end() + style_start(params) + resumed(text.skip(4), params)
    } else {
        text.take(1) + resumed(text.skip(1), params)
    }
}

/// `text` between the sequence that switches the style on and the one that
/// switches it off.
pub open spec fn styled(text: Seq<char>, params: Seq<char>) -> Seq<char> {
    style_start(params) + resumed(text, params) + style_end()
}

/// The face of a text: styled where colouring is on, untouched where it is
/// off.
pub open spec fn face(text: Seq<char>, params: Seq<char>, colouring: bool) -> Seq<char> {
    if colouring {
        styled(text, params)
    } else {
        text
    }
}

/// Whether `out` is one of the two faces of `text` under the given style.
pub open spec fn is_face(out: Seq<char>, text: Seq<char>, params: Seq<char>) -> bool {
    out == face(text, params, false) || out == face(text, params, true)
}

/// Where no escape character occurs in a text, there is no place in it to
/// switch a style on again: the styled face is the text between the two
/// escape sequences.
pub proof fn lemma_styled_without_escape(text: Seq<char>, params: Seq<char>)
    requires
        !text.contains('\u{1b}'),
    ensures
        resumed(text, params) == text,
        styled(text, params) == style_start(params) + text + style_end(),
    decreases text.len(),
{
    if text.len() > 0 {
        lemma_styled_without_escape(text.skip(1), params);
    }
}

/// `Colorize::black` of `colored`, written out through `Display`: the text as
/// it is, or in the style of parameter 30.
#[verifier::external_body]
fn black(text: &str) -> (out: String)
    ensures
        is_face(out@, text@, Tint::Black.code()),
{
    format!("{}", text.black())
}

/// `Colorize::red` of `colored`, written out through `Display`: the text as
/// it is, or in the style of parameter 31.
#[verifier::external_body]
fn red(text: &str) -> (out: String)
    ensures
        is_face(out@, text@, Tint::Red.code()),
{
    format!("{}", text.red())
}

/// `Colorize::green` of `colored`, written out through `Display`: the text as
/// it is, or in the style of parameter 32.
#[verifier::external_body]
fn green(text: &str) -> (out: String)
    ensures
        is_face(out@, text@, Tint::Green.code()),
{
    format!("{}", text.green())
}

/// `Colorize::yellow` of `colored`, written out through `Display`: the text as
/// it is, or in the style of parameter 33.
#[verifier::external_body]
fn yellow(text: &str) -> (out: String)
    ensures
        is_face(out@, text@, Tint::Yellow.code()),
{
    format!("{}", text.yellow())
}

/// `Colorize::blue` of `colored`, written out through `Display`: the text as
/// it is, or in the style of parameter 34.
#[verifier::external_body]
fn blue(text: &str) -> (out: String)
    ensures
        is_face(out@, text@, Tint::Blue.code()),
{
    format!("{}", text.blue())
}

/// `Colorize::magenta` of `colored`, written out through `Display`: the text as
/// it is, or in the style of parameter 35.
#[verifier::external_body]
fn magenta(text: &str) -> (out: String)
    ensures
        is_face(out@, text@, Tint::Magenta.code()),
{
    format!("{}", text.magenta())
}

/// `Colorize::cyan` of `colored`, written out through `Display`: the text as
/// it is, or in the style of parameter 36.
#[verifier::external_body]
fn cyan(text: &str) -> (out: String)
    ensures
        is_face(out@, text@, Tint::Cyan.code()),
{
    format!("{}", text.cyan())
}

/// `Colorize::white` of `colored`, written out through `Display`: the text as
/// it is, or in the style of parameter 37.
#[verifier::external_body]
fn white(text: &str) -> (out: String)
    ensures
        is_face(out@, text@, Tint::White.code()),
{
    format!("{}", text.white())
}

/// `Colorize::bright_black` of `colored`, written out through `Display`: the text as
/// it is, or in the style of parameter 90.
#[verifier::external_body]
fn bright_black(text: &str) -> (out: String)
    ensures
        is_face(out@, text@, Tint::BrightBlack.code()),
{
    format!("{}", text.bright_black())
}

/// `Colorize::bright_red` of `colored`, written out through `Display`: the text as
/// it is, or in the style of parameter 91.
#[verifier::external_body]
fn bright_red(text: &str) -> (out: String)
    ensures
        is_face(out@, text@, Tint::BrightRed.code()),
{
    format!("{}", text.bright_red())
}

/// `Colorize::bright_green` of `colored`, written out through `Display`: the text as
/// it is, or in the style of parameter 92.
#[verifier::external_body]
fn bright_green(text: &str) -> (out: String)
    ensures
        is_face(out@, text@, Tint::BrightGreen.code()),
{
    format!("{}", text.bright_green())
}

/// `Colorize::bright_yellow` of `colored`, written out through `Display`: the text as
/// it is, or in the style of parameter 93.
#[verifier::external_body]
fn bright_yellow(text: &str) -> (out: String)
    ensures
        is_face(out@, text@, Tint::BrightYellow.code()),
{
    format!("{}", text.bright_yellow())
}

/// `Colorize::bright_blue` of `colored`, written out through `Display`: the text as
/// it is, or in the style of parameter 94.
#[verifier::external_body]
fn bright_blue(text: &str) -> (out: String)
    ensures
        is_face(out@, text@, Tint::BrightBlue.code()),
{
    format!("{}", text.bright_blue())
}

/// `Colorize::bright_magenta` of `colored`, written out through `Display`: the text as
/// it is, or in the style of parameter 95.
#[verifier::external_body]
fn bright_magenta(text: &str) -> (out: String)
    ensures
        is_face(out@, text@, Tint::BrightMagenta.code()),
{
    format!("{}", text.bright_magenta())
}

/// `Colorize::bright_cyan` of `colored`, written out through `Display`: the text as
/// it is, or in the style of parameter 96.
#[verifier::external_body]
fn bright_cyan(text: &str) -> (out: String)
    ensures
        is_face(out@, text@, Tint::BrightCyan.code()),
{
    format!("{}", text.bright_cyan())
}

/// `Colorize::bright_white` of `colored`, written out through `Display`: the text as
/// it is, or in the style of parameter 97.
#[verifier::external_body]
fn bright_white(text: &str) -> (out: String)
    ensures
        is_face(out@, text@, Tint::BrightWhite.code()),
{
    format!("{}", text.bright_white())
}

/// `Colorize::bold` of `colored`, written out through `Display`: the text as
/// it is, or in the style of parameter 1.
#[verifier::external_body]
pub(crate) fn bold(text: &str) -> (out: String)
    ensures
        is_face(out@, text@, bold_code()),
{
    format!("{}", text.bold())
}

/// `Colorize::bright_red` and then `Colorize::bold` of `colored`, written out
/// through `Display`: the text as it is, or in the style of parameters 1;91.
#[verifier::external_body]
pub(crate) fn bright_red_bold(text: &str) -> (out: String)
    ensures
        is_face(out@, text@, Tint::BrightRed.bold_code()),
{
    format!("{}", text.bright_red().bold())
}

/// Gives a text a colour.
pub fn paint(text: &str, tint: Tint) -> (out: String)
    ensures
        is_face(out@, text@, tint.code()),
{
    match tint {
        Tint::Black => black(text),
        Tint::Red => red(text),
        Tint::Green => green(text),
        Tint::Yellow => yellow(text),
        Tint::Blue => blue(text),
        Tint::Magenta => magenta(text),
        Tint::Cyan => cyan(text),
        Tint::White => white(text),
        Tint::BrightBlack => bright_black(text),
        Tint::BrightRed => bright_red(text),
        Tint::BrightGreen => bright_green(text),
        Tint::BrightYellow => bright_yellow(text),
        Tint::BrightBlue => bright_blue(text),
        Tint::BrightMagenta => bright_magenta(text),
        Tint::BrightCyan => bright_cyan(text),
        Tint::BrightWhite => bright_white(text),
    }
}

} // verus!
