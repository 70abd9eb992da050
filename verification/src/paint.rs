//! Colour rendering for user-facing lines.
//!
//! Each helper wraps a piece of text in one fixed ANSI escape prefix and
//! the reset suffix.  The exact byte sequences are part of the contract,
//! so everything built on top of these helpers is pinned down to the
//! final escape-decorated text.

use vstd::prelude::*;

verus! {

/// Text wrapped in an ANSI "select graphic rendition" sequence: the
/// escape prefix with the given codes, the text, then the reset suffix.
pub open spec fn sgr(codes: Seq<char>, text: Seq<char>) -> Seq<char> {
    seq!['\u{1b}', '['] + codes + seq!['m'] + text + seq!['\u{1b}', '[', '0', 'm']
}

/// Bold blue text: codes `1;34`.
pub open spec fn blue_bold(text: Seq<char>) -> Seq<char> {
    sgr(seq!['1', ';', '3', '4'], text)
}

/// Bold white text: codes `1;37`.
pub open spec fn white_bold(text: Seq<char>) -> Seq<char> {
    sgr(seq!['1', ';', '3', '7'], text)
}

/// Bold underlined white text: codes `1;4;37`.
pub open spec fn white_bold_underline(text: Seq<char>) -> Seq<char> {
    sgr(seq!['1', ';', '4', ';', '3', '7'], text)
}

/// Red text: code `31`.
pub open spec fn red(text: Seq<char>) -> Seq<char> {
    sgr(seq!['3', '1'], text)
}

/// Bold red text: codes `1;31`.
pub open spec fn red_bold(text: Seq<char>) -> Seq<char> {
    sgr(seq!['1', ';', '3', '1'], text)
}

/// Green text: code `32`.
pub open spec fn green(text: Seq<char>) -> Seq<char> {
    sgr(seq!['3', '2'], text)
}

/// Relies on `ansi_term::Colour::Blue.bold().paint`: bold comes first in
/// the code list and the foreground colour last, so the text is wrapped
/// in `ESC[1;34m` and the reset suffix `ESC[0m`.
#[verifier::external_body]
pub(crate) fn paint_blue_bold(text: &str) -> (r: String)
    ensures
        r@ == blue_bold(text@),
{
    ansi_term::Colour::Blue.bold().paint(text).to_string()
}

/// Relies on `ansi_term::Colour::White.bold().paint`: wraps the text in
/// `ESC[1;37m` and the reset suffix.
#[verifier::external_body]
pub(crate) fn paint_white_bold(text: &str) -> (r: String)
    ensures
        r@ == white_bold(text@),
{
    ansi_term::Colour::White.bold().paint(text).to_string()
}

/// Relies on `ansi_term::Colour::White.bold().underline().paint`: the
/// style codes are written in the fixed order bold, underline,
/// foreground, so the text is wrapped in `ESC[1;4;37m` and the reset
/// suffix.
#[verifier::external_body]
pub(crate) fn paint_white_bold_underline(text: &str) -> (r: String)
    ensures
        r@ == white_bold_underline(text@),
{
    ansi_term::Colour::White.bold().underline().paint(text).to_string()
}

/// Relies on `ansi_term::Colour::Red.paint`: wraps the text in `ESC[31m`
/// and the reset suffix.
#[verifier::external_body]
pub(crate) fn paint_red(text: &str) -> (r: String)
    ensures
        r@ == red(text@),
{
    ansi_term::Colour::Red.paint(text).to_string()
}

/// Relies on `ansi_term::Colour::Red.bold().paint`: wraps the text in
/// `ESC[1;31m` and the reset suffix.
#[verifier::external_body]
pub(crate) fn paint_red_bold(text: &str) -> (r: String)
    ensures
        r@ == red_bold(text@),
{
    ansi_term::Colour::Red.bold().paint(text).to_string()
}

/// Relies on `ansi_term::Colour::Green.paint`: wraps the text in
/// `ESC[32m` and the reset suffix.
#[verifier::external_body]
pub(crate) fn paint_green(text: &str) -> (r: String)
    ensures
        r@ == green(text@),
{
    ansi_term::Colour::Green.paint(text).to_string()
}

} // verus!
