//! Terminal colouring of a piece of text.

use owo_colors::OwoColorize;
use vstd::prelude::*;

verus! {

/// The character that stands for the decimal digit `d`.
pub open spec fn digit_char(d: int) -> char {
    ((48 + d) as u8) as char
}

/// `n` written in decimal, without sign or padding.
pub open spec fn decimal(n: nat) -> Seq<char>
    decreases n,
{
    if n < 10 {
        seq![digit_char(n as int)]
    } else {
        decimal(n / 10).push(digit_char((n % 10) as int))
    }
}

/// The escape sequence that switches the foreground to a 24-bit colour.
pub open spec fn foreground_on(red: u8, green: u8, blue: u8) -> Seq<char> {
    seq!['\x1b', '[', '3', '8', ';', '2', ';'] + decimal(red as nat) + seq![';'] + decimal(
        green as nat,
    ) + seq![';'] + decimal(blue as nat) + seq!['m']
}

/// The escape sequence that switches the foreground back to the default.
pub open spec fn foreground_off() -> Seq<char> {
    seq!['\x1b', '[', '3', '9', 'm']
}

/// `text` wrapped so that a terminal shows it in the given colour.
pub open spec fn painted(text: Seq<char>, red: u8, green: u8, blue: u8) -> Seq<char> {
    foreground_on(red, green, blue) + text + foreground_off()
}

/// Calls `OwoColorize::truecolor` of owo-colors on `text` and renders the
/// result through its `Display` impl. Trusted: that impl writes the
/// foreground sequence `ESC [ 38 ; 2 ; r ; g ; b m` with the three
/// components in decimal, then the text unchanged, then `ESC [ 39 m`.
#[verifier::external_body]
pub(crate) fn truecolor(text: &str, red: u8, green: u8, blue: u8) -> (out: String)
    ensures
        out@ == painted(text@, red, green, blue),
{
    text.truecolor(red, green, blue).to_string()
}

} // verus!
