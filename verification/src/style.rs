//! Colour for a terminal. The colouring itself is the work of the crate
//! `colored`, which decides by the terminal and the environment whether
//! colours are on; this module says what each decision gives.

use colored::Colorize;
use vstd::prelude::*;

verus! {

/// The escape character, with which a terminal's colour codes begin.
pub const ESCAPE: char = '\x1b';

/// The code that switches all styles off.
pub open spec fn reset_code() -> Seq<char> {
    "\x1b[0m"@
}

/// `text` between the terminal codes that switch the style `codes` on and
/// all styles off again.
pub open spec fn painted(text: Seq<char>, codes: Seq<char>) -> Seq<char> {
    "\x1b["@ + codes + "m"@ + text + reset_code()
}

/// Whether `shown` is `text` as it may be shown in the style `codes`:
/// painted where colours are on, plain where they are off, and, where they
/// are switched off while the text is being formatted, plain with the reset
/// code after it.
pub open spec fn shows(shown: Seq<char>, text: Seq<char>, codes: Seq<char>) -> bool {
    shown == text || shown == painted(text, codes) || shown == text + reset_code()
}

/// The codes for bold green.
pub open spec fn bold_green() -> Seq<char> {
    "1;32"@
}

/// The code for blue.
pub open spec fn plain_blue() -> Seq<char> {
    "34"@
}

/// Calls `green` and `bold` of `colored::Colorize` on `text` and formats the
/// `ColoredString`. Whether colours are on depends on the terminal, the
/// environment and a switch of the process, which `colored` reads more than
/// once while it formats. So the contract allows three outcomes: the text
/// itself; the text between the codes for bold green (`1;32`) and the reset
/// code; and, where the switch went off between two reads, the text with
/// the reset code alone after it. It speaks only of a text without an
/// escape character, since `colored` rewrites reset codes that it finds
/// inside a text.
#[verifier::external_body]
pub(crate) fn green_bold(text: &str) -> (shown: String)
    ensures
        !text@.contains(ESCAPE) ==> shows(shown@, text@, bold_green()),
{
    text.green().bold().to_string()
}

/// Calls `blue` of `colored::Colorize` on `text` and formats the
/// `ColoredString`. For a text without an escape character the result is
/// the text itself, the text between the code for blue (`34`) and the reset
/// code, or, where the switch went off while `colored` was formatting, the
/// text with the reset code alone after it.
#[verifier::external_body]
pub(crate) fn blue(text: &str) -> (shown: String)
    ensures
        !text@.contains(ESCAPE) ==> shows(shown@, text@, plain_blue()),
{
    text.blue().to_string()
}

} // verus!
