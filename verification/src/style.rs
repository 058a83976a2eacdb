//! The colours of the report. Whether text gets colours at all is for the
//! environment to say: a terminal gets them, a file does not, and the user
//! can ask for either. So of a styled text it is known only that it is the
//! text as it was, or the text between the escape sequence of its style and
//! the sequence that ends every style.

use crate::text::chars_of;
use colored::Colorize;
use vstd::prelude::*;
use vstd::string::*;

verus! {

/// The character that starts an escape sequence.
pub const ESCAPE: char = '\u{1b}';

/// Whether the text holds no escape character.
pub open spec fn is_plain(text: Seq<char>) -> bool {
    forall|i: int| 0 <= i < text.len() ==> #[trigger] text[i] != ESCAPE
}

/// The escape sequence for bold, underlined and blue: the style of the
/// header.
pub open spec fn header_style() -> Seq<char> {
    "\u{1b}[1;4;34m"@
}

/// The escape sequence for green: the style of the separator line.
pub open spec fn separator_style() -> Seq<char> {
    "\u{1b}[32m"@
}

/// The escape sequence for bold and yellow: the style of the label of the
/// totals.
pub open spec fn total_style() -> Seq<char> {
    "\u{1b}[1;33m"@
}

/// The escape sequence that ends every style.
pub open spec fn style_end() -> Seq<char> {
    "\u{1b}[0m"@
}

/// Whether `painted` is what a coloured string of `text` displays as: the
/// text between `style` and the end of the style, or, where no colours are
/// wanted, the text as it is.
pub open spec fn is_painted(painted: Seq<char>, text: Seq<char>, style: Seq<char>) -> bool {
    painted == text || painted == style + text + style_end()
}

/// Whether `styled` is `text` in the style that `style` starts. A text
/// without an escape character is painted. A text that holds an escape
/// character is not styled at all: it stays exactly as it is.
pub open spec fn is_styled(styled: Seq<char>, text: Seq<char>, style: Seq<char>) -> bool {
    if is_plain(text) {
        is_painted(styled, text, style)
    } else {
        styled == text
    }
}

/// `bold`, `underline` and `blue` of colored, and the text that the
/// coloured string displays as. Where colours are wanted that is the
/// escape sequence of the three, the text and the sequence that ends the
/// style; where they are not, the text alone.
#[verifier::external_body]
fn bold_underlined_blue(text: &str) -> (styled: String)
    requires
        is_plain(text@),
    ensures
        is_painted(styled@, text@, header_style()),
{
    text.bold().underline().blue().to_string()
}

/// `green` of colored, and the text that the coloured string displays as:
/// between the escape sequence for green and the end of the style where
/// colours are wanted, alone where they are not.
#[verifier::external_body]
fn green(text: &str) -> (styled: String)
    requires
        is_plain(text@),
    ensures
        is_painted(styled@, text@, separator_style()),
{
    text.green().to_string()
}

/// `bold` and `yellow` of colored, and the text that the coloured string
/// displays as: between the escape sequence of the two and the end of the
/// style where colours are wanted, alone where they are not.
#[verifier::external_body]
fn bold_yellow(text: &str) -> (styled: String)
    requires
        is_plain(text@),
    ensures
        is_painted(styled@, text@, total_style()),
{
    text.bold().yellow().to_string()
}

/// Whether the text holds no escape character.
pub fn plain(text: &str) -> (none: bool)
    ensures
        none == is_plain(text@),
{
    let chars = chars_of(text);
    let mut i: usize = 0;
    while i < chars.len()
        invariant
            i <= chars.len(),
            chars@ == text@,
            forall|k: int| 0 <= k < i ==> #[trigger] chars@[k] != ESCAPE,
        decreases chars.len() - i,
    {
        if chars[i] == ESCAPE {
            return false;
        }
        i += 1;
    }
    true
}

/// A cell of the header in the style of the header. A cell that holds an
/// escape character is left as it is.
pub fn style_header(cell: &str) -> (styled: String)
    ensures
        is_styled(styled@, cell@, header_style()),
{
    if plain(cell) {
        bold_underlined_blue(cell)
    } else {
        String::from_str(cell)
    }
}

/// The separator line in its style. A line that holds an escape character
/// is left as it is.
pub fn style_separator(line: &str) -> (styled: String)
    ensures
        is_styled(styled@, line@, separator_style()),
{
    if plain(line) {
        green(line)
    } else {
        String::from_str(line)
    }
}

/// The label of the totals in its style. A label that holds an escape
/// character is left as it is.
pub fn style_total(label: &str) -> (styled: String)
    ensures
        is_styled(styled@, label@, total_style()),
{
    if plain(label) {
        bold_yellow(label)
    } else {
        String::from_str(label)
    }
}

} // verus!
