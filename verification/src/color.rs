//! ANSI styling for terminals.

use vstd::prelude::*;
use crate::text::owned;

verus! {

pub const RESET: &'static str = "\x1b[0m";
pub const BOLD: &'static str = "\x1b[1m";
pub const DIM: &'static str = "\x1b[2m";
pub const ITALIC: &'static str = "\x1b[3m";
pub const GREEN: &'static str = "\x1b[32m";
pub const YELLOW: &'static str = "\x1b[33m";
pub const MAGENTA: &'static str = "\x1b[35m";
pub const CYAN: &'static str = "\x1b[36m";

/// `text` in a style when color is on, as it is otherwise.
pub open spec fn paint_of(color: bool, style: Seq<char>, text: Seq<char>) -> Seq<char> {
    if color {
        style + text + RESET@
    } else {
        text
    }
}

pub fn paint(color: bool, style: &str, text: &str) -> (r: String)
    ensures
        r@ == paint_of(color, style@, text@),
{
    if color {
        let mut r = owned(style);
        r.append(text);
        r.append(RESET);
        r
    } else {
        owned(text)
    }
}

/// A terminal hyperlink to `url` showing `text` when color is on; the text
/// alone otherwise.
pub open spec fn hyperlink_of(color: bool, url: Seq<char>, text: Seq<char>) -> Seq<char> {
    if color {
        "\x1b]8;;"@ + url + "\x1b\\"@ + text + "\x1b]8;;\x1b\\"@
    } else {
        text
    }
}

pub fn hyperlink(color: bool, url: &str, text: &str) -> (r: String)
    ensures
        r@ == hyperlink_of(color, url@, text@),
{
    if color {
        let mut r = owned("\x1b]8;;");
        r.append(url);
        r.append("\x1b\\");
        r.append(text);
        r.append("\x1b]8;;\x1b\\");
        r
    } else {
        owned(text)
    }
}

} // verus!
