//! How many terminal columns a character or a string takes.
//!
//! The widths come from the `unicode-width` crate. Nothing in this module is
//! proved of them: the two functions that call the crate are trusted to
//! return what their contracts say.

use unicode_width::{UnicodeWidthChar, UnicodeWidthStr};
use vstd::prelude::*;

verus! {

/// What `unicode_width::UnicodeWidthChar::width` returns for `c`: the number of
/// columns that the character takes, or `None` for a control character.
pub uninterp spec fn unicode_char_width(c: char) -> Option<usize>;

/// What `unicode_width::UnicodeWidthStr::width` returns for a string of these
/// characters: the number of columns that the string takes as a whole, which
/// ligatures and emoji sequences can make smaller than the sum of its characters' widths.
pub uninterp spec fn unicode_str_width(s: Seq<char>) -> usize;

/// Calls `unicode_width::UnicodeWidthChar::width` on `c`.
///
/// Trusted: the result is the crate's answer for `c`, which depends on `c`
/// alone, and a width is never more than 3 (the crate's tables hold 0, 1 and 2,
/// and its code gives 3 to a single character, U+17D8).
#[verifier::external_body]
pub(crate) fn char_width(c: char) -> (w: Option<usize>)
    ensures
        w == unicode_char_width(c),
        w matches Some(n) ==> n <= 3,
{
    c.width()
}

/// Calls `unicode_width::UnicodeWidthStr::width` on `s`.
///
/// Trusted: the result is the crate's answer for `s`, which depends on the
/// characters of `s` alone.
#[verifier::external_body]
pub(crate) fn str_width(s: &str) -> (w: usize)
    ensures
        w == unicode_str_width(s@),
{
    s.width()
}

/// The number of columns that `c` takes when it is drawn: its Unicode width,
/// and 1 for a control character, which has none.
pub open spec fn display_width(c: char) -> int {
    match unicode_char_width(c) {
        Some(w) => w as int,
        None => 1,
    }
}

/// The number of columns that `c` takes when it is measured for layout: its
/// Unicode width, and 0 for a control character, which has none.
pub open spec fn layout_width(c: char) -> int {
    match unicode_char_width(c) {
        Some(w) => w as int,
        None => 0,
    }
}

/// The number of columns that `c` takes when it is drawn.
pub fn char_columns(c: char) -> (w: u8)
    ensures
        w == display_width(c),
        w <= 3,
{
    match char_width(c) {
        Some(w) => w as u8,
        None => 1,
    }
}

/// The number of columns that `c` takes when it is measured for layout.
pub fn char_layout_columns(c: char) -> (w: u8)
    ensures
        w == layout_width(c),
        w <= 3,
{
    match char_width(c) {
        Some(w) => w as u8,
        None => 0,
    }
}

/// The number of columns that the string `s` takes as a whole.
pub fn str_columns(s: &str) -> (w: usize)
    ensures
        w == unicode_str_width(s@),
{
    str_width(s)
}

} // verus!
