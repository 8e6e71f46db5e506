//! Display width and cursor placement.

use vstd::prelude::*;

verus! {

/// The number of terminal columns that a text occupies, as unicode-width
/// computes it.
pub uninterp spec fn display_width(s: Seq<char>) -> nat;

/// Relies on `unicode_width::UnicodeWidthStr::width`: the width depends on
/// the characters alone, and an empty text has none.
#[verifier::external_body]
pub(crate) fn str_width(s: &str) -> (r: usize)
    ensures
        r == display_width(s@),
        s@.len() == 0 ==> r == 0,
{
    unicode_width::UnicodeWidthStr::width(s)
}

/// The cursor for a text of display width `width` whose loaded form had
/// `lines` lines, in a panel whose corner is at (`x`, `y`). Terminal
/// coordinates are 16-bit, so every quantity wraps modulo 2^16.
pub open spec fn cursor_spec(x: u16, y: u16, width: nat, lines: nat) -> (u16, u16) {
    (((x + width % 65536 + 1) % 65536) as u16, ((y + lines % 65536) % 65536) as u16)
}

/// Places the cursor one column past the text and on the row after the
/// panel's top edge given by the line count.
pub fn cursor_at(x: u16, y: u16, width: usize, lines: usize) -> (r: (u16, u16))
    ensures
        r == cursor_spec(x, y, width as nat, lines as nat),
{
    let w = (width % 65536) as u32;
    let n = (lines % 65536) as u32;
    let cx = ((x as u32 + w + 1) % 65536) as u16;
    let cy = ((y as u32 + n) % 65536) as u16;
    (cx, cy)
}

} // verus!
