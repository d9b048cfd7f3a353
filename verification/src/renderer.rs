//! What the panes show: the window of rows around the selected song, and
//! the column of the text cursor behind the query.

use unicode_width::UnicodeWidthStr;
use vstd::prelude::*;

verus! {

/// The number of terminal columns that a text takes, as
/// `unicode_width::UnicodeWidthStr::width` computes it.
pub uninterp spec fn spec_display_width(text: Seq<char>) -> nat;

/// Calls `UnicodeWidthStr::width` of the crate unicode-width on the text.
/// The width is a function of the text alone; the contract gives it the
/// name `spec_display_width` and claims nothing else.
#[verifier::external_body]
fn display_width(text: &str) -> (width: usize)
    ensures
        width as nat == spec_display_width(text@),
{
    UnicodeWidthStr::width(text)
}

/// The column one past a text of `width` columns that starts one column
/// right of `area_x`, or the last column there is.
pub open spec fn spec_cursor_column(area_x: nat, width: nat) -> nat {
    if area_x + width + 1 <= u16::MAX {
        area_x + width + 1
    } else {
        u16::MAX as nat
    }
}

/// The column of the text cursor for a text of the given width.
pub fn cursor_column_for(area_x: u16, width: usize) -> (column: u16)
    ensures
        column == spec_cursor_column(area_x as nat, width as nat),
{
    let room: u16 = u16::MAX - area_x;
    if width >= room as usize {
        u16::MAX
    } else {
        area_x + (width as u16) + 1
    }
}

/// The column of the text cursor in the search pane: behind the query,
/// inside the border of a pane that starts at column `area_x`.
pub fn cursor_column(area_x: u16, query: &str) -> (column: u16)
    ensures
        column == spec_cursor_column(area_x as nat, spec_display_width(query@)),
{
    cursor_column_for(area_x, display_width(query))
}

/// The first row of the window and the row after its last one.
///
/// A list that fits is shown whole. A longer list is shown from the top
/// while the selection is in the upper half of the window; after that
/// the window starts half its height above the selection and ends half
/// its height below it, or at the end of the list.
pub open spec fn spec_song_range(rows: nat, index: nat, songs_len: nat) -> (int, int) {
    if rows > songs_len {
        (0, songs_len as int)
    } else if index < rows / 2 {
        (0, rows as int)
    } else if index + rows / 2 <= songs_len {
        (index - rows / 2, (index + rows / 2) as int)
    } else {
        (index - rows / 2, songs_len as int)
    }
}

/// The rows of a list of `songs_len` songs to show in a window of `rows`
/// rows when the song at `index` is selected.
pub fn song_range(rows: usize, index: usize, songs_len: usize) -> (range: (usize, usize))
    ensures
        (range.0 as int, range.1 as int) == spec_song_range(
            rows as nat,
            index as nat,
            songs_len as nat,
        ),
        index < songs_len ==> range.0 <= index && range.0 <= range.1 <= songs_len,
{
    if rows > songs_len {
        return (0, songs_len);
    }
    let half: usize = rows / 2;
    if index < half {
        return (0, rows);
    }
    let top: usize = if index <= songs_len - half {
        index + half
    } else {
        songs_len
    };
    (index - half, top)
}

} // verus!
