//! Laws of the writer's state machine, proved once and for all inputs.
//!
//! Each law is stated over [`WriterModel`], the model that every executable
//! operation's contract is written against, so what is proved here holds of
//! every run of the executable writer.

use vstd::prelude::*;

use crate::buffer::ScreenChar;
use crate::buffer::flat_index;
use crate::buffer::BUFFER_CELLS;
use crate::buffer::BUFFER_HEIGHT;
use crate::buffer::BUFFER_WIDTH;
use crate::writer::WriterModel;
use crate::writer::blank_char;
use crate::writer::model_wf;
use crate::writer::sanitize_byte;
use crate::writer::scroll_grid;
use crate::writer::scroll_model;
use crate::writer::write_byte_model;
use crate::writer::write_bytes_model;
use crate::writer::lemma_write_bytes_model_push;
use crate::writer::LINE_FEED;
use crate::writer::PLACEHOLDER;

verus! {

/// Law: writing a printable byte on a row with room stores exactly that byte
/// under the current attribute at the cursor on the bottom row, advances the
/// cursor by one, and touches no other cell. The sanitizer passes such a byte
/// through unchanged.
pub proof fn lemma_printable_byte_stored(w: WriterModel, byte: u8)
    requires
        model_wf(w),
        0x20 <= byte <= 0x7e,
        w.column < BUFFER_WIDTH,
    ensures
        ({
            let m = write_byte_model(w, byte);
            &&& m.grid[flat_index(BUFFER_HEIGHT - 1, w.column as int)] == (ScreenChar {
                ascii_character: byte,
                color_code: w.color,
            })
            &&& m.column == w.column + 1
            &&& m.color == w.color
            &&& forall|k: int|
                0 <= k < BUFFER_CELLS && k != flat_index(BUFFER_HEIGHT - 1, w.column as int)
                    ==> m.grid[k] == w.grid[k]
        }),
        sanitize_byte(byte) == byte,
{
}

/// Law: a byte outside the printable range that is not the line feed is
/// stored as the placeholder glyph, never as itself dropped or merged into
/// the line-feed path: the cursor still advances by one.
pub proof fn lemma_unprintable_byte_replaced(w: WriterModel, byte: u8)
    requires
        model_wf(w),
        !(0x20 <= byte <= 0x7e),
        byte != LINE_FEED,
        w.column < BUFFER_WIDTH,
    ensures
        sanitize_byte(byte) == PLACEHOLDER,
        ({
            let m = write_bytes_model(w, seq![byte]);
            &&& m.grid[flat_index(BUFFER_HEIGHT - 1, w.column as int)].ascii_character
                == PLACEHOLDER
            &&& m.column == w.column + 1
        }),
{
    let s = seq![byte];
    assert(s[0] == byte);
    assert(s.drop_first() =~= Seq::<u8>::empty());
    let w1 = write_byte_model(w, sanitize_byte(byte));
    assert(write_bytes_model(w, s) == write_bytes_model(w1, s.drop_first()));
    assert(write_bytes_model(w1, s.drop_first()) == w1);
}

/// Law: a single line feed scrolls exactly once and resets the cursor to the
/// start of the row, whatever the cursor's prior value.
pub proof fn lemma_line_feed_scrolls_once(w: WriterModel)
    requires
        model_wf(w),
    ensures
        write_byte_model(w, LINE_FEED) == scroll_model(w),
        write_byte_model(w, LINE_FEED).column == 0,
{
}

/// Law: after a scroll, every row that existed below the top row stands one
/// row higher with its content unchanged, and the bottom row is entirely
/// blank under the given attribute.
pub proof fn lemma_scroll_shifts_rows(grid: Seq<ScreenChar>, blank: ScreenChar)
    requires
        grid.len() == BUFFER_CELLS,
    ensures
        forall|r: int, c: int|
            1 <= r < BUFFER_HEIGHT && 0 <= c < BUFFER_WIDTH ==> scroll_grid(grid, blank)[
                flat_index(r - 1, c)
            ] == grid[flat_index(r, c)],
        forall|c: int|
            0 <= c < BUFFER_WIDTH ==> scroll_grid(grid, blank)[#[trigger] flat_index(
                BUFFER_HEIGHT - 1,
                c,
            )] == blank,
{
    assert forall|r: int, c: int|
        1 <= r < BUFFER_HEIGHT && 0 <= c < BUFFER_WIDTH implies scroll_grid(grid, blank)[
        flat_index(r - 1, c)
    ] == grid[flat_index(r, c)] by {
        assert(flat_index(r - 1, c) + BUFFER_WIDTH == flat_index(r, c));
    }
}

/// Law: a run of bytes without a line feed that fits the current row lands
/// sanitized at consecutive columns of the bottom row — every byte in
/// `[0x20, 0x7E]` stored as itself, every other byte as the placeholder, each
/// at its own position under the current attribute — with the cursor advanced
/// past the run, no scroll, and no other cell touched.
pub proof fn lemma_row_bytes_sanitized(w: WriterModel, bytes: Seq<u8>)
    requires
        model_wf(w),
        w.column + bytes.len() <= BUFFER_WIDTH,
        forall|i: int| 0 <= i < bytes.len() ==> #[trigger] bytes[i] != LINE_FEED,
    ensures
        ({
            let m = write_bytes_model(w, bytes);
            &&& m.column == w.column + bytes.len()
            &&& m.color == w.color
            &&& forall|i: int|
                0 <= i < bytes.len() ==> m.grid[flat_index(BUFFER_HEIGHT - 1, w.column + i)] == (
                ScreenChar { ascii_character: sanitize_byte(bytes[i]), color_code: w.color })
            &&& forall|k: int|
                0 <= k < BUFFER_CELLS && !(flat_index(BUFFER_HEIGHT - 1, w.column as int) <= k
                    < flat_index(BUFFER_HEIGHT - 1, w.column + bytes.len() as int)) ==> m.grid[k]
                    == w.grid[k]
        }),
    decreases bytes.len(),
{
    if bytes.len() > 0 {
        let w1 = write_byte_model(w, sanitize_byte(bytes[0]));
        assert(sanitize_byte(bytes[0]) != LINE_FEED);
        lemma_row_bytes_sanitized(w1, bytes.drop_first());
        let m = write_bytes_model(w, bytes);
        assert(m == write_bytes_model(w1, bytes.drop_first()));
        assert forall|i: int|
            0 <= i < bytes.len() implies m.grid[flat_index(BUFFER_HEIGHT - 1, w.column + i)] == (
        ScreenChar { ascii_character: sanitize_byte(bytes[i]), color_code: w.color }) by {
            if i > 0 {
                assert(bytes.drop_first()[i - 1] == bytes[i]);
                assert(m.grid[flat_index(BUFFER_HEIGHT - 1, w1.column + (i - 1))] == (ScreenChar {
                    ascii_character: sanitize_byte(bytes[i]),
                    color_code: w1.color,
                }));
            }
        }
    }
}

/// Law: from the start of a row, exactly a full row of printable bytes wraps
/// nothing — the cursor stands past the row's end and no row above moved —
/// and the next printable byte causes exactly one scroll: the grid is the
/// filled grid scrolled once, with the extra byte at the start of the fresh
/// bottom row and the cursor one past it.
pub proof fn lemma_wrap_after_full_row(w: WriterModel, bytes: Seq<u8>)
    requires
        model_wf(w),
        w.column == 0,
        bytes.len() == BUFFER_WIDTH + 1,
        forall|i: int| 0 <= i < bytes.len() ==> 0x20 <= #[trigger] bytes[i] <= 0x7e,
    ensures
        ({
            let full = write_bytes_model(w, bytes.take(BUFFER_WIDTH as int));
            let m = write_bytes_model(w, bytes);
            &&& full.column == BUFFER_WIDTH
            &&& forall|k: int|
                0 <= k < flat_index(BUFFER_HEIGHT - 1, 0) ==> full.grid[k] == w.grid[k]
            &&& m.column == 1
            &&& m.grid == scroll_grid(full.grid, blank_char(w.color)).update(
                flat_index(BUFFER_HEIGHT - 1, 0),
                ScreenChar { ascii_character: bytes[BUFFER_WIDTH as int], color_code: w.color },
            )
        }),
{
    let prefix = bytes.take(BUFFER_WIDTH as int);
    let last = bytes[BUFFER_WIDTH as int];
    assert(forall|i: int| 0 <= i < prefix.len() ==> #[trigger] prefix[i] != LINE_FEED);
    lemma_row_bytes_sanitized(w, prefix);
    let full = write_bytes_model(w, prefix);
    assert(bytes =~= prefix.push(last));
    lemma_write_bytes_model_push(w, prefix, last);
    assert(write_bytes_model(w, bytes) == write_byte_model(full, last));
    assert(sanitize_byte(last) == last);
}

} // verus!
