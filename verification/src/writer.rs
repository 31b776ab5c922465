//! The cursor-and-scroll writer over the character grid.
//!
//! The writer always writes to the bottom row. A printable byte is stored at
//! the cursor and the cursor advances; a line feed — or a byte arriving on a
//! full row — scrolls the whole grid up by one row, blanks the bottom row and
//! resets the cursor. Strings are sanitized byte by byte before writing:
//! anything outside the supported glyph set becomes the placeholder `0xFE`.
//!
//! Every operation's effect is stated against [`WriterModel`], a mathematical
//! model of the writer: the grid as a sequence of cells, the cursor column,
//! and the current color.

use vstd::prelude::*;

use crate::buffer::Buffer;
use crate::buffer::ScreenChar;
use crate::buffer::flat_index;
use crate::buffer::BUFFER_CELLS;
use crate::buffer::BUFFER_HEIGHT;
use crate::buffer::BUFFER_WIDTH;
use crate::color::ColorCode;

verus! {

/// The byte that triggers a scroll.
pub const LINE_FEED: u8 = 0x0a;

/// The glyph stored in place of a byte outside the supported set.
pub const PLACEHOLDER: u8 = 0xfe;

/// The mathematical state of a writer: the grid contents (flat, row-major),
/// the cursor column, and the current color attribute.
#[verifier::ext_equal]
pub ghost struct WriterModel {
    pub grid: Seq<ScreenChar>,
    pub column: nat,
    pub color: ColorCode,
}

/// A valid writer state: the grid has its fixed size and the cursor never
/// lies beyond the end of a row.
pub open spec fn model_wf(w: WriterModel) -> bool {
    &&& w.grid.len() == BUFFER_CELLS
    &&& w.column <= BUFFER_WIDTH
}

/// A blank cell: the space glyph under the given color.
pub open spec fn blank_char(color: ColorCode) -> ScreenChar {
    ScreenChar { ascii_character: 0x20, color_code: color }
}

/// The grid after one scroll: every cell takes the value of the cell one row
/// below it, and the bottom row becomes blank.
pub open spec fn scroll_grid(grid: Seq<ScreenChar>, blank: ScreenChar) -> Seq<ScreenChar> {
    Seq::new(
        grid.len(),
        |i: int|
            if i < flat_index(BUFFER_HEIGHT - 1, 0) {
                grid[i + BUFFER_WIDTH]
            } else {
                blank
            },
    )
}

/// The writer after one scroll: rows shifted up, bottom row blanked under the
/// current color, cursor reset to the start of the row.
pub open spec fn scroll_model(w: WriterModel) -> WriterModel {
    WriterModel { grid: scroll_grid(w.grid, blank_char(w.color)), column: 0, color: w.color }
}

/// The writer after one byte: a line feed scrolls; any other byte is stored
/// at the cursor on the bottom row — after a scroll if the row is already
/// full — and the cursor advances by one.
pub open spec fn write_byte_model(w: WriterModel, byte: u8) -> WriterModel {
    if byte == LINE_FEED {
        scroll_model(w)
    } else {
        let base = if w.column >= BUFFER_WIDTH {
            scroll_model(w)
        } else {
            w
        };
        WriterModel {
            grid: base.grid.update(
                flat_index(BUFFER_HEIGHT - 1, base.column as int),
                ScreenChar { ascii_character: byte, color_code: w.color },
            ),
            column: base.column + 1,
            color: w.color,
        }
    }
}

/// The sanitizer: printable bytes and the line feed pass through; every other
/// byte becomes the placeholder glyph.
pub open spec fn sanitize_byte(byte: u8) -> u8 {
    if 0x20 <= byte <= 0x7e || byte == LINE_FEED {
        byte
    } else {
        PLACEHOLDER
    }
}

/// The writer after a whole byte sequence, each byte sanitized and written in
/// turn.
pub open spec fn write_bytes_model(w: WriterModel, bytes: Seq<u8>) -> WriterModel
    decreases bytes.len(),
{
    if bytes.len() == 0 {
        w
    } else {
        write_bytes_model(write_byte_model(w, sanitize_byte(bytes[0])), bytes.drop_first())
    }
}

/// Appending one byte to a sequence writes the sequence, then that byte.
pub proof fn lemma_write_bytes_model_push(w: WriterModel, bytes: Seq<u8>, byte: u8)
    ensures
        write_bytes_model(w, bytes.push(byte)) == write_byte_model(
            write_bytes_model(w, bytes),
            sanitize_byte(byte),
        ),
    decreases bytes.len(),
{
    let pushed = bytes.push(byte);
    if bytes.len() == 0 {
        assert(pushed[0] == byte);
        assert(pushed.drop_first() =~= Seq::<u8>::empty());
        let w1 = write_byte_model(w, sanitize_byte(byte));
        assert(write_bytes_model(w, pushed) == write_bytes_model(w1, pushed.drop_first()));
        assert(write_bytes_model(w1, pushed.drop_first()) == w1);
        assert(write_bytes_model(w, bytes) == w);
    } else {
        assert(pushed[0] == bytes[0]);
        assert(pushed.drop_first() =~= bytes.drop_first().push(byte));
        let w1 = write_byte_model(w, sanitize_byte(bytes[0]));
        lemma_write_bytes_model_push(w1, bytes.drop_first(), byte);
        assert(write_bytes_model(w, pushed) == write_bytes_model(w1, pushed.drop_first()));
        assert(write_bytes_model(w, bytes) == write_bytes_model(w1, bytes.drop_first()));
    }
}

/// Owns the cursor and the current color, and writes bytes and strings onto
/// the grid it holds. Its view is the [`WriterModel`] it realizes.
pub struct Writer {
    column_position: usize,
    color_code: ColorCode,
    buffer: Buffer,
}

impl View for Writer {
    type V = WriterModel;

    closed spec fn view(&self) -> WriterModel {
        WriterModel {
            grid: self.buffer@,
            column: self.column_position as nat,
            color: self.color_code,
        }
    }
}

impl Writer {
    /// A valid writer realizes a valid model.
    pub open spec fn wf(&self) -> bool {
        model_wf(self@)
    }

    /// Binds a fresh writer: cursor at the start of the bottom row, the given
    /// color, every grid cell blank under that color.
    pub fn new(color_code: ColorCode) -> (w: Writer)
        ensures
            w.wf(),
            w@.column == 0,
            w@.color == color_code,
            w@.grid =~= Seq::new(BUFFER_CELLS as nat, |i: int| blank_char(color_code)),
    {
        let buffer = Buffer::new(ScreenChar { ascii_character: 0x20, color_code });
        Writer { column_position: 0, color_code, buffer }
    }

    /// The current cursor column.
    pub fn column(&self) -> (col: usize)
        ensures
            col == self@.column,
    {
        self.column_position
    }

    /// The current color attribute.
    pub fn color(&self) -> (color: ColorCode)
        ensures
            color == self@.color,
    {
        self.color_code
    }

    /// The cell currently displayed at `(row, col)`.
    pub fn char_at(&self, row: usize, col: usize) -> (sc: ScreenChar)
        requires
            self.wf(),
            row < BUFFER_HEIGHT,
            col < BUFFER_WIDTH,
        ensures
            sc == self@.grid[flat_index(row as int, col as int)],
    {
        self.buffer.read_char(row, col)
    }

    /// Writes one byte: a line feed scrolls; any other byte — stored verbatim,
    /// the caller sanitizes — lands at the cursor, after a scroll if the row
    /// is full, and the cursor advances.
    pub fn write_byte(&mut self, byte: u8)
        requires
            old(self).wf(),
        ensures
            final(self).wf(),
            final(self)@ == write_byte_model(old(self)@, byte),
    {
        if byte == LINE_FEED {
            self.new_line();
        } else {
            if self.column_position >= BUFFER_WIDTH {
                self.new_line();
            }
            let row = BUFFER_HEIGHT - 1;
            let col = self.column_position;
            let color_code = self.color_code;
            self.buffer.write_char(row, col, ScreenChar { ascii_character: byte, color_code });
            self.column_position += 1;
            proof {
                assert(self@ =~= write_byte_model(old(self)@, byte));
            }
        }
    }

    /// Writes every byte of the slice, sanitized: printable bytes and line
    /// feeds pass through, everything else becomes the placeholder glyph.
    pub fn write_bytes(&mut self, bytes: &[u8])
        requires
            old(self).wf(),
        ensures
            final(self).wf(),
            final(self)@ == write_bytes_model(old(self)@, bytes@),
    {
        let n = bytes.len();
        let mut i: usize = 0;
        while i < n
            invariant
                i <= n,
                n == bytes@.len(),
                self.wf(),
                self@ == write_bytes_model(old(self)@, bytes@.take(i as int)),
            decreases n - i,
        {
            let byte = bytes[i];
            let sanitized = if (0x20 <= byte && byte <= 0x7e) || byte == LINE_FEED {
                byte
            } else {
                PLACEHOLDER
            };
            proof {
                assert(bytes@.take(i + 1) =~= bytes@.take(i as int).push(byte));
                lemma_write_bytes_model_push(old(self)@, bytes@.take(i as int), byte);
            }
            self.write_byte(sanitized);
            i += 1;
        }
        proof {
            assert(bytes@.take(n as int) =~= bytes@);
        }
    }

    /// Writes a string: its UTF-8 bytes, sanitized byte by byte. Bytes of
    /// characters outside printable ASCII all land as placeholder glyphs.
    pub fn write_string(&mut self, s: &str)
        requires
            old(self).wf(),
        ensures
            final(self).wf(),
            final(self)@ == write_bytes_model(old(self)@, vstd::utf8::encode_utf8(s@)),
    {
        self.write_bytes(s.as_bytes());
    }

    /// Scrolls: copies every row one row up (the former top row is gone),
    /// blanks the bottom row under the current color, and resets the cursor.
    pub fn new_line(&mut self)
        requires
            old(self).wf(),
        ensures
            final(self).wf(),
            final(self)@ == scroll_model(old(self)@),
    {
        let mut row: usize = 1;
        while row < BUFFER_HEIGHT
            invariant
                1 <= row <= BUFFER_HEIGHT,
                self.wf(),
                self@.column == old(self)@.column,
                self@.color == old(self)@.color,
                forall|k: int|
                    0 <= k < flat_index(row - 1, 0) ==> self@.grid[k] == old(self)@.grid[
                        k + BUFFER_WIDTH
                    ],
                forall|k: int|
                    flat_index(row - 1, 0) <= k < BUFFER_CELLS ==> self@.grid[k] == old(
                        self,
                    )@.grid[k],
            decreases BUFFER_HEIGHT - row,
        {
            let mut col: usize = 0;
            while col < BUFFER_WIDTH
                invariant
                    1 <= row < BUFFER_HEIGHT,
                    col <= BUFFER_WIDTH,
                    self.wf(),
                    self@.column == old(self)@.column,
                    self@.color == old(self)@.color,
                    forall|k: int|
                        0 <= k < flat_index(row - 1, col as int) ==> self@.grid[k] == old(
                            self,
                        )@.grid[k + BUFFER_WIDTH],
                    forall|k: int|
                        flat_index(row - 1, col as int) <= k < BUFFER_CELLS ==> self@.grid[k]
                            == old(self)@.grid[k],
                decreases BUFFER_WIDTH - col,
            {
                let character = self.buffer.read_char(row, col);
                self.buffer.write_char(row - 1, col, character);
                col += 1;
            }
            row += 1;
        }
        self.clear_row(BUFFER_HEIGHT - 1);
        self.column_position = 0;
        proof {
            let shifted = scroll_grid(old(self)@.grid, blank_char(old(self)@.color));
            assert forall|i: int| 0 <= i < BUFFER_CELLS implies self@.grid[i] == shifted[i] by {
                if i < flat_index(BUFFER_HEIGHT - 1, 0) {
                    assert(self@.grid[i] == old(self)@.grid[i + BUFFER_WIDTH]);
                } else {
                    let c = i - flat_index(BUFFER_HEIGHT - 1, 0);
                    assert(i == flat_index(BUFFER_HEIGHT - 1, c));
                    assert(self@.grid[flat_index(BUFFER_HEIGHT - 1, c)] == blank_char(
                        old(self)@.color,
                    ));
                }
            }
            assert(self@.grid =~= shifted);
            assert(self@ =~= scroll_model(old(self)@));
        }
    }

    /// Blanks one row under the current color.
    fn clear_row(&mut self, row: usize)
        requires
            old(self).wf(),
            row < BUFFER_HEIGHT,
        ensures
            final(self).wf(),
            final(self)@.column == old(self)@.column,
            final(self)@.color == old(self)@.color,
            forall|c: int|
                0 <= c < BUFFER_WIDTH ==> final(self)@.grid[flat_index(row as int, c)]
                    == blank_char(old(self)@.color),
            forall|k: int|
                0 <= k < BUFFER_CELLS && !(flat_index(row as int, 0) <= k < flat_index(
                    row as int,
                    BUFFER_WIDTH as int,
                )) ==> final(self)@.grid[k] == old(self)@.grid[k],
    {
        let blank = ScreenChar { ascii_character: 0x20, color_code: self.color_code };
        let mut col: usize = 0;
        while col < BUFFER_WIDTH
            invariant
                col <= BUFFER_WIDTH,
                row < BUFFER_HEIGHT,
                blank == blank_char(old(self)@.color),
                self.wf(),
                self@.column == old(self)@.column,
                self@.color == old(self)@.color,
                forall|c: int|
                    0 <= c < col ==> self@.grid[flat_index(row as int, c)] == blank_char(
                        old(self)@.color,
                    ),
                forall|k: int|
                    0 <= k < BUFFER_CELLS && !(flat_index(row as int, 0) <= k < flat_index(
                        row as int,
                        col as int,
                    )) ==> self@.grid[k] == old(self)@.grid[k],
            decreases BUFFER_WIDTH - col,
        {
            self.buffer.write_char(row, col, blank);
            col += 1;
        }
    }
}

} // verus!
