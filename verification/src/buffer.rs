//! The character grid: a fixed matrix of two-byte cells, modeling the
//! memory-mapped region the display hardware consumes.
//!
//! The grid is `BUFFER_HEIGHT` rows of `BUFFER_WIDTH` cells, row-major, top
//! row first. Each cell occupies one `u16`: the character byte in the low
//! half, the packed attribute byte in the high half — exactly the layout of
//! the mapped region. The storage here is owned by the buffer; placing it at
//! the display's fixed physical base address is the embedding platform's job,
//! outside this library. The storage is allocated once, when the buffer is
//! built, is never resized or remapped, and is only ever reached through
//! [`Buffer::read_char`] and [`Buffer::write_char`], whose loads and stores
//! are volatile, as accesses to the real region must be.

use vstd::prelude::*;

use volatile::Volatile;

use crate::color::ColorCode;
use crate::volatile_cell::cell_new;
use crate::volatile_cell::cell_read;
use crate::volatile_cell::cell_value;
use crate::volatile_cell::cell_write;

verus! {

/// Number of rows of the grid.
pub const BUFFER_HEIGHT: usize = 25;

/// Number of cells in one row of the grid.
pub const BUFFER_WIDTH: usize = 80;

/// Total number of cells of the grid.
pub const BUFFER_CELLS: usize = BUFFER_HEIGHT * BUFFER_WIDTH;

/// One character-and-attribute unit of the display grid.
#[derive(Clone, Copy, PartialEq, Eq, Debug, Structural)]
pub struct ScreenChar {
    /// A single-byte code point from the fixed glyph set.
    pub ascii_character: u8,
    /// The packed color attribute of the cell.
    pub color_code: ColorCode,
}

/// The flat, row-major position of cell `(row, col)` in the grid.
pub open spec fn flat_index(row: int, col: int) -> int {
    row * BUFFER_WIDTH + col
}

/// The cell encoded by one stored `u16`: character byte in the low half,
/// attribute byte in the high half.
pub open spec fn decode_cell(value: u16) -> ScreenChar {
    ScreenChar {
        ascii_character: (value % 256) as u8,
        color_code: ColorCode((value / 256) as u8),
    }
}

/// A fixed-size two-dimensional array of display cells. Its view is the flat,
/// row-major sequence of the cells' current contents.
pub struct Buffer {
    cells: Vec<Volatile<u16>>,
}

impl View for Buffer {
    type V = Seq<ScreenChar>;

    closed spec fn view(&self) -> Seq<ScreenChar> {
        Seq::new(self.cells@.len(), |i: int| decode_cell(cell_value(self.cells@[i])))
    }
}

impl Buffer {
    /// The grid has its fixed dimensions; it is never resized or remapped.
    pub open spec fn wf(&self) -> bool {
        self@.len() == BUFFER_CELLS
    }

    /// Binds the grid storage, with every cell holding `fill`.
    pub fn new(fill: ScreenChar) -> (buffer: Buffer)
        ensures
            buffer.wf(),
            forall|i: int| 0 <= i < BUFFER_CELLS ==> buffer@[i] == fill,
    {
        let value = encode_cell(fill);
        let mut cells: Vec<Volatile<u16>> = Vec::new();
        let mut i: usize = 0;
        while i < BUFFER_CELLS
            invariant
                i <= BUFFER_CELLS,
                cells@.len() == i,
                decode_cell(value) == fill,
                forall|j: int| 0 <= j < i ==> decode_cell(cell_value(cells@[j])) == fill,
            decreases BUFFER_CELLS - i,
        {
            cells.push(cell_new(value));
            i += 1;
        }
        Buffer { cells }
    }

    /// Reads the cell at `(row, col)` with a single volatile load.
    pub fn read_char(&self, row: usize, col: usize) -> (sc: ScreenChar)
        requires
            self.wf(),
            row < BUFFER_HEIGHT,
            col < BUFFER_WIDTH,
        ensures
            sc == self@[flat_index(row as int, col as int)],
    {
        let value = cell_read(&self.cells[row * BUFFER_WIDTH + col]);
        ScreenChar { ascii_character: (value % 256) as u8, color_code: ColorCode((value / 256) as u8) }
    }

    /// Writes `sc` to the cell at `(row, col)` with a single volatile store.
    pub fn write_char(&mut self, row: usize, col: usize, sc: ScreenChar)
        requires
            old(self).wf(),
            row < BUFFER_HEIGHT,
            col < BUFFER_WIDTH,
        ensures
            final(self).wf(),
            final(self)@ == old(self)@.update(flat_index(row as int, col as int), sc),
    {
        let value = encode_cell(sc);
        cell_write(&mut self.cells[row * BUFFER_WIDTH + col], value);
        proof {
            assert(self@ =~= old(self)@.update(flat_index(row as int, col as int), sc));
        }
    }
}

/// Packs a cell into the stored `u16`: character byte in the low half,
/// attribute byte in the high half.
fn encode_cell(sc: ScreenChar) -> (value: u16)
    ensures
        decode_cell(value) == sc,
{
    let value: u16 = (sc.color_code.0 as u16) * 256 + (sc.ascii_character as u16);
    proof {
        let a = sc.color_code.0 as u16;
        let c = sc.ascii_character as u16;
        assert((a * 256 + c) % 256 == c && (a * 256 + c) / 256 == a) by (nonlinear_arith)
            requires
                a < 256,
                c < 256,
        ;
    }
    value
}

} // verus!
