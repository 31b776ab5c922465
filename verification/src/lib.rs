//! A text-grid output driver for a freestanding environment.
//!
//! The library renders bytes onto a fixed 25 x 80 character grid: it packs
//! color attributes, sanitizes arbitrary byte streams to the supported glyph
//! set, advances a cursor along the bottom row, scrolls the grid on line feed
//! or overflow, and serializes all access to the one writer instance behind a
//! busy-wait lock so that both ordinary code and a fault handler can reach it.

pub mod buffer;
pub mod color;
pub mod console;
pub mod laws;
pub mod volatile_cell;
pub mod writer;

use vstd::prelude::*;

use crate::buffer::BUFFER_CELLS;
use crate::color::color_index;
use crate::color::Color;
use crate::color::ColorCode;
use crate::writer::blank_char;
use crate::writer::model_wf;

pub use crate::console::Console;
pub use crate::writer::Writer;

verus! {

/// Builds the process-wide output state: a writer over a cleared grid,
/// writing yellow on black from the start of the bottom row, behind the lock
/// that serializes ordinary and fault-path access.
///
/// Single-call initialization contract: call exactly once, at startup, and
/// hand the console to every caller that prints — including the fault
/// handler. Fault-path use is only valid once the embedding program has also
/// installed its interrupt tables; that installation, like attaching the
/// grid's storage to the display, is the platform's job, not this library's.
pub fn init() -> (console: Console)
    ensures
        model_wf(console.initial_state()),
        console.initial_state().column == 0,
        console.initial_state().color.0 == color_index(Color::Black) * 16 + color_index(
            Color::Yellow,
        ),
        console.initial_state().grid =~= Seq::new(
            BUFFER_CELLS as nat,
            |i: int| blank_char(console.initial_state().color),
        ),
{
    Console::new(Writer::new(ColorCode::new(Color::Yellow, Color::Black)))
}

/// Something the test harness can execute.
///
/// The embedding program implements this for its own test cases; the library
/// itself never runs one.
pub trait Testable {
    fn run(&self);
}

/// The status a surrounding test harness signals to the host when it is done.
#[derive(Clone, Copy, PartialEq, Eq, Debug)]
pub enum QemuExitCode {
    Success,
    Failed,
}

/// The value written to the host-visible exit channel for each status.
pub open spec fn exit_code_value(c: QemuExitCode) -> u32 {
    match c {
        QemuExitCode::Success => 0x10,
        QemuExitCode::Failed => 0x11,
    }
}

impl QemuExitCode {
    /// The 4-byte value the exit channel expects for this status. Writing it
    /// to the channel is the embedding program's job.
    pub fn code(self) -> (v: u32)
        ensures
            v == exit_code_value(self),
    {
        match self {
            QemuExitCode::Success => 0x10,
            QemuExitCode::Failed => 0x11,
        }
    }
}

} // verus!
