//! Runtime checks of the writer over the grid: byte storage, sanitization,
//! line wrap, scrolling, and the color encoding.

use rust_os::buffer::{ScreenChar, BUFFER_HEIGHT, BUFFER_WIDTH};
use rust_os::color::{Color, ColorCode};
use rust_os::writer::Writer;

fn fresh_writer() -> Writer {
    Writer::new(ColorCode::new(Color::Yellow, Color::Black))
}

#[test]
fn trivial_assertion() {
    assert_eq!(1, 1);
}

#[test]
fn color_code_packs_nibbles() {
    // background in the high nibble, foreground in the low nibble
    assert_eq!(ColorCode::new(Color::Yellow, Color::Black).0, 0x0e);
    assert_eq!(ColorCode::new(Color::White, Color::Blue).0, 0x1f);
    assert_eq!(ColorCode::new(Color::Black, Color::White).0, 0xf0);
    assert_eq!(ColorCode::new(Color::LightGreen, Color::Brown).0, 0x6a);
}

#[test]
fn fresh_grid_is_blank() {
    let w = fresh_writer();
    let blank = ScreenChar { ascii_character: b' ', color_code: w.color() };
    assert_eq!(w.column(), 0);
    for row in 0..BUFFER_HEIGHT {
        for col in 0..BUFFER_WIDTH {
            assert_eq!(w.char_at(row, col), blank);
        }
    }
}

#[test]
fn printable_byte_lands_at_cursor() {
    let mut w = fresh_writer();
    w.write_byte(b'X');
    let cell = w.char_at(BUFFER_HEIGHT - 1, 0);
    assert_eq!(cell.ascii_character, b'X');
    assert_eq!(cell.color_code, w.color());
    assert_eq!(w.column(), 1);
    w.write_byte(b'Y');
    assert_eq!(w.char_at(BUFFER_HEIGHT - 1, 1).ascii_character, b'Y');
    assert_eq!(w.column(), 2);
}

#[test]
fn printable_range_edges_pass_through() {
    let mut w = fresh_writer();
    w.write_string("\x20\x7e");
    assert_eq!(w.char_at(BUFFER_HEIGHT - 1, 0).ascii_character, 0x20);
    assert_eq!(w.char_at(BUFFER_HEIGHT - 1, 1).ascii_character, 0x7e);
}

#[test]
fn unprintable_bytes_become_placeholder() {
    let mut w = fresh_writer();
    w.write_bytes(&[0x1f, 0x7f, 0x00, 0xff]);
    for col in 0..4 {
        assert_eq!(w.char_at(BUFFER_HEIGHT - 1, col).ascii_character, 0xfe);
    }
    assert_eq!(w.column(), 4);
}

#[test]
fn sanitization_keeps_every_byte() {
    // the invalid byte is replaced, neither dropped nor merged into a newline
    let mut w = fresh_writer();
    w.write_string("A\x01B");
    assert_eq!(w.char_at(BUFFER_HEIGHT - 1, 0).ascii_character, b'A');
    assert_eq!(w.char_at(BUFFER_HEIGHT - 1, 1).ascii_character, 0xfe);
    assert_eq!(w.char_at(BUFFER_HEIGHT - 1, 2).ascii_character, b'B');
    assert_eq!(w.column(), 3);
}

#[test]
fn full_row_does_not_wrap_early() {
    let mut w = fresh_writer();
    let row: String = "a".repeat(BUFFER_WIDTH);
    w.write_string(&row);
    // the 80th byte fills the row; no scroll yet
    assert_eq!(w.column(), BUFFER_WIDTH);
    for col in 0..BUFFER_WIDTH {
        assert_eq!(w.char_at(BUFFER_HEIGHT - 1, col).ascii_character, b'a');
        assert_eq!(w.char_at(BUFFER_HEIGHT - 2, col).ascii_character, b' ');
    }
}

#[test]
fn overflow_byte_wraps_exactly_once() {
    let mut w = fresh_writer();
    let row: String = "a".repeat(BUFFER_WIDTH);
    w.write_string(&row);
    w.write_byte(b'b');
    // one scroll: the full row moved up, the extra byte starts the new row
    assert_eq!(w.column(), 1);
    for col in 0..BUFFER_WIDTH {
        assert_eq!(w.char_at(BUFFER_HEIGHT - 2, col).ascii_character, b'a');
    }
    assert_eq!(w.char_at(BUFFER_HEIGHT - 1, 0).ascii_character, b'b');
    for col in 1..BUFFER_WIDTH {
        assert_eq!(w.char_at(BUFFER_HEIGHT - 1, col).ascii_character, b' ');
    }
}

#[test]
fn line_feed_scrolls_and_resets_column() {
    let mut w = fresh_writer();
    w.write_string("abc");
    assert_eq!(w.column(), 3);
    w.write_byte(b'\n');
    assert_eq!(w.column(), 0);
    assert_eq!(w.char_at(BUFFER_HEIGHT - 2, 0).ascii_character, b'a');
    assert_eq!(w.char_at(BUFFER_HEIGHT - 2, 1).ascii_character, b'b');
    assert_eq!(w.char_at(BUFFER_HEIGHT - 2, 2).ascii_character, b'c');
    // the bottom row is blank again
    for col in 0..BUFFER_WIDTH {
        assert_eq!(w.char_at(BUFFER_HEIGHT - 1, col).ascii_character, b' ');
    }
}

#[test]
fn scroll_shifts_every_row_up() {
    let mut w = fresh_writer();
    // stack three marked lines, then scroll once more and compare rows
    w.write_string("1\n2\n3\n");
    assert_eq!(w.char_at(BUFFER_HEIGHT - 4, 0).ascii_character, b'1');
    assert_eq!(w.char_at(BUFFER_HEIGHT - 3, 0).ascii_character, b'2');
    assert_eq!(w.char_at(BUFFER_HEIGHT - 2, 0).ascii_character, b'3');
    let before: Vec<Vec<ScreenChar>> = (0..BUFFER_HEIGHT)
        .map(|row| (0..BUFFER_WIDTH).map(|col| w.char_at(row, col)).collect())
        .collect();
    w.new_line();
    for row in 1..BUFFER_HEIGHT {
        for col in 0..BUFFER_WIDTH {
            assert_eq!(w.char_at(row - 1, col), before[row][col]);
        }
    }
    let blank = ScreenChar { ascii_character: b' ', color_code: w.color() };
    for col in 0..BUFFER_WIDTH {
        assert_eq!(w.char_at(BUFFER_HEIGHT - 1, col), blank);
    }
    assert_eq!(w.column(), 0);
}

#[test]
fn string_round_trip_on_cleared_grid() {
    let mut w = fresh_writer();
    w.write_string("hi\n");
    let attr = w.color();
    assert_eq!(w.column(), 0);
    assert_eq!(
        w.char_at(BUFFER_HEIGHT - 2, 0),
        ScreenChar { ascii_character: b'h', color_code: attr }
    );
    assert_eq!(
        w.char_at(BUFFER_HEIGHT - 2, 1),
        ScreenChar { ascii_character: b'i', color_code: attr }
    );
    for col in 2..BUFFER_WIDTH {
        assert_eq!(w.char_at(BUFFER_HEIGHT - 2, col).ascii_character, b' ');
    }
    for col in 0..BUFFER_WIDTH {
        assert_eq!(
            w.char_at(BUFFER_HEIGHT - 1, col),
            ScreenChar { ascii_character: b' ', color_code: attr }
        );
    }
}

#[test]
fn non_ascii_string_bytes_each_become_placeholder() {
    // 'é' is two bytes in UTF-8; both lie outside the glyph set
    let mut w = fresh_writer();
    w.write_string("é");
    assert_eq!(w.char_at(BUFFER_HEIGHT - 1, 0).ascii_character, 0xfe);
    assert_eq!(w.char_at(BUFFER_HEIGHT - 1, 1).ascii_character, 0xfe);
    assert_eq!(w.column(), 2);
}

#[test]
fn write_bytes_matches_write_string_on_ascii() {
    let mut a = fresh_writer();
    let mut b = fresh_writer();
    a.write_string("ok\n!");
    b.write_bytes(&[b'o', b'k', b'\n', b'!']);
    assert_eq!(a.column(), b.column());
    for row in 0..BUFFER_HEIGHT {
        for col in 0..BUFFER_WIDTH {
            assert_eq!(a.char_at(row, col), b.char_at(row, col));
        }
    }
}
