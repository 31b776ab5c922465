//! Runtime checks of the synchronized singleton: initialization, writes
//! through the lock, and the documented non-reentrancy hazard.

use rust_os::buffer::BUFFER_HEIGHT;
use rust_os::color::{Color, ColorCode};
use rust_os::init;
use rust_os::QemuExitCode;

#[test]
fn init_builds_cleared_yellow_on_black_console() {
    let console = init();
    let w = console.lock();
    assert_eq!(w.column(), 0);
    assert_eq!(w.color(), ColorCode::new(Color::Yellow, Color::Black));
    assert_eq!(w.char_at(0, 0).ascii_character, b' ');
    assert_eq!(w.char_at(BUFFER_HEIGHT - 1, 79).ascii_character, b' ');
}

#[test]
fn console_writes_under_the_lock() {
    let console = init();
    let mut w = console.lock();
    w.write_string("ab");
    assert_eq!(w.char_at(BUFFER_HEIGHT - 1, 0).ascii_character, b'a');
    assert_eq!(w.char_at(BUFFER_HEIGHT - 1, 1).ascii_character, b'b');
    assert_eq!(w.column(), 2);
}

#[test]
fn lock_is_not_reentrant() {
    // Simulated preemption: with the lock held, the fault path's attempt to
    // take it is refused (it would spin forever on `lock`) and nothing is
    // corrupted.
    let console = init();
    {
        let mut w = console.lock();
        w.write_string("A");
    }
    let guard = console.lock();
    assert!(console.try_lock().is_none());
    assert_eq!(guard.char_at(BUFFER_HEIGHT - 1, 0).ascii_character, b'A');
    assert_eq!(guard.column(), 1);
    drop(guard);
    let mut w = console.try_lock().expect("the lock is free again");
    w.write_string("C");
    // the refused attempt left no trace; the later write landed next
    assert_eq!(w.char_at(BUFFER_HEIGHT - 1, 0).ascii_character, b'A');
    assert_eq!(w.char_at(BUFFER_HEIGHT - 1, 1).ascii_character, b'C');
    assert_eq!(w.column(), 2);
}

#[test]
fn guard_gives_exclusive_writer_access() {
    let console = init();
    let mut guard = console.lock();
    guard.write_byte(b'Q');
    assert_eq!(guard.char_at(BUFFER_HEIGHT - 1, 0).ascii_character, b'Q');
    assert!(console.try_lock().is_none());
    drop(guard);
    assert!(console.try_lock().is_some());
}

#[test]
fn exit_codes_for_the_host() {
    assert_eq!(QemuExitCode::Success.code(), 0x10);
    assert_eq!(QemuExitCode::Failed.code(), 0x11);
    assert_ne!(QemuExitCode::Success, QemuExitCode::Failed);
}
