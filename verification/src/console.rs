//! The synchronized singleton: one writer behind a busy-wait lock.
//!
//! There is no scheduler in the intended environment; the only concurrency is
//! preemption by a fault handler, which wants the same writer to report the
//! fault. A non-blocking spin lock serializes all access, so a holder has
//! exclusive write access to the grid and the cursor, and every mutation goes
//! through the verified [`Writer`] operations on the guard.
//!
//! Known hazard, by design: the lock is not reentrant. If a fault arrives
//! while the lock is held and the fault handler then calls [`Console::lock`],
//! that handler spins forever. The deadlock is a documented liveness
//! trade-off, not silent corruption: the grid is only ever mutated by the
//! holder. Call sites must not trigger faults while holding the lock, or must
//! use [`Console::try_lock`] on the fault path and accept that the message
//! may be dropped.

use vstd::prelude::*;

use spin::Mutex;
use spin::MutexGuard;

use crate::writer::model_wf;
use crate::writer::Writer;
use crate::writer::WriterModel;

verus! {

#[verifier::external_type_specification]
#[verifier::external_body]
#[verifier::reject_recursive_types(T)]
pub struct ExMutex<T: ?Sized>(Mutex<T>);

#[verifier::external_type_specification]
#[verifier::external_body]
#[verifier::reject_recursive_types(T)]
pub struct ExMutexGuard<'a, T: ?Sized + 'a>(MutexGuard<'a, T>);

/// Relies on spin::Mutex::new: builds an unlocked mutex that owns the writer.
/// Never panics.
#[verifier::external_body]
fn mutex_new(writer: Writer) -> Mutex<Writer> {
    Mutex::new(writer)
}

/// Relies on spin::Mutex::lock: busy-waits until the lock is free, then
/// returns a guard with exclusive access until the guard is dropped. Does not
/// return while another guard is alive — including one held by an execution
/// context this caller has preempted, in which case it spins forever.
#[verifier::external_body]
fn mutex_lock<'a>(mutex: &'a Mutex<Writer>) -> MutexGuard<'a, Writer> {
    mutex.lock()
}

/// Relies on spin::Mutex::try_lock: one compare-and-swap, never blocking;
/// returns a guard exactly when the lock was free, and None when it is held.
#[verifier::external_body]
fn mutex_try_lock<'a>(mutex: &'a Mutex<Writer>) -> Option<MutexGuard<'a, Writer>> {
    mutex.try_lock()
}

/// The one synchronized writer instance, reachable from ordinary code and
/// from the fault-handling path. Every mutation of the grid or the cursor
/// happens while its lock is held, through the writer the guard yields.
pub struct Console {
    writer: Mutex<Writer>,
    initial: Ghost<WriterModel>,
}

impl Console {
    /// The state of the writer this console was built around. Every later
    /// change to that writer is made by a lock holder through the verified
    /// writer operations, each with its own exact contract.
    pub closed spec fn initial_state(&self) -> WriterModel {
        self.initial@
    }

    /// Puts a writer behind the lock. The writer must be valid: everything
    /// later reached through the lock preserves its validity, so the
    /// operations' preconditions hold on every path.
    pub fn new(writer: Writer) -> (console: Console)
        requires
            writer.wf(),
        ensures
            console.initial_state() == writer@,
            model_wf(console.initial_state()),
    {
        let snapshot: Ghost<WriterModel> = Ghost(writer@);
        Console { writer: mutex_new(writer), initial: snapshot }
    }

    /// Acquires the lock, busy-waiting, and hands out the writer. Not
    /// reentrant: see the module hazard note.
    pub fn lock<'a>(&'a self) -> (guard: MutexGuard<'a, Writer>) {
        mutex_lock(&self.writer)
    }

    /// Acquires the lock only if it is free right now, never blocking. This
    /// is the alternative for the fault path: when the interrupted context
    /// holds the lock, None comes back instead of spinning forever, and the
    /// fault message is dropped rather than deadlocking.
    pub fn try_lock<'a>(&'a self) -> (guard: Option<MutexGuard<'a, Writer>>) {
        mutex_try_lock(&self.writer)
    }
}

} // verus!
