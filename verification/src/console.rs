//! The output singleton: the one `Writer` of the kernel, reachable only
//! through a mutual-exclusion lock. Every caller acquires the lock,
//! writes through the writer, and releases the lock before returning,
//! so concurrent callers are serialized and no caller observes
//! another's half-written line.
//!
//! The lock carries the writer's well-formedness as its invariant:
//! acquiring hands out a well-formed writer, and releasing demands one
//! back, so the writer stays well-formed for the life of the console —
//! machine-checked, not assumed.
//!
//! A trap handler must not take this lock while the interrupted context
//! holds it: there is no preemption-aware recovery, and such an
//! acquisition spins forever. Handlers either run only where the lock
//! is free, or report through a channel of their own.

use crate::vga_buffer::{ScreenChar, Writer, BUFFER_HEIGHT, BUFFER_WIDTH};
use vstd::prelude::*;
use vstd::rwlock::{RwLock, WriteHandle};

verus! {

/// The invariant the console's lock maintains: the writer it guards is
/// well-formed.
pub open spec fn console_inv() -> spec_fn(Writer) -> bool {
    |w: Writer| w.wf()
}

/// The console: exactly one writer for the life of the kernel, guarded
/// by a lock whose invariant is the writer's well-formedness.
pub struct Console {
    writer: RwLock<Writer, spec_fn(Writer) -> bool>,
}

impl Console {
    /// Well-formedness: the lock's invariant is the writer invariant,
    /// so whatever comes out of the lock is a well-formed writer.
    pub closed spec fn wf(self) -> bool {
        self.writer.pred() == console_inv()
    }

    /// A console over the given writer, which goes in well-formed and
    /// stays so behind the lock.
    pub fn new(writer: Writer) -> (c: Console)
        requires
            writer.wf(),
        ensures
            c.wf(),
    {
        Console { writer: RwLock::new(writer, Ghost(console_inv())) }
    }

    /// Acquires the writer exclusively. The paired handle's
    /// `release_write` puts it back and demands well-formedness again.
    pub fn acquire_writer(&self) -> (ret: (
        Writer,
        WriteHandle<'_, Writer, spec_fn(Writer) -> bool>,
    ))
        requires
            self.wf(),
        ensures
            ret.0.wf(),
            ret.1.rwlock().pred() == console_inv(),
    {
        self.writer.acquire_write()
    }

    /// Reads one cell of the writer's grid under a shared hold of the
    /// lock.
    pub fn cell_at(&self, row: usize, col: usize) -> (r: ScreenChar)
        requires
            self.wf(),
            row < BUFFER_HEIGHT,
            col < BUFFER_WIDTH,
    {
        let handle = self.writer.acquire_read();
        let r = handle.borrow().cell_at(row, col);
        handle.release_read();
        r
    }

    /// Reads the writer's cursor column under a shared hold of the
    /// lock.
    pub fn column(&self) -> (c: usize)
        requires
            self.wf(),
    {
        let handle = self.writer.acquire_read();
        let c = handle.borrow().column();
        handle.release_read();
        c
    }
}

/// The formatted-output entry point: renders already-formatted text
/// through the locked writer, acquiring and releasing the lock within
/// the call. The lock serializes concurrent callers, so the grid always
/// shows whole calls in some total order, never interleaved.
pub fn _print(console: &Console, s: &str)
    requires
        console.wf(),
{
    let (mut w, handle) = console.acquire_writer();
    w.write_string(s);
    handle.release_write(w);
}

} // verus!
