//! Single-flight generation guard.
//!
//! At most one generation operation may be in flight at a time. The
//! coordinator owns the single-flight slot and the cooperative cancellation
//! signal that every generation operation shares. The caller embeds one
//! coordinator behind its own lock; waiting for the slot is the caller's
//! affair (the slot itself never fails to be granted, it only delays), so the
//! coordinator exposes a non-blocking `try_begin`.

use vstd::prelude::*;

verus! {

/// The single-flight slot and the shared cancellation signal.
///
/// `busy` is true exactly while a generation (including all of its
/// continuation rounds) holds the slot. `cancel_requested` marks cancellation
/// intent; it is observed cooperatively between stream chunks and is reset
/// whenever a new generation acquires the slot.
#[derive(Clone, Copy, Debug, PartialEq, Eq, Structural)]
pub struct Coordinator {
    pub busy: bool,
    pub cancel_requested: bool,
}

/// What acquiring the slot does: refused while busy, otherwise the slot is
/// taken and the cancellation signal is reset.
pub open spec fn spec_try_begin(c: Coordinator) -> (bool, Coordinator) {
    if c.busy {
        (false, c)
    } else {
        (true, Coordinator { busy: true, cancel_requested: false })
    }
}

/// What requesting cancellation does: it only marks intent.
pub open spec fn spec_request_cancel(c: Coordinator) -> Coordinator {
    Coordinator { busy: c.busy, cancel_requested: true }
}

/// What releasing the slot does: the cancellation signal is left as it is;
/// the next `try_begin` resets it.
pub open spec fn spec_finish(c: Coordinator) -> Coordinator {
    Coordinator { busy: false, cancel_requested: c.cancel_requested }
}

impl Coordinator {
    /// A fresh coordinator: idle, no cancellation requested.
    pub fn new() -> (r: Coordinator)
        ensures
            !r.busy,
            !r.cancel_requested,
    {
        Coordinator { busy: false, cancel_requested: false }
    }

    /// Try to acquire the single-flight slot. Succeeds exactly when no other
    /// generation holds it; on success the cancellation signal is reset so
    /// that a stale cancel request never aborts the next generation.
    pub fn try_begin(&mut self) -> (r: bool)
        ensures
            (r, *final(self)) == spec_try_begin(*old(self)),
    {
        if self.busy {
            false
        } else {
            self.busy = true;
            self.cancel_requested = false;
            true
        }
    }

    /// Mark cancellation intent. Non-blocking and callable at any time; it
    /// does not by itself stop in-flight work.
    pub fn request_cancel(&mut self)
        ensures
            *final(self) == spec_request_cancel(*old(self)),
    {
        self.cancel_requested = true;
    }

    /// Release the single-flight slot. Called on every exit path of a
    /// generation: normal return, error, or cancellation.
    pub fn finish(&mut self)
        ensures
            *final(self) == spec_finish(*old(self)),
    {
        self.busy = false;
    }

    /// Observe the cancellation signal.
    pub fn is_cancelled(&self) -> (r: bool)
        ensures
            r == self.cancel_requested,
    {
        self.cancel_requested
    }

    /// Observe whether a generation holds the slot.
    pub fn is_busy(&self) -> (r: bool)
        ensures
            r == self.busy,
    {
        self.busy
    }
}

/// While one generation holds the slot, a second acquisition attempt fails
/// and leaves the coordinator untouched, so no two generations ever overlap.
pub proof fn lemma_single_flight(c: Coordinator)
    requires
        c.busy,
    ensures
        !spec_try_begin(c).0,
        spec_try_begin(c).1 == c,
{
}

/// Releasing the slot always frees it: an acquisition attempt made after any
/// exit path (success, error, or cancellation) succeeds immediately.
pub proof fn lemma_finish_frees_slot(c: Coordinator)
    ensures
        spec_try_begin(spec_finish(c)).0,
{
}

/// A cancellation request made while no generation is active is a no-op for
/// the next generation: acquiring the slot still succeeds and starts with the
/// cancellation signal clear.
pub proof fn lemma_idle_cancel_is_benign(c: Coordinator)
    requires
        !c.busy,
    ensures
        spec_try_begin(spec_request_cancel(c)).0,
        !spec_try_begin(spec_request_cancel(c)).1.cancel_requested,
        spec_try_begin(spec_request_cancel(c)).1.busy,
{
}

} // verus!
