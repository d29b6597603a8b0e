//! The repaint coalescer: a single wake flag that producers raise and a
//! low-latency ticker test-and-clears, so that a burst of updates
//! collapses into one redraw per ticker window and none is lost.

use vstd::prelude::*;

verus! {

/// The shared wake flag. The host wraps one value of this in its
/// shared-state primitive; the contracts here pin the test-and-clear
/// discipline itself.
pub struct Coalescer {
    pending: bool,
}

impl Coalescer {
    /// Whether a producer has published since the last ticker cycle.
    pub closed spec fn is_pending(&self) -> bool {
        self.pending
    }

    /// A fresh flag is clear: nothing published, nothing to repaint.
    pub fn new() -> (r: Self)
        ensures
            !r.is_pending(),
    {
        Coalescer { pending: false }
    }

    /// A producer raises the flag after publishing new data. Raising an
    /// already-raised flag coalesces: the flag is simply set.
    pub fn raise(&mut self)
        ensures
            final(self).is_pending(),
    {
        self.pending = true;
    }

    /// One ticker cycle: observe the flag and clear it in one step. The
    /// result says whether a redraw must be issued; after the cycle the
    /// flag is never left set, so a single raise can never produce two
    /// redraws, and a raise is never dropped without being observed.
    pub fn take(&mut self) -> (r: bool)
        ensures
            r == old(self).is_pending(),
            !final(self).is_pending(),
    {
        let r = self.pending;
        self.pending = false;
        r
    }
}

} // verus!
