use vstd::prelude::*;

use crate::channel::{try_receive, Poll};

verus! {

/// Whether one poll of the signal endpoint asks the job to stop: an explicit
/// signal and a dropped sender mean the same thing.
pub open spec fn signal_cancels(s: Poll<()>) -> bool {
    !(s is Empty)
}

/// The receiving side of a one-shot cooperative cancellation signal.
///
/// Once a poll has reported cancellation, the token stays cancelled: the
/// `cancelled` latch never goes back to `false`.
pub struct CancellationToken {
    receiver: crossbeam_channel::Receiver<()>,
    cancelled: bool,
}

impl CancellationToken {
    /// Whether some earlier poll has already reported cancellation.
    pub closed spec fn latched(&self) -> bool {
        self.cancelled
    }

    /// The signal endpoint this token polls.
    pub closed spec fn receiver(&self) -> crossbeam_channel::Receiver<()> {
        self.receiver
    }

    pub fn new(receiver: crossbeam_channel::Receiver<()>) -> (r: Self)
        ensures
            !r.latched(),
            r.receiver() == receiver,
    {
        CancellationToken { receiver, cancelled: false }
    }

    /// Folds one observed poll outcome into the latch.
    pub fn observe(&mut self, s: Poll<()>) -> (r: bool)
        ensures
            r == (old(self).latched() || signal_cancels(s)),
            final(self).latched() == r,
            final(self).receiver() == old(self).receiver(),
    {
        if !self.cancelled && !matches!(s, Poll::Empty) {
            self.cancelled = true;
        }
        self.cancelled
    }

    /// Non-blocking poll: true once a signal was sent or the sender dropped.
    pub fn is_cancelled(&mut self) -> (r: bool)
        ensures
            old(self).latched() ==> r,
            final(self).latched() == r,
            final(self).receiver() == old(self).receiver(),
    {
        if self.cancelled {
            return true;
        }
        let s = try_receive(&self.receiver);
        self.observe(s)
    }
}

} // verus!
