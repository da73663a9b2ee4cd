//! The handoff between asynchronous frame delivery and the blocking consumer:
//! at most one frame is pending at any time. The delivery side deposits,
//! overwriting an undelivered frame rather than queueing behind it; the
//! consumer side takes whatever is pending. Backpressure is thus resolved by
//! discarding stale frames, never by holding the delivery side back.

use vstd::prelude::*;

use crate::frame::Frame;

verus! {

/// The single-slot handoff holding the most recent undelivered frame.
#[derive(Debug)]
pub struct Slot {
    pending: Option<Frame>,
}

impl Slot {
    /// The frame currently pending, if any.
    pub closed spec fn pending_spec(&self) -> Option<Frame> {
        self.pending
    }

    /// A fresh handoff with nothing pending.
    pub fn empty() -> (slot: Slot)
        ensures
            slot.pending_spec() is None,
    {
        Slot { pending: None }
    }

    /// Delivery side: deposit a newly captured frame, discarding any
    /// undelivered one.
    pub fn deposit(&mut self, frame: Frame)
        ensures
            final(self).pending_spec() == Some(frame),
    {
        self.pending = Some(frame);
    }

    /// Consumer side: take the pending frame, leaving the slot empty.
    pub fn take(&mut self) -> (frame: Option<Frame>)
        ensures
            frame == old(self).pending_spec(),
            final(self).pending_spec() is None,
    {
        let mut taken: Option<Frame> = None;
        std::mem::swap(&mut taken, &mut self.pending);
        taken
    }

    /// Session teardown: drop whatever is pending so that nothing stale is
    /// handed out after a stop or a device swap.
    pub fn clear(&mut self)
        ensures
            final(self).pending_spec() is None,
    {
        self.pending = None;
    }
}

} // verus!
