//! The camera sensor at its interface boundary: one call yields at most one
//! encoded frame.  A `Camera` value holds what the driver would answer next,
//! and a ghost log of every capture attempt so that contracts can place
//! captures relative to the flash line's commands.

use vstd::prelude::*;

verus! {

/// One encoded frame: image bytes plus dimensions.
pub struct Frame {
    pub width: u32,
    pub height: u32,
    pub data: Vec<u8>,
}

/// The sensor driver's answer to the next capture call, plus a log of the
/// points (flash command counts) at which captures were attempted.
pub struct Camera {
    frame: Option<Frame>,
    caps: Ghost<Seq<nat>>,
}

impl Camera {
    /// What the driver will answer next: `None` models a transient failure.
    pub closed spec fn pending(self) -> Option<Frame> {
        self.frame
    }

    /// The flash-command count observed at each capture attempt, in order.
    pub closed spec fn capture_log(self) -> Seq<nat> {
        self.caps@
    }

    /// A sensor that will answer `frame` to the next capture call.
    pub fn new(frame: Option<Frame>) -> (r: Camera)
        ensures
            r.pending() == frame,
            r.capture_log() == Seq::<nat>::empty(),
    {
        Camera { frame, caps: Ghost(Seq::empty()) }
    }

    /// One capture attempt, logged at `point`: hands out the pending frame
    /// (the buffer returns to the driver's pool, so the slot empties).
    pub(crate) fn capture(&mut self, Ghost(point): Ghost<nat>) -> (r: Option<Frame>)
        ensures
            r == old(self).pending(),
            final(self).pending() is None,
            final(self).capture_log() == old(self).capture_log().push(point),
    {
        proof {
            self.caps@ = self.caps@.push(point);
        }
        self.frame.take()
    }
}

} // verus!
