//! The cooperative cancellation flag and its two-phase protocol.
//!
//! Any actor may raise the flag (`request_stop`); only the engine clears it
//! (`acknowledge_stop`), and only after it has observed the flag and fully
//! unwound the current animation. A raise is wait-free and idempotent, so a
//! stale "all-clear" can never be observed before the loop actually stopped.

use vstd::prelude::*;

verus! {

/// The shared stop token, passed by handle into the engine's run loop.
pub struct StopFlag {
    raised: bool,
}

impl StopFlag {
    /// Whether a stop has been requested and not yet acknowledged.
    pub closed spec fn is_raised(self) -> bool {
        self.raised
    }

    /// What any number of stop requests leave behind: the flag raised,
    /// nothing else. Requesting is idempotent because this is total on the
    /// flag's state.
    pub closed spec fn requested(self) -> StopFlag {
        StopFlag { raised: true }
    }

    pub fn new() -> (s: StopFlag)
        ensures
            !s.is_raised(),
    {
        StopFlag { raised: false }
    }

    /// Raise the flag unconditionally. Always succeeds, never blocks, and
    /// never clears: only the engine may move the flag back down.
    pub fn request_stop(&mut self)
        ensures
            *final(self) == old(self).requested(),
            final(self).is_raised(),
    {
        self.raised = true;
    }

    /// Poll the flag. Side-effect-free; the engine calls this at every
    /// iteration of an animated loop.
    pub fn should_stop(&self) -> (b: bool)
        ensures
            b == self.is_raised(),
    {
        self.raised
    }

    /// Clear the flag. Called exactly once per observed stop, by the engine
    /// alone, only after the animation has reached a safe stopping point.
    pub fn acknowledge_stop(&mut self)
        requires
            old(self).is_raised(),
        ensures
            !final(self).is_raised(),
    {
        self.raised = false;
    }
}

/// Idempotence of stop requests: a second `request_stop` before the
/// acknowledgement leaves the flag exactly as the first did.
pub proof fn lemma_request_stop_idempotent(f: StopFlag)
    ensures
        f.requested().requested() == f.requested(),
        f.requested().is_raised(),
{
}

} // verus!
