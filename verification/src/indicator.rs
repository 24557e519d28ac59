//! Status indicator: owns one digital output pin, a liveness signal only.
//!
//! A flash drives the pin to its active level, holds it briefly (a fixed
//! busy-wait on the target, timing only) and returns it to inactive. The pin
//! keeps, as instrumentation, the trace of every level ever driven onto it.

use vstd::prelude::*;

verus! {

/// Owns the output pin. `active` is the level the pin is held at now; `trace`
/// is every level ever driven, oldest first (`true` is the active level).
#[derive(Debug)]
pub struct Indicator {
    pub active: bool,
    pub trace: Vec<bool>,
}

/// What one flash does: the pin is driven active then inactive, and is left
/// at its inactive level.
pub open spec fn flashes_to(pre: Indicator, post: Indicator) -> bool {
    &&& !post.active
    &&& post.trace@ == pre.trace@.push(true).push(false)
}

impl Indicator {
    /// An indicator over a pin configured as output, at its inactive level.
    pub fn new() -> (r: Indicator)
        ensures
            !r.active,
            r.trace@ == Seq::<bool>::empty(),
    {
        Indicator { active: false, trace: Vec::new() }
    }

    /// Drives the pin active, holds briefly, and returns it to inactive
    /// before returning, whatever level it held before.
    pub fn flash(&mut self)
        ensures
            flashes_to(*old(self), *final(self)),
    {
        self.active = true;
        self.trace.push(true);
        // the brief hold is platform timing only; it changes no state
        self.active = false;
        self.trace.push(false);
    }
}

/// Back-to-back flashes are idempotent in their net effect on the pin level:
/// after every flash of a run of flashes, the pin rests at the same, inactive
/// level.
pub proof fn lemma_flash_net_idempotent(a: Indicator, b: Indicator, c: Indicator)
    requires
        flashes_to(a, b),
        flashes_to(b, c),
    ensures
        !b.active,
        !c.active,
        b.active == c.active,
{
}

} // verus!
