//! The animated light color: three channels, each nudged by a fixed delta
//! every frame and bounced off the [0, 1] boundaries.
//!
//! A channel value is held in thousandths, so the unit interval is
//! `0 ..= COLOR_SCALE` and the per-frame deltas of the demo (0.001, 0.002,
//! 0.003) are the integers 1, 2 and 3. Every step is exact integer
//! arithmetic; the render loop divides by `COLOR_SCALE` when it hands the
//! color to the graphics backend.

use vstd::prelude::*;

verus! {

/// One unit (1.0) of a color channel, in thousandths.
pub const COLOR_SCALE: i32 = 1000;

/// One color channel: its current value in thousandths of a unit, and the
/// delta added to it on every step.
#[derive(Clone, Copy, Debug, PartialEq, Eq, Structural)]
pub struct Channel {
    pub value: i32,
    pub delta: i32,
}

impl Channel {
    /// A channel is well formed when its value lies inside the unit interval
    /// and its delta is no larger than one unit in either direction.
    pub open spec fn wf(self) -> bool {
        &&& 0 <= self.value <= COLOR_SCALE
        &&& -COLOR_SCALE <= self.delta <= COLOR_SCALE
    }

    /// One bounce step: add the delta, and on boundary contact clamp to the
    /// boundary and flip the delta's sign.
    pub open spec fn stepped(self) -> Channel {
        let raw = self.value + self.delta;
        if raw < 0 {
            Channel { value: 0, delta: (-self.delta) as i32 }
        } else if raw > COLOR_SCALE {
            Channel { value: COLOR_SCALE, delta: (-self.delta) as i32 }
        } else {
            Channel { value: raw as i32, delta: self.delta }
        }
    }

    /// The channel after `n` bounce steps.
    pub open spec fn stepped_n(self, n: nat) -> Channel
        decreases n,
    {
        if n == 0 {
            self
        } else {
            self.stepped().stepped_n((n - 1) as nat)
        }
    }

    /// Advance the channel by one bounce step.
    pub fn step(&mut self)
        requires
            old(self).wf(),
        ensures
            *final(self) == old(self).stepped(),
            final(self).wf(),
    {
        let raw = self.value + self.delta;
        if raw < 0 {
            self.value = 0;
            self.delta = -self.delta;
        } else if raw > COLOR_SCALE {
            self.value = COLOR_SCALE;
            self.delta = -self.delta;
        } else {
            self.value = raw;
        }
    }
}

/// One bounce step keeps a well-formed channel well formed: the value stays
/// inside the unit interval and the delta keeps its magnitude.
pub proof fn lemma_step_preserves_wf(c: Channel)
    requires
        c.wf(),
    ensures
        c.stepped().wf(),
{
}

/// However many bounce steps are taken, a well-formed channel's value never
/// leaves the unit interval.
pub proof fn lemma_steps_stay_in_range(c: Channel, n: nat)
    requires
        c.wf(),
    ensures
        c.stepped_n(n).wf(),
        0 <= c.stepped_n(n).value <= COLOR_SCALE,
    decreases n,
{
    if n > 0 {
        lemma_step_preserves_wf(c);
        lemma_steps_stay_in_range(c.stepped(), (n - 1) as nat);
    }
}

/// The animated light color: red, green and blue channels, stepped together
/// once per frame.
#[derive(Clone, Copy, Debug, PartialEq, Eq, Structural)]
pub struct AnimatedColor {
    pub r: Channel,
    pub g: Channel,
    pub b: Channel,
}

impl AnimatedColor {
    pub open spec fn wf(self) -> bool {
        &&& self.r.wf()
        &&& self.g.wf()
        &&& self.b.wf()
    }

    /// The color the demo starts from: black, with per-channel deltas of
    /// 0.001, 0.002 and 0.003 units per frame.
    pub open spec fn initial() -> AnimatedColor {
        AnimatedColor {
            r: Channel { value: 0, delta: 1 },
            g: Channel { value: 0, delta: 2 },
            b: Channel { value: 0, delta: 3 },
        }
    }

    /// The starting color, ready to be stepped once per frame.
    pub fn new() -> (c: AnimatedColor)
        ensures
            c == AnimatedColor::initial(),
            c.wf(),
    {
        AnimatedColor {
            r: Channel { value: 0, delta: 1 },
            g: Channel { value: 0, delta: 2 },
            b: Channel { value: 0, delta: 3 },
        }
    }

    /// Advance every channel by one bounce step.
    pub fn step(&mut self)
        requires
            old(self).wf(),
        ensures
            final(self).r == old(self).r.stepped(),
            final(self).g == old(self).g.stepped(),
            final(self).b == old(self).b.stepped(),
            final(self).wf(),
    {
        self.r.step();
        self.g.step();
        self.b.step();
    }
}

} // verus!
