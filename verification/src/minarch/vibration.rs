//! Rumble: the core's requested strength is queued and applied on frame
//! ticks; switching off is debounced over a few frames.

use vstd::prelude::*;

verus! {

/// Frames a switch-off waits before it is applied.
pub const OFF_DEFER_FRAMES: u8 = 3;

/// Rumble state: the strength the core asked for, the strength applied,
/// and the frames a switch-off has waited.
pub struct Vibration {
    queued: u8,
    current: u8,
    defer: u8,
}

/// The state as `(queued, current, defer)`.
pub type VibrationView = (u8, u8, u8);

/// One frame tick: nothing while the applied strength matches the queued
/// one; a new non-zero strength applies at once; a switch-off applies on
/// the fourth tick after it was queued.
pub open spec fn tick_step(v: VibrationView) -> (VibrationView, Option<u8>) {
    let (queued, current, defer) = v;
    if queued == current {
        (v, None)
    } else if queued != 0 {
        ((queued, queued, 0), Some(queued))
    } else if defer < OFF_DEFER_FRAMES {
        ((queued, current, (defer + 1) as u8), None)
    } else {
        ((queued, 0, 0), Some(0))
    }
}

impl View for Vibration {
    type V = VibrationView;

    closed spec fn view(&self) -> VibrationView {
        (self.queued, self.current, self.defer)
    }
}

impl Default for Vibration {
    fn default() -> (r: Self)
        ensures
            r@ == (0u8, 0u8, 0u8),
    {
        Vibration::new()
    }
}

impl Vibration {
    /// Off, nothing queued.
    pub fn new() -> (r: Self)
        ensures
            r@ == (0u8, 0u8, 0u8),
    {
        Vibration { queued: 0, current: 0, defer: 0 }
    }

    /// Queues a strength (0 switches off).
    pub fn set_strength(&mut self, strength: u8)
        ensures
            final(self)@ == (strength, old(self)@.1, old(self)@.2),
    {
        if self.queued == strength {
            return;
        }
        self.queued = strength;
    }

    /// The strength applied now.
    pub fn get_strength(&self) -> (r: u8)
        ensures
            r == self@.1,
    {
        self.current
    }

    /// Advances one frame; returns the strength to apply, if it changes.
    pub fn tick(&mut self) -> (r: Option<u8>)
        ensures
            (final(self)@, r) == tick_step(old(self)@),
    {
        if self.queued == self.current {
            return None;
        }
        if self.queued != 0 {
            self.current = self.queued;
            self.defer = 0;
            return Some(self.current);
        }
        if self.defer < OFF_DEFER_FRAMES {
            self.defer = self.defer + 1;
            return None;
        }
        self.current = 0;
        self.defer = 0;
        Some(0)
    }

    /// Stops at once (for sleep or the menu); returns the strength that
    /// was applied, to resume with.
    pub fn suspend(&mut self) -> (r: u8)
        ensures
            r == old(self)@.1,
            final(self)@ == (0u8, 0u8, 0u8),
    {
        let saved = self.current;
        self.queued = 0;
        self.current = 0;
        self.defer = 0;
        saved
    }

    /// Queues a saved strength again; 0 leaves the state as it is.
    pub fn resume(&mut self, strength: u8)
        ensures
            final(self)@ == if strength != 0 {
                (strength, old(self)@.1, old(self)@.2)
            } else {
                old(self)@
            },
    {
        if strength != 0 {
            self.set_strength(strength);
        }
    }
}

/// A new non-zero strength is applied on the next tick.
pub proof fn lemma_rumble_on_is_immediate(v: VibrationView, strength: u8)
    requires
        strength != 0,
        strength != v.1,
    ensures
        tick_step((strength, v.1, v.2)) == ((strength, strength, 0u8), Some(strength)),
{
}

/// A switch-off queued from a fresh debounce is applied on the fourth
/// tick, and not before.
pub proof fn lemma_rumble_off_after_four_ticks(current: u8)
    requires
        current != 0,
    ensures
        ({
            let (s1, r1) = tick_step((0u8, current, 0u8));
            let (s2, r2) = tick_step(s1);
            let (s3, r3) = tick_step(s2);
            let (s4, r4) = tick_step(s3);
            r1 is None && r2 is None && r3 is None && r4 == Some(0u8) && s4 == (0u8, 0u8, 0u8)
        }),
{
}

/// After a suspend (which leaves `(0, 0, 0)`), resuming with the saved
/// non-zero strength queues it, and the next tick applies it.
pub proof fn lemma_suspend_resume(saved: u8)
    requires
        saved != 0,
    ensures
        tick_step((saved, 0u8, 0u8)) == ((saved, saved, 0u8), Some(saved)),
{
}

} // verus!
