//! Turning sensor readings into plucks, with hysteresis: a pluck fires when
//! a reading falls below the low threshold, and the detector re-arms only
//! once a reading rises above the high one.

use vstd::prelude::*;

verus! {

/// A reading under this fires a pluck.
pub const LOW_THRESHOLD: u16 = 400;

/// A reading over this re-arms the detector.
pub const HIGH_THRESHOLD: u16 = 900;

/// Whether a pluck has fired and the detector waits to re-arm.
pub struct PluckDetector {
    plucking: bool,
}

impl PluckDetector {
    pub closed spec fn is_plucking(&self) -> bool {
        self.plucking
    }

    /// Whether `reading` fires a pluck in state `plucking`.
    pub open spec fn fires(plucking: bool, reading: u16) -> bool {
        !plucking && reading < LOW_THRESHOLD
    }

    /// The state after `reading`.
    pub open spec fn next_plucking(plucking: bool, reading: u16) -> bool {
        if Self::fires(plucking, reading) {
            true
        } else if plucking && reading > HIGH_THRESHOLD {
            false
        } else {
            plucking
        }
    }

    /// An armed detector.
    pub fn new() -> (r: PluckDetector)
        ensures
            !r.is_plucking(),
    {
        PluckDetector { plucking: false }
    }

    /// Whether a pluck has fired and no reading has re-armed it since.
    pub fn plucking(&self) -> (r: bool)
        ensures
            r == self.is_plucking(),
    {
        self.plucking
    }

    /// Takes one reading and returns whether it fires a pluck.
    pub fn update(&mut self, reading: u16) -> (fire: bool)
        ensures
            fire == Self::fires(old(self).is_plucking(), reading),
            final(self).is_plucking() == Self::next_plucking(old(self).is_plucking(), reading),
    {
        let fire = !self.plucking && reading < LOW_THRESHOLD;
        if fire {
            self.plucking = true;
        } else if self.plucking && reading > HIGH_THRESHOLD {
            self.plucking = false;
        }
        fire
    }
}

} // verus!
