use vstd::prelude::*;

verus! {

/// Engine timebase: elapsed milliseconds since start, wrapping to zero when a
/// tick would reach the top of the range.
#[derive(Default, Clone, Copy, Debug)]
pub struct Clock(pub u64);

impl Clock {
    /// Advances the clock by `elapsed`, restarting from zero instead of
    /// saturating at the top of the range.
    pub fn tick(self, elapsed: u64) -> (r: Self)
        ensures
            self.0 + elapsed >= u64::MAX ==> r.0 == 0,
            self.0 + elapsed < u64::MAX ==> r.0 == self.0 + elapsed,
    {
        if elapsed >= u64::MAX - self.0 {
            Self(0)
        } else {
            Self(self.0 + elapsed)
        }
    }
}

} // verus!
