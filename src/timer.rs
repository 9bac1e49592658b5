//! The free-running 64-bit microsecond counter, read through its two unlatched
//! 32-bit halves.
use vstd::prelude::*;

verus! {

/// The 64-bit count whose upper half is `high` and lower half is `low`.
pub open spec fn ticks_of(high: u32, low: u32) -> u64 {
    (high as int * 0x1_0000_0000 + low as int) as u64
}

/// A consistent read of the counter in progress. The upper half is read, then
/// the lower half and the upper half again; the read is accepted once both
/// upper reads agree, so that a carry between the halves cannot be missed.
pub struct Timer {
    high: u32,
}

impl Timer {
    pub closed spec fn spec_high(&self) -> u32 {
        self.high
    }

    /// A reader whose first read of the upper half gave `high`.
    pub fn new(high: u32) -> (r: Timer)
        ensures
            r.spec_high() == high,
    {
        Timer { high }
    }

    /// The upper half the pending read is checked against.
    pub fn high(&self) -> (r: u32)
        ensures
            r == self.spec_high(),
    {
        self.high
    }

    /// Takes the next lower read and the upper read after it: the count where
    /// the upper half did not change in between, else `None`, and the read is
    /// to be retried against `next_high`.
    pub fn try_now(&mut self, low: u32, next_high: u32) -> (r: Option<u64>)
        ensures
            next_high == old(self).spec_high() ==> r == Some(ticks_of(next_high, low)),
            next_high != old(self).spec_high() ==> r is None,
            final(self).spec_high() == next_high,
    {
        if next_high == self.high {
            Some(combine_halves(next_high, low))
        } else {
            self.high = next_high;
            None
        }
    }
}

/// Joins the two halves of the counter.
pub fn combine_halves(high: u32, low: u32) -> (r: u64)
    ensures
        r == ticks_of(high, low),
        r as int == high as int * 0x1_0000_0000 + low as int,
{
    assert(high as int * 0x1_0000_0000 + low as int <= u64::MAX) by (nonlinear_arith)
        requires
            high <= u32::MAX,
            low <= u32::MAX,
    ;
    (high as u64) * 0x1_0000_0000u64 + (low as u64)
}

} // verus!
