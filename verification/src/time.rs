//! Wall-clock time since boot, as handed to user space: a (seconds,
//! microseconds) pair built from the timer's microsecond count.

use vstd::prelude::*;

verus! {

/// Microseconds per second.
pub const MICROS_PER_SEC: usize = 1_000_000;

/// A (seconds, microseconds) pair describing wall-clock time since boot.
/// Written into user memory as two machine-word-sized fields, seconds
/// first; never read back by the kernel.
#[derive(Clone, Copy, PartialEq, Eq, Structural, Debug)]
pub struct TimeVal {
    pub sec: usize,
    pub usec: usize,
}

/// The pair a microsecond count splits into.
pub open spec fn time_val_of(us: usize) -> TimeVal {
    TimeVal { sec: us / MICROS_PER_SEC, usec: us % MICROS_PER_SEC }
}

/// The microsecond count a pair reconstructs to.
pub open spec fn micros_of(t: TimeVal) -> int {
    t.sec * MICROS_PER_SEC + t.usec
}

impl TimeVal {
    /// Split a microsecond count into whole seconds and the microsecond
    /// remainder.
    pub fn from_micros(us: usize) -> (t: TimeVal)
        ensures
            t == time_val_of(us),
            micros_of(t) == us,
            t.usec < MICROS_PER_SEC,
    {
        proof {
            vstd::arithmetic::div_mod::lemma_fundamental_div_mod(
                us as int,
                MICROS_PER_SEC as int,
            );
        }
        TimeVal { sec: us / MICROS_PER_SEC, usec: us % MICROS_PER_SEC }
    }
}

/// A pair built from a microsecond count reconstructs exactly that count:
/// nothing is lost in the split.
pub proof fn lemma_time_val_reconstructs(us: usize)
    ensures
        micros_of(time_val_of(us)) == us,
{
    vstd::arithmetic::div_mod::lemma_fundamental_div_mod(us as int, MICROS_PER_SEC as int);
}

/// Successive reads of a monotonic timer give pairs whose reconstructed
/// microsecond counts are monotonically non-decreasing.
pub proof fn lemma_time_val_monotonic(us1: usize, us2: usize)
    requires
        us1 <= us2,
    ensures
        micros_of(time_val_of(us1)) <= micros_of(time_val_of(us2)),
{
    lemma_time_val_reconstructs(us1);
    lemma_time_val_reconstructs(us2);
}

} // verus!
