//! Wall-clock values handed back by `sys_get_time`.
//!
//! The monotonic clock itself is a collaborator outside this crate; the
//! handler receives its reading in microseconds and splits it into the
//! second / microsecond pair that is written into user memory.

use vstd::prelude::*;

verus! {

/// Microseconds in one second: the divisor that splits a raw clock reading.
pub const USEC_PER_SEC: usize = 1_000_000;

/// The value written into user memory by `sys_get_time`: whole seconds and
/// the microsecond remainder (`usec < USEC_PER_SEC`).
#[derive(Clone, Copy, Debug, PartialEq, Eq, Structural)]
pub struct TimeVal {
    /// Whole seconds of the clock reading.
    pub sec: usize,
    /// Microseconds below one second.
    pub usec: usize,
}

impl TimeVal {
    /// A `TimeVal` is the unique quotient/remainder split of a reading.
    pub open spec fn is_split_of(self, us: usize) -> bool {
        &&& self.sec == us as int / (USEC_PER_SEC as int)
        &&& self.usec == us as int % (USEC_PER_SEC as int)
    }

    /// Splits a raw microsecond reading into seconds and the remainder.
    pub fn from_micros(us: usize) -> (tv: TimeVal)
        ensures
            tv.is_split_of(us),
            tv.usec < USEC_PER_SEC,
            us == tv.sec * USEC_PER_SEC + tv.usec,
    {
        proof {
            vstd::arithmetic::div_mod::lemma_fundamental_div_mod(us as int, USEC_PER_SEC as int);
        }
        TimeVal { sec: us / USEC_PER_SEC, usec: us % USEC_PER_SEC }
    }
}

/// Law: the split is monotone in the reading. A later (not smaller) clock
/// value never yields a smaller `(sec, usec)` pair: either `sec` grows, or
/// `sec` is unchanged and `usec` has not decreased. Together with
/// `TimeVal::from_micros`, this is the back-to-back `get_time` ordering
/// guarantee.
pub proof fn lemma_timeval_monotonic(us1: usize, us2: usize, tv1: TimeVal, tv2: TimeVal)
    requires
        us1 <= us2,
        tv1.is_split_of(us1),
        tv2.is_split_of(us2),
    ensures
        tv1.sec < tv2.sec || (tv1.sec == tv2.sec && tv1.usec <= tv2.usec),
{
    vstd::arithmetic::div_mod::lemma_div_is_ordered(us1 as int, us2 as int, USEC_PER_SEC as int);
    if tv1.sec == tv2.sec {
        vstd::arithmetic::div_mod::lemma_fundamental_div_mod(us1 as int, USEC_PER_SEC as int);
        vstd::arithmetic::div_mod::lemma_fundamental_div_mod(us2 as int, USEC_PER_SEC as int);
    }
}

} // verus!
