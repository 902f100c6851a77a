//! Delays for the host's timer.

use vstd::prelude::*;

verus! {

/// The count of milliseconds that the host's timer is given for a delay of
/// `timeout` milliseconds.
///
/// The timer takes a signed 32-bit count. A delay that fits is passed as it is;
/// a larger one wraps around to a negative count.
pub open spec fn timer_delay_spec(timeout: u32) -> int {
    if timeout <= i32::MAX {
        timeout as int
    } else {
        timeout - 0x1_0000_0000
    }
}

/// Converts a delay in milliseconds to the count that the host's timer takes.
pub fn timer_delay(timeout: u32) -> (delay: i32)
    ensures
        delay == timer_delay_spec(timeout),
{
    if timeout <= 0x7fff_ffff {
        timeout as i32
    } else {
        let above: u32 = timeout - 0x8000_0000;
        i32::MIN + (above as i32)
    }
}

} // verus!
