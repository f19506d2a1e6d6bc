//! Putting the current thread to sleep.

use vstd::prelude::*;

verus! {

/// The microseconds in `secs` seconds and `subsec_micros` microseconds, held
/// at the largest `u64` where they do not fit.
pub open spec fn micros_of(secs: u64, subsec_micros: u32) -> nat {
    let micros = secs * 1_000_000 + subsec_micros;
    if micros > u64::MAX {
        u64::MAX as nat
    } else {
        micros as nat
    }
}

/// The delay to ask of the kernel in order to sleep for `secs` seconds and
/// `subsec_micros` microseconds: the microseconds, of which the kernel takes
/// the low 32 bits.
pub fn sleep(secs: u64, subsec_micros: u32) -> (delay: u32)
    ensures
        delay == micros_of(secs, subsec_micros) % 0x1_0000_0000,
{
    let whole: u64 = match secs.checked_mul(1_000_000) {
        Some(product) => product,
        None => u64::MAX,
    };
    let micros: u64 = whole.saturating_add(subsec_micros as u64);
    (micros % 0x1_0000_0000) as u32
}

} // verus!
