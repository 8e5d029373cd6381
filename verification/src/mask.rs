//! The wake-mask word and the wait-flag bits.
//!
//! A wake-mask word is a 32-bit value carrying two 16-bit halves: the low
//! half selects which queue-status bits wake the thread's input event, the
//! high half carries the wait flags.

use vstd::prelude::*;

verus! {

/// Wait flag: the wait also completes when an asynchronous procedure call is
/// queued. Rejected by this library.
pub const MWMO_ALERTABLE: u32 = 0x0002;

/// Wait flag: the wait completes only when all waited objects are signalled.
/// Rejected by this library.
pub const MWMO_WAITALL: u32 = 0x0001;

/// Wait flag: complete immediately when matching messages are already
/// queued. Honoured by the queue-status probe on the first poll.
pub const MWMO_INPUTAVAILABLE: u32 = 0x0004;

/// Wait flag: also wake when another thread attaches its input queue to the
/// waiting thread's queue.
pub const MWMO_QUEUEATTACH: u32 = 0x0008;

/// The wake-mask word composed of a queue-status half (low) and a wait-flag
/// half (high).
pub open spec fn dword(low: u16, high: u16) -> u32 {
    (low + high * 0x10000) as u32
}

/// Composes the 32-bit wake-mask word from its two 16-bit halves.
pub fn make_dword(low: u16, high: u16) -> (r: u32)
    ensures
        r == dword(low, high),
        r & 0xFFFF == low,
        r >> 16 == high,
{
    let r = (low as u32) | ((high as u32) << 16);
    proof {
        assert(((low as u32) | ((high as u32) << 16)) == low + (high as u32) * 0x10000
            && ((low as u32) | ((high as u32) << 16)) & 0xFFFF == low
            && ((low as u32) | ((high as u32) << 16)) >> 16 == high) by (bit_vector);
    }
    r
}

} // verus!
