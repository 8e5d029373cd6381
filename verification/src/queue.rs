//! A model of the kernel-side, per-thread queue-wake bookkeeping, and the
//! configured input event that manipulates it.
//!
//! [`ThreadQueueState`] holds exactly the state that the queue-wake
//! syscalls touch: the thread's current wake-mask word, whether the queue's
//! event-completion packet is associated with the input event, whether a
//! queue-attach wake is armed, and whether a thread-pool wait on the input
//! event is outstanding. The driver that makes the real syscalls keeps this
//! record in step with the kernel.

use vstd::prelude::*;

use crate::mask::dword;
use crate::mask::make_dword;

verus! {

/// The kernel-side queue-wake state of one thread.
#[derive(Clone, Copy, PartialEq, Eq, Structural, Debug)]
pub struct ThreadQueueState {
    /// The thread's current wake-mask word; `0` when cleared.
    pub wake_mask_word: u32,
    /// Whether the queue's event-completion packet is associated with the
    /// input event. While it is, a completion port would consume the event
    /// signal before a userspace wait could observe it.
    pub completion_packet_attached: bool,
    /// Whether a wake on queue attach is armed.
    pub queue_attach_wake_armed: bool,
    /// Whether a thread-pool wait on the input event is outstanding.
    pub pool_wait_armed: bool,
}

impl ThreadQueueState {
    /// A thread with no wait in progress: mask cleared, completion packet
    /// associated, nothing armed.
    pub fn idle() -> (q: Self)
        ensures
            q == (ThreadQueueState {
                wake_mask_word: 0,
                completion_packet_attached: true,
                queue_attach_wake_armed: false,
                pool_wait_armed: false,
            }),
    {
        ThreadQueueState {
            wake_mask_word: 0,
            completion_packet_attached: true,
            queue_attach_wake_armed: false,
            pool_wait_armed: false,
        }
    }
}

/// The thread's input event, fetched with the caller's wake mask and wait
/// flags encoded into the wake-mask word.
///
/// While a value of this type is alive, the thread's wake mask is the
/// encoded word and the event-completion packet is cancelled. The value is
/// not copyable and is released exactly once, through
/// [`ConfiguredInputEvent::release`], which restores both — the mask first,
/// then the packet, the order the OS's own wait uses.
#[derive(PartialEq, Eq, Structural, Debug)]
pub struct ConfiguredInputEvent {
    /// The wake-mask word the event was fetched with.
    pub wake_mask_word: u32,
}

impl ConfiguredInputEvent {
    /// Fetch and configure the input event: the wake mask is set to the
    /// composed word, and the completion packet is cancelled so that the
    /// signal stays observable by a userspace wait.
    pub fn new(q: &mut ThreadQueueState, queue_status_flags: u16, wait_flags: u16) -> (ev: Self)
        ensures
            ev.wake_mask_word == dword(queue_status_flags, wait_flags),
            *final(q) == (ThreadQueueState {
                wake_mask_word: dword(queue_status_flags, wait_flags),
                completion_packet_attached: false,
                ..*old(q)
            }),
    {
        let word = make_dword(queue_status_flags, wait_flags);
        q.wake_mask_word = word;
        q.completion_packet_attached = false;
        ConfiguredInputEvent { wake_mask_word: word }
    }

    /// Release the event: clear the wake mask, then re-associate the
    /// completion packet.
    pub fn release(self, q: &mut ThreadQueueState)
        ensures
            *final(q) == (ThreadQueueState {
                wake_mask_word: 0,
                completion_packet_attached: true,
                ..*old(q)
            }),
    {
        q.wake_mask_word = 0;
        q.completion_packet_attached = true;
    }
}

} // verus!
