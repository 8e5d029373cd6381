//! The message-wait future: the state machine that composes the queue-status
//! probe, the configured input event, the thread-pool wait and the shared
//! wake state into one awaitable.
//!
//! The machine is driven from outside: the driver performs each syscall and
//! feeds its outcome in (the probe's status word, the completion callback as
//! a [`InputEventFutureShared::wait_done`] call), and this module decides
//! every transition. A poll runs as:
//!
//! 1. [`InputEventFuture::poll_status`] — resolve if the wait completed,
//!    stay pending (refreshing the waker) if it is in flight, otherwise
//!    probe.
//! 2. On `Probe`, the driver reads the queue status and calls
//!    [`InputEventFuture::poll_probed`] — either the fast path resolves
//!    without acquiring anything, or the event is configured and the pool
//!    wait armed.
//! 3. [`InputEventFuture::poll_commit`] — install the waker and commit to
//!    `Pending`; if the wait completed in between, the poll resolves
//!    synchronously instead.
//!
//! [`InputEventFuture::resolve`] and [`InputEventFuture::drop_future`] tear
//! the registration down; the driver must let in-flight callbacks finish
//! before the shared state is released.

use vstd::prelude::*;

use crate::drain::MessageIterator;
use crate::mask::MWMO_ALERTABLE;
use crate::mask::MWMO_QUEUEATTACH;
use crate::mask::MWMO_WAITALL;
use crate::mask::dword;
use crate::queue::ConfiguredInputEvent;
use crate::queue::ThreadQueueState;
use crate::shared::InputEventFutureShared;
use crate::shared::SharedView;
use crate::shared::WakeState;
use crate::shared::fresh_shared;
use crate::shared::shared_wf;
use crate::shared::spec_arm;
use crate::shared::spec_request_cancel;
use crate::shared::spec_store_waker;

verus! {

/// The error returned by this library: the caller asked for wait semantics
/// that the message-wait future does not provide.
#[derive(Clone, Copy, PartialEq, Eq, Structural, Debug)]
pub enum WaitError {
    /// Alertable or wait-all flags were set, or a flag word does not fit in
    /// 16 bits.
    InvalidArgument,
}

/// What a poll must do next, decided from the shared wake state alone.
#[derive(Clone, Copy, PartialEq, Eq, Structural, Debug)]
pub enum PollStatus {
    /// The wait completed: release the resources and return the drain.
    Resolve,
    /// The wait is in flight: return pending.
    StayPending,
    /// First poll: read the queue status and continue with
    /// [`InputEventFuture::poll_probed`].
    Probe,
}

/// The mathematical value of an [`InputEventFuture`].
#[verifier::ext_equal]
pub ghost struct FutureView {
    pub queue_status_flags: u16,
    pub wait_flags: u16,
    pub input_event: Option<ConfiguredInputEvent>,
    pub wait_registered: bool,
    pub shared: SharedView,
}

/// The message-wait future. `input_event` and `wait_registered` are the
/// owned kernel resources of the slow path; `shared` is the record the pool
/// callback reaches.
pub struct InputEventFuture {
    pub queue_status_flags: u16,
    pub wait_flags: u16,
    pub input_event: Option<ConfiguredInputEvent>,
    pub wait_registered: bool,
    pub shared: InputEventFutureShared,
}

impl View for InputEventFuture {
    type V = FutureView;

    open spec fn view(&self) -> FutureView {
        FutureView {
            queue_status_flags: self.queue_status_flags,
            wait_flags: self.wait_flags,
            input_event: self.input_event,
            wait_registered: self.wait_registered,
            shared: self.shared@,
        }
    }
}

/// A future that has not been polled: no kernel resource is acquired and
/// the shared record is fresh.
pub open spec fn fresh_future(f: FutureView, queue_status_flags: u16, wait_flags: u16) -> bool {
    f == (FutureView {
        queue_status_flags,
        wait_flags,
        input_event: None::<ConfiguredInputEvent>,
        wait_registered: false,
        shared: fresh_shared(),
    })
}

/// How the future's fields and the thread's queue-wake state stay in step:
/// while the configured input event is held, the thread's wake mask is the
/// event's word, and otherwise it is clear; the pool wait is outstanding
/// exactly while the future owns a registration; a pending future holds
/// both resources.
pub open spec fn coupled(f: FutureView, q: ThreadQueueState) -> bool {
    &&& shared_wf(f.shared)
    &&& (f.input_event matches Some(ev) ==> {
        &&& ev.wake_mask_word == dword(f.queue_status_flags, f.wait_flags)
        &&& q.wake_mask_word == ev.wake_mask_word
    })
    &&& (f.input_event is None ==> q.wake_mask_word == 0)
    &&& q.pool_wait_armed == f.wait_registered
    &&& (f.shared.state is Pending ==> f.input_event is Some && f.wait_registered)
}

/// The queue-wake state after the future's resources are released: the
/// wake mask is cleared and the completion packet re-associated if the
/// event was held, and the pool wait is gone if one was registered.
pub open spec fn spec_teardown_queue(f: FutureView, q: ThreadQueueState) -> ThreadQueueState {
    ThreadQueueState {
        wake_mask_word: if f.input_event is Some { 0 } else { q.wake_mask_word },
        completion_packet_attached: if f.input_event is Some {
            true
        } else {
            q.completion_packet_attached
        },
        queue_attach_wake_armed: q.queue_attach_wake_armed,
        pool_wait_armed: if f.wait_registered { false } else { q.pool_wait_armed },
    }
}

/// Dropping the future: try to cancel a pending wait, then release whatever
/// was acquired.
pub open spec fn spec_drop(f: FutureView, q: ThreadQueueState) -> (FutureView, ThreadQueueState, bool) {
    let (s1, cancelled) = spec_request_cancel(f.shared);
    (
        FutureView {
            input_event: None::<ConfiguredInputEvent>,
            wait_registered: false,
            shared: s1,
            ..f
        },
        spec_teardown_queue(f, q),
        cancelled,
    )
}

/// True exactly when the entry point rejects the pair of flag words: an
/// alertable or wait-all wait was requested, or a word does not fit in 16
/// bits.
pub open spec fn args_rejected(queue_status_flags: u32, wait_flags: u32) -> bool {
    ||| wait_flags & (MWMO_ALERTABLE | MWMO_WAITALL) != 0
    ||| queue_status_flags > 0xFFFF
    ||| wait_flags > 0xFFFF
}

impl InputEventFuture {
    /// A future over the given wake mask and wait flags. Nothing is
    /// acquired until the first poll.
    pub fn new(queue_status_flags: u16, wait_flags: u16) -> (f: Self)
        ensures
            fresh_future(f@, queue_status_flags, wait_flags),
    {
        let f = InputEventFuture {
            queue_status_flags,
            wait_flags,
            input_event: None,
            wait_registered: false,
            shared: InputEventFutureShared::new(),
        };
        proof {
            assert(fresh_future(f@, queue_status_flags, wait_flags)) by {
                assert(f@ =~= FutureView {
                    queue_status_flags,
                    wait_flags,
                    input_event: None::<ConfiguredInputEvent>,
                    wait_registered: false,
                    shared: fresh_shared(),
                });
            }
        }
        f
    }

    /// The start of a poll: decide from the shared state alone. A pending
    /// future refreshes the stored waker best-effort and stays pending —
    /// a poll never resolves between arming and the wait's completion.
    pub fn poll_status(&mut self, waker: u64) -> (d: PollStatus)
        requires
            shared_wf(old(self)@.shared),
            !(old(self)@.shared.state is Cancelled),
        ensures
            d is Resolve <==> old(self)@.shared.state is Ready,
            d is StayPending <==> old(self)@.shared.state is Pending,
            d is Probe <==> old(self)@.shared.state is NotPending,
            old(self)@.shared.state is Pending ==> final(self)@ == (FutureView {
                shared: spec_store_waker(old(self)@.shared, waker).0,
                ..old(self)@
            }),
            !(old(self)@.shared.state is Pending) ==> final(self)@ == old(self)@,
            shared_wf(final(self)@.shared),
    {
        match self.shared.state {
            WakeState::Ready => PollStatus::Resolve,
            WakeState::Pending => {
                let _stored = self.shared.store_waker(waker);
                PollStatus::StayPending
            },
            _ => PollStatus::Probe,
        }
    }

    /// The first poll, after the driver probed the queue status with the
    /// composed wake-mask word.
    ///
    /// A nonzero status resolves on the spot: nothing is acquired, no pool
    /// wait is ever created. A zero status takes the slow path: register
    /// the pool wait, configure the input event, arm the queue-attach wake
    /// exactly when the caller set that flag, and arm the pool wait on the
    /// event.
    pub fn poll_probed(&mut self, q: &mut ThreadQueueState, queue_status: u32) -> (fast: bool)
        requires
            old(self)@.shared.state is NotPending,
            old(self)@.input_event is None,
            !old(self)@.wait_registered,
        ensures
            fast <==> queue_status != 0,
            fast ==> final(self)@ == old(self)@ && *final(q) == *old(q),
            !fast ==> final(self)@ == (FutureView {
                input_event: Some(ConfiguredInputEvent {
                    wake_mask_word: dword(old(self)@.queue_status_flags, old(self)@.wait_flags),
                }),
                wait_registered: true,
                ..old(self)@
            }),
            !fast ==> *final(q) == (ThreadQueueState {
                wake_mask_word: dword(old(self)@.queue_status_flags, old(self)@.wait_flags),
                completion_packet_attached: false,
                queue_attach_wake_armed: old(q).queue_attach_wake_armed
                    || old(self)@.wait_flags & (MWMO_QUEUEATTACH as u16) != 0,
                pool_wait_armed: true,
            }),
            !fast ==> (final(q).queue_attach_wake_armed == (old(q).queue_attach_wake_armed
                || old(self)@.wait_flags & (MWMO_QUEUEATTACH as u16) != 0)),
    {
        if queue_status != 0 {
            true
        } else {
            self.wait_registered = true;
            let ev = ConfiguredInputEvent::new(q, self.queue_status_flags, self.wait_flags);
            self.input_event = Some(ev);
            if self.wait_flags & (MWMO_QUEUEATTACH as u16) != 0 {
                q.queue_attach_wake_armed = true;
            }
            q.pool_wait_armed = true;
            false
        }
    }

    /// The end of the first poll's slow path: install the waker and commit
    /// to `Pending`. If the wait completed between arming the pool wait and
    /// this commit, the commit fails, nobody was woken, and the caller
    /// resolves synchronously.
    pub fn poll_commit(&mut self, waker: u64) -> (armed: bool)
        requires
            !(old(self)@.shared.state is Pending),
            !(old(self)@.shared.state is Cancelled),
        ensures
            final(self)@ == (FutureView { shared: spec_arm(old(self)@.shared, waker).0, ..old(self)@ }),
            armed == spec_arm(old(self)@.shared, waker).1,
            armed <==> old(self)@.shared.state is NotPending,
            shared_wf(final(self)@.shared),
    {
        self.shared.arm(waker)
    }

    /// Resolve a completed wait: release the configured input event and the
    /// pool-wait registration, and hand out a fresh drain over the queue.
    pub fn resolve(&mut self, q: &mut ThreadQueueState) -> (it: MessageIterator)
        requires
            old(self)@.shared.state is Ready,
        ensures
            final(self)@ == (FutureView {
                input_event: None::<ConfiguredInputEvent>,
                wait_registered: false,
                ..old(self)@
            }),
            *final(q) == spec_teardown_queue(old(self)@, *old(q)),
            !it.done,
    {
        let ev = self.input_event.take();
        match ev {
            Some(e) => e.release(q),
            None => (),
        }
        if self.wait_registered {
            q.pool_wait_armed = false;
            self.wait_registered = false;
        }
        MessageIterator::default()
    }

    /// Drop the future, at any state. A pending wait is cancelled first —
    /// the driver disarms the pool wait and lets in-flight callbacks finish
    /// before the shared record is released — then whatever was acquired is
    /// released: the wake mask is cleared, the completion packet
    /// re-associated, the pool wait closed.
    pub fn drop_future(&mut self, q: &mut ThreadQueueState) -> (cancelled: bool)
        ensures
            final(self)@ == spec_drop(old(self)@, *old(q)).0,
            *final(q) == spec_drop(old(self)@, *old(q)).1,
            cancelled == spec_drop(old(self)@, *old(q)).2,
    {
        let cancelled = self.shared.request_cancel();
        if self.wait_registered {
            q.pool_wait_armed = false;
            self.wait_registered = false;
        }
        let ev = self.input_event.take();
        match ev {
            Some(e) => e.release(q),
            None => (),
        }
        cancelled
    }
}

/// Dropping the future, at any reachable state, leaves the thread's wake
/// mask cleared and no outstanding pool wait.
pub proof fn law_drop_clears(f: FutureView, q: ThreadQueueState)
    requires
        coupled(f, q),
    ensures
        spec_drop(f, q).1.wake_mask_word == 0,
        !spec_drop(f, q).1.pool_wait_armed,
{
}

/// Dropping keeps the future's record and the thread's queue-wake state in
/// step: the released state is again a reachable one.
pub proof fn law_drop_preserves_coupled(f: FutureView, q: ThreadQueueState)
    requires
        coupled(f, q),
    ensures
        coupled(spec_drop(f, q).0, spec_drop(f, q).1),
{
}

/// Dropping is idempotent: a second drop changes neither the future's
/// record nor the thread's queue-wake state, and no second cancellation
/// fires.
pub proof fn law_drop_idempotent(f: FutureView, q: ThreadQueueState)
    ensures
        spec_drop(spec_drop(f, q).0, spec_drop(f, q).1).0 == spec_drop(f, q).0,
        spec_drop(spec_drop(f, q).0, spec_drop(f, q).1).1 == spec_drop(f, q).1,
        !spec_drop(spec_drop(f, q).0, spec_drop(f, q).1).2,
{
    let (f1, q1, _c) = spec_drop(f, q);
    assert(spec_drop(f1, q1).0 =~= f1);
    assert(spec_drop(f1, q1).1 =~= q1);
}

/// The entry point: check the flag words, and hand back an unpolled future.
///
/// Alertable and wait-all semantics are not provided and are rejected, as
/// is any flag word above 16 bits; the rejection happens before any kernel
/// resource is touched, and every accepted pair yields a future.
pub fn wait_for_messages(queue_status_flags: u32, wait_flags: u32) -> (r: Result<
    InputEventFuture,
    WaitError,
>)
    ensures
        r is Err <==> args_rejected(queue_status_flags, wait_flags),
        r matches Err(e) ==> e is InvalidArgument,
        r matches Ok(f) ==> fresh_future(
            f@,
            queue_status_flags as u16,
            wait_flags as u16,
        ),
{
    if wait_flags & (MWMO_ALERTABLE | MWMO_WAITALL) != 0 {
        return Err(WaitError::InvalidArgument);
    }
    if queue_status_flags > 0xFFFF || wait_flags > 0xFFFF {
        return Err(WaitError::InvalidArgument);
    }
    Ok(InputEventFuture::new(queue_status_flags as u16, wait_flags as u16))
}

} // verus!
