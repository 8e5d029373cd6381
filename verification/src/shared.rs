//! The shared wake state: the record that coordinates the future's polling
//! task with the thread-pool wait callback.
//!
//! The callback thread and the polling thread interleave whole operations on
//! this record; each operation below is one such atomic step, and its
//! contract is exactly the transition named in the design: `arm`,
//! `store_waker`, `wait_done` (the callback side) and `request_cancel` (the
//! drop side). Wake-ups delivered to the task runtime are recorded in
//! `wakes`, in order, so that contracts can state which waker was woken.

use vstd::prelude::*;

verus! {

/// The lifecycle of one message-wait future.
///
/// `Ready` and `Cancelled` are terminal.
#[derive(Clone, Copy, PartialEq, Eq, Structural, Debug)]
pub enum WakeState {
    /// The slow path has not been armed; a first poll may still resolve
    /// through the fast path.
    NotPending,
    /// The thread-pool wait is armed and a waker is installed.
    Pending,
    /// The wait completed; the next poll resolves.
    Ready,
    /// The future was dropped while pending.
    Cancelled,
}

/// The mathematical value of an [`InputEventFutureShared`].
#[verifier::ext_equal]
pub ghost struct SharedView {
    pub state: WakeState,
    pub waker_in_use: bool,
    pub waker: Option<u64>,
    pub wakes: Seq<u64>,
}

/// The shared record itself. A waker is identified by a number chosen by the
/// caller; `wakes` records, in order, the wakers woken by completed waits.
pub struct InputEventFutureShared {
    pub state: WakeState,
    pub waker_in_use: bool,
    pub waker: Option<u64>,
    pub wakes: Vec<u64>,
}

impl View for InputEventFutureShared {
    type V = SharedView;

    open spec fn view(&self) -> SharedView {
        SharedView {
            state: self.state,
            waker_in_use: self.waker_in_use,
            waker: self.waker,
            wakes: self.wakes@,
        }
    }
}

/// The value of a record that has coordinated nothing yet.
pub open spec fn fresh_shared() -> SharedView {
    SharedView {
        state: WakeState::NotPending,
        waker_in_use: false,
        waker: None::<u64>,
        wakes: Seq::<u64>::empty(),
    }
}

/// While the future is pending, a waker is installed.
pub open spec fn shared_wf(s: SharedView) -> bool {
    s.state is Pending ==> s.waker is Some
}

/// `arm(w)`: install the waker `w` and move `NotPending` to `Pending`. When
/// the state is no longer `NotPending` (the wait already completed), the
/// transition fails and the caller must treat the future as completed.
pub open spec fn spec_arm(s: SharedView, w: u64) -> (SharedView, bool) {
    if s.state is NotPending {
        (SharedView { state: WakeState::Pending, waker: Some(w), ..s }, true)
    } else {
        (SharedView { waker: Some(w), ..s }, false)
    }
}

/// `store_waker(w)`: replace the waker on a re-poll, unless the callback
/// currently holds the waker lock; then leave everything unchanged — the
/// in-flight callback wakes the prior waker, which is sound because a stale
/// wake only causes one more poll.
pub open spec fn spec_store_waker(s: SharedView, w: u64) -> (SharedView, bool) {
    if s.waker_in_use {
        (s, false)
    } else {
        (SharedView { waker: Some(w), ..s }, true)
    }
}

/// `wait_done()`: the callback side. The state becomes `Ready`; the
/// installed waker is woken exactly when the prior state was `Pending`
/// (otherwise there is either nothing to wake, or the future is being
/// dropped).
pub open spec fn spec_wait_done(s: SharedView) -> SharedView {
    if s.state is Pending {
        SharedView { state: WakeState::Ready, wakes: s.wakes.push(s.waker->0), ..s }
    } else {
        SharedView { state: WakeState::Ready, ..s }
    }
}

/// `request_cancel()`: the drop side. Move `Pending` to `Cancelled`; report
/// whether cancellation was the transition that fired.
pub open spec fn spec_request_cancel(s: SharedView) -> (SharedView, bool) {
    if s.state is Pending {
        (SharedView { state: WakeState::Cancelled, ..s }, true)
    } else {
        (s, false)
    }
}

impl InputEventFutureShared {
    /// A fresh record: not pending, no waker installed, nobody woken.
    pub fn new() -> (s: Self)
        ensures
            s@ == fresh_shared(),
    {
        let s = InputEventFutureShared {
            state: WakeState::NotPending,
            waker_in_use: false,
            waker: None,
            wakes: Vec::new(),
        };
        proof {
            assert(s@ =~= fresh_shared());
        }
        s
    }

    /// Install `waker` and try to move `NotPending` to `Pending`.
    pub fn arm(&mut self, waker: u64) -> (armed: bool)
        ensures
            final(self)@ == spec_arm(old(self)@, waker).0,
            armed == spec_arm(old(self)@, waker).1,
            shared_wf(final(self)@),
    {
        self.waker = Some(waker);
        match self.state {
            WakeState::NotPending => {
                self.state = WakeState::Pending;
                true
            },
            _ => false,
        }
    }

    /// Replace the stored waker on a re-poll, unless the callback holds the
    /// waker lock.
    pub fn store_waker(&mut self, waker: u64) -> (stored: bool)
        requires
            shared_wf(old(self)@),
        ensures
            final(self)@ == spec_store_waker(old(self)@, waker).0,
            stored == spec_store_waker(old(self)@, waker).1,
            shared_wf(final(self)@),
    {
        if self.waker_in_use {
            false
        } else {
            self.waker = Some(waker);
            true
        }
    }

    /// The callback side: mark the wait completed and wake the installed
    /// waker exactly when the future was pending.
    pub fn wait_done(&mut self)
        requires
            shared_wf(old(self)@),
            old(self)@.state is Pending ==> !old(self)@.waker_in_use,
        ensures
            final(self)@ == spec_wait_done(old(self)@),
            shared_wf(final(self)@),
    {
        let was_pending = match self.state {
            WakeState::Pending => true,
            _ => false,
        };
        self.state = WakeState::Ready;
        if was_pending {
            let w = match self.waker {
                Some(w) => w,
                None => 0, // unreachable: shared_wf gives a waker while pending
            };
            self.wakes.push(w);
        }
    }

    /// The drop side: move `Pending` to `Cancelled`; report whether this
    /// cancellation fired.
    pub fn request_cancel(&mut self) -> (cancelled: bool)
        ensures
            final(self)@ == spec_request_cancel(old(self)@).0,
            cancelled == spec_request_cancel(old(self)@).1,
    {
        match self.state {
            WakeState::Pending => {
                self.state = WakeState::Cancelled;
                true
            },
            _ => false,
        }
    }
}

/// Arming out of `NotPending` succeeds and installs `w`, and the wait's
/// completion then wakes exactly `w`: once a first poll returns pending,
/// a completed wait always wakes the installed waker.
pub proof fn law_pending_eventual_wake(s: SharedView, w: u64)
    requires
        s.state is NotPending,
    ensures
        spec_arm(s, w).1,
        spec_wait_done(spec_arm(s, w).0).wakes == spec_arm(s, w).0.wakes.push(w),
{
}

/// A completion that races the first poll's commit: the callback finds the
/// state still `NotPending` and wakes nobody, and the commit then fails, so
/// that poll resolves synchronously instead of suspending.
pub proof fn law_signal_before_commit(s: SharedView, w: u64)
    requires
        s.state is NotPending,
    ensures
        spec_wait_done(s).wakes == s.wakes,
        !spec_arm(spec_wait_done(s), w).1,
{
}

/// After a cancellation that fired, a late completion callback wakes
/// nobody: dropping the pending future silences the registration.
pub proof fn law_no_wake_after_cancel(s: SharedView)
    requires
        s.state is Pending,
    ensures
        spec_request_cancel(s).1,
        spec_wait_done(spec_request_cancel(s).0).wakes == spec_request_cancel(s).0.wakes,
{
}

/// One completion delivers exactly one wake-up out of `Pending`, and none
/// out of any other state.
pub proof fn law_single_wake(s: SharedView)
    ensures
        s.state is Pending ==> spec_wait_done(s).wakes == s.wakes.push(s.waker->0),
        !(s.state is Pending) ==> spec_wait_done(s).wakes == s.wakes,
        spec_wait_done(s).state is Ready,
{
}

/// A re-poll that found the waker lock free replaces the waker, stays
/// pending, and the completion then wakes the replacement.
pub proof fn law_repoll_wake(s: SharedView, w: u64)
    requires
        s.state is Pending,
        !s.waker_in_use,
    ensures
        spec_store_waker(s, w).1,
        spec_store_waker(s, w).0.state == s.state,
        spec_wait_done(spec_store_waker(s, w).0).wakes == s.wakes.push(w),
{
}

/// A re-poll that found the waker lock held leaves the prior waker in
/// place and stays pending; the in-flight completion wakes that prior
/// waker. Either way exactly one of the two wakers is woken.
pub proof fn law_repoll_contended(s: SharedView, w: u64)
    requires
        s.state is Pending,
        s.waker_in_use,
        shared_wf(s),
    ensures
        !spec_store_waker(s, w).1,
        spec_store_waker(s, w).0 == s,
        spec_wait_done(spec_store_waker(s, w).0).wakes == s.wakes.push(s.waker->0),
{
}

impl Default for InputEventFutureShared {
    /// Same as [`InputEventFutureShared::new`].
    fn default() -> (s: Self)
        ensures
            s@ == fresh_shared(),
    {
        InputEventFutureShared::new()
    }
}

} // verus!
