use msgwait::MWMO_QUEUEATTACH;
use msgwait::drain::MessageIterator;
use msgwait::future::PollStatus;
use msgwait::future::WaitError;
use msgwait::make_dword;
use msgwait::queue::ThreadQueueState;
use msgwait::shared::WakeState;
use msgwait::wait_for_messages;

const WM_USER: u32 = 0x0400;
const QS_POSTMESSAGE: u32 = 0x0008;
const QS_ALLINPUT: u32 = 0x04FF;
const MWMO_WAITALL: u32 = 0x0001;
const MWMO_ALERTABLE: u32 = 0x0002;
const MWMO_INPUTAVAILABLE: u32 = 0x0004;

#[test]
fn dword_composition() {
    assert_eq!(make_dword(0x00FF, 0x0008), 0x0008_00FF);
    assert_eq!(make_dword(0, 0), 0);
    assert_eq!(make_dword(0xFFFF, 0xFFFF), 0xFFFF_FFFF);
    assert_eq!(make_dword(0x0400, 0), 0x0400);
    assert_eq!(make_dword(0, 1), 0x0001_0000);
}

#[test]
fn rejects_alertable() {
    assert!(matches!(
        wait_for_messages(QS_ALLINPUT, MWMO_ALERTABLE),
        Err(WaitError::InvalidArgument)
    ));
}

#[test]
fn rejects_wait_all() {
    assert!(matches!(
        wait_for_messages(QS_ALLINPUT, MWMO_WAITALL),
        Err(WaitError::InvalidArgument)
    ));
    assert!(matches!(
        wait_for_messages(QS_ALLINPUT, MWMO_WAITALL | MWMO_ALERTABLE),
        Err(WaitError::InvalidArgument)
    ));
}

#[test]
fn rejects_oversize_flag_words() {
    assert!(matches!(
        wait_for_messages(0x0001_0000, 0),
        Err(WaitError::InvalidArgument)
    ));
    assert!(matches!(
        wait_for_messages(QS_POSTMESSAGE, 0x0001_0000),
        Err(WaitError::InvalidArgument)
    ));
}

#[test]
fn accepts_plain_flags_with_nothing_acquired() {
    let f = wait_for_messages(QS_ALLINPUT, MWMO_INPUTAVAILABLE).unwrap();
    assert_eq!(f.queue_status_flags, QS_ALLINPUT as u16);
    assert_eq!(f.wait_flags, MWMO_INPUTAVAILABLE as u16);
    assert!(f.input_event.is_none());
    assert!(!f.wait_registered);
    assert_eq!(f.shared.state, WakeState::NotPending);
}

#[test]
fn fast_path_resolves_without_pool() {
    // A message matching the wake mask is already queued: the first poll
    // resolves on the probe alone and never touches the thread pool.
    let mut q = ThreadQueueState::idle();
    let mut f = wait_for_messages(QS_POSTMESSAGE, 0).unwrap();
    assert_eq!(f.poll_status(1), PollStatus::Probe);
    let fast = f.poll_probed(&mut q, QS_POSTMESSAGE << 16 | QS_POSTMESSAGE);
    assert!(fast);
    assert!(!q.pool_wait_armed);
    assert_eq!(q.wake_mask_word, 0);
    assert!(q.completion_packet_attached);
    assert!(f.input_event.is_none());
    assert!(!f.wait_registered);
}

#[test]
fn already_queued_message_drained_first() {
    // The queue already holds a posted message; the drain hands it out
    // first.
    let mut queued = vec![WM_USER, WM_USER + 1];
    let mut it = MessageIterator::default();
    assert_eq!(it.next(&mut queued), Some(WM_USER));
    assert_eq!(it.next(&mut queued), Some(WM_USER + 1));
    assert_eq!(it.next(&mut queued), None);
}

#[test]
fn pending_then_completion_wakes_installed_waker() {
    let mut q = ThreadQueueState::idle();
    let mut f = wait_for_messages(QS_POSTMESSAGE, 0).unwrap();
    assert_eq!(f.poll_status(7), PollStatus::Probe);
    assert!(!f.poll_probed(&mut q, 0));
    assert_eq!(q.wake_mask_word, make_dword(QS_POSTMESSAGE as u16, 0));
    assert!(!q.completion_packet_attached);
    assert!(q.pool_wait_armed);
    assert!(f.poll_commit(7));
    assert_eq!(f.shared.state, WakeState::Pending);

    // A matching message arrives; the pool callback runs.
    f.shared.wait_done();
    assert_eq!(f.shared.wakes, vec![7]);

    // The woken task polls again and resolves.
    assert_eq!(f.poll_status(7), PollStatus::Resolve);
    let it = f.resolve(&mut q);
    assert!(!it.done);
    assert_eq!(q.wake_mask_word, 0);
    assert!(q.completion_packet_attached);
    assert!(!q.pool_wait_armed);
}

#[test]
fn no_spurious_resolution_while_pending() {
    let mut q = ThreadQueueState::idle();
    let mut f = wait_for_messages(QS_POSTMESSAGE, 0).unwrap();
    assert_eq!(f.poll_status(1), PollStatus::Probe);
    assert!(!f.poll_probed(&mut q, 0));
    assert!(f.poll_commit(1));
    // Spuriously woken task re-polls: still pending, no resolution until
    // the wait completes.
    assert_eq!(f.poll_status(1), PollStatus::StayPending);
    assert_eq!(f.poll_status(1), PollStatus::StayPending);
    f.shared.wait_done();
    assert_eq!(f.poll_status(1), PollStatus::Resolve);
}

#[test]
fn queue_attach_armed_only_when_requested() {
    let mut q = ThreadQueueState::idle();
    let mut f = wait_for_messages(QS_POSTMESSAGE, MWMO_QUEUEATTACH).unwrap();
    assert_eq!(f.poll_status(1), PollStatus::Probe);
    assert!(!f.poll_probed(&mut q, 0));
    assert!(q.queue_attach_wake_armed);

    let mut q2 = ThreadQueueState::idle();
    let mut f2 = wait_for_messages(QS_POSTMESSAGE, 0).unwrap();
    assert_eq!(f2.poll_status(1), PollStatus::Probe);
    assert!(!f2.poll_probed(&mut q2, 0));
    assert!(!q2.queue_attach_wake_armed);
}

#[test]
fn completion_before_commit_resolves_synchronously() {
    // The queue signals between arming the pool wait and the commit: the
    // callback wakes nobody and the poll resolves on the spot.
    let mut q = ThreadQueueState::idle();
    let mut f = wait_for_messages(QS_POSTMESSAGE, 0).unwrap();
    assert_eq!(f.poll_status(3), PollStatus::Probe);
    assert!(!f.poll_probed(&mut q, 0));
    f.shared.wait_done();
    assert_eq!(f.shared.wakes, Vec::<u64>::new());
    assert!(!f.poll_commit(3));
    let _it = f.resolve(&mut q);
    assert_eq!(q.wake_mask_word, 0);
    assert!(!q.pool_wait_armed);
}

#[test]
fn drop_while_pending_cancels_cleanly() {
    let mut q = ThreadQueueState::idle();
    let mut f = wait_for_messages(QS_POSTMESSAGE, 0).unwrap();
    assert_eq!(f.poll_status(5), PollStatus::Probe);
    assert!(!f.poll_probed(&mut q, 0));
    assert!(f.poll_commit(5));

    let cancelled = f.drop_future(&mut q);
    assert!(cancelled);
    assert_eq!(q.wake_mask_word, 0);
    assert!(q.completion_packet_attached);
    assert!(!q.pool_wait_armed);

    // A late callback fires against the cancelled registration: nobody is
    // woken.
    f.shared.wait_done();
    assert_eq!(f.shared.wakes, Vec::<u64>::new());
}

#[test]
fn drop_is_idempotent_at_every_stage() {
    // Never polled.
    let mut q = ThreadQueueState::idle();
    let mut f = wait_for_messages(QS_POSTMESSAGE, 0).unwrap();
    assert!(!f.drop_future(&mut q));
    assert_eq!(q, ThreadQueueState::idle());

    // Pending, dropped twice.
    let mut q2 = ThreadQueueState::idle();
    let mut f2 = wait_for_messages(QS_POSTMESSAGE, 0).unwrap();
    assert_eq!(f2.poll_status(1), PollStatus::Probe);
    assert!(!f2.poll_probed(&mut q2, 0));
    assert!(f2.poll_commit(1));
    assert!(f2.drop_future(&mut q2));
    let after_first = q2;
    assert!(!f2.drop_future(&mut q2));
    assert_eq!(q2, after_first);
    assert_eq!(q2.wake_mask_word, 0);
    assert!(!q2.pool_wait_armed);

    // Resolved, then dropped.
    let mut q3 = ThreadQueueState::idle();
    let mut f3 = wait_for_messages(QS_POSTMESSAGE, 0).unwrap();
    assert_eq!(f3.poll_status(1), PollStatus::Probe);
    assert!(!f3.poll_probed(&mut q3, 0));
    assert!(f3.poll_commit(1));
    f3.shared.wait_done();
    let _it = f3.resolve(&mut q3);
    assert!(!f3.drop_future(&mut q3));
    assert_eq!(q3.wake_mask_word, 0);
    assert!(!q3.pool_wait_armed);
}

#[test]
fn repoll_replaces_waker_and_new_one_is_woken() {
    let mut q = ThreadQueueState::idle();
    let mut f = wait_for_messages(QS_POSTMESSAGE, 0).unwrap();
    assert_eq!(f.poll_status(1), PollStatus::Probe);
    assert!(!f.poll_probed(&mut q, 0));
    assert!(f.poll_commit(1));

    // Many re-polls, each with a fresh waker.
    for w in 2..50u64 {
        assert_eq!(f.poll_status(w), PollStatus::StayPending);
    }
    f.shared.wait_done();
    // Exactly one waker is woken: the last installed one.
    assert_eq!(f.shared.wakes, vec![49]);
}

#[test]
fn contended_repoll_keeps_prior_waker() {
    let mut q = ThreadQueueState::idle();
    let mut f = wait_for_messages(QS_POSTMESSAGE, 0).unwrap();
    assert_eq!(f.poll_status(1), PollStatus::Probe);
    assert!(!f.poll_probed(&mut q, 0));
    assert!(f.poll_commit(1));

    // The callback holds the waker lock while a re-poll runs: the re-poll
    // gives up the replacement and the prior waker is the one woken.
    f.shared.waker_in_use = true;
    assert_eq!(f.poll_status(2), PollStatus::StayPending);
    assert_eq!(f.shared.waker, Some(1));
    f.shared.waker_in_use = false;
    f.shared.wait_done();
    assert_eq!(f.shared.wakes, vec![1]);
}

#[test]
fn drain_collects_in_order_and_stops() {
    let mut queued = vec![WM_USER, 2, 3, 4];
    let mut it = MessageIterator::default();
    let drained = it.collect_all(&mut queued);
    assert_eq!(drained, vec![WM_USER, 2, 3, 4]);
    assert!(queued.is_empty());
    assert!(it.done);

    // The drain is not restartable: messages arriving afterwards stay for
    // the next wait.
    queued.push(WM_USER);
    assert_eq!(it.next(&mut queued), None);
    assert_eq!(queued, vec![WM_USER]);
}

#[test]
fn drain_on_empty_queue_ends_immediately() {
    let mut queued: Vec<u32> = Vec::new();
    let mut it = MessageIterator::default();
    assert_eq!(it.next(&mut queued), None);
    assert!(it.done);
}
