//! Asynchronous waiting on a per-thread message queue, modelled as a
//! verified state machine.
//!
//! The thread's kernel input event signals when queued messages match a
//! caller-chosen wake mask. A future arms a thread-pool wait on that event,
//! translates the wait completion into a task wake-up, and tears the
//! registration down safely under cancellation. This crate verifies the
//! protocol: the wake-mask word arithmetic, the argument validation, the
//! shared wake-state transitions, and the poll/drop decision logic, all
//! stated over a model of the per-thread queue state.

pub mod drain;
pub mod future;
pub mod mask;
pub mod queue;
pub mod shared;

pub use future::wait_for_messages;
pub use mask::MWMO_QUEUEATTACH;
pub use mask::make_dword;
