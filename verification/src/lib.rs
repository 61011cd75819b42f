//! A minimal actor abstraction over tokio's unbounded channel.
//!
//! An [`Actor`] is a value with private state and a handler, `recv`, for the one type
//! of message that it accepts. It is only ever touched by its own [`MessageLoop`], one
//! message at a time. Producers reach it through a [`Handle`], which can be cloned and
//! sent to other tasks; every handle feeds the same mailbox, and the loop terminates
//! once the last handle is gone and the mailbox is empty.
//!
//! [`Handle::new`] makes the mailbox and binds the actor to its loop. The library
//! starts no task itself: the host waits on the consumer end of the mailbox and passes
//! each event to [`MessageLoop::step`] until the loop has terminated.
//!
//! What is proved:
//!
//! - [`MessageLoop::step`] follows the two-state machine of [`LoopModel`]: a running
//!   loop calls `recv` once for each message, in the order of the events, and drops the
//!   actor on the end of the mailbox.
//! - [`guarantees`] holds what follows for an actor as a whole, over the model of
//!   handles, mailbox and loop in [`model`]: nothing is lost or reordered, each
//!   producer's messages keep their order, clones feed one mailbox, the mailbox is
//!   drained before the loop terminates, and a send never fails.
//!
//! What is taken on trust from tokio is in [`channel`].

pub mod actor;
pub mod channel;
pub mod guarantees;
pub mod handle;
pub mod message_loop;
pub mod model;

pub use actor::Actor;
pub use handle::Handle;
pub use message_loop::{Event, LoopModel, LoopState, MessageLoop};
