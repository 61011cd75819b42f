//! The producer side of a mailbox.

use vstd::prelude::*;
use crate::actor::Actor;
use crate::channel::offer;
use crate::message_loop::{LoopModel, MessageLoop};

verus! {

/// A capability for sending messages to one actor.
///
/// A handle wraps the producer end of the actor's mailbox. It can be cloned and passed
/// around; all clones are interchangeable. The mailbox stays open for as long as one
/// of them exists, and closes when the last one is dropped.
#[verifier::reject_recursive_types(M)]
pub struct Handle<M>(tokio::sync::mpsc::UnboundedSender<M>);

impl<M> Handle<M> {
    /// Makes a fresh unbounded mailbox for `actor` and binds the actor to a new message
    /// loop.
    ///
    /// Returns the handle that wraps the producer end, the consumer end, and the loop,
    /// which is running and has handled nothing yet. The handle can be used at once.
    /// The caller hands the consumer end and the loop to the task that will drive them.
    pub fn new<T>(actor: T) -> (made: (
        Handle<M>,
        tokio::sync::mpsc::UnboundedReceiver<M>,
        MessageLoop<T>,
    )) where T: Actor<Msg = M> + 'static, M: Send
        ensures
            made.2@ == LoopModel::<M>::new(),
            made.2.actor() == Some(actor),
    {
        let (sender, receiver) = tokio::sync::mpsc::unbounded_channel::<M>();
        (Handle(sender), receiver, MessageLoop::new(actor))
    }

    /// Sends `msg` to the actor and returns at once, whatever became of it.
    ///
    /// The message is put at the back of the mailbox, behind everything this handle
    /// sent before. If the loop has already terminated, the message is dropped and
    /// the caller is not told.
    pub fn send(&self, msg: M) {
        let _ = offer(&self.0, msg);
    }
}

impl<M> Clone for Handle<M> {
    /// Returns another handle to the same mailbox.
    fn clone(&self) -> (same: Self)
        ensures
            same == *self,
    {
        Handle(self.0.clone())
    }
}

} // verus!
