//! The contract that user code implements to become an actor.

use vstd::prelude::*;

verus! {

/// An actor: private state together with the handler that consumes its messages.
///
/// The message loop owns the actor and calls `recv` once for each message it takes
/// from the mailbox, one call at a time.
pub trait Actor: Send {
    /// The type of message that the actor accepts.
    type Msg;

    /// What one call of `recv` does to the actor: `after` is a state that handling
    /// `msg` in the state `self` may leave behind.
    ///
    /// The default promises nothing. An actor whose handler is verified overrides it
    /// to say what the handler does, and the message loop's contracts carry that on.
    open spec fn handled(&self, msg: Self::Msg, after: &Self) -> bool {
        true
    }

    /// Handles one message.
    fn recv(&mut self, msg: Self::Msg)
        ensures
            old(self).handled(msg, final(self)),
    ;
}

} // verus!
