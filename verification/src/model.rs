//! The mathematical model of one actor as a whole: the handles that can reach it, its
//! mailbox, and its message loop.
//!
//! The handles and the mailbox live in a channel that several tasks share, so no
//! contract of an executable function can speak of them. This model says how they are
//! taken to behave: a handle puts a message at the back of the mailbox, the loop takes
//! messages from the front, and the mailbox reports its end once it is empty and the
//! last handle is gone. The loop's part of the model is `LoopModel`, the view of the
//! executable `MessageLoop`.

use vstd::prelude::*;
use crate::message_loop::{Event, LoopModel, LoopState};

verus! {

/// One actor: its handles, its mailbox and its loop.
pub struct ActorModel<M> {
    /// How many handles exist.
    pub handles: nat,
    /// The messages in the mailbox, oldest first.
    pub queue: Seq<M>,
    /// The message loop.
    pub message_loop: LoopModel<M>,
}

/// Something that happens to an actor.
pub enum Action<M> {
    /// A producer sends a message through a handle, as `Handle::send` does.
    Send {
        /// Who sends. Handles are interchangeable, so a producer is told from another
        /// by this number alone.
        producer: nat,
        /// What is sent.
        msg: M,
    },
    /// A handle is cloned, as `Handle::clone` does.
    CloneHandle,
    /// A handle is dropped.
    DropHandle,
    /// The message loop takes what the mailbox has for it, if anything, and steps on
    /// it, as `MessageLoop::step` does.
    Turn,
}

impl<M> ActorModel<M> {
    /// A new actor: one handle, an empty mailbox and a running loop.
    pub open spec fn new() -> Self {
        ActorModel { handles: 1, queue: Seq::empty(), message_loop: LoopModel::new() }
    }

    /// Whether the message loop is running.
    pub open spec fn running(self) -> bool {
        self.message_loop.state == LoopState::Running
    }

    /// The messages handed to the actor so far, oldest first.
    pub open spec fn delivered(self) -> Seq<M> {
        self.message_loop.delivered
    }

    /// What holds of an actor after any trace from `new`: its loop has terminated only
    /// if no handle is left and the mailbox is empty.
    pub open spec fn consistent(self) -> bool {
        !self.running() ==> self.handles == 0 && self.queue.len() == 0
    }

    /// A handle sends `msg`: it goes to the back of the mailbox, or nowhere if the loop
    /// has terminated.
    pub open spec fn send(self, msg: M) -> Self {
        if self.running() {
            ActorModel { queue: self.queue.push(msg), ..self }
        } else {
            self
        }
    }

    /// A handle is cloned: one more handle to the same mailbox.
    pub open spec fn clone_handle(self) -> Self {
        ActorModel { handles: self.handles + 1, ..self }
    }

    /// A handle is dropped.
    pub open spec fn drop_handle(self) -> Self {
        ActorModel { handles: (self.handles - 1) as nat, ..self }
    }

    /// What the mailbox has for the loop: the oldest message, or its end once it is
    /// empty and no handle is left. `None` means that the loop has to wait.
    pub open spec fn next_event(self) -> Option<Event<M>> {
        if self.queue.len() > 0 {
            Some(Some(self.queue.first()))
        } else if self.handles == 0 {
            Some(None)
        } else {
            None
        }
    }

    /// The message loop takes its turn: it takes the next event from the mailbox, if
    /// it is running and there is one, and steps on it.
    pub open spec fn turn(self) -> Self {
        if !self.running() {
            self
        } else {
            match self.next_event() {
                Some(Some(msg)) => ActorModel {
                    queue: self.queue.drop_first(),
                    message_loop: self.message_loop.step(Some(msg)),
                    ..self
                },
                Some(None) => ActorModel { message_loop: self.message_loop.step(None), ..self },
                None => self,
            }
        }
    }

    /// `n` turns of the message loop in a row.
    pub open spec fn turns(self, n: nat) -> Self
        decreases n,
    {
        if n == 0 {
            self
        } else {
            self.turns((n - 1) as nat).turn()
        }
    }

    /// Whether `action` can happen: a handle can only be used while it exists.
    pub open spec fn permits(self, action: Action<M>) -> bool {
        match action {
            Action::Turn => true,
            _ => self.handles > 0,
        }
    }

    /// The actor after `action`.
    pub open spec fn apply(self, action: Action<M>) -> Self {
        match action {
            Action::Send { producer, msg } => self.send(msg),
            Action::CloneHandle => self.clone_handle(),
            Action::DropHandle => self.drop_handle(),
            Action::Turn => self.turn(),
        }
    }

    /// The actor after the actions of `trace`, in order.
    pub open spec fn run(self, trace: Seq<Action<M>>) -> Self
        decreases trace.len(),
    {
        if trace.len() == 0 {
            self
        } else {
            self.run(trace.drop_last()).apply(trace.last())
        }
    }

    /// Whether each action of `trace` can happen when its turn comes.
    pub open spec fn admits(self, trace: Seq<Action<M>>) -> bool
        decreases trace.len(),
    {
        trace.len() == 0 || (self.admits(trace.drop_last()) && self.run(
            trace.drop_last(),
        ).permits(trace.last()))
    }
}

/// The messages sent in `trace`, in the order in which they were sent.
pub open spec fn sent<M>(trace: Seq<Action<M>>) -> Seq<M>
    decreases trace.len(),
{
    if trace.len() == 0 {
        Seq::empty()
    } else {
        match trace.last() {
            Action::Send { producer, msg } => sent(trace.drop_last()).push(msg),
            _ => sent(trace.drop_last()),
        }
    }
}

/// The messages that `producer` sent in `trace`, in the order in which it sent them.
pub open spec fn sent_by<M>(trace: Seq<Action<M>>, producer: nat) -> Seq<M>
    decreases trace.len(),
{
    if trace.len() == 0 {
        Seq::empty()
    } else {
        match trace.last() {
            Action::Send { producer: by, msg } if by == producer => sent_by(
                trace.drop_last(),
                producer,
            ).push(msg),
            _ => sent_by(trace.drop_last(), producer),
        }
    }
}

/// Whether every message that `trace` sends comes from `producer`.
pub open spec fn only_sender<M>(trace: Seq<Action<M>>, producer: nat) -> bool {
    forall|i: int|
        0 <= i < trace.len() ==> (#[trigger] trace[i] matches Action::Send { producer: by, .. }
            ==> by == producer)
}

/// Whether every message that `trace` sends comes from `first` or from `second`.
pub open spec fn only_senders<M>(trace: Seq<Action<M>>, first: nat, second: nat) -> bool {
    forall|i: int|
        0 <= i < trace.len() ==> (#[trigger] trace[i] matches Action::Send { producer: by, .. }
            ==> by == first || by == second)
}

/// Whether `merged` interleaves `first` and `second`: it holds the items of both, and
/// those of each in their own order.
pub open spec fn interleaves<M>(first: Seq<M>, second: Seq<M>, merged: Seq<M>) -> bool
    decreases merged.len(),
{
    if merged.len() == 0 {
        first.len() == 0 && second.len() == 0
    } else {
        ||| (first.len() > 0 && first.last() == merged.last() && interleaves(
            first.drop_last(),
            second,
            merged.drop_last(),
        ))
        ||| (second.len() > 0 && second.last() == merged.last() && interleaves(
            first,
            second.drop_last(),
            merged.drop_last(),
        ))
    }
}

} // verus!
