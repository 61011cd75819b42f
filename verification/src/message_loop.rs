//! The message loop: the single consumer of a mailbox and the sole owner of an actor.

use vstd::prelude::*;
use crate::actor::Actor;

verus! {

/// The two states of a message loop.
#[derive(Clone, Copy, PartialEq, Eq, Debug, Structural)]
pub enum LoopState {
    /// Waiting for the next message, or handling one.
    Running,
    /// The mailbox was closed and drained; the actor is gone.
    Terminated,
}

/// What a mailbox hands to its loop: a message, or `None` once the mailbox is empty
/// and no producer can reach it any more.
pub type Event<M> = Option<M>;

/// The mathematical model of a message loop.
pub struct LoopModel<M> {
    /// The state the loop is in.
    pub state: LoopState,
    /// The messages handed to the actor so far, oldest first.
    pub delivered: Seq<M>,
}

impl<M> LoopModel<M> {
    /// A loop that has just been bound to its actor.
    pub open spec fn new() -> Self {
        LoopModel { state: LoopState::Running, delivered: Seq::empty() }
    }

    /// The loop after it has taken `event` from its mailbox.
    ///
    /// A running loop hands a message to the actor and keeps running, and terminates
    /// on the end of the mailbox. A terminated loop does nothing.
    pub open spec fn step(self, event: Event<M>) -> Self {
        match (self.state, event) {
            (LoopState::Running, Some(msg)) => LoopModel {
                state: LoopState::Running,
                delivered: self.delivered.push(msg),
            },
            (LoopState::Running, None) => LoopModel {
                state: LoopState::Terminated,
                delivered: self.delivered,
            },
            (LoopState::Terminated, _) => self,
        }
    }

    /// The loop after it has taken each message of `msgs` from its mailbox, in order.
    pub open spec fn feed(self, msgs: Seq<M>) -> Self
        decreases msgs.len(),
    {
        if msgs.len() == 0 {
            self
        } else {
            self.feed(msgs.drop_last()).step(Some(msgs.last()))
        }
    }
}

/// A message loop and the actor bound to it.
///
/// The loop owns the actor: nothing else can reach it, and `step` takes the loop by
/// exclusive reference, so no two messages are ever handled at once. The task that
/// drives the loop waits on the consumer end of the mailbox for the next event and
/// passes each event to `step`, until the loop has terminated.
pub struct MessageLoop<A: Actor> {
    actor: Option<A>,
    delivered: Ghost<Seq<A::Msg>>,
}

impl<A: Actor> View for MessageLoop<A> {
    type V = LoopModel<A::Msg>;

    closed spec fn view(&self) -> LoopModel<A::Msg> {
        LoopModel {
            state: if self.actor is Some {
                LoopState::Running
            } else {
                LoopState::Terminated
            },
            delivered: self.delivered@,
        }
    }
}

impl<A: Actor> MessageLoop<A> {
    /// The actor that the loop owns, `None` once the loop has terminated.
    pub closed spec fn actor(&self) -> Option<A> {
        self.actor
    }

    /// Binds `actor` to a fresh loop, which takes ownership of it.
    pub fn new(actor: A) -> (bound: Self)
        ensures
            bound@ == LoopModel::<A::Msg>::new(),
            bound.actor() == Some(actor),
    {
        MessageLoop { actor: Some(actor), delivered: Ghost(Seq::empty()) }
    }

    /// A loop holds its actor for as long as it is running, and no longer.
    pub proof fn holds_actor_while_running(&self)
        ensures
            (self@.state == LoopState::Running) == (self.actor() is Some),
    {
    }

    /// The state the loop is in.
    pub fn state(&self) -> (state: LoopState)
        ensures
            state == self@.state,
    {
        if self.actor.is_some() {
            LoopState::Running
        } else {
            LoopState::Terminated
        }
    }

    /// Takes one event from the mailbox and returns the state the loop is in afterwards.
    ///
    /// A running loop calls the actor's `recv` once with a message and runs it to
    /// completion; on the end of the mailbox it drops the actor and terminates. A
    /// terminated loop drops whatever it is given.
    pub fn step(&mut self, event: Event<A::Msg>) -> (next: LoopState)
        ensures
            final(self)@ == old(self)@.step(event),
            next == final(self)@.state,
            (match (old(self).actor(), event) {
                (Some(before), Some(msg)) => final(self).actor() matches Some(after)
                    && before.handled(msg, &after),
                _ => final(self).actor() is None,
            }),
    {
        match event {
            Some(msg) => {
                let ghost handed = msg;
                match &mut self.actor {
                    Some(actor) => {
                        actor.recv(msg);
                        proof {
                            self.delivered@ = self.delivered@.push(handed);
                        }
                    },
                    None => {},
                }
            },
            None => {
                self.actor = None;
            },
        }
        self.state()
    }
}

} // verus!
