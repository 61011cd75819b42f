//! What the model of an actor guarantees, proved.

use vstd::prelude::*;
use crate::message_loop::{LoopModel, LoopState};
use crate::model::{interleaves, only_sender, only_senders, sent, sent_by, Action, ActorModel};

verus! {

/// One call for each message, in order: a running loop that takes the messages of
/// `msgs` from its mailbox hands the actor exactly these, one after the other, and
/// keeps running; on the end of the mailbox it terminates and hands over nothing more.
pub proof fn loop_hands_over_in_order<M>(start: LoopModel<M>, msgs: Seq<M>)
    requires
        start.state == LoopState::Running,
    ensures
        start.feed(msgs).state == LoopState::Running,
        start.feed(msgs).delivered == start.delivered + msgs,
        start.feed(msgs).delivered.len() == start.delivered.len() + msgs.len(),
        start.feed(msgs).step(None).state == LoopState::Terminated,
        start.feed(msgs).step(None).delivered == start.delivered + msgs,
    decreases msgs.len(),
{
    if msgs.len() > 0 {
        loop_hands_over_in_order(start, msgs.drop_last());
    }
}

/// Nothing is lost, doubled or reordered: after any trace, the messages handed to the
/// actor followed by those still in the mailbox are the messages that were sent, in
/// the order in which they were sent. A loop that has terminated has left no handle
/// and no message behind.
pub proof fn delivery_follows_sending<M>(trace: Seq<Action<M>>)
    requires
        ActorModel::<M>::new().admits(trace),
    ensures
        ActorModel::<M>::new().run(trace).consistent(),
        ActorModel::<M>::new().run(trace).delivered() + ActorModel::<M>::new().run(trace).queue
            == sent(trace),
        !ActorModel::<M>::new().run(trace).running() ==> ActorModel::<M>::new().run(
            trace,
        ).delivered() == sent(trace),
    decreases trace.len(),
{
    if trace.len() > 0 {
        delivery_follows_sending(trace.drop_last());
    }
}

/// With a single producer, what was sent is what that producer sent.
proof fn lemma_single_sender<M>(trace: Seq<Action<M>>, producer: nat)
    requires
        only_sender(trace, producer),
    ensures
        sent(trace) == sent_by(trace, producer),
    decreases trace.len(),
{
    if trace.len() > 0 {
        let earlier = trace.drop_last();
        assert(only_sender(earlier, producer)) by {
            assert forall|i: int| 0 <= i < earlier.len() implies (#[trigger] earlier[i] matches
            Action::Send { producer: by, .. } ==> by == producer) by {
                assert(earlier[i] == trace[i]);
            }
        }
        lemma_single_sender(earlier, producer);
    }
}

/// With two producers, what was sent interleaves what each of them sent.
proof fn lemma_two_senders<M>(trace: Seq<Action<M>>, first: nat, second: nat)
    requires
        first != second,
        only_senders(trace, first, second),
    ensures
        interleaves(sent_by(trace, first), sent_by(trace, second), sent(trace)),
    decreases trace.len(),
{
    if trace.len() > 0 {
        let earlier = trace.drop_last();
        assert(only_senders(earlier, first, second)) by {
            assert forall|i: int| 0 <= i < earlier.len() implies (#[trigger] earlier[i] matches
            Action::Send { producer: by, .. } ==> by == first || by == second) by {
                assert(earlier[i] == trace[i]);
            }
        }
        lemma_two_senders(earlier, first, second);
        if let Action::Send { producer, msg } = trace.last() {
            assert(sent(trace).drop_last() =~= sent(earlier));
            if producer == first {
                assert(sent_by(trace, first).drop_last() =~= sent_by(earlier, first));
            } else {
                assert(sent_by(trace, second).drop_last() =~= sent_by(earlier, second));
            }
        }
    }
}

/// Sequential delivery: when a single producer sends to an actor, the messages handed
/// to the actor followed by those still in the mailbox are the producer's messages in
/// the order in which it sent them. Once the loop has terminated, the actor has been
/// handed each of them once, in that order.
pub proof fn single_producer_order<M>(trace: Seq<Action<M>>, producer: nat)
    requires
        ActorModel::<M>::new().admits(trace),
        only_sender(trace, producer),
    ensures
        ActorModel::<M>::new().run(trace).delivered() + ActorModel::<M>::new().run(trace).queue
            == sent_by(trace, producer),
        !ActorModel::<M>::new().run(trace).running() ==> ActorModel::<M>::new().run(
            trace,
        ).delivered() == sent_by(trace, producer),
        !ActorModel::<M>::new().run(trace).running() ==> ActorModel::<M>::new().run(
            trace,
        ).delivered().len() == sent_by(trace, producer).len(),
{
    delivery_follows_sending(trace);
    lemma_single_sender(trace, producer);
}

/// Fan-in: when two producers send to an actor, the messages handed to the actor
/// followed by those still in the mailbox hold the messages of both, and those of each
/// producer in the order in which that producer sent them. How the two are interleaved
/// is left open.
pub proof fn fan_in_keeps_each_order<M>(trace: Seq<Action<M>>, first: nat, second: nat)
    requires
        ActorModel::<M>::new().admits(trace),
        first != second,
        only_senders(trace, first, second),
    ensures
        interleaves(
            sent_by(trace, first),
            sent_by(trace, second),
            ActorModel::<M>::new().run(trace).delivered() + ActorModel::<M>::new().run(
                trace,
            ).queue,
        ),
        !ActorModel::<M>::new().run(trace).running() ==> interleaves(
            sent_by(trace, first),
            sent_by(trace, second),
            ActorModel::<M>::new().run(trace).delivered(),
        ),
{
    delivery_follows_sending(trace);
    lemma_two_senders(trace, first, second);
}

/// Cloning: a clone is one more handle to the same mailbox. It makes no second actor
/// and no second mailbox, and what the two handles send ends up in the one mailbox.
pub proof fn clones_feed_one_actor<M>(actor: ActorModel<M>, from_one: M, from_other: M)
    requires
        actor.consistent(),
        actor.handles > 0,
    ensures
        actor.clone_handle().handles == actor.handles + 1,
        actor.clone_handle().queue == actor.queue,
        actor.clone_handle().message_loop == actor.message_loop,
        actor.clone_handle().send(from_one).send(from_other).message_loop == actor.message_loop,
        actor.clone_handle().send(from_one).send(from_other).queue == actor.queue.push(
            from_one,
        ).push(from_other),
{
}

/// A running loop hands the oldest `n` messages of its mailbox to the actor in `n`
/// turns, whether or not handles are left, and is still running afterwards.
pub proof fn queue_is_drained<M>(actor: ActorModel<M>, n: nat)
    requires
        actor.running(),
        n <= actor.queue.len(),
    ensures
        actor.turns(n).running(),
        actor.turns(n).handles == actor.handles,
        actor.turns(n).message_loop == actor.message_loop.feed(actor.queue.take(n as int)),
        actor.turns(n).delivered() == actor.delivered() + actor.queue.take(n as int),
        actor.turns(n).queue == actor.queue.skip(n as int),
    decreases n,
{
    loop_hands_over_in_order(actor.message_loop, actor.queue.take(n as int));
    if n > 0 {
        queue_is_drained(actor, (n - 1) as nat);
        assert(actor.queue.take(n as int).drop_last() =~= actor.queue.take(n - 1));
    }
}

/// Graceful drain: once every handle is dropped, the loop does not terminate while a
/// message is left in the mailbox. It hands each of them to the actor, in order, and
/// terminates on the turn after the last.
pub proof fn graceful_drain<M>(actor: ActorModel<M>)
    requires
        actor.running(),
        actor.handles == 0,
    ensures
        forall|n: nat| n <= actor.queue.len() ==> (#[trigger] actor.turns(n)).running(),
        !actor.turns(actor.queue.len() + 1).running(),
        actor.turns(actor.queue.len() + 1).delivered() == actor.delivered() + actor.queue,
        actor.turns(actor.queue.len() + 1).queue.len() == 0,
{
    assert forall|n: nat| n <= actor.queue.len() implies (#[trigger] actor.turns(n)).running() by {
        queue_is_drained(actor, n);
    }
    queue_is_drained(actor, actor.queue.len());
}

/// A terminated loop stays as it is, whatever is sent to it and however often it is
/// given a turn.
pub proof fn terminated_is_final<M>(actor: ActorModel<M>, msg: M, n: nat)
    requires
        !actor.running(),
    ensures
        actor.send(msg) == actor,
        actor.turns(n) == actor,
    decreases n,
{
    if n > 0 {
        terminated_is_final(actor, msg, (n - 1) as nat);
    }
}

/// A send never fails: the message is either put at the back of the mailbox, from
/// where the loop hands it to the actor after the messages before it, or, if the loop
/// has terminated, dropped without a trace.
pub proof fn send_is_queued_or_dropped<M>(actor: ActorModel<M>, msg: M)
    ensures
        actor.running() ==> actor.send(msg).queue == actor.queue.push(msg),
        actor.running() ==> actor.send(msg).handles == actor.handles,
        actor.running() ==> actor.send(msg).message_loop == actor.message_loop,
        actor.running() ==> actor.send(msg).turns(actor.queue.len() + 1).delivered() == (
        actor.delivered() + actor.queue).push(msg),
        !actor.running() ==> actor.send(msg) == actor,
{
    if actor.running() {
        queue_is_drained(actor.send(msg), actor.queue.len() + 1);
    }
}

} // verus!
