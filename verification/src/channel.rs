//! The mailbox primitive: tokio's unbounded multi-producer, single-consumer channel.
//!
//! Everything in this file is taken on trust from tokio. The two ends of a channel
//! are opaque here: a contract can carry them around but cannot look inside.

use vstd::prelude::*;

verus! {

/// `tokio::sync::mpsc::UnboundedSender`: the producer end of a channel.
#[verifier::external_type_specification]
#[verifier::external_body]
#[verifier::reject_recursive_types(T)]
pub struct ExUnboundedSender<T>(tokio::sync::mpsc::UnboundedSender<T>);

/// `tokio::sync::mpsc::UnboundedReceiver`: the consumer end of a channel.
#[verifier::external_type_specification]
#[verifier::external_body]
#[verifier::reject_recursive_types(T)]
pub struct ExUnboundedReceiver<T>(tokio::sync::mpsc::UnboundedReceiver<T>);

/// `tokio::sync::mpsc::unbounded_channel` makes a fresh channel and returns its two
/// ends. Nothing is claimed of them.
pub assume_specification<T>[ tokio::sync::mpsc::unbounded_channel::<T> ]() -> (ends: (
    tokio::sync::mpsc::UnboundedSender<T>,
    tokio::sync::mpsc::UnboundedReceiver<T>,
));

/// `Clone::clone` of `tokio::sync::mpsc::UnboundedSender` returns one more producer end
/// of the same channel: `same_channel` holds of the two. A producer end has nothing
/// else that tells it from another, so the two are equal in contracts.
pub assume_specification<T>[ <tokio::sync::mpsc::UnboundedSender<T> as Clone>::clone ](
    sender: &tokio::sync::mpsc::UnboundedSender<T>,
) -> (same: tokio::sync::mpsc::UnboundedSender<T>)
    ensures
        same == *sender,
;

/// `tokio::sync::mpsc::UnboundedSender::send` puts `message` at the back of the
/// channel without waiting, or, when the consumer end is closed or gone, refuses it
/// and hands it back inside the error. Which of the two happens depends on what other
/// tasks have done, so the contract only says that a refused message is the one that
/// was offered. (With half of `usize::MAX` messages waiting, more than memory can
/// hold, tokio ends the process.)
#[verifier::external_body]
pub(crate) fn offer<T>(sender: &tokio::sync::mpsc::UnboundedSender<T>, message: T) -> (refused:
    Option<T>)
    ensures
        refused matches Some(back) ==> back == message,
{
    match sender.send(message) {
        Ok(()) => None,
        Err(error) => Some(error.0),
    }
}

} // verus!
