//! The one-shot channel that carries the reason from the slot to the waiter.
//!
//! The channel belongs to the `futures` crate. Nothing in this file is proved:
//! each item states what is taken on trust about that crate.

use futures::channel::oneshot::{Canceled, Receiver, Sender};
use std::future::Future;
use std::pin::Pin;
use std::task::{Context, Poll};
use vstd::prelude::*;

verus! {

/// `futures::channel::oneshot::Sender`, the sending endpoint. Opaque here.
#[verifier::external_type_specification]
#[verifier::external_body]
#[verifier::reject_recursive_types(T)]
pub struct ExSender<T>(Sender<T>);

/// `futures::channel::oneshot::Receiver`, the receiving endpoint. Opaque here.
#[verifier::external_type_specification]
#[verifier::external_body]
#[verifier::reject_recursive_types(T)]
pub struct ExReceiver<T>(Receiver<T>);

/// `futures::channel::oneshot::Canceled`, the error with which a receiver
/// reports that its sender was dropped without sending. Opaque here.
#[verifier::external_type_specification]
#[verifier::external_body]
pub struct ExCanceled(Canceled);

/// `std::task::Context`, the task context that a poll registers its waker
/// from. Opaque here.
#[verifier::external_type_specification]
#[verifier::external_body]
pub struct ExContext<'a>(Context<'a>);

/// Calls `futures::channel::oneshot::channel`. Nothing is claimed of the two
/// endpoints.
#[verifier::external_body]
pub(crate) fn open_channel<T>() -> (ends: (Sender<T>, Receiver<T>)) {
    futures::channel::oneshot::channel()
}

/// Calls `Sender::send`, which consumes the endpoint. Claimed: when the value
/// could not be handed over (the receiver is gone), the value that comes back
/// is the one that was given.
#[verifier::external_body]
pub(crate) fn transmit<T>(endpoint: Sender<T>, reason: T) -> (refused: Result<(), T>)
    ensures
        refused matches Err(back) ==> back == reason,
{
    endpoint.send(reason)
}

/// Calls `Future::poll` of the `Receiver` once, and turns `Poll::Pending` into
/// `None` and `Poll::Ready` into `Some`. Nothing is claimed of the result: it
/// depends on what the other endpoint has done so far.
#[verifier::external_body]
pub(crate) fn poll_receiver<T>(receiver: &mut Receiver<T>, cx: &mut Context<'_>) -> (polled: Option<Result<T, Canceled>>) {
    match Pin::new(receiver).poll(cx) {
        Poll::Pending => None,
        Poll::Ready(received) => Some(received),
    }
}

} // verus!
