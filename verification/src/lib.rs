//! A shutdown-coordination primitive: any number of cloned handles may ask for
//! a stop, each with a reason, and a single waiter learns the first reason
//! given, or that every handle went away without giving one.
//!
//! - [`reason`]: the outcome that the waiter receives.
//! - [`slot`]: the single-assignment slot that the handles share.
//! - [`handle`]: the cloneable handle that deposits a reason into the slot.
//! - [`wait`]: the waiter, which resolves once and is terminated after that.
//! - [`protocol`]: a model of a whole pair, with what holds of every history
//!   of stops, clones, drops and polls.
//! - [`channel`], [`lock`]: what is taken on trust about the one-shot channel
//!   and about the lock and the shared pointer.

use futures::channel::oneshot::{Receiver, Sender};
use vstd::prelude::*;

pub mod channel;
pub mod handle;
pub mod lock;
pub mod protocol;
pub mod reason;
pub mod slot;
pub mod wait;

pub use handle::StopHandle;
pub use reason::StopReason;
pub use slot::SignalSlot;
pub use wait::StopWait;

verus! {

/// Whether the two ends belong to one channel: whether one call that
/// opens a channel gave both.
pub closed spec fn one_channel<T>(sender: Sender<T>, receiver: Receiver<T>) -> bool {
    call_ensures(channel::open_channel::<T>, (), (sender, receiver))
}

/// Creates a handle and the waiter paired with it. One channel is opened:
/// the lock that the handle shares is made around a slot that holds the
/// channel's sending end, and the waiter, which is pending, holds its
/// receiving end.
pub fn stop_handle<T>() -> (pair: (StopHandle<T>, StopWait<T>))
    ensures
        !pair.1.terminated(),
        exists|sender: Sender<T>, receiver: Receiver<T>, slot: SignalSlot<T>|
            #![trigger one_channel(sender, receiver), pair.0.made_around(slot)]
            {
                &&& one_channel(sender, receiver)
                &&& slot@ == Some(sender)
                &&& pair.0.made_around(slot)
                &&& pair.1@ == Some(receiver)
            },
{
    let (sender, receiver) = channel::open_channel();
    let slot = SignalSlot::new(sender);
    let ghost armed = slot;
    let handle = StopHandle::new(slot);
    let wait = StopWait::new(receiver);
    let pair = (handle, wait);
    assert(one_channel(sender, receiver) && pair.0.made_around(armed));
    pair
}

} // verus!
