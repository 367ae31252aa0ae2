//! The signal slot: the single-assignment container that the handles share.

use crate::channel::transmit;
use futures::channel::oneshot::Sender;
use vstd::prelude::*;

verus! {

/// One deposit. `armed` says whether the slot holds its endpoint before it.
/// The result says whether the slot holds it afterwards, which it never
/// does, and whether the deposit is accepted, which it is if the slot was
/// armed.
pub open spec fn deposit_step(armed: bool) -> (bool, bool) {
    (false, armed)
}

/// Holds the sending endpoint until the first deposit uses it up. Nothing
/// puts an endpoint back: an empty slot stays empty.
#[verifier::reject_recursive_types(T)]
pub struct SignalSlot<T> {
    endpoint: Option<Sender<T>>,
}

impl<T> View for SignalSlot<T> {
    type V = Option<Sender<T>>;

    /// The endpoint that the slot holds, if it still holds one.
    closed spec fn view(&self) -> Option<Sender<T>> {
        self.endpoint
    }
}

/// Whether `reason` was given to the `send` of `endpoint`: whether the call
/// that sends through the channel was made with these two, whatever it
/// answered.
pub closed spec fn sent_through<T>(endpoint: Sender<T>, reason: T) -> bool {
    exists|refused: Result<(), T>| #[trigger]
        call_ensures(transmit::<T>, (endpoint, reason), refused)
}

impl<T> SignalSlot<T> {
    /// Whether the slot still holds its endpoint.
    pub open spec fn is_armed(&self) -> bool {
        self@ is Some
    }

    /// A slot that holds `endpoint`.
    pub fn new(endpoint: Sender<T>) -> (slot: Self)
        ensures
            slot@ == Some(endpoint),
    {
        SignalSlot { endpoint: Some(endpoint) }
    }

    /// The check-and-take: hands out the endpoint if the slot still holds
    /// it, and leaves the slot empty either way. This is all that is done
    /// to a slot while its lock is held.
    pub fn claim(&mut self) -> (claimed: Option<Sender<T>>)
        ensures
            claimed == old(self)@,
            final(self)@ is None,
    {
        self.endpoint.take()
    }

    /// Sends `reason` through the endpoint if the slot still holds it, and
    /// says whether it did. The slot is empty afterwards either way, so of
    /// all the deposits into one slot only the first can be accepted.
    pub fn deposit(&mut self, reason: T) -> (accepted: bool)
        ensures
            (final(self).is_armed(), accepted) == deposit_step(old(self).is_armed()),
            old(self)@ matches Some(endpoint) ==> sent_through(endpoint, reason),
    {
        let claimed = self.claim();
        deliver(claimed, reason)
    }
}

/// The second half of a deposit, for which no lock is needed: sends
/// `reason` through the endpoint that the claim handed out, if it handed one
/// out, and says whether it did. Without an endpoint the reason is dropped
/// unsent.
pub fn deliver<T>(claimed: Option<Sender<T>>, reason: T) -> (accepted: bool)
    ensures
        accepted == claimed is Some,
        claimed matches Some(endpoint) ==> sent_through(endpoint, reason),
{
    match claimed {
        Some(endpoint) => {
            let _ = transmit(endpoint, reason);
            true
        },
        None => false,
    }
}

/// Which of `count` deposits into one slot, made one after another, are
/// accepted.
pub open spec fn acceptances(armed: bool, count: nat) -> Seq<bool>
    decreases count,
{
    if count == 0 {
        Seq::empty()
    } else {
        let (next, accepted) = deposit_step(armed);
        seq![accepted] + acceptances(next, (count - 1) as nat)
    }
}

/// Of the deposits into one slot, the first is accepted if the slot was
/// armed, and no other ever is: at most one deposit is accepted.
pub proof fn lemma_only_the_first_deposit_is_accepted(armed: bool, count: nat, i: int)
    requires
        0 <= i < count,
    ensures
        acceptances(armed, count).len() == count,
        acceptances(armed, count)[i] == (armed && i == 0),
    decreases count,
{
    lemma_acceptances_len(armed, count);
    if i > 0 {
        lemma_only_the_first_deposit_is_accepted(false, (count - 1) as nat, i - 1);
    }
}

/// A run of deposits yields one answer for each deposit.
pub proof fn lemma_acceptances_len(armed: bool, count: nat)
    ensures
        acceptances(armed, count).len() == count,
    decreases count,
{
    if count > 0 {
        lemma_acceptances_len(false, (count - 1) as nat);
    }
}

} // verus!
