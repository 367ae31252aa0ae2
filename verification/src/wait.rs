//! The waiter: the single consumer that learns why the wait ended.

use crate::channel::poll_receiver;
use crate::reason::{outcome_of, StopReason};
use futures::channel::oneshot::{Canceled, Receiver};
use std::task::Context;
use vstd::prelude::*;

verus! {

/// One step of the waiter. `terminated` is its state before a look at the
/// channel and `polled` what the look gave (`None` while nothing is there).
/// The result is the state afterwards and what the waiter hands out.
///
/// A terminated waiter stays terminated and hands out nothing. A pending one
/// stays pending while nothing is there, and resolves and terminates as soon
/// as something is.
pub open spec fn settle_step<T>(terminated: bool, polled: Option<Result<T, Canceled>>) -> (
    bool,
    Option<StopReason<T>>,
) {
    if terminated {
        (true, None)
    } else {
        match polled {
            None => (false, None),
            Some(received) => (true, Some(outcome_of(received))),
        }
    }
}

/// Waits for the stop. Pending while it holds its receiver, terminated once it
/// has resolved and let the receiver go.
#[verifier::reject_recursive_types(T)]
pub struct StopWait<T> {
    receiver: Option<Receiver<T>>,
}

impl<T> View for StopWait<T> {
    type V = Option<Receiver<T>>;

    /// The receiver that the waiter holds, if it still holds one.
    closed spec fn view(&self) -> Option<Receiver<T>> {
        self.receiver
    }
}

impl<T> StopWait<T> {
    /// Whether the waiter has resolved already.
    pub open spec fn terminated(&self) -> bool {
        self@ is None
    }

    /// A pending waiter on `receiver`.
    pub fn new(receiver: Receiver<T>) -> (wait: Self)
        ensures
            wait@ == Some(receiver),
    {
        StopWait { receiver: Some(receiver) }
    }

    /// Whether the waiter has resolved already. It never looks at the channel.
    pub fn is_terminated(&self) -> (done: bool)
        ensures
            done == self.terminated(),
    {
        self.receiver.is_none()
    }

    /// Takes one step on what a look at the channel gave. A waiter that stays
    /// pending keeps its receiver.
    pub fn settle(&mut self, polled: Option<Result<T, Canceled>>) -> (outcome: Option<
        StopReason<T>,
    >)
        ensures
            (final(self).terminated(), outcome) == settle_step(old(self).terminated(), polled),
            !final(self).terminated() ==> final(self)@ == old(self)@,
    {
        if self.receiver.is_none() {
            return None;
        }
        match polled {
            None => None,
            Some(received) => {
                self.receiver = None;
                Some(StopReason::from_received(received))
            },
        }
    }

    /// Looks at the channel once, unless the waiter is terminated, and takes
    /// one step on what was found. `None` stands for "still pending": the
    /// task of `cx` is then woken when a reason arrives or the last handle
    /// goes away.
    ///
    /// What the channel shows is not known here, so the contract says what
    /// holds whatever it showed: a terminated waiter hands out nothing, and
    /// a pending one takes its step on what a look at its receiver gave.
    pub fn poll(&mut self, cx: &mut Context<'_>) -> (outcome: Option<StopReason<T>>)
        ensures
            old(self).terminated() ==> outcome is None,
            final(self).terminated() == (old(self).terminated() || outcome is Some),
            old(self)@ matches Some(held) ==> exists|polled: Option<Result<T, Canceled>>|
                #[trigger] looked(held, polled) && (final(self).terminated(), outcome)
                    == settle_step(false, polled),
    {
        let polled = match &mut self.receiver {
            None => None,
            Some(receiver) => {
                let ghost held = *receiver;
                let found = poll_receiver(receiver, cx);
                assert(looked(held, found));
                found
            },
        };
        self.settle(polled)
    }
}

/// Whether `polled` is what a look at the channel through `held` gave:
/// whether the receiver was polled, and this is what the poll answered.
pub closed spec fn looked<T>(held: Receiver<T>, polled: Option<Result<T, Canceled>>) -> bool {
    exists|receiver: &mut Receiver<T>, context: &mut Context<'_>|
        *receiver == held && #[trigger] call_ensures(
            poll_receiver::<T>,
            (receiver, context),
            polled,
        )
}

/// What the waiter hands out over a run of looks at the channel, one step for
/// each look, in order.
pub open spec fn outcomes<T>(terminated: bool, looks: Seq<Option<Result<T, Canceled>>>) -> Seq<
    Option<StopReason<T>>,
>
    decreases looks.len(),
{
    if looks.len() == 0 {
        Seq::empty()
    } else {
        let (next, outcome) = settle_step(terminated, looks[0]);
        seq![outcome] + outcomes(next, looks.drop_first())
    }
}

/// Whether the waiter is terminated after a run of looks at the channel.
pub open spec fn terminated_after<T>(
    terminated: bool,
    looks: Seq<Option<Result<T, Canceled>>>,
) -> bool
    decreases looks.len(),
{
    if looks.len() == 0 {
        terminated
    } else {
        terminated_after(settle_step(terminated, looks[0]).0, looks.drop_first())
    }
}

/// A run of looks yields one answer for each look.
pub proof fn lemma_outcomes_len<T>(terminated: bool, looks: Seq<Option<Result<T, Canceled>>>)
    ensures
        outcomes(terminated, looks).len() == looks.len(),
    decreases looks.len(),
{
    if looks.len() > 0 {
        lemma_outcomes_len(settle_step(terminated, looks[0]).0, looks.drop_first());
    }
}

/// The terminal state absorbs: a terminated waiter hands out nothing, whatever
/// the channel shows, and stays terminated.
pub proof fn lemma_terminated_absorbs<T>(looks: Seq<Option<Result<T, Canceled>>>, i: int)
    requires
        0 <= i < looks.len(),
    ensures
        outcomes(true, looks).len() == looks.len(),
        outcomes(true, looks)[i] is None,
        terminated_after(true, looks),
    decreases looks.len(),
{
    lemma_outcomes_len(true, looks);
    lemma_stays_terminated(looks);
    if i > 0 {
        lemma_terminated_absorbs(looks.drop_first(), i - 1);
    }
}

/// A terminated waiter is terminated after any run of looks.
pub proof fn lemma_stays_terminated<T>(looks: Seq<Option<Result<T, Canceled>>>)
    ensures
        terminated_after(true, looks),
    decreases looks.len(),
{
    if looks.len() > 0 {
        lemma_stays_terminated(looks.drop_first());
    }
}

/// While the channel shows nothing the waiter stays as it was and hands out
/// nothing.
pub proof fn lemma_pending_while_nothing_arrives<T>(
    terminated: bool,
    looks: Seq<Option<Result<T, Canceled>>>,
    i: int,
)
    requires
        0 <= i < looks.len(),
        forall|k: int| 0 <= k < looks.len() ==> looks[k] is None,
    ensures
        outcomes(terminated, looks).len() == looks.len(),
        outcomes(terminated, looks)[i] is None,
        terminated_after(terminated, looks) == terminated,
    decreases looks.len(),
{
    lemma_outcomes_len(terminated, looks);
    lemma_state_kept_while_nothing_arrives(terminated, looks);
    if i > 0 {
        lemma_pending_while_nothing_arrives(terminated, looks.drop_first(), i - 1);
    }
}

/// While the channel shows nothing the waiter's state does not change.
pub proof fn lemma_state_kept_while_nothing_arrives<T>(
    terminated: bool,
    looks: Seq<Option<Result<T, Canceled>>>,
)
    requires
        forall|k: int| 0 <= k < looks.len() ==> looks[k] is None,
    ensures
        terminated_after(terminated, looks) == terminated,
    decreases looks.len(),
{
    if looks.len() > 0 {
        lemma_state_kept_while_nothing_arrives(terminated, looks.drop_first());
    }
}

/// The first thing that the channel shows decides: a pending waiter resolves
/// at that look, to the outcome that stands for what was shown, hands out
/// nothing at any other look, and is terminated in the end.
pub proof fn lemma_first_arrival_decides<T>(
    looks: Seq<Option<Result<T, Canceled>>>,
    first: int,
    i: int,
)
    requires
        0 <= first < looks.len(),
        looks[first] is Some,
        forall|k: int| 0 <= k < first ==> looks[k] is None,
        0 <= i < looks.len(),
    ensures
        outcomes(false, looks).len() == looks.len(),
        outcomes(false, looks)[first] == Some(outcome_of(looks[first]->Some_0)),
        i != first ==> outcomes(false, looks)[i] is None,
        terminated_after(false, looks),
    decreases looks.len(),
{
    lemma_outcomes_len(false, looks);
    let rest = looks.drop_first();
    if first == 0 {
        lemma_stays_terminated(rest);
        if i > 0 {
            lemma_terminated_absorbs(rest, i - 1);
        }
    } else {
        lemma_first_arrival_decides(rest, first - 1, if i > 0 { i - 1 } else { 0 });
    }
}

/// The waiter resolves at most once: of any two looks in a run, at most one
/// hands out an outcome.
pub proof fn lemma_waiter_resolves_at_most_once<T>(
    terminated: bool,
    looks: Seq<Option<Result<T, Canceled>>>,
    i: int,
    j: int,
)
    requires
        0 <= i < j < looks.len(),
    ensures
        outcomes(terminated, looks).len() == looks.len(),
        !(outcomes(terminated, looks)[i] is Some && outcomes(terminated, looks)[j] is Some),
    decreases looks.len(),
{
    lemma_outcomes_len(terminated, looks);
    let rest = looks.drop_first();
    let next = settle_step(terminated, looks[0]).0;
    if i == 0 {
        if outcomes(terminated, looks)[0] is Some {
            lemma_terminated_absorbs(rest, j - 1);
        }
    } else {
        lemma_waiter_resolves_at_most_once(next, rest, i - 1, j - 1);
    }
}

} // verus!
