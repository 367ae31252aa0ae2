//! A sequential model of one pair, and what holds of it.
//!
//! The executable handle and waiter meet only through a lock and a channel
//! that are opaque to the verifier, so no contract of theirs can speak of
//! both sides at once. This file describes the two sides together: a family
//! of handles, the slot they share, the channel, and the waiter, moved by one
//! operation at a time, in the order in which the lock and the channel let the
//! real operations take effect (a stop that finds the slot armed takes
//! effect when its reason is sent).
//!
//! The slot and the waiter move here as `SignalSlot::deposit` (a claim
//! followed by a delivery, which is what a stop does) and `StopWait::settle`
//! are proved to move. How the channel and the shared
//! ownership of the slot behave is written down from their documentation, and
//! is the premise of every statement below; no other proof relies on it.
//! The waiter is kept for as long as a history lasts: one that is dropped
//! early merely stops looking.

use crate::reason::StopReason;
use crate::slot::deposit_step;
use crate::wait::settle_step;
use futures::channel::oneshot::Canceled;
use vstd::prelude::*;

verus! {

/// The channel as the waiter's next look will find it.
pub enum Wire<T> {
    /// The sending endpoint exists and nothing was sent.
    Open,
    /// A reason was sent and not yet taken.
    Carrying(T),
    /// The sending endpoint is gone and nothing is left to take.
    Closed,
}

impl<T> Wire<T> {
    /// What a look at the channel gives.
    pub open spec fn look(self) -> Option<Result<T, Canceled>> {
        match self {
            Wire::Open => None,
            Wire::Carrying(reason) => Some(Ok(reason)),
            Wire::Closed => Some(Err(arbitrary())),
        }
    }

    /// The channel after a look: what was carried has been taken.
    pub open spec fn looked_at(self) -> Self {
        match self {
            Wire::Open => Wire::Open,
            _ => Wire::Closed,
        }
    }
}

/// One operation on a pair.
pub enum Op<T> {
    /// A live handle is cloned.
    CloneHandle,
    /// A live handle is asked to stop, with this reason.
    Stop(T),
    /// A live handle is dropped.
    DropHandle,
    /// The waiter is polled.
    Poll,
}

/// One pair: the handles, their slot, the channel and the waiter.
pub struct Pair<T> {
    /// How many clones of the handle are alive.
    pub handles: nat,
    /// Whether the slot still holds the sending endpoint.
    pub armed: bool,
    /// The channel.
    pub wire: Wire<T>,
    /// Whether the waiter has resolved.
    pub terminated: bool,
}

impl<T> Pair<T> {
    /// The pair as it is created: one handle, an armed slot, an open channel
    /// and a pending waiter.
    pub open spec fn created() -> Self {
        Pair { handles: 1, armed: true, wire: Wire::Open, terminated: false }
    }

    /// What holds of every pair that operations on a created pair can reach.
    /// The slot holds the endpoint exactly while the channel is open, and
    /// only while a handle keeps the slot alive. The waiter terminates only
    /// by taking what the channel had, which leaves the channel closed.
    pub open spec fn inv(self) -> bool {
        &&& self.armed <==> self.wire is Open
        &&& self.armed ==> self.handles > 0
        &&& self.terminated ==> self.wire is Closed
    }

    /// A live handle is cloned. (Without a live handle there is nothing to
    /// clone, and the pair stays as it is.)
    pub open spec fn clone_handle(self) -> Self {
        if self.handles > 0 {
            Pair { handles: self.handles + 1, ..self }
        } else {
            self
        }
    }

    /// A live handle is asked to stop with `reason`: the reason is deposited
    /// into the slot, and is on its way to the waiter if the slot accepted
    /// it.
    pub open spec fn stop(self, reason: T) -> Self {
        if self.handles > 0 {
            let (armed, accepted) = deposit_step(self.armed);
            Pair {
                armed,
                wire: if accepted {
                    Wire::Carrying(reason)
                } else {
                    self.wire
                },
                ..self
            }
        } else {
            self
        }
    }

    /// A live handle is dropped. With the last one the slot goes, and with
    /// the slot the endpoint, if it was still in it.
    pub open spec fn drop_handle(self) -> Self {
        if self.handles == 0 {
            self
        } else if self.handles == 1 && self.armed {
            Pair { handles: 0, armed: false, wire: Wire::Closed, ..self }
        } else {
            Pair { handles: (self.handles - 1) as nat, ..self }
        }
    }

    /// The waiter is polled: unless it is terminated it looks at the channel
    /// and takes one step on what it found. The result is the pair afterwards
    /// and what the waiter hands out.
    pub open spec fn poll(self) -> (Self, Option<StopReason<T>>) {
        if self.terminated {
            (self, None)
        } else {
            let (terminated, outcome) = settle_step(false, self.wire.look());
            (Pair { terminated, wire: self.wire.looked_at(), ..self }, outcome)
        }
    }

    /// The pair after `op`.
    pub open spec fn apply(self, op: Op<T>) -> Self {
        match op {
            Op::CloneHandle => self.clone_handle(),
            Op::Stop(reason) => self.stop(reason),
            Op::DropHandle => self.drop_handle(),
            Op::Poll => self.poll().0,
        }
    }

    /// The pair after `ops`, applied in order.
    pub open spec fn run(self, ops: Seq<Op<T>>) -> Self
        decreases ops.len(),
    {
        if ops.len() == 0 {
            self
        } else {
            self.apply(ops[0]).run(ops.drop_first())
        }
    }

    /// The outcomes that the waiter hands out in the course of `ops`, in
    /// order.
    pub open spec fn resolutions(self, ops: Seq<Op<T>>) -> Seq<StopReason<T>>
        decreases ops.len(),
    {
        if ops.len() == 0 {
            Seq::empty()
        } else {
            let later = self.apply(ops[0]).resolutions(ops.drop_first());
            match ops[0] {
                Op::Poll => match self.poll().1 {
                    Some(outcome) => seq![outcome] + later,
                    None => later,
                },
                _ => later,
            }
        }
    }

    /// The pair after stops with `reasons`, asked for in this order.
    pub open spec fn stop_all(self, reasons: Seq<T>) -> Self
        decreases reasons.len(),
    {
        if reasons.len() == 0 {
            self
        } else {
            self.stop(reasons[0]).stop_all(reasons.drop_first())
        }
    }
}

/// Whether `ops` leaves the waiter alone.
pub open spec fn without_poll<T>(ops: Seq<Op<T>>) -> bool {
    forall|i: int| 0 <= i < ops.len() ==> !(#[trigger] ops[i] is Poll)
}

/// Whether `ops` asks for no stop.
pub open spec fn without_stop<T>(ops: Seq<Op<T>>) -> bool {
    forall|i: int| 0 <= i < ops.len() ==> !(#[trigger] ops[i] is Stop)
}

/// A created pair satisfies the invariant, and every operation keeps it.
pub proof fn lemma_inv_kept<T>(pair: Pair<T>, op: Op<T>)
    requires
        pair.inv(),
    ensures
        Pair::<T>::created().inv(),
        pair.apply(op).inv(),
{
}

/// Every history keeps the invariant.
pub proof fn lemma_run_keeps_inv<T>(pair: Pair<T>, ops: Seq<Op<T>>)
    requires
        pair.inv(),
    ensures
        pair.run(ops).inv(),
    decreases ops.len(),
{
    if ops.len() > 0 {
        lemma_inv_kept(pair, ops[0]);
        lemma_run_keeps_inv(pair.apply(ops[0]), ops.drop_first());
    }
}

/// What holds of a history holds of it without its first operation.
proof fn lemma_rest_without<T>(ops: Seq<Op<T>>)
    requires
        ops.len() > 0,
    ensures
        without_poll(ops) ==> without_poll(ops.drop_first()),
        without_stop(ops) ==> without_stop(ops.drop_first()),
{
    let rest = ops.drop_first();
    if without_poll(ops) {
        assert forall|i: int| 0 <= i < rest.len() implies !(#[trigger] rest[i] is Poll) by {
            assert(rest[i] == ops[i + 1]);
        }
    }
    if without_stop(ops) {
        assert forall|i: int| 0 <= i < rest.len() implies !(#[trigger] rest[i] is Stop) by {
            assert(rest[i] == ops[i + 1]);
        }
    }
}

/// A terminated waiter hands out nothing more, whatever happens.
pub proof fn lemma_terminated_stays_silent<T>(pair: Pair<T>, ops: Seq<Op<T>>)
    requires
        pair.terminated,
    ensures
        pair.run(ops).terminated,
        pair.resolutions(ops).len() == 0,
    decreases ops.len(),
{
    if ops.len() > 0 {
        lemma_terminated_stays_silent(pair.apply(ops[0]), ops.drop_first());
    }
}

/// The waiter resolves at most once in any history.
pub proof fn lemma_pair_resolves_at_most_once<T>(pair: Pair<T>, ops: Seq<Op<T>>)
    ensures
        pair.resolutions(ops).len() <= 1,
    decreases ops.len(),
{
    if ops.len() > 0 {
        let next = pair.apply(ops[0]);
        let rest = ops.drop_first();
        if ops[0] is Poll && pair.poll().1 is Some {
            lemma_terminated_stays_silent(next, rest);
        } else {
            lemma_pair_resolves_at_most_once(next, rest);
        }
    }
}

/// A delivery is final. Once a reason is on its way, nothing that the
/// handles do changes it: the waiter can hand out nothing but that reason,
/// never `HandleLost`, and hands the reason out at its next poll.
pub proof fn lemma_delivery_is_final<T>(pair: Pair<T>, reason: T, ops: Seq<Op<T>>)
    requires
        pair.inv(),
        pair.wire == Wire::Carrying(reason),
        !pair.terminated,
    ensures
        forall|i: int|
            0 <= i < pair.resolutions(ops).len() ==> pair.resolutions(ops)[i]
                == StopReason::Requested(reason),
        without_poll(ops) ==> pair.run(ops).poll().1 == Some(StopReason::Requested(reason)),
    decreases ops.len(),
{
    if ops.len() > 0 {
        let next = pair.apply(ops[0]);
        let rest = ops.drop_first();
        lemma_rest_without(ops);
        if ops[0] is Poll {
            lemma_terminated_stays_silent(next, rest);
        } else {
            lemma_delivery_is_final(next, reason, rest);
        }
    }
}

/// No handle comes back once the last one is gone.
pub proof fn lemma_handles_stay_gone<T>(pair: Pair<T>, ops: Seq<Op<T>>)
    requires
        pair.handles == 0,
    ensures
        pair.run(ops).handles == 0,
    decreases ops.len(),
{
    if ops.len() > 0 {
        lemma_handles_stay_gone(pair.apply(ops[0]), ops.drop_first());
    }
}

/// A loss is final. Once the last handle is gone and the channel closed
/// behind it, no reason can be deposited any more: the waiter can hand out
/// nothing but `HandleLost`, and hands it out at its next poll.
pub proof fn lemma_loss_is_final<T>(pair: Pair<T>, ops: Seq<Op<T>>)
    requires
        pair.handles == 0,
        pair.wire is Closed,
        !pair.terminated,
    ensures
        pair.run(ops).handles == 0,
        forall|i: int|
            0 <= i < pair.resolutions(ops).len() ==> pair.resolutions(ops)[i]
                == StopReason::<T>::HandleLost,
        without_poll(ops) ==> pair.run(ops).poll().1 == Some(StopReason::<T>::HandleLost),
    decreases ops.len(),
{
    if ops.len() > 0 {
        let next = pair.apply(ops[0]);
        let rest = ops.drop_first();
        lemma_rest_without(ops);
        if ops[0] is Poll {
            lemma_terminated_stays_silent(next, rest);
            lemma_handles_stay_gone(next, rest);
        } else {
            lemma_loss_is_final(next, rest);
        }
    }
}

/// When no stop is asked for, the waiter is pending for as long as a handle
/// is alive and resolves to `HandleLost`, and to nothing else, once none is.
pub proof fn lemma_without_stop<T>(pair: Pair<T>, ops: Seq<Op<T>>)
    requires
        pair.inv(),
        pair.armed,
        !pair.terminated,
        without_stop(ops),
    ensures
        forall|i: int|
            0 <= i < pair.resolutions(ops).len() ==> pair.resolutions(ops)[i]
                == StopReason::<T>::HandleLost,
        pair.run(ops).handles > 0 ==> {
            &&& pair.resolutions(ops).len() == 0
            &&& pair.run(ops).armed
            &&& !pair.run(ops).terminated
        },
        pair.run(ops).handles == 0 && without_poll(ops) ==> pair.run(ops).poll().1 == Some(
            StopReason::<T>::HandleLost,
        ),
    decreases ops.len(),
{
    if ops.len() > 0 {
        let next = pair.apply(ops[0]);
        let rest = ops.drop_first();
        lemma_rest_without(ops);
        if next.armed {
            lemma_without_stop(next, rest);
        } else {
            lemma_loss_is_final(next, rest);
        }
    }
}

/// A stop is delivered. After a stop with `reason` on a pair that no stop
/// was asked of before, the waiter resolves to `Requested(reason)`, whatever
/// the handles do between the stop and the poll: further stops, clones and
/// drops make no difference. This holds of a created pair in particular.
pub proof fn lemma_stop_then_wait<T>(pair: Pair<T>, reason: T, later: Seq<Op<T>>)
    requires
        pair.inv(),
        pair.handles > 0,
        pair.armed,
        !pair.terminated,
        without_poll(later),
    ensures
        pair.stop(reason).run(later).poll().1 == Some(StopReason::Requested(reason)),
        pair.stop(reason).run(later).poll().0.terminated,
        Pair::<T>::created().stop(reason).poll().1 == Some(StopReason::Requested(reason)),
{
    lemma_delivery_is_final(pair.stop(reason), reason, later);
    lemma_run_keeps_inv(pair.stop(reason), later);
}

/// The first stop wins. A second stop, through the same handle or through a
/// clone, changes nothing at all, and the waiter resolves to the first
/// reason.
pub proof fn lemma_first_stop_wins<T>(pair: Pair<T>, first: T, second: T)
    requires
        pair.inv(),
        pair.handles > 0,
        pair.armed,
        !pair.terminated,
    ensures
        pair.stop(first).stop(second) == pair.stop(first),
        pair.stop(first).clone_handle().stop(second) == pair.stop(first).clone_handle(),
        pair.clone_handle().stop(first).stop(second) == pair.clone_handle().stop(first),
        pair.stop(first).stop(second).poll().1 == Some(StopReason::Requested(first)),
        pair.stop(first).clone_handle().stop(second).poll().1 == Some(
            StopReason::Requested(first),
        ),
        pair.clone_handle().stop(first).stop(second).poll().1 == Some(
            StopReason::Requested(first),
        ),
{
}

/// Stops on a pair whose slot is empty leave the pair as it is.
pub proof fn lemma_late_stops_are_ignored<T>(pair: Pair<T>, reasons: Seq<T>)
    requires
        !pair.armed,
    ensures
        pair.stop_all(reasons) == pair,
    decreases reasons.len(),
{
    if reasons.len() > 0 {
        lemma_late_stops_are_ignored(pair, reasons.drop_first());
    }
}

/// Exactly one of many stops is delivered. Of stops asked for one after
/// another, in whatever order the lock let them in, the first is the one
/// that counts: the waiter resolves to its reason, which is one of those
/// given, and hands out nothing after that.
pub proof fn lemma_one_of_many_stops<T>(pair: Pair<T>, reasons: Seq<T>)
    requires
        pair.inv(),
        pair.handles > 0,
        pair.armed,
        !pair.terminated,
        reasons.len() > 0,
    ensures
        pair.stop_all(reasons) == pair.stop(reasons[0]),
        pair.stop_all(reasons).poll().1 == Some(StopReason::Requested(reasons[0])),
        pair.stop_all(reasons).poll().0.poll().1 is None,
{
    lemma_late_stops_are_ignored(pair.stop(reasons[0]), reasons.drop_first());
}

/// Abandoned handles are noticed. When handles were cloned and dropped
/// until none is left, and no stop was asked for, the waiter resolves to
/// `HandleLost`.
pub proof fn lemma_all_handles_dropped<T>(pair: Pair<T>, ops: Seq<Op<T>>)
    requires
        pair.inv(),
        pair.armed,
        !pair.terminated,
        without_stop(ops),
        without_poll(ops),
        pair.run(ops).handles == 0,
    ensures
        pair.run(ops).poll().1 == Some(StopReason::<T>::HandleLost),
        Pair::<T>::created().drop_handle().poll().1 == Some(StopReason::<T>::HandleLost),
{
    lemma_without_stop(pair, ops);
}

/// A surviving clone keeps the wait alive. While no stop was asked for and
/// a handle is left, however many others were cloned and dropped, the waiter
/// has handed out nothing and stays pending when polled, and a stop through
/// the handle that is left is still delivered.
pub proof fn lemma_surviving_clone_keeps_waiting<T>(pair: Pair<T>, ops: Seq<Op<T>>, reason: T)
    requires
        pair.inv(),
        pair.armed,
        !pair.terminated,
        without_stop(ops),
        pair.run(ops).handles > 0,
    ensures
        pair.resolutions(ops).len() == 0,
        pair.run(ops).poll().1 is None,
        pair.run(ops).poll().0 == pair.run(ops),
        pair.run(ops).stop(reason).poll().1 == Some(StopReason::Requested(reason)),
{
    lemma_without_stop(pair, ops);
    lemma_run_keeps_inv(pair, ops);
}

} // verus!
