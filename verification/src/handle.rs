//! The trigger handle: a cloneable capability to ask for a stop.

use crate::lock::{guarded, lock_up, share};
use crate::slot::{deliver, SignalSlot};
use futures::channel::oneshot::Sender;
use std::sync::{Arc, LockResult, Mutex, MutexGuard, PoisonError};
use vstd::prelude::*;

verus! {

/// Asks for a stop. Every clone leads to the same slot, which lives until
/// the last clone is dropped.
#[verifier::reject_recursive_types(T)]
pub struct StopHandle<T> {
    inner: Arc<Mutex<SignalSlot<T>>>,
}

impl<T> View for StopHandle<T> {
    type V = Mutex<SignalSlot<T>>;

    /// The lock that every clone of the handle shares, and behind which the
    /// slot lies.
    closed spec fn view(&self) -> Mutex<SignalSlot<T>> {
        *self.inner
    }
}

impl<T> StopHandle<T> {
    /// Whether the lock that the handle shares is one that `Mutex::new` made
    /// around `slot`: whether `slot` is what the family of clones started
    /// out with.
    pub open spec fn made_around(&self, slot: SignalSlot<T>) -> bool {
        call_ensures(Mutex::<SignalSlot<T>>::new, (slot,), self@)
    }

    /// A handle on a new shared slot that starts out as `slot`.
    pub(crate) fn new(slot: SignalSlot<T>) -> (handle: Self)
        ensures
            handle.made_around(slot),
    {
        StopHandle { inner: Arc::new(Mutex::new(slot)) }
    }

    /// Whether `slot` is what one taking of the handle's lock found behind
    /// it: whether the lock was taken, poisoned or not, and `slot` is the
    /// value that its guard gave access to.
    pub closed spec fn found_behind(&self, slot: SignalSlot<T>) -> bool {
        exists|
            held: LockResult<MutexGuard<'_, SignalSlot<T>>>,
            guard: &mut MutexGuard<'_, SignalSlot<T>>,
            found: &mut SignalSlot<T>,
        |
            {
                &&& #[trigger] call_ensures(lock_up::<SignalSlot<T>>, (&self@,), held)
                &&& match held {
                    Ok(taken) => *guard == taken,
                    Err(poisoned) => call_ensures(
                        PoisonError::<MutexGuard<'_, SignalSlot<T>>>::into_inner,
                        (poisoned,),
                        *guard,
                    ),
                }
                &&& #[trigger] call_ensures(guarded::<SignalSlot<T>>, (guard,), found)
                &&& *found == slot
            }
    }

    /// The check-and-take on the shared slot: takes the lock, claims the
    /// endpoint from the slot found behind it, and lets the lock go. The
    /// lock is held for this alone: nothing of a reason is touched here.
    ///
    /// A lock that reports poison is taken all the same: a claim cannot
    /// leave a slot half done.
    fn claim(&self) -> (claimed: Option<Sender<T>>)
        ensures
            exists|slot: &mut SignalSlot<T>|
                self.found_behind(*slot) && #[trigger] call_ensures(
                    SignalSlot::<T>::claim,
                    (slot,),
                    claimed,
                ),
    {
        let held = lock_up(&self.inner);
        assert(call_ensures(lock_up::<SignalSlot<T>>, (&self@,), held));
        let mut guard = match held {
            Ok(guard) => guard,
            Err(poisoned) => poisoned.into_inner(),
        };
        let slot = guarded(&mut guard);
        assert(self.found_behind(*slot));
        slot.claim()
    }

    /// Asks for a stop with `reason`: a deposit into the shared slot, in
    /// its two halves. The endpoint is claimed from the slot under the lock,
    /// and then, with the lock let go, the reason is delivered through what
    /// the claim handed out. Only the first call on a family of clones finds
    /// the slot armed and sends its reason; every later one finds it empty
    /// and drops its reason unsent.
    pub fn stop(&self, reason: T)
        ensures
            exists|slot: &mut SignalSlot<T>, claimed: Option<Sender<T>>, accepted: bool|
                #![trigger
                    call_ensures(SignalSlot::<T>::claim, (slot,), claimed),
                    call_ensures(deliver::<T>, (claimed, reason), accepted),
                ]
                {
                    &&& self.found_behind(*slot)
                    &&& call_ensures(SignalSlot::<T>::claim, (slot,), claimed)
                    &&& call_ensures(deliver::<T>, (claimed, reason), accepted)
                },
    {
        let claimed = self.claim();
        let _ = deliver(claimed, reason);
    }
}

impl<T> Clone for StopHandle<T> {
    /// Another handle on the same slot.
    fn clone(&self) -> (twin: Self)
        ensures
            twin == *self,
    {
        StopHandle { inner: share(&self.inner) }
    }
}

} // verus!
