//! The outcome that a waiter receives.

use futures::channel::oneshot::Canceled;
use std::fmt::Display;
use vstd::prelude::*;
use vstd::string::to_string_from_display_ensures;

verus! {

/// Why the wait ended.
#[derive(Debug, PartialEq, Eq)]
pub enum StopReason<T> {
    /// Every handle was dropped before any of them asked for a stop.
    HandleLost,
    /// A handle asked for a stop and gave this reason.
    Requested(T),
}

/// The outcome that stands for what the channel handed over: the reason that
/// was sent, or the loss of every handle where the channel closed without one.
pub open spec fn outcome_of<T>(received: Result<T, Canceled>) -> StopReason<T> {
    match received {
        Ok(reason) => StopReason::Requested(reason),
        Err(_) => StopReason::HandleLost,
    }
}

/// The text of `HandleLost`.
pub open spec fn lost_text() -> Seq<char> {
    "handle lost"@
}

/// The text of `Requested`, around the text of its reason.
pub open spec fn requested_text(reason: Seq<char>) -> Seq<char> {
    "requested with reason `"@ + reason + "`"@
}

impl<T> StopReason<T> {
    /// The outcome for what the channel handed over.
    pub fn from_received(received: Result<T, Canceled>) -> (outcome: Self)
        ensures
            outcome == outcome_of(received),
    {
        match received {
            Ok(reason) => StopReason::Requested(reason),
            Err(_) => StopReason::HandleLost,
        }
    }
}

impl<T: Display> StopReason<T> {
    /// Whether `text` is a rendering of this outcome: the fixed text of
    /// `HandleLost`, or the text of `Requested` around what the reason's own
    /// `Display` gives.
    pub open spec fn describes(&self, text: Seq<char>) -> bool {
        match *self {
            StopReason::HandleLost => text == lost_text(),
            StopReason::Requested(reason) => exists|shown: String|
                #[trigger] to_string_from_display_ensures::<T>(&reason, shown) && text
                    == requested_text(shown@),
        }
    }

    /// The outcome in words.
    pub fn describe(&self) -> (text: String)
        ensures
            self.describes(text@),
    {
        match self {
            StopReason::HandleLost => String::from_str("handle lost"),
            StopReason::Requested(reason) => {
                let shown = reason.to_string();
                let text = String::from_str("requested with reason `");
                let text = text.concat(shown.as_str());
                text.concat("`")
            },
        }
    }
}

impl<T: Clone> Clone for StopReason<T> {
    /// The copy has the variant of the outcome it was made from, and its
    /// reason is a clone of that outcome's reason.
    fn clone(&self) -> (copy: Self)
        ensures
            match (*self, copy) {
                (StopReason::HandleLost, StopReason::HandleLost) => true,
                (StopReason::Requested(r), StopReason::Requested(c)) => cloned(r, c),
                _ => false,
            },
    {
        match self {
            StopReason::HandleLost => StopReason::HandleLost,
            StopReason::Requested(r) => StopReason::Requested(r.clone()),
        }
    }
}

} // verus!
