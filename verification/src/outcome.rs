//! What a native call's return settles, and what it leaves to the last-error
//! slot.
//!
//! The native library keeps one slot for the event of its latest failure.
//! Reading the slot empties it, so it is read only where a call's return asks
//! for it, and at once. An [`Outcome`] is what is known when a call has
//! returned: either the result, or that the slot has to be read, together with
//! the result that holds in case the slot is empty.

use vstd::prelude::*;
use crate::types::{Error, ErrorView, NeoEvent};

verus! {

/// What is known of a call's result when the native function has returned.
#[derive(Debug, PartialEq, Eq)]
pub enum Outcome<T> {
    /// The return settled the result. The last-error slot is left alone.
    Settled(Result<T, Error>),
    /// The last-error slot has to be read now. An event in it is the error;
    /// with none in it, the result is `otherwise`.
    Deferred { otherwise: Result<T, Error> },
}

impl<T> Outcome<T> {
    /// The result, given what the last-error slot held. For a settled outcome
    /// the slot was not read and `last_error` counts for nothing.
    pub open spec fn resolved(self, last_error: Option<NeoEvent>) -> Result<T, Error> {
        match self {
            Outcome::Settled(result) => result,
            Outcome::Deferred { otherwise } => match last_error {
                Some(event) => Err(Error::ErrorOccurred(event)),
                None => otherwise,
            },
        }
    }

    /// The call gave `value`, and the slot is left alone.
    pub open spec fn settles_on(self, value: T) -> bool {
        self == Outcome::Settled(Ok::<T, Error>(value))
    }

    /// The call failed with `error`, and the slot is left alone.
    pub open spec fn settles_on_error(self, error: ErrorView) -> bool {
        self matches Outcome::Settled(Err(e)) && e@ == error
    }

    /// The slot decides, and where it is empty the call gave `value`.
    pub open spec fn defers_to(self, value: T) -> bool {
        self == (Outcome::Deferred { otherwise: Ok::<T, Error>(value) })
    }

    /// The slot decides, and where it is empty the call failed with `error`.
    pub open spec fn defers_to_error(self, error: ErrorView) -> bool {
        self matches Outcome::Deferred { otherwise: Err(e) } && e@ == error
    }

    /// Whether the last-error slot has to be read before [`Outcome::resolve`].
    pub fn is_deferred(&self) -> (deferred: bool)
        ensures
            deferred == (self is Deferred),
    {
        match self {
            Outcome::Settled(_) => false,
            Outcome::Deferred { .. } => true,
        }
    }

    /// Gives the result. `last_error` is what the last-error slot held when it
    /// was read for this outcome, and `None` where it was not read.
    pub fn resolve(self, last_error: Option<NeoEvent>) -> (result: Result<T, Error>)
        ensures
            result == self.resolved(last_error),
    {
        match self {
            Outcome::Settled(result) => result,
            Outcome::Deferred { otherwise } => match last_error {
                Some(event) => Err(Error::ErrorOccurred(event)),
                None => otherwise,
            },
        }
    }
}

/// The reading of a call that returns whether it succeeded and must leave an
/// event behind when it did not: on success `value`, on failure the event in
/// the last-error slot, and the critical error `message` where the slot is
/// empty after all.
pub open spec fn is_checked<T>(
    outcome: Outcome<T>,
    success: bool,
    value: T,
    message: Seq<char>,
) -> bool {
    if success {
        outcome.settles_on(value)
    } else {
        outcome.defers_to_error(ErrorView::CriticalError(message))
    }
}

/// Reads a call's return as [`is_checked`] says.
pub fn checked<T>(success: bool, value: T, message: &str) -> (outcome: Outcome<T>)
    ensures
        is_checked(outcome, success, value, message@),
{
    if success {
        Outcome::Settled(Ok(value))
    } else {
        Outcome::Deferred { otherwise: Err(Error::CriticalError(message.to_owned())) }
    }
}

/// The reading of a call whose return is itself the answer, and that leaves an
/// event behind only where `false` stands for a failure: `true` is settled,
/// `false` is the answer unless the last-error slot holds an event.
pub open spec fn is_answered(outcome: Outcome<bool>, answer: bool) -> bool {
    if answer {
        outcome.settles_on(true)
    } else {
        outcome.defers_to(false)
    }
}

/// Reads a call's return as [`is_answered`] says.
pub fn answered(answer: bool) -> (outcome: Outcome<bool>)
    ensures
        is_answered(outcome, answer),
{
    if answer {
        Outcome::Settled(Ok(true))
    } else {
        Outcome::Deferred { otherwise: Ok(false) }
    }
}

/// A checked call gives its value exactly when the native function reported
/// success; the last-error slot has no say in that, only in which error a
/// failure is.
pub proof fn lemma_checked_succeeds_iff<T>(
    outcome: Outcome<T>,
    success: bool,
    value: T,
    message: Seq<char>,
    last_error: Option<NeoEvent>,
)
    requires
        is_checked(outcome, success, value, message),
    ensures
        success ==> outcome.resolved(last_error) == Ok::<T, Error>(value),
        !success ==> outcome.resolved(last_error) is Err,
        !success && last_error is Some ==> outcome.resolved(last_error)->Err_0@
            == ErrorView::ErrorOccurred(last_error->Some_0),
        !success && last_error is None ==> outcome.resolved(last_error)->Err_0@
            == ErrorView::CriticalError(message),
        outcome is Deferred <==> !success,
{
}

/// An answered call fails only on an event in the last-error slot after the
/// answer `false`; every other reading is `Ok` of the answer.
pub proof fn lemma_answered_fails_iff(
    outcome: Outcome<bool>,
    answer: bool,
    last_error: Option<NeoEvent>,
)
    requires
        is_answered(outcome, answer),
    ensures
        outcome.resolved(last_error) is Err <==> !answer && last_error is Some,
        outcome.resolved(last_error) is Ok ==> outcome.resolved(last_error) == Ok::<bool, Error>(
            answer,
        ),
        outcome is Deferred <==> !answer,
{
}

} // verus!
