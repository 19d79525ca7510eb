use vstd::prelude::*;

use crate::yield_now::Poll;

verus! {

/// What one resumption of a coroutine produced: a yielded value of type `Y`, or the final
/// value of type `T`.
#[derive(Debug, PartialEq, Eq, Structural)]
pub enum State<Y, T> {
    /// The coroutine yielded a value.
    Yield(Y),
    /// The coroutine completed with a value.
    Complete(T),
}

impl<Y, T> State<Y, T> {
    /// The yielded value, if this is a yield.
    pub fn as_yield(&self) -> (r: Option<&Y>)
        ensures
            r is Some <==> self is Yield,
            r matches Some(v) ==> *v == self->Yield_0,
    {
        match self {
            State::Yield(v) => Some(v),
            State::Complete(_) => None,
        }
    }

    /// The final value, if this is a completion.
    pub fn as_complete(&self) -> (r: Option<&T>)
        ensures
            r is Some <==> self is Complete,
            r matches Some(v) ==> *v == self->Complete_0,
    {
        match self {
            State::Yield(_) => None,
            State::Complete(v) => Some(v),
        }
    }

    /// Whether this is a yield.
    pub fn is_yield(&self) -> (r: bool)
        ensures
            r == self is Yield,
    {
        matches!(self, State::Yield(..))
    }

    /// Whether this is a completion.
    pub fn is_complete(&self) -> (r: bool)
        ensures
            r == self is Complete,
    {
        matches!(self, State::Complete(..))
    }
}

impl<T> State<T, T> {
    /// The value carried, whether yielded or final.
    pub fn value(self) -> (r: T)
        ensures
            r == (match self {
                State::Yield(v) => v,
                State::Complete(v) => v,
            }),
    {
        match self {
            State::Yield(v) => v,
            State::Complete(v) => v,
        }
    }
}

/// What a driver reports after one step: a finished step completes the coroutine; a paused
/// step is reported only once a value has been yielded, and otherwise calls for another step.
pub open spec fn settled<Y, T>(outcome: Poll<T>, yielded: Option<Y>) -> Option<State<Y, T>> {
    match outcome {
        Poll::Ready(t) => Some(State::Complete(t)),
        Poll::Pending => match yielded {
            Some(y) => Some(State::Yield(y)),
            None => None,
        },
    }
}

/// Decides what one step of the computation amounts to, given its outcome and the value
/// found in the yield mailbox afterwards.
pub fn settle<Y, T>(outcome: Poll<T>, yielded: Option<Y>) -> (r: Option<State<Y, T>>)
    ensures
        r == settled(outcome, yielded),
{
    match outcome {
        Poll::Ready(t) => Some(State::Complete(t)),
        Poll::Pending => match yielded {
            Some(y) => Some(State::Yield(y)),
            None => None,
        },
    }
}

/// A step that finishes with `v` completes the coroutine with exactly `v`, whatever the yield
/// mailbox holds; a paused step with a yielded value reports exactly that value.
pub proof fn lemma_settled_exact<Y, T>(v: T, y: Y, yielded: Option<Y>)
    ensures
        settled(Poll::Ready(v), yielded) == Some(State::<Y, T>::Complete(v)),
        settled(Poll::<T>::Pending, Some(y)) == Some(State::<Y, T>::Yield(y)),
        settled(Poll::<T>::Pending, None::<Y>) is None,
{
}

} // verus!
