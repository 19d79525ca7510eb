use vstd::prelude::*;

verus! {

/// Outcome of advancing a suspendable computation by one step.
#[derive(Debug, PartialEq, Eq, Structural)]
pub enum Poll<T> {
    /// The computation finished with this value.
    Ready(T),
    /// The computation paused and must be advanced again later.
    Pending,
}

impl<T> Poll<T> {
    /// Whether the computation paused.
    pub fn is_pending(&self) -> (r: bool)
        ensures
            r == self is Pending,
    {
        matches!(self, Poll::Pending)
    }
}

/// A one-shot suspension signal: pending on its first drive, ready on every later one.
pub struct YieldNow {
    fired: bool,
}

impl YieldNow {
    /// Whether the signal has already reported "pending" once.
    pub closed spec fn has_fired(&self) -> bool {
        self.fired
    }

    /// Advances the signal.
    pub fn poll(&mut self) -> (r: Poll<()>)
        ensures
            r == (if old(self).has_fired() { Poll::Ready(()) } else { Poll::Pending }),
            final(self).has_fired(),
    {
        if !self.fired {
            self.fired = true;
            Poll::Pending
        } else {
            Poll::Ready(())
        }
    }
}

/// Creates a fresh suspension signal that pauses its caller exactly once.
pub fn yield_now() -> (r: YieldNow)
    ensures
        !r.has_fired(),
{
    YieldNow { fired: false }
}

} // verus!
