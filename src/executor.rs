use vstd::prelude::*;

use crate::mailbox::{slot_seq, YieldHandle};
use crate::state::State;
use crate::yield_now::Poll;

verus! {

/// The resume value a step reads first: the staged one when the computation is paused at a
/// yield, none otherwise.
pub open spec fn input_of<R>(awaits: bool, staged: Option<R>) -> Seq<R> {
    if awaits && staged is Some {
        seq![staged->Some_0]
    } else {
        Seq::empty()
    }
}

/// What one step of a computation does (the contract of `Suspendable::poll`), from `c0` with handle `h0` to `c1` with handle `h1`,
/// reporting `r`: it reads the staged resume value exactly when paused at a yield; it finishes
/// with the event its model gives, or pauses having published that event's value, or pauses
/// without publishing and with fewer idle pauses left. A paused computation behaves as the
/// old one after what was read.
pub open spec fn stepped<Y, R, T, C: Suspendable<Y, R, T>>(
    c0: C,
    h0: YieldHandle<Y, R>,
    c1: C,
    h1: YieldHandle<Y, R>,
    r: Poll<T>,
) -> bool {
    let input = input_of(c0.awaits_resume(), h0.staged());
    &&& h1.received() == h0.received() + input
    &&& c0.awaits_resume() ==> h1.staged() is None
    &&& !c0.awaits_resume() ==> h1.staged() == h0.staged()
    &&& h1.published() == h0.published() + slot_seq(h1.yielded())
    &&& r matches Poll::Ready(t) ==> {
        &&& c0.event(input) == State::<Y, T>::Complete(t)
        &&& h1.yielded() is None
    }
    &&& r is Pending ==> {
        &&& c1.live()
        &&& forall|rs: Seq<R>| #![trigger c1.event(rs)] c1.event(rs) == c0.event(input + rs)
    }
    &&& r is Pending && h1.yielded() is Some ==> {
        &&& c0.event(input) == State::<Y, T>::Yield(h1.yielded()->Some_0)
        &&& c1.awaits_resume()
    }
    &&& r is Pending && h1.yielded() is None ==> {
        &&& !c1.awaits_resume()
        &&& c1.idle_pauses() < c0.idle_pauses()
    }
}

/// A computation that can be advanced one step at a time, yielding values of type `Y`,
/// receiving resume values of type `R` and finishing with a value of type `T`.
///
/// Its behaviour is modelled by `event`: what it yields or finishes with next, once it has
/// read a given sequence of resume values. A step that pauses either publishes the next
/// yielded value through the handle, or pauses for some other reason; the latter can happen
/// only `idle_pauses` times before the next event. The default bodies only serve
/// implementations that are not verified; a verified implementation defines all four.
pub trait Suspendable<Y, R, T>: Sized {
    /// Consistent and not finished: the computation may be polled.
    open spec fn live(&self) -> bool {
        true
    }

    /// Paused at a yield: its next step reads the resume value staged by the driver.
    open spec fn awaits_resume(&self) -> bool {
        false
    }

    /// The event that follows once the computation has read `inputs`, in order. For a
    /// computation paused at a yield, `event(seq![])` is that yield and `event(seq![r])`
    /// what follows when it is resumed with `r`.
    open spec fn event(&self, inputs: Seq<R>) -> State<Y, T> {
        arbitrary()
    }

    /// How many more times it may pause without yielding before its next event.
    open spec fn idle_pauses(&self) -> nat {
        0
    }

    /// Advances the computation by one step.
    fn poll(&mut self, handle: &mut YieldHandle<Y, R>) -> (r: Poll<T>)
        requires
            old(self).live(),
            old(handle).yielded() is None,
            old(self).awaits_resume() ==> old(handle).staged() is Some,
        ensures
            final(handle).received() == old(handle).received() + input_of(
                old(self).awaits_resume(),
                old(handle).staged(),
            ),
            old(self).awaits_resume() ==> final(handle).staged() is None,
            !old(self).awaits_resume() ==> final(handle).staged() == old(handle).staged(),
            final(handle).published() == old(handle).published() + slot_seq(final(handle).yielded()),
            r matches Poll::Ready(t) ==> {
                &&& old(self).event(input_of(old(self).awaits_resume(), old(handle).staged()))
                    == State::<Y, T>::Complete(t)
                &&& final(handle).yielded() is None
            },
            r is Pending ==> {
                &&& final(self).live()
                &&& forall|rs: Seq<R>|
                    #![trigger final(self).event(rs)]
                    final(self).event(rs) == old(self).event(
                        input_of(old(self).awaits_resume(), old(handle).staged()) + rs,
                    )
            },
            r is Pending && final(handle).yielded() is Some ==> {
                &&& old(self).event(input_of(old(self).awaits_resume(), old(handle).staged()))
                    == State::<Y, T>::Yield(final(handle).yielded()->Some_0)
                &&& final(self).awaits_resume()
            },
            r is Pending && final(handle).yielded() is None ==> {
                &&& !final(self).awaits_resume()
                &&& final(self).idle_pauses() < old(self).idle_pauses()
            },
    ;
}

/// Single-task executor: advances one computation, with no wake-up source other than the
/// caller polling it again.
pub struct Executor<C> {
    task: C,
}

impl<C> Executor<C> {
    /// The computation being driven.
    pub closed spec fn task(&self) -> C {
        self.task
    }

    /// Wraps a computation that has not been advanced yet.
    pub fn new(task: C) -> (r: Self)
        ensures
            r.task() == task,
    {
        Executor { task }
    }

    /// Advances the computation by exactly one step: the result and the computation
    /// afterwards are those of one poll of the task.
    pub fn poll<Y, R, T>(&mut self, handle: &mut YieldHandle<Y, R>) -> (r: Poll<T>)
        where
            C: Suspendable<Y, R, T>,
        requires
            old(self).task().live(),
            old(handle).yielded() is None,
            old(self).task().awaits_resume() ==> old(handle).staged() is Some,
        ensures
            stepped(old(self).task(), *old(handle), final(self).task(), *final(handle), r),
    {
        self.task.poll(handle)
    }
}

} // verus!
