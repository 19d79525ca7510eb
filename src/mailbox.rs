use vstd::pervasive::runtime_assert;
use vstd::prelude::*;

use crate::executor::{input_of, Suspendable};
use crate::state::State;
use crate::yield_now::{yield_now, Poll, YieldNow};

verus! {

/// A one-slot cell that passes a single value between the driver and the computation.
pub struct Mailbox<V> {
    slot: Option<V>,
}

impl<V> View for Mailbox<V> {
    type V = Option<V>;

    closed spec fn view(&self) -> Option<V> {
        self.slot
    }
}

impl<V> Mailbox<V> {
    /// An empty mailbox.
    pub fn new() -> (r: Self)
        ensures
            r@ is None,
    {
        Mailbox { slot: None }
    }

    /// Whether the slot holds no value.
    pub fn is_empty(&self) -> (r: bool)
        ensures
            r == (self@ is None),
    {
        self.slot.is_none()
    }

    /// Stores a value into an empty slot; an occupied slot is a misuse the caller must rule out.
    pub fn put(&mut self, v: V)
        requires
            old(self)@ is None,
        ensures
            final(self)@ == Some(v),
    {
        // Proved to hold; it stops callers that are not verified from overwriting a value.
        runtime_assert(self.slot.is_none());
        self.slot = Some(v);
    }

    /// Stores a value, discarding whatever the slot held.
    pub fn replace(&mut self, v: V)
        ensures
            final(self)@ == Some(v),
    {
        self.slot = Some(v);
    }

    /// Reads and clears the slot, whatever it holds.
    pub fn take(&mut self) -> (r: Option<V>)
        ensures
            r == old(self)@,
            final(self)@ is None,
    {
        self.slot.take()
    }
}

/// The capability handed to a computation: a pair of mailboxes, one carrying yielded values
/// out to the driver and one carrying resume values back in.
pub struct YieldHandle<Y, R> {
    value: Mailbox<Y>,
    resume: Mailbox<R>,
    published: Ghost<Seq<Y>>,
    received: Ghost<Seq<R>>,
}

/// The values held by an optional slot, as a sequence of zero or one.
pub open spec fn slot_seq<V>(slot: Option<V>) -> Seq<V> {
    match slot {
        Some(v) => seq![v],
        None => Seq::empty(),
    }
}

impl<Y, R> YieldHandle<Y, R> {
    /// The value yielded and not yet collected by the driver.
    pub closed spec fn yielded(&self) -> Option<Y> {
        self.value@
    }

    /// The resume value staged by the driver and not yet read by the computation.
    pub closed spec fn staged(&self) -> Option<R> {
        self.resume@
    }

    /// Every value published through this handle so far, oldest first.
    pub closed spec fn published(&self) -> Seq<Y> {
        self.published@
    }

    /// Every resume value handed to a yield through this handle so far, oldest first.
    pub closed spec fn received(&self) -> Seq<R> {
        self.received@
    }

    /// A handle with both mailboxes empty.
    pub(crate) fn new() -> (r: Self)
        ensures
            r.yielded() is None,
            r.staged() is None,
            r.published() == Seq::<Y>::empty(),
            r.received() == Seq::<R>::empty(),
    {
        YieldHandle {
            value: Mailbox::new(),
            resume: Mailbox::new(),
            published: Ghost(Seq::empty()),
            received: Ghost(Seq::empty()),
        }
    }

    /// Driver side: stages the next resume value, overwriting any unread one.
    pub(crate) fn stage_resume(&mut self, resume: R)
        ensures
            final(self).staged() == Some(resume),
            final(self).yielded() == old(self).yielded(),
            final(self).published() == old(self).published(),
            final(self).received() == old(self).received(),
    {
        self.resume.replace(resume);
    }

    /// Driver side: whether a yielded value waits to be collected.
    pub(crate) fn has_yield(&self) -> (r: bool)
        ensures
            r == self.yielded() is Some,
    {
        !self.value.is_empty()
    }

    /// Driver side: collects the yielded value, if any.
    pub(crate) fn collect(&mut self) -> (r: Option<Y>)
        ensures
            r == old(self).yielded(),
            final(self).yielded() is None,
            final(self).staged() == old(self).staged(),
            final(self).published() == old(self).published(),
            final(self).received() == old(self).received(),
    {
        self.value.take()
    }

    /// Creates the yield operation for `value`. Nothing happens until it is polled: an
    /// operation that is dropped unpolled leaves no trace.
    pub fn yield_(&self, value: Y) -> (r: Yield<Y>)
        ensures
            r.wf(),
            r.pending_value() == Some(value),
            r.item() == value,
            !r.is_parked(),
            !r.is_done(),
    {
        Yield { value: Some(value), signal: yield_now(), done: false, item: Ghost(value) }
    }
}

/// A yield operation in flight: publishes its value on the first poll and returns the
/// resume value on the second.
pub struct Yield<Y> {
    value: Option<Y>,
    signal: YieldNow,
    done: bool,
    item: Ghost<Y>,
}

impl<Y> Yield<Y> {
    /// The value still to be published.
    pub closed spec fn pending_value(&self) -> Option<Y> {
        self.value
    }

    /// The value this operation yields.
    pub closed spec fn item(&self) -> Y {
        self.item@
    }

    /// Published, and waiting for the resume value.
    pub closed spec fn is_parked(&self) -> bool {
        !self.done && self.value is None
    }

    /// Finished: it handed back a resume value.
    pub closed spec fn is_done(&self) -> bool {
        self.done
    }

    /// Well-formed: a fresh operation holds its value and has not fired its signal yet.
    pub closed spec fn wf(&self) -> bool {
        &&& (self.value is Some <==> !self.signal.has_fired())
        &&& (self.done ==> self.value is None)
        &&& (self.value is Some ==> self.value == Some(self.item@))
    }

    /// Advances the operation. The first poll publishes the value and pauses; the second
    /// reads and clears the staged resume value and returns it.
    pub fn poll<R>(&mut self, handle: &mut YieldHandle<Y, R>) -> (r: Poll<R>)
        requires
            old(self).wf(),
            !old(self).is_done(),
            old(self).pending_value() is Some ==> old(handle).yielded() is None,
            old(self).is_parked() ==> old(handle).staged() is Some,
        ensures
            final(self).wf(),
            final(self).item() == old(self).item(),
            old(self).pending_value() matches Some(v) ==> {
                &&& r is Pending
                &&& final(handle).yielded() == Some(v)
                &&& final(handle).staged() == old(handle).staged()
                &&& final(handle).published() == old(handle).published().push(v)
                &&& final(handle).received() == old(handle).received()
                &&& final(self).is_parked()
                &&& final(self).pending_value() is None
                &&& !final(self).is_done()
            },
            old(self).is_parked() ==> {
                &&& r == Poll::Ready(old(handle).staged().unwrap())
                &&& final(handle).staged() is None
                &&& final(handle).yielded() == old(handle).yielded()
                &&& final(handle).published() == old(handle).published()
                &&& final(handle).received() == old(handle).received().push(r->Ready_0)
                &&& final(self).is_done()
            },
    {
        let v = self.value.take();
        match v {
            Some(v) => {
                handle.value.put(v);
                proof {
                    handle.published@ = handle.published@.push(v);
                }
            },
            None => {},
        }
        match self.signal.poll() {
            Poll::Pending => Poll::Pending,
            Poll::Ready(()) => {
                self.done = true;
                let r = handle.resume.take().expect("expected resume value");
                proof {
                    handle.received@ = handle.received@.push(r);
                }
                Poll::Ready(r)
            },
        }
    }
}

/// A yield operation is itself a suspendable computation: it pauses once, publishing its
/// value, and finishes with the resume value it is handed.
impl<Y, R> Suspendable<Y, R, R> for Yield<Y> {
    open spec fn live(&self) -> bool {
        self.wf() && !self.is_done()
    }

    open spec fn awaits_resume(&self) -> bool {
        self.is_parked()
    }

    /// Yields its value, then finishes with the first resume value it reads.
    open spec fn event(&self, inputs: Seq<R>) -> State<Y, R> {
        if inputs.len() == 0 {
            State::Yield(self.item())
        } else {
            State::Complete(inputs[0])
        }
    }

    open spec fn idle_pauses(&self) -> nat {
        0
    }

    fn poll(&mut self, handle: &mut YieldHandle<Y, R>) -> (r: Poll<R>) {
        let r = Yield::poll(self, handle);
        assert(handle.published() =~= old(handle).published() + slot_seq(handle.yielded()));
        proof {
            let input = input_of(old(self).is_parked(), old(handle).staged());
            assert(handle.received() =~= old(handle).received() + input);
            if r is Pending {
                assert forall|rs: Seq<R>| #[trigger] self.event(rs) == old(self).event(input + rs) by {
                    assert(input + rs =~= rs);
                }
            }
        }
        r
    }
}

} // verus!
