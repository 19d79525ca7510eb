use vstd::prelude::*;

use crate::executor::{input_of, Executor, Suspendable};
use crate::mailbox::{slot_seq, YieldHandle};
use crate::state::{settle, settled, State};
use crate::yield_now::Poll;

verus! {

/// Where a coroutine is in its life.
pub(crate) enum Phase<F, C> {
    /// Not started: holds the initializer that builds the computation from the first
    /// resume value.
    Uninitialized(F),
    /// Started: the computation is being driven.
    Running(Executor<C>),
    /// The computation has returned its final value.
    Finished,
}

/// A coroutine that yields values of type `Y`, is resumed with values of type `R` and
/// completes with a value of type `T`. The computation, of type `C`, is built lazily by the
/// initializer `F` from the first resume value.
pub struct Coroutine<Y, T, R, F, C> {
    phase: Phase<F, C>,
    handle: YieldHandle<Y, R>,
    reported: Ghost<Seq<Y>>,
    output: core::marker::PhantomData<T>,
}

/// A coroutine whose resume values carry no information.
pub type Generator<Y, T, F, C> = Coroutine<Y, T, (), F, C>;

/// Builds the computation on the first resumption, or stages the resume value for a
/// computation already running.
fn init_or_resume<Y, R, F, C>(phase: Phase<F, C>, handle: &mut YieldHandle<Y, R>, resume: R) -> (r:
    Executor<C>) where F: FnOnce(R) -> C
    requires
        phase is Uninitialized ==> phase->Uninitialized_0.requires((resume,)),
        !(phase is Finished),
    ensures
        final(handle).yielded() == old(handle).yielded(),
        final(handle).published() == old(handle).published(),
        final(handle).received() == old(handle).received(),
        phase matches Phase::Uninitialized(f) ==> {
            &&& f.ensures((resume,), r.task())
            &&& final(handle).staged() == old(handle).staged()
        },
        phase matches Phase::Running(ex) ==> {
            &&& r == ex
            &&& final(handle).staged() == Some(resume)
        },
{
    match phase {
        Phase::Uninitialized(f) => Executor::new(f(resume)),
        Phase::Running(ex) => {
            handle.stage_resume(resume);
            ex
        },
        Phase::Finished => unreached(),
    }
}

impl<Y, T, R, F, C> Coroutine<Y, T, R, F, C> where F: FnOnce(R) -> C, C: Suspendable<Y, R, T> {
    /// Well-formed: no yielded value is left uncollected between resumptions; until the end,
    /// the caller has been handed exactly the values published; nothing is staged before the
    /// start; and a pending initializer accepts any first resume value.
    pub closed spec fn wf(&self) -> bool {
        &&& self.handle.yielded() is None
        &&& !self.is_finished() ==> self.reported@ == self.handle.published()
        &&& !self.is_started() ==> self.handle.staged() is None
        &&& self.phase matches Phase::Uninitialized(f) ==> {
            &&& forall|r: R| f.requires((r,))
            &&& forall|r: R, c: C| f.ensures((r,), c) ==> c.live() && !c.awaits_resume()
        }
        &&& self.phase matches Phase::Running(ex) ==> ex.task().live() && ex.task().awaits_resume()
    }

    /// Every value the computation has published through its yield operations, oldest first.
    pub closed spec fn published(&self) -> Seq<Y> {
        self.handle.published()
    }

    /// Every value handed to the caller as a yield, oldest first.
    pub closed spec fn reported(&self) -> Seq<Y> {
        self.reported@
    }

    /// Every resume value the computation's yields have received, oldest first.
    pub closed spec fn received(&self) -> Seq<R> {
        self.handle.received()
    }

    /// The initializer, while the coroutine has not started.
    pub closed spec fn initializer(&self) -> F {
        self.phase->Uninitialized_0
    }

    /// The computation, while the coroutine is running: paused at the yield it last reported.
    pub closed spec fn task(&self) -> C {
        self.phase->Running_0.task()
    }

    /// The computation has been built.
    pub closed spec fn is_started(&self) -> bool {
        !(self.phase is Uninitialized)
    }

    /// The computation has returned its final value.
    pub closed spec fn is_finished(&self) -> bool {
        self.phase is Finished
    }

    /// Creates a coroutine from an initializer that builds the computation from the first
    /// resume value. Nothing runs until the first resumption.
    pub fn new(f: F) -> (r: Self)
        requires
            forall|x: R| f.requires((x,)),
            forall|x: R, c: C| f.ensures((x,), c) ==> c.live() && !c.awaits_resume(),
        ensures
            r.wf(),
            !r.is_started(),
            !r.is_finished(),
            r.published() == Seq::<Y>::empty(),
            r.reported() == Seq::<Y>::empty(),
            r.received() == Seq::<R>::empty(),
            r.initializer() == f,
    {
        Coroutine {
            phase: Phase::Uninitialized(f),
            handle: YieldHandle::new(),
            reported: Ghost(Seq::empty()),
            output: core::marker::PhantomData,
        }
    }
}

impl<Y, T, R, F, C> Coroutine<Y, T, R, F, C> where F: FnOnce(R) -> C, C: Suspendable<Y, R, T> {
    /// Resumes the coroutine with `resume`: the first call builds the computation from it,
    /// later calls hand it to the yield the computation is paused at. Returns what the
    /// computation yielded next, or its final value. Resuming a finished coroutine is a misuse
    /// that callers must rule out.
    pub fn resume_with(&mut self, resume: R) -> (r: State<Y, T>)
        requires
            old(self).wf(),
            !old(self).is_finished(),
        ensures
            final(self).wf(),
            final(self).is_started(),
            r is Complete <==> final(self).is_finished(),
            r matches State::Yield(y) ==> final(self).reported() == old(self).reported().push(y),
            r is Complete ==> final(self).reported() == old(self).reported(),
            final(self).published() == old(self).published() ==> r is Complete,
            old(self).is_started() ==> final(self).received() == old(self).received().push(resume),
            !old(self).is_started() ==> final(self).received() == old(self).received(),
            old(self).is_started() ==> {
                &&& r == old(self).task().event(seq![resume])
                &&& !final(self).is_finished() ==> forall|rs: Seq<R>|
                    #![trigger final(self).task().event(rs)]
                    final(self).task().event(rs) == old(self).task().event(seq![resume] + rs)
            },
            !old(self).is_started() ==> exists|c: C|
                #![trigger old(self).initializer().ensures((resume,), c)]
                {
                    &&& old(self).initializer().ensures((resume,), c)
                    &&& r == c.event(seq![])
                    &&& !final(self).is_finished() ==> forall|rs: Seq<R>|
                        #![trigger final(self).task().event(rs)]
                        final(self).task().event(rs) == c.event(rs)
                },
    {
        let mut phase = Phase::Finished;
        core::mem::swap(&mut phase, &mut self.phase);
        let mut executor = init_or_resume(phase, &mut self.handle, resume);
        let ghost orig = executor.task();
        let ghost input0 = input_of(orig.awaits_resume(), self.handle.staged());
        let ghost received0 = self.handle.received();
        let mut outcome = executor.poll(&mut self.handle);
        // A pause that published nothing is not reported: step again until the computation
        // yields or finishes.
        while outcome.is_pending() && !self.handle.has_yield()
            invariant
                self.phase is Finished,
                self.reported@ == old(self).reported(),
                self.handle.received() == received0 + input0,
                self.handle.published() == old(self).published() + slot_seq(self.handle.yielded()),
                outcome matches Poll::Ready(t) ==> {
                    &&& orig.event(input0) == State::<Y, T>::Complete(t)
                    &&& self.handle.yielded() is None
                },
                outcome is Pending ==> {
                    &&& executor.task().live()
                    &&& forall|rs: Seq<R>|
                        #![trigger executor.task().event(rs)]
                        executor.task().event(rs) == orig.event(input0 + rs)
                },
                outcome is Pending && self.handle.yielded() is Some ==> {
                    &&& orig.event(input0) == State::<Y, T>::Yield(self.handle.yielded()->Some_0)
                    &&& executor.task().awaits_resume()
                },
                outcome is Pending && self.handle.yielded() is None ==> !executor.task().awaits_resume(),
            decreases
                if outcome is Pending && self.handle.yielded() is None {
                    executor.task().idle_pauses() + 1
                } else {
                    0
                },
        {
            let ghost prev = executor.task();
            let ghost h0 = self.handle;
            outcome = executor.poll(&mut self.handle);
            proof {
                let e = input_of(prev.awaits_resume(), h0.staged());
                assert(e =~= Seq::<R>::empty());
                assert(self.handle.received() =~= received0 + input0);
                assert(input0 + e =~= input0);
                if outcome is Pending {
                    assert forall|rs: Seq<R>| #[trigger]
                        executor.task().event(rs) == orig.event(input0 + rs) by {
                        assert(e + rs =~= rs);
                    }
                }
            }
        }
        proof {
            if self.handle.yielded() is Some {
                let y = self.handle.yielded()->Some_0;
                assert(self.handle.published() =~= old(self).published().push(y));
            } else {
                assert(self.handle.published() =~= old(self).published());
            }
            assert(input0 + Seq::<R>::empty() =~= input0);
            if old(self).is_started() {
                assert(input0 =~= seq![resume]);
                assert(self.handle.received() =~= old(self).received().push(resume));
            } else {
                assert(input0 =~= Seq::<R>::empty());
                assert(self.handle.received() =~= old(self).received());
            }
        }
        let finished = !outcome.is_pending();
        let yielded = self.handle.collect();
        self.phase = if finished {
            Phase::Finished
        } else {
            Phase::Running(executor)
        };
        let r = settle(outcome, yielded).unwrap();
        proof {
            if r is Yield {
                self.reported@ = self.reported@.push(r->Yield_0);
            }
            if !old(self).is_started() {
                assert(old(self).initializer().ensures((resume,), orig));
                assert(r == orig.event(seq![]));
                if !self.is_finished() {
                    assert forall|rs: Seq<R>| #[trigger] self.task().event(rs) == orig.event(rs) by {
                        assert(input0 + rs =~= rs);
                    }
                }
            }
        }
        r
    }
}

/// Every value the computation publishes reaches the caller as a `Yield`, exactly once and in
/// the order published, until the coroutine finishes. Publication order is call order, so a
/// yield made deep inside helper computations is reported exactly where it would be had the
/// helpers been inlined.
pub proof fn lemma_yields_reported_in_order<Y, T, R, F, C>(co: &Coroutine<Y, T, R, F, C>) where
    F: FnOnce(R) -> C,
    C: Suspendable<Y, R, T>,

    requires
        co.wf(),
        !co.is_finished(),
    ensures
        co.reported() == co.published(),
{
}

/// The first resumption returns the first event of whichever computation the initializer
/// built from the resume value: where every computation it may build finishes at once with
/// `v`, that is exactly `Complete(v)`, after which the coroutine is finished.
pub proof fn lemma_first_resume<Y, T, R, F, C>(f: F, resume: R, first: State<Y, T>, r: State<Y, T>) where
    F: FnOnce(R) -> C,
    C: Suspendable<Y, R, T>,

    requires
        forall|c: C| #[trigger] f.ensures((resume,), c) ==> c.event(seq![]) == first,
        exists|c: C| #[trigger] f.ensures((resume,), c) && r == c.event(seq![]),
    ensures
        r == first,
{
}

/// The running coroutine `co` behaves as the computation `c` does once it has read `fed`.
pub open spec fn behaves_as<Y, T, R, F, C>(co: Coroutine<Y, T, R, F, C>, c: C, fed: Seq<R>) -> bool where
    F: FnOnce(R) -> C,
    C: Suspendable<Y, R, T>,
 {
    !co.is_finished() ==> forall|rs: Seq<R>|
        #![trigger co.task().event(rs)]
        co.task().event(rs) == c.event(fed + rs)
}

/// Resuming a running coroutine follows its computation's model: if it behaves as `c` after
/// the resume values `fed`, a resumption with `resume` returns `c`'s event after `fed` and
/// `resume`, and leaves it behaving as `c` after both. From the first resumption on (which
/// builds `c` and returns its first event), the results are therefore `c`'s events in turn:
/// its yields in order, whatever resume values its logic ignores, then its final value; each
/// resume value reaches the yield the computation is paused at.
pub proof fn lemma_resume_follows_model<Y, T, R, F, C>(
    before: Coroutine<Y, T, R, F, C>,
    after: Coroutine<Y, T, R, F, C>,
    c: C,
    fed: Seq<R>,
    resume: R,
    r: State<Y, T>,
) where F: FnOnce(R) -> C, C: Suspendable<Y, R, T>
    requires
        before.is_started(),
        !before.is_finished(),
        behaves_as(before, c, fed),
        r == before.task().event(seq![resume]),
        !after.is_finished() ==> forall|rs: Seq<R>|
            #![trigger after.task().event(rs)]
            after.task().event(rs) == before.task().event(seq![resume] + rs),
    ensures
        r == c.event(fed.push(resume)),
        behaves_as(after, c, fed.push(resume)),
{
    assert(fed + seq![resume] =~= fed.push(resume));
    if !after.is_finished() {
        assert forall|rs: Seq<R>| #[trigger] after.task().event(rs) == c.event(fed.push(resume) + rs) by {
            assert(before.task().event(seq![resume] + rs) == c.event(fed + (seq![resume] + rs)));
            assert(fed + (seq![resume] + rs) =~= fed.push(resume) + rs);
        }
    }
}

/// Two running coroutines whose computations have the same model (say, one calls helpers that
/// yield through the handle, the other has those helpers inlined) answer the same resumption
/// with the same result: only the order of events matters, not how the work is nested.
pub proof fn lemma_same_model_same_results<Y, T, R, F1, C1, F2, C2>(
    before1: Coroutine<Y, T, R, F1, C1>,
    after1: Coroutine<Y, T, R, F1, C1>,
    c1: C1,
    before2: Coroutine<Y, T, R, F2, C2>,
    after2: Coroutine<Y, T, R, F2, C2>,
    c2: C2,
    fed: Seq<R>,
    resume: R,
    r1: State<Y, T>,
    r2: State<Y, T>,
) where F1: FnOnce(R) -> C1, C1: Suspendable<Y, R, T>, F2: FnOnce(R) -> C2, C2: Suspendable<Y, R, T>
    requires
        forall|rs: Seq<R>| #[trigger] c1.event(rs) == c2.event(rs),
        before1.is_started(),
        !before1.is_finished(),
        behaves_as(before1, c1, fed),
        r1 == before1.task().event(seq![resume]),
        !after1.is_finished() ==> forall|rs: Seq<R>|
            #![trigger after1.task().event(rs)]
            after1.task().event(rs) == before1.task().event(seq![resume] + rs),
        before2.is_started(),
        !before2.is_finished(),
        behaves_as(before2, c2, fed),
        r2 == before2.task().event(seq![resume]),
        !after2.is_finished() ==> forall|rs: Seq<R>|
            #![trigger after2.task().event(rs)]
            after2.task().event(rs) == before2.task().event(seq![resume] + rs),
    ensures
        r1 == r2,
{
    lemma_resume_follows_model(before1, after1, c1, fed, resume, r1);
    lemma_resume_follows_model(before2, after2, c2, fed, resume, r2);
    assert(c1.event(fed.push(resume)) == c2.event(fed.push(resume)));
}

impl<Y, T, F, C> Coroutine<Y, T, (), F, C> where F: FnOnce(()) -> C, C: Suspendable<Y, (), T> {
    /// Resumes a generator.
    pub fn resume(&mut self) -> (r: State<Y, T>)
        requires
            old(self).wf(),
            !old(self).is_finished(),
        ensures
            final(self).wf(),
            final(self).is_started(),
            r is Complete <==> final(self).is_finished(),
            r matches State::Yield(y) ==> final(self).reported() == old(self).reported().push(y),
            r is Complete ==> final(self).reported() == old(self).reported(),
            final(self).published() == old(self).published() ==> r is Complete,
            old(self).is_started() ==> final(self).received() == old(self).received().push(()),
            !old(self).is_started() ==> final(self).received() == old(self).received(),
            old(self).is_started() ==> {
                &&& r == old(self).task().event(seq![()])
                &&& !final(self).is_finished() ==> forall|rs: Seq<()>|
                    #![trigger final(self).task().event(rs)]
                    final(self).task().event(rs) == old(self).task().event(seq![()] + rs)
            },
            !old(self).is_started() ==> exists|c: C|
                #![trigger old(self).initializer().ensures(((),), c)]
                {
                    &&& old(self).initializer().ensures(((),), c)
                    &&& r == c.event(seq![])
                    &&& !final(self).is_finished() ==> forall|rs: Seq<()>|
                        #![trigger final(self).task().event(rs)]
                        final(self).task().event(rs) == c.event(rs)
                },
    {
        self.resume_with(())
    }
}

} // verus!
