use coroutines::{
    settle, yield_now, Coroutine, Mailbox, Poll, State, Suspendable, Yield, YieldHandle, YieldNow,
};

#[test]
fn mailbox_put_then_take() {
    let mut m: Mailbox<i32> = Mailbox::new();
    assert!(m.is_empty());
    m.put(7);
    assert!(!m.is_empty());
    assert_eq!(m.take(), Some(7));
    assert!(m.is_empty());
    assert_eq!(m.take(), None);
}

#[test]
fn mailbox_replace_overwrites() {
    let mut m: Mailbox<&str> = Mailbox::new();
    m.replace("a");
    m.replace("b");
    assert_eq!(m.take(), Some("b"));
}

#[test]
fn signal_pauses_exactly_once() {
    let mut s = yield_now();
    assert_eq!(s.poll(), Poll::Pending);
    assert_eq!(s.poll(), Poll::Ready(()));
    assert_eq!(s.poll(), Poll::Ready(()));
}

#[test]
fn state_accessors() {
    let y: State<i32, &str> = State::Yield(3);
    let c: State<i32, &str> = State::Complete("done");
    assert_eq!(y.as_yield(), Some(&3));
    assert_eq!(y.as_complete(), None);
    assert!(y.is_yield());
    assert!(!y.is_complete());
    assert_eq!(c.as_yield(), None);
    assert_eq!(c.as_complete(), Some(&"done"));
    assert!(c.is_complete());
    assert!(!c.is_yield());
}

#[test]
fn state_value_either_way() {
    let y: State<u8, u8> = State::Yield(1);
    let c: State<u8, u8> = State::Complete(2);
    assert_eq!(y.value(), 1);
    assert_eq!(c.value(), 2);
}

#[test]
fn settle_decides_each_outcome() {
    assert_eq!(settle::<i32, &str>(Poll::Ready("t"), None), Some(State::Complete("t")));
    assert_eq!(settle::<i32, &str>(Poll::Ready("t"), Some(4)), Some(State::Complete("t")));
    assert_eq!(settle::<i32, &str>(Poll::Pending, Some(4)), Some(State::Yield(4)));
    assert_eq!(settle::<i32, &str>(Poll::Pending, None), None);
}

/// Finishes at once with a fixed value.
struct Immediate(Option<u32>);

impl Suspendable<u32, (), u32> for Immediate {
    fn live(&self) -> bool {
        self.0.is_some()
    }

    fn awaits_resume(&self) -> bool {
        false
    }

    fn poll(&mut self, _handle: &mut YieldHandle<u32, ()>) -> Poll<u32> {
        Poll::Ready(self.0.take().unwrap())
    }
}

#[test]
fn never_yielding_completes_on_first_resume() {
    let mut g = Coroutine::new(|()| Immediate(Some(5)));
    assert_eq!(g.resume(), State::Complete(5));
}

/// Yields the given values in order, then finishes with `result`.
struct Emit {
    values: Vec<i64>,
    index: usize,
    op: Option<Yield<i64>>,
    result: &'static str,
}

impl Suspendable<i64, i64, &'static str> for Emit {
    fn live(&self) -> bool {
        self.index <= self.values.len()
    }

    fn awaits_resume(&self) -> bool {
        self.op.is_some()
    }

    fn poll(&mut self, handle: &mut YieldHandle<i64, i64>) -> Poll<&'static str> {
        if let Some(op) = &mut self.op {
            if let Poll::Ready(_) = op.poll(handle) {
                self.op = None;
                self.index += 1;
            }
        }
        if self.index < self.values.len() {
            let mut op = handle.yield_(self.values[self.index]);
            let _ = op.poll(handle);
            self.op = Some(op);
            Poll::Pending
        } else {
            Poll::Ready(self.result)
        }
    }
}

#[test]
fn yields_come_out_in_order_whatever_the_resumes() {
    let values = vec![3, -1, 3, 0];
    let mut co = Coroutine::new(move |_first: i64| Emit { values, index: 0, op: None, result: "end" });
    assert_eq!(co.resume_with(100), State::Yield(3));
    assert_eq!(co.resume_with(-5), State::Yield(-1));
    assert_eq!(co.resume_with(0), State::Yield(3));
    assert_eq!(co.resume_with(9), State::Yield(0));
    assert_eq!(co.resume_with(1), State::Complete("end"));
}

/// First yield `a + 1` from the initial value, then `b * 2`, then finish with `c + 7`.
struct Refine {
    initial: i64,
    stage: u8,
    op: Option<Yield<i64>>,
}

impl Suspendable<i64, i64, i64> for Refine {
    fn live(&self) -> bool {
        self.stage < 3
    }

    fn awaits_resume(&self) -> bool {
        self.op.is_some()
    }

    fn poll(&mut self, handle: &mut YieldHandle<i64, i64>) -> Poll<i64> {
        let got = match &mut self.op {
            Some(op) => match op.poll(handle) {
                Poll::Ready(r) => r,
                Poll::Pending => return Poll::Pending,
            },
            None => self.initial,
        };
        self.stage += 1;
        let next = match self.stage {
            1 => got + 1,
            2 => got * 2,
            _ => return Poll::Ready(got + 7),
        };
        let mut op = handle.yield_(next);
        let _ = op.poll(handle);
        self.op = Some(op);
        Poll::Pending
    }
}

#[test]
fn resume_values_reach_the_paused_yield() {
    let mut co = Coroutine::new(|a: i64| Refine { initial: a, stage: 0, op: None });
    assert_eq!(co.resume_with(10), State::Yield(11));
    assert_eq!(co.resume_with(-3), State::Yield(-6));
    assert_eq!(co.resume_with(100), State::Complete(107));
}

/// Pauses once on a bare signal, publishing nothing, then yields 8 and finishes with the
/// resume value it gets back.
struct PauseThenYield {
    signal: YieldNow,
    op: Option<Yield<u8>>,
}

impl Suspendable<u8, u8, u8> for PauseThenYield {
    fn live(&self) -> bool {
        true
    }

    fn awaits_resume(&self) -> bool {
        self.op.is_some()
    }

    fn poll(&mut self, handle: &mut YieldHandle<u8, u8>) -> Poll<u8> {
        if let Poll::Pending = self.signal.poll() {
            return Poll::Pending;
        }
        if self.op.is_none() {
            self.op = Some(handle.yield_(8));
        }
        self.op.as_mut().unwrap().poll(handle)
    }
}

#[test]
fn pause_without_yield_is_stepped_over() {
    let mut co = Coroutine::new(|_: u8| PauseThenYield { signal: yield_now(), op: None });
    assert_eq!(co.resume_with(1), State::Yield(8));
    assert_eq!(co.resume_with(30), State::Complete(30));
}
