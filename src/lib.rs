//! Pull-based coroutines: a suspendable computation driven one step at a time, handing out
//! yielded values and taking resume values back through a pair of one-slot mailboxes.

mod coroutine;
mod executor;
mod mailbox;
mod state;
mod yield_now;

pub use crate::coroutine::{
    behaves_as, lemma_first_resume, lemma_resume_follows_model, lemma_same_model_same_results,
    lemma_yields_reported_in_order, Coroutine, Generator,
};
pub use crate::executor::{input_of, stepped, Executor, Suspendable};
pub use crate::mailbox::{slot_seq, Mailbox, Yield, YieldHandle};
pub use crate::state::{lemma_settled_exact, settle, settled, State};
pub use crate::yield_now::{yield_now, Poll, YieldNow};
