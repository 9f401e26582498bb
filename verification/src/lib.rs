//! Deterministic test primitives for poll-driven cooperative computations.
//!
//! A computation here is anything that makes progress one resumption attempt
//! ("poll") at a time: each poll either finishes with the computation's output
//! or answers "not yet, poll me again".  The library provides three
//! primitives for exercising code against that protocol:
//!
//! - [`abort`] wraps a computation and cuts it off with a distinguishable
//!   [`Aborted`] failure after a caller-chosen number of polls, making the
//!   otherwise non-deterministic event of a caller abandoning an in-progress
//!   computation exactly reproducible;
//! - [`never`] yields a computation that never becomes ready but keeps asking
//!   to be polled again;
//! - [`after`] yields a computation that becomes ready with a held value only
//!   after a fixed number of polls.
//!
//! The library assumes an external cooperative scheduler that keeps polling a
//! computation until it is ready; [`drive`] is the simplest such scheduler
//! and is what the proofs and tests use to run a computation to completion.

use vstd::prelude::*;

verus! {

/// Outcome of a single resumption attempt ("poll") of a computation.
#[derive(Debug, PartialEq, Eq)]
pub enum Poll<T> {
    /// The computation finished with its output.
    Ready(T),
    /// The computation has not finished and asks to be polled again.
    Pending,
}

/// Failure reported by an [`Abort`] wrapper that gave up on its inner
/// computation.
#[derive(Debug)]
pub struct Aborted {
    /// The exact number of polls that were forwarded to the inner computation
    /// before it was cut off.
    pub num_polls: usize,
}

/// A cooperative, poll-driven computation.
///
/// The scheduler repeatedly calls [`Computation::poll`]; each call either
/// finishes with the computation's output (`Poll::Ready`) or asks to be
/// polled again (`Poll::Pending`).  A finished computation must not be polled
/// again.
///
/// Each implementor describes its own behaviour with three spec functions:
/// [`Computation::inv`] says when the computation is fit to be polled,
/// [`Computation::steps_left`] how many pending polls remain before it is
/// ready (`None` for one that never becomes ready), and
/// [`Computation::output`] which value it becomes ready with.
pub trait Computation: Sized {
    /// The value this computation eventually produces.
    type Output;

    /// The computation is fit to be polled.
    spec fn inv(&self) -> bool;

    /// How many polls will be answered `Pending` before one is answered
    /// `Ready`; `None` for a computation that never becomes ready.
    spec fn steps_left(&self) -> Option<nat>;

    /// The value the computation becomes ready with, when it ever is.
    spec fn output(&self) -> Self::Output;

    /// One resumption attempt.
    fn poll(&mut self) -> (r: Poll<Self::Output>)
        requires
            old(self).inv(),
        ensures
            old(self).steps_left() == Some(0nat) ==> (r matches Poll::Ready(v)
                && v == old(self).output()),
            old(self).steps_left() matches Some(k) ==> k > 0 ==> r is Pending
                && final(self).inv()
                && final(self).steps_left() == Some((k - 1) as nat)
                && final(self).output() == old(self).output(),
            old(self).steps_left() is None ==> (r is Pending
                && final(self).inv()
                && final(self).steps_left() is None),
    ;
}

/// A computation that never becomes ready: every poll is answered `Pending`,
/// which asks the scheduler to poll it again right away rather than to park
/// it waiting for an event.
pub struct Never;

impl Computation for Never {
    type Output = ();

    open spec fn inv(&self) -> bool {
        true
    }

    open spec fn steps_left(&self) -> Option<nat> {
        None
    }

    open spec fn output(&self) -> () {
        ()
    }

    fn poll(&mut self) -> (r: Poll<()>) {
        Poll::Pending
    }
}

/// Create a [`Never`] computation, which is never ready however often it is
/// polled.
pub fn never() -> (n: Never)
    ensures
        n.steps_left() is None,
{
    Never
}

/// A computation that is ready with a held value only after a fixed number
/// of polls.
///
/// The first `max_polls` polls are answered `Pending`, each asking to be
/// polled again right away; the next poll consumes the held value and is
/// answered `Ready` with it.  Once the value has been handed out the
/// computation is exhausted and must not be polled again.
pub struct After<T> {
    /// The held value; present until the computation becomes ready, consumed
    /// at that moment.
    pub value: Option<T>,
    /// How many polls have been answered `Pending` so far.
    pub num_polls: usize,
    /// How many polls are answered `Pending` before the value is produced.
    pub max_polls: usize,
}

impl<T> Computation for After<T> {
    type Output = T;

    open spec fn inv(&self) -> bool {
        self.value is Some && self.num_polls <= self.max_polls
    }

    open spec fn steps_left(&self) -> Option<nat> {
        Some((self.max_polls - self.num_polls) as nat)
    }

    open spec fn output(&self) -> T {
        self.value.unwrap()
    }

    fn poll(&mut self) -> (r: Poll<T>) {
        if self.num_polls >= self.max_polls {
            let value = self.value.take().unwrap();
            Poll::Ready(value)
        } else {
            self.num_polls = self.num_polls + 1;
            Poll::Pending
        }
    }
}

/// Create an [`After`] computation that is ready with `value` once it has
/// been polled `max_polls` times.
pub fn after<T>(value: T, max_polls: usize) -> (a: After<T>)
    ensures
        a.value == Some(value),
        a.num_polls == 0,
        a.max_polls == max_polls,
        a.inv(),
        a.steps_left() == Some(max_polls as nat),
        a.output() == value,
{
    After { value: Some(value), num_polls: 0, max_polls }
}

/// Wrapper that limits how many polls its inner computation may receive.
///
/// As long as fewer than `max_polls` polls have been forwarded, a poll of the
/// wrapper is passed straight through to the inner computation: the wrapper
/// is a pure pass-through counter and adds no re-scheduling of its own.  Once
/// `max_polls` polls have been forwarded without the inner computation
/// becoming ready, every further poll is answered `Ready` with
/// `Err(Aborted)` and the inner computation is never touched again — its
/// state stays frozen where its last real poll left it.
pub struct Abort<C: Computation> {
    /// How many polls have been forwarded to the inner computation so far.
    pub num_polls: usize,
    /// The greatest number of polls that will ever be forwarded.
    pub max_polls: usize,
    /// The wrapped computation.
    pub inner: C,
}

impl<C: Computation> Abort<C> {
    /// How many polls may still be forwarded to the inner computation.
    pub open spec fn budget(&self) -> nat {
        (self.max_polls - self.num_polls) as nat
    }

    /// The inner computation becomes ready strictly within the remaining
    /// budget, so the wrapper completes with its output rather than aborting.
    pub open spec fn completes(&self) -> bool {
        self.inner.steps_left() matches Some(k) && k < self.budget()
    }
}

impl<C: Computation> Computation for Abort<C> {
    type Output = Result<C::Output, Aborted>;

    open spec fn inv(&self) -> bool {
        self.num_polls <= self.max_polls
            && (self.num_polls < self.max_polls ==> self.inner.inv())
    }

    open spec fn steps_left(&self) -> Option<nat> {
        if self.completes() {
            self.inner.steps_left()
        } else {
            Some(self.budget())
        }
    }

    open spec fn output(&self) -> Result<C::Output, Aborted> {
        if self.completes() {
            Ok(self.inner.output())
        } else {
            Err(Aborted { num_polls: self.max_polls })
        }
    }

    fn poll(&mut self) -> (r: Poll<Result<C::Output, Aborted>>)
        ensures
            final(self).max_polls == old(self).max_polls,
            final(self).num_polls >= old(self).num_polls,
            final(self).num_polls <= final(self).max_polls,
            old(self).num_polls >= old(self).max_polls ==> final(self).num_polls
                == old(self).num_polls
                && final(self).inner == old(self).inner
                && (r matches Poll::Ready(res) && res matches Err(a)
                    && a.num_polls == old(self).num_polls),
            old(self).num_polls < old(self).max_polls ==> final(self).num_polls
                == old(self).num_polls + 1,
    {
        if self.num_polls >= self.max_polls {
            return Poll::Ready(Err(Aborted { num_polls: self.num_polls }));
        }
        self.num_polls = self.num_polls + 1;
        match self.inner.poll() {
            Poll::Ready(v) => Poll::Ready(Ok(v)),
            Poll::Pending => Poll::Pending,
        }
    }
}

/// Wrap `inner` so that at most `max_polls` polls are forwarded to it.
///
/// Driving the result either finishes with `Ok` of the inner computation's
/// output — when the inner computation is ready within the limit — or cuts
/// it off and finishes with `Err(Aborted)` carrying the exact number of
/// polls that were forwarded.
pub fn abort<C: Computation>(inner: C, max_polls: usize) -> (w: Abort<C>)
    ensures
        w.num_polls == 0,
        w.max_polls == max_polls,
        w.inner == inner,
        inner.inv() ==> w.inv(),
        w.steps_left() is Some,
{
    Abort { num_polls: 0, max_polls, inner }
}

/// Drive a computation to completion: poll it until it is ready and return
/// its output.
///
/// This is the simplest cooperative scheduler that satisfies the polling
/// protocol: a `Pending` answer is taken as a request to poll again right
/// away, which is exactly the re-scheduling each primitive here asks for.
/// Only a computation that becomes ready after finitely many polls can be
/// driven; wrapping one with [`abort`] always makes it so.
pub fn drive<C: Computation>(c: C) -> (r: C::Output)
    requires
        c.inv(),
        c.steps_left() is Some,
    ensures
        r == c.output(),
{
    let mut cur = c;
    loop
        invariant
            cur.inv(),
            cur.steps_left() is Some,
            cur.output() == c.output(),
        decreases
            cur.steps_left().unwrap(),
    {
        match cur.poll() {
            Poll::Ready(v) => {
                return v;
            },
            Poll::Pending => {},
        }
    }
}

/// With a limit of zero, a fresh wrapper is ready at once with an abort
/// report of zero forwarded polls, whatever the wrapped computation is: the
/// inner computation is never polled.
pub proof fn lemma_abort_zero_limit<C: Computation>(w: Abort<C>)
    requires
        w.num_polls == 0,
        w.max_polls == 0,
    ensures
        w.steps_left() == Some(0nat),
        w.output() matches Err(a) && a.num_polls == 0,
{
}

/// A computation that is ready on its very first poll completes under any
/// positive limit, and the wrapper hands its output through as `Ok`.
pub proof fn lemma_abort_first_poll_ok<C: Computation>(w: Abort<C>)
    requires
        w.num_polls == 0,
        w.max_polls >= 1,
        w.inner.steps_left() == Some(0nat),
    ensures
        w.steps_left() == Some(0nat),
        w.output() == Ok::<C::Output, Aborted>(w.inner.output()),
{
}

/// Wrapping a computation that never becomes ready, a fresh wrapper is
/// always cut off exactly at its limit and reports exactly that limit.
pub proof fn lemma_abort_never_ready<C: Computation>(w: Abort<C>)
    requires
        w.num_polls == 0,
        w.inner.steps_left() is None,
    ensures
        w.steps_left() == Some(w.max_polls as nat),
        w.output() matches Err(a) && a.num_polls == w.max_polls,
{
}

/// With a limit one above the number of polls the inner computation needs,
/// it becomes ready exactly one poll before the abort boundary, and the
/// wrapper completes with its output.
pub proof fn lemma_abort_just_in_time<C: Computation>(w: Abort<C>)
    requires
        w.num_polls == 0,
        w.inner.steps_left() matches Some(k) && w.max_polls == k + 1,
    ensures
        w.steps_left() == w.inner.steps_left(),
        w.output() == Ok::<C::Output, Aborted>(w.inner.output()),
{
}

/// With a limit equal to the number of polls the inner computation needs,
/// the wrapper cuts it off exactly one poll too early and reports the limit.
pub proof fn lemma_abort_one_too_early<C: Computation>(w: Abort<C>)
    requires
        w.num_polls == 0,
        w.inner.steps_left() == Some(w.max_polls as nat),
    ensures
        w.steps_left() == Some(w.max_polls as nat),
        w.output() matches Err(a) && a.num_polls == w.max_polls,
{
}

/// An abort report never claims more forwarded polls than the wrapper's
/// limit: whenever driving a wrapper ends in `Err`, the reported count is
/// exactly the limit.  (That the count also never decreases from one poll to
/// the next is part of the contract of [`Abort`]'s `poll` itself.)
pub proof fn lemma_abort_report_at_limit<C: Computation>(w: Abort<C>, a: Aborted)
    requires
        w.output() == Err::<C::Output, Aborted>(a),
    ensures
        a.num_polls == w.max_polls,
{
}

} // verus!
