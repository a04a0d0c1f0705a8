use crate::error::Error;
use crate::exit_kind::ExitKind;
use vstd::prelude::*;

verus! {

/// Runs the target once on an input, within the given timeout. A crash or a timeout is
/// an `Ok` outcome; an `Err` means that the executor itself failed.
pub trait Executor {
    fn run_target(&mut self, input: &Vec<u8>, timeout_ms: u64) -> Result<ExitKind, Error>;
}

/// An executor with a timeout that stays set until it is changed again.
pub struct TimeoutExecutor<E> {
    timeout_ms: u64,
    inner: E,
    runs: Ghost<Seq<(Seq<u8>, u64)>>,
    outcomes: Ghost<Seq<Result<ExitKind, Error>>>,
}

impl<E: Executor> TimeoutExecutor<E> {
    pub closed spec fn timeout_spec(&self) -> u64 {
        self.timeout_ms
    }

    pub closed spec fn inner_spec(&self) -> E {
        self.inner
    }

    /// Every run so far: its input and the timeout it had, oldest first.
    pub closed spec fn runs_spec(&self) -> Seq<(Seq<u8>, u64)> {
        self.runs@
    }

    /// What every run so far returned, oldest first.
    pub closed spec fn outcomes_spec(&self) -> Seq<Result<ExitKind, Error>> {
        self.outcomes@
    }

    pub fn new(inner: E, timeout_ms: u64) -> (r: Self)
        ensures
            r.timeout_spec() == timeout_ms,
            r.inner_spec() == inner,
            r.runs_spec() == Seq::<(Seq<u8>, u64)>::empty(),
            r.outcomes_spec() == Seq::<Result<ExitKind, Error>>::empty(),
    {
        TimeoutExecutor { timeout_ms, inner, runs: Ghost(Seq::empty()), outcomes: Ghost(Seq::empty()) }
    }

    pub fn timeout(&self) -> (r: u64)
        ensures
            r == self.timeout_spec(),
    {
        self.timeout_ms
    }

    pub fn set_timeout(&mut self, timeout_ms: u64)
        ensures
            final(self).timeout_spec() == timeout_ms,
            final(self).inner_spec() == old(self).inner_spec(),
            final(self).runs_spec() == old(self).runs_spec(),
            final(self).outcomes_spec() == old(self).outcomes_spec(),
    {
        self.timeout_ms = timeout_ms;
    }

    pub fn inner(&self) -> (r: &E)
        ensures
            *r == self.inner_spec(),
    {
        &self.inner
    }

    /// Runs `input` with the current timeout, which the run leaves as it is.
    pub fn run_target(&mut self, input: &Vec<u8>) -> (r: Result<ExitKind, Error>)
        ensures
            final(self).timeout_spec() == old(self).timeout_spec(),
            final(self).runs_spec() == old(self).runs_spec().push((input@, old(self).timeout_spec())),
            final(self).outcomes_spec() == old(self).outcomes_spec().push(r),
    {
        self.runs = Ghost(self.runs@.push((input@, self.timeout_ms)));
        let r = self.inner.run_target(input, self.timeout_ms);
        self.outcomes = Ghost(self.outcomes@.push(r));
        r
    }
}

} // verus!
