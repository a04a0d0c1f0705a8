use crate::error::Error;
use crate::exit_kind::ExitKind;
use crate::executor::{Executor, TimeoutExecutor};
use crate::state::FuzzMetadata;
use std::collections::VecDeque;
use vstd::prelude::*;

verus! {

/// Inputs whose run timed out, waiting to be replayed with a longer timeout.
/// First in, first out.
#[derive(Clone, Debug)]
pub struct TimeoutsToVerify<I> {
    inputs: VecDeque<I>,
}

impl<I> View for TimeoutsToVerify<I> {
    type V = Seq<I>;

    closed spec fn view(&self) -> Seq<I> {
        self.inputs@
    }
}

impl<I> TimeoutsToVerify<I> {
    pub fn new() -> (r: Self)
        ensures
            r@ == Seq::<I>::empty(),
    {
        TimeoutsToVerify { inputs: VecDeque::new() }
    }

    pub fn push(&mut self, input: I)
        ensures
            final(self)@ == old(self)@.push(input),
    {
        self.inputs.push_back(input);
    }

    pub fn pop(&mut self) -> (r: Option<I>)
        ensures
            old(self)@.len() == 0 ==> r is None && final(self)@ == old(self)@,
            old(self)@.len() > 0 ==> r == Some(old(self)@[0]) && final(self)@ == old(self)@.drop_first(),
    {
        self.inputs.pop_front()
    }

    pub fn is_empty(&self) -> (r: bool)
        ensures
            r == (self@.len() == 0),
    {
        self.inputs.len() == 0
    }

    pub fn len(&self) -> (r: usize)
        ensures
            r == self@.len(),
    {
        self.inputs.len()
    }
}

/// The runs that replaying `inputs` with `timeout_ms` makes, in order.
pub open spec fn replays(inputs: Seq<Seq<u8>>, timeout_ms: u64) -> Seq<(Seq<u8>, u64)> {
    inputs.map_values(|i: Seq<u8>| (i, timeout_ms))
}

/// Whether every outcome from index `from` up to `to` is `Ok`.
pub open spec fn all_ok(o: Seq<Result<ExitKind, Error>>, from: int, to: int) -> bool {
    forall|j: int| from <= j < to ==> (#[trigger] o[j]) is Ok
}

/// What a replay of queue `q` with timeout `t` did, given its result `r`, the executor's
/// runs and outcomes before (`runs0`, `o0`) and after (`runs`, `o`): on success every
/// queued input ran, in order, and every run succeeded; on an error the inputs ran in
/// order up to the first run that failed, and that run's error is the result.
pub open spec fn replayed(
    r: Result<(), Error>,
    q: Seq<Seq<u8>>,
    t: u64,
    runs0: Seq<(Seq<u8>, u64)>,
    runs: Seq<(Seq<u8>, u64)>,
    o0: Seq<Result<ExitKind, Error>>,
    o: Seq<Result<ExitKind, Error>>,
) -> bool {
    match r {
        Ok(()) => {
            &&& runs == runs0 + replays(q, t)
            &&& o.len() == o0.len() + q.len()
            &&& o.take(o0.len() as int) == o0
            &&& all_ok(o, o0.len() as int, o.len() as int)
        },
        Err(e) => exists|k: int|
            #![trigger q.take(k)]
            {
                &&& 0 < k <= q.len()
                &&& runs == runs0 + replays(q.take(k), t)
                &&& o.len() == o0.len() + k
                &&& o.take(o0.len() as int) == o0
                &&& all_ok(o, o0.len() as int, o.len() - 1)
                &&& o[o.len() - 1] == Err::<ExitKind, Error>(e)
            },
    }
}

proof fn lemma_replays_step(q: Seq<Seq<u8>>, k: int, t: u64)
    requires
        0 <= k < q.len(),
    ensures
        replays(q.take(k + 1), t) == replays(q.take(k), t).push((q[k], t)),
        q.skip(k)[0] == q[k],
{
    assert(replays(q.take(k + 1), t) =~= replays(q.take(k), t).push((q[k], t)));
}

/// The stage state: the timeout used for the replays, twice the configured one.
#[derive(Clone, Copy, Debug)]
pub struct VerifyTimeoutsStage {
    doubled_timeout_ms: u64,
    original_timeout_ms: u64,
}

impl VerifyTimeoutsStage {
    pub closed spec fn doubled_timeout_spec(&self) -> u64 {
        self.doubled_timeout_ms
    }

    pub closed spec fn original_timeout_spec(&self) -> u64 {
        self.original_timeout_ms
    }

    /// A stage for a fuzzer whose timeout is `configured_timeout_ms` milliseconds.
    pub fn new(configured_timeout_ms: u64) -> (r: Self)
        requires
            configured_timeout_ms <= u64::MAX / 2,
        ensures
            r.original_timeout_spec() == configured_timeout_ms,
            r.doubled_timeout_spec() == 2 * configured_timeout_ms,
    {
        VerifyTimeoutsStage {
            doubled_timeout_ms: configured_timeout_ms * 2,
            original_timeout_ms: configured_timeout_ms,
        }
    }

    pub fn doubled_timeout(&self) -> (r: u64)
        ensures
            r == self.doubled_timeout_spec(),
    {
        self.doubled_timeout_ms
    }

    pub fn original_timeout(&self) -> (r: u64)
        ensures
            r == self.original_timeout_spec(),
    {
        self.original_timeout_ms
    }

    /// Replays every pending timeout, oldest first, with the doubled timeout, then empties
    /// the queue. The executor's timeout is put back to what it was, also when a run
    /// fails; the first failing run ends the replay and its error is returned.
    pub fn perform<E: Executor>(
        &self,
        executor: &mut TimeoutExecutor<E>,
        metadata: &mut FuzzMetadata) -> (r: Result<
        (),
        Error,
    >)
        ensures
            final(executor).timeout_spec() == old(executor).timeout_spec(),
            final(metadata).pending_timeouts() == Seq::<Seq<u8>>::empty(),
            final(metadata).timeouts_initialized(),
            final(metadata).executions_spec() == old(metadata).executions_spec(),
            replayed(
                r,
                old(metadata).pending_timeouts(),
                self.doubled_timeout_spec(),
                old(executor).runs_spec(),
                final(executor).runs_spec(),
                old(executor).outcomes_spec(),
                final(executor).outcomes_spec(),
            ),
    {
        let before = executor.timeout();
        let ghost queued = metadata.pending_timeouts();
        let ghost runs0 = executor.runs_spec();
        let ghost o0 = executor.outcomes_spec();
        let mut pending = metadata.take_timeouts();
        executor.set_timeout(self.doubled_timeout_ms);
        let mut result: Result<(), Error> = Ok(());
        let mut done = false;
        while !done
            invariant
                executor.timeout_spec() == self.doubled_timeout_spec(),
                !done ==> result is Ok,
                !done ==> {
                    let k = queued.len() - pending@.len();
                    &&& 0 <= k <= queued.len()
                    &&& pending@.map_values(|v: Vec<u8>| v@) == queued.skip(k)
                    &&& executor.runs_spec() == runs0 + replays(queued.take(k), self.doubled_timeout_spec())
                    &&& executor.outcomes_spec().len() == o0.len() + k
                    &&& executor.outcomes_spec().take(o0.len() as int) == o0
                    &&& all_ok(executor.outcomes_spec(), o0.len() as int, executor.outcomes_spec().len() as int)
                },
                done ==> replayed(
                    result,
                    queued,
                    self.doubled_timeout_spec(),
                    runs0,
                    executor.runs_spec(),
                    o0,
                    executor.outcomes_spec(),
                ),
            decreases pending@.len() + (if done { 0int } else { 1int }),
        {
            let ghost k = queued.len() - pending@.len();
            let ghost rest = pending@;
            match pending.pop() {
                Some(input) => {
                    proof {
                        lemma_replays_step(queued, k, self.doubled_timeout_spec());
                        assert(rest.map_values(|v: Vec<u8>| v@)[0] == input@);
                        assert(rest.map_values(|v: Vec<u8>| v@).skip(1) =~= queued.skip(k + 1));
                        assert(pending@.map_values(|v: Vec<u8>| v@) =~= rest.map_values(
                            |v: Vec<u8>| v@,
                        ).skip(1));
                    }
                    let ghost o_before = executor.outcomes_spec();
                    let outcome = executor.run_target(&input);
                    proof {
                        assert(executor.outcomes_spec().take(o0.len() as int) =~= o0);
                    }
                    match outcome {
                        Ok(_exit_kind) => {},
                        Err(e) => {
                            result = Err(e);
                            done = true;
                            proof {
                                assert(0 < k + 1 <= queued.len());
                            }
                        },
                    }
                },
                None => {
                    proof {
                        assert(queued.take(k) =~= queued);
                    }
                    done = true;
                },
            }
        }
        executor.set_timeout(before);
        metadata.reset_timeouts();
        result
    }

    /// The stage keeps no progress of its own to forget.
    pub fn clear_progress(&self) -> (r: Result<(), Error>)
        ensures
            r is Ok,
    {
        Ok(())
    }

    /// Changing the timeout must not straddle a restart of the fuzzer.
    pub fn should_restart(&self) -> (r: bool)
        ensures
            r,
    {
        true
    }
}

} // verus!
