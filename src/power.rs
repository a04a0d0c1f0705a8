use crate::corpus::Testcase;
use crate::error::Error;
use crate::state::FuzzMetadata;
use crate::testcase_score::{
    compute_score, handicap_after, iterations_for, iterations_spec, score_spec, CorpusStats,
    MAX_SCORE_CENTI,
};
use vstd::prelude::*;

verus! {

/// Changes an input in place; what it does is up to the implementation.
pub trait Mutator {
    fn mutate(&mut self, input: &mut Vec<u8>) -> (r: Result<(), Error>);
}

/// Runs an input once and hands the outcome to the feedbacks; `Ok(true)` when the
/// input was added to a corpus.
pub trait Evaluator {
    fn evaluate_input(&mut self, input: &Vec<u8>) -> Result<bool, Error>;
}

/// Remembers how many runs had happened when a stage began work on a testcase, so that
/// a stage resumed after a restart only does what is left.
#[derive(Clone, Copy, Debug, PartialEq, Eq, Structural)]
pub struct ExecutionCountRestartHelper {
    pub started_at_execs: Option<u64>,
}

impl ExecutionCountRestartHelper {
    pub fn new() -> (r: Self)
        ensures
            r.started_at_execs is None,
    {
        ExecutionCountRestartHelper { started_at_execs: None }
    }

    /// Runs since the progress started; the first call marks the start.
    pub fn execs_since_progress_start(&mut self, executions: u64) -> (r: u64)
        ensures
            final(self).started_at_execs == Some(
                match old(self).started_at_execs {
                    Some(s) => s,
                    None => executions,
                },
            ),
            r == match old(self).started_at_execs {
                Some(s) => if executions >= s {
                    (executions - s) as u64
                } else {
                    0
                },
                None => 0,
            },
    {
        match self.started_at_execs {
            Some(s) => {
                if executions >= s {
                    executions - s
                } else {
                    0
                }
            },
            None => {
                self.started_at_execs = Some(executions);
                0
            },
        }
    }

    /// Forgets the start, once the stage is done with the testcase.
    pub fn clear_progress(&mut self)
        ensures
            final(self).started_at_execs is None,
    {
        self.started_at_execs = None;
    }
}

pub const POWER_MUTATIONAL_STAGE_NAME: &'static str = "power";

/// One call of the mutator: the input handed over, the input it left, and its outcome.
pub type MutationRecord = (Seq<u8>, Seq<u8>, Result<(), Error>);

/// One call of the evaluator: the input handed over and its outcome.
pub type EvaluationRecord = (Seq<u8>, Result<bool, Error>);

/// What a run of the stage did, given its outcome `r`, the rounds owed `n`, the base
/// input, and the calls made: every round mutates a fresh copy of the base input and
/// evaluates exactly the mutant; rounds go on while both calls succeed, and stop at the
/// first failure, whose error is returned; success means all `n` rounds were made.
pub open spec fn rounds_made(
    r: Result<(), Error>,
    n: nat,
    input: Seq<u8>,
    m: Seq<MutationRecord>,
    e: Seq<EvaluationRecord>,
) -> bool {
    &&& m.len() <= n
    &&& forall|k: int| 0 <= k < m.len() ==> (#[trigger] m[k]).0 == input
    &&& forall|k: int| 0 <= k < e.len() ==> (#[trigger] e[k]).0 == m[k].1
    &&& match r {
        Ok(()) => {
            &&& m.len() == n
            &&& e.len() == n
            &&& forall|k: int| 0 <= k < n ==> (#[trigger] m[k]).2 is Ok && e[k].1 is Ok
        },
        Err(err) => {
            ||| {
                &&& m.len() == e.len() + 1
                &&& m[m.len() - 1].2 == Err::<(), Error>(err)
                &&& forall|k: int| 0 <= k < e.len() ==> (#[trigger] m[k]).2 is Ok && e[k].1 is Ok
            }
            ||| {
                &&& m.len() == e.len()
                &&& e.len() >= 1
                &&& e[e.len() - 1].1 == Err::<bool, Error>(err)
                &&& forall|k: int| 0 <= k < m.len() ==> (#[trigger] m[k]).2 is Ok
                &&& forall|k: int| 0 <= k < e.len() - 1 ==> (#[trigger] e[k]).1 is Ok
            }
        },
    }
}

/// Mutates the selected testcase as many times as its score buys, running each mutant.
pub struct PowerMutationalStage<M> {
    mutator: M,
    restart_helper: ExecutionCountRestartHelper,
    mutations: Ghost<Seq<MutationRecord>>,
    evaluations: Ghost<Seq<EvaluationRecord>>,
}

impl<M: Mutator> PowerMutationalStage<M> {
    pub closed spec fn mutator_spec(&self) -> M {
        self.mutator
    }

    pub closed spec fn restart_helper_spec(&self) -> ExecutionCountRestartHelper {
        self.restart_helper
    }

    /// The mutator calls of the latest `perform`, in order.
    pub closed spec fn mutations_spec(&self) -> Seq<MutationRecord> {
        self.mutations@
    }

    /// The evaluator calls of the latest `perform`, in order.
    pub closed spec fn evaluations_spec(&self) -> Seq<EvaluationRecord> {
        self.evaluations@
    }

    fn mutate_logged(&mut self, input: &mut Vec<u8>) -> (r: Result<(), Error>)
        ensures
            final(self).mutations_spec() == old(self).mutations_spec().push(
                (old(input)@, final(input)@, r),
            ),
            final(self).evaluations_spec() == old(self).evaluations_spec(),
            final(self).restart_helper_spec() == old(self).restart_helper_spec(),
    {
        let ghost given = input@;
        let r = self.mutator.mutate(input);
        self.mutations = Ghost(self.mutations@.push((given, input@, r)));
        r
    }

    fn evaluate_logged<Z: Evaluator>(&mut self, evaluator: &mut Z, input: &Vec<u8>) -> (r: Result<
        bool,
        Error,
    >)
        ensures
            final(self).evaluations_spec() == old(self).evaluations_spec().push((input@, r)),
            final(self).mutations_spec() == old(self).mutations_spec(),
            final(self).restart_helper_spec() == old(self).restart_helper_spec(),
            final(self).mutator_spec() == old(self).mutator_spec(),
    {
        let r = evaluator.evaluate_input(input);
        self.evaluations = Ghost(self.evaluations@.push((input@, r)));
        r
    }

    pub fn new(mutator: M) -> (r: Self)
        ensures
            r.mutator_spec() == mutator,
            r.restart_helper_spec().started_at_execs is None,
            r.mutations_spec() == Seq::<MutationRecord>::empty(),
            r.evaluations_spec() == Seq::<EvaluationRecord>::empty(),
    {
        PowerMutationalStage {
            mutator,
            restart_helper: ExecutionCountRestartHelper::new(),
            mutations: Ghost(Seq::empty()),
            evaluations: Ghost(Seq::empty()),
        }
    }

    pub fn name(&self) -> (r: &'static str)
        ensures
            r@ == POWER_MUTATIONAL_STAGE_NAME@,
    {
        POWER_MUTATIONAL_STAGE_NAME
    }

    pub fn mutator(&self) -> (r: &M)
        ensures
            *r == self.mutator_spec(),
    {
        &self.mutator
    }

    pub fn mutator_mut(&mut self) -> (r: &mut M)
        ensures
            *r == old(self).mutator_spec(),
            final(self).mutator_spec() == *final(r),
            final(self).restart_helper_spec() == old(self).restart_helper_spec(),
            final(self).mutations_spec() == old(self).mutations_spec(),
            final(self).evaluations_spec() == old(self).evaluations_spec(),
    {
        &mut self.mutator
    }

    /// The number of mutants for `testcase`: its score floored. Uses up part of the handicap.
    pub fn iterations(&self, testcase: &mut Testcase, stats: &CorpusStats) -> (r: usize)
        ensures
            r == iterations_spec(score_spec(*old(testcase), *stats)),
            final(testcase).handicap == handicap_after(old(testcase).handicap as int),
            final(testcase).input == old(testcase).input,
            final(testcase).exec_time_us == old(testcase).exec_time_us,
            final(testcase).bitmap_size == old(testcase).bitmap_size,
            final(testcase).scheduled_count == old(testcase).scheduled_count,
            final(testcase).is_initial_entry == old(testcase).is_initial_entry,
            final(testcase).filename == old(testcase).filename,
    {
        let score = compute_score(testcase, stats);
        iterations_for(score)
    }

    pub fn execs_since_progress_start(&mut self, executions: u64) -> (r: u64)
        ensures
            final(self).mutator_spec() == old(self).mutator_spec(),
            final(self).restart_helper_spec().started_at_execs == Some(
                match old(self).restart_helper_spec().started_at_execs {
                    Some(s) => s,
                    None => executions,
                },
            ),
            r == match old(self).restart_helper_spec().started_at_execs {
                Some(s) => if executions >= s {
                    (executions - s) as u64
                } else {
                    0
                },
                None => 0,
            },
    {
        self.restart_helper.execs_since_progress_start(executions)
    }

    /// Runs the mutate-and-evaluate rounds that `testcase` still has: its iterations less
    /// the runs counted since the progress started. Each round mutates a copy of the input
    /// and evaluates it. On success the progress is cleared; the first failing mutation or
    /// evaluation ends the stage with its error.
    pub fn perform<Z: Evaluator>(
        &mut self,
        evaluator: &mut Z,
        metadata: &mut FuzzMetadata,
        testcase: &mut Testcase,
        stats: &CorpusStats,
    ) -> (r: Result<(), Error>)
        requires
            old(metadata).executions_spec() + MAX_SCORE_CENTI / 100 <= u64::MAX,
        ensures
            final(testcase).handicap == handicap_after(old(testcase).handicap as int),
            final(testcase).input == old(testcase).input,
            rounds_made(
                r,
                Self::remaining_spec(
                    iterations_spec(score_spec(*old(testcase), *stats)),
                    old(self).restart_helper_spec().started_at_execs,
                    old(metadata).executions_spec(),
                ),
                old(testcase).input@,
                final(self).mutations_spec(),
                final(self).evaluations_spec(),
            ),
            final(metadata).executions_spec() == old(metadata).executions_spec()
                + final(self).evaluations_spec().len(),
            Self::remaining_spec(
                iterations_spec(score_spec(*old(testcase), *stats)),
                old(self).restart_helper_spec().started_at_execs,
                old(metadata).executions_spec(),
            ) == 0 ==> r is Ok && final(self).evaluations_spec().len() == 0
                && final(self).mutations_spec().len() == 0,
            r is Ok ==> final(self).restart_helper_spec().started_at_execs is None,
            final(metadata).pending_timeouts() == old(metadata).pending_timeouts(),
    {
        let num = self.iterations(testcase, stats);
        let executions = metadata.executions();
        let done = self.restart_helper.execs_since_progress_start(executions);
        let remaining: usize = if (num as u64) > done {
            ((num as u64) - done) as usize
        } else {
            0
        };
        self.mutations = Ghost(Seq::empty());
        self.evaluations = Ghost(Seq::empty());
        let ghost base = testcase.input@;
        let mut i: usize = 0;
        while i < remaining
            invariant
                i <= remaining,
                remaining <= MAX_SCORE_CENTI / 100,
                remaining as nat == Self::remaining_spec(
                    iterations_spec(score_spec(*old(testcase), *stats)),
                    old(self).restart_helper_spec().started_at_execs,
                    old(metadata).executions_spec(),
                ),
                base == old(testcase).input@,
                metadata.executions_spec() == old(metadata).executions_spec() + i,
                old(metadata).executions_spec() + MAX_SCORE_CENTI / 100 <= u64::MAX,
                metadata.pending_timeouts() == old(metadata).pending_timeouts(),
                testcase.input == old(testcase).input,
                testcase.handicap == handicap_after(old(testcase).handicap as int),
                self.mutations@.len() == i,
                self.evaluations@.len() == i,
                forall|k: int| 0 <= k < i ==> (#[trigger] self.mutations@[k]).0 == base,
                forall|k: int|
                    0 <= k < i ==> (#[trigger] self.evaluations@[k]).0 == self.mutations@[k].1,
                forall|k: int|
                    0 <= k < i ==> (#[trigger] self.mutations@[k]).2 is Ok
                        && self.evaluations@[k].1 is Ok,
            decreases remaining - i,
        {
            let mut input = testcase.input.clone();
            proof {
                assert(input@ =~= base);
            }
            let mutated = self.mutate_logged(&mut input);
            match mutated {
                Ok(()) => {},
                Err(e) => {
                    return Err(e);
                },
            }
            let outcome = self.evaluate_logged(evaluator, &input);
            metadata.count_execution();
            match outcome {
                Ok(_added) => {},
                Err(e) => {
                    return Err(e);
                },
            }
            i = i + 1;
        }
        self.restart_helper.clear_progress();
        Ok(())
    }

    /// Rounds still owed: `iterations` less the runs made since the recorded start.
    pub open spec fn remaining_spec(iterations: int, started: Option<u64>, executions: nat) -> nat {
        let done: int = match started {
            Some(s) => if executions >= s {
                executions - s
            } else {
                0
            },
            None => 0,
        };
        if iterations > done {
            (iterations - done) as nat
        } else {
            0
        }
    }

    /// This stage may always resume after a restart.
    pub fn restart_progress_should_run(&self) -> (r: bool)
        ensures
            r,
    {
        true
    }

    /// Progress is kept by the restart helper, which `perform` clears itself.
    pub fn clear_restart_progress(&self) -> (r: Result<(), Error>)
        ensures
            r is Ok,
    {
        Ok(())
    }
}

} // verus!
