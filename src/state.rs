use crate::verify_timeouts::TimeoutsToVerify;
use vstd::prelude::*;

verus! {

/// Facts the fuzzer keeps beside its corpora, one slot per kind.
#[derive(Clone, Debug)]
pub struct FuzzMetadata {
    timeouts: Option<TimeoutsToVerify<Vec<u8>>>,
    executions: u64,
}

impl FuzzMetadata {
    /// Whether the timeouts queue has been created.
    pub closed spec fn timeouts_initialized(&self) -> bool {
        self.timeouts is Some
    }

    /// The inputs waiting for a replay, oldest first; none before the queue exists.
    pub closed spec fn pending_timeouts(&self) -> Seq<Seq<u8>> {
        match self.timeouts {
            Some(t) => t@.map_values(|v: Vec<u8>| v@),
            None => Seq::empty(),
        }
    }

    /// Runs of the target counted so far.
    pub closed spec fn executions_spec(&self) -> nat {
        self.executions as nat
    }

    pub fn new() -> (r: Self)
        ensures
            !r.timeouts_initialized(),
            r.pending_timeouts() == Seq::<Seq<u8>>::empty(),
            r.executions_spec() == 0,
    {
        FuzzMetadata { timeouts: None, executions: 0 }
    }

    pub fn executions(&self) -> (r: u64)
        ensures
            r == self.executions_spec(),
    {
        self.executions
    }

    /// Counts one more run.
    pub fn count_execution(&mut self)
        requires
            old(self).executions_spec() < u64::MAX,
        ensures
            final(self).executions_spec() == old(self).executions_spec() + 1,
            final(self).pending_timeouts() == old(self).pending_timeouts(),
            final(self).timeouts_initialized() == old(self).timeouts_initialized(),
    {
        self.executions = self.executions + 1;
    }

    /// Appends an input to the timeouts queue, creating the queue if needed.
    pub fn push_timeout(&mut self, input: Vec<u8>)
        ensures
            final(self).timeouts_initialized(),
            final(self).pending_timeouts() == old(self).pending_timeouts().push(input@),
            final(self).executions_spec() == old(self).executions_spec(),
    {
        let mut t = match self.timeouts.take() {
            Some(t) => t,
            None => TimeoutsToVerify::new(),
        };
        let ghost before = t@;
        t.push(input);
        proof {
            assert(t@.map_values(|v: Vec<u8>| v@) =~= before.map_values(|v: Vec<u8>| v@).push(
                input@,
            ));
        }
        self.timeouts = Some(t);
    }

    /// Hands out the pending inputs and leaves an empty queue behind.
    pub fn take_timeouts(&mut self) -> (r: TimeoutsToVerify<Vec<u8>>)
        ensures
            r@.map_values(|v: Vec<u8>| v@) == old(self).pending_timeouts(),
            final(self).timeouts_initialized(),
            final(self).pending_timeouts() == Seq::<Seq<u8>>::empty(),
            final(self).executions_spec() == old(self).executions_spec(),
    {
        let t = match self.timeouts.take() {
            Some(t) => t,
            None => TimeoutsToVerify::new(),
        };
        self.timeouts = Some(TimeoutsToVerify::new());
        proof {
            assert(t@.map_values(|v: Vec<u8>| v@) =~= old(self).pending_timeouts());
            assert(Seq::<Vec<u8>>::empty().map_values(|v: Vec<u8>| v@) =~= Seq::<Seq<u8>>::empty());
        }
        t
    }

    /// Empties the timeouts queue, creating it if needed.
    pub fn reset_timeouts(&mut self)
        ensures
            final(self).timeouts_initialized(),
            final(self).pending_timeouts() == Seq::<Seq<u8>>::empty(),
            final(self).executions_spec() == old(self).executions_spec(),
    {
        self.timeouts = Some(TimeoutsToVerify::new());
        proof {
            assert(Seq::<Vec<u8>>::empty().map_values(|v: Vec<u8>| v@) =~= Seq::<Seq<u8>>::empty());
        }
    }

    /// The number of inputs waiting for a replay.
    pub fn pending_len(&self) -> (r: usize)
        ensures
            r == self.pending_timeouts().len(),
    {
        match &self.timeouts {
            Some(t) => t.len(),
            None => 0,
        }
    }
}

} // verus!
