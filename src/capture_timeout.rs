use crate::corpus::Testcase;
use crate::error::Error;
use crate::exit_kind::ExitKind;
use crate::state::FuzzMetadata;
use vstd::prelude::*;

verus! {

/// Never interesting by itself: it records each timed-out input in the timeouts
/// queue, so that a later replay with a longer timeout can look at it again.
#[derive(Clone, Copy, Debug)]
pub struct CaptureTimeoutFeedback {}

impl CaptureTimeoutFeedback {
    pub fn new() -> (r: Self) {
        CaptureTimeoutFeedback {  }
    }

    pub fn name(&self) -> (r: &'static str)
        ensures
            r@ == "CaptureTimeoutFeedback"@,
    {
        "CaptureTimeoutFeedback"
    }

    /// Queues a copy of `input` when the run timed out; the verdict is always "no".
    pub fn is_interesting(
        &mut self,
        metadata: &mut FuzzMetadata,
        input: &Vec<u8>,
        exit_kind: &ExitKind,
    ) -> (r: Result<bool, Error>)
        ensures
            r == Ok::<bool, Error>(false),
            *exit_kind == ExitKind::Timeout ==> final(metadata).timeouts_initialized()
                && final(metadata).pending_timeouts() == old(metadata).pending_timeouts().push(
                input@,
            ) && final(metadata).executions_spec() == old(metadata).executions_spec(),
            *exit_kind != ExitKind::Timeout ==> *final(metadata) == *old(metadata),
    {
        if *exit_kind == ExitKind::Timeout {
            let copy = input.clone();
            proof {
                assert(copy@ =~= input@);
            }
            metadata.push_timeout(copy);
        }
        Ok(false)
    }

    /// Adds nothing to an admitted testcase.
    pub fn append_metadata(&mut self, testcase: &mut Testcase) -> (r: Result<(), Error>)
        ensures
            r is Ok,
            *final(testcase) == *old(testcase),
    {
        Ok(())
    }

    pub fn last_result(&self) -> (r: Result<bool, Error>)
        ensures
            r == Ok::<bool, Error>(false),
    {
        Ok(false)
    }
}

} // verus!
