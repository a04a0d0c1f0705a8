use vstd::prelude::*;

verus! {

/// Failures that stop the fuzzer, as opposed to a crash or a timeout of one run,
/// which are ordinary outcomes.
#[derive(Clone, Copy, Debug, PartialEq, Eq, Structural)]
pub enum Error {
    /// The helper process could not be started.
    LaunchFailure,
    /// The helper process sent an unexpected control word.
    ProtocolViolation,
    /// Options that cannot be combined.
    IllegalConfiguration,
}

} // verus!
