use vstd::prelude::*;

verus! {

/// How one execution of the target ended.
#[derive(Clone, Copy, Debug, PartialEq, Eq, Structural)]
pub enum ExitKind {
    Normal,
    Crash,
    Timeout,
    OutOfMemory,
}

} // verus!
