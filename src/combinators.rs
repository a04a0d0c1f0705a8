use crate::exit_kind::ExitKind;
use crate::map_feedback::{has_new_coverage, is_objective_kind, merged, MaxMapFeedback};
use vstd::prelude::*;

verus! {

/// An admission policy: a boolean expression over primitive feedbacks.
#[derive(Debug)]
pub enum FeedbackExpr {
    /// The run reaches coverage beyond what this map has recorded.
    NewCoverage(MaxMapFeedback),
    /// The run crashed.
    Crash,
    /// The run timed out.
    Timeout,
    /// A fixed verdict, for switching part of a policy on or off.
    Const(bool),
    /// Both sides hold; both are always evaluated.
    And(Box<FeedbackExpr>, Box<FeedbackExpr>),
    /// Either side holds; both are always evaluated.
    Or(Box<FeedbackExpr>, Box<FeedbackExpr>),
    /// Either side holds; the right side is skipped once the left holds.
    OrFast(Box<FeedbackExpr>, Box<FeedbackExpr>),
}

impl FeedbackExpr {
    /// Nesting depth of the expression.
    pub open spec fn depth(&self) -> nat
        decreases self,
    {
        match self {
            FeedbackExpr::And(a, b) => 1 + if a.depth() > b.depth() {
                a.depth()
            } else {
                b.depth()
            },
            FeedbackExpr::Or(a, b) => 1 + if a.depth() > b.depth() {
                a.depth()
            } else {
                b.depth()
            },
            FeedbackExpr::OrFast(a, b) => 1 + if a.depth() > b.depth() {
                a.depth()
            } else {
                b.depth()
            },
            _ => 0,
        }
    }

    /// Whether every coverage map in the policy has `len` entries.
    pub open spec fn fits(&self, len: nat) -> bool
        decreases self,
    {
        match self {
            FeedbackExpr::NewCoverage(m) => m.history_spec().len() == len,
            FeedbackExpr::And(a, b) => a.fits(len) && b.fits(len),
            FeedbackExpr::Or(a, b) => a.fits(len) && b.fits(len),
            FeedbackExpr::OrFast(a, b) => a.fits(len) && b.fits(len),
            _ => true,
        }
    }

    /// The verdict of the policy on one run.
    pub open spec fn verdict(&self, exit_kind: ExitKind, map: Seq<u8>) -> bool
        decreases self,
    {
        match self {
            FeedbackExpr::NewCoverage(m) => has_new_coverage(map, m.history_spec()),
            FeedbackExpr::Crash => exit_kind == ExitKind::Crash,
            FeedbackExpr::Timeout => exit_kind == ExitKind::Timeout,
            FeedbackExpr::Const(b) => *b,
            FeedbackExpr::And(a, b) => a.verdict(exit_kind, map) && b.verdict(exit_kind, map),
            FeedbackExpr::Or(a, b) => a.verdict(exit_kind, map) || b.verdict(exit_kind, map),
            FeedbackExpr::OrFast(a, b) => a.verdict(exit_kind, map) || b.verdict(exit_kind, map),
        }
    }

    /// Whether `after` is this policy with an admitted run's map recorded in every
    /// coverage map, and nothing else changed.
    pub open spec fn records(&self, after: FeedbackExpr, map: Seq<u8>) -> bool
        decreases self,
    {
        match (*self, after) {
            (FeedbackExpr::NewCoverage(m1), FeedbackExpr::NewCoverage(m2)) => m2.history_spec()
                == merged(map, m1.history_spec()),
            (FeedbackExpr::Crash, FeedbackExpr::Crash) => true,
            (FeedbackExpr::Timeout, FeedbackExpr::Timeout) => true,
            (FeedbackExpr::Const(x), FeedbackExpr::Const(y)) => x == y,
            (FeedbackExpr::And(a1, b1), FeedbackExpr::And(a2, b2)) => a1.records(*a2, map)
                && b1.records(*b2, map),
            (FeedbackExpr::Or(a1, b1), FeedbackExpr::Or(a2, b2)) => a1.records(*a2, map)
                && b1.records(*b2, map),
            (FeedbackExpr::OrFast(a1, b1), FeedbackExpr::OrFast(a2, b2)) => a1.records(*a2, map)
                && b1.records(*b2, map),
            _ => false,
        }
    }

    /// The verdict on one run; no map is changed.
    pub fn is_interesting(&self, exit_kind: &ExitKind, map: &Vec<u8>) -> (r: bool)
        requires
            self.fits(map@.len()),
        ensures
            r == self.verdict(*exit_kind, map@),
        decreases self,
    {
        match self {
            FeedbackExpr::NewCoverage(m) => m.is_interesting(map),
            FeedbackExpr::Crash => *exit_kind == ExitKind::Crash,
            FeedbackExpr::Timeout => *exit_kind == ExitKind::Timeout,
            FeedbackExpr::Const(b) => *b,
            FeedbackExpr::And(a, b) => {
                let x = a.is_interesting(exit_kind, map);
                let y = b.is_interesting(exit_kind, map);
                x && y
            },
            FeedbackExpr::Or(a, b) => {
                let x = a.is_interesting(exit_kind, map);
                let y = b.is_interesting(exit_kind, map);
                x || y
            },
            FeedbackExpr::OrFast(a, b) => {
                if a.is_interesting(exit_kind, map) {
                    true
                } else {
                    b.is_interesting(exit_kind, map)
                }
            },
        }
    }

    /// Records an admitted run's map in every coverage map of the policy.
    pub fn append_metadata(&mut self, map: &Vec<u8>)
        requires
            old(self).fits(map@.len()),
        ensures
            old(self).records(*final(self), map@),
            final(self).fits(map@.len()),
        decreases old(self).depth(),
    {
        match self {
            FeedbackExpr::NewCoverage(m) => {
                m.append_metadata(map);
            },
            FeedbackExpr::And(a, b) => {
                a.append_metadata(map);
                b.append_metadata(map);
            },
            FeedbackExpr::Or(a, b) => {
                a.append_metadata(map);
                b.append_metadata(map);
            },
            FeedbackExpr::OrFast(a, b) => {
                a.append_metadata(map);
                b.append_metadata(map);
            },
            _ => {},
        }
    }

    /// Evaluates one run, and records its map where it is admitted.
    pub fn evaluate(&mut self, exit_kind: &ExitKind, map: &Vec<u8>) -> (r: bool)
        requires
            old(self).fits(map@.len()),
        ensures
            r == old(self).verdict(*exit_kind, map@),
            r ==> old(self).records(*final(self), map@),
            !r ==> *final(self) == *old(self),
    {
        let r = self.is_interesting(exit_kind, map);
        if r {
            self.append_metadata(map);
        }
        r
    }
}

/// The objective policy: a crash, or a timeout while timeouts count, that also reaches
/// new coverage in the objective map.
pub open spec fn objective_policy(ignore_timeouts: bool, map: MaxMapFeedback) -> FeedbackExpr {
    FeedbackExpr::And(
        Box::new(
            FeedbackExpr::OrFast(
                Box::new(FeedbackExpr::Crash),
                Box::new(
                    FeedbackExpr::And(
                        Box::new(FeedbackExpr::Const(!ignore_timeouts)),
                        Box::new(FeedbackExpr::Timeout),
                    ),
                ),
            ),
        ),
        Box::new(FeedbackExpr::NewCoverage(map)),
    )
}

/// Builds the objective policy over a fresh map of `map_size` entries.
pub fn objective_feedback(map_size: usize, ignore_timeouts: bool) -> (r: FeedbackExpr)
    ensures
        exists|m: MaxMapFeedback|
            m.history_spec() == Seq::new(map_size as nat, |i: int| 0u8) && r == objective_policy(
                ignore_timeouts,
                m,
            ),
{
    let m = MaxMapFeedback::new(map_size);
    FeedbackExpr::And(
        Box::new(
            FeedbackExpr::OrFast(
                Box::new(FeedbackExpr::Crash),
                Box::new(
                    FeedbackExpr::And(
                        Box::new(FeedbackExpr::Const(!ignore_timeouts)),
                        Box::new(FeedbackExpr::Timeout),
                    ),
                ),
            ),
        ),
        Box::new(FeedbackExpr::NewCoverage(m)),
    )
}

/// The objective policy decides as the objective rule says: an ending that counts as
/// a bug, with new coverage in the objective map.
pub proof fn lemma_objective_policy(
    ignore_timeouts: bool,
    map: MaxMapFeedback,
    exit_kind: ExitKind,
    run: Seq<u8>,
)
    ensures
        objective_policy(ignore_timeouts, map).verdict(exit_kind, run) == (is_objective_kind(
            exit_kind,
            ignore_timeouts,
        ) && has_new_coverage(run, map.history_spec())),
{
    reveal_with_fuel(FeedbackExpr::verdict, 4);
}

} // verus!
