use crate::exit_kind::ExitKind;
use vstd::prelude::*;

verus! {

/// The bucket that a raw hit count falls into: 0, 1, 2, 3, 4-7, 8-15, 16-31, 32-127
/// and 128-255 become 0, 1, 2, 4, 8, 16, 32, 64 and 128.
pub open spec fn bucket(c: u8) -> u8 {
    if c <= 2 {
        c
    } else if c == 3 {
        4
    } else if c < 8 {
        8
    } else if c < 16 {
        16
    } else if c < 32 {
        32
    } else if c < 128 {
        64
    } else {
        128
    }
}

/// A raw map with every hit count put into its bucket.
pub open spec fn bucketed(map: Seq<u8>) -> Seq<u8> {
    map.map_values(|c: u8| bucket(c))
}

/// Whether `map` hits some entry more than `history` has ever recorded there.
pub open spec fn has_new_coverage(map: Seq<u8>, history: Seq<u8>) -> bool {
    exists|i: int| 0 <= i < map.len() && #[trigger] map[i] > history[i]
}

/// `history` raised, entry by entry, to what `map` hit.
pub open spec fn merged(map: Seq<u8>, history: Seq<u8>) -> Seq<u8> {
    Seq::new(history.len(), |i: int| if map[i] > history[i] { map[i] } else { history[i] })
}

/// The history after one run was evaluated: merged where it was admitted, unchanged otherwise.
pub open spec fn history_after(map: Seq<u8>, history: Seq<u8>) -> Seq<u8> {
    if has_new_coverage(map, history) {
        merged(map, history)
    } else {
        history
    }
}

fn bucket_of(c: u8) -> (r: u8)
    ensures
        r == bucket(c),
{
    if c <= 2 {
        c
    } else if c == 3 {
        4
    } else if c < 8 {
        8
    } else if c < 16 {
        16
    } else if c < 32 {
        32
    } else if c < 128 {
        64
    } else {
        128
    }
}

/// Replaces every raw hit count of a coverage map by its bucket.
pub fn classify_counts(map: &mut Vec<u8>)
    ensures
        final(map)@ == bucketed(old(map)@),
{
    let n = map.len();
    let mut i: usize = 0;
    while i < n
        invariant
            n == old(map)@.len(),
            map@.len() == n,
            i <= n,
            forall|j: int| 0 <= j < i ==> map@[j] == bucket(old(map)@[j]),
            forall|j: int| i <= j < n ==> map@[j] == old(map)@[j],
        decreases n - i,
    {
        let b = bucket_of(map[i]);
        map.set(i, b);
        i = i + 1;
    }
    assert(map@ =~= old(map)@.map_values(|c: u8| bucket(c)));
}

/// Keeps, for every map entry, the largest bucket seen in an admitted run, and calls a
/// run interesting when it goes beyond that somewhere.
#[derive(Clone, Debug)]
pub struct MaxMapFeedback {
    history: Vec<u8>,
}

impl MaxMapFeedback {
    pub closed spec fn history_spec(&self) -> Seq<u8> {
        self.history@
    }

    /// A feedback for maps of `map_size` entries, with nothing seen yet.
    pub fn new(map_size: usize) -> (r: Self)
        ensures
            r.history_spec() == Seq::new(map_size as nat, |i: int| 0u8),
    {
        let mut history: Vec<u8> = Vec::new();
        let mut i: usize = 0;
        while i < map_size
            invariant
                i <= map_size,
                history@ == Seq::new(i as nat, |j: int| 0u8),
            decreases map_size - i,
        {
            history.push(0u8);
            i = i + 1;
            assert(history@ =~= Seq::new(i as nat, |j: int| 0u8));
        }
        MaxMapFeedback { history }
    }

    pub fn map_size(&self) -> (r: usize)
        ensures
            r == self.history_spec().len(),
    {
        self.history.len()
    }

    /// Whether `map` hits an entry beyond the history; the history is left alone.
    pub fn is_interesting(&self, map: &Vec<u8>) -> (r: bool)
        requires
            map@.len() == self.history_spec().len(),
        ensures
            r == has_new_coverage(map@, self.history_spec()),
    {
        let n = map.len();
        let mut i: usize = 0;
        while i < n
            invariant
                n == map@.len(),
                n == self.history@.len(),
                i <= n,
                forall|j: int| 0 <= j < i ==> map@[j] <= self.history@[j],
            decreases n - i,
        {
            if map[i] > self.history[i] {
                assert(map@[i as int] > self.history@[i as int]);
                return true;
            }
            i = i + 1;
        }
        false
    }

    /// Raises the history to what `map` hit.
    pub fn append_metadata(&mut self, map: &Vec<u8>)
        requires
            map@.len() == old(self).history_spec().len(),
        ensures
            final(self).history_spec() == merged(map@, old(self).history_spec()),
    {
        let n = map.len();
        let mut i: usize = 0;
        while i < n
            invariant
                n == map@.len(),
                n == old(self).history@.len(),
                self.history@.len() == n,
                i <= n,
                forall|j: int| 0 <= j < i ==> self.history@[j] == merged(map@, old(self).history@)[j],
                forall|j: int| i <= j < n ==> self.history@[j] == old(self).history@[j],
            decreases n - i,
        {
            if map[i] > self.history[i] {
                self.history.set(i, map[i]);
            }
            i = i + 1;
        }
        assert(self.history@ =~= merged(map@, old(self).history@));
    }

    /// Evaluates one run and admits it when it is interesting.
    pub fn evaluate(&mut self, map: &Vec<u8>) -> (r: bool)
        requires
            map@.len() == old(self).history_spec().len(),
        ensures
            r == has_new_coverage(map@, old(self).history_spec()),
            final(self).history_spec() == history_after(map@, old(self).history_spec()),
    {
        let r = self.is_interesting(map);
        if r {
            self.append_metadata(map);
        }
        r
    }
}

/// Whether an ending counts as a bug: a crash, or a timeout unless timeouts are ignored.
pub open spec fn is_objective_kind(exit_kind: ExitKind, ignore_timeouts: bool) -> bool {
    exit_kind == ExitKind::Crash || (!ignore_timeouts && exit_kind == ExitKind::Timeout)
}

/// Once a run has been evaluated, the same coverage is never admitted again.
pub proof fn lemma_admitted_at_most_once(map: Seq<u8>, history: Seq<u8>)
    requires
        map.len() == history.len(),
    ensures
        !has_new_coverage(map, history_after(map, history)),
        history_after(map, history).len() == history.len(),
{
    let after = history_after(map, history);
    if has_new_coverage(map, history) {
        assert forall|i: int| 0 <= i < map.len() implies !(#[trigger] map[i] > after[i]) by {
            assert(after[i] == merged(map, history)[i]);
        }
    }
}

} // verus!
