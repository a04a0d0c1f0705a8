use crate::custom_testcase_filename::CustomTestcaseFilenameFeedback;
use crate::error::Error;
use crate::combinators::FeedbackExpr;
use crate::exit_kind::ExitKind;
use crate::map_feedback::{
    bucketed, classify_counts, has_new_coverage, history_after, lemma_admitted_at_most_once,
    MaxMapFeedback,
};
use crate::state::FuzzMetadata;
use vstd::prelude::*;

verus! {

/// An input kept in a corpus, with what the fuzzer has learned about it.
#[derive(Clone, Debug)]
pub struct Testcase {
    pub input: Vec<u8>,
    /// The name of its file on disk, once one was given.
    pub filename: Option<String>,
    /// Microseconds that one run took during calibration.
    pub exec_time_us: u64,
    /// Number of map entries that a run sets.
    pub bitmap_size: u64,
    /// How often the scheduler has picked it.
    pub scheduled_count: u64,
    /// Selection boost left over from calibration; shrinks as it is fuzzed.
    pub handicap: u64,
    /// Whether it came from the initial seeds.
    pub is_initial_entry: bool,
}

impl Testcase {
    pub fn new(input: Vec<u8>) -> (r: Self)
        ensures
            r.input == input,
            r.filename is None,
            r.exec_time_us == 0,
            r.bitmap_size == 0,
            r.scheduled_count == 0,
            r.handicap == 0,
            !r.is_initial_entry,
    {
        Testcase {
            input,
            filename: None,
            exec_time_us: 0,
            bitmap_size: 0,
            scheduled_count: 0,
            handicap: 0,
            is_initial_entry: false,
        }
    }
}

/// An append-only collection of testcases; a testcase's id is its position, so an id is
/// never given twice.
pub struct Corpus {
    entries: Vec<Testcase>,
}

impl Corpus {
    pub closed spec fn entries_spec(&self) -> Seq<Testcase> {
        self.entries@
    }

    pub fn new() -> (r: Self)
        ensures
            r.entries_spec() == Seq::<Testcase>::empty(),
    {
        Corpus { entries: Vec::new() }
    }

    /// Adds a testcase and returns its id.
    pub fn add(&mut self, testcase: Testcase) -> (id: usize)
        ensures
            id == old(self).entries_spec().len(),
            final(self).entries_spec() == old(self).entries_spec().push(testcase),
    {
        let id = self.entries.len();
        self.entries.push(testcase);
        id
    }

    pub fn count(&self) -> (r: usize)
        ensures
            r == self.entries_spec().len(),
    {
        self.entries.len()
    }

    pub fn get(&self, id: usize) -> (r: Option<&Testcase>)
        ensures
            id < self.entries_spec().len() ==> r == Some(&self.entries_spec()[id as int]),
            id >= self.entries_spec().len() ==> r is None,
    {
        if id < self.entries.len() {
            Some(&self.entries[id])
        } else {
            None
        }
    }
}

/// The testcase with the run time `exec_time_us` recorded.
pub open spec fn with_exec_time(tc: Testcase, exec_time_us: u64) -> Testcase {
    Testcase { exec_time_us, ..tc }
}

/// Whether `after` is the admitted testcase `tc` (run time `exec_time_us` recorded) once
/// `namer` was asked for its filename with `state`: named on success, unnamed on error,
/// and `named` is what the naming returned.
pub open spec fn named_by<F: Fn(&FuzzMetadata, &Testcase) -> Result<String, Error>>(
    namer: CustomTestcaseFilenameFeedback<F>,
    state: FuzzMetadata,
    tc: Testcase,
    exec_time_us: u64,
    after: Testcase,
    named: Result<(), Error>,
) -> bool {
    match named {
        Ok(()) => exists|name: String|
            #![trigger namer.func_spec().ensures((&state, &with_exec_time(tc, exec_time_us)), Ok::<String, Error>(name))]
            namer.func_spec().ensures(
                (&state, &with_exec_time(tc, exec_time_us)),
                Ok::<String, Error>(name),
            ) && after == (Testcase { filename: Some(name), ..with_exec_time(tc, exec_time_us) }),
        Err(e) => namer.func_spec().ensures(
            (&state, &with_exec_time(tc, exec_time_us)),
            Err::<String, Error>(e),
        ) && after == with_exec_time(tc, exec_time_us),
    }
}

/// Records the run time on an admitted testcase and names it.
fn name_admitted<F: Fn(&FuzzMetadata, &Testcase) -> Result<String, Error>>(
    namer: &mut CustomTestcaseFilenameFeedback<F>,
    state: &FuzzMetadata,
    exec_time_us: u64,
    testcase: &mut Testcase,
) -> (named: Result<(), Error>)
    requires
        forall|s: &FuzzMetadata, t: &Testcase| #[trigger] old(namer).func_spec().requires((s, t)),
    ensures
        final(namer).func_spec() == old(namer).func_spec(),
        named_by(*old(namer), *state, *old(testcase), exec_time_us, *final(testcase), named),
{
    testcase.exec_time_us = exec_time_us;
    namer.append_metadata(state, testcase)
}

/// Decides whether a run joins the queue: its map, with hit counts put into buckets, must
/// reach new coverage. Returns the verdict, and how naming went: an admitted testcase
/// gets the run's time and then a filename from `namer`; a rejected one is left alone
/// and naming is not tried. The coverage history follows the verdict, whatever naming did.
pub fn evaluate_for_queue<F: Fn(&FuzzMetadata, &Testcase) -> Result<String, Error>>(
    coverage: &mut MaxMapFeedback,
    namer: &mut CustomTestcaseFilenameFeedback<F>,
    state: &FuzzMetadata,
    map: &Vec<u8>,
    exec_time_us: u64,
    testcase: &mut Testcase,
) -> (r: (bool, Result<(), Error>))
    requires
        map@.len() == old(coverage).history_spec().len(),
        forall|s: &FuzzMetadata, t: &Testcase| #[trigger] old(namer).func_spec().requires((s, t)),
    ensures
        r.0 == has_new_coverage(bucketed(map@), old(coverage).history_spec()),
        final(coverage).history_spec() == history_after(
            bucketed(map@),
            old(coverage).history_spec(),
        ),
        final(namer).func_spec() == old(namer).func_spec(),
        !r.0 ==> r.1 is Ok && *final(testcase) == *old(testcase),
        r.0 ==> named_by(*old(namer), *state, *old(testcase), exec_time_us, *final(testcase), r.1),
{
    let mut classified = map.clone();
    proof {
        assert(classified@ =~= map@);
    }
    classify_counts(&mut classified);
    if !coverage.evaluate(&classified) {
        return (false, Ok(()));
    }
    let named = name_admitted(namer, state, exec_time_us, testcase);
    (true, named)
}

/// Decides whether a run is a solution under the objective policy `objective`, on its
/// map with hit counts put into buckets. Returns the verdict, and how naming went: an
/// admitted solution gets the run's time and then a filename from `namer`; otherwise the
/// testcase is left alone.
pub fn evaluate_for_solutions<F: Fn(&FuzzMetadata, &Testcase) -> Result<String, Error>>(
    objective: &mut FeedbackExpr,
    namer: &mut CustomTestcaseFilenameFeedback<F>,
    state: &FuzzMetadata,
    exit_kind: &ExitKind,
    map: &Vec<u8>,
    exec_time_us: u64,
    testcase: &mut Testcase,
) -> (r: (bool, Result<(), Error>))
    requires
        old(objective).fits(map@.len()),
        forall|s: &FuzzMetadata, t: &Testcase| #[trigger] old(namer).func_spec().requires((s, t)),
    ensures
        r.0 == old(objective).verdict(*exit_kind, bucketed(map@)),
        r.0 ==> old(objective).records(*final(objective), bucketed(map@)),
        !r.0 ==> *final(objective) == *old(objective),
        final(namer).func_spec() == old(namer).func_spec(),
        !r.0 ==> r.1 is Ok && *final(testcase) == *old(testcase),
        r.0 ==> named_by(*old(namer), *state, *old(testcase), exec_time_us, *final(testcase), r.1),
{
    let mut classified = map.clone();
    proof {
        assert(classified@ =~= map@);
    }
    classify_counts(&mut classified);
    if !objective.evaluate(exit_kind, &classified) {
        return (false, Ok(()));
    }
    let named = name_admitted(namer, state, exec_time_us, testcase);
    (true, named)
}

/// New coverage is admitted exactly once, whatever naming does: a map that reaches new
/// coverage is admitted, and the same map, or an identical one, is rejected afterwards.
pub proof fn lemma_identical_maps_admitted_once(m1: Seq<u8>, m2: Seq<u8>, history: Seq<u8>)
    requires
        m1 == m2,
        m1.len() == history.len(),
    ensures
        !has_new_coverage(bucketed(m2), history_after(bucketed(m1), history)),
        history_after(bucketed(m1), history).len() == history.len(),
{
    lemma_admitted_at_most_once(bucketed(m1), history);
}

} // verus!
