use crate::corpus::Testcase;
use vstd::prelude::*;

verus! {

/// Upper bound of a score, in hundredths of an iteration.
pub const MAX_SCORE_CENTI: u64 = 640000;

/// How the mutation budget is shaped.
#[derive(Clone, Copy, Debug, PartialEq, Eq, Structural)]
pub enum PowerSchedule {
    /// The budget follows run time, coverage size and handicap.
    Explore,
    /// Every testcase gets the largest budget.
    Exploit,
}

/// What a single testcase is scored against: corpus averages and the power schedule.
#[derive(Clone, Copy, Debug, PartialEq, Eq, Structural)]
pub struct CorpusStats {
    pub avg_exec_time_us: u64,
    pub avg_bitmap_size: u64,
    pub schedule: PowerSchedule,
}

/// Base budget from the run time: slow inputs get less, fast ones more.
pub open spec fn time_factor(exec_us: int, avg_us: int) -> int {
    if exec_us > avg_us * 10 {
        10
    } else if exec_us > avg_us * 4 {
        25
    } else if exec_us > avg_us * 2 {
        50
    } else if exec_us * 3 > avg_us * 4 {
        75
    } else if exec_us * 4 < avg_us {
        300
    } else if exec_us * 3 < avg_us {
        200
    } else if exec_us * 2 < avg_us {
        150
    } else {
        100
    }
}

/// Factor in quarters from the coverage size: broad inputs get more, narrow ones less.
pub open spec fn bitmap_quarters(size: int, avg: int) -> int {
    if size * 3 > avg * 10 {
        12
    } else if size > avg * 2 {
        8
    } else if size * 3 > avg * 4 {
        6
    } else if size * 3 < avg {
        1
    } else if size * 2 < avg {
        2
    } else if size * 3 < avg * 2 {
        3
    } else {
        4
    }
}

/// Boost from the handicap, and the handicap left afterwards.
pub open spec fn handicap_factor(handicap: int) -> int {
    if handicap >= 4 {
        4
    } else if handicap > 0 {
        2
    } else {
        1
    }
}

pub open spec fn handicap_after(handicap: int) -> int {
    if handicap >= 4 {
        handicap - 4
    } else if handicap > 0 {
        handicap - 1
    } else {
        0
    }
}

/// The part of a score that run time and coverage size decide, in hundredths of an
/// iteration; the handicap plays no part in it.
pub open spec fn base_score_spec(tc: Testcase, stats: CorpusStats) -> int {
    time_factor(tc.exec_time_us as int, stats.avg_exec_time_us as int) * 25 * bitmap_quarters(
        tc.bitmap_size as int,
        stats.avg_bitmap_size as int,
    )
}

/// The score of a testcase in hundredths of an iteration, capped.
pub open spec fn score_spec(tc: Testcase, stats: CorpusStats) -> int {
    let raw = time_factor(tc.exec_time_us as int, stats.avg_exec_time_us as int) * 25
        * bitmap_quarters(tc.bitmap_size as int, stats.avg_bitmap_size as int) * handicap_factor(
        tc.handicap as int,
    );
    if raw > MAX_SCORE_CENTI || stats.schedule == PowerSchedule::Exploit {
        MAX_SCORE_CENTI as int
    } else {
        raw
    }
}

/// Mutation rounds for a score: the score floored to a whole number.
pub open spec fn iterations_spec(score_centi: int) -> int {
    score_centi / 100
}

fn time_factor_exec(exec_us: u64, avg_us: u64) -> (r: u64)
    ensures
        r == time_factor(exec_us as int, avg_us as int),
{
    let e = exec_us as u128;
    let a = avg_us as u128;
    if e > a * 10 {
        10
    } else if e > a * 4 {
        25
    } else if e > a * 2 {
        50
    } else if e * 3 > a * 4 {
        75
    } else if e * 4 < a {
        300
    } else if e * 3 < a {
        200
    } else if e * 2 < a {
        150
    } else {
        100
    }
}

fn bitmap_quarters_exec(size: u64, avg: u64) -> (r: u64)
    ensures
        r == bitmap_quarters(size as int, avg as int),
{
    let s = size as u128;
    let a = avg as u128;
    if s * 3 > a * 10 {
        12
    } else if s > a * 2 {
        8
    } else if s * 3 > a * 4 {
        6
    } else if s * 3 < a {
        1
    } else if s * 2 < a {
        2
    } else if s * 3 < a * 2 {
        3
    } else {
        4
    }
}

/// The base score of a testcase: at least 250 and at most 90000 hundredths.
pub fn base_score(testcase: &Testcase, stats: &CorpusStats) -> (r: u64)
    ensures
        r == base_score_spec(*testcase, *stats),
        250 <= r <= 90000,
{
    let t = time_factor_exec(testcase.exec_time_us, stats.avg_exec_time_us);
    let q = bitmap_quarters_exec(testcase.bitmap_size, stats.avg_bitmap_size);
    assert(250 <= t * 25 * q <= 90000) by (nonlinear_arith)
        requires
            10 <= t <= 300,
            1 <= q <= 12,
    ;
    t * 25 * q
}

/// Scores a testcase for its next visit and uses up part of its handicap.
pub fn compute_score(testcase: &mut Testcase, stats: &CorpusStats) -> (r: u64)
    ensures
        r == score_spec(*old(testcase), *stats),
        r <= MAX_SCORE_CENTI,
        final(testcase).handicap == handicap_after(old(testcase).handicap as int),
        final(testcase).input == old(testcase).input,
        final(testcase).filename == old(testcase).filename,
        final(testcase).exec_time_us == old(testcase).exec_time_us,
        final(testcase).bitmap_size == old(testcase).bitmap_size,
        final(testcase).scheduled_count == old(testcase).scheduled_count,
        final(testcase).is_initial_entry == old(testcase).is_initial_entry,
{
    let t = time_factor_exec(testcase.exec_time_us, stats.avg_exec_time_us);
    let q = bitmap_quarters_exec(testcase.bitmap_size, stats.avg_bitmap_size);
    let h: u64 = if testcase.handicap >= 4 {
        testcase.handicap = testcase.handicap - 4;
        4
    } else if testcase.handicap > 0 {
        testcase.handicap = testcase.handicap - 1;
        2
    } else {
        1
    };
    assert(t <= 300 && q <= 12 && h <= 4);
    assert(t * 25 * q * h <= 300 * 25 * 12 * 4) by (nonlinear_arith)
        requires
            t <= 300,
            q <= 12,
            h <= 4,
    ;
    let raw = t * 25 * q * h;
    if raw > MAX_SCORE_CENTI || stats.schedule == PowerSchedule::Exploit {
        MAX_SCORE_CENTI
    } else {
        raw
    }
}

/// Mutation rounds for a score in hundredths: the score floored.
pub fn iterations_for(score_centi: u64) -> (r: usize)
    requires
        score_centi / 100 <= usize::MAX,
    ensures
        r == iterations_spec(score_centi as int),
{
    (score_centi / 100) as usize
}

/// Every score is non-negative, and the rounds it buys are exactly its floor.
pub proof fn lemma_iterations_floor(tc: Testcase, stats: CorpusStats)
    ensures
        score_spec(tc, stats) >= 0,
        iterations_spec(score_spec(tc, stats)) * 100 <= score_spec(tc, stats),
        score_spec(tc, stats) < (iterations_spec(score_spec(tc, stats)) + 1) * 100,
{
    let t = time_factor(tc.exec_time_us as int, stats.avg_exec_time_us as int);
    let q = bitmap_quarters(tc.bitmap_size as int, stats.avg_bitmap_size as int);
    let h = handicap_factor(tc.handicap as int);
    assert(t * 25 * q * h >= 0) by (nonlinear_arith)
        requires
            t >= 0,
            q >= 0,
            h >= 0,
    ;
}

} // verus!
