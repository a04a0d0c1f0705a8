use crate::corpus::Testcase;
use crate::testcase_score::{base_score, base_score_spec, bitmap_quarters, time_factor, CorpusStats};
use vstd::arithmetic::div_mod::lemma_div_is_ordered_by_denominator;
use vstd::prelude::*;

verus! {

/// Scale of the proportional part of a selection weight: 2^80.
pub const RARITY_SCALE: u128 = 1208925819614629174706176;

/// One more than the largest possible hit count: 2^64.
pub const HIT_RANGE: u128 = 18446744073709551616;

/// One step of the xorshift generator.
pub open spec fn xorshift(x: u64) -> u64 {
    let a = x ^ (x << 13u64);
    let b = a ^ (a >> 7u64);
    b ^ (b << 17u64)
}

/// The 128-bit number made of the next two 64-bit draws from `state`, high half first.
pub open spec fn draw128(state: u64) -> int {
    xorshift(state) as int * HIT_RANGE as int + xorshift(xorshift(state)) as int
}

/// The generator state after two draws.
pub open spec fn after_two(state: u64) -> u64 {
    xorshift(xorshift(state))
}

/// A seeded xorshift generator: the same seed gives the same numbers.
#[derive(Clone, Copy, Debug, PartialEq, Eq, Structural)]
pub struct XorShiftRand {
    pub state: u64,
}

impl XorShiftRand {
    /// A generator seeded with `seed`; zero, which xorshift never leaves, is moved to one.
    pub fn with_seed(seed: u64) -> (r: Self)
        ensures
            r.state == if seed == 0 {
                1
            } else {
                seed
            },
    {
        XorShiftRand { state: if seed == 0 { 1 } else { seed } }
    }

    pub fn next(&mut self) -> (r: u64)
        ensures
            r == xorshift(old(self).state),
            final(self).state == r,
    {
        let x = self.state;
        let a = x ^ (x << 13u64);
        let b = a ^ (a >> 7u64);
        let c = b ^ (b << 17u64);
        self.state = c;
        c
    }

    /// A 128-bit number from two draws.
    pub fn next_u128(&mut self) -> (r: u128)
        ensures
            r == draw128(old(self).state),
            final(self).state == after_two(old(self).state),
    {
        let hi = self.next();
        let lo = self.next();
        assert(hi as int * HIT_RANGE as int + lo as int <= u128::MAX) by (nonlinear_arith)
            requires
                hi <= u64::MAX,
                lo <= u64::MAX,
        ;
        (hi as u128) * HIT_RANGE + (lo as u128)
    }
}

/// Sum of the first `n` weights.
pub open spec fn prefix_sum(w: Seq<u128>, n: int) -> int
    decreases n,
{
    if n <= 0 {
        0
    } else {
        prefix_sum(w, n - 1) + w[n - 1]
    }
}

/// The sum of all weights.
pub open spec fn total_spec(w: Seq<u128>) -> int {
    prefix_sum(w, w.len() as int)
}

/// The first index from `i` on whose prefix sum passes `target`; the last index if none does.
pub open spec fn pick_from(w: Seq<u128>, target: int, i: int) -> int
    decreases w.len() - i,
{
    if i >= w.len() - 1 {
        w.len() - 1
    } else if prefix_sum(w, i + 1) > target {
        i
    } else {
        pick_from(w, target, i + 1)
    }
}

/// The index chosen for the random number `r`: proportional to the weights, or uniform
/// when they are all zero; none from an empty corpus.
pub open spec fn select_spec(w: Seq<u128>, r: int) -> Option<int> {
    if w.len() == 0 {
        None
    } else if total_spec(w) == 0 {
        Some(r % w.len() as int)
    } else {
        Some(pick_from(w, r % total_spec(w), 0))
    }
}

/// The indices chosen by `n` selections in a row from one corpus and one generator state.
pub open spec fn selection_sequence(w: Seq<u128>, state: u64, n: nat) -> Seq<Option<int>>
    decreases n,
{
    if n == 0 {
        Seq::empty()
    } else {
        seq![select_spec(w, draw128(state))] + selection_sequence(w, after_two(state), (n - 1) as nat)
    }
}

proof fn lemma_prefix_sum_mono(w: Seq<u128>, i: int, j: int)
    requires
        0 <= i <= j <= w.len(),
    ensures
        prefix_sum(w, i) <= prefix_sum(w, j),
    decreases j - i,
{
    if i < j {
        lemma_prefix_sum_mono(w, i, j - 1);
    }
}

proof fn lemma_prefix_sum_le(a: Seq<u128>, b: Seq<u128>, k: int)
    requires
        a.len() == b.len(),
        0 <= k <= a.len(),
        forall|i: int| 0 <= i < a.len() ==> #[trigger] a[i] <= b[i],
    ensures
        prefix_sum(a, k) <= prefix_sum(b, k),
    decreases k,
{
    if k > 0 {
        lemma_prefix_sum_le(a, b, k - 1);
    }
}

fn total_weight(weights: &Vec<u128>) -> (r: u128)
    requires
        total_spec(weights@) <= u128::MAX,
    ensures
        r == total_spec(weights@),
{
    let mut sum: u128 = 0;
    let mut i: usize = 0;
    while i < weights.len()
        invariant
            i <= weights@.len(),
            sum == prefix_sum(weights@, i as int),
            total_spec(weights@) <= u128::MAX,
        decreases weights@.len() - i,
    {
        proof {
            lemma_prefix_sum_mono(weights@, i as int + 1, weights@.len() as int);
        }
        sum = sum + weights[i];
        i = i + 1;
    }
    sum
}

/// The first index whose prefix sum passes `target`.
fn pick(weights: &Vec<u128>, target: u128) -> (r: usize)
    requires
        weights@.len() > 0,
        target < total_spec(weights@),
        total_spec(weights@) <= u128::MAX,
    ensures
        r == pick_from(weights@, target as int, 0),
        r < weights@.len(),
{
    let n = weights.len();
    let mut acc: u128 = 0;
    let mut i: usize = 0;
    while i < n - 1
        invariant
            n == weights@.len(),
            n > 0,
            i <= n - 1,
            acc == prefix_sum(weights@, i as int),
            acc <= target,
            total_spec(weights@) <= u128::MAX,
            pick_from(weights@, target as int, 0) == pick_from(weights@, target as int, i as int),
        decreases n - i,
    {
        proof {
            lemma_prefix_sum_mono(weights@, i as int + 1, n as int);
        }
        let next = acc + weights[i];
        if next > target {
            return i;
        }
        acc = next;
        i = i + 1;
    }
    i
}

/// The index that the random number `r` selects from `weights`.
pub fn select_index(weights: &Vec<u128>, r: u128) -> (i: Option<usize>)
    requires
        total_spec(weights@) <= u128::MAX,
    ensures
        match i {
            Some(i) => select_spec(weights@, r as int) == Some(i as int) && i < weights@.len(),
            None => select_spec(weights@, r as int) is None,
        },
{
    let n = weights.len();
    if n == 0 {
        return None;
    }
    let total = total_weight(weights);
    if total == 0 {
        Some((r % (n as u128)) as usize)
    } else {
        Some(pick(weights, r % total))
    }
}

/// Chooses the next testcase, with a chance proportional to its weight, from 128 bits
/// drawn from `rand`.
pub fn select(rand: &mut XorShiftRand, weights: &Vec<u128>) -> (r: Option<usize>)
    requires
        total_spec(weights@) <= u128::MAX,
    ensures
        final(rand).state == after_two(old(rand).state),
        match r {
            Some(i) => select_spec(weights@, draw128(old(rand).state)) == Some(i as int) && i
                < weights@.len(),
            None => select_spec(weights@, draw128(old(rand).state)) is None,
        },
{
    let r = rand.next_u128();
    select_index(weights, r)
}

proof fn lemma_selection_len(w: Seq<u128>, state: u64, n: nat)
    ensures
        selection_sequence(w, state, n).len() == n,
    decreases n,
{
    if n > 0 {
        lemma_selection_len(w, after_two(state), (n - 1) as nat);
    }
}

/// Selecting from the same weights with generators in the same state gives the same
/// indices, call after call; later calls only extend the sequence.
pub proof fn lemma_selection_deterministic(
    w1: Seq<u128>,
    w2: Seq<u128>,
    s1: u64,
    s2: u64,
    n: nat,
)
    requires
        w1 == w2,
        s1 == s2,
    ensures
        selection_sequence(w1, s1, n) == selection_sequence(w2, s2, n),
        selection_sequence(w1, s1, n + 1).take(n as int) == selection_sequence(w1, s1, n),
        selection_sequence(w1, s1, n).len() == n,
    decreases n,
{
    let next = (n + 1) as nat;
    let x = select_spec(w1, draw128(s1));
    let rest = selection_sequence(w1, after_two(s1), n);
    assert(selection_sequence(w1, s1, next) == seq![x] + rest);
    lemma_selection_len(w1, after_two(s1), n);
    lemma_selection_len(w1, s1, n);
    if n > 0 {
        lemma_selection_deterministic(w1, w2, after_two(s1), after_two(s2), (n - 1) as nat);
        let shorter = selection_sequence(w1, after_two(s1), (n - 1) as nat);
        assert(selection_sequence(w1, s1, n) == seq![x] + shorter);
        assert(rest.take(n - 1) == shorter);
        assert(selection_sequence(w1, s1, next).take(n as int) =~= selection_sequence(w1, s1, n));
    } else {
        assert(selection_sequence(w1, s1, next).take(0) =~= selection_sequence(w1, s1, 0));
    }
}

/// The rarity factor for a rarest edge that `hits` corpus entries cover (zero counts as
/// one): a part proportional to the rarity plus a part that falls by one with each
/// further sharer, so that every extra sharer strictly lowers it.
pub open spec fn rarity_factor(hits: u64) -> int {
    let h: int = if hits == 0 {
        1
    } else {
        hits as int
    };
    RARITY_SCALE as int / h + (HIT_RANGE as int - h)
}

/// The selection weight of a testcase, given how many corpus entries cover its rarest
/// edge: its base score times the rarity factor. The handicap only affects the mutation
/// budget, never the weight, so that rarity decides between otherwise equal testcases.
pub open spec fn weight_spec(tc: Testcase, stats: CorpusStats, rarest_hits: u64) -> int {
    base_score_spec(tc, stats) * rarity_factor(rarest_hits)
}

pub fn testcase_weight(testcase: &Testcase, stats: &CorpusStats, rarest_hits: u64) -> (r: u128)
    ensures
        r == weight_spec(*testcase, *stats, rarest_hits),
        r <= 90000 * (RARITY_SCALE + HIT_RANGE),
{
    let score = base_score(testcase, stats);
    let h: u64 = if rarest_hits == 0 {
        1
    } else {
        rarest_hits
    };
    let f: u128 = RARITY_SCALE / (h as u128) + (HIT_RANGE - h as u128);
    assert(f <= RARITY_SCALE + HIT_RANGE) by {
        lemma_div_is_ordered_by_denominator(RARITY_SCALE as int, 1, h as int);
    }
    assert(score as int * f as int <= 90000 * (RARITY_SCALE + HIT_RANGE)) by (nonlinear_arith)
        requires
            score <= 90000,
            f <= RARITY_SCALE + HIT_RANGE,
    ;
    (score as u128) * f
}

/// Rarer coverage wins: of two testcases alike in run time and coverage size, the one
/// whose rarest edge fewer corpus entries cover weighs strictly more, whatever their
/// handicaps.
pub proof fn lemma_rarer_coverage_weighs_more(
    a: Testcase,
    b: Testcase,
    stats: CorpusStats,
    hits_a: u64,
    hits_b: u64,
)
    requires
        a.exec_time_us == b.exec_time_us,
        a.bitmap_size == b.bitmap_size,
        1 <= hits_a < hits_b,
    ensures
        weight_spec(a, stats, hits_a) > weight_spec(b, stats, hits_b),
{
    let base = base_score_spec(a, stats);
    assert(base >= 250) by (nonlinear_arith)
        requires
            base == time_factor(a.exec_time_us as int, stats.avg_exec_time_us as int) * 25
                * bitmap_quarters(a.bitmap_size as int, stats.avg_bitmap_size as int),
            time_factor(a.exec_time_us as int, stats.avg_exec_time_us as int) >= 10,
            bitmap_quarters(a.bitmap_size as int, stats.avg_bitmap_size as int) >= 1,
    ;
    lemma_div_is_ordered_by_denominator(RARITY_SCALE as int, hits_a as int, hits_b as int);
    let fa = rarity_factor(hits_a);
    let fb = rarity_factor(hits_b);
    assert(fa > fb);
    assert(base * fa > base * fb) by (nonlinear_arith)
        requires
            base >= 250,
            fa > fb,
    ;
}

/// Keeps the weights of favored entries only, so that selection is restricted to the
/// entries that explain all coverage; where no favored entry has a positive weight, all
/// weights stay as they are.
pub fn restrict_to_favored(weights: &Vec<u128>, favored: &Vec<bool>) -> (r: Vec<u128>)
    requires
        weights@.len() == favored@.len(),
    ensures
        r@.len() == weights@.len(),
        (exists|i: int| 0 <= i < weights@.len() && favored@[i] && #[trigger] weights@[i] > 0)
            ==> forall|i: int|
            0 <= i < weights@.len() ==> #[trigger] r@[i] == if favored@[i] {
                weights@[i]
            } else {
                0
            },
        !(exists|i: int| 0 <= i < weights@.len() && favored@[i] && #[trigger] weights@[i] > 0)
            ==> r@ == weights@,
        total_spec(r@) <= total_spec(weights@),
{
    let n = weights.len();
    let mut any = false;
    let mut i: usize = 0;
    while i < n
        invariant
            n == weights@.len(),
            n == favored@.len(),
            i <= n,
            any == exists|k: int| 0 <= k < i && favored@[k] && #[trigger] weights@[k] > 0,
        decreases n - i,
    {
        if favored[i] && weights[i] > 0 {
            any = true;
        }
        i = i + 1;
    }
    let mut r: Vec<u128> = Vec::new();
    let mut j: usize = 0;
    while j < n
        invariant
            n == weights@.len(),
            n == favored@.len(),
            j <= n,
            r@.len() == j,
            forall|k: int|
                0 <= k < j ==> #[trigger] r@[k] == if any && !favored@[k] {
                    0
                } else {
                    weights@[k]
                },
        decreases n - j,
    {
        let w = if any && !favored[j] {
            0
        } else {
            weights[j]
        };
        r.push(w);
        j = j + 1;
    }
    if !any {
        assert(r@ =~= weights@);
    }
    proof {
        lemma_prefix_sum_le(r@, weights@, n as int);
    }
    r
}

/// Number of coverage maps among the first `n` that hit `edge`.
pub open spec fn hits(maps: Seq<Seq<u8>>, edge: int, n: int) -> int
    decreases n,
{
    if n <= 0 {
        0
    } else {
        hits(maps, edge, n - 1) + (if maps[n - 1][edge] != 0 {
            1int
        } else {
            0int
        })
    }
}

/// The least number of corpus maps hitting an edge that `map` hits, over its first
/// `k` edges; zero where it hits none of them.
pub open spec fn rarest(map: Seq<u8>, maps: Seq<Seq<u8>>, k: int) -> int
    decreases k,
{
    if k <= 0 {
        0
    } else {
        let prev = rarest(map, maps, k - 1);
        let h = hits(maps, k - 1, maps.len() as int);
        if map[k - 1] == 0 {
            prev
        } else if prev == 0 || h < prev {
            h
        } else {
            prev
        }
    }
}

proof fn lemma_hits_bound(maps: Seq<Seq<u8>>, edge: int, n: int)
    requires
        0 <= n,
    ensures
        0 <= hits(maps, edge, n) <= n,
    decreases n,
{
    if n > 0 {
        lemma_hits_bound(maps, edge, n - 1);
    }
}

fn count_hits(maps: &Vec<Vec<u8>>, edge: usize) -> (r: u64)
    requires
        forall|j: int| 0 <= j < maps@.len() ==> edge < (#[trigger] maps@[j])@.len(),
    ensures
        r == hits(maps@.map_values(|m: Vec<u8>| m@), edge as int, maps@.len() as int),
{
    let ghost views = maps@.map_values(|m: Vec<u8>| m@);
    let mut c: u64 = 0;
    let mut j: usize = 0;
    while j < maps.len()
        invariant
            j <= maps@.len(),
            views == maps@.map_values(|m: Vec<u8>| m@),
            forall|k: int| 0 <= k < maps@.len() ==> edge < (#[trigger] maps@[k])@.len(),
            c == hits(views, edge as int, j as int),
            c <= j,
        decreases maps@.len() - j,
    {
        proof {
            lemma_hits_bound(views, edge as int, j as int + 1);
        }
        if maps[j][edge] != 0 {
            c = c + 1;
        }
        j = j + 1;
    }
    c
}

/// How many of the corpus maps hit the rarest edge that `map` hits; zero where it hits none.
pub fn rarest_edge_hits(map: &Vec<u8>, maps: &Vec<Vec<u8>>) -> (r: u64)
    requires
        forall|j: int| 0 <= j < maps@.len() ==> (#[trigger] maps@[j])@.len() == map@.len(),
    ensures
        r == rarest(map@, maps@.map_values(|m: Vec<u8>| m@), map@.len() as int),
{
    let ghost views = maps@.map_values(|m: Vec<u8>| m@);
    let mut best: u64 = 0;
    let mut e: usize = 0;
    while e < map.len()
        invariant
            e <= map@.len(),
            views == maps@.map_values(|m: Vec<u8>| m@),
            forall|j: int| 0 <= j < maps@.len() ==> (#[trigger] maps@[j])@.len() == map@.len(),
            best == rarest(map@, views, e as int),
        decreases map@.len() - e,
    {
        if map[e] != 0 {
            let h = count_hits(maps, e);
            if best == 0 || h < best {
                best = h;
            }
        }
        e = e + 1;
    }
    best
}

/// Whether a pass over the corpus is complete: every entry has been picked at least once.
pub fn cycle_complete(corpus: &Vec<Testcase>) -> (r: bool)
    ensures
        r == forall|i: int| 0 <= i < corpus@.len() ==> (#[trigger] corpus@[i]).scheduled_count >= 1,
{
    let mut i: usize = 0;
    while i < corpus.len()
        invariant
            i <= corpus@.len(),
            forall|k: int| 0 <= k < i ==> (#[trigger] corpus@[k]).scheduled_count >= 1,
        decreases corpus@.len() - i,
    {
        if corpus[i].scheduled_count == 0 {
            return false;
        }
        i = i + 1;
    }
    true
}

/// Marks a testcase as picked once more.
pub fn on_selected(testcase: &mut Testcase)
    ensures
        final(testcase).scheduled_count == if old(testcase).scheduled_count < u64::MAX {
            old(testcase).scheduled_count + 1
        } else {
            old(testcase).scheduled_count as int
        },
        final(testcase).input == old(testcase).input,
        final(testcase).handicap == old(testcase).handicap,
        final(testcase).is_initial_entry == old(testcase).is_initial_entry,
        final(testcase).exec_time_us == old(testcase).exec_time_us,
        final(testcase).bitmap_size == old(testcase).bitmap_size,
        final(testcase).filename == old(testcase).filename,
{
    testcase.scheduled_count = testcase.scheduled_count.saturating_add(1);
}

} // verus!
