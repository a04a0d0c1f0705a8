use crate::corpus::Testcase;
use vstd::prelude::*;

verus! {

/// The cost of keeping a testcase around: its run time times its length, saturated.
pub open spec fn len_time_spec(tc: Testcase) -> int {
    let p = tc.exec_time_us as int * tc.input@.len();
    if p > u64::MAX {
        u64::MAX as int
    } else {
        p
    }
}

pub fn len_time_factor(testcase: &Testcase) -> (r: u64)
    ensures
        r == len_time_spec(*testcase),
{
    let t = testcase.exec_time_us as u128;
    let l = testcase.input.len() as u128;
    assert(t * l <= (u64::MAX as u128) * (u64::MAX as u128)) by (nonlinear_arith)
        requires
            t <= u64::MAX,
            l <= u64::MAX,
    ;
    let p = t * l;
    if p > u64::MAX as u128 {
        u64::MAX
    } else {
        p as u64
    }
}

/// Whether some corpus map hits `edge`.
pub open spec fn edge_hit(maps: Seq<Seq<u8>>, edge: int) -> bool {
    exists|j: int| 0 <= j < maps.len() && #[trigger] maps[j][edge] != 0
}

/// Whether entry `i` represents `edge`: it hits the edge, no entry hitting it costs less,
/// and every earlier entry hitting it costs more.
pub open spec fn is_top_rated(maps: Seq<Seq<u8>>, factors: Seq<u64>, edge: int, i: int) -> bool {
    &&& 0 <= i < maps.len()
    &&& maps[i][edge] != 0
    &&& forall|j: int| 0 <= j < maps.len() && #[trigger] maps[j][edge] != 0 ==> factors[i] <= factors[j]
    &&& forall|j: int| 0 <= j < i && #[trigger] maps[j][edge] != 0 ==> factors[i] < factors[j]
}

/// For each edge, the cheapest entry hitting it (the first of equals), or none.
pub fn top_rated(maps: &Vec<Vec<u8>>, factors: &Vec<u64>, map_size: usize) -> (r: Vec<Option<usize>>)
    requires
        maps@.len() == factors@.len(),
        forall|j: int| 0 <= j < maps@.len() ==> (#[trigger] maps@[j])@.len() == map_size,
    ensures
        r@.len() == map_size,
        forall|e: int|
            0 <= e < map_size ==> match #[trigger] r@[e] {
                Some(i) => is_top_rated(maps@.map_values(|m: Vec<u8>| m@), factors@, e, i as int),
                None => !edge_hit(maps@.map_values(|m: Vec<u8>| m@), e),
            },
{
    let ghost views = maps@.map_values(|m: Vec<u8>| m@);
    let mut r: Vec<Option<usize>> = Vec::new();
    let mut e: usize = 0;
    while e < map_size
        invariant
            e <= map_size,
            r@.len() == e,
            views == maps@.map_values(|m: Vec<u8>| m@),
            maps@.len() == factors@.len(),
            forall|j: int| 0 <= j < maps@.len() ==> (#[trigger] maps@[j])@.len() == map_size,
            forall|d: int|
                0 <= d < e ==> match #[trigger] r@[d] {
                    Some(i) => is_top_rated(views, factors@, d, i as int),
                    None => !edge_hit(views, d),
                },
        decreases map_size - e,
    {
        let mut best: Option<usize> = None;
        let mut j: usize = 0;
        while j < maps.len()
            invariant
                e < map_size,
                j <= maps@.len(),
                views == maps@.map_values(|m: Vec<u8>| m@),
                maps@.len() == factors@.len(),
                forall|k: int| 0 <= k < maps@.len() ==> (#[trigger] maps@[k])@.len() == map_size,
                match best {
                    Some(b) => {
                        &&& b < j
                        &&& views[b as int][e as int] != 0
                        &&& forall|k: int| 0 <= k < j && #[trigger] views[k][e as int] != 0
                            ==> factors@[b as int] <= factors@[k]
                        &&& forall|k: int| 0 <= k < b && #[trigger] views[k][e as int] != 0
                            ==> factors@[b as int] < factors@[k]
                    },
                    None => forall|k: int| 0 <= k < j ==> #[trigger] views[k][e as int] == 0,
                },
            decreases maps@.len() - j,
        {
            assert(views[j as int] == maps@[j as int]@);
            if maps[j][e] != 0 {
                match best {
                    Some(b) => {
                        if factors[j] < factors[b] {
                            best = Some(j);
                        }
                    },
                    None => {
                        best = Some(j);
                    },
                }
            }
            j = j + 1;
        }
        proof {
            match best {
                Some(b) => {},
                None => {
                    assert(!edge_hit(views, e as int));
                },
            }
        }
        r.push(best);
        e = e + 1;
    }
    r
}

/// Marks the entries that represent at least one edge.
pub fn favored_entries(top: &Vec<Option<usize>>, n: usize) -> (r: Vec<bool>)
    ensures
        r@.len() == n,
        forall|i: int|
            0 <= i < n ==> (#[trigger] r@[i] <==> exists|e: int|
                0 <= e < top@.len() && #[trigger] top@[e] == Some(i as usize)),
{
    let mut r: Vec<bool> = Vec::new();
    let mut i: usize = 0;
    while i < n
        invariant
            i <= n,
            r@.len() == i,
            forall|k: int| 0 <= k < i ==> r@[k] == false,
        decreases n - i,
    {
        r.push(false);
        i = i + 1;
    }
    let mut e: usize = 0;
    while e < top.len()
        invariant
            e <= top@.len(),
            r@.len() == n,
            forall|k: int|
                0 <= k < n ==> (#[trigger] r@[k] <==> exists|d: int|
                    0 <= d < e && #[trigger] top@[d] == Some(k as usize)),
        decreases top@.len() - e,
    {
        match top[e] {
            Some(k) => {
                if k < n {
                    r.set(k, true);
                }
            },
            None => {},
        }
        proof {
            assert forall|k: int| 0 <= k < n implies (#[trigger] r@[k] <==> exists|d: int|
                0 <= d < e + 1 && #[trigger] top@[d] == Some(k as usize)) by {
                if top@[e as int] == Some(k as usize) {
                    assert(0 <= e < e + 1);
                }
            }
        }
        e = e + 1;
    }
    r
}

/// The favored entries explain all known coverage: every edge that some entry hits is
/// hit by a favored one.
pub proof fn lemma_favored_cover(
    maps: Seq<Seq<u8>>,
    factors: Seq<u64>,
    top: Seq<Option<usize>>,
    favored: Seq<bool>,
    edge: int,
)
    requires
        0 <= edge < top.len(),
        favored.len() == maps.len(),
        forall|e: int|
            0 <= e < top.len() ==> match #[trigger] top[e] {
                Some(i) => is_top_rated(maps, factors, e, i as int),
                None => !edge_hit(maps, e),
            },
        forall|i: int|
            0 <= i < favored.len() ==> (#[trigger] favored[i] <==> exists|e: int|
                0 <= e < top.len() && #[trigger] top[e] == Some(i as usize)),
        edge_hit(maps, edge),
    ensures
        exists|i: int| 0 <= i < maps.len() && favored[i] && #[trigger] maps[i][edge] != 0,
{
    let t = top[edge];
    match t {
        Some(i) => {
            assert(is_top_rated(maps, factors, edge, i as int));
            assert(favored[i as int]);
            assert(maps[i as int][edge] != 0);
        },
        None => {},
    }
}

} // verus!
