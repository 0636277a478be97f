//! Enumerations of the upper triangle of a symmetric `n × n` matrix, in the
//! order in which the geodesic solver fills symmetric tensors: every entry
//! `(a, b)` with `a ≤ b` once, row by row.
use vstd::prelude::*;

verus! {

/// `(a, b)` lies in the upper triangle (diagonal included) of an `n × n` matrix.
pub open spec fn is_upper_pair(n: nat, p: (usize, usize)) -> bool {
    p.0 <= p.1 < n
}

/// Lexicographic order on index pairs.
pub open spec fn pair_lt(p: (usize, usize), q: (usize, usize)) -> bool {
    p.0 < q.0 || (p.0 == q.0 && p.1 < q.1)
}

/// `s` lists every upper-triangle entry of an `n × n` matrix exactly once, in
/// row-major order.
pub open spec fn is_upper_pair_listing(n: nat, s: Seq<(usize, usize)>) -> bool {
    &&& forall|k: int| 0 <= k < s.len() ==> is_upper_pair(n, #[trigger] s[k])
    &&& forall|p: (usize, usize)| is_upper_pair(n, p) ==> #[trigger] s.contains(p)
    &&& forall|k1: int, k2: int|
        0 <= k1 < k2 < s.len() ==> pair_lt(#[trigger] s[k1], #[trigger] s[k2])
}

/// `(a, b, c)` indexes a derivative `∂g_ab/∂x^c` with `a ≤ b`, all below `n`.
pub open spec fn is_upper_triple(n: nat, t: (usize, usize, usize)) -> bool {
    t.0 <= t.1 < n && t.2 < n
}

/// Lexicographic order on index triples.
pub open spec fn triple_lt(t: (usize, usize, usize), u: (usize, usize, usize)) -> bool {
    t.0 < u.0 || (t.0 == u.0 && t.1 < u.1) || (t.0 == u.0 && t.1 == u.1 && t.2 < u.2)
}

/// `s` lists every triple `(a, b, c)` with `a ≤ b < n` and `c < n` exactly
/// once, in lexicographic order.
pub open spec fn is_upper_triple_listing(n: nat, s: Seq<(usize, usize, usize)>) -> bool {
    &&& forall|k: int| 0 <= k < s.len() ==> is_upper_triple(n, #[trigger] s[k])
    &&& forall|t: (usize, usize, usize)| is_upper_triple(n, t) ==> #[trigger] s.contains(t)
    &&& forall|k1: int, k2: int|
        0 <= k1 < k2 < s.len() ==> triple_lt(#[trigger] s[k1], #[trigger] s[k2])
}

/// Entry `(i, j)` of a symmetric matrix is written when pair `p` is stored
/// both at `(p.0, p.1)` and at `(p.1, p.0)`.
pub open spec fn pair_writes(p: (usize, usize), i: usize, j: usize) -> bool {
    (p.0 == i && p.1 == j) || (p.0 == j && p.1 == i)
}

/// Lists the pairs `(a, b)` with `a ≤ b < n`, row by row: `(0, 0), (0, 1), …,
/// (0, n−1), (1, 1), …, (n−1, n−1)`.
pub fn upper_triangle_pairs(n: usize) -> (res: Vec<(usize, usize)>)
    ensures
        is_upper_pair_listing(n as nat, res@),
{
    let mut res: Vec<(usize, usize)> = Vec::new();
    let mut a: usize = 0;
    while a < n
        invariant
            a <= n,
            forall|k: int| 0 <= k < res@.len() ==> is_upper_pair(n as nat, #[trigger] res@[k]),
            forall|k: int| 0 <= k < res@.len() ==> (#[trigger] res@[k]).0 < a,
            forall|p: (usize, usize)|
                is_upper_pair(n as nat, p) && p.0 < a ==> #[trigger] res@.contains(p),
            forall|k1: int, k2: int|
                0 <= k1 < k2 < res@.len() ==> pair_lt(#[trigger] res@[k1], #[trigger] res@[k2]),
        decreases n - a,
    {
        let mut b: usize = a;
        while b < n
            invariant
                a < n,
                a <= b <= n,
                forall|k: int| 0 <= k < res@.len() ==> is_upper_pair(n as nat, #[trigger] res@[k]),
                forall|k: int| 0 <= k < res@.len() ==> pair_lt(#[trigger] res@[k], (a, b)),
                forall|p: (usize, usize)|
                    is_upper_pair(n as nat, p) && (p.0 < a || (p.0 == a && p.1 < b))
                        ==> #[trigger] res@.contains(p),
                forall|k1: int, k2: int|
                    0 <= k1 < k2 < res@.len() ==> pair_lt(#[trigger] res@[k1], #[trigger] res@[k2]),
            decreases n - b,
        {
            let ghost prev = res@;
            res.push((a, b));
            proof {
                assert forall|p: (usize, usize)|
                    is_upper_pair(n as nat, p) && (p.0 < a || (p.0 == a && p.1 < b + 1))
                        implies #[trigger] res@.contains(p) by {
                    if p == (a, b) {
                        assert(res@[prev.len() as int] == p);
                    } else {
                        assert(prev.contains(p));
                        let w = choose|w: int| 0 <= w < prev.len() && prev[w] == p;
                        assert(res@[w] == p);
                    }
                }
                assert forall|k1: int, k2: int|
                    0 <= k1 < k2 < res@.len() implies pair_lt(#[trigger] res@[k1], #[trigger] res@[k2]) by {
                    if k2 < prev.len() {
                        assert(res@[k1] == prev[k1] && res@[k2] == prev[k2]);
                    } else {
                        assert(res@[k1] == prev[k1]);
                    }
                }
                assert forall|k: int| 0 <= k < res@.len() implies pair_lt(#[trigger] res@[k], (a, (b + 1) as usize)) by {
                    if k < prev.len() {
                        assert(res@[k] == prev[k]);
                    }
                }
            }
            b = b + 1;
        }
        a = a + 1;
    }
    res
}

/// Lists the triples `(a, b, c)` with `a ≤ b < n` and `c < n` in
/// lexicographic order: every metric derivative `∂g_ab/∂x^c` that the
/// symmetry `g_ab = g_ba` leaves to compute, once.
pub fn upper_triangle_triples(n: usize) -> (res: Vec<(usize, usize, usize)>)
    ensures
        is_upper_triple_listing(n as nat, res@),
{
    let mut res: Vec<(usize, usize, usize)> = Vec::new();
    let mut a: usize = 0;
    while a < n
        invariant
            a <= n,
            forall|k: int| 0 <= k < res@.len() ==> is_upper_triple(n as nat, #[trigger] res@[k]),
            forall|k: int| 0 <= k < res@.len() ==> (#[trigger] res@[k]).0 < a,
            forall|t: (usize, usize, usize)|
                is_upper_triple(n as nat, t) && t.0 < a ==> #[trigger] res@.contains(t),
            forall|k1: int, k2: int|
                0 <= k1 < k2 < res@.len() ==> triple_lt(#[trigger] res@[k1], #[trigger] res@[k2]),
        decreases n - a,
    {
        let mut b: usize = a;
        while b < n
            invariant
                a < n,
                a <= b <= n,
                forall|k: int| 0 <= k < res@.len() ==> is_upper_triple(n as nat, #[trigger] res@[k]),
                forall|k: int| 0 <= k < res@.len() ==> triple_lt(#[trigger] res@[k], (a, b, 0)),
                forall|t: (usize, usize, usize)|
                    is_upper_triple(n as nat, t) && (t.0 < a || (t.0 == a && t.1 < b))
                        ==> #[trigger] res@.contains(t),
                forall|k1: int, k2: int|
                    0 <= k1 < k2 < res@.len() ==> triple_lt(#[trigger] res@[k1], #[trigger] res@[k2]),
            decreases n - b,
        {
            let mut c: usize = 0;
            while c < n
                invariant
                    a <= b < n,
                    c <= n,
                    forall|k: int| 0 <= k < res@.len() ==> is_upper_triple(n as nat, #[trigger] res@[k]),
                    forall|k: int| 0 <= k < res@.len() ==> triple_lt(#[trigger] res@[k], (a, b, c)),
                    forall|t: (usize, usize, usize)|
                        is_upper_triple(n as nat, t) && (t.0 < a || (t.0 == a && t.1 < b) || (t.0
                            == a && t.1 == b && t.2 < c)) ==> #[trigger] res@.contains(t),
                    forall|k1: int, k2: int|
                        0 <= k1 < k2 < res@.len() ==> triple_lt(#[trigger] res@[k1], #[trigger] res@[k2]),
                decreases n - c,
            {
                let ghost prev = res@;
                res.push((a, b, c));
                proof {
                    assert forall|t: (usize, usize, usize)|
                        is_upper_triple(n as nat, t) && (t.0 < a || (t.0 == a && t.1 < b) || (t.0
                            == a && t.1 == b && t.2 < c + 1)) implies #[trigger] res@.contains(t) by {
                        if t == (a, b, c) {
                            assert(res@[prev.len() as int] == t);
                        } else {
                            assert(prev.contains(t));
                            let w = choose|w: int| 0 <= w < prev.len() && prev[w] == t;
                            assert(res@[w] == t);
                        }
                    }
                    assert forall|k1: int, k2: int|
                        0 <= k1 < k2 < res@.len() implies triple_lt(#[trigger] res@[k1], #[trigger] res@[k2]) by {
                        if k2 < prev.len() {
                            assert(res@[k1] == prev[k1] && res@[k2] == prev[k2]);
                        } else {
                            assert(res@[k1] == prev[k1]);
                        }
                    }
                    assert forall|k: int| 0 <= k < res@.len() implies triple_lt(#[trigger] res@[k], (a, b, (c + 1) as usize)) by {
                        if k < prev.len() {
                            assert(res@[k] == prev[k]);
                        }
                    }
                }
                c = c + 1;
            }
            b = b + 1;
        }
        a = a + 1;
    }
    res
}

/// Storing each listed pair at `(a, b)` and at `(b, a)` writes every entry of
/// the `n × n` matrix, and each entry is written by exactly one listed pair.
pub proof fn lemma_symmetric_fill_writes_each_entry_once(
    n: nat,
    s: Seq<(usize, usize)>,
    i: usize,
    j: usize,
)
    requires
        is_upper_pair_listing(n, s),
        i < n,
        j < n,
    ensures
        exists|k: int| 0 <= k < s.len() && pair_writes(#[trigger] s[k], i, j),
        forall|k1: int, k2: int|
            0 <= k1 < s.len() && 0 <= k2 < s.len() && pair_writes(#[trigger] s[k1], i, j)
                && pair_writes(#[trigger] s[k2], i, j) ==> k1 == k2,
{
    let p: (usize, usize) = if i <= j { (i, j) } else { (j, i) };
    assert(is_upper_pair(n, p));
    assert(s.contains(p));
    let w = choose|w: int| 0 <= w < s.len() && s[w] == p;
    assert(pair_writes(s[w], i, j));
    assert forall|k1: int, k2: int|
        0 <= k1 < s.len() && 0 <= k2 < s.len() && pair_writes(#[trigger] s[k1], i, j)
            && pair_writes(#[trigger] s[k2], i, j) implies k1 == k2 by {
        assert(is_upper_pair(n, s[k1]) && is_upper_pair(n, s[k2]));
        assert(s[k1] == s[k2]);
        if k1 < k2 {
            assert(pair_lt(s[k1], s[k2]));
        } else if k2 < k1 {
            assert(pair_lt(s[k2], s[k1]));
        }
    }
}

/// Storing each listed triple `(a, b, c)` at `(a, b, c)` and at `(b, a, c)`
/// writes every entry of the `n × n × n` array, and each entry is written by
/// exactly one listed triple.
pub proof fn lemma_symmetric_derivative_fill_writes_each_entry_once(
    n: nat,
    s: Seq<(usize, usize, usize)>,
    i: usize,
    j: usize,
    c: usize,
)
    requires
        is_upper_triple_listing(n, s),
        i < n,
        j < n,
        c < n,
    ensures
        exists|k: int| 0 <= k < s.len() && (#[trigger] s[k]).2 == c && pair_writes((s[k].0, s[k].1), i, j),
        forall|k1: int, k2: int|
            0 <= k1 < s.len() && 0 <= k2 < s.len() && (#[trigger] s[k1]).2 == c && pair_writes(
                (s[k1].0, s[k1].1),
                i,
                j,
            ) && (#[trigger] s[k2]).2 == c && pair_writes((s[k2].0, s[k2].1), i, j) ==> k1 == k2,
{
    let t: (usize, usize, usize) = if i <= j {
        (i, j, c)
    } else {
        (j, i, c)
    };
    assert(is_upper_triple(n, t));
    assert(s.contains(t));
    let w = choose|w: int| 0 <= w < s.len() && s[w] == t;
    assert(s[w].2 == c && pair_writes((s[w].0, s[w].1), i, j));
    assert forall|k1: int, k2: int|
        0 <= k1 < s.len() && 0 <= k2 < s.len() && (#[trigger] s[k1]).2 == c && pair_writes(
            (s[k1].0, s[k1].1),
            i,
            j,
        ) && (#[trigger] s[k2]).2 == c && pair_writes((s[k2].0, s[k2].1), i, j) implies k1 == k2 by {
        assert(is_upper_triple(n, s[k1]) && is_upper_triple(n, s[k2]));
        assert(s[k1] == s[k2]);
        if k1 < k2 {
            assert(triple_lt(s[k1], s[k2]));
        } else if k2 < k1 {
            assert(triple_lt(s[k2], s[k1]));
        }
    }
}

} // verus!
