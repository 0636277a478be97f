//! The panel layout of composite Simpson's 1/3 rule over `n` sample points:
//! Simpson panels over consecutive pairs of intervals, and a trapezoidal
//! panel for the last interval when the number of intervals is odd.
use vstd::prelude::*;

verus! {

/// One panel of the composite rule, named by the index of its first sample.
#[derive(Debug, Clone, Copy, PartialEq, Eq, Structural)]
pub enum Panel {
    /// Simpson's 1/3 rule over samples `s, s + 1, s + 2`.
    Simpson(usize),
    /// The trapezoidal rule over samples `s, s + 1`.
    Trapezoid(usize),
}

/// The panels of the composite rule over `n` samples: for `n ≥ 2`, Simpson
/// panels starting at `0, 2, 4, …` over `⌊(n − 1) / 2⌋` pairs of intervals,
/// followed by one trapezoidal panel at `n − 2` when `n − 1` is odd; none for
/// fewer than two samples.
pub open spec fn spec_simpson_panels(n: nat) -> Seq<Panel> {
    if n < 2 {
        Seq::empty()
    } else {
        let pairs = ((n - 1) / 2) as nat;
        Seq::new(pairs, |m: int| Panel::Simpson((2 * m) as usize)) + if (n - 1) % 2 == 1 {
            seq![Panel::Trapezoid((n - 2) as usize)]
        } else {
            Seq::empty()
        }
    }
}

/// Panel `p` integrates over the interval between samples `k` and `k + 1`.
pub open spec fn panel_covers(p: Panel, k: usize) -> bool {
    match p {
        Panel::Simpson(s) => s <= k <= s + 1,
        Panel::Trapezoid(s) => k == s,
    }
}

/// The index of the last sample that panel `p` reads.
pub open spec fn panel_last_sample(p: Panel) -> nat {
    match p {
        Panel::Simpson(s) => s as nat + 2,
        Panel::Trapezoid(s) => s as nat + 1,
    }
}

/// The index of the first sample that panel `p` reads.
pub open spec fn panel_start(p: Panel) -> nat {
    match p {
        Panel::Simpson(s) => s as nat,
        Panel::Trapezoid(s) => s as nat,
    }
}

/// The shape of the layout: no panel for fewer than two samples; panels in
/// increasing order of their first sample; one panel per pair of intervals
/// plus one for a leftover interval; and a trapezoidal panel only as the last
/// panel, exactly when the number of intervals is odd.
pub open spec fn panels_well_shaped(n: nat, s: Seq<Panel>) -> bool {
    &&& n < 2 ==> s.len() == 0
    &&& n >= 2 ==> s.len() == (n - 1) / 2 + (n - 1) % 2
    &&& forall|m1: int, m2: int|
        0 <= m1 < m2 < s.len() ==> panel_start(#[trigger] s[m1]) < panel_start(#[trigger] s[m2])
    &&& forall|m: int|
        0 <= m < s.len() && (#[trigger] s[m]) is Trapezoid ==> m == s.len() - 1 && (n - 1) % 2
            == 1
    &&& (n >= 2 && (n - 1) % 2 == 1) ==> s.len() >= 1 && s.last() is Trapezoid
}

/// The layout has the shape of composite Simpson's rule with a trapezoidal
/// fallback for the last interval.
pub proof fn lemma_simpson_panels_shape(n: usize)
    ensures
        panels_well_shaped(n as nat, spec_simpson_panels(n as nat)),
{
    let s = spec_simpson_panels(n as nat);
    if n >= 2 {
        let pairs = ((n - 1) / 2) as nat;
        assert forall|m1: int, m2: int|
            0 <= m1 < m2 < s.len() implies panel_start(#[trigger] s[m1]) < panel_start(
            #[trigger] s[m2],
        ) by {
            assert(m1 < pairs);
            assert(s[m1] == Panel::Simpson((2 * m1) as usize));
            if m2 < pairs {
                assert(s[m2] == Panel::Simpson((2 * m2) as usize));
            } else {
                assert(s[m2] == Panel::Trapezoid((n - 2) as usize));
            }
        }
        assert forall|m: int| 0 <= m < s.len() && (#[trigger] s[m]) is Trapezoid implies m
            == s.len() - 1 && (n - 1) % 2 == 1 by {
            if m < pairs {
                assert(s[m] == Panel::Simpson((2 * m) as usize));
            }
        }
        if (n - 1) % 2 == 1 {
            assert(s[pairs as int] == Panel::Trapezoid((n - 2) as usize));
        }
    }
}

/// Lays out the panels of composite Simpson's rule over `n` samples.
pub fn simpson_panels(n: usize) -> (res: Vec<Panel>)
    ensures
        res@ == spec_simpson_panels(n as nat),
        panels_well_shaped(n as nat, res@),
        forall|m: int| 0 <= m < res@.len() ==> panel_last_sample(#[trigger] res@[m]) < n,
{
    proof {
        lemma_simpson_panels_shape(n);
        if n >= 2 {
            lemma_simpson_panels_partition(n, 0);
        }
    }
    let mut res: Vec<Panel> = Vec::new();
    if n < 2 {
        return res;
    }
    let mut i: usize = 0;
    while i < n - 2
        invariant
            n >= 2,
            i % 2 == 0,
            i <= n - 1,
            res@ == Seq::new((i / 2) as nat, |m: int| Panel::Simpson((2 * m) as usize)),
        decreases n - i,
    {
        res.push(Panel::Simpson(i));
        assert(res@ =~= Seq::new(((i + 2) / 2) as nat, |m: int| Panel::Simpson((2 * m) as usize)));
        i = i + 2;
    }
    assert(i / 2 == (n - 1) / 2);
    if i == n - 2 {
        res.push(Panel::Trapezoid(n - 2));
    }
    assert(res@ =~= spec_simpson_panels(n as nat));
    res
}

/// The panels read only the `n` samples there are, and every interval between
/// consecutive samples is integrated by exactly one panel.
pub proof fn lemma_simpson_panels_partition(n: usize, k: usize)
    requires
        k + 1 < n,
    ensures
        forall|m: int|
            0 <= m < spec_simpson_panels(n as nat).len() ==> panel_last_sample(
                #[trigger] spec_simpson_panels(n as nat)[m],
            ) < n,
        exists|m: int|
            0 <= m < spec_simpson_panels(n as nat).len() && panel_covers(
                #[trigger] spec_simpson_panels(n as nat)[m],
                k,
            ),
        forall|m1: int, m2: int|
            0 <= m1 < spec_simpson_panels(n as nat).len() && 0 <= m2 < spec_simpson_panels(n as nat).len()
                && panel_covers(#[trigger] spec_simpson_panels(n as nat)[m1], k) && panel_covers(
                #[trigger] spec_simpson_panels(n as nat)[m2],
                k,
            ) ==> m1 == m2,
{
    let s = spec_simpson_panels(n as nat);
    let pairs = ((n - 1) / 2) as nat;
    assert forall|m: int| 0 <= m < s.len() implies panel_last_sample(#[trigger] s[m]) < n by {
        if m < pairs {
            assert(s[m] == Panel::Simpson((2 * m) as usize));
        } else {
            assert(s[m] == Panel::Trapezoid((n - 2) as usize));
        }
    }
    if k / 2 < pairs {
        let m = (k / 2) as int;
        assert(s[m] == Panel::Simpson((2 * m) as usize));
        assert(panel_covers(s[m], k));
    } else {
        assert((n - 1) % 2 == 1);
        assert(k == n - 2);
        assert(s[pairs as int] == Panel::Trapezoid((n - 2) as usize));
        assert(panel_covers(s[pairs as int], k));
    }
    assert forall|m1: int, m2: int|
        0 <= m1 < s.len() && 0 <= m2 < s.len() && panel_covers(#[trigger] s[m1], k)
            && panel_covers(#[trigger] s[m2], k) implies m1 == m2 by {
        if m1 < pairs {
            assert(s[m1] == Panel::Simpson((2 * m1) as usize));
        } else {
            assert(s[m1] == Panel::Trapezoid((n - 2) as usize));
        }
        if m2 < pairs {
            assert(s[m2] == Panel::Simpson((2 * m2) as usize));
        } else {
            assert(s[m2] == Panel::Trapezoid((n - 2) as usize));
        }
    }
}

} // verus!
