//! Nearest-rank percentiles of millisecond durations.
use vstd::prelude::*;
use vstd::relations::{sorted_by, total_ordering};

verus! {

broadcast use vstd::seq_lib::group_to_multiset_ensures;

/// The order `<=` on durations.
pub open spec fn u32_leq() -> spec_fn(u32, u32) -> bool {
    |a: u32, b: u32| a <= b
}

/// `s` in ascending order.
pub open spec fn sorted_durations(s: Seq<u32>) -> Seq<u32> {
    s.sort_by(u32_leq())
}

/// The rank used for the `pct`-th percentile of `n` values:
/// `ceil((n - 1) * pct / 100)`.
pub open spec fn percentile_rank(n: int, pct: int) -> int {
    ((n - 1) * pct + 99) / 100
}

/// The `pct`-th percentile of `s`: the element at `percentile_rank` of `s` in
/// ascending order, or 0 for an empty `s`.
pub open spec fn percentile_spec(s: Seq<u32>, pct: int) -> u32 {
    if s.len() == 0 {
        0
    } else {
        let r = percentile_rank(s.len() as int, pct);
        sorted_durations(s)[if r < s.len() { r } else { s.len() - 1 }]
    }
}

proof fn lemma_u32_leq_total()
    ensures
        total_ordering(u32_leq()),
{
}

/// `v` in ascending order.
pub fn sorted_copy(v: &Vec<u32>) -> (res: Vec<u32>)
    ensures
        res@ == sorted_durations(v@),
        res@.len() == v@.len(),
{
    let mut out: Vec<u32> = Vec::new();
    let mut i: usize = 0;
    while i < v.len()
        invariant
            i <= v.len(),
            sorted_by(out@, u32_leq()),
            out@.to_multiset() == v@.take(i as int).to_multiset(),
            out@.len() == i,
        decreases v.len() - i,
    {
        let x = v[i];
        let mut pos: usize = 0;
        while pos < out.len() && out[pos] <= x
            invariant
                pos <= out.len(),
                forall|k: int| 0 <= k < pos ==> out@[k] <= x,
            decreases out.len() - pos,
        {
            pos = pos + 1;
        }
        let ghost before = out@;
        out.insert(pos, x);
        proof {
            assert(v@.take(i + 1) =~= v@.take(i as int).push(x));
            assert forall|a: int, b: int| 0 <= a < b < out@.len() implies #[trigger] (u32_leq())(
                out@[a],
                out@[b],
            ) by {
                if b < pos {
                    assert((u32_leq())(before[a], before[b]));
                } else if a < pos && b == pos {
                } else if a < pos {
                    assert((u32_leq())(before[a], before[b - 1]));
                } else if a == pos {
                    if b - 1 > pos {
                        assert((u32_leq())(before[pos as int], before[b - 1]));
                    }
                } else {
                    assert((u32_leq())(before[a - 1], before[b - 1]));
                }
            }
        }
        i = i + 1;
    }
    proof {
        assert(v@.take(v.len() as int) =~= v@);
        lemma_u32_leq_total();
        v@.lemma_sort_by_ensures(u32_leq());
        vstd::seq_lib::lemma_sorted_unique(out@, v@.sort_by(u32_leq()), u32_leq());
    }
    out
}

/// The `pct`-th percentile (`pct <= 100`) of the values `sorted`, which are
/// in ascending order.
pub(crate) fn percentile_of_sorted(sorted: &Vec<u32>, pct: u64, ghost_of: Ghost<Seq<u32>>) -> (res: u32)
    requires
        pct <= 100,
        sorted@ == sorted_durations(ghost_of@),
        sorted@.len() == ghost_of@.len(),
    ensures
        res == percentile_spec(ghost_of@, pct as int),
{
    if sorted.len() == 0 {
        return 0;
    }
    let n = sorted.len() as u64;
    assert((n - 1) * pct + 99 <= 100 * n + 99) by (nonlinear_arith)
        requires
            pct <= 100,
            n >= 1,
    ;
    assert(n <= 0x1_0000_0000_0000_0000);
    let r128: u128 = ((n as u128 - 1) * (pct as u128) + 99) / 100;
    let idx: usize = if r128 < sorted.len() as u128 {
        r128 as usize
    } else {
        sorted.len() - 1
    };
    sorted[idx]
}

/// The `pct`-th percentile (`pct <= 100`) of `durations` by nearest rank:
/// the value at index `ceil((n - 1) * pct / 100)` once sorted, 0 when empty.
pub fn percentile(durations: &Vec<u32>, pct: u64) -> (res: u32)
    requires
        pct <= 100,
    ensures
        res == percentile_spec(durations@, pct as int),
{
    let sorted = sorted_copy(durations);
    percentile_of_sorted(&sorted, pct, Ghost(durations@))
}

/// A lower percentile never exceeds a higher one: in particular the median
/// is at most the 95th percentile.
pub proof fn law_percentiles_are_ordered(s: Seq<u32>, lo: int, hi: int)
    requires
        0 <= lo <= hi <= 100,
    ensures
        percentile_spec(s, lo) <= percentile_spec(s, hi),
{
    if s.len() > 0 {
        lemma_u32_leq_total();
        s.lemma_sort_by_ensures(u32_leq());
        let t = sorted_durations(s);
        assert(t.len() == s.len()) by {
            s.to_multiset_ensures();
            t.to_multiset_ensures();
        }
        let n = s.len() as int;
        let rl = percentile_rank(n, lo);
        let rh = percentile_rank(n, hi);
        assert((n - 1) * lo <= (n - 1) * hi) by (nonlinear_arith)
            requires
                n >= 1,
                lo <= hi,
        ;
        assert(rl <= rh) by (nonlinear_arith)
            requires
                rl == ((n - 1) * lo + 99) / 100,
                rh == ((n - 1) * hi + 99) / 100,
                (n - 1) * lo <= (n - 1) * hi,
        ;
        assert(0 <= rl) by (nonlinear_arith)
            requires
                rl == ((n - 1) * lo + 99) / 100,
                n >= 1,
                lo >= 0,
        ;
        let il = if rl < n { rl } else { n - 1 };
        let ih = if rh < n { rh } else { n - 1 };
        if il < ih {
            assert(u32_leq()(t[il], t[ih]));
        }
    }
}

/// A percentile of a non-empty sample is one of its values.
pub proof fn law_percentile_is_a_sample(s: Seq<u32>, pct: int)
    requires
        0 <= pct <= 100,
        s.len() > 0,
    ensures
        s.contains(percentile_spec(s, pct)),
{
    lemma_u32_leq_total();
    s.lemma_sort_by_ensures(u32_leq());
    let t = sorted_durations(s);
    s.to_multiset_ensures();
    t.to_multiset_ensures();
    let n = s.len() as int;
    let r = percentile_rank(n, pct);
    assert(0 <= r) by (nonlinear_arith)
        requires
            r == ((n - 1) * pct + 99) / 100,
            n >= 1,
            pct >= 0,
    ;
    let k = if r < n { r } else { n - 1 };
    assert(t.contains(t[k]));
    assert(s.to_multiset().count(t[k]) > 0);
}

} // verus!
