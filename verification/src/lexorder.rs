//! Lexicographic order on strings (the order of `String`'s `Ord`, which
//! compares UTF-8 bytes and so agrees with comparing code points), and a
//! ranking of named counts: larger count first, then smaller name.
use vstd::prelude::*;
use crate::text::chars_of;

verus! {

/// `a < b` in lexicographic order of code points.
pub open spec fn lex_lt(a: Seq<char>, b: Seq<char>) -> bool
    decreases a.len(),
{
    if b.len() == 0 {
        false
    } else if a.len() == 0 {
        true
    } else if a[0] != b[0] {
        a[0] < b[0]
    } else {
        lex_lt(a.drop_first(), b.drop_first())
    }
}

/// Whether the entry named `p` with count `cp` ranks before the one named
/// `q` with count `cq`: a larger count first, ties broken by the smaller name.
pub open spec fn rank_before(p: Seq<char>, cp: int, q: Seq<char>, cq: int) -> bool {
    cp > cq || (cp == cq && lex_lt(p, q))
}

pub proof fn lemma_lex_irreflexive(a: Seq<char>)
    ensures
        !lex_lt(a, a),
    decreases a.len(),
{
    if a.len() > 0 {
        lemma_lex_irreflexive(a.drop_first());
    }
}

pub proof fn lemma_lex_total(a: Seq<char>, b: Seq<char>)
    requires
        a != b,
    ensures
        lex_lt(a, b) || lex_lt(b, a),
    decreases a.len(),
{
    if a.len() > 0 && b.len() > 0 && a[0] == b[0] {
        if a.drop_first() == b.drop_first() {
            assert(a =~= seq![a[0]] + a.drop_first());
            assert(b =~= seq![b[0]] + b.drop_first());
        }
        lemma_lex_total(a.drop_first(), b.drop_first());
    } else if a.len() == 0 && b.len() == 0 {
        assert(a =~= b);
    }
}

pub proof fn lemma_lex_asymmetric(a: Seq<char>, b: Seq<char>)
    requires
        lex_lt(a, b),
    ensures
        !lex_lt(b, a),
    decreases a.len(),
{
    if a.len() > 0 && b.len() > 0 && a[0] == b[0] {
        lemma_lex_asymmetric(a.drop_first(), b.drop_first());
    }
}

pub proof fn lemma_lex_transitive(a: Seq<char>, b: Seq<char>, c: Seq<char>)
    requires
        lex_lt(a, b),
        lex_lt(b, c),
    ensures
        lex_lt(a, c),
    decreases a.len(),
{
    if a.len() > 0 && b.len() > 0 && c.len() > 0 && a[0] == b[0] && b[0] == c[0] {
        lemma_lex_transitive(a.drop_first(), b.drop_first(), c.drop_first());
    }
}

/// Two distinct names with any counts are ordered one way or the other.
pub proof fn lemma_rank_total(p: Seq<char>, cp: int, q: Seq<char>, cq: int)
    requires
        p != q,
    ensures
        rank_before(p, cp, q, cq) || rank_before(q, cq, p, cp),
{
    lemma_lex_total(p, q);
}

/// Ranking is asymmetric.
pub proof fn lemma_rank_asymmetric(p: Seq<char>, cp: int, q: Seq<char>, cq: int)
    requires
        rank_before(p, cp, q, cq),
    ensures
        !rank_before(q, cq, p, cp),
{
    if cp == cq {
        lemma_lex_asymmetric(p, q);
    }
}

/// `a < b` lexicographically.
pub fn chars_lt(a: &[char], b: &[char]) -> (res: bool)
    ensures
        res == lex_lt(a@, b@),
{
    let mut i: usize = 0;
    assert(a@.skip(0) =~= a@ && b@.skip(0) =~= b@);
    assert(a@.take(0) =~= b@.take(0));
    while i < a.len() && i < b.len()
        invariant
            i <= a.len(),
            i <= b.len(),
            a@.take(i as int) == b@.take(i as int),
            lex_lt(a@, b@) == lex_lt(a@.skip(i as int), b@.skip(i as int)),
        decreases a.len() - i,
    {
        let ghost sa = a@.skip(i as int);
        let ghost sb = b@.skip(i as int);
        if a[i] != b[i] {
            assert(sa[0] == a@[i as int] && sb[0] == b@[i as int]);
            return a[i] < b[i];
        }
        assert(sa.drop_first() =~= a@.skip(i + 1));
        assert(sb.drop_first() =~= b@.skip(i + 1));
        i = i + 1;
        assert(a@.take(i as int) =~= a@.take(i - 1).push(a@[i - 1]));
        assert(b@.take(i as int) =~= b@.take(i - 1).push(b@[i - 1]));
    }
    i < b.len()
}

/// `a < b` for strings.
pub fn str_lt(a: &str, b: &str) -> (res: bool)
    ensures
        res == lex_lt(a@, b@),
{
    chars_lt(&chars_of(a), &chars_of(b))
}

/// Whether the entry `(p, cp)` ranks before `(q, cq)`.
pub fn ranks_before(p: &str, cp: u64, q: &str, cq: u64) -> (res: bool)
    ensures
        res == rank_before(p@, cp as int, q@, cq as int),
{
    cp > cq || (cp == cq && str_lt(p, q))
}

/// The order in which `select_ranked` lists entries: a strictly ranked run of
/// distinct indices, of length `min(limit, n)`, that ranks before every entry
/// it leaves out.
pub open spec fn is_ranked_selection(
    names: Seq<Seq<char>>,
    counts: Seq<u64>,
    limit: int,
    sel: Seq<usize>,
) -> bool {
    &&& sel.len() == (if limit < names.len() {
        limit
    } else {
        names.len() as int
    })
    &&& forall|t: int| 0 <= t < sel.len() ==> #[trigger] sel[t] < names.len()
    &&& forall|t: int, u: int|
        0 <= t < u < sel.len() ==> rank_before(
            names[sel[t] as int],
            counts[sel[t] as int] as int,
            names[sel[u] as int],
            counts[sel[u] as int] as int,
        )
    &&& forall|t: int, k: int|
        0 <= t < sel.len() && 0 <= k < names.len() && !sel.contains(k as usize) ==> rank_before(
            names[sel[t] as int],
            counts[sel[t] as int] as int,
            names[k],
            counts[k] as int,
        )
}

/// Whether the names are pairwise distinct.
pub open spec fn distinct_names(names: Seq<Seq<char>>) -> bool {
    forall|a: int, b: int| 0 <= a < b < names.len() ==> names[a] != names[b]
}

/// The views of some strings.
pub open spec fn string_views(v: Seq<String>) -> Seq<Seq<char>> {
    v.map_values(|s: String| s@)
}

/// Indices of the first `min(limit, n)` entries in rank order (larger count
/// first, then smaller name), for entries with distinct names.
pub fn select_ranked(names: &Vec<String>, counts: &Vec<u64>, limit: usize) -> (res: Vec<usize>)
    requires
        names@.len() == counts@.len(),
        distinct_names(string_views(names@)),
    ensures
        is_ranked_selection(string_views(names@), counts@, limit as int, res@),
        forall|t: int, u: int| 0 <= t < u < res@.len() ==> res@[t] != res@[u],
        limit >= names@.len() ==> forall|k: int| 0 <= k < names@.len() ==> #[trigger] holds_index(res@, k),
{
    let ghost nv = string_views(names@);
    let n = names.len();
    let mut chosen: Vec<bool> = Vec::new();
    let mut k: usize = 0;
    while k < n
        invariant
            k <= n,
            chosen@.len() == k,
            forall|t: int| 0 <= t < k ==> !#[trigger] chosen@[t],
        decreases n - k,
    {
        chosen.push(false);
        k = k + 1;
    }
    let target: usize = if limit < n {
        limit
    } else {
        n
    };
    let mut sel: Vec<usize> = Vec::new();
    while sel.len() < target
        invariant
            n == names@.len(),
            n == counts@.len(),
            nv == string_views(names@),
            distinct_names(nv),
            target <= n,
            target == (if limit < n { limit } else { n }),
            sel@.len() <= target,
            chosen@.len() == n,
            forall|k2: int| 0 <= k2 < n ==> (#[trigger] chosen@[k2] <==> sel@.contains(k2 as usize)),
            forall|t: int| 0 <= t < sel@.len() ==> #[trigger] sel@[t] < n,
            forall|t: int, u: int|
                0 <= t < u < sel@.len() ==> sel@[t] != sel@[u],
            forall|t: int, u: int|
                0 <= t < u < sel@.len() ==> rank_before(
                    nv[sel@[t] as int],
                    counts@[sel@[t] as int] as int,
                    nv[sel@[u] as int],
                    counts@[sel@[u] as int] as int,
                ),
            forall|t: int, k2: int|
                0 <= t < sel@.len() && 0 <= k2 < n && !chosen@[k2] ==> rank_before(
                    nv[sel@[t] as int],
                    counts@[sel@[t] as int] as int,
                    nv[k2],
                    counts@[k2] as int,
                ),
        decreases target - sel@.len(),
    {
        // Some entry is still unchosen: the chosen ones are exactly `sel`, which is shorter than n.
        let ghost unchosen_exists = exists|k2: int| 0 <= k2 < n && !chosen@[k2];
        proof {
            if !unchosen_exists {
                // every index is chosen, so `sel` covers 0..n without repetition
                assert forall|k2: int| 0 <= k2 < n implies #[trigger] holds_index(sel@, k2) by {
                    assert(chosen@[k2]);
                }
                lemma_covering_len(sel@, n as int);
                assert(false);
            }
        }
        let mut best: usize = 0;
        while best < n && chosen[best]
            invariant
                best <= n,
                chosen@.len() == n,
                forall|k2: int| 0 <= k2 < best ==> #[trigger] chosen@[k2],
                exists|k2: int| 0 <= k2 < n && !chosen@[k2],
            decreases n - best,
        {
            best = best + 1;
        }
        let mut k: usize = best + 1;
        while k < n
            invariant
                n == names@.len(),
                n == counts@.len(),
                nv == string_views(names@),
                best < n,
                !chosen@[best as int],
                chosen@.len() == n,
                best < k <= n,
                forall|k2: int|
                    0 <= k2 < k && !#[trigger] chosen@[k2] && k2 != best ==> !rank_before(
                        nv[k2],
                        counts@[k2] as int,
                        nv[best as int],
                        counts@[best as int] as int,
                    ),
            decreases n - k,
        {
            if !chosen[k] && ranks_before(names[k].as_str(), counts[k], names[best].as_str(), counts[best]) {
                proof {
                    assert forall|k2: int|
                        0 <= k2 < k && !#[trigger] chosen@[k2] && k2 != k implies !rank_before(
                        nv[k2],
                        counts@[k2] as int,
                        nv[k as int],
                        counts@[k as int] as int,
                    ) by {
                        if k2 == best {
                            lemma_rank_asymmetric(nv[k as int], counts@[k as int] as int, nv[k2], counts@[k2] as int);
                        } else {
                            // k2 does not rank before best, and k ranks before best
                            if rank_before(nv[k2], counts@[k2] as int, nv[k as int], counts@[k as int] as int) {
                                lemma_rank_transitive(
                                    nv[k2], counts@[k2] as int,
                                    nv[k as int], counts@[k as int] as int,
                                    nv[best as int], counts@[best as int] as int,
                                );
                            }
                        }
                    }
                }
                best = k;
            }
            k = k + 1;
        }
        proof {
            assert forall|k2: int| 0 <= k2 < n && !chosen@[k2] && k2 != best implies rank_before(
                nv[best as int],
                counts@[best as int] as int,
                nv[k2],
                counts@[k2] as int,
            ) by {
                assert(nv[k2] != nv[best as int]) by {
                    if k2 < best {
                        assert(nv[k2] != nv[best as int]);
                    } else {
                        assert(nv[best as int] != nv[k2]);
                    }
                }
                lemma_rank_total(nv[k2], counts@[k2] as int, nv[best as int], counts@[best as int] as int);
            }
        }
        let ghost old_sel = sel@;
        let ghost old_chosen = chosen@;
        chosen.set(best, true);
        sel.push(best);
        proof {
            assert forall|k2: int| 0 <= k2 < n implies (#[trigger] chosen@[k2] <==> sel@.contains(k2 as usize)) by {
                if k2 == best {
                    assert(sel@[sel@.len() - 1] == best);
                } else {
                    if sel@.contains(k2 as usize) {
                        let t = choose|t: int| 0 <= t < sel@.len() && sel@[t] == k2 as usize;
                        assert(old_sel.contains(k2 as usize)) by {
                            assert(old_sel[t] == k2 as usize);
                        }
                    }
                    if old_sel.contains(k2 as usize) {
                        let t = choose|t: int| 0 <= t < old_sel.len() && old_sel[t] == k2 as usize;
                        assert(sel@[t] == k2 as usize);
                    }
                }
            }
            assert forall|t: int, u: int| 0 <= t < u < sel@.len() implies sel@[t] != sel@[u] by {
                if u == sel@.len() - 1 {
                    assert(old_chosen[sel@[t] as int]);
                }
            }
        }
    }
    proof {
        if limit >= n {
            assert forall|k2: int| 0 <= k2 < n implies #[trigger] holds_index(sel@, k2) by {
                lemma_missing_index(sel@, n as int, k2);
            }
        }
    }
    sel
}

/// A sequence without repetition of indices below `m` has at most `m` elements.
proof fn lemma_distinct_bound(sel: Seq<usize>, m: int)
    requires
        0 <= m <= usize::MAX,
        forall|t: int| 0 <= t < sel.len() ==> #[trigger] sel[t] < m,
        forall|t: int, u: int| 0 <= t < u < sel.len() ==> sel[t] != sel[u],
    ensures
        sel.len() <= m,
    decreases m,
{
    if m > 0 {
        let top = (m - 1) as usize;
        if sel.contains(top) {
            let t = choose|t: int| 0 <= t < sel.len() && sel[t] == top;
            let rest = sel.remove(t);
            assert forall|a: int| 0 <= a < rest.len() implies #[trigger] rest[a] < m - 1 by {
                let a2 = if a < t { a } else { a + 1 };
                assert(rest[a] == sel[a2]);
                assert(a2 != t);
            }
            assert forall|a: int, b: int| 0 <= a < b < rest.len() implies rest[a] != rest[b] by {
                let a2 = if a < t { a } else { a + 1 };
                let b2 = if b < t { b } else { b + 1 };
                assert(rest[a] == sel[a2] && rest[b] == sel[b2]);
            }
            lemma_distinct_bound(rest, m - 1);
        } else {
            assert forall|a: int| 0 <= a < sel.len() implies #[trigger] sel[a] < m - 1 by {
                assert(sel[a] != top);
            }
            lemma_distinct_bound(sel, m - 1);
        }
    } else {
        if sel.len() > 0 {
            assert(sel[0] < m);
        }
    }
}

/// A sequence without repetition of `n` indices below `n` holds every index
/// below `n`.
proof fn lemma_missing_index(sel: Seq<usize>, n: int, k: int)
    requires
        0 <= k < n <= usize::MAX,
        sel.len() == n,
        forall|t: int| 0 <= t < sel.len() ==> #[trigger] sel[t] < n,
        forall|t: int, u: int| 0 <= t < u < sel.len() ==> sel[t] != sel[u],
    ensures
        holds_index(sel, k),
{
    if !holds_index(sel, k) {
        let squeezed = sel.map_values(|x: usize| if x as int > k { (x - 1) as usize } else { x });
        assert forall|t: int| 0 <= t < squeezed.len() implies #[trigger] squeezed[t] < n - 1 by {
            assert(sel[t] != k as usize);
        }
        assert forall|a: int, b: int| 0 <= a < b < squeezed.len() implies squeezed[a] != squeezed[b] by {
            assert(sel[a] != k as usize);
            assert(sel[b] != k as usize);
        }
        lemma_distinct_bound(squeezed, n - 1);
    }
}

/// Ranking is transitive.
pub proof fn lemma_rank_transitive(
    p: Seq<char>,
    cp: int,
    q: Seq<char>,
    cq: int,
    r: Seq<char>,
    cr: int,
)
    requires
        rank_before(p, cp, q, cq),
        rank_before(q, cq, r, cr),
    ensures
        rank_before(p, cp, r, cr),
{
    if cp == cq && cq == cr {
        lemma_lex_transitive(p, q, r);
    }
}

/// Whether index `k` occurs in `sel`.
pub open spec fn holds_index(sel: Seq<usize>, k: int) -> bool {
    sel.contains(k as usize)
}

/// A sequence of indices below `n` without repetition that contains every
/// index below `n` has at least `n` elements.
proof fn lemma_covering_len(sel: Seq<usize>, n: int)
    requires
        0 <= n <= usize::MAX,
        forall|k: int| 0 <= k < n ==> #[trigger] holds_index(sel, k),
        forall|t: int, u: int| 0 <= t < u < sel.len() ==> sel[t] != sel[u],
    ensures
        sel.len() >= n,
    decreases n,
{
    if n > 0 {
        // remove the occurrence of n - 1 and recurse
        assert(holds_index(sel, n - 1));
        let t = choose|t: int| 0 <= t < sel.len() && sel[t] == (n - 1) as usize;
        let rest = sel.remove(t);
        assert forall|k: int| 0 <= k < n - 1 implies #[trigger] holds_index(rest, k) by {
            assert(holds_index(sel, k));
            let u = choose|u: int| 0 <= u < sel.len() && sel[u] == k as usize;
            if u < t {
                assert(rest[u] == k as usize);
            } else {
                assert(u != t);
                assert(rest[u - 1] == k as usize);
            }
        }
        assert forall|a: int, b: int| 0 <= a < b < rest.len() implies rest[a] != rest[b] by {
            let a2 = if a < t { a } else { a + 1 };
            let b2 = if b < t { b } else { b + 1 };
            assert(rest[a] == sel[a2] && rest[b] == sel[b2]);
        }
        lemma_covering_len(rest, n - 1);
    }
}

} // verus!
