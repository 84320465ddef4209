//! Fuzzy search over media names.

use vstd::prelude::*;

verus! {

/// The score `fuzzy_matcher`'s default `SkimMatcherV2` gives to `choice` for
/// `pattern`; `None` when `choice` does not match.
pub uninterp spec fn spec_skim_score(choice: Seq<char>, pattern: Seq<char>) -> Option<i64>;

/// Calls `SkimMatcherV2::default().fuzzy_match(choice, pattern)`. The score
/// is a function of the two texts alone; an empty pattern matches every
/// choice with score 0 (the matcher returns `Some(0)` for it before looking
/// at the choice).
#[verifier::external_body]
fn skim_score(choice: &str, pattern: &str) -> (res: Option<i64>)
    ensures
        res == spec_skim_score(choice@, pattern@),
        pattern@.len() == 0 ==> res == Some(0i64),
{
    let matcher = fuzzy_matcher::skim::SkimMatcherV2::default();
    fuzzy_matcher::FuzzyMatcher::fuzzy_match(&matcher, choice, pattern)
}

/// `(sa, ia)` ranks strictly above `(sb, ib)`: higher score, or the same
/// score and a later position.
pub open spec fn ranks_above(sa: i64, ia: int, sb: i64, ib: int) -> bool {
    sa > sb || (sa == sb && ia > ib)
}

/// `out` lists the names at the positions `q`: exactly the positions whose
/// score is not `None`, best score first and, among equal scores, later
/// names first.
pub open spec fn search_order_by(out: Seq<Seq<char>>, names: Seq<Seq<char>>, scores: Seq<Option<i64>>, q: Seq<int>) -> bool {
    &&& out.len() == q.len()
    &&& forall|k: int|
        0 <= k < q.len() ==> 0 <= #[trigger] q[k] < names.len() && scores[q[k]] is Some && out[k] == names[q[k]]
    &&& forall|i: int| 0 <= i < names.len() && (#[trigger] scores[i]) is Some ==> exists|k: int| 0 <= k < q.len() && q[k] == i
    &&& forall|a: int, b: int|
        0 <= a < b < q.len() ==> ranks_above(scores[#[trigger] q[a]]->0, q[a], scores[#[trigger] q[b]]->0, q[b])
}

/// `out` is the search result for names with the given scores.
pub open spec fn is_search_order(out: Seq<Seq<char>>, names: Seq<Seq<char>>, scores: Seq<Option<i64>>) -> bool {
    exists|q: Seq<int>| search_order_by(out, names, scores, q)
}

/// The names whose score is not `None`, ordered by score from best to
/// worst; among equal scores the name that comes later in `names` comes
/// first (the order of a stable ascending sort by score, reversed).
pub fn order_by_score(names: &Vec<String>, scores: &Vec<Option<i64>>) -> (res: Vec<String>)
    requires
        names@.len() == scores@.len(),
    ensures
        is_search_order(crate::media::string_views(res@), crate::media::string_views(names@), scores@),
{
    let ghost nv = crate::media::string_views(names@);
    // positions with a score, ranked
    let mut ranked: Vec<(usize, i64)> = Vec::new();
    let mut i: usize = 0;
    while i < names.len()
        invariant
            i <= names@.len(),
            names@.len() == scores@.len(),
            forall|k: int| 0 <= k < ranked@.len() ==> (#[trigger] ranked@[k]).0 < i
                && scores@[ranked@[k].0 as int] == Some(ranked@[k].1),
            forall|t: int| 0 <= t < i && (#[trigger] scores@[t]) is Some ==> exists|k: int| 0 <= k < ranked@.len() && ranked@[k].0 == t,
            forall|a: int, b: int| 0 <= a < b < ranked@.len() ==> ranks_above(
                (#[trigger] ranked@[a]).1, ranked@[a].0 as int, (#[trigger] ranked@[b]).1, ranked@[b].0 as int),
        decreases names@.len() - i,
    {
        match scores[i] {
            Some(score) => {
                let ghost before = ranked@;
                let mut j: usize = ranked.len();
                while j > 0 && ranked[j - 1].1 <= score
                    invariant
                        j <= ranked@.len(),
                        ranked@ == before,
                        forall|m: int| j <= m < ranked@.len() ==> (#[trigger] ranked@[m]).1 <= score,
                    decreases j,
                {
                    j = j - 1;
                }
                ranked.insert(j, (i, score));
                proof {
                    assert forall|k: int| 0 <= k < ranked@.len() implies (#[trigger] ranked@[k]).0 < i + 1
                        && scores@[ranked@[k].0 as int] == Some(ranked@[k].1) by {
                        if k < j {
                            assert(ranked@[k] == before[k]);
                        } else if k > j {
                            assert(ranked@[k] == before[k - 1]);
                        }
                    }
                    assert forall|t: int| 0 <= t < i + 1 && (#[trigger] scores@[t]) is Some implies exists|k: int| 0 <= k < ranked@.len() && ranked@[k].0 == t by {
                        if t == i {
                            assert(ranked@[j as int].0 == t);
                        } else {
                            let k0 = choose|k: int| 0 <= k < before.len() && before[k].0 == t;
                            if k0 < j {
                                assert(ranked@[k0] == before[k0]);
                            } else {
                                assert(ranked@[k0 + 1] == before[k0]);
                            }
                        }
                    }
                    assert forall|a: int, b: int| 0 <= a < b < ranked@.len() implies ranks_above(
                        (#[trigger] ranked@[a]).1, ranked@[a].0 as int, (#[trigger] ranked@[b]).1, ranked@[b].0 as int) by {
                        if a < j && b < j {
                            assert(ranked@[a] == before[a] && ranked@[b] == before[b]);
                        } else if a < j && b == j {
                            assert(ranked@[a] == before[a]);
                            assert(before[j - 1].1 > score);
                            if a < j - 1 {
                                assert(ranks_above(before[a].1, before[a].0 as int, before[j - 1].1, before[j - 1].0 as int));
                            }
                        } else if a < j && b > j {
                            assert(ranked@[a] == before[a] && ranked@[b] == before[b - 1]);
                        } else if a == j {
                            assert(ranked@[b] == before[b - 1]);
                        } else {
                            assert(ranked@[a] == before[a - 1] && ranked@[b] == before[b - 1]);
                        }
                    }
                }
            },
            None => {},
        }
        i = i + 1;
    }
    let mut res: Vec<String> = Vec::new();
    let mut k: usize = 0;
    while k < ranked.len()
        invariant
            k <= ranked@.len(),
            res@.len() == k,
            names@.len() == scores@.len(),
            forall|m: int| 0 <= m < ranked@.len() ==> (#[trigger] ranked@[m]).0 < names@.len(),
            forall|m: int| 0 <= m < k ==> (#[trigger] res@[m])@ == names@[ranked@[m].0 as int]@,
        decreases ranked@.len() - k,
    {
        let idx = ranked[k].0;
        res.push(names[idx].clone());
        k = k + 1;
    }
    let ghost q = ranked@.map_values(|e: (usize, i64)| e.0 as int);
    proof {
        let out = crate::media::string_views(res@);
        assert forall|m: int| 0 <= m < q.len() implies 0 <= #[trigger] q[m] < nv.len() && scores@[q[m]] is Some && out[m] == nv[q[m]] by {
            assert(res@[m]@ == names@[ranked@[m].0 as int]@);
        }
        assert forall|t: int| 0 <= t < nv.len() && (#[trigger] scores@[t]) is Some implies exists|m: int| 0 <= m < q.len() && q[m] == t by {
            let m0 = choose|m: int| 0 <= m < ranked@.len() && ranked@[m].0 == t;
            assert(q[m0] == t);
        }
        assert forall|a: int, b: int| 0 <= a < b < q.len() implies ranks_above(scores@[#[trigger] q[a]]->0, q[a], scores@[#[trigger] q[b]]->0, q[b]) by {
            assert(ranks_above(ranked@[a].1, ranked@[a].0 as int, ranked@[b].1, ranked@[b].0 as int));
        }
        assert(search_order_by(out, nv, scores@, q));
    }
    res
}

proof fn lemma_unit_steps(q: Seq<int>, n: int, k: int)
    requires
        0 <= k < q.len(),
        q[0] == n - 1,
        forall|j: int| 0 <= j < q.len() - 1 ==> #[trigger] q[j + 1] == q[j] - 1,
    ensures
        q[k] == n - 1 - k,
    decreases k,
{
    if k > 0 {
        lemma_unit_steps(q, n, k - 1);
        assert(q[(k - 1) + 1] == q[k - 1] - 1);
    }
}

/// When every name has the same score, the search lists all names in
/// reverse order.
pub proof fn lemma_equal_scores_reverse(out: Seq<Seq<char>>, names: Seq<Seq<char>>, scores: Seq<Option<i64>>, c: i64)
    requires
        scores.len() == names.len(),
        forall|i: int| 0 <= i < scores.len() ==> scores[i] == Some(c),
        is_search_order(out, names, scores),
    ensures
        out == names.reverse(),
{
    let q = choose|q: Seq<int>| search_order_by(out, names, scores, q);
    let n = names.len() as int;
    assert forall|a: int, b: int| 0 <= a < b < q.len() implies q[a] > q[b] by {
        assert(ranks_above(scores[q[a]]->0, q[a], scores[q[b]]->0, q[b]));
    }
    if n == 0 {
        if q.len() > 0 {
            assert(0 <= q[0] < n);
        }
        assert(out =~= names.reverse());
        return;
    }
    // the last name comes first
    assert(scores[n - 1] is Some);
    let m_top = choose|k: int| 0 <= k < q.len() && q[k] == n - 1;
    assert(q[0] == n - 1) by {
        if m_top > 0 {
            assert(q[0] > q[m_top]);
            assert(q[0] < n);
        }
    }
    // consecutive positions differ by one
    assert forall|k: int| 0 <= k < q.len() - 1 implies #[trigger] q[k + 1] == q[k] - 1 by {
        if q[k + 1] < q[k] - 1 {
            let t = q[k] - 1;
            assert(0 <= t < n);
            assert(scores[t] is Some);
            let m = choose|m: int| 0 <= m < q.len() && q[m] == t;
            if m <= k {
                if m < k {
                    assert(q[m] > q[k]);
                }
            } else {
                if m > k + 1 {
                    assert(q[k + 1] > q[m]);
                }
            }
        }
    }
    assert forall|k: int| 0 <= k < q.len() implies #[trigger] q[k] == n - 1 - k by {
        lemma_unit_steps(q, n, k);
    }
    // the first name comes last
    assert(scores[0] is Some);
    let m_bottom = choose|k: int| 0 <= k < q.len() && q[k] == 0;
    assert(q.len() == n) by {
        assert(q[m_bottom] == n - 1 - m_bottom);
        assert(0 <= q[q.len() - 1] < n);
        assert(q[q.len() - 1] == n - 1 - (q.len() - 1));
    }
    assert forall|k: int| 0 <= k < out.len() implies out[k] == names.reverse()[k] by {
        assert(q[k] == n - 1 - k);
    }
    assert(out =~= names.reverse());
}

/// The spec of the scores of `names` for `pattern`.
pub open spec fn scores_for(names: Seq<Seq<char>>, pattern: Seq<char>) -> Seq<Option<i64>> {
    names.map_values(|n: Seq<char>| spec_skim_score(n, pattern))
}

/// The names that match `pattern`, best match first (equal scores: later
/// names first).
pub fn fuzzy_search(names: &Vec<String>, pattern: &str) -> (res: Vec<String>)
    ensures
        is_search_order(
            crate::media::string_views(res@),
            crate::media::string_views(names@),
            scores_for(crate::media::string_views(names@), pattern@),
        ),
        pattern@.len() == 0 ==> crate::media::string_views(res@) == crate::media::string_views(names@).reverse(),
{
    let mut scores: Vec<Option<i64>> = Vec::new();
    let mut i: usize = 0;
    while i < names.len()
        invariant
            i <= names@.len(),
            scores@ =~= scores_for(crate::media::string_views(names@), pattern@).subrange(0, i as int),
            pattern@.len() == 0 ==> forall|k: int| 0 <= k < i ==> scores@[k] == Some(0i64),
        decreases names@.len() - i,
    {
        let score = skim_score(names[i].as_str(), pattern);
        scores.push(score);
        i = i + 1;
    }
    assert(scores@ =~= scores_for(crate::media::string_views(names@), pattern@));
    let res = order_by_score(names, &scores);
    proof {
        if pattern@.len() == 0 {
            lemma_equal_scores_reverse(
                crate::media::string_views(res@),
                crate::media::string_views(names@),
                scores@,
                0i64,
            );
        }
    }
    res
}

} // verus!
