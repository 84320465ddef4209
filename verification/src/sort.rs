//! Stable sorting by a textual key.

use vstd::prelude::*;
use crate::text::{seq_lt, str_lt, lemma_seq_lt_total, lemma_seq_lt_transitive, lemma_seq_lt_asymmetric};

verus! {

/// A value sorted by a string: a media by its name, an episode by its path.
pub trait SortKey {
    spec fn sort_key(&self) -> Seq<char>;

    fn key_str(&self) -> (res: &str)
        ensures
            res@ == self.sort_key();
}

impl SortKey for String {
    open spec fn sort_key(&self) -> Seq<char> {
        self@
    }

    fn key_str(&self) -> (res: &str) {
        self.as_str()
    }
}

/// `(ka, ia)` comes strictly before `(kb, ib)`: by key, then by position.
pub open spec fn key_index_lt(ka: Seq<char>, ia: int, kb: Seq<char>, ib: int) -> bool {
    seq_lt(ka, kb) || (ka == kb && ia < ib)
}

/// `p` reorders `0..n`: each position holds a distinct index below `n`.
pub open spec fn is_permutation(p: Seq<int>, n: nat) -> bool {
    &&& p.len() == n
    &&& forall|k: int| 0 <= k < n ==> 0 <= #[trigger] p[k] < n
    &&& forall|a: int, b: int| 0 <= a < n && 0 <= b < n && a != b ==> p[a] != p[b]
}

/// `out` holds the elements of `inp` taken at the positions `p`, ordered
/// by key and, among equal keys, by their position in `inp`.
pub open spec fn sorted_by_permutation<T: SortKey>(out: Seq<T>, inp: Seq<T>, p: Seq<int>) -> bool {
    &&& out.len() == inp.len()
    &&& is_permutation(p, inp.len())
    &&& forall|k: int| 0 <= k < out.len() ==> out[k] == inp[#[trigger] p[k]]
    &&& forall|a: int, b: int|
        0 <= a < b < out.len() ==> key_index_lt(
            (#[trigger] out[a]).sort_key(),
            p[a],
            (#[trigger] out[b]).sort_key(),
            p[b],
        )
}

/// `out` is `inp` stably sorted by key in ascending order.
pub open spec fn is_stable_sort_of<T: SortKey>(out: Seq<T>, inp: Seq<T>) -> bool {
    exists|p: Seq<int>| sorted_by_permutation(out, inp, p)
}

/// Sorts `v` by key, keeping elements with equal keys in their order.
pub fn stable_sort<T: SortKey>(v: &mut Vec<T>)
    ensures
        is_stable_sort_of(final(v)@, old(v)@),
{
    let ghost orig = v@;
    let n = v.len();
    let ghost mut p: Seq<int> = Seq::new(n as nat, |k: int| k);
    if n == 0 {
        assert(sorted_by_permutation(v@, orig, p));
        return;
    }
    let mut i: usize = 1;
    while i < n
        invariant
            1 <= i <= n,
            n == orig.len(),
            v@.len() == n,
            p.len() == n,
            forall|k: int| 0 <= k < n ==> v@[k] == orig[#[trigger] p[k]],
            forall|k: int| i <= k < n ==> #[trigger] p[k] == k,
            forall|k: int| 0 <= k < i ==> 0 <= #[trigger] p[k] < i,
            forall|a: int, b: int| 0 <= a < i && 0 <= b < i && a != b ==> p[a] != p[b],
            forall|a: int, b: int|
                0 <= a < b < i ==> key_index_lt(
                    (#[trigger] v@[a]).sort_key(),
                    p[a],
                    (#[trigger] v@[b]).sort_key(),
                    p[b],
                ),
        decreases n - i,
    {
        let ghost before = v@;
        let x = v.remove(i);
        let mut j: usize = i;
        while j > 0 && str_lt(x.key_str(), v[j - 1].key_str())
            invariant
                0 <= j <= i,
                i < n,
                before.len() == n,
                v@ == before.remove(i as int),
                x == before[i as int],
                forall|m: int| j <= m < i ==> seq_lt(x.sort_key(), (#[trigger] v@[m]).sort_key()),
            decreases j,
        {
            j = j - 1;
        }
        proof {
            if j > 0 {
                lemma_seq_lt_total(x.sort_key(), v@[j - 1].sort_key());
            }
        }
        v.insert(j, x);
        proof {
            let old_p = p;
            p = old_p.remove(i as int).insert(j as int, i as int);
            assert forall|k: int| 0 <= k < n implies v@[k] == orig[#[trigger] p[k]] by {
                if k < j {
                    assert(v@[k] == before[k]);
                    assert(p[k] == old_p[k]);
                } else if k == j {
                    assert(old_p[i as int] == i);
                    assert(before[i as int] == orig[old_p[i as int]]);
                    assert(p[k] == i);
                } else if k <= i {
                    assert(v@[k] == before[k - 1]);
                    assert(p[k] == old_p[k - 1]);
                } else {
                    assert(v@[k] == before[k]);
                    assert(p[k] == old_p[k]);
                }
            }
            assert forall|k: int| i + 1 <= k < n implies #[trigger] p[k] == k by {
                assert(p[k] == old_p[k]);
            }
            assert forall|k: int| 0 <= k < i + 1 implies 0 <= #[trigger] p[k] < i + 1 by {
                if k < j {
                    assert(p[k] == old_p[k]);
                } else if k > j {
                    assert(p[k] == old_p[k - 1]);
                }
            }
            assert forall|a: int, b: int| 0 <= a < i + 1 && 0 <= b < i + 1 && a != b implies p[a] != p[b] by {
                let oa = if a < j { a } else if a == j { -1 } else { a - 1 };
                let ob = if b < j { b } else if b == j { -1 } else { b - 1 };
                if a != j && b != j {
                    assert(p[a] == old_p[oa]);
                    assert(p[b] == old_p[ob]);
                } else if a == j {
                    assert(p[b] == old_p[ob]);
                } else {
                    assert(p[a] == old_p[oa]);
                }
            }
            assert forall|a: int, b: int| 0 <= a < b < i + 1 implies key_index_lt(
                (#[trigger] v@[a]).sort_key(),
                p[a],
                (#[trigger] v@[b]).sort_key(),
                p[b],
            ) by {
                let oa = if a < j { a } else { a - 1 };
                let ob = if b < j { b } else { b - 1 };
                if a != j && b != j {
                    assert(v@[a] == before[oa] && p[a] == old_p[oa]);
                    assert(v@[b] == before[ob] && p[b] == old_p[ob]);
                    assert(key_index_lt(before[oa].sort_key(), old_p[oa], before[ob].sort_key(), old_p[ob]));
                } else if b == j {
                    // a < j: v[a] is not after v[j - 1], which is not after x
                    assert(v@[a] == before[a] && p[a] == old_p[a]);
                    assert(p[b] == i);
                    assert(v@[j as int] == x);
                    let last = before[j - 1];
                    assert(!seq_lt(x.sort_key(), last.sort_key()));
                    if a < j - 1 {
                        assert(key_index_lt(before[a].sort_key(), old_p[a], last.sort_key(), old_p[j - 1]));
                    }
                    if seq_lt(before[a].sort_key(), last.sort_key()) && seq_lt(last.sort_key(), x.sort_key()) {
                        lemma_seq_lt_transitive(before[a].sort_key(), last.sort_key(), x.sort_key());
                    }
                } else {
                    // a == j < b: x comes before every element it was moved past
                    assert(v@[b] == before[ob] && p[b] == old_p[ob]);
                    assert(v@[j as int] == x);
                    assert(ob < i);
                    assert(before.remove(i as int)[ob] == before[ob]);
                }
            }
        }
        i = i + 1;
    }
    assert(sorted_by_permutation(v@, orig, p));
}

/// `out` holds the keys of `inp` rearranged in non-decreasing order.
pub open spec fn is_sorted_rearrangement(out: Seq<Seq<char>>, inp: Seq<Seq<char>>) -> bool {
    &&& out.len() == inp.len()
    &&& exists|p: Seq<int>|
        {
            &&& is_permutation(p, inp.len())
            &&& forall|k: int| 0 <= k < out.len() ==> out[k] == inp[#[trigger] p[k]]
        }
    &&& forall|a: int, b: int| 0 <= a < b < out.len() ==> !seq_lt(#[trigger] out[b], #[trigger] out[a])
}

/// The keys of a sequence of values.
pub open spec fn keys_of<T: SortKey>(s: Seq<T>) -> Seq<Seq<char>> {
    s.map_values(|x: T| x.sort_key())
}

/// Sorting values stably by key sorts their keys.
pub proof fn lemma_stable_sort_keys<T: SortKey>(out: Seq<T>, inp: Seq<T>)
    requires
        is_stable_sort_of(out, inp),
    ensures
        is_sorted_rearrangement(keys_of(out), keys_of(inp)),
{
    let p = choose|p: Seq<int>| sorted_by_permutation(out, inp, p);
    let ko = keys_of(out);
    let ki = keys_of(inp);
    assert forall|k: int| 0 <= k < ko.len() implies ko[k] == ki[#[trigger] p[k]] by {
        assert(out[k] == inp[p[k]]);
    }
    assert forall|a: int, b: int| 0 <= a < b < ko.len() implies !seq_lt(#[trigger] ko[b], #[trigger] ko[a]) by {
        assert(key_index_lt(out[a].sort_key(), p[a], out[b].sort_key(), p[b]));
        if seq_lt(ko[a], ko[b]) {
            lemma_seq_lt_asymmetric(ko[a], ko[b]);
        } else {
            crate::text::lemma_seq_lt_irreflexive(ko[a]);
        }
    }
}

/// Reverses `v` in place.
pub fn reverse_in_place<T>(v: &mut Vec<T>)
    ensures
        final(v)@ == old(v)@.reverse(),
{
    let ghost orig = v@;
    let mut out: Vec<T> = Vec::new();
    while v.len() > 0
        invariant
            v@.len() + out@.len() == orig.len(),
            v@ == orig.subrange(0, v@.len() as int),
            forall|k: int| 0 <= k < out@.len() ==> out@[k] == orig[orig.len() - 1 - k],
        decreases v.len(),
    {
        let x = v.pop().unwrap();
        out.push(x);
    }
    *v = out;
    assert(v@ =~= orig.reverse());
}

} // verus!
