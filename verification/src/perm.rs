//! Index permutations and selections over sequences.
//!
//! The shuffling and sampling operations report their effect as an index
//! sequence applied to the input: a permutation of `0 .. len` for a shuffle,
//! a duplicate-free selection for sampling without replacement. This module
//! defines those notions and proves the facts the holders' contracts need,
//! chiefly that applying a permutation preserves the multiset of elements.

use vstd::prelude::*;

verus! {

/// `p` is a permutation of the indices `0 .. len`: it has length `len`,
/// stays in range, and never repeats an index.
pub open spec fn is_index_permutation(p: Seq<int>, len: int) -> bool {
    &&& p.len() == len
    &&& forall|i: int| 0 <= i < len ==> 0 <= #[trigger] p[i] < len
    &&& forall|i: int, j: int| 0 <= i < j < len ==> #[trigger] p[i] != #[trigger] p[j]
}

/// `sel` selects distinct indices below `len`, in any order.
pub open spec fn is_distinct_selection(sel: Seq<int>, len: int) -> bool {
    &&& forall|i: int| 0 <= i < sel.len() ==> 0 <= #[trigger] sel[i] < len
    &&& forall|i: int, j: int| 0 <= i < j < sel.len() ==> #[trigger] sel[i] != #[trigger] sel[j]
}

/// The sequence whose `i`-th element is `s[p[i]]`.
pub open spec fn apply_selection<A>(s: Seq<A>, p: Seq<int>) -> Seq<A> {
    Seq::new(p.len() as nat, |i: int| s[p[i]])
}

/// The image set of the first `len` entries of a duplicate-free index
/// sequence has exactly `len` elements.
proof fn lemma_distinct_image_size(p: Seq<int>, len: int)
    requires
        0 <= len <= p.len(),
        forall|i: int, j: int| 0 <= i < j < len ==> #[trigger] p[i] != #[trigger] p[j],
    ensures
        Set::new(|v: int| exists|i: int| 0 <= i < len && #[trigger] p[i] == v).finite(),
        Set::new(|v: int| exists|i: int| 0 <= i < len && #[trigger] p[i] == v).len() == len,
    decreases len,
{
    let image = Set::new(|v: int| exists|i: int| 0 <= i < len && #[trigger] p[i] == v);
    if len == 0 {
        assert(image =~= Set::<int>::empty());
    } else {
        lemma_distinct_image_size(p, len - 1);
        let prev = Set::new(|v: int| exists|i: int| 0 <= i < len - 1 && #[trigger] p[i] == v);
        assert(!prev.contains(p[len - 1]));
        assert(image =~= prev.insert(p[len - 1])) by {
            assert(forall|v: int| prev.contains(v) ==> image.contains(v));
            assert(image.contains(p[len - 1]));
            assert forall|v: int| image.contains(v) implies prev.insert(p[len - 1]).contains(v) by {
                let i = choose|i: int| 0 <= i < len && #[trigger] p[i] == v;
                if i < len - 1 {
                    assert(prev.contains(v));
                }
            }
        }
    }
}

/// A permutation of the indices hits every index: each `k < len` appears at
/// some position.
pub proof fn lemma_index_permutation_onto(p: Seq<int>, len: int, k: int)
    requires
        is_index_permutation(p, len),
        0 <= k < len,
    ensures
        exists|i: int| 0 <= i < len && #[trigger] p[i] == k,
{
    let image = Set::new(|v: int| exists|i: int| 0 <= i < len && #[trigger] p[i] == v);
    let below = Set::new(|v: int| 0 <= v < len);
    lemma_distinct_image_size(p, len);
    vstd::set_lib::lemma_int_range(0, len);
    assert(below =~= vstd::set_lib::set_int_range(0, len));
    if !image.contains(k) {
        assert(image.subset_of(below.remove(k)));
        assert(below.remove(k).len() == len - 1);
        vstd::set_lib::lemma_len_subset(image, below.remove(k));
        assert(false);
    }
}

/// Applying a permutation of the indices preserves the multiset of elements:
/// the reordered sequence holds exactly the elements of the original, with
/// multiplicity.
pub proof fn lemma_apply_permutation_multiset<A>(s: Seq<A>, p: Seq<int>)
    requires
        is_index_permutation(p, s.len() as int),
    ensures
        apply_selection(s, p).to_multiset() == s.to_multiset(),
    decreases s.len(),
{
    broadcast use vstd::seq_lib::group_to_multiset_ensures;

    let len = s.len() as int;
    let out = apply_selection(s, p);
    if len == 0 {
        assert(out =~= s);
    } else {
        lemma_index_permutation_onto(p, len, len - 1);
        let j = choose|i: int| 0 <= i < len && #[trigger] p[i] == len - 1;
        let shorter = s.drop_last();
        let q = p.remove(j);
        p.remove_ensures(j);
        assert(is_index_permutation(q, len - 1)) by {
            assert forall|a: int, b: int| 0 <= a < b < len - 1 implies #[trigger] q[a] != #[trigger] q[b] by {
                if b < j {
                } else if a >= j {
                    assert(q[a] == p[a + 1] && q[b] == p[b + 1]);
                } else {
                    assert(q[a] == p[a] && q[b] == p[b + 1]);
                }
            }
        }
        lemma_apply_permutation_multiset(shorter, q);
        assert(out.remove(j) =~= apply_selection(shorter, q)) by {
            out.remove_ensures(j);
        }
        assert(out.remove(j).to_multiset() == out.to_multiset().remove(out[j]));
        assert(out[j] == s.last());
        assert(shorter.push(s.last()) =~= s);
        assert(s.to_multiset() == shorter.to_multiset().insert(s.last()));
        assert(out.to_multiset().contains(s.last())) by {
            assert(out[j] == s.last() && 0 <= j < out.len());
        }
        assert(out.to_multiset() =~= out.to_multiset().remove(s.last()).insert(s.last()));
        assert(out.to_multiset() =~= s.to_multiset());
    }
}

} // verus!
