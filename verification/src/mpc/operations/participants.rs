//! Arithmetic on participant sets: the agreed order of identities and the
//! dense position of one identity among its peers.

use vstd::prelude::*;
use vstd::relations::{sorted_by, total_ordering};
use vstd::seq_lib::{
    lemma_sorted_unique, to_multiset_build, to_multiset_contains, to_multiset_insert,
    to_multiset_len, to_multiset_remove,
};
use crate::mpc::utils::decimal::{decimal, push_decimal};

verus! {

/// The order in which every party lists server identities.
pub open spec fn id_leq() -> spec_fn(u16, u16) -> bool {
    |a: u16, b: u16| a <= b
}

/// The identities of `ids` in ascending order.
pub open spec fn canonical_order(ids: Seq<u16>) -> Seq<u16> {
    ids.sort_by(id_leq())
}

/// How many entries of `ids` are smaller than `bound`.
pub open spec fn count_below(ids: Seq<u16>, bound: u16) -> nat
    decreases ids.len(),
{
    if ids.len() == 0 {
        0
    } else {
        count_below(ids.drop_last(), bound) + if ids.last() < bound {
            1nat
        } else {
            0nat
        }
    }
}

/// The 1-based position of `me` once `me` and `others` are listed in
/// ascending order.
pub open spec fn rank_among(me: u16, others: Seq<u16>) -> nat {
    count_below(others, me) + 1
}

/// The decimal notations of `ids`, one after the other, with nothing in
/// between.
pub open spec fn concat_decimals(ids: Seq<u16>) -> Seq<char>
    decreases ids.len(),
{
    if ids.len() == 0 {
        Seq::empty()
    } else {
        concat_decimals(ids.drop_last()) + decimal(ids.last() as nat)
    }
}

/// The key under which a participant set is remembered: its identities in
/// ascending order, written in decimal and joined.
pub open spec fn canonical_key(ids: Seq<u16>) -> Seq<char> {
    concat_decimals(canonical_order(ids))
}

/// The order of identities is a total order.
pub proof fn lemma_id_leq_total()
    ensures
        total_ordering(id_leq()),
{
}

/// `count_below` never exceeds the number of entries.
pub proof fn lemma_count_below_bounded(ids: Seq<u16>, bound: u16)
    ensures
        count_below(ids, bound) <= ids.len(),
    decreases ids.len(),
{
    if ids.len() > 0 {
        lemma_count_below_bounded(ids.drop_last(), bound);
    }
}

/// Returns the identities of `ids` in ascending order.
pub fn sorted_ids(ids: &Vec<u16>) -> (sorted: Vec<u16>)
    ensures
        sorted@ == canonical_order(ids@),
{
    let mut out: Vec<u16> = Vec::new();
    let mut i: usize = 0;
    proof {
        assert(out@ =~= ids@.take(0));
    }
    while i < ids.len()
        invariant
            i <= ids.len(),
            sorted_by(out@, id_leq()),
            out@.to_multiset() == ids@.take(i as int).to_multiset(),
        decreases ids.len() - i,
    {
        let x = ids[i];
        let mut j: usize = 0;
        while j < out.len() && out[j] <= x
            invariant
                j <= out.len(),
                forall|k: int| 0 <= k < j ==> out@[k] <= x,
            decreases out.len() - j,
        {
            j += 1;
        }
        let ghost before = out@;
        out.insert(j, x);
        proof {
            to_multiset_insert(before, j as int, x);
            assert(ids@.take(i + 1) == ids@.take(i as int).push(x));
            to_multiset_build(ids@.take(i as int), x);
            assert forall|a: int, b: int| 0 <= a < b < out@.len() implies id_leq()(
                out@[a],
                out@[b],
            ) by {
                if b < j {
                    assert(id_leq()(before[a], before[b]));
                } else if a < j && b > j {
                    assert(id_leq()(before[a], before[b - 1]));
                } else if a == j && b > j + 1 {
                    assert(id_leq()(before[j as int], before[b - 1]));
                } else if a > j {
                    assert(id_leq()(before[a - 1], before[b - 1]));
                }
            }
        }
        i += 1;
    }
    proof {
        assert(ids@.take(ids@.len() as int) == ids@);
        lemma_id_leq_total();
        ids@.lemma_sort_by_ensures(id_leq());
        lemma_sorted_unique(out@, canonical_order(ids@), id_leq());
    }
    out
}

/// Builds the key under which the participant set `ids` is remembered.
pub fn canonical_key_of(ids: &Vec<u16>) -> (key: String)
    ensures
        key@ == canonical_key(ids@),
{
    let sorted = sorted_ids(ids);
    let mut key = String::new();
    let mut i: usize = 0;
    proof {
        assert(sorted@.take(0) =~= Seq::<u16>::empty());
        assert(key@ =~= concat_decimals(sorted@.take(0)));
    }
    while i < sorted.len()
        invariant
            i <= sorted.len(),
            key@ == concat_decimals(sorted@.take(i as int)),
        decreases sorted.len() - i,
    {
        proof {
            assert(sorted@.take(i + 1).drop_last() == sorted@.take(i as int));
        }
        push_decimal(&mut key, sorted[i] as u64);
        i += 1;
    }
    proof {
        assert(sorted@.take(sorted@.len() as int) == sorted@);
    }
    key
}

/// Counts the entries of `ids` that are smaller than `bound`.
pub fn count_ids_below(ids: &Vec<u16>, bound: u16) -> (n: usize)
    ensures
        n == count_below(ids@, bound),
{
    let mut n: usize = 0;
    let mut i: usize = 0;
    while i < ids.len()
        invariant
            i <= ids.len(),
            n == count_below(ids@.take(i as int), bound),
            n <= i,
        decreases ids.len() - i,
    {
        proof {
            assert(ids@.take(i + 1).drop_last() == ids@.take(i as int));
        }
        if ids[i] < bound {
            n += 1;
        }
        i += 1;
    }
    proof {
        assert(ids@.take(ids@.len() as int) == ids@);
    }
    n
}

/// Taking one entry out lowers the count by one exactly when that entry
/// was below the bound.
pub proof fn lemma_count_below_remove(ids: Seq<u16>, at: int, bound: u16)
    requires
        0 <= at < ids.len(),
    ensures
        count_below(ids, bound) == count_below(ids.remove(at), bound) + if ids[at] < bound {
            1nat
        } else {
            0nat
        },
    decreases ids.len(),
{
    if at == ids.len() - 1 {
        assert(ids.remove(at) =~= ids.drop_last());
    } else {
        lemma_count_below_remove(ids.drop_last(), at, bound);
        assert(ids.remove(at).drop_last() =~= ids.drop_last().remove(at));
        assert(ids.remove(at).last() == ids.last());
    }
}

/// The count depends on which identities are listed, not on their order.
pub proof fn lemma_count_below_permutation(a: Seq<u16>, b: Seq<u16>, bound: u16)
    requires
        a.to_multiset() == b.to_multiset(),
    ensures
        count_below(a, bound) == count_below(b, bound),
    decreases a.len(),
{
    to_multiset_len(a);
    to_multiset_len(b);
    if a.len() > 0 {
        let x = a.last();
        assert(a.drop_last().push(x) =~= a);
        to_multiset_build(a.drop_last(), x);
        to_multiset_contains(b, x);
        assert(b.to_multiset().count(x) > 0);
        let at = choose|at: int| 0 <= at < b.len() && b[at] == x;
        to_multiset_remove(b, at);
        assert(b.remove(at).to_multiset() =~= a.drop_last().to_multiset());
        lemma_count_below_permutation(a.drop_last(), b.remove(at), bound);
        lemma_count_below_remove(b, at, bound);
    }
}

/// Every entry below the bound is counted.
proof fn lemma_count_below_all(ids: Seq<u16>, bound: u16)
    requires
        forall|k: int| 0 <= k < ids.len() ==> ids[k] < bound,
    ensures
        count_below(ids, bound) == ids.len(),
    decreases ids.len(),
{
    if ids.len() > 0 {
        lemma_count_below_all(ids.drop_last(), bound);
    }
}

/// In an ascending list without repetition, as many entries lie below an
/// entry as stand before it.
pub proof fn lemma_count_below_sorted(ids: Seq<u16>, at: int)
    requires
        sorted_by(ids, id_leq()),
        ids.no_duplicates(),
        0 <= at < ids.len(),
    ensures
        count_below(ids, ids[at]) == at,
    decreases ids.len(),
{
    let last = ids.len() - 1;
    let front = ids.drop_last();
    if at == last {
        assert forall|k: int| 0 <= k < front.len() implies front[k] < ids[last] by {
            assert(id_leq()(ids[k], ids[last]));
            assert(ids[k] != ids[last]);
        }
        lemma_count_below_all(front, ids[last]);
    } else {
        assert(id_leq()(ids[at], ids[last]));
        assert forall|i: int, j: int| 0 <= i < j < front.len() implies id_leq()(
            front[i],
            front[j],
        ) by {
            assert(id_leq()(ids[i], ids[j]));
        }
        lemma_count_below_sorted(front, at);
    }
}

/// The index a party takes is its place in the agreed order: among parties
/// with distinct identities, the party `all[who]` that ranks itself against
/// the others obtains an index between 1 and the number of parties, and the
/// agreed order lists that very party at this index.
pub proof fn law_rank_is_position(all: Seq<u16>, who: int)
    requires
        all.no_duplicates(),
        0 <= who < all.len(),
    ensures
        1 <= rank_among(all[who], all.remove(who)) <= all.len(),
        canonical_order(all).len() == all.len(),
        canonical_order(all)[rank_among(all[who], all.remove(who)) - 1] == all[who],
{
    let sorted = canonical_order(all);
    lemma_id_leq_total();
    all.lemma_sort_by_ensures(id_leq());
    to_multiset_len(all);
    to_multiset_len(sorted);
    all.lemma_multiset_has_no_duplicates();
    sorted.lemma_multiset_has_no_duplicates_conv();
    let me = all[who];
    to_multiset_contains(all, me);
    to_multiset_contains(sorted, me);
    assert(all.contains(me));
    let at = choose|at: int| 0 <= at < sorted.len() && sorted[at] == me;
    lemma_count_below_remove(all, who, me);
    lemma_count_below_permutation(all, sorted, me);
    lemma_count_below_sorted(sorted, at);
}

/// No two parties of one ceremony take the same index.
pub proof fn law_rank_injective(all: Seq<u16>, a: int, b: int)
    requires
        all.no_duplicates(),
        0 <= a < all.len(),
        0 <= b < all.len(),
        a != b,
    ensures
        rank_among(all[a], all.remove(a)) != rank_among(all[b], all.remove(b)),
{
    law_rank_is_position(all, a);
    law_rank_is_position(all, b);
}

/// Every index from 1 to the number of parties is taken by some party.
pub proof fn law_rank_onto(all: Seq<u16>, index: int)
    requires
        all.no_duplicates(),
        1 <= index <= all.len(),
    ensures
        exists|who: int|
            0 <= who < all.len() && #[trigger] rank_among(all[who], all.remove(who)) == index,
{
    let sorted = canonical_order(all);
    lemma_id_leq_total();
    all.lemma_sort_by_ensures(id_leq());
    to_multiset_len(all);
    to_multiset_len(sorted);
    all.lemma_multiset_has_no_duplicates();
    sorted.lemma_multiset_has_no_duplicates_conv();
    let x = sorted[index - 1];
    to_multiset_contains(all, x);
    to_multiset_contains(sorted, x);
    assert(sorted.contains(x));
    let who = choose|who: int| 0 <= who < all.len() && all[who] == x;
    law_rank_is_position(all, who);
    let r = rank_among(all[who], all.remove(who));
    assert(sorted[r - 1] == sorted[index - 1]);
    assert(r == index);
}

/// Every party derives the same index for a given party, in whatever order
/// it was handed the others.
pub proof fn law_rank_order_independent(me: u16, others_a: Seq<u16>, others_b: Seq<u16>)
    requires
        others_a.to_multiset() == others_b.to_multiset(),
    ensures
        rank_among(me, others_a) == rank_among(me, others_b),
{
    lemma_count_below_permutation(others_a, others_b, me);
}

/// A participant set has one key, in whatever order it is written.
pub proof fn law_canonical_key_order_independent(a: Seq<u16>, b: Seq<u16>)
    requires
        a.to_multiset() == b.to_multiset(),
    ensures
        canonical_order(a) == canonical_order(b),
        canonical_key(a) == canonical_key(b),
{
    lemma_id_leq_total();
    a.lemma_sort_by_ensures(id_leq());
    b.lemma_sort_by_ensures(id_leq());
    lemma_sorted_unique(canonical_order(a), canonical_order(b), id_leq());
}

/// Two lists of identities come out the same in ascending order exactly
/// when they list the same identities, each as often as the other.
pub proof fn law_canonical_order_tells_sets_apart(a: Seq<u16>, b: Seq<u16>)
    ensures
        canonical_order(a) == canonical_order(b) <==> a.to_multiset() == b.to_multiset(),
{
    lemma_id_leq_total();
    a.lemma_sort_by_ensures(id_leq());
    b.lemma_sort_by_ensures(id_leq());
    if a.to_multiset() == b.to_multiset() {
        lemma_sorted_unique(canonical_order(a), canonical_order(b), id_leq());
    }
    if canonical_order(a) == canonical_order(b) {
        assert(a.to_multiset() =~= b.to_multiset());
    }
}

} // verus!
