//! The order in which a session plays the elements of its playlist: a
//! random permutation of the element indices, with the element the
//! listener asked for, if any, in front.

use rand::rngs::StdRng;
use rand::seq::SliceRandom;
use rand::thread_rng;
use rand::SeedableRng;
use vstd::prelude::*;

verus! {

/// The indices `0, 1, .., len - 1` in rising order.
pub open spec fn identity_order(len: nat) -> Seq<usize> {
    Seq::new(len, |i: int| i as usize)
}

/// Whether `order` is a permutation of the indices below `len`: it has
/// `len` entries, each of them below `len`, none of them twice, and every
/// index below `len` among them.
pub open spec fn is_permutation(order: Seq<usize>, len: nat) -> bool {
    &&& order.len() == len
    &&& forall|i: int| 0 <= i < order.len() ==> (#[trigger] order[i]) < len
    &&& order.no_duplicates()
    &&& forall|k: usize| k < len ==> #[trigger] order.contains(k)
}

/// A sequence with the same entries as `identity_order(len)`, each as
/// often, is a permutation of the indices below `len`.
pub proof fn lemma_rearranged_identity_is_permutation(order: Seq<usize>, len: nat)
    requires
        len <= usize::MAX,
        order.to_multiset() == identity_order(len).to_multiset(),
    ensures
        is_permutation(order, len),
{
    broadcast use vstd::seq_lib::group_to_multiset_ensures;

    let identity = identity_order(len);
    assert(order.len() == len) by {
        vstd::seq_lib::to_multiset_len(order);
        vstd::seq_lib::to_multiset_len(identity);
    }
    assert forall|k: usize| order.contains(k) <==> k < len by {
        if k < len {
            assert(identity[k as int] == k);
            assert(identity.contains(k));
        }
        if identity.contains(k) {
            let i = choose|i: int| 0 <= i < identity.len() && identity[i] == k;
            assert(k == i as usize);
        }
        assert(order.contains(k) <==> order.to_multiset().count(k) > 0);
        assert(identity.contains(k) <==> identity.to_multiset().count(k) > 0);
    }
    assert forall|i: int| 0 <= i < order.len() implies (#[trigger] order[i]) < len by {
        assert(order.contains(order[i]));
    }
    assert(identity.no_duplicates());
    identity.lemma_multiset_has_no_duplicates();
    order.lemma_multiset_has_no_duplicates_conv();
}

/// Shuffles `indices` in place with the thread's own random generator.
///
/// Calls `rand::seq::SliceRandom::shuffle` with `rand::thread_rng()`.
/// Claimed of it: the shuffle only swaps entries, so afterwards the vector
/// holds the same values, each as often as before. Nothing is claimed of
/// the order they end up in. rand panics if the operating system's
/// generator cannot be read when a thread first asks for its generator;
/// no argument of this function brings that about.
#[verifier::external_body]
fn shuffle(indices: &mut Vec<usize>)
    ensures
        final(indices)@.to_multiset() == old(indices)@.to_multiset(),
{
    indices.shuffle(&mut thread_rng());
}

/// Shuffles `indices` in place with a generator made from `seed`.
///
/// Calls `rand::seq::SliceRandom::shuffle` with
/// `rand::rngs::StdRng::seed_from_u64(seed)`. Claimed of it: afterwards the
/// vector holds the same values, each as often as before. Nothing is
/// claimed of the order they end up in.
#[verifier::external_body]
fn shuffle_seeded(indices: &mut Vec<usize>, seed: u64)
    ensures
        final(indices)@.to_multiset() == old(indices)@.to_multiset(),
{
    indices.shuffle(&mut StdRng::seed_from_u64(seed));
}

/// The indices below `len` in rising order, without `skipped`: what is
/// left to shuffle once the start is set aside.
pub fn candidate_indices(len: usize, skipped: Option<usize>) -> (indices: Vec<usize>)
    requires
        skipped matches Some(start) ==> start < len,
    ensures
        indices@ == match skipped {
            Some(start) => identity_order(len as nat).remove(start as int),
            None => identity_order(len as nat),
        },
{
    let mut indices: Vec<usize> = Vec::new();
    let mut i: usize = 0;
    while i < len
        invariant
            i <= len,
            indices@ == identity_order(i as nat),
        decreases len - i,
    {
        indices.push(i);
        i += 1;
        assert(indices@ =~= identity_order(i as nat));
    }
    if let Some(start) = skipped {
        indices.remove(start);
    }
    indices
}

/// Puts the chosen start, if there is one, in front of the shuffled rest.
pub fn pin_start(shuffled: Vec<usize>, start_index: Option<usize>) -> (order: Vec<usize>)
    ensures
        order@ == match start_index {
            Some(start) => shuffled@.insert(0, start),
            None => shuffled@,
        },
{
    let mut order = shuffled;
    if let Some(start) = start_index {
        order.insert(0, start);
    }
    order
}

/// Whatever order the candidates were shuffled into, pinning the start in
/// front of them gives a permutation of the indices below `len` that
/// begins with the start.
pub proof fn lemma_pinned_shuffle_is_permutation(
    shuffled: Seq<usize>,
    len: nat,
    start_index: Option<usize>,
)
    requires
        len <= usize::MAX,
        start_index matches Some(start) ==> start < len,
        shuffled.to_multiset() == match start_index {
            Some(start) => identity_order(len).remove(start as int).to_multiset(),
            None => identity_order(len).to_multiset(),
        },
    ensures
        start_index matches Some(start) ==> {
            &&& is_permutation(shuffled.insert(0, start), len)
            &&& shuffled.insert(0, start)[0] == start
        },
        start_index is None ==> is_permutation(shuffled, len),
{
    let identity = identity_order(len);
    match start_index {
        Some(start) => {
            broadcast use vstd::seq_lib::group_to_multiset_ensures;

            let order = shuffled.insert(0, start);
            assert(identity[start as int] == start);
            vstd::seq_lib::to_multiset_insert(shuffled, 0, start);
            vstd::seq_lib::to_multiset_remove(identity, start as int);
            assert(identity.to_multiset().count(start) > 0) by {
                assert(identity.contains(start));
            }
            assert(order.to_multiset() =~= identity.to_multiset());
            lemma_rearranged_identity_is_permutation(order, len);
        },
        None => {
            lemma_rearranged_identity_is_permutation(shuffled, len);
        },
    }
}

/// Makes a play order for `len` elements: a random permutation of the
/// indices below `len`. With a start index, that index comes first and the
/// others follow in random order.
pub fn generate_order(len: usize, start_index: Option<usize>) -> (order: Vec<usize>)
    requires
        len > 0,
        start_index matches Some(start) ==> start < len,
    ensures
        is_permutation(order@, len as nat),
        start_index matches Some(start) ==> order@[0] == start,
{
    let mut indices = candidate_indices(len, start_index);
    shuffle(&mut indices);
    proof {
        lemma_pinned_shuffle_is_permutation(indices@, len as nat, start_index);
    }
    pin_start(indices, start_index)
}

/// Makes a play order as [`generate_order`] does, with a random generator
/// that is made from `seed`, so that a caller can repeat a run.
pub fn generate_order_seeded(len: usize, start_index: Option<usize>, seed: u64) -> (order: Vec<
    usize,
>)
    requires
        len > 0,
        start_index matches Some(start) ==> start < len,
    ensures
        is_permutation(order@, len as nat),
        start_index matches Some(start) ==> order@[0] == start,
{
    let mut indices = candidate_indices(len, start_index);
    shuffle_seeded(&mut indices, seed);
    proof {
        lemma_pinned_shuffle_is_permutation(indices@, len as nat, start_index);
    }
    pin_start(indices, start_index)
}

} // verus!
