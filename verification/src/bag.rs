//! The draw sequence: the seven kinds in a shuffled order, dealt from the
//! back until none is left, then shuffled anew.

use crate::tetromino::{TetrominoType, TYPES};
use rand::Rng;
use vstd::prelude::*;

verus! {

/// `rand::ThreadRng`, the random number generator of the current thread.
/// Nothing is known of what it holds.
#[verifier::external_type_specification]
#[verifier::external_body]
pub struct ExThreadRng(rand::ThreadRng);

/// `rand::thread_rng` hands out the generator of the current thread, seeded
/// by the system. Nothing is claimed of the generator. Where the system has
/// no source of randomness at all, the call does not return.
pub assume_specification[ rand::thread_rng ]() -> (rng: rand::ThreadRng)
;

/// `rand::Rng::shuffle` rearranges a slice in place by swapping pairs of its
/// entries. The claim, believed and not proved: whatever order comes out,
/// it holds the same values as often as before. Which order comes out is
/// left to chance, and nothing is claimed of it.
#[verifier::external_body]
fn shuffle(rng: &mut rand::ThreadRng, values: &mut Vec<TetrominoType>)
    ensures
        final(values)@.to_multiset() == old(values)@.to_multiset(),
{
    rng.shuffle(values.as_mut_slice());
}

/// The seven kinds in catalog order.
pub open spec fn all_kinds() -> Seq<TetrominoType> {
    seq![
        TetrominoType::I,
        TetrominoType::J,
        TetrominoType::L,
        TetrominoType::O,
        TetrominoType::S,
        TetrominoType::T,
        TetrominoType::Z,
    ]
}

/// A draw sequence in play: kinds a player can be dealt, none of them twice.
pub open spec fn is_bag(bag: Seq<TetrominoType>) -> bool {
    &&& bag.no_duplicates()
    &&& forall|i: int| 0 <= i < bag.len() ==> bag[i] != TetrominoType::Shadow
}

/// A draw sequence as it is right after a shuffle: all seven kinds.
pub open spec fn is_full_bag(bag: Seq<TetrominoType>) -> bool {
    is_bag(bag) && bag.len() == TYPES
}

/// The draw sequence that stands ready to replace one that runs out: the
/// one that was handed in, or else some full sequence.
pub open spec fn standby(refill: Option<Vec<TetrominoType>>) -> Seq<TetrominoType> {
    match refill {
        Some(bag) => bag@,
        None => all_kinds(),
    }
}

/// The place of a kind in the catalog.
pub open spec fn rank(kind: TetrominoType) -> int {
    match kind {
        TetrominoType::I => 0,
        TetrominoType::J => 1,
        TetrominoType::L => 2,
        TetrominoType::O => 3,
        TetrominoType::S => 4,
        TetrominoType::T => 5,
        TetrominoType::Z => 6,
        TetrominoType::Shadow => 7,
    }
}

/// A freshly shuffled draw sequence.
///
/// Which order comes out is left to chance; that it holds each of the seven
/// kinds once is not.
pub fn fresh_bag() -> (bag: Vec<TetrominoType>)
    ensures
        is_full_bag(bag@),
{
    let mut next = vec![
        TetrominoType::I,
        TetrominoType::J,
        TetrominoType::L,
        TetrominoType::O,
        TetrominoType::S,
        TetrominoType::T,
        TetrominoType::Z,
    ];
    let ghost sorted = next@;
    proof {
        assert(sorted =~= all_kinds());
        lemma_all_kinds_is_full();
    }
    let mut rng = rand::thread_rng();
    shuffle(&mut rng, &mut next);
    proof {
        lemma_permutation_of_bag(sorted, next@);
    }
    next
}

/// Tells whether a sequence of kinds is a draw sequence in play.
pub fn is_valid_bag(bag: &Vec<TetrominoType>) -> (b: bool)
    ensures
        b == is_bag(bag@),
{
    let mut i: usize = 0;
    while i < bag.len()
        invariant
            i <= bag.len(),
            forall|k: int| 0 <= k < i ==> bag@[k] != TetrominoType::Shadow,
            forall|k: int, l: int| 0 <= k < l < i ==> bag@[k] != bag@[l],
        decreases bag.len() - i,
    {
        if bag[i] == TetrominoType::Shadow {
            return false;
        }
        let mut j: usize = 0;
        while j < i
            invariant
                j <= i,
                i < bag.len(),
                forall|k: int| 0 <= k < j ==> bag@[k] != bag@[i as int],
            decreases i - j,
        {
            if bag[j] == bag[i] {
                return false;
            }
            j += 1;
        }
        i += 1;
    }
    true
}

/// The seven kinds in catalog order are a full draw sequence.
pub proof fn lemma_all_kinds_is_full()
    ensures
        is_full_bag(all_kinds()),
{
}

/// What is left of a draw sequence when its last kind has been dealt is a
/// draw sequence.
pub proof fn lemma_rest_is_bag(bag: Seq<TetrominoType>)
    requires
        is_bag(bag),
        bag.len() >= 1,
    ensures
        is_bag(bag.drop_last()),
{
    let rest = bag.drop_last();
    assert forall|i: int, j: int| 0 <= i < rest.len() && 0 <= j < rest.len() && i
        != j implies rest[i] != rest[j] by {
        assert(rest[i] == bag[i] && rest[j] == bag[j]);
    }
    assert forall|i: int| 0 <= i < rest.len() implies rest[i] != TetrominoType::Shadow by {
        assert(rest[i] == bag[i]);
    }
}

/// A rearrangement of a draw sequence is a draw sequence of the same length.
pub proof fn lemma_permutation_of_bag(bag: Seq<TetrominoType>, shuffled: Seq<TetrominoType>)
    requires
        is_bag(bag),
        shuffled.to_multiset() == bag.to_multiset(),
    ensures
        is_bag(shuffled),
        shuffled.len() == bag.len(),
{
    broadcast use vstd::seq_lib::group_to_multiset_ensures;

    bag.lemma_multiset_has_no_duplicates();
    shuffled.lemma_multiset_has_no_duplicates_conv();
    bag.to_multiset_ensures();
    shuffled.to_multiset_ensures();
    assert forall|i: int| 0 <= i < shuffled.len() implies shuffled[i]
        != TetrominoType::Shadow by {
        assert(shuffled.contains(shuffled[i]));
        assert(bag.to_multiset().count(shuffled[i]) > 0);
        assert(bag.contains(shuffled[i]));
    }
}

/// No draw sequence in play is longer than seven.
pub proof fn lemma_bag_is_short(bag: Seq<TetrominoType>)
    requires
        is_bag(bag),
    ensures
        bag.len() <= TYPES,
{
    if bag.len() > TYPES {
        let ranks = Seq::new(8, |i: int| rank(bag[i]));
        assert(forall|i: int| 0 <= i < 8 ==> 0 <= #[trigger] ranks[i] < 7);
        lemma_pigeons(ranks, 7);
        let (i, j) = choose|i: int, j: int| 0 <= i < j < ranks.len() && ranks[i] == ranks[j];
        assert(bag[i] != bag[j]);
    }
}

/// A full draw sequence deals every kind: seven draws from it are one of
/// each of the seven kinds, none twice and none left out.
pub proof fn lemma_full_bag_holds_every_kind(bag: Seq<TetrominoType>)
    requires
        is_full_bag(bag),
    ensures
        forall|kind: TetrominoType| kind != TetrominoType::Shadow ==> bag.contains(kind),
{
    assert forall|kind: TetrominoType| kind != TetrominoType::Shadow implies bag.contains(
        kind,
    ) by {
        if !bag.contains(kind) {
            let ranks = Seq::new(
                7,
                |i: int|
                    if rank(bag[i]) < rank(kind) {
                        rank(bag[i])
                    } else {
                        rank(bag[i]) - 1
                    },
            );
            assert forall|i: int| 0 <= i < 7 implies 0 <= #[trigger] ranks[i] < 6 by {
                assert(bag.contains(bag[i]));
            }
            lemma_pigeons(ranks, 6);
            let (i, j) = choose|i: int, j: int| 0 <= i < j < ranks.len() && ranks[i] == ranks[j];
            assert(bag.contains(bag[i]));
            assert(bag.contains(bag[j]));
            assert(bag[i] != bag[j]);
        }
    }
}

/// Among more numbers than there are values for them, two are the same.
proof fn lemma_pigeons(s: Seq<int>, holes: int)
    requires
        forall|i: int| 0 <= i < s.len() ==> 0 <= #[trigger] s[i] < holes,
        s.len() > holes,
        holes >= 0,
    ensures
        exists|i: int, j: int| 0 <= i < j < s.len() && s[i] == s[j],
    decreases holes,
{
    if holes == 0 {
        let first = s[0];
        assert(0 <= first < holes);
    } else if exists|i: int, j: int| 0 <= i < j < s.len() && s[i] == s[j] {
    } else {
        // Drop the one entry that holds the largest value, if any does, or
        // else the last entry: what is left fits into one value fewer.
        let top = holes - 1;
        let at = if exists|i: int| 0 <= i < s.len() && s[i] == top {
            choose|i: int| 0 <= i < s.len() && s[i] == top
        } else {
            s.len() - 1
        };
        let rest = s.remove(at);
        assert forall|i: int| 0 <= i < rest.len() implies 0 <= #[trigger] rest[i] < top by {
            let k = if i < at {
                i
            } else {
                i + 1
            };
            assert(rest[i] == s[k]);
            if s[k] == top {
                assert(s[at] == top);
                if k < at {
                    assert(!(0 <= k < at < s.len() && s[k] == s[at]));
                } else {
                    assert(!(0 <= at < k < s.len() && s[at] == s[k]));
                }
            }
        }
        lemma_pigeons(rest, top);
        let (i, j) = choose|i: int, j: int| 0 <= i < j < rest.len() && rest[i] == rest[j];
        let k = if i < at {
            i
        } else {
            i + 1
        };
        let l = if j < at {
            j
        } else {
            j + 1
        };
        assert(0 <= k < l < s.len() && s[k] == s[l]);
    }
}

} // verus!
