//! Ranking of measured candidates: nearest first, at most a hundred, and
//! none whose distance is not a finite number.

use vstd::multiset::{group_multiset_axioms, Multiset};
use vstd::prelude::*;
use vstd::seq_lib::{group_to_multiset_ensures, to_multiset_build, to_multiset_insert};

verus! {

/// How many candidates a ranking holds at most.
pub const CANDIDATE_LIMIT: usize = 100;

/// A request with the distance to it, in metres, kept as the bit pattern of
/// its IEEE 754 binary64 value.
#[derive(Debug, PartialEq, Eq)]
pub struct Measured {
    pub distance_bits: u64,
    pub id: String,
}

impl View for Measured {
    type V = (u64, Seq<char>);

    open spec fn view(&self) -> (u64, Seq<char>) {
        (self.distance_bits, self.id@)
    }
}

/// The views of a sequence of measured candidates, in order.
pub open spec fn views(list: Seq<Measured>) -> Seq<(u64, Seq<char>)> {
    Seq::new(list.len(), |i: int| list[i]@)
}

/// The bit pattern stands for a finite number: its exponent field is not
/// all ones, which rules out the infinities and every NaN.
pub open spec fn is_finite(bits: u64) -> bool {
    (bits / 0x10_0000_0000_0000) % 2048 != 2047
}

/// An integer that orders finite bit patterns as their numbers are
/// ordered: the magnitude bits, negated where the sign bit is set. Both
/// zeros get 0.
pub open spec fn order_key(bits: u64) -> int {
    if bits < 0x8000_0000_0000_0000 {
        bits as int
    } else {
        0x8000_0000_0000_0000 - bits
    }
}

/// `all` holds exactly the finite candidates of `input`, each as often as
/// `input` does, in an order in which the distance never decreases.
pub open spec fn sorted_finite_part(input: Seq<(u64, Seq<char>)>, all: Seq<(u64, Seq<char>)>)
    -> bool {
    &&& forall|v: (u64, Seq<char>)|
        #[trigger] all.to_multiset().count(v) == if is_finite(v.0) {
            input.to_multiset().count(v)
        } else {
            0
        }
    &&& forall|i: int, j: int|
        0 <= i < j < all.len() ==> order_key(#[trigger] all[i].0) <= order_key(
            #[trigger] all[j].0,
        )
}

/// `output` is a ranking of `input`: the first hundred, or all where there
/// are fewer, of the finite candidates sorted by distance.
pub open spec fn is_ranking(input: Seq<(u64, Seq<char>)>, output: Seq<(u64, Seq<char>)>) -> bool {
    exists|all: Seq<(u64, Seq<char>)>|
        #[trigger] sorted_finite_part(input, all) && output == all.take(
            if all.len() <= CANDIDATE_LIMIT {
                all.len() as int
            } else {
                CANDIDATE_LIMIT as int
            },
        )
}

fn finite(bits: u64) -> (res: bool)
    ensures
        res == is_finite(bits),
{
    (bits / 0x10_0000_0000_0000) % 2048 != 2047
}

fn key_of(bits: u64) -> (key: i64)
    ensures
        key == order_key(bits),
{
    if bits < 0x8000_0000_0000_0000 {
        bits as i64
    } else {
        -((bits - 0x8000_0000_0000_0000) as i64)
    }
}

/// Ranks measured candidates. Candidates at the same distance come out in
/// no particular order.
pub fn rank_candidates(measured: &Vec<Measured>) -> (ranked: Vec<Measured>)
    ensures
        ranked@.len() <= CANDIDATE_LIMIT,
        forall|i: int| 0 <= i < ranked@.len() ==> is_finite(#[trigger] ranked@[i].distance_bits),
        forall|i: int, j: int|
            0 <= i < j < ranked@.len() ==> order_key(#[trigger] ranked@[i].distance_bits)
                <= order_key(#[trigger] ranked@[j].distance_bits),
        is_ranking(views(measured@), views(ranked@)),
{
    broadcast use {group_multiset_axioms, group_to_multiset_ensures};

    let ghost input = views(measured@);
    let mut sorted: Vec<Measured> = Vec::new();
    let mut i: usize = 0;
    assert(input.take(0) =~= Seq::<(u64, Seq<char>)>::empty());
    assert(views(sorted@) =~= Seq::<(u64, Seq<char>)>::empty());
    assert(Seq::<(u64, Seq<char>)>::empty().to_multiset() =~= Multiset::<
        (u64, Seq<char>),
    >::empty());
    while i < measured.len()
        invariant
            i <= measured@.len(),
            input == views(measured@),
            forall|k: int|
                0 <= k < sorted@.len() ==> is_finite(#[trigger] sorted@[k].distance_bits),
            sorted_finite_part(input.take(i as int), views(sorted@)),
        decreases measured@.len() - i,
    {
        let ghost before = views(sorted@);
        let ghost seen = input.take(i as int);
        let item = &measured[i];
        proof {
            assert(input.take(i + 1) =~= seen.push(item@));
            to_multiset_build(seen, item@);
        }
        if finite(item.distance_bits) {
            let key = key_of(item.distance_bits);
            let mut p: usize = 0;
            while p < sorted.len() && key_of(sorted[p].distance_bits) <= key
                invariant
                    p <= sorted@.len(),
                    forall|k: int|
                        0 <= k < p ==> order_key(#[trigger] sorted@[k].distance_bits) <= key,
                decreases sorted@.len() - p,
            {
                p += 1;
            }
            assert(p == sorted@.len() || order_key(sorted@[p as int].distance_bits) > key);
            assert(forall|k: int| 0 <= k < before.len() ==> before[k] == sorted@[k]@);
            sorted.insert(p, Measured { distance_bits: item.distance_bits, id: item.id.clone() });
            proof {
                assert(views(sorted@) =~= before.insert(p as int, item@));
                to_multiset_insert(before, p as int, item@);
                assert forall|a: int, b: int| 0 <= a < b < views(sorted@).len() implies order_key(
                    #[trigger] views(sorted@)[a].0,
                ) <= order_key(#[trigger] views(sorted@)[b].0) by {
                    let a0 = if a < p { a } else { a - 1 };
                    let b0 = if b < p { b } else { b - 1 };
                    if a != p && b != p {
                        assert(order_key(before[a0].0) <= order_key(before[b0].0));
                    } else if a == p {
                        assert(order_key(before[p as int].0) > key);
                        assert(order_key(before[p as int].0) <= order_key(before[b0].0));
                        assert(order_key(before[b0].0) > key);
                    } else {
                        assert(order_key(before[a0].0) <= key);
                    }
                }
            }
        } else {
            proof {
                assert(views(sorted@) == before);
            }
        }
        i += 1;
    }
    assert(input.take(measured@.len() as int) =~= input);
    let ghost all = views(sorted@);
    sorted.truncate(CANDIDATE_LIMIT);
    proof {
        let n = if all.len() <= CANDIDATE_LIMIT {
            all.len() as int
        } else {
            CANDIDATE_LIMIT as int
        };
        assert(views(sorted@) =~= all.take(n));
        assert(sorted_finite_part(input, all));
        assert forall|a: int, b: int| 0 <= a < b < sorted@.len() implies order_key(
            #[trigger] sorted@[a].distance_bits,
        ) <= order_key(#[trigger] sorted@[b].distance_bits) by {
            assert(all[a].0 == sorted@[a].distance_bits);
            assert(all[b].0 == sorted@[b].distance_bits);
        }
    }
    sorted
}

} // verus!
