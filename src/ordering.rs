use vstd::prelude::*;
use crate::ieee::Real;

verus! {

/// `order` lists each of `0..n` exactly once.
pub open spec fn is_permutation(order: Seq<usize>, n: nat) -> bool {
    &&& order.len() == n
    &&& forall|a: int| 0 <= a < n ==> #[trigger] order[a] < n
    &&& forall|a: int, b: int| 0 <= a < b < n ==> order[a] != order[b]
}

/// `order` lists indices of `keys` from the largest level to the smallest;
/// indices with equal levels keep their relative order.
pub open spec fn sorted_descending(keys: Seq<Real>, order: Seq<usize>) -> bool {
    forall|a: int, b: int| 0 <= a < b < order.len() ==>
        keys[#[trigger] order[a] as int].level() > keys[#[trigger] order[b] as int].level()
        || (keys[order[a] as int].level() == keys[order[b] as int].level() && order[a] < order[b])
}

/// The indices of `keys`, from the largest value to the smallest, stable
/// among equal values.
pub fn descending_order(keys: &Vec<Real>) -> (order: Vec<usize>)
    ensures
        is_permutation(order@, keys@.len()),
        sorted_descending(keys@, order@),
{
    let mut order: Vec<usize> = Vec::new();
    let mut i: usize = 0;
    while i < keys.len()
        invariant
            i <= keys@.len(),
            order@.len() == i,
            forall|a: int| 0 <= a < i ==> #[trigger] order@[a] < i,
            forall|a: int, b: int| 0 <= a < b < i ==> order@[a] != order@[b],
            sorted_descending(keys@, order@),
        decreases keys@.len() - i,
    {
        let v = keys[i].level_of();
        let mut pos: usize = 0;
        while pos < order.len() && keys[order[pos]].level_of() >= v
            invariant
                i < keys@.len(),
                v == keys@[i as int].level(),
                pos <= order@.len(),
                order@.len() == i,
                forall|a: int| 0 <= a < i ==> #[trigger] order@[a] < i,
                forall|a: int| 0 <= a < pos ==> keys@[#[trigger] order@[a] as int].level() >= v,
            decreases order@.len() - pos,
        {
            pos += 1;
        }
        let ghost before = order@;
        proof {
            before.insert_ensures(pos as int, i);
            assert forall|b: int| pos <= b < before.len() implies keys@[#[trigger] before[b] as int].level() < v by {
                if b > pos {
                    assert(keys@[before[pos as int] as int].level() >= keys@[before[b] as int].level());
                }
            }
        }
        order.insert(pos, i);
        proof {
            let after = order@;
            assert forall|a: int| 0 <= a < i + 1 implies #[trigger] after[a] < i + 1 by {
                if a < pos {
                } else if a > pos {
                    assert(after[a] == before[a - 1]);
                }
            }
            assert forall|a: int, b: int| 0 <= a < b < i + 1 implies after[a] != after[b] by {
                if a < pos && b > pos {
                    assert(after[b] == before[b - 1]);
                } else if a > pos {
                    assert(after[a] == before[a - 1]);
                    assert(after[b] == before[b - 1]);
                }
            }
            assert forall|a: int, b: int| 0 <= a < b < after.len() implies
                keys@[#[trigger] after[a] as int].level() > keys@[#[trigger] after[b] as int].level()
                || (keys@[after[a] as int].level() == keys@[after[b] as int].level() && after[a] < after[b]) by {
                if b < pos {
                } else if b == pos {
                } else if a < pos {
                    assert(after[b] == before[b - 1]);
                } else if a == pos {
                    assert(after[b] == before[b - 1]);
                } else {
                    assert(after[a] == before[a - 1]);
                    assert(after[b] == before[b - 1]);
                }
            }
        }
        i += 1;
    }
    order
}

} // verus!
