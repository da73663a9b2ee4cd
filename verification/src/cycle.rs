//! Device hot-swap order: a camera switches to the next attached device in
//! enumeration order, cyclically, matching the current device by its stable
//! identity key. An unmatched identity (the device vanished) or a lone device
//! leaves the binding unchanged.

use vstd::prelude::*;

verus! {

/// No two attached devices share an identity key.
pub open spec fn distinct_ids(ids: Seq<u64>) -> bool {
    forall|i: int, j: int|
        0 <= i < ids.len() && 0 <= j < ids.len() && i != j ==> ids[i] != ids[j]
}

/// The index at which `id` occurs; meaningful when the keys are distinct and
/// one of them is `id`.
pub open spec fn id_index(ids: Seq<u64>, id: u64) -> int {
    choose|i: int| 0 <= i < ids.len() && ids[i] == id
}

/// The identity bound after one hot-swap among the attached keys `ids`: the
/// cyclic successor of `current` in enumeration order, or `current` itself
/// when it is not attached or is the only device.
pub open spec fn next_bound_id(ids: Seq<u64>, current: u64) -> u64 {
    if !ids.contains(current) || ids.len() <= 1 {
        current
    } else {
        ids[(id_index(ids, current) + 1) % (ids.len() as int)]
    }
}

/// The identity bound after `count` consecutive hot-swaps.
pub open spec fn iterate_bound_id(ids: Seq<u64>, current: u64, count: nat) -> u64
    decreases count,
{
    if count == 0 {
        current
    } else {
        next_bound_id(ids, iterate_bound_id(ids, current, (count - 1) as nat))
    }
}

/// Locates `current` among the attached keys and picks the index to switch
/// to: the cyclic successor of its first occurrence. `None` exactly when
/// `current` is not attached or only one device is attached.
pub fn next_device_index(ids: &Vec<u64>, current: u64) -> (next: Option<usize>)
    ensures
        match next {
            Some(j) => {
                &&& ids@.contains(current)
                &&& ids@.len() > 1
                &&& (j as int) < ids@.len()
                &&& (distinct_ids(ids@) ==> j as int == (id_index(ids@, current) + 1) % (
                ids@.len() as int))
            },
            None => !ids@.contains(current) || ids@.len() <= 1,
        },
{
    let n: usize = ids.len();
    let mut i: usize = 0;
    while i < n
        invariant
            i <= n,
            n == ids@.len(),
            forall|k: int| 0 <= k < i as int ==> ids@[k] != current,
        decreases n - i,
    {
        if ids[i] == current {
            if n <= 1 {
                return None;
            }
            let j: usize = if i + 1 == n {
                0
            } else {
                i + 1
            };
            proof {
                assert(ids@.contains(current)) by {
                    assert(ids@[i as int] == current);
                }
                if distinct_ids(ids@) {
                    let p = id_index(ids@, current);
                    assert(0 <= p < ids@.len() && ids@[p] == current);
                    assert(p == i as int);
                    if i + 1 == n {
                        vstd::arithmetic::div_mod::lemma_mod_self_0(n as int);
                    } else {
                        vstd::arithmetic::div_mod::lemma_small_mod((i + 1) as nat, n as nat);
                    }
                }
            }
            return Some(j);
        }
        i = i + 1;
    }
    None
}

/// Among distinct keys, the index of a member is the position it stands at.
pub proof fn lemma_id_index_of_member(ids: Seq<u64>, p: int)
    requires
        distinct_ids(ids),
        0 <= p < ids.len(),
    ensures
        ids.contains(ids[p]),
        id_index(ids, ids[p]) == p,
{
    assert(ids.contains(ids[p])) by {
        assert(ids[p] == ids[p]);
    }
    let q = id_index(ids, ids[p]);
    assert(0 <= q < ids.len() && ids[q] == ids[p]);
}

/// One hot-swap moves a bound member one position forward, cyclically.
pub proof fn lemma_next_from_position(ids: Seq<u64>, p: int)
    requires
        distinct_ids(ids),
        0 <= p < ids.len(),
    ensures
        next_bound_id(ids, ids[p]) == ids[(p + 1) % (ids.len() as int)],
{
    let n = ids.len() as int;
    lemma_id_index_of_member(ids, p);
    if n == 1 {
        vstd::arithmetic::div_mod::lemma_mod_self_0(n);
        assert((p + 1) % n == 0);
    }
}

/// `count` hot-swaps move a bound member `count` positions forward, cyclically.
proof fn lemma_iterate_from_position(ids: Seq<u64>, p: int, count: nat)
    requires
        distinct_ids(ids),
        0 <= p < ids.len(),
    ensures
        iterate_bound_id(ids, ids[p], count) == ids[(p + count) % (ids.len() as int)],
    decreases count,
{
    let n = ids.len() as int;
    if count == 0 {
        vstd::arithmetic::div_mod::lemma_small_mod(p as nat, ids.len());
    } else {
        lemma_iterate_from_position(ids, p, (count - 1) as nat);
        let q = (p + count - 1) % n;
        vstd::arithmetic::div_mod::lemma_mod_bound(p + count - 1, n);
        lemma_next_from_position(ids, q);
        assert((q + 1) % n == (p + count) % n) by {
            vstd::arithmetic::div_mod::lemma_mod_twice(p + count - 1, n);
            vstd::arithmetic::div_mod::lemma_add_mod_noop(p + count - 1, 1, n);
            if n == 1 {
                vstd::arithmetic::div_mod::lemma_mod_self_0(n);
            } else {
                vstd::arithmetic::div_mod::lemma_small_mod(1nat, ids.len());
            }
        }
    }
}

/// Cyclic closure: hot-swapping as many times as there are attached devices
/// returns the camera to the identity it started from.
pub proof fn lemma_cycle_closure(ids: Seq<u64>, start: u64)
    requires
        distinct_ids(ids),
        ids.contains(start),
    ensures
        iterate_bound_id(ids, start, ids.len()) == start,
{
    let n = ids.len() as int;
    let p = id_index(ids, start);
    assert(0 <= p < n && ids[p] == start);
    lemma_iterate_from_position(ids, p, ids.len());
    vstd::arithmetic::div_mod::lemma_mod_multiples_vanish(1, p, n);
    vstd::arithmetic::div_mod::lemma_small_mod(p as nat, ids.len());
}

/// A lone attached device makes a hot-swap a no-op, whatever is bound.
pub proof fn lemma_single_device_noop(ids: Seq<u64>, current: u64)
    requires
        ids.len() == 1,
    ensures
        next_bound_id(ids, current) == current,
{
}

/// An identity that is no longer attached stays bound, however often the
/// swap is attempted.
pub proof fn lemma_absent_id_stays(ids: Seq<u64>, current: u64, count: nat)
    requires
        !ids.contains(current),
    ensures
        iterate_bound_id(ids, current, count) == current,
    decreases count,
{
    if count > 0 {
        lemma_absent_id_stays(ids, current, (count - 1) as nat);
    }
}

} // verus!
