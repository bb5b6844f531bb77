//! In-place filtering of vectors, the one retain rule every ledger uses.
use vstd::prelude::*;

verus! {

/// Keeps exactly the elements of `v` for which `keep` holds, in order.
pub fn retain_by<T, F: Fn(&T) -> bool>(
    v: &mut Vec<T>,
    keep: F,
    Ghost(pred): Ghost<spec_fn(T) -> bool>,
)
    requires
        forall|x: &T| keep.requires((x,)),
        forall|x: &T, r: bool| keep.ensures((x,), r) ==> r == pred(*x),
    ensures
        final(v)@ == old(v)@.filter(pred),
{
    let ghost all = old(v)@;
    let mut i: usize = 0;
    let ghost mut k: int = 0;
    assert(all.take(0).filter(pred) =~= Seq::<T>::empty()) by {
        reveal_with_fuel(Seq::filter, 1);
    }
    assert(v@.take(0) =~= Seq::<T>::empty());
    assert(all.skip(0) =~= all);
    while i < v.len()
        invariant
            0 <= i <= v@.len(),
            0 <= k <= all.len(),
            v@.take(i as int) == all.take(k).filter(pred),
            v@.skip(i as int) == all.skip(k),
            forall|x: &T| keep.requires((x,)),
            forall|x: &T, r: bool| keep.ensures((x,), r) ==> r == pred(*x),
        decreases v@.len() - i,
    {
        let ghost before = v@;
        proof {
            assert(before.skip(i as int).len() == before.len() - i);
            assert(all.skip(k).len() == all.len() - k);
            assert(k < all.len());
            assert(before.skip(i as int)[0] == all[k]);
            assert(all.take(k + 1).drop_last() =~= all.take(k));
            reveal_with_fuel(Seq::filter, 1);
            assert(all.skip(k).drop_first() =~= all.skip(k + 1));
        }
        let kept = keep(&v[i]);
        if kept {
            proof {
                assert(v@.take(i + 1) =~= v@.take(i as int).push(all[k]));
                assert(v@.skip(i + 1) =~= v@.skip(i as int).drop_first());
            }
            i += 1;
        } else {
            v.remove(i);
            proof {
                assert(v@.take(i as int) =~= before.take(i as int));
                assert(v@.skip(i as int) =~= before.skip(i as int).drop_first());
            }
        }
        proof {
            k = k + 1;
        }
    }
    proof {
        assert(all.skip(k).len() == 0);
        assert(k == all.len());
        assert(all.take(k) =~= all);
        assert(v@.take(i as int) =~= v@);
    }
}

/// Whether `x` occurs in `v`.
pub fn contains_u32(v: &Vec<u32>, x: u32) -> (r: bool)
    ensures
        r == v@.contains(x),
{
    let mut k: usize = 0;
    while k < v.len()
        invariant
            0 <= k <= v@.len(),
            forall|w: int| 0 <= w < k ==> v@[w] != x,
        decreases v@.len() - k,
    {
        if v[k] == x {
            assert(v@[k as int] == x);
            return true;
        }
        k += 1;
    }
    false
}

/// `v` as a set after adding `x`: unchanged when `x` is present, else `x`
/// appended.
pub open spec fn spec_set_insert(v: Seq<u32>, x: u32) -> Seq<u32> {
    if v.contains(x) {
        v
    } else {
        v.push(x)
    }
}

/// Adds `x` to the set held in `v`.
pub fn insert_unique(v: &mut Vec<u32>, x: u32)
    ensures
        final(v)@ == spec_set_insert(old(v)@, x),
{
    if !contains_u32(v, x) {
        v.push(x);
    }
}

/// The negation of a predicate.
pub open spec fn spec_not<T>(pred: spec_fn(T) -> bool) -> spec_fn(T) -> bool {
    |x: T| !pred(x)
}

/// Splits `v` into the elements for which `test` holds and the others,
/// each in order.
pub fn partition_by<T, F: Fn(&T) -> bool>(v: Vec<T>, test: F, Ghost(pred): Ghost<spec_fn(T) -> bool>) -> (r: (
    Vec<T>,
    Vec<T>,
))
    requires
        forall|x: &T| test.requires((x,)),
        forall|x: &T, b: bool| test.ensures((x,), b) ==> b == pred(*x),
    ensures
        r.0@ == v@.filter(pred),
        r.1@ == v@.filter(spec_not(pred)),
{
    let ghost all = v@;
    let mut rest = v;
    let mut yes: Vec<T> = Vec::new();
    let mut no: Vec<T> = Vec::new();
    let ghost mut k: int = 0;
    proof {
        reveal_with_fuel(Seq::filter, 1);
        assert(all.take(0) =~= Seq::<T>::empty());
        assert(all.skip(0) =~= all);
    }
    while rest.len() > 0
        invariant
            0 <= k <= all.len(),
            rest@ == all.skip(k),
            yes@ == all.take(k).filter(pred),
            no@ == all.take(k).filter(spec_not(pred)),
            forall|x: &T| test.requires((x,)),
            forall|x: &T, b: bool| test.ensures((x,), b) ==> b == pred(*x),
        decreases rest@.len(),
    {
        proof {
            assert(all.skip(k).len() == all.len() - k);
            assert(all.take(k + 1).drop_last() =~= all.take(k));
            assert(all.take(k + 1).last() == all[k]);
            reveal_with_fuel(Seq::filter, 1);
        }
        let x = rest.remove(0);
        assert(x == all[k]);
        if test(&x) {
            yes.push(x);
        } else {
            no.push(x);
        }
        proof {
            k = k + 1;
            assert(rest@ =~= all.skip(k));
        }
    }
    proof {
        assert(all.take(k) =~= all);
    }
    (yes, no)
}

} // verus!
