//! The two conversions between a list and its boundary form.
//!
//! At the boundary a list is a pair of a pointer and a count. The pointer is
//! held here as an optional backing store: `None` is the null pointer. Packing
//! takes a list over; dropping a packed pair tears down every element and then
//! the backing store.

use vstd::prelude::*;
use crate::ownership::backing;
use crate::ownership::lemma_owned_by_all_push;
use crate::ownership::owned_by_all;
use crate::ownership::Allocation;
use crate::ownership::Owner;

verus! {

/// The pair is in packed form: the pointer is null exactly when the count is
/// 0, and a backing store holds exactly `count` elements.
pub open spec fn is_packed<T>(ptr: Option<Vec<T>>, count: u32) -> bool {
    match ptr {
        None => count == 0,
        Some(v) => count > 0 && v@.len() == count,
    }
}

/// The elements behind a pointer: none behind the null pointer.
pub open spec fn packed_items<T>(ptr: Option<Vec<T>>) -> Seq<T> {
    match ptr {
        None => Seq::empty(),
        Some(v) => v@,
    }
}

/// The packed form of a list.
pub open spec fn spec_vec_to_ptr<T>(list: Vec<T>) -> (Option<Vec<T>>, u32) {
    if list@.len() == 0 {
        (None, 0u32)
    } else {
        (Some(list), list@.len() as u32)
    }
}

/// What dropping a packed pair releases: nothing for a count of 0, else what
/// the elements own, in their order, and then the backing store.
pub open spec fn spec_drop_vec<T: Owner>(ptr: Option<Vec<T>>, count: u32) -> Seq<Allocation> {
    if count == 0 {
        Seq::empty()
    } else {
        owned_by_all(packed_items(ptr)) + backing::<T>(count)
    }
}

/// Packs a list into a pointer and a count, taking the list over. An empty
/// list packs into the null pointer and 0.
pub fn vec_to_ptr<T>(list: Vec<T>) -> (r: (Option<Vec<T>>, u32))
    requires
        list@.len() <= u32::MAX,
    ensures
        r == spec_vec_to_ptr(list),
        is_packed(r.0, r.1),
        packed_items(r.0) == list@,
        r.1 == list@.len(),
{
    let len: usize = list.len();
    if len == 0 {
        (None, 0)
    } else {
        (Some(list), len as u32)
    }
}

/// Drops a packed pair: tears down each of the `count` elements in order,
/// then releases the backing store, and reports each allocation released.
/// With a count of 0 nothing happens.
pub fn drop_vec<T: Owner>(ptr: Option<Vec<T>>, count: u32) -> (freed: Vec<Allocation>)
    requires
        is_packed(ptr, count),
    ensures
        freed@ == spec_drop_vec(ptr, count),
{
    let mut freed: Vec<Allocation> = Vec::new();
    match ptr {
        None => {},
        Some(items) => {
            let ghost all = items@;
            for item in it: items.into_iter()
                invariant
                    it.seq() == all,
                    freed@ == owned_by_all(all.take(it.index() as int)),
            {
                proof {
                    let i = it.index() as int;
                    lemma_owned_by_all_push(all.take(i), all[i]);
                    assert(all.take(i).push(all[i]) =~= all.take(i + 1));
                }
                let mut part = item.release();
                freed.append(&mut part);
            }
            assert(all.take(all.len() as int) =~= all);
            freed.push(Allocation::Array { kind: T::kind(), count });
        },
    }
    freed
}

/// Packing a list and dropping the packed pair tears down the elements of
/// the list, each once and in their order, and leaves no backing store
/// behind. A list that is not empty has had one: it is released last, and its
/// entry tells the number of elements of the list. An empty list has had
/// none, and dropping its packed pair releases nothing.
pub proof fn lemma_pack_then_drop<T: Owner>(list: Vec<T>)
    requires
        list@.len() <= u32::MAX,
    ensures
        ({
            let packed = spec_vec_to_ptr(list);
            let freed = spec_drop_vec(packed.0, packed.1);
            &&& freed == owned_by_all(list@) + backing::<T>(list@.len() as u32)
            &&& list@.len() == 0 ==> freed == Seq::<Allocation>::empty()
            &&& list@.len() > 0 ==> freed.last() == (Allocation::Array {
                kind: T::array_kind(),
                count: list@.len() as u32,
            })
        }),
{
    if list@.len() == 0 {
        assert(owned_by_all(list@) =~= Seq::<Allocation>::empty());
    }
}

} // verus!
