//! What a value of the model owns.
//!
//! Ownership is a tree: every allocation has one owner, and an owner is torn
//! down by releasing what its parts own before what backs the parts. The
//! allocations are listed here as plain values, in the order of teardown, so
//! that contracts can say which allocations a constructor takes over, which
//! ones an extraction hands on, and that a teardown releases each of them
//! once.

use vstd::prelude::*;

verus! {

/// What the elements of an array are.
#[derive(Clone, Copy, Debug, PartialEq, Eq, Structural)]
pub enum ArrayKind {
    DecodingSpecs,
    EncodingSpecs,
    Codecs,
    Devices,
}

/// One allocation that a value of the model owns.
#[derive(Clone, Copy, Debug, PartialEq, Eq, Structural)]
pub enum Allocation {
    /// The text that selects a device by its path.
    Path,
    /// The display name of a device.
    Name,
    /// The backing store of an array of `count` elements; `count` is never 0.
    Array { kind: ArrayKind, count: u32 },
}

/// A value that may own allocations and is torn down as a unit.
pub trait Owner: Sized {
    /// The allocations that the value owns, in the order in which its
    /// teardown releases them.
    spec fn owned(&self) -> Seq<Allocation>;

    /// What an array of such values is listed as.
    spec fn array_kind() -> ArrayKind;

    /// What an array of such values is listed as.
    fn kind() -> (k: ArrayKind)
        ensures
            k == Self::array_kind(),
    ;

    /// Tears the value down and reports each allocation that was released,
    /// in order.
    fn release(self) -> (freed: Vec<Allocation>)
        ensures
            freed@ == self.owned(),
    ;
}

/// The allocations that the elements of `items` own, element by element.
pub open spec fn owned_by_all<T: Owner>(items: Seq<T>) -> Seq<Allocation>
    decreases items.len(),
{
    if items.len() == 0 {
        Seq::empty()
    } else {
        owned_by_all(items.drop_last()) + items.last().owned()
    }
}

/// The backing store of an array of `count` elements: none for an empty array.
pub open spec fn backing<T: Owner>(count: u32) -> Seq<Allocation> {
    if count == 0 {
        Seq::empty()
    } else {
        seq![Allocation::Array { kind: T::array_kind(), count }]
    }
}

/// Listing the allocations of a longer array lists those of the elements
/// before the last, then those of the last.
pub proof fn lemma_owned_by_all_push<T: Owner>(items: Seq<T>, last: T)
    ensures
        owned_by_all(items.push(last)) == owned_by_all(items) + last.owned(),
{
    assert(items.push(last).drop_last() =~= items);
}

/// Two arrays whose elements own the same, place by place, own the same.
pub proof fn lemma_owned_by_all_agrees<T: Owner>(a: Seq<T>, b: Seq<T>)
    requires
        a.len() == b.len(),
        forall|i: int| 0 <= i < a.len() ==> (#[trigger] a[i]).owned() == b[i].owned(),
    ensures
        owned_by_all(a) == owned_by_all(b),
    decreases a.len(),
{
    if a.len() > 0 {
        lemma_owned_by_all_agrees(a.drop_last(), b.drop_last());
    }
}

/// Elements that own nothing leave the array with nothing but its backing
/// store.
pub proof fn lemma_owned_by_all_of_leaves<T: Owner>(items: Seq<T>)
    requires
        forall|i: int| 0 <= i < items.len() ==> (#[trigger] items[i]).owned() == Seq::<Allocation>::empty(),
    ensures
        owned_by_all(items) == Seq::<Allocation>::empty(),
    decreases items.len(),
{
    if items.len() > 0 {
        lemma_owned_by_all_of_leaves(items.drop_last());
    }
}

} // verus!
