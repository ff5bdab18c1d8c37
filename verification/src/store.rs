//! The element store: a `smallvec::SmallVec` of bytes with four inline
//! slots. Nothing in this file is proved: each item states what the source
//! of `smallvec` shows of the one call it makes.

use vstd::prelude::*;
use smallvec::{CollectionAllocErr, SmallVec};

verus! {

/// The number of slots the store holds inline.
pub const INLINE_CAPACITY: usize = 4;

/// A `SmallVec<[u8; 4]>`. Verified code sees none of its fields, only what
/// `store_items` and `store_capacity` say of it.
#[verifier::external_body]
pub struct ByteStore {
    inner: SmallVec<[u8; 4]>,
}

/// `smallvec::CollectionAllocErr`, the error of a growth that the allocator
/// or the layout computation refused. It is carried through unread.
#[verifier::external_type_specification]
#[verifier::external_body]
pub struct ExCollectionAllocErr(CollectionAllocErr);

/// The elements a store holds, in order.
pub uninterp spec fn store_items(store: ByteStore) -> Seq<u8>;

/// The slot count that `SmallVec::capacity` reports: the inline size while
/// the elements are inline, and otherwise the figure handed to the growth
/// that made the current heap buffer, which `SmallVec` records itself.
pub uninterp spec fn store_capacity(store: ByteStore) -> nat;

/// `SmallVec::new`: the store starts empty, on its inline slots.
#[verifier::external_body]
pub(crate) fn store_new() -> (store: ByteStore)
    ensures
        store_items(store) == Seq::<u8>::empty(),
        store_capacity(store) == INLINE_CAPACITY,
{
    ByteStore { inner: SmallVec::new() }
}

/// `SmallVec::len`: the number of elements held.
#[verifier::external_body]
pub(crate) fn store_len(store: &ByteStore) -> (length: usize)
    ensures
        length == store_items(*store).len(),
{
    store.inner.len()
}

/// `SmallVec::capacity`: the slot count itself.
#[verifier::external_body]
pub(crate) fn store_slots(store: &ByteStore) -> (slots: usize)
    ensures
        slots == store_capacity(*store),
{
    store.inner.capacity()
}

/// `SmallVec::spilled`: whether the elements are on the heap, which is the
/// case exactly when the slot count is above the inline size.
#[verifier::external_body]
pub(crate) fn store_spilled(store: &ByteStore) -> (spilled: bool)
    ensures
        spilled == (store_capacity(*store) > INLINE_CAPACITY),
{
    store.inner.spilled()
}

/// `SmallVec::as_slice`: the elements, in order.
#[verifier::external_body]
pub(crate) fn store_slice(store: &ByteStore) -> (items: &[u8])
    ensures
        items@ == store_items(*store),
{
    store.inner.as_slice()
}

/// `SmallVec::push` on a store with a free slot: the value goes into that
/// slot, so the store neither allocates nor changes its slot count. A full
/// store would grow by itself and abort where that fails; `requires` keeps
/// such a store out.
#[verifier::external_body]
pub(crate) fn store_push(store: &mut ByteStore, value: u8)
    requires
        store_items(*old(store)).len() < store_capacity(*old(store)),
    ensures
        store_items(*final(store)) == store_items(*old(store)).push(value),
        store_capacity(*final(store)) == store_capacity(*old(store)),
    no_unwind
{
    store.inner.push(value)
}

/// `SmallVec::try_grow` with a figure above the current slot count, and so
/// above the inline size and the length, neither of which the slot count is
/// ever below. The elements stay as they are. On `Ok` they sit in a heap
/// buffer of exactly `new_cap` slots; on `Err` no part of the store was
/// written.
#[verifier::external_body]
pub(crate) fn store_try_grow(store: &mut ByteStore, new_cap: usize) -> (answer: Result<
    (),
    CollectionAllocErr,
>)
    requires
        new_cap > store_capacity(*old(store)),
    ensures
        store_items(*final(store)) == store_items(*old(store)),
        answer is Ok ==> store_capacity(*final(store)) == new_cap,
        answer is Err ==> *final(store) == *old(store),
    no_unwind
{
    store.inner.try_grow(new_cap)
}

} // verus!
