use vstd::prelude::*;

use crate::element::{Element, Index, Result};

verus! {

/// The ordered sequence of elements that all operations act on.
pub struct ListStore {
    elements: Vec<Element>,
}

impl View for ListStore {
    type V = Seq<Element>;

    closed spec fn view(&self) -> Seq<Element> {
        self.elements@
    }
}

impl ListStore {
    /// An empty store.
    pub fn new() -> (s: Self)
        ensures
            s@ == Seq::<Element>::empty(),
    {
        ListStore { elements: Vec::new() }
    }

    /// The number of elements held.
    pub fn len(&self) -> (n: usize)
        ensures
            n == self@.len(),
    {
        self.elements.len()
    }
}

/// Inserts `elem` at position `idx`, moving the elements from `idx` on one
/// place later; `idx` may equal the length, which appends. A larger `idx` is
/// refused with `IndexOutOfBounds` and the store is left as it was.
pub fn add_element_at(store: &mut ListStore, idx: Index, elem: Element) -> (r: Result)
    ensures
        (r == Result::Success) == (idx <= old(store)@.len()),
        r == Result::Success ==> {
            &&& final(store)@ == old(store)@.insert(idx as int, elem)
            &&& final(store)@.len() == old(store)@.len() + 1
            &&& final(store)@[idx as int] == elem
            &&& forall|i: int| 0 <= i < idx ==> #[trigger] final(store)@[i] == old(store)@[i]
            &&& forall|i: int|
                idx <= i < old(store)@.len() ==> final(store)@[i + 1] == #[trigger] old(store)@[i]
        },
        r == Result::IndexOutOfBounds ==> final(store)@ == old(store)@,
{
    if store.elements.len() < idx {
        return Result::IndexOutOfBounds;
    }
    store.elements.insert(idx, elem);
    Result::Success
}

/// Removes the element at position `idx`, moving the later elements one
/// place earlier. An `idx` at or past the length is refused with
/// `IndexOutOfBounds` and the store is left as it was.
pub fn remove_element_at(store: &mut ListStore, idx: Index) -> (r: Result)
    ensures
        (r == Result::Success) == (idx < old(store)@.len()),
        r == Result::Success ==> {
            &&& final(store)@ == old(store)@.remove(idx as int)
            &&& final(store)@.len() == old(store)@.len() - 1
            &&& forall|i: int| 0 <= i < idx ==> #[trigger] final(store)@[i] == old(store)@[i]
            &&& forall|i: int|
                idx < i < old(store)@.len() ==> final(store)@[i - 1] == #[trigger] old(store)@[i]
        },
        r == Result::IndexOutOfBounds ==> final(store)@ == old(store)@,
{
    if store.elements.len() <= idx {
        return Result::IndexOutOfBounds;
    }
    store.elements.remove(idx);
    Result::Success
}

/// Replaces the element at position `idx` with `updated_elem`. An `idx` at or
/// past the length is refused with `IndexOutOfBounds` and the store is left as
/// it was.
pub fn update_element_at(store: &mut ListStore, idx: Index, updated_elem: Element) -> (r: Result)
    ensures
        (r == Result::Success) == (idx < old(store)@.len()),
        r == Result::Success ==> {
            &&& final(store)@ == old(store)@.update(idx as int, updated_elem)
            &&& final(store)@.len() == old(store)@.len()
            &&& final(store)@[idx as int] == updated_elem
            &&& forall|i: int|
                0 <= i < old(store)@.len() && i != idx ==> #[trigger] final(store)@[i]
                    == old(store)@[i]
        },
        r == Result::IndexOutOfBounds ==> final(store)@ == old(store)@,
{
    if store.elements.len() <= idx {
        return Result::IndexOutOfBounds;
    }
    store.elements.set(idx, updated_elem);
    Result::Success
}

/// What a listing of `store` holds: its elements, in storage order.
pub open spec fn listing(store: &ListStore) -> Seq<Element> {
    store@
}

/// A copy of every element, in storage order. The store is only read.
pub fn list_all(store: &ListStore) -> (r: Vec<Element>)
    ensures
        r@ == listing(store),
{
    let r = store.elements.clone();
    assert(r@ =~= store@);
    r
}

/// Listing is idempotent: two listings of one store, with no mutation between
/// them, hold the same elements in the same order.
pub proof fn list_all_idempotent(store: &ListStore, first: Seq<Element>, second: Seq<Element>)
    requires
        first == listing(store),
        second == listing(store),
    ensures
        first == second,
{
}

} // verus!
