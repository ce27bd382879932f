//! The capability traits that a container implements to be wrapped by a
//! cursor, and their implementations for std's sequence types.
use std::collections::VecDeque;
use vstd::prelude::*;

verus! {

/// What a slot lookup yields on an item sequence: the item at `index`, or
/// nothing when `index` lies outside `0 .. items.len()`.
pub open spec fn item_at<T>(items: Seq<T>, index: int) -> Option<T> {
    if 0 <= index < items.len() {
        Some(items[index])
    } else {
        None
    }
}

/// Read access to an ordered collection: its length and its items by index.
pub trait IndexableCollection {
    /// The type of item this collection holds.
    type Item;

    /// The items of the collection, in order.
    spec fn items(&self) -> Seq<Self::Item>;

    /// The number of items the collection currently holds.
    fn len(&self) -> (r: usize)
        ensures
            r == self.items().len(),
    ;

    /// A reference to the item at `index`, or `None` when no item is there.
    fn get_item(&self, index: usize) -> (r: Option<&Self::Item>)
        ensures
            match r {
                Some(x) => item_at(self.items(), index as int) == Some(*x),
                None => item_at(self.items(), index as int) is None,
            },
    ;
}

/// Write access on top of read access: overwrite, insert and remove by
/// index, and clear.
pub trait IndexableCollectionMut: IndexableCollection {
    /// A mutable reference to the item at `index`, or `None` when no item is
    /// there. Writing through the reference changes that item alone.
    fn get_item_mut(&mut self, index: usize) -> (r: Option<&mut Self::Item>)
        ensures
            match r {
                Some(x) => {
                    &&& index < old(self).items().len()
                    &&& *x == old(self).items()[index as int]
                    &&& final(self).items() == old(self).items().update(index as int, *final(x))
                },
                None => {
                    &&& index >= old(self).items().len()
                    &&& final(self).items() == old(self).items()
                },
            },
    ;

    /// Overwrites the item at `index` with `element`. There must be an item
    /// at `index`.
    fn set_item(&mut self, index: usize, element: Self::Item)
        requires
            index < old(self).items().len(),
        ensures
            final(self).items() == old(self).items().update(index as int, element),
    ;

    /// Inserts `element` before the item at `index`, moving that item and all
    /// after it one index up; `index == len()` appends.
    fn insert_item(&mut self, index: usize, element: Self::Item)
        requires
            index <= old(self).items().len(),
        ensures
            final(self).items() == old(self).items().insert(index as int, element),
    ;

    /// Removes and returns the item at `index`, moving all after it one index
    /// down; returns `None`, and changes nothing, when no item is there.
    fn remove_item(&mut self, index: usize) -> (r: Option<Self::Item>)
        ensures
            match r {
                Some(x) => {
                    &&& index < old(self).items().len()
                    &&& x == old(self).items()[index as int]
                    &&& final(self).items() == old(self).items().remove(index as int)
                },
                None => {
                    &&& index >= old(self).items().len()
                    &&& final(self).items() == old(self).items()
                },
            },
    ;

    /// Removes every item.
    fn clear(&mut self)
        ensures
            final(self).items() == Seq::<Self::Item>::empty(),
    ;
}

impl<T> IndexableCollection for Vec<T> {
    type Item = T;

    open spec fn items(&self) -> Seq<T> {
        self@
    }

    fn len(&self) -> (r: usize) {
        Vec::len(self)
    }

    fn get_item(&self, index: usize) -> (r: Option<&T>) {
        if index < Vec::len(self) {
            Some(&self[index])
        } else {
            None
        }
    }
}

impl<T> IndexableCollectionMut for Vec<T> {
    fn get_item_mut(&mut self, index: usize) -> (r: Option<&mut T>) {
        if index < Vec::len(self) {
            Some(&mut self[index])
        } else {
            None
        }
    }

    fn set_item(&mut self, index: usize, element: T) {
        self[index] = element;
    }

    fn insert_item(&mut self, index: usize, element: T) {
        self.insert(index, element);
    }

    fn remove_item(&mut self, index: usize) -> (r: Option<T>) {
        if index < Vec::len(self) {
            Some(self.remove(index))
        } else {
            None
        }
    }

    fn clear(&mut self) {
        Vec::clear(self);
    }
}

/// Relies on `VecDeque::get_mut`: a mutable reference to the element at
/// `index` when `index < len()`, else `None`; writing through it changes that
/// element alone.
#[verifier::external_body]
fn deque_get_mut<T>(deque: &mut VecDeque<T>, index: usize) -> (r: Option<&mut T>)
    ensures
        match r {
            Some(x) => {
                &&& index < old(deque)@.len()
                &&& *x == old(deque)@[index as int]
                &&& final(deque)@ == old(deque)@.update(index as int, *final(x))
            },
            None => {
                &&& index >= old(deque)@.len()
                &&& final(deque)@ == old(deque)@
            },
        },
{
    deque.get_mut(index)
}

impl<T> IndexableCollection for VecDeque<T> {
    type Item = T;

    open spec fn items(&self) -> Seq<T> {
        self@
    }

    fn len(&self) -> (r: usize) {
        VecDeque::len(self)
    }

    fn get_item(&self, index: usize) -> (r: Option<&T>) {
        if index < VecDeque::len(self) {
            Some(&self[index])
        } else {
            None
        }
    }
}

impl<T> IndexableCollectionMut for VecDeque<T> {
    fn get_item_mut(&mut self, index: usize) -> (r: Option<&mut T>) {
        deque_get_mut(self, index)
    }

    fn set_item(&mut self, index: usize, element: T) {
        if let Some(slot) = deque_get_mut(self, index) {
            *slot = element;
        }
    }

    fn insert_item(&mut self, index: usize, element: T) {
        self.insert(index, element);
    }

    fn remove_item(&mut self, index: usize) -> (r: Option<T>) {
        self.remove(index)
    }

    fn clear(&mut self) {
        VecDeque::clear(self);
    }
}

impl<T, const N: usize> IndexableCollection for [T; N] {
    type Item = T;

    open spec fn items(&self) -> Seq<T> {
        self@
    }

    fn len(&self) -> (r: usize) {
        N
    }

    fn get_item(&self, index: usize) -> (r: Option<&T>) {
        if index < N {
            Some(&self[index])
        } else {
            None
        }
    }
}

} // verus!
