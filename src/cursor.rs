//! The cursor: an owned collection paired with a position into it.
use vstd::prelude::*;

use crate::collection::{item_at, IndexableCollection, IndexableCollectionMut};

verus! {

/// Where a seek is measured from.
#[derive(Clone, Copy, Debug, Hash, PartialEq, Eq, PartialOrd, Ord)]
pub enum SeekFrom {
    /// The given index itself: `Start(0)` is the first item, `Start(5)` the
    /// sixth.
    Start(usize),
    /// The collection's length plus the offset: `End(-1)` is the last item,
    /// `End(0)` the slot just after it.
    End(isize),
    /// The cursor's position plus the offset: `Current(-2)` moves back two
    /// indices, `Current(0)` stays.
    Current(isize),
}

/// The index a seek aims at, from the cursor's position `pos` and the
/// collection's length `len`, as an unbounded integer.
pub open spec fn seek_target(from: SeekFrom, pos: int, len: int) -> int {
    match from {
        SeekFrom::Start(p) => p as int,
        SeekFrom::End(p) => len + p,
        SeekFrom::Current(p) => pos + p,
    }
}

/// What a seek reports: the target when it lies in `0 ..= len`, else `None`.
pub open spec fn seek_outcome(from: SeekFrom, pos: int, len: int) -> Option<usize> {
    let target = seek_target(from, pos, len);
    if 0 <= target <= len {
        Some(target as usize)
    } else {
        None
    }
}

/// The cursor's position after a seek: the target when the seek succeeds,
/// else the position it had.
pub open spec fn position_after_seek(from: SeekFrom, pos: usize, len: int) -> usize {
    match seek_outcome(from, pos as int, len) {
        Some(p) => p,
        None => pos,
    }
}

/// The index of the last item of a collection of `len` items, or `0` when
/// it has none.
pub open spec fn last_item_index(len: nat) -> nat {
    if len == 0 {
        0
    } else {
        (len - 1) as nat
    }
}

/// A collection together with a position into it.
///
/// The position stays within `0 ..= len` under every cursor operation. Only a
/// caller that shrinks the collection through [`CollectionCursor::get_mut`]
/// can leave it past the end; [`CollectionCursor::clamp_to_end`] and
/// [`CollectionCursor::clamp_to_last_item`] bring it back.
#[derive(Clone, Debug, Default, Hash, PartialEq, Eq, PartialOrd, Ord)]
pub struct CollectionCursor<Tape> {
    /// The collection the cursor points into.
    inner: Tape,
    /// The index of the slot the cursor is at; `inner`'s length denotes the
    /// slot just past the last item.
    pos: usize,
}

impl<Tape> CollectionCursor<Tape> {
    /// The wrapped collection.
    pub closed spec fn collection(self) -> Tape {
        self.inner
    }

    /// The cursor's position.
    pub closed spec fn head(self) -> usize {
        self.pos
    }

    /// Wraps `inner`, with the cursor at position `0`.
    pub fn new(inner: Tape) -> (r: Self)
        ensures
            r.collection() == inner,
            r.head() == 0,
    {
        CollectionCursor { inner, pos: 0 }
    }

    /// The cursor's current position.
    pub fn position(&self) -> (r: usize)
        ensures
            r == self.head(),
    {
        self.pos
    }

    /// A reference to the wrapped collection.
    pub fn get_ref(&self) -> (r: &Tape)
        ensures
            *r == self.collection(),
    {
        &self.inner
    }

    /// A mutable reference to the wrapped collection; the position is left
    /// as it is.
    ///
    /// A caller that shrinks the collection below the position must restore
    /// `position() <= len()` (by a clamp or a seek) before it next reads or
    /// writes at the cursor.
    pub fn get_mut(&mut self) -> (r: &mut Tape)
        ensures
            *r == old(self).collection(),
            final(self).collection() == *final(r),
            final(self).head() == old(self).head(),
    {
        &mut self.inner
    }

    /// Unwraps the cursor, returning the collection.
    pub fn into_inner(self) -> (r: Tape)
        ensures
            r == self.collection(),
    {
        self.inner
    }
}

impl<Tape: IndexableCollection> CollectionCursor<Tape> {
    /// The items of the wrapped collection.
    pub open spec fn items(self) -> Seq<Tape::Item> {
        self.collection().items()
    }

    /// Whether the position lies within `0 ..= len`.
    pub open spec fn in_bounds(self) -> bool {
        self.head() <= self.items().len()
    }

    /// Moves the cursor to the index that `pos` names.
    ///
    /// A target before `0` or past `len()` (also one that no `usize` can
    /// hold) leaves the cursor where it is and returns `None`; otherwise the
    /// cursor moves there and the new position is returned.
    pub fn seek(&mut self, pos: SeekFrom) -> (r: Option<usize>)
        ensures
            r == seek_outcome(pos, old(self).head() as int, old(self).items().len() as int),
            final(self).head() == position_after_seek(pos, old(self).head(), old(self).items().len() as int),
            old(self).in_bounds() ==> final(self).in_bounds(),
            final(self).collection() == old(self).collection(),
    {
        let collection_len = self.inner.len();
        let desired_position = match pos {
            SeekFrom::Start(p) => Some(p),
            SeekFrom::End(p) => collection_len.checked_add_signed(p),
            SeekFrom::Current(p) => self.pos.checked_add_signed(p),
        };
        match desired_position {
            Some(new_pos) => {
                if new_pos <= collection_len {
                    self.pos = new_pos;
                    Some(new_pos)
                } else {
                    None
                }
            },
            None => None,
        }
    }

    /// Moves the cursor back to the index of the last item (or to `0` when
    /// there is none) if it lies past it; otherwise leaves it.
    pub fn clamp_to_last_item(&mut self)
        ensures
            final(self).head() == (if old(self).head() <= last_item_index(old(self).items().len()) {
                old(self).head() as nat
            } else {
                last_item_index(old(self).items().len())
            }),
            final(self).in_bounds(),
            final(self).collection() == old(self).collection(),
    {
        let last_item = match self.inner.len().checked_sub(1) {
            Some(last) => last,
            None => 0,
        };
        self.pos = self.pos.min(last_item);
    }

    /// Moves the cursor back to the slot one past the last item if it lies
    /// past it; otherwise leaves it.
    pub fn clamp_to_end(&mut self)
        ensures
            final(self).head() == (if old(self).head() <= old(self).items().len() {
                old(self).head() as nat
            } else {
                old(self).items().len()
            }),
            final(self).in_bounds(),
            final(self).collection() == old(self).collection(),
    {
        self.pos = self.pos.min(self.inner.len());
    }

    /// Moves the cursor to index `0`, wherever it was.
    pub fn seek_to_start(&mut self)
        ensures
            final(self).head() == 0,
            final(self).in_bounds(),
            final(self).collection() == old(self).collection(),
    {
        self.pos = 0;
    }

    /// Moves the cursor relative to its position, as
    /// `seek(SeekFrom::Current(offset))` does.
    pub fn seek_relative(&mut self, offset: isize) -> (r: Option<usize>)
        ensures
            r == seek_outcome(
                SeekFrom::Current(offset),
                old(self).head() as int,
                old(self).items().len() as int,
            ),
            final(self).head() == position_after_seek(
                SeekFrom::Current(offset),
                old(self).head(),
                old(self).items().len() as int,
            ),
            old(self).in_bounds() ==> final(self).in_bounds(),
            final(self).collection() == old(self).collection(),
    {
        self.seek(SeekFrom::Current(offset))
    }

    /// Moves the cursor back one index. Returns whether it moved: it does not
    /// at `0`, nor from a position past `len() + 1`.
    pub fn seek_backward_one(&mut self) -> (r: bool)
        ensures
            r <==> 1 <= old(self).head() <= old(self).items().len() + 1,
            final(self).head() == (if r {
                (old(self).head() - 1) as usize
            } else {
                old(self).head()
            }),
            final(self).collection() == old(self).collection(),
    {
        self.seek_relative(-1).is_some()
    }

    /// Moves the cursor forward one index, up to the slot one past the last
    /// item. Returns whether it moved.
    pub fn seek_forward_one(&mut self) -> (r: bool)
        ensures
            r <==> old(self).head() < old(self).items().len(),
            final(self).head() == (if r {
                (old(self).head() + 1) as usize
            } else {
                old(self).head()
            }),
            final(self).collection() == old(self).collection(),
    {
        self.seek_relative(1).is_some()
    }

    /// Moves the cursor to the index of the last item, or to `0` when there
    /// is none.
    pub fn seek_to_last_item(&mut self)
        ensures
            final(self).head() == last_item_index(old(self).items().len()),
            final(self).in_bounds(),
            final(self).collection() == old(self).collection(),
    {
        self.pos = match self.inner.len().checked_sub(1) {
            Some(last) => last,
            None => 0,
        };
    }

    /// Moves the cursor to the slot one past the last item, wherever it was.
    pub fn seek_to_end(&mut self)
        ensures
            final(self).head() == old(self).items().len(),
            final(self).in_bounds(),
            final(self).collection() == old(self).collection(),
    {
        self.pos = self.inner.len();
    }

    /// A reference to the item at the cursor, or `None` when the cursor is
    /// at or past the end.
    pub fn get_item_at_cursor(&self) -> (r: Option<&Tape::Item>)
        ensures
            match r {
                Some(x) => item_at(self.items(), self.head() as int) == Some(*x),
                None => item_at(self.items(), self.head() as int) is None,
            },
    {
        self.inner.get_item(self.pos)
    }
}

impl<Tape: IndexableCollectionMut> CollectionCursor<Tape> {
    /// Removes every item and moves the cursor to `0`.
    pub fn clear(&mut self)
        ensures
            final(self).items() == Seq::<Tape::Item>::empty(),
            final(self).head() == 0,
            final(self).in_bounds(),
    {
        self.inner.clear();
        self.pos = 0;
    }

    /// A mutable reference to the item at the cursor, or `None` when the
    /// cursor is at or past the end. Writing through it changes that item
    /// alone.
    pub fn get_item_at_cursor_mut(&mut self) -> (r: Option<&mut Tape::Item>)
        ensures
            final(self).head() == old(self).head(),
            old(self).in_bounds() ==> final(self).in_bounds(),
            match r {
                Some(x) => {
                    &&& old(self).head() < old(self).items().len()
                    &&& *x == old(self).items()[old(self).head() as int]
                    &&& final(self).items() == old(self).items().update(
                        old(self).head() as int,
                        *final(x),
                    )
                },
                None => {
                    &&& old(self).head() >= old(self).items().len()
                    &&& final(self).items() == old(self).items()
                },
            },
    {
        self.inner.get_item_mut(self.pos)
    }

    /// Overwrites the item at the cursor with `item`. The cursor must be at an
    /// item, not at or past the end.
    pub fn set_item_at_cursor(&mut self, item: Tape::Item)
        requires
            old(self).head() < old(self).items().len(),
        ensures
            final(self).items() == old(self).items().update(old(self).head() as int, item),
            final(self).head() == old(self).head(),
            final(self).in_bounds(),
    {
        self.inner.set_item(self.pos, item);
    }

    /// Inserts `item` at the cursor, moving the item there and all after it
    /// one index up; the cursor stays, now at `item`. The cursor must not lie
    /// past the end.
    pub fn insert_item_at_cursor(&mut self, item: Tape::Item)
        requires
            old(self).head() <= old(self).items().len(),
        ensures
            final(self).items() == old(self).items().insert(old(self).head() as int, item),
            final(self).head() == old(self).head(),
            final(self).in_bounds(),
    {
        self.inner.insert_item(self.pos, item);
    }

    /// Removes and returns the item at the cursor, moving all after it one
    /// index down; the cursor stays. Returns `None`, and changes nothing, when
    /// the cursor is at or past the end.
    pub fn remove_item_at_cursor(&mut self) -> (r: Option<Tape::Item>)
        ensures
            final(self).head() == old(self).head(),
            old(self).in_bounds() ==> final(self).in_bounds(),
            match r {
                Some(x) => {
                    &&& old(self).head() < old(self).items().len()
                    &&& x == old(self).items()[old(self).head() as int]
                    &&& final(self).items() == old(self).items().remove(old(self).head() as int)
                },
                None => {
                    &&& old(self).head() >= old(self).items().len()
                    &&& final(self).items() == old(self).items()
                },
            },
    {
        self.inner.remove_item(self.pos)
    }
}

} // verus!
