//! A cursor over any indexable collection: an owned container paired with a
//! position that can be moved by absolute, end-relative or current-relative
//! offsets, with pass-through accessors that act at the position.
pub mod collection;
pub mod cursor;
pub mod lemmas;

pub use collection::{IndexableCollection, IndexableCollectionMut};
pub use cursor::{CollectionCursor, SeekFrom};
