use std::collections::VecDeque;

use collection_cursor::{CollectionCursor, IndexableCollection, SeekFrom};

fn sample() -> CollectionCursor<Vec<i32>> {
    CollectionCursor::new(vec![0, 1, 2, 3, 4, 5, 9, 8, 7, 6])
}

#[test]
fn seek_walkthrough_over_ten_items() {
    let mut cursor = sample();
    assert_eq!(cursor.position(), 0);
    assert_eq!(cursor.seek(SeekFrom::Start(3)), Some(3));
    assert_eq!(cursor.position(), 3);
    assert_eq!(cursor.seek(SeekFrom::Current(7)), Some(10));
    assert_eq!(cursor.position(), 10);
    assert_eq!(cursor.seek(SeekFrom::Current(1)), None);
    assert_eq!(cursor.position(), 10);
    assert_eq!(cursor.seek(SeekFrom::End(-1)), Some(9));
    assert_eq!(cursor.position(), 9);
    assert_eq!(cursor.seek(SeekFrom::End(1)), None);
    assert_eq!(cursor.position(), 9);
}

#[test]
fn seek_start_reaches_every_valid_index() {
    let mut cursor = sample();
    for p in (0..=10).rev() {
        assert_eq!(cursor.seek(SeekFrom::Start(p)), Some(p));
        assert_eq!(cursor.position(), p);
    }
}

#[test]
fn seek_past_end_fails_in_each_mode() {
    let mut cursor = sample();
    cursor.seek(SeekFrom::Start(4));
    assert_eq!(cursor.seek(SeekFrom::Start(11)), None);
    assert_eq!(cursor.position(), 4);
    assert_eq!(cursor.seek(SeekFrom::End(1)), None);
    assert_eq!(cursor.position(), 4);
    assert_eq!(cursor.seek(SeekFrom::Current(7)), None);
    assert_eq!(cursor.position(), 4);
    assert_eq!(cursor.seek(SeekFrom::Current(-5)), None);
    assert_eq!(cursor.position(), 4);
    assert_eq!(cursor.seek(SeekFrom::End(-11)), None);
    assert_eq!(cursor.position(), 4);
}

#[test]
fn seek_to_end_after_shrink() {
    let mut cursor = sample();
    cursor.seek_to_end();
    cursor.get_mut().truncate(3);
    assert_eq!(cursor.position(), 10);
    cursor.seek_to_end();
    assert_eq!(cursor.position(), 3);
}

#[test]
fn seek_to_last_item_on_empty_and_full() {
    let mut empty = CollectionCursor::new(Vec::<i32>::new());
    empty.seek_to_last_item();
    assert_eq!(empty.position(), 0);

    let mut cursor = sample();
    cursor.seek_to_last_item();
    assert_eq!(cursor.position(), 9);
    assert_eq!(cursor.get_item_at_cursor(), Some(&6));
}

#[test]
fn get_at_end_is_none() {
    let mut cursor = sample();
    cursor.seek_to_end();
    assert_eq!(cursor.get_item_at_cursor(), None);
    assert_eq!(cursor.get_item_at_cursor_mut(), None);

    let empty = CollectionCursor::new(Vec::<i32>::new());
    assert_eq!(empty.get_item_at_cursor(), None);
}

#[test]
fn insert_then_get_returns_inserted() {
    let mut cursor = sample();
    for p in [0, 4, 10] {
        cursor.seek(SeekFrom::Start(p));
        cursor.insert_item_at_cursor(-1);
        assert_eq!(cursor.position(), p);
        assert_eq!(cursor.get_item_at_cursor(), Some(&-1));
        cursor.remove_item_at_cursor();
    }
    assert_eq!(cursor.get_ref(), sample().get_ref());
}

#[test]
fn insert_into_empty_then_get() {
    let mut cursor = CollectionCursor::new(Vec::<i32>::new());
    cursor.insert_item_at_cursor(5);
    assert_eq!(cursor.get_item_at_cursor(), Some(&5));
    assert_eq!(cursor.get_ref(), &vec![5]);
}

#[test]
fn remove_last_leaves_cursor_one_past_end() {
    let mut cursor = sample();
    cursor.seek_to_last_item();
    assert_eq!(cursor.remove_item_at_cursor(), Some(6));
    assert_eq!(cursor.position(), 9);
    assert_eq!(IndexableCollection::len(cursor.get_ref()), 9);
    assert_eq!(cursor.remove_item_at_cursor(), None);
    assert_eq!(cursor.get_ref(), &vec![0, 1, 2, 3, 4, 5, 9, 8, 7]);
}

#[test]
fn remove_shifts_later_items_down() {
    let mut cursor = sample();
    cursor.seek(SeekFrom::Start(1));
    assert_eq!(cursor.remove_item_at_cursor(), Some(1));
    assert_eq!(cursor.position(), 1);
    assert_eq!(cursor.get_item_at_cursor(), Some(&2));
    assert_eq!(cursor.get_ref(), &vec![0, 2, 3, 4, 5, 9, 8, 7, 6]);
}

#[test]
fn clear_resets_length_and_position() {
    let mut cursor = sample();
    cursor.seek(SeekFrom::Start(7));
    cursor.clear();
    assert_eq!(cursor.position(), 0);
    assert_eq!(IndexableCollection::len(cursor.get_ref()), 0);

    let mut empty = CollectionCursor::new(VecDeque::<i32>::new());
    empty.clear();
    assert_eq!(empty.position(), 0);
    assert!(empty.get_ref().is_empty());
}

#[test]
fn clamps_after_shrink() {
    let mut cursor = sample();
    cursor.seek_to_end();
    cursor.get_mut().truncate(4);
    cursor.clamp_to_end();
    assert_eq!(cursor.position(), 4);

    cursor.seek_to_end();
    cursor.clamp_to_last_item();
    assert_eq!(cursor.position(), 3);

    cursor.seek(SeekFrom::Start(1));
    cursor.clamp_to_last_item();
    cursor.clamp_to_end();
    assert_eq!(cursor.position(), 1);
}

#[test]
fn step_one_at_edges() {
    let mut cursor = CollectionCursor::new(vec![1, 2]);
    assert!(!cursor.seek_backward_one());
    assert!(cursor.seek_forward_one());
    assert!(cursor.seek_forward_one());
    assert_eq!(cursor.position(), 2);
    assert!(!cursor.seek_forward_one());
    assert!(cursor.seek_backward_one());
    assert_eq!(cursor.position(), 1);
}

#[test]
fn cursor_over_deque() {
    let mut cursor = CollectionCursor::new(VecDeque::from([10, 20, 30]));
    assert_eq!(cursor.seek(SeekFrom::End(-1)), Some(2));
    assert_eq!(cursor.get_item_at_cursor(), Some(&30));
    cursor.set_item_at_cursor(33);
    if let Some(slot) = cursor.get_item_at_cursor_mut() {
        *slot += 1;
    }
    assert_eq!(cursor.remove_item_at_cursor(), Some(34));
    assert_eq!(cursor.position(), 2);
    assert_eq!(cursor.remove_item_at_cursor(), None);
    cursor.seek_to_start();
    cursor.insert_item_at_cursor(5);
    assert_eq!(cursor.into_inner(), VecDeque::from([5, 10, 20]));
}

#[test]
fn cursor_over_array_reads() {
    let mut cursor = CollectionCursor::new([4, 5, 6]);
    assert_eq!(cursor.get_item_at_cursor(), Some(&4));
    assert_eq!(cursor.seek(SeekFrom::End(-2)), Some(1));
    assert_eq!(cursor.get_item_at_cursor(), Some(&5));
    assert_eq!(cursor.seek(SeekFrom::End(1)), None);
    cursor.seek_to_end();
    assert_eq!(cursor.get_item_at_cursor(), None);
}

#[test]
fn seek_relative_matches_current_seek() {
    let mut a = sample();
    let mut b = sample();
    for offset in [3isize, -1, 8, -20, 0, 7] {
        assert_eq!(a.seek_relative(offset), b.seek(SeekFrom::Current(offset)));
        assert_eq!(a.position(), b.position());
    }
}

#[test]
fn seek_from_is_ordered_and_copyable() {
    let from = SeekFrom::End(-1);
    let copy = from;
    assert_eq!(from, copy);
    assert!(SeekFrom::Start(1) < SeekFrom::Start(2));
    assert_ne!(SeekFrom::Start(0), SeekFrom::Current(0));
}
