//! Laws of the cursor, stated over the models that its operations' contracts
//! use.
use vstd::prelude::*;

use crate::collection::item_at;
use crate::cursor::{position_after_seek, seek_outcome, seek_target, SeekFrom};

verus! {

/// Seeking from the start to any index `p` within `0 ..= len` succeeds and
/// leaves the cursor at `p`, wherever it was.
pub proof fn lemma_seek_start_lands(pos: usize, len: nat, p: usize)
    requires
        p <= len,
    ensures
        seek_outcome(SeekFrom::Start(p), pos as int, len as int) == Some(p),
        position_after_seek(SeekFrom::Start(p), pos, len as int) == p,
{
}

/// A seek, in any of the three modes, whose target lies before `0` or past
/// `len` fails and leaves the cursor where it was.
pub proof fn lemma_seek_out_of_range_stays(from: SeekFrom, pos: usize, len: nat)
    requires
        seek_target(from, pos as int, len as int) < 0 || seek_target(from, pos as int, len as int)
            > len,
    ensures
        seek_outcome(from, pos as int, len as int) is None,
        position_after_seek(from, pos, len as int) == pos,
{
}

/// Inserting `v` at a position `p` within `0 ..= len` and then reading at `p`
/// yields `v`.
pub proof fn lemma_insert_then_get<T>(items: Seq<T>, p: int, v: T)
    requires
        0 <= p <= items.len(),
    ensures
        item_at(items.insert(p, v), p) == Some(v),
{
}

} // verus!
