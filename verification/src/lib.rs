//! Core logic of a per-frame, virtualized timeline view: tab selection,
//! display-to-logical index mapping, viewport-driven row ranges, and
//! mute-aware per-row outcomes.

use vstd::prelude::*;

pub mod filter;
pub mod list;
pub mod store;
pub mod tabs;
pub mod timeline;
pub mod view;

verus! {

/// Maps a display position to a logical item index. With `reversed` the
/// display order walks the sequence from its end.
pub open spec fn spec_logical_index(start: int, len: int, reversed: bool) -> int {
    if reversed {
        len - start - 1
    } else {
        start
    }
}

/// Display position `start_index` shows the item at the returned logical index.
pub fn logical_index(start_index: usize, len: usize, reversed: bool) -> (ind: usize)
    requires
        start_index < len,
    ensures
        ind == spec_logical_index(start_index as int, len as int, reversed),
        ind < len,
{
    if reversed {
        len - start_index - 1
    } else {
        start_index
    }
}

/// Law: for any item count and either direction, the display-to-logical map
/// is a bijection on the positions `[0, len)` — it stays inside the range,
/// never sends two positions to one index, and is its own inverse, so the
/// map itself witnesses that every logical index is reached.
pub proof fn lemma_logical_index_bijective(len: int, reversed: bool)
    ensures
        forall|s: int|
            0 <= s < len ==> 0 <= #[trigger] spec_logical_index(s, len, reversed) < len,
        forall|s: int|
            0 <= s < len ==> spec_logical_index(
                #[trigger] spec_logical_index(s, len, reversed),
                len,
                reversed,
            ) == s,
        forall|s1: int, s2: int|
            0 <= s1 < len && 0 <= s2 < len && s1 != s2 ==> #[trigger] spec_logical_index(
                s1,
                len,
                reversed,
            ) != #[trigger] spec_logical_index(s2, len, reversed),
{
}

} // verus!
