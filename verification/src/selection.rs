//! Moving a selection through a list, round and round.

use vstd::prelude::*;

verus! {

/// Which board and which row are highlighted.
#[derive(Clone, Copy, Debug, PartialEq, Eq, Structural)]
pub struct SelectionState {
    /// The highlighted board, a place in the board list.
    pub selected_board_index: usize,
    /// The highlighted row, a place in the rows on display, if one is
    /// highlighted.
    pub selected_row_index: Option<usize>,
}

/// A selection as a place in a list, or none.
pub open spec fn position(selected: Option<usize>) -> Option<int> {
    match selected {
        Some(index) => Some(index as int),
        None => None,
    }
}

/// The selection after a step forward in a list of `len` entries: the entry
/// after the selected one, the first entry after the last or where nothing in
/// the list was selected, and none in an empty list.
pub open spec fn next_index(selected: Option<int>, len: int) -> Option<int> {
    if len <= 0 {
        None
    } else {
        match selected {
            Some(index) => if 0 <= index < len - 1 {
                Some(index + 1)
            } else {
                Some(0)
            },
            None => Some(0),
        }
    }
}

/// The selection after a step backward in a list of `len` entries: the entry
/// before the selected one, the last entry before the first or where nothing
/// in the list was selected, and none in an empty list.
pub open spec fn previous_index(selected: Option<int>, len: int) -> Option<int> {
    if len <= 0 {
        None
    } else {
        match selected {
            Some(index) => if 0 < index < len {
                Some(index - 1)
            } else {
                Some(len - 1)
            },
            None => Some(len - 1),
        }
    }
}

/// Moves a selection one entry forward in a list of `len` entries, from the
/// last entry on to the first. A selection beyond the list counts as one at
/// its end. In an empty list nothing is selected.
pub fn select_next(selected: Option<usize>, len: usize) -> (next: Option<usize>)
    ensures
        position(next) == next_index(position(selected), len as int),
        len == 0 ==> next is None,
        len > 0 ==> next is Some && next->0 < len,
{
    if len == 0 {
        return None;
    }
    match selected {
        Some(index) => if index < len - 1 {
            Some(index + 1)
        } else {
            Some(0)
        },
        None => Some(0),
    }
}

/// Moves a selection one entry backward in a list of `len` entries, from
/// the first entry on to the last. A selection beyond the list counts as one
/// past its end. In an empty list nothing is selected.
pub fn select_previous(selected: Option<usize>, len: usize) -> (previous: Option<usize>)
    ensures
        position(previous) == previous_index(position(selected), len as int),
        len == 0 ==> previous is None,
        len > 0 ==> previous is Some && previous->0 < len,
{
    if len == 0 {
        return None;
    }
    match selected {
        Some(index) => if 0 < index && index < len {
            Some(index - 1)
        } else {
            Some(len - 1)
        },
        None => Some(len - 1),
    }
}

/// In a list of any length, a step forward from the last entry leads to the
/// first, a step backward from the first entry leads to the last, and in an
/// empty list either step leaves nothing selected.
pub proof fn lemma_selection_wraps(selected: Option<int>, len: int)
    requires
        0 <= len,
    ensures
        len > 0 ==> next_index(Some(len - 1), len) == Some(0int),
        len > 0 ==> previous_index(Some(0), len) == Some(len - 1),
        len == 0 ==> next_index(selected, len) is None,
        len == 0 ==> previous_index(selected, len) is None,
{
}

/// In a list that is not empty either step selects an entry of the list.
pub proof fn lemma_selection_stays_inside(selected: Option<int>, len: int)
    requires
        0 < len,
    ensures
        next_index(selected, len) is Some,
        0 <= next_index(selected, len)->0 < len,
        previous_index(selected, len) is Some,
        0 <= previous_index(selected, len)->0 < len,
{
}

/// Within a list a step forward and a step backward undo each other.
pub proof fn lemma_steps_undo_each_other(index: int, len: int)
    requires
        0 <= index < len,
    ensures
        previous_index(next_index(Some(index), len), len) == Some(index),
        next_index(previous_index(Some(index), len), len) == Some(index),
{
}

} // verus!
