//! The selection: at most one index into the combined list, moved up and
//! down with wraparound.

use vstd::prelude::*;

verus! {

/// What the selection points at.
#[derive(Clone, Copy, Debug, PartialEq, Eq)]
pub enum SelectedKind {
    Directory,
    File,
    Nothing,
}

/// An index, where there is one, lies within a list of `count` entries.
pub open spec fn in_range(index: Option<usize>, count: nat) -> bool {
    match index {
        Some(i) => i < count,
        None => true,
    }
}

/// The kind of the entry at an index of the combined list, whose first
/// `dir_count` entries are directories and whose other entries are files.
pub open spec fn kind_of(index: Option<usize>, dir_count: nat) -> SelectedKind {
    match index {
        Some(i) => if i < dir_count {
            SelectedKind::Directory
        } else {
            SelectedKind::File
        },
        None => SelectedKind::Nothing,
    }
}

/// The selection after a step down a list of `count` entries: the next index,
/// the first after the last, the first where nothing was selected, and
/// nothing in an empty list.
pub open spec fn next_of(index: Option<usize>, count: nat) -> Option<usize> {
    if count == 0 {
        None
    } else {
        match index {
            Some(i) => if i + 1 >= count {
                Some(0)
            } else {
                Some((i + 1) as usize)
            },
            None => Some(0),
        }
    }
}

/// The selection after a step up a list of `count` entries: the index before,
/// the last before the first, the first where nothing was selected, and
/// nothing in an empty list.
pub open spec fn previous_of(index: Option<usize>, count: nat) -> Option<usize> {
    if count == 0 {
        None
    } else {
        match index {
            Some(i) => if i == 0 {
                Some((count - 1) as usize)
            } else {
                Some((i - 1) as usize)
            },
            None => Some(0),
        }
    }
}

/// The selection that points at the first entry, where there is one.
pub open spec fn first_of(count: nat) -> Option<usize> {
    if count == 0 {
        None
    } else {
        Some(0)
    }
}

/// Tells what the selection points at.
pub fn selected_kind(index: Option<usize>, dir_count: usize) -> (kind: SelectedKind)
    ensures
        kind == kind_of(index, dir_count as nat),
{
    match index {
        Some(i) => if i < dir_count {
            SelectedKind::Directory
        } else {
            SelectedKind::File
        },
        None => SelectedKind::Nothing,
    }
}

/// Moves the selection one entry down.
pub fn next_index(index: Option<usize>, count: usize) -> (next: Option<usize>)
    ensures
        next == next_of(index, count as nat),
{
    if count == 0 {
        None
    } else {
        match index {
            Some(i) => if i >= count - 1 {
                Some(0)
            } else {
                Some(i + 1)
            },
            None => Some(0),
        }
    }
}

/// Moves the selection one entry up.
pub fn previous_index(index: Option<usize>, count: usize) -> (previous: Option<usize>)
    ensures
        previous == previous_of(index, count as nat),
{
    if count == 0 {
        None
    } else {
        match index {
            Some(i) => if i == 0 {
                Some(count - 1)
            } else {
                Some(i - 1)
            },
            None => Some(0),
        }
    }
}

/// Selects the first entry, where there is one.
pub fn first_index(count: usize) -> (first: Option<usize>)
    ensures
        first == first_of(count as nat),
{
    if count == 0 {
        None
    } else {
        Some(0)
    }
}

/// In a list that is not empty, a step down or up from a selection within
/// the list, or from none, selects an entry within the list.
pub proof fn lemma_step_stays_in_range(index: Option<usize>, count: nat)
    requires
        count > 0,
        count <= usize::MAX,
        in_range(index, count),
    ensures
        next_of(index, count) is Some,
        previous_of(index, count) is Some,
        next_of(index, count)->0 < count,
        previous_of(index, count)->0 < count,
{
}

/// A step down and then a step up returns to the selected entry.
pub proof fn lemma_next_then_previous(index: usize, count: nat)
    requires
        index < count,
        count <= usize::MAX,
    ensures
        previous_of(next_of(Some(index), count), count) == Some(index),
{
}

/// A step up and then a step down returns to the selected entry.
pub proof fn lemma_previous_then_next(index: usize, count: nat)
    requires
        index < count,
        count <= usize::MAX,
    ensures
        next_of(previous_of(Some(index), count), count) == Some(index),
{
}

/// From no selection, a step down and a step up both select the first entry;
/// a step down and then a step up ends at the last entry, not at none.
pub proof fn lemma_steps_from_none(count: nat)
    requires
        count > 0,
        count <= usize::MAX,
    ensures
        next_of(None, count) == Some(0usize),
        previous_of(None, count) == Some(0usize),
        previous_of(next_of(None, count), count) == Some((count - 1) as usize),
{
}

} // verus!
