//! The cursor engine: from a position that a key press asks for to a
//! position that the text can hold.
//!
//! The engine sees the text through one entry per row, the column of the
//! row's last character, or `None` for an empty row. A cursor may rest on
//! any character of a row and on the column just behind the last one, where
//! new text is appended.

use crate::editor::CursorMovement;
use vstd::prelude::*;

verus! {

/// Row `row` is followed by another row that 16-bit coordinates can name.
pub open spec fn has_next_row(occupied: Seq<Option<u16>>, row: u16) -> bool {
    row + 1 < occupied.len() && row < u16::MAX
}

/// Column `col` overshoots row `row`: the row has characters, and `col`
/// lies beyond the column just behind the last of them.
pub open spec fn overshoots(occupied: Seq<Option<u16>>, row: u16, col: u16) -> bool {
    &&& row < occupied.len()
    &&& occupied[row as int] matches Some(last)
    &&& col > last + 1
}

/// Where a cursor lands that overshot row `row` while moving in direction
/// `movement`; `last` is the column of the row's last character.
pub open spec fn clamped(
    occupied: Seq<Option<u16>>,
    row: u16,
    last: u16,
    movement: CursorMovement,
) -> Option<(u16, u16)> {
    match movement {
        CursorMovement::Up | CursorMovement::Down => Some((row, last)),
        CursorMovement::Left => if row > 0 {
            match occupied[row - 1] {
                Some(previous) => Some(((row - 1) as u16, previous)),
                None => Some(((row - 1) as u16, 0u16)),
            }
        } else {
            None
        },
        CursorMovement::Right => if has_next_row(occupied, row) {
            Some(((row + 1) as u16, 0u16))
        } else {
            None
        },
    }
}

/// The position that a move in direction `movement` to the requested
/// `(row, col)` resolves to, or `None` where the move is not possible.
///
/// With no entries at all every request is taken as it is. A row beyond
/// the entries is refused. On a row with characters a column up to the one
/// just behind the last character is taken as it is, and a column beyond
/// that is clamped. On an empty row the cursor goes to column 0, or, moving
/// right, to the start of the next row.
pub open spec fn resolved(
    occupied: Seq<Option<u16>>,
    row: u16,
    col: u16,
    movement: CursorMovement,
) -> Option<(u16, u16)> {
    if occupied.len() == 0 {
        Some((row, col))
    } else if row >= occupied.len() {
        None
    } else {
        match occupied[row as int] {
            Some(last) => if col <= last + 1 {
                Some((row, col))
            } else {
                clamped(occupied, row, last, movement)
            },
            None => if movement == CursorMovement::Right && has_next_row(occupied, row) {
                Some(((row + 1) as u16, 0u16))
            } else {
                Some((row, 0u16))
            },
        }
    }
}

/// `(row, col)` is a place where the cursor may rest: with no entries at
/// all any place, else a column up to the one just behind the last
/// character of an existing row, which on an empty row is column 0.
pub open spec fn position_valid(occupied: Seq<Option<u16>>, row: u16, col: u16) -> bool {
    if occupied.len() == 0 {
        true
    } else if row >= occupied.len() {
        false
    } else {
        match occupied[row as int] {
            Some(last) => col <= last + 1,
            None => col == 0,
        }
    }
}

/// A resolved position never overshoots its row: where the row it lands on
/// has a last character in column `last`, the resolved column is at most
/// `last + 1`.
pub proof fn lemma_resolved_within_row(
    occupied: Seq<Option<u16>>,
    row: u16,
    col: u16,
    movement: CursorMovement,
)
    ensures
        resolved(occupied, row, col, movement) matches Some(target) ==> !overshoots(
            occupied,
            target.0,
            target.1,
        ),
{
}

/// Whatever the engine resolves to is a place where the cursor may rest.
pub proof fn lemma_resolved_is_valid(
    occupied: Seq<Option<u16>>,
    row: u16,
    col: u16,
    movement: CursorMovement,
)
    ensures
        resolved(occupied, row, col, movement) matches Some(target) ==> position_valid(
            occupied,
            target.0,
            target.1,
        ),
{
}

/// A move is refused in exactly three situations, all of them on a text
/// that has entries: the requested row lies beyond the last entry (a row
/// above the first one, counted down from zero, wraps to such a row); the
/// column overshoots the first row while moving left; the column overshoots
/// the last row while moving right.
pub proof fn lemma_refused_exactly(
    occupied: Seq<Option<u16>>,
    row: u16,
    col: u16,
    movement: CursorMovement,
)
    ensures
        resolved(occupied, row, col, movement) is None <==> occupied.len() > 0 && (row
            >= occupied.len() || (overshoots(occupied, row, col) && movement
            == CursorMovement::Left && row == 0) || (overshoots(occupied, row, col) && movement
            == CursorMovement::Right && !has_next_row(occupied, row))),
{
}

/// The engine never sends the cursor further than to a neighbouring row:
/// moving up or down it stays on the requested row, moving left it may go
/// one row up, moving right one row down.
pub proof fn lemma_resolved_stays_close(
    occupied: Seq<Option<u16>>,
    row: u16,
    col: u16,
    movement: CursorMovement,
)
    ensures
        resolved(occupied, row, col, movement) matches Some(target) ==> match movement {
            CursorMovement::Up | CursorMovement::Down => target.0 == row,
            CursorMovement::Left => target.0 == row || target.0 == row - 1,
            CursorMovement::Right => target.0 == row || target.0 == row + 1,
        },
{
}

/// A request on a row with characters that does not overshoot it is taken
/// as it is, whatever the direction.
pub proof fn lemma_resolved_keeps_fitting_request(
    occupied: Seq<Option<u16>>,
    row: u16,
    col: u16,
    movement: CursorMovement,
)
    requires
        row < occupied.len(),
        occupied[row as int] is Some,
        !overshoots(occupied, row, col),
    ensures
        resolved(occupied, row, col, movement) == Some((row, col)),
{
}

/// Resolves a move in direction `movement` to the requested `(row, col)`
/// against the rows described by `occupied`.
pub fn resolve(occupied: &Vec<Option<u16>>, row: u16, col: u16, movement: CursorMovement) -> (target:
    Option<(u16, u16)>)
    ensures
        target == resolved(occupied@, row, col, movement),
        target matches Some(place) ==> position_valid(occupied@, place.0, place.1) && !overshoots(
            occupied@,
            place.0,
            place.1,
        ),
{
    if occupied.len() == 0 {
        return Some((row, col));
    }
    if row as usize >= occupied.len() {
        return None;
    }
    let next_exists = row < u16::MAX && (row as usize) + 1 < occupied.len();
    match occupied[row as usize] {
        Some(last) => {
            if col <= last || col - 1 == last {
                Some((row, col))
            } else {
                match movement {
                    CursorMovement::Up => Some((row, last)),
                    CursorMovement::Down => Some((row, last)),
                    CursorMovement::Left => {
                        if row > 0 {
                            match occupied[(row - 1) as usize] {
                                Some(previous) => Some((row - 1, previous)),
                                None => Some((row - 1, 0)),
                            }
                        } else {
                            None
                        }
                    },
                    CursorMovement::Right => {
                        if next_exists {
                            Some((row + 1, 0))
                        } else {
                            None
                        }
                    },
                }
            }
        },
        None => {
            if next_exists && matches!(movement, CursorMovement::Right) {
                Some((row + 1, 0))
            } else {
                Some((row, 0))
            }
        },
    }
}

/// Tells whether the cursor may rest at `(row, col)`, without looking for
/// another place where it may not.
pub fn is_valid(occupied: &Vec<Option<u16>>, row: u16, col: u16) -> (valid: bool)
    ensures
        valid == position_valid(occupied@, row, col),
{
    if occupied.len() == 0 {
        return true;
    }
    if row as usize >= occupied.len() {
        return false;
    }
    match occupied[row as usize] {
        Some(last) => col <= last || col - 1 == last,
        None => col == 0,
    }
}

} // verus!
