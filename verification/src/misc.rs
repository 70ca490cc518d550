//! Board-geometry helpers: mapping a scanned key position to its logical
//! position in the keymap, depending on which half of the keyboard this is.

use vstd::prelude::*;

verus! {

/// Which half of the split keyboard the firmware is running on.
#[derive(Clone, Copy, Debug, PartialEq, Eq, Structural)]
pub enum Hand {
    Left,
    Right,
}

/// Number of key columns on one half of the board.
pub const COLS_PER_HAND: usize = 8;

/// Translates a scanned (row, column) position into the logical keymap
/// position. The left half's columns are scanned mirrored, so they are
/// flipped; the right half's positions are used as scanned.
pub fn translate_key_position(hand: Hand, row: usize, col: usize) -> (r: Option<(usize, usize)>)
    requires
        col < COLS_PER_HAND,
    ensures
        hand is Left ==> r == Some((row, (COLS_PER_HAND - 1 - col) as usize)),
        hand is Right ==> r == Some((row, col)),
{
    match hand {
        Hand::Left => Some((row, COLS_PER_HAND - 1 - col)),
        Hand::Right => Some((row, col)),
    }
}

} // verus!
