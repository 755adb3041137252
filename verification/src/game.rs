//! What the readings that the hooks take from the game mean for the table.

use vstd::prelude::*;

verus! {

/// The menu identifier of the controls screen, where the game runs a fight
/// that is no match.
pub const CONTROLS_MENU: u32 = 0x0602_0000;

/// What the remaining time reads as while no match runs.
pub const REMAINING_UNKNOWN: i64 = -1;

/// Bytes of an arena identifier.
pub const ARENA_ID_LEN: usize = 5;

/// A match runs: fighters have entered, the results are not shown, and the
/// game is not in the controls screen.
pub open spec fn is_match_active(entry_count: i32, result_mode: bool, menu: u32) -> bool {
    entry_count > 0 && !result_mode && menu != CONTROLS_MENU
}

/// The game shows fighters outside the controls screen, so what it says of
/// the results screen counts.
pub open spec fn is_results_known(entry_count: i32, menu: u32) -> bool {
    entry_count > 0 && menu != CONTROLS_MENU
}

/// How the remaining time reads: the frames left while a match runs, else
/// the sentinel for "unknown".
pub open spec fn remaining_of(is_match: bool, frames: u32) -> int {
    if is_match {
        frames as int
    } else {
        REMAINING_UNKNOWN as int
    }
}

/// The stocks left after a death: one fewer, and none where there were none.
pub open spec fn stocks_left(stocks: u32) -> int {
    if stocks > 0 {
        stocks - 1
    } else {
        0
    }
}

/// Whether a match runs, from what the game reports.
pub fn match_active(entry_count: i32, result_mode: bool, menu: u32) -> (r: bool)
    ensures
        r == is_match_active(entry_count, result_mode, menu),
{
    entry_count > 0 && !result_mode && menu != CONTROLS_MENU
}

/// Whether the game's word on the results screen counts.
pub fn results_known(entry_count: i32, menu: u32) -> (r: bool)
    ensures
        r == is_results_known(entry_count, menu),
{
    entry_count > 0 && menu != CONTROLS_MENU
}

/// The remaining time as a record shows it: `frames` while a match runs,
/// `REMAINING_UNKNOWN` while none does.
pub fn remaining_reading(is_match: bool, frames: u32) -> (r: i64)
    ensures
        r == remaining_of(is_match, frames),
        !is_match ==> r == REMAINING_UNKNOWN,
        is_match ==> 0 <= r <= u32::MAX,
{
    if is_match {
        frames as i64
    } else {
        REMAINING_UNKNOWN
    }
}

/// The stock count to record when a fighter with `stocks` stocks dies.
pub fn stocks_after_death(stocks: u32) -> (r: u32)
    ensures
        r == stocks_left(stocks),
{
    if stocks > 0 {
        stocks - 1
    } else {
        0
    }
}

/// `id` has the length of an arena identifier: five bytes of UTF-8.
pub open spec fn has_arena_id_len(id: &str) -> bool {
    id.len() == ARENA_ID_LEN
}

/// Whether `id` has the length of an arena identifier.
pub fn is_arena_id(id: &str) -> (r: bool)
    ensures
        r == has_arena_id_len(id),
{
    id.len() == ARENA_ID_LEN
}

} // verus!
