//! Engine units and the fixed extents of the world.
//!
//! Every length, position and speed is an integer number of engine units;
//! one screen pixel is `PX` units, so fractional pixel speeds stay exact.
use vstd::prelude::*;

verus! {

/// Engine units per screen pixel.
pub const PX: i64 = 100;

/// Largest magnitude a position or a size may take.
pub const POS_LIMIT: i64 = 1_000_000_000_000;

/// Largest magnitude a speed or a motion parameter may take.
pub const SPEED_LIMIT: i64 = 1_000_000_000;

/// Largest magnitude a body's position may take; vertical motion saturates here.
pub const BODY_LIMIT: i64 = 999_000_000_000;

/// Largest magnitude of one component of an aim direction.
pub const STEP_LIMIT: i64 = 1_000_000;

/// Left edge of the playfield that rays and projectiles travel through (exclusive).
pub const FIELD_LEFT: i64 = 0;

/// Right edge of the playfield (exclusive).
pub const FIELD_RIGHT: i64 = 122_000;

/// Top edge of the playfield (exclusive).
pub const FIELD_TOP: i64 = -3_000;

/// Bottom edge of the playfield (exclusive).
pub const FIELD_BOTTOM: i64 = 66_000;

/// Rightmost horizontal position a body may be moved to.
pub const WORLD_RIGHT: i64 = 121_100;

/// Whether a point lies strictly inside the playfield.
pub open spec fn in_field(x: int, y: int) -> bool {
    FIELD_LEFT < x && x < FIELD_RIGHT && FIELD_TOP < y && y < FIELD_BOTTOM
}

/// Whether at least `period` milliseconds separate `since` from `now`.
pub open spec fn elapsed(since: u64, now: u64, period: u64) -> bool {
    now as int - since as int >= period as int
}

/// Tells whether at least `period` milliseconds separate `since` from `now`.
pub fn cooldown_over(since: u64, now: u64, period: u64) -> (r: bool)
    ensures
        r == elapsed(since, now, period),
{
    now >= since && now - since >= period
}

} // verus!
