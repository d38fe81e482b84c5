//! Camera framing over the room grid.
//!
//! The camera frames the centre of the room the player stands in.  The
//! target is exact grid arithmetic and lives here; the engine shell
//! eases the camera towards it frame by frame.

use vstd::prelude::*;

use crate::rooms::{GridPos, ROOM_HEIGHT, ROOM_WIDTH};

verus! {

/// The world position the camera should frame for the room at cell `p`:
/// the cell's centre.
pub fn camera_target(p: GridPos) -> (r: (i64, i64))
    ensures
        r.0 == p.x * ROOM_WIDTH,
        r.1 == p.y * ROOM_HEIGHT,
{
    ((p.x as i64) * ROOM_WIDTH, (p.y as i64) * ROOM_HEIGHT)
}

} // verus!
