//! The room grid: fixed-size cells addressed by integer grid positions,
//! the manager that gates movement between them, and the collider slabs
//! that enclose a room.
//!
//! World distances are whole numbers of world units, so they are carried
//! as integers here; the engine shell turns them into its own scalars.

use vstd::prelude::*;

verus! {

/// Width of one room cell in world units.
pub const ROOM_WIDTH: i64 = 1280;

/// Height of one room cell in world units.
pub const ROOM_HEIGHT: i64 = 720;

/// Thickness of the floor slab.
pub const FLOOR_WIDTH: i64 = 128;

/// How far the floor slab is raised above the room's lower edge.
pub const FLOOR_HEIGHT: i64 = 32;

/// Thickness of a wall slab.
pub const WALL_WIDTH: i64 = 128;

/// Thickness of the ceiling slab.
pub const CEILING_WIDTH: i64 = 128;

/// A cell address in the room grid.
#[derive(Debug, Clone, Copy, PartialEq, Eq, Structural, Hash)]
pub struct GridPos {
    pub x: i32,
    pub y: i32,
}

/// Cell-wise sum of two grid positions.  The grid wraps at the integer
/// boundary, so stepping is total; no reachable layout comes near it.
pub open spec fn grid_add(a: GridPos, b: GridPos) -> GridPos {
    GridPos {
        x: vstd::wrapping::i32_specs::wrapping_add(a.x, b.x),
        y: vstd::wrapping::i32_specs::wrapping_add(a.y, b.y),
    }
}

/// The collider slabs a room can be enclosed by.
#[derive(Debug, Clone, Copy, PartialEq, Eq, Structural)]
pub enum RoomCollider {
    Ground,
    Ceiling,
    WallLeft,
    WallRight,
}

/// A room cell: whether it is locked, and which slabs enclose it.
#[derive(Debug)]
pub struct Room {
    pub locked: bool,
    pub colliders: Vec<RoomCollider>,
}

/// An axis-aligned collider slab: half-extents, and offset of its centre
/// from the room's centre, in world units.
#[derive(Debug, Clone, Copy, PartialEq, Eq, Structural)]
pub struct ColliderBox {
    pub half_x: i64,
    pub half_y: i64,
    pub offset_x: i64,
    pub offset_y: i64,
}

/// Where each collider slab of a room stands: the floor sits raised a
/// little above the lower edge, the ceiling and the walls sit just
/// outside the cell.
pub fn collider_placement(kind: &RoomCollider) -> (r: ColliderBox)
    ensures
        r == match kind {
            RoomCollider::Ground => (ColliderBox {
                half_x: 640,
                half_y: 64,
                offset_x: 0,
                offset_y: -328i64,
            }),
            RoomCollider::Ceiling => (ColliderBox {
                half_x: 640,
                half_y: 64,
                offset_x: 0,
                offset_y: 424,
            }),
            RoomCollider::WallLeft => (ColliderBox {
                half_x: 64,
                half_y: 360,
                offset_x: -704i64,
                offset_y: 0,
            }),
            RoomCollider::WallRight => (ColliderBox {
                half_x: 64,
                half_y: 360,
                offset_x: 704,
                offset_y: 0,
            }),
        },
{
    match kind {
        RoomCollider::Ground => ColliderBox {
            half_x: ROOM_WIDTH / 2,
            half_y: FLOOR_WIDTH / 2,
            offset_x: 0,
            offset_y: -ROOM_HEIGHT / 2 + FLOOR_HEIGHT,
        },
        RoomCollider::Ceiling => ColliderBox {
            half_x: ROOM_WIDTH / 2,
            half_y: CEILING_WIDTH / 2,
            offset_x: 0,
            offset_y: ROOM_HEIGHT / 2 + CEILING_WIDTH / 2,
        },
        RoomCollider::WallLeft => ColliderBox {
            half_x: WALL_WIDTH / 2,
            half_y: ROOM_HEIGHT / 2,
            offset_x: -ROOM_WIDTH / 2 - WALL_WIDTH / 2,
            offset_y: 0,
        },
        RoomCollider::WallRight => ColliderBox {
            half_x: WALL_WIDTH / 2,
            half_y: ROOM_HEIGHT / 2,
            offset_x: ROOM_WIDTH / 2 + WALL_WIDTH / 2,
            offset_y: 0,
        },
    }
}

/// Whether some cell of a room list is addressed by `p`.
pub open spec fn seq_has_room(rooms: Seq<(GridPos, u64)>, p: GridPos) -> bool {
    exists|i: int| 0 <= i < rooms.len() && rooms[i].0 == p
}

/// One step of grid movement over a fixed room list: pressing a key
/// moves to the neighbouring cell iff a room lies there.
pub open spec fn step_pos(
    rooms: Seq<(GridPos, u64)>,
    pos: GridPos,
    dir: GridPos,
    pressed: bool,
) -> GridPos {
    if pressed && seq_has_room(rooms, grid_add(pos, dir)) {
        grid_add(pos, dir)
    } else {
        pos
    }
}

/// Which cell the player is in, and which cells hold rooms (as the
/// entity ids of the room bodies).
#[derive(Debug)]
pub struct RoomManager {
    pub current_room_pos: GridPos,
    pub rooms: Vec<(GridPos, u64)>,
}

impl RoomManager {
    /// Each cell is occupied by at most one room.
    pub open spec fn wf(self) -> bool {
        forall|i: int, j: int|
            0 <= i < j < self.rooms@.len() ==> self.rooms@[i].0 != self.rooms@[j].0
    }

    /// Whether a room lies at cell `p`.
    pub open spec fn has_room(self, p: GridPos) -> bool {
        seq_has_room(self.rooms@, p)
    }

    /// A manager over an empty grid, standing at `start`.
    pub fn new(start: GridPos) -> (r: RoomManager)
        ensures
            r.current_room_pos == start,
            r.rooms@ == Seq::<(GridPos, u64)>::empty(),
            r.wf(),
    {
        RoomManager { current_room_pos: start, rooms: Vec::new() }
    }

    /// Whether a room lies at cell `p`.
    pub fn contains_room(&self, p: GridPos) -> (r: bool)
        ensures
            r == self.has_room(p),
    {
        let mut i: usize = 0;
        while i < self.rooms.len()
            invariant
                i <= self.rooms@.len(),
                forall|j: int| 0 <= j < i ==> self.rooms@[j].0 != p,
            decreases self.rooms@.len() - i,
        {
            if self.rooms[i].0 == p {
                assert(seq_has_room(self.rooms@, p));
                return true;
            }
            i = i + 1;
        }
        false
    }

    /// Puts the room body `room` at cell `p`, replacing whatever room
    /// was registered there.
    pub fn insert_room(&mut self, p: GridPos, room: u64)
        requires
            old(self).wf(),
        ensures
            final(self).wf(),
            final(self).current_room_pos == old(self).current_room_pos,
            if old(self).has_room(p) {
                exists|i: int|
                    0 <= i < old(self).rooms@.len() && old(self).rooms@[i].0 == p
                        && final(self).rooms@ == old(self).rooms@.update(i, (p, room))
            } else {
                final(self).rooms@ == old(self).rooms@.push((p, room))
            },
    {
        let mut i: usize = 0;
        while i < self.rooms.len()
            invariant
                *self == *old(self),
                old(self).wf(),
                i <= self.rooms@.len(),
                forall|j: int| 0 <= j < i ==> self.rooms@[j].0 != p,
            decreases self.rooms@.len() - i,
        {
            if self.rooms[i].0 == p {
                self.rooms.set(i, (p, room));
                proof {
                    assert(self.rooms@ == old(self).rooms@.update(i as int, (p, room)));
                    assert forall|a: int, b: int|
                        0 <= a < b < self.rooms@.len() implies self.rooms@[a].0
                        != self.rooms@[b].0 by {
                        assert(old(self).rooms@[a].0 != old(self).rooms@[b].0);
                        assert(self.rooms@[a].0 == if a == i {
                            p
                        } else {
                            old(self).rooms@[a].0
                        });
                        assert(self.rooms@[b].0 == if b == i {
                            p
                        } else {
                            old(self).rooms@[b].0
                        });
                    }
                }
                return ;
            }
            i = i + 1;
        }
        self.rooms.push((p, room));
        proof {
            assert forall|a: int, b: int|
                0 <= a < b < self.rooms@.len() implies self.rooms@[a].0 != self.rooms@[b].0 by {
                if b == self.rooms@.len() - 1 {
                    assert(self.rooms@[a].0 == old(self).rooms@[a].0);
                    assert(self.rooms@[b].0 == p);
                } else {
                    assert(old(self).rooms@[a].0 != old(self).rooms@[b].0);
                }
            }
        }
    }

    /// Moves one cell in direction `dir` iff a room lies there; against
    /// an empty cell the player stays put.
    pub fn try_moving(&mut self, dir: GridPos)
        ensures
            final(self).rooms@ == old(self).rooms@,
            final(self).current_room_pos == step_pos(
                old(self).rooms@,
                old(self).current_room_pos,
                dir,
                true,
            ),
    {
        let target = GridPos {
            x: self.current_room_pos.x.wrapping_add(dir.x),
            y: self.current_room_pos.y.wrapping_add(dir.y),
        };
        if self.contains_room(target) {
            self.current_room_pos = target;
        }
    }

    /// Applies one frame of movement input: the left, right, up and down
    /// keys are tried in that order, each moving one cell iff a room
    /// lies in that direction.
    pub fn apply_movement_keys(&mut self, left: bool, right: bool, up: bool, down: bool)
        ensures
            final(self).rooms@ == old(self).rooms@,
            final(self).current_room_pos == step_pos(
                old(self).rooms@,
                step_pos(
                    old(self).rooms@,
                    step_pos(
                        old(self).rooms@,
                        step_pos(
                            old(self).rooms@,
                            old(self).current_room_pos,
                            (GridPos { x: -1i32, y: 0 }),
                            left,
                        ),
                        (GridPos { x: 1, y: 0 }),
                        right,
                    ),
                    (GridPos { x: 0, y: 1 }),
                    up,
                ),
                (GridPos { x: 0, y: -1i32 }),
                down,
            ),
    {
        if left {
            self.try_moving(GridPos { x: -1, y: 0 });
        }
        if right {
            self.try_moving(GridPos { x: 1, y: 0 });
        }
        if up {
            self.try_moving(GridPos { x: 0, y: 1 });
        }
        if down {
            self.try_moving(GridPos { x: 0, y: -1 });
        }
    }
}

/// The built-in level: a kitchen at the origin with a counter room to
/// its left and a dispenser room to its right, all unlocked; the side
/// rooms close the outer walls.
pub fn standard_rooms() -> (r: Vec<(GridPos, Room)>)
    ensures
        r@.len() == 3,
        r@[0].0 == (GridPos { x: 0, y: 0 }),
        !r@[0].1.locked,
        r@[0].1.colliders@ == seq![RoomCollider::Ground, RoomCollider::Ceiling],
        r@[1].0 == (GridPos { x: -1i32, y: 0 }),
        !r@[1].1.locked,
        r@[1].1.colliders@ == seq![
            RoomCollider::Ground,
            RoomCollider::WallLeft,
            RoomCollider::Ceiling,
        ],
        r@[2].0 == (GridPos { x: 1, y: 0 }),
        !r@[2].1.locked,
        r@[2].1.colliders@ == seq![
            RoomCollider::Ground,
            RoomCollider::WallRight,
            RoomCollider::Ceiling,
        ],
{
    let mut rooms: Vec<(GridPos, Room)> = Vec::new();
    rooms.push(
        (
            GridPos { x: 0, y: 0 },
            Room { locked: false, colliders: vec![RoomCollider::Ground, RoomCollider::Ceiling] },
        ),
    );
    rooms.push(
        (
            GridPos { x: -1, y: 0 },
            Room {
                locked: false,
                colliders: vec![
                    RoomCollider::Ground,
                    RoomCollider::WallLeft,
                    RoomCollider::Ceiling,
                ],
            },
        ),
    );
    rooms.push(
        (
            GridPos { x: 1, y: 0 },
            Room {
                locked: false,
                colliders: vec![
                    RoomCollider::Ground,
                    RoomCollider::WallRight,
                    RoomCollider::Ceiling,
                ],
            },
        ),
    );
    rooms
}

} // verus!
