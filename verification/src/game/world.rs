//! The world: a grid of rooms.

use vstd::prelude::*;
use crate::game::grid::Grid;
use crate::game::room::{Room, Tile, ROOM_HEIGHT, ROOM_WIDTH};
use crate::rect::Point;

verus! {

/// Rooms in a row of the world.
pub const WORLD_COLUMNS: usize = 4;

/// Rows of rooms in the world.
pub const WORLD_ROWS: usize = 3;

/// Rooms in the world.
pub const ROOMS_IN_WORLD: usize = WORLD_COLUMNS * WORLD_ROWS;

/// All rooms of the game, four in a row and three rows.
pub struct World {
    pub rooms: Grid<Room, ROOMS_IN_WORLD, ROOM_WIDTH, ROOM_HEIGHT, WORLD_COLUMNS, WORLD_ROWS>,
}

/// Where room `i` of the world lies: rooms follow each other row by row,
/// each 320 pixels to the right of the one before it and each row 176 pixels
/// below the one before it.
pub open spec fn room_position(i: int) -> Point {
    Point { x: ((i % WORLD_COLUMNS as int) * 320) as i32, y: ((i / WORLD_COLUMNS as int) * 176) as i32 }
}

impl World {
    /// A world of rooms without solid tiles, each at its place.
    pub fn blank() -> (world: Self)
        ensures
            forall|i: int|
                0 <= i < ROOMS_IN_WORLD ==> (#[trigger] world.rooms.inner@[i]).position_in_world == room_position(i),
            forall|i: int, t: int|
                0 <= i < ROOMS_IN_WORLD && 0 <= t < 880 ==> !(#[trigger] world.rooms.inner@[i].foreground_tiles.inner@[t]).visible,
    {
        World {
            rooms: Grid {
                inner: [
                    Room::empty(Point { x: 0, y: 0 }),
                    Room::empty(Point { x: 320, y: 0 }),
                    Room::empty(Point { x: 640, y: 0 }),
                    Room::empty(Point { x: 960, y: 0 }),
                    Room::empty(Point { x: 0, y: 176 }),
                    Room::empty(Point { x: 320, y: 176 }),
                    Room::empty(Point { x: 640, y: 176 }),
                    Room::empty(Point { x: 960, y: 176 }),
                    Room::empty(Point { x: 0, y: 352 }),
                    Room::empty(Point { x: 320, y: 352 }),
                    Room::empty(Point { x: 640, y: 352 }),
                    Room::empty(Point { x: 960, y: 352 }),
                ],
            },
        }
    }

    /// Whether the point `(x, y)`, in world pixels, lies in a room.
    pub open spec fn contains(x: int, y: int) -> bool {
        0 <= x < WORLD_COLUMNS * ROOM_WIDTH && 0 <= y < WORLD_ROWS * ROOM_HEIGHT
    }

    /// Puts a solid tile of the kind `id` where the point `(x, y)`, in world
    /// pixels, lies: in the room that holds the point, at the tile that
    /// holds it.
    pub fn set_tile(&mut self, x: usize, y: usize, id: u8)
        requires
            World::contains(x as int, y as int),
        ensures
            ({
                let room = (x / 320) + 4 * (y / 176);
                let tile = ((x % 320) / 8) + 40 * ((y % 176) / 8);
                &&& forall|i: int|
                    0 <= i < ROOMS_IN_WORLD && i != room ==> final(self).rooms.inner@[i] == old(self).rooms.inner@[i]
                &&& final(self).rooms.inner@[room].position_in_world == old(
                    self,
                ).rooms.inner@[room].position_in_world
                &&& final(self).rooms.inner@[room].foreground_tiles.inner@ == old(
                    self,
                ).rooms.inner@[room].foreground_tiles.inner@.update(tile, Tile { id, visible: true })
            }),
    {
        let room_index_x = x / ROOM_WIDTH;
        let room_index_y = y / ROOM_HEIGHT;
        let room_local_x = x - room_index_x * ROOM_WIDTH;
        let room_local_y = y - room_index_y * ROOM_HEIGHT;
        let room = self.rooms.get_cell_at_index_mut(room_index_x, room_index_y);
        let tile = room.foreground_tiles.get_cell_at_position_mut(room_local_x, room_local_y);
        tile.id = id;
        tile.visible = true;
    }

    /// The room that the point `(x, y)`, in world pixels, lies in.
    pub fn room_at(&self, x: i32, y: i32) -> (room: &Room)
        requires
            World::contains(x as int, y as int),
        ensures
            *room == self.rooms.inner@[(x / 320) + 4 * (y / 176)],
    {
        self.rooms.get_cell_at_position(x as usize, y as usize)
    }
}

} // verus!
