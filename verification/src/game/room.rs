//! A room: one screen of tiles at its place in the world.

use vstd::prelude::*;
use crate::game::grid::Grid;
use crate::rect::{Point, Rect};

verus! {

/// Side of a tile in pixels.
pub const TILE_SIZE: usize = 8;

/// Tiles in a row of a room.
pub const COLUMNS: usize = 40;

/// Rows of tiles in a room.
pub const ROWS: usize = 22;

/// Tiles in a room.
pub const TILE_COUNT: usize = COLUMNS * ROWS;

/// Width of a room in pixels.
pub const ROOM_WIDTH: usize = 320;

/// Height of a room in pixels.
pub const ROOM_HEIGHT: usize = 176;

/// One cell of a room. An invisible tile is empty space.
#[derive(Clone, Copy, Debug, PartialEq, Eq, Structural)]
pub struct Tile {
    pub id: u8,
    pub visible: bool,
}

impl Default for Tile {
    fn default() -> (tile: Self)
        ensures
            tile == (Tile { id: 0, visible: false }),
    {
        Tile { id: 0, visible: false }
    }
}

/// One screen of the world: 40 by 22 tiles.
pub struct Room {
    /// The top left corner of the room in world pixels.
    pub position_in_world: Point,
    pub foreground_tiles: Grid<Tile, TILE_COUNT, TILE_SIZE, TILE_SIZE, COLUMNS, ROWS>,
}

/// Whether the pixels from `from` up to, not including, `to` and those from
/// `other_from` up to `other_to` have a pixel in common.
pub open spec fn spans_overlap(from: int, to: int, other_from: int, other_to: int) -> bool {
    from < other_to && other_from < to
}

impl Room {
    /// Whether the tile in column `x` of row `y` is solid and shares a pixel
    /// with `rect`, which is given in world pixels.
    pub open spec fn tile_hit(&self, rect: Rect, x: int, y: int) -> bool {
        let left = self.position_in_world.x + TILE_SIZE * x;
        let top = self.position_in_world.y + TILE_SIZE * y;
        &&& 0 <= x < COLUMNS
        &&& 0 <= y < ROWS
        &&& self.foreground_tiles.inner@[y * COLUMNS + x].visible
        &&& rect.w > 0
        &&& rect.h > 0
        &&& spans_overlap(left, left + TILE_SIZE, rect.x as int, rect.x + rect.w)
        &&& spans_overlap(top, top + TILE_SIZE, rect.y as int, rect.y + rect.h)
    }

    /// Whether `rect`, given in world pixels, shares a pixel with a solid
    /// tile of the room.
    pub open spec fn collides_spec(&self, rect: Rect) -> bool {
        exists|x: int, y: int| self.tile_hit(rect, x, y)
    }

    /// A room without solid tiles at `position`.
    pub fn empty(position: Point) -> (room: Self)
        ensures
            room.position_in_world == position,
            forall|i: int| 0 <= i < TILE_COUNT ==> room.foreground_tiles.inner@[i] == (Tile { id: 0, visible: false }),
    {
        Room {
            position_in_world: position,
            foreground_tiles: Grid { inner: [Tile { id: 0, visible: false };880] },
        }
    }

    /// Whether `rect`, given in world pixels, shares a pixel with a solid
    /// tile of the room. Only the tiles that `rect` reaches are looked at.
    pub fn collides(&self, rect: &Rect) -> (hit: bool)
        ensures
            hit == self.collides_spec(*rect),
    {
        let left: i64 = rect.x as i64 - self.position_in_world.x as i64;
        let top: i64 = rect.y as i64 - self.position_in_world.y as i64;
        let right: i64 = left + rect.w as i64;
        let bottom: i64 = top + rect.h as i64;

        let start_x = first_tile(left, COLUMNS);
        let end_x = end_tile(right, COLUMNS);
        let start_y = first_tile(top, ROWS);
        let end_y = end_tile(bottom, ROWS);

        let mut y = start_y;
        while y < end_y
            invariant
                start_y <= y,
                end_y <= ROWS,
                start_x == tile_from(left as int, COLUMNS as int),
                end_x == tile_until(right as int, COLUMNS as int),
                start_y == tile_from(top as int, ROWS as int),
                end_y == tile_until(bottom as int, ROWS as int),
                left == rect.x - self.position_in_world.x,
                top == rect.y - self.position_in_world.y,
                right == left + rect.w,
                bottom == top + rect.h,
                forall|i: int, j: int| start_y <= j < y ==> !self.tile_hit(*rect, i, j),
            decreases end_y - y,
        {
            let mut x = start_x;
            while x < end_x
                invariant
                    start_x <= x,
                    end_x <= COLUMNS,
                    start_y <= y < end_y,
                    end_y <= ROWS,
                    start_x == tile_from(left as int, COLUMNS as int),
                    end_x == tile_until(right as int, COLUMNS as int),
                    left == rect.x - self.position_in_world.x,
                    top == rect.y - self.position_in_world.y,
                    right == left + rect.w,
                    bottom == top + rect.h,
                    forall|i: int| start_x <= i < x ==> !self.tile_hit(*rect, i, y as int),
                decreases end_x - x,
            {
                let index = y * COLUMNS + x;
                if self.foreground_tiles.index(index).visible {
                    let cell_left = (x * TILE_SIZE) as i64;
                    let cell_top = (y * TILE_SIZE) as i64;
                    if rect.w > 0 && rect.h > 0 && cell_left < right && left < cell_left + TILE_SIZE as i64
                        && cell_top < bottom && top < cell_top + TILE_SIZE as i64 {
                        assert(self.tile_hit(*rect, x as int, y as int));
                        return true;
                    }
                }
                x = x + 1;
            }
            assert forall|i: int| !self.tile_hit(*rect, i, y as int) by {
                if self.tile_hit(*rect, i, y as int) {
                    lemma_hit_within(left as int, right as int, i, COLUMNS as int);
                }
            }
            y = y + 1;
        }
        assert forall|i: int, j: int| !self.tile_hit(*rect, i, j) by {
            if self.tile_hit(*rect, i, j) {
                lemma_hit_within(top as int, bottom as int, j, ROWS as int);
            }
        }
        false
    }
}

/// The first tile of a row or column of `count` tiles that pixels from
/// `from` on can reach.
pub open spec fn tile_from(from: int, count: int) -> int {
    let first = if from < 0 {
        0
    } else {
        from / TILE_SIZE as int
    };
    if first > count {
        count
    } else {
        first
    }
}

/// The tile behind the last tile of a row or column of `count` tiles that
/// pixels before `to` can reach.
pub open spec fn tile_until(to: int, count: int) -> int {
    let end = if to < 0 {
        0
    } else {
        (to + TILE_SIZE - 1) / TILE_SIZE as int
    };
    if end > count {
        count
    } else {
        end
    }
}

/// A tile that shares a pixel with the pixels from `from` up to `to` lies
/// between the first tile that `from` reaches and the tile that `to` ends
/// before.
pub proof fn lemma_hit_within(from: int, to: int, tile: int, count: int)
    requires
        0 <= tile < count,
        spans_overlap(TILE_SIZE * tile, TILE_SIZE * tile + TILE_SIZE, from, to),
    ensures
        tile_from(from, count) <= tile < tile_until(to, count),
{
}

fn first_tile(from: i64, count: usize) -> (first: usize)
    requires
        count <= 1024,
    ensures
        first == tile_from(from as int, count as int),
{
    if from < 0 {
        0
    } else {
        let first = from / 8;
        if first > count as i64 {
            count
        } else {
            first as usize
        }
    }
}

fn end_tile(to: i64, count: usize) -> (end: usize)
    requires
        count <= 1024,
        to <= i64::MAX - 8,
    ensures
        end == tile_until(to as int, count as int),
{
    if to < 0 {
        0
    } else {
        let end = (to + 7) / 8;
        if end > count as i64 {
            count
        } else {
            end as usize
        }
    }
}

} // verus!
