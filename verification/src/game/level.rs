//! The level file: the rooms of the world as bytes.
//!
//! The file holds the rooms one after the other, in the order of the world's
//! grid. A room is its position in the world, x then y, each as four bytes of
//! a 32-bit number in two's complement with the lowest byte first, followed
//! by its tiles row by row, each as two bytes: the kind of the tile, then 1
//! if the tile is solid and 0 if it is not.

use vstd::prelude::*;
use crate::game::room::{Room, Tile, TILE_COUNT};
use crate::game::world::{World, ROOMS_IN_WORLD};
use crate::rect::Point;

verus! {

/// Bytes that a room takes in the file: eight for its position and two for
/// each of its tiles.
pub const ROOM_BYTES: usize = 1768;

/// Bytes of the whole file: twelve rooms.
pub const LEVEL_BYTES: usize = 21216;

/// Why some bytes are no level file.
#[derive(Clone, Copy, Debug, PartialEq, Eq, Structural)]
pub enum LevelError {
    /// The file has not the length of twelve rooms.
    BadLength,
    /// The byte that says whether a tile is solid is neither 0 nor 1.
    BadTile,
}

/// `value` as the unsigned number that has the same 32 bits in two's
/// complement.
pub open spec fn unsigned(value: i32) -> int {
    if value < 0 {
        value + 0x1_0000_0000
    } else {
        value as int
    }
}

/// Byte `k` of the 32 bits of `value`, counted from the lowest.
pub open spec fn le_byte(value: i32, k: int) -> u8
    recommends
        0 <= k < 4,
{
    if k == 0 {
        (unsigned(value) % 256) as u8
    } else if k == 1 {
        (unsigned(value) / 256 % 256) as u8
    } else if k == 2 {
        (unsigned(value) / 65536 % 256) as u8
    } else {
        (unsigned(value) / 16777216 % 256) as u8
    }
}

/// The byte at position `offset` of the bytes of `room`.
pub open spec fn room_byte(room: Room, offset: int) -> u8
    recommends
        0 <= offset < ROOM_BYTES,
{
    if offset < 4 {
        le_byte(room.position_in_world.x, offset)
    } else if offset < 8 {
        le_byte(room.position_in_world.y, offset - 4)
    } else {
        let tile = room.foreground_tiles.inner@[(offset - 8) / 2];
        if (offset - 8) % 2 == 0 {
            tile.id
        } else if tile.visible {
            1
        } else {
            0
        }
    }
}

/// The level file of `world`.
pub open spec fn world_bytes(world: World) -> Seq<u8> {
    Seq::new(
        LEVEL_BYTES as nat,
        |i: int| room_byte(world.rooms.inner@[i / ROOM_BYTES as int], i % ROOM_BYTES as int),
    )
}

/// Whether position `i` of a level file holds the byte that says whether a
/// tile is solid.
pub open spec fn is_flag(i: int) -> bool {
    0 <= i < LEVEL_BYTES && i % (ROOM_BYTES as int) >= 8 && (i % (ROOM_BYTES as int) - 8) % 2 == 1
}

/// Whether two worlds have the same rooms: each at the same position and
/// with the same tiles.
pub open spec fn same_rooms(a: World, b: World) -> bool {
    forall|r: int|
        0 <= r < ROOMS_IN_WORLD ==> {
            &&& (#[trigger] a.rooms.inner@[r]).position_in_world == b.rooms.inner@[r].position_in_world
            &&& a.rooms.inner@[r].foreground_tiles.inner@ =~= b.rooms.inner@[r].foreground_tiles.inner@
        }
}

proof fn lemma_le_bytes_injective(a: i32, b: i32)
    requires
        forall|k: int| 0 <= k < 4 ==> le_byte(a, k) == le_byte(b, k),
    ensures
        a == b,
{
    assert(le_byte(a, 0) == le_byte(b, 0));
    assert(le_byte(a, 1) == le_byte(b, 1));
    assert(le_byte(a, 2) == le_byte(b, 2));
    assert(le_byte(a, 3) == le_byte(b, 3));
}

/// Worlds with the same level file have the same rooms: the file loses
/// nothing.
pub proof fn lemma_world_bytes_injective(a: World, b: World)
    requires
        world_bytes(a) == world_bytes(b),
    ensures
        same_rooms(a, b),
{
    assert forall|r: int| 0 <= r < ROOMS_IN_WORLD implies {
        &&& (#[trigger] a.rooms.inner@[r]).position_in_world == b.rooms.inner@[r].position_in_world
        &&& a.rooms.inner@[r].foreground_tiles.inner@ =~= b.rooms.inner@[r].foreground_tiles.inner@
    } by {
        let ra = a.rooms.inner@[r];
        let rb = b.rooms.inner@[r];
        assert forall|offset: int| 0 <= offset < ROOM_BYTES implies room_byte(ra, offset) == room_byte(
            rb,
            offset,
        ) by {
            let i = r * ROOM_BYTES + offset;
            assert(i / (ROOM_BYTES as int) == r && i % (ROOM_BYTES as int) == offset);
            assert(world_bytes(a)[i] == room_byte(ra, offset));
            assert(world_bytes(b)[i] == room_byte(rb, offset));
        }
        assert forall|k: int| 0 <= k < 4 implies le_byte(ra.position_in_world.x, k) == le_byte(
            rb.position_in_world.x,
            k,
        ) by {
            assert(room_byte(ra, k) == room_byte(rb, k));
        }
        assert forall|k: int| 0 <= k < 4 implies le_byte(ra.position_in_world.y, k) == le_byte(
            rb.position_in_world.y,
            k,
        ) by {
            assert(room_byte(ra, k + 4) == room_byte(rb, k + 4));
        }
        lemma_le_bytes_injective(ra.position_in_world.x, rb.position_in_world.x);
        lemma_le_bytes_injective(ra.position_in_world.y, rb.position_in_world.y);
        assert forall|t: int| 0 <= t < TILE_COUNT implies ra.foreground_tiles.inner@[t]
            == rb.foreground_tiles.inner@[t] by {
            assert(room_byte(ra, 8 + 2 * t) == room_byte(rb, 8 + 2 * t));
            assert(room_byte(ra, 9 + 2 * t) == room_byte(rb, 9 + 2 * t));
        }
    }
}

/// Appends the four bytes of `value`, lowest first.
fn write_i32(out: &mut Vec<u8>, value: i32)
    ensures
        final(out)@.len() == old(out)@.len() + 4,
        forall|i: int| 0 <= i < old(out)@.len() ==> final(out)@[i] == old(out)@[i],
        forall|k: int| 0 <= k < 4 ==> final(out)@[old(out)@.len() + k] == le_byte(value, k),
{
    let bits: u64 = if value < 0 {
        (value as i64 + 0x1_0000_0000) as u64
    } else {
        value as u64
    };
    out.push((bits % 256) as u8);
    out.push((bits / 256 % 256) as u8);
    out.push((bits / 65536 % 256) as u8);
    out.push((bits / 16777216 % 256) as u8);
}

/// Reads the 32-bit number whose four bytes start at `at`.
fn read_i32(bytes: &[u8], at: usize) -> (value: i32)
    requires
        at + 4 <= bytes@.len(),
    ensures
        forall|k: int| 0 <= k < 4 ==> le_byte(value, k) == bytes@[at + k],
{
    let bits: u64 = bytes[at] as u64 + 256 * (bytes[at + 1] as u64) + 65536 * (bytes[at + 2] as u64) + 16777216
        * (bytes[at + 3] as u64);
    let value = if bits >= 0x8000_0000 {
        (bits as i64 - 0x1_0000_0000) as i32
    } else {
        bits as i32
    };
    assert(unsigned(value) == bits);
    assert(le_byte(value, 0) == bytes@[at + 0]);
    assert(le_byte(value, 1) == bytes@[at + 1]);
    assert(le_byte(value, 2) == bytes@[at + 2]);
    assert(le_byte(value, 3) == bytes@[at + 3]);
    value
}

impl World {
    /// Writes the world as a level file.
    pub fn to_bytes(&self) -> (bytes: Vec<u8>)
        ensures
            bytes@ == world_bytes(*self),
    {
        let mut out: Vec<u8> = Vec::new();
        let mut r: usize = 0;
        while r < ROOMS_IN_WORLD
            invariant
                r <= ROOMS_IN_WORLD,
                out@.len() == r * ROOM_BYTES,
                forall|i: int| 0 <= i < out@.len() ==> out@[i] == world_bytes(*self)[i],
            decreases ROOMS_IN_WORLD - r,
        {
            let room = self.rooms.index(r);
            let ghost base = out@.len() as int;
            write_i32(&mut out, room.position_in_world.x);
            write_i32(&mut out, room.position_in_world.y);
            assert forall|i: int| base <= i < out@.len() implies out@[i] == world_bytes(*self)[i] by {
                assert(i / (ROOM_BYTES as int) == r && i % (ROOM_BYTES as int) == i - base);
                if i - base < 4 {
                    assert(out@[base + (i - base)] == le_byte(room.position_in_world.x, i - base));
                } else {
                    assert(out@[(base + 4) + (i - base - 4)] == le_byte(room.position_in_world.y, i - base - 4));
                }
            }
            let mut t: usize = 0;
            while t < TILE_COUNT
                invariant
                    t <= TILE_COUNT,
                    r < ROOMS_IN_WORLD,
                    base == r * ROOM_BYTES,
                    *room == self.rooms.inner@[r as int],
                    out@.len() == base + 8 + 2 * t,
                    forall|i: int| 0 <= i < out@.len() ==> out@[i] == world_bytes(*self)[i],
                decreases TILE_COUNT - t,
            {
                let tile = room.foreground_tiles.index(t);
                let ghost before = out@;
                out.push(tile.id);
                out.push(if tile.visible {
                    1
                } else {
                    0
                });
                assert forall|i: int| 0 <= i < out@.len() implies out@[i] == world_bytes(*self)[i] by {
                    if i < before.len() {
                        assert(out@[i] == before[i]);
                    } else {
                        assert(i / (ROOM_BYTES as int) == r && i % (ROOM_BYTES as int) == i - base);
                        assert((i - base - 8) / 2 == t);
                    }
                }
                t = t + 1;
            }
            r = r + 1;
        }
        assert(out@ =~= world_bytes(*self));
        out
    }

    /// Reads a world from its level file.
    pub fn from_bytes(bytes: &[u8]) -> (r: Result<World, LevelError>)
        ensures
            match r {
                Ok(world) => bytes@ == world_bytes(world),
                Err(LevelError::BadLength) => bytes@.len() != LEVEL_BYTES,
                Err(LevelError::BadTile) => bytes@.len() == LEVEL_BYTES && exists|i: int|
                    is_flag(i) && #[trigger] bytes@[i] > 1,
            },
    {
        if bytes.len() != LEVEL_BYTES {
            return Err(LevelError::BadLength);
        }
        let mut world = World::blank();
        let mut r: usize = 0;
        while r < ROOMS_IN_WORLD
            invariant
                r <= ROOMS_IN_WORLD,
                bytes@.len() == LEVEL_BYTES,
                forall|i: int| 0 <= i < r * ROOM_BYTES ==> bytes@[i] == world_bytes(world)[i],
            decreases ROOMS_IN_WORLD - r,
        {
            let base = r * ROOM_BYTES;
            let x = read_i32(bytes, base);
            let y = read_i32(bytes, base + 4);
            let mut room = Room::empty(Point { x, y });
            let mut t: usize = 0;
            while t < TILE_COUNT
                invariant
                    t <= TILE_COUNT,
                    r < ROOMS_IN_WORLD,
                    base == r * ROOM_BYTES,
                    bytes@.len() == LEVEL_BYTES,
                    room.position_in_world == (Point { x, y }),
                    forall|j: int| 0 <= j < 8 + 2 * t ==> bytes@[base + j] == room_byte(room, j),
                    forall|k: int| 0 <= k < 4 ==> le_byte(x, k) == bytes@[base + k],
                    forall|k: int| 0 <= k < 4 ==> le_byte(y, k) == bytes@[base + 4 + k],
                decreases TILE_COUNT - t,
            {
                let id = bytes[base + 8 + 2 * t];
                let flag = bytes[base + 9 + 2 * t];
                if flag > 1 {
                    let ghost at = (base + 9 + 2 * t) as int;
                    assert(at / (ROOM_BYTES as int) == r && at % (ROOM_BYTES as int) == 9 + 2 * t);
                    assert(is_flag(at) && bytes@[at] > 1);
                    return Err(LevelError::BadTile);
                }
                let ghost before = room;
                let cell = room.foreground_tiles.index_mut(t);
                *cell = Tile { id, visible: flag == 1 };
                assert forall|j: int| 0 <= j < 8 + 2 * (t + 1) implies bytes@[base + j] == room_byte(room, j) by {
                    if j < 8 {
                        if j < 4 {
                            assert(le_byte(x, j) == bytes@[base + j]);
                        } else {
                            assert(le_byte(y, j - 4) == bytes@[base + 4 + (j - 4)]);
                        }
                    } else if j < 8 + 2 * t {
                        assert(room_byte(room, j) == room_byte(before, j));
                    }
                }
                t = t + 1;
            }
            let ghost before = world;
            let slot = world.rooms.index_mut(r);
            *slot = room;
            assert forall|i: int| 0 <= i < (r + 1) * ROOM_BYTES implies bytes@[i] == world_bytes(world)[i] by {
                if i < r * ROOM_BYTES {
                    assert(i / (ROOM_BYTES as int) < r);
                    assert(world_bytes(world)[i] == world_bytes(before)[i]);
                } else {
                    assert(i / (ROOM_BYTES as int) == r && i % (ROOM_BYTES as int) == i - base);
                    assert(bytes@[base + (i - base)] == room_byte(room, i - base));
                }
            }
            r = r + 1;
        }
        assert(bytes@ =~= world_bytes(world));
        Ok(world)
    }
}

/// A world that is written as a level file and read again has the rooms it
/// had.
pub proof fn lemma_level_round_trip(world: World, read: World)
    requires
        world_bytes(read) == world_bytes(world),
    ensures
        same_rooms(read, world),
        forall|i: int| is_flag(i) ==> #[trigger] world_bytes(world)[i] <= 1,
{
    lemma_world_bytes_injective(read, world);
}

} // verus!
