use render_core::game::camera::Camera;
use render_core::game::level::{LevelError, LEVEL_BYTES, ROOM_BYTES};
use render_core::game::player::{Contact, Controls, Player, State, Steering};
use render_core::game::room::{Room, Tile};
use render_core::game::world::World;
use render_core::graphics::render_target::{Projection, RenderTarget};
use render_core::graphics::texture::{Texture, TextureFormat, TextureIds};
use render_core::rect::{Point, Rect};

fn solid(room: &mut Room, column: usize, row: usize) {
    *room.foreground_tiles.get_cell_at_index_mut(column, row) = Tile { id: 1, visible: true };
}

fn room_with_floor() -> Room {
    let mut room = Room::empty(Point { x: 0, y: 0 });
    for column in 0..40 {
        solid(&mut room, column, 10);
    }
    room
}

#[test]
fn empty_room_has_no_solid_tile() {
    let room = Room::empty(Point { x: 320, y: 176 });
    assert_eq!(room.position_in_world, Point { x: 320, y: 176 });
    assert!(room.foreground_tiles.inner.iter().all(|tile| *tile == Tile { id: 0, visible: false }));
    assert!(!room.collides(&Rect { x: 320, y: 176, w: 320, h: 176 }));
    assert_eq!(Tile::default(), Tile { id: 0, visible: false });
}

#[test]
fn rect_collides_with_the_tiles_it_overlaps() {
    let mut room = Room::empty(Point { x: 0, y: 0 });
    solid(&mut room, 2, 3);
    // The tile covers the pixels 16..24 by 24..32.
    assert!(room.collides(&Rect { x: 16, y: 24, w: 8, h: 8 }));
    assert!(room.collides(&Rect { x: 23, y: 31, w: 1, h: 1 }));
    assert!(room.collides(&Rect { x: 0, y: 0, w: 17, h: 25 }));
    assert!(room.collides(&Rect { x: -100, y: -100, w: 1000, h: 1000 }));
    // Touching sides share no pixel.
    assert!(!room.collides(&Rect { x: 8, y: 24, w: 8, h: 8 }));
    assert!(!room.collides(&Rect { x: 24, y: 24, w: 8, h: 8 }));
    assert!(!room.collides(&Rect { x: 16, y: 16, w: 8, h: 8 }));
    assert!(!room.collides(&Rect { x: 16, y: 32, w: 8, h: 8 }));
    // A rectangle without pixels collides with nothing.
    assert!(!room.collides(&Rect { x: 18, y: 26, w: 0, h: 4 }));
    assert!(!room.collides(&Rect { x: 18, y: 26, w: 4, h: -1 }));
}

#[test]
fn collision_is_in_world_pixels() {
    let mut room = Room::empty(Point { x: 320, y: 176 });
    solid(&mut room, 0, 0);
    solid(&mut room, 39, 21);
    assert!(room.collides(&Rect { x: 320, y: 176, w: 1, h: 1 }));
    assert!(!room.collides(&Rect { x: 0, y: 0, w: 8, h: 8 }));
    assert!(room.collides(&Rect { x: 639, y: 351, w: 50, h: 50 }));
    assert!(!room.collides(&Rect { x: 640, y: 351, w: 50, h: 50 }));
    assert!(!room.collides(&Rect { x: i32::MAX - 10, y: i32::MIN, w: i32::MAX, h: i32::MAX }));
}

#[test]
fn blank_world_places_its_rooms() {
    let world = World::blank();
    for i in 0..12 {
        let room = &world.rooms.inner[i];
        assert_eq!(room.position_in_world, Point { x: (i as i32 % 4) * 320, y: (i as i32 / 4) * 176 });
        assert!(room.foreground_tiles.inner.iter().all(|tile| !tile.visible));
    }
    assert_eq!(world.room_at(0, 0).position_in_world, Point { x: 0, y: 0 });
    assert_eq!(world.room_at(319, 175).position_in_world, Point { x: 0, y: 0 });
    assert_eq!(world.room_at(320, 176).position_in_world, Point { x: 320, y: 176 });
    assert_eq!(world.room_at(1279, 527).position_in_world, Point { x: 960, y: 352 });
}

#[test]
fn set_tile_finds_room_and_tile() {
    let mut world = World::blank();
    world.set_tile(330, 190, 7);
    // Room 5 starts at (320, 176); the point lies in its tile (1, 1).
    let room = &world.rooms.inner[5];
    assert_eq!(*room.foreground_tiles.get_cell_at_index(1, 1), Tile { id: 7, visible: true });
    let solid_tiles: usize = world
        .rooms
        .inner
        .iter()
        .map(|room| room.foreground_tiles.inner.iter().filter(|tile| tile.visible).count())
        .sum();
    assert_eq!(solid_tiles, 1);
    assert!(room.collides(&Rect { x: 328, y: 184, w: 1, h: 1 }));
}

#[test]
fn camera_follows_the_player_into_a_room() {
    let mut ids = TextureIds::new();
    let texture = Texture::new(&mut ids, 320, 180, TextureFormat::R8g8b8a8Unorm).unwrap();
    let mut target = RenderTarget::new(texture);
    let world = World::blank();
    let mut camera = Camera::default();
    assert_eq!(camera.viewport, Rect { x: 0, y: 0, w: 320, h: 180 });

    camera.update(&mut target, Point { x: 10, y: 10 }, &world);
    assert_eq!(camera.viewport, Rect { x: 0, y: 0, w: 320, h: 180 });
    assert_eq!(target.projection(), Projection { left: 0, right: 320, bottom: 180, top: 0 });

    camera.update(&mut target, Point { x: 700, y: 200 }, &world);
    assert_eq!(camera.viewport, Rect { x: 640, y: 176, w: 320, h: 180 });
    assert_eq!(target.projection(), Projection { left: 640, right: 960, bottom: 356, top: 176 });

    // The room is found four pixels below the position.
    camera.update(&mut target, Point { x: 700, y: 172 }, &world);
    assert_eq!(camera.viewport, Rect { x: 640, y: 176, w: 320, h: 180 });
    camera.update(&mut target, Point { x: 700, y: 171 }, &world);
    assert_eq!(camera.viewport, Rect { x: 640, y: 0, w: 320, h: 180 });
    assert_eq!(target.projection(), Projection { left: 640, right: 960, bottom: 180, top: 0 });
}

#[test]
fn new_player_idles_in_the_air() {
    let player = Player::new();
    assert_eq!(player.get_position(), Point { x: 0, y: 0 });
    assert_eq!(player.state(), State::Idle);
    assert!(!player.grounded());
    assert_eq!(player.animation(), "IDLE");
}

#[test]
fn player_falls_onto_the_floor() {
    let room = room_with_floor();
    let mut player = Player::new();
    player.set_position(Point { x: 100, y: 70 });
    // The floor starts at row 80; the feet stop on it.
    let contact = player.advance(&room, Point { x: 0, y: 25 });
    assert_eq!(contact, Contact { blocked_y: true, blocked_x: false, landed: true });
    assert_eq!(player.get_position(), Point { x: 100, y: 80 });
    assert!(player.grounded());
    assert_eq!(player.state(), State::Idle);
    let contact = player.advance(&room, Point { x: 0, y: 3 });
    assert_eq!(contact, Contact { blocked_y: true, blocked_x: false, landed: false });
    assert_eq!(player.get_position(), Point { x: 100, y: 80 });
}

#[test]
fn player_in_the_air_jumps() {
    let room = room_with_floor();
    let mut player = Player::new();
    player.set_position(Point { x: 100, y: 40 });
    let contact = player.advance(&room, Point { x: 5, y: 3 });
    assert_eq!(contact, Contact { blocked_y: false, blocked_x: false, landed: false });
    assert_eq!(player.get_position(), Point { x: 105, y: 43 });
    assert!(!player.grounded());
    assert_eq!(player.state(), State::Jump);
    assert_eq!(player.animation(), "JUMP");
}

#[test]
fn player_is_stopped_by_a_wall() {
    let mut room = room_with_floor();
    solid(&mut room, 15, 9);
    let mut player = Player::new();
    player.set_position(Point { x: 100, y: 80 });
    // The wall covers the columns 120..128; the collider is 8 wide and
    // starts 4 left of the position.
    let contact = player.advance(&room, Point { x: 30, y: 0 });
    assert_eq!(contact, Contact { blocked_y: false, blocked_x: true, landed: true });
    assert_eq!(player.get_position(), Point { x: 116, y: 80 });
    let contact = player.advance(&room, Point { x: -30, y: 0 });
    assert_eq!(contact, Contact { blocked_y: false, blocked_x: false, landed: false });
    assert_eq!(player.get_position(), Point { x: 86, y: 80 });
}

#[test]
fn keys_steer_the_player() {
    let room = room_with_floor();
    let mut player = Player::new();
    player.set_position(Point { x: 100, y: 80 });
    player.advance(&room, Point { x: 0, y: 0 });
    assert!(player.grounded());
    let none = Controls { right: false, left: false, jump: false, attack: false };

    let steering = player.steer(false, Controls { right: true, ..none });
    assert_eq!(steering, Steering { run: 1, jump: false, flip_x: Some(false) });
    assert_eq!(player.state(), State::Run);
    assert_eq!(player.animation(), "RUN");

    let steering = player.steer(false, Controls { right: true, left: true, jump: true, ..none });
    assert_eq!(steering, Steering { run: -1, jump: true, flip_x: Some(true) });

    let steering = player.steer(false, Controls { attack: true, ..none });
    assert_eq!(steering, Steering { run: 0, jump: false, flip_x: None });
    assert_eq!(player.state(), State::Attack);
    assert_eq!(player.animation(), "ATTACK");

    // An attack holds the player in place until its animation has run.
    let steering = player.steer(false, Controls { left: true, jump: true, ..none });
    assert_eq!(steering, Steering { run: 0, jump: false, flip_x: None });
    assert_eq!(player.state(), State::Attack);
    let steering = player.steer(true, Controls { left: true, ..none });
    assert_eq!(steering, Steering { run: -1, jump: false, flip_x: Some(true) });
    assert_eq!(player.state(), State::Run);
    player.steer(true, none);
    assert_eq!(player.state(), State::Idle);
}

#[test]
fn jump_needs_ground() {
    let mut player = Player::new();
    let steering = player.steer(false, Controls { right: false, left: false, jump: true, attack: false });
    assert_eq!(steering, Steering { run: 0, jump: false, flip_x: None });
}

#[test]
fn level_file_round_trip() {
    let mut world = World::blank();
    world.set_tile(330, 190, 7);
    world.set_tile(0, 0, 255);
    world.rooms.inner[3].position_in_world = Point { x: -5, y: i32::MIN };
    world.rooms.inner[4].position_in_world = Point { x: i32::MAX, y: 0x01020304 };
    let bytes = world.to_bytes();
    assert_eq!(bytes.len(), 21216);
    assert_eq!(LEVEL_BYTES, 12 * ROOM_BYTES);
    assert_eq!(ROOM_BYTES, 8 + 2 * 880);
    // Room 0: position (0, 0), then its first tile, kind 255 and solid.
    assert_eq!(bytes[..10], [0, 0, 0, 0, 0, 0, 0, 0, 255, 1]);
    assert_eq!(bytes[10..12], [0, 0]);
    // Room 3: -5 and the least number, in two's complement, lowest byte first.
    assert_eq!(bytes[3 * 1768..3 * 1768 + 8], [0xFB, 0xFF, 0xFF, 0xFF, 0, 0, 0, 0x80]);
    assert_eq!(bytes[4 * 1768..4 * 1768 + 8], [0xFF, 0xFF, 0xFF, 0x7F, 4, 3, 2, 1]);
    // Room 5 starts at (320, 176) and has tile (1, 1), which is tile 41, solid.
    assert_eq!(bytes[5 * 1768..5 * 1768 + 8], [0x40, 1, 0, 0, 176, 0, 0, 0]);
    assert_eq!(bytes[5 * 1768 + 8 + 2 * 41..5 * 1768 + 8 + 2 * 41 + 2], [7, 1]);

    let read = World::from_bytes(&bytes).ok().unwrap();
    for r in 0..12 {
        assert_eq!(read.rooms.inner[r].position_in_world, world.rooms.inner[r].position_in_world);
        assert_eq!(read.rooms.inner[r].foreground_tiles.inner, world.rooms.inner[r].foreground_tiles.inner);
    }
    assert_eq!(read.to_bytes(), bytes);

    assert_eq!(World::from_bytes(&bytes[1..]).err(), Some(LevelError::BadLength));
    assert_eq!(World::from_bytes(&[]).err(), Some(LevelError::BadLength));
    let mut broken = bytes.clone();
    broken[21215] = 2;
    assert_eq!(World::from_bytes(&broken).err(), Some(LevelError::BadTile));
    broken[21215] = 1;
    broken[21214] = 200;
    let read = World::from_bytes(&broken).ok().unwrap();
    assert_eq!(
        *read.rooms.inner[11].foreground_tiles.get_cell_at_index(39, 21),
        Tile { id: 200, visible: true }
    );
}
