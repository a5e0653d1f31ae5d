//! The camera: shows the room that the player is in.

use vstd::prelude::*;
use crate::game::world::World;
use crate::graphics::render_target::{Projection, RenderTarget, RenderTargetView};
use crate::rect::{Point, Rect};

verus! {

/// Width of what the camera shows, in pixels.
pub const VIEW_WIDTH: i32 = 320;

/// Height of what the camera shows, in pixels.
pub const VIEW_HEIGHT: i32 = 180;

/// How far below its position the point lies by which the player is
/// assigned to a room.
pub const ROOM_PROBE_OFFSET: i32 = 4;

/// The part of the world that is shown.
pub struct Camera {
    pub viewport: Rect,
}

impl Default for Camera {
    fn default() -> (camera: Self)
        ensures
            camera.viewport == (Rect { x: 0, y: 0, w: VIEW_WIDTH, h: VIEW_HEIGHT }),
    {
        Camera { viewport: Rect { x: 0, y: 0, w: VIEW_WIDTH, h: VIEW_HEIGHT } }
    }
}

/// The projection that shows exactly the pixels of `viewport`, with the y
/// axis pointing down.
pub open spec fn projection_of(viewport: Rect) -> Projection {
    Projection {
        left: viewport.x as i64,
        right: (viewport.x + viewport.w) as i64,
        bottom: (viewport.y + viewport.h) as i64,
        top: viewport.y as i64,
    }
}

impl Camera {
    /// Moves the camera to the room that the player, who stands at
    /// `player_position`, is in, and gives `target` the projection of the new
    /// view. If the camera shows that room already, nothing changes.
    pub fn update(&mut self, target: &mut RenderTarget, player_position: Point, world: &World)
        requires
            World::contains(player_position.x as int, player_position.y + ROOM_PROBE_OFFSET),
        ensures
            ({
                let room = world.rooms.inner@[(player_position.x / 320) + 4 * ((player_position.y
                    + ROOM_PROBE_OFFSET) / 176)].position_in_world;
                let there = old(self).viewport.x == room.x && old(self).viewport.y == room.y;
                &&& there ==> final(self).viewport == old(self).viewport && final(target)@ == old(target)@
                &&& !there ==> final(self).viewport == (Rect { x: room.x, y: room.y, ..old(self).viewport })
                    && final(target)@ == (RenderTargetView {
                    projection: Some(projection_of(final(self).viewport)),
                    ..old(target)@
                })
            }),
    {
        let current_room = world.room_at(player_position.x, player_position.y + ROOM_PROBE_OFFSET);
        let corner = current_room.position_in_world;
        if self.viewport.x == corner.x && self.viewport.y == corner.y {
            return ;
        }
        self.viewport.x = corner.x;
        self.viewport.y = corner.y;
        target.set_projection(
            Projection {
                left: self.viewport.x as i64,
                right: self.viewport.x as i64 + self.viewport.w as i64,
                bottom: self.viewport.y as i64 + self.viewport.h as i64,
                top: self.viewport.y as i64,
            },
        );
    }
}

} // verus!
