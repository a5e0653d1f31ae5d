//! The player: where it stands, what it does, and how it moves through a
//! room without entering solid tiles.

use vstd::prelude::*;
use crate::game::room::Room;
use crate::rect::{Point, Rect};

verus! {

/// Farthest that a coordinate of the player or a move of it may lie from the
/// origin.
pub const REACH: i32 = 1048576;

/// What the player does, which decides the animation that is shown.
#[derive(Clone, Copy, Debug, PartialEq, Eq, Structural)]
pub enum State {
    Attack,
    Idle,
    Run,
    Jump,
}

/// The keys that steer the player, as they are in one frame.
#[derive(Clone, Copy, Debug, PartialEq, Eq, Structural)]
pub struct Controls {
    /// The key for running right is down.
    pub right: bool,
    /// The key for running left is down.
    pub left: bool,
    /// The key for jumping went down.
    pub jump: bool,
    /// The key for attacking went down.
    pub attack: bool,
}

/// What the keys make the player do in one frame.
#[derive(Clone, Copy, Debug, PartialEq, Eq, Structural)]
pub struct Steering {
    /// The direction to run in: -1 for left, 1 for right, 0 for neither.
    pub run: i8,
    /// Whether the player leaves the ground.
    pub jump: bool,
    /// The side to turn the sprite to, if it is to turn: `true` for left.
    pub flip_x: Option<bool>,
}

/// What a move ran into.
#[derive(Clone, Copy, Debug, PartialEq, Eq, Structural)]
pub struct Contact {
    /// A solid tile stopped the move along the y axis.
    pub blocked_y: bool,
    /// A solid tile stopped the move along the x axis.
    pub blocked_x: bool,
    /// The player stands on a solid tile now and did not before.
    pub landed: bool,
}

/// The player as far as the tiles and the keys are concerned.
pub struct Player {
    position: Point,
    collider: Rect,
    pivot: Point,
    grounded: bool,
    state: State,
}

/// What a player holds.
pub struct PlayerView {
    pub position: Point,
    /// The pixels that the player fills.
    pub collider: Rect,
    /// Where the collider's corner lies, seen from the position.
    pub pivot: Point,
    /// Whether the player stands on a solid tile.
    pub grounded: bool,
    pub state: State,
}

/// `rect` moved by `(dx, dy)`.
pub open spec fn shifted(rect: Rect, dx: int, dy: int) -> Rect {
    Rect { x: (rect.x + dx) as i32, y: (rect.y + dy) as i32, ..rect }
}

/// Where `rect` gets to when it moves up to `steps` times by `(dx, dy)` and
/// stops before the first step that would bring it onto a solid tile of
/// `room`, and whether a tile stopped it.
pub open spec fn slide(room: &Room, rect: Rect, dx: int, dy: int, steps: nat) -> (Rect, bool)
    decreases steps,
{
    if steps == 0 {
        (rect, false)
    } else if room.collides_spec(shifted(rect, dx, dy)) {
        (rect, true)
    } else {
        slide(room, shifted(rect, dx, dy), dx, dy, (steps - 1) as nat)
    }
}

/// The sign of `n`: -1, 0 or 1.
pub open spec fn signum(n: int) -> int {
    if n > 0 {
        1
    } else if n < 0 {
        -1
    } else {
        0
    }
}

/// The size of `n` without its sign.
pub open spec fn magnitude(n: int) -> nat {
    if n < 0 {
        (-n) as nat
    } else {
        n as nat
    }
}

impl PlayerView {
    /// What the keys make of the player's state. An animation that has run
    /// to its end gives way to idling; running takes over unless the player
    /// attacks; an attack takes over in any case.
    pub open spec fn steered_state(self, looping: bool, controls: Controls) -> State {
        let rested = if looping {
            State::Idle
        } else {
            self.state
        };
        let moved = if rested != State::Attack && (controls.right || controls.left) {
            State::Run
        } else {
            rested
        };
        if controls.attack {
            State::Attack
        } else {
            moved
        }
    }

    /// What the keys make the player do. A player that attacks stands
    /// still; of both directions left wins; a jump needs ground under the
    /// feet.
    pub open spec fn steering(self, looping: bool, controls: Controls) -> Steering {
        let free = !(self.state == State::Attack && !looping);
        Steering {
            run: if free && controls.left {
                -1i8
            } else if free && controls.right {
                1i8
            } else {
                0i8
            },
            jump: free && controls.jump && self.grounded,
            flip_x: if free && controls.left {
                Some(true)
            } else if free && controls.right {
                Some(false)
            } else {
                None
            },
        }
    }

    /// Whether the player and a move by `to_move` stay within reach of the
    /// origin, so that no coordinate leaves the range of 32 bits.
    pub open spec fn within_reach(self, to_move: Point) -> bool {
        &&& -REACH <= self.position.x <= REACH
        &&& -REACH <= self.position.y <= REACH
        &&& -REACH <= self.pivot.x <= REACH
        &&& -REACH <= self.pivot.y <= REACH
        &&& -REACH <= to_move.x <= REACH
        &&& -REACH <= to_move.y <= REACH
    }

    /// The collider at the player's position.
    pub open spec fn placed(self) -> Rect {
        Rect {
            x: (self.position.x + self.pivot.x) as i32,
            y: (self.position.y + self.pivot.y) as i32,
            ..self.collider
        }
    }

    /// Where the collider ends up after a move by `to_move` through `room`:
    /// first along the y axis, then along the x axis, pixel by pixel.
    pub open spec fn moved(self, room: &Room, to_move: Point) -> Rect {
        let after_y = slide(room, self.placed(), 0, signum(to_move.y as int), magnitude(to_move.y as int)).0;
        slide(room, after_y, signum(to_move.x as int), 0, magnitude(to_move.x as int)).0
    }

    /// The player after a move by `to_move` through `room`. The player is
    /// grounded if the pixel row below the collider touches a solid tile;
    /// else it is in a jump.
    pub open spec fn advanced(self, room: &Room, to_move: Point) -> PlayerView {
        let collider = self.moved(room, to_move);
        let grounded = room.collides_spec(shifted(collider, 0, 1));
        PlayerView {
            position: Point { x: (collider.x - self.pivot.x) as i32, y: (collider.y - self.pivot.y) as i32 },
            collider,
            grounded,
            state: if grounded {
                self.state
            } else {
                State::Jump
            },
            ..self
        }
    }

    /// What a move by `to_move` through `room` runs into.
    pub open spec fn contact(self, room: &Room, to_move: Point) -> Contact {
        let after_y = slide(room, self.placed(), 0, signum(to_move.y as int), magnitude(to_move.y as int));
        let after_x = slide(room, after_y.0, signum(to_move.x as int), 0, magnitude(to_move.x as int));
        Contact {
            blocked_y: after_y.1,
            blocked_x: after_x.1,
            landed: !self.grounded && room.collides_spec(shifted(after_x.0, 0, 1)),
        }
    }
}

/// A slide moves along its axis only, and no farther than its steps.
pub proof fn lemma_slide_stays_near(room: &Room, rect: Rect, dx: int, dy: int, steps: nat)
    requires
        -1 <= dx <= 1,
        -1 <= dy <= 1,
        -6 * REACH + steps <= rect.x <= 6 * REACH - steps,
        -6 * REACH + steps <= rect.y <= 6 * REACH - steps,
    ensures
        slide(room, rect, dx, dy, steps).0.w == rect.w,
        slide(room, rect, dx, dy, steps).0.h == rect.h,
        rect.x - steps <= slide(room, rect, dx, dy, steps).0.x <= rect.x + steps,
        rect.y - steps <= slide(room, rect, dx, dy, steps).0.y <= rect.y + steps,
        dx == 0 ==> slide(room, rect, dx, dy, steps).0.x == rect.x,
        dy == 0 ==> slide(room, rect, dx, dy, steps).0.y == rect.y,
    decreases steps,
{
    if steps > 0 && !room.collides_spec(shifted(rect, dx, dy)) {
        lemma_slide_stays_near(room, shifted(rect, dx, dy), dx, dy, (steps - 1) as nat);
    }
}

/// Moves `rect` through `room` up to `steps` times by `(dx, dy)`.
fn slide_through(room: &Room, rect: Rect, dx: i32, dy: i32, steps: u32) -> (r: (Rect, bool))
    requires
        -1 <= dx <= 1,
        -1 <= dy <= 1,
        -6 * REACH + steps <= rect.x <= 6 * REACH - steps,
        -6 * REACH + steps <= rect.y <= 6 * REACH - steps,
    ensures
        r == slide(room, rect, dx as int, dy as int, steps as nat),
{
    let mut current = rect;
    let mut left = steps;
    while left > 0
        invariant
            -1 <= dx <= 1,
            -1 <= dy <= 1,
            left <= steps,
            rect.x - (steps - left) <= current.x <= rect.x + (steps - left),
            rect.y - (steps - left) <= current.y <= rect.y + (steps - left),
            -6 * REACH + steps <= rect.x <= 6 * REACH - steps,
            -6 * REACH + steps <= rect.y <= 6 * REACH - steps,
            slide(room, rect, dx as int, dy as int, steps as nat) == slide(
                room,
                current,
                dx as int,
                dy as int,
                left as nat,
            ),
        decreases left,
    {
        let next = Rect { x: current.x + dx, y: current.y + dy, w: current.w, h: current.h };
        assert(next == shifted(current, dx as int, dy as int));
        if room.collides(&next) {
            return (current, true);
        }
        current = next;
        left = left - 1;
    }
    (current, false)
}

fn sign_of(n: i32) -> (sign: i32)
    ensures
        sign == signum(n as int),
{
    if n > 0 {
        1
    } else if n < 0 {
        -1
    } else {
        0
    }
}

fn size_of(n: i32) -> (size: u32)
    requires
        n > i32::MIN,
    ensures
        size == magnitude(n as int),
{
    if n < 0 {
        (-n) as u32
    } else {
        n as u32
    }
}

impl Player {
    pub closed spec fn view(&self) -> PlayerView {
        PlayerView {
            position: self.position,
            collider: self.collider,
            pivot: self.pivot,
            grounded: self.grounded,
            state: self.state,
        }
    }

    /// A player at the origin that idles in the air. Its collider is 8 by 8
    /// pixels and stands centred on the position, which marks the feet.
    pub fn new() -> (player: Self)
        ensures
            player@ == (PlayerView {
                position: Point { x: 0, y: 0 },
                collider: Rect { x: 0, y: 0, w: 8, h: 8 },
                pivot: Point { x: -4i32, y: -8i32 },
                grounded: false,
                state: State::Idle,
            }),
    {
        Player {
            position: Point { x: 0, y: 0 },
            collider: Rect { x: 0, y: 0, w: 8, h: 8 },
            pivot: Point { x: -4, y: -8 },
            grounded: false,
            state: State::Idle,
        }
    }

    /// Where the player stands: the point between its feet.
    pub fn get_position(&self) -> (position: Point)
        ensures
            position == self@.position,
    {
        self.position
    }

    /// Puts the player at `position`.
    pub fn set_position(&mut self, position: Point)
        ensures
            final(self)@ == (PlayerView { position, ..old(self)@ }),
    {
        self.position = position;
    }

    /// What the player does.
    pub fn state(&self) -> (state: State)
        ensures
            state == self@.state,
    {
        self.state
    }

    /// Whether the player stands on a solid tile.
    pub fn grounded(&self) -> (grounded: bool)
        ensures
            grounded == self@.grounded,
    {
        self.grounded
    }

    /// Takes the keys of one frame. `looping` says whether the animation
    /// that is played has run to its end.
    pub fn steer(&mut self, looping: bool, controls: Controls) -> (steering: Steering)
        ensures
            steering == old(self)@.steering(looping, controls),
            final(self)@ == (PlayerView { state: old(self)@.steered_state(looping, controls), ..old(self)@ }),
    {
        if looping {
            self.state = State::Idle;
        }
        let mut steering = Steering { run: 0, jump: false, flip_x: None };
        if self.state != State::Attack {
            if controls.right {
                steering.run = 1;
                steering.flip_x = Some(false);
                self.state = State::Run;
            }
            if controls.left {
                steering.run = -1;
                steering.flip_x = Some(true);
                self.state = State::Run;
            }
            if controls.jump && self.grounded {
                steering.jump = true;
            }
        }
        if controls.attack {
            self.state = State::Attack;
        }
        steering
    }

    /// Moves the player by `to_move` through `room`, first along the y
    /// axis, then along the x axis, pixel by pixel, and stops it along an
    /// axis before the first pixel that would bring it onto a solid tile.
    pub fn advance(&mut self, room: &Room, to_move: Point) -> (contact: Contact)
        requires
            old(self)@.within_reach(to_move),
        ensures
            final(self)@ == old(self)@.advanced(room, to_move),
            contact == old(self)@.contact(room, to_move),
    {
        let placed = Rect {
            x: self.position.x + self.pivot.x,
            y: self.position.y + self.pivot.y,
            w: self.collider.w,
            h: self.collider.h,
        };
        proof {
            lemma_slide_stays_near(room, placed, 0, signum(to_move.y as int), magnitude(to_move.y as int));
        }
        let (after_y, blocked_y) = slide_through(room, placed, 0, sign_of(to_move.y), size_of(to_move.y));
        proof {
            lemma_slide_stays_near(room, after_y, signum(to_move.x as int), 0, magnitude(to_move.x as int));
        }
        let (after_x, blocked_x) = slide_through(room, after_y, sign_of(to_move.x), 0, size_of(to_move.x));
        let below = Rect { x: after_x.x, y: after_x.y + 1, w: after_x.w, h: after_x.h };
        assert(below == shifted(after_x, 0, 1));
        let was_grounded = self.grounded;
        self.collider = after_x;
        self.grounded = room.collides(&below);
        if !self.grounded {
            self.state = State::Jump;
        }
        self.position = Point { x: after_x.x - self.pivot.x, y: after_x.y - self.pivot.y };
        Contact { blocked_y, blocked_x, landed: !was_grounded && self.grounded }
    }

    /// Name of the animation that shows the player's state.
    pub fn animation(&self) -> (name: &'static str)
        ensures
            name@ == match self@.state {
                State::Attack => "ATTACK"@,
                State::Idle => "IDLE"@,
                State::Run => "RUN"@,
                State::Jump => "JUMP"@,
            },
    {
        match self.state {
            State::Attack => "ATTACK",
            State::Idle => "IDLE",
            State::Run => "RUN",
            State::Jump => "JUMP",
        }
    }
}

} // verus!
