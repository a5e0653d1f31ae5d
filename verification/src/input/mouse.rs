//! The buttons of the mouse and the history of the left button.

use vstd::prelude::*;

verus! {

/// A button of the mouse, as the window system names it.
#[derive(Clone, Copy, Debug, PartialEq, Eq, Structural)]
pub enum MouseButton {
    Unknown,
    Left,
    Middle,
    Right,
    X1,
    X2,
}

/// The state of the mouse buttons. `left_history` holds one bit per frame
/// for the left button, the current frame in the lowest bit: set if the
/// button was down when the frame began.
#[derive(Clone, Copy, Debug, PartialEq, Eq, Structural)]
pub struct Mouse {
    pub left: bool,
    pub right: bool,
    pub right_held: bool,
    pub left_history: u8,
    /// Set once a click of the left button was used up: for the rest of the
    /// frame the button counts as neither clicked nor held.
    pub left_consumed: bool,
}

/// Whether the left button was down `frames_ago` frames ago.
pub open spec fn was_down(history: u8, frames_ago: u8) -> bool
    recommends
        frames_ago < 8,
{
    (history >> frames_ago) & 1 == 1
}

/// Whether the left button went down `frames` frames ago, after a frame in
/// which it was up, stayed down since, and is up in the current frame.
pub open spec fn released_after(history: u8, frames: u8) -> bool
    recommends
        1 <= frames <= 6,
{
    &&& !was_down(history, 0)
    &&& forall|ago: u8| 1 <= ago <= frames ==> was_down(history, ago)
    &&& !was_down(history, (frames + 1) as u8)
}

/// Whether the history shows a click: the button was down for one to six
/// frames in a row and has just come up.
pub open spec fn is_click(history: u8) -> bool {
    exists|frames: u8| 1 <= frames <= 6 && #[trigger] released_after(history, frames)
}

/// Whether the history shows the button down in each of the last four
/// frames.
pub open spec fn is_hold(history: u8) -> bool {
    forall|ago: u8| ago < 4 ==> was_down(history, ago)
}

/// The history after a frame in which the left button was down or not.
pub open spec fn next_history(history: u8, left: bool) -> u8 {
    (history << 1) | if left {
        1u8
    } else {
        0u8
    }
}

/// A frame moves every entry of the history one frame into the past and
/// puts the state of the button in front.
pub proof fn lemma_next_history(history: u8, left: bool)
    ensures
        was_down(next_history(history, left), 0) == left,
        forall|ago: u8| ago < 7 ==> was_down(next_history(history, left), (ago + 1) as u8) == was_down(history, ago),
{
    let next = next_history(history, left);
    let bit: u8 = if left {
        1
    } else {
        0
    };
    assert((((history << 1) | bit) >> 0u8) & 1 == bit) by (bit_vector)
        requires
            bit == 0 || bit == 1,
    ;
    assert forall|ago: u8| ago < 7 implies was_down(next, (ago + 1) as u8) == was_down(history, ago) by {
        let up = (ago + 1) as u8;
        assert((((history << 1) | bit) >> up) & 1 == (history >> ago) & 1) by (bit_vector)
            requires
                bit == 0 || bit == 1,
                ago < 7,
                up == ago + 1,
        ;
    }
}

fn click_pattern(history: u8) -> (r: bool)
    ensures
        r == is_click(history),
{
    let r = history & 0b111 == 0b010 || history & 0b1111 == 0b0110 || history & 0b11111 == 0b01110 || history
        & 0b111111 == 0b011110 || history & 0b1111111 == 0b0111110 || history & 0b11111111 == 0b01111110;
    proof {
        let d0 = was_down(history, 0);
        let d1 = was_down(history, 1);
        let d2 = was_down(history, 2);
        let d3 = was_down(history, 3);
        let d4 = was_down(history, 4);
        let d5 = was_down(history, 5);
        let d6 = was_down(history, 6);
        let d7 = was_down(history, 7);
        assert((history & 0b111 == 0b010) == (!d0 && d1 && !d2)) by (bit_vector)
            requires
                d0 == ((history >> 0u8) & 1 == 1),
                d1 == ((history >> 1u8) & 1 == 1),
                d2 == ((history >> 2u8) & 1 == 1),
        ;
        assert((history & 0b1111 == 0b0110) == (!d0 && d1 && d2 && !d3)) by (bit_vector)
            requires
                d0 == ((history >> 0u8) & 1 == 1),
                d1 == ((history >> 1u8) & 1 == 1),
                d2 == ((history >> 2u8) & 1 == 1),
                d3 == ((history >> 3u8) & 1 == 1),
        ;
        assert((history & 0b11111 == 0b01110) == (!d0 && d1 && d2 && d3 && !d4)) by (bit_vector)
            requires
                d0 == ((history >> 0u8) & 1 == 1),
                d1 == ((history >> 1u8) & 1 == 1),
                d2 == ((history >> 2u8) & 1 == 1),
                d3 == ((history >> 3u8) & 1 == 1),
                d4 == ((history >> 4u8) & 1 == 1),
        ;
        assert((history & 0b111111 == 0b011110) == (!d0 && d1 && d2 && d3 && d4 && !d5)) by (bit_vector)
            requires
                d0 == ((history >> 0u8) & 1 == 1),
                d1 == ((history >> 1u8) & 1 == 1),
                d2 == ((history >> 2u8) & 1 == 1),
                d3 == ((history >> 3u8) & 1 == 1),
                d4 == ((history >> 4u8) & 1 == 1),
                d5 == ((history >> 5u8) & 1 == 1),
        ;
        assert((history & 0b1111111 == 0b0111110) == (!d0 && d1 && d2 && d3 && d4 && d5 && !d6))
            by (bit_vector)
            requires
                d0 == ((history >> 0u8) & 1 == 1),
                d1 == ((history >> 1u8) & 1 == 1),
                d2 == ((history >> 2u8) & 1 == 1),
                d3 == ((history >> 3u8) & 1 == 1),
                d4 == ((history >> 4u8) & 1 == 1),
                d5 == ((history >> 5u8) & 1 == 1),
                d6 == ((history >> 6u8) & 1 == 1),
        ;
        assert((history & 0b11111111 == 0b01111110) == (!d0 && d1 && d2 && d3 && d4 && d5 && d6 && !d7))
            by (bit_vector)
            requires
                d0 == ((history >> 0u8) & 1 == 1),
                d1 == ((history >> 1u8) & 1 == 1),
                d2 == ((history >> 2u8) & 1 == 1),
                d3 == ((history >> 3u8) & 1 == 1),
                d4 == ((history >> 4u8) & 1 == 1),
                d5 == ((history >> 5u8) & 1 == 1),
                d6 == ((history >> 6u8) & 1 == 1),
                d7 == ((history >> 7u8) & 1 == 1),
        ;
        if r {
            let frames: u8 = if !d2 {
                1
            } else if !d3 {
                2
            } else if !d4 {
                3
            } else if !d5 {
                4
            } else if !d6 {
                5
            } else {
                6
            };
            assert(released_after(history, frames));
        } else {
            assert forall|frames: u8| 1 <= frames <= 6 implies !#[trigger] released_after(history, frames) by {
                if released_after(history, frames) {
                    assert(was_down(history, 1));
                    if frames >= 2 {
                        assert(was_down(history, 2));
                    }
                    if frames >= 3 {
                        assert(was_down(history, 3));
                    }
                    if frames >= 4 {
                        assert(was_down(history, 4));
                    }
                    if frames >= 5 {
                        assert(was_down(history, 5));
                    }
                    if frames >= 6 {
                        assert(was_down(history, 6));
                    }
                }
            }
        }
    }
    r
}

impl Default for Mouse {
    fn default() -> (mouse: Self)
        ensures
            mouse == (Mouse {
                left: false,
                right: false,
                right_held: false,
                left_history: 0,
                left_consumed: false,
            }),
    {
        Mouse { left: false, right: false, right_held: false, left_history: 0, left_consumed: false }
    }
}

impl Mouse {
    /// A mouse on which no button is down and none ever was.
    pub fn new() -> (mouse: Self)
        ensures
            mouse == (Mouse {
                left: false,
                right: false,
                right_held: false,
                left_history: 0,
                left_consumed: false,
            }),
    {
        Mouse { left: false, right: false, right_held: false, left_history: 0, left_consumed: false }
    }

    /// Whether the left button was clicked: held down for one to six frames
    /// and released just now, and the click not used up yet.
    pub fn left_clicked(&self) -> (r: bool)
        ensures
            r == (!self.left_consumed && is_click(self.left_history)),
    {
        if self.left_consumed {
            return false;
        }
        click_pattern(self.left_history)
    }

    /// Whether the left button has been down for four frames, and no click
    /// was used up in this frame.
    pub fn left_held(&self) -> (r: bool)
        ensures
            r == (!self.left_consumed && is_hold(self.left_history)),
    {
        if self.left_consumed {
            return false;
        }
        let history = self.left_history;
        let r = history & 0b1111 == 0b1111;
        proof {
            let d0 = was_down(history, 0);
            let d1 = was_down(history, 1);
            let d2 = was_down(history, 2);
            let d3 = was_down(history, 3);
            assert((history & 0b1111 == 0b1111) == (d0 && d1 && d2 && d3)) by (bit_vector)
                requires
                    d0 == ((history >> 0u8) & 1 == 1),
                    d1 == ((history >> 1u8) & 1 == 1),
                    d2 == ((history >> 2u8) & 1 == 1),
                    d3 == ((history >> 3u8) & 1 == 1),
            ;
            if r {
                assert forall|ago: u8| ago < 4 implies was_down(history, ago) by {
                    assert(ago == 0 || ago == 1 || ago == 2 || ago == 3);
                }
            }
        }
        r
    }

    /// Whether the right button went down in this frame and the event was
    /// not used up.
    pub fn right_clicked(&self) -> (r: bool)
        ensures
            r == self.right,
    {
        self.right
    }

    /// Whether the right button is down.
    pub fn right_held(&self) -> (r: bool)
        ensures
            r == self.right_held,
    {
        self.right_held
    }

    /// Uses the click of the left button up, so that nothing else reacts to
    /// it in this frame.
    pub fn consume_left(&mut self)
        ensures
            *final(self) == (Mouse { left_consumed: true, ..*old(self) }),
    {
        self.left_consumed = true;
    }

    /// Uses the click of the right button up.
    pub fn consume_right(&mut self)
        ensures
            *final(self) == (Mouse { right: false, ..*old(self) }),
    {
        self.right = false;
    }

    /// Takes a button-down event.
    pub fn mouse_button_down(&mut self, button: MouseButton)
        ensures
            *final(self) == match button {
                MouseButton::Left => Mouse { left: true, ..*old(self) },
                MouseButton::Right => Mouse { right: true, right_held: true, ..*old(self) },
                _ => *old(self),
            },
    {
        match button {
            MouseButton::Left => {
                self.left = true;
            },
            MouseButton::Right => {
                self.right = true;
                self.right_held = true;
            },
            _ => {},
        }
    }

    /// Takes a button-up event.
    pub fn mouse_button_up(&mut self, button: MouseButton)
        ensures
            *final(self) == match button {
                MouseButton::Left => Mouse { left: false, ..*old(self) },
                MouseButton::Right => Mouse { right: false, right_held: false, ..*old(self) },
                _ => *old(self),
            },
    {
        match button {
            MouseButton::Left => {
                self.left = false;
            },
            MouseButton::Right => {
                self.right = false;
                self.right_held = false;
            },
            _ => {},
        }
    }

    /// Starts a frame: clicks are no longer used up, the right button no
    /// longer counts as clicked, and the state of the left button enters the
    /// history.
    pub fn clear_button_pressed(&mut self)
        ensures
            *final(self) == (Mouse {
                left_consumed: false,
                right: false,
                left_history: next_history(old(self).left_history, old(self).left),
                ..*old(self)
            }),
    {
        self.left_consumed = false;
        self.right = false;
        let bit: u8 = if self.left {
            1
        } else {
            0
        };
        self.left_history = (self.left_history << 1) | bit;
    }
}

} // verus!
