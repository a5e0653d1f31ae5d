//! Which keys are down, and which went down in this frame.

use vstd::prelude::*;
use std::collections::HashSet;

verus! {

/// The keys that are held down and the keys that were pressed in the current
/// frame, by key code.
pub struct Keyboard {
    pressed_keys: HashSet<u32>,
    held_keys: HashSet<u32>,
}

/// What a keyboard holds.
pub struct KeyboardView {
    pub pressed: Set<u32>,
    pub held: Set<u32>,
}

impl KeyboardView {
    /// The keyboard after a key-down event for `key`. Such events repeat
    /// while the key stays down: the first marks the key as pressed, the
    /// next takes the mark away, and the key is held from the first on.
    pub open spec fn press(self, key: u32) -> KeyboardView {
        KeyboardView {
            pressed: if self.pressed.contains(key) {
                self.pressed.remove(key)
            } else {
                self.pressed.insert(key)
            },
            held: self.held.insert(key),
        }
    }

    /// The keyboard after a key-up event for `key`.
    pub open spec fn release(self, key: u32) -> KeyboardView {
        KeyboardView { pressed: self.pressed.remove(key), held: self.held.remove(key) }
    }
}

impl Default for Keyboard {
    fn default() -> (keyboard: Self)
        ensures
            keyboard@.pressed == Set::<u32>::empty(),
            keyboard@.held == Set::<u32>::empty(),
    {
        Keyboard { pressed_keys: HashSet::new(), held_keys: HashSet::new() }
    }
}

impl Keyboard {
    pub closed spec fn view(&self) -> KeyboardView {
        KeyboardView { pressed: self.pressed_keys@, held: self.held_keys@ }
    }

    /// A keyboard on which no key is down.
    pub fn new() -> (keyboard: Self)
        ensures
            keyboard@.pressed == Set::<u32>::empty(),
            keyboard@.held == Set::<u32>::empty(),
    {
        Keyboard { pressed_keys: HashSet::new(), held_keys: HashSet::new() }
    }

    /// Whether `key` went down in the current frame.
    pub fn pressed(&self, key: u32) -> (r: bool)
        ensures
            r == self@.pressed.contains(key),
    {
        broadcast use vstd::std_specs::hash::group_hash_axioms;

        self.pressed_keys.contains(&key)
    }

    /// Whether `key` is down.
    pub fn held(&self, key: u32) -> (r: bool)
        ensures
            r == self@.held.contains(key),
    {
        broadcast use vstd::std_specs::hash::group_hash_axioms;

        self.held_keys.contains(&key)
    }

    /// Takes a key-down event for `key`.
    pub fn press(&mut self, key: u32)
        ensures
            final(self)@ == old(self)@.press(key),
    {
        broadcast use vstd::std_specs::hash::group_hash_axioms;

        if self.pressed_keys.contains(&key) {
            self.pressed_keys.remove(&key);
        } else {
            self.pressed_keys.insert(key);
        }
        self.held_keys.insert(key);
    }

    /// Takes a key-up event for `key`.
    pub fn release(&mut self, key: &u32)
        ensures
            final(self)@ == old(self)@.release(*key),
    {
        broadcast use vstd::std_specs::hash::group_hash_axioms;

        self.pressed_keys.remove(key);
        self.held_keys.remove(key);
    }

    /// Starts a frame: no key counts as pressed any more; held keys stay
    /// held.
    pub fn clear_pressed(&mut self)
        ensures
            final(self)@ == (KeyboardView { pressed: Set::empty(), ..old(self)@ }),
    {
        self.pressed_keys.clear();
    }
}

} // verus!
