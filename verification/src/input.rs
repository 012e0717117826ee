//! Double-buffered keyboard state.
//!
//! The manager keeps the key states of the current frame and a snapshot of
//! the previous frame. The snapshot is taken by one explicit swap call at
//! the tick boundary, which makes "pressed this frame" and "released this
//! frame" edge queries well-defined within a tick. `Escape` is reserved:
//! pressing it signals loop termination and is not recorded as key state.

use vstd::pervasive::VecAdditionalExecFns;
use vstd::prelude::*;

verus! {

/// Number of keys the engine binds.
pub const KEY_COUNT: usize = 7;

/// A key the engine interprets. The windowing layer translates its native
/// key codes into these; unbound keys never reach the manager.
#[derive(Clone, Copy, Debug, PartialEq, Eq, Structural)]
pub enum Key {
    KeyW,
    KeyA,
    KeyS,
    KeyD,
    KeyQ,
    KeyE,
    Escape,
}

/// Slot of a key in the state buffers.
pub open spec fn key_index_spec(key: Key) -> int {
    match key {
        Key::KeyW => 0,
        Key::KeyA => 1,
        Key::KeyS => 2,
        Key::KeyD => 3,
        Key::KeyQ => 4,
        Key::KeyE => 5,
        Key::Escape => 6,
    }
}

/// What the engine loop should do with a key event.
#[derive(Clone, Copy, Debug, PartialEq, Eq, Structural)]
pub enum InputAction {
    /// The event was recorded as key state.
    Handled,
    /// The reserved exit key was pressed: terminate the loop.
    Exit,
}

/// Double-buffered keyboard state.
pub struct InputManager {
    curr_frame_keys: Vec<bool>,
    previous_frame_keys: Vec<bool>,
}

impl InputManager {
    /// Key states of the current frame.
    pub closed spec fn curr(self) -> Seq<bool> {
        self.curr_frame_keys@
    }

    /// Snapshot of the key states at the previous tick boundary.
    pub closed spec fn prev(self) -> Seq<bool> {
        self.previous_frame_keys@
    }

    /// Both buffers hold one slot per bound key.
    pub open spec fn wf(self) -> bool {
        self.curr().len() == KEY_COUNT && self.prev().len() == KEY_COUNT
    }

    /// Whether a key is down in the current frame.
    pub open spec fn pressed(self, key: Key) -> bool {
        self.curr()[key_index_spec(key)]
    }

    /// Whether a key went down since the previous snapshot.
    pub open spec fn pressed_this_frame(self, key: Key) -> bool {
        !self.prev()[key_index_spec(key)] && self.curr()[key_index_spec(key)]
    }

    /// Whether a key went up since the previous snapshot.
    pub open spec fn released_this_frame(self, key: Key) -> bool {
        self.prev()[key_index_spec(key)] && !self.curr()[key_index_spec(key)]
    }

    /// A fresh manager: no key is down, no edge is pending.
    pub fn new() -> (m: InputManager)
        ensures
            m.wf(),
            forall|k: Key| !m.pressed(k),
            forall|k: Key| !m.pressed_this_frame(k) && !m.released_this_frame(k),
    {
        let m = InputManager {
            curr_frame_keys: vec![false; KEY_COUNT],
            previous_frame_keys: vec![false; KEY_COUNT],
        };
        assert forall|k: Key| !m.pressed(k) by {
            assert(0 <= key_index_spec(k) < KEY_COUNT as int);
        }
        assert forall|k: Key| !m.pressed_this_frame(k) && !m.released_this_frame(k) by {
            assert(0 <= key_index_spec(k) < KEY_COUNT as int);
        }
        m
    }

    /// Records one key transition. A press of the reserved exit key is not
    /// recorded; it only signals termination. Any other press marks the key
    /// down; any release (the exit key included) marks it up.
    pub fn process_key(&mut self, key: Key, is_pressed: bool) -> (action: InputAction)
        requires
            old(self).wf(),
        ensures
            final(self).wf(),
            final(self).prev() == old(self).prev(),
            action == InputAction::Exit <==> (key == Key::Escape && is_pressed),
            (key == Key::Escape && is_pressed) ==> final(self).curr() == old(self).curr(),
            !(key == Key::Escape && is_pressed) ==> final(self).curr() == old(self).curr().update(
                key_index_spec(key),
                is_pressed,
            ),
    {
        proof {
            assert(0 <= key_index_spec(key) < KEY_COUNT as int);
        }
        let idx = Self::key_index(key);
        if is_pressed {
            if let Key::Escape = key {
                InputAction::Exit
            } else {
                self.curr_frame_keys.set(idx, true);
                InputAction::Handled
            }
        } else {
            self.curr_frame_keys.set(idx, false);
            InputAction::Handled
        }
    }

    /// Whether a key is down in the current frame.
    pub fn is_key_pressed(&self, key: Key) -> (r: bool)
        requires
            self.wf(),
        ensures
            r == self.pressed(key),
    {
        proof {
            assert(0 <= key_index_spec(key) < KEY_COUNT as int);
        }
        self.curr_frame_keys[Self::key_index(key)]
    }

    /// Whether a key went down since the previous snapshot.
    pub fn was_key_pressed_this_frame(&self, key: Key) -> (r: bool)
        requires
            self.wf(),
        ensures
            r == self.pressed_this_frame(key),
    {
        proof {
            assert(0 <= key_index_spec(key) < KEY_COUNT as int);
        }
        let idx = Self::key_index(key);
        !self.previous_frame_keys[idx] && self.curr_frame_keys[idx]
    }

    /// Whether a key went up since the previous snapshot.
    pub fn was_key_released_this_frame(&self, key: Key) -> (r: bool)
        requires
            self.wf(),
        ensures
            r == self.released_this_frame(key),
    {
        proof {
            assert(0 <= key_index_spec(key) < KEY_COUNT as int);
        }
        let idx = Self::key_index(key);
        self.previous_frame_keys[idx] && !self.curr_frame_keys[idx]
    }

    /// Takes the tick-boundary snapshot: the current states become the
    /// previous states, so edge queries of the new tick start clean.
    pub fn clear_frame_state(&mut self)
        requires
            old(self).wf(),
        ensures
            final(self).wf(),
            final(self).curr() == old(self).curr(),
            final(self).prev() == old(self).curr(),
    {
        self.previous_frame_keys = self.curr_frame_keys.clone();
        assert(self.previous_frame_keys@ =~= self.curr_frame_keys@);
    }

    /// Slot of a key in the state buffers.
    fn key_index(key: Key) -> (i: usize)
        ensures
            i as int == key_index_spec(key),
            i < KEY_COUNT,
    {
        match key {
            Key::KeyW => 0,
            Key::KeyA => 1,
            Key::KeyS => 2,
            Key::KeyD => 3,
            Key::KeyQ => 4,
            Key::KeyE => 5,
            Key::Escape => 6,
        }
    }
}

} // verus!
