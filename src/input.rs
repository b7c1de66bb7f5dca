//! Edge-triggered keyboard and mouse-button state.
//!
//! Events update the current snapshot at any time during a frame; the
//! previous frame's snapshot is taken by `clear_frame`, once per frame.
//! Rising and falling edges are read by comparing the two snapshots.
//! Keys are identified by an integer code chosen by the windowing layer.
use std::collections::HashMap;
use vstd::prelude::*;

verus! {

broadcast use vstd::std_specs::hash::group_hash_axioms;

/// Whether a button or key went down or came up.
#[derive(Debug, Copy, Clone, PartialEq, Eq, Structural)]
pub enum ElementState {
    Pressed,
    Released,
}

/// A mouse button.
#[derive(Debug, Copy, Clone, PartialEq, Eq, Structural)]
pub enum MouseButton {
    Left,
    Right,
    Middle,
    Back,
    Forward,
    Other(u16),
}

/// The integer code under which a mouse button's state is kept.
pub open spec fn button_code(button: MouseButton) -> u32 {
    match button {
        MouseButton::Left => 0,
        MouseButton::Right => 1,
        MouseButton::Middle => 2,
        MouseButton::Back => 3,
        MouseButton::Forward => 4,
        MouseButton::Other(n) => (5 + n) as u32,
    }
}

impl MouseButton {
    pub fn code(self) -> (r: u32)
        ensures
            r == button_code(self),
    {
        match self {
            MouseButton::Left => 0,
            MouseButton::Right => 1,
            MouseButton::Middle => 2,
            MouseButton::Back => 3,
            MouseButton::Forward => 4,
            MouseButton::Other(n) => 5 + n as u32,
        }
    }
}

/// Distinct buttons are kept under distinct codes.
pub proof fn lemma_button_code_injective(a: MouseButton, b: MouseButton)
    ensures
        button_code(a) == button_code(b) <==> a == b,
{
}

/// The state recorded for a code; a code never seen is up.
pub open spec fn is_down_in(states: Map<u32, bool>, code: u32) -> bool {
    states.contains_key(code) && states[code]
}

/// Rising edge: up in the previous snapshot, down in the current one.
pub open spec fn rose(last: Map<u32, bool>, now: Map<u32, bool>, code: u32) -> bool {
    !is_down_in(last, code) && is_down_in(now, code)
}

/// Falling edge: down in the previous snapshot, up in the current one.
pub open spec fn fell(last: Map<u32, bool>, now: Map<u32, bool>, code: u32) -> bool {
    is_down_in(last, code) && !is_down_in(now, code)
}

/// The two snapshots of keys and of mouse buttons.
pub struct InputView {
    pub keys: Map<u32, bool>,
    pub last_keys: Map<u32, bool>,
    pub buttons: Map<u32, bool>,
    pub last_buttons: Map<u32, bool>,
}

/// The state after a key event.
pub open spec fn key_event(v: InputView, key: u32, state: ElementState) -> InputView {
    InputView { keys: v.keys.insert(key, state == ElementState::Pressed), ..v }
}

/// The state after a mouse-button event.
pub open spec fn button_event(v: InputView, button: MouseButton, state: ElementState) -> InputView {
    InputView {
        buttons: v.buttons.insert(button_code(button), state == ElementState::Pressed),
        ..v
    }
}

/// The state after the end of a frame: the current snapshots become the previous ones.
pub open spec fn end_frame(v: InputView) -> InputView {
    InputView { last_keys: v.keys, last_buttons: v.buttons, ..v }
}

pub open spec fn key_down(v: InputView, key: u32) -> bool {
    is_down_in(v.keys, key)
}

pub open spec fn key_pressed(v: InputView, key: u32) -> bool {
    rose(v.last_keys, v.keys, key)
}

pub open spec fn key_released(v: InputView, key: u32) -> bool {
    fell(v.last_keys, v.keys, key)
}

/// Keyboard and mouse-button state of the current and of the previous frame.
pub struct Input {
    key_states: HashMap<u32, bool>,
    last_frame_key_states: HashMap<u32, bool>,
    mouse_button_states: HashMap<u32, bool>,
    last_frame_mouse_button_states: HashMap<u32, bool>,
}

impl View for Input {
    type V = InputView;

    closed spec fn view(&self) -> InputView {
        InputView {
            keys: self.key_states@,
            last_keys: self.last_frame_key_states@,
            buttons: self.mouse_button_states@,
            last_buttons: self.last_frame_mouse_button_states@,
        }
    }
}

/// The recorded state of `code` in `states`, up when there is none.
fn state_in(states: &HashMap<u32, bool>, code: u32) -> (r: bool)
    ensures
        r == is_down_in(states@, code),
{
    match states.get(&code) {
        Some(s) => *s,
        None => false,
    }
}

impl Input {
    /// Nothing pressed, in either snapshot.
    pub fn new() -> (r: Input)
        ensures
            r@.keys == Map::<u32, bool>::empty(),
            r@.last_keys == Map::<u32, bool>::empty(),
            r@.buttons == Map::<u32, bool>::empty(),
            r@.last_buttons == Map::<u32, bool>::empty(),
    {
        Input {
            key_states: HashMap::new(),
            last_frame_key_states: HashMap::new(),
            mouse_button_states: HashMap::new(),
            last_frame_mouse_button_states: HashMap::new(),
        }
    }

    pub fn is_key_down(&self, key: u32) -> (r: bool)
        ensures
            r == key_down(self@, key),
    {
        state_in(&self.key_states, key)
    }

    /// Only when the key went from released to pressed since the last frame.
    pub fn was_key_pressed(&self, key: u32) -> (r: bool)
        ensures
            r == key_pressed(self@, key),
    {
        !state_in(&self.last_frame_key_states, key) && state_in(&self.key_states, key)
    }

    /// Only when the key went from pressed to released since the last frame.
    pub fn was_key_released(&self, key: u32) -> (r: bool)
        ensures
            r == key_released(self@, key),
    {
        state_in(&self.last_frame_key_states, key) && !state_in(&self.key_states, key)
    }

    pub fn is_mouse_button_down(&self, button: MouseButton) -> (r: bool)
        ensures
            r == is_down_in(self@.buttons, button_code(button)),
    {
        state_in(&self.mouse_button_states, button.code())
    }

    /// Only when the button went from released to pressed since the last frame.
    pub fn was_mouse_button_pressed(&self, button: MouseButton) -> (r: bool)
        ensures
            r == rose(self@.last_buttons, self@.buttons, button_code(button)),
    {
        let code = button.code();
        !state_in(&self.last_frame_mouse_button_states, code) && state_in(
            &self.mouse_button_states,
            code,
        )
    }

    /// Only when the button went from pressed to released since the last frame.
    pub fn was_mouse_button_released(&self, button: MouseButton) -> (r: bool)
        ensures
            r == fell(self@.last_buttons, self@.buttons, button_code(button)),
    {
        let code = button.code();
        state_in(&self.last_frame_mouse_button_states, code) && !state_in(
            &self.mouse_button_states,
            code,
        )
    }

    /// Records a key event in the current snapshot.
    pub fn handle_keyboard(&mut self, key: u32, state: ElementState)
        ensures
            final(self)@ == key_event(old(self)@, key, state),
    {
        match state {
            ElementState::Pressed => {
                self.key_states.insert(key, true);
            },
            ElementState::Released => {
                self.key_states.insert(key, false);
            },
        }
    }

    /// Records a mouse-button event in the current snapshot.
    pub fn handle_mouse(&mut self, button: MouseButton, state: ElementState)
        ensures
            final(self)@ == button_event(old(self)@, button, state),
    {
        let code = button.code();
        match state {
            ElementState::Pressed => {
                self.mouse_button_states.insert(code, true);
            },
            ElementState::Released => {
                self.mouse_button_states.insert(code, false);
            },
        }
    }

    /// Ends the frame: the current snapshots become the previous frame's.
    /// Right after it no key and no button shows an edge.
    pub fn clear_frame(&mut self)
        ensures
            final(self)@ == end_frame(old(self)@),
            forall|k: u32|
                !key_pressed(final(self)@, k) && !key_released(final(self)@, k),
            forall|c: u32|
                !rose(final(self)@.last_buttons, final(self)@.buttons, c) && !fell(
                    final(self)@.last_buttons,
                    final(self)@.buttons,
                    c,
                ),
    {
        self.last_frame_key_states = self.key_states.clone();
        self.last_frame_mouse_button_states = self.mouse_button_states.clone();
    }
}

/// A key pressed in one frame, held through the next and released in the
/// third shows exactly one rising edge (the first frame), one falling edge
/// (the third), is down in the first two frames, and shows nothing in the
/// frame after.
pub proof fn lemma_press_hold_release(start: InputView, key: u32)
    requires
        !is_down_in(start.last_keys, key),
    ensures
        ({
            let first = key_event(start, key, ElementState::Pressed);
            let second = end_frame(first);
            let third = key_event(end_frame(second), key, ElementState::Released);
            let after = end_frame(third);
            &&& key_pressed(first, key) && key_down(first, key) && !key_released(first, key)
            &&& !key_pressed(second, key) && key_down(second, key) && !key_released(second, key)
            &&& !key_pressed(third, key) && !key_down(third, key) && key_released(third, key)
            &&& !key_pressed(after, key) && !key_down(after, key) && !key_released(after, key)
        }),
{
}

} // verus!
