//! Per-frame decisions taken from the input state: which way the camera is
//! asked to move, window mode toggling and cursor capture.
use crate::input::{
    button_code, fell, is_down_in, key_down, key_pressed, rose, Input, MouseButton,
};
use vstd::prelude::*;

verus! {

/// The engine's options, chosen by its embedder.
#[derive(Debug, Copy, Clone, PartialEq, Eq, Structural)]
pub struct EngineConfig {
    pub fullscreen: bool,
    pub vsync: bool,
}

impl EngineConfig {
    pub fn new(fullscreen: bool, vsync: bool) -> (r: EngineConfig)
        ensures
            r == (EngineConfig { fullscreen, vsync }),
    {
        EngineConfig { fullscreen, vsync }
    }
}

impl Default for EngineConfig {
    /// Windowed, without vertical sync.
    fn default() -> (r: EngineConfig)
        ensures
            r == (EngineConfig { fullscreen: false, vsync: false }),
    {
        EngineConfig::new(false, false)
    }
}

/// What to do with the mouse cursor this frame.
#[derive(Debug, Copy, Clone, PartialEq, Eq, Structural)]
pub enum CursorAction {
    Keep,
    /// The look button went down: remember where the cursor is.
    SavePosition,
    /// The look button came up: put the cursor back where it was.
    RestorePosition,
}

/// The window changes asked for by this frame's input.
#[derive(Debug, Copy, Clone, PartialEq, Eq, Structural)]
pub struct WindowActions {
    /// The new fullscreen state, when it changes.
    pub set_fullscreen: Option<bool>,
    /// The cursor is hidden while the look button is held.
    pub cursor_visible: bool,
    pub cursor: CursorAction,
}

impl EngineConfig {
    /// Toggles fullscreen on a press of `fullscreen_key` and decides cursor
    /// capture from `look_button`.
    pub fn window_actions(
        &mut self,
        input: &Input,
        fullscreen_key: u32,
        look_button: MouseButton,
    ) -> (r: WindowActions)
        ensures
            key_pressed(input@, fullscreen_key) ==> final(self).fullscreen == !old(
                self,
            ).fullscreen && r.set_fullscreen == Some(final(self).fullscreen),
            !key_pressed(input@, fullscreen_key) ==> final(self).fullscreen == old(
                self,
            ).fullscreen && r.set_fullscreen == None::<bool>,
            final(self).vsync == old(self).vsync,
            r.cursor_visible == !is_down_in(input@.buttons, button_code(look_button)),
            r.cursor == if rose(input@.last_buttons, input@.buttons, button_code(look_button)) {
                CursorAction::SavePosition
            } else if fell(input@.last_buttons, input@.buttons, button_code(look_button)) {
                CursorAction::RestorePosition
            } else {
                CursorAction::Keep
            },
    {
        let mut set_fullscreen: Option<bool> = None;
        if input.was_key_pressed(fullscreen_key) {
            self.fullscreen = !self.fullscreen;
            set_fullscreen = Some(self.fullscreen);
        }
        let cursor = if input.was_mouse_button_pressed(look_button) {
            CursorAction::SavePosition
        } else if input.was_mouse_button_released(look_button) {
            CursorAction::RestorePosition
        } else {
            CursorAction::Keep
        };
        WindowActions {
            set_fullscreen,
            cursor_visible: !input.is_mouse_button_down(look_button),
            cursor,
        }
    }
}

/// The keys and the button that drive the camera.
#[derive(Debug, Copy, Clone, PartialEq, Eq, Structural)]
pub struct CameraBindings {
    pub look: MouseButton,
    pub forward: u32,
    pub back: u32,
    pub left: u32,
    pub right: u32,
    pub up: u32,
    pub down: u32,
    pub fast: u32,
    pub slow: u32,
}

/// How the camera is asked to move this frame. Each axis is -1, 0 or +1 and
/// is taken along the camera's own direction; `fast` doubles the speed and
/// `slow` halves it.
#[derive(Debug, Copy, Clone, PartialEq, Eq, Structural)]
pub struct CameraIntent {
    /// The look button is held: the camera turns with the mouse and moves.
    pub active: bool,
    pub forward: i8,
    pub right: i8,
    pub up: i8,
    pub fast: bool,
    pub slow: bool,
}

/// +1 for the positive key alone, -1 for the negative one alone, else 0.
pub open spec fn axis_of(positive: bool, negative: bool) -> int {
    (if positive {
        1int
    } else {
        0int
    }) - (if negative {
        1int
    } else {
        0int
    })
}

fn axis(positive: bool, negative: bool) -> (r: i8)
    ensures
        r == axis_of(positive, negative),
{
    let mut r: i8 = if positive {
        1
    } else {
        0
    };
    if negative {
        r = r - 1;
    }
    r
}

/// The camera intent for the current input; nothing moves unless the look
/// button is held.
pub fn camera_intent(input: &Input, bindings: &CameraBindings) -> (r: CameraIntent)
    ensures
        r.active == is_down_in(input@.buttons, button_code(bindings.look)),
        r.active ==> {
            &&& r.forward == axis_of(
                key_down(input@, bindings.forward),
                key_down(input@, bindings.back),
            )
            &&& r.right == axis_of(key_down(input@, bindings.right), key_down(input@, bindings.left))
            &&& r.up == axis_of(key_down(input@, bindings.up), key_down(input@, bindings.down))
            &&& r.fast == key_down(input@, bindings.fast)
            &&& r.slow == key_down(input@, bindings.slow)
        },
        !r.active ==> r.forward == 0 && r.right == 0 && r.up == 0 && !r.fast && !r.slow,
{
    if !input.is_mouse_button_down(bindings.look) {
        return CameraIntent { active: false, forward: 0, right: 0, up: 0, fast: false, slow: false };
    }
    CameraIntent {
        active: true,
        forward: axis(input.is_key_down(bindings.forward), input.is_key_down(bindings.back)),
        right: axis(input.is_key_down(bindings.right), input.is_key_down(bindings.left)),
        up: axis(input.is_key_down(bindings.up), input.is_key_down(bindings.down)),
        fast: input.is_key_down(bindings.fast),
        slow: input.is_key_down(bindings.slow),
    }
}

} // verus!
