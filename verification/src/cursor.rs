//! Cursor capture: a click into the window takes the pointer, escape gives
//! it back.

use crate::device::button_just_pressed;
use crate::device::fresh_buttons;
use crate::device::fresh_keys;
use crate::device::key_just_pressed;
use bevy::input::keyboard::KeyCode;
use bevy::input::mouse::MouseButton;
use bevy::input::Input;
use vstd::prelude::*;

verus! {

/// Whether the pointer is locked to the window, and whether it shows.
#[derive(Clone, Copy, Debug, PartialEq, Eq, Structural)]
pub struct CursorState {
    pub locked: bool,
    pub visible: bool,
}

impl CursorState {
    /// The pointer is locked to the window and hidden.
    pub open spec fn captured() -> CursorState {
        CursorState { locked: true, visible: false }
    }

    /// The pointer is free and shows.
    pub open spec fn released() -> CursorState {
        CursorState { locked: false, visible: true }
    }

    /// This state after one tick. A click captures the pointer unless an
    /// overlay has the input focus; escape releases it in any case, also in
    /// the tick of a click.
    pub open spec fn after(self, clicked: bool, escaped: bool, overlay_active: bool) -> CursorState {
        if escaped {
            CursorState::released()
        } else if clicked && !overlay_active {
            CursorState::captured()
        } else {
            self
        }
    }
}

/// Updates the cursor from what went down this tick: the left mouse button
/// (`clicked`) and the escape key (`escaped`).
pub fn update_cursor(cursor: &mut CursorState, clicked: bool, escaped: bool, overlay_active: bool)
    ensures
        *final(cursor) == old(cursor).after(clicked, escaped, overlay_active),
{
    if clicked && !overlay_active {
        cursor.locked = true;
        cursor.visible = false;
    }
    if escaped {
        cursor.locked = false;
        cursor.visible = true;
    }
}

/// Captures the pointer when the left mouse button went down this tick and
/// no overlay has the input focus, and releases it when the escape key went
/// down.
pub fn grab_cursor(
    cursor: &mut CursorState,
    buttons: &Input<MouseButton>,
    keyboard: &Input<KeyCode>,
    overlay_active: bool,
)
    ensures
        *final(cursor) == old(cursor).after(
            fresh_buttons(*buttons).contains(MouseButton::Left),
            fresh_keys(*keyboard).contains(KeyCode::Escape),
            overlay_active,
        ),
{
    let clicked = button_just_pressed(buttons, MouseButton::Left);
    let escaped = key_just_pressed(keyboard, KeyCode::Escape);
    update_cursor(cursor, clicked, escaped, overlay_active);
}

/// Pressing again changes nothing: a tick that shows the same presses as the
/// tick before leaves the cursor as that tick left it.
pub proof fn lemma_repeated_press_keeps_cursor(
    cursor: CursorState,
    clicked: bool,
    escaped: bool,
    overlay_active: bool,
)
    ensures
        cursor.after(clicked, escaped, overlay_active).after(clicked, escaped, overlay_active)
            == cursor.after(clicked, escaped, overlay_active),
{
}

} // verus!
