//! The keyboard and mouse-button state, as Bevy reports it.
//!
//! Bevy's `Input` is kept as it is. What it holds is specified only through
//! the sets named here, and its queries are trusted to answer from those
//! sets; nothing of that is proved.

use bevy::input::keyboard::KeyCode;
use bevy::input::mouse::MouseButton;
use bevy::input::Input;
use vstd::prelude::*;

verus! {

/// `bevy::input::keyboard::KeyCode`, declared with its variants, which the
/// key bindings name.
#[verifier::external_type_specification]
pub struct ExKeyCode(bevy::input::keyboard::KeyCode);

/// `bevy::input::mouse::MouseButton`, declared with its variants.
#[verifier::external_type_specification]
pub struct ExMouseButton(bevy::input::mouse::MouseButton);

/// `bevy::input::Input`, whose fields are private: what it holds is named by
/// [`held_keys`], [`fresh_keys`] and [`fresh_buttons`].
#[verifier::external_type_specification]
#[verifier::external_body]
#[verifier::reject_recursive_types(T)]
pub struct ExInput<T: Eq + std::hash::Hash>(bevy::input::Input<T>);

/// The keys that are down: the set that `Input::press` adds to and
/// `Input::release` removes from.
pub uninterp spec fn held_keys(keyboard: Input<KeyCode>) -> Set<KeyCode>;

/// The keys that went down since the state was last cleared: the set that
/// `Input::press` adds a key to when the key was not down before.
pub uninterp spec fn fresh_keys(keyboard: Input<KeyCode>) -> Set<KeyCode>;

/// The mouse buttons that went down since the state was last cleared.
pub uninterp spec fn fresh_buttons(buttons: Input<MouseButton>) -> Set<MouseButton>;

/// `Input::pressed` on a keyboard: a membership test on the set of keys that
/// are down. Trusted.
#[verifier::external_body]
pub(crate) fn key_pressed(keyboard: &Input<KeyCode>, key: KeyCode) -> (down: bool)
    ensures
        down == held_keys(*keyboard).contains(key),
{
    keyboard.pressed(key)
}

/// `Input::just_pressed` on a keyboard: a membership test on the set of keys
/// that went down since the last clear. Trusted.
#[verifier::external_body]
pub(crate) fn key_just_pressed(keyboard: &Input<KeyCode>, key: KeyCode) -> (fresh: bool)
    ensures
        fresh == fresh_keys(*keyboard).contains(key),
{
    keyboard.just_pressed(key)
}

/// `Input::just_pressed` on the mouse buttons: a membership test on the set
/// of buttons that went down since the last clear. Trusted.
#[verifier::external_body]
pub(crate) fn button_just_pressed(buttons: &Input<MouseButton>, button: MouseButton) -> (fresh: bool)
    ensures
        fresh == fresh_buttons(*buttons).contains(button),
{
    buttons.just_pressed(button)
}

} // verus!
