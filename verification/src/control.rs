//! The camera controller's settings and the intents it is driven by.

use crate::fixed::Vec2;
use crate::fixed::Vec3;
use vstd::prelude::*;

verus! {

/// The settings of a first-person camera controller.
#[derive(Clone, Copy, Debug, PartialEq, Eq, Structural)]
pub struct FpsCameraController {
    /// Only an enabled controller is driven by input.
    pub enabled: bool,
    /// Radians of rotation per unit of pointer motion, for each pointer axis.
    pub mouse_rotate_sensitivity: Vec2,
    /// The distance that one movement key covers in one tick.
    pub translate_sensitivity: i64,
    /// The weight of the previous frame when the camera is smoothed.
    pub smoothing_weight: i64,
}

impl Default for FpsCameraController {
    /// An enabled controller: 0.002 rad per unit of pointer motion, 0.5 per
    /// tick, weight 0.9.
    fn default() -> (controller: Self)
        ensures
            controller == (FpsCameraController {
                enabled: true,
                mouse_rotate_sensitivity: Vec2 { x: 2_000, y: 2_000 },
                translate_sensitivity: 500_000,
                smoothing_weight: 900_000,
            }),
    {
        FpsCameraController {
            enabled: true,
            mouse_rotate_sensitivity: Vec2 { x: 2_000, y: 2_000 },
            translate_sensitivity: 500_000,
            smoothing_weight: 900_000,
        }
    }
}

/// An intent to move the camera, valid for the tick that produced it.
#[derive(Clone, Copy, Debug, PartialEq, Eq, Structural)]
pub enum ControlEvent {
    /// Turn by `x` (yaw) and `y` (pitch) radians. The angles are subtracted.
    Rotate(Vec2),
    /// Move the eye by `x` to the right, `y` up and `z` ahead.
    TranslateEye(Vec3),
}

/// `i` is the first enabled controller of `controllers`.
pub open spec fn is_first_enabled(controllers: Seq<FpsCameraController>, i: int) -> bool {
    &&& 0 <= i < controllers.len()
    &&& controllers[i].enabled
    &&& forall|j: int| 0 <= j < i ==> !(#[trigger] controllers[j]).enabled
}

/// No controller of `controllers` is enabled.
pub open spec fn none_enabled(controllers: Seq<FpsCameraController>) -> bool {
    forall|j: int| 0 <= j < controllers.len() ==> !(#[trigger] controllers[j]).enabled
}

/// Finds the controller that input drives: the first enabled one.
pub fn enabled_controller(controllers: &Vec<FpsCameraController>) -> (found: Option<usize>)
    ensures
        match found {
            Some(i) => is_first_enabled(controllers@, i as int),
            None => none_enabled(controllers@),
        },
{
    let mut i: usize = 0;
    while i < controllers.len()
        invariant
            i <= controllers.len(),
            forall|j: int| 0 <= j < i ==> !(#[trigger] controllers@[j]).enabled,
        decreases controllers.len() - i,
    {
        if controllers[i].enabled {
            return Some(i);
        }
        i += 1;
    }
    None
}

} // verus!
