//! The input mapper: from the state of the devices to control events.

use crate::control::enabled_controller;
use crate::control::is_first_enabled;
use crate::control::none_enabled;
use crate::control::ControlEvent;
use crate::control::FpsCameraController;
use crate::device::held_keys;
use crate::device::key_pressed;
use crate::fixed::rescaled;
use crate::fixed::saturate;
use crate::fixed::saturating_product;
use crate::fixed::scaled_product;
use crate::fixed::Vec2;
use crate::fixed::Vec3;
use bevy::input::keyboard::KeyCode;
use bevy::input::Input;
use vstd::prelude::*;

verus! {

/// Which of the movement keys are down.
#[derive(Clone, Copy, Debug, PartialEq, Eq, Structural)]
pub struct MovementKeys {
    pub forward: bool,
    pub left: bool,
    pub back: bool,
    pub right: bool,
    /// The modifier that doubles the speed of all four directions.
    pub run: bool,
}

/// The default bindings: `W`, `A`, `S` and `D` move, left shift runs.
pub open spec fn bound_keys(held: Set<KeyCode>) -> MovementKeys {
    MovementKeys {
        forward: held.contains(KeyCode::W),
        left: held.contains(KeyCode::A),
        back: held.contains(KeyCode::S),
        right: held.contains(KeyCode::D),
        run: held.contains(KeyCode::LShift),
    }
}

/// The sum of the `x` components of `samples`.
pub open spec fn total_x(samples: Seq<Vec2>) -> int
    decreases samples.len(),
{
    if samples.len() == 0 {
        0
    } else {
        total_x(samples.drop_last()) + samples.last().x
    }
}

/// The sum of the `y` components of `samples`.
pub open spec fn total_y(samples: Seq<Vec2>) -> int
    decreases samples.len(),
{
    if samples.len() == 0 {
        0
    } else {
        total_y(samples.drop_last()) + samples.last().y
    }
}

/// The one rotation of a tick: the summed pointer motion times the
/// sensitivity of each axis.
pub open spec fn rotation(controller: FpsCameraController, motion: Seq<Vec2>) -> ControlEvent {
    ControlEvent::Rotate(
        Vec2 {
            x: saturate(rescaled(controller.mouse_rotate_sensitivity.x * total_x(motion))),
            y: saturate(rescaled(controller.mouse_rotate_sensitivity.y * total_y(motion))),
        },
    )
}

/// The speed modifier: 2 while running, else 1.
pub open spec fn speed_modifier(run: bool) -> int {
    if run {
        2
    } else {
        1
    }
}

/// The length of one step along an axis, in the direction of `sign`.
pub open spec fn step(controller: FpsCameraController, run: bool, sign: int) -> i64 {
    saturate(sign * speed_modifier(run) * controller.translate_sensitivity)
}

/// The translation that a held key asks for: nothing if it is up.
pub open spec fn translation(held: bool, delta: Vec3) -> Seq<ControlEvent> {
    if held {
        seq![ControlEvent::TranslateEye(delta)]
    } else {
        Seq::empty()
    }
}

/// The translations of a tick, one per held movement key, in the order
/// forward, left, back, right. Forward is `+z`, left is `+x`.
pub open spec fn translations(controller: FpsCameraController, keys: MovementKeys) -> Seq<
    ControlEvent,
> {
    let ahead = step(controller, keys.run, 1);
    let behind = step(controller, keys.run, -1);
    translation(keys.forward, Vec3 { x: 0, y: 0, z: ahead })
        + translation(keys.left, Vec3 { x: ahead, y: 0, z: 0 })
        + translation(keys.back, Vec3 { x: 0, y: 0, z: behind })
        + translation(keys.right, Vec3 { x: behind, y: 0, z: 0 })
}

/// All events of a tick under `controller`: the rotation, then the
/// translations.
pub open spec fn events_of(
    controller: FpsCameraController,
    keys: MovementKeys,
    motion: Seq<Vec2>,
) -> Seq<ControlEvent> {
    seq![rotation(controller, motion)] + translations(controller, keys)
}

/// Sums the pointer motion of a tick. The sums are exact.
fn total_motion(motion: &Vec<Vec2>) -> (total: (i128, i128))
    ensures
        total.0 == total_x(motion@),
        total.1 == total_y(motion@),
{
    let mut sum_x: i128 = 0;
    let mut sum_y: i128 = 0;
    let mut i: usize = 0;
    while i < motion.len()
        invariant
            i <= motion.len(),
            sum_x == total_x(motion@.take(i as int)),
            sum_y == total_y(motion@.take(i as int)),
            -(i * 0x8000_0000_0000_0000) <= sum_x <= i * 0x8000_0000_0000_0000,
            -(i * 0x8000_0000_0000_0000) <= sum_y <= i * 0x8000_0000_0000_0000,
        decreases motion.len() - i,
    {
        assert(motion@.take(i + 1).drop_last() == motion@.take(i as int));
        sum_x = sum_x + motion[i].x as i128;
        sum_y = sum_y + motion[i].y as i128;
        i += 1;
    }
    assert(motion@.take(i as int) == motion@);
    (sum_x, sum_y)
}

/// Maps the state of the devices to the control events of one tick.
///
/// Without an enabled controller there are no events. Otherwise the first
/// enabled controller yields exactly one rotation, also when the pointer did
/// not move, followed by one translation for each held movement key.
/// `motion` holds the pointer samples since the last tick.
pub fn input_events(
    controllers: &Vec<FpsCameraController>,
    keys: MovementKeys,
    motion: &Vec<Vec2>,
) -> (events: Vec<ControlEvent>)
    ensures
        none_enabled(controllers@) ==> events@ == Seq::<ControlEvent>::empty(),
        forall|i: int|
            is_first_enabled(controllers@, i) ==> events@ == events_of(
                controllers@[i],
                keys,
                motion@,
            ),
{
    let mut events: Vec<ControlEvent> = Vec::new();
    let controller = match enabled_controller(controllers) {
        Some(i) => controllers[i],
        None => {
            return events;
        },
    };
    let (sum_x, sum_y) = total_motion(motion);
    events.push(
        ControlEvent::Rotate(
            Vec2 {
                x: scaled_product(controller.mouse_rotate_sensitivity.x, sum_x),
                y: scaled_product(controller.mouse_rotate_sensitivity.y, sum_y),
            },
        ),
    );
    let speed: i64 = if keys.run {
        2
    } else {
        1
    };
    let ahead: i64 = saturating_product(speed, controller.translate_sensitivity as i128);
    let behind: i64 = saturating_product(-speed, controller.translate_sensitivity as i128);
    let ghost turned = events@;
    if keys.forward {
        events.push(ControlEvent::TranslateEye(Vec3 { x: 0, y: 0, z: ahead }));
    }
    let ghost with_forward = events@;
    if keys.left {
        events.push(ControlEvent::TranslateEye(Vec3 { x: ahead, y: 0, z: 0 }));
    }
    let ghost with_left = events@;
    if keys.back {
        events.push(ControlEvent::TranslateEye(Vec3 { x: 0, y: 0, z: behind }));
    }
    let ghost with_back = events@;
    if keys.right {
        events.push(ControlEvent::TranslateEye(Vec3 { x: behind, y: 0, z: 0 }));
    }
    proof {
        assert(turned == seq![rotation(controller, motion@)]);
        assert(with_forward == turned + translation(
            keys.forward,
            Vec3 { x: 0, y: 0, z: ahead },
        ));
        assert(with_left == with_forward + translation(
            keys.left,
            Vec3 { x: ahead, y: 0, z: 0 },
        ));
        assert(with_back == with_left + translation(
            keys.back,
            Vec3 { x: 0, y: 0, z: behind },
        ));
        assert(events@ == with_back + translation(
            keys.right,
            Vec3 { x: behind, y: 0, z: 0 },
        ));
        assert(events@ == events_of(controller, keys, motion@));
    }
    events
}

/// The input mapper under the default key bindings: reads the movement keys
/// from the keyboard and maps them as [`input_events`] does.
pub fn default_input_map(
    controllers: &Vec<FpsCameraController>,
    keyboard: &Input<KeyCode>,
    motion: &Vec<Vec2>,
) -> (events: Vec<ControlEvent>)
    ensures
        none_enabled(controllers@) ==> events@ == Seq::<ControlEvent>::empty(),
        forall|i: int|
            is_first_enabled(controllers@, i) ==> events@ == events_of(
                controllers@[i],
                bound_keys(held_keys(*keyboard)),
                motion@,
            ),
{
    let keys = MovementKeys {
        forward: key_pressed(keyboard, KeyCode::W),
        left: key_pressed(keyboard, KeyCode::A),
        back: key_pressed(keyboard, KeyCode::S),
        right: key_pressed(keyboard, KeyCode::D),
        run: key_pressed(keyboard, KeyCode::LShift),
    };
    input_events(controllers, keys, motion)
}

} // verus!
