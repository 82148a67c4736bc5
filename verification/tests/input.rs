use bevy::input::keyboard::KeyCode;
use bevy::input::Input;
use darkest::control::ControlEvent;
use darkest::control::FpsCameraController;
use darkest::fixed::Vec2;
use darkest::fixed::Vec3;
use darkest::fixed::ONE;
use darkest::input::default_input_map;
use darkest::input::input_events;
use darkest::input::MovementKeys;

fn no_keys() -> MovementKeys {
    MovementKeys { forward: false, left: false, back: false, right: false, run: false }
}

fn ahead(z: i64) -> ControlEvent {
    ControlEvent::TranslateEye(Vec3 { x: 0, y: 0, z })
}

fn sideways(x: i64) -> ControlEvent {
    ControlEvent::TranslateEye(Vec3 { x, y: 0, z: 0 })
}

#[test]
fn without_an_enabled_controller_nothing_is_mapped() {
    let disabled = FpsCameraController { enabled: false, ..FpsCameraController::default() };
    let keys = MovementKeys { forward: true, left: true, back: true, right: true, run: true };
    let motion = vec![Vec2 { x: 5 * ONE, y: 5 * ONE }];
    assert_eq!(input_events(&Vec::new(), keys, &motion), Vec::new());
    assert_eq!(input_events(&vec![disabled, disabled], keys, &motion), Vec::new());
}

#[test]
fn a_still_pointer_yields_one_zero_rotation() {
    let controllers = vec![FpsCameraController::default()];
    let events = input_events(&controllers, no_keys(), &Vec::new());
    assert_eq!(events, vec![ControlEvent::Rotate(Vec2 { x: 0, y: 0 })]);
}

#[test]
fn the_rotation_is_the_summed_motion_times_the_sensitivity() {
    let controllers = vec![FpsCameraController::default()];
    let motion = vec![
        Vec2 { x: 3 * ONE, y: -4 * ONE },
        Vec2 { x: 2 * ONE, y: ONE },
        Vec2 { x: 500_000, y: 0 },
    ];
    let events = input_events(&controllers, no_keys(), &motion);
    // 0.002 * 5.5 = 0.011 and 0.002 * -3 = -0.006
    assert_eq!(events, vec![ControlEvent::Rotate(Vec2 { x: 11_000, y: -6_000 })]);
}

#[test]
fn each_axis_has_its_own_sensitivity() {
    let controller = FpsCameraController {
        mouse_rotate_sensitivity: Vec2 { x: ONE, y: -3 * ONE },
        ..FpsCameraController::default()
    };
    let motion = vec![Vec2 { x: 100_000, y: 200_000 }];
    let events = input_events(&vec![controller], no_keys(), &motion);
    assert_eq!(events, vec![ControlEvent::Rotate(Vec2 { x: 100_000, y: -600_000 })]);
}

#[test]
fn a_huge_rotation_saturates() {
    let controller = FpsCameraController {
        mouse_rotate_sensitivity: Vec2 { x: 2 * ONE, y: 2 * ONE },
        ..FpsCameraController::default()
    };
    let motion = vec![Vec2 { x: i64::MAX, y: i64::MIN }, Vec2 { x: i64::MAX, y: i64::MIN }];
    let events = input_events(&vec![controller], no_keys(), &motion);
    assert_eq!(events, vec![ControlEvent::Rotate(Vec2 { x: i64::MAX, y: i64::MIN })]);
}

#[test]
fn held_keys_translate_in_the_order_forward_left_back_right() {
    let controllers = vec![FpsCameraController::default()];
    let keys = MovementKeys { forward: true, left: true, back: true, right: true, run: false };
    let events = input_events(&controllers, keys, &Vec::new());
    assert_eq!(
        events,
        vec![
            ControlEvent::Rotate(Vec2 { x: 0, y: 0 }),
            ahead(500_000),
            sideways(500_000),
            ahead(-500_000),
            sideways(-500_000),
        ]
    );
}

#[test]
fn only_held_keys_translate() {
    let controllers = vec![FpsCameraController::default()];
    let keys = MovementKeys { forward: false, left: true, back: false, right: false, run: false };
    let events = input_events(&controllers, keys, &Vec::new());
    assert_eq!(events, vec![ControlEvent::Rotate(Vec2 { x: 0, y: 0 }), sideways(500_000)]);
}

#[test]
fn running_doubles_every_direction() {
    let controllers = vec![FpsCameraController::default()];
    let keys = MovementKeys { forward: true, left: true, back: true, right: true, run: true };
    let events = input_events(&controllers, keys, &Vec::new());
    assert_eq!(
        events,
        vec![
            ControlEvent::Rotate(Vec2 { x: 0, y: 0 }),
            ahead(1_000_000),
            sideways(1_000_000),
            ahead(-1_000_000),
            sideways(-1_000_000),
        ]
    );
}

#[test]
fn running_alone_translates_nothing() {
    let controllers = vec![FpsCameraController::default()];
    let keys = MovementKeys { run: true, ..no_keys() };
    let events = input_events(&controllers, keys, &Vec::new());
    assert_eq!(events, vec![ControlEvent::Rotate(Vec2 { x: 0, y: 0 })]);
}

#[test]
fn a_huge_step_saturates() {
    let controller =
        FpsCameraController { translate_sensitivity: i64::MAX, ..FpsCameraController::default() };
    let keys = MovementKeys { forward: true, back: true, run: true, ..no_keys() };
    let events = input_events(&vec![controller], keys, &Vec::new());
    assert_eq!(
        events,
        vec![ControlEvent::Rotate(Vec2 { x: 0, y: 0 }), ahead(i64::MAX), ahead(i64::MIN)]
    );
}

#[test]
fn the_first_enabled_controller_decides() {
    let off = FpsCameraController {
        enabled: false,
        translate_sensitivity: 7,
        ..FpsCameraController::default()
    };
    let slow = FpsCameraController { translate_sensitivity: 100_000, ..FpsCameraController::default() };
    let fast = FpsCameraController { translate_sensitivity: 900_000, ..FpsCameraController::default() };
    let keys = MovementKeys { forward: true, ..no_keys() };
    let events = input_events(&vec![off, slow, fast], keys, &Vec::new());
    assert_eq!(events, vec![ControlEvent::Rotate(Vec2 { x: 0, y: 0 }), ahead(100_000)]);
}

#[test]
fn the_default_map_binds_w_a_s_d() {
    let controllers = vec![FpsCameraController::default()];
    let mut keyboard: Input<KeyCode> = Input::default();
    let rotation = ControlEvent::Rotate(Vec2 { x: 0, y: 0 });
    assert_eq!(default_input_map(&controllers, &keyboard, &Vec::new()), vec![rotation]);

    keyboard.press(KeyCode::W);
    assert_eq!(
        default_input_map(&controllers, &keyboard, &Vec::new()),
        vec![rotation, ahead(500_000)]
    );
    keyboard.release(KeyCode::W);
    keyboard.press(KeyCode::A);
    assert_eq!(
        default_input_map(&controllers, &keyboard, &Vec::new()),
        vec![rotation, sideways(500_000)]
    );
    keyboard.release(KeyCode::A);
    keyboard.press(KeyCode::S);
    assert_eq!(
        default_input_map(&controllers, &keyboard, &Vec::new()),
        vec![rotation, ahead(-500_000)]
    );
    keyboard.release(KeyCode::S);
    keyboard.press(KeyCode::D);
    assert_eq!(
        default_input_map(&controllers, &keyboard, &Vec::new()),
        vec![rotation, sideways(-500_000)]
    );
}

#[test]
fn the_default_map_runs_on_left_shift() {
    let controllers = vec![FpsCameraController::default()];
    let mut keyboard: Input<KeyCode> = Input::default();
    keyboard.press(KeyCode::LShift);
    keyboard.press(KeyCode::W);
    keyboard.press(KeyCode::D);
    let motion = vec![Vec2 { x: ONE, y: 2 * ONE }];
    assert_eq!(
        default_input_map(&controllers, &keyboard, &motion),
        vec![
            ControlEvent::Rotate(Vec2 { x: 2_000, y: 4_000 }),
            ahead(1_000_000),
            sideways(-1_000_000),
        ]
    );
}

#[test]
fn the_default_map_reads_keys_that_are_held_not_only_fresh() {
    let controllers = vec![FpsCameraController::default()];
    let mut keyboard: Input<KeyCode> = Input::default();
    keyboard.press(KeyCode::W);
    keyboard.clear();
    assert_eq!(
        default_input_map(&controllers, &keyboard, &Vec::new()),
        vec![ControlEvent::Rotate(Vec2 { x: 0, y: 0 }), ahead(500_000)]
    );
}

#[test]
fn the_default_map_ignores_other_keys() {
    let controllers = vec![FpsCameraController::default()];
    let mut keyboard: Input<KeyCode> = Input::default();
    keyboard.press(KeyCode::Up);
    keyboard.press(KeyCode::Space);
    keyboard.press(KeyCode::RShift);
    assert_eq!(
        default_input_map(&controllers, &keyboard, &Vec::new()),
        vec![ControlEvent::Rotate(Vec2 { x: 0, y: 0 })]
    );
}
