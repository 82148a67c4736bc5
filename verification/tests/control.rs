use darkest::control::enabled_controller;
use darkest::control::ControlEvent;
use darkest::control::FpsCameraController;
use darkest::fixed::Vec2;
use darkest::fixed::Vec3;
use darkest::game::GameState;

fn controller(enabled: bool) -> FpsCameraController {
    FpsCameraController { enabled, ..FpsCameraController::default() }
}

#[test]
fn default_controller_is_enabled_with_stock_sensitivities() {
    let c = FpsCameraController::default();
    assert!(c.enabled);
    assert_eq!(c.mouse_rotate_sensitivity, Vec2 { x: 2_000, y: 2_000 });
    assert_eq!(c.translate_sensitivity, 500_000);
    assert_eq!(c.smoothing_weight, 900_000);
}

#[test]
fn enabled_controller_of_none_is_none() {
    assert_eq!(enabled_controller(&Vec::new()), None);
    assert_eq!(enabled_controller(&vec![controller(false), controller(false)]), None);
}

#[test]
fn enabled_controller_is_the_first_enabled() {
    assert_eq!(enabled_controller(&vec![controller(true)]), Some(0));
    assert_eq!(
        enabled_controller(&vec![controller(false), controller(true), controller(true)]),
        Some(1)
    );
    assert_eq!(
        enabled_controller(&vec![controller(false), controller(false), controller(true)]),
        Some(2)
    );
}

#[test]
fn control_events_compare_by_value() {
    let turn = ControlEvent::Rotate(Vec2 { x: 1, y: 2 });
    assert_eq!(turn, ControlEvent::Rotate(Vec2 { x: 1, y: 2 }));
    assert_ne!(turn, ControlEvent::Rotate(Vec2 { x: 2, y: 1 }));
    assert_ne!(turn, ControlEvent::TranslateEye(Vec3 { x: 1, y: 2, z: 0 }));
}

#[test]
fn game_states_are_distinct() {
    assert_eq!(GameState::AssetLoading, GameState::AssetLoading.clone());
    assert_ne!(GameState::AssetLoading, GameState::InGame);
    assert_ne!(GameState::InGame, GameState::Paused);
    assert_eq!(format!("{:?}", GameState::Paused), "Paused");
}
