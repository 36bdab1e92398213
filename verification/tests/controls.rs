use procanim::animate::Vec3Fp;
use procanim::input::default_input_map;
use procanim::input::look_rotation;
use procanim::input::Action;
use procanim::input::Binding;
use procanim::input::move_direction;
use procanim::input::PressedActions;

fn nothing_pressed() -> PressedActions {
    PressedActions {
        forward: false,
        left: false,
        backward: false,
        right: false,
        down: false,
        up: false,
    }
}

#[test]
fn no_action_no_translation() {
    assert_eq!(move_direction(nothing_pressed(), 12_000_000), None);
}

#[test]
fn each_action_maps_to_its_axis() {
    let s: i64 = 12_000_000;
    let mut p = nothing_pressed();
    p.forward = true;
    assert_eq!(move_direction(p, s), Some(Vec3Fp { x: 0, y: 0, z: s }));
    let mut p = nothing_pressed();
    p.left = true;
    assert_eq!(move_direction(p, s), Some(Vec3Fp { x: s, y: 0, z: 0 }));
    let mut p = nothing_pressed();
    p.backward = true;
    assert_eq!(move_direction(p, s), Some(Vec3Fp { x: 0, y: 0, z: -s }));
    let mut p = nothing_pressed();
    p.right = true;
    assert_eq!(move_direction(p, s), Some(Vec3Fp { x: -s, y: 0, z: 0 }));
    let mut p = nothing_pressed();
    p.down = true;
    assert_eq!(move_direction(p, s), Some(Vec3Fp { x: 0, y: -s, z: 0 }));
    let mut p = nothing_pressed();
    p.up = true;
    assert_eq!(move_direction(p, s), Some(Vec3Fp { x: 0, y: s, z: 0 }));
}

#[test]
fn earlier_actions_win_over_later_ones() {
    // The actions are tried in a fixed order: a pressed forward masks
    // everything else, and left masks backward.
    let mut p = nothing_pressed();
    p.forward = true;
    p.left = true;
    p.up = true;
    assert_eq!(move_direction(p, 7), Some(Vec3Fp { x: 0, y: 0, z: 7 }));
    let mut p = nothing_pressed();
    p.left = true;
    p.backward = true;
    assert_eq!(move_direction(p, 7), Some(Vec3Fp { x: 7, y: 0, z: 0 }));
}

#[test]
fn look_scales_the_pointer_delta() {
    // Sensitivity is fixed-point: a half scales the delta by a half.
    assert_eq!(look_rotation(true, 4_000_000, -2_000_000, 500_000), Some((2_000_000, -1_000_000)));
    assert_eq!(look_rotation(false, 4_000_000, -2_000_000, 500_000), None);
}

#[test]
fn the_input_map_binds_the_usual_keys() {
    let map = default_input_map();
    assert_eq!(map.len(), 7);
    assert_eq!(map[0], (Binding::KeyW, Action::Forward));
    assert_eq!(map[1], (Binding::KeyA, Action::Left));
    assert_eq!(map[2], (Binding::KeyS, Action::Backward));
    assert_eq!(map[3], (Binding::KeyD, Action::Right));
    assert_eq!(map[4], (Binding::ShiftLeft, Action::Down));
    assert_eq!(map[5], (Binding::Space, Action::Up));
    assert_eq!(map[6], (Binding::MouseMotion, Action::Look));
}
