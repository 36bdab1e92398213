//! The decision rules of the camera controls.
//!
//! The host's input system reports which control actions are pressed and the
//! look delta of the pointer; the host's camera takes translation and
//! rotation commands. These functions are the rules between the two: which
//! single translation a tick emits (the actions are tried in a fixed order
//! and the first pressed one wins), and how the look delta is scaled.

use vstd::prelude::*;

use crate::animate::Vec3Fp;
use crate::animate::PARAM_LIMIT;
use crate::fp::fmul;
use crate::fp::fixed_mul;
use crate::fp::lemma_fmul_le;
use crate::fp::SCALE;

verus! {

/// Which camera-control actions are pressed this tick.
#[derive(Clone, Copy, PartialEq, Eq, Structural, Debug)]
pub struct PressedActions {
    pub forward: bool,
    pub left: bool,
    pub backward: bool,
    pub right: bool,
    pub down: bool,
    pub up: bool,
}

/// The translation command one tick emits: the first pressed action in the
/// order forward, left, backward, right, down, up, scaled by the camera's
/// translate sensitivity; no command when nothing is pressed.
pub open spec fn move_direction_spec(pressed: PressedActions, sensitivity: i64) -> Option<Vec3Fp> {
    if pressed.forward {
        Some(Vec3Fp { x: 0, y: 0, z: sensitivity })
    } else if pressed.left {
        Some(Vec3Fp { x: sensitivity, y: 0, z: 0 })
    } else if pressed.backward {
        Some(Vec3Fp { x: 0, y: 0, z: (-sensitivity) as i64 })
    } else if pressed.right {
        Some(Vec3Fp { x: (-sensitivity) as i64, y: 0, z: 0 })
    } else if pressed.down {
        Some(Vec3Fp { x: 0, y: (-sensitivity) as i64, z: 0 })
    } else if pressed.up {
        Some(Vec3Fp { x: 0, y: sensitivity, z: 0 })
    } else {
        None
    }
}

/// Picks the translation command of one tick.
pub fn move_direction(pressed: PressedActions, sensitivity: i64) -> (r: Option<Vec3Fp>)
    requires
        -PARAM_LIMIT <= sensitivity <= PARAM_LIMIT,
    ensures
        r == move_direction_spec(pressed, sensitivity),
{
    if pressed.forward {
        Some(Vec3Fp { x: 0, y: 0, z: sensitivity })
    } else if pressed.left {
        Some(Vec3Fp { x: sensitivity, y: 0, z: 0 })
    } else if pressed.backward {
        Some(Vec3Fp { x: 0, y: 0, z: -sensitivity })
    } else if pressed.right {
        Some(Vec3Fp { x: -sensitivity, y: 0, z: 0 })
    } else if pressed.down {
        Some(Vec3Fp { x: 0, y: -sensitivity, z: 0 })
    } else if pressed.up {
        Some(Vec3Fp { x: 0, y: sensitivity, z: 0 })
    } else {
        None
    }
}

/// The rotation command one tick emits: the look delta scaled by the mouse
/// sensitivity while the look action is pressed, and nothing otherwise.
pub open spec fn look_rotation_spec(
    look_pressed: bool,
    delta_x: i64,
    delta_y: i64,
    sensitivity: i64,
) -> Option<(i64, i64)> {
    if look_pressed {
        Some((fmul(sensitivity as int, delta_x as int) as i64, fmul(
            sensitivity as int,
            delta_y as int,
        ) as i64))
    } else {
        None
    }
}

/// Scales the look delta into a rotation command.
pub fn look_rotation(look_pressed: bool, delta_x: i64, delta_y: i64, sensitivity: i64) -> (r:
    Option<(i64, i64)>)
    requires
        -PARAM_LIMIT <= sensitivity <= PARAM_LIMIT,
        -PARAM_LIMIT <= delta_x <= PARAM_LIMIT,
        -PARAM_LIMIT <= delta_y <= PARAM_LIMIT,
    ensures
        r == look_rotation_spec(look_pressed, delta_x, delta_y, sensitivity),
{
    if look_pressed {
        proof {
            lemma_fmul_le(sensitivity as int, delta_x as int, PARAM_LIMIT as int,
                PARAM_LIMIT as int);
            lemma_fmul_le(sensitivity as int, delta_y as int, PARAM_LIMIT as int,
                PARAM_LIMIT as int);
        }
        Some((fixed_mul(sensitivity, delta_x), fixed_mul(sensitivity, delta_y)))
    } else {
        None
    }
}


/// A camera-control action a key or the pointer can drive.
#[derive(Clone, Copy, PartialEq, Eq, Structural, Debug)]
pub enum Action {
    Forward,
    Left,
    Backward,
    Right,
    Down,
    Up,
    Look,
}

/// What the host's input system binds an action to.
#[derive(Clone, Copy, PartialEq, Eq, Structural, Debug)]
pub enum Binding {
    KeyW,
    KeyA,
    KeyS,
    KeyD,
    ShiftLeft,
    Space,
    MouseMotion,
}

/// The demo's bindings: the usual four movement keys, shift and space for
/// down and up, and the pointer for looking around.
pub open spec fn default_input_map_spec() -> Seq<(Binding, Action)> {
    seq![
        (Binding::KeyW, Action::Forward),
        (Binding::KeyA, Action::Left),
        (Binding::KeyS, Action::Backward),
        (Binding::KeyD, Action::Right),
        (Binding::ShiftLeft, Action::Down),
        (Binding::Space, Action::Up),
        (Binding::MouseMotion, Action::Look),
    ]
}

/// Hands the host the demo's input bindings.
pub fn default_input_map() -> (m: Vec<(Binding, Action)>)
    ensures
        m@ == default_input_map_spec(),
{
    let mut m: Vec<(Binding, Action)> = Vec::new();
    m.push((Binding::KeyW, Action::Forward));
    m.push((Binding::KeyA, Action::Left));
    m.push((Binding::KeyS, Action::Backward));
    m.push((Binding::KeyD, Action::Right));
    m.push((Binding::ShiftLeft, Action::Down));
    m.push((Binding::Space, Action::Up));
    m.push((Binding::MouseMotion, Action::Look));
    proof {
        assert(m@ =~= default_input_map_spec());
    }
    m
}

} // verus!
