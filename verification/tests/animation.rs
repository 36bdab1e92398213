use procanim::animate::animate_ripplers;
use procanim::animate::ripple_step;
use procanim::animate::snake_step;
use procanim::animate::snakelike_movement;
use procanim::animate::MovementBehavior;
use procanim::animate::OrientationFp;
use procanim::animate::Ripple;
use procanim::animate::RippleObject;
use procanim::animate::TransformFp;
use procanim::animate::Vec3Fp;
use procanim::fp::SCALE;
use procanim::fp::TWO_PI_FP;

fn zero_orientation() -> OrientationFp {
    OrientationFp { pitch: 0, yaw: 0, roll: 0 }
}

fn transform_at(x: i64, y: i64, z: i64) -> TransformFp {
    TransformFp { translation: Vec3Fp { x, y, z }, rotation: zero_orientation() }
}

fn undulating_state() -> Ripple {
    Ripple {
        wave_movement: 0,
        wave_tiling: 10_000_000,
        wave_height: 1_500_000,
        wave_speed: 2_000_000,
        x: 0,
        y: 0,
        movement_behavior: MovementBehavior::Undulating,
    }
}

#[test]
fn phase_stays_reduced_from_any_start() {
    // An unreduced, even negative, phase comes out in [0, 2*pi) after one tick.
    for start in [-50_000_000i64, -1, 0, 6_283_183, 6_283_184, 123_456_789_000] {
        let mut t = transform_at(0, 0, 0);
        let mut r = undulating_state();
        r.wave_movement = start;
        ripple_step(&mut t, &mut r, 16_666);
        assert!(0 <= r.wave_movement && r.wave_movement < TWO_PI_FP);
    }
}

#[test]
fn phase_advance_matches_speed_times_delta() {
    // Speed two units per second over a tenth of a second advances the phase
    // by exactly two tenths.
    let mut t = transform_at(0, 0, 0);
    let mut r = undulating_state();
    ripple_step(&mut t, &mut r, 100_000);
    assert_eq!(r.wave_movement, 200_000);
}

#[test]
fn wave_height_zero_at_zero_phase_and_offset() {
    // With phase, tiling offset and elapsed time all zero the sine vanishes,
    // so the height is exactly zero whatever the amplitude.
    let mut t = transform_at(7_000_000, 3_000_000, -2_000_000);
    let mut r = undulating_state();
    ripple_step(&mut t, &mut r, 0);
    assert_eq!(t.translation.y, 0);
    assert_eq!(t.translation.x, 7_000_000);
    assert_eq!(t.translation.z, -2_000_000);
}

#[test]
fn undulating_zero_delta_is_idempotent_on_position() {
    let mut t = transform_at(4_000_000, 0, 9_000_000);
    let mut r = undulating_state();
    r.wave_movement = 1_234_567;
    ripple_step(&mut t, &mut r, 0);
    let after_one = (t.translation, r);
    let mut t2 = t;
    let mut r2 = r;
    ripple_step(&mut t2, &mut r2, 0);
    assert_eq!(t2.translation, after_one.0);
    assert_eq!(r2, after_one.1);
    // The phase never moved at all.
    assert_eq!(r2.wave_movement, 1_234_567);
}

#[test]
fn snake_quarter_turn_from_unit_x() {
    // One second gives a quarter-turn angle: the unit-x position lands on
    // zero in both horizontal coordinates, and depth drifts one hundredth.
    let mut t = transform_at(1_000_000, 0, 0);
    snake_step(&mut t, 1_000_000);
    assert_eq!(t.translation.x, 0);
    assert_eq!(t.translation.y, 0);
    assert_eq!(t.translation.z, -10_000);
    assert_eq!(t.rotation, zero_orientation());
}

#[test]
fn snake_zero_delta_keeps_the_horizontal_position() {
    // A zero tick swings by a zero angle, whose cosine is exactly one unit:
    // both horizontal coordinates stay put, while the per-tick depth drift
    // still applies, unscaled by elapsed time.
    let mut t = transform_at(1_000_000, 2_000_000, 3_000_000);
    snake_step(&mut t, 0);
    assert_eq!(t.translation.x, 1_000_000);
    assert_eq!(t.translation.y, 2_000_000);
    assert_eq!(t.translation.z, 2_990_000);
}

#[test]
fn spiralling_zero_delta_keeps_the_swung_coordinate() {
    let mut t = transform_at(4_000_000, 0, 0);
    let mut r = undulating_state();
    r.movement_behavior = MovementBehavior::Spiralling;
    r.wave_movement = 777_777;
    ripple_step(&mut t, &mut r, 0);
    assert_eq!(t.translation.x, 4_000_000);
    assert_eq!(t.translation.z, -10_000);
    assert_eq!(r.wave_movement, 777_777);
}

#[test]
fn snake_swing_is_not_a_true_rotation() {
    // The second coordinate uses the already updated first one, so a half
    // second from unit x does not land on the circle point (cos, sin).
    let mut t = transform_at(1_000_000, 0, 0);
    snake_step(&mut t, 500_000);
    // cos(pi/4) of one unit.
    assert_eq!(t.translation.x, 707_107);
    // A true rotation would give 707_107 here as well; the rule feeds the new
    // x back in and lands at half a unit instead.
    assert_ne!(t.translation.y, 707_107);
    assert_eq!(t.translation.y, 500_000);
}

#[test]
fn spiralling_swing_drifts_after_a_full_turn() {
    // Thirty-six spiralling steps whose swing angles sum to a full turn do
    // not bring the horizontal position back: the swing feeds the freshly
    // computed wave height into the rotation, so the motion drifts.
    let mut t = transform_at(5_000_000, 0, 0);
    let mut r = undulating_state();
    r.movement_behavior = MovementBehavior::Spiralling;
    for _ in 0..36 {
        ripple_step(&mut t, &mut r, 111_111);
    }
    assert_ne!(t.translation.x, 5_000_000);
    assert_eq!(t.translation.x, 1_829_718);
    assert_eq!(t.translation.y, 1_483_941);
    // The depth drift is per tick, not per second: 36 hundredths.
    assert_eq!(t.translation.z, -360_000);
}

#[test]
fn spiralling_rolls_half_a_degree_per_tick() {
    let mut t = transform_at(0, 0, 0);
    let mut r = undulating_state();
    r.movement_behavior = MovementBehavior::Spiralling;
    ripple_step(&mut t, &mut r, 0);
    assert_eq!(t.rotation.roll, 8_727);
    assert_eq!(t.rotation.pitch, 0);
    ripple_step(&mut t, &mut r, 0);
    assert_eq!(t.rotation.roll, 17_454);
}

#[test]
fn undulating_wobble_follows_wave_height() {
    // After a quarter-second tick the wave height is nonzero, and the pitch
    // picks up that height (reduced modulo an eighth turn) read as degrees.
    let mut t = transform_at(0, 0, 0);
    let mut r = undulating_state();
    ripple_step(&mut t, &mut r, 250_000);
    assert!(t.translation.y > 0);
    assert!(t.rotation.pitch > 0);
    assert_eq!(t.rotation.yaw, 0);
    assert_eq!(t.rotation.roll, 0);
}

#[test]
fn vector_update_steps_every_object_independently() {
    let mut objects = Vec::new();
    for i in 0..5i64 {
        let mut state = undulating_state();
        state.y = i * 100_000;
        objects.push(RippleObject { transform: transform_at(i * 1_000_000, 0, 0), state });
    }
    animate_ripplers(&mut objects, 100_000);
    assert_eq!(objects.len(), 5);
    let first_height = objects[0].transform.translation.y;
    for (i, obj) in objects.iter().enumerate() {
        // Each object keeps its own x and advances its own phase.
        assert_eq!(obj.transform.translation.x, (i as i64) * 1_000_000);
        assert_eq!(obj.state.wave_movement, 200_000);
        // Heights differ because the placement offsets differ.
        if i > 0 {
            assert_ne!(obj.transform.translation.y, first_height);
        }
    }
}

#[test]
fn vector_snake_update_matches_single_steps() {
    let mut positions = vec![
        transform_at(1_000_000, 0, 0),
        transform_at(0, 2_000_000, 5_000_000),
        transform_at(-3_000_000, 4_000_000, 0),
    ];
    let singles: Vec<TransformFp> = positions
        .iter()
        .map(|t| {
            let mut copy = *t;
            snake_step(&mut copy, 400_000);
            copy
        })
        .collect();
    snakelike_movement(&mut positions, 400_000);
    assert_eq!(positions, singles);
}

#[test]
fn wellformedness_checks_match_their_bounds() {
    let t = transform_at(0, 0, 0);
    assert!(t.check_wf());
    let mut far = t;
    far.translation.x = i64::MAX;
    assert!(!far.check_wf());
    let r = undulating_state();
    assert!(r.check_params());
    let mut wild = r;
    wild.wave_height = i64::MIN;
    assert!(!wild.check_params());
}
