//! The per-tick update rules of the procedural animator.
//!
//! Each movable object owns a transform and a behavior tag. Once per tick the
//! host hands the animator the elapsed time and every tagged object; the
//! animator rewrites each object's transform from that object's own state
//! alone, so objects never read one another and update order is irrelevant.
//!
//! Two update rules exist. The ripple rule accumulates a wave phase and sets
//! the height from a travelling sine wave sampled at the object's fixed
//! placement offset; its spiralling sub-behavior additionally swings the
//! horizontal position, drifts along depth, and rolls a little each tick,
//! while its undulating sub-behavior only wobbles the pitch with the wave.
//! The snake rule swings the horizontal position and drifts along depth.
//!
//! Two oddities of the rules are kept deliberately, as observed behavior: the
//! swing feeds the freshly computed height (not the previous one) into the
//! horizontal rotation, and the snake's second coordinate is computed from
//! the already updated first coordinate, so neither is a true rotation. The
//! depth drift is a constant per tick, not scaled by the elapsed time.

use vstd::prelude::*;

use crate::fp::fmul;
use crate::fp::fixed_mul;
use crate::fp::lemma_fmul_le;
use crate::fp::rem_euclid_fp;
use crate::fp::wrap_angle;
use crate::fp::wrap_angle_wide;
use crate::fp::HALF_PI_FP;
use crate::fp::QUARTER_PI_FP;
use crate::fp::SCALE;
use crate::fp::TWO_PI_FP;
use crate::trig::cos_fp;
use crate::trig::cos_fp_spec;
use crate::trig::deg_value_to_rad;
use crate::trig::deg_value_to_rad_spec;
use crate::trig::sin_fp;
use crate::trig::sin_fp_spec;

verus! {

/// Magnitude bound on the ripple parameter fields (a million units), so the
/// update arithmetic stays far from the integer limits.
pub const PARAM_LIMIT: i64 = 1_000_000_000_000;

/// Magnitude bound on position coordinates (a thousand million units).
pub const POS_LIMIT: i64 = 1_000_000_000_000_000_000;

/// Upper bound on one tick's elapsed time (a million seconds).
pub const DT_LIMIT: i64 = 1_000_000_000_000;

/// Depth drift per tick: a constant hundredth of a unit, deliberately not
/// scaled by the elapsed time.
pub const Z_DRIFT_FP: i64 = 10_000;

/// Roll applied per spiralling tick: half a degree in fixed-point radians.
pub const ROLL_STEP_FP: i64 = 8_727;

/// The sub-behavior tag of a rippling object: fixed at creation, it only
/// selects which branch of the ripple rule runs.
#[derive(Clone, Copy, PartialEq, Eq, Structural, Debug)]
pub enum MovementBehavior {
    Undulating,
    Spiralling,
}

/// A position in world space, in fixed-point units.
#[derive(Clone, Copy, PartialEq, Eq, Structural, Debug)]
pub struct Vec3Fp {
    pub x: i64,
    pub y: i64,
    pub z: i64,
}

/// An orientation as accumulated rotations about the three axes, each in
/// fixed-point radians. Every update touches a single axis, so composing
/// rotations reduces to adding angles on that axis.
#[derive(Clone, Copy, PartialEq, Eq, Structural, Debug)]
pub struct OrientationFp {
    /// Rotation about the first horizontal axis.
    pub pitch: i64,
    /// Rotation about the vertical axis.
    pub yaw: i64,
    /// Rotation about the depth axis.
    pub roll: i64,
}

/// A transform: where an object stands and how it is turned.
#[derive(Clone, Copy, PartialEq, Eq, Structural, Debug)]
pub struct TransformFp {
    pub translation: Vec3Fp,
    pub rotation: OrientationFp,
}

/// The per-object state of the ripple rule. The placement offsets `x` and
/// `y` are set once at creation and never written by the update.
#[derive(Clone, Copy, PartialEq, Eq, Structural, Debug)]
pub struct Ripple {
    /// The accumulating wave phase, kept in `[0, 2*pi)` by every update.
    pub wave_movement: i64,
    /// Spatial frequency of the travelling wave.
    pub wave_tiling: i64,
    /// Amplitude of the travelling wave.
    pub wave_height: i64,
    /// Phase advance per second.
    pub wave_speed: i64,
    /// Fixed placement offset.
    pub x: i64,
    /// Fixed placement offset.
    pub y: i64,
    /// Which branch of the ripple rule applies; never changes.
    pub movement_behavior: MovementBehavior,
}

impl Vec3Fp {
    /// Every coordinate within the range the update arithmetic admits.
    pub open spec fn bounded(self) -> bool {
        &&& -POS_LIMIT <= self.x <= POS_LIMIT
        &&& -POS_LIMIT <= self.y <= POS_LIMIT
        &&& -POS_LIMIT <= self.z <= POS_LIMIT
    }
}

impl OrientationFp {
    /// Every angle reduced into one turn.
    pub open spec fn wf(self) -> bool {
        &&& 0 <= self.pitch < TWO_PI_FP
        &&& 0 <= self.yaw < TWO_PI_FP
        &&& 0 <= self.roll < TWO_PI_FP
    }
}

impl TransformFp {
    /// Position in range and orientation reduced.
    pub open spec fn wf(self) -> bool {
        self.translation.bounded() && self.rotation.wf()
    }

    /// Runtime test of `wf`, for a host that must re-check before a call.
    pub fn check_wf(&self) -> (b: bool)
        ensures
            b == self.wf(),
    {
        -POS_LIMIT <= self.translation.x && self.translation.x <= POS_LIMIT
            && -POS_LIMIT <= self.translation.y && self.translation.y <= POS_LIMIT
            && -POS_LIMIT <= self.translation.z && self.translation.z <= POS_LIMIT
            && 0 <= self.rotation.pitch && self.rotation.pitch < TWO_PI_FP
            && 0 <= self.rotation.yaw && self.rotation.yaw < TWO_PI_FP
            && 0 <= self.rotation.roll && self.rotation.roll < TWO_PI_FP
    }
}

impl Ripple {
    /// Parameter fields within the range the update arithmetic admits. The
    /// phase is deliberately unconstrained: the update reduces any phase.
    pub open spec fn params_ok(self) -> bool {
        &&& -PARAM_LIMIT <= self.wave_tiling <= PARAM_LIMIT
        &&& -PARAM_LIMIT <= self.wave_height <= PARAM_LIMIT
        &&& -PARAM_LIMIT <= self.wave_speed <= PARAM_LIMIT
        &&& -PARAM_LIMIT <= self.x <= PARAM_LIMIT
        &&& -PARAM_LIMIT <= self.y <= PARAM_LIMIT
    }

    /// Well-formed: parameters in range and the phase already reduced.
    pub open spec fn wf(self) -> bool {
        self.params_ok() && 0 <= self.wave_movement < TWO_PI_FP
    }

    /// Runtime test of `params_ok`, for a host that must re-check.
    pub fn check_params(&self) -> (b: bool)
        ensures
            b == self.params_ok(),
    {
        -PARAM_LIMIT <= self.wave_tiling && self.wave_tiling <= PARAM_LIMIT
            && -PARAM_LIMIT <= self.wave_height && self.wave_height <= PARAM_LIMIT
            && -PARAM_LIMIT <= self.wave_speed && self.wave_speed <= PARAM_LIMIT
            && -PARAM_LIMIT <= self.x && self.x <= PARAM_LIMIT
            && -PARAM_LIMIT <= self.y && self.y <= PARAM_LIMIT
    }
}

/// The phase after one tick: advanced by speed times elapsed time, then
/// reduced into `[0, 2*pi)`.
pub open spec fn ripple_phase_spec(r: Ripple, dt: int) -> int {
    wrap_angle(r.wave_movement + fmul(r.wave_speed as int, dt))
}

/// The height after one tick: the amplitude times the sine of the advanced
/// phase plus the fixed spatial offset `tiling * (x + y)`.
pub open spec fn ripple_wave_y_spec(r: Ripple, dt: int) -> int {
    fmul(
        r.wave_height as int,
        sin_fp_spec(ripple_phase_spec(r, dt) + fmul(r.wave_tiling as int, r.x + r.y)),
    )
}

/// The horizontal swing angle of one tick.
pub open spec fn swing_theta_spec(dt: int) -> int {
    fmul(dt, HALF_PI_FP as int)
}

/// The pitch wobble of one undulating tick: the new height, reduced modulo
/// an eighth of a turn, read as a count of degrees.
pub open spec fn undulating_pitch_step_spec(r: Ripple, dt: int) -> int {
    deg_value_to_rad_spec(ripple_wave_y_spec(r, dt) % (QUARTER_PI_FP as int))
}

/// The full relation of one ripple tick: how the transform and state after
/// the tick follow from the transform and state before it.
pub open spec fn ripple_stepped(
    t0: TransformFp,
    r0: Ripple,
    t1: TransformFp,
    r1: Ripple,
    dt: int,
) -> bool {
    let phase1 = ripple_phase_spec(r0, dt);
    let y1 = ripple_wave_y_spec(r0, dt);
    let theta = swing_theta_spec(dt);
    &&& r1.wave_movement == phase1
    &&& r1.wave_tiling == r0.wave_tiling
    &&& r1.wave_height == r0.wave_height
    &&& r1.wave_speed == r0.wave_speed
    &&& r1.x == r0.x
    &&& r1.y == r0.y
    &&& r1.movement_behavior == r0.movement_behavior
    &&& t1.translation.y == y1
    &&& match r0.movement_behavior {
        MovementBehavior::Spiralling => {
            &&& t1.translation.x == fmul(t0.translation.x as int, cos_fp_spec(theta)) - fmul(
                y1,
                sin_fp_spec(theta),
            )
            &&& t1.translation.z == t0.translation.z - Z_DRIFT_FP
            &&& t1.rotation.roll == wrap_angle(t0.rotation.roll + ROLL_STEP_FP)
            &&& t1.rotation.pitch == t0.rotation.pitch
            &&& t1.rotation.yaw == t0.rotation.yaw
        },
        MovementBehavior::Undulating => {
            &&& t1.translation.x == t0.translation.x
            &&& t1.translation.z == t0.translation.z
            &&& t1.rotation.pitch == wrap_angle(
                t0.rotation.pitch + undulating_pitch_step_spec(r0, dt),
            )
            &&& t1.rotation.yaw == t0.rotation.yaw
            &&& t1.rotation.roll == t0.rotation.roll
        },
    }
}

/// One ripple tick on one object, in place.
///
/// The phase is left reduced whatever phase came in, the parameter fields
/// are untouched, and the orientation stays reduced.
pub fn ripple_step(t: &mut TransformFp, r: &mut Ripple, dt: i64)
    requires
        old(t).wf(),
        old(r).params_ok(),
        0 <= dt <= DT_LIMIT,
    ensures
        ripple_stepped(*old(t), *old(r), *final(t), *final(r), dt as int),
        final(r).params_ok(),
        0 <= final(r).wave_movement < TWO_PI_FP,
        final(t).rotation.wf(),
{
    proof {
        lemma_fmul_le(r.wave_speed as int, dt as int, PARAM_LIMIT as int, DT_LIMIT as int);
    }
    let advance: i64 = fixed_mul(r.wave_speed, dt);
    let phase: i64 = wrap_angle_wide((r.wave_movement as i128) + (advance as i128));
    r.wave_movement = phase;
    proof {
        lemma_fmul_le(
            r.wave_tiling as int,
            (r.x + r.y) as int,
            PARAM_LIMIT as int,
            2 * PARAM_LIMIT as int,
        );
    }
    let offset: i64 = fixed_mul(r.wave_tiling, r.x + r.y);
    let wave_sin: i64 = sin_fp(phase + offset);
    proof {
        lemma_fmul_le(r.wave_height as int, wave_sin as int, PARAM_LIMIT as int, SCALE as int);
    }
    let new_y: i64 = fixed_mul(r.wave_height, wave_sin);
    t.translation.y = new_y;
    match r.movement_behavior {
        MovementBehavior::Spiralling => {
            proof {
                lemma_fmul_le(dt as int, HALF_PI_FP as int, DT_LIMIT as int, HALF_PI_FP as int);
            }
            let theta: i64 = fixed_mul(dt, HALF_PI_FP);
            let cos_theta: i64 = cos_fp(theta);
            let sin_theta: i64 = sin_fp(theta);
            proof {
                lemma_fmul_le(
                    t.translation.x as int,
                    cos_theta as int,
                    POS_LIMIT as int,
                    SCALE as int,
                );
                lemma_fmul_le(new_y as int, sin_theta as int, 2 * PARAM_LIMIT as int, SCALE as int);
            }
            let swung: i64 = fixed_mul(t.translation.x, cos_theta);
            let lifted: i64 = fixed_mul(new_y, sin_theta);
            t.translation.x = swung - lifted;
            t.translation.z = t.translation.z - Z_DRIFT_FP;
            t.rotation.roll = rem_euclid_fp(t.rotation.roll + ROLL_STEP_FP, TWO_PI_FP);
        },
        MovementBehavior::Undulating => {
            let wobble_deg: i64 = rem_euclid_fp(new_y, QUARTER_PI_FP);
            let wobble: i64 = deg_value_to_rad(wobble_deg);
            t.rotation.pitch = rem_euclid_fp(t.rotation.pitch + wobble, TWO_PI_FP);
        },
    }
}

/// The full relation of one snake tick. The second coordinate deliberately
/// uses the already updated first coordinate, as the rule is defined.
pub open spec fn snake_stepped(t0: TransformFp, t1: TransformFp, dt: int) -> bool {
    let theta = swing_theta_spec(dt);
    let nx = fmul(t0.translation.x as int, cos_fp_spec(theta)) - fmul(
        t0.translation.y as int,
        sin_fp_spec(theta),
    );
    &&& t1.translation.x == nx
    &&& t1.translation.y == fmul(t0.translation.y as int, cos_fp_spec(theta)) + fmul(
        nx,
        sin_fp_spec(theta),
    )
    &&& t1.translation.z == t0.translation.z - Z_DRIFT_FP
    &&& t1.rotation == t0.rotation
}

/// One snake tick on one object, in place. The orientation never changes.
pub fn snake_step(t: &mut TransformFp, dt: i64)
    requires
        old(t).wf(),
        0 <= dt <= DT_LIMIT,
    ensures
        snake_stepped(*old(t), *final(t), dt as int),
{
    proof {
        lemma_fmul_le(dt as int, HALF_PI_FP as int, DT_LIMIT as int, HALF_PI_FP as int);
    }
    let theta: i64 = fixed_mul(dt, HALF_PI_FP);
    let cos_theta: i64 = cos_fp(theta);
    let sin_theta: i64 = sin_fp(theta);
    proof {
        lemma_fmul_le(t.translation.x as int, cos_theta as int, POS_LIMIT as int, SCALE as int);
        lemma_fmul_le(t.translation.y as int, sin_theta as int, POS_LIMIT as int, SCALE as int);
    }
    let nx: i64 = fixed_mul(t.translation.x, cos_theta) - fixed_mul(t.translation.y, sin_theta);
    proof {
        lemma_fmul_le(t.translation.y as int, cos_theta as int, POS_LIMIT as int, SCALE as int);
        lemma_fmul_le(nx as int, sin_theta as int, 2 * POS_LIMIT + 2, SCALE as int);
    }
    let ny: i64 = fixed_mul(t.translation.y, cos_theta) + fixed_mul(nx, sin_theta);
    t.translation.x = nx;
    t.translation.y = ny;
    t.translation.z = t.translation.z - Z_DRIFT_FP;
}

/// One rippling object: its transform beside its ripple state.
#[derive(Clone, Copy, PartialEq, Eq, Structural, Debug)]
pub struct RippleObject {
    pub transform: TransformFp,
    pub state: Ripple,
}

/// One ripple tick over every rippling object. Each object steps from its
/// own state alone; no object reads another.
pub fn animate_ripplers(objects: &mut Vec<RippleObject>, dt: i64)
    requires
        0 <= dt <= DT_LIMIT,
        forall|k: int|
            0 <= k < old(objects)@.len() ==> (#[trigger] old(objects)@[k]).transform.wf() && old(
                objects,
            )@[k].state.params_ok(),
    ensures
        final(objects)@.len() == old(objects)@.len(),
        forall|k: int|
            0 <= k < old(objects)@.len() ==> ripple_stepped(
                old(objects)@[k].transform,
                old(objects)@[k].state,
                (#[trigger] final(objects)@[k]).transform,
                final(objects)@[k].state,
                dt as int,
            ),
{
    let ghost orig = objects@;
    let mut stepped: Vec<RippleObject> = Vec::new();
    let mut i: usize = 0;
    while i < objects.len()
        invariant
            objects@ == orig,
            0 <= dt <= DT_LIMIT,
            forall|k: int|
                0 <= k < orig.len() ==> (#[trigger] orig[k]).transform.wf()
                    && orig[k].state.params_ok(),
            i <= orig.len(),
            stepped@.len() == i as int,
            forall|k: int|
                0 <= k < i as int ==> ripple_stepped(
                    orig[k].transform,
                    orig[k].state,
                    (#[trigger] stepped@[k]).transform,
                    stepped@[k].state,
                    dt as int,
                ),
        decreases orig.len() - i,
    {
        let obj = objects[i];
        let mut t = obj.transform;
        let mut r = obj.state;
        ripple_step(&mut t, &mut r, dt);
        stepped.push(RippleObject { transform: t, state: r });
        i = i + 1;
    }
    *objects = stepped;
}

/// One snake tick over every snakelike object.
pub fn snakelike_movement(positions: &mut Vec<TransformFp>, dt: i64)
    requires
        0 <= dt <= DT_LIMIT,
        forall|k: int| 0 <= k < old(positions)@.len() ==> (#[trigger] old(positions)@[k]).wf(),
    ensures
        final(positions)@.len() == old(positions)@.len(),
        forall|k: int|
            0 <= k < old(positions)@.len() ==> snake_stepped(
                old(positions)@[k],
                #[trigger] final(positions)@[k],
                dt as int,
            ),
{
    let ghost orig = positions@;
    let mut stepped: Vec<TransformFp> = Vec::new();
    let mut i: usize = 0;
    while i < positions.len()
        invariant
            positions@ == orig,
            0 <= dt <= DT_LIMIT,
            forall|k: int| 0 <= k < orig.len() ==> (#[trigger] orig[k]).wf(),
            i <= orig.len(),
            stepped@.len() == i as int,
            forall|k: int|
                0 <= k < i as int ==> snake_stepped(orig[k], #[trigger] stepped@[k], dt as int),
        decreases orig.len() - i,
    {
        let mut t = positions[i];
        snake_step(&mut t, dt);
        stepped.push(t);
        i = i + 1;
    }
    *positions = stepped;
}

/// At a zero time step the undulating rule is idempotent on the phase and
/// the position: the first zero-step leaves the phase and the horizontal
/// position untouched, and a second zero-step repeats the first exactly,
/// so the position does not drift. (The pitch wobble still accumulates.)
pub proof fn lemma_undulating_zero_step_stable(
    t0: TransformFp,
    r0: Ripple,
    t1: TransformFp,
    r1: Ripple,
    t2: TransformFp,
    r2: Ripple,
)
    requires
        r0.wf(),
        r0.movement_behavior == MovementBehavior::Undulating,
        ripple_stepped(t0, r0, t1, r1, 0),
        ripple_stepped(t1, r1, t2, r2, 0),
    ensures
        r1 == r0,
        t1.translation.x == t0.translation.x,
        t1.translation.z == t0.translation.z,
        r2 == r1,
        t2.translation == t1.translation,
{
    assert(r0.wave_speed as int * 0 == 0);
    assert(fmul(r0.wave_speed as int, 0) == 0);
    assert(wrap_angle(r0.wave_movement as int) == r0.wave_movement as int) by {
        assert(r0.wave_movement as int % (TWO_PI_FP as int) == r0.wave_movement as int) by (
        nonlinear_arith)
            requires
                0 <= r0.wave_movement < TWO_PI_FP,
        ;
    }
    assert(r1.wave_movement == r0.wave_movement);
    assert(r1 == r0);
    assert(ripple_wave_y_spec(r1, 0) == ripple_wave_y_spec(r0, 0));
    assert(t2.translation.y == t1.translation.y);
    assert(t2.translation == t1.translation);
}


/// A zero time step swings nothing: the swing angle is zero, whose cosine is
/// exactly one unit and whose sine is exactly zero, so the snake step leaves
/// both horizontal coordinates where they were. Only the per-tick depth
/// drift, which elapsed time never scales, still applies.
pub proof fn lemma_snake_zero_step_holds_position(t0: TransformFp, t1: TransformFp)
    requires
        snake_stepped(t0, t1, 0),
    ensures
        t1.translation.x == t0.translation.x,
        t1.translation.y == t0.translation.y,
        t1.translation.z == t0.translation.z - Z_DRIFT_FP,
        t1.rotation == t0.rotation,
{
    lemma_zero_swing_trig();
    crate::fp::lemma_exact_scale_cancel(t0.translation.x as int);
    crate::fp::lemma_exact_scale_cancel(t0.translation.y as int);
    assert(t0.translation.x as int * 0 == 0);
    assert(t0.translation.y as int * 0 == 0);
    assert(t1.translation.x as int * 0 == 0);
}

/// The spiralling swing at a zero time step is the identity on the swung
/// coordinates: the horizontal position keeps its first coordinate, the
/// state is unchanged, and only the unscaled depth drift and the constant
/// roll still apply.
pub proof fn lemma_spiralling_zero_step_holds_swing(
    t0: TransformFp,
    r0: Ripple,
    t1: TransformFp,
    r1: Ripple,
)
    requires
        r0.wf(),
        r0.movement_behavior == MovementBehavior::Spiralling,
        ripple_stepped(t0, r0, t1, r1, 0),
    ensures
        r1 == r0,
        t1.translation.x == t0.translation.x,
        t1.translation.z == t0.translation.z - Z_DRIFT_FP,
{
    assert(r0.wave_speed as int * 0 == 0);
    assert(fmul(r0.wave_speed as int, 0) == 0);
    assert(wrap_angle(r0.wave_movement as int) == r0.wave_movement as int) by {
        assert(r0.wave_movement as int % (TWO_PI_FP as int) == r0.wave_movement as int) by (
        nonlinear_arith)
            requires
                0 <= r0.wave_movement < TWO_PI_FP,
        ;
    }
    assert(r1 == r0);
    lemma_zero_swing_trig();
    crate::fp::lemma_exact_scale_cancel(t0.translation.x as int);
    assert(ripple_wave_y_spec(r0, 0) * 0 == 0) by (nonlinear_arith);
}

/// The swing trigonometry of a zero time step: angle zero, cosine one unit,
/// sine zero.
proof fn lemma_zero_swing_trig()
    ensures
        swing_theta_spec(0) == 0,
        cos_fp_spec(0) == SCALE,
        sin_fp_spec(0) == 0,
{
    assert(0int * (HALF_PI_FP as int) == 0);
    assert(swing_theta_spec(0) == 0);
    assert(wrap_angle(0) == 0);
    assert(cos_fp_spec(0) == crate::trig::sin_fp_spec(HALF_PI_FP as int));
    assert(wrap_angle(HALF_PI_FP as int) == HALF_PI_FP as int);
    assert(crate::trig::sin_poly_spec(HALF_PI_FP as int) == SCALE);
    assert(crate::trig::sin_poly_spec(0) == 0);
}

} // verus!
