//! Closed-form generation of one ring of the startup scene.
//!
//! A ring places one object per angle step: for step `s`, at every whole
//! angle `0, s, 2*s, ...` below a full circle, an object stands on the circle
//! of the ring's radius, with a depth coordinate given by the ring's depth
//! rule, optionally turned about the depth axis by its own angle.

use vstd::prelude::*;

use crate::animate::OrientationFp;
use crate::animate::TransformFp;
use crate::animate::Vec3Fp;
use crate::animate::PARAM_LIMIT;
use crate::fp::div_trunc;
use crate::fp::fmul;
use crate::fp::fixed_mul;
use crate::fp::lemma_div_scale_err;
use crate::fp::lemma_fmul_le;
use crate::fp::lemma_mul_le;
use crate::fp::SCALE;
use crate::scene::BehaviorSpec;
use crate::scene::ShapeSpec;
use crate::scene::SpawnKind;
use crate::scene::SpawnRecord;
use crate::scene::TweenSpec;
use crate::trig::cos_deg;
use crate::trig::cos_deg_spec;
use crate::trig::deg_to_rad;
use crate::trig::deg_to_rad_spec;
use crate::trig::lemma_deg_norm;
use crate::trig::quarter_sin_spec;
use crate::trig::sin_deg;
use crate::trig::sin_deg_spec;

verus! {

/// How the depth coordinate of a ring object follows from its angle, in
/// whole degrees.
#[derive(Clone, Copy, PartialEq, Eq, Structural, Debug)]
pub enum DepthRule {
    /// The same fixed depth for every object.
    Constant(i64),
    /// The cosine of the angle, scaled by a factor and shifted: a ring tilted
    /// into depth.
    CosScaled { factor: i64, offset: i64 },
    /// Depth climbs linearly with the angle: `angle * num / den` units, so a
    /// ring becomes a helix turn.
    Linear { num: i64, den: i64 },
}

impl DepthRule {
    /// Parameters within the range the arithmetic admits.
    pub open spec fn wf(self) -> bool {
        match self {
            DepthRule::Constant(c) => -PARAM_LIMIT <= c <= PARAM_LIMIT,
            DepthRule::CosScaled { factor, offset } => -PARAM_LIMIT <= factor <= PARAM_LIMIT
                && -PARAM_LIMIT <= offset <= PARAM_LIMIT,
            DepthRule::Linear { num, den } => -1000 <= num <= 1000 && 1 <= den <= SCALE,
        }
    }
}

/// The depth of the object standing at angle `a` degrees.
pub open spec fn depth_spec(rule: DepthRule, a: int) -> int {
    match rule {
        DepthRule::Constant(c) => c as int,
        DepthRule::CosScaled { factor, offset } => fmul(cos_deg_spec(a), factor as int)
            + offset as int,
        DepthRule::Linear { num, den } => div_trunc(a * num * (SCALE as int), den as int),
    }
}

/// Evaluates a depth rule at one whole-degree angle.
pub fn depth_at(rule: &DepthRule, a: u32) -> (d: i64)
    requires
        rule.wf(),
        a < 360,
    ensures
        d == depth_spec(*rule, a as int),
        -(2 * PARAM_LIMIT + 1) <= d <= 2 * PARAM_LIMIT + 1,
{
    match rule {
        DepthRule::Constant(c) => *c,
        DepthRule::CosScaled { factor, offset } => {
            let c = cos_deg(a);
            proof {
                lemma_fmul_le(cos_deg_spec(a as int), *factor as int, SCALE as int,
                    PARAM_LIMIT as int);
            }
            fixed_mul(c, *factor) + *offset
        },
        DepthRule::Linear { num, den } => {
            let mag: u64 = if *num >= 0 {
                *num as u64
            } else {
                (-*num) as u64
            };
            proof {
                assert(0 <= a as int * (mag as int) <= 360 * 1000) by (nonlinear_arith)
                    requires
                        0 <= a < 360 && 0 <= mag <= 1000,
                ;
                vstd::arithmetic::div_mod::lemma_div_basics_5(
                    a as int * (mag as int) * (SCALE as int),
                    *den as int,
                );
                vstd::arithmetic::div_mod::lemma_div_pos_is_pos(
                    a as int * (mag as int) * (SCALE as int),
                    *den as int,
                );
            }
            let wide: u64 = (a as u64) * mag * (SCALE as u64);
            let quot: i64 = (wide / (*den as u64)) as i64;
            if *num >= 0 {
                quot
            } else {
                proof {
                    assert(-(a as int * (*num as int) * (SCALE as int)) == a as int * (mag as int)
                        * (SCALE as int)) by (nonlinear_arith)
                        requires
                            mag == -*num,
                    ;
                }
                -quot
            }
        },
    }
}

/// Which pair of axes the circle spans: frontal rings span the two screen
/// axes with depth along the third; ground rings lie flat, the depth rule
/// giving the height.
#[derive(Clone, Copy, PartialEq, Eq, Structural, Debug)]
pub enum CirclePlane {
    Frontal,
    Ground,
}

/// Which material each ring object points at: one shared entry, or a fresh
/// entry per object counted up from a base index.
#[derive(Clone, Copy, PartialEq, Eq, Structural, Debug)]
pub enum MaterialAssign {
    Shared(usize),
    FreshFrom(usize),
}

impl MaterialAssign {
    /// Index bases small enough that an index never overflows.
    pub open spec fn wf(self) -> bool {
        match self {
            MaterialAssign::Shared(i) => i <= 1_000_000,
            MaterialAssign::FreshFrom(b) => b <= 1_000_000,
        }
    }
}

/// The material index of the `k`-th object of a ring.
pub open spec fn material_of(assign: MaterialAssign, k: int) -> int {
    match assign {
        MaterialAssign::Shared(i) => i as int,
        MaterialAssign::FreshFrom(b) => b + k,
    }
}

/// Everything one ring needs: its geometry, its look, and what each of its
/// objects carries.
#[derive(Clone, Copy, PartialEq, Eq, Structural, Debug)]
pub struct RingParams {
    /// Radius of the circle, in fixed-point units.
    pub radius: i64,
    /// Whole degrees between neighbouring objects.
    pub step_deg: u32,
    /// How depth follows from the angle.
    pub rule: DepthRule,
    /// Which axes the circle spans.
    pub plane: CirclePlane,
    /// Whether each object is turned about the depth axis by its own angle.
    pub rotated: bool,
    /// Edge length of each cube, in fixed-point units.
    pub size: i64,
    /// How each object finds its material.
    pub assign: MaterialAssign,
    /// The behavior tag every object of the ring carries.
    pub behavior: BehaviorSpec,
    /// The tween record every object of the ring carries, if any.
    pub tween: Option<TweenSpec>,
}

impl RingParams {
    /// Parameters within the ranges the arithmetic admits.
    pub open spec fn wf(self) -> bool {
        &&& 1 <= self.step_deg <= 360
        &&& 0 <= self.radius <= PARAM_LIMIT
        &&& self.rule.wf()
        &&& 0 <= self.size <= PARAM_LIMIT
        &&& self.assign.wf()
    }
}

/// How many objects a ring of the given step holds: one per multiple of the
/// step below a full circle.
pub open spec fn ring_count(step: int) -> int {
    359int / step + 1
}

/// Where the `k`-th object of a ring stands: on the circle at angle
/// `k * step` degrees, with the depth rule on the remaining axis.
pub open spec fn ring_translation_spec(p: RingParams, k: int) -> Vec3Fp {
    let a = k * p.step_deg;
    let u = fmul(cos_deg_spec(a), p.radius as int) as i64;
    let v = fmul(sin_deg_spec(a), p.radius as int) as i64;
    let d = depth_spec(p.rule, a) as i64;
    match p.plane {
        CirclePlane::Frontal => Vec3Fp { x: u, y: v, z: d },
        CirclePlane::Ground => Vec3Fp { x: u, y: d, z: v },
    }
}

/// The complete `k`-th object of a ring.
pub open spec fn ring_record_spec(p: RingParams, k: int) -> SpawnRecord {
    let a = k * p.step_deg;
    SpawnRecord {
        kind: SpawnKind::Shape {
            shape: ShapeSpec::Cube { size: p.size },
            material: material_of(p.assign, k) as usize,
        },
        transform: TransformFp {
            translation: ring_translation_spec(p, k),
            rotation: OrientationFp {
                pitch: 0,
                yaw: 0,
                roll: if p.rotated {
                    deg_to_rad_spec(a) as i64
                } else {
                    0
                },
            },
        },
        behavior: p.behavior,
        tween: p.tween,
    }
}

/// Generates one ring: one object per angle step below a full circle.
pub fn ring_records(p: &RingParams) -> (records: Vec<SpawnRecord>)
    requires
        p.wf(),
    ensures
        records@.len() == ring_count(p.step_deg as int),
        forall|k: int|
            0 <= k < records@.len() ==> #[trigger] records@[k] == ring_record_spec(*p, k),
{
    let mut records: Vec<SpawnRecord> = Vec::new();
    let mut a: u32 = 0;
    proof {
        assert(records@.len() * (p.step_deg as int) == 0) by (nonlinear_arith)
            requires
                records@.len() == 0,
        ;
    }
    while a < 360
        invariant
            p.wf(),
            a as int == records@.len() * (p.step_deg as int),
            records@.len() * (p.step_deg as int) <= 359 + p.step_deg,
            records@.len() <= 720,
            forall|k: int|
                0 <= k < records@.len() ==> #[trigger] records@[k] == ring_record_spec(*p, k),
        decreases 720 - a,
    {
        proof {
            assert(records@.len() < 360) by (nonlinear_arith)
                requires
                    records@.len() * (p.step_deg as int) < 360 && p.step_deg >= 1,
            ;
        }
        let c = cos_deg(a);
        let s = sin_deg(a);
        proof {
            lemma_fmul_le(cos_deg_spec(a as int), p.radius as int, SCALE as int,
                PARAM_LIMIT as int);
            lemma_fmul_le(sin_deg_spec(a as int), p.radius as int, SCALE as int,
                PARAM_LIMIT as int);
        }
        let u = fixed_mul(c, p.radius);
        let v = fixed_mul(s, p.radius);
        let d = depth_at(&p.rule, a);
        let translation = match p.plane {
            CirclePlane::Frontal => Vec3Fp { x: u, y: v, z: d },
            CirclePlane::Ground => Vec3Fp { x: u, y: d, z: v },
        };
        let roll: i64 = if p.rotated {
            deg_to_rad(a)
        } else {
            0
        };
        let material: usize = match p.assign {
            MaterialAssign::Shared(i) => i,
            MaterialAssign::FreshFrom(b) => b + records.len(),
        };
        let record = SpawnRecord {
            kind: SpawnKind::Shape { shape: ShapeSpec::Cube { size: p.size }, material },
            transform: TransformFp {
                translation,
                rotation: OrientationFp { pitch: 0, yaw: 0, roll },
            },
            behavior: p.behavior,
            tween: p.tween,
        };
        proof {
            assert(record == ring_record_spec(*p, records@.len() as int));
            assert((records@.len() + 1) * (p.step_deg as int) == records@.len() * (
            p.step_deg as int) + p.step_deg) by (nonlinear_arith);
        }
        records.push(record);
        a = a + p.step_deg;
    }
    proof {
        let n = records@.len() as int;
        let s = p.step_deg as int;
        assert(n * s >= 360);
        assert(n >= 1) by (nonlinear_arith)
            requires
                n * s >= 360 && 1 <= s <= 360,
        ;
        assert((n - 1) * s == n * s - s) by (nonlinear_arith);
        assert((n - 1) * s <= 359);
        vstd::arithmetic::div_mod::lemma_fundamental_div_mod_converse(
            359,
            s,
            n - 1,
            359 - (n - 1) * s,
        );
    }
    records
}

/// Where the step does not divide a full circle, a ring holds one object
/// more than the whole number of steps in the circle.
pub proof fn lemma_ring_count_formula(step: int)
    requires
        1 <= step <= 360,
        360int % step != 0,
    ensures
        ring_count(step) == 360int / step + 1,
{
    vstd::arithmetic::div_mod::lemma_fundamental_div_mod(360int, step);
    vstd::arithmetic::div_mod::lemma_mod_bound(360int, step);
    let q = 360int / step;
    let r = 360int % step;
    assert(step * q == q * step) by (nonlinear_arith);
    vstd::arithmetic::div_mod::lemma_fundamental_div_mod_converse(359int, step, q, r - 1);
}

/// The tolerance of the on-circle law: how far the squared planar distance
/// of a generated point may sit from the squared radius, from the rounding
/// of the sine table and the fixed-point truncations.
pub open spec fn norm_tolerance(radius: int) -> int {
    3 * radius * radius / (SCALE as int) + 4 * radius + 3
}

/// Squaring keeps closeness: if `x` sits within `d` of `y` and `y` is
/// bounded, the squares sit within `d * (d + 2 * bound)` of each other.
proof fn lemma_sq_close(x: int, y: int, d: int, m: int) by (nonlinear_arith)
    requires
        -d <= x - y <= d,
        -m <= y <= m,
        0 <= d,
        0 <= m,
    ensures
        -(d * (d + 2 * m)) <= x * x - y * y <= d * (d + 2 * m),
{
}

/// Whole degrees have sines and cosines no larger than one unit.
pub proof fn lemma_deg_bounds(a: int)
    requires
        0 <= a < 360,
    ensures
        -SCALE <= sin_deg_spec(a) <= SCALE,
        -SCALE <= cos_deg_spec(a) <= SCALE,
{
    assert forall|d: int| 0 <= #[trigger] quarter_sin_spec(d) <= SCALE by {
        reveal(quarter_sin_spec);
    }
    assert((a + 90) % 360 < 360) by {
        vstd::arithmetic::div_mod::lemma_mod_bound(a + 90, 360);
    }
}

/// Every generated ring object stands on its circle: excluding the depth
/// coordinate, the squared distance from the centre differs from the squared
/// radius by no more than the stated tolerance.
pub proof fn lemma_ring_on_circle(radius: int, a: int)
    requires
        0 <= radius <= PARAM_LIMIT,
        0 <= a < 360,
    ensures
        ({
            let u = fmul(cos_deg_spec(a), radius);
            let v = fmul(sin_deg_spec(a), radius);
            radius * radius - norm_tolerance(radius) <= u * u + v * v <= radius * radius
                + norm_tolerance(radius)
        }),
{
    let s = (SCALE as int);
    let c = cos_deg_spec(a);
    let sn = sin_deg_spec(a);
    let u = fmul(c, radius);
    let v = fmul(sn, radius);
    lemma_deg_bounds(a);
    lemma_deg_norm(a);
    lemma_mul_le(c, radius, s, radius);
    lemma_mul_le(sn, radius, s, radius);
    lemma_div_scale_err(c * radius);
    lemma_div_scale_err(sn * radius);
    lemma_sq_close(u * s, c * radius, s, s * radius);
    lemma_sq_close(v * s, sn * radius, s, s * radius);
    assert((u * s) * (u * s) == (u * u) * (s * s)) by (nonlinear_arith);
    assert((v * s) * (v * s) == (v * v) * (s * s)) by (nonlinear_arith);
    assert((c * radius) * (c * radius) == (c * c) * (radius * radius)) by (nonlinear_arith);
    assert((sn * radius) * (sn * radius) == (sn * sn) * (radius * radius)) by (nonlinear_arith);
    let rr = radius * radius;
    assert(rr >= 0) by (nonlinear_arith)
        requires
            rr == radius * radius,
    ;
    assert(3 * radius * radius == 3 * rr) by (nonlinear_arith)
        requires
            rr == radius * radius,
    ;
    assert((s * s - 850000) * rr <= (c * c + sn * sn) * rr <= (s * s + 1150000) * rr) by (
    nonlinear_arith)
        requires
            s * s - 850000 <= c * c + sn * sn <= s * s + 1150000,
            rr >= 0,
    ;
    assert((c * c) * rr + (sn * sn) * rr == (c * c + sn * sn) * rr) by (nonlinear_arith);
    let err = s * (s + 2 * (s * radius));
    assert((u * u + v * v) * (s * s) == (u * u) * (s * s) + (v * v) * (s * s)) by (nonlinear_arith);
    assert((u * u + v * v) * (s * s) >= (s * s - 850000) * rr - 2 * err);
    assert((u * u + v * v) * (s * s) <= (s * s + 1150000) * rr + 2 * err);
    let tol = norm_tolerance(radius);
    assert(tol * (s * s) >= 1150000 * rr + 2 * err) by {
        assert((3 * rr / s) * s >= 3 * rr - s) by {
            vstd::arithmetic::div_mod::lemma_fundamental_div_mod(3 * rr, s);
            vstd::arithmetic::div_mod::lemma_mod_bound(3 * rr, s);
            assert(rr >= 0) by (nonlinear_arith)
                requires
                    rr == radius * radius,
            ;
        }
        assert(tol * (s * s) == (3 * rr / s) * s * s + (4 * radius + 3) * (s * s)) by (
        nonlinear_arith)
            requires
                tol == 3 * rr / s + 4 * radius + 3,
        ;
        assert((3 * rr / s) * s * s >= (3 * rr - s) * s) by (nonlinear_arith)
            requires
                (3 * rr / s) * s >= 3 * rr - s,
        ;
        assert((3 * rr - s) * s + (4 * radius + 3) * (s * s) >= 1150000 * rr + 2 * err) by (
        nonlinear_arith)
            requires
                err == s * (s + 2 * (s * radius)),
                s == 1000000,
                rr >= 0,
            ;
    }
    assert(u * u + v * v <= rr + tol) by (nonlinear_arith)
        requires
            (u * u + v * v) * (s * s) <= (s * s + 1150000) * rr + 2 * err,
            tol * (s * s) >= 1150000 * rr + 2 * err,
            s == 1000000,
    ;
    assert(u * u + v * v >= rr - tol) by (nonlinear_arith)
        requires
            (u * u + v * v) * (s * s) >= (s * s - 850000) * rr - 2 * err,
            tol * (s * s) >= 1150000 * rr + 2 * err,
            s == 1000000,
            rr >= 0,
    ;
}


/// Every object of a generated ring stands on the ring's circle: the two
/// circle coordinates of its translation, squared and summed, differ from
/// the squared radius by no more than the tolerance. The depth coordinate
/// is excluded, whichever axis the ring's plane put it on.
pub proof fn lemma_ring_record_on_circle(p: RingParams, k: int)
    requires
        p.wf(),
        0 <= k < ring_count(p.step_deg as int),
    ensures
        ({
            let t = ring_translation_spec(p, k);
            let u = t.x;
            let v = match p.plane {
                CirclePlane::Frontal => t.y,
                CirclePlane::Ground => t.z,
            };
            p.radius * p.radius - norm_tolerance(p.radius as int) <= u * u + v * v <= p.radius
                * p.radius + norm_tolerance(p.radius as int)
        }),
{
    let s = p.step_deg as int;
    let a = k * s;
    vstd::arithmetic::div_mod::lemma_fundamental_div_mod(359int, s);
    vstd::arithmetic::div_mod::lemma_mod_bound(359int, s);
    let q = 359int / s;
    assert(a <= q * s) by (nonlinear_arith)
        requires
            0 <= k <= q && s >= 1 && a == k * s,
    ;
    assert(q * s == s * q) by (nonlinear_arith);
    assert(0 <= a < 360);
    lemma_deg_bounds(a);
    lemma_fmul_le(cos_deg_spec(a), p.radius as int, SCALE as int, PARAM_LIMIT as int);
    lemma_fmul_le(sin_deg_spec(a), p.radius as int, SCALE as int, PARAM_LIMIT as int);
    lemma_ring_on_circle(p.radius as int, a);
}

} // verus!
