//! The startup scene: the record types of the spawn manifest, and the
//! manifest itself.
//!
//! At startup the host instantiates one renderable object (or light) per
//! spawn record. A record carries everything the host needs: what to draw,
//! which material entry to draw it with, where it stands, which behavior tag
//! it carries for the per-tick updaters, and an optional tween that the
//! host's tween player animates. Material entries are shared: two records
//! with the same material index show the same material, so tweening that one
//! entry recolours them all at once.

use vstd::prelude::*;

use crate::animate::MovementBehavior;
use crate::animate::OrientationFp;
use crate::animate::Ripple;
use crate::animate::TransformFp;
use crate::animate::Vec3Fp;
use crate::fp::SCALE;
use crate::layout::ring_count;
use crate::layout::ring_record_spec;
use crate::layout::ring_records;
use crate::layout::CirclePlane;
use crate::layout::DepthRule;
use crate::layout::MaterialAssign;
use crate::layout::RingParams;

verus! {

/// A colour as three 8-bit channels, as a material or light is declared.
#[derive(Clone, Copy, PartialEq, Eq, Structural, Debug)]
pub struct ColorSpec {
    pub red: u8,
    pub green: u8,
    pub blue: u8,
}

/// What a renderable record draws.
#[derive(Clone, Copy, PartialEq, Eq, Structural, Debug)]
pub enum ShapeSpec {
    /// A flat square ground plane of the given half extent.
    Plane { half_extent: i64 },
    /// A cube of the given edge length.
    Cube { size: i64 },
}

/// How often a tween repeats. Every tween of this scene plays back and forth
/// (mirrored), so the count counts single directions.
#[derive(Clone, Copy, PartialEq, Eq, Structural, Debug)]
pub enum RepeatSpec {
    Finite(u32),
    Infinite,
}

/// Which property a tween drives, with its two endpoints.
#[derive(Clone, Copy, PartialEq, Eq, Structural, Debug)]
pub enum TweenTargetSpec {
    /// Uniform scale of the object, in fixed-point units.
    Scale { start: i64, end: i64 },
    /// Base colour of the object's material entry.
    BaseColor { start_color: ColorSpec, end_color: ColorSpec },
    /// Illuminance of a light, in fixed-point units.
    Illuminance { start: i64, end: i64 },
}

/// One tween: a property driven between two endpoints over a duration,
/// repeated mirrored.
#[derive(Clone, Copy, PartialEq, Eq, Structural, Debug)]
pub struct TweenSpec {
    pub duration_ms: u64,
    pub repeat: RepeatSpec,
    pub target: TweenTargetSpec,
}

/// The behavior tag of a spawned object: which per-tick updater touches it.
#[derive(Clone, Copy, PartialEq, Eq, Structural, Debug)]
pub enum BehaviorSpec {
    /// No updater: the object only moves if a tween moves it.
    Fixed,
    /// The ripple updater, with the object's initial ripple state.
    Rippling(Ripple),
    /// The snake updater.
    Snakelike,
}

/// What one record spawns: a shape with a material entry, or a directional
/// light.
#[derive(Clone, Copy, PartialEq, Eq, Structural, Debug)]
pub enum SpawnKind {
    Shape { shape: ShapeSpec, material: usize },
    Light { color: ColorSpec, shadows: bool },
}

/// One object of the startup manifest.
#[derive(Clone, Copy, PartialEq, Eq, Structural, Debug)]
pub struct SpawnRecord {
    pub kind: SpawnKind,
    pub transform: TransformFp,
    pub behavior: BehaviorSpec,
    pub tween: Option<TweenSpec>,
}

/// The deep cobalt used by the ground plane and the directional light.
pub open spec fn cobalt() -> ColorSpec {
    ColorSpec { red: 0, green: 71, blue: 171 }
}

/// The dark blue shared by the plain ring cubes.
pub open spec fn dark_blue() -> ColorSpec {
    ColorSpec { red: 4, green: 28, blue: 86 }
}

/// The ground plane: a wide flat square well below the rings.
pub open spec fn plane_record() -> SpawnRecord {
    SpawnRecord {
        kind: SpawnKind::Shape { shape: ShapeSpec::Plane { half_extent: 30_000_000 }, material: 0 },
        transform: TransformFp {
            translation: Vec3Fp { x: 0, y: -8_000_000i64, z: 0 },
            rotation: OrientationFp { pitch: 0, yaw: 0, roll: 0 },
        },
        behavior: BehaviorSpec::Fixed,
        tween: None,
    }
}

/// The pink cube beside the plane whose uniform scale tweens from one unit
/// to fifteen over ten seconds, once out and once back.
pub open spec fn scaling_cube_record() -> SpawnRecord {
    SpawnRecord {
        kind: SpawnKind::Shape { shape: ShapeSpec::Cube { size: 1_000_000 }, material: 1 },
        transform: TransformFp {
            translation: Vec3Fp { x: 0, y: -8_000_000i64, z: 0 },
            rotation: OrientationFp { pitch: 0, yaw: 0, roll: 0 },
        },
        behavior: BehaviorSpec::Fixed,
        tween: Some(
            TweenSpec {
                duration_ms: 10_000,
                repeat: RepeatSpec::Finite(2),
                target: TweenTargetSpec::Scale { start: 1_000_000, end: 15_000_000 },
            },
        ),
    }
}

/// The frontal ring whose cubes share one tweened material: its base colour
/// plays red to yellow forever, recolouring all twelve cubes at once.
pub open spec fn tweened_ring_params() -> RingParams {
    RingParams {
        radius: 5_000_000,
        step_deg: 30,
        rule: DepthRule::Constant(-5_000_000i64),
        plane: CirclePlane::Frontal,
        rotated: true,
        size: 1_500_000,
        assign: MaterialAssign::Shared(2),
        behavior: BehaviorSpec::Fixed,
        tween: Some(
            TweenSpec {
                duration_ms: 2_000,
                repeat: RepeatSpec::Infinite,
                target: TweenTargetSpec::BaseColor {
                    start_color: ColorSpec { red: 255, green: 0, blue: 0 },
                    end_color: ColorSpec { red: 255, green: 255, blue: 0 },
                },
            },
        ),
    }
}

/// The frontal ring tilted into depth by the cosine of its angle.
pub open spec fn tilted_ring_params() -> RingParams {
    RingParams {
        radius: 5_000_000,
        step_deg: 30,
        rule: DepthRule::CosScaled { factor: 5_000_000, offset: -20_000_000i64 },
        plane: CirclePlane::Frontal,
        rotated: true,
        size: 1_500_000,
        assign: MaterialAssign::FreshFrom(3),
        behavior: BehaviorSpec::Fixed,
        tween: None,
    }
}

/// The ground helix: a ring lying flat whose height climbs with the angle.
pub open spec fn helix_ring_params() -> RingParams {
    RingParams {
        radius: 5_000_000,
        step_deg: 30,
        rule: DepthRule::Linear { num: 1, den: 15 },
        plane: CirclePlane::Ground,
        rotated: true,
        size: 1_500_000,
        assign: MaterialAssign::FreshFrom(15),
        behavior: BehaviorSpec::Fixed,
        tween: None,
    }
}

/// The wider ground helix: every ring object is turned about the depth axis
/// by its own angle, as the layout rule has it.
pub open spec fn wide_helix_ring_params() -> RingParams {
    RingParams {
        radius: 10_000_000,
        step_deg: 30,
        rule: DepthRule::Linear { num: 1, den: 15 },
        plane: CirclePlane::Ground,
        rotated: true,
        size: 1_500_000,
        assign: MaterialAssign::FreshFrom(27),
        behavior: BehaviorSpec::Fixed,
        tween: None,
    }
}

/// The fine outer helix: small cubes every two degrees, climbing faster.
pub open spec fn fine_helix_ring_params() -> RingParams {
    RingParams {
        radius: 15_000_000,
        step_deg: 2,
        rule: DepthRule::Linear { num: 2, den: 15 },
        plane: CirclePlane::Ground,
        rotated: true,
        size: 250_000,
        assign: MaterialAssign::FreshFrom(39),
        behavior: BehaviorSpec::Fixed,
        tween: None,
    }
}

/// The snake ring: a frontal ring receding into depth whose cubes carry the
/// snake updater.
pub open spec fn snake_ring_params() -> RingParams {
    RingParams {
        radius: 5_000_000,
        step_deg: 30,
        rule: DepthRule::Linear { num: -1i64, den: 15 },
        plane: CirclePlane::Frontal,
        rotated: true,
        size: 1_500_000,
        assign: MaterialAssign::FreshFrom(219),
        behavior: BehaviorSpec::Snakelike,
        tween: None,
    }
}

/// The `h`-th cube of the undulating column: one of twenty small cubes
/// stacked along depth, all sharing one material, each carrying the ripple
/// updater with its own placement offset.
pub open spec fn column_record(h: int) -> SpawnRecord {
    SpawnRecord {
        kind: SpawnKind::Shape { shape: ShapeSpec::Cube { size: 500_000 }, material: 231 },
        transform: TransformFp {
            translation: Vec3Fp { x: 0, y: 0, z: (h * (SCALE as int)) as i64 },
            rotation: OrientationFp { pitch: 0, yaw: 0, roll: 0 },
        },
        behavior: BehaviorSpec::Rippling(
            Ripple {
                wave_movement: 0,
                wave_tiling: 10_000_000,
                wave_height: 1_500_000,
                wave_speed: 2_000_000,
                x: 0,
                y: ((h * (SCALE as int)) / 19) as i64,
                movement_behavior: MovementBehavior::Undulating,
            },
        ),
        tween: None,
    }
}

/// The directional light high above the scene, its illuminance tweening from
/// nearly dark to full glare and back, forever.
pub open spec fn light_record() -> SpawnRecord {
    SpawnRecord {
        kind: SpawnKind::Light { color: cobalt(), shadows: true },
        transform: TransformFp {
            translation: Vec3Fp { x: 0, y: 1_000_000_000, z: 0 },
            rotation: OrientationFp { pitch: 0, yaw: 0, roll: 0 },
        },
        behavior: BehaviorSpec::Fixed,
        tween: Some(
            TweenSpec {
                duration_ms: 3_000,
                repeat: RepeatSpec::Infinite,
                target: TweenTargetSpec::Illuminance { start: 100, end: 100_000_000_000 },
            },
        ),
    }
}

/// Where the free-fly camera starts: its eye, what it looks at, which way is
/// up, and how fast the movement keys translate it.
#[derive(Clone, Copy, PartialEq, Eq, Structural, Debug)]
pub struct CameraStart {
    pub eye: Vec3Fp,
    pub target: Vec3Fp,
    pub up: Vec3Fp,
    pub translate_sensitivity: i64,
}

/// The camera's starting pose: above and beside the origin, looking at it.
pub open spec fn camera_start_spec() -> CameraStart {
    CameraStart {
        eye: Vec3Fp { x: -2_000_000i64, y: 5_000_000, z: 5_000_000 },
        target: Vec3Fp { x: 0, y: 0, z: 0 },
        up: Vec3Fp { x: 0, y: 1_000_000, z: 0 },
        translate_sensitivity: 12_000_000,
    }
}

/// Hands the host the camera's starting pose.
pub fn camera_start() -> (c: CameraStart)
    ensures
        c == camera_start_spec(),
{
    CameraStart {
        eye: Vec3Fp { x: -2_000_000, y: 5_000_000, z: 5_000_000 },
        target: Vec3Fp { x: 0, y: 0, z: 0 },
        up: Vec3Fp { x: 0, y: 1_000_000, z: 0 },
        translate_sensitivity: 12_000_000,
    }
}

/// How the window treats the pointer while the demo runs: confined to the
/// window and hidden.
#[derive(Clone, Copy, PartialEq, Eq, Structural, Debug)]
pub struct CursorSettings {
    pub confined: bool,
    pub visible: bool,
}

/// Hands the host the cursor settings.
pub fn cursor_settings() -> (c: CursorSettings)
    ensures
        c.confined,
        !c.visible,
{
    CursorSettings { confined: true, visible: false }
}

/// True when a record's material index points into a material list of the
/// given length (lights carry no material).
pub open spec fn material_index_ok(rec: SpawnRecord, len: int) -> bool {
    match rec.kind {
        SpawnKind::Shape { shape, material } => material < len,
        SpawnKind::Light { color, shadows } => true,
    }
}

/// The whole startup scene: the material list and every object to spawn.
pub struct SceneManifest {
    /// The material entries records point into; a shared entry is pointed at
    /// by several records.
    pub materials: Vec<ColorSpec>,
    /// One entry per object to create at startup.
    pub records: Vec<SpawnRecord>,
}

/// Extends the material list with `n` copies of one colour.
fn push_materials(materials: &mut Vec<ColorSpec>, color: ColorSpec, n: usize)
    requires
        old(materials)@.len() + n <= 100_000_000,
    ensures
        final(materials)@.len() == old(materials)@.len() + n,
        forall|k: int|
            0 <= k < old(materials)@.len() ==> final(materials)@[k] == old(materials)@[k],
        forall|k: int|
            old(materials)@.len() <= k < final(materials)@.len() ==> final(materials)@[k] == color,
{
    let mut i: usize = 0;
    while i < n
        invariant
            old(materials)@.len() + n <= 100_000_000,
            i <= n,
            materials@.len() == old(materials)@.len() + i,
            forall|k: int|
                0 <= k < old(materials)@.len() ==> materials@[k] == old(materials)@[k],
            forall|k: int| old(materials)@.len() <= k < materials@.len() ==> materials@[k] == color,
        decreases n - i,
    {
        materials.push(color);
        i = i + 1;
    }
}

/// Builds the startup manifest: the ground plane, the scaling cube, six
/// rings, the undulating column, and the light, with every record and every
/// material entry pinned down.
pub fn scene_manifest() -> (m: SceneManifest)
    ensures
        m.materials@.len() == 232,
        m.records@.len() == 263,
        m.materials@[0] == cobalt(),
        m.materials@[1] == (ColorSpec { red: 255, green: 192, blue: 203 }),
        m.materials@[2] == (ColorSpec { red: 0, green: 0, blue: 0 }),
        m.materials@[231] == (ColorSpec { red: 255, green: 0, blue: 255 }),
        forall|k: int| 3 <= k < 231 ==> m.materials@[k] == dark_blue(),
        m.records@[0] == plane_record(),
        m.records@[1] == scaling_cube_record(),
        forall|k: int|
            0 <= k < 12 ==> m.records@[2 + k] == ring_record_spec(tweened_ring_params(), k),
        forall|k: int|
            0 <= k < 12 ==> m.records@[14 + k] == ring_record_spec(tilted_ring_params(), k),
        forall|k: int|
            0 <= k < 12 ==> m.records@[26 + k] == ring_record_spec(helix_ring_params(), k),
        forall|k: int|
            0 <= k < 12 ==> m.records@[38 + k] == ring_record_spec(wide_helix_ring_params(), k),
        forall|k: int|
            0 <= k < 180 ==> m.records@[50 + k] == ring_record_spec(fine_helix_ring_params(), k),
        forall|k: int|
            0 <= k < 12 ==> m.records@[230 + k] == ring_record_spec(snake_ring_params(), k),
        forall|h: int| 0 <= h < 20 ==> m.records@[242 + h] == column_record(h),
        m.records@[262] == light_record(),
        forall|k: int|
            0 <= k < m.records@.len() ==> material_index_ok(#[trigger] m.records@[k], 232),
{
    let mut materials: Vec<ColorSpec> = Vec::new();
    materials.push(ColorSpec { red: 0, green: 71, blue: 171 });
    materials.push(ColorSpec { red: 255, green: 192, blue: 203 });
    materials.push(ColorSpec { red: 0, green: 0, blue: 0 });
    push_materials(&mut materials, ColorSpec { red: 4, green: 28, blue: 86 }, 228);
    materials.push(ColorSpec { red: 255, green: 0, blue: 255 });

    let mut records: Vec<SpawnRecord> = Vec::new();
    records.push(
        SpawnRecord {
            kind: SpawnKind::Shape {
                shape: ShapeSpec::Plane { half_extent: 30_000_000 },
                material: 0,
            },
            transform: TransformFp {
                translation: Vec3Fp { x: 0, y: -8_000_000i64, z: 0 },
                rotation: OrientationFp { pitch: 0, yaw: 0, roll: 0 },
            },
            behavior: BehaviorSpec::Fixed,
            tween: None,
        },
    );
    records.push(
        SpawnRecord {
            kind: SpawnKind::Shape { shape: ShapeSpec::Cube { size: 1_000_000 }, material: 1 },
            transform: TransformFp {
                translation: Vec3Fp { x: 0, y: -8_000_000i64, z: 0 },
                rotation: OrientationFp { pitch: 0, yaw: 0, roll: 0 },
            },
            behavior: BehaviorSpec::Fixed,
            tween: Some(
                TweenSpec {
                    duration_ms: 10_000,
                    repeat: RepeatSpec::Finite(2),
                    target: TweenTargetSpec::Scale { start: 1_000_000, end: 15_000_000 },
                },
            ),
        },
    );
    proof {
        assert(records@[0] == plane_record());
        assert(records@[1] == scaling_cube_record());
    }

    let ring1 = RingParams {
        radius: 5_000_000,
        step_deg: 30,
        rule: DepthRule::Constant(-5_000_000i64),
        plane: CirclePlane::Frontal,
        rotated: true,
        size: 1_500_000,
        assign: MaterialAssign::Shared(2),
        behavior: BehaviorSpec::Fixed,
        tween: Some(
            TweenSpec {
                duration_ms: 2_000,
                repeat: RepeatSpec::Infinite,
                target: TweenTargetSpec::BaseColor {
                    start_color: ColorSpec { red: 255, green: 0, blue: 0 },
                    end_color: ColorSpec { red: 255, green: 255, blue: 0 },
                },
            },
        ),
    };
    proof {
        assert(ring1 == tweened_ring_params());
        assert(ring_count(30int) == 12);
        assert(ring_count(2int) == 180);
    }
    append_ring(&mut records, &ring1);

    let ring2 = RingParams {
        radius: 5_000_000,
        step_deg: 30,
        rule: DepthRule::CosScaled { factor: 5_000_000, offset: -20_000_000i64 },
        plane: CirclePlane::Frontal,
        rotated: true,
        size: 1_500_000,
        assign: MaterialAssign::FreshFrom(3),
        behavior: BehaviorSpec::Fixed,
        tween: None,
    };
    proof {
        assert(ring2 == tilted_ring_params());
    }
    append_ring(&mut records, &ring2);

    let ring3 = RingParams {
        radius: 5_000_000,
        step_deg: 30,
        rule: DepthRule::Linear { num: 1, den: 15 },
        plane: CirclePlane::Ground,
        rotated: true,
        size: 1_500_000,
        assign: MaterialAssign::FreshFrom(15),
        behavior: BehaviorSpec::Fixed,
        tween: None,
    };
    proof {
        assert(ring3 == helix_ring_params());
    }
    append_ring(&mut records, &ring3);

    let ring4 = RingParams {
        radius: 10_000_000,
        step_deg: 30,
        rule: DepthRule::Linear { num: 1, den: 15 },
        plane: CirclePlane::Ground,
        rotated: true,
        size: 1_500_000,
        assign: MaterialAssign::FreshFrom(27),
        behavior: BehaviorSpec::Fixed,
        tween: None,
    };
    proof {
        assert(ring4 == wide_helix_ring_params());
    }
    append_ring(&mut records, &ring4);

    let ring5 = RingParams {
        radius: 15_000_000,
        step_deg: 2,
        rule: DepthRule::Linear { num: 2, den: 15 },
        plane: CirclePlane::Ground,
        rotated: true,
        size: 250_000,
        assign: MaterialAssign::FreshFrom(39),
        behavior: BehaviorSpec::Fixed,
        tween: None,
    };
    proof {
        assert(ring5 == fine_helix_ring_params());
    }
    append_ring(&mut records, &ring5);

    let ring6 = RingParams {
        radius: 5_000_000,
        step_deg: 30,
        rule: DepthRule::Linear { num: -1i64, den: 15 },
        plane: CirclePlane::Frontal,
        rotated: true,
        size: 1_500_000,
        assign: MaterialAssign::FreshFrom(219),
        behavior: BehaviorSpec::Snakelike,
        tween: None,
    };
    proof {
        assert(ring6 == snake_ring_params());
    }
    append_ring(&mut records, &ring6);

    let ghost head = records@;
    let mut h: usize = 0;
    while h < 20
        invariant
            head.len() == 242,
            records@.len() == 242 + h,
            h <= 20,
            forall|k: int| 0 <= k < 242 ==> records@[k] == head[k],
            forall|j: int| 0 <= j < h ==> records@[242 + j] == column_record(j),
        decreases 20 - h,
    {
        let depth: i64 = (h as i64) * 1_000_000;
        let offset: i64 = (((h as u64) * 1_000_000) / 19) as i64;
        records.push(
            SpawnRecord {
                kind: SpawnKind::Shape { shape: ShapeSpec::Cube { size: 500_000 }, material: 231 },
                transform: TransformFp {
                    translation: Vec3Fp { x: 0, y: 0, z: depth },
                    rotation: OrientationFp { pitch: 0, yaw: 0, roll: 0 },
                },
                behavior: BehaviorSpec::Rippling(
                    Ripple {
                        wave_movement: 0,
                        wave_tiling: 10_000_000,
                        wave_height: 1_500_000,
                        wave_speed: 2_000_000,
                        x: 0,
                        y: offset,
                        movement_behavior: MovementBehavior::Undulating,
                    },
                ),
                tween: None,
            },
        );
        h = h + 1;
    }

    records.push(
        SpawnRecord {
            kind: SpawnKind::Light {
                color: ColorSpec { red: 0, green: 71, blue: 171 },
                shadows: true,
            },
            transform: TransformFp {
                translation: Vec3Fp { x: 0, y: 1_000_000_000, z: 0 },
                rotation: OrientationFp { pitch: 0, yaw: 0, roll: 0 },
            },
            behavior: BehaviorSpec::Fixed,
            tween: Some(
                TweenSpec {
                    duration_ms: 3_000,
                    repeat: RepeatSpec::Infinite,
                    target: TweenTargetSpec::Illuminance { start: 100, end: 100_000_000_000 },
                },
            ),
        },
    );

    let m = SceneManifest { materials, records };
    proof {
        assert(m.records@[262] == light_record());
        assert forall|k: int|
            0 <= k < m.records@.len() implies material_index_ok(#[trigger] m.records@[k], 232) by {
            if 2 <= k < 14 {
                assert(m.records@[k] == ring_record_spec(tweened_ring_params(), k - 2));
            } else if 14 <= k < 26 {
                assert(m.records@[k] == ring_record_spec(tilted_ring_params(), k - 14));
            } else if 26 <= k < 38 {
                assert(m.records@[k] == ring_record_spec(helix_ring_params(), k - 26));
            } else if 38 <= k < 50 {
                assert(m.records@[k] == ring_record_spec(wide_helix_ring_params(), k - 38));
            } else if 50 <= k < 230 {
                assert(m.records@[k] == ring_record_spec(fine_helix_ring_params(), k - 50));
            } else if 230 <= k < 242 {
                assert(m.records@[k] == ring_record_spec(snake_ring_params(), k - 230));
            } else if 242 <= k < 262 {
                assert(m.records@[k] == column_record(k - 242));
            }
        }
    }
    m
}

/// Appends one generated ring to the record list, leaving what was already
/// there untouched.
fn append_ring(records: &mut Vec<SpawnRecord>, p: &RingParams)
    requires
        p.wf(),
        old(records)@.len() + 720 <= 100_000_000,
    ensures
        final(records)@.len() == old(records)@.len() + ring_count(p.step_deg as int),
        forall|k: int| 0 <= k < old(records)@.len() ==> final(records)@[k] == old(records)@[k],
        forall|k: int|
            0 <= k < ring_count(p.step_deg as int) ==> final(records)@[old(records)@.len() + k]
                == ring_record_spec(*p, k),
{
    let ring = ring_records(p);
    let mut i: usize = 0;
    while i < ring.len()
        invariant
            ring@.len() == ring_count(p.step_deg as int),
            ring@.len() <= 720,
            forall|k: int| 0 <= k < ring@.len() ==> #[trigger] ring@[k] == ring_record_spec(*p, k),
            old(records)@.len() + 720 <= 100_000_000,
            i <= ring@.len(),
            records@.len() == old(records)@.len() + i,
            forall|k: int| 0 <= k < old(records)@.len() ==> records@[k] == old(records)@[k],
            forall|k: int|
                0 <= k < i ==> records@[old(records)@.len() + k] == ring_record_spec(*p, k),
        decreases ring@.len() - i,
    {
        records.push(ring[i]);
        i = i + 1;
    }
}

} // verus!
