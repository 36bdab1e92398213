use procanim::animate::MovementBehavior;
use procanim::scene::camera_start;
use procanim::scene::cursor_settings;
use procanim::scene::scene_manifest;
use procanim::scene::BehaviorSpec;
use procanim::scene::ColorSpec;
use procanim::scene::RepeatSpec;
use procanim::scene::ShapeSpec;
use procanim::scene::SpawnKind;
use procanim::scene::TweenTargetSpec;

#[test]
fn manifest_has_every_object_and_material() {
    let m = scene_manifest();
    assert_eq!(m.materials.len(), 232);
    assert_eq!(m.records.len(), 263);
    for record in &m.records {
        if let SpawnKind::Shape { material, .. } = record.kind {
            assert!(material < m.materials.len());
        }
    }
}

#[test]
fn manifest_opens_with_the_plane_and_the_scaling_cube() {
    let m = scene_manifest();
    match m.records[0].kind {
        SpawnKind::Shape { shape, material } => {
            assert_eq!(shape, ShapeSpec::Plane { half_extent: 30_000_000 });
            assert_eq!(m.materials[material], ColorSpec { red: 0, green: 71, blue: 171 });
        },
        SpawnKind::Light { .. } => panic!("the first record is the plane"),
    }
    assert_eq!(m.records[0].transform.translation.y, -8_000_000);
    let cube = &m.records[1];
    let tween = cube.tween.expect("the pink cube is tweened");
    assert_eq!(tween.duration_ms, 10_000);
    assert_eq!(tween.repeat, RepeatSpec::Finite(2));
    assert_eq!(tween.target, TweenTargetSpec::Scale { start: 1_000_000, end: 15_000_000 });
}

#[test]
fn tweened_ring_shares_one_material_entry() {
    let m = scene_manifest();
    for k in 2..14 {
        match m.records[k].kind {
            SpawnKind::Shape { material, .. } => assert_eq!(material, 2),
            SpawnKind::Light { .. } => panic!("ring records spawn shapes"),
        }
        let tween = m.records[k].tween.expect("the first ring is tweened");
        assert_eq!(tween.duration_ms, 2_000);
        assert_eq!(tween.repeat, RepeatSpec::Infinite);
        assert_eq!(
            tween.target,
            TweenTargetSpec::BaseColor {
                start_color: ColorSpec { red: 255, green: 0, blue: 0 },
                end_color: ColorSpec { red: 255, green: 255, blue: 0 },
            },
        );
    }
    assert_eq!(m.materials[2], ColorSpec { red: 0, green: 0, blue: 0 });
}

#[test]
fn plain_rings_each_get_their_own_dark_material() {
    let m = scene_manifest();
    let mut seen = Vec::new();
    for k in 14..26 {
        match m.records[k].kind {
            SpawnKind::Shape { material, .. } => {
                assert_eq!(m.materials[material], ColorSpec { red: 4, green: 28, blue: 86 });
                assert!(!seen.contains(&material));
                seen.push(material);
            },
            SpawnKind::Light { .. } => panic!("ring records spawn shapes"),
        }
    }
}

#[test]
fn every_ring_object_is_rolled_by_its_own_angle() {
    // The layout rule turns each ring object about the depth axis by its
    // angle; the wider ground helix follows it like the rest.
    let m = scene_manifest();
    for k in 0..12usize {
        let expected = ((k as i64) * 30 * 3_141_592) / 180;
        assert_eq!(m.records[2 + k].transform.rotation.roll, expected);
        assert_eq!(m.records[38 + k].transform.rotation.roll, expected);
        assert_eq!(m.records[230 + k].transform.rotation.roll, expected);
    }
    assert_eq!(m.records[41].transform.rotation.roll, 1_570_796);
}

#[test]
fn snake_ring_carries_the_snake_tag() {
    let m = scene_manifest();
    for k in 230..242 {
        assert_eq!(m.records[k].behavior, BehaviorSpec::Snakelike);
    }
    // The snake ring recedes into depth as the angle climbs.
    assert_eq!(m.records[230].transform.translation.z, 0);
    assert_eq!(m.records[233].transform.translation.z, -6_000_000);
}

#[test]
fn column_cubes_ripple_with_their_own_offsets() {
    let m = scene_manifest();
    for h in 0..20usize {
        let record = &m.records[242 + h];
        assert_eq!(record.transform.translation.z, (h as i64) * 1_000_000);
        match record.behavior {
            BehaviorSpec::Rippling(state) => {
                assert_eq!(state.wave_movement, 0);
                assert_eq!(state.wave_tiling, 10_000_000);
                assert_eq!(state.wave_height, 1_500_000);
                assert_eq!(state.wave_speed, 2_000_000);
                assert_eq!(state.x, 0);
                assert_eq!(state.y, ((h as i64) * 1_000_000) / 19);
                assert_eq!(state.movement_behavior, MovementBehavior::Undulating);
            },
            _ => panic!("column cubes ripple"),
        }
        match record.kind {
            SpawnKind::Shape { material, .. } => {
                assert_eq!(material, 231);
                assert_eq!(m.materials[material], ColorSpec { red: 255, green: 0, blue: 255 });
            },
            SpawnKind::Light { .. } => panic!("column cubes are shapes"),
        }
    }
}

#[test]
fn the_light_closes_the_manifest() {
    let m = scene_manifest();
    let light = &m.records[262];
    match light.kind {
        SpawnKind::Light { color, shadows } => {
            assert_eq!(color, ColorSpec { red: 0, green: 71, blue: 171 });
            assert!(shadows);
        },
        SpawnKind::Shape { .. } => panic!("the last record is the light"),
    }
    assert_eq!(light.transform.translation.y, 1_000_000_000);
    let tween = light.tween.expect("the light is tweened");
    assert_eq!(tween.duration_ms, 3_000);
    assert_eq!(tween.repeat, RepeatSpec::Infinite);
    assert_eq!(tween.target, TweenTargetSpec::Illuminance { start: 100, end: 100_000_000_000 });
}

#[test]
fn camera_and_cursor_settings_match_the_demo() {
    let camera = camera_start();
    assert_eq!(camera.eye.x, -2_000_000);
    assert_eq!(camera.eye.y, 5_000_000);
    assert_eq!(camera.eye.z, 5_000_000);
    assert_eq!(camera.target.x, 0);
    assert_eq!(camera.up.y, 1_000_000);
    assert_eq!(camera.translate_sensitivity, 12_000_000);
    let cursor = cursor_settings();
    assert!(cursor.confined);
    assert!(!cursor.visible);
}
