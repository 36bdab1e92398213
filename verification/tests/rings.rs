use procanim::layout::depth_at;
use procanim::layout::ring_records;
use procanim::layout::CirclePlane;
use procanim::layout::DepthRule;
use procanim::layout::MaterialAssign;
use procanim::layout::RingParams;
use procanim::scene::BehaviorSpec;
use procanim::scene::ShapeSpec;
use procanim::scene::SpawnKind;

fn plain_ring(radius: i64, step_deg: u32) -> RingParams {
    RingParams {
        radius,
        step_deg,
        rule: DepthRule::Constant(-5_000_000),
        plane: CirclePlane::Frontal,
        rotated: true,
        size: 1_500_000,
        assign: MaterialAssign::FreshFrom(0),
        behavior: BehaviorSpec::Fixed,
        tween: None,
    }
}

#[test]
fn ring_counts_follow_the_step() {
    assert_eq!(ring_records(&plain_ring(5_000_000, 30)).len(), 12);
    assert_eq!(ring_records(&plain_ring(5_000_000, 2)).len(), 180);
    // A step that does not divide the circle: one object per whole step,
    // plus the one at angle zero.
    assert_eq!(ring_records(&plain_ring(5_000_000, 7)).len(), 360 / 7 + 1);
    assert_eq!(ring_records(&plain_ring(5_000_000, 360)).len(), 1);
}

#[test]
fn ring_objects_stand_on_the_circle() {
    // Excluding depth, every generated position sits on the circle of the
    // ring's radius, within the stated tolerance of the squared radius.
    let radius: i64 = 5_000_000;
    let tolerance: i64 = 3 * radius * radius / 1_000_000 + 4 * radius + 3;
    for record in ring_records(&plain_ring(radius, 7)) {
        let x = record.transform.translation.x as i128;
        let y = record.transform.translation.y as i128;
        let norm_sq = x * x + y * y;
        let target = (radius as i128) * (radius as i128);
        assert!((norm_sq - target).abs() <= tolerance as i128);
    }
}

#[test]
fn first_ring_object_and_quarter_point_are_exact() {
    let records = ring_records(&plain_ring(5_000_000, 30));
    // Angle zero: cosine one, sine zero.
    assert_eq!(records[0].transform.translation.x, 5_000_000);
    assert_eq!(records[0].transform.translation.y, 0);
    assert_eq!(records[0].transform.translation.z, -5_000_000);
    assert_eq!(records[0].transform.rotation.roll, 0);
    // Angle ninety: cosine zero, sine one, rolled a quarter turn.
    assert_eq!(records[3].transform.translation.x, 0);
    assert_eq!(records[3].transform.translation.y, 5_000_000);
    assert_eq!(records[3].transform.rotation.roll, 1_570_796);
}

#[test]
fn ground_rings_put_depth_on_the_height_axis() {
    let mut params = plain_ring(5_000_000, 30);
    params.plane = CirclePlane::Ground;
    params.rule = DepthRule::Linear { num: 1, den: 15 };
    let records = ring_records(&params);
    // Angle 90 at one fifteenth of a unit per degree: height 6 units.
    assert_eq!(records[3].transform.translation.x, 0);
    assert_eq!(records[3].transform.translation.y, 6_000_000);
    assert_eq!(records[3].transform.translation.z, 5_000_000);
}

#[test]
fn depth_rules_evaluate_as_documented() {
    assert_eq!(depth_at(&DepthRule::Constant(-5_000_000), 123), -5_000_000);
    // Cosine depth at angle zero: factor plus offset.
    assert_eq!(
        depth_at(&DepthRule::CosScaled { factor: 5_000_000, offset: -20_000_000 }, 0),
        -15_000_000,
    );
    // Linear depth climbs with the angle and truncates toward zero.
    assert_eq!(depth_at(&DepthRule::Linear { num: 1, den: 15 }, 30), 2_000_000);
    assert_eq!(depth_at(&DepthRule::Linear { num: 2, den: 15 }, 345), 46_000_000);
    assert_eq!(depth_at(&DepthRule::Linear { num: -1, den: 15 }, 30), -2_000_000);
    assert_eq!(depth_at(&DepthRule::Linear { num: 1, den: 15 }, 1), 66_666);
}

#[test]
fn fresh_materials_count_up_and_shared_stay_put() {
    let fresh = ring_records(&plain_ring(5_000_000, 30));
    for (k, record) in fresh.iter().enumerate() {
        match record.kind {
            SpawnKind::Shape { shape, material } => {
                assert_eq!(shape, ShapeSpec::Cube { size: 1_500_000 });
                assert_eq!(material, k);
            },
            SpawnKind::Light { .. } => panic!("a ring spawns no light"),
        }
    }
    let mut params = plain_ring(5_000_000, 30);
    params.assign = MaterialAssign::Shared(2);
    for record in ring_records(&params) {
        match record.kind {
            SpawnKind::Shape { material, .. } => assert_eq!(material, 2),
            SpawnKind::Light { .. } => panic!("a ring spawns no light"),
        }
    }
}
