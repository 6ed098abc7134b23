use cinicide::camera::Heading;
use cinicide::fixed::saturating_neg;
use cinicide::fixed::saturating_sum;
use cinicide::fixed::scale_micro;
use cinicide::fixed::scale_ratio;
use cinicide::fixed::MICRO;
use cinicide::transform::Rotation;
use cinicide::transform::Transform;
use cinicide::vector::Vec3;

#[test]
fn sums_saturate() {
    assert_eq!(saturating_sum(2, 3), 5);
    assert_eq!(saturating_sum(-2, -3), -5);
    assert_eq!(saturating_sum(i64::MAX, 1), i64::MAX);
    assert_eq!(saturating_sum(i64::MAX - 1, 1), i64::MAX);
    assert_eq!(saturating_sum(i64::MIN, -1), i64::MIN);
    assert_eq!(saturating_sum(i64::MIN, i64::MAX), -1);
    assert_eq!(saturating_sum(i64::MAX, i64::MAX), i64::MAX);
}

#[test]
fn opposites_saturate() {
    assert_eq!(saturating_neg(5), -5);
    assert_eq!(saturating_neg(-5), 5);
    assert_eq!(saturating_neg(0), 0);
    assert_eq!(saturating_neg(i64::MIN), i64::MAX);
    assert_eq!(saturating_neg(i64::MAX), i64::MIN + 1);
}

#[test]
fn fixed_point_products() {
    assert_eq!(scale_micro(MICRO, MICRO), MICRO);
    assert_eq!(scale_micro(1_500_000, 2_000_000), 3_000_000);
    assert_eq!(scale_micro(-1_500_000, 2_000_000), -3_000_000);
    assert_eq!(scale_micro(500_000, 1_500_000), 750_000);
    assert_eq!(scale_micro(1, 999_999), 0);
    assert_eq!(scale_micro(-1, 999_999), 0);
    assert_eq!(scale_micro(3, 500_000), 1);
    assert_eq!(scale_micro(-3, 500_000), -1);
    assert_eq!(scale_micro(i64::MAX, 2_000_000), i64::MAX);
    assert_eq!(scale_micro(i64::MIN, 2_000_000), i64::MIN);
    assert_eq!(scale_micro(i64::MIN, i64::MIN), i64::MAX);
    assert_eq!(scale_micro(i64::MAX, MICRO), i64::MAX);
}

#[test]
fn products_with_a_ratio() {
    assert_eq!(scale_ratio(15_000_000, 100_000, MICRO), 1_500_000);
    assert_eq!(scale_ratio(-15_000_000, 100_000, MICRO), -1_500_000);
    assert_eq!(scale_ratio(7, 1, 2), 3);
    assert_eq!(scale_ratio(-7, 1, 2), -3);
    assert_eq!(scale_ratio(5, 0, 3), 0);
    assert_eq!(scale_ratio(i64::MAX, u32::MAX, 1), i64::MAX);
    assert_eq!(scale_ratio(i64::MIN, u32::MAX, 1), i64::MIN);
    assert_eq!(scale_ratio(i64::MAX, 4, 4), i64::MAX);
}

#[test]
fn vectors_add_and_scale() {
    let a = Vec3::new(1, -2, 3);
    let b = Vec3::new(10, 20, -30);
    assert_eq!(a.plus(b), Vec3 { x: 11, y: 18, z: -27 });
    assert_eq!(a.negated(), Vec3 { x: -1, y: 2, z: -3 });
    assert_eq!(Vec3::zero(), Vec3 { x: 0, y: 0, z: 0 });
    assert_eq!(Vec3::splat(4), Vec3 { x: 4, y: 4, z: 4 });
    assert_eq!(
        Vec3::new(1_000_000, -500_000, 0).scaled(1_500_000),
        Vec3 { x: 1_500_000, y: -750_000, z: 0 }
    );
    assert_eq!(
        Vec3::new(i64::MAX, i64::MIN, 0).plus(Vec3::new(1, -1, 0)),
        Vec3 { x: i64::MAX, y: i64::MIN, z: 0 }
    );
}

#[test]
fn translating_twice_is_translating_by_the_sum() {
    let start = Transform::new(
        Vec3::new(4_750_000, -1_250_000, 2_000_000),
        Rotation::new(0, 707_107, 0, 707_107).unwrap(),
        Vec3::new(3_000_000, -3_000_000, 3_000_000),
    )
    .with_pivot(Vec3::new(1, 2, 3));
    let d1 = Vec3::new(250_000, 1_250_000, -7_000_000);
    let d2 = Vec3::new(-5_000_000, 10, 5_000_000);
    let twice = start.translate(d1).translate(d2);
    assert_eq!(twice, start.translate(d1.plus(d2)));
    assert_eq!(twice.position, Vec3 { x: 0, y: 10, z: 0 });
    assert_eq!(twice.rotation, start.rotation);
    assert_eq!(twice.scale, start.scale);
    assert_eq!(twice.pivot, Some(Vec3 { x: 1, y: 2, z: 3 }));
}

#[test]
fn translating_at_the_edge_of_the_range_saturates() {
    let start =
        Transform::new(Vec3::new(i64::MAX, 0, 0), Rotation::identity(), Vec3::splat(MICRO));
    let there_and_back = start.translate(Vec3::new(1, 0, 0)).translate(Vec3::new(-1, 0, 0));
    assert_eq!(there_and_back.position.x, i64::MAX - 1);
    let at_once = start.translate(Vec3::new(1, 0, 0).plus(Vec3::new(-1, 0, 0)));
    assert_eq!(at_once.position.x, i64::MAX);
}

#[test]
fn rotations_have_length_one() {
    let identity = Rotation::identity();
    assert_eq!((identity.x(), identity.y(), identity.z(), identity.w()), (0, 0, 0, 1_000_000));
    assert_eq!(Rotation::new(0, 0, 0, 1_000_000), Some(identity));
    let q = Rotation::new(66_765, -640_342, 56_023, 763_129).unwrap();
    assert_eq!((q.x(), q.y(), q.z(), q.w()), (66_765, -640_342, 56_023, 763_129));
    assert!(Rotation::new(500_000, 500_000, 500_000, 500_000).is_some());
    assert!(Rotation::new(-1_000_000, 0, 0, 0).is_some());
    assert_eq!(Rotation::new(0, 0, 0, 0), None);
    assert_eq!(Rotation::new(0, 0, 0, 999_000), None);
    assert_eq!(Rotation::new(1_000_000, 0, 0, 1_000_000), None);
    assert_eq!(Rotation::new(i32::MIN, i32::MIN, i32::MIN, i32::MIN), None);
}

#[test]
fn rotation_slack_is_four_millionths_squared() {
    assert!(Rotation::new(0, 0, 0, 1_000_002).is_none());
    assert!(Rotation::new(0, 0, 0, 1_000_001).is_some());
    assert!(Rotation::new(0, 0, 0, 999_999).is_some());
    assert!(Rotation::new(0, 0, 0, 999_998).is_some());
    assert!(Rotation::new(0, 0, 0, 999_997).is_none());
}

fn heading_of(yaw: f32) -> Heading {
    let (sin, cos) = yaw.sin_cos();
    Heading::new((cos as f64 * 1e6).round() as i32, (sin as f64 * 1e6).round() as i32).unwrap()
}

fn dot(a: Vec3, b: Vec3) -> i128 {
    a.x as i128 * b.x as i128 + a.y as i128 * b.y as i128 + a.z as i128 * b.z as i128
}

#[test]
fn heading_zero_looks_along_the_first_axis() {
    let heading = heading_of(0.0);
    assert_eq!(heading.forward(), Vec3 { x: 1_000_000, y: 0, z: 0 });
    assert_eq!(heading.right(), Vec3 { x: 0, y: 0, z: 1_000_000 });
}

#[test]
fn a_quarter_turn_looks_along_the_third_axis() {
    let heading = heading_of(std::f32::consts::FRAC_PI_2);
    assert_eq!(heading.forward(), Vec3 { x: 0, y: 0, z: 1_000_000 });
    assert_eq!(heading.right(), Vec3 { x: -1_000_000, y: 0, z: 0 });
}

#[test]
fn forward_and_right_are_level_perpendicular_and_of_one_length() {
    let mut yaw = 0.0f32;
    while yaw < std::f32::consts::TAU {
        let heading = heading_of(yaw);
        let forward = heading.forward();
        let right = heading.right();
        assert_eq!(forward.y, 0);
        assert_eq!(right.y, 0);
        assert_eq!(dot(forward, right), 0);
        assert_eq!(dot(forward, forward), dot(right, right));
        let off = dot(forward, forward) - 1_000_000_000_000;
        assert!(off.abs() <= 2_000_000, "yaw {} is off by {}", yaw, off);
        assert_eq!(forward, Vec3 { x: heading.cos() as i64, y: 0, z: heading.sin() as i64 });
        assert_eq!(right, Vec3 { x: -(heading.sin() as i64), y: 0, z: heading.cos() as i64 });
        yaw += 0.01;
    }
}

#[test]
fn a_heading_has_length_one() {
    assert_eq!(Heading::new(1_000_000, 0), Some(Heading::ahead()));
    assert!(Heading::new(707_107, -707_107).is_some());
    assert!(Heading::new(999_999, 0).is_some());
    assert!(Heading::new(1_000_000, 1_414).is_some());
    assert_eq!(Heading::new(1_000_000, 1_415), None);
    assert_eq!(Heading::new(1_000_001, 0), None);
    assert_eq!(Heading::new(999_998, 0), None);
    assert_eq!(Heading::new(0, 0), None);
    assert_eq!(Heading::new(1_000_000, 1_000_000), None);
    assert_eq!(Heading::new(500_000, 500_000), None);
    assert_eq!(Heading::new(i32::MIN, i32::MAX), None);
    assert_eq!(Heading::new(2_000_001, 0), None);
}

#[test]
fn exact_headings_have_length_one_exactly() {
    for (cos, sin) in [(1_000_000, 0), (0, -1_000_000), (600_000, 800_000), (-280_000, 960_000)] {
        let heading = Heading::new(cos, sin).unwrap();
        assert_eq!((heading.cos(), heading.sin()), (cos, sin));
        assert_eq!(dot(heading.forward(), heading.forward()), 1_000_000_000_000);
        assert_eq!(dot(heading.right(), heading.right()), 1_000_000_000_000);
        assert_eq!(dot(heading.forward(), heading.right()), 0);
    }
}
