use implicit_field::distance::Directed;
use implicit_field::distance::Signed;
use implicit_field::math::Axis;
use implicit_field::math::Vec3;

#[test]
fn signed_keeps_any_number() {
    for v in [0.0f32, -0.0, -1.5, 3.25, f32::MAX, f32::MIN_POSITIVE, f32::INFINITY, f32::NEG_INFINITY] {
        assert_eq!(Signed::new(v).value().to_bits(), v.to_bits());
        assert_eq!(Signed(v).0.to_bits(), v.to_bits());
    }
    assert!(Signed::new(f32::NAN).value().is_nan());
}

#[test]
fn signed_sign_tells_inside_from_outside() {
    let inside = Signed::new(-0.25f64);
    let boundary = Signed::new(0.0f64);
    let outside = Signed::new(0.25f64);
    assert!(inside.value() < 0.0);
    assert_eq!(boundary.value(), 0.0);
    assert!(outside.value() > 0.0);
}

#[test]
fn directed_keeps_any_vector() {
    let v = Vec3::new(3.0f32, -4.0, 12.0);
    let d = Directed::new(v);
    assert_eq!(d.vector(), v);
    assert_eq!(d.0, v);
    // the length is not brought to one
    let w = d.vector();
    assert_eq!(w.x * w.x + w.y * w.y + w.z * w.z, 169.0);
}

#[test]
fn vec3_new_orders_components() {
    let v = Vec3::new(1.0f32, 2.0, 3.0);
    assert_eq!(v.x, 1.0);
    assert_eq!(v.y, 2.0);
    assert_eq!(v.z, 3.0);
    assert_eq!(v, Vec3 { x: 1.0, y: 2.0, z: 3.0 });
}

#[test]
fn vec3_component_reads_by_axis() {
    let v = Vec3::new(7i64, -8, 9);
    assert_eq!(v.component(Axis::X), 7);
    assert_eq!(v.component(Axis::Y), -8);
    assert_eq!(v.component(Axis::Z), 9);
}

#[test]
fn vec3_with_component_replaces_one_axis() {
    let v = Vec3::new(7i64, -8, 9);
    assert_eq!(v.with_component(Axis::X, 1), Vec3::new(1, -8, 9));
    assert_eq!(v.with_component(Axis::Y, 1), Vec3::new(7, 1, 9));
    assert_eq!(v.with_component(Axis::Z, 1), Vec3::new(7, -8, 1));
    // the original is a value and stays as it was
    assert_eq!(v, Vec3::new(7, -8, 9));
}

#[test]
fn vec3_step_ahead_moves_one_axis() {
    let v = Vec3::new(1.0f32, 2.0, 3.0);
    assert_eq!(v.step_ahead(Axis::X, 0.5), Vec3::new(1.5, 2.0, 3.0));
    assert_eq!(v.step_ahead(Axis::Y, 0.5), Vec3::new(1.0, 2.5, 3.0));
    assert_eq!(v.step_ahead(Axis::Z, 0.5), Vec3::new(1.0, 2.0, 3.5));
}

#[test]
fn vec3_step_behind_moves_one_axis() {
    let v = Vec3::new(1.0f32, 2.0, 3.0);
    assert_eq!(v.step_behind(Axis::X, 0.5), Vec3::new(0.5, 2.0, 3.0));
    assert_eq!(v.step_behind(Axis::Y, 0.5), Vec3::new(1.0, 1.5, 3.0));
    assert_eq!(v.step_behind(Axis::Z, 0.5), Vec3::new(1.0, 2.0, 2.5));
}

#[test]
fn vec3_steps_leave_other_axes_bit_identical() {
    let v = Vec3::new(-0.0f32, f32::INFINITY, 1.0e-40);
    let moved = v.step_ahead(Axis::Z, f32::NAN);
    assert_eq!(moved.x.to_bits(), v.x.to_bits());
    assert_eq!(moved.y.to_bits(), v.y.to_bits());
    assert!(moved.z.is_nan());
    let back = v.step_behind(Axis::X, 1.0);
    assert_eq!(back.x, -1.0);
    assert_eq!(back.y.to_bits(), v.y.to_bits());
    assert_eq!(back.z.to_bits(), v.z.to_bits());
}
