use gcode_wrangler::{GcodeError, Movement, Vec2D, Vec3};

#[test]
fn vec3_add_both_present_sums() {
    let a = Vec3 { x: Some(1), y: Some(2), z: Some(3) };
    let b = Vec3 { x: Some(10), y: Some(-20), z: Some(30) };
    let r = a.add(b).unwrap();
    assert_eq!(r, Vec3 { x: Some(11), y: Some(-18), z: Some(33) });
}

#[test]
fn vec3_add_both_absent_stays_absent() {
    let a = Vec3 { x: Some(1), y: None, z: None };
    let b = Vec3 { x: Some(2), y: None, z: None };
    let r = a.add(b).unwrap();
    assert_eq!(r, Vec3 { x: Some(3), y: None, z: None });
}

#[test]
fn vec3_add_mismatched_x_fails() {
    let a = Vec3 { x: Some(1), y: None, z: None };
    let b = Vec3 { x: None, y: None, z: None };
    assert_eq!(a.add(b), Err(GcodeError::AxisMismatch));
}

#[test]
fn vec3_add_mismatched_y_fails() {
    let a = Vec3 { x: Some(1), y: Some(2), z: None };
    let b = Vec3 { x: Some(1), y: None, z: None };
    assert_eq!(a.add(b), Err(GcodeError::AxisMismatch));
    let c = Vec3 { x: Some(1), y: None, z: None };
    let d = Vec3 { x: Some(1), y: Some(2), z: None };
    assert_eq!(c.add(d), Err(GcodeError::AxisMismatch));
}

#[test]
fn vec3_add_mismatched_z_fails() {
    let a = Vec3 { x: None, y: None, z: Some(4) };
    let b = Vec3 { x: None, y: None, z: None };
    assert_eq!(a.add(b), Err(GcodeError::AxisMismatch));
}

#[test]
fn vec3_from_vec2d_has_no_z() {
    let v = Vec3::from(Vec2D { x: 3, y: 4 });
    assert_eq!(v, Vec3 { x: Some(3), y: Some(4), z: None });
}

#[test]
fn vec2d_add_and_sub() {
    let a = Vec2D { x: 5, y: -2 };
    let b = Vec2D { x: 3, y: 10 };
    assert_eq!(a.add(b), Vec2D { x: 8, y: 8 });
    assert_eq!(a.sub(b), Vec2D { x: 2, y: -12 });
}

#[test]
fn movement_equality_is_structural() {
    let a = Movement { dest: Vec2D { x: 1, y: 2 }, pen_down: true };
    let b = Movement { dest: Vec2D { x: 1, y: 2 }, pen_down: true };
    let c = Movement { dest: Vec2D { x: 1, y: 3 }, pen_down: true };
    assert_eq!(a, b);
    assert_ne!(a, c);
}
