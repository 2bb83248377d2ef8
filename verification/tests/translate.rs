use gcode_wrangler::{clamp_movements, to_gcode, GCode, Movement, Position, Vec2D, Vec3};

fn mv(x: i64, y: i64, pen_down: bool) -> Movement {
    Movement { dest: Vec2D { x, y }, pen_down }
}

fn target(x: i64, y: i64) -> Vec3 {
    Vec3 { x: Some(x), y: Some(y), z: None }
}

#[test]
fn translation_toggles_once_per_pen_run() {
    let movements = vec![mv(0, 0, false), mv(10, 0, true), mv(10, 10, true), mv(0, 0, false)];
    let ops = to_gcode(&movements, Position::Absolute);
    assert_eq!(
        ops,
        vec![
            GCode::LinearMove { target: target(0, 0), feedrate: None },
            GCode::Activate,
            GCode::LinearDraw { target: target(10, 0), feedrate: None },
            GCode::LinearDraw { target: target(10, 10), feedrate: None },
            GCode::Deactivate,
            GCode::LinearMove { target: target(0, 0), feedrate: None },
        ]
    );
    let activations = ops.iter().filter(|op| matches!(op, GCode::Activate)).count();
    let deactivations = ops.iter().filter(|op| matches!(op, GCode::Deactivate)).count();
    assert_eq!(activations, 1);
    assert_eq!(deactivations, 1);
}

#[test]
fn translation_long_run_still_one_toggle() {
    let movements = vec![
        mv(1, 1, true),
        mv(2, 2, true),
        mv(3, 3, true),
        mv(4, 4, true),
        mv(5, 5, true),
    ];
    let ops = to_gcode(&movements, Position::Absolute);
    let activations = ops.iter().filter(|op| matches!(op, GCode::Activate)).count();
    let deactivations = ops.iter().filter(|op| matches!(op, GCode::Deactivate)).count();
    assert_eq!(activations, 1);
    assert_eq!(deactivations, 0);
}

#[test]
fn translation_relative_accumulates_positions() {
    let movements = vec![mv(5, 5, false), mv(5, 0, true), mv(-3, 2, true)];
    let ops = to_gcode(&movements, Position::Relative);
    assert_eq!(
        ops,
        vec![
            GCode::LinearMove { target: target(5, 5), feedrate: None },
            GCode::Activate,
            GCode::LinearDraw { target: target(10, 5), feedrate: None },
            GCode::LinearDraw { target: target(7, 7), feedrate: None },
        ]
    );
}

#[test]
fn translation_of_empty_job_is_empty() {
    let ops = to_gcode(&vec![], Position::Absolute);
    assert!(ops.is_empty());
}

#[test]
fn clamp_bounds_absolute_movement_to_bed() {
    let clamped = clamp_movements(
        vec![mv(150, 50, false)],
        Vec2D { x: 100, y: 100 },
        Position::Absolute,
    );
    assert_eq!(clamped, vec![mv(100, 50, false)]);
}

#[test]
fn clamp_bounds_negative_coordinates_to_origin() {
    let clamped = clamp_movements(
        vec![mv(-20, 30, true)],
        Vec2D { x: 100, y: 100 },
        Position::Absolute,
    );
    assert_eq!(clamped, vec![mv(0, 30, true)]);
}

#[test]
fn clamp_relative_references_clamped_position() {
    // The first movement overshoots the bed and is clamped to (100, 50);
    // the second is re-expressed against that clamped reference position.
    let clamped = clamp_movements(
        vec![mv(150, 50, false), mv(10, 10, false)],
        Vec2D { x: 100, y: 100 },
        Position::Relative,
    );
    assert_eq!(clamped, vec![mv(100, 50, false), mv(0, 10, false)]);
}

#[test]
fn clamp_keeps_in_bed_movements_unchanged() {
    let movements = vec![mv(10, 20, true), mv(30, 40, false)];
    let clamped = clamp_movements(movements.clone(), Vec2D { x: 100, y: 100 }, Position::Absolute);
    assert_eq!(clamped, movements);
}

#[test]
fn translated_job_always_renders_under_grbl() {
    let movements = vec![mv(0, 0, false), mv(10, 0, true), mv(10, 10, true), mv(0, 0, false)];
    let ops = to_gcode(&movements, Position::Absolute);
    assert!(gcode_wrangler::to_program(&ops, gcode_wrangler::Flavor::GRBL).is_ok());
}

#[test]
fn clamped_job_translates_within_bed() {
    let clamped = clamp_movements(
        vec![mv(150, 50, true), mv(60, 200, true)],
        Vec2D { x: 100, y: 100 },
        Position::Absolute,
    );
    let ops = to_gcode(&clamped, Position::Absolute);
    assert_eq!(
        ops,
        vec![
            GCode::Activate,
            GCode::LinearDraw { target: target(100, 50), feedrate: None },
            GCode::LinearDraw { target: target(60, 100), feedrate: None },
        ]
    );
}
