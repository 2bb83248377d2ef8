use gcode_wrangler::{to_program, Flavor, GCode, GcodeError, Position, StepperState, Units, Vec3};

fn some_pos(x: i64, y: i64) -> Vec3 {
    Vec3 { x: Some(x), y: Some(y), z: None }
}

#[test]
fn render_position_all_absent_fails() {
    let v = Vec3 { x: None, y: None, z: None };
    assert_eq!(v.render_position(), Err(GcodeError::IncompletePosition));
}

#[test]
fn render_position_single_axis_succeeds() {
    assert_eq!(Vec3 { x: Some(5), y: None, z: None }.render_position().unwrap(), "X5");
    assert_eq!(Vec3 { x: None, y: Some(-7), z: None }.render_position().unwrap(), "Y-7");
    assert_eq!(Vec3 { x: None, y: None, z: Some(0) }.render_position().unwrap(), "Z0");
}

#[test]
fn render_position_all_axes() {
    let v = Vec3 { x: Some(1), y: Some(-2), z: Some(30) };
    assert_eq!(v.render_position().unwrap(), "X1 Y-2 Z30");
}

#[test]
fn activate_grbl_is_spindle_plus_dwell() {
    let r = GCode::Activate.render(&Flavor::GRBL).unwrap();
    assert_eq!(r, "M3 S254\nG4 P0.3");
}

#[test]
fn activate_marlin_is_linear_move_down() {
    let r = GCode::Activate.render(&Flavor::Marlin).unwrap();
    assert_eq!(r, "G0 X0 Y0 Z-5");
}

#[test]
fn deactivate_grbl_and_marlin() {
    assert_eq!(GCode::Deactivate.render(&Flavor::GRBL).unwrap(), "M3 S65\nG4 P0.3");
    assert_eq!(GCode::Deactivate.render(&Flavor::Marlin).unwrap(), "G0 X0 Y0 Z5");
}

#[test]
fn end_program_per_flavor() {
    assert_eq!(GCode::EndProgram.render(&Flavor::GRBL).unwrap(), "M5\nM2");
    assert_eq!(GCode::EndProgram.render(&Flavor::Marlin).unwrap(), "M5");
}

#[test]
fn set_xy_units_and_mode() {
    assert_eq!(GCode::SetXY.render(&Flavor::GRBL).unwrap(), "G17");
    assert_eq!(GCode::SetUnits(Units::Inches).render(&Flavor::GRBL).unwrap(), "G20");
    assert_eq!(GCode::SetUnits(Units::Millimeters).render(&Flavor::Marlin).unwrap(), "G21");
    assert_eq!(
        GCode::SetPositionMode(Position::Absolute).render(&Flavor::GRBL).unwrap(),
        "G90"
    );
    assert_eq!(
        GCode::SetPositionMode(Position::Relative).render(&Flavor::Marlin).unwrap(),
        "G91"
    );
}

#[test]
fn pause_renders_seconds() {
    assert_eq!(GCode::Pause(300).render(&Flavor::GRBL).unwrap(), "G4 P0.3");
    assert_eq!(GCode::Pause(1000).render(&Flavor::GRBL).unwrap(), "G4 P1");
    assert_eq!(GCode::Pause(0).render(&Flavor::Marlin).unwrap(), "G4 P0");
    assert_eq!(GCode::Pause(5).render(&Flavor::GRBL).unwrap(), "G4 P0.005");
    assert_eq!(GCode::Pause(1050).render(&Flavor::GRBL).unwrap(), "G4 P1.05");
    assert_eq!(GCode::Pause(2500).render(&Flavor::GRBL).unwrap(), "G4 P2.5");
}

#[test]
fn set_current_position_renders_origin_set() {
    let v = Vec3 { x: Some(0), y: Some(0), z: Some(0) };
    assert_eq!(GCode::SetCurrentPosition(v).render(&Flavor::GRBL).unwrap(), "G92 X0 Y0 Z0");
}

#[test]
fn set_current_position_all_absent_fails() {
    let v = Vec3 { x: None, y: None, z: None };
    assert_eq!(
        GCode::SetCurrentPosition(v).render(&Flavor::GRBL),
        Err(GcodeError::IncompletePosition)
    );
    assert_eq!(
        GCode::SetCurrentPosition(v).render(&Flavor::Marlin),
        Err(GcodeError::IncompletePosition)
    );
}

#[test]
fn linear_move_and_draw_render_identically_per_flavor() {
    let op_move = GCode::LinearMove { target: some_pos(10, -3), feedrate: None };
    let op_draw = GCode::LinearDraw { target: some_pos(10, -3), feedrate: None };
    assert_eq!(op_move.render(&Flavor::GRBL).unwrap(), "G0 X10 Y-3");
    assert_eq!(op_move.render(&Flavor::Marlin).unwrap(), "G0 X10 Y-3");
    assert_eq!(op_draw.render(&Flavor::GRBL).unwrap(), "G1 X10 Y-3");
    assert_eq!(op_draw.render(&Flavor::Marlin).unwrap(), "G1 X10 Y-3");
}

#[test]
fn linear_move_with_feedrate() {
    let op = GCode::LinearMove { target: some_pos(2, 3), feedrate: Some(1500) };
    assert_eq!(op.render(&Flavor::GRBL).unwrap(), "G0 F1500 X2 Y3");
}

#[test]
fn linear_move_feedrate_only() {
    let op = GCode::LinearMove {
        target: Vec3 { x: None, y: None, z: None },
        feedrate: Some(1000),
    };
    assert_eq!(op.render(&Flavor::GRBL).unwrap(), "G0 F1000");
}

#[test]
fn linear_move_extreme_coordinates() {
    let op = GCode::LinearMove {
        target: Vec3 { x: Some(i64::MAX), y: Some(i64::MIN), z: None },
        feedrate: None,
    };
    assert_eq!(
        op.render(&Flavor::GRBL).unwrap(),
        "G0 X9223372036854775807 Y-9223372036854775808"
    );
}

#[test]
fn pause_largest_value() {
    assert_eq!(
        GCode::Pause(u32::MAX).render(&Flavor::GRBL).unwrap(),
        "G4 P4294967.295"
    );
}

#[test]
fn home_grbl_ignores_axis_flags() {
    let op = GCode::Home { x: true, y: false, z: true };
    assert_eq!(op.render(&Flavor::GRBL).unwrap(), "$H");
}

#[test]
fn home_marlin_lists_requested_axes() {
    assert_eq!(
        GCode::Home { x: true, y: false, z: true }.render(&Flavor::Marlin).unwrap(),
        "G28 X Z"
    );
    assert_eq!(
        GCode::Home { x: false, y: false, z: false }.render(&Flavor::Marlin).unwrap(),
        "G28"
    );
}

#[test]
fn stepper_control_grbl_is_unsupported() {
    let op = GCode::StepperControl {
        x: StepperState::Enabled,
        y: StepperState::Enabled,
        z: StepperState::Enabled,
    };
    assert_eq!(op.render(&Flavor::GRBL), Err(GcodeError::UnsupportedOperation));
}

#[test]
fn stepper_control_marlin_partitions_axes() {
    let op = GCode::StepperControl {
        x: StepperState::Enabled,
        y: StepperState::Disabled,
        z: StepperState::Disabled,
    };
    assert_eq!(op.render(&Flavor::Marlin).unwrap(), "M18 Y Z\nM17 X");
}

#[test]
fn stepper_control_marlin_single_group() {
    let all_on = GCode::StepperControl {
        x: StepperState::Enabled,
        y: StepperState::Enabled,
        z: StepperState::Enabled,
    };
    assert_eq!(all_on.render(&Flavor::Marlin).unwrap(), "M17 X Y Z");
    let all_off = GCode::StepperControl {
        x: StepperState::Disabled,
        y: StepperState::Disabled,
        z: StepperState::Disabled,
    };
    assert_eq!(all_off.render(&Flavor::Marlin).unwrap(), "M18 X Y Z");
}

#[test]
fn preamble_and_footer_only_for_grbl() {
    assert!(GCode::preamble(&Flavor::GRBL).is_ok());
    assert!(GCode::footer(&Flavor::GRBL).is_ok());
    assert_eq!(
        GCode::preamble(&Flavor::Marlin).err(),
        Some(GcodeError::UnsupportedOperation)
    );
    assert_eq!(GCode::footer(&Flavor::Marlin).err(), Some(GcodeError::UnsupportedOperation));
}

#[test]
fn flavor_render_maps_each_operation() {
    let ops = vec![GCode::SetXY, GCode::EndProgram];
    let lines = Flavor::GRBL.render(&ops).unwrap();
    assert_eq!(lines, vec!["G17".to_string(), "M5\nM2".to_string()]);
}

#[test]
fn flavor_render_fails_on_first_unrenderable() {
    let ops = vec![
        GCode::SetXY,
        GCode::StepperControl {
            x: StepperState::Enabled,
            y: StepperState::Enabled,
            z: StepperState::Enabled,
        },
    ];
    assert_eq!(Flavor::GRBL.render(&ops), Err(GcodeError::UnsupportedOperation));
}

#[test]
fn to_program_wraps_job_in_preamble_and_footer() {
    let job = vec![GCode::LinearMove { target: some_pos(10, 10), feedrate: None }];
    let program = to_program(&job, Flavor::GRBL).unwrap();
    assert_eq!(
        program,
        vec![
            "G21".to_string(),
            "G90".to_string(),
            "M3 S65\nG4 P0.3".to_string(),
            "G0 F1000".to_string(),
            "G92 X0 Y0 Z0".to_string(),
            "G0 X10 Y10".to_string(),
            "M3 S65\nG4 P0.3".to_string(),
            "G0 X0 Y0".to_string(),
            "M5\nM2".to_string(),
        ]
    );
}

#[test]
fn to_program_rejects_marlin() {
    let job: Vec<GCode> = vec![];
    assert_eq!(to_program(&job, Flavor::Marlin), Err(GcodeError::UnsupportedOperation));
}

#[test]
fn to_program_rejects_unrenderable_job_before_queueing() {
    let job = vec![
        GCode::StepperControl {
            x: StepperState::Disabled,
            y: StepperState::Disabled,
            z: StepperState::Disabled,
        },
    ];
    assert_eq!(to_program(&job, Flavor::GRBL), Err(GcodeError::UnsupportedOperation));
}
