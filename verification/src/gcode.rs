//! The flavor-independent operation model and the per-flavor renderers.
//!
//! Every operation renders to one or more newline-separated lines of command
//! text; the exact text is pinned down by the spec functions in this module.
use vstd::prelude::*;

use crate::geometry::{all_axes_absent, Vec3};
use crate::numfmt::{
    dec_str, i64_string, int_str, join_texts, join_with, pause_seconds_string, pause_str,
    u64_string, views_of,
};
use crate::GcodeError;

verus! {

/// A controller dialect, fixed for the whole of a job's render.
#[derive(Clone, Copy, Debug, PartialEq, Eq)]
pub enum Flavor {
    GRBL,
    Marlin,
}

/// How destination coordinates are interpreted.
#[derive(Clone, Copy, Debug, PartialEq, Eq)]
pub enum Position {
    Absolute,
    Relative,
}

/// The measurement unit the controller works in.
#[derive(Clone, Copy, Debug, PartialEq, Eq)]
pub enum Units {
    Inches,
    Millimeters,
}

/// The requested state of one stepper driver.
#[derive(Clone, Copy, Debug, PartialEq, Eq)]
pub enum StepperState {
    Enabled,
    Disabled,
}

/// One flavor-independent motion or control instruction. Operations are pure
/// data: they own no machine state and are immutable after construction.
#[derive(Clone, Copy, Debug, PartialEq, Eq)]
pub enum GCode {
    /// Lower the pen (or start the spindle).
    Activate,
    /// Raise the pen (or idle the spindle).
    Deactivate,
    EndProgram,
    /// Select the XY plane.
    SetXY,
    /// Dwell for the given number of milliseconds.
    Pause(u32),
    SetPositionMode(Position),
    /// Declare the current physical position (an origin set).
    SetCurrentPosition(Vec3),
    SetUnits(Units),
    /// A rapid, pen-up motion.
    LinearMove { target: Vec3, feedrate: Option<u32> },
    /// A controlled-feed, pen-down motion.
    LinearDraw { target: Vec3, feedrate: Option<u32> },
    /// A homing cycle for the flagged axes.
    Home { x: bool, y: bool, z: bool },
    /// Enable or disable each stepper driver.
    StepperControl { x: StepperState, y: StepperState, z: StepperState },
}

/// The feedrate token, as zero or one line parts.
pub open spec fn feed_parts(feedrate: Option<u32>) -> Seq<Seq<char>> {
    match feedrate {
        Some(f) => seq![seq!['F'] + dec_str(f as nat)],
        None => Seq::empty(),
    }
}

/// One labelled axis token, when the axis is present.
pub open spec fn axis_parts(label: char, a: Option<i64>) -> Seq<Seq<char>> {
    match a {
        Some(v) => seq![seq![label] + int_str(v as int)],
        None => Seq::empty(),
    }
}

/// The axis tokens of a position, in X, Y, Z order.
pub open spec fn position_parts(v: Vec3) -> Seq<Seq<char>> {
    axis_parts('X', v.x) + axis_parts('Y', v.y) + axis_parts('Z', v.z)
}

/// The position token: the present axes, space separated.
pub open spec fn position_text(v: Vec3) -> Seq<char> {
    join_texts(position_parts(v), seq![' '])
}

/// The position token of a motion line, omitted when no axis is given
/// (a feedrate-only motion line).
pub open spec fn target_parts(v: Vec3) -> Seq<Seq<char>> {
    if all_axes_absent(v) {
        Seq::empty()
    } else {
        seq![position_text(v)]
    }
}

/// A motion line: motion-class prefix, optional feedrate token, then the
/// position token. A draw and a move differ only in the prefix.
pub open spec fn move_text(prefix: Seq<char>, target: Vec3, feedrate: Option<u32>) -> Seq<char> {
    join_texts(seq![prefix] + feed_parts(feedrate) + target_parts(target), seq![' '])
}

/// The target Marlin moves to when activating: the pen lowered by a fixed
/// virtual Z offset.
pub open spec fn pen_down_target() -> Vec3 {
    Vec3 { x: Some(0i64), y: Some(0i64), z: Some(-5i64) }
}

/// The target Marlin moves to when deactivating: the pen lifted by the same
/// fixed offset.
pub open spec fn pen_up_target() -> Vec3 {
    Vec3 { x: Some(0i64), y: Some(0i64), z: Some(5i64) }
}

/// The axis flags of a Marlin homing line.
pub open spec fn home_flag_parts(x: bool, y: bool, z: bool) -> Seq<Seq<char>> {
    (if x {
        seq![seq!['X']]
    } else {
        Seq::<Seq<char>>::empty()
    }) + (if y {
        seq![seq!['Y']]
    } else {
        Seq::<Seq<char>>::empty()
    }) + (if z {
        seq![seq!['Z']]
    } else {
        Seq::<Seq<char>>::empty()
    })
}

/// A Marlin homing line: the homing code, then only the requested axes.
pub open spec fn home_text(x: bool, y: bool, z: bool) -> Seq<char> {
    join_texts(seq!["G28"@] + home_flag_parts(x, y, z), seq![' '])
}

/// The axes whose stepper state matches `Enabled`, in X, Y, Z order.
pub open spec fn enabled_parts(x: StepperState, y: StepperState, z: StepperState) -> Seq<
    Seq<char>,
> {
    (if x is Enabled {
        seq![seq!['X']]
    } else {
        Seq::<Seq<char>>::empty()
    }) + (if y is Enabled {
        seq![seq!['Y']]
    } else {
        Seq::<Seq<char>>::empty()
    }) + (if z is Enabled {
        seq![seq!['Z']]
    } else {
        Seq::<Seq<char>>::empty()
    })
}

/// The axes whose stepper state matches `Disabled`, in X, Y, Z order.
pub open spec fn disabled_parts(x: StepperState, y: StepperState, z: StepperState) -> Seq<
    Seq<char>,
> {
    (if x is Disabled {
        seq![seq!['X']]
    } else {
        Seq::<Seq<char>>::empty()
    }) + (if y is Disabled {
        seq![seq!['Y']]
    } else {
        Seq::<Seq<char>>::empty()
    }) + (if z is Disabled {
        seq![seq!['Z']]
    } else {
        Seq::<Seq<char>>::empty()
    })
}

/// The Marlin stepper-control lines: a disable group, then an enable group,
/// each omitted when no axis requests that state.
pub open spec fn stepper_lines(x: StepperState, y: StepperState, z: StepperState) -> Seq<
    Seq<char>,
> {
    (if disabled_parts(x, y, z).len() > 0 {
        seq![join_texts(seq!["M18"@] + disabled_parts(x, y, z), seq![' '])]
    } else {
        Seq::<Seq<char>>::empty()
    }) + (if enabled_parts(x, y, z).len() > 0 {
        seq![join_texts(seq!["M17"@] + enabled_parts(x, y, z), seq![' '])]
    } else {
        Seq::<Seq<char>>::empty()
    })
}

/// The Marlin stepper-control text: up to two newline-separated lines.
pub open spec fn stepper_text(x: StepperState, y: StepperState, z: StepperState) -> Seq<char> {
    join_texts(stepper_lines(x, y, z), seq!['\n'])
}

/// Stepper control renders under Marlin and only under Marlin, and its text
/// is at most two lines: the disable group and the enable group, each listing
/// exactly the axes whose requested state matches, each omitted when empty
/// (never both — three axes always fill at least one group).
pub proof fn lemma_stepper_control_lines(x: StepperState, y: StepperState, z: StepperState)
    ensures
        render_ok(GCode::StepperControl { x, y, z }, Flavor::Marlin),
        !render_ok(GCode::StepperControl { x, y, z }, Flavor::GRBL),
        1 <= stepper_lines(x, y, z).len() <= 2,
        enabled_parts(x, y, z).len() + disabled_parts(x, y, z).len() == 3,
{
}

/// Whether the operation has a rendering under the flavor.
pub open spec fn render_ok(op: GCode, flavor: Flavor) -> bool {
    match op {
        GCode::StepperControl { .. } => flavor is Marlin,
        GCode::SetCurrentPosition(v) => !all_axes_absent(v),
        _ => true,
    }
}

/// The error rendering the operation fails with, when it has none.
pub open spec fn render_err(op: GCode) -> GcodeError {
    match op {
        GCode::StepperControl { .. } => GcodeError::UnsupportedOperation,
        _ => GcodeError::IncompletePosition,
    }
}

/// The exact command text of an operation under a flavor (meaningful when
/// `render_ok` holds).
pub open spec fn render_text(op: GCode, flavor: Flavor) -> Seq<char> {
    match op {
        GCode::Activate => match flavor {
            Flavor::GRBL => "M3 S254\nG4 P0.3"@,
            Flavor::Marlin => move_text("G0"@, pen_down_target(), None),
        },
        GCode::Deactivate => match flavor {
            Flavor::GRBL => "M3 S65\nG4 P0.3"@,
            Flavor::Marlin => move_text("G0"@, pen_up_target(), None),
        },
        GCode::EndProgram => match flavor {
            Flavor::GRBL => "M5\nM2"@,
            Flavor::Marlin => "M5"@,
        },
        GCode::SetXY => "G17"@,
        GCode::Pause(ms) => "G4 P"@ + pause_str(ms),
        GCode::SetPositionMode(p) => match p {
            Position::Absolute => "G90"@,
            Position::Relative => "G91"@,
        },
        GCode::SetCurrentPosition(v) => "G92 "@ + position_text(v),
        GCode::SetUnits(u) => match u {
            Units::Inches => "G20"@,
            Units::Millimeters => "G21"@,
        },
        GCode::LinearMove { target, feedrate } => move_text("G0"@, target, feedrate),
        GCode::LinearDraw { target, feedrate } => move_text("G1"@, target, feedrate),
        GCode::Home { x, y, z } => match flavor {
            Flavor::GRBL => "$H"@,
            Flavor::Marlin => home_text(x, y, z),
        },
        GCode::StepperControl { x, y, z } => stepper_text(x, y, z),
    }
}

impl Vec3 {
    /// Renders the present axes as a position token; fails with
    /// [`GcodeError::IncompletePosition`] if and only if no axis is given.
    pub fn render_position(&self) -> (r: Result<String, GcodeError>)
        ensures
            r is Ok <==> !all_axes_absent(*self),
            r is Ok ==> r->Ok_0@ == position_text(*self),
            r is Err ==> r->Err_0 == GcodeError::IncompletePosition,
    {
        if self.x.is_none() && self.y.is_none() && self.z.is_none() {
            return Err(GcodeError::IncompletePosition);
        }
        Ok(position_string(self))
    }
}

/// Builds the space-separated axis tokens of a position (empty text when no
/// axis is present).
fn position_string(v: &Vec3) -> (r: String)
    ensures
        r@ == position_text(*v),
{
    proof {
        reveal_strlit("X");
        reveal_strlit("Y");
        reveal_strlit("Z");
        reveal_strlit(" ");
    }
    let mut parts: Vec<String> = Vec::new();
    if let Some(xv) = v.x {
        let mut p = String::from_str("X");
        let num = i64_string(xv);
        p.append(num.as_str());
        parts.push(p);
    }
    assert(views_of(parts@) =~~= axis_parts('X', v.x));
    if let Some(yv) = v.y {
        let mut p = String::from_str("Y");
        let num = i64_string(yv);
        p.append(num.as_str());
        parts.push(p);
    }
    assert(views_of(parts@) =~~= axis_parts('X', v.x) + axis_parts('Y', v.y));
    if let Some(zv) = v.z {
        let mut p = String::from_str("Z");
        let num = i64_string(zv);
        p.append(num.as_str());
        parts.push(p);
    }
    assert(views_of(parts@) =~~= position_parts(*v));
    let r = join_with(&parts, " ");
    assert(" "@ =~= seq![' ']);
    r
}

/// Builds a motion line from its prefix, feedrate and target.
fn move_string(prefix: &str, target: &Vec3, feedrate: Option<u32>) -> (r: String)
    ensures
        r@ == move_text(prefix@, *target, feedrate),
{
    proof {
        reveal_strlit("F");
        reveal_strlit(" ");
    }
    let mut parts: Vec<String> = Vec::new();
    parts.push(String::from_str(prefix));
    assert(views_of(parts@) =~~= seq![prefix@]);
    if let Some(f) = feedrate {
        let mut p = String::from_str("F");
        let num = u64_string(f as u64);
        p.append(num.as_str());
        parts.push(p);
    }
    assert(views_of(parts@) =~~= seq![prefix@] + feed_parts(feedrate));
    if !(target.x.is_none() && target.y.is_none() && target.z.is_none()) {
        parts.push(position_string(target));
    }
    assert(views_of(parts@) =~~= seq![prefix@] + feed_parts(feedrate) + target_parts(*target));
    let r = join_with(&parts, " ");
    assert(" "@ =~= seq![' ']);
    r
}

/// Builds the Marlin stepper-control text, partitioning the axes by their
/// requested state.
fn stepper_string(x: StepperState, y: StepperState, z: StepperState) -> (r: String)
    ensures
        r@ == stepper_text(x, y, z),
{
    proof {
        reveal_strlit("M17");
        reveal_strlit("M18");
        reveal_strlit("X");
        reveal_strlit("Y");
        reveal_strlit("Z");
        reveal_strlit(" ");
        reveal_strlit("\n");
    }
    let mut enable: Vec<String> = Vec::new();
    let mut disable: Vec<String> = Vec::new();
    enable.push(String::from_str("M17"));
    disable.push(String::from_str("M18"));
    match x {
        StepperState::Enabled => enable.push(String::from_str("X")),
        StepperState::Disabled => disable.push(String::from_str("X")),
    }
    match y {
        StepperState::Enabled => enable.push(String::from_str("Y")),
        StepperState::Disabled => disable.push(String::from_str("Y")),
    }
    match z {
        StepperState::Enabled => enable.push(String::from_str("Z")),
        StepperState::Disabled => disable.push(String::from_str("Z")),
    }
    assert(views_of(enable@) =~~= seq!["M17"@] + enabled_parts(x, y, z));
    assert(views_of(disable@) =~~= seq!["M18"@] + disabled_parts(x, y, z));
    let mut lines: Vec<String> = Vec::new();
    if disable.len() > 1 {
        lines.push(join_with(&disable, " "));
    }
    if enable.len() > 1 {
        lines.push(join_with(&enable, " "));
    }
    assert(" "@ =~= seq![' ']);
    assert(views_of(lines@) =~~= stepper_lines(x, y, z));
    let r = join_with(&lines, "\n");
    assert("\n"@ =~= seq!['\n']);
    r
}

/// Builds a Marlin homing line listing only the requested axes.
fn home_string(x: bool, y: bool, z: bool) -> (r: String)
    ensures
        r@ == home_text(x, y, z),
{
    proof {
        reveal_strlit("G28");
        reveal_strlit("X");
        reveal_strlit("Y");
        reveal_strlit("Z");
        reveal_strlit(" ");
    }
    let mut parts: Vec<String> = Vec::new();
    parts.push(String::from_str("G28"));
    if x {
        parts.push(String::from_str("X"));
    }
    if y {
        parts.push(String::from_str("Y"));
    }
    if z {
        parts.push(String::from_str("Z"));
    }
    assert(views_of(parts@) =~~= seq!["G28"@] + home_flag_parts(x, y, z));
    let r = join_with(&parts, " ");
    assert(" "@ =~= seq![' ']);
    r
}

impl GCode {
    /// Renders the operation as command text for the flavor.
    ///
    /// Fails with [`GcodeError::UnsupportedOperation`] exactly for
    /// `StepperControl` under GRBL, and with
    /// [`GcodeError::IncompletePosition`] exactly for an origin set with no
    /// axis given; every other operation renders under either flavor.
    pub fn render(&self, flavor: &Flavor) -> (r: Result<String, GcodeError>)
        ensures
            r is Ok <==> render_ok(*self, *flavor),
            r is Ok ==> r->Ok_0@ == render_text(*self, *flavor),
            r is Err ==> r->Err_0 == render_err(*self),
    {
        match self {
            GCode::Activate => match flavor {
                Flavor::GRBL => Ok(String::from_str("M3 S254\nG4 P0.3")),
                Flavor::Marlin => {
                    let target = Vec3 { x: Some(0), y: Some(0), z: Some(-5) };
                    Ok(move_string("G0", &target, None))
                },
            },
            GCode::Deactivate => match flavor {
                Flavor::GRBL => Ok(String::from_str("M3 S65\nG4 P0.3")),
                Flavor::Marlin => {
                    let target = Vec3 { x: Some(0), y: Some(0), z: Some(5) };
                    Ok(move_string("G0", &target, None))
                },
            },
            GCode::EndProgram => match flavor {
                Flavor::GRBL => Ok(String::from_str("M5\nM2")),
                Flavor::Marlin => Ok(String::from_str("M5")),
            },
            GCode::SetXY => Ok(String::from_str("G17")),
            GCode::Pause(ms) => {
                let mut s = String::from_str("G4 P");
                let secs = pause_seconds_string(*ms);
                s.append(secs.as_str());
                Ok(s)
            },
            GCode::SetPositionMode(p) => match p {
                Position::Absolute => Ok(String::from_str("G90")),
                Position::Relative => Ok(String::from_str("G91")),
            },
            GCode::SetCurrentPosition(v) => match v.render_position() {
                Ok(pos) => {
                    let mut s = String::from_str("G92 ");
                    s.append(pos.as_str());
                    Ok(s)
                },
                Err(e) => Err(e),
            },
            GCode::SetUnits(u) => match u {
                Units::Inches => Ok(String::from_str("G20")),
                Units::Millimeters => Ok(String::from_str("G21")),
            },
            GCode::LinearMove { target, feedrate } => Ok(move_string("G0", target, *feedrate)),
            GCode::LinearDraw { target, feedrate } => Ok(move_string("G1", target, *feedrate)),
            GCode::Home { x, y, z } => match flavor {
                Flavor::GRBL => Ok(String::from_str("$H")),
                Flavor::Marlin => Ok(home_string(*x, *y, *z)),
            },
            GCode::StepperControl { x, y, z } => match flavor {
                Flavor::GRBL => Err(GcodeError::UnsupportedOperation),
                Flavor::Marlin => Ok(stepper_string(*x, *y, *z)),
            },
        }
    }
}

/// The fixed GRBL preamble: millimeter units, absolute positioning, pen up,
/// a feedrate-setting settling move, and a zeroed current position.
pub open spec fn grbl_preamble() -> Seq<GCode> {
    seq![
        GCode::SetUnits(Units::Millimeters),
        GCode::SetPositionMode(Position::Absolute),
        GCode::Deactivate,
        GCode::LinearMove { target: Vec3 { x: None, y: None, z: None }, feedrate: Some(1000u32) },
        GCode::SetCurrentPosition(Vec3 { x: Some(0i64), y: Some(0i64), z: Some(0i64) }),
    ]
}

/// The fixed GRBL footer: pen up, return to X=Y=0 (Z untouched), end program.
pub open spec fn grbl_footer() -> Seq<GCode> {
    seq![
        GCode::Deactivate,
        GCode::LinearMove {
            target: Vec3 { x: Some(0i64), y: Some(0i64), z: None },
            feedrate: None,
        },
        GCode::EndProgram,
    ]
}

/// Every operation in the sequence has a rendering under the flavor.
pub open spec fn ops_renderable(ops: Seq<GCode>, flavor: Flavor) -> bool {
    forall|i: int| 0 <= i < ops.len() ==> render_ok(#[trigger] ops[i], flavor)
}

/// The fixed GRBL preamble and footer render under GRBL.
pub proof fn lemma_grbl_fixed_renderable()
    ensures
        ops_renderable(grbl_preamble(), Flavor::GRBL),
        ops_renderable(grbl_footer(), Flavor::GRBL),
{
    let pre = grbl_preamble();
    assert forall|i: int| 0 <= i < pre.len() implies render_ok(#[trigger] pre[i], Flavor::GRBL) by {
        assert(pre[0] == GCode::SetUnits(Units::Millimeters));
        assert(pre[1] == GCode::SetPositionMode(Position::Absolute));
        assert(pre[2] == GCode::Deactivate);
        assert(pre[3] == (GCode::LinearMove {
            target: Vec3 { x: None, y: None, z: None },
            feedrate: Some(1000u32),
        }));
        assert(pre[4] == GCode::SetCurrentPosition(
            Vec3 { x: Some(0i64), y: Some(0i64), z: Some(0i64) },
        ));
    }
    let foot = grbl_footer();
    assert forall|i: int| 0 <= i < foot.len() implies render_ok(
        #[trigger] foot[i],
        Flavor::GRBL,
    ) by {
        assert(foot[0] == GCode::Deactivate);
        assert(foot[1] == (GCode::LinearMove {
            target: Vec3 { x: Some(0i64), y: Some(0i64), z: None },
            feedrate: None,
        }));
        assert(foot[2] == GCode::EndProgram);
    }
}

impl GCode {
    /// The operations prepended to every job for the flavor. A Marlin
    /// preamble is not specified, so requesting it is rejected rather than
    /// guessed.
    pub fn preamble(flavor: &Flavor) -> (r: Result<Vec<GCode>, GcodeError>)
        ensures
            r is Ok <==> flavor is GRBL,
            r is Ok ==> r->Ok_0@ == grbl_preamble(),
            r is Err ==> r->Err_0 == GcodeError::UnsupportedOperation,
    {
        match flavor {
            Flavor::GRBL => {
                let mut ops: Vec<GCode> = Vec::new();
                ops.push(GCode::SetUnits(Units::Millimeters));
                ops.push(GCode::SetPositionMode(Position::Absolute));
                ops.push(GCode::Deactivate);
                ops.push(GCode::LinearMove {
                    target: Vec3 { x: None, y: None, z: None },
                    feedrate: Some(1000),
                });
                ops.push(GCode::SetCurrentPosition(Vec3 {
                    x: Some(0),
                    y: Some(0),
                    z: Some(0),
                }));
                assert(ops@ =~= grbl_preamble());
                Ok(ops)
            },
            Flavor::Marlin => Err(GcodeError::UnsupportedOperation),
        }
    }

    /// The operations appended to every job for the flavor; rejected for
    /// Marlin like the preamble.
    pub fn footer(flavor: &Flavor) -> (r: Result<Vec<GCode>, GcodeError>)
        ensures
            r is Ok <==> flavor is GRBL,
            r is Ok ==> r->Ok_0@ == grbl_footer(),
            r is Err ==> r->Err_0 == GcodeError::UnsupportedOperation,
    {
        match flavor {
            Flavor::GRBL => {
                let mut ops: Vec<GCode> = Vec::new();
                ops.push(GCode::Deactivate);
                ops.push(GCode::LinearMove {
                    target: Vec3 { x: Some(0), y: Some(0), z: None },
                    feedrate: None,
                });
                ops.push(GCode::EndProgram);
                assert(ops@ =~= grbl_footer());
                Ok(ops)
            },
            Flavor::Marlin => Err(GcodeError::UnsupportedOperation),
        }
    }
}

impl Flavor {
    /// Renders each operation in order; fails on the first operation that has
    /// no rendering under this flavor.
    pub fn render(&self, operations: &[GCode]) -> (r: Result<Vec<String>, GcodeError>)
        ensures
            r is Ok <==> ops_renderable(operations@, *self),
            r is Ok ==> r->Ok_0@.len() == operations@.len(),
            r is Ok ==> forall|i: int|
                0 <= i < operations@.len() ==> r->Ok_0@[i]@ == render_text(
                    #[trigger] operations@[i],
                    *self,
                ),
            r is Err ==> exists|i: int|
                0 <= i < operations@.len() && !render_ok(#[trigger] operations@[i], *self)
                    && r->Err_0 == render_err(operations@[i]) && (forall|j: int|
                    0 <= j < i ==> render_ok(#[trigger] operations@[j], *self)),
    {
        let mut lines: Vec<String> = Vec::new();
        let mut i: usize = 0;
        while i < operations.len()
            invariant
                i <= operations@.len(),
                lines@.len() == i,
                forall|j: int| 0 <= j < i ==> render_ok(#[trigger] operations@[j], *self),
                forall|j: int|
                    0 <= j < i ==> lines@[j]@ == render_text(#[trigger] operations@[j], *self),
            decreases operations@.len() - i,
        {
            match operations[i].render(self) {
                Ok(line) => lines.push(line),
                Err(e) => {
                    return Err(e);
                },
            }
            i = i + 1;
        }
        Ok(lines)
    }
}

/// The whole operation sequence of a job render: flavor preamble, the job's
/// own operations, then the flavor footer.
pub open spec fn program_ops(job: Seq<GCode>) -> Seq<GCode> {
    grbl_preamble() + job + grbl_footer()
}

/// Renders a full job: preamble, job operations, footer, concatenated in that
/// order. The render is rejected as a whole — nothing is ever half-rendered —
/// when the flavor has no preamble (Marlin) or some job operation has no
/// rendering under the flavor.
pub fn to_program(gcode: &[GCode], flavor: Flavor) -> (r: Result<Vec<String>, GcodeError>)
    ensures
        r is Ok <==> (flavor is GRBL && ops_renderable(gcode@, flavor)),
        r is Ok ==> r->Ok_0@.len() == program_ops(gcode@).len(),
        r is Ok ==> forall|i: int|
            0 <= i < program_ops(gcode@).len() ==> r->Ok_0@[i]@ == render_text(
                #[trigger] program_ops(gcode@)[i],
                flavor,
            ),
        !(flavor is GRBL) ==> r is Err && r->Err_0 == GcodeError::UnsupportedOperation,
        (flavor is GRBL && !ops_renderable(gcode@, flavor)) ==> r is Err && exists|i: int|
            0 <= i < gcode@.len() && !render_ok(#[trigger] gcode@[i], flavor) && r->Err_0
                == render_err(gcode@[i]) && (forall|j: int|
                0 <= j < i ==> render_ok(#[trigger] gcode@[j], flavor)),
{
    proof {
        lemma_grbl_fixed_renderable();
    }
    let pre_ops = match GCode::preamble(&flavor) {
        Ok(ops) => ops,
        Err(e) => {
            return Err(e);
        },
    };
    let foot_ops = match GCode::footer(&flavor) {
        Ok(ops) => ops,
        Err(e) => {
            return Err(e);
        },
    };
    let mut rendered = match flavor.render(pre_ops.as_slice()) {
        Ok(lines) => lines,
        Err(e) => {
            return Err(e);
        },
    };
    let mut job_lines = match flavor.render(gcode) {
        Ok(lines) => lines,
        Err(e) => {
            return Err(e);
        },
    };
    let mut foot_lines = match flavor.render(foot_ops.as_slice()) {
        Ok(lines) => lines,
        Err(e) => {
            return Err(e);
        },
    };
    rendered.append(&mut job_lines);
    rendered.append(&mut foot_lines);
    proof {
        let all = program_ops(gcode@);
        assert(rendered@.len() == all.len());
        assert forall|i: int| 0 <= i < all.len() implies rendered@[i]@ == render_text(
            #[trigger] all[i],
            flavor,
        ) by {
            if i < grbl_preamble().len() {
                assert(all[i] == grbl_preamble()[i]);
            } else if i < grbl_preamble().len() + gcode@.len() {
                assert(all[i] == gcode@[i - grbl_preamble().len()]);
            } else {
                assert(all[i] == grbl_footer()[i - grbl_preamble().len() - gcode@.len()]);
            }
        }
    }
    Ok(rendered)
}

} // verus!
