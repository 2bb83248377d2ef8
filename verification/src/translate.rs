//! The movement translator and the bed clamp.
//!
//! The translator turns a client movement list into an operation sequence,
//! inserting pen activation and deactivation exactly at the pen-state
//! transitions. The clamp bounds destinations to the machine's travel limits
//! before translation.
use vstd::prelude::*;

use crate::gcode::{ops_renderable, render_ok, Flavor, GCode, Position};
use crate::geometry::Vec3;
use crate::models::{Movement, Vec2D};

verus! {

/// A mathematical value that fits the machine's coordinate word.
pub open spec fn fits_i64(v: int) -> bool {
    i64::MIN <= v <= i64::MAX
}

/// The pen state before movement `k` is executed: initially up, afterwards
/// whatever the previous movement requested.
pub open spec fn pen_before(ms: Seq<Movement>, k: int) -> bool {
    if k <= 0 {
        false
    } else {
        ms[k - 1].pen_down
    }
}

/// The absolute position reached after the first `k` movements, starting from
/// the origin. In absolute mode each destination is used as given; in
/// relative mode each movement displaces the running position.
pub open spec fn pos_after(ms: Seq<Movement>, mode: Position, k: int) -> (int, int)
    decreases k,
{
    if k <= 0 {
        (0int, 0int)
    } else {
        match mode {
            Position::Absolute => (ms[k - 1].dest.x as int, ms[k - 1].dest.y as int),
            Position::Relative => (
                pos_after(ms, mode, k - 1).0 + ms[k - 1].dest.x,
                pos_after(ms, mode, k - 1).1 + ms[k - 1].dest.y,
            ),
        }
    }
}

/// Every intermediate position of the translation stays within the coordinate
/// word (trivial in absolute mode).
pub open spec fn translation_fits(ms: Seq<Movement>, mode: Position) -> bool {
    match mode {
        Position::Absolute => true,
        Position::Relative => forall|k: int|
            0 <= k < ms.len() ==> fits_i64(#[trigger] pos_after(ms, mode, k + 1).0) && fits_i64(
                pos_after(ms, mode, k + 1).1,
            ),
    }
}

/// An absolute destination as an operation target: X and Y present, Z absent.
pub open spec fn step_target(p: (int, int)) -> Vec3 {
    Vec3 { x: Some(p.0 as i64), y: Some(p.1 as i64), z: None }
}

/// The operations one movement contributes, given the pen state on entry: a
/// draw or a move to the destination, preceded by the one pen toggle needed
/// when the requested pen state differs.
pub open spec fn step_ops(active: bool, pen: bool, dest: Vec3) -> Seq<GCode> {
    if active && pen {
        seq![GCode::LinearDraw { target: dest, feedrate: None }]
    } else if active && !pen {
        seq![GCode::Deactivate, GCode::LinearMove { target: dest, feedrate: None }]
    } else if !active && pen {
        seq![GCode::Activate, GCode::LinearDraw { target: dest, feedrate: None }]
    } else {
        seq![GCode::LinearMove { target: dest, feedrate: None }]
    }
}

/// The full translation of a movement list: the concatenation of each
/// movement's step, always in absolute output coordinates.
pub open spec fn translate_ops(ms: Seq<Movement>, mode: Position) -> Seq<GCode>
    decreases ms.len(),
{
    if ms.len() == 0 {
        Seq::empty()
    } else {
        let k = ms.len() - 1;
        translate_ops(ms.drop_last(), mode) + step_ops(
            pen_before(ms, k),
            ms[k].pen_down,
            step_target(pos_after(ms, mode, k + 1)),
        )
    }
}

/// Positions only depend on the movements already executed.
proof fn lemma_pos_after_prefix(pre: Seq<Movement>, ms: Seq<Movement>, mode: Position, k: int)
    requires
        0 <= k <= pre.len() <= ms.len(),
        forall|j: int| 0 <= j < pre.len() ==> pre[j] == ms[j],
    ensures
        pos_after(pre, mode, k) == pos_after(ms, mode, k),
    decreases k,
{
    if k > 0 {
        lemma_pos_after_prefix(pre, ms, mode, k - 1);
    }
}

/// Unfolds the translation of one more movement.
proof fn lemma_translate_take_step(ms: Seq<Movement>, mode: Position, i: int)
    requires
        0 <= i < ms.len(),
    ensures
        translate_ops(ms.take(i + 1), mode) == translate_ops(ms.take(i), mode) + step_ops(
            pen_before(ms, i),
            ms[i].pen_down,
            step_target(pos_after(ms, mode, i + 1)),
        ),
{
    let pre = ms.take(i + 1);
    assert(pre.drop_last() =~= ms.take(i));
    assert(pre[i] == ms[i]);
    assert(pen_before(pre, i) == pen_before(ms, i));
    lemma_pos_after_prefix(pre, ms, mode, i + 1);
}

/// Translates movements into operations.
///
/// Accepts either position mode but always produces absolute coordinates,
/// starting at the origin with the pen up. Each movement becomes a draw (pen
/// down) or a move (pen up) to its absolute destination; an `Activate` or
/// `Deactivate` is inserted before it exactly when the requested pen state
/// differs from the running one.
pub fn to_gcode(movements: &Vec<Movement>, position_mode: Position) -> (ops: Vec<GCode>)
    requires
        translation_fits(movements@, position_mode),
    ensures
        ops@ == translate_ops(movements@, position_mode),
{
    let mut active: bool = false;
    let mut px: i64 = 0;
    let mut py: i64 = 0;
    let mut as_gcode: Vec<GCode> = Vec::new();
    let mut i: usize = 0;
    while i < movements.len()
        invariant
            i <= movements@.len(),
            translation_fits(movements@, position_mode),
            active == pen_before(movements@, i as int),
            px as int == pos_after(movements@, position_mode, i as int).0,
            py as int == pos_after(movements@, position_mode, i as int).1,
            as_gcode@ == translate_ops(movements@.take(i as int), position_mode),
        decreases movements@.len() - i,
    {
        let mv = movements[i];
        let (nx, ny): (i64, i64) = match position_mode {
            Position::Absolute => (mv.dest.x, mv.dest.y),
            Position::Relative => (px + mv.dest.x, py + mv.dest.y),
        };
        let dest = Vec3 { x: Some(nx), y: Some(ny), z: None };
        let ghost before = as_gcode@;
        match (active, mv.pen_down) {
            (true, true) => {
                as_gcode.push(GCode::LinearDraw { target: dest, feedrate: None });
            },
            (true, false) => {
                as_gcode.push(GCode::Deactivate);
                as_gcode.push(GCode::LinearMove { target: dest, feedrate: None });
                active = mv.pen_down;
            },
            (false, true) => {
                as_gcode.push(GCode::Activate);
                as_gcode.push(GCode::LinearDraw { target: dest, feedrate: None });
                active = mv.pen_down;
            },
            (false, false) => {
                as_gcode.push(GCode::LinearMove { target: dest, feedrate: None });
            },
        }
        proof {
            lemma_translate_take_step(movements@, position_mode, i as int);
            assert(as_gcode@ =~= before + step_ops(
                pen_before(movements@, i as int),
                movements@[i as int].pen_down,
                step_target(pos_after(movements@, position_mode, i + 1)),
            ));
        }
        px = nx;
        py = ny;
        i = i + 1;
    }
    proof {
        assert(movements@.take(movements@.len() as int) =~= movements@);
    }
    as_gcode
}

/// The number of `Activate` operations in a sequence.
pub open spec fn count_activations(ops: Seq<GCode>) -> nat
    decreases ops.len(),
{
    if ops.len() == 0 {
        0
    } else {
        count_activations(ops.drop_last()) + if ops.last() is Activate {
            1nat
        } else {
            0nat
        }
    }
}

/// The number of `Deactivate` operations in a sequence.
pub open spec fn count_deactivations(ops: Seq<GCode>) -> nat
    decreases ops.len(),
{
    if ops.len() == 0 {
        0
    } else {
        count_deactivations(ops.drop_last()) + if ops.last() is Deactivate {
            1nat
        } else {
            0nat
        }
    }
}

/// The number of contiguous pen-down runs a movement list starts.
pub open spec fn rising_edges(ms: Seq<Movement>) -> nat
    decreases ms.len(),
{
    if ms.len() == 0 {
        0
    } else {
        rising_edges(ms.drop_last()) + if ms.last().pen_down && !pen_before(
            ms,
            ms.len() - 1,
        ) {
            1nat
        } else {
            0nat
        }
    }
}

/// The number of contiguous pen-down runs a movement list ends.
pub open spec fn falling_edges(ms: Seq<Movement>) -> nat
    decreases ms.len(),
{
    if ms.len() == 0 {
        0
    } else {
        falling_edges(ms.drop_last()) + if !ms.last().pen_down && pen_before(
            ms,
            ms.len() - 1,
        ) {
            1nat
        } else {
            0nat
        }
    }
}

/// Toggle counts distribute over concatenation.
proof fn lemma_counts_concat(a: Seq<GCode>, b: Seq<GCode>)
    ensures
        count_activations(a + b) == count_activations(a) + count_activations(b),
        count_deactivations(a + b) == count_deactivations(a) + count_deactivations(b),
    decreases b.len(),
{
    if b.len() == 0 {
        assert(a + b =~= a);
    } else {
        assert((a + b).drop_last() =~= a + b.drop_last());
        assert((a + b).last() == b.last());
        lemma_counts_concat(a, b.drop_last());
    }
}

/// Minimal pen toggling: a translation contains exactly one `Activate` per
/// contiguous pen-down run of the movement list — the run's first movement —
/// and exactly one `Deactivate` per run that ends within the list, however
/// long each run is, in either position mode.
pub proof fn lemma_minimal_toggling(ms: Seq<Movement>, mode: Position)
    ensures
        count_activations(translate_ops(ms, mode)) == rising_edges(ms),
        count_deactivations(translate_ops(ms, mode)) == falling_edges(ms),
    decreases ms.len(),
{
    if ms.len() > 0 {
        let k = ms.len() - 1;
        let head = translate_ops(ms.drop_last(), mode);
        let step = step_ops(
            pen_before(ms, k),
            ms[k].pen_down,
            step_target(pos_after(ms, mode, k + 1)),
        );
        lemma_minimal_toggling(ms.drop_last(), mode);
        lemma_counts_concat(head, step);
        assert(count_activations(step) == if ms[k].pen_down && !pen_before(ms, k) {
            1nat
        } else {
            0nat
        }) by {
            lemma_step_counts(pen_before(ms, k), ms[k].pen_down, step_target(pos_after(ms, mode, k + 1)));
        }
        assert(count_deactivations(step) == if !ms[k].pen_down && pen_before(ms, k) {
            1nat
        } else {
            0nat
        }) by {
            lemma_step_counts(pen_before(ms, k), ms[k].pen_down, step_target(pos_after(ms, mode, k + 1)));
        }
    }
}

/// The toggle counts of a single movement's step.
proof fn lemma_step_counts(active: bool, pen: bool, dest: Vec3)
    ensures
        count_activations(step_ops(active, pen, dest)) == if pen && !active {
            1nat
        } else {
            0nat
        },
        count_deactivations(step_ops(active, pen, dest)) == if !pen && active {
            1nat
        } else {
            0nat
        },
{
    reveal_with_fuel(count_activations, 3);
    reveal_with_fuel(count_deactivations, 3);
    let s = step_ops(active, pen, dest);
    if s.len() == 1 {
        assert(s.drop_last() =~= Seq::<GCode>::empty());
    } else {
        assert(s.drop_last().drop_last() =~= Seq::<GCode>::empty());
        assert(s.drop_last().last() == s[0]);
    }
}

/// A translated job always renders, under either flavor: the translator only
/// emits motion and pen operations, never a stepper control or an incomplete
/// origin set, so submitting a translated job can never fail the renderer.
pub proof fn lemma_translation_renders(ms: Seq<Movement>, mode: Position, flavor: Flavor)
    ensures
        ops_renderable(translate_ops(ms, mode), flavor),
    decreases ms.len(),
{
    if ms.len() > 0 {
        let k = ms.len() - 1;
        let head = translate_ops(ms.drop_last(), mode);
        let step = step_ops(
            pen_before(ms, k),
            ms[k].pen_down,
            step_target(pos_after(ms, mode, k + 1)),
        );
        lemma_translation_renders(ms.drop_last(), mode, flavor);
        let all = translate_ops(ms, mode);
        assert forall|i: int| 0 <= i < all.len() implies render_ok(#[trigger] all[i], flavor) by {
            if i < head.len() {
                assert(all[i] == head[i]);
            } else {
                assert(all[i] == step[i - head.len()]);
            }
        }
    }
}

/// A coordinate bounded to the machine's travel along one axis:
/// `min(max(0, v), hi)`.
pub open spec fn clamp_coord(v: int, hi: int) -> int {
    let lifted = if v > 0 {
        v
    } else {
        0int
    };
    if lifted <= hi {
        lifted
    } else {
        hi
    }
}

/// The clamped absolute position reached after the first `k` movements: each
/// destination (taken as given in absolute mode, or displacing the running
/// clamped position in relative mode) is bounded to the bed before it becomes
/// the next reference position.
pub open spec fn clamped_pos(ms: Seq<Movement>, dims: Vec2D, mode: Position, k: int) -> (
    int,
    int,
)
    decreases k,
{
    if k <= 0 {
        (0int, 0int)
    } else {
        let prev = clamped_pos(ms, dims, mode, k - 1);
        let dest = match mode {
            Position::Absolute => (ms[k - 1].dest.x as int, ms[k - 1].dest.y as int),
            Position::Relative => (prev.0 + ms[k - 1].dest.x, prev.1 + ms[k - 1].dest.y),
        };
        (clamp_coord(dest.0, dims.x as int), clamp_coord(dest.1, dims.y as int))
    }
}

/// The destination the `k`-th output movement carries: the clamped position
/// itself in absolute mode, the displacement from the previous clamped
/// position in relative mode.
pub open spec fn clamped_out(ms: Seq<Movement>, dims: Vec2D, mode: Position, k: int) -> (
    int,
    int,
) {
    match mode {
        Position::Absolute => clamped_pos(ms, dims, mode, k + 1),
        Position::Relative => (
            clamped_pos(ms, dims, mode, k + 1).0 - clamped_pos(ms, dims, mode, k).0,
            clamped_pos(ms, dims, mode, k + 1).1 - clamped_pos(ms, dims, mode, k).1,
        ),
    }
}

/// The clamped movement list: destinations bounded to the bed, pen flags
/// untouched.
pub open spec fn clamped_movements(ms: Seq<Movement>, dims: Vec2D, mode: Position) -> Seq<
    Movement,
> {
    Seq::new(
        ms.len(),
        |k: int|
            Movement {
                dest: Vec2D {
                    x: clamped_out(ms, dims, mode, k).0 as i64,
                    y: clamped_out(ms, dims, mode, k).1 as i64,
                },
                pen_down: ms[k].pen_down,
            },
    )
}

/// Every unclamped relative destination stays within the coordinate word
/// (trivial in absolute mode; the clamped values themselves always fit).
pub open spec fn clamping_fits(ms: Seq<Movement>, dims: Vec2D, mode: Position) -> bool {
    match mode {
        Position::Absolute => true,
        Position::Relative => forall|k: int|
            0 <= k < ms.len() ==> fits_i64(
                #[trigger] clamped_pos(ms, dims, mode, k).0 + ms[k].dest.x,
            ) && fits_i64(clamped_pos(ms, dims, mode, k).1 + ms[k].dest.y),
    }
}

/// Every clamped position lies between the origin and the bed edge (on an
/// axis with a negative limit, at the limit itself).
proof fn lemma_clamped_pos_bounds(ms: Seq<Movement>, dims: Vec2D, mode: Position, k: int)
    requires
        k >= 0,
    ensures
        k >= 1 ==> clamped_pos(ms, dims, mode, k).0 == clamp_coord(
            clamped_pos(ms, dims, mode, k).0,
            dims.x as int,
        ) && clamped_pos(ms, dims, mode, k).1 == clamp_coord(
            clamped_pos(ms, dims, mode, k).1,
            dims.y as int,
        ),
        fits_i64(clamped_pos(ms, dims, mode, k).0),
        fits_i64(clamped_pos(ms, dims, mode, k).1),
    decreases k,
{
    if k > 0 {
        lemma_clamped_pos_bounds(ms, dims, mode, k - 1);
    }
}

/// The displacement between two successive clamped positions fits the
/// coordinate word.
proof fn lemma_clamped_diff_fits(ms: Seq<Movement>, dims: Vec2D, mode: Position, k: int)
    requires
        k >= 0,
    ensures
        fits_i64(
            clamped_pos(ms, dims, mode, k + 1).0 - clamped_pos(ms, dims, mode, k).0,
        ),
        fits_i64(
            clamped_pos(ms, dims, mode, k + 1).1 - clamped_pos(ms, dims, mode, k).1,
        ),
{
    lemma_clamped_pos_bounds(ms, dims, mode, k);
    lemma_clamped_pos_bounds(ms, dims, mode, k + 1);
}

/// Bounds each movement's destination to the bed dimensions.
///
/// The running position starts at the origin; each movement's absolute
/// destination is clamped per axis to `[0, dims]`, and — crucially for
/// relative jobs — subsequent relative movements are re-expressed against the
/// clamped position, so the output never drifts past the bed.
pub fn clamp_movements(movements: Vec<Movement>, dimensions: Vec2D, mode: Position) -> (r: Vec<
    Movement,
>)
    requires
        clamping_fits(movements@, dimensions, mode),
    ensures
        r@ == clamped_movements(movements@, dimensions, mode),
{
    let mut new_movements: Vec<Movement> = Vec::new();
    let mut px: i64 = 0;
    let mut py: i64 = 0;
    let mut i: usize = 0;
    while i < movements.len()
        invariant
            i <= movements@.len(),
            clamping_fits(movements@, dimensions, mode),
            px as int == clamped_pos(movements@, dimensions, mode, i as int).0,
            py as int == clamped_pos(movements@, dimensions, mode, i as int).1,
            new_movements@.len() == i,
            forall|j: int|
                0 <= j < i ==> new_movements@[j] == clamped_movements(
                    movements@,
                    dimensions,
                    mode,
                )[j],
        decreases movements@.len() - i,
    {
        let mv = movements[i];
        let (dx, dy): (i64, i64) = match mode {
            Position::Absolute => (mv.dest.x, mv.dest.y),
            Position::Relative => (px + mv.dest.x, py + mv.dest.y),
        };
        let lx = if dx > 0 {
            dx
        } else {
            0
        };
        let cx = if lx <= dimensions.x {
            lx
        } else {
            dimensions.x
        };
        let ly = if dy > 0 {
            dy
        } else {
            0
        };
        let cy = if ly <= dimensions.y {
            ly
        } else {
            dimensions.y
        };
        proof {
            lemma_clamped_diff_fits(movements@, dimensions, mode, i as int);
        }
        match mode {
            Position::Absolute => {
                new_movements.push(
                    Movement { dest: Vec2D { x: cx, y: cy }, pen_down: mv.pen_down },
                );
            },
            Position::Relative => {
                new_movements.push(
                    Movement { dest: Vec2D { x: cx - px, y: cy - py }, pen_down: mv.pen_down },
                );
            },
        }
        px = cx;
        py = cy;
        i = i + 1;
    }
    proof {
        assert(new_movements@ =~= clamped_movements(movements@, dimensions, mode));
    }
    new_movements
}

/// With a bed of non-negative dimensions, every destination of an
/// absolute-mode clamped movement list lies within the bed.
pub proof fn lemma_clamp_respects_bed(ms: Seq<Movement>, dims: Vec2D)
    requires
        dims.x >= 0,
        dims.y >= 0,
    ensures
        forall|k: int|
            0 <= k < ms.len() ==> 0 <= #[trigger] clamped_movements(
                ms,
                dims,
                Position::Absolute,
            )[k].dest.x <= dims.x && 0 <= clamped_movements(
                ms,
                dims,
                Position::Absolute,
            )[k].dest.y <= dims.y,
{
}

} // verus!
