//! Verified core of a pen-plotter / CNC control stack.
//!
//! The crate turns client-supplied drawing movements into controller-specific
//! command text and models the serial transport that streams that text to the
//! machine:
//!
//! - geometry primitives with optional per-axis components ([`Vec3`],
//!   [`models::Vec2D`]),
//! - a flavor-independent operation model ([`gcode::GCode`]) and renderers for
//!   the GRBL and Marlin dialects,
//! - the movement translator and bed clamp ([`translate`]),
//! - a content-addressed job handle ([`handle`]),
//! - the transport state machine that paces buffered command lines against the
//!   controller's acknowledgement protocol ([`transport`]).
//!
//! Serial, network and image I/O live outside this crate; the library works on
//! plain values only, with machine coordinates expressed in integer machine
//! units.
use vstd::prelude::*;

pub mod gcode;
pub mod geometry;
pub mod handle;
pub mod models;
pub mod numfmt;
pub mod translate;
pub mod transport;

pub use gcode::{to_program, Flavor, GCode, Position, StepperState, Units};
pub use handle::movements_handle;
pub use translate::{clamp_movements, to_gcode};
pub use transport::{PortCmd, SerialChannel, Status};
pub use geometry::Vec3;
pub use models::{MachineDetails, Movement, Vec2D};

verus! {

/// Failure modes of the geometry and rendering layer.
///
/// These are the only synchronous errors: they are detectable by the caller
/// before any command line is queued for transmission.
#[derive(Clone, Copy, Debug, PartialEq, Eq)]
pub enum GcodeError {
    /// A position with no axis given was used where at least one axis is
    /// required (an origin-set operation, or direct position rendering).
    IncompletePosition,
    /// Vector addition was attempted between axes with inconsistent presence.
    AxisMismatch,
    /// The operation has no rendering for the selected flavor.
    UnsupportedOperation,
}

} // verus!
