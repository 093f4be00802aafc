//! Backend-agnostic face-geometry pipeline.
//!
//! The crate canonicalizes raw facial landmarks from a pluggable detection
//! backend into a fixed 68-point model, derives per-eye openness and center
//! metrics, and prepares and interprets the data of a Perspective-n-Point
//! head-pose solve.  All coordinates are integer values in image pixel space
//! (top-left origin, x increasing right, y increasing down); callers that
//! track sub-pixel positions pick a fixed sub-pixel unit and scale once at
//! the boundary.

use vstd::prelude::*;

pub mod device;
pub mod error;
pub mod eyes;
pub mod face;
pub mod geometry;
pub mod pose;
pub mod processor;

pub use error::FacialProcessingError;
pub use geometry::BoundingBox;
pub use geometry::Point;
pub use geometry::Point2D;

verus! {

/// Which of the two eyes (or eyebrows) a sub-region belongs to, from the
/// image's point of view.
#[derive(Copy, Clone, Debug, PartialEq, Eq, Structural)]
pub enum LeftRight {
    Left,
    Right,
}

impl Default for LeftRight {
    /// The left side, matching the order in which per-eye results are
    /// reported.
    fn default() -> (r: LeftRight)
        ensures
            r == LeftRight::Left,
    {
        LeftRight::Left
    }
}

/// The stages a face-processing backend can be capable of.
#[derive(Copy, Clone, Debug, PartialEq, Eq, Structural)]
pub enum SupportedProcesses {
    Detection,
    Alignment,
    Eyesolation,
    PoseEstimation,
}

} // verus!
