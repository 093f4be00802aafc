//! Typed failures of the face-geometry pipeline.

use vstd::prelude::*;

verus! {

/// Every failure a pipeline call can surface.  No error is retried
/// internally; each one is local to the call that returned it.
#[derive(Clone, Copy, Debug, PartialEq, Eq, Structural)]
pub enum FacialProcessingError {
    /// Invalid or missing pipeline setup, such as building with no backend
    /// selected or requesting an unknown pose-solver algorithm.
    ConfigurationError,
    /// A backend failed to load its model resources; fatal for that backend
    /// instance.
    InitializationError,
    /// A backend handed back a landmark count that violates the fixed
    /// 68-point scheme.
    DataFormatError,
    /// The Perspective-n-Point algorithm reported that it did not converge.
    PoseSolveError,
    /// The rotation-to-Euler conversion failed on an otherwise solved pose.
    PoseDecompositionError,
}

} // verus!
