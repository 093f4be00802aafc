//! Head-pose estimation state: the canonical 3-D face model, the pinhole
//! camera model, and the Perspective-n-Point (PnP) solve.
//!
//! The numeric PnP fit itself runs in an unverified solver outside this
//! crate.  This module owns everything around it: it validates the solver
//! configuration, derives the camera intrinsics, pairs the canonical 3-D
//! points with their 2-D landmarks, and classifies every solver outcome
//! into the pipeline's typed results.  Angles are integers in
//! microradians; model coordinates are integers in millimeters.

use vstd::prelude::*;

use crate::error::FacialProcessingError;
use crate::face::FaceLandmark;
use crate::face::pnp_landmarks_spec;
use crate::geometry::Point2D;

verus! {

/// A 3-D point of the canonical face model, in millimeters, in an
/// arbitrary head-centered coordinate system.
#[derive(Copy, Clone, Debug, PartialEq, Eq, Structural)]
pub struct Point3D {
    pub x: i64,
    pub y: i64,
    pub z: i64,
}

/// Pitch, yaw and roll of a solved head pose, in microradians.
#[derive(Copy, Clone, Debug, PartialEq, Eq, Structural)]
pub struct EulerAngles {
    pub x: i64,
    pub y: i64,
    pub z: i64,
}

/// The six reference points of the canonical face model: nose tip, chin,
/// outer left-eye corner, outer right-eye corner, left mouth corner, right
/// mouth corner.  Constant for the lifetime of the process.
pub open spec fn canonical_face_model_spec() -> Seq<Point3D> {
    seq![
        Point3D { x: 0, y: 0, z: 0 },
        Point3D { x: 0, y: (-330) as i64, z: (-65) as i64 },
        Point3D { x: (-225) as i64, y: 170, z: (-135) as i64 },
        Point3D { x: 225, y: 170, z: (-135) as i64 },
        Point3D { x: (-150) as i64, y: (-150) as i64, z: (-125) as i64 },
        Point3D { x: 150, y: (-150) as i64, z: (-125) as i64 },
    ]
}

/// Builds the canonical face model; see [`canonical_face_model_spec`] for
/// the point order the pose solver pairs against.
pub fn canonical_face_model() -> (r: [Point3D; 6])
    ensures
        r@ == canonical_face_model_spec(),
{
    let r = [
        Point3D { x: 0, y: 0, z: 0 },
        Point3D { x: 0, y: -330, z: -65 },
        Point3D { x: -225, y: 170, z: -135 },
        Point3D { x: 225, y: 170, z: -135 },
        Point3D { x: -150, y: -150, z: -125 },
        Point3D { x: 150, y: -150, z: -125 },
    ];
    proof {
        assert(r@ =~= canonical_face_model_spec());
    }
    r
}

/// The pinhole camera approximation used by the pose solver: the focal
/// length equals the declared image width and the principal point is the
/// image center; the distortion vector is identically zero.
#[derive(Copy, Clone, Debug, PartialEq, Eq, Structural)]
pub struct CameraModel {
    pub focal_length: i64,
    pub principal_point: Point2D,
}

impl CameraModel {
    /// The camera model a given image resolution derives to.
    pub open spec fn from_resolution_spec(resolution: Point2D) -> CameraModel {
        CameraModel {
            focal_length: resolution.x,
            principal_point: Point2D {
                x: (resolution.x / 2) as i64,
                y: (resolution.y / 2) as i64,
            },
        }
    }

    /// Derives the camera model from an image resolution `(width, height)`.
    pub fn from_resolution(resolution: Point2D) -> (r: CameraModel)
        requires
            resolution.in_range(),
        ensures
            r == CameraModel::from_resolution_spec(resolution),
    {
        CameraModel {
            focal_length: resolution.x,
            principal_point: Point2D {
                x: ((resolution.x as u64) / 2) as i64,
                y: ((resolution.y as u64) / 2) as i64,
            },
        }
    }

    /// The row-major 3x3 intrinsic matrix in standard pinhole form
    /// `[[f, 0, cx], [0, f, cy], [0, 0, 1]]`.
    pub open spec fn intrinsic_matrix_spec(self) -> Seq<i64> {
        seq![
            self.focal_length,
            0,
            self.principal_point.x,
            0,
            self.focal_length,
            self.principal_point.y,
            0,
            0,
            1,
        ]
    }

    pub fn intrinsic_matrix(&self) -> (r: [i64; 9])
        ensures
            r@ == self.intrinsic_matrix_spec(),
    {
        let r = [
            self.focal_length,
            0,
            self.principal_point.x,
            0,
            self.focal_length,
            self.principal_point.y,
            0,
            0,
            1,
        ];
        proof {
            assert(r@ =~= self.intrinsic_matrix_spec());
        }
        r
    }

    /// The 4x1 distortion vector: all zeros under the pinhole
    /// approximation.
    pub fn distortion(&self) -> (r: [i64; 4])
        ensures
            r@ == seq![0i64, 0i64, 0i64, 0i64],
    {
        let r = [0i64, 0i64, 0i64, 0i64];
        proof {
            assert(r@ =~= seq![0i64, 0i64, 0i64, 0i64]);
        }
        r
    }
}

/// Algorithm selector for the iterative Levenberg-Marquardt PnP solve.
pub const SOLVEPNP_ITERATIVE: i32 = 0;

/// Algorithm selector for the efficient PnP solve.
pub const SOLVEPNP_EPNP: i32 = 1;

/// Algorithm selector for the direct least-squares PnP solve.
pub const SOLVEPNP_DLS: i32 = 3;

/// Algorithm selector for the unified PnP solve.
pub const SOLVEPNP_UPNP: i32 = 4;

/// Algorithm selector for the algebraic perspective-3-point solve.
pub const SOLVEPNP_AP3P: i32 = 5;

/// Algorithm selector for the infinitesimal-plane-based pose estimation.
pub const SOLVEPNP_IPPE: i32 = 6;

/// Algorithm selector for the square-marker variant of the
/// infinitesimal-plane-based pose estimation.
pub const SOLVEPNP_IPPE_SQUARE: i32 = 7;

/// Algorithm selector for the sparse-quadratic PnP solve; the default when
/// no algorithm is requested.
pub const SOLVEPNP_SQPNP: i32 = 8;

/// The supported PnP algorithm selectors.
pub open spec fn valid_pnp_mode(mode: i32) -> bool {
    ||| mode == SOLVEPNP_ITERATIVE
    ||| mode == SOLVEPNP_EPNP
    ||| mode == SOLVEPNP_DLS
    ||| mode == SOLVEPNP_UPNP
    ||| mode == SOLVEPNP_AP3P
    ||| mode == SOLVEPNP_IPPE
    ||| mode == SOLVEPNP_IPPE_SQUARE
    ||| mode == SOLVEPNP_SQPNP
}

/// Strategy of a pose solve: one deterministic fit, or a robust
/// random-sampling fit with its iteration count, reprojection-error
/// threshold and confidence (the latter two in micro-units).
#[derive(Copy, Clone, Debug, PartialEq, Eq, Structural)]
pub enum PnPArguments {
    NoRandsc,
    Randsc { iter: i32, reproj: i64, conf: i64 },
}

impl Default for PnPArguments {
    /// A single deterministic solve.
    fn default() -> (r: PnPArguments)
        ensures
            r == PnPArguments::NoRandsc,
    {
        PnPArguments::NoRandsc
    }
}

/// Everything an external PnP solver needs for one solve: the paired 3-D
/// and 2-D points (corresponding positionally), the camera intrinsics, and
/// the configured algorithm and strategy.
#[derive(Copy, Clone, Debug, PartialEq)]
pub struct PnPRequest {
    pub object_points: [Point3D; 6],
    pub image_points: [Point2D; 6],
    pub camera_matrix: [i64; 9],
    pub distortion: [i64; 4],
    pub use_extrinsic_guess: bool,
    pub mode: i32,
    pub args: PnPArguments,
}

/// What an external PnP solver reported for one solve: whether it
/// converged, and the rotation and translation vectors it produced (in
/// microradians and millimeters; arbitrary when `converged` is false).
#[derive(Copy, Clone, Debug, PartialEq, Eq, Structural)]
pub struct PnPOutcome {
    pub converged: bool,
    pub rvec: Point3D,
    pub tvec: Point3D,
}

/// The pose solver's immutable configuration.  Construction validates the
/// requested algorithm and derives the camera model; after a successful
/// construction the solver is ready and never observable in a broken
/// state.
#[derive(Debug)]
pub struct PnPSolver {
    face_3d: [Point3D; 6],
    camera_res: Point2D,
    camera: CameraModel,
    pnp_mode: i32,
    pnp_extrinsic: bool,
    pnp_args: PnPArguments,
}

impl PnPSolver {
    /// The canonical face model the solver pairs landmarks against.
    pub closed spec fn face_3d_spec(self) -> Seq<Point3D> {
        self.face_3d@
    }

    /// The declared image resolution.
    pub closed spec fn camera_res_spec(self) -> Point2D {
        self.camera_res
    }

    /// The derived camera model.
    pub closed spec fn camera_spec(self) -> CameraModel {
        self.camera
    }

    /// The validated algorithm selector.
    pub closed spec fn mode_spec(self) -> i32 {
        self.pnp_mode
    }

    /// Whether the solve starts from an extrinsic guess; always false.
    pub closed spec fn extrinsic_spec(self) -> bool {
        self.pnp_extrinsic
    }

    /// The configured solve strategy.
    pub closed spec fn args_spec(self) -> PnPArguments {
        self.pnp_args
    }

    /// Solver invariant: the face model and camera follow from the
    /// configuration, and the mode is a supported one.
    pub open spec fn wf(self) -> bool {
        &&& self.face_3d_spec() == canonical_face_model_spec()
        &&& self.camera_res_spec().in_range()
        &&& self.camera_spec() == CameraModel::from_resolution_spec(self.camera_res_spec())
        &&& valid_pnp_mode(self.mode_spec())
        &&& !self.extrinsic_spec()
    }

    /// Builds a ready solver for the given image resolution.
    ///
    /// A supplied `calc_mode` must be one of the supported selectors;
    /// anything else is a `ConfigurationError`.  An omitted mode defaults
    /// to `SOLVEPNP_SQPNP`.
    pub fn new(camera_res: Point2D, calc_mode: Option<i32>, pnp_args: PnPArguments) -> (r: Result<
        PnPSolver,
        FacialProcessingError,
    >)
        requires
            camera_res.in_range(),
        ensures
            r is Ok <==> (calc_mode matches Some(m) ==> valid_pnp_mode(m)),
            r matches Err(e) ==> e == FacialProcessingError::ConfigurationError,
            r matches Ok(s) ==> {
                &&& s.wf()
                &&& s.camera_res_spec() == camera_res
                &&& s.args_spec() == pnp_args
                &&& s.mode_spec() == (match calc_mode {
                    Some(m) => m,
                    None => SOLVEPNP_SQPNP,
                })
            },
    {
        let pnp_mode: i32 = match calc_mode {
            Some(mode) => {
                if mode == SOLVEPNP_ITERATIVE || mode == SOLVEPNP_EPNP || mode == SOLVEPNP_DLS
                    || mode == SOLVEPNP_UPNP || mode == SOLVEPNP_AP3P || mode == SOLVEPNP_IPPE
                    || mode == SOLVEPNP_IPPE_SQUARE || mode == SOLVEPNP_SQPNP {
                    mode
                } else {
                    return Err(FacialProcessingError::ConfigurationError);
                }
            },
            None => SOLVEPNP_SQPNP,
        };
        Ok(
            PnPSolver {
                face_3d: canonical_face_model(),
                camera_res,
                camera: CameraModel::from_resolution(camera_res),
                pnp_mode,
                pnp_extrinsic: false,
                pnp_args,
            },
        )
    }

    /// The derived camera model.
    pub fn camera(&self) -> (r: CameraModel)
        ensures
            r == self.camera_spec(),
    {
        self.camera
    }

    /// The declared image resolution.
    pub fn camera_res(&self) -> (r: Point2D)
        ensures
            r == self.camera_res_spec(),
    {
        self.camera_res
    }

    /// The validated algorithm selector.
    pub fn mode(&self) -> (r: i32)
        ensures
            r == self.mode_spec(),
    {
        self.pnp_mode
    }

    /// The configured solve strategy.
    pub fn args(&self) -> (r: PnPArguments)
        ensures
            r == self.args_spec(),
    {
        self.pnp_args
    }

    /// The canonical face model the solver pairs landmarks against.
    pub fn face_3d(&self) -> (r: [Point3D; 6])
        ensures
            r@ == self.face_3d_spec(),
    {
        self.face_3d
    }

    /// Re-derives the camera model for a new image resolution, rebuilding
    /// the intrinsics from scratch; every other part of the configuration
    /// is unchanged.
    pub fn set_resolution(&mut self, camera_res: Point2D)
        requires
            camera_res.in_range(),
            old(self).wf(),
        ensures
            final(self).wf(),
            final(self).camera_res_spec() == camera_res,
            final(self).camera_spec() == CameraModel::from_resolution_spec(camera_res),
            final(self).face_3d_spec() == old(self).face_3d_spec(),
            final(self).mode_spec() == old(self).mode_spec(),
            final(self).extrinsic_spec() == old(self).extrinsic_spec(),
            final(self).args_spec() == old(self).args_spec(),
    {
        self.camera_res = camera_res;
        self.camera = CameraModel::from_resolution(camera_res);
    }

    /// Assembles the solve request for one landmark model: the canonical
    /// 3-D points paired positionally with the model's six pose landmarks,
    /// under this solver's camera and configuration.
    pub fn raw_forward(&self, data: &FaceLandmark) -> (r: PnPRequest)
        requires
            self.wf(),
            data.wf(),
        ensures
            r.object_points@ == self.face_3d_spec(),
            r.image_points@ == pnp_landmarks_spec(*data),
            r.camera_matrix@ == self.camera_spec().intrinsic_matrix_spec(),
            r.distortion@ == seq![0i64, 0i64, 0i64, 0i64],
            r.use_extrinsic_guess == self.extrinsic_spec(),
            r.mode == self.mode_spec(),
            r.args == self.args_spec(),
    {
        PnPRequest {
            object_points: self.face_3d,
            image_points: data.pnp_landmarks(),
            camera_matrix: self.camera.intrinsic_matrix(),
            distortion: self.camera.distortion(),
            use_extrinsic_guess: self.pnp_extrinsic,
            mode: self.pnp_mode,
            args: self.pnp_args,
        }
    }

    /// Classifies a raw solve outcome: a converged solve yields its
    /// rotation and translation vectors unchanged, and a solver that
    /// reported failure (for instance on a degenerate, collinear point
    /// configuration) yields `PoseSolveError` rather than any vector.
    pub fn raw_forward_result(&self, outcome: &PnPOutcome) -> (r: Result<
        (Point3D, Point3D),
        FacialProcessingError,
    >)
        ensures
            r is Ok <==> outcome.converged,
            outcome.converged ==> r == Ok::<(Point3D, Point3D), FacialProcessingError>(
                (outcome.rvec, outcome.tvec),
            ),
            !outcome.converged ==> r == Err::<(Point3D, Point3D), FacialProcessingError>(
                FacialProcessingError::PoseSolveError,
            ),
    {
        if outcome.converged {
            Ok((outcome.rvec, outcome.tvec))
        } else {
            Err(FacialProcessingError::PoseSolveError)
        }
    }

    /// Classifies a full pose solve: propagates a failed raw solve as
    /// `PoseSolveError` unchanged; a failed Rodrigues conversion or RQ
    /// decomposition on a solved pose is a `PoseDecompositionError`, and no
    /// partial angle is ever returned; otherwise the decomposed Euler
    /// angles are returned as given.
    ///
    /// `rotation` is the rotation matrix the Rodrigues conversion produced
    /// from the solved rotation vector, if it succeeded; `decomposition`
    /// holds the Euler angles the RQ decomposition extracted from that
    /// matrix, if it succeeded.
    pub fn forward(
        &self,
        outcome: &PnPOutcome,
        rotation: &Option<[i64; 9]>,
        decomposition: &Option<EulerAngles>,
    ) -> (r: Result<EulerAngles, FacialProcessingError>)
        ensures
            r is Ok <==> (outcome.converged && rotation is Some && decomposition is Some),
            !outcome.converged ==> r == Err::<EulerAngles, FacialProcessingError>(
                FacialProcessingError::PoseSolveError,
            ),
            outcome.converged && (rotation is None || decomposition is None) ==> r == Err::<
                EulerAngles,
                FacialProcessingError,
            >(FacialProcessingError::PoseDecompositionError),
            outcome.converged && rotation is Some ==> (decomposition matches Some(a) ==> r == Ok::<
                EulerAngles,
                FacialProcessingError,
            >(*a)),
    {
        if !outcome.converged {
            Err(FacialProcessingError::PoseSolveError)
        } else if rotation.is_none() {
            Err(FacialProcessingError::PoseDecompositionError)
        } else {
            match decomposition {
                Some(angles) => Ok(*angles),
                None => Err(FacialProcessingError::PoseDecompositionError),
            }
        }
    }
}

} // verus!
