//! The backend capability interface, the pipeline builder, and the
//! assembled face-processing pipeline.

use vstd::prelude::*;

use crate::LeftRight;
use crate::error::FacialProcessingError;
use crate::eyes::Eye;
use crate::eyes::derived_from;
use crate::face::FaceLandmark;
use crate::geometry::BoundingBox;
use crate::geometry::Point2D;
use crate::geometry::Ratio;
use crate::pose::EulerAngles;
use crate::pose::PnPArguments;
use crate::pose::PnPOutcome;
use crate::pose::PnPRequest;
use crate::pose::PnPSolver;
use crate::pose::SOLVEPNP_SQPNP;

verus! {

/// A decoded RGB raster image: three bytes per pixel, row-major.
#[derive(Clone, Debug, PartialEq)]
pub struct ImageData {
    pub width: u32,
    pub height: u32,
    pub pixels: Vec<u8>,
}

impl ImageData {
    /// The pixel buffer holds exactly three bytes for every pixel.
    pub open spec fn wf(self) -> bool {
        self.pixels@.len() == 3 * self.width * self.height
    }

    pub fn new(width: u32, height: u32, pixels: Vec<u8>) -> (r: ImageData)
        requires
            pixels@.len() == 3 * width * height,
        ensures
            r == (ImageData { width, height, pixels }),
            r.wf(),
    {
        ImageData { width, height, pixels }
    }
}

/// The capability interface every detection and landmarking engine
/// implements.  Exactly one concrete backend is bound into a pipeline at
/// construction time and never swapped afterward.
pub trait FaceProcessorTrait {
    /// Prepares the engine with a thread-count hint and a detector
    /// confidence threshold in micro-units.
    fn init(&self, cpu: i16, confidence: i64) -> (r: Result<(), FacialProcessingError>);

    /// Detects faces, returning zero or more well-formed boxes in image
    /// pixel coordinates, in no guaranteed order.
    fn get_face_detections(&self, data: &ImageData) -> (r: Vec<BoundingBox>)
        requires
            data.wf(),
        ensures
            forall|i: int| 0 <= i < r@.len() ==> r@[i].wf(),
    ;

    /// Produces the canonical 68-point landmark model for one detected
    /// box, or a `DataFormatError` when the engine violated the fixed
    /// scheme.
    fn get_face_landmark(&self, data: &ImageData, bbox: BoundingBox) -> (r: Result<
        FaceLandmark,
        FacialProcessingError,
    >)
        requires
            data.wf(),
            bbox.wf(),
        ensures
            r matches Ok(lm) ==> lm.wf() && lm.bbox_spec() == bbox,
    ;

    /// Solves the head pose for one landmark model, for engines that carry
    /// their own pose estimation.
    fn get_pnp_forward(&self, data: &ImageData, landmark: &FaceLandmark) -> (r: Result<
        EulerAngles,
        FacialProcessingError,
    >)
        requires
            data.wf(),
            landmark.wf(),
    ;
}

/// Resampling filter for the optional input rescaling step.
#[derive(Copy, Clone, Debug, PartialEq, Eq, Structural)]
pub enum ScaleFilter {
    Nearest,
    Triangle,
    CatmullRom,
    Gaussian,
    Lanczos3,
}

/// An optional rescaling policy applied to input images before detection.
#[derive(Copy, Clone, Debug, PartialEq, Eq, Structural)]
pub struct ImageScale {
    pub target_x: u32,
    pub target_y: u32,
    pub method: ScaleFilter,
}

/// Which backend variant a pipeline is built around, with the model
/// resources each variant loads at construction.
#[derive(Clone, Debug, PartialEq)]
pub enum BackendProviders {
    NoBackend,
    OpenVTuber {
        face_detector_path: String,
        face_alignment_path: String,
        face_eyesolator_path: String,
    },
    DLib { face_alignment_path: String },
}

/// Accumulates a pipeline configuration; every configuration call returns
/// a new builder value and leaves the receiver behind, so partially
/// applied configurations can be shared freely.
#[derive(Clone, Debug, PartialEq)]
pub struct FaceProcessorBuilder {
    pub backend: BackendProviders,
    pub desired_threads: Option<i16>,
    pub do_eye_calculations: bool,
    pub do_mouth_calculations: bool,
    pub eye_blink_ratio: Ratio,
    pub input_image_x: u32,
    pub input_image_y: u32,
    pub image_scale: Option<ImageScale>,
}

/// The builder `with_eye_calibration` returns: only the blink ratio
/// changes.
pub open spec fn with_eye_calibration_spec(b: FaceProcessorBuilder, eye_blink_ratio: Ratio)
    -> FaceProcessorBuilder {
    FaceProcessorBuilder {
        backend: b.backend,
        desired_threads: b.desired_threads,
        do_eye_calculations: b.do_eye_calculations,
        do_mouth_calculations: b.do_mouth_calculations,
        eye_blink_ratio,
        input_image_x: b.input_image_x,
        input_image_y: b.input_image_y,
        image_scale: b.image_scale,
    }
}

/// The builder `with_image_scale` returns: only the rescaling policy
/// changes.
pub open spec fn with_image_scale_spec(
    b: FaceProcessorBuilder,
    target_x: u32,
    target_y: u32,
    method: ScaleFilter,
) -> FaceProcessorBuilder {
    FaceProcessorBuilder {
        backend: b.backend,
        desired_threads: b.desired_threads,
        do_eye_calculations: b.do_eye_calculations,
        do_mouth_calculations: b.do_mouth_calculations,
        eye_blink_ratio: b.eye_blink_ratio,
        input_image_x: b.input_image_x,
        input_image_y: b.input_image_y,
        image_scale: Some(ImageScale { target_x, target_y, method }),
    }
}

/// The builder `with_input` returns: only the declared input resolution
/// changes.
pub open spec fn with_input_spec(b: FaceProcessorBuilder, input_image_x: u32, input_image_y: u32)
    -> FaceProcessorBuilder {
    FaceProcessorBuilder {
        backend: b.backend,
        desired_threads: b.desired_threads,
        do_eye_calculations: b.do_eye_calculations,
        do_mouth_calculations: b.do_mouth_calculations,
        eye_blink_ratio: b.eye_blink_ratio,
        input_image_x,
        input_image_y,
        image_scale: b.image_scale,
    }
}

/// The builder `with_backend` returns: only the backend choice changes.
pub open spec fn with_backend_spec(b: FaceProcessorBuilder, backend: BackendProviders)
    -> FaceProcessorBuilder {
    FaceProcessorBuilder {
        backend,
        desired_threads: b.desired_threads,
        do_eye_calculations: b.do_eye_calculations,
        do_mouth_calculations: b.do_mouth_calculations,
        eye_blink_ratio: b.eye_blink_ratio,
        input_image_x: b.input_image_x,
        input_image_y: b.input_image_y,
        image_scale: b.image_scale,
    }
}

/// The builder `with_desired_threads` returns: only the thread-count hint
/// changes.
pub open spec fn with_desired_threads_spec(b: FaceProcessorBuilder, threads: i16)
    -> FaceProcessorBuilder {
    FaceProcessorBuilder {
        backend: b.backend,
        desired_threads: Some(threads),
        do_eye_calculations: b.do_eye_calculations,
        do_mouth_calculations: b.do_mouth_calculations,
        eye_blink_ratio: b.eye_blink_ratio,
        input_image_x: b.input_image_x,
        input_image_y: b.input_image_y,
        image_scale: b.image_scale,
    }
}

/// The builder `with_eye_calculations` returns: only the eye-metric toggle
/// changes.
pub open spec fn with_eye_calculations_spec(b: FaceProcessorBuilder, do_eye_calculations: bool)
    -> FaceProcessorBuilder {
    FaceProcessorBuilder {
        backend: b.backend,
        desired_threads: b.desired_threads,
        do_eye_calculations,
        do_mouth_calculations: b.do_mouth_calculations,
        eye_blink_ratio: b.eye_blink_ratio,
        input_image_x: b.input_image_x,
        input_image_y: b.input_image_y,
        image_scale: b.image_scale,
    }
}

/// The builder `with_mouth_calculations` returns: only the mouth-metric
/// toggle changes.
pub open spec fn with_mouth_calculations_spec(b: FaceProcessorBuilder, do_mouth_calculations: bool)
    -> FaceProcessorBuilder {
    FaceProcessorBuilder {
        backend: b.backend,
        desired_threads: b.desired_threads,
        do_eye_calculations: b.do_eye_calculations,
        do_mouth_calculations,
        eye_blink_ratio: b.eye_blink_ratio,
        input_image_x: b.input_image_x,
        input_image_y: b.input_image_y,
        image_scale: b.image_scale,
    }
}

impl FaceProcessorBuilder {
    /// The default configuration: no backend selected, eye and mouth
    /// metrics enabled, a blink ratio of one fifth, and a 640x480 input.
    pub fn new() -> (r: FaceProcessorBuilder)
        ensures
            r == (FaceProcessorBuilder {
                backend: BackendProviders::NoBackend,
                desired_threads: None::<i16>,
                do_eye_calculations: true,
                do_mouth_calculations: true,
                eye_blink_ratio: Ratio { num: 1, den: 5 },
                input_image_x: 640u32,
                input_image_y: 480u32,
                image_scale: None::<ImageScale>,
            }),
    {
        FaceProcessorBuilder {
            backend: BackendProviders::NoBackend,
            desired_threads: None,
            do_eye_calculations: true,
            do_mouth_calculations: true,
            eye_blink_ratio: Ratio { num: 1, den: 5 },
            input_image_x: 640,
            input_image_y: 480,
            image_scale: None,
        }
    }

    /// Sets the eye-blink calibration ratio.
    pub fn with_eye_calibration(self, eye_blink_ratio: Ratio) -> (r: FaceProcessorBuilder)
        ensures
            r == with_eye_calibration_spec(self, eye_blink_ratio),
    {
        FaceProcessorBuilder { eye_blink_ratio, ..self }
    }

    /// Sets the input rescaling policy.
    pub fn with_image_scale(self, target_x: u32, target_y: u32, method: ScaleFilter) -> (r:
        FaceProcessorBuilder)
        ensures
            r == with_image_scale_spec(self, target_x, target_y, method),
    {
        FaceProcessorBuilder {
            image_scale: Some(ImageScale { target_x, target_y, method }),
            ..self
        }
    }

    /// Declares the input image resolution the pose solver is sized to.
    pub fn with_input(self, input_image_x: u32, input_image_y: u32) -> (r: FaceProcessorBuilder)
        ensures
            r == with_input_spec(self, input_image_x, input_image_y),
    {
        FaceProcessorBuilder { input_image_x, input_image_y, ..self }
    }

    /// Selects the backend variant.
    pub fn with_backend(self, backend: BackendProviders) -> (r: FaceProcessorBuilder)
        ensures
            r == with_backend_spec(self, backend),
    {
        FaceProcessorBuilder { backend, ..self }
    }

    /// Sets the thread-count hint handed to the backend.
    pub fn with_desired_threads(self, threads: i16) -> (r: FaceProcessorBuilder)
        ensures
            r == with_desired_threads_spec(self, threads),
    {
        FaceProcessorBuilder { desired_threads: Some(threads), ..self }
    }

    /// Toggles per-eye metric computation.
    pub fn with_eye_calculations(self, do_eye_calculations: bool) -> (r: FaceProcessorBuilder)
        ensures
            r == with_eye_calculations_spec(self, do_eye_calculations),
    {
        FaceProcessorBuilder { do_eye_calculations, ..self }
    }

    /// Toggles mouth metric computation.
    pub fn with_mouth_calculations(self, do_mouth_calculations: bool) -> (r: FaceProcessorBuilder)
        ensures
            r == with_mouth_calculations_spec(self, do_mouth_calculations),
    {
        FaceProcessorBuilder { do_mouth_calculations, ..self }
    }

    /// Assembles the pipeline around an already constructed backend
    /// engine.
    ///
    /// Fails with `ConfigurationError` when no backend variant was
    /// selected.  Instantiating the engine itself (which may fail with
    /// `InitializationError`) happens outside this crate, before this
    /// call; the engine is handed in ready.  The pose solver is sized to
    /// the configured input resolution, with the default algorithm and a
    /// single deterministic solve, exactly as a fresh
    /// [`PnPSolver::new`] yields them.
    pub fn build_with_backend<B: FaceProcessorTrait>(self, backend: B) -> (r: Result<
        FaceProcessor<B>,
        FacialProcessingError,
    >)
        ensures
            r is Ok <==> !(self.backend is NoBackend),
            self.backend is NoBackend ==> r == Err::<FaceProcessor<B>, FacialProcessingError>(
                FacialProcessingError::ConfigurationError,
            ),
            r matches Ok(p) ==> {
                &&& p.wf()
                &&& p.backend_setting == self.backend
                &&& p.do_eye_calculations == self.do_eye_calculations
                &&& p.do_mouth_calculations == self.do_mouth_calculations
                &&& p.eye_blink_ratio == self.eye_blink_ratio
                &&& p.input_image_x == self.input_image_x
                &&& p.input_image_y == self.input_image_y
                &&& p.image_scale == self.image_scale
                &&& p.pnp.camera_res_spec() == (Point2D {
                    x: self.input_image_x as i64,
                    y: self.input_image_y as i64,
                })
                &&& p.pnp.mode_spec() == SOLVEPNP_SQPNP
                &&& p.pnp.args_spec() == PnPArguments::NoRandsc
            },
    {
        match self.backend {
            BackendProviders::NoBackend => Err(FacialProcessingError::ConfigurationError),
            _ => {
                let resolution = Point2D {
                    x: self.input_image_x as i64,
                    y: self.input_image_y as i64,
                };
                let pnp = match PnPSolver::new(resolution, None, PnPArguments::NoRandsc) {
                    Ok(p) => p,
                    // With no requested algorithm the solver always
                    // constructs; this arm is provably unreachable.
                    Err(_) => {
                        proof {
                            assert(false);
                        }
                        return Err(FacialProcessingError::ConfigurationError);
                    },
                };
                Ok(
                    FaceProcessor {
                        backend_setting: self.backend,
                        backend_held: backend,
                        do_eye_calculations: self.do_eye_calculations,
                        do_mouth_calculations: self.do_mouth_calculations,
                        eye_blink_ratio: self.eye_blink_ratio,
                        input_image_x: self.input_image_x,
                        input_image_y: self.input_image_y,
                        image_scale: self.image_scale,
                        pnp,
                    },
                )
            },
        }
    }
}

/// Applying `with_input` and `with_eye_calculations` in either order
/// yields the same configuration: the two calls touch disjoint fields.
pub proof fn lemma_builder_order_independent(
    b: FaceProcessorBuilder,
    input_image_x: u32,
    input_image_y: u32,
    do_eye_calculations: bool,
)
    ensures
        with_eye_calculations_spec(
            with_input_spec(b, input_image_x, input_image_y),
            do_eye_calculations,
        ) == with_input_spec(
            with_eye_calculations_spec(b, do_eye_calculations),
            input_image_x,
            input_image_y,
        ),
{
}

/// The assembled pipeline: one backend engine composed with the pure
/// geometry components.  Configuration is read-only after `build`.
pub struct FaceProcessor<B: FaceProcessorTrait> {
    /// The backend variant the pipeline was configured with.
    pub backend_setting: BackendProviders,
    /// The engine bound at construction time.
    pub backend_held: B,
    /// Whether per-eye metrics were requested.
    pub do_eye_calculations: bool,
    /// Whether mouth metrics were requested.
    pub do_mouth_calculations: bool,
    /// The eye-blink calibration ratio.
    pub eye_blink_ratio: Ratio,
    /// The declared input width the pose solver is sized to.
    pub input_image_x: u32,
    /// The declared input height the pose solver is sized to.
    pub input_image_y: u32,
    /// The optional input rescaling policy.
    pub image_scale: Option<ImageScale>,
    /// The pose solver, sized to the configured input resolution.
    pub pnp: PnPSolver,
}

impl<B: FaceProcessorTrait> FaceProcessor<B> {
    /// Pipeline invariant: its pose solver is well formed.
    pub open spec fn wf(self) -> bool {
        self.pnp.wf()
    }

    /// Detects faces in the image through the bound backend.
    pub fn calculate_face_bboxes(&self, image: &ImageData) -> (r: Vec<BoundingBox>)
        requires
            image.wf(),
        ensures
            forall|i: int| 0 <= i < r@.len() ==> r@[i].wf(),
    {
        self.backend_held.get_face_detections(image)
    }

    /// Produces the landmark model for one detected box through the bound
    /// backend.
    pub fn calculate_landmarks(&self, image: &ImageData, bbox: BoundingBox) -> (r: Result<
        FaceLandmark,
        FacialProcessingError,
    >)
        requires
            image.wf(),
            bbox.wf(),
        ensures
            r matches Ok(lm) ==> lm.wf() && lm.bbox_spec() == bbox,
    {
        self.backend_held.get_face_landmark(image, bbox)
    }

    /// Assembles the pose-solve request for one landmark model; see
    /// [`PnPSolver::raw_forward`].
    pub fn calculate_pnp(&self, landmark: &FaceLandmark) -> (r: PnPRequest)
        requires
            self.wf(),
            landmark.wf(),
        ensures
            r.object_points@ == self.pnp.face_3d_spec(),
            r.image_points@ == crate::face::pnp_landmarks_spec(*landmark),
            r.camera_matrix@ == self.pnp.camera_spec().intrinsic_matrix_spec(),
            r.mode == self.pnp.mode_spec(),
            r.args == self.pnp.args_spec(),
    {
        self.pnp.raw_forward(landmark)
    }

    /// Classifies the outcome of one pose solve; see [`PnPSolver::forward`].
    pub fn calculate_pnp_result(
        &self,
        outcome: &PnPOutcome,
        rotation: &Option<[i64; 9]>,
        decomposition: &Option<EulerAngles>,
    ) -> (r: Result<EulerAngles, FacialProcessingError>)
        ensures
            r is Ok <==> (outcome.converged && rotation is Some && decomposition is Some),
            !outcome.converged ==> r == Err::<EulerAngles, FacialProcessingError>(
                FacialProcessingError::PoseSolveError,
            ),
            outcome.converged && (rotation is None || decomposition is None) ==> r == Err::<
                EulerAngles,
                FacialProcessingError,
            >(FacialProcessingError::PoseDecompositionError),
            outcome.converged && rotation is Some ==> (decomposition matches Some(a) ==> r == Ok::<
                EulerAngles,
                FacialProcessingError,
            >(*a)),
    {
        self.pnp.forward(outcome, rotation, decomposition)
    }

    /// Computes both eyes' metrics from one landmark model.
    pub fn eyes(&self, landmark: &FaceLandmark) -> (r: [Eye; 2])
        requires
            landmark.wf(),
        ensures
            derived_from(r@[0], *landmark, LeftRight::Left),
            derived_from(r@[1], *landmark, LeftRight::Right),
    {
        let e1 = Eye::new(landmark, LeftRight::Left);
        let e2 = Eye::new(landmark, LeftRight::Right);
        [e1, e2]
    }
}

} // verus!
