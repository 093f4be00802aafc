use facial_processing::FacialProcessingError;
use facial_processing::LeftRight;
use facial_processing::face::FaceLandmark;
use facial_processing::geometry::BoundingBox;
use facial_processing::geometry::Point2D;
use facial_processing::geometry::Ratio;
use facial_processing::pose::PnPArguments;
use facial_processing::pose::SOLVEPNP_SQPNP;
use facial_processing::processor::BackendProviders;
use facial_processing::processor::FaceProcessorBuilder;
use facial_processing::processor::FaceProcessorTrait;
use facial_processing::processor::ImageData;
use facial_processing::processor::ImageScale;
use facial_processing::processor::ScaleFilter;

/// A deterministic stand-in engine: one fixed detection, landmarks laid
/// out on a line inside the requested box.
struct FixedBackend;

impl FaceProcessorTrait for FixedBackend {
    fn init(&self, _cpu: i16, _confidence: i64) -> Result<(), FacialProcessingError> {
        Ok(())
    }

    fn get_face_detections(&self, _data: &ImageData) -> Vec<BoundingBox> {
        vec![BoundingBox::new(100, 300, 120, 360)]
    }

    fn get_face_landmark(
        &self,
        _data: &ImageData,
        bbox: BoundingBox,
    ) -> Result<FaceLandmark, FacialProcessingError> {
        let points: Vec<Point2D> =
            (0..68).map(|i| Point2D::new(100 + i as i64, 120 + 2 * i as i64)).collect();
        FaceLandmark::from_raw_points(bbox, points)
    }

    fn get_pnp_forward(
        &self,
        _data: &ImageData,
        _landmark: &FaceLandmark,
    ) -> Result<facial_processing::pose::EulerAngles, FacialProcessingError> {
        Err(FacialProcessingError::PoseSolveError)
    }
}

fn image() -> ImageData {
    ImageData::new(4, 2, vec![0u8; 24])
}

fn dlib_backend() -> BackendProviders {
    BackendProviders::DLib { face_alignment_path: String::from("weights/landmarks.dat") }
}

#[test]
fn builder_defaults_match_specification() {
    let b = FaceProcessorBuilder::new();
    assert_eq!(b.backend, BackendProviders::NoBackend);
    assert_eq!(b.desired_threads, None);
    assert!(b.do_eye_calculations);
    assert!(b.do_mouth_calculations);
    assert_eq!(b.eye_blink_ratio, Ratio { num: 1, den: 5 });
    assert_eq!(b.input_image_x, 640);
    assert_eq!(b.input_image_y, 480);
    assert_eq!(b.image_scale, None);
}

#[test]
fn builder_calls_update_only_their_field() {
    let b = FaceProcessorBuilder::new()
        .with_input(1280, 720)
        .with_desired_threads(4)
        .with_eye_calculations(false)
        .with_mouth_calculations(false)
        .with_eye_calibration(Ratio { num: 1, den: 4 })
        .with_image_scale(320, 240, ScaleFilter::Triangle)
        .with_backend(dlib_backend());
    assert_eq!(b.input_image_x, 1280);
    assert_eq!(b.input_image_y, 720);
    assert_eq!(b.desired_threads, Some(4));
    assert!(!b.do_eye_calculations);
    assert!(!b.do_mouth_calculations);
    assert_eq!(b.eye_blink_ratio, Ratio { num: 1, den: 4 });
    assert_eq!(
        b.image_scale,
        Some(ImageScale { target_x: 320, target_y: 240, method: ScaleFilter::Triangle }),
    );
    assert_eq!(b.backend, dlib_backend());
}

#[test]
fn builder_configuration_is_order_independent() {
    let one = FaceProcessorBuilder::new().with_input(1280, 720).with_eye_calculations(false);
    let two = FaceProcessorBuilder::new().with_eye_calculations(false).with_input(1280, 720);
    assert_eq!(one, two);
}

#[test]
fn build_without_backend_is_a_configuration_error() {
    let r = FaceProcessorBuilder::new().build_with_backend(FixedBackend);
    assert_eq!(r.err().unwrap(), FacialProcessingError::ConfigurationError);
}

#[test]
fn build_assembles_configuration_and_solver() {
    let p = FaceProcessorBuilder::new()
        .with_backend(dlib_backend())
        .with_input(1920, 1080)
        .with_eye_calculations(false)
        .build_with_backend(FixedBackend)
        .ok()
        .unwrap();
    assert_eq!(p.backend_setting, dlib_backend());
    assert!(!p.do_eye_calculations);
    assert!(p.do_mouth_calculations);
    assert_eq!(p.input_image_x, 1920);
    assert_eq!(p.input_image_y, 1080);
    assert_eq!(p.pnp.mode(), SOLVEPNP_SQPNP);
    assert_eq!(p.pnp.args(), PnPArguments::NoRandsc);
    assert_eq!(p.pnp.camera_res(), Point2D::new(1920, 1080));
}

#[test]
fn pipeline_detects_and_landmarks_through_the_backend() {
    let p = FaceProcessorBuilder::new()
        .with_backend(dlib_backend())
        .build_with_backend(FixedBackend)
        .ok()
        .unwrap();
    let img = image();
    let boxes = p.calculate_face_bboxes(&img);
    assert_eq!(boxes.len(), 1);
    let lm = p.calculate_landmarks(&img, boxes[0]).unwrap();
    assert_eq!(lm.bounding_box(), boxes[0]);
    assert_eq!(lm.landmarks().len(), 68);
}

#[test]
fn pipeline_eyes_computes_both_sides() {
    let p = FaceProcessorBuilder::new()
        .with_backend(dlib_backend())
        .build_with_backend(FixedBackend)
        .ok()
        .unwrap();
    let img = image();
    let boxes = p.calculate_face_bboxes(&img);
    let lm = p.calculate_landmarks(&img, boxes[0]).unwrap();
    let eyes = p.eyes(&lm);
    assert_eq!(eyes[0].side(), LeftRight::Left);
    assert_eq!(eyes[1].side(), LeftRight::Right);
    assert_eq!(eyes[0].points().to_vec(), lm.landmarks()[36..42].to_vec());
    assert_eq!(eyes[1].points().to_vec(), lm.landmarks()[42..48].to_vec());
}

#[test]
fn pipeline_pose_request_and_outcome() {
    let p = FaceProcessorBuilder::new()
        .with_backend(dlib_backend())
        .build_with_backend(FixedBackend)
        .ok()
        .unwrap();
    let img = image();
    let boxes = p.calculate_face_bboxes(&img);
    let lm = p.calculate_landmarks(&img, boxes[0]).unwrap();
    let req = p.calculate_pnp(&lm);
    assert_eq!(req.image_points, lm.pnp_landmarks());
    assert_eq!(req.mode, SOLVEPNP_SQPNP);
    let outcome = facial_processing::pose::PnPOutcome {
        converged: false,
        rvec: facial_processing::pose::Point3D { x: 0, y: 0, z: 0 },
        tvec: facial_processing::pose::Point3D { x: 0, y: 0, z: 0 },
    };
    let r = p.calculate_pnp_result(&outcome, &None, &None);
    assert_eq!(r.unwrap_err(), FacialProcessingError::PoseSolveError);
}

#[test]
fn image_data_keeps_its_raster() {
    let img = image();
    assert_eq!(img.width, 4);
    assert_eq!(img.height, 2);
    assert_eq!(img.pixels.len(), 24);
}
