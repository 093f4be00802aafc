use facial_processing::FacialProcessingError;
use facial_processing::face::FaceLandmark;
use facial_processing::geometry::BoundingBox;
use facial_processing::geometry::Point2D;
use facial_processing::pose::CameraModel;
use facial_processing::pose::EulerAngles;
use facial_processing::pose::PnPArguments;
use facial_processing::pose::PnPOutcome;
use facial_processing::pose::PnPSolver;
use facial_processing::pose::Point3D;
use facial_processing::pose::SOLVEPNP_AP3P;
use facial_processing::pose::SOLVEPNP_DLS;
use facial_processing::pose::SOLVEPNP_EPNP;
use facial_processing::pose::SOLVEPNP_IPPE;
use facial_processing::pose::SOLVEPNP_IPPE_SQUARE;
use facial_processing::pose::SOLVEPNP_ITERATIVE;
use facial_processing::pose::SOLVEPNP_SQPNP;
use facial_processing::pose::SOLVEPNP_UPNP;
use facial_processing::pose::canonical_face_model;

fn resolution() -> Point2D {
    Point2D::new(640, 480)
}

fn solver() -> PnPSolver {
    PnPSolver::new(resolution(), None, PnPArguments::NoRandsc).unwrap()
}

#[test]
fn canonical_model_holds_the_six_reference_points() {
    let m = canonical_face_model();
    assert_eq!(m[0], Point3D { x: 0, y: 0, z: 0 }); // nose tip
    assert_eq!(m[1], Point3D { x: 0, y: -330, z: -65 }); // chin
    assert_eq!(m[2], Point3D { x: -225, y: 170, z: -135 }); // left eye corner
    assert_eq!(m[3], Point3D { x: 225, y: 170, z: -135 }); // right eye corner
    assert_eq!(m[4], Point3D { x: -150, y: -150, z: -125 }); // left mouth corner
    assert_eq!(m[5], Point3D { x: 150, y: -150, z: -125 }); // right mouth corner
}

#[test]
fn camera_model_is_pinhole_from_resolution() {
    let cam = CameraModel::from_resolution(resolution());
    assert_eq!(cam.focal_length, 640);
    assert_eq!(cam.principal_point, Point2D::new(320, 240));
    let m = cam.intrinsic_matrix();
    assert_eq!(m, [640, 0, 320, 0, 640, 240, 0, 0, 1]);
    assert_eq!(cam.distortion(), [0, 0, 0, 0]);
}

#[test]
fn solver_defaults_to_sqpnp() {
    let s = solver();
    assert_eq!(s.mode(), SOLVEPNP_SQPNP);
    assert_eq!(s.args(), PnPArguments::NoRandsc);
    assert_eq!(s.camera_res(), resolution());
    assert_eq!(s.camera(), CameraModel::from_resolution(resolution()));
}

#[test]
fn solver_accepts_every_supported_mode() {
    for mode in [
        SOLVEPNP_ITERATIVE,
        SOLVEPNP_EPNP,
        SOLVEPNP_DLS,
        SOLVEPNP_UPNP,
        SOLVEPNP_AP3P,
        SOLVEPNP_IPPE,
        SOLVEPNP_IPPE_SQUARE,
        SOLVEPNP_SQPNP,
    ] {
        let s = PnPSolver::new(resolution(), Some(mode), PnPArguments::NoRandsc).unwrap();
        assert_eq!(s.mode(), mode);
    }
}

#[test]
fn solver_rejects_unknown_modes() {
    for mode in [2, 9, -1, 42] {
        let r = PnPSolver::new(resolution(), Some(mode), PnPArguments::NoRandsc);
        assert_eq!(r.unwrap_err(), FacialProcessingError::ConfigurationError);
    }
}

#[test]
fn solver_keeps_random_sampling_arguments() {
    let args = PnPArguments::Randsc { iter: 100, reproj: 8_000_000, conf: 990_000 };
    let s = PnPSolver::new(resolution(), None, args).unwrap();
    assert_eq!(s.args(), args);
}

#[test]
fn set_resolution_rebuilds_the_camera() {
    let mut s = solver();
    s.set_resolution(Point2D::new(1920, 1080));
    assert_eq!(s.camera_res(), Point2D::new(1920, 1080));
    assert_eq!(s.camera().focal_length, 1920);
    assert_eq!(s.camera().principal_point, Point2D::new(960, 540));
    assert_eq!(s.mode(), SOLVEPNP_SQPNP);
}

fn sample_model() -> FaceLandmark {
    let points: Vec<Point2D> =
        (0..68).map(|i| Point2D::new(7 * i as i64, 3 * i as i64)).collect();
    FaceLandmark::from_raw_points(BoundingBox::new(0, 640, 0, 480), points).unwrap()
}

#[test]
fn raw_forward_pairs_canonical_points_with_pose_landmarks() {
    let s = solver();
    let lm = sample_model();
    let req = s.raw_forward(&lm);
    assert_eq!(req.object_points, canonical_face_model());
    assert_eq!(req.image_points, lm.pnp_landmarks());
    assert_eq!(req.camera_matrix, s.camera().intrinsic_matrix());
    assert_eq!(req.distortion, [0, 0, 0, 0]);
    assert!(!req.use_extrinsic_guess);
    assert_eq!(req.mode, SOLVEPNP_SQPNP);
    assert_eq!(req.args, PnPArguments::NoRandsc);
}

#[test]
fn raw_forward_result_passes_converged_vectors_through() {
    let s = solver();
    let outcome = PnPOutcome {
        converged: true,
        rvec: Point3D { x: 10, y: 20, z: 30 },
        tvec: Point3D { x: -1, y: -2, z: -3 },
    };
    let (rvec, tvec) = s.raw_forward_result(&outcome).unwrap();
    assert_eq!(rvec, outcome.rvec);
    assert_eq!(tvec, outcome.tvec);
}

#[test]
fn unconverged_solve_is_a_pose_solve_error() {
    // A solver that reports failure (as it does on degenerate, collinear
    // input points) yields PoseSolveError, never a misleading vector.
    let s = solver();
    let outcome = PnPOutcome {
        converged: false,
        rvec: Point3D { x: 0, y: 0, z: 0 },
        tvec: Point3D { x: 0, y: 0, z: 0 },
    };
    assert_eq!(s.raw_forward_result(&outcome).unwrap_err(), FacialProcessingError::PoseSolveError);
}

#[test]
fn forward_classifies_every_step_of_the_ladder() {
    let s = solver();
    let solved = PnPOutcome {
        converged: true,
        rvec: Point3D { x: 1, y: 2, z: 3 },
        tvec: Point3D { x: 4, y: 5, z: 6 },
    };
    let failed = PnPOutcome { converged: false, ..solved };
    let rotation: Option<[i64; 9]> = Some([1, 0, 0, 0, 1, 0, 0, 0, 1]);
    let angles = EulerAngles { x: 100, y: -200, z: 300 };

    assert_eq!(
        s.forward(&failed, &rotation, &Some(angles)).unwrap_err(),
        FacialProcessingError::PoseSolveError,
    );
    assert_eq!(
        s.forward(&solved, &None, &Some(angles)).unwrap_err(),
        FacialProcessingError::PoseDecompositionError,
    );
    assert_eq!(
        s.forward(&solved, &rotation, &None).unwrap_err(),
        FacialProcessingError::PoseDecompositionError,
    );
    assert_eq!(s.forward(&solved, &rotation, &Some(angles)).unwrap(), angles);
}
