use facial_processing::FacialProcessingError;
use facial_processing::LeftRight;
use facial_processing::face::FaceLandmark;
use facial_processing::geometry::BoundingBox;
use facial_processing::geometry::Point2D;

fn sample_points(count: usize) -> Vec<Point2D> {
    // Distinct coordinates so index mix-ups cannot cancel out.
    (0..count).map(|i| Point2D::new(10 * i as i64, 10 * i as i64 + 1)).collect()
}

fn sample_box() -> BoundingBox {
    BoundingBox::new(0, 640, 0, 480)
}

fn sample_model() -> FaceLandmark {
    FaceLandmark::from_raw_points(sample_box(), sample_points(68)).unwrap()
}

#[test]
fn chin_region_round_trips_first_seventeen_points() {
    let points = sample_points(68);
    let lm = FaceLandmark::from_raw_points(sample_box(), points.clone()).unwrap();
    let chin = lm.chin_landmarks();
    assert_eq!(chin.len(), 17);
    for i in 0..17 {
        assert_eq!(chin[i], points[i]);
    }
}

#[test]
fn from_raw_points_rejects_wrong_counts() {
    for count in [0usize, 1, 67, 69, 136] {
        let r = FaceLandmark::from_raw_points(sample_box(), sample_points(count));
        assert_eq!(r.unwrap_err(), FacialProcessingError::DataFormatError);
    }
}

#[test]
fn from_raw_points_accepts_exactly_68() {
    let lm = FaceLandmark::from_raw_points(sample_box(), sample_points(68));
    assert!(lm.is_ok());
}

#[test]
fn landmarks_returns_all_points_in_order() {
    let points = sample_points(68);
    let lm = FaceLandmark::from_raw_points(sample_box(), points.clone()).unwrap();
    assert_eq!(lm.landmarks(), points);
}

#[test]
fn bounding_box_is_kept() {
    let lm = sample_model();
    assert_eq!(lm.bounding_box(), sample_box());
}

#[test]
fn eye_regions_use_fixed_indices() {
    let points = sample_points(68);
    let lm = sample_model();
    let left = lm.eye_landmarks(LeftRight::Left);
    let right = lm.eye_landmarks(LeftRight::Right);
    for i in 0..6 {
        assert_eq!(left[i], points[36 + i]);
        assert_eq!(right[i], points[42 + i]);
    }
}

#[test]
fn eyebrow_regions_use_fixed_indices() {
    let points = sample_points(68);
    let lm = sample_model();
    let left = lm.eyebrow_landmarks(LeftRight::Left);
    let right = lm.eyebrow_landmarks(LeftRight::Right);
    for i in 0..5 {
        assert_eq!(left[i], points[17 + i]);
        assert_eq!(right[i], points[22 + i]);
    }
}

#[test]
fn mouth_regions_split_inner_and_outer() {
    let points = sample_points(68);
    let lm = sample_model();
    let (inner, outer) = lm.mouth_landmarks();
    for i in 0..8 {
        assert_eq!(inner[i], points[60 + i]);
    }
    for i in 0..12 {
        assert_eq!(outer[i], points[48 + i]);
    }
}

#[test]
fn nose_regions_overlap_as_drawn() {
    let points = sample_points(68);
    let lm = sample_model();
    let (line, base) = lm.nose_landmarks();
    for i in 0..4 {
        assert_eq!(line[i], points[29 + i]);
    }
    for i in 0..5 {
        assert_eq!(base[i], points[31 + i]);
    }
    assert_eq!(line[2], base[0]);
    assert_eq!(line[3], base[1]);
}

#[test]
fn pnp_landmarks_match_canonical_model_order() {
    let points = sample_points(68);
    let lm = sample_model();
    let pnp = lm.pnp_landmarks();
    assert_eq!(pnp[0], points[30]); // nose tip
    assert_eq!(pnp[1], points[8]); // chin
    assert_eq!(pnp[2], points[36]); // outer left-eye corner
    assert_eq!(pnp[3], points[45]); // outer right-eye corner
    assert_eq!(pnp[4], points[48]); // left mouth corner
    assert_eq!(pnp[5], points[54]); // right mouth corner
}
