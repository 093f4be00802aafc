//! Per-eye openness and center metrics derived from the landmark model.

use vstd::prelude::*;

use crate::LeftRight;
use crate::face::FaceLandmark;
use crate::face::eye_region_start;
use crate::geometry::Point2D;
use crate::geometry::Ratio;
use crate::geometry::dist;
use crate::geometry::distance;
use crate::geometry::lemma_dist_bound;
use crate::geometry::midpoint;
use crate::geometry::midpoint_divisor;
use crate::geometry::sum_x;
use crate::geometry::sum_y;

verus! {

/// Numerator of the eye aspect ratio over a six-point eye contour: the sum
/// of the two vertical lid distances.
pub open spec fn ear_numerator(pts: Seq<Point2D>) -> nat {
    dist(pts[1], pts[5]) + dist(pts[2], pts[4])
}

/// Denominator of the eye aspect ratio: twice the horizontal eye width,
/// with a width of zero (a degenerate contour whose corners coincide)
/// replaced by one so the ratio stays finite.
pub open spec fn ear_denominator(pts: Seq<Point2D>) -> nat {
    if dist(pts[0], pts[3]) == 0 {
        2
    } else {
        2 * dist(pts[0], pts[3])
    }
}

/// What it means for eye metrics to be correctly derived from a landmark
/// model: the points are the model's six-point contour of the given side,
/// the aspect ratio is the exact rational of the contour's distances, and
/// the center estimate is the contour's midpoint.
pub open spec fn derived_from(e: Eye, lm: FaceLandmark, side: LeftRight) -> bool {
    &&& e.points_spec() == lm.landmarks_seq().subrange(
        eye_region_start(side),
        eye_region_start(side) + 6,
    )
    &&& e.side_spec() == side
    &&& e.ear_spec().num == ear_numerator(e.points_spec())
    &&& e.ear_spec().den == ear_denominator(e.points_spec())
    &&& e.ear_spec().wf()
    &&& e.center_spec().x == sum_x(e.points_spec()) / 6
    &&& e.center_spec().y == sum_y(e.points_spec()) / 6
}

/// A degenerate eye contour whose corners coincide (`p0 == p3`) never
/// divides by zero: the horizontal width is replaced by one, so the
/// denominator is exactly 2 and the aspect ratio stays finite.
pub proof fn lemma_degenerate_eye_is_finite(pts: Seq<Point2D>)
    requires
        pts.len() == 6,
        pts[0] == pts[3],
    ensures
        ear_denominator(pts) == 2,
        ear_denominator(pts) > 0,
{
    assert(crate::geometry::dist_sq(pts[0], pts[3]) == 0) by (nonlinear_arith)
        requires
            pts[0] == pts[3],
    ;
}

/// The metrics of one eye: its six contour points, the side they came
/// from, a center estimate, and the eye aspect ratio as an exact rational.
/// Derived afresh from a landmark model on each request; never cached.
#[derive(Copy, Clone, Debug, PartialEq)]
pub struct Eye {
    points: [Point2D; 6],
    side: LeftRight,
    center_pt: Point2D,
    ear_aspect_ratio: Ratio,
}

impl Eye {
    /// The six contour points the metrics were derived from.
    pub closed spec fn points_spec(self) -> Seq<Point2D> {
        self.points@
    }

    pub closed spec fn side_spec(self) -> LeftRight {
        self.side
    }

    pub closed spec fn center_spec(self) -> Point2D {
        self.center_pt
    }

    pub closed spec fn ear_spec(self) -> Ratio {
        self.ear_aspect_ratio
    }

    /// Derives the metrics of the given eye from a landmark model.
    ///
    /// The aspect ratio is `(|p1 p5| + |p2 p4|) / (2 * |p0 p3|)` over the
    /// six-point contour, with a zero horizontal distance replaced by one;
    /// the center estimate is the midpoint of all six contour points, a
    /// stand-in for true iris localization.
    pub fn new(landmarks: &FaceLandmark, side: LeftRight) -> (r: Eye)
        requires
            landmarks.wf(),
        ensures
            derived_from(r, *landmarks, side),
    {
        let points = landmarks.eye_landmarks(side);
        proof {
            lemma_dist_bound(points@[1], points@[5]);
            lemma_dist_bound(points@[2], points@[4]);
        }
        let vertical = distance(points[1], points[5]) + distance(points[2], points[4]);
        let horizontal = distance(points[0], points[3]);
        let ear_aspect_ratio = if horizontal == 0 {
            Ratio { num: vertical, den: 2 }
        } else {
            proof {
                lemma_dist_bound(points@[0], points@[3]);
            }
            Ratio { num: vertical, den: 2 * horizontal }
        };
        let contour: Vec<Point2D> = vec![
            points[0],
            points[1],
            points[2],
            points[3],
            points[4],
            points[5],
        ];
        proof {
            assert(contour@ =~= points@);
            assert(midpoint_divisor(contour@) == 6);
        }
        let center_pt = midpoint(&contour);
        Eye { points, side, center_pt, ear_aspect_ratio }
    }

    /// The eye aspect ratio, an openness proxy.
    pub fn eye_ear_ratio(&self) -> (r: Ratio)
        ensures
            r == self.ear_spec(),
    {
        self.ear_aspect_ratio
    }

    /// The estimated iris position: the center of the eye contour.
    pub fn iris_position(&self) -> (r: Point2D)
        ensures
            r == self.center_spec(),
    {
        self.center_pt
    }

    pub fn side(&self) -> (r: LeftRight)
        ensures
            r == self.side_spec(),
    {
        self.side
    }

    pub fn points(&self) -> (r: [Point2D; 6])
        ensures
            r@ == self.points_spec(),
    {
        self.points
    }
}

} // verus!
