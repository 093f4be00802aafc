//! The canonical 68-point facial landmark model and its named sub-regions.
//!
//! Index assignment is fixed and backend-independent: 0-16 chin, 17-21 left
//! eyebrow, 22-26 right eyebrow, 27-35 nose, 36-41 left eye, 42-47 right
//! eye, 48-59 outer mouth, 60-67 inner mouth.

use vstd::prelude::*;

use crate::LeftRight;
use crate::error::FacialProcessingError;
use crate::geometry::BoundingBox;
use crate::geometry::Point2D;

verus! {

/// Number of points in the canonical landmark scheme.
pub const LANDMARK_COUNT: usize = 68;

/// An ordered set of exactly 68 landmark points plus the bounding box they
/// were computed within.  Read-only after construction; every sub-region
/// accessor returns a fixed-size copy, never a reference into the model.
#[derive(Clone, Debug, PartialEq)]
pub struct FaceLandmark {
    all: Vec<Point2D>,
    bbox: BoundingBox,
}

impl FaceLandmark {
    /// The ordered landmark points.
    pub closed spec fn landmarks_seq(self) -> Seq<Point2D> {
        self.all@
    }

    /// The bounding box the landmarks were computed within.
    pub closed spec fn bbox_spec(self) -> BoundingBox {
        self.bbox
    }

    /// Model invariant: exactly 68 points, all within the coordinate
    /// domain, inside a well-formed box.
    pub open spec fn wf(self) -> bool {
        &&& self.landmarks_seq().len() == LANDMARK_COUNT
        &&& forall|i: int| 0 <= i < self.landmarks_seq().len() ==> self.landmarks_seq()[i].in_range()
        &&& self.bbox_spec().wf()
    }

    /// Canonicalizes a backend's raw point sequence.  Succeeds exactly on
    /// sequences of 68 points; any other count is a `DataFormatError`.
    pub fn from_raw_points(bbox: BoundingBox, points: Vec<Point2D>) -> (r: Result<
        FaceLandmark,
        FacialProcessingError,
    >)
        requires
            bbox.wf(),
            forall|i: int| 0 <= i < points@.len() ==> points@[i].in_range(),
        ensures
            r is Ok <==> points@.len() == LANDMARK_COUNT,
            r matches Ok(lm) ==> lm.landmarks_seq() == points@ && lm.bbox_spec() == bbox && lm.wf(),
            points@.len() != LANDMARK_COUNT ==> r == Err::<
                FaceLandmark,
                FacialProcessingError,
            >(FacialProcessingError::DataFormatError),
    {
        if points.len() != LANDMARK_COUNT {
            Err(FacialProcessingError::DataFormatError)
        } else {
            Ok(FaceLandmark { all: points, bbox })
        }
    }

    /// A copy of all 68 points in canonical order.
    pub fn landmarks(&self) -> (r: Vec<Point2D>)
        ensures
            r@ == self.landmarks_seq(),
    {
        let mut out: Vec<Point2D> = Vec::new();
        let mut i: usize = 0;
        while i < self.all.len()
            invariant
                i <= self.all@.len(),
                out@ == self.all@.take(i as int),
            decreases self.all@.len() - i,
        {
            out.push(self.all[i]);
            proof {
                assert(self.all@.take(i + 1) =~= self.all@.take(i as int).push(self.all@[i as int]));
            }
            i = i + 1;
        }
        proof {
            assert(self.all@.take(self.all@.len() as int) =~= self.all@);
        }
        out
    }

    pub fn bounding_box(&self) -> (r: BoundingBox)
        ensures
            r == self.bbox_spec(),
    {
        self.bbox
    }

    /// The six contour points of one eye, indices 36-41 (left) or 42-47
    /// (right).
    pub fn eye_landmarks(&self, side: LeftRight) -> (r: [Point2D; 6])
        requires
            self.wf(),
        ensures
            r@ == self.landmarks_seq().subrange(eye_region_start(side), eye_region_start(side) + 6),
    {
        let base: usize = match side {
            LeftRight::Left => 36,
            LeftRight::Right => 42,
        };
        let r = [
            self.all[base],
            self.all[base + 1],
            self.all[base + 2],
            self.all[base + 3],
            self.all[base + 4],
            self.all[base + 5],
        ];
        proof {
            assert(r@ =~= self.landmarks_seq().subrange(
                eye_region_start(side),
                eye_region_start(side) + 6,
            ));
        }
        r
    }
}

/// First landmark index of the given eye's six-point contour.
pub open spec fn eye_region_start(side: LeftRight) -> int {
    match side {
        LeftRight::Left => 36,
        LeftRight::Right => 42,
    }
}

/// First landmark index of the given eyebrow's five-point arc.
pub open spec fn eyebrow_region_start(side: LeftRight) -> int {
    match side {
        LeftRight::Left => 17,
        LeftRight::Right => 22,
    }
}

impl FaceLandmark {
    /// The five arc points of one eyebrow, indices 17-21 (left) or 22-26
    /// (right).
    pub fn eyebrow_landmarks(&self, side: LeftRight) -> (r: [Point2D; 5])
        requires
            self.wf(),
        ensures
            r@ == self.landmarks_seq().subrange(
                eyebrow_region_start(side),
                eyebrow_region_start(side) + 5,
            ),
    {
        let base: usize = match side {
            LeftRight::Left => 17,
            LeftRight::Right => 22,
        };
        let r = [
            self.all[base],
            self.all[base + 1],
            self.all[base + 2],
            self.all[base + 3],
            self.all[base + 4],
        ];
        proof {
            assert(r@ =~= self.landmarks_seq().subrange(
                eyebrow_region_start(side),
                eyebrow_region_start(side) + 5,
            ));
        }
        r
    }

    /// The mouth contours as `(inner, outer)`: inner lip indices 60-67,
    /// outer lip indices 48-59.
    pub fn mouth_landmarks(&self) -> (r: ([Point2D; 8], [Point2D; 12]))
        requires
            self.wf(),
        ensures
            r.0@ == self.landmarks_seq().subrange(60, 68),
            r.1@ == self.landmarks_seq().subrange(48, 60),
    {
        let inner = [
            self.all[60],
            self.all[61],
            self.all[62],
            self.all[63],
            self.all[64],
            self.all[65],
            self.all[66],
            self.all[67],
        ];
        let outer = [
            self.all[48],
            self.all[49],
            self.all[50],
            self.all[51],
            self.all[52],
            self.all[53],
            self.all[54],
            self.all[55],
            self.all[56],
            self.all[57],
            self.all[58],
            self.all[59],
        ];
        proof {
            assert(inner@ =~= self.landmarks_seq().subrange(60, 68));
            assert(outer@ =~= self.landmarks_seq().subrange(48, 60));
        }
        (inner, outer)
    }

    /// The nose as `(bridge line, base)`: the bridge line is indices 29-32
    /// and the base is indices 31-35, overlapping as the landmark scheme
    /// draws them.
    pub fn nose_landmarks(&self) -> (r: ([Point2D; 4], [Point2D; 5]))
        requires
            self.wf(),
        ensures
            r.0@ == self.landmarks_seq().subrange(29, 33),
            r.1@ == self.landmarks_seq().subrange(31, 36),
    {
        let line = [self.all[29], self.all[30], self.all[31], self.all[32]];
        let base = [self.all[31], self.all[32], self.all[33], self.all[34], self.all[35]];
        proof {
            assert(line@ =~= self.landmarks_seq().subrange(29, 33));
            assert(base@ =~= self.landmarks_seq().subrange(31, 36));
        }
        (line, base)
    }

    /// The seventeen jaw-line points, indices 0-16 in original order.
    pub fn chin_landmarks(&self) -> (r: [Point2D; 17])
        requires
            self.wf(),
        ensures
            r@ == self.landmarks_seq().subrange(0, 17),
    {
        let r = [
            self.all[0],
            self.all[1],
            self.all[2],
            self.all[3],
            self.all[4],
            self.all[5],
            self.all[6],
            self.all[7],
            self.all[8],
            self.all[9],
            self.all[10],
            self.all[11],
            self.all[12],
            self.all[13],
            self.all[14],
            self.all[15],
            self.all[16],
        ];
        proof {
            assert(r@ =~= self.landmarks_seq().subrange(0, 17));
        }
        r
    }

    /// The six landmarks that correspond, in order, to the canonical 3-D
    /// face model used by the pose solver: nose tip (30), chin (8), outer
    /// left-eye corner (36), outer right-eye corner (45), left mouth corner
    /// (48), right mouth corner (54).  The solver pairs them positionally.
    pub fn pnp_landmarks(&self) -> (r: [Point2D; 6])
        requires
            self.wf(),
        ensures
            r@ == pnp_landmarks_spec(*self),
    {
        let r = [
            self.all[30],
            self.all[8],
            self.all[36],
            self.all[45],
            self.all[48],
            self.all[54],
        ];
        proof {
            assert(r@ =~= pnp_landmarks_spec(*self));
        }
        r
    }
}

/// The six pose-solver landmarks in canonical-model order.
pub open spec fn pnp_landmarks_spec(lm: FaceLandmark) -> Seq<Point2D> {
    seq![
        lm.landmarks_seq()[30],
        lm.landmarks_seq()[8],
        lm.landmarks_seq()[36],
        lm.landmarks_seq()[45],
        lm.landmarks_seq()[48],
        lm.landmarks_seq()[54],
    ]
}

/// Round trip of the indexing scheme: canonicalizing any valid 68-point
/// sequence and then taking the chin region yields exactly the original
/// points 0-16, in their original order.
pub proof fn lemma_chin_region_round_trip(lm: FaceLandmark, points: Seq<Point2D>)
    requires
        points.len() == LANDMARK_COUNT,
        lm.landmarks_seq() == points,
    ensures
        lm.landmarks_seq().subrange(0, 17) =~= points.take(17),
        forall|i: int| 0 <= i < 17 ==> lm.landmarks_seq().subrange(0, 17)[i] == points[i],
{
}

/// The mouth contours of one face, as a pair of fixed-size copies.
#[derive(Copy, Clone, Debug, PartialEq)]
pub struct Mouth {
    pub points_outer: [Point2D; 12],
    pub points_inner: [Point2D; 8],
}

} // verus!
