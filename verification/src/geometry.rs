//! Geometric primitives: 2-D points, distances and midpoints.

use vstd::prelude::*;

verus! {

/// Largest coordinate magnitude the geometric routines accept.  Keeping
/// every coordinate within this bound lets squared distances and sums of
/// coordinates fit comfortably in the machine integers used below.
pub const COORD_LIMIT: i64 = 100_000_000_000_000;

/// A 2-D point (or vector) with integer coordinates in image pixel space.
#[derive(Copy, Clone, Debug, PartialEq, Eq, Structural)]
pub struct Point2D {
    pub x: i64,
    pub y: i64,
}

impl Point2D {
    /// True when both coordinates lie in the non-negative coordinate domain.
    pub open spec fn in_range(self) -> bool {
        0 <= self.x <= COORD_LIMIT && 0 <= self.y <= COORD_LIMIT
    }

    /// True when both coordinates have magnitude at most `COORD_LIMIT`;
    /// differences of points satisfy this even when they go negative.
    pub open spec fn bounded(self) -> bool {
        -COORD_LIMIT <= self.x <= COORD_LIMIT && -COORD_LIMIT <= self.y <= COORD_LIMIT
    }

    pub fn new(x: i64, y: i64) -> (r: Point2D)
        ensures
            r.x == x,
            r.y == y,
    {
        Point2D { x, y }
    }

    pub fn x(&self) -> (r: i64)
        ensures
            r == self.x,
    {
        self.x
    }

    pub fn y(&self) -> (r: i64)
        ensures
            r == self.y,
    {
        self.y
    }

    /// The component-wise difference `self - rhs`: the vector leading from
    /// `rhs` to `self`.
    pub fn sub(self, rhs: Point2D) -> (r: Point2D)
        requires
            self.bounded(),
            rhs.bounded(),
        ensures
            r.x == self.x - rhs.x,
            r.y == self.y - rhs.y,
    {
        Point2D { x: self.x - rhs.x, y: self.y - rhs.y }
    }
}

impl Default for Point2D {
    /// The origin.
    fn default() -> (r: Point2D)
        ensures
            r.x == 0,
            r.y == 0,
    {
        Point2D { x: 0, y: 0 }
    }
}

/// A 2-D point generic over its coordinate representation, for callers that
/// carry detections in another numeric width before converting to
/// [`Point2D`].
#[derive(Debug, PartialEq, Eq)]
pub struct Point<T> {
    pub x: T,
    pub y: T,
}

impl<T> Point<T> {
    pub fn new(x: T, y: T) -> (r: Point<T>)
        ensures
            r.x == x,
            r.y == y,
    {
        Point { x, y }
    }
}

/// An axis-aligned box in image pixel coordinates, as produced once per
/// detected face by a detection backend.
#[derive(Copy, Clone, Debug, Default, PartialEq, Eq, Structural)]
pub struct BoundingBox {
    pub x_minumum: i32,
    pub x_maximum: i32,
    pub y_minumum: i32,
    pub y_maximum: i32,
}

impl BoundingBox {
    /// The box invariant: each minimum lies at or below its maximum.
    pub open spec fn wf(self) -> bool {
        self.x_minumum <= self.x_maximum && self.y_minumum <= self.y_maximum
    }

    /// The corner with the smallest coordinates.
    pub open spec fn low_point_spec(self) -> Point2D {
        Point2D { x: self.x_minumum as i64, y: self.y_minumum as i64 }
    }

    /// The corner with the largest coordinates.
    pub open spec fn high_point_spec(self) -> Point2D {
        Point2D { x: self.x_maximum as i64, y: self.y_maximum as i64 }
    }

    /// The box center as an offset from the low corner: `(width / 2,
    /// height / 2)`, not an absolute midpoint.  Callers that need the
    /// absolute center add the low corner themselves.
    pub open spec fn center_spec(self) -> Point2D {
        Point2D {
            x: ((self.x_maximum - self.x_minumum) / 2) as i64,
            y: ((self.y_maximum - self.y_minumum) / 2) as i64,
        }
    }

    pub fn new(x_minumum: i32, x_maximum: i32, y_minumum: i32, y_maximum: i32) -> (r: BoundingBox)
        requires
            x_minumum <= x_maximum,
            y_minumum <= y_maximum,
        ensures
            r == (BoundingBox { x_minumum, x_maximum, y_minumum, y_maximum }),
            r.wf(),
    {
        BoundingBox { x_minumum, x_maximum, y_minumum, y_maximum }
    }

    pub fn low_point(&self) -> (r: Point2D)
        ensures
            r == self.low_point_spec(),
    {
        Point2D { x: self.x_minumum as i64, y: self.y_minumum as i64 }
    }

    pub fn high_point(&self) -> (r: Point2D)
        ensures
            r == self.high_point_spec(),
    {
        Point2D { x: self.x_maximum as i64, y: self.y_maximum as i64 }
    }

    /// See [`BoundingBox::center_spec`] for the offset-not-midpoint reading
    /// of this value.
    pub fn center(&self) -> (r: Point2D)
        requires
            self.wf(),
        ensures
            r == self.center_spec(),
    {
        let w: u64 = (self.x_maximum as i64 - self.x_minumum as i64) as u64;
        let h: u64 = (self.y_maximum as i64 - self.y_minumum as i64) as u64;
        Point2D { x: (w / 2) as i64, y: (h / 2) as i64 }
    }
}

/// Both corner accessors of a well-formed box are ordered: the low corner
/// never exceeds the high corner in either coordinate.
pub proof fn lemma_bounding_box_corners_ordered(b: BoundingBox)
    requires
        b.wf(),
    ensures
        b.low_point_spec().x <= b.high_point_spec().x,
        b.low_point_spec().y <= b.high_point_spec().y,
{
}

/// The largest `r` with `r * r <= n`: the floor of the square root of `n`.
pub open spec fn sqrt_floor(n: nat) -> nat
    decreases n,
{
    if n == 0 {
        0
    } else {
        let s = sqrt_floor((n - 1) as nat);
        if (s + 1) * (s + 1) <= n {
            s + 1
        } else {
            s
        }
    }
}

/// `sqrt_floor(n)` is indeed the floor of the square root: its square is at
/// most `n`, and the next square is beyond `n`.
pub proof fn lemma_sqrt_floor_bounds(n: nat)
    ensures
        sqrt_floor(n) * sqrt_floor(n) <= n,
        n < (sqrt_floor(n) + 1) * (sqrt_floor(n) + 1),
    decreases n,
{
    if n == 0 {
        assert(sqrt_floor(0) == 0);
        assert(n < (sqrt_floor(n) + 1) * (sqrt_floor(n) + 1)) by (nonlinear_arith)
            requires
                n == 0,
                sqrt_floor(n) == 0,
        ;
    } else {
        lemma_sqrt_floor_bounds((n - 1) as nat);
        let s = sqrt_floor((n - 1) as nat);
        if (s + 1) * (s + 1) <= n {
            assert(sqrt_floor(n) == s + 1);
            assert(n == (s + 1) * (s + 1));
            assert((s + 1) * (s + 1) < (s + 2) * (s + 2)) by (nonlinear_arith)
                requires
                    0 <= s,
            ;
        } else {
            assert(sqrt_floor(n) == s);
        }
    }
}

/// Any `r` whose square brackets `n` equals `sqrt_floor(n)`.
pub proof fn lemma_sqrt_floor_unique(n: nat, r: nat)
    requires
        r * r <= n,
        n < (r + 1) * (r + 1),
    ensures
        r == sqrt_floor(n),
{
    lemma_sqrt_floor_bounds(n);
    let s = sqrt_floor(n);
    if r < s {
        assert((r + 1) * (r + 1) <= s * s) by (nonlinear_arith)
            requires
                0 <= r,
                r + 1 <= s,
        ;
        assert(false);
    }
    if s < r {
        assert((s + 1) * (s + 1) <= r * r) by (nonlinear_arith)
            requires
                0 <= s,
                s + 1 <= r,
        ;
        assert(false);
    }
}

/// Binary search for the floor of the square root of `n`.
pub fn isqrt(n: u128) -> (r: u64)
    ensures
        r as nat == sqrt_floor(n as nat),
{
    let mut lo: u128 = 0;
    let mut hi: u128 = 0x1_0000_0000_0000_0000;
    assert((hi as int) * (hi as int) == 0x1_0000_0000_0000_0000_0000_0000_0000_0000int);
    while lo + 1 < hi
        invariant
            lo < hi <= 0x1_0000_0000_0000_0000u128,
            (lo as int) * (lo as int) <= n as int,
            (n as int) < (hi as int) * (hi as int),
        decreases hi - lo,
    {
        let mid = lo + (hi - lo) / 2;
        assert((mid as int) * (mid as int) <= 0xffff_ffff_ffff_ffffint * 0xffff_ffff_ffff_ffffint)
            by (nonlinear_arith)
            requires
                0 <= mid as int <= 0xffff_ffff_ffff_ffffint,
        ;
        let sq = mid * mid;
        if sq <= n {
            lo = mid;
        } else {
            hi = mid;
        }
    }
    proof {
        lemma_sqrt_floor_unique(n as nat, lo as nat);
    }
    lo as u64
}

/// The squared Euclidean distance between `a` and `b`.
pub open spec fn dist_sq(a: Point2D, b: Point2D) -> int {
    (a.x - b.x) * (a.x - b.x) + (a.y - b.y) * (a.y - b.y)
}

/// The Euclidean distance between `a` and `b`, rounded down to an integer.
pub open spec fn dist(a: Point2D, b: Point2D) -> nat {
    sqrt_floor(dist_sq(a, b) as nat)
}

/// `distance(a, b)` computes `dist(a, b)` exactly.
pub fn distance(a: Point2D, b: Point2D) -> (r: u64)
    requires
        a.bounded(),
        b.bounded(),
    ensures
        r as nat == dist(a, b),
{
    let dx: i128 = (a.x - b.x) as i128;
    let dy: i128 = (a.y - b.y) as i128;
    assert(0 <= dx * dx <= 0x10_0000_0000_0000_0000_0000_0000_0000int && 0 <= dy * dy
        <= 0x10_0000_0000_0000_0000_0000_0000_0000int) by (nonlinear_arith)
        requires
            -2 * COORD_LIMIT <= dx <= 2 * COORD_LIMIT,
            -2 * COORD_LIMIT <= dy <= 2 * COORD_LIMIT,
    ;
    let sq: u128 = (dx * dx + dy * dy) as u128;
    isqrt(sq)
}

/// Distances between bounded points stay comfortably inside `u64`: the
/// squared distance is at most `8 * COORD_LIMIT^2`, whose square root is
/// under `3 * COORD_LIMIT`.
pub proof fn lemma_dist_bound(a: Point2D, b: Point2D)
    requires
        a.bounded(),
        b.bounded(),
    ensures
        dist(a, b) <= 3 * COORD_LIMIT,
{
    let n = dist_sq(a, b) as nat;
    assert(0 <= dist_sq(a, b) <= 8 * (COORD_LIMIT as int) * (COORD_LIMIT as int))
        by (nonlinear_arith)
        requires
            -COORD_LIMIT <= a.x <= COORD_LIMIT,
            -COORD_LIMIT <= a.y <= COORD_LIMIT,
            -COORD_LIMIT <= b.x <= COORD_LIMIT,
            -COORD_LIMIT <= b.y <= COORD_LIMIT,
    ;
    lemma_sqrt_floor_bounds(n);
    let s = sqrt_floor(n);
    if s > 3 * COORD_LIMIT {
        assert(s * s > 8 * (COORD_LIMIT as int) * (COORD_LIMIT as int)) by (nonlinear_arith)
            requires
                s > 3 * COORD_LIMIT,
                COORD_LIMIT == 100_000_000_000_000i64,
        ;
        assert(false);
    }
}

/// An exact non-negative rational, kept as a numerator over a positive
/// denominator so that ratio-valued metrics need no rounding.
#[derive(Copy, Clone, Debug, PartialEq, Eq, Structural)]
pub struct Ratio {
    pub num: u64,
    pub den: u64,
}

impl Ratio {
    /// The denominator is positive, so the ratio is a finite value.
    pub open spec fn wf(self) -> bool {
        self.den > 0
    }
}

/// The sum of the x coordinates of a point sequence.
pub open spec fn sum_x(s: Seq<Point2D>) -> int
    decreases s.len(),
{
    if s.len() == 0 {
        0
    } else {
        sum_x(s.drop_last()) + s.last().x
    }
}

/// The sum of the y coordinates of a point sequence.
pub open spec fn sum_y(s: Seq<Point2D>) -> int
    decreases s.len(),
{
    if s.len() == 0 {
        0
    } else {
        sum_y(s.drop_last()) + s.last().y
    }
}

/// The divisor the midpoint uses: the point count, or 1 for an empty
/// sequence so that the midpoint of no points is the origin rather than a
/// division by zero.
pub open spec fn midpoint_divisor(s: Seq<Point2D>) -> int {
    if s.len() == 0 {
        1
    } else {
        s.len() as int
    }
}

/// The coordinate-wise average of the points, with an empty input mapped to
/// the origin.
pub fn midpoint(points: &Vec<Point2D>) -> (r: Point2D)
    requires
        forall|i: int| 0 <= i < points@.len() ==> points@[i].in_range(),
        points@.len() <= 10_000,
    ensures
        r.x == sum_x(points@) / midpoint_divisor(points@),
        r.y == sum_y(points@) / midpoint_divisor(points@),
{
    let mut sx: u64 = 0;
    let mut sy: u64 = 0;
    let mut i: usize = 0;
    while i < points.len()
        invariant
            i <= points@.len() <= 10_000,
            forall|j: int| 0 <= j < points@.len() ==> points@[j].in_range(),
            sx == sum_x(points@.take(i as int)),
            sy == sum_y(points@.take(i as int)),
            sx <= i * COORD_LIMIT,
            sy <= i * COORD_LIMIT,
        decreases points@.len() - i,
    {
        proof {
            assert(points@.take(i + 1).drop_last() =~= points@.take(i as int));
            assert((i + 1) * COORD_LIMIT == i * COORD_LIMIT + COORD_LIMIT) by (nonlinear_arith);
        }
        sx = sx + points[i].x as u64;
        sy = sy + points[i].y as u64;
        i = i + 1;
    }
    proof {
        assert(points@.take(points@.len() as int) =~= points@);
    }
    let cnt: u64 = if points.len() == 0 {
        1
    } else {
        points.len() as u64
    };
    Point2D { x: (sx / cnt) as i64, y: (sy / cnt) as i64 }
}

} // verus!
