//! A fiducial marker as the detector reports it: an identifier and the
//! corners of a quadrilateral, with its centre and perimeter.
//!
//! Pixel coordinates and lengths are fixed-point numbers in thousandths of a
//! pixel.

use vstd::prelude::*;
use crate::numeric::{floor_div, is_sqrt_floor, isqrt, lemma_square_monotonic, sqrt_floor};

verus! {

/// A point of the image plane, in thousandths of a pixel.
#[derive(Clone, Copy, Debug, PartialEq, Eq, Structural)]
pub struct Point {
    pub x: i32,
    pub y: i32,
}

impl Point {
    pub fn new(x: i32, y: i32) -> (p: Point)
        ensures
            p == (Point { x, y }),
    {
        Point { x, y }
    }
}

/// The square of the distance between two points.
pub open spec fn distance_squared(a: Point, b: Point) -> int {
    (a.x - b.x) * (a.x - b.x) + (a.y - b.y) * (a.y - b.y)
}

/// The Euclidean distance between two points, rounded down to a whole
/// thousandth of a pixel.
pub open spec fn edge_length_of(a: Point, b: Point) -> int {
    sqrt_floor(distance_squared(a, b))
}

/// The edge that leaves corner `i`: it ends at the next corner, the last one
/// being joined to the first.
pub open spec fn edge_of(corners: Seq<Point>, i: int) -> int
    recommends
        0 <= i < corners.len(),
{
    edge_length_of(corners[i], corners[(i + 1) % (corners.len() as int)])
}

/// The sum of the first `k` edges.
pub open spec fn edges_sum(corners: Seq<Point>, k: nat) -> int
    recommends
        k <= corners.len(),
    decreases k,
{
    if k == 0 {
        0
    } else {
        edges_sum(corners, (k - 1) as nat) + edge_of(corners, k - 1)
    }
}

/// The perimeter of the closed polygon through the corners.
pub open spec fn perimeter_of(corners: Seq<Point>) -> int {
    edges_sum(corners, corners.len())
}

/// The centre of a marker: the mean of its four corners, each coordinate
/// rounded down. A corner set of any other size has no centre, and the
/// origin stands for it.
pub open spec fn center_of(corners: Seq<Point>) -> Point {
    if corners.len() == 4 {
        Point {
            x: ((corners[0].x + corners[1].x + corners[2].x + corners[3].x) / 4) as i32,
            y: ((corners[0].y + corners[1].y + corners[2].y + corners[3].y) / 4) as i32,
        }
    } else {
        Point { x: 0, y: 0 }
    }
}

/// No edge between two points is longer than `2^33` thousandths of a pixel.
pub proof fn lemma_edge_bound(a: Point, b: Point, l: int)
    requires
        is_sqrt_floor(distance_squared(a, b), l),
    ensures
        0 <= l < 0x2_0000_0000,
{
    let dx = a.x - b.x;
    let dy = a.y - b.y;
    assert(dx * dx <= 0xFFFF_FFFF * 0xFFFF_FFFF) by (nonlinear_arith)
        requires
            -0xFFFF_FFFF <= dx <= 0xFFFF_FFFF,
    ;
    assert(dy * dy <= 0xFFFF_FFFF * 0xFFFF_FFFF) by (nonlinear_arith)
        requires
            -0xFFFF_FFFF <= dy <= 0xFFFF_FFFF,
    ;
    if l >= 0x2_0000_0000 {
        lemma_square_monotonic(0x2_0000_0000, l);
    }
}

/// The distance between two points, rounded down.
pub fn edge_length(a: Point, b: Point) -> (l: u64)
    ensures
        l as int == edge_length_of(a, b),
        is_sqrt_floor(distance_squared(a, b), l as int),
        l < 0x2_0000_0000,
{
    let dx: i128 = a.x as i128 - b.x as i128;
    let dy: i128 = a.y as i128 - b.y as i128;
    assert(0 <= dx * dx <= 0xFFFF_FFFF * 0xFFFF_FFFF) by (nonlinear_arith)
        requires
            -0xFFFF_FFFF <= dx <= 0xFFFF_FFFF,
    ;
    assert(0 <= dy * dy <= 0xFFFF_FFFF * 0xFFFF_FFFF) by (nonlinear_arith)
        requires
            -0xFFFF_FFFF <= dy <= 0xFFFF_FFFF,
    ;
    let squared: i128 = dx * dx + dy * dy;
    let l = isqrt(squared as u128);
    proof {
        lemma_edge_bound(a, b, l as int);
    }
    l
}

/// What a marker is to its users: the identifier that the detector decoded
/// and the corners in the order in which it reported them.
pub ghost struct MarkerModel {
    pub id: i32,
    pub corners: Seq<Point>,
}

/// A detected marker. The centre is computed once, when the marker is made,
/// and kept with it.
#[derive(Debug)]
pub struct DetectedMarker {
    id: i32,
    corners: Vec<Point>,
    center: Point,
}

impl View for DetectedMarker {
    type V = MarkerModel;

    closed spec fn view(&self) -> MarkerModel {
        MarkerModel { id: self.id, corners: self.corners@ }
    }
}

/// A copy of a corner set.
pub fn copy_corners(corners: &Vec<Point>) -> (copy: Vec<Point>)
    ensures
        copy@ == corners@,
{
    let mut copy: Vec<Point> = Vec::new();
    let mut i: usize = 0;
    while i < corners.len()
        invariant
            i <= corners.len(),
            copy@ == corners@.subrange(0, i as int),
        decreases corners.len() - i,
    {
        copy.push(corners[i]);
        assert(copy@ =~= corners@.subrange(0, i + 1));
        i += 1;
    }
    assert(copy@ =~= corners@);
    copy
}

impl Clone for DetectedMarker {
    fn clone(&self) -> (m: DetectedMarker)
        ensures
            m@ == self@,
    {
        proof {
            use_type_invariant(self);
        }
        DetectedMarker { id: self.id, corners: copy_corners(&self.corners), center: self.center }
    }
}

impl DeepView for DetectedMarker {
    type V = MarkerModel;

    open spec fn deep_view(&self) -> MarkerModel {
        self@
    }
}

impl DetectedMarker {
    #[verifier::type_invariant]
    spec fn center_is_kept(&self) -> bool {
        self.center == center_of(self.corners@)
    }

    /// Makes a marker of an identifier and its corners.
    pub fn new(id: i32, corners: Vec<Point>) -> (m: DetectedMarker)
        ensures
            m@.id == id,
            m@.corners == corners@,
    {
        let center = if corners.len() == 4 {
            let sum_x: i64 = corners[0].x as i64 + corners[1].x as i64 + corners[2].x as i64
                + corners[3].x as i64;
            let sum_y: i64 = corners[0].y as i64 + corners[1].y as i64 + corners[2].y as i64
                + corners[3].y as i64;
            Point { x: floor_div(sum_x, 4) as i32, y: floor_div(sum_y, 4) as i32 }
        } else {
            Point { x: 0, y: 0 }
        };
        DetectedMarker { id, corners, center }
    }

    /// The identifier that the detector decoded.
    pub fn id(&self) -> (id: i32)
        ensures
            id == self@.id,
    {
        self.id
    }

    /// The corners, in the detector's order.
    pub fn corners(&self) -> (corners: &Vec<Point>)
        ensures
            corners@ == self@.corners,
    {
        &self.corners
    }

    /// The centre of the marker.
    pub fn center(&self) -> (c: Point)
        ensures
            c == center_of(self@.corners),
    {
        proof {
            use_type_invariant(self);
        }
        self.center
    }

    /// The perimeter of the marker: the sum of its edges, each rounded down
    /// to a whole thousandth of a pixel.
    pub fn perimeter(&self) -> (p: u128)
        ensures
            p as int == perimeter_of(self@.corners),
    {
        perimeter(&self.corners)
    }
}

/// The perimeter of the closed polygon through the corners.
pub fn perimeter(corners: &Vec<Point>) -> (p: u128)
    ensures
        p as int == perimeter_of(corners@),
{
    let n: usize = corners.len();
    let mut total: u128 = 0;
    let mut i: usize = 0;
    while i < n
        invariant
            n == corners.len(),
            i <= n,
            total as int == edges_sum(corners@, i as nat),
            total <= i * 0x2_0000_0000,
        decreases n - i,
    {
        let j: usize = if i + 1 == n {
            0
        } else {
            i + 1
        };
        assert(j as int == (i + 1) % (n as int)) by {
            if i + 1 == n {
                vstd::arithmetic::div_mod::lemma_mod_self_0(n as int);
            } else {
                vstd::arithmetic::div_mod::lemma_small_mod((i + 1) as nat, n as nat);
            }
        }
        let edge: u64 = edge_length(corners[i], corners[j]);
        total = total + edge as u128;
        i += 1;
    }
    total
}

} // verus!
