//! Point geometry and the bounding box of a table of stations.
//!
//! A point is a pair of double-precision numbers, longitude first, each held
//! as its bit pattern. The bounding box is the smallest axis-aligned
//! rectangle that holds every point, by the total order of `double`. A table
//! without rows has the empty box.

use crate::double::{lower, rank, rank_is_injective, upper};
use vstd::prelude::*;

verus! {

/// The coordinate reference system of every geometry and bounding box that
/// the library makes: EPSG 4326, longitude and latitude in degrees.
pub const COORDINATE_REFERENCE_SYSTEM: u32 = 4326;

/// A point in the plane: `x` is the longitude and `y` the latitude.
#[derive(Debug, Clone, Copy, PartialEq, Eq, Structural)]
pub struct Point {
    pub x: u64,
    pub y: u64,
}

/// The extent of a set of points: nothing, or the least and greatest
/// coordinate on each axis.
#[derive(Debug, Clone, Copy, PartialEq, Eq, Structural)]
pub enum Extent {
    Empty,
    Bounds { xmin: u64, ymin: u64, xmax: u64, ymax: u64 },
}

/// The geometry column of a table: one point for each row, in the order of
/// the rows.
#[derive(Debug, PartialEq, Eq)]
pub struct GeometryColumn {
    pub crs: u32,
    pub points: Vec<Point>,
}

/// The bounding box of a table.
#[derive(Debug, Clone, Copy, PartialEq, Eq, Structural)]
pub struct BoundingBox {
    pub crs: u32,
    pub extent: Extent,
}

/// Every point lies within the bounds, on both axes.
pub open spec fn holds_all(xmin: u64, ymin: u64, xmax: u64, ymax: u64, points: Seq<Point>) -> bool {
    forall|i: int|
        0 <= i < points.len() ==> {
            &&& rank(xmin) <= rank((#[trigger] points[i]).x) <= rank(xmax)
            &&& rank(ymin) <= rank(points[i].y) <= rank(ymax)
        }
}

/// Some point has this longitude.
pub open spec fn x_occurs(x: u64, points: Seq<Point>) -> bool {
    exists|i: int| 0 <= i < points.len() && (#[trigger] points[i]).x == x
}

/// Some point has this latitude.
pub open spec fn y_occurs(y: u64, points: Seq<Point>) -> bool {
    exists|i: int| 0 <= i < points.len() && (#[trigger] points[i]).y == y
}

/// The extent is the envelope of the points: empty exactly where there are
/// no points, and otherwise bounds that hold every point and that are each
/// the coordinate of some point.
pub open spec fn is_envelope(extent: Extent, points: Seq<Point>) -> bool {
    match extent {
        Extent::Empty => points.len() == 0,
        Extent::Bounds { xmin, ymin, xmax, ymax } => {
            &&& points.len() > 0
            &&& holds_all(xmin, ymin, xmax, ymax, points)
            &&& x_occurs(xmin, points)
            &&& x_occurs(xmax, points)
            &&& y_occurs(ymin, points)
            &&& y_occurs(ymax, points)
        },
    }
}

/// The extent with one more point taken in.
pub open spec fn extended(extent: Extent, point: Point) -> Extent {
    match extent {
        Extent::Empty => Extent::Bounds { xmin: point.x, ymin: point.y, xmax: point.x, ymax: point.y },
        Extent::Bounds { xmin, ymin, xmax, ymax } => Extent::Bounds {
            xmin: if rank(point.x) < rank(xmin) {
                point.x
            } else {
                xmin
            },
            ymin: if rank(point.y) < rank(ymin) {
                point.y
            } else {
                ymin
            },
            xmax: if rank(xmax) < rank(point.x) {
                point.x
            } else {
                xmax
            },
            ymax: if rank(ymax) < rank(point.y) {
                point.y
            } else {
                ymax
            },
        },
    }
}

/// Points have one envelope only.
pub proof fn envelope_is_unique(a: Extent, b: Extent, points: Seq<Point>)
    requires
        is_envelope(a, points),
        is_envelope(b, points),
    ensures
        a == b,
{
    match (a, b) {
        (
            Extent::Bounds { xmin: ax, ymin: ay, xmax: bx, ymax: by },
            Extent::Bounds { xmin: cx, ymin: cy, xmax: dx, ymax: dy },
        ) => {
            let i = choose|i: int| 0 <= i < points.len() && (#[trigger] points[i]).x == ax;
            let j = choose|i: int| 0 <= i < points.len() && (#[trigger] points[i]).x == cx;
            assert(rank(cx) <= rank(points[i].x) && rank(ax) <= rank(points[j].x));
            rank_is_injective(ax, cx);
            let i = choose|i: int| 0 <= i < points.len() && (#[trigger] points[i]).x == bx;
            let j = choose|i: int| 0 <= i < points.len() && (#[trigger] points[i]).x == dx;
            assert(rank(points[i].x) <= rank(dx) && rank(points[j].x) <= rank(bx));
            rank_is_injective(bx, dx);
            let i = choose|i: int| 0 <= i < points.len() && (#[trigger] points[i]).y == ay;
            let j = choose|i: int| 0 <= i < points.len() && (#[trigger] points[i]).y == cy;
            assert(rank(cy) <= rank(points[i].y) && rank(ay) <= rank(points[j].y));
            rank_is_injective(ay, cy);
            let i = choose|i: int| 0 <= i < points.len() && (#[trigger] points[i]).y == by;
            let j = choose|i: int| 0 <= i < points.len() && (#[trigger] points[i]).y == dy;
            assert(rank(points[i].y) <= rank(dy) && rank(points[j].y) <= rank(by));
            rank_is_injective(by, dy);
        },
        _ => {},
    }
}

/// The envelope does not depend on the order of the points, nor on how
/// often a point occurs: two runs that hold the same points have the same
/// envelope.
pub proof fn envelope_ignores_order(extent: Extent, points: Seq<Point>, others: Seq<Point>)
    requires
        is_envelope(extent, points),
        forall|i: int| 0 <= i < points.len() ==> others.contains(#[trigger] points[i]),
        forall|j: int| 0 <= j < others.len() ==> points.contains(#[trigger] others[j]),
    ensures
        is_envelope(extent, others),
{
    match extent {
        Extent::Empty => {
            if others.len() > 0 {
                assert(points.contains(others[0]));
            }
        },
        Extent::Bounds { xmin, ymin, xmax, ymax } => {
            assert(others.contains(points[0]));
            assert forall|j: int| 0 <= j < others.len() implies {
                &&& rank(xmin) <= rank((#[trigger] others[j]).x) <= rank(xmax)
                &&& rank(ymin) <= rank(others[j].y) <= rank(ymax)
            } by {
                assert(points.contains(others[j]));
                let i = choose|i: int| 0 <= i < points.len() && points[i] == others[j];
                assert(rank(xmin) <= rank(points[i].x));
            }
            let i = choose|i: int| 0 <= i < points.len() && (#[trigger] points[i]).x == xmin;
            assert(others.contains(points[i]));
            let j = choose|j: int| 0 <= j < others.len() && others[j] == points[i];
            assert(others[j].x == xmin);
            let i = choose|i: int| 0 <= i < points.len() && (#[trigger] points[i]).x == xmax;
            assert(others.contains(points[i]));
            let j = choose|j: int| 0 <= j < others.len() && others[j] == points[i];
            assert(others[j].x == xmax);
            let i = choose|i: int| 0 <= i < points.len() && (#[trigger] points[i]).y == ymin;
            assert(others.contains(points[i]));
            let j = choose|j: int| 0 <= j < others.len() && others[j] == points[i];
            assert(others[j].y == ymin);
            let i = choose|i: int| 0 <= i < points.len() && (#[trigger] points[i]).y == ymax;
            assert(others.contains(points[i]));
            let j = choose|j: int| 0 <= j < others.len() && others[j] == points[i];
            assert(others[j].y == ymax);
        },
    }
}

/// Taking one more point into the envelope of a run gives the envelope of
/// the longer run.
pub proof fn extended_envelope(extent: Extent, points: Seq<Point>, point: Point)
    requires
        is_envelope(extent, points),
    ensures
        is_envelope(extended(extent, point), points.push(point)),
{
    let more = points.push(point);
    let last = points.len() as int;
    assert(more[last] == point);
    match extent {
        Extent::Empty => {},
        Extent::Bounds { xmin, ymin, xmax, ymax } => {
            assert forall|i: int| 0 <= i < points.len() implies more[i] == points[i] by {}
            match extended(extent, point) {
                Extent::Bounds { xmin: a, ymin: b, xmax: c, ymax: d } => {
                    assert forall|i: int| 0 <= i < more.len() implies {
                        &&& rank(a) <= rank((#[trigger] more[i]).x) <= rank(c)
                        &&& rank(b) <= rank(more[i].y) <= rank(d)
                    } by {
                        if i < last {
                            assert(more[i] == points[i]);
                        }
                    }
                    let i = choose|i: int| 0 <= i < points.len() && (#[trigger] points[i]).x == xmin;
                    assert(more[i].x == xmin);
                    let i = choose|i: int| 0 <= i < points.len() && (#[trigger] points[i]).x == xmax;
                    assert(more[i].x == xmax);
                    let i = choose|i: int| 0 <= i < points.len() && (#[trigger] points[i]).y == ymin;
                    assert(more[i].y == ymin);
                    let i = choose|i: int| 0 <= i < points.len() && (#[trigger] points[i]).y == ymax;
                    assert(more[i].y == ymax);
                    assert(x_occurs(a, more));
                    assert(x_occurs(c, more));
                    assert(y_occurs(b, more));
                    assert(y_occurs(d, more));
                },
                Extent::Empty => {},
            }
        },
    }
}

/// Takes one more point into an extent.
pub fn extend(extent: Extent, point: Point) -> (r: Extent)
    ensures
        r == extended(extent, point),
{
    match extent {
        Extent::Empty => Extent::Bounds { xmin: point.x, ymin: point.y, xmax: point.x, ymax: point.y },
        Extent::Bounds { xmin, ymin, xmax, ymax } => Extent::Bounds {
            xmin: lower(xmin, point.x),
            ymin: lower(ymin, point.y),
            xmax: upper(xmax, point.x),
            ymax: upper(ymax, point.y),
        },
    }
}

/// Computes the envelope of the points in one pass.
pub fn envelope(points: &Vec<Point>) -> (extent: Extent)
    ensures
        is_envelope(extent, points@),
        points@.len() == 0 <==> extent is Empty,
{
    let mut extent = Extent::Empty;
    let mut i: usize = 0;
    assert(points@.take(0) =~= Seq::<Point>::empty());
    while i < points.len()
        invariant
            i <= points@.len(),
            is_envelope(extent, points@.take(i as int)),
        decreases points@.len() - i,
    {
        proof {
            extended_envelope(extent, points@.take(i as int), points@[i as int]);
            assert(points@.take(i as int).push(points@[i as int]) =~= points@.take(i + 1));
        }
        extent = extend(extent, points[i]);
        i += 1;
    }
    assert(points@.take(points@.len() as int) =~= points@);
    extent
}

/// Computes the bounding box of the points, in the library's coordinate
/// reference system.
pub fn bounding_box(points: &Vec<Point>) -> (bbox: BoundingBox)
    ensures
        bbox.crs == COORDINATE_REFERENCE_SYSTEM,
        is_envelope(bbox.extent, points@),
        points@.len() == 0 <==> bbox.extent is Empty,
{
    BoundingBox { crs: COORDINATE_REFERENCE_SYSTEM, extent: envelope(points) }
}

} // verus!
