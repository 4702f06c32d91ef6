//! The rasterizer: turn three transformed vertices into the fragments
//! of every integer pixel their triangle covers, with barycentric
//! attribute interpolation.
//!
//! A pixel is covered exactly when all three (orientation-corrected)
//! edge weights at it are non-negative, so pixels on a shared edge of
//! two adjacent triangles may be produced by both; the depth test
//! settles which survives. Triangles of zero signed area produce no
//! fragments at all.

use vstd::prelude::*;
use crate::fixed::{
    fp_ok, iabs, tdiv, tdiv_i128, tdiv_i64, floor_mod_i64, lemma_abs_mul_le, lemma_tdiv_bound,
    FP_ONE, FP_LIM,
};
use crate::linear::Vec3;
use crate::vertex::Vertex;
use crate::fragment::Fragment;

verus! {

/// Twice the signed area of the triangle `(a, b)` to `p`: the cross
/// product of `b - a` with `p - a`.
pub open spec fn edge_spec(ax: int, ay: int, bx: int, by: int, px: int, py: int) -> int {
    (bx - ax) * (py - ay) - (by - ay) * (px - ax)
}

pub open spec fn sx(v: Vertex) -> int {
    v.transformed_position.x as int
}

pub open spec fn sy(v: Vertex) -> int {
    v.transformed_position.y as int
}

/// Twice the signed area of a screen-space triangle, at squared
/// fixed-point scale.
pub open spec fn area_spec(v0: Vertex, v1: Vertex, v2: Vertex) -> int {
    edge_spec(sx(v0), sy(v0), sx(v1), sy(v1), sx(v2), sy(v2))
}

/// The three barycentric edge weights of integer pixel `(px, py)`,
/// corrected for triangle orientation so that inside means all three
/// non-negative.
pub open spec fn weight0(v0: Vertex, v1: Vertex, v2: Vertex, px: int, py: int) -> int {
    let w = edge_spec(sx(v1), sy(v1), sx(v2), sy(v2), px * FP_ONE, py * FP_ONE);
    if area_spec(v0, v1, v2) >= 0 {
        w
    } else {
        -w
    }
}

pub open spec fn weight1(v0: Vertex, v1: Vertex, v2: Vertex, px: int, py: int) -> int {
    let w = edge_spec(sx(v2), sy(v2), sx(v0), sy(v0), px * FP_ONE, py * FP_ONE);
    if area_spec(v0, v1, v2) >= 0 {
        w
    } else {
        -w
    }
}

pub open spec fn weight2(v0: Vertex, v1: Vertex, v2: Vertex, px: int, py: int) -> int {
    let w = edge_spec(sx(v0), sy(v0), sx(v1), sy(v1), px * FP_ONE, py * FP_ONE);
    if area_spec(v0, v1, v2) >= 0 {
        w
    } else {
        -w
    }
}

/// A pixel is covered when the triangle is not degenerate and all
/// three corrected weights are non-negative.
pub open spec fn covered_spec(v0: Vertex, v1: Vertex, v2: Vertex, px: int, py: int) -> bool {
    &&& area_spec(v0, v1, v2) != 0
    &&& weight0(v0, v1, v2, px, py) >= 0
    &&& weight1(v0, v1, v2, px, py) >= 0
    &&& weight2(v0, v1, v2, px, py) >= 0
}

/// The pixel range the rasterizer scans: the rounded-down bounding
/// box of the three screen positions.
pub open spec fn scan_xmin(v0: Vertex, v1: Vertex, v2: Vertex) -> int {
    min3(sx(v0), sx(v1), sx(v2)) / FP_ONE as int
}

pub open spec fn scan_xmax(v0: Vertex, v1: Vertex, v2: Vertex) -> int {
    max3(sx(v0), sx(v1), sx(v2)) / FP_ONE as int
}

pub open spec fn scan_ymin(v0: Vertex, v1: Vertex, v2: Vertex) -> int {
    min3(sy(v0), sy(v1), sy(v2)) / FP_ONE as int
}

pub open spec fn scan_ymax(v0: Vertex, v1: Vertex, v2: Vertex) -> int {
    max3(sy(v0), sy(v1), sy(v2)) / FP_ONE as int
}

pub open spec fn in_scan(v0: Vertex, v1: Vertex, v2: Vertex, px: int, py: int) -> bool {
    &&& scan_xmin(v0, v1, v2) <= px <= scan_xmax(v0, v1, v2)
    &&& scan_ymin(v0, v1, v2) <= py <= scan_ymax(v0, v1, v2)
}

pub open spec fn min3(a: int, b: int, c: int) -> int {
    if a <= b && a <= c {
        a
    } else if b <= c {
        b
    } else {
        c
    }
}

pub open spec fn max3(a: int, b: int, c: int) -> int {
    if a >= b && a >= c {
        a
    } else if b >= c {
        b
    } else {
        c
    }
}

/// Barycentric interpolation of one attribute: the weighted sum of
/// the three vertex values over the absolute doubled area.
pub open spec fn interp_spec(
    u0: int,
    u1: int,
    u2: int,
    a0: int,
    a1: int,
    a2: int,
    aa: int,
) -> int
    recommends
        aa > 0,
{
    tdiv(u0 * a0 + u1 * a1 + u2 * a2, aa)
}

/// The fragment the rasterizer emits for covered pixel `(px, py)`:
/// every attribute is the barycentric interpolation of the three
/// vertex attributes, linearly in screen space.
pub open spec fn frag_at(v0: Vertex, v1: Vertex, v2: Vertex, px: int, py: int) -> Fragment {
    let aa = iabs(area_spec(v0, v1, v2));
    let u0 = weight0(v0, v1, v2, px, py);
    let u1 = weight1(v0, v1, v2, px, py);
    let u2 = weight2(v0, v1, v2, px, py);
    Fragment {
        x: px as i64,
        y: py as i64,
        depth: interp_spec(
            u0,
            u1,
            u2,
            v0.transformed_position.z as int,
            v1.transformed_position.z as int,
            v2.transformed_position.z as int,
            aa,
        ) as i64,
        normal: Vec3 {
            x: interp_spec(u0, u1, u2, v0.transformed_normal.x as int, v1.transformed_normal.x as int, v2.transformed_normal.x as int, aa) as i64,
            y: interp_spec(u0, u1, u2, v0.transformed_normal.y as int, v1.transformed_normal.y as int, v2.transformed_normal.y as int, aa) as i64,
            z: interp_spec(u0, u1, u2, v0.transformed_normal.z as int, v1.transformed_normal.z as int, v2.transformed_normal.z as int, aa) as i64,
        },
        vertex_position: Vec3 {
            x: interp_spec(u0, u1, u2, v0.position.x as int, v1.position.x as int, v2.position.x as int, aa) as i64,
            y: interp_spec(u0, u1, u2, v0.position.y as int, v1.position.y as int, v2.position.y as int, aa) as i64,
            z: interp_spec(u0, u1, u2, v0.position.z as int, v1.position.z as int, v2.position.z as int, aa) as i64,
        },
        intensity: interp_spec(
            u0,
            u1,
            u2,
            v0.intensity as int,
            v1.intensity as int,
            v2.intensity as int,
            aa,
        ) as i64,
    }
}

/// The fragments of one pixel: a singleton when covered, else empty.
pub open spec fn cell_frags(v0: Vertex, v1: Vertex, v2: Vertex, px: int, py: int) -> Seq<Fragment> {
    if covered_spec(v0, v1, v2, px, py) {
        seq![frag_at(v0, v1, v2, px, py)]
    } else {
        Seq::empty()
    }
}

/// The fragments of row `py` over pixel columns `[x0, x)`, left to
/// right.
pub open spec fn row_frags(v0: Vertex, v1: Vertex, v2: Vertex, py: int, x0: int, x: int) -> Seq<
    Fragment,
>
    decreases x - x0,
{
    if x <= x0 {
        Seq::empty()
    } else {
        row_frags(v0, v1, v2, py, x0, x - 1) + cell_frags(v0, v1, v2, x - 1, py)
    }
}

/// The fragments of rows `[y0, y)` over pixel columns `[x0, x1]`, top
/// to bottom.
pub open spec fn rows_frags(
    v0: Vertex,
    v1: Vertex,
    v2: Vertex,
    y0: int,
    y: int,
    x0: int,
    x1: int,
) -> Seq<Fragment>
    decreases y - y0,
{
    if y <= y0 {
        Seq::empty()
    } else {
        rows_frags(v0, v1, v2, y0, y - 1, x0, x1) + row_frags(v0, v1, v2, y - 1, x0, x1 + 1)
    }
}

/// Exactly what `triangle` emits: the covered pixels of the scanned
/// bounding box in row-major order, nothing for a degenerate
/// triangle.
pub open spec fn tri_frags_spec(v0: Vertex, v1: Vertex, v2: Vertex) -> Seq<Fragment> {
    if area_spec(v0, v1, v2) == 0 {
        Seq::empty()
    } else {
        rows_frags(
            v0,
            v1,
            v2,
            scan_ymin(v0, v1, v2),
            scan_ymax(v0, v1, v2) + 1,
            scan_xmin(v0, v1, v2),
            scan_xmax(v0, v1, v2),
        )
    }
}

/// Some emitted fragment sits at pixel `(px, py)`.
pub open spec fn emitted(frs: Seq<Fragment>, px: int, py: int) -> bool {
    exists|i: int| 0 <= i < frs.len() && frs[i].x == px && frs[i].y == py
}

/// A vertex whose screen position lies exactly on an integer pixel.
pub open spec fn pixel_aligned(v: Vertex) -> bool {
    sx(v) % FP_ONE as int == 0 && sy(v) % FP_ONE as int == 0
}

/// The three edge weights of any point partition the doubled signed
/// area: they always sum to it exactly.
#[verifier::rlimit(100)]
pub proof fn lemma_weights_sum(v0: Vertex, v1: Vertex, v2: Vertex, px: int, py: int)
    ensures
        weight0(v0, v1, v2, px, py) + weight1(v0, v1, v2, px, py) + weight2(v0, v1, v2, px, py)
            == iabs(area_spec(v0, v1, v2)),
{
    let x0 = sx(v0);
    let y0 = sy(v0);
    let x1 = sx(v1);
    let y1 = sy(v1);
    let x2 = sx(v2);
    let y2 = sy(v2);
    let qx = px * FP_ONE as int;
    let qy = py * FP_ONE as int;
    assert((x2 - x1) * (qy - y1) - (y2 - y1) * (qx - x1) + ((x0 - x2) * (qy - y2) - (y0 - y2) * (
    qx - x2)) + ((x1 - x0) * (qy - y0) - (y1 - y0) * (qx - x0)) == (x1 - x0) * (y2 - y0) - (y1
        - y0) * (x2 - x0)) by (nonlinear_arith);
}

/// Covered pixels have each weight between zero and the doubled area:
/// the barycentric coordinates lie in `[0, 1]` and sum to one.
pub proof fn lemma_weights_in_range(v0: Vertex, v1: Vertex, v2: Vertex, px: int, py: int)
    requires
        covered_spec(v0, v1, v2, px, py),
    ensures
        0 <= weight0(v0, v1, v2, px, py) <= iabs(area_spec(v0, v1, v2)),
        0 <= weight1(v0, v1, v2, px, py) <= iabs(area_spec(v0, v1, v2)),
        0 <= weight2(v0, v1, v2, px, py) <= iabs(area_spec(v0, v1, v2)),
{
    lemma_weights_sum(v0, v1, v2, px, py);
}

/// At an aligned vertex the weights degenerate to the whole area and
/// two zeros, so the vertex's own pixel is covered.
proof fn lemma_vertex_covered(v0: Vertex, v1: Vertex, v2: Vertex)
    requires
        area_spec(v0, v1, v2) != 0,
        pixel_aligned(v0),
    ensures
        covered_spec(v0, v1, v2, sx(v0) / FP_ONE as int, sy(v0) / FP_ONE as int),
{
    let x0 = sx(v0);
    let y0 = sy(v0);
    let x1 = sx(v1);
    let y1 = sy(v1);
    let x2 = sx(v2);
    let y2 = sy(v2);
    let px = x0 / FP_ONE as int;
    let py = y0 / FP_ONE as int;
    assert(px * FP_ONE as int == x0) by {
        vstd::arithmetic::div_mod::lemma_fundamental_div_mod(x0, FP_ONE as int);
    }
    assert(py * FP_ONE as int == y0) by {
        vstd::arithmetic::div_mod::lemma_fundamental_div_mod(y0, FP_ONE as int);
    }
    assert(edge_spec(x1, y1, x2, y2, x0, y0) == edge_spec(x0, y0, x1, y1, x2, y2))
        by (nonlinear_arith);
    assert(edge_spec(x2, y2, x0, y0, x0, y0) == 0) by (nonlinear_arith);
    assert(edge_spec(x0, y0, x1, y1, x0, y0) == 0) by (nonlinear_arith);
}

/// Twice the cross product of two screen-space edges, exactly.
fn edge(ax: i64, ay: i64, bx: i64, by: i64, px: i64, py: i64) -> (r: i128)
    requires
        fp_ok(ax as int),
        fp_ok(ay as int),
        fp_ok(bx as int),
        fp_ok(by as int),
        fp_ok(px as int),
        fp_ok(py as int),
    ensures
        r == edge_spec(ax as int, ay as int, bx as int, by as int, px as int, py as int),
        iabs(r as int) <= 0x800000000000000000000,
{
    let dx: i128 = (bx as i128) - (ax as i128);
    let dy: i128 = (by as i128) - (ay as i128);
    let ex: i128 = (px as i128) - (ax as i128);
    let ey: i128 = (py as i128) - (ay as i128);
    proof {
        lemma_abs_mul_le(dx as int, ey as int, 0x20000000000, 0x20000000000);
        lemma_abs_mul_le(dy as int, ex as int, 0x20000000000, 0x20000000000);
    }
    dx * ey - dy * ex
}

/// Barycentric interpolation of one attribute across the triangle.
fn interp(u0: i128, u1: i128, u2: i128, a0: i64, a1: i64, a2: i64, aa: i128) -> (r: i64)
    requires
        0 <= u0,
        0 <= u1,
        0 <= u2,
        u0 + u1 + u2 == aa,
        0 < aa <= 0x800000000000000000000,
        fp_ok(a0 as int),
        fp_ok(a1 as int),
        fp_ok(a2 as int),
    ensures
        r == interp_spec(u0 as int, u1 as int, u2 as int, a0 as int, a1 as int, a2 as int, aa as int),
        fp_ok(r as int),
{
    proof {
        lemma_abs_mul_le(u0 as int, a0 as int, u0 as int, FP_LIM as int);
        lemma_abs_mul_le(u1 as int, a1 as int, u1 as int, FP_LIM as int);
        lemma_abs_mul_le(u2 as int, a2 as int, u2 as int, FP_LIM as int);
        vstd::arithmetic::mul::lemma_mul_is_distributive_add_other_way(
            FP_LIM as int,
            u0 as int,
            u1 as int,
        );
        vstd::arithmetic::mul::lemma_mul_is_distributive_add_other_way(
            FP_LIM as int,
            u0 as int + u1 as int,
            u2 as int,
        );
        lemma_abs_mul_le(aa as int, FP_LIM as int, 0x800000000000000000000, FP_LIM as int);
    }
    let num: i128 = u0 * (a0 as i128) + u1 * (a1 as i128) + u2 * (a2 as i128);
    proof {
        lemma_tdiv_bound(num as int, aa as int, FP_LIM as int);
    }
    let q: i128 = tdiv_i128(num, aa);
    q as i64
}

/// The rounded-down quotient by the fixed-point unit.
fn floor_div_unit(a: i64) -> (r: i64)
    requires
        fp_ok(a as int),
    ensures
        r == a as int / FP_ONE as int,
        -0x1000000 <= r <= 0x1000000,
{
    let m: i64 = floor_mod_i64(a, FP_ONE);
    let q: i64 = tdiv_i64(a - m, FP_ONE);
    proof {
        vstd::arithmetic::div_mod::lemma_fundamental_div_mod(a as int, FP_ONE as int);
        let k = a as int / FP_ONE as int;
        assert(a - m == FP_ONE as int * k);
        if k >= 0 {
            assert(tdiv(FP_ONE as int * k, FP_ONE as int) == k) by {
                vstd::arithmetic::mul::lemma_mul_is_commutative(FP_ONE as int, k);
                vstd::arithmetic::div_mod::lemma_div_by_multiple(k, FP_ONE as int);
            }
        } else {
            assert(tdiv(FP_ONE as int * k, FP_ONE as int) == k) by {
                assert(iabs(FP_ONE as int * k) == (-k) * FP_ONE as int) by (nonlinear_arith)
                    requires
                        k < 0,
                ;
                vstd::arithmetic::div_mod::lemma_div_by_multiple(-k, FP_ONE as int);
            }
        }
        assert(-0x1000000 <= k <= 0x1000000) by {
            vstd::arithmetic::div_mod::lemma_div_is_ordered(
                -(FP_LIM as int),
                a as int,
                FP_ONE as int,
            );
            vstd::arithmetic::div_mod::lemma_div_is_ordered(a as int, FP_LIM as int, FP_ONE as int);
        }
    }
    q
}

fn min3_exec(a: i64, b: i64, c: i64) -> (r: i64)
    ensures
        r == min3(a as int, b as int, c as int),
{
    if a <= b && a <= c {
        a
    } else if b <= c {
        b
    } else {
        c
    }
}

fn max3_exec(a: i64, b: i64, c: i64) -> (r: i64)
    ensures
        r == max3(a as int, b as int, c as int),
{
    if a >= b && a >= c {
        a
    } else if b >= c {
        b
    } else {
        c
    }
}

/// Rasterize one triangle of transformed vertices into its fragments.
///
/// - A degenerate (zero-area) triangle emits nothing.
/// - Every emitted fragment sits at a covered pixel of the scanned
///   bounding box and carries exactly the barycentric interpolation
///   of the vertex attributes.
/// - Every covered pixel of the scanned box is emitted.
/// - A non-degenerate triangle whose vertices sit on integer pixels
///   emits at least its own corner pixel.
#[verifier::loop_isolation(false)]
pub fn triangle(v0: &Vertex, v1: &Vertex, v2: &Vertex) -> (frags: Vec<Fragment>)
    requires
        v0.wf(),
        v1.wf(),
        v2.wf(),
    ensures
        frags@ == tri_frags_spec(*v0, *v1, *v2),
        area_spec(*v0, *v1, *v2) == 0 ==> frags@.len() == 0,
        forall|i: int|
            0 <= i < frags@.len() ==> {
                &&& covered_spec(*v0, *v1, *v2, #[trigger] frags@[i].x as int, frags@[i].y as int)
                &&& in_scan(*v0, *v1, *v2, frags@[i].x as int, frags@[i].y as int)
                &&& frags@[i] == frag_at(*v0, *v1, *v2, frags@[i].x as int, frags@[i].y as int)
                &&& frags@[i].wf()
            },
        forall|px: int, py: int|
            in_scan(*v0, *v1, *v2, px, py) && #[trigger] covered_spec(*v0, *v1, *v2, px, py)
                ==> emitted(frags@, px, py),
        area_spec(*v0, *v1, *v2) != 0 && pixel_aligned(*v0) ==> frags@.len() > 0,
{
    let p0 = v0.transformed_position;
    let p1 = v1.transformed_position;
    let p2 = v2.transformed_position;
    let area: i128 = edge(p0.x, p0.y, p1.x, p1.y, p2.x, p2.y);
    let mut frags: Vec<Fragment> = Vec::new();
    if area == 0 {
        proof {
            assert(frags@ =~= tri_frags_spec(*v0, *v1, *v2));
        }
        return frags;
    }
    let aa: i128 = if area >= 0 {
        area
    } else {
        -area
    };
    let xmin: i64 = floor_div_unit(min3_exec(p0.x, p1.x, p2.x));
    let xmax: i64 = floor_div_unit(max3_exec(p0.x, p1.x, p2.x));
    let ymin: i64 = floor_div_unit(min3_exec(p0.y, p1.y, p2.y));
    let ymax: i64 = floor_div_unit(max3_exec(p0.y, p1.y, p2.y));
    let mut py: i64 = ymin;
    while py <= ymax
        invariant
            ymin <= py <= ymax + 1,
            frags@ == rows_frags(*v0, *v1, *v2, ymin as int, py as int, xmin as int, xmax as int),
            forall|i: int|
                0 <= i < frags@.len() ==> {
                    &&& covered_spec(*v0, *v1, *v2, #[trigger] frags@[i].x as int, frags@[i].y as int)
                    &&& in_scan(*v0, *v1, *v2, frags@[i].x as int, frags@[i].y as int)
                    &&& frags@[i] == frag_at(*v0, *v1, *v2, frags@[i].x as int, frags@[i].y as int)
                    &&& frags@[i].wf()
                },
            forall|qx: int, qy: int|
                in_scan(*v0, *v1, *v2, qx, qy) && #[trigger] covered_spec(*v0, *v1, *v2, qx, qy)
                    && qy < py ==> emitted(frags@, qx, qy),
        decreases ymax + 1 - py,
    {
        let mut px: i64 = xmin;
        while px <= xmax
            invariant
                xmin <= px <= xmax + 1,
                ymin <= py <= ymax,
                frags@ == rows_frags(*v0, *v1, *v2, ymin as int, py as int, xmin as int, xmax as int)
                    + row_frags(*v0, *v1, *v2, py as int, xmin as int, px as int),
                forall|i: int|
                    0 <= i < frags@.len() ==> {
                        &&& covered_spec(*v0, *v1, *v2, #[trigger] frags@[i].x as int, frags@[i].y as int)
                        &&& in_scan(*v0, *v1, *v2, frags@[i].x as int, frags@[i].y as int)
                        &&& frags@[i] == frag_at(*v0, *v1, *v2, frags@[i].x as int, frags@[i].y as int)
                        &&& frags@[i].wf()
                    },
                forall|qx: int, qy: int|
                    in_scan(*v0, *v1, *v2, qx, qy) && #[trigger] covered_spec(*v0, *v1, *v2, qx, qy)
                        && (qy < py || (qy == py && qx < px)) ==> emitted(frags@, qx, qy),
            decreases xmax + 1 - px,
        {
            let pxf: i64 = px * FP_ONE;
            let pyf: i64 = py * FP_ONE;
            let w0: i128 = edge(p1.x, p1.y, p2.x, p2.y, pxf, pyf);
            let w1: i128 = edge(p2.x, p2.y, p0.x, p0.y, pxf, pyf);
            let w2: i128 = edge(p0.x, p0.y, p1.x, p1.y, pxf, pyf);
            let u0: i128 = if area >= 0 {
                w0
            } else {
                -w0
            };
            let u1: i128 = if area >= 0 {
                w1
            } else {
                -w1
            };
            let u2: i128 = if area >= 0 {
                w2
            } else {
                -w2
            };
            let ghost frags_before = frags@;
            proof {
                lemma_weights_sum(*v0, *v1, *v2, px as int, py as int);
                assert(u0 == weight0(*v0, *v1, *v2, px as int, py as int));
                assert(u1 == weight1(*v0, *v1, *v2, px as int, py as int));
                assert(u2 == weight2(*v0, *v1, *v2, px as int, py as int));
            }
            if u0 >= 0 && u1 >= 0 && u2 >= 0 {
                proof {
                    assert(u0 + u1 + u2 == aa);
                }
                let depth: i64 = interp(u0, u1, u2, p0.z, p1.z, p2.z, aa);
                let nx: i64 = interp(u0, u1, u2, v0.transformed_normal.x, v1.transformed_normal.x, v2.transformed_normal.x, aa);
                let ny: i64 = interp(u0, u1, u2, v0.transformed_normal.y, v1.transformed_normal.y, v2.transformed_normal.y, aa);
                let nz: i64 = interp(u0, u1, u2, v0.transformed_normal.z, v1.transformed_normal.z, v2.transformed_normal.z, aa);
                let vx: i64 = interp(u0, u1, u2, v0.position.x, v1.position.x, v2.position.x, aa);
                let vy: i64 = interp(u0, u1, u2, v0.position.y, v1.position.y, v2.position.y, aa);
                let vz: i64 = interp(u0, u1, u2, v0.position.z, v1.position.z, v2.position.z, aa);
                let inten: i64 = interp(u0, u1, u2, v0.intensity, v1.intensity, v2.intensity, aa);
                let f = Fragment {
                    x: px,
                    y: py,
                    depth,
                    normal: Vec3 { x: nx, y: ny, z: nz },
                    vertex_position: Vec3 { x: vx, y: vy, z: vz },
                    intensity: inten,
                };
                proof {
                    assert(f == frag_at(*v0, *v1, *v2, px as int, py as int));
                }
                frags.push(f);
            }
            proof {
                if u0 >= 0 && u1 >= 0 && u2 >= 0 {
                    assert(covered_spec(*v0, *v1, *v2, px as int, py as int));
                    assert(frags@ =~= frags_before + cell_frags(*v0, *v1, *v2, px as int, py as int));
                } else {
                    assert(!covered_spec(*v0, *v1, *v2, px as int, py as int));
                    assert(frags@ =~= frags_before + cell_frags(*v0, *v1, *v2, px as int, py as int));
                }
                assert(frags@ =~= rows_frags(
                    *v0,
                    *v1,
                    *v2,
                    ymin as int,
                    py as int,
                    xmin as int,
                    xmax as int,
                ) + row_frags(*v0, *v1, *v2, py as int, xmin as int, px as int + 1));
                assert forall|qx: int, qy: int|
                    in_scan(*v0, *v1, *v2, qx, qy) && #[trigger] covered_spec(*v0, *v1, *v2, qx, qy)
                        && (qy < py || (qy == py && qx < px + 1)) implies emitted(frags@, qx, qy) by {
                    if qy < py || (qy == py && qx < px) {
                        assert(emitted(frags_before, qx, qy));
                        let i = choose|i: int|
                            0 <= i < frags_before.len() && frags_before[i].x == qx
                                && frags_before[i].y == qy;
                        assert(frags@[i].x == qx && frags@[i].y == qy);
                    } else {
                        assert(qx == px && qy == py);
                        assert(frags@[frags@.len() - 1].x == qx);
                    }
                }
            }
            px = px + 1;
        }
        proof {
            assert(frags@ =~= rows_frags(
                *v0,
                *v1,
                *v2,
                ymin as int,
                py as int + 1,
                xmin as int,
                xmax as int,
            ));
        }
        py = py + 1;
    }
    proof {
        assert(frags@ =~= tri_frags_spec(*v0, *v1, *v2));
        if pixel_aligned(*v0) {
            lemma_vertex_covered(*v0, *v1, *v2);
            let cpx = sx(*v0) / FP_ONE as int;
            let cpy = sy(*v0) / FP_ONE as int;
            assert(in_scan(*v0, *v1, *v2, cpx, cpy)) by {
                vstd::arithmetic::div_mod::lemma_div_is_ordered(
                    min3(sx(*v0), sx(*v1), sx(*v2)),
                    sx(*v0),
                    FP_ONE as int,
                );
                vstd::arithmetic::div_mod::lemma_div_is_ordered(
                    sx(*v0),
                    max3(sx(*v0), sx(*v1), sx(*v2)),
                    FP_ONE as int,
                );
                vstd::arithmetic::div_mod::lemma_div_is_ordered(
                    min3(sy(*v0), sy(*v1), sy(*v2)),
                    sy(*v0),
                    FP_ONE as int,
                );
                vstd::arithmetic::div_mod::lemma_div_is_ordered(
                    sy(*v0),
                    max3(sy(*v0), sy(*v1), sy(*v2)),
                    FP_ONE as int,
                );
            }
            assert(emitted(frags@, cpx, cpy));
        }
    }
    frags
}

} // verus!
