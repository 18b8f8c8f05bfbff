//! 4x4 transform matrices over exact rationals, in column-major layout:
//! the fourth column holds the translation. The orthographic projection
//! here is deliberately simplified — its translation column is the fixed
//! `(-1, 1, 0, 1)` rather than the textbook near/far-dependent terms — and
//! is reproduced exactly as the demo defines it.

use vstd::prelude::*;

use crate::rat::{q_add, q_eq, q_int, q_mul, q_wf, QVal, Rat};

verus! {

/// One column of a 4x4 matrix.
#[derive(Clone, Copy, Debug, PartialEq, Eq, Structural)]
pub struct Vec4 {
    pub x: Rat,
    pub y: Rat,
    pub z: Rat,
    pub w: Rat,
}

/// A 4x4 matrix as four columns: `c3` is the translation column.
#[derive(Clone, Copy, Debug, PartialEq, Eq, Structural)]
pub struct Mat4 {
    pub c0: Vec4,
    pub c1: Vec4,
    pub c2: Vec4,
    pub c3: Vec4,
}

/// The rational zero.
pub open spec fn rat_zero() -> Rat {
    Rat { num: 0, den: 1 }
}

/// The rational one.
pub open spec fn rat_one() -> Rat {
    Rat { num: 1, den: 1 }
}

/// The demo's orthographic projection of the box `[l,r] x [b,t] x [n,f]`:
/// diagonal scales `2/(r-l)`, `-2/(t-b)`, `-2/(f-n)` and the fixed
/// translation column `(-1, 1, 0, 1)`. The depth scale is kept with a
/// positive denominator whichever of `n`, `f` is larger.
pub open spec fn is_ortho(m: Mat4, l: int, r: int, b: int, t: int, n: int, f: int) -> bool {
    &&& m.c0.x.num == 2 && m.c0.x.den == r - l
    &&& m.c0.y == rat_zero() && m.c0.z == rat_zero() && m.c0.w == rat_zero()
    &&& m.c1.y.num == -2 && m.c1.y.den == t - b
    &&& m.c1.x == rat_zero() && m.c1.z == rat_zero() && m.c1.w == rat_zero()
    &&& (f > n ==> m.c2.z.num == -2 && m.c2.z.den == f - n)
    &&& (f < n ==> m.c2.z.num == 2 && m.c2.z.den == n - f)
    &&& m.c2.x == rat_zero() && m.c2.y == rat_zero() && m.c2.w == rat_zero()
    &&& m.c3.x == (Rat { num: -1i64, den: 1 }) && m.c3.y == rat_one()
    &&& m.c3.z == rat_zero() && m.c3.w == rat_one()
}

/// A uniform scale matrix: `s` on the x, y, z diagonal, one in the corner,
/// zero elsewhere.
pub open spec fn is_uniform_scale(m: Mat4, s: int) -> bool {
    &&& m.c0.x.num == s && m.c0.x.den == 1
    &&& m.c1.y.num == s && m.c1.y.den == 1
    &&& m.c2.z.num == s && m.c2.z.den == 1
    &&& m.c3.w == rat_one()
    &&& m.c0.y == rat_zero() && m.c0.z == rat_zero() && m.c0.w == rat_zero()
    &&& m.c1.x == rat_zero() && m.c1.z == rat_zero() && m.c1.w == rat_zero()
    &&& m.c2.x == rat_zero() && m.c2.y == rat_zero() && m.c2.w == rat_zero()
    &&& m.c3.x == rat_zero() && m.c3.y == rat_zero() && m.c3.z == rat_zero()
}

/// Builds the demo's orthographic projection matrix. The caller keeps
/// `left < right`, `bottom < top` and `near != far`, as the demo does; the
/// difference bounds only keep the exact differences inside `i64`.
pub fn ortho_projection(left: i64, right: i64, bottom: i64, top: i64, near: i64, far: i64) -> (m: Mat4)
    requires
        left < right,
        bottom < top,
        near != far,
        right - left <= i64::MAX,
        top - bottom <= i64::MAX,
        far - near <= i64::MAX,
        near - far <= i64::MAX,
    ensures
        is_ortho(m, left as int, right as int, bottom as int, top as int, near as int, far as int),
{
    let zero = Rat { num: 0, den: 1 };
    let one = Rat { num: 1, den: 1 };
    let m00 = Rat { num: 2, den: right - left };
    let m11 = Rat { num: -2, den: top - bottom };
    let m22 = if far > near {
        Rat { num: -2, den: far - near }
    } else {
        Rat { num: 2, den: near - far }
    };
    Mat4 {
        c0: Vec4 { x: m00, y: zero, z: zero, w: zero },
        c1: Vec4 { x: zero, y: m11, z: zero, w: zero },
        c2: Vec4 { x: zero, y: zero, z: m22, w: zero },
        c3: Vec4 { x: Rat { num: -1, den: 1 }, y: one, z: zero, w: one },
    }
}

/// Builds the uniform scale matrix with `scale` on the diagonal.
pub fn uniform_scale(scale: i64) -> (m: Mat4)
    ensures
        is_uniform_scale(m, scale as int),
{
    let zero = Rat { num: 0, den: 1 };
    let s = Rat { num: scale, den: 1 };
    Mat4 {
        c0: Vec4 { x: s, y: zero, z: zero, w: zero },
        c1: Vec4 { x: zero, y: s, z: zero, w: zero },
        c2: Vec4 { x: zero, y: zero, z: s, w: zero },
        c3: Vec4 { x: zero, y: zero, z: zero, w: Rat { num: 1, den: 1 } },
    }
}

/// Builds the identity matrix.
pub fn identity() -> (m: Mat4)
    ensures
        is_uniform_scale(m, 1),
{
    uniform_scale(1)
}

/// A point or direction as four rational values. Ghost-only.
pub struct QVec4 {
    pub x: QVal,
    pub y: QVal,
    pub z: QVal,
    pub w: QVal,
}

/// One row of a matrix-vector product: `a*p.x + b*p.y + c*p.z + d*p.w`.
pub open spec fn row_dot(a: QVal, b: QVal, c: QVal, d: QVal, p: QVec4) -> QVal {
    q_add(q_add(q_mul(a, p.x), q_mul(b, p.y)), q_add(q_mul(c, p.z), q_mul(d, p.w)))
}

/// The matrix applied to a point: each result component is the dot product
/// of the corresponding matrix row with the point.
pub open spec fn transform(m: Mat4, p: QVec4) -> QVec4 {
    QVec4 {
        x: row_dot(m.c0.x.q(), m.c1.x.q(), m.c2.x.q(), m.c3.x.q(), p),
        y: row_dot(m.c0.y.q(), m.c1.y.q(), m.c2.y.q(), m.c3.y.q(), p),
        z: row_dot(m.c0.z.q(), m.c1.z.q(), m.c2.z.q(), m.c3.z.q(), p),
        w: row_dot(m.c0.w.q(), m.c1.w.q(), m.c2.w.q(), m.c3.w.q(), p),
    }
}

/// Every component of the point has a positive denominator.
pub open spec fn q_vec_wf(p: QVec4) -> bool {
    q_wf(p.x) && q_wf(p.y) && q_wf(p.z) && q_wf(p.w)
}

/// A point on the world origin: x and y hold zero and w holds one, in any
/// representation; the depth is arbitrary.
pub open spec fn q_vec_on_origin(p: QVec4) -> bool {
    q_eq(p.x, q_int(0)) && q_eq(p.y, q_int(0)) && q_eq(p.w, q_int(1))
}

/// An orthographic matrix whose left and bottom bounds are zero maps any
/// point at `(0, 0)` — whatever its depth, with w = 1 — to the corner
/// `(-1, 1)` of normalized device coordinates. For a nonzero left bound
/// the fixed translation column no longer cancels the scaled x, so the
/// corner claim is stated for zero bounds only.
pub proof fn lemma_ortho_maps_corner(m: Mat4, r: int, t: int, n: int, f: int, p: QVec4)
    requires
        is_ortho(m, 0, r, 0, t, n, f),
        0 < r,
        0 < t,
        n != f,
        q_vec_wf(p),
        q_vec_on_origin(p),
    ensures
        q_eq(transform(m, p).x, q_int(-1)),
        q_eq(transform(m, p).y, q_int(1)),
{
    broadcast use vstd::arithmetic::mul::group_mul_basics;
    broadcast use vstd::arithmetic::mul::lemma_mul_is_commutative;

    let xd = p.x.den;
    let yd = p.y.den;
    let zd = p.z.den;
    let wn = p.w.num;
    let wd = p.w.den;
    assert(p.x.num == 0);
    assert(p.y.num == 0);
    assert(wn == wd);
    let tx = transform(m, p).x;
    let ty = transform(m, p).y;
    assert(tx.num == (-wn * zd) * ((r * xd) * yd) + 0);
    assert(tx.den == ((r * xd) * yd) * (zd * wd));
    assert(tx.num * 1 == -1 * tx.den) by (nonlinear_arith)
        requires
            tx.num == (-wn * zd) * ((r * xd) * yd) + 0,
            tx.den == ((r * xd) * yd) * (zd * wd),
            wn == wd,
    ;
    assert(ty.num == (wn * zd) * ((t * yd) * xd) + 0);
    assert(ty.den == ((t * yd) * xd) * (zd * wd));
    assert(ty.num * 1 == 1 * ty.den) by (nonlinear_arith)
        requires
            ty.num == (wn * zd) * ((t * yd) * xd) + 0,
            ty.den == ((t * yd) * xd) * (zd * wd),
            wn == wd,
    ;
}

/// A uniform scale matrix keeps a point on the world origin on it: zero x
/// and y stay zero, w stays one, and all denominators stay positive.
pub proof fn lemma_scale_keeps_origin(m: Mat4, sc: int, p: QVec4)
    requires
        is_uniform_scale(m, sc),
        q_vec_wf(p),
        q_vec_on_origin(p),
    ensures
        q_vec_wf(transform(m, p)),
        q_vec_on_origin(transform(m, p)),
{
    broadcast use vstd::arithmetic::mul::group_mul_basics;
    broadcast use vstd::arithmetic::mul::lemma_mul_is_commutative;

    let xd = p.x.den;
    let yd = p.y.den;
    let zd = p.z.den;
    let wn = p.w.num;
    let wd = p.w.den;
    assert(p.x.num == 0);
    assert(p.y.num == 0);
    assert(wn == wd);
    let q = transform(m, p);
    assert(1 <= xd * yd && 1 <= zd * wd && 1 <= (xd * yd) * (zd * wd)) by (nonlinear_arith)
        requires
            1 <= xd,
            1 <= yd,
            1 <= zd,
            1 <= wd,
    ;
    assert(q.x.num == (sc * 0) * ((1 * yd) * ((1 * zd) * (1 * wd))) + ((0 * zd) * (1 * wd) + (0
        * wn) * (1 * zd)) * ((1 * xd) * (1 * yd)));
    assert(q.x.num == 0);
    assert(q.y.num == 0);
    assert(q.w.num == (wn * zd) * (xd * yd) + 0);
    assert(q.w.den == (xd * yd) * (zd * wd));
    assert(q.w.num * 1 == 1 * q.w.den) by (nonlinear_arith)
        requires
            q.w.num == (wn * zd) * (xd * yd) + 0,
            q.w.den == (xd * yd) * (zd * wd),
            wn == wd,
    ;
}

/// Through the demo's whole vertex pipeline — identity model, uniform
/// scale view, orthographic projection with zero left and bottom bounds —
/// a world point at `(0, 0)` with w = 1 lands on the corner `(-1, 1)` of
/// normalized device coordinates, whatever its depth.
pub proof fn lemma_pipeline_maps_origin_to_corner(
    model: Mat4,
    view: Mat4,
    proj: Mat4,
    view_scale: int,
    r: int,
    t: int,
    n: int,
    f: int,
    p: QVec4,
)
    requires
        is_uniform_scale(model, 1),
        is_uniform_scale(view, view_scale),
        is_ortho(proj, 0, r, 0, t, n, f),
        0 < r,
        0 < t,
        n != f,
        q_vec_wf(p),
        q_vec_on_origin(p),
    ensures
        q_eq(transform(proj, transform(view, transform(model, p))).x, q_int(-1)),
        q_eq(transform(proj, transform(view, transform(model, p))).y, q_int(1)),
{
    lemma_scale_keeps_origin(model, 1, p);
    lemma_scale_keeps_origin(view, view_scale, transform(model, p));
    lemma_ortho_maps_corner(proj, r, t, n, f, transform(view, transform(model, p)));
}

/// The orthographic projection is deterministic: any two matrices that
/// satisfy its contract for the same bounds are equal.
pub proof fn lemma_ortho_deterministic(a: Mat4, b: Mat4, l: int, r: int, bo: int, t: int, n: int, f: int)
    requires
        is_ortho(a, l, r, bo, t, n, f),
        is_ortho(b, l, r, bo, t, n, f),
        n != f,
    ensures
        a == b,
{
}

} // verus!
