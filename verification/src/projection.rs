//! The orthographic projection of the display rectangle.
//!
//! The projection maps the logical display rectangle onto normalized device
//! coordinates: `x` from `[left, right]` to `[-1, 1]` and `y` from
//! `[top, bottom]` to `[1, -1]` (the UI origin is the top-left corner),
//! with depth fixed and no perspective term. Its entries are exact
//! fractions of the display coordinates; the shell divides them out when it
//! uploads the matrix.

use vstd::prelude::*;
use crate::draw_list::DrawData;

verus! {

/// An exact fraction `num / den` with machine-word parts.
#[derive(Clone, Copy, Debug, PartialEq, Eq, Structural)]
pub struct Rational {
    pub num: i64,
    pub den: i64,
}

/// A fraction over unbounded integers, for stating what the matrix does.
pub struct Frac {
    pub num: int,
    pub den: int,
}

/// The projection matrix, by its four position-dependent entries. The full
/// column-major 4-by-4 matrix is
/// `[[sx, 0, 0, 0], [0, sy, 0, 0], [0, 0, -1, 0], [tx, ty, 0, 1]]`
/// with `sx`, `sy` the scales and `tx`, `ty` the translations below.
#[derive(Clone, Copy, Debug, PartialEq, Eq, Structural)]
pub struct ProjectionMatrix {
    pub scale_x: Rational,
    pub scale_y: Rational,
    pub translate_x: Rational,
    pub translate_y: Rational,
}

pub open spec fn rat_frac(r: Rational) -> Frac {
    Frac { num: r.num as int, den: r.den as int }
}

pub open spec fn frac_mul_int(a: Frac, k: int) -> Frac {
    Frac { num: a.num * k, den: a.den }
}

pub open spec fn frac_add(a: Frac, b: Frac) -> Frac {
    Frac { num: a.num * b.den + b.num * a.den, den: a.den * b.den }
}

/// The fraction `a` is the integer `k`.
pub open spec fn frac_eq_int(a: Frac, k: int) -> bool {
    a.den != 0 && a.num == k * a.den
}

/// Where the matrix sends an `x` coordinate: `scale_x * x + translate_x`.
pub open spec fn ndc_x(m: ProjectionMatrix, x: int) -> Frac {
    frac_add(frac_mul_int(rat_frac(m.scale_x), x), rat_frac(m.translate_x))
}

/// Where the matrix sends a `y` coordinate: `scale_y * y + translate_y`.
pub open spec fn ndc_y(m: ProjectionMatrix, y: int) -> Frac {
    frac_add(frac_mul_int(rat_frac(m.scale_y), y), rat_frac(m.translate_y))
}

/// The orthographic matrix of a draw-list's display rectangle:
/// `scale_x = 2 / w`, `scale_y = -2 / h`, `translate_x = -(left + right) / w`,
/// `translate_y = (top + bottom) / h`.
pub open spec fn spec_projection(d: DrawData) -> ProjectionMatrix {
    ProjectionMatrix {
        scale_x: Rational { num: 2i64, den: d.display_w as i64 },
        scale_y: Rational { num: -2i64, den: d.display_h as i64 },
        translate_x: Rational {
            num: (-(2 * (d.display_x as int) + (d.display_w as int))) as i64,
            den: d.display_w as i64,
        },
        translate_y: Rational {
            num: (2 * (d.display_y as int) + (d.display_h as int)) as i64,
            den: d.display_h as i64,
        },
    }
}

/// A non-degenerate frame has a strictly positive display rectangle, since
/// the scale is non-negative.
pub proof fn lemma_nondegenerate_positive(d: DrawData)
    requires
        d.wf(),
        !d.degenerate(),
    ensures
        0 < d.display_w,
        0 < d.display_h,
        0 < d.scale_x,
        0 < d.scale_y,
{
    assert(0 < d.display_w && 0 < d.scale_x) by (nonlinear_arith)
        requires
            d.display_w * d.scale_x > 0,
            d.scale_x >= 0,
    ;
    assert(0 < d.display_h && 0 < d.scale_y) by (nonlinear_arith)
        requires
            d.display_h * d.scale_y > 0,
            d.scale_y >= 0,
    ;
}

/// Compute the projection matrix of a non-degenerate frame.
pub fn projection_matrix(d: &DrawData) -> (m: ProjectionMatrix)
    requires
        d.wf(),
        !d.degenerate(),
    ensures
        m == spec_projection(*d),
{
    proof {
        lemma_nondegenerate_positive(*d);
    }
    let tx: i64 = -(2 * (d.display_x as i64) + (d.display_w as i64));
    let ty: i64 = 2 * (d.display_y as i64) + (d.display_h as i64);
    ProjectionMatrix {
        scale_x: (Rational { num: 2, den: d.display_w as i64 }),
        scale_y: (Rational { num: -2, den: d.display_h as i64 }),
        translate_x: (Rational { num: tx, den: d.display_w as i64 }),
        translate_y: (Rational { num: ty, den: d.display_h as i64 }),
    }
}

/// Round trip of the display rectangle's corners: the projection sends
/// `left` to `-1` and `right` to `1` on the x axis, and `top` to `1` and
/// `bottom` to `-1` on the y axis, exactly.
pub proof fn lemma_projection_corners(d: DrawData)
    requires
        d.wf(),
        !d.degenerate(),
    ensures
        frac_eq_int(ndc_x(spec_projection(d), d.display_x as int), -1),
        frac_eq_int(ndc_x(spec_projection(d), d.display_x + d.display_w), 1),
        frac_eq_int(ndc_y(spec_projection(d), d.display_y as int), 1),
        frac_eq_int(ndc_y(spec_projection(d), d.display_y + d.display_h), -1),
{
    lemma_nondegenerate_positive(d);
    let l = d.display_x as int;
    let t = d.display_y as int;
    let w = d.display_w as int;
    let h = d.display_h as int;
    assert(2 * l * w + (-(2 * l + w)) * w == -1 * (w * w)) by (nonlinear_arith);
    assert(2 * (l + w) * w + (-(2 * l + w)) * w == 1 * (w * w)) by (nonlinear_arith);
    assert((-2) * t * h + (2 * t + h) * h == 1 * (h * h)) by (nonlinear_arith);
    assert((-2) * (t + h) * h + (2 * t + h) * h == -1 * (h * h)) by (nonlinear_arith);
    assert(w * w != 0) by (nonlinear_arith)
        requires
            w > 0,
    ;
    assert(h * h != 0) by (nonlinear_arith)
        requires
            h > 0,
    ;
}

} // verus!
