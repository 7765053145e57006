//! What holds of projection and gamut adjustment for every triangle and point.

use crate::arith::{
    lemma_product_le_squares, lemma_round_div_bounds, lemma_round_div_exact,
    lemma_scaled_offset, lemma_square_of_product, lemma_two_squares,
};
use crate::colors::{
    adjusted, adjusted_for_model, foot_x_numerator, foot_y_numerator, gamut_a, gamut_b, gamut_c,
    gamut_class, line_offset, model_triangle, near_edge_line, near_line, nearest_on_triangle,
    projection, rounded_foot, side, squared_distance, triangle_contains, valid_triangle, Position,
    Triangle,
};
use vstd::arithmetic::mul::{
    lemma_mul_is_associative, lemma_mul_is_commutative, lemma_mul_is_distributive_add,
    lemma_mul_is_distributive_sub, lemma_mul_is_distributive_sub_other_way,
};
use vstd::prelude::*;

verus! {

/// `p` lies exactly on the line through `a` and `b`.
pub open spec fn on_line(p: Position, a: Position, b: Position) -> bool {
    line_offset(p, a, b) == 0
}

/// Seen from the other end of a segment, a point is on the other side.
pub proof fn lemma_side_reversed(p: Position, a: Position, b: Position)
    ensures
        side(p, b, a) == -side(p, a, b),
{
    lemma_mul_is_distributive_sub(p.x - b.x, a.y, b.y);
    lemma_mul_is_distributive_sub(a.x - b.x, p.y, b.y);
    lemma_mul_is_distributive_sub(p.x - a.x, b.y, a.y);
    lemma_mul_is_distributive_sub(b.x - a.x, p.y, a.y);
    lemma_mul_is_distributive_sub_other_way(a.y, p.x, b.x);
    lemma_mul_is_distributive_sub_other_way(b.y, p.x, b.x);
    lemma_mul_is_distributive_sub_other_way(p.y, a.x, b.x);
    lemma_mul_is_distributive_sub_other_way(b.y, a.x, b.x);
    lemma_mul_is_distributive_sub_other_way(b.y, p.x, a.x);
    lemma_mul_is_distributive_sub_other_way(a.y, p.x, a.x);
    lemma_mul_is_distributive_sub_other_way(p.y, b.x, a.x);
    lemma_mul_is_distributive_sub_other_way(a.y, b.x, a.x);
}

/// For a point that is on none of the three edge lines, it does not matter
/// in which sense the vertices of the triangle go round.
pub proof fn lemma_containment_ignores_winding(t: Triangle, p: Position)
    requires
        side(p, t.red, t.green) != 0,
        side(p, t.green, t.blue) != 0,
        side(p, t.blue, t.red) != 0,
    ensures
        triangle_contains(Triangle { red: t.red, green: t.blue, blue: t.green }, p)
            == triangle_contains(t, p),
{
    lemma_side_reversed(p, t.red, t.green);
    lemma_side_reversed(p, t.green, t.blue);
    lemma_side_reversed(p, t.blue, t.red);
}

/// The exact foot of the perpendicular lies on the line: its numerators,
/// taken relative to `a`, have no offset from the line.
pub proof fn lemma_foot_on_line(p: Position, a: Position, b: Position)
    ensures
        (b.y - a.y) * (foot_x_numerator(p, a, b) - a.x * squared_distance(a, b)) - (b.x - a.x) * (
        foot_y_numerator(p, a, b) - a.y * squared_distance(a, b)) == 0,
{
    let dx = b.x - a.x;
    let dy = b.y - a.y;
    let ux = p.x - a.x;
    let uy = p.y - a.y;
    let k = line_offset(p, a, b);
    let len = squared_distance(a, b);
    // dy * (ux * len - k * dy) - dx * (uy * len + k * dx)
    //     == (dy * ux - dx * uy) * len - k * (dy * dy + dx * dx)
    lemma_mul_is_distributive_sub(dy, p.x * len - k * dy, a.x * len);
    lemma_mul_is_distributive_sub(dy, p.x * len, k * dy);
    lemma_mul_is_distributive_sub(dx, p.y * len + k * dx, a.y * len);
    lemma_mul_is_distributive_add(dx, p.y * len, k * dx);
    lemma_scaled_offset(dy, dx, p.x, p.y, a.x, a.y, len);
    lemma_mul_is_associative(dy, k, dy);
    lemma_mul_is_commutative(dy, k);
    lemma_mul_is_associative(k, dy, dy);
    lemma_mul_is_associative(dx, k, dx);
    lemma_mul_is_commutative(dx, k);
    lemma_mul_is_associative(k, dx, dx);
    lemma_mul_is_distributive_add(k, dx * dx, dy * dy);
    lemma_mul_is_commutative(k, len);
}

/// The squared distance from `p` to the exact foot of the perpendicular is
/// `line_offset^2 / squared_distance(a, b)`: with both sides scaled by the
/// square of `squared_distance(a, b)`.
pub proof fn lemma_foot_distance(p: Position, a: Position, b: Position)
    ensures
        ({
            let len = squared_distance(a, b);
            let k = line_offset(p, a, b);
            let ex = p.x * len - foot_x_numerator(p, a, b);
            let ey = p.y * len - foot_y_numerator(p, a, b);
            ex * ex + ey * ey == (k * k) * len
        }),
{
    let dx = b.x - a.x;
    let dy = b.y - a.y;
    let len = squared_distance(a, b);
    let k = line_offset(p, a, b);
    lemma_square_of_product(k, dy);
    lemma_square_of_product(k, dx);
    lemma_mul_is_distributive_add(k * k, dx * dx, dy * dy);
}

/// No point of the line through `a` and `b` is nearer to `p` than the foot
/// of the perpendicular: its squared distance from `p` is at least
/// `line_offset^2 / squared_distance(a, b)`.
pub proof fn lemma_no_point_of_line_nearer(p: Position, a: Position, b: Position, g: Position)
    requires
        on_line(g, a, b),
    ensures
        squared_distance(p, g) * squared_distance(a, b) >= line_offset(p, a, b) * line_offset(
            p,
            a,
            b,
        ),
{
    let dx = b.x - a.x;
    let dy = b.y - a.y;
    let u = g.x - p.x;
    let v = g.y - p.y;
    let k = line_offset(p, a, b);
    assert(k == v * dx - u * dy) by {
        lemma_mul_is_distributive_sub(dy, p.x, a.x);
        lemma_mul_is_distributive_sub(dx, p.y, a.y);
        lemma_mul_is_distributive_sub(dy, g.x, a.x);
        lemma_mul_is_distributive_sub(dx, g.y, a.y);
        lemma_mul_is_distributive_sub(dy, g.x, p.x);
        lemma_mul_is_distributive_sub(dx, g.y, p.y);
        lemma_mul_is_commutative(v, dx);
        lemma_mul_is_commutative(u, dy);
    }
    // (u^2 + v^2) * (dx^2 + dy^2) == (u * dx + v * dy)^2 + (u * dy - v * dx)^2
    lemma_two_squares(u, v, dx, dy);
    let along = u * dx + v * dy;
    let across = u * dy - v * dx;
    lemma_product_le_squares(along, 0);
    assert(across * across == k * k) by (nonlinear_arith)
        requires
            across == -k,
    ;
}

/// The grid point nearest to the foot of the perpendicular is a grid point
/// of the line: its offset from the line, doubled, is at most `|dx| + |dy|` of
/// the segment.
pub proof fn lemma_rounded_foot_near_line(p: Position, a: Position, b: Position)
    requires
        a != b,
    ensures
        near_line(rounded_foot(p, a, b), a, b),
{
    let q = rounded_foot(p, a, b);
    let dx = b.x - a.x;
    let dy = b.y - a.y;
    let len = squared_distance(a, b);
    let nx = foot_x_numerator(p, a, b);
    let ny = foot_y_numerator(p, a, b);
    lemma_product_le_squares(dx, dy);
    assert(len > 0) by (nonlinear_arith)
        requires
            len == dx * dx + dy * dy,
            dx != 0 || dy != 0,
    ;
    lemma_round_div_bounds(nx, len);
    lemma_round_div_bounds(ny, len);
    lemma_foot_on_line(p, a, b);
    let ex = 2 * (q.x * len) - 2 * nx;
    let ey = 2 * (q.y * len) - 2 * ny;
    let lo = line_offset(q, a, b);
    assert(2 * (lo * len) == dy * ex - dx * ey) by {
        lemma_scaled_offset(dy, dx, q.x, q.y, a.x, a.y, len);
        lemma_mul_is_distributive_sub(dy, nx, a.x * len);
        lemma_mul_is_distributive_sub(dx, ny, a.y * len);
        lemma_mul_is_distributive_sub(dy, 2 * (q.x * len), 2 * nx);
        lemma_mul_is_distributive_sub(dx, 2 * (q.y * len), 2 * ny);
        lemma_mul_is_associative(dy, 2, q.x * len);
        lemma_mul_is_associative(dy, 2, nx);
        lemma_mul_is_associative(dx, 2, q.y * len);
        lemma_mul_is_associative(dx, 2, ny);
        lemma_mul_is_commutative(dy, 2);
        lemma_mul_is_commutative(dx, 2);
        lemma_mul_is_associative(2, dy, q.x * len);
        lemma_mul_is_associative(2, dy, nx);
        lemma_mul_is_associative(2, dx, q.y * len);
        lemma_mul_is_associative(2, dx, ny);
    }
    let adx = if dx < 0 { -dx } else { dx };
    let ady = if dy < 0 { -dy } else { dy };
    assert(-(ady * len) <= dy * ex <= ady * len) by (nonlinear_arith)
        requires
            -len <= ex <= len,
            ady == if dy < 0 { -dy } else { dy },
    ;
    assert(-(adx * len) <= dx * ey <= adx * len) by (nonlinear_arith)
        requires
            -len <= ey <= len,
            adx == if dx < 0 { -dx } else { dx },
    ;
    assert(-(adx + ady) <= 2 * lo <= adx + ady) by (nonlinear_arith)
        requires
            len > 0,
            2 * (lo * len) == dy * ex - dx * ey,
            -(ady * len) <= dy * ex <= ady * len,
            -(adx * len) <= dx * ey <= adx * len,
    ;
}

/// Where the foot of the perpendicular is itself a grid point, the grid
/// point nearest to it lies exactly on the line.
pub proof fn lemma_exact_foot_on_line(p: Position, a: Position, b: Position)
    requires
        a != b,
        foot_x_numerator(p, a, b) % squared_distance(a, b) == 0,
        foot_y_numerator(p, a, b) % squared_distance(a, b) == 0,
    ensures
        on_line(rounded_foot(p, a, b), a, b),
{
    let q = rounded_foot(p, a, b);
    let dx = b.x - a.x;
    let dy = b.y - a.y;
    let len = squared_distance(a, b);
    let nx = foot_x_numerator(p, a, b);
    let ny = foot_y_numerator(p, a, b);
    lemma_product_le_squares(dx, dy);
    assert(len > 0) by (nonlinear_arith)
        requires
            len == dx * dx + dy * dy,
            dx != 0 || dy != 0,
    ;
    vstd::arithmetic::div_mod::lemma_fundamental_div_mod(nx, len);
    vstd::arithmetic::div_mod::lemma_fundamental_div_mod(ny, len);
    assert(len * (nx / len) == (nx / len) * len) by (nonlinear_arith);
    assert(len * (ny / len) == (ny / len) * len) by (nonlinear_arith);
    lemma_round_div_exact(nx / len, len);
    lemma_round_div_exact(ny / len, len);
    assert(q.x * len == nx);
    assert(q.y * len == ny);
    lemma_foot_on_line(p, a, b);
    let lo = line_offset(q, a, b);
    assert(lo * len == 0) by {
        lemma_scaled_offset(dy, dx, q.x, q.y, a.x, a.y, len);
        lemma_mul_is_distributive_sub(dy, nx, a.x * len);
        lemma_mul_is_distributive_sub(dx, ny, a.y * len);
    }
    assert(lo == 0) by (nonlinear_arith)
        requires
            lo * len == 0,
            len > 0,
    ;
}

/// A projection is a grid point of the line.
pub proof fn lemma_projection_near_line(p: Position, a: Position, b: Position)
    requires
        a != b,
    ensures
        near_line(projection(p, a, b), a, b),
{
    lemma_rounded_foot_near_line(p, a, b);
}

/// Projecting a projection again changes nothing.
pub proof fn lemma_projection_idempotent(p: Position, a: Position, b: Position)
    requires
        a != b,
    ensures
        projection(projection(p, a, b), a, b) == projection(p, a, b),
{
    lemma_projection_near_line(p, a, b);
}

/// A point on the line is its own projection.
pub proof fn lemma_projection_fixes_line(q: Position, a: Position, b: Position)
    requires
        on_line(q, a, b),
    ensures
        projection(q, a, b) == q,
{
}

/// Two points at squared distance zero are the same point.
pub proof fn lemma_zero_distance(p: Position, q: Position)
    requires
        squared_distance(p, q) <= 0,
    ensures
        p == q,
{
    let dx = q.x - p.x;
    let dy = q.y - p.y;
    assert(dx == 0 && dy == 0) by (nonlinear_arith)
        requires
            dx * dx + dy * dy <= 0,
    ;
}

/// The nearest point on a triangle is one of the three projections on its
/// edge lines, and none of the three is nearer to `p`.
pub proof fn lemma_nearest_is_least(t: Triangle, p: Position)
    ensures
        ({
            let r = nearest_on_triangle(t, p);
            let first = projection(p, t.red, t.green);
            let second = projection(p, t.green, t.blue);
            let third = projection(p, t.blue, t.red);
            &&& r == first || r == second || r == third
            &&& squared_distance(p, r) <= squared_distance(p, first)
            &&& squared_distance(p, r) <= squared_distance(p, second)
            &&& squared_distance(p, r) <= squared_distance(p, third)
        }),
{
}

/// A grid point of an edge line is its own nearest point on the triangle.
pub proof fn lemma_near_is_nearest(t: Triangle, q: Position)
    requires
        near_edge_line(t, q),
    ensures
        nearest_on_triangle(t, q) == q,
{
    lemma_nearest_is_least(t, q);
    let r = nearest_on_triangle(t, q);
    lemma_product_le_squares(r.x - q.x, r.y - q.y);
    assert(squared_distance(q, q) == 0) by (nonlinear_arith);
    lemma_zero_distance(q, r);
}

/// An adjusted point is in the gamut or a grid point of the line of one of
/// its edges. It need not be near the edge itself: the lines are not cut off
/// at the vertices.
pub proof fn lemma_adjusted_in_or_near(t: Triangle, p: Position)
    requires
        valid_triangle(t),
    ensures
        triangle_contains(t, adjusted(t, p)) || near_edge_line(t, adjusted(t, p)),
{
    if !triangle_contains(t, p) {
        crate::colors::lemma_valid_triangle_edges(t);
        lemma_nearest_is_least(t, p);
        lemma_projection_near_line(p, t.red, t.green);
        lemma_projection_near_line(p, t.green, t.blue);
        lemma_projection_near_line(p, t.blue, t.red);
    }
}

/// Adjusting leaves a point as it is exactly when the gamut contains it or
/// it is a grid point of the line of an edge.
pub proof fn lemma_adjust_fixes(t: Triangle, q: Position)
    requires
        valid_triangle(t),
    ensures
        adjusted(t, q) == q <==> triangle_contains(t, q) || near_edge_line(t, q),
{
    if !triangle_contains(t, q) {
        if near_edge_line(t, q) {
            lemma_near_is_nearest(t, q);
        } else {
            lemma_adjusted_in_or_near(t, q);
        }
    }
}

/// Adjusting a second time changes nothing.
pub proof fn lemma_adjust_idempotent(t: Triangle, p: Position)
    requires
        valid_triangle(t),
    ensures
        adjusted(t, adjusted(t, p)) == adjusted(t, p),
{
    lemma_adjusted_in_or_near(t, p);
    lemma_adjust_fixes(t, adjusted(t, p));
}

/// Adjusting for a light model a second time changes nothing.
pub proof fn lemma_adjust_for_model_idempotent(model_id: Seq<char>, p: Position)
    ensures
        adjusted_for_model(model_id, adjusted_for_model(model_id, p)) == adjusted_for_model(
            model_id,
            p,
        ),
{
    lemma_predefined_gamuts_valid();
    match model_triangle(model_id) {
        Some(t) => {
            lemma_adjust_idempotent(t, p);
        },
        None => {},
    }
}

/// The three predefined gamuts are valid triangles.
pub proof fn lemma_predefined_gamuts_valid()
    ensures
        valid_triangle(gamut_a()),
        valid_triangle(gamut_b()),
        valid_triangle(gamut_c()),
{
    assert(side(gamut_a().red, gamut_a().green, gamut_a().blue) != 0) by (nonlinear_arith);
    assert(side(gamut_b().red, gamut_b().green, gamut_b().blue) != 0) by (nonlinear_arith);
    assert(side(gamut_c().red, gamut_c().green, gamut_c().blue) != 0) by (nonlinear_arith);
}

/// A model that is not listed leaves every chromaticity as it is.
pub proof fn lemma_unlisted_model_keeps_chromaticity(model_id: Seq<char>, p: Position)
    requires
        gamut_class(model_id) is None,
    ensures
        adjusted_for_model(model_id, p) == p,
{
}

} // verus!
