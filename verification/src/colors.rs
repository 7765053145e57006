//! Chromaticity points, triangular gamuts and the mapping of a point to the
//! nearest colour that a light can show.
//!
//! Coordinates are whole numbers of a fixed unit: the points are those of a
//! grid. The geometry does not depend on the unit; the predefined gamuts and
//! [`XY`] use ten-thousandths. A line has the grid points within half a unit
//! of it for its own, and a projection on a line is one of them: what has been
//! projected or adjusted once stays where it is when it is projected or
//! adjusted again.

use crate::arith::{
    floor_quotient, integer_sqrt, lemma_product_bound, lemma_product_le_squares,
    lemma_round_div_within, lemma_scaled_bound, nearest_quotient, round_div,
};
use crate::color_lemmas::lemma_chromaticity_in_range;
use crate::gamut_lemmas::{
    lemma_adjust_idempotent, lemma_adjusted_in_or_near, lemma_near_is_nearest,
};
use crate::gamma::{compressed_channel, gamma_compress, gamma_expand, linear_intensity};
use crate::text::{shortest_decimal, shortest_decimal_text, str_equal};
use vstd::prelude::*;

verus! {

/// Largest magnitude of a coordinate that the geometry accepts: 2^40.
pub const COORD_LIMIT: i64 = 0x100_0000_0000;

/// Largest magnitude of a coordinate between which distances are measured: 2^61.
pub const FAR_LIMIT: i64 = 0x2000_0000_0000_0000;

/// Why a conversion or a projection has no result.
#[derive(Debug, Clone, Copy, PartialEq, Eq, Structural)]
pub enum DomainError {
    /// The chromaticity has `y = 0`, so no luminance can be recovered.
    ZeroY,
    /// The two points that should span a line are the same point.
    DegenerateLine,
    /// The three vertices lie on one line: the triangle has no area.
    DegenerateGamut,
    /// A coordinate is beyond [`COORD_LIMIT`].
    OutOfRange,
}

/// A colour as three 8-bit channels.
#[derive(Debug, Clone, Copy, PartialEq, Eq, Structural)]
pub struct RGB {
    pub r: u8,
    pub g: u8,
    pub b: u8,
}

/// A chromaticity in ten-thousandths, with a brightness from 0 to 254.
#[derive(Debug, Clone, Copy, PartialEq, Eq, Structural)]
pub struct XY {
    pub x: i64,
    pub y: i64,
    pub brightness: u8,
}

/// One whole in the unit of [`XY`].
pub const CHROMATICITY_ONE: i64 = 10_000;

/// The highest brightness.
pub const BRIGHTNESS_MAX: u8 = 254;

/// The chromaticity given to black, which has none of its own: that of every
/// grey.
pub const NEUTRAL_X: i64 = 3227;

pub const NEUTRAL_Y: i64 = 3290;

/// The tristimulus values of linear intensities `r`, `g`, `b`; with the
/// intensities in millionths, in millionths of a millionth.
pub open spec fn tristimulus_x(r: int, g: int, b: int) -> int {
    664511 * r + 154324 * g + 162028 * b
}

pub open spec fn tristimulus_y(r: int, g: int, b: int) -> int {
    283881 * r + 668433 * g + 47685 * b
}

pub open spec fn tristimulus_z(r: int, g: int, b: int) -> int {
    88 * r + 72310 * g + 986039 * b
}

/// The sum of the three tristimulus values of a colour.
pub open spec fn tristimulus_sum(rgb: RGB) -> int {
    let r = linear_intensity(rgb.r as int);
    let g = linear_intensity(rgb.g as int);
    let b = linear_intensity(rgb.b as int);
    tristimulus_x(r, g, b) + tristimulus_y(r, g, b) + tristimulus_z(r, g, b)
}

/// All three channels are zero.
pub open spec fn is_black(rgb: RGB) -> bool {
    rgb.r == 0 && rgb.g == 0 && rgb.b == 0
}

/// The `x` of a colour: `X / (X + Y + Z)` in ten-thousandths, to the nearest;
/// for black, which has no such ratio, the neutral point.
pub open spec fn chromaticity_x(rgb: RGB) -> int {
    let r = linear_intensity(rgb.r as int);
    let g = linear_intensity(rgb.g as int);
    let b = linear_intensity(rgb.b as int);
    if is_black(rgb) {
        NEUTRAL_X as int
    } else {
        round_div(CHROMATICITY_ONE * tristimulus_x(r, g, b), tristimulus_sum(rgb))
    }
}

/// The `y` of a colour: `Y / (X + Y + Z)` in ten-thousandths, to the nearest;
/// for black the neutral point.
pub open spec fn chromaticity_y(rgb: RGB) -> int {
    let r = linear_intensity(rgb.r as int);
    let g = linear_intensity(rgb.g as int);
    let b = linear_intensity(rgb.b as int);
    if is_black(rgb) {
        NEUTRAL_Y as int
    } else {
        round_div(CHROMATICITY_ONE * tristimulus_y(r, g, b), tristimulus_sum(rgb))
    }
}

/// The brightness of a colour: 254 times its luminance `Y`, to the nearest,
/// and no more than 254.
pub open spec fn brightness_of(rgb: RGB) -> int {
    let r = linear_intensity(rgb.r as int);
    let g = linear_intensity(rgb.g as int);
    let b = linear_intensity(rgb.b as int);
    let level = round_div(BRIGHTNESS_MAX * tristimulus_y(r, g, b), 1_000_000_000_000);
    if level > BRIGHTNESS_MAX {
        BRIGHTNESS_MAX as int
    } else {
        level
    }
}

/// `n / d` rounded down, for a divisor of either sign.
pub open spec fn floor_ratio(n: int, d: int) -> int {
    if d > 0 {
        n / d
    } else {
        (-n) / (-d)
    }
}

/// The linear intensity of the red channel of a chromaticity with brightness,
/// in millionths, rounded down. The luminance is `brightness / 254`, and `X`
/// and `Z` follow from it by `x / y` and `(1 - x - y) / y`.
pub open spec fn linear_red(xy: XY) -> int {
    let z = CHROMATICITY_ONE - xy.x - xy.y;
    floor_ratio(
        xy.brightness * (1656492 * xy.x - 354851 * xy.y - 255038 * z),
        BRIGHTNESS_MAX * xy.y,
    )
}

/// The linear intensity of the green channel, as [`linear_red`].
pub open spec fn linear_green(xy: XY) -> int {
    let z = CHROMATICITY_ONE - xy.x - xy.y;
    floor_ratio(
        xy.brightness * (-707196 * xy.x + 1655397 * xy.y + 36152 * z),
        BRIGHTNESS_MAX * xy.y,
    )
}

/// The linear intensity of the blue channel, as [`linear_red`].
pub open spec fn linear_blue(xy: XY) -> int {
    let z = CHROMATICITY_ONE - xy.x - xy.y;
    floor_ratio(
        xy.brightness * (51713 * xy.x - 121364 * xy.y + 1011530 * z),
        BRIGHTNESS_MAX * xy.y,
    )
}

/// The channel value of `floor_ratio` of a weighted sum of `x`, `y` and
/// `z = 10000 - x - y`, times the brightness, over 254 times `y`.
fn channel_from(xy: &XY, wx: i64, wy: i64, wz: i64) -> (c: u8)
    requires
        xy.y != 0,
        -0x20_0000 <= wx <= 0x20_0000,
        -0x20_0000 <= wy <= 0x20_0000,
        -0x20_0000 <= wz <= 0x20_0000,
    ensures
        c == compressed_channel(
            floor_ratio(
                xy.brightness * (wx * xy.x + wy * xy.y + wz * (CHROMATICITY_ONE - xy.x - xy.y)),
                BRIGHTNESS_MAX * xy.y,
            ),
        ),
{
    let x: i128 = xy.x as i128;
    let y: i128 = xy.y as i128;
    let z: i128 = CHROMATICITY_ONE as i128 - x - y;
    proof {
        lemma_product_bound(wx as int, x as int, 0x20_0000, 0x8000_0000_0000_0000);
        lemma_product_bound(wy as int, y as int, 0x20_0000, 0x8000_0000_0000_0000);
        lemma_product_bound(wz as int, z as int, 0x20_0000, 0x2_0000_0000_0000_0000);
    }
    let inner: i128 = wx as i128 * x + wy as i128 * y + wz as i128 * z;
    proof {
        lemma_product_bound(
            xy.brightness as int,
            inner as int,
            255,
            0x80_0000_0000_0000_0000_0000int,
        );
    }
    let n: i128 = xy.brightness as i128 * inner;
    let d: i128 = BRIGHTNESS_MAX as i128 * y;
    let v: i128 = if d > 0 {
        floor_quotient(n, d)
    } else {
        floor_quotient(-n, -d)
    };
    gamma_compress(v)
}

impl RGB {
    /// The colour of a chromaticity with brightness. There is none where
    /// `y` is zero.
    pub fn from_xy(xy: XY) -> (r: Result<RGB, DomainError>)
        ensures
            xy.y == 0 ==> r == Err::<RGB, DomainError>(DomainError::ZeroY),
            xy.y != 0 ==> r == Ok::<RGB, DomainError>(
                RGB {
                    r: compressed_channel(linear_red(xy)) as u8,
                    g: compressed_channel(linear_green(xy)) as u8,
                    b: compressed_channel(linear_blue(xy)) as u8,
                },
            ),
    {
        if xy.y == 0 {
            return Err(DomainError::ZeroY);
        }
        let r = channel_from(&xy, 1656492, -354851, -255038);
        let g = channel_from(&xy, -707196, 1655397, 36152);
        let b = channel_from(&xy, 51713, -121364, 1011530);
        Ok(RGB { r, g, b })
    }
}

/// A position in the plane with unbounded coordinates: the model of
/// [`GamutPoint`].
pub struct Position {
    pub x: int,
    pub y: int,
}

/// A point of the chromaticity plane.
#[derive(Debug, Clone, Copy, PartialEq, Eq, Structural)]
pub struct GamutPoint {
    pub x: i64,
    pub y: i64,
}

impl View for GamutPoint {
    type V = Position;

    open spec fn view(&self) -> Position {
        Position { x: self.x as int, y: self.y as int }
    }
}

/// Both coordinates are within `limit` of zero.
pub open spec fn within(p: Position, limit: int) -> bool {
    &&& -limit <= p.x <= limit
    &&& -limit <= p.y <= limit
}

/// Both coordinates are within [`COORD_LIMIT`] of zero.
pub open spec fn within_limit(p: Position) -> bool {
    within(p, COORD_LIMIT as int)
}

/// Twice the signed area of the triangle `p`, `a`, `b`: negative on one side of
/// the line through `a` and `b`, positive on the other, zero on the line.
pub open spec fn side(p: Position, a: Position, b: Position) -> int {
    (p.x - b.x) * (a.y - b.y) - (a.x - b.x) * (p.y - b.y)
}

/// `(b - a)` crossed with `(p - a)`: zero exactly when `p` is on the line
/// through `a` and `b`.
pub open spec fn line_offset(p: Position, a: Position, b: Position) -> int {
    (b.y - a.y) * (p.x - a.x) - (b.x - a.x) * (p.y - a.y)
}

/// The squared length of the segment from `a` to `b`.
pub open spec fn squared_distance(a: Position, b: Position) -> int {
    (b.x - a.x) * (b.x - a.x) + (b.y - a.y) * (b.y - a.y)
}

/// The foot of the perpendicular from `p` on the line through `a` and `b` is
/// `(foot_x_numerator / squared_distance(a, b), foot_y_numerator / squared_distance(a, b))`.
pub open spec fn foot_x_numerator(p: Position, a: Position, b: Position) -> int {
    p.x * squared_distance(a, b) - line_offset(p, a, b) * (b.y - a.y)
}

pub open spec fn foot_y_numerator(p: Position, a: Position, b: Position) -> int {
    p.y * squared_distance(a, b) + line_offset(p, a, b) * (b.x - a.x)
}

/// The grid point nearest to the foot of the perpendicular from `p` on the
/// line through `a` and `b` (not confined to the segment between them).
pub open spec fn rounded_foot(p: Position, a: Position, b: Position) -> Position {
    Position {
        x: round_div(foot_x_numerator(p, a, b), squared_distance(a, b)),
        y: round_div(foot_y_numerator(p, a, b), squared_distance(a, b)),
    }
}

/// `p` is a grid point of the line through `a` and `b`: the line passes
/// within half a unit of `p` in each coordinate, so that a point of the line
/// has `p` as its nearest grid point. The points exactly on the line are
/// among them.
pub open spec fn near_line(p: Position, a: Position, b: Position) -> bool {
    let dx = b.x - a.x;
    let dy = b.y - a.y;
    let reach = (if dx < 0 {
        -dx
    } else {
        dx
    }) + (if dy < 0 {
        -dy
    } else {
        dy
    });
    -reach <= 2 * line_offset(p, a, b) <= reach
}

/// The projection of `p` on the line through `a` and `b`, as a grid point:
/// `p` itself where it is a grid point of the line, else the grid point
/// nearest to the foot of the perpendicular. The line is not cut off at `a`
/// and `b`.
pub open spec fn projection(p: Position, a: Position, b: Position) -> Position {
    if near_line(p, a, b) {
        p
    } else {
        rounded_foot(p, a, b)
    }
}

/// Three vertices in the plane: the model of [`ColorGamut`].
pub struct Triangle {
    pub red: Position,
    pub green: Position,
    pub blue: Position,
}

/// A triangle that the geometry can work on: its vertices are within
/// [`COORD_LIMIT`] and do not lie on one line.
pub open spec fn valid_triangle(t: Triangle) -> bool {
    &&& within_limit(t.red)
    &&& within_limit(t.green)
    &&& within_limit(t.blue)
    &&& side(t.red, t.green, t.blue) != 0
}

/// `p` lies on the same side of the three directed edges red-green,
/// green-blue and blue-red: inside `t`, or on those parts of its boundary that
/// count to the same side.
pub open spec fn triangle_contains(t: Triangle, p: Position) -> bool {
    let b1 = side(p, t.red, t.green) < 0;
    let b2 = side(p, t.green, t.blue) < 0;
    let b3 = side(p, t.blue, t.red) < 0;
    b1 == b2 && b2 == b3
}

/// Of the projections of `p` on the lines through the three edges, the one
/// nearest to `p`; of equally near ones the first in the order red-green,
/// green-blue, blue-red.
pub open spec fn nearest_on_triangle(t: Triangle, p: Position) -> Position {
    let first = projection(p, t.red, t.green);
    let second = projection(p, t.green, t.blue);
    let third = projection(p, t.blue, t.red);
    let to_first = squared_distance(p, first);
    let to_second = squared_distance(p, second);
    let to_third = squared_distance(p, third);
    if to_first <= to_second && to_first <= to_third {
        first
    } else if to_second <= to_third {
        second
    } else {
        third
    }
}

/// `p` is a grid point of the line through one of the edges of `t`.
pub open spec fn near_edge_line(t: Triangle, p: Position) -> bool {
    near_line(p, t.red, t.green) || near_line(p, t.green, t.blue) || near_line(p, t.blue, t.red)
}

/// The adjustment of `p` can be computed: `p` is within [`COORD_LIMIT`], or
/// it stays as it is, being in `t` or a grid point of an edge line.
pub open spec fn adjustable(t: Triangle, p: Position) -> bool {
    within_limit(p) || triangle_contains(t, p) || near_edge_line(t, p)
}

/// `p` itself where `t` contains it, else the nearest projection on an edge
/// line.
pub open spec fn adjusted(t: Triangle, p: Position) -> Position {
    if triangle_contains(t, p) {
        p
    } else {
        nearest_on_triangle(t, p)
    }
}

/// The numerators of the foot of a perpendicular are at most five times
/// [`COORD_LIMIT`] times the squared length of the segment, so a projection
/// stays within five times the limit.
pub proof fn lemma_projection_within(p: Position, a: Position, b: Position)
    requires
        within_limit(p),
        within_limit(a),
        within_limit(b),
        a != b,
    ensures
        squared_distance(a, b) > 0,
        -(5 * COORD_LIMIT * squared_distance(a, b)) <= foot_x_numerator(p, a, b) <= 5
            * COORD_LIMIT * squared_distance(a, b),
        -(5 * COORD_LIMIT * squared_distance(a, b)) <= foot_y_numerator(p, a, b) <= 5
            * COORD_LIMIT * squared_distance(a, b),
        -5 * COORD_LIMIT <= rounded_foot(p, a, b).x <= 5 * COORD_LIMIT,
        -5 * COORD_LIMIT <= rounded_foot(p, a, b).y <= 5 * COORD_LIMIT,
        -5 * COORD_LIMIT <= projection(p, a, b).x <= 5 * COORD_LIMIT,
        -5 * COORD_LIMIT <= projection(p, a, b).y <= 5 * COORD_LIMIT,
{
    let dx = b.x - a.x;
    let dy = b.y - a.y;
    let ux = p.x - a.x;
    let uy = p.y - a.y;
    let len = squared_distance(a, b);
    let lim = COORD_LIMIT as int;
    lemma_product_le_squares(dx, dy);
    assert(len == dx * dx + dy * dy);
    assert(len > 0) by (nonlinear_arith)
        requires
            len == dx * dx + dy * dy,
            dx != 0 || dy != 0,
    ;
    // line_offset * dy == dy * dy * ux - dx * dy * uy
    lemma_scaled_bound(ux, 2 * lim, dy * dy);
    lemma_scaled_bound(uy, 2 * lim, dx * dx);
    if dx * dy >= 0 {
        lemma_scaled_bound(uy, 2 * lim, dx * dy);
        lemma_scaled_bound(ux, 2 * lim, dx * dy);
    } else {
        lemma_scaled_bound(uy, 2 * lim, -(dx * dy));
        lemma_scaled_bound(ux, 2 * lim, -(dx * dy));
    }
    lemma_scaled_bound(p.x, lim, len);
    lemma_scaled_bound(p.y, lim, len);
    assert(line_offset(p, a, b) * dy == ux * (dy * dy) - uy * (dx * dy)) by (nonlinear_arith)
        requires
            line_offset(p, a, b) == dy * ux - dx * uy,
    ;
    assert(line_offset(p, a, b) * dx == ux * (dx * dy) - uy * (dx * dx)) by (nonlinear_arith)
        requires
            line_offset(p, a, b) == dy * ux - dx * uy,
    ;
    assert((2 * lim) * (dy * dy) + (2 * lim) * (dx * dx) == 2 * lim * len) by (nonlinear_arith)
        requires
            len == dx * dx + dy * dy,
    ;
    assert(uy * -(dx * dy) == -(uy * (dx * dy))) by (nonlinear_arith);
    assert(ux * -(dx * dy) == -(ux * (dx * dy))) by (nonlinear_arith);
    assert((2 * lim) * -(dx * dy) == -((2 * lim) * (dx * dy))) by (nonlinear_arith);
    assert((2 * lim) * (dx * dy) <= (2 * lim) * len && -((2 * lim) * (dx * dy)) <= (2 * lim)
        * len) by (nonlinear_arith)
        requires
            -len <= dx * dy <= len,
            lim > 0,
    ;
    assert((2 * lim) * (dy * dy) <= (2 * lim) * len && (2 * lim) * (dx * dx) <= (2 * lim) * len)
        by (nonlinear_arith)
        requires
            len == dx * dx + dy * dy,
            0 <= dx * dx,
            0 <= dy * dy,
            lim > 0,
    ;
    assert(lim * len + (2 * lim) * len + (2 * lim) * len == 5 * lim * len) by (nonlinear_arith);
    assert(5 * lim * len == (5 * lim) * len) by (nonlinear_arith);
    lemma_round_div_within(foot_x_numerator(p, a, b), len, 5 * lim);
    lemma_round_div_within(foot_y_numerator(p, a, b), len, 5 * lim);
}

impl GamutPoint {
    /// The point with the coordinates `x` and `y`.
    pub fn new(x: i64, y: i64) -> (p: GamutPoint)
        ensures
            p.x == x,
            p.y == y,
    {
        GamutPoint { x, y }
    }

    /// Whether both coordinates are within `limit` of zero.
    pub fn is_within(&self, limit: i64) -> (r: bool)
        requires
            0 <= limit,
        ensures
            r == within(self@, limit as int),
    {
        -limit <= self.x && self.x <= limit && -limit <= self.y && self.y <= limit
    }

    /// Whether both coordinates are within [`COORD_LIMIT`] of zero.
    pub fn is_within_limit(&self) -> (r: bool)
        ensures
            r == within_limit(self@),
    {
        self.is_within(COORD_LIMIT)
    }

    /// On which side of the line through `a` and `b` this point lies.
    pub fn sign(&self, a: &GamutPoint, b: &GamutPoint) -> (r: bool)
        requires
            within_limit(a@),
            within_limit(b@),
        ensures
            r == (side(self@, a@, b@) < 0),
    {
        let ux: i128 = self.x as i128 - b.x as i128;
        let uy: i128 = self.y as i128 - b.y as i128;
        let vx: i128 = a.x as i128 - b.x as i128;
        let vy: i128 = a.y as i128 - b.y as i128;
        proof {
            lemma_product_bound(ux as int, vy as int, 0x1_0000_0000_0000_0000, 2 * COORD_LIMIT);
            lemma_product_bound(vx as int, uy as int, 2 * COORD_LIMIT, 0x1_0000_0000_0000_0000);
        }
        ux * vy - vx * uy < 0
    }

    /// Whether this point is a grid point of the line through `a` and `b`.
    pub fn is_near_line(&self, a: &GamutPoint, b: &GamutPoint) -> (r: bool)
        requires
            within_limit(a@),
            within_limit(b@),
        ensures
            r == near_line(self@, a@, b@),
    {
        let dx: i128 = b.x as i128 - a.x as i128;
        let dy: i128 = b.y as i128 - a.y as i128;
        let ux: i128 = self.x as i128 - a.x as i128;
        let uy: i128 = self.y as i128 - a.y as i128;
        proof {
            lemma_product_bound(dy as int, ux as int, 2 * COORD_LIMIT, 0x1_0000_0000_0000_0000);
            lemma_product_bound(dx as int, uy as int, 2 * COORD_LIMIT, 0x1_0000_0000_0000_0000);
        }
        let k: i128 = dy * ux - dx * uy;
        let reach: i128 = (if dx < 0 {
            -dx
        } else {
            dx
        }) + (if dy < 0 {
            -dy
        } else {
            dy
        });
        -reach <= 2 * k && 2 * k <= reach
    }

    /// The projection on the line through two points that differ.
    fn project(&self, a: &GamutPoint, b: &GamutPoint) -> (r: GamutPoint)
        requires
            within_limit(self@),
            within_limit(a@),
            within_limit(b@),
            a@ != b@,
        ensures
            r@ == projection(self@, a@, b@),
    {
        if self.is_near_line(a, b) {
            return *self;
        }
        let dx: i128 = b.x as i128 - a.x as i128;
        let dy: i128 = b.y as i128 - a.y as i128;
        let ux: i128 = self.x as i128 - a.x as i128;
        let uy: i128 = self.y as i128 - a.y as i128;
        proof {
            lemma_product_bound(dx as int, dx as int, 2 * COORD_LIMIT, 2 * COORD_LIMIT);
            lemma_product_bound(dy as int, dy as int, 2 * COORD_LIMIT, 2 * COORD_LIMIT);
            lemma_product_bound(dy as int, ux as int, 2 * COORD_LIMIT, 2 * COORD_LIMIT);
            lemma_product_bound(dx as int, uy as int, 2 * COORD_LIMIT, 2 * COORD_LIMIT);
            lemma_projection_within(self@, a@, b@);
        }
        let len: i128 = dx * dx + dy * dy;
        let k: i128 = dy * ux - dx * uy;
        proof {
            lemma_product_bound(
                self.x as int,
                len as int,
                COORD_LIMIT as int,
                8 * COORD_LIMIT * COORD_LIMIT,
            );
            lemma_product_bound(
                self.y as int,
                len as int,
                COORD_LIMIT as int,
                8 * COORD_LIMIT * COORD_LIMIT,
            );
            lemma_product_bound(
                k as int,
                dy as int,
                8 * COORD_LIMIT * COORD_LIMIT,
                2 * COORD_LIMIT,
            );
            lemma_product_bound(
                k as int,
                dx as int,
                8 * COORD_LIMIT * COORD_LIMIT,
                2 * COORD_LIMIT,
            );
        }
        let nx: i128 = self.x as i128 * len - k * dy;
        let ny: i128 = self.y as i128 * len + k * dx;
        let qx: i128 = nearest_quotient(nx, len);
        let qy: i128 = nearest_quotient(ny, len);
        GamutPoint { x: qx as i64, y: qy as i64 }
    }

    /// Projects this point on the line through `a` and `b`: a point that is
    /// a grid point of the line stays, any other goes to the grid point
    /// nearest to the foot of the perpendicular. The line is not cut off at `a`
    /// and `b`. There is no projection where `a` and `b` are one point, and
    /// none is computed for points beyond [`COORD_LIMIT`].
    pub fn closest_point_on_line(&self, a: &GamutPoint, b: &GamutPoint) -> (r: Result<
        GamutPoint,
        DomainError,
    >)
        ensures
            !(within_limit(self@) && within_limit(a@) && within_limit(b@)) ==> r == Err::<
                GamutPoint,
                DomainError,
            >(DomainError::OutOfRange),
            within_limit(self@) && within_limit(a@) && within_limit(b@) && a@ == b@ ==> r == Err::<
                GamutPoint,
                DomainError,
            >(DomainError::DegenerateLine),
            within_limit(self@) && within_limit(a@) && within_limit(b@) && a@ != b@ ==> r is Ok
                && r->Ok_0@ == projection(self@, a@, b@),
    {
        if !(self.is_within_limit() && a.is_within_limit() && b.is_within_limit()) {
            return Err(DomainError::OutOfRange);
        }
        if a.x == b.x && a.y == b.y {
            return Err(DomainError::DegenerateLine);
        }
        Ok(self.project(a, b))
    }

    /// The square of the distance to `p`.
    pub fn squared_distance_to(&self, p: &GamutPoint) -> (d: u128)
        requires
            within(self@, FAR_LIMIT as int),
            within(p@, FAR_LIMIT as int),
        ensures
            d == squared_distance(self@, p@),
    {
        let dx: i128 = p.x as i128 - self.x as i128;
        let dy: i128 = p.y as i128 - self.y as i128;
        proof {
            lemma_product_bound(dx as int, dx as int, 2 * FAR_LIMIT, 2 * FAR_LIMIT);
            lemma_product_bound(dy as int, dy as int, 2 * FAR_LIMIT, 2 * FAR_LIMIT);
            lemma_product_le_squares(dx as int, dy as int);
        }
        let sx: i128 = dx * dx;
        let sy: i128 = dy * dy;
        sx as u128 + sy as u128
    }

    /// The distance to `p`, rounded down to a whole unit.
    pub fn distance_to(&self, p: &GamutPoint) -> (d: u64)
        requires
            within(self@, FAR_LIMIT as int),
            within(p@, FAR_LIMIT as int),
        ensures
            d * d <= squared_distance(self@, p@) < (d + 1) * (d + 1),
    {
        integer_sqrt(self.squared_distance_to(p))
    }
}

/// The triangle of chromaticities that a light can show.
#[derive(Debug, Clone, Copy, PartialEq, Eq)]
pub struct ColorGamut {
    red: GamutPoint,
    green: GamutPoint,
    blue: GamutPoint,
}

impl View for ColorGamut {
    type V = Triangle;

    closed spec fn view(&self) -> Triangle {
        Triangle { red: self.red@, green: self.green@, blue: self.blue@ }
    }
}

/// A triangle with a vertex twice has no area.
pub proof fn lemma_valid_triangle_edges(t: Triangle)
    requires
        valid_triangle(t),
    ensures
        t.red != t.green,
        t.green != t.blue,
        t.blue != t.red,
{
    if t.red == t.green {
        assert(side(t.red, t.green, t.blue) == 0) by (nonlinear_arith)
            requires
                t.red.x == t.green.x,
                t.red.y == t.green.y,
        ;
    }
    if t.green == t.blue {
        assert(side(t.red, t.green, t.blue) == 0) by (nonlinear_arith)
            requires
                t.green.x == t.blue.x,
                t.green.y == t.blue.y,
        ;
    }
    if t.blue == t.red {
        assert(side(t.red, t.green, t.blue) == 0) by (nonlinear_arith)
            requires
                t.red.x == t.blue.x,
                t.red.y == t.blue.y,
        ;
    }
}

impl ColorGamut {
    #[verifier::type_invariant]
    spec fn well_formed(self) -> bool {
        valid_triangle(self@)
    }

    /// A gamut with the given vertices. Vertices beyond [`COORD_LIMIT`] and
    /// triangles without area are refused.
    pub fn new(red: GamutPoint, green: GamutPoint, blue: GamutPoint) -> (r: Result<
        ColorGamut,
        DomainError,
    >)
        ensures
            !(within_limit(red@) && within_limit(green@) && within_limit(blue@)) ==> r == Err::<
                ColorGamut,
                DomainError,
            >(DomainError::OutOfRange),
            within_limit(red@) && within_limit(green@) && within_limit(blue@) && side(
                red@,
                green@,
                blue@,
            ) == 0 ==> r == Err::<ColorGamut, DomainError>(DomainError::DegenerateGamut),
            valid_triangle(Triangle { red: red@, green: green@, blue: blue@ }) ==> r is Ok
                && r->Ok_0@ == (Triangle { red: red@, green: green@, blue: blue@ }),
    {
        if !(red.is_within_limit() && green.is_within_limit() && blue.is_within_limit()) {
            return Err(DomainError::OutOfRange);
        }
        let ux: i128 = red.x as i128 - blue.x as i128;
        let uy: i128 = red.y as i128 - blue.y as i128;
        let vx: i128 = green.x as i128 - blue.x as i128;
        let vy: i128 = green.y as i128 - blue.y as i128;
        proof {
            lemma_product_bound(ux as int, vy as int, 2 * COORD_LIMIT, 2 * COORD_LIMIT);
            lemma_product_bound(vx as int, uy as int, 2 * COORD_LIMIT, 2 * COORD_LIMIT);
        }
        if ux * vy - vx * uy == 0 {
            return Err(DomainError::DegenerateGamut);
        }
        Ok(ColorGamut { red, green, blue })
    }

    pub fn red(&self) -> (p: GamutPoint)
        ensures
            p@ == self@.red,
    {
        self.red
    }

    pub fn green(&self) -> (p: GamutPoint)
        ensures
            p@ == self@.green,
    {
        self.green
    }

    pub fn blue(&self) -> (p: GamutPoint)
        ensures
            p@ == self@.blue,
    {
        self.blue
    }

    /// Whether the gamut contains `p`.
    pub fn point_in_gamut(&self, p: &GamutPoint) -> (r: bool)
        ensures
            r == triangle_contains(self@, p@),
    {
        proof {
            use_type_invariant(self);
        }
        let b1 = p.sign(&self.red, &self.green);
        let b2 = p.sign(&self.green, &self.blue);
        let b3 = p.sign(&self.blue, &self.red);
        (b1 == b2) && (b2 == b3)
    }

    /// Whether `p` is a grid point of the line through one of the edges.
    pub fn is_near_edge_line(&self, p: &GamutPoint) -> (r: bool)
        ensures
            r == near_edge_line(self@, p@),
    {
        proof {
            use_type_invariant(self);
        }
        p.is_near_line(&self.red, &self.green) || p.is_near_line(&self.green, &self.blue)
            || p.is_near_line(&self.blue, &self.red)
    }

    /// Whether the adjustment of `p` can be computed.
    pub fn is_adjustable(&self, p: &GamutPoint) -> (r: bool)
        ensures
            r == adjustable(self@, p@),
    {
        p.is_within_limit() || self.point_in_gamut(p) || self.is_near_edge_line(p)
    }

    /// Of the projections of `p` on the three edge lines, the one nearest
    /// to `p`; of equally near ones the first in the order red-green,
    /// green-blue, blue-red.
    pub fn closest_point(&self, p: &GamutPoint) -> (r: GamutPoint)
        requires
            within_limit(p@),
        ensures
            r@ == nearest_on_triangle(self@, p@),
    {
        proof {
            use_type_invariant(self);
            lemma_valid_triangle_edges(self@);
            lemma_projection_within(p@, self@.red, self@.green);
            lemma_projection_within(p@, self@.green, self@.blue);
            lemma_projection_within(p@, self@.blue, self@.red);
        }
        let proj1 = p.project(&self.red, &self.green);
        let proj2 = p.project(&self.green, &self.blue);
        let proj3 = p.project(&self.blue, &self.red);
        let dist1 = p.squared_distance_to(&proj1);
        let dist2 = p.squared_distance_to(&proj2);
        let dist3 = p.squared_distance_to(&proj3);
        if dist1 <= dist2 && dist1 <= dist3 {
            proj1
        } else if dist2 <= dist3 {
            proj2
        } else {
            proj3
        }
    }
}

/// The gamut of the first generation of colour lights (class `'A'`), in
/// ten-thousandths.
pub fn color_gamut_a() -> (g: ColorGamut)
    ensures
        g@ == gamut_a(),
{
    ColorGamut {
        red: GamutPoint { x: 7040, y: 2960 },
        green: GamutPoint { x: 2151, y: 7106 },
        blue: GamutPoint { x: 1380, y: 800 },
    }
}

/// The gamut of class `'B'`, in ten-thousandths.
pub fn color_gamut_b() -> (g: ColorGamut)
    ensures
        g@ == gamut_b(),
{
    ColorGamut {
        red: GamutPoint { x: 6750, y: 3220 },
        green: GamutPoint { x: 4090, y: 5180 },
        blue: GamutPoint { x: 1670, y: 400 },
    }
}

/// The gamut of class `'C'`, in ten-thousandths.
pub fn color_gamut_c() -> (g: ColorGamut)
    ensures
        g@ == gamut_c(),
{
    ColorGamut {
        red: GamutPoint { x: 6920, y: 3080 },
        green: GamutPoint { x: 1700, y: 700 },
        blue: GamutPoint { x: 1530, y: 480 },
    }
}

/// The triangle of class `'A'`, in ten-thousandths.
pub open spec fn gamut_a() -> Triangle {
    Triangle {
        red: Position { x: 7040, y: 2960 },
        green: Position { x: 2151, y: 7106 },
        blue: Position { x: 1380, y: 800 },
    }
}

/// The triangle of class `'B'`, in ten-thousandths.
pub open spec fn gamut_b() -> Triangle {
    Triangle {
        red: Position { x: 6750, y: 3220 },
        green: Position { x: 4090, y: 5180 },
        blue: Position { x: 1670, y: 400 },
    }
}

/// The triangle of class `'C'`, in ten-thousandths.
pub open spec fn gamut_c() -> Triangle {
    Triangle {
        red: Position { x: 6920, y: 3080 },
        green: Position { x: 1700, y: 700 },
        blue: Position { x: 1530, y: 480 },
    }
}

/// The gamut class of a light model: `'A'`, `'B'` or `'C'`, or none for a
/// model that is not listed.
pub open spec fn gamut_class(model_id: Seq<char>) -> Option<char> {
    if model_id == "LST001"@ || model_id == "LLC005"@ || model_id == "LLC006"@ || model_id
        == "LLC007"@ || model_id == "LLC010"@ || model_id == "LLC011"@ || model_id == "LLC012"@
        || model_id == "LLC013"@ || model_id == "LLC014"@ {
        Some('A')
    } else if model_id == "LCT001"@ || model_id == "LCT002"@ || model_id == "LCT003"@ || model_id
        == "LMM001"@ {
        Some('B')
    } else if model_id == "LCT010"@ || model_id == "LCT011"@ || model_id == "LCT014"@ || model_id
        == "LCT015"@ || model_id == "LCT016"@ || model_id == "LLC020"@ || model_id == "LST002"@
        || model_id == "LCT012"@ {
        Some('C')
    } else {
        None
    }
}

/// Looks up the gamut class of a light model.
pub fn color_gamut_lookup(model_id: &str) -> (class: Option<char>)
    ensures
        class == gamut_class(model_id@),
{
    if str_equal(model_id, "LST001") || str_equal(model_id, "LLC005") || str_equal(
        model_id,
        "LLC006",
    ) || str_equal(model_id, "LLC007") || str_equal(model_id, "LLC010") || str_equal(
        model_id,
        "LLC011",
    ) || str_equal(model_id, "LLC012") || str_equal(model_id, "LLC013") || str_equal(
        model_id,
        "LLC014",
    ) {
        Some('A')
    } else if str_equal(model_id, "LCT001") || str_equal(model_id, "LCT002") || str_equal(
        model_id,
        "LCT003",
    ) || str_equal(model_id, "LMM001") {
        Some('B')
    } else if str_equal(model_id, "LCT010") || str_equal(model_id, "LCT011") || str_equal(
        model_id,
        "LCT014",
    ) || str_equal(model_id, "LCT015") || str_equal(model_id, "LCT016") || str_equal(
        model_id,
        "LLC020",
    ) || str_equal(model_id, "LST002") || str_equal(model_id, "LCT012") {
        Some('C')
    } else {
        None
    }
}

/// The triangle of a gamut class; none for any other character.
pub open spec fn class_triangle(class: char) -> Option<Triangle> {
    if class == 'A' {
        Some(gamut_a())
    } else if class == 'B' {
        Some(gamut_b())
    } else if class == 'C' {
        Some(gamut_c())
    } else {
        None
    }
}

/// The triangle that limits a light model; none for a model that is not
/// listed, which is not limited.
pub open spec fn model_triangle(model_id: Seq<char>) -> Option<Triangle> {
    match gamut_class(model_id) {
        Some(class) => class_triangle(class),
        None => None,
    }
}

/// The gamut of a gamut class.
pub fn gamut_for_class(class: char) -> (g: Option<ColorGamut>)
    ensures
        g is Some == class_triangle(class) is Some,
        g is Some ==> g->Some_0@ == class_triangle(class)->Some_0,
{
    if class == 'A' {
        Some(color_gamut_a())
    } else if class == 'B' {
        Some(color_gamut_b())
    } else if class == 'C' {
        Some(color_gamut_c())
    } else {
        None
    }
}

impl XY {
    /// The chromaticity and brightness of a colour.
    pub fn from_rgb(rgb: RGB) -> (xy: XY)
        ensures
            xy.x == chromaticity_x(rgb),
            xy.y == chromaticity_y(rgb),
            xy.brightness == brightness_of(rgb),
            0 <= xy.x <= CHROMATICITY_ONE,
            0 < xy.y <= CHROMATICITY_ONE,
            xy.brightness <= BRIGHTNESS_MAX,
    {
        proof {
            lemma_chromaticity_in_range(rgb);
        }
        let r: i128 = gamma_expand(rgb.r) as i128;
        let g: i128 = gamma_expand(rgb.g) as i128;
        let b: i128 = gamma_expand(rgb.b) as i128;
        let x: i128 = 664511 * r + 154324 * g + 162028 * b;
        let y: i128 = 283881 * r + 668433 * g + 47685 * b;
        let z: i128 = 88 * r + 72310 * g + 986039 * b;
        let sum: i128 = x + y + z;
        let level: i128 = nearest_quotient(BRIGHTNESS_MAX as i128 * y, 1_000_000_000_000);
        let brightness: u8 = if level > BRIGHTNESS_MAX as i128 {
            BRIGHTNESS_MAX
        } else {
            level as u8
        };
        if sum == 0 {
            return XY { x: NEUTRAL_X, y: NEUTRAL_Y, brightness };
        }
        let cx: i128 = nearest_quotient(CHROMATICITY_ONE as i128 * x, sum);
        let cy: i128 = nearest_quotient(CHROMATICITY_ONE as i128 * y, sum);
        XY { x: cx as i64, y: cy as i64, brightness }
    }

    /// The chromaticity without the brightness.
    pub open spec fn position(&self) -> Position {
        Position { x: self.x as int, y: self.y as int }
    }

    /// The chromaticity as a list of two decimal numbers, each in its
    /// shortest form: `[0.3227, 0.329]`.
    pub fn xy_string(&self) -> (s: String)
        ensures
            s@ == xy_text(*self),
    {
        let mut s = String::from_str("[");
        s.append(shortest_decimal_text(self.x).as_str());
        s.append(", ");
        s.append(shortest_decimal_text(self.y).as_str());
        s.append("]");
        assert(s@ =~= xy_text(*self));
        s
    }

    /// Whether both coordinates are within [`COORD_LIMIT`] of zero.
    pub fn is_within_limit(&self) -> (r: bool)
        ensures
            r == within_limit(self.position()),
    {
        -COORD_LIMIT <= self.x && self.x <= COORD_LIMIT && -COORD_LIMIT <= self.y && self.y
            <= COORD_LIMIT
    }

    /// Moves a chromaticity that `gamut` does not contain to the nearest point
    /// of its edge lines. The brightness stays. What comes out stays as it
    /// is when it is adjusted again.
    pub fn adjust_for_gamut(&mut self, gamut: ColorGamut)
        requires
            adjustable(gamut@, old(self).position()),
        ensures
            final(self).position() == adjusted(gamut@, old(self).position()),
            final(self).brightness == old(self).brightness,
            adjustable(gamut@, final(self).position()),
            adjusted(gamut@, final(self).position()) == final(self).position(),
    {
        let gamut_point = GamutPoint { x: self.x, y: self.y };
        proof {
            use_type_invariant(&gamut);
            lemma_adjust_idempotent(gamut@, gamut_point@);
            lemma_adjusted_in_or_near(gamut@, gamut_point@);
        }
        if gamut.point_in_gamut(&gamut_point) {
            return ;
        }
        if gamut.is_near_edge_line(&gamut_point) {
            proof {
                lemma_near_is_nearest(gamut@, gamut_point@);
            }
            return ;
        }
        let new_gamut_point = gamut.closest_point(&gamut_point);
        self.x = new_gamut_point.x;
        self.y = new_gamut_point.y;
    }

    /// Whether the adjustment for the gamut of a light model can be computed.
    pub fn is_adjustable_for_model(&self, model_id: &str) -> (r: bool)
        ensures
            r == adjustable_for_model(model_id@, self.position()),
    {
        let gamut_point = GamutPoint { x: self.x, y: self.y };
        match color_gamut_lookup(model_id) {
            Some(class) => match gamut_for_class(class) {
                Some(gamut) => gamut.is_adjustable(&gamut_point),
                None => true,
            },
            None => true,
        }
    }

    /// Adjusts the chromaticity for the gamut of a light model. A model that
    /// is not listed leaves it as it is.
    pub fn adjust_for_model(&mut self, model_id: &str)
        requires
            adjustable_for_model(model_id@, old(self).position()),
        ensures
            final(self).position() == adjusted_for_model(model_id@, old(self).position()),
            final(self).brightness == old(self).brightness,
            adjustable_for_model(model_id@, final(self).position()),
            adjusted_for_model(model_id@, final(self).position()) == final(self).position(),
    {
        match color_gamut_lookup(model_id) {
            Some(class) => match gamut_for_class(class) {
                Some(gamut) => self.adjust_for_gamut(gamut),
                None => (),
            },
            None => (),
        }
    }
}

/// The adjustment of `p` for a light model can be computed: the model is not
/// listed, or `p` is adjustable for its triangle.
pub open spec fn adjustable_for_model(model_id: Seq<char>, p: Position) -> bool {
    match model_triangle(model_id) {
        Some(t) => adjustable(t, p),
        None => true,
    }
}

/// The text of a position in ten-thousandths: its two coordinates in
/// decimal, in square brackets, with a comma and a space between them.
pub open spec fn position_text(p: Position) -> Seq<char> {
    "["@ + shortest_decimal(p.x) + ", "@ + shortest_decimal(p.y) + "]"@
}

/// The text of a chromaticity: `[0.3227, 0.329]`.
pub open spec fn xy_text(xy: XY) -> Seq<char> {
    position_text(xy.position())
}

/// `p` adjusted for the gamut of a light model; `p` itself for a model that
/// is not listed.
pub open spec fn adjusted_for_model(model_id: Seq<char>, p: Position) -> Position {
    match model_triangle(model_id) {
        Some(t) => adjusted(t, p),
        None => p,
    }
}

} // verus!
