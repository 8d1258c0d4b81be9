//! The unit of measure and the constants of the game, all in sub-pixel units.

use vstd::prelude::*;

verus! {

/// Sub-pixel units in one pixel.
pub const UNITS_PER_PIXEL: i64 = 1_000;

/// Width of the playing field (640 pixels).
pub const WINDOW_WIDTH: i64 = 640_000;

/// Height of the playing field (480 pixels).
pub const WINDOW_HEIGHT: i64 = 480_000;

/// Distance of each paddle's left edge from its side of the field (32 pixels).
pub const PADDLE_MARGIN: i64 = 32_000;

/// Distance a paddle travels per tick while a key is held (8 pixels).
pub const PADDLE_SPEED: i64 = 8_000;

/// Horizontal speed of the ball at the start of a match (5 pixels per tick).
pub const BALL_SPEED: i64 = 5_000;

/// Vertical speed a paddle adds for a hit one paddle height off centre
/// (4 pixels per tick).
pub const PADDLE_SPIN: i64 = 4_000;

/// Horizontal speed the ball gains at each paddle hit (0.05 pixels per tick).
pub const BALL_ACC: i64 = 50;

/// Largest magnitude of a coordinate or speed for which one tick is
/// guaranteed to stay within machine integers (2^48 units).
pub const COORD_LIMIT: i64 = 0x1_0000_0000_0000;

/// A whole number of pixels, in units.
pub open spec fn pixels_of(n: int) -> int {
    n * UNITS_PER_PIXEL
}

/// Converts a whole number of pixels to units.
pub fn pixels(n: i32) -> (units: i64)
    ensures
        units == pixels_of(n as int),
{
    let wide: i64 = n as i64;
    wide * UNITS_PER_PIXEL
}

/// The magnitude of `a`.
pub open spec fn magnitude(a: int) -> int {
    if a >= 0 {
        a
    } else {
        -a
    }
}

/// The quotient of `a` by a positive `b`, rounded away from zero: the whole
/// number nearest to zero that, times `b`, reaches `a`. It is zero only for
/// `a == 0`.
pub open spec fn div_away_from_zero(a: int, b: int) -> int
    recommends
        b > 0,
{
    if a >= 0 {
        (a + b - 1) / b
    } else {
        -((-a + b - 1) / b)
    }
}

/// What rounding away from zero means: the quotient has the sign of `a`,
/// times `b` it reaches `a`, and with one less in magnitude it would fall
/// short. So it differs from the exact quotient by less than one, and its
/// magnitude does not exceed that of `a`. Opposite numbers have opposite
/// quotients.
pub proof fn lemma_div_away_from_zero(a: int, b: int)
    requires
        b > 0,
    ensures
        sign_of(div_away_from_zero(a, b)) == sign_of(a),
        magnitude(div_away_from_zero(a, b)) * b >= magnitude(a),
        a != 0 ==> (magnitude(div_away_from_zero(a, b)) - 1) * b < magnitude(a),
        magnitude(div_away_from_zero(a, b)) <= magnitude(a),
        div_away_from_zero(-a, b) == -div_away_from_zero(a, b),
        a > 0 ==> div_away_from_zero(a, b) == (a - 1) / b + 1,
        a < 0 ==> div_away_from_zero(a, b) == -((-a - 1) / b + 1),
{
    let m = magnitude(a);
    lemma_ceiling(m, b);
    if a == 0 {
        assert((b - 1) / b == 0) by (nonlinear_arith)
            requires
                b > 0,
        {
        }
    }
}

/// The quotient of `m + b - 1` by `b` is the least whole number that, times
/// `b`, reaches `m`.
proof fn lemma_ceiling(m: int, b: int)
    by (nonlinear_arith)
    requires
        m >= 0,
        b > 0,
    ensures
        ((m + b - 1) / b) * b >= m,
        ((m + b - 1) / b - 1) * b < m,
        0 <= (m + b - 1) / b <= m,
        m > 0 ==> (m + b - 1) / b == (m - 1) / b + 1,
{
}

/// The sign of `a`: 1, 0 or -1.
pub open spec fn sign_of(a: int) -> int {
    if a > 0 {
        1
    } else if a < 0 {
        -1
    } else {
        0
    }
}

} // verus!
