//! Fixed-point units of the simulation.
//!
//! All world quantities are integers so that every computation is exact and
//! deterministic across machines:
//! - positions are measured in micro-units (`MICRO` per world unit),
//! - speeds and direction components in milli-units (`MILLI` per world unit),
//! - time in microseconds.
//!
//! Coordinates saturate at [`COORD_MIN`, `COORD_MAX`] instead of wrapping, so
//! position arithmetic is total.

use vstd::prelude::*;
use vstd::arithmetic::div_mod::{
    lemma_div_is_ordered, lemma_div_multiples_vanish, lemma_div_pos_is_pos,
    lemma_fundamental_div_mod, lemma_hoist_over_denominator, lemma_mod_bound,
};
use vstd::arithmetic::mul::lemma_mul_inequality;

verus! {

/// Sub-unit scale of positions: micro-units per world unit.
pub const MICRO: i64 = 1_000_000;

/// Sub-unit scale of speeds and directions: milli-units per world unit.
pub const MILLI: i64 = 1_000;

/// Smallest representable coordinate, in micro-units.
pub const COORD_MIN: i64 = -1_000_000_000_000;

/// Largest representable coordinate, in micro-units.
pub const COORD_MAX: i64 = 1_000_000_000_000;

/// Largest speed the simulation accepts, in milli-units per second.
pub const SPEED_MAX: u64 = 1_000_000_000;

/// Largest single time step the simulation accepts, in microseconds.
pub const DT_MAX: u64 = 86_400_000_000;

/// What a coordinate saturates to: the sum clamped into
/// [`COORD_MIN`, `COORD_MAX`].
pub open spec fn clamp_coord(v: int) -> int {
    if v < COORD_MIN as int {
        COORD_MIN as int
    } else if v > COORD_MAX as int {
        COORD_MAX as int
    } else {
        v
    }
}

/// A coordinate that the world accepts.
pub open spec fn valid_coord(v: int) -> bool {
    COORD_MIN as int <= v <= COORD_MAX as int
}

/// Saturating coordinate addition: the exact sum where it stays in range,
/// the nearer bound where it does not.
pub fn add_coord(a: i64, b: i64) -> (r: i64)
    requires
        valid_coord(a as int),
    ensures
        r as int == clamp_coord(a + b),
{
    match a.checked_add(b) {
        Some(sum) => {
            if sum < COORD_MIN {
                COORD_MIN
            } else if sum > COORD_MAX {
                COORD_MAX
            } else {
                sum
            }
        },
        None => {
            if b > 0 {
                COORD_MAX
            } else {
                COORD_MIN
            }
        },
    }
}

/// A two-dimensional point or vector of the game world, in fixed-point
/// integer coordinates.
#[derive(Clone, Copy, Debug, PartialEq, Eq, Structural)]
pub struct Vec2i {
    pub x: i64,
    pub y: i64,
}

impl Vec2i {
    /// Both components in coordinate range.
    pub open spec fn wf(self) -> bool {
        valid_coord(self.x as int) && valid_coord(self.y as int)
    }

    /// The origin.
    pub fn zero() -> (r: Vec2i)
        ensures
            r.x == 0 && r.y == 0,
            r.wf(),
    {
        Vec2i { x: 0, y: 0 }
    }
}

/// The displacement along one axis, in micro-units, of something moving with
/// direction component `dir` (milli-scale) at `speed` milli-units per second
/// for `dt` microseconds. The magnitude is scaled with floor division and the
/// sign of `dir` is applied afterwards, so movement is symmetric in either
/// direction.
pub open spec fn displacement(dir: int, speed: int, dt: int) -> int {
    if dir >= 0 {
        (dir * speed * dt) / (MICRO as int)
    } else {
        -(((-dir) * speed * dt) / (MICRO as int))
    }
}

/// Computes [`displacement`] exactly.
pub fn scale_displacement(dir: i64, speed: u64, dt: u64) -> (r: i64)
    requires
        -MILLI <= dir <= MILLI,
        speed <= SPEED_MAX,
        dt <= DT_MAX,
    ensures
        r as int == displacement(dir as int, speed as int, dt as int),
{
    let mag: u128 = if dir >= 0 {
        dir as u128
    } else {
        (-dir) as u128
    };
    proof {
        assert(mag * speed <= MILLI * SPEED_MAX) by (nonlinear_arith)
            requires
                0 <= mag <= MILLI,
                0 <= speed <= SPEED_MAX,
        ;
        assert(mag * speed * dt <= MILLI * SPEED_MAX * DT_MAX) by (nonlinear_arith)
            requires
                0 <= mag <= MILLI,
                0 <= speed <= SPEED_MAX,
                0 <= dt <= DT_MAX,
        ;
    }
    let scaled: u128 = mag * (speed as u128) * (dt as u128) / (MICRO as u128);
    proof {
        lemma_div_is_ordered(
            (mag * speed * dt) as int,
            MILLI as int * SPEED_MAX as int * DT_MAX as int,
            MICRO as int,
        );
    }
    if dir >= 0 {
        scaled as i64
    } else {
        -(scaled as i64)
    }
}

/// Linear interpolation between coordinates `a` and `b` at the rational
/// factor `num / den`: the exact point `a + (b - a) * num / den`, with the
/// fractional part scaled by floor division of the magnitude.
pub open spec fn lerp(a: int, b: int, num: int, den: int) -> int
    recommends
        den > 0,
        0 <= num <= den,
{
    if b >= a {
        a + ((b - a) * num) / den
    } else {
        a - ((a - b) * num) / den
    }
}

/// Computes [`lerp`] exactly.
pub fn lerp_coord(a: i64, b: i64, num: u64, den: u64) -> (r: i64)
    requires
        valid_coord(a as int),
        valid_coord(b as int),
        den > 0,
        num <= den,
    ensures
        r as int == lerp(a as int, b as int, num as int, den as int),
        valid_coord(r as int),
{
    proof {
        lemma_lerp_bounds(a as int, b as int, num as int, den as int);
    }
    if b >= a {
        let diff: u128 = (b - a) as u128;
        proof {
            lemma_mul_inequality_bound(diff as int, num as int);
        }
        let frac: u128 = diff * (num as u128) / (den as u128);
        proof {
            lemma_frac_le_diff((b - a) as int, num as int, den as int);
        }
        a + (frac as i64)
    } else {
        let diff: u128 = (a - b) as u128;
        proof {
            lemma_mul_inequality_bound(diff as int, num as int);
        }
        let frac: u128 = diff * (num as u128) / (den as u128);
        proof {
            lemma_frac_le_diff((a - b) as int, num as int, den as int);
        }
        a - (frac as i64)
    }
}

/// The product of a non-negative coordinate difference and a 64-bit factor
/// fits in 128 bits.
proof fn lemma_mul_inequality_bound(diff: int, num: int)
    requires
        0 <= diff <= 2 * COORD_MAX,
        0 <= num < 0x1_0000_0000_0000_0000,
    ensures
        diff * num < 0x1_0000_0000_0000_0000_0000_0000_0000_0000,
{
    assert(diff * num <= 2 * (COORD_MAX as int) * 0xffff_ffff_ffff_ffff) by (nonlinear_arith)
        requires
            0 <= diff <= 2 * COORD_MAX,
            0 <= num <= 0xffff_ffff_ffff_ffff,
    ;
}

/// For `0 <= num <= den`, the scaled fraction `diff * num / den` is at most
/// `diff` and at least zero.
proof fn lemma_frac_le_diff(diff: int, num: int, den: int)
    requires
        diff >= 0,
        den > 0,
        0 <= num <= den,
    ensures
        0 <= (diff * num) / den <= diff,
{
    lemma_mul_inequality(num, den, diff);
    assert(diff * num == num * diff) by (nonlinear_arith);
    assert(diff * den == den * diff) by (nonlinear_arith);
    lemma_div_is_ordered(diff * num, diff * den, den);
    lemma_div_multiples_vanish(diff, den);
    if diff * num > 0 {
        lemma_div_pos_is_pos(diff * num, den);
    }
    assert(diff * num >= 0) by (nonlinear_arith)
        requires
            diff >= 0,
            num >= 0,
    ;
}

/// Interpolation starts at the first endpoint: at factor zero the
/// interpolated point is exactly `a`.
pub proof fn lemma_lerp_zero(a: int, b: int, den: int)
    requires
        den > 0,
    ensures
        lerp(a, b, 0, den) == a,
{
    if b >= a {
        assert((b - a) * 0 == 0) by (nonlinear_arith);
        assert(0int / den == 0);
    } else {
        assert((a - b) * 0 == 0) by (nonlinear_arith);
        assert(0int / den == 0);
    }
}

/// Interpolation ends at the second endpoint: at factor one the interpolated
/// point is exactly `b`.
pub proof fn lemma_lerp_full(a: int, b: int, den: int)
    requires
        den > 0,
    ensures
        lerp(a, b, den, den) == b,
{
    if b >= a {
        lemma_div_multiples_vanish(b - a, den);
        assert((b - a) * den == den * (b - a)) by (nonlinear_arith);
    } else {
        lemma_div_multiples_vanish(a - b, den);
        assert((a - b) * den == den * (a - b)) by (nonlinear_arith);
    }
}

/// Interpolation never leaves the segment: the interpolated point lies
/// between the two endpoints.
pub proof fn lemma_lerp_bounds(a: int, b: int, num: int, den: int)
    requires
        den > 0,
        0 <= num <= den,
    ensures
        b >= a ==> a <= lerp(a, b, num, den) <= b,
        b < a ==> b <= lerp(a, b, num, den) <= a,
{
    if b >= a {
        lemma_frac_le_diff(b - a, num, den);
    } else {
        lemma_frac_le_diff(a - b, num, den);
    }
}

/// Interpolation is monotonic along the segment: a larger factor never moves
/// the interpolated point backwards.
pub proof fn lemma_lerp_monotonic(a: int, b: int, num1: int, num2: int, den: int)
    requires
        den > 0,
        0 <= num1 <= num2 <= den,
    ensures
        b >= a ==> lerp(a, b, num1, den) <= lerp(a, b, num2, den),
        b < a ==> lerp(a, b, num1, den) >= lerp(a, b, num2, den),
{
    if b >= a {
        lemma_mul_inequality(num1, num2, b - a);
        assert((b - a) * num1 == num1 * (b - a)) by (nonlinear_arith);
        assert((b - a) * num2 == num2 * (b - a)) by (nonlinear_arith);
        lemma_div_is_ordered((b - a) * num1, (b - a) * num2, den);
    } else {
        lemma_mul_inequality(num1, num2, a - b);
        assert((a - b) * num1 == num1 * (a - b)) by (nonlinear_arith);
        assert((a - b) * num2 == num2 * (a - b)) by (nonlinear_arith);
        lemma_div_is_ordered((a - b) * num1, (a - b) * num2, den);
    }
}

/// Interpolation is continuous along the segment: raising the factor by one
/// step moves the interpolated point by at most `(|b - a| + den) / den`
/// (one interpolation step plus rounding).
pub proof fn lemma_lerp_step(a: int, b: int, num: int, den: int)
    requires
        den > 0,
        0 <= num < den,
    ensures
        lerp(a, b, num + 1, den) - lerp(a, b, num, den) <= (if b >= a {
            b - a
        } else {
            a - b
        } + den) / den,
        lerp(a, b, num, den) - lerp(a, b, num + 1, den) <= (if b >= a {
            b - a
        } else {
            a - b
        } + den) / den,
{
    let diff = if b >= a { b - a } else { a - b };
    lemma_lerp_monotonic(a, b, num, num + 1, den);
    assert(diff * (num + 1) == diff * num + diff) by (nonlinear_arith);
    let q = (diff * num) / den;
    let r = (diff * num) % den;
    lemma_fundamental_div_mod(diff * num, den);
    lemma_mod_bound(diff * num, den);
    assert(diff * num + diff == (r + diff) + q * den) by (nonlinear_arith)
        requires
            diff * num == den * q + r,
    ;
    lemma_hoist_over_denominator(r + diff, q, den as nat);
    lemma_div_is_ordered(r + diff, diff + den, den);
}

/// The integer square root: the largest integer whose square does not
/// exceed `x`.
pub fn isqrt(x: u128) -> (r: u64)
    ensures
        ((r as int) * (r as int)) <= x as int,
        (x as int) < ((r as int + 1) * (r as int + 1)),
{
    let mut lo: u128 = 0;
    let mut hi: u128 = 0xffff_ffff_ffff_ffff;
    while lo < hi
        invariant
            0 <= lo <= hi <= 0xffff_ffff_ffff_ffff,
            lo * lo <= x as int,
            (x as int) < ((hi + 1) * (hi + 1)),
        decreases (hi - lo),
    {
        let mid: u128 = lo + (hi - lo + 1) / 2;
        proof {
            assert(lo < mid <= hi);
            assert(mid * mid < 0x1_0000_0000_0000_0000_0000_0000_0000_0000) by (nonlinear_arith)
                requires
                    0 <= mid <= 0xffff_ffff_ffff_ffff,
            ;
        }
        if mid * mid <= x {
            lo = mid;
        } else {
            hi = mid - 1;
        }
    }
    lo as u64
}

/// The integer square root as a mathematical function: the largest integer
/// whose square does not exceed `x`.
pub open spec fn spec_isqrt(x: nat) -> nat
    decreases x,
{
    if x == 0 {
        0
    } else {
        let s = spec_isqrt((x - 1) as nat);
        if (s + 1) * (s + 1) <= x {
            s + 1
        } else {
            s
        }
    }
}

/// The integer square root's defining property: its square does not exceed
/// the argument and the next square does.
#[verifier::spinoff_prover]
pub proof fn lemma_isqrt_bounds(x: nat)
    ensures
        spec_isqrt(x) * spec_isqrt(x) <= x,
        x < ((spec_isqrt(x) + 1) * (spec_isqrt(x) + 1)),
    decreases x,
{
    if x == 0 {
        assert(spec_isqrt(x) == 0);
        assert((0 + 1) * (0 + 1) == 1) by (nonlinear_arith);
    } else {
        lemma_isqrt_bounds((x - 1) as nat);
        let s = spec_isqrt((x - 1) as nat);
        assert(s * s <= x - 1);
        assert(x - 1 < ((s + 1) * (s + 1)));
        if (s + 1) * (s + 1) <= x {
            assert(spec_isqrt(x) == s + 1);
            assert(x <= ((s + 1) * (s + 1)));
            assert(((s + 2) * (s + 2)) > ((s + 1) * (s + 1))) by (nonlinear_arith);
            assert(spec_isqrt(x) * spec_isqrt(x) <= x);
            assert(x < ((spec_isqrt(x) + 1) * (spec_isqrt(x) + 1)));
        } else {
            assert(spec_isqrt(x) == s);
            assert(s * s <= x) by (nonlinear_arith)
                requires
                    s * s <= x - 1,
                    x >= 1,
            ;
            assert(spec_isqrt(x) * spec_isqrt(x) <= x);
            assert(x < ((spec_isqrt(x) + 1) * (spec_isqrt(x) + 1)));
        }
    }
}

/// No two integers satisfy the square root's defining property.
pub proof fn lemma_isqrt_unique(x: nat, r: nat)
    requires
        r * r <= x,
        x < ((r + 1) * (r + 1)),
    ensures
        r == spec_isqrt(x),
{
    lemma_isqrt_bounds(x);
    let s = spec_isqrt(x);
    if r < s {
        assert(((r + 1) * (r + 1)) <= s * s) by (nonlinear_arith)
            requires
                r + 1 <= s,
        ;
    }
    if s < r {
        assert(((s + 1) * (s + 1)) <= r * r) by (nonlinear_arith)
            requires
                s + 1 <= r,
        ;
    }
}

/// The length of a vector in micro-units, rounded down: the integer square
/// root of the sum of the squared components.
pub open spec fn spec_vec_len(v: Vec2i) -> nat {
    spec_isqrt(((v.x * v.x) + (v.y * v.y)) as nat)
}

/// What normalizing a non-zero vector yields: each component scaled by
/// `MILLI / length`, magnitudes rounded down, signs kept, so that the result
/// is a unit vector in milli-scale components.
pub open spec fn spec_normalize(v: Vec2i) -> Vec2i {
    let len = spec_vec_len(v) as int;
    let mx = (if v.x >= 0 {
        v.x as int
    } else {
        -(v.x as int)
    } * (MILLI as int)) / len;
    let my = (if v.y >= 0 {
        v.y as int
    } else {
        -(v.y as int)
    } * (MILLI as int)) / len;
    Vec2i {
        x: (if v.x >= 0 {
            mx
        } else {
            -mx
        }) as i64,
        y: (if v.y >= 0 {
            my
        } else {
            -my
        }) as i64,
    }
}

/// Normalizes a non-zero difference vector to a unit vector in milli-scale
/// components: exactly [`spec_normalize`], with both components within
/// `[-MILLI, MILLI]`.
#[verifier::spinoff_prover]
#[verifier::rlimit(60)]
pub fn normalize_direction(v: Vec2i) -> (r: Vec2i)
    requires
        -2 * COORD_MAX <= v.x <= 2 * COORD_MAX,
        -2 * COORD_MAX <= v.y <= 2 * COORD_MAX,
        !(v.x == 0 && v.y == 0),
    ensures
        r == spec_normalize(v),
        -MILLI <= r.x <= MILLI,
        -MILLI <= r.y <= MILLI,
{
    let ax: i64 = if v.x >= 0 {
        v.x
    } else {
        -v.x
    };
    let ay: i64 = if v.y >= 0 {
        v.y
    } else {
        -v.y
    };
    proof {
        assert(0 <= ax * ax <= 4_000_000_000_000_000_000_000_000) by (nonlinear_arith)
            requires
                0 <= ax <= 2_000_000_000_000,
        ;
        assert(0 <= ay * ay <= 4_000_000_000_000_000_000_000_000) by (nonlinear_arith)
            requires
                0 <= ay <= 2_000_000_000_000,
        ;
    }
    let sq: u128 = (ax as u128) * (ax as u128) + (ay as u128) * (ay as u128);
    let len: u64 = isqrt(sq);
    proof {
        lemma_isqrt_unique(sq as nat, len as nat);
        assert(sq as int == ((v.x * v.x) + (v.y * v.y))) by (nonlinear_arith)
            requires
                ax == (if v.x >= 0 {
                    v.x as int
                } else {
                    -(v.x as int)
                }),
                ay == (if v.y >= 0 {
                    v.y as int
                } else {
                    -(v.y as int)
                }),
                sq == ax * ax + ay * ay,
        ;
        assert(len as nat == spec_vec_len(v));
        assert(len >= 1) by {
            if len == 0 {
                assert(((len as int + 1) * (len as int + 1)) == 1) by (nonlinear_arith)
                    requires
                        len == 0,
                ;
                assert((sq as int) < 1);
                assert(ax == 0 && ay == 0) by (nonlinear_arith)
                    requires
                        ax * ax + ay * ay < 1,
                        ax >= 0,
                        ay >= 0,
                ;
            }
        }
        assert((ax as int) * (ax as int) <= sq) by (nonlinear_arith)
            requires
                sq == ax * ax + ay * ay,
                0 <= ay,
        ;
        lemma_abs_le_isqrt(ax as nat, sq as nat);
        assert((ay as int) * (ay as int) <= sq) by (nonlinear_arith)
            requires
                sq == ax * ax + ay * ay,
                0 <= ax,
        ;
        lemma_abs_le_isqrt(ay as nat, sq as nat);
        assert((ax as int) * (MILLI as int) <= ((2 * COORD_MAX) * MILLI)) by (nonlinear_arith)
            requires
                0 <= ax <= 2 * COORD_MAX,
        ;
        assert((ay as int) * (MILLI as int) <= ((2 * COORD_MAX) * MILLI)) by (nonlinear_arith)
            requires
                0 <= ay <= 2 * COORD_MAX,
        ;
        lemma_scaled_component_bounded(ax as nat, len as nat);
        lemma_scaled_component_bounded(ay as nat, len as nat);
    }
    let qx: u128 = (ax as u128) * (MILLI as u128) / (len as u128);
    let qy: u128 = (ay as u128) * (MILLI as u128) / (len as u128);
    let mx: i64 = qx as i64;
    let my: i64 = qy as i64;
    Vec2i {
        x: if v.x >= 0 {
            mx
        } else {
            -mx
        },
        y: if v.y >= 0 {
            my
        } else {
            -my
        },
    }
}

/// A component's magnitude never exceeds the vector's length.
proof fn lemma_abs_le_isqrt(a: nat, sq: nat)
    requires
        a * a <= sq,
    ensures
        a <= spec_isqrt(sq),
{
    lemma_isqrt_bounds(sq);
    let s = spec_isqrt(sq);
    if s < a {
        assert(((s + 1) * (s + 1)) <= a * a) by (nonlinear_arith)
            requires
                s + 1 <= a,
        ;
    }
}

/// A component scaled by `MILLI / length` stays within one milli-unit scale.
proof fn lemma_scaled_component_bounded(a: nat, len: nat)
    requires
        a <= len,
        len >= 1,
    ensures
        0 <= (a * (MILLI as int)) / (len as int) <= MILLI,
{
    lemma_mul_inequality(a as int, len as int, MILLI as int);
    assert(a * (MILLI as int) == (MILLI as int) * a) by (nonlinear_arith);
    assert(len * (MILLI as int) == (MILLI as int) * len) by (nonlinear_arith);
    lemma_div_is_ordered(a * (MILLI as int), len * (MILLI as int), len as int);
    lemma_div_multiples_vanish(MILLI as int, len as int);
    assert((MILLI as int) * len == len * (MILLI as int)) by (nonlinear_arith);
    if a * (MILLI as int) > 0 {
        lemma_div_pos_is_pos(a * (MILLI as int), len as int);
    }
    assert(a * (MILLI as int) >= 0) by (nonlinear_arith);
}

} // verus!
