//! Fixed-point plane geometry: 2D vectors in milli-units, angles in
//! microradians, and the small arithmetic helpers the actuation law needs.

use vstd::arithmetic::div_mod::{
    lemma_div_is_ordered, lemma_div_multiples_vanish, lemma_mod_add_multiples_vanish,
    lemma_mod_sub_multiples_vanish, lemma_small_mod,
};
use vstd::prelude::*;

verus! {

/// The angle pi in microradians. Kept equal to `2 * HALF_PI_URAD` so that
/// the angle constants of the model are exactly consistent with each other.
pub const PI_URAD: i64 = 3_141_592;
/// The angle pi/2 in microradians.
pub const HALF_PI_URAD: i64 = 1_570_796;
/// The angle 2*pi in microradians.
pub const TWO_PI_URAD: i64 = 6_283_184;

/// Bound on the magnitude of any coordinate the model holds, milli-units.
/// Far beyond the field; it only serves to rule out integer overflow.
pub const COORD_LIMIT: i64 = 1_000_000_000;

/// A plane vector with fixed-point coordinates in milli-units.
#[derive(Clone, Copy, PartialEq, Eq, Structural, Debug)]
pub struct Vec2 {
    pub x: i64,
    pub y: i64,
}

/// Both coordinates of `v` are within `COORD_LIMIT` in magnitude.
pub open spec fn in_coord_range(v: Vec2) -> bool {
    -COORD_LIMIT <= v.x <= COORD_LIMIT && -COORD_LIMIT <= v.y <= COORD_LIMIT
}

impl Vec2 {
    /// Build a vector from its two coordinates.
    pub fn new(x: i64, y: i64) -> (r: Vec2)
        ensures
            r == (Vec2 { x, y }),
    {
        Vec2 { x, y }
    }
}

/// Division truncated toward zero, for a positive divisor: the result of
/// the `/` operator on signed machine integers.
pub open spec fn tdiv(a: int, d: int) -> int
    recommends
        d > 0,
{
    if a >= 0 {
        a / d
    } else {
        -((-a) / d)
    }
}

/// `v` clamped into `[lo, hi]`.
pub open spec fn clamp_spec(v: int, lo: int, hi: int) -> int
    recommends
        lo <= hi,
{
    if v < lo {
        lo
    } else if v > hi {
        hi
    } else {
        v
    }
}

/// Clamp `v` into `[lo, hi]`.
pub fn clamp(v: i64, lo: i64, hi: i64) -> (r: i64)
    requires
        lo <= hi,
    ensures
        r == clamp_spec(v as int, lo as int, hi as int),
{
    if v < lo {
        lo
    } else if v > hi {
        hi
    } else {
        v
    }
}

/// The squared Euclidean distance between `a` and `b`.
pub open spec fn dist_sq_spec(a: Vec2, b: Vec2) -> int {
    (a.x - b.x) * (a.x - b.x) + (a.y - b.y) * (a.y - b.y)
}

/// Squared Euclidean distance between two points of the field.
pub fn dist_sq(a: Vec2, b: Vec2) -> (r: u64)
    requires
        in_coord_range(a),
        in_coord_range(b),
    ensures
        r == dist_sq_spec(a, b),
{
    let dx: i64 = a.x - b.x;
    let dy: i64 = a.y - b.y;
    let ax: u64 = if dx < 0 {
        (-dx) as u64
    } else {
        dx as u64
    };
    let ay: u64 = if dy < 0 {
        (-dy) as u64
    } else {
        dy as u64
    };
    proof {
        assert(ax * ax == dx * dx && ax * ax <= 4_000_000_000_000_000_000) by (nonlinear_arith)
            requires
                ax == (if dx >= 0 { dx as int } else { -(dx as int) }),
                0 <= ax <= 2_000_000_000,
        ;
        assert(ay * ay == dy * dy && ay * ay <= 4_000_000_000_000_000_000) by (nonlinear_arith)
            requires
                ay == (if dy >= 0 { dy as int } else { -(dy as int) }),
                0 <= ay <= 2_000_000_000,
        ;
    }
    let sx: u64 = ax * ax;
    let sy: u64 = ay * ay;
    sx + sy
}

/// The greatest `r` with `r * r <= n`.
pub open spec fn sqrt_floor(n: nat) -> nat
    decreases n,
{
    if n == 0 {
        0
    } else {
        let p = sqrt_floor((n - 1) as nat);
        if (p + 1) * (p + 1) <= n {
            p + 1
        } else {
            p
        }
    }
}

/// `sqrt_floor` is bracketed by the two neighbouring squares.
pub proof fn lemma_sqrt_floor_bounds(n: nat)
    ensures
        sqrt_floor(n) * sqrt_floor(n) <= n,
        n < (sqrt_floor(n) + 1) * (sqrt_floor(n) + 1),
    decreases n,
{
    if n == 0 {
        assert(sqrt_floor(n) == 0);
        assert((sqrt_floor(n) + 1) * (sqrt_floor(n) + 1) == 1) by (nonlinear_arith)
            requires
                sqrt_floor(n) == 0,
        ;
    } else {
        let p = sqrt_floor((n - 1) as nat);
        lemma_sqrt_floor_bounds((n - 1) as nat);
        assert(p * p <= n - 1 && (n - 1) < (p + 1) * (p + 1));
        if (p + 1) * (p + 1) <= n {
            assert(sqrt_floor(n) == p + 1);
            assert(n - 1 < (p + 1) * (p + 1));
            assert(n < (p + 2) * (p + 2)) by (nonlinear_arith)
                requires
                    n <= (p + 1) * (p + 1),
                    p >= 0,
            ;
            assert(sqrt_floor(n) * sqrt_floor(n) <= n);
            assert(n < (sqrt_floor(n) + 1) * (sqrt_floor(n) + 1));
        } else {
            assert(sqrt_floor(n) == p);
            assert(p * p <= n - 1 <= n);
            assert(sqrt_floor(n) * sqrt_floor(n) <= n);
            assert(n < (sqrt_floor(n) + 1) * (sqrt_floor(n) + 1));
        }
    }
}

/// Any `r` bracketed by the two neighbouring squares is `sqrt_floor(n)`.
pub proof fn lemma_sqrt_floor_unique(n: nat, r: nat)
    requires
        r * r <= n,
        n < (r + 1) * (r + 1),
    ensures
        r == sqrt_floor(n),
{
    let s = sqrt_floor(n);
    lemma_sqrt_floor_bounds(n);
    assert(r <= s) by (nonlinear_arith)
        requires
            r * r <= n,
            n < (s + 1) * (s + 1),
            r >= 0,
            s >= 0,
    ;
    assert(s <= r) by (nonlinear_arith)
        requires
            s * s <= n,
            n < (r + 1) * (r + 1),
            r >= 0,
            s >= 0,
    ;
}

/// A square below `n` has its root below `sqrt_floor(n)`.
pub proof fn lemma_sqrt_floor_at_least(n: nat, a: nat)
    requires
        a * a <= n,
    ensures
        a <= sqrt_floor(n),
{
    let s = sqrt_floor(n);
    lemma_sqrt_floor_bounds(n);
    assert(a <= s) by (nonlinear_arith)
        requires
            a * a <= n,
            n < (s + 1) * (s + 1),
            a >= 0,
            s >= 0,
    ;
}

/// Integer square root, rounded down.
pub fn isqrt(n: u64) -> (r: u64)
    requires
        n < 9_000_000_000_000_000_000,
    ensures
        r == sqrt_floor(n as nat),
{
    let mut lo: u64 = 0;
    let mut hi: u64 = 3_000_000_000;
    proof {
        assert((3_000_000_000 as int) * (3_000_000_000 as int) == 9_000_000_000_000_000_000);
    }
    while lo + 1 < hi
        invariant
            lo < hi,
            hi <= 3_000_000_000,
            lo * lo <= n,
            n < hi * hi,
        decreases hi - lo,
    {
        let mid: u64 = lo + (hi - lo) / 2;
        proof {
            assert(mid * mid <= 9_000_000_000_000_000_000) by (nonlinear_arith)
                requires
                    0 <= mid <= 3_000_000_000,
            ;
        }
        if mid * mid <= n {
            lo = mid;
        } else {
            hi = mid;
        }
    }
    proof {
        lemma_sqrt_floor_unique(n as nat, lo as nat);
    }
    lo
}

/// The wrapped angular distance `((d + pi) mod 2*pi) - pi`, which lies in
/// `[-pi, pi)`.
pub open spec fn wrap_angle_spec(d: int) -> int {
    ((d + PI_URAD) % (TWO_PI_URAD as int)) - PI_URAD
}

/// Wrap an angular difference into `[-pi, pi)` microradians.
pub fn wrap_angle(d: i64) -> (w: i64)
    requires
        -TWO_PI_URAD <= d <= TWO_PI_URAD,
    ensures
        w == wrap_angle_spec(d as int),
        -PI_URAD <= w < PI_URAD,
{
    let t: i64 = d + PI_URAD;
    let t2: i64 = if t < 0 {
        proof {
            lemma_mod_add_multiples_vanish(t as int, TWO_PI_URAD as int);
            lemma_small_mod((t + TWO_PI_URAD) as nat, TWO_PI_URAD as nat);
        }
        t + TWO_PI_URAD
    } else if t >= TWO_PI_URAD {
        proof {
            lemma_mod_sub_multiples_vanish(t as int, TWO_PI_URAD as int);
            lemma_small_mod((t - TWO_PI_URAD) as nat, TWO_PI_URAD as nat);
        }
        t - TWO_PI_URAD
    } else {
        proof {
            lemma_small_mod(t as nat, TWO_PI_URAD as nat);
        }
        t
    };
    t2 - PI_URAD
}

/// `v * f / 1000`, the product of a milli-scaled factor, truncated toward
/// zero.
pub fn scale_milli(v: i64, f: i64) -> (r: i64)
    requires
        -1_000_000_000_000_000 <= v * f <= 1_000_000_000_000_000,
    ensures
        r == tdiv(v * f, 1000),
        -1_000_000_000_000 <= r <= 1_000_000_000_000,
{
    let p: i64 = v * f;
    proof {
        if p >= 0 {
            lemma_div_is_ordered(p as int, 1_000_000_000_000_000, 1000);
            lemma_div_multiples_vanish(1_000_000_000_000, 1000);
        } else {
            lemma_div_is_ordered(-p as int, 1_000_000_000_000_000, 1000);
            lemma_div_multiples_vanish(1_000_000_000_000, 1000);
        }
    }
    p / 1000
}

} // verus!
