//! Fixed-point planar geometry: vectors, integer square root, and unit
//! directions scaled by 1000.

use vstd::prelude::*;

verus! {

/// Positions are stored in nano-units: 10^9 per world unit. Velocities are
/// stored in milli-units per second, so a position advances by exactly
/// `velocity * dt` nano-units when `dt` is in microseconds.
pub const NANOS_PER_UNIT: i64 = 1_000_000_000;

/// Velocities and scalar fractions are stored in thousandths of a unit.
pub const MILLIS_PER_UNIT: i64 = 1_000;

/// Coordinates saturate at this magnitude (a billion world units from the
/// origin), which keeps sums and squared distances inside machine integers.
pub const COORD_LIMIT: i64 = 1_000_000_000_000_000_000;

/// A planar vector of fixed-point integers.
#[derive(Clone, Copy, PartialEq, Eq, Structural, Debug)]
pub struct Vec2 {
    pub x: i64,
    pub y: i64,
}

pub open spec fn abs_val(v: int) -> int {
    if v < 0 {
        -v
    } else {
        v
    }
}

/// A coordinate clipped to the representable span of the arena.
pub open spec fn clamp_coord(v: int) -> int {
    if v > COORD_LIMIT {
        COORD_LIMIT as int
    } else if v < -COORD_LIMIT {
        -COORD_LIMIT as int
    } else {
        v
    }
}

/// Both coordinates of `v` lie within the representable span.
pub open spec fn in_arena(v: Vec2) -> bool {
    -COORD_LIMIT <= v.x <= COORD_LIMIT && -COORD_LIMIT <= v.y <= COORD_LIMIT
}

pub open spec fn spec_dist_sq(a: Vec2, b: Vec2) -> int {
    (a.x - b.x) * (a.x - b.x) + (a.y - b.y) * (a.y - b.y)
}

/// Clip a wide intermediate coordinate back into the arena span.
pub fn saturate_coord(v: i128) -> (r: i64)
    ensures
        r == clamp_coord(v as int),
{
    if v > COORD_LIMIT as i128 {
        COORD_LIMIT
    } else if v < -COORD_LIMIT as i128 {
        -COORD_LIMIT
    } else {
        v as i64
    }
}

/// Component-wise sum; exact for arena coordinates.
pub fn vec_add(a: Vec2, b: Vec2) -> (r: Vec2)
    requires
        in_arena(a),
        in_arena(b),
    ensures
        r.x == a.x + b.x,
        r.y == a.y + b.y,
{
    Vec2 { x: a.x + b.x, y: a.y + b.y }
}

/// Component-wise difference; exact for arena coordinates.
pub fn vec_sub(a: Vec2, b: Vec2) -> (r: Vec2)
    requires
        in_arena(a),
        in_arena(b),
    ensures
        r.x == a.x - b.x,
        r.y == a.y - b.y,
{
    Vec2 { x: a.x - b.x, y: a.y - b.y }
}

/// Squared Euclidean distance, exact in a wide integer.
pub fn dist_sq(a: Vec2, b: Vec2) -> (d: i128)
    requires
        in_arena(a),
        in_arena(b),
    ensures
        d == spec_dist_sq(a, b),
{
    let dx: i128 = a.x as i128 - b.x as i128;
    let dy: i128 = a.y as i128 - b.y as i128;
    proof {
        assert(0 <= dx * dx <= 4_000_000_000_000_000_000_000_000_000_000_000_000
            && 0 <= dy * dy <= 4_000_000_000_000_000_000_000_000_000_000_000_000)
            by (nonlinear_arith)
            requires
                -2_000_000_000_000_000_000 <= dx <= 2_000_000_000_000_000_000,
                -2_000_000_000_000_000_000 <= dy <= 2_000_000_000_000_000_000,
        ;
    }
    dx * dx + dy * dy
}

/// The floor of the square root of a natural number.
pub open spec fn sqrt_floor(n: nat) -> nat
    decreases n,
{
    if n == 0 {
        0
    } else {
        let r = sqrt_floor((n - 1) as nat);
        if (r + 1) * (r + 1) <= n {
            r + 1
        } else {
            r
        }
    }
}

pub proof fn lemma_sqrt_floor_bounds(n: nat)
    ensures
        sqrt_floor(n) * sqrt_floor(n) <= n,
        n < (sqrt_floor(n) + 1) * (sqrt_floor(n) + 1),
    decreases n,
{
    if n > 0 {
        lemma_sqrt_floor_bounds((n - 1) as nat);
        let r = sqrt_floor((n - 1) as nat);
        assert(r * r <= n - 1);
        assert(n - 1 < (r + 1) * (r + 1));
        if (r + 1) * (r + 1) <= n {
            assert(sqrt_floor(n) == r + 1);
            assert(n < (r + 2) * (r + 2)) by (nonlinear_arith)
                requires
                    n <= (r + 1) * (r + 1),
            ;
        } else {
            assert(sqrt_floor(n) == r);
        }
        assert(sqrt_floor(n) * sqrt_floor(n) <= n);
        assert(n < (sqrt_floor(n) + 1) * (sqrt_floor(n) + 1));
    } else {
        assert(n == 0);
        assert(sqrt_floor(n) == 0);
        assert(sqrt_floor(n) * sqrt_floor(n) <= n);
        assert(n < (sqrt_floor(n) + 1) * (sqrt_floor(n) + 1)) by (nonlinear_arith)
            requires
                n == 0,
                sqrt_floor(n) == 0,
        ;
    }
}

/// `sqrt_floor` is the unique natural number whose square brackets `n`.
pub proof fn lemma_sqrt_floor_unique(n: nat, r: nat)
    requires
        r * r <= n,
        n < (r + 1) * (r + 1),
    ensures
        r == sqrt_floor(n),
{
    let s = sqrt_floor(n);
    lemma_sqrt_floor_bounds(n);
    if r < s {
        assert((r + 1) * (r + 1) <= s * s) by (nonlinear_arith)
            requires
                r + 1 <= s,
        ;
    }
    if s < r {
        assert((s + 1) * (s + 1) <= r * r) by (nonlinear_arith)
            requires
                s + 1 <= r,
        ;
    }
}

/// Integer square root by upward search; linear in the root, which is small
/// for the magnitudes this crate works with.
pub fn isqrt(n: u64) -> (r: u64)
    requires
        n <= 4_000_000_000_000,
    ensures
        r == sqrt_floor(n as nat),
{
    let mut r: u64 = 0;
    let mut sq: u64 = 1;
    while sq <= n
        invariant
            n <= 4_000_000_000_000,
            sq == (r + 1) * (r + 1),
            r * r <= n,
            r <= n,
            r <= 2_000_000,
        decreases n - r,
    {
        proof {
            assert(r + 1 <= 2_000_000) by (nonlinear_arith)
                requires
                    (r + 1) * (r + 1) <= n,
                    n <= 4_000_000_000_000,
            ;
        }
        r = r + 1;
        proof {
            assert(r <= n) by (nonlinear_arith)
                requires
                    r * r <= n,
                    r >= 1,
            ;
            assert((r + 1) * (r + 1) <= 4_008_004_000_000) by (nonlinear_arith)
                requires
                    r <= 2_000_000,
            ;
        }
        sq = (r + 1) * (r + 1);
    }
    proof {
        lemma_sqrt_floor_unique(n as nat, r as nat);
    }
    r
}

/// Scale of unit direction vectors: a normalized vector has components in
/// thousandths, so its squared length is close to `DIR_SCALE * DIR_SCALE`.
pub const DIR_SCALE: i64 = 1_000;

/// Length, rounded down, of the vector `(x, y)`.
pub open spec fn dir_len(x: int, y: int) -> nat {
    sqrt_floor((x * x + y * y) as nat)
}

/// One component of a vector rescaled to length `scale`: multiplied by the
/// scale, divided by the length, rounded toward zero.
pub open spec fn scaled_component(c: int, len: nat, scale: int) -> int {
    if c >= 0 {
        (c * scale) / (len as int)
    } else {
        -(((-c) * scale) / (len as int))
    }
}

/// One component of a direction normalized to `DIR_SCALE`.
pub open spec fn unit_component(c: int, len: nat) -> int {
    scaled_component(c, len, 1000)
}

/// Rescale the nonzero vector `(x, y)` to length `scale`, component-wise,
/// rounded toward zero. No component of the result exceeds `scale` in
/// magnitude.
pub fn rescale(x: i64, y: i64, scale: u64) -> (d: Vec2)
    requires
        !(x == 0 && y == 0),
        -1_400_000 <= x <= 1_400_000,
        -1_400_000 <= y <= 1_400_000,
        scale <= 1_000_000,
    ensures
        d.x == scaled_component(x as int, dir_len(x as int, y as int), scale as int),
        d.y == scaled_component(y as int, dir_len(x as int, y as int), scale as int),
        abs_val(d.x as int) <= scale,
        abs_val(d.y as int) <= scale,
{
    proof {
        assert(0 <= x * x <= 1_960_000_000_000 && 0 <= y * y <= 1_960_000_000_000
            && (x != 0 ==> x * x >= 1) && (y != 0 ==> y * y >= 1)) by (nonlinear_arith)
            requires
                -1_400_000 <= x <= 1_400_000,
                -1_400_000 <= y <= 1_400_000,
        ;
    }
    let n2: u64 = (x * x + y * y) as u64;
    let l: u64 = isqrt(n2);
    proof {
        lemma_sqrt_floor_bounds(n2 as nat);
        if l == 0 {
            assert((sqrt_floor(n2 as nat) + 1) * (sqrt_floor(n2 as nat) + 1) == 1)
                by (nonlinear_arith)
                requires
                    sqrt_floor(n2 as nat) == 0,
            ;
        }
    }
    let ax: u64 = if x < 0 {
        (-x) as u64
    } else {
        x as u64
    };
    let ay: u64 = if y < 0 {
        (-y) as u64
    } else {
        y as u64
    };
    proof {
        assert(ax as int * ax as int == x as int * x as int
            && ay as int * ay as int == y as int * y as int) by (nonlinear_arith)
            requires
                ((x < 0 && ax == -(x as int)) || (x >= 0 && ax == x as int)),
                ((y < 0 && ay == -(y as int)) || (y >= 0 && ay == y as int)),
        ;
        assert(ax <= l && ay <= l) by (nonlinear_arith)
            requires
                ax as int * ax as int <= n2,
                ay as int * ay as int <= n2,
                n2 < (l + 1) * (l + 1),
                0 <= ax && 0 <= ay && 0 <= l,
        ;
        assert(ax as int * scale as int <= l as int * scale as int
            && ay as int * scale as int <= l as int * scale as int
            && l as int * scale as int == scale as int * l as int) by (nonlinear_arith)
            requires
                ax <= l,
                ay <= l,
                0 <= scale,
        ;
        vstd::arithmetic::div_mod::lemma_div_is_ordered(
            ax as int * scale as int,
            l as int * scale as int,
            l as int,
        );
        vstd::arithmetic::div_mod::lemma_div_is_ordered(
            ay as int * scale as int,
            l as int * scale as int,
            l as int,
        );
        vstd::arithmetic::div_mod::lemma_div_by_multiple(scale as int, l as int);
        assert(ax as int * scale as int <= 1_400_000_000_000
            && ay as int * scale as int <= 1_400_000_000_000) by (nonlinear_arith)
            requires
                0 <= ax <= 1_400_000,
                0 <= ay <= 1_400_000,
                0 <= scale <= 1_000_000,
        ;
    }
    let mx: u64 = ax * scale / l;
    let my: u64 = ay * scale / l;
    let dx: i64 = if x < 0 {
        -(mx as i64)
    } else {
        mx as i64
    };
    let dy: i64 = if y < 0 {
        -(my as i64)
    } else {
        my as i64
    };
    Vec2 { x: dx, y: dy }
}

/// The normalized direction of `(x, y)` is unit length up to quantization.
/// With `l` the vector's rounded length and `(dx, dy)` the direction scaled
/// to a thousand, the direction's squared length is at most the unit square
/// inflated by one rounding step of the length (upper clause), and adding
/// one rounding step to each component already overshoots the unit square
/// (lower clause).
pub open spec fn unit_length_bounds(x: int, y: int) -> bool {
    let l = dir_len(x, y) as int;
    let dx = unit_component(x, dir_len(x, y));
    let dy = unit_component(y, dir_len(x, y));
    (dx * dx + dy * dy) * (l * l) <= 1_000_000 * ((l + 1) * (l + 1)) && 1_000_000 < (abs_val(dx)
        + 1) * (abs_val(dx) + 1) + (abs_val(dy) + 1) * (abs_val(dy) + 1)
}

/// Every direction drawn from a nonzero vector is unit length within the
/// tolerance of fixed-point rounding.
pub proof fn lemma_unit_dir_length(x: int, y: int)
    requires
        !(x == 0 && y == 0),
        -1_000_000 <= x <= 1_000_000,
        -1_000_000 <= y <= 1_000_000,
    ensures
        unit_length_bounds(x, y),
{
    let a = abs_val(x);
    let b = abs_val(y);
    assert(a * a == x * x && b * b == y * y && (x != 0 ==> x * x >= 1) && (y != 0 ==> y * y >= 1)
        && x * x >= 0 && y * y >= 0) by (nonlinear_arith)
        requires
            ((x < 0 && a == -x) || (x >= 0 && a == x)),
            ((y < 0 && b == -y) || (y >= 0 && b == y)),
    ;
    let n2 = (x * x + y * y) as nat;
    let l = sqrt_floor(n2) as int;
    lemma_sqrt_floor_bounds(n2);
    if l == 0 {
        assert((sqrt_floor(n2) + 1) * (sqrt_floor(n2) + 1) == 1) by (nonlinear_arith)
            requires
                sqrt_floor(n2) == 0,
        ;
    }
    assert(l >= 1);
    let p = (a * 1000) / l;
    let q = (b * 1000) / l;
    let dx = unit_component(x, dir_len(x, y));
    let dy = unit_component(y, dir_len(x, y));
    assert(dx == if x >= 0 { p } else { -p } && dy == if y >= 0 { q } else { -q });
    vstd::arithmetic::div_mod::lemma_fundamental_div_mod(a * 1000, l);
    vstd::arithmetic::div_mod::lemma_fundamental_div_mod(b * 1000, l);
    vstd::arithmetic::div_mod::lemma_mod_bound(a * 1000, l);
    vstd::arithmetic::div_mod::lemma_mod_bound(b * 1000, l);
    assert(l * p <= a * 1000 < (p + 1) * l) by (nonlinear_arith)
        requires
            a * 1000 == l * p + (a * 1000) % l,
            0 <= (a * 1000) % l < l,
    ;
    assert(l * q <= b * 1000 < (q + 1) * l) by (nonlinear_arith)
        requires
            b * 1000 == l * q + (b * 1000) % l,
            0 <= (b * 1000) % l < l,
    ;
    assert(p >= 0 && q >= 0) by (nonlinear_arith)
        requires
            l * p <= a * 1000,
            (p + 1) * l > a * 1000,
            l * q <= b * 1000,
            (q + 1) * l > b * 1000,
            a >= 0,
            b >= 0,
            l >= 1,
    ;
    // Upper bound: each scaled component is at most its share of the length.
    assert((p * p) * (l * l) <= 1_000_000 * (a * a) && (q * q) * (l * l) <= 1_000_000 * (b * b))
        by (nonlinear_arith)
        requires
            0 <= p && 0 <= q && 1 <= l,
            l * p <= a * 1000,
            l * q <= b * 1000,
            a >= 0,
            b >= 0,
    ;
    assert((dx * dx + dy * dy) * (l * l) <= 1_000_000 * (a * a + b * b)) by (nonlinear_arith)
        requires
            (p * p) * (l * l) <= 1_000_000 * (a * a),
            (q * q) * (l * l) <= 1_000_000 * (b * b),
            dx == p || dx == -p,
            dy == q || dy == -q,
    ;
    assert(1_000_000 * (a * a + b * b) <= 1_000_000 * ((l + 1) * (l + 1))) by (nonlinear_arith)
        requires
            a * a + b * b < (l + 1) * (l + 1),
    ;
    // Lower bound: one rounding step per component overshoots the length.
    assert(1_000_000 * (a * a) < ((p + 1) * (p + 1)) * (l * l) && 1_000_000 * (b * b) < ((q + 1)
        * (q + 1)) * (l * l)) by (nonlinear_arith)
        requires
            0 <= a * 1000 && 0 <= b * 1000,
            a * 1000 < (p + 1) * l,
            b * 1000 < (q + 1) * l,
    ;
    assert(1_000_000 < (p + 1) * (p + 1) + (q + 1) * (q + 1)) by (nonlinear_arith)
        requires
            1_000_000 * (a * a) < ((p + 1) * (p + 1)) * (l * l),
            1_000_000 * (b * b) < ((q + 1) * (q + 1)) * (l * l),
            l * l <= a * a + b * b,
            l >= 1,
    ;
    assert(abs_val(dx) == p && abs_val(dy) == q);
}

/// Normalize `(x, y)` to a direction vector scaled by `DIR_SCALE`.
/// The zero vector has no direction and is excluded.
pub fn unit_dir(x: i64, y: i64) -> (d: Vec2)
    requires
        !(x == 0 && y == 0),
        -1_000_000 <= x <= 1_000_000,
        -1_000_000 <= y <= 1_000_000,
    ensures
        d.x == unit_component(x as int, dir_len(x as int, y as int)),
        d.y == unit_component(y as int, dir_len(x as int, y as int)),
        abs_val(d.x as int) <= 1000,
        abs_val(d.y as int) <= 1000,
{
    rescale(x, y, 1000)
}

} // verus!
