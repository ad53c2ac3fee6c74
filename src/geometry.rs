//! Distances, square roots and aiming on integer coordinates.
use vstd::prelude::*;
use crate::entity::Point;

verus! {

/// Squared distance between two points.
pub open spec fn dist2(a: Point, b: Point) -> int {
    (a.x - b.x) * (a.x - b.x) + (a.y - b.y) * (a.y - b.y)
}

/// The two points are closer than `radius`.
pub open spec fn near(a: Point, b: Point, radius: int) -> bool {
    dist2(a, b) < radius * radius
}

pub open spec fn coord_fits(v: i64) -> bool {
    -0x800_0000_0000_0000 <= v <= 0x800_0000_0000_0000
}

pub fn is_near(a: Point, b: Point, radius: i64) -> (r: bool)
    requires
        coord_fits(a.x) && coord_fits(a.y) && coord_fits(b.x) && coord_fits(b.y),
        0 <= radius <= 0x1_0000_0000,
    ensures
        r == near(a, b, radius as int),
{
    let dx: i128 = a.x as i128 - b.x as i128;
    let dy: i128 = a.y as i128 - b.y as i128;
    assert(0 <= dx * dx <= 0x100_0000_0000_0000_0000_0000_0000_0000) by (nonlinear_arith)
        requires
            -0x1000_0000_0000_0000 <= dx <= 0x1000_0000_0000_0000,
    ;
    assert(0 <= dy * dy <= 0x100_0000_0000_0000_0000_0000_0000_0000) by (nonlinear_arith)
        requires
            -0x1000_0000_0000_0000 <= dy <= 0x1000_0000_0000_0000,
    ;
    assert(0 <= radius * radius <= 0x1_0000_0000_0000_0000) by (nonlinear_arith)
        requires
            0 <= radius <= 0x1_0000_0000,
    ;
    dx * dx + dy * dy < (radius as i128) * (radius as i128)
}

pub open spec fn is_root(n: int, r: int) -> bool {
    0 <= r && r * r <= n < (r + 1) * (r + 1)
}

/// The integer square root: the largest `r` with `r * r <= n`.
pub open spec fn root(n: nat) -> int {
    choose|r: int| is_root(n as int, r)
}

proof fn lemma_root_unique(n: int, a: int, b: int)
    requires
        is_root(n, a),
        is_root(n, b),
    ensures
        a == b,
{
    if a < b {
        assert((a + 1) * (a + 1) <= b * b) by (nonlinear_arith)
            requires
                0 <= a < b,
        ;
    } else if b < a {
        assert((b + 1) * (b + 1) <= a * a) by (nonlinear_arith)
            requires
                0 <= b < a,
        ;
    }
}

pub fn isqrt(n: u128) -> (r: u64)
    ensures
        r == root(n as nat),
        is_root(n as int, r as int),
{
    let mut lo: u128 = 0;
    let mut hi: u128 = 0x1_0000_0000_0000_0000;
    assert(hi * hi > n) by (nonlinear_arith)
        requires
            hi == 0x1_0000_0000_0000_0000,
            n < 0x1_0000_0000_0000_0000_0000_0000_0000_0000,
    ;
    while lo + 1 < hi
        invariant
            lo < hi <= 0x1_0000_0000_0000_0000,
            lo * lo <= n,
            n < hi * hi,
        decreases hi - lo,
    {
        let mid: u128 = lo + (hi - lo) / 2;
        assert(mid * mid < 0x1_0000_0000_0000_0000 * 0x1_0000_0000_0000_0000) by (nonlinear_arith)
            requires
                mid < 0x1_0000_0000_0000_0000,
        ;
        if mid * mid <= n {
            lo = mid;
        } else {
            hi = mid;
        }
    }
    assert(is_root(n as int, lo as int));
    proof {
        let w = root(n as nat);
        assert(is_root(n as int, w));
        lemma_root_unique(n as int, w, lo as int);
    }
    lo as u64
}

/// `c × speed / len`, rounded toward zero.
pub open spec fn scale_toward_zero(c: int, speed: int, len: int) -> int {
    if c >= 0 {
        (c * speed) / len
    } else {
        -(((-c) * speed) / len)
    }
}

/// The velocity of magnitude `speed` pointing along `(dx, dy)`, or zero when the
/// direction is zero; its length is the integer square root of the squared distance.
pub open spec fn aim_spec(dx: int, dy: int, speed: int) -> Point {
    let len = root((dx * dx + dy * dy) as nat);
    if len == 0 {
        Point { x: 0, y: 0 }
    } else {
        Point {
            x: scale_toward_zero(dx, speed, len) as i64,
            y: scale_toward_zero(dy, speed, len) as i64,
        }
    }
}

proof fn lemma_component_below_root(c: int, other: int, len: int)
    requires
        is_root(c * c + other * other, len),
    ensures
        -len <= c <= len,
{
    assert(other * other >= 0) by (nonlinear_arith);
    let a = if c >= 0 { c } else { -c };
    assert(a * a == c * c) by (nonlinear_arith)
        requires
            a == c || a == -c,
    ;
    if a > len {
        assert((len + 1) * (len + 1) <= a * a) by (nonlinear_arith)
            requires
                0 <= len < a,
        ;
    }
}

fn scale_component(c: i64, speed: i64, len: u64) -> (r: i64)
    requires
        -0x40_0000_0000_0000 <= c <= 0x40_0000_0000_0000,
        0 <= speed <= 0x400_0000_0000,
        len > 0,
        -(len as int) <= c <= len,
    ensures
        r == scale_toward_zero(c as int, speed as int, len as int),
        -speed <= r <= speed,
{
    let a: i128 = if c >= 0 { c as i128 } else { -(c as i128) };
    assert(0 <= a * speed <= len * speed) by (nonlinear_arith)
        requires
            0 <= a <= len,
            0 <= speed,
    ;
    assert(a * speed <= 0x40_0000_0000_0000 * 0x400_0000_0000) by (nonlinear_arith)
        requires
            0 <= a <= 0x40_0000_0000_0000,
            0 <= speed <= 0x400_0000_0000,
    ;
    let q: i128 = (a * speed as i128) / (len as i128);
    assert(q <= speed) by (nonlinear_arith)
        requires
            q == (a * speed) / (len as int),
            0 <= a * speed <= len * speed,
            len > 0,
    ;
    if c >= 0 {
        q as i64
    } else {
        -(q as i64)
    }
}

/// A velocity of magnitude `speed` along `(dx, dy)`, zero for a zero direction.
pub fn aim(dx: i64, dy: i64, speed: i64) -> (r: Point)
    requires
        -0x40_0000_0000_0000 <= dx <= 0x40_0000_0000_0000,
        -0x40_0000_0000_0000 <= dy <= 0x40_0000_0000_0000,
        0 <= speed <= 0x400_0000_0000,
    ensures
        r == aim_spec(dx as int, dy as int, speed as int),
        -speed <= r.x <= speed,
        -speed <= r.y <= speed,
{
    assert(0 <= dx * dx <= 0x1000_0000_0000_0000_0000_0000_0000) by (nonlinear_arith)
        requires
            -0x40_0000_0000_0000 <= dx <= 0x40_0000_0000_0000,
    ;
    assert(0 <= dy * dy <= 0x1000_0000_0000_0000_0000_0000_0000) by (nonlinear_arith)
        requires
            -0x40_0000_0000_0000 <= dy <= 0x40_0000_0000_0000,
    ;
    let dx2: i128 = dx as i128 * dx as i128;
    let dy2: i128 = dy as i128 * dy as i128;
    let len = isqrt((dx2 + dy2) as u128);
    if len == 0 {
        Point { x: 0, y: 0 }
    } else {
        proof {
            lemma_component_below_root(dx as int, dy as int, len as int);
            lemma_component_below_root(dy as int, dx as int, len as int);
        }
        let x = scale_component(dx, speed, len);
        let y = scale_component(dy, speed, len);
        Point { x, y }
    }
}

pub open spec fn clamp(v: int, lo: int, hi: int) -> int {
    if v < lo {
        lo
    } else if v > hi {
        hi
    } else {
        v
    }
}

} // verus!
