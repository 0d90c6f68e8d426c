//! Fixed-point planar and spatial geometry.
//!
//! Coordinates are in milli-units (1000 milli-units = 1 world unit).
//! Distances are exact integer square roots of squared distances, and
//! movement toward a point travels at most the remaining distance, so a
//! mover never flies past its goal and a zero-length direction vector
//! means "no movement this tick" rather than a division by zero.

use vstd::prelude::*;

verus! {

use vstd::arithmetic::div_mod::{lemma_div_is_ordered, lemma_div_multiples_vanish};
use vstd::arithmetic::mul::lemma_mul_inequality;

/// Bound on the planar coordinates of anything the simulation moves.
pub const COORD_LIMIT: i64 = 1_000_000_000;

/// Bound on the height (`y`) coordinate of a flying entity.
pub const HEIGHT_LIMIT: i64 = 1_000_000;

/// Largest distance any entity may travel in a single tick.
pub const STEP_LIMIT: i64 = 1_000_000;

/// A planar point or vector, in milli-units.
#[derive(Clone, Copy, PartialEq, Eq, Structural, Debug)]
pub struct Vec2Fx {
    pub x: i64,
    pub y: i64,
}

/// A spatial point, in milli-units; `y` is the height above the ground
/// plane spanned by `x` and `z`.
#[derive(Clone, Copy, PartialEq, Eq, Structural, Debug)]
pub struct Vec3Fx {
    pub x: i64,
    pub y: i64,
    pub z: i64,
}

impl Vec2Fx {
    pub open spec fn wf(self) -> bool {
        &&& -COORD_LIMIT <= self.x <= COORD_LIMIT
        &&& -COORD_LIMIT <= self.y <= COORD_LIMIT
    }

    pub fn new(x: i64, y: i64) -> (r: Vec2Fx)
        ensures
            r.x == x,
            r.y == y,
    {
        Vec2Fx { x, y }
    }

    pub fn zeros() -> (r: Vec2Fx)
        ensures
            r.x == 0,
            r.y == 0,
            r.wf(),
    {
        Vec2Fx { x: 0, y: 0 }
    }
}

impl Vec3Fx {
    pub open spec fn wf(self) -> bool {
        &&& -COORD_LIMIT <= self.x <= COORD_LIMIT
        &&& 0 <= self.y <= HEIGHT_LIMIT
        &&& -COORD_LIMIT <= self.z <= COORD_LIMIT
    }

    pub fn new(x: i64, y: i64, z: i64) -> (r: Vec3Fx)
        ensures
            r.x == x,
            r.y == y,
            r.z == z,
    {
        Vec3Fx { x, y, z }
    }
}

/// The planar shadow of a spatial point.
pub fn v3_to_v2(v: &Vec3Fx) -> (r: Vec2Fx)
    ensures
        r.x == v.x,
        r.y == v.z,
{
    Vec2Fx { x: v.x, y: v.z }
}

/// Lifts a planar point to the given height.
pub fn v2_to_v3(v: &Vec2Fx, height: i64) -> (r: Vec3Fx)
    ensures
        r.x == v.x,
        r.y == height,
        r.z == v.y,
{
    Vec3Fx { x: v.x, y: height, z: v.y }
}

/// The squared planar distance between two points.
pub open spec fn spec_dist_sq2(a: Vec2Fx, b: Vec2Fx) -> int {
    (a.x - b.x) * (a.x - b.x) + (a.y - b.y) * (a.y - b.y)
}

/// The squared spatial distance between two points.
pub open spec fn spec_dist_sq3(a: Vec3Fx, b: Vec3Fx) -> int {
    (a.x - b.x) * (a.x - b.x) + (a.y - b.y) * (a.y - b.y) + (a.z - b.z) * (a.z - b.z)
}

proof fn lemma_square_bound(d: int, b: int)
    requires
        -b <= d <= b,
        0 <= b,
    ensures
        0 <= d * d <= b * b,
{
    assert(0 <= d * d <= b * b) by (nonlinear_arith)
        requires
            -b <= d <= b,
            0 <= b,
    ;
}

pub fn dist_sq2(a: &Vec2Fx, b: &Vec2Fx) -> (r: i64)
    requires
        a.wf(),
        b.wf(),
    ensures
        r == spec_dist_sq2(*a, *b),
        r >= 0,
{
    let dx = a.x - b.x;
    let dy = a.y - b.y;
    proof {
        lemma_square_bound(dx as int, 2 * COORD_LIMIT as int);
        lemma_square_bound(dy as int, 2 * COORD_LIMIT as int);
    }
    dx * dx + dy * dy
}

pub fn dist_sq3(a: &Vec3Fx, b: &Vec3Fx) -> (r: i64)
    requires
        a.wf(),
        b.wf(),
    ensures
        r == spec_dist_sq3(*a, *b),
        r >= 0,
{
    let dx = a.x - b.x;
    let dy = a.y - b.y;
    let dz = a.z - b.z;
    proof {
        lemma_square_bound(dx as int, 2 * COORD_LIMIT as int);
        lemma_square_bound(dy as int, 2 * HEIGHT_LIMIT as int);
        lemma_square_bound(dz as int, 2 * COORD_LIMIT as int);
    }
    dx * dx + dy * dy + dz * dz
}

/// Integer division rounded toward zero, as the executable code computes it.
pub open spec fn trunc_div(a: int, b: int) -> int {
    if a >= 0 {
        a / b
    } else {
        -((-a) / b)
    }
}

/// Divides rounding toward zero.  Operands are kept well inside `i64` so
/// the magnitude arithmetic cannot overflow.
pub fn div_trunc(a: i64, b: i64) -> (r: i64)
    requires
        0 < b,
        -0x4000_0000_0000_0000 < a < 0x4000_0000_0000_0000,
    ensures
        r == trunc_div(a as int, b as int),
{
    if a >= 0 {
        ((a as u64) / (b as u64)) as i64
    } else {
        let q = ((-a) as u64) / (b as u64);
        -(q as i64)
    }
}

/// The integer square root, rounded down.
pub open spec fn sqrt_floor(n: nat) -> nat
    decreases n,
{
    if n == 0 {
        0
    } else {
        let s = sqrt_floor((n - 1) as nat);
        if (s + 1) * (s + 1) <= n {
            s + 1
        } else {
            s
        }
    }
}

pub proof fn lemma_sqrt_floor_bounds(n: nat)
    ensures
        sqrt_floor(n) * sqrt_floor(n) <= n,
        n < (sqrt_floor(n) + 1) * (sqrt_floor(n) + 1),
    decreases n,
{
    if n == 0 {
        assert(sqrt_floor(0) == 0);
        assert((0 + 1) * (0 + 1) == 1) by (nonlinear_arith);
    } else {
        let s = sqrt_floor((n - 1) as nat);
        lemma_sqrt_floor_bounds((n - 1) as nat);
        if (s + 1) * (s + 1) <= n {
            assert(sqrt_floor(n) == s + 1);
            assert(n - 1 < (s + 1) * (s + 1));
            assert(n == (s + 1) * (s + 1));
            assert((s + 1) * (s + 1) < (s + 2) * (s + 2)) by (nonlinear_arith)
                requires
                    s >= 0,
            ;
        } else {
            assert(sqrt_floor(n) == s);
        }
    }
}

pub proof fn lemma_sqrt_floor_unique(n: nat, r: nat)
    requires
        r * r <= n,
        n < (r + 1) * (r + 1),
    ensures
        r == sqrt_floor(n),
{
    let s = sqrt_floor(n);
    lemma_sqrt_floor_bounds(n);
    if r < s {
        assert((r + 1) * (r + 1) <= s * s) by (nonlinear_arith)
            requires
                r + 1 <= s,
                r >= 0,
        ;
    }
    if s < r {
        assert((s + 1) * (s + 1) <= r * r) by (nonlinear_arith)
            requires
                s + 1 <= r,
                s >= 0,
        ;
    }
}

/// Computes the integer square root by binary search.
pub fn isqrt(n: u64) -> (r: u64)
    ensures
        r == sqrt_floor(n as nat),
        r * r <= n,
        r <= 4_294_967_296,
{
    if n == 0 {
        proof {
            assert((0 + 1) * (0 + 1) == 1) by (nonlinear_arith);
            lemma_sqrt_floor_unique(0, 0);
        }
        return 0;
    }
    let mut lo: u64 = 0;
    let mut hi: u64 = 4_294_967_296;
    proof {
        assert((hi as int) * (hi as int) > n as int) by (nonlinear_arith)
            requires
                hi == 4_294_967_296u64,
                n <= u64::MAX,
        ;
    }
    while lo + 1 < hi
        invariant
            lo < hi <= 4_294_967_296,
            (lo as int) * (lo as int) <= n as int,
            (n as int) < (hi as int) * (hi as int),
        decreases hi - lo,
    {
        let mid = lo + (hi - lo) / 2;
        proof {
            assert((mid as int) * (mid as int) <= 4_294_967_296 * 4_294_967_296)
                by (nonlinear_arith)
                requires
                    0 <= mid <= 4_294_967_296u64,
            ;
        }
        let sq: u128 = (mid as u128) * (mid as u128);
        if sq <= n as u128 {
            lo = mid;
        } else {
            hi = mid;
        }
    }
    proof {
        assert((n as int) < ((lo + 1) as int) * ((lo + 1) as int));
        lemma_sqrt_floor_unique(n as nat, lo as nat);
    }
    lo
}

/// The (rounded-down) planar distance between two points.
pub open spec fn spec_dist2(a: Vec2Fx, b: Vec2Fx) -> int {
    sqrt_floor(spec_dist_sq2(a, b) as nat) as int
}

/// The (rounded-down) spatial distance between two points.
pub open spec fn spec_dist3(a: Vec3Fx, b: Vec3Fx) -> int {
    sqrt_floor(spec_dist_sq3(a, b) as nat) as int
}

pub fn dist2(a: &Vec2Fx, b: &Vec2Fx) -> (r: i64)
    requires
        a.wf(),
        b.wf(),
    ensures
        r == spec_dist2(*a, *b),
        r >= 0,
{
    let d2 = dist_sq2(a, b);
    let r = isqrt(d2 as u64);
    proof {
        lemma_sqrt_floor_bounds(d2 as nat);
        assert(r * r <= d2 as u64);
    }
    r as i64
}

pub fn dist3(a: &Vec3Fx, b: &Vec3Fx) -> (r: i64)
    requires
        a.wf(),
        b.wf(),
    ensures
        r == spec_dist3(*a, *b),
        r >= 0,
{
    let d2 = dist_sq3(a, b);
    let r = isqrt(d2 as u64);
    proof {
        lemma_sqrt_floor_bounds(d2 as nat);
    }
    r as i64
}

/// One signed component of a movement of length `step` along the direction
/// whose component is `delta` and whose total length is `dist`
/// (`step <= dist`); rounding is toward zero.
pub open spec fn toward_step(delta: int, step: int, dist: int) -> int {
    if delta >= 0 {
        delta * step / dist
    } else {
        -((-delta) * step / dist)
    }
}

/// `|toward_step(delta, step, dist)| <= |delta|` whenever `step <= dist`.
proof fn lemma_toward_step_bounded(delta: int, step: int, dist: int)
    requires
        0 <= step <= dist,
        0 < dist,
    ensures
        delta >= 0 ==> 0 <= toward_step(delta, step, dist) <= delta,
        delta < 0 ==> delta <= toward_step(delta, step, dist) <= 0,
{
    let a = if delta >= 0 {
        delta
    } else {
        -delta
    };
    lemma_mul_inequality(step, dist, a);
    assert(a * step == step * a) by (nonlinear_arith);
    assert(a * dist == dist * a) by (nonlinear_arith);
    lemma_div_is_ordered(a * step, a * dist, dist);
    lemma_div_multiples_vanish(a, dist);
    assert(a * step / dist <= a);
    vstd::arithmetic::div_mod::lemma_div_pos_is_pos(a * step, dist);
    assert(a * step >= 0) by (nonlinear_arith)
        requires
            a >= 0,
            step >= 0,
    ;
}

fn toward_step_exec(delta: i64, step: i64, dist: i64) -> (r: i64)
    requires
        0 <= step <= dist,
        0 < dist,
        -COORD_LIMIT * 2 <= delta <= COORD_LIMIT * 2,
        step <= STEP_LIMIT,
    ensures
        r == toward_step(delta as int, step as int, dist as int),
        delta >= 0 ==> 0 <= r <= delta,
        delta < 0 ==> delta <= r <= 0,
{
    let a: u64 = if delta >= 0 {
        delta as u64
    } else {
        (-delta) as u64
    };
    proof {
        lemma_toward_step_bounded(delta as int, step as int, dist as int);
        assert((a as int) * (step as int) <= (COORD_LIMIT * 2) as int * (STEP_LIMIT as int))
            by (nonlinear_arith)
            requires
                0 <= (a as int) <= (COORD_LIMIT * 2) as int,
                0 <= (step as int) <= STEP_LIMIT as int,
        ;
    }
    let q: u64 = a * (step as u64) / (dist as u64);
    if delta >= 0 {
        q as i64
    } else {
        -(q as i64)
    }
}

/// Where a planar mover at `pos` ends up after travelling `step`
/// milli-units toward `target`: it travels at most the remaining distance,
/// so it stops exactly at `target` rather than flying past it, and a mover
/// already at its target does not move at all.
pub open spec fn spec_advance2(pos: Vec2Fx, target: Vec2Fx, step: int) -> Vec2Fx {
    let d = spec_dist2(pos, target);
    if d == 0 {
        pos
    } else if step >= d {
        target
    } else {
        Vec2Fx {
            x: (pos.x + toward_step(target.x - pos.x, step, d)) as i64,
            y: (pos.y + toward_step(target.y - pos.y, step, d)) as i64,
        }
    }
}

/// A coordinate delta is never larger than the rounded-down distance.
proof fn lemma_delta_le_dist2(pos: Vec2Fx, target: Vec2Fx)
    requires
        pos.wf(),
        target.wf(),
    ensures
        -spec_dist2(pos, target) <= target.x - pos.x <= spec_dist2(pos, target),
        -spec_dist2(pos, target) <= target.y - pos.y <= spec_dist2(pos, target),
{
    let d2 = spec_dist_sq2(pos, target);
    let d = sqrt_floor(d2 as nat) as int;
    assert(d2 >= 0) by (nonlinear_arith)
        requires
            d2 == (pos.x - target.x) * (pos.x - target.x) + (pos.y - target.y) * (pos.y
                - target.y),
    ;
    lemma_sqrt_floor_bounds(d2 as nat);
    let dx = pos.x - target.x;
    let dy = pos.y - target.y;
    assert(dx * dx <= d2 && dy * dy <= d2) by (nonlinear_arith)
        requires
            d2 == dx * dx + dy * dy,
    ;
    assert(-d <= dx <= d) by (nonlinear_arith)
        requires
            dx * dx <= d2,
            d2 < (d + 1) * (d + 1),
            d >= 0,
    ;
    assert(-d <= dy <= d) by (nonlinear_arith)
        requires
            dy * dy <= d2,
            d2 < (d + 1) * (d + 1),
            d >= 0,
    ;
}

pub fn advance2(pos: &Vec2Fx, target: &Vec2Fx, step: i64) -> (r: Vec2Fx)
    requires
        pos.wf(),
        target.wf(),
        0 <= step <= STEP_LIMIT,
    ensures
        r == spec_advance2(*pos, *target, step as int),
        r.wf(),
{
    let d = dist2(pos, target);
    proof {
        lemma_delta_le_dist2(*pos, *target);
    }
    if d == 0 {
        *pos
    } else if step >= d {
        *target
    } else {
        proof {
            lemma_toward_step_bounded((target.x - pos.x) as int, step as int, d as int);
            lemma_toward_step_bounded((target.y - pos.y) as int, step as int, d as int);
        }
        let sx = toward_step_exec(target.x - pos.x, step, d);
        let sy = toward_step_exec(target.y - pos.y, step, d);
        Vec2Fx { x: pos.x + sx, y: pos.y + sy }
    }
}

/// Spatial counterpart of [`spec_advance2`].
pub open spec fn spec_advance3(pos: Vec3Fx, target: Vec3Fx, step: int) -> Vec3Fx {
    let d = spec_dist3(pos, target);
    if d == 0 {
        pos
    } else if step >= d {
        target
    } else {
        Vec3Fx {
            x: (pos.x + toward_step(target.x - pos.x, step, d)) as i64,
            y: (pos.y + toward_step(target.y - pos.y, step, d)) as i64,
            z: (pos.z + toward_step(target.z - pos.z, step, d)) as i64,
        }
    }
}

proof fn lemma_delta_le_dist3(pos: Vec3Fx, target: Vec3Fx)
    requires
        pos.wf(),
        target.wf(),
    ensures
        -spec_dist3(pos, target) <= target.x - pos.x <= spec_dist3(pos, target),
        -spec_dist3(pos, target) <= target.y - pos.y <= spec_dist3(pos, target),
        -spec_dist3(pos, target) <= target.z - pos.z <= spec_dist3(pos, target),
{
    let d2 = spec_dist_sq3(pos, target);
    let d = sqrt_floor(d2 as nat) as int;
    assert(d2 >= 0) by (nonlinear_arith)
        requires
            d2 == (pos.x - target.x) * (pos.x - target.x) + (pos.y - target.y) * (pos.y
                - target.y) + (pos.z - target.z) * (pos.z - target.z),
    ;
    lemma_sqrt_floor_bounds(d2 as nat);
    let dx = pos.x - target.x;
    let dy = pos.y - target.y;
    let dz = pos.z - target.z;
    assert(dx * dx <= d2 && dy * dy <= d2 && dz * dz <= d2) by (nonlinear_arith)
        requires
            d2 == dx * dx + dy * dy + dz * dz,
    ;
    assert(-d <= dx <= d && -d <= dy <= d && -d <= dz <= d) by (nonlinear_arith)
        requires
            dx * dx <= d2,
            dy * dy <= d2,
            dz * dz <= d2,
            d2 < (d + 1) * (d + 1),
            d >= 0,
    ;
}

pub fn advance3(pos: &Vec3Fx, target: &Vec3Fx, step: i64) -> (r: Vec3Fx)
    requires
        pos.wf(),
        target.wf(),
        0 <= step <= STEP_LIMIT,
    ensures
        r == spec_advance3(*pos, *target, step as int),
        r.wf(),
{
    let d = dist3(pos, target);
    proof {
        lemma_delta_le_dist3(*pos, *target);
    }
    if d == 0 {
        *pos
    } else if step >= d {
        *target
    } else {
        proof {
            lemma_toward_step_bounded((target.x - pos.x) as int, step as int, d as int);
            lemma_toward_step_bounded((target.y - pos.y) as int, step as int, d as int);
            lemma_toward_step_bounded((target.z - pos.z) as int, step as int, d as int);
        }
        let sx = toward_step_exec(target.x - pos.x, step, d);
        let sy = toward_step_exec(target.y - pos.y, step, d);
        let sz = toward_step_exec(target.z - pos.z, step, d);
        Vec3Fx { x: pos.x + sx, y: pos.y + sy, z: pos.z + sz }
    }
}

/// Truncating division keeps a weighted value between its bounds.
pub proof fn lemma_trunc_div_bounds(num: int, d: int, lo: int, hi: int)
    requires
        0 < d,
        lo * d <= num <= hi * d,
    ensures
        lo <= trunc_div(num, d) <= hi,
{
    if num >= 0 {
        assert(hi * d == d * hi && lo * d == d * lo) by (nonlinear_arith);
        lemma_div_is_ordered(num, d * hi, d);
        lemma_div_multiples_vanish(hi, d);
        lemma_div_is_ordered(d * lo, num, d);
        lemma_div_multiples_vanish(lo, d);
    } else {
        // trunc_div(num, d) == -((-num) / d) with -num > 0
        assert(-(lo * d) == d * (-lo) && -(hi * d) == d * (-hi)) by (nonlinear_arith);
        lemma_div_is_ordered(-num, d * (-lo), d);
        lemma_div_multiples_vanish(-lo, d);
        lemma_div_is_ordered(d * (-hi), -num, d);
        lemma_div_multiples_vanish(-hi, d);
    }
}

/// A value clamped into a closed interval.
pub open spec fn spec_clamp(v: int, lo: int, hi: int) -> int {
    if v < lo {
        lo
    } else if v > hi {
        hi
    } else {
        v
    }
}

/// Clamps a coordinate into a closed interval.
pub fn clamp(v: i64, lo: i64, hi: i64) -> (r: i64)
    requires
        lo <= hi,
    ensures
        r == spec_clamp(v as int, lo as int, hi as int),
        lo <= r <= hi,
{
    if v < lo {
        lo
    } else if v > hi {
        hi
    } else {
        v
    }
}

/// Where linear interpolation from `start` to `end` stands at `t`
/// permille: each coordinate moves by `delta * t / 1000`, rounded toward
/// zero.
pub open spec fn spec_lerp3(start: Vec3Fx, end: Vec3Fx, t: int) -> Vec3Fx {
    Vec3Fx {
        x: (start.x + toward_step(end.x - start.x, t, 1000)) as i64,
        y: (start.y + toward_step(end.y - start.y, t, 1000)) as i64,
        z: (start.z + toward_step(end.z - start.z, t, 1000)) as i64,
    }
}

/// Linear interpolation from `start` to `end` at `t` permille; the
/// result stays coordinate-wise between the two points.
pub fn lerp3(start: &Vec3Fx, end: &Vec3Fx, t: i64) -> (r: Vec3Fx)
    requires
        start.wf(),
        end.wf(),
        0 <= t <= 1000,
    ensures
        r == spec_lerp3(*start, *end, t as int),
        r.wf(),
{
    if t == 0 {
        proof {
            lemma_toward_step_bounded((end.x - start.x) as int, 0, 1000);
            lemma_toward_step_bounded((end.y - start.y) as int, 0, 1000);
            lemma_toward_step_bounded((end.z - start.z) as int, 0, 1000);
            assert(toward_step((end.x - start.x) as int, 0, 1000) == 0);
            assert(toward_step((end.y - start.y) as int, 0, 1000) == 0);
            assert(toward_step((end.z - start.z) as int, 0, 1000) == 0);
        }
        return *start;
    }
    proof {
        lemma_toward_step_bounded((end.x - start.x) as int, t as int, 1000);
        lemma_toward_step_bounded((end.y - start.y) as int, t as int, 1000);
        lemma_toward_step_bounded((end.z - start.z) as int, t as int, 1000);
    }
    let sx = toward_step_exec(end.x - start.x, t, 1000);
    let sy = toward_step_exec(end.y - start.y, t, 1000);
    let sz = toward_step_exec(end.z - start.z, t, 1000);
    Vec3Fx { x: start.x + sx, y: start.y + sy, z: start.z + sz }
}

/// A quadratic Bezier curve through three spatial control points.
#[derive(Clone, Copy, PartialEq, Eq, Structural, Debug)]
pub struct QuadraticBezier3Fx {
    pub start: Vec3Fx,
    pub ctrl: Vec3Fx,
    pub end: Vec3Fx,
}

/// One coordinate of a quadratic Bezier evaluation at `t` permille:
/// the three control values weighted by `(1000-t)^2`, `2(1000-t)t` and
/// `t^2`, divided (toward zero) by the weights' sum `1_000_000`.
pub open spec fn spec_bezier_coord(s: int, c: int, e: int, t: int) -> int {
    trunc_div((1000 - t) * (1000 - t) * s + 2 * (1000 - t) * t * c + t * t * e, 1_000_000)
}

impl QuadraticBezier3Fx {
    pub open spec fn wf(self) -> bool {
        &&& self.start.wf()
        &&& self.ctrl.wf()
        &&& self.end.wf()
    }

    pub open spec fn spec_evaluate(self, t: int) -> Vec3Fx {
        Vec3Fx {
            x: spec_bezier_coord(self.start.x as int, self.ctrl.x as int, self.end.x as int, t)
                as i64,
            y: spec_bezier_coord(self.start.y as int, self.ctrl.y as int, self.end.y as int, t)
                as i64,
            z: spec_bezier_coord(self.start.z as int, self.ctrl.z as int, self.end.z as int, t)
                as i64,
        }
    }

    /// A curve degenerated to the origin, for a dormant field.
    pub fn zeros() -> (r: QuadraticBezier3Fx)
        ensures
            r.wf(),
            r.start == (Vec3Fx { x: 0, y: 0, z: 0 }),
            r.ctrl == (Vec3Fx { x: 0, y: 0, z: 0 }),
            r.end == (Vec3Fx { x: 0, y: 0, z: 0 }),
    {
        QuadraticBezier3Fx {
            start: Vec3Fx { x: 0, y: 0, z: 0 },
            ctrl: Vec3Fx { x: 0, y: 0, z: 0 },
            end: Vec3Fx { x: 0, y: 0, z: 0 },
        }
    }

    /// Evaluates the curve at `t` permille; the result stays
    /// coordinate-wise between the control points' extremes, so it is
    /// well-formed whenever the curve is.
    pub fn evaluate(&self, t: i64) -> (r: Vec3Fx)
        requires
            self.wf(),
            0 <= t <= 1000,
        ensures
            r == self.spec_evaluate(t as int),
            r.wf(),
    {
        let x = bezier_coord(self.start.x, self.ctrl.x, self.end.x, t, COORD_LIMIT);
        let y = bezier_coord(self.start.y, self.ctrl.y, self.end.y, t, HEIGHT_LIMIT);
        let z = bezier_coord(self.start.z, self.ctrl.z, self.end.z, t, COORD_LIMIT);
        proof {
            assert(0 <= self.start.y && 0 <= self.ctrl.y && 0 <= self.end.y);
        }
        Vec3Fx { x, y, z }
    }
}

/// One coordinate of a Bezier evaluation; `bound` only carries the
/// magnitude limit the inputs respect, so the output respects it too.
fn bezier_coord(s: i64, c: i64, e: i64, t: i64, bound: i64) -> (r: i64)
    requires
        0 <= t <= 1000,
        0 < bound <= COORD_LIMIT,
        -bound <= s <= bound,
        -bound <= c <= bound,
        -bound <= e <= bound,
    ensures
        r == spec_bezier_coord(s as int, c as int, e as int, t as int),
        -bound <= r <= bound,
        0 <= s && 0 <= c && 0 <= e ==> 0 <= r,
{
    let u = 1000 - t;
    proof {
        assert(0 <= u * u <= 1_000_000 && 0 <= 2 * u * t <= 1_000_000 && 0 <= t * t
            <= 1_000_000 && u * u + 2 * u * t + t * t == 1_000_000) by (nonlinear_arith)
            requires
                0 <= t <= 1000,
                u == 1000 - t,
        ;
    }
    let w1 = u * u;
    let w2 = 2 * u * t;
    let w3 = t * t;
    proof {
        lemma_weight_bound(w1 as int, s as int, bound as int);
        lemma_weight_bound(w2 as int, c as int, bound as int);
        lemma_weight_bound(w3 as int, e as int, bound as int);
        assert(w1 * bound <= 1_000_000 * (COORD_LIMIT as int) && w2 * bound <= 1_000_000 * (
        COORD_LIMIT as int) && w3 * bound <= 1_000_000 * (COORD_LIMIT as int) && w1 * (-bound)
            >= 1_000_000 * (-COORD_LIMIT as int) && w2 * (-bound) >= 1_000_000 * (
        -COORD_LIMIT as int) && w3 * (-bound) >= 1_000_000 * (-COORD_LIMIT as int))
            by (nonlinear_arith)
            requires
                0 <= w1 <= 1_000_000,
                0 <= w2 <= 1_000_000,
                0 <= w3 <= 1_000_000,
                0 < bound <= COORD_LIMIT,
        ;
    }
    let n1 = w1 * s;
    let n2 = w2 * c;
    let n3 = w3 * e;
    proof {
        assert((w1 + w2 + w3) * bound == w1 * bound + w2 * bound + w3 * bound)
            by (nonlinear_arith);
        assert((w1 + w2 + w3) * (-bound) == w1 * (-bound) + w2 * (-bound) + w3 * (-bound))
            by (nonlinear_arith);
        lemma_trunc_div_bounds(
            n1 as int + n2 as int + n3 as int,
            1_000_000,
            -bound as int,
            bound as int,
        );
        if 0 <= s && 0 <= c && 0 <= e {
            assert(0 <= w1 * s && 0 <= w2 * c && 0 <= w3 * e) by (nonlinear_arith)
                requires
                    0 <= w1 && 0 <= w2 && 0 <= w3,
                    0 <= s && 0 <= c && 0 <= e,
            ;
            lemma_trunc_div_bounds(n1 as int + n2 as int + n3 as int, 1_000_000, 0, bound as int);
        }
    }
    div_trunc(n1 + n2 + n3, 1_000_000)
}

/// `|w * v| <= w * bound` for a non-negative weight.
proof fn lemma_weight_bound(w: int, v: int, bound: int)
    requires
        0 <= w,
        -bound <= v <= bound,
        0 <= bound,
    ensures
        w * (-bound) <= w * v <= w * bound,
{
    assert(w * (-bound) <= w * v <= w * bound) by (nonlinear_arith)
        requires
            0 <= w,
            -bound <= v <= bound,
    ;
}

/// The rounded-down square root of a perfect square is exact.
pub proof fn lemma_sqrt_of_square(a: nat)
    ensures
        sqrt_floor(a * a) == a,
{
    assert(a * a < (a + 1) * (a + 1)) by (nonlinear_arith);
    lemma_sqrt_floor_unique(a * a, a);
}

/// Advancing along a straight line (equal ordinates) is exact: the
/// distance to the goal is the difference of the abscissas, the ordinate
/// never changes, the mover stays between its start and its goal, and
/// each step shrinks the remaining distance by exactly `step` until it
/// is consumed.
pub proof fn lemma_collinear_advance(pos: Vec2Fx, target: Vec2Fx, step: int)
    requires
        pos.wf(),
        target.wf(),
        pos.y == target.y,
        0 <= step,
    ensures
        spec_dist2(pos, target) == (if pos.x >= target.x {
            pos.x - target.x
        } else {
            target.x - pos.x
        }),
        spec_advance2(pos, target, step).y == pos.y,
        pos.x <= target.x ==> pos.x <= spec_advance2(pos, target, step).x <= target.x,
        pos.x >= target.x ==> target.x <= spec_advance2(pos, target, step).x <= pos.x,
        spec_dist2(spec_advance2(pos, target, step), target) == (if step >= spec_dist2(
            pos,
            target,
        ) {
            0
        } else {
            spec_dist2(pos, target) - step
        }),
{
    let dx = target.x - pos.x;
    let a: nat = if dx >= 0 {
        dx as nat
    } else {
        (-dx) as nat
    };
    assert(spec_dist_sq2(pos, target) == a * a) by (nonlinear_arith)
        requires
            spec_dist_sq2(pos, target) == (pos.x - target.x) * (pos.x - target.x) + (pos.y
                - target.y) * (pos.y - target.y),
            pos.y == target.y,
            dx == target.x - pos.x,
            a == (if dx >= 0 {
                dx
            } else {
                -dx
            }),
    ;
    lemma_sqrt_of_square(a);
    let d = spec_dist2(pos, target);
    assert(d == a);
    if d == 0 {
        assert(spec_advance2(pos, target, step) == pos);
    } else if step >= d {
        assert(spec_advance2(pos, target, step) == target);
        assert(spec_dist_sq2(target, target) == 0) by (nonlinear_arith);
        assert(sqrt_floor(0) == 0);
    } else {
        lemma_div_multiples_vanish(step, d);
        if dx >= 0 {
            assert(toward_step(dx, step, d) == (d * step) / d) by (nonlinear_arith)
                requires
                    dx == d,
                    toward_step(dx, step, d) == dx * step / d,
            ;
            assert(toward_step(dx, step, d) == step);
        } else {
            assert((-dx) * step == d * step) by (nonlinear_arith)
                requires
                    -dx == d,
            ;
            assert(toward_step(dx, step, d) == -step);
        }
        assert(toward_step(target.y - pos.y, step, d) == 0) by {
            assert(0 * step == 0) by (nonlinear_arith);
            assert(0 * step / d == 0) by {
                vstd::arithmetic::div_mod::lemma_div_pos_is_pos(0, d);
                lemma_div_is_ordered(0 * step, 0, d);
            }
        }
        let moved = spec_advance2(pos, target, step);
        assert(moved.y == pos.y);
        let rest: nat = (d - step) as nat;
        assert(spec_dist_sq2(moved, target) == rest * rest) by (nonlinear_arith)
            requires
                spec_dist_sq2(moved, target) == (moved.x - target.x) * (moved.x - target.x) + (
                moved.y - target.y) * (moved.y - target.y),
                moved.y == target.y,
                (if moved.x >= target.x {
                    moved.x - target.x
                } else {
                    target.x - moved.x
                }) == rest,
        ;
        lemma_sqrt_of_square(rest);
    }
}

} // verus!
