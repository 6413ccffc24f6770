//! Fixed-point world coordinates and the camera smoothing step.
use vstd::prelude::*;

verus! {

/// Number of position units in one world unit: positions are kept in
/// nano-units so that one tick's displacement at a whole number of units per
/// second over a whole number of nanoseconds is exact.
pub const UNITS_PER_WORLD_UNIT: i64 = 1_000_000_000;

/// A point of the world (a translation), each coordinate in nano-units.
#[derive(Clone, Copy, Debug, PartialEq, Eq, Structural)]
pub struct Point {
    pub x: i64,
    pub y: i64,
    pub z: i64,
}

impl Point {
    pub fn new(x: i64, y: i64, z: i64) -> (r: Point)
        ensures
            r.x == x,
            r.y == y,
            r.z == z,
    {
        Point { x, y, z }
    }

    /// The point at whole world units `(x, y, z)`.
    pub fn from_units(x: i32, y: i32, z: i32) -> (r: Point)
        ensures
            r.x == x * UNITS_PER_WORLD_UNIT,
            r.y == y * UNITS_PER_WORLD_UNIT,
            r.z == z * UNITS_PER_WORLD_UNIT,
    {
        let u = UNITS_PER_WORLD_UNIT;
        assert(-2_147_483_648 * 1_000_000_000 <= x * 1_000_000_000 <= 2_147_483_647 * 1_000_000_000)
            by (nonlinear_arith)
            requires
                -2_147_483_648 <= x <= 2_147_483_647,
        ;
        assert(-2_147_483_648 * 1_000_000_000 <= y * 1_000_000_000 <= 2_147_483_647 * 1_000_000_000)
            by (nonlinear_arith)
            requires
                -2_147_483_648 <= y <= 2_147_483_647,
        ;
        assert(-2_147_483_648 * 1_000_000_000 <= z * 1_000_000_000 <= 2_147_483_647 * 1_000_000_000)
            by (nonlinear_arith)
            requires
                -2_147_483_648 <= z <= 2_147_483_647,
        ;
        Point { x: x as i64 * u, y: y as i64 * u, z: z as i64 * u }
    }
}

/// Half of `d`, rounded toward zero.
pub open spec fn half_toward_zero(d: int) -> int {
    if d >= 0 {
        d / 2
    } else {
        -((-d) / 2)
    }
}

/// One smoothing step on one axis: the camera coordinate `c` moves half of the
/// way to the target `p`. When the distance is odd the half-unit left over is
/// taken toward the target, so the remaining distance is always halved
/// rounding down and the camera lands on the target after finitely many steps.
pub open spec fn follow_axis(c: int, p: int) -> int {
    p - half_toward_zero(p - c)
}

/// The camera point after one smoothing step toward `target`.
pub open spec fn follow_point(cam: Point, target: Point) -> Point {
    Point {
        x: follow_axis(cam.x as int, target.x as int) as i64,
        y: follow_axis(cam.y as int, target.y as int) as i64,
        z: follow_axis(cam.z as int, target.z as int) as i64,
    }
}

/// The result of `n` smoothing steps toward a fixed target.
pub open spec fn follow_iterate(cam: Point, target: Point, n: nat) -> Point
    decreases n,
{
    if n == 0 {
        cam
    } else {
        follow_iterate(follow_point(cam, target), target, (n - 1) as nat)
    }
}

/// The axis coordinate after `n` smoothing steps toward a fixed target.
pub open spec fn follow_axis_iterate(c: int, p: int, n: nat) -> int
    decreases n,
{
    if n == 0 {
        c
    } else {
        follow_axis_iterate(follow_axis(c, p), p, (n - 1) as nat)
    }
}

/// `m` halved `n` times, rounding down each time.
pub open spec fn halve_times(m: nat, n: nat) -> nat
    decreases n,
{
    if n == 0 {
        m
    } else {
        halve_times(m / 2, (n - 1) as nat)
    }
}

pub open spec fn abs(d: int) -> int {
    if d >= 0 {
        d
    } else {
        -d
    }
}

/// `c` lies on the closed segment from `a` to `b`.
pub open spec fn between(a: int, c: int, b: int) -> bool {
    (a <= c <= b) || (b <= c <= a)
}

proof fn lemma_follow_axis_between(c: int, p: int)
    ensures
        between(c, follow_axis(c, p), p),
        abs(p - follow_axis(c, p)) == abs(p - c) / 2,
{
}

fn follow_coord(c: i64, p: i64) -> (r: i64)
    ensures
        r == follow_axis(c as int, p as int),
{
    proof {
        lemma_follow_axis_between(c as int, p as int);
    }
    let d: i128 = p as i128 - c as i128;
    let half: i128 = if d >= 0 {
        d / 2
    } else {
        -((-d) / 2)
    };
    (p as i128 - half) as i64
}

/// One smoothing step of a camera point toward a target point, on every axis.
pub fn follow(cam: Point, target: Point) -> (r: Point)
    ensures
        r == follow_point(cam, target),
        between(cam.x as int, r.x as int, target.x as int),
        between(cam.y as int, r.y as int, target.y as int),
        between(cam.z as int, r.z as int, target.z as int),
{
    proof {
        lemma_follow_axis_between(cam.x as int, target.x as int);
        lemma_follow_axis_between(cam.y as int, target.y as int);
        lemma_follow_axis_between(cam.z as int, target.z as int);
    }
    Point {
        x: follow_coord(cam.x, target.x),
        y: follow_coord(cam.y, target.y),
        z: follow_coord(cam.z, target.z),
    }
}

/// What `n` smoothing steps toward a fixed target `p` give on one axis,
/// starting from `c`: the result `r` never passes the target, its distance to
/// the target is the first distance halved `n` times, and after as many steps
/// as the first distance it sits on the target.
pub open spec fn converges_on_axis(c: int, p: int, n: nat, r: int) -> bool {
    &&& between(c, r, p)
    &&& abs(p - r) == halve_times(abs(p - c) as nat, n)
    &&& n >= abs(p - c) ==> r == p
}

proof fn lemma_follow_axis_iterate(c: int, p: int, n: nat)
    ensures
        converges_on_axis(c, p, n, follow_axis_iterate(c, p, n)),
    decreases n,
{
    if n > 0 {
        let c1 = follow_axis(c, p);
        lemma_follow_axis_between(c, p);
        lemma_follow_axis_iterate(c1, p, (n - 1) as nat);
    }
}

proof fn lemma_follow_iterate_axes(cam: Point, target: Point, n: nat)
    ensures
        follow_iterate(cam, target, n).x == follow_axis_iterate(cam.x as int, target.x as int, n),
        follow_iterate(cam, target, n).y == follow_axis_iterate(cam.y as int, target.y as int, n),
        follow_iterate(cam, target, n).z == follow_axis_iterate(cam.z as int, target.z as int, n),
    decreases n,
{
    if n > 0 {
        lemma_follow_axis_between(cam.x as int, target.x as int);
        lemma_follow_axis_between(cam.y as int, target.y as int);
        lemma_follow_axis_between(cam.z as int, target.z as int);
        lemma_follow_iterate_axes(follow_point(cam, target), target, (n - 1) as nat);
    }
}

/// Following a stationary target for `n` steps never overshoots it on any
/// axis, halves the remaining distance at each step, and reaches the target
/// once `n` is at least the first distance.
pub proof fn lemma_follow_converges(cam: Point, target: Point, n: nat)
    ensures
        ({
            let r = follow_iterate(cam, target, n);
            &&& converges_on_axis(cam.x as int, target.x as int, n, r.x as int)
            &&& converges_on_axis(cam.y as int, target.y as int, n, r.y as int)
            &&& converges_on_axis(cam.z as int, target.z as int, n, r.z as int)
        }),
{
    lemma_follow_iterate_axes(cam, target, n);
    lemma_follow_axis_iterate(cam.x as int, target.x as int, n);
    lemma_follow_axis_iterate(cam.y as int, target.y as int, n);
    lemma_follow_axis_iterate(cam.z as int, target.z as int, n);
}

} // verus!
