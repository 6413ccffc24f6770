//! Integration of the player's position over one fixed tick.
use vstd::prelude::*;
use crate::geometry::Point;
use crate::input::{Direction, Intent, DIRECTION_SCALE, DIAGONAL_COMPONENT, direction_of};

verus! {

/// Base speed of the player, in world units per second.
pub const DEFAULT_MOVEMENT_SPEED: u32 = 128;

/// Distance covered in one tick at full speed, in position units: a speed in
/// world units per second over a time in nanoseconds gives nano-units.
pub open spec fn travel(speed: u32, elapsed_ns: u64) -> int {
    speed * elapsed_ns
}

/// The displacement along one axis: `travel` scaled by a normalised
/// direction component, rounded toward zero.
pub open spec fn scaled(component: int, travel: int) -> int {
    if component >= 0 {
        (travel * component) / (DIRECTION_SCALE as int)
    } else {
        -((travel * (-component)) / (DIRECTION_SCALE as int))
    }
}

pub open spec fn fits_i64(v: int) -> bool {
    i64::MIN <= v <= i64::MAX
}

/// The position after one tick in `dir` at `speed` for `elapsed_ns`, or
/// `None` when it leaves the range of positions.
pub open spec fn step_position(pos: Point, dir: Direction, speed: u32, elapsed_ns: u64) -> Option<
    Point,
> {
    let nx = pos.x + scaled(dir.x as int, travel(speed, elapsed_ns));
    let ny = pos.y + scaled(dir.y as int, travel(speed, elapsed_ns));
    if fits_i64(nx) && fits_i64(ny) {
        Some(Point { x: nx as i64, y: ny as i64, z: pos.z })
    } else {
        None
    }
}

fn scaled_exec(component: i64, t: i128) -> (r: i128)
    requires
        -DIRECTION_SCALE <= component <= DIRECTION_SCALE,
        0 <= t <= 0x1_0000_0000_0000_0000_0000_0000,
    ensures
        r == scaled(component as int, t as int),
        -t <= r <= t,
{
    if component >= 0 {
        assert(0 <= t * component <= t * DIRECTION_SCALE) by (nonlinear_arith)
            requires
                0 <= component <= DIRECTION_SCALE,
                0 <= t,
        ;
        assert((t * component) / (DIRECTION_SCALE as int) <= t) by (nonlinear_arith)
            requires
                0 <= t * component <= t * DIRECTION_SCALE,
                0 <= t,
        ;
        (t * component as i128) / (DIRECTION_SCALE as i128)
    } else {
        assert(0 <= t * (-component) <= t * DIRECTION_SCALE) by (nonlinear_arith)
            requires
                0 < -component <= DIRECTION_SCALE,
                0 <= t,
        ;
        assert((t * (-component)) / (DIRECTION_SCALE as int) <= t) by (nonlinear_arith)
            requires
                0 <= t * (-component) <= t * DIRECTION_SCALE,
                0 <= t,
        ;
        -((t * (-(component as i128))) / (DIRECTION_SCALE as i128))
    }
}

/// Adds `dir` × `speed` × elapsed time to the position, in place of x and y;
/// z is kept. Movement is unbounded: the only failure is leaving the range of
/// positions, which gives `None`.
pub fn move_position(pos: Point, dir: Direction, speed: u32, elapsed_ns: u64) -> (r: Option<Point>)
    requires
        dir.wf(),
    ensures
        r == step_position(pos, dir, speed, elapsed_ns),
{
    assert(0 <= speed * elapsed_ns <= 0x1_0000_0000_0000_0000_0000_0000) by (nonlinear_arith)
        requires
            0 <= speed < 0x1_0000_0000,
            0 <= elapsed_ns < 0x1_0000_0000_0000_0000,
    ;
    let t: i128 = speed as i128 * elapsed_ns as i128;
    let nx: i128 = pos.x as i128 + scaled_exec(dir.x, t);
    let ny: i128 = pos.y as i128 + scaled_exec(dir.y, t);
    if i64::MIN as i128 <= nx && nx <= i64::MAX as i128 && i64::MIN as i128 <= ny && ny
        <= i64::MAX as i128 {
        Some(Point { x: nx as i64, y: ny as i64, z: pos.z })
    } else {
        None
    }
}

proof fn lemma_diagonal_bounds(m: int)
    requires
        m >= 0,
    ensures
        ({
            let q = (m * DIAGONAL_COMPONENT) / (DIRECTION_SCALE as int);
            &&& 0 <= q <= m
            &&& DIRECTION_SCALE * (2 * q * q) <= (DIRECTION_SCALE + 1) * m * m
            &&& m * m <= 2 * q * q + 4 * m + 2
        }),
{
    let d: int = DIRECTION_SCALE as int;
    let g: int = DIAGONAL_COMPONENT as int;
    let q = (m * g) / d;
    assert(0 <= m * g <= m * d) by (nonlinear_arith)
        requires
            m >= 0,
            g == 707_107,
            d == 1_000_000,
    ;
    assert(d * q <= m * g < d * q + d);
    assert(0 <= q <= m) by (nonlinear_arith)
        requires
            d * q <= m * g <= m * d,
            m * g >= 0,
            d * q + d > m * g,
            d == 1_000_000,
    ;
    assert(d * (2 * q * q) <= (d + 1) * m * m) by (nonlinear_arith)
        requires
            0 <= d * q <= m * g,
            g == 707_107,
            d == 1_000_000,
            q >= 0,
    ;
    assert(m * m <= 2 * q * q + 4 * m + 2) by (nonlinear_arith)
        requires
            0 <= m * g < d * (q + 1),
            g == 707_107,
            d == 1_000_000,
            0 <= q <= m,
    ;
}

/// Over one tick, a non-zero intent moves the player by `speed` × elapsed
/// time: exactly along an axis, and on a diagonal up to the rounding of the
/// normalised components (the squared length is within `4m + 2` below and a
/// millionth of `m²` above, for a travel of `m` position units).
pub proof fn lemma_displacement_length(i: Intent, speed: u32, elapsed_ns: u64)
    requires
        i.wf(),
        !i.is_zero(),
    ensures
        ({
            let m = travel(speed, elapsed_ns);
            let d = direction_of(i);
            let dx = scaled(d.x as int, m);
            let dy = scaled(d.y as int, m);
            &&& (i.x == 0 || i.y == 0) ==> dx * dx + dy * dy == m * m
            &&& (i.x == 0 || i.y == 0) ==> (dx == 0 || dx == m || dx == -m) && (dy == 0 || dy
                == m || dy == -m)
            &&& m * m <= dx * dx + dy * dy + 4 * m + 2
            &&& DIRECTION_SCALE * (dx * dx + dy * dy) <= (DIRECTION_SCALE + 1) * m * m
        }),
{
    let m = travel(speed, elapsed_ns);
    assert(m >= 0) by (nonlinear_arith)
        requires
            m == speed * elapsed_ns,
            speed >= 0,
            elapsed_ns >= 0,
    ;
    let d = direction_of(i);
    let dx = scaled(d.x as int, m);
    let dy = scaled(d.y as int, m);
    assert(m * DIRECTION_SCALE / (DIRECTION_SCALE as int) == m) by (nonlinear_arith)
        requires
            m >= 0,
    ;
    lemma_diagonal_bounds(m);
    let q = (m * DIAGONAL_COMPONENT) / (DIRECTION_SCALE as int);
    if i.x == 0 || i.y == 0 {
        assert(d.x == 0 || d.x == DIRECTION_SCALE || d.x == -DIRECTION_SCALE);
        assert(d.y == 0 || d.y == DIRECTION_SCALE || d.y == -DIRECTION_SCALE);
        assert(m * 0 == 0);
        assert(scaled(0, m) == 0);
        assert(scaled(DIRECTION_SCALE as int, m) == m);
        assert(scaled(-DIRECTION_SCALE, m) == -m);
        assert(d.x == 0 || d.y == 0);
        assert(d.x != 0 || d.y != 0);
        assert(dx == 0 || dx == m || dx == -m);
        assert(dy == 0 || dy == m || dy == -m);
        assert(dx * dx + dy * dy == m * m) by (nonlinear_arith)
            requires
                (dx == 0 && (dy == m || dy == -m)) || (dy == 0 && (dx == m || dx == -m)),
        ;
        assert(m * m <= dx * dx + dy * dy + 4 * m + 2);
        assert(DIRECTION_SCALE * (m * m) <= (DIRECTION_SCALE + 1) * m * m) by (nonlinear_arith);
    } else {
        assert(dx == q || dx == -q);
        assert(dy == q || dy == -q);
        assert(dx * dx + dy * dy == 2 * q * q) by (nonlinear_arith)
            requires
                dx == q || dx == -q,
                dy == q || dy == -q,
        ;
    }
}

} // verus!
