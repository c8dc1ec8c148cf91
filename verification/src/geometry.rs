//! Points and directions in the plane, in thousandths of a world unit.

use vstd::prelude::*;

verus! {

/// A position in the plane, or an offset in a vessel's own frame.
#[derive(Clone, Copy, Debug, PartialEq, Eq, Structural)]
pub struct Point {
    pub x: i32,
    pub y: i32,
}

/// A direction in the plane. Only where it points matters, not its length.
#[derive(Clone, Copy, Debug, PartialEq, Eq, Structural)]
pub struct Direction {
    pub x: i64,
    pub y: i64,
}

/// A velocity in the plane, in thousandths of a world unit per second.
#[derive(Clone, Copy, Debug, PartialEq, Eq, Structural)]
pub struct Velocity {
    pub x: i32,
    pub y: i32,
}

/// Square of the straight-line distance between two points.
pub open spec fn distance_squared(a: Point, b: Point) -> nat {
    ((b.x - a.x) * (b.x - a.x) + (b.y - a.y) * (b.y - a.y)) as nat
}

/// True when `root` is the square root of `square`, rounded down.
pub open spec fn is_floor_sqrt(square: nat, root: nat) -> bool {
    root * root <= square < (root + 1) * (root + 1)
}

/// Straight-line distance between two points, rounded down to a whole
/// thousandth.
pub open spec fn distance_between(a: Point, b: Point) -> nat {
    choose|root: nat| is_floor_sqrt(distance_squared(a, b), root)
}

/// The direction a weapon at `from` faces to bear on `to`: the offset from
/// `from` to `to`, turned a quarter turn clockwise.
pub open spec fn aim_from(from: Point, to: Point) -> Direction {
    Direction { x: (to.y - from.y) as i64, y: (from.x - to.x) as i64 }
}

/// Direction a weapon at `from` faces to bear on `to`.
pub fn aim_direction(from: Point, to: Point) -> (aim: Direction)
    ensures
        aim == aim_from(from, to),
        aim.x == to.y - from.y,
        aim.y == from.x - to.x,
{
    let dx: i64 = to.x as i64 - from.x as i64;
    let dy: i64 = to.y as i64 - from.y as i64;
    Direction { x: dy, y: -dx }
}

/// The aim stands at a right angle to the offset to the target, is as long as
/// that offset, and lies clockwise of it.
pub proof fn lemma_aim_is_quarter_turn(from: Point, to: Point)
    ensures
        ({
            let aim = aim_from(from, to);
            let dx = to.x - from.x;
            let dy = to.y - from.y;
            &&& aim.x * dx + aim.y * dy == 0
            &&& aim.x * aim.x + aim.y * aim.y == dx * dx + dy * dy
            &&& dx * aim.y - dy * aim.x <= 0
        }),
{
    let aim = aim_from(from, to);
    let dx = to.x - from.x;
    let dy = to.y - from.y;
    assert(aim.x == dy && aim.y == -dx);
    assert(dy * dx + (-dx) * dy == 0) by (nonlinear_arith);
    assert(dy * dy + (-dx) * (-dx) == dx * dx + dy * dy) by (nonlinear_arith);
    assert(dx * (-dx) - dy * dy <= 0) by (nonlinear_arith);
}

/// Square root of `square`, rounded down, by bisection.
fn floor_sqrt(square: u128) -> (root: u64)
    requires
        square < 0x4_0000_0000_0000_0000,
    ensures
        is_floor_sqrt(square as nat, root as nat),
        root < 0x2_0000_0000,
{
    let mut low: u128 = 0;
    let mut high: u128 = 0x2_0000_0000;
    assert(0x2_0000_0000u128 * 0x2_0000_0000u128 == 0x4_0000_0000_0000_0000u128) by (nonlinear_arith);
    while high - low > 1
        invariant
            low < high <= 0x2_0000_0000,
            low * low <= square < high * high,
        decreases high - low,
    {
        let middle: u128 = low + (high - low) / 2;
        assert(middle * middle <= 0x2_0000_0000 * 0x2_0000_0000) by (nonlinear_arith)
            requires
                middle <= 0x2_0000_0000,
        ;
        if middle * middle <= square {
            low = middle;
        } else {
            high = middle;
        }
    }
    low as u64
}

/// Straight-line distance between two points, rounded down to a whole
/// thousandth.
pub fn distance(a: Point, b: Point) -> (length: u64)
    ensures
        length == distance_between(a, b),
        is_floor_sqrt(distance_squared(a, b), length as nat),
        length < 0x2_0000_0000,
{
    let dx: i128 = b.x as i128 - a.x as i128;
    let dy: i128 = b.y as i128 - a.y as i128;
    assert(0 <= dx * dx <= 0x1_0000_0000_0000_0000) by (nonlinear_arith)
        requires
            -0x1_0000_0000 <= dx <= 0x1_0000_0000,
    ;
    assert(0 <= dy * dy <= 0x1_0000_0000_0000_0000) by (nonlinear_arith)
        requires
            -0x1_0000_0000 <= dy <= 0x1_0000_0000,
    ;
    let square: i128 = dx * dx + dy * dy;
    let length = floor_sqrt(square as u128);
    proof {
        lemma_floor_sqrt_unique(distance_squared(a, b), length as nat, distance_between(a, b));
    }
    length
}

/// Only one number is the rounded-down square root of another.
pub proof fn lemma_floor_sqrt_unique(square: nat, first: nat, second: nat)
    requires
        is_floor_sqrt(square, first),
        is_floor_sqrt(square, second),
    ensures
        first == second,
{
    if first < second {
        assert((first + 1) * (first + 1) <= second * second) by (nonlinear_arith)
            requires
                first + 1 <= second,
        ;
    } else if second < first {
        assert((second + 1) * (second + 1) <= first * first) by (nonlinear_arith)
            requires
                second + 1 <= first,
        ;
    }
}

} // verus!
