//! The arena's walls: which wall a moving ball heads for, the earlier of two
//! wall impacts, and the reflection off a wall.
use vstd::prelude::*;
use crate::ieee::{float_lt, magnitude, negate, negated, sign_of, sign_set, value_lt, value_sign, Sign};

verus! {

/// The four walls of the arena, named by the outward direction they face.
#[derive(Clone, Copy, Debug, PartialEq, Eq, Structural)]
pub enum WallType {
    YPositive,
    YNegative,
    XNegative,
    XPositive,
}

/// A coordinate axis.
#[derive(Clone, Copy, Debug, PartialEq, Eq, Structural)]
pub enum Axis {
    X,
    Y,
}

/// A velocity, each component held as the bit pattern of a binary64 value.
#[derive(Clone, Copy, Debug, PartialEq, Eq, Structural)]
pub struct Velocity {
    pub x: u64,
    pub y: u64,
}

/// A wall impact `time` (bit pattern) from now.
#[derive(Clone, Copy, Debug, PartialEq, Eq, Structural)]
pub struct WallHit {
    pub time: u64,
    pub wall: WallType,
}

/// The axis a wall is orthogonal to.
pub open spec fn wall_axis(w: WallType) -> Axis {
    match w {
        WallType::XNegative | WallType::XPositive => Axis::X,
        WallType::YNegative | WallType::YPositive => Axis::Y,
    }
}

/// The wall met when moving along `axis` with a velocity component of the
/// given sign; none without motion along the axis.
pub open spec fn wall_for(axis: Axis, s: Sign) -> Option<WallType> {
    match (axis, s) {
        (_, Sign::Zero) => None,
        (Axis::X, Sign::Positive) => Some(WallType::XPositive),
        (Axis::X, Sign::Negative) => Some(WallType::XNegative),
        (Axis::Y, Sign::Positive) => Some(WallType::YPositive),
        (Axis::Y, Sign::Negative) => Some(WallType::YNegative),
    }
}

/// The earlier of two optional wall impacts by the values of their times
/// (`+0.0` and `-0.0` are equal); the first one on a tie, and also when a
/// time is a NaN.
pub open spec fn earlier_wall(a: Option<WallHit>, b: Option<WallHit>) -> Option<WallHit> {
    match (a, b) {
        (None, _) => b,
        (Some(_), None) => a,
        (Some(ha), Some(hb)) => if value_lt(hb.time, ha.time) {
            b
        } else {
            a
        },
    }
}

/// The velocity after an elastic bounce off `wall`: the component orthogonal
/// to the wall changes sign, the other stays.
pub open spec fn reflected(v: Velocity, wall: WallType) -> Velocity {
    match wall_axis(wall) {
        Axis::X => Velocity { x: negated(v.x), y: v.y },
        Axis::Y => Velocity { x: v.x, y: negated(v.y) },
    }
}

impl WallType {
    /// The axis this wall is orthogonal to.
    pub fn axis(&self) -> (r: Axis)
        ensures
            r == wall_axis(*self),
    {
        match self {
            WallType::XNegative | WallType::XPositive => Axis::X,
            WallType::YNegative | WallType::YPositive => Axis::Y,
        }
    }
}

/// The wall a ball heads for along `axis`, given its velocity component
/// there: the positive wall when the component is above zero, the negative
/// one when below, none when it is zero (or a NaN).
pub fn wall_toward(axis: Axis, component: u64) -> (r: Option<WallType>)
    ensures
        r == wall_for(axis, value_sign(component)),
{
    let s = sign_of(component);
    match (axis, s) {
        (_, Sign::Zero) => None,
        (Axis::X, Sign::Positive) => Some(WallType::XPositive),
        (Axis::X, Sign::Negative) => Some(WallType::XNegative),
        (Axis::Y, Sign::Positive) => Some(WallType::YPositive),
        (Axis::Y, Sign::Negative) => Some(WallType::YNegative),
    }
}

/// The earlier of the impacts on the X wall and on the Y wall by the values
/// of their times, the X one on a tie.
pub fn earliest_wall(x: Option<WallHit>, y: Option<WallHit>) -> (r: Option<WallHit>)
    ensures
        r == earlier_wall(x, y),
{
    match (x, y) {
        (None, _) => y,
        (Some(_), None) => x,
        (Some(hx), Some(hy)) => if float_lt(hy.time, hx.time) {
            y
        } else {
            x
        },
    }
}

/// Bounce off `wall`: the orthogonal component is negated.
pub fn reflect_off_wall(v: Velocity, wall: WallType) -> (r: Velocity)
    ensures
        r == reflected(v, wall),
{
    match wall.axis() {
        Axis::X => Velocity { x: negate(v.x), y: v.y },
        Axis::Y => Velocity { x: v.x, y: negate(v.y) },
    }
}

/// A bounce off a wall keeps the speed: each component keeps its absolute
/// value (its magnitude bits), so the length of the velocity is unchanged.
/// The component orthogonal to the wall changes sign and the other one is
/// left as it was.
pub proof fn lemma_wall_bounce_keeps_speed(v: Velocity, wall: WallType)
    ensures
        magnitude(reflected(v, wall).x) == magnitude(v.x),
        magnitude(reflected(v, wall).y) == magnitude(v.y),
        wall_axis(wall) == Axis::X ==> sign_set(reflected(v, wall).x) != sign_set(v.x)
            && reflected(v, wall).y == v.y,
        wall_axis(wall) == Axis::Y ==> sign_set(reflected(v, wall).y) != sign_set(v.y)
            && reflected(v, wall).x == v.x,
{
}

/// Wall identity follows the sign of the velocity alone: a component that is
/// zero yields no wall, and a wall on an axis is one of that axis.
pub proof fn lemma_wall_only_on_moving_axis(axis: Axis, component: u64)
    ensures
        value_sign(component) == Sign::Zero <==> wall_for(axis, value_sign(component)) is None,
        wall_for(axis, value_sign(component)) matches Some(w) ==> wall_axis(w) == axis,
{
}

} // verus!
