//! Floating-point arithmetic, delegated to glam.
//!
//! Verified code never looks inside a vector. Every operation below is a call
//! into glam whose result is given a name, so that contracts elsewhere can say
//! exactly which operations produced a value, in which order. Nothing is
//! proved of what an operation computes: that it is the operation its name
//! says, and that the same values always give the same value, is taken from
//! glam's source.
//!
//! Two vectors are equal in a contract when their lanes hold the same
//! floating-point values. All NaNs count as one value; zero and minus zero
//! are two.
//!
//! A single number is carried as a [`Real`]: a two-lane vector whose lanes are
//! equal. Lane-wise arithmetic on such vectors is the scalar arithmetic.

use vstd::prelude::*;

verus! {

/// `glam::Vec2`: two single-precision lanes, opaque here.
#[verifier::external_type_specification]
#[verifier::external_body]
pub struct ExVec2(glam::Vec2);

/// `glam::Vec3`: three single-precision lanes, opaque here.
#[verifier::external_type_specification]
#[verifier::external_body]
pub struct ExVec3(glam::Vec3);

/// A point or direction in the plane, in em units.
pub type Point2D = glam::Vec2;

/// A point or direction in space.
pub type Point3D = glam::Vec3;

/// A number, held in both lanes of a two-lane vector.
pub type Real = glam::Vec2;

/// The number `n`, converted to floating point, in both lanes.
pub uninterp spec fn real_of(n: u64) -> Real;

/// Lane-wise sum.
pub uninterp spec fn sum2(a: Point2D, b: Point2D) -> Point2D;

/// Lane-wise difference.
pub uninterp spec fn diff2(a: Point2D, b: Point2D) -> Point2D;

/// Lane-wise product.
pub uninterp spec fn prod2(a: Point2D, b: Point2D) -> Point2D;

/// Lane-wise quotient.
pub uninterp spec fn quot2(a: Point2D, b: Point2D) -> Point2D;

/// The vector of the two integers, converted to floating point.
pub uninterp spec fn point_of(x: i16, y: i16) -> Point2D;

/// Lane-wise reciprocal.
pub uninterp spec fn recip2(a: Point2D) -> Point2D;

/// Lane-wise square root.
pub uninterp spec fn sqrt2(a: Point2D) -> Point2D;

/// Lane-wise absolute value.
pub uninterp spec fn abs2(a: Point2D) -> Point2D;

/// Lane-wise minimum.
pub uninterp spec fn min2(a: Point2D, b: Point2D) -> Point2D;

/// Lane-wise rounding to the nearest integer, halves away from zero.
pub uninterp spec fn round2(a: Point2D) -> Point2D;

/// The point halfway between two points.
pub uninterp spec fn midpoint2(a: Point2D, b: Point2D) -> Point2D;

/// The vector turned a quarter turn counter-clockwise: `(-y, x)`.
pub uninterp spec fn perp2(a: Point2D) -> Point2D;

/// The squared length of a vector, as a number.
pub uninterp spec fn length_squared2(a: Point2D) -> Real;

/// The planar cross product `a.x * b.y - a.y * b.x`, as a number.
pub uninterp spec fn cross2(a: Point2D, b: Point2D) -> Real;

/// Whether some lane of `a` is below the same lane of `b`.
pub uninterp spec fn below2(a: Point2D, b: Point2D) -> bool;

/// Whether some lane of `a` is above the same lane of `b`.
pub uninterp spec fn above2(a: Point2D, b: Point2D) -> bool;

/// The lanes, taken as angles in radians, as fractions of a full turn.
pub uninterp spec fn turns_of(a: Real) -> Real;

/// Whether both lanes are finite: neither infinite nor NaN.
pub uninterp spec fn finite2(a: Point2D) -> bool;

/// The first lane, truncated toward zero to an unsigned integer.
pub uninterp spec fn count_of(a: Real) -> u32;

/// Lane-wise sum.
pub uninterp spec fn sum3(a: Point3D, b: Point3D) -> Point3D;

/// Lane-wise difference.
pub uninterp spec fn diff3(a: Point3D, b: Point3D) -> Point3D;

/// Lane-wise product.
pub uninterp spec fn prod3(a: Point3D, b: Point3D) -> Point3D;

/// Lane-wise quotient.
pub uninterp spec fn quot3(a: Point3D, b: Point3D) -> Point3D;

/// Lane-wise negation.
pub uninterp spec fn neg3(a: Point3D) -> Point3D;

/// The cross product.
pub uninterp spec fn cross3(a: Point3D, b: Point3D) -> Point3D;

/// The vector scaled to unit length, whatever its length.
pub uninterp spec fn unit3(a: Point3D) -> Point3D;

/// The vector scaled to unit length, or zero where that cannot be done.
pub uninterp spec fn unit_or_zero3(a: Point3D) -> Point3D;

/// The point halfway between two points.
pub uninterp spec fn midpoint3(a: Point3D, b: Point3D) -> Point3D;

/// The number `n`, converted to floating point, in all three lanes.
pub uninterp spec fn splat3(n: u32) -> Point3D;

/// The three lanes, each truncated toward zero to an integer.
pub uninterp spec fn trunc3(a: Point3D) -> (i32, i32, i32);

/// The planar point `p` raised to the height of `level`: `(p.x, p.y, level.z)`.
pub uninterp spec fn raised(p: Point2D, level: Point3D) -> Point3D;

/// Whether the vector compares equal to zero.
pub uninterp spec fn is_zero3(a: Point3D) -> bool;

/// `glam::U64Vec2::splat` followed by `as_vec2`: both lanes hold `n` as a float.
#[verifier::external_body]
pub(crate) fn number(n: u64) -> (r: Real)
    ensures
        r == real_of(n),
{
    glam::U64Vec2::splat(n).as_vec2()
}

/// glam's `Vec2 + Vec2`.
#[verifier::external_body]
pub(crate) fn add2(a: Point2D, b: Point2D) -> (r: Point2D)
    ensures
        r == sum2(a, b),
{
    a + b
}

/// glam's `Vec2 - Vec2`.
#[verifier::external_body]
pub(crate) fn sub2(a: Point2D, b: Point2D) -> (r: Point2D)
    ensures
        r == diff2(a, b),
{
    a - b
}

/// glam's `Vec2 * Vec2`.
#[verifier::external_body]
pub(crate) fn mul2(a: Point2D, b: Point2D) -> (r: Point2D)
    ensures
        r == prod2(a, b),
{
    a * b
}

/// glam's `Vec2 / Vec2`.
#[verifier::external_body]
pub(crate) fn div2(a: Point2D, b: Point2D) -> (r: Point2D)
    ensures
        r == quot2(a, b),
{
    a / b
}

/// `glam::I16Vec2::new` followed by `as_vec2`: the two integers as floats.
#[verifier::external_body]
pub(crate) fn point(x: i16, y: i16) -> (r: Point2D)
    ensures
        r == point_of(x, y),
{
    glam::I16Vec2::new(x, y).as_vec2()
}

/// `glam::Vec2::recip`: one over each lane.
pub assume_specification[ glam::Vec2::recip ](a: glam::Vec2) -> (r: glam::Vec2)
    ensures
        r == recip2(a),
;

/// `glam::Vec2::sqrt`: the square root of each lane.
pub assume_specification[ glam::Vec2::sqrt ](a: glam::Vec2) -> (r: glam::Vec2)
    ensures
        r == sqrt2(a),
;

/// `glam::Vec2::abs`: the absolute value of each lane.
pub assume_specification[ glam::Vec2::abs ](a: glam::Vec2) -> (r: glam::Vec2)
    ensures
        r == abs2(a),
;

/// `glam::Vec2::min`: the smaller of each pair of lanes.
pub assume_specification[ glam::Vec2::min ](a: glam::Vec2, b: glam::Vec2) -> (r: glam::Vec2)
    ensures
        r == min2(a, b),
;

/// `glam::Vec2::round`: each lane rounded to the nearest integer.
pub assume_specification[ glam::Vec2::round ](a: glam::Vec2) -> (r: glam::Vec2)
    ensures
        r == round2(a),
;

/// `glam::Vec2::midpoint`: half the sum of the two vectors.
pub assume_specification[ glam::Vec2::midpoint ](a: glam::Vec2, b: glam::Vec2) -> (r: glam::Vec2)
    ensures
        r == midpoint2(a, b),
;

/// `glam::Vec2::perp`: the vector `(-y, x)`.
pub assume_specification[ glam::Vec2::perp ](a: glam::Vec2) -> (r: glam::Vec2)
    ensures
        r == perp2(a),
;

/// `glam::Vec2::is_finite`: true where no lane is infinite or NaN.
pub assume_specification[ glam::Vec2::is_finite ](a: glam::Vec2) -> (r: bool)
    ensures
        r == finite2(a),
;

/// `glam::Vec2::length_squared`, its result held in both lanes.
#[verifier::external_body]
pub(crate) fn length_squared(a: Point2D) -> (r: Real)
    ensures
        r == length_squared2(a),
{
    glam::Vec2::splat(a.length_squared())
}

/// `glam::Vec2::perp_dot`, its result held in both lanes.
#[verifier::external_body]
pub(crate) fn perp_dot(a: Point2D, b: Point2D) -> (r: Real)
    ensures
        r == cross2(a, b),
{
    glam::Vec2::splat(a.perp_dot(b))
}

/// `glam::Vec2::cmplt` and `BVec2::any`: true where a lane of `a` is less
/// than the same lane of `b`. A NaN lane is never less.
#[verifier::external_body]
pub(crate) fn below(a: Point2D, b: Point2D) -> (r: bool)
    ensures
        r == below2(a, b),
{
    a.cmplt(b).any()
}

/// `glam::Vec2::cmpgt` and `BVec2::any`: true where a lane of `a` is greater
/// than the same lane of `b`. A NaN lane is never greater.
#[verifier::external_body]
pub(crate) fn above(a: Point2D, b: Point2D) -> (r: bool)
    ensures
        r == above2(a, b),
{
    a.cmpgt(b).any()
}

/// `glam::Vec2::as_uvec2`: the first lane cast to `u32`, which truncates
/// toward zero, saturates at the ends of the range and sends NaN to zero.
#[verifier::external_body]
pub(crate) fn count(a: Real) -> (r: u32)
    ensures
        r == count_of(a),
{
    a.as_uvec2().x
}

/// glam's `Vec2 / Vec2`, with euclid's `Angle::two_pi` in both lanes of the
/// divisor: each lane divided by twice pi.
#[verifier::external_body]
pub(crate) fn turns(a: Real) -> (r: Real)
    ensures
        r == turns_of(a),
{
    a / glam::Vec2::splat(lyon_tessellation::geom::Angle::two_pi().radians)
}

/// std's `asin` on each lane. Its precision is unspecified and may differ
/// from call to call, so nothing is claimed of the result.
#[verifier::external_body]
pub(crate) fn arcsine(a: Real) -> (r: Real)
{
    glam::Vec2::new(a.x.asin(), a.y.asin())
}

/// glam's `Vec3 + Vec3`.
#[verifier::external_body]
pub(crate) fn add3(a: Point3D, b: Point3D) -> (r: Point3D)
    ensures
        r == sum3(a, b),
{
    a + b
}

/// glam's `Vec3 - Vec3`.
#[verifier::external_body]
pub(crate) fn sub3(a: Point3D, b: Point3D) -> (r: Point3D)
    ensures
        r == diff3(a, b),
{
    a - b
}

/// glam's `Vec3 * Vec3`.
#[verifier::external_body]
pub(crate) fn mul3(a: Point3D, b: Point3D) -> (r: Point3D)
    ensures
        r == prod3(a, b),
{
    a * b
}

/// glam's `Vec3 / Vec3`.
#[verifier::external_body]
pub(crate) fn div3(a: Point3D, b: Point3D) -> (r: Point3D)
    ensures
        r == quot3(a, b),
{
    a / b
}

/// glam's `-Vec3`.
#[verifier::external_body]
pub(crate) fn negate3(a: Point3D) -> (r: Point3D)
    ensures
        r == neg3(a),
{
    -a
}

/// `glam::Vec3::cross`.
pub assume_specification[ glam::Vec3::cross ](a: glam::Vec3, b: glam::Vec3) -> (r: glam::Vec3)
    ensures
        r == cross3(a, b),
;

/// `glam::Vec3::normalize`: the vector times one over its length. It does
/// not panic on a zero or non-finite vector; the lanes are then not finite.
pub assume_specification[ glam::Vec3::normalize ](a: glam::Vec3) -> (r: glam::Vec3)
    ensures
        r == unit3(a),
;

/// `glam::Vec3::normalize_or_zero`: as `normalize`, but zero where one over
/// the length is not a positive finite number.
pub assume_specification[ glam::Vec3::normalize_or_zero ](a: glam::Vec3) -> (r: glam::Vec3)
    ensures
        r == unit_or_zero3(a),
;

/// `glam::Vec3::midpoint`: half the sum of the two vectors.
pub assume_specification[ glam::Vec3::midpoint ](a: glam::Vec3, b: glam::Vec3) -> (r: glam::Vec3)
    ensures
        r == midpoint3(a, b),
;

/// `glam::UVec3::splat` followed by `as_vec3`: all lanes hold `n` as a float.
#[verifier::external_body]
pub(crate) fn splat(n: u32) -> (r: Point3D)
    ensures
        r == splat3(n),
{
    glam::UVec3::splat(n).as_vec3()
}

/// `glam::Vec3::as_ivec3`: each lane cast to `i32`, which truncates toward
/// zero, saturates at the ends of the range and sends NaN to zero.
#[verifier::external_body]
pub(crate) fn truncate3(a: Point3D) -> (r: (i32, i32, i32))
    ensures
        r == trunc3(a),
{
    let v = a.as_ivec3();
    (v.x, v.y, v.z)
}

/// `glam::Vec2::extend`, with the third lane of `level` as the new lane.
#[verifier::external_body]
pub(crate) fn raise(p: Point2D, level: Point3D) -> (r: Point3D)
    ensures
        r == raised(p, level),
{
    p.extend(level.z)
}

/// glam's `Vec3 == Vec3` against `Vec3::ZERO`: true where every lane is
/// zero of either sign.
#[verifier::external_body]
pub(crate) fn is_zero(a: Point3D) -> (r: bool)
    ensures
        r == is_zero3(a),
{
    a == glam::Vec3::ZERO
}

} // verus!
