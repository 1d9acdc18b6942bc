//! IEEE-754 single-precision arithmetic on raw bit patterns.
//!
//! Plane normals, distances and query points meet in one computation: the
//! signed distance of a point from a plane, whose sign steers the tree
//! descent. The file stores those scalars as IEEE-754 single-precision
//! values; this crate keeps them as `u32` bit patterns and hands the
//! rounding arithmetic to `rustc_apfloat`, whose `Single` type implements
//! IEEE-754 binary32 with round-to-nearest-even — the default rounding of
//! the format. Each operation's result is a function of the operand bits
//! alone, so it is named by an uninterpreted spec function.
//!
//! Negation and the sign test need no arithmetic at all: they are pure
//! bit manipulations, defined and verified here directly.

use vstd::prelude::*;

use rustc_apfloat::Float;

verus! {

/// The bit pattern of the IEEE-754 single product of two bit patterns.
pub uninterp spec fn single_mul(a: u32, b: u32) -> u32;

/// The bit pattern of the IEEE-754 single sum of two bit patterns.
pub uninterp spec fn single_add(a: u32, b: u32) -> u32;

/// The bit pattern of the IEEE-754 single nearest to a 16-bit integer;
/// every such integer is exactly representable.
pub uninterp spec fn single_from_i16(v: i16) -> u32;

/// Relies on `rustc_apfloat::ieee::Single` multiplication
/// (round-to-nearest-even): the result depends on the operand bits alone.
#[verifier::external_body]
fn mul_single(a: u32, b: u32) -> (r: u32)
    ensures
        r == single_mul(a, b),
{
    let x = rustc_apfloat::ieee::Single::from_bits(a as u128);
    let y = rustc_apfloat::ieee::Single::from_bits(b as u128);
    (x * y).value.to_bits() as u32
}

/// Relies on `rustc_apfloat::ieee::Single` addition
/// (round-to-nearest-even): the result depends on the operand bits alone.
#[verifier::external_body]
fn add_single(a: u32, b: u32) -> (r: u32)
    ensures
        r == single_add(a, b),
{
    let x = rustc_apfloat::ieee::Single::from_bits(a as u128);
    let y = rustc_apfloat::ieee::Single::from_bits(b as u128);
    (x + y).value.to_bits() as u32
}

/// Relies on `rustc_apfloat::ieee::Single::from_i128`: conversion of an
/// integer to the nearest single, exact for every 16-bit value.
#[verifier::external_body]
fn i16_to_single(v: i16) -> (r: u32)
    ensures
        r == single_from_i16(v),
{
    rustc_apfloat::ieee::Single::from_i128(v as i128).value.to_bits() as u32
}

/// Flipping the sign bit is exactly IEEE-754 negation.
pub open spec fn spec_single_neg(bits: u32) -> u32 {
    bits ^ 0x8000_0000
}

/// Negates a single-precision bit pattern.
pub fn single_neg(bits: u32) -> (r: u32)
    ensures
        r == spec_single_neg(bits),
{
    bits ^ 0x8000_0000
}

/// A single-precision bit pattern encodes a NaN: all-ones exponent with a
/// nonzero significand.
pub open spec fn spec_single_is_nan(bits: u32) -> bool {
    (bits >> 23) & 0xff == 0xff && bits & 0x7f_ffff != 0
}

/// `x >= 0.0` on single-precision bit patterns: false for NaN, true for
/// either zero and every value with a clear sign bit.
pub open spec fn spec_single_ge_zero(bits: u32) -> bool {
    !spec_single_is_nan(bits) && (bits >> 31 == 0 || bits == 0x8000_0000)
}

/// Sign test against zero, straight off the bits.
pub fn single_ge_zero(bits: u32) -> (r: bool)
    ensures
        r == spec_single_ge_zero(bits),
{
    let is_nan = (bits >> 23) & 0xff == 0xff && bits & 0x7f_ffff != 0;
    !is_nan && (bits >> 31 == 0 || bits == 0x8000_0000)
}

/// IEEE-754 subtraction is addition of the negated operand; only the sum
/// itself needs the outside arithmetic.
pub open spec fn spec_single_sub(a: u32, b: u32) -> u32 {
    single_add(a, spec_single_neg(b))
}

/// Subtracts two single-precision bit patterns.
pub fn sub_single(a: u32, b: u32) -> (r: u32)
    ensures
        r == spec_single_sub(a, b),
{
    add_single(a, single_neg(b))
}

/// The signed distance `dot(normal, point) - distance`, computed left to
/// right in IEEE-754 single precision, as a bit pattern.
pub open spec fn spec_signed_distance(plane: crate::records::Plane, p: crate::records::Vec3<
    i16,
>) -> u32 {
    spec_single_sub(
        single_add(
            single_add(
                single_mul(plane.normal.x, single_from_i16(p.x)),
                single_mul(plane.normal.y, single_from_i16(p.y)),
            ),
            single_mul(plane.normal.z, single_from_i16(p.z)),
        ),
        plane.distance,
    )
}

/// Whether a point lies on the front side of a plane: its signed
/// distance compares `>= 0.0`.
pub open spec fn spec_front_side(plane: crate::records::Plane, p: crate::records::Vec3<
    i16,
>) -> bool {
    spec_single_ge_zero(spec_signed_distance(plane, p))
}

/// Computes which side of `plane` the query point lies on.
pub fn front_side(plane: &crate::records::Plane, p: &crate::records::Vec3<i16>) -> (r: bool)
    ensures
        r == spec_front_side(*plane, *p),
{
    let dx = mul_single(plane.normal.x, i16_to_single(p.x));
    let dy = mul_single(plane.normal.y, i16_to_single(p.y));
    let dz = mul_single(plane.normal.z, i16_to_single(p.z));
    let dot = add_single(add_single(dx, dy), dz);
    single_ge_zero(sub_single(dot, plane.distance))
}

} // verus!
