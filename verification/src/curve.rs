//! Points and scalars of the secp256k1 group, and big integers.
//!
//! The arithmetic is the curve library's. This module gives its values a type that
//! contracts can speak of, and each operation a name. In a contract two values
//! are equal where they are the same number, or the same element of the group.

use curv::arithmetic::{BitManipulation, Converter, Integer, NumberTests, One};
use curv::elliptic::curves::secp256_k1::Secp256k1;
use curv::elliptic::curves::{Point, Scalar};
use curv::BigInt;
use vstd::prelude::*;

verus! {

/// `curv::BigInt`, an integer of any size.
#[verifier::external_type_specification]
#[verifier::external_body]
pub struct ExBigInt(BigInt);

/// `<curv::BigInt as Clone>::clone`: the copy is the same integer.
pub assume_specification[ <BigInt as Clone>::clone ](n: &BigInt) -> (r: BigInt)
    ensures
        r == *n,
;

/// A point of the curve: `curv`'s `Point<Secp256k1>`.
#[verifier::external_body]
#[derive(Debug)]
pub struct CurvePoint {
    pub inner: Point<Secp256k1>,
}

/// An integer modulo the group order: `curv`'s `Scalar<Secp256k1>`.
#[verifier::external_body]
#[derive(Debug)]
pub struct CurveScalar {
    pub inner: Scalar<Secp256k1>,
}

impl Clone for CurvePoint {
    /// `Point::clone`: the copy is the same point.
    #[verifier::external_body]
    fn clone(&self) -> (r: Self)
        ensures
            r == *self,
    {
        CurvePoint { inner: self.inner.clone() }
    }
}

impl Clone for CurveScalar {
    /// `Scalar::clone`: the copy is the same scalar.
    #[verifier::external_body]
    fn clone(&self) -> (r: Self)
        ensures
            r == *self,
    {
        CurveScalar { inner: self.inner.clone() }
    }
}

/// The sum of two points.
pub uninterp spec fn point_sum(a: CurvePoint, b: CurvePoint) -> CurvePoint;

/// The multiple `s * p` of a point.
pub uninterp spec fn point_mul(p: CurvePoint, s: CurveScalar) -> CurvePoint;

/// The multiple `s * G` of the group's generator `G`.
pub uninterp spec fn generator_mul(s: CurveScalar) -> CurvePoint;

/// Whether `p` is the neutral element, the point that has no coordinates.
pub uninterp spec fn point_is_identity(p: CurvePoint) -> bool;

/// The x-coordinate of `p`; the neutral element has none.
pub uninterp spec fn point_x(p: CurvePoint) -> Option<BigInt>;

/// The scalar `n` modulo the group order.
pub uninterp spec fn scalar_of_integer(n: BigInt) -> CurveScalar;

/// The product of two scalars.
pub uninterp spec fn scalar_product(a: CurveScalar, b: CurveScalar) -> CurveScalar;

/// The product of two integers.
pub uninterp spec fn integer_product(a: BigInt, b: BigInt) -> BigInt;

/// The generator `G` of the group: its multiple by 1.
pub open spec fn generator() -> CurvePoint {
    generator_mul(scalar_of_integer(integer_of_bytes(seq![1u8])))
}

/// The sum of two scalars.
pub uninterp spec fn scalar_sum(a: CurveScalar, b: CurveScalar) -> CurveScalar;

/// Whether `s` is zero.
pub uninterp spec fn scalar_is_zero(s: CurveScalar) -> bool;

/// The integer that the big-endian bytes `bytes` spell.
pub uninterp spec fn integer_of_bytes(bytes: Seq<u8>) -> BigInt;

/// The number of bits of the magnitude of `n`.
pub uninterp spec fn integer_bits(n: BigInt) -> usize;

/// Whether `n` is below zero.
pub uninterp spec fn integer_is_negative(n: BigInt) -> bool;

/// The greatest common divisor of `a` and `b`.
pub uninterp spec fn integer_gcd(a: BigInt, b: BigInt) -> BigInt;

/// Whether `n` is 1.
pub uninterp spec fn integer_is_one(n: BigInt) -> bool;

/// `a` and `b` have no common divisor but 1.
pub open spec fn coprime(a: BigInt, b: BigInt) -> bool {
    integer_is_one(integer_gcd(a, b))
}

/// `init + s[0] + s[1] + ..`, added from the left.
pub open spec fn scalar_fold(init: CurveScalar, s: Seq<CurveScalar>) -> CurveScalar
    decreases s.len(),
{
    if s.len() == 0 {
        init
    } else {
        scalar_sum(scalar_fold(init, s.drop_last()), s.last())
    }
}

/// `s[0] + s[1] + ..`, added from the left, of a list that is not empty.
pub open spec fn scalar_total(s: Seq<CurveScalar>) -> CurveScalar {
    scalar_fold(s[0], s.skip(1))
}

/// `init + s[0] + s[1] + ..`, added from the left.
pub open spec fn point_fold(init: CurvePoint, s: Seq<CurvePoint>) -> CurvePoint
    decreases s.len(),
{
    if s.len() == 0 {
        init
    } else {
        point_sum(point_fold(init, s.drop_last()), s.last())
    }
}

/// `s[0] + s[1] + ..`, added from the left, of a list that is not empty.
pub open spec fn point_total(s: Seq<CurvePoint>) -> CurvePoint {
    point_fold(s[0], s.skip(1))
}

/// `&Point + &Point` of `curv`: the sum of the two points.
#[verifier::external_body]
pub(crate) fn add_points(a: &CurvePoint, b: &CurvePoint) -> (r: CurvePoint)
    ensures
        r == point_sum(*a, *b),
{
    CurvePoint { inner: &a.inner + &b.inner }
}

/// `&Point * &Scalar` of `curv`: the multiple of the point.
#[verifier::external_body]
pub(crate) fn mul_point(p: &CurvePoint, s: &CurveScalar) -> (r: CurvePoint)
    ensures
        r == point_mul(*p, *s),
{
    CurvePoint { inner: &p.inner * &s.inner }
}

/// `Point::generator() * &Scalar` of `curv`: the multiple of the generator.
#[verifier::external_body]
pub(crate) fn mul_generator(s: &CurveScalar) -> (r: CurvePoint)
    ensures
        r == generator_mul(*s),
{
    CurvePoint { inner: Point::<Secp256k1>::generator() * &s.inner }
}

/// `Point::is_zero` of `curv`: whether the point is the neutral element.
#[verifier::external_body]
pub(crate) fn is_identity(p: &CurvePoint) -> (r: bool)
    ensures
        r == point_is_identity(*p),
{
    p.inner.is_zero()
}

/// `Point::x_coord` of `curv`: the x-coordinate, where the point has one.
#[verifier::external_body]
pub(crate) fn x_coordinate(p: &CurvePoint) -> (r: Option<BigInt>)
    ensures
        r == point_x(*p),
{
    p.inner.x_coord()
}

/// `Scalar::from_bigint` of `curv`: the integer modulo the group order.
#[verifier::external_body]
pub(crate) fn scalar_from_integer(n: &BigInt) -> (r: CurveScalar)
    ensures
        r == scalar_of_integer(*n),
{
    CurveScalar { inner: Scalar::from_bigint(n) }
}

/// `Point == Point` of `curv`: whether the two are the same element of the group.
#[verifier::external_body]
pub(crate) fn same_point(a: &CurvePoint, b: &CurvePoint) -> (r: bool)
    ensures
        r == (*a == *b),
{
    a.inner == b.inner
}

/// `&BigInt * &BigInt` of `curv`: the product.
#[verifier::external_body]
pub(crate) fn multiply_integers(a: &BigInt, b: &BigInt) -> (r: BigInt)
    ensures
        r == integer_product(*a, *b),
{
    a * b
}

/// `BigInt == BigInt` of `curv`: whether the two are the same number.
#[verifier::external_body]
pub(crate) fn same_integer(a: &BigInt, b: &BigInt) -> (r: bool)
    ensures
        r == (*a == *b),
{
    a == b
}

/// `&Scalar + &Scalar` of `curv`: the sum modulo the group order.
#[verifier::external_body]
pub(crate) fn add_scalars(a: &CurveScalar, b: &CurveScalar) -> (r: CurveScalar)
    ensures
        r == scalar_sum(*a, *b),
{
    CurveScalar { inner: &a.inner + &b.inner }
}

/// `Scalar::is_zero` of `curv`.
#[verifier::external_body]
pub(crate) fn is_zero_scalar(s: &CurveScalar) -> (r: bool)
    ensures
        r == scalar_is_zero(*s),
{
    s.inner.is_zero()
}

/// `BigInt::from_bytes` of `curv`: the integer that big-endian bytes spell.
#[verifier::external_body]
pub(crate) fn integer_from_bytes(bytes: &[u8]) -> (r: BigInt)
    ensures
        r == integer_of_bytes(bytes@),
{
    BigInt::from_bytes(bytes)
}

/// `BigInt::bit_length` of `curv`: the number of bits of the magnitude.
#[verifier::external_body]
pub(crate) fn bits_of(n: &BigInt) -> (r: usize)
    ensures
        r == integer_bits(*n),
{
    n.bit_length()
}

/// `BigInt::is_negative` of `curv`.
#[verifier::external_body]
pub(crate) fn is_negative_integer(n: &BigInt) -> (r: bool)
    ensures
        r == integer_is_negative(*n),
{
    BigInt::is_negative(n)
}

/// `BigInt::gcd` of `curv`: the greatest common divisor.
#[verifier::external_body]
pub(crate) fn gcd_of(a: &BigInt, b: &BigInt) -> (r: BigInt)
    ensures
        r == integer_gcd(*a, *b),
{
    a.gcd(b)
}

/// `BigInt::is_one` of `curv`.
#[verifier::external_body]
pub(crate) fn is_one_integer(n: &BigInt) -> (r: bool)
    ensures
        r == integer_is_one(*n),
{
    n.is_one()
}

/// Whether `a` and `b` have no common divisor but 1.
pub fn are_coprime(a: &BigInt, b: &BigInt) -> (r: bool)
    ensures
        r == coprime(*a, *b),
{
    is_one_integer(&gcd_of(a, b))
}

/// The sum `init + s[0] + s[1] + ..`.
pub fn fold_scalars(init: &CurveScalar, s: &Vec<CurveScalar>) -> (r: CurveScalar)
    ensures
        r == scalar_fold(*init, s@),
{
    let mut acc = init.clone();
    let mut i: usize = 0;
    while i < s.len()
        invariant
            i <= s.len(),
            acc == scalar_fold(*init, s@.take(i as int)),
        decreases s.len() - i,
    {
        proof {
            assert(s@.take(i + 1).drop_last() =~= s@.take(i as int));
        }
        acc = add_scalars(&acc, &s[i]);
        i += 1;
    }
    proof {
        assert(s@.take(s.len() as int) =~= s@);
    }
    acc
}

/// The sum `s[0] + s[1] + ..` of a list that is not empty.
pub fn total_scalars(s: &Vec<CurveScalar>) -> (r: CurveScalar)
    requires
        s.len() >= 1,
    ensures
        r == scalar_total(s@),
{
    let mut acc = s[0].clone();
    let mut i: usize = 1;
    while i < s.len()
        invariant
            1 <= i <= s.len(),
            acc == scalar_fold(s@[0], s@.skip(1).take(i - 1)),
        decreases s.len() - i,
    {
        proof {
            assert(s@.skip(1).take(i as int).drop_last() =~= s@.skip(1).take(i - 1));
            assert(s@.skip(1).take(i as int).last() == s@[i as int]);
        }
        acc = add_scalars(&acc, &s[i]);
        i += 1;
    }
    proof {
        assert(s@.skip(1).take(s.len() - 1) =~= s@.skip(1));
    }
    acc
}

} // verus!
