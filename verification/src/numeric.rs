//! The numeric capabilities that the ledger asks of its number types, and
//! their implementations for the unsigned integer types.
//!
//! Each capability says what its operation does to the natural number that a
//! value stands for. The implementations for the primitive types obtain the
//! identities and the checked operations from the `num` crate.

use vstd::prelude::*;

verus! {

/// A number type of bounded range whose values stand for natural numbers.
pub trait BoundedNat: Copy {
    /// The natural number that `self` stands for.
    spec fn value(self) -> nat;

    /// The largest natural number that a value of the type stands for.
    spec fn max_value() -> nat;

    /// No value lies above `max_value`.
    proof fn lemma_value_in_range(self)
        ensures
            self.value() <= Self::max_value(),
    ;

    /// Two values that stand for the same number are the same value.
    proof fn lemma_value_injective(self, other: Self)
        requires
            self.value() == other.value(),
        ensures
            self == other,
    ;
}

/// The additive identity.
pub trait Zero: BoundedNat {
    /// Returns the value that stands for 0.
    fn zero() -> (z: Self)
        ensures
            z.value() == 0,
    ;
}

/// The multiplicative identity.
pub trait One: BoundedNat {
    /// Returns the value that stands for 1.
    fn one() -> (o: Self)
        ensures
            o.value() == 1,
    ;
}

/// Addition in place whose caller shows that the sum is in range.
pub trait AddAssign: BoundedNat {
    /// Adds `rhs` to `self`.
    fn add_assign(&mut self, rhs: Self)
        requires
            old(self).value() + rhs.value() <= Self::max_value(),
        ensures
            final(self).value() == old(self).value() + rhs.value(),
    ;
}

/// Addition that reports overflow instead of wrapping around.
pub trait CheckedAdd: BoundedNat {
    /// Returns the sum, or `None` exactly when it exceeds `max_value`.
    fn checked_add(&self, v: &Self) -> (sum: Option<Self>)
        ensures
            match sum {
                Some(s) => s.value() == self.value() + v.value(),
                None => self.value() + v.value() > Self::max_value(),
            },
    ;
}

/// Subtraction that reports underflow instead of wrapping around.
pub trait CheckedSub: BoundedNat {
    /// Returns the difference, or `None` exactly when `v` exceeds `self`.
    fn checked_sub(&self, v: &Self) -> (difference: Option<Self>)
        ensures
            match difference {
                Some(d) => d.value() == self.value() - v.value(),
                None => self.value() < v.value(),
            },
    ;
}

/// Calls `<u32 as num::traits::Zero>::zero`, which returns the literal `0`.
#[verifier::external_body]
fn num_zero_u32() -> (z: u32)
    ensures
        z == 0,
{
    <u32 as num::traits::Zero>::zero()
}

/// Calls `<u32 as num::traits::One>::one`, which returns the literal `1`.
#[verifier::external_body]
fn num_one_u32() -> (o: u32)
    ensures
        o == 1,
{
    <u32 as num::traits::One>::one()
}

/// Calls `<u32 as num::traits::CheckedAdd>::checked_add`, which hands both
/// operands to `u32::checked_add`: the sum where it fits in a `u32`, `None`
/// where it does not.
#[verifier::external_body]
fn num_checked_add_u32(a: u32, b: u32) -> (sum: Option<u32>)
    ensures
        match sum {
            Some(s) => s == a + b,
            None => a + b > u32::MAX,
        },
{
    <u32 as num::traits::CheckedAdd>::checked_add(&a, &b)
}

/// Calls `<u32 as num::traits::CheckedSub>::checked_sub`, which hands both
/// operands to `u32::checked_sub`: the difference where it is not negative,
/// `None` where it is.
#[verifier::external_body]
fn num_checked_sub_u32(a: u32, b: u32) -> (difference: Option<u32>)
    ensures
        match difference {
            Some(d) => d == a - b,
            None => a < b,
        },
{
    <u32 as num::traits::CheckedSub>::checked_sub(&a, &b)
}

impl BoundedNat for u32 {
    open spec fn value(self) -> nat {
        self as nat
    }

    open spec fn max_value() -> nat {
        u32::MAX as nat
    }

    proof fn lemma_value_in_range(self) {
    }

    proof fn lemma_value_injective(self, other: Self) {
    }
}

impl Zero for u32 {
    fn zero() -> (z: u32) {
        num_zero_u32()
    }
}

impl One for u32 {
    fn one() -> (o: u32) {
        num_one_u32()
    }
}

impl AddAssign for u32 {
    fn add_assign(&mut self, rhs: u32) {
        *self += rhs;
    }
}

impl CheckedAdd for u32 {
    fn checked_add(&self, v: &u32) -> (sum: Option<u32>) {
        num_checked_add_u32(*self, *v)
    }
}

impl CheckedSub for u32 {
    fn checked_sub(&self, v: &u32) -> (difference: Option<u32>) {
        num_checked_sub_u32(*self, *v)
    }
}

/// Calls `<u64 as num::traits::Zero>::zero`, which returns the literal `0`.
#[verifier::external_body]
fn num_zero_u64() -> (z: u64)
    ensures
        z == 0,
{
    <u64 as num::traits::Zero>::zero()
}

/// Calls `<u64 as num::traits::One>::one`, which returns the literal `1`.
#[verifier::external_body]
fn num_one_u64() -> (o: u64)
    ensures
        o == 1,
{
    <u64 as num::traits::One>::one()
}

/// Calls `<u64 as num::traits::CheckedAdd>::checked_add`, which hands both
/// operands to `u64::checked_add`: the sum where it fits in a `u64`, `None`
/// where it does not.
#[verifier::external_body]
fn num_checked_add_u64(a: u64, b: u64) -> (sum: Option<u64>)
    ensures
        match sum {
            Some(s) => s == a + b,
            None => a + b > u64::MAX,
        },
{
    <u64 as num::traits::CheckedAdd>::checked_add(&a, &b)
}

/// Calls `<u64 as num::traits::CheckedSub>::checked_sub`, which hands both
/// operands to `u64::checked_sub`: the difference where it is not negative,
/// `None` where it is.
#[verifier::external_body]
fn num_checked_sub_u64(a: u64, b: u64) -> (difference: Option<u64>)
    ensures
        match difference {
            Some(d) => d == a - b,
            None => a < b,
        },
{
    <u64 as num::traits::CheckedSub>::checked_sub(&a, &b)
}

impl BoundedNat for u64 {
    open spec fn value(self) -> nat {
        self as nat
    }

    open spec fn max_value() -> nat {
        u64::MAX as nat
    }

    proof fn lemma_value_in_range(self) {
    }

    proof fn lemma_value_injective(self, other: Self) {
    }
}

impl Zero for u64 {
    fn zero() -> (z: u64) {
        num_zero_u64()
    }
}

impl One for u64 {
    fn one() -> (o: u64) {
        num_one_u64()
    }
}

impl AddAssign for u64 {
    fn add_assign(&mut self, rhs: u64) {
        *self += rhs;
    }
}

impl CheckedAdd for u64 {
    fn checked_add(&self, v: &u64) -> (sum: Option<u64>) {
        num_checked_add_u64(*self, *v)
    }
}

impl CheckedSub for u64 {
    fn checked_sub(&self, v: &u64) -> (difference: Option<u64>) {
        num_checked_sub_u64(*self, *v)
    }
}

/// Calls `<u128 as num::traits::Zero>::zero`, which returns the literal `0`.
#[verifier::external_body]
fn num_zero_u128() -> (z: u128)
    ensures
        z == 0,
{
    <u128 as num::traits::Zero>::zero()
}

/// Calls `<u128 as num::traits::One>::one`, which returns the literal `1`.
#[verifier::external_body]
fn num_one_u128() -> (o: u128)
    ensures
        o == 1,
{
    <u128 as num::traits::One>::one()
}

/// Calls `<u128 as num::traits::CheckedAdd>::checked_add`, which hands both
/// operands to `u128::checked_add`: the sum where it fits in a `u128`, `None`
/// where it does not.
#[verifier::external_body]
fn num_checked_add_u128(a: u128, b: u128) -> (sum: Option<u128>)
    ensures
        match sum {
            Some(s) => s == a + b,
            None => a + b > u128::MAX,
        },
{
    <u128 as num::traits::CheckedAdd>::checked_add(&a, &b)
}

/// Calls `<u128 as num::traits::CheckedSub>::checked_sub`, which hands both
/// operands to `u128::checked_sub`: the difference where it is not negative,
/// `None` where it is.
#[verifier::external_body]
fn num_checked_sub_u128(a: u128, b: u128) -> (difference: Option<u128>)
    ensures
        match difference {
            Some(d) => d == a - b,
            None => a < b,
        },
{
    <u128 as num::traits::CheckedSub>::checked_sub(&a, &b)
}

impl BoundedNat for u128 {
    open spec fn value(self) -> nat {
        self as nat
    }

    open spec fn max_value() -> nat {
        u128::MAX as nat
    }

    proof fn lemma_value_in_range(self) {
    }

    proof fn lemma_value_injective(self, other: Self) {
    }
}

impl Zero for u128 {
    fn zero() -> (z: u128) {
        num_zero_u128()
    }
}

impl One for u128 {
    fn one() -> (o: u128) {
        num_one_u128()
    }
}

impl AddAssign for u128 {
    fn add_assign(&mut self, rhs: u128) {
        *self += rhs;
    }
}

impl CheckedAdd for u128 {
    fn checked_add(&self, v: &u128) -> (sum: Option<u128>) {
        num_checked_add_u128(*self, *v)
    }
}

impl CheckedSub for u128 {
    fn checked_sub(&self, v: &u128) -> (difference: Option<u128>) {
        num_checked_sub_u128(*self, *v)
    }
}

/// Calls `<u8 as num::traits::Zero>::zero`, which returns the literal `0`.
#[verifier::external_body]
fn num_zero_u8() -> (z: u8)
    ensures
        z == 0,
{
    <u8 as num::traits::Zero>::zero()
}

/// Calls `<u8 as num::traits::One>::one`, which returns the literal `1`.
#[verifier::external_body]
fn num_one_u8() -> (o: u8)
    ensures
        o == 1,
{
    <u8 as num::traits::One>::one()
}

/// Calls `<u8 as num::traits::CheckedAdd>::checked_add`, which hands both
/// operands to `u8::checked_add`: the sum where it fits in a `u8`, `None`
/// where it does not.
#[verifier::external_body]
fn num_checked_add_u8(a: u8, b: u8) -> (sum: Option<u8>)
    ensures
        match sum {
            Some(s) => s == a + b,
            None => a + b > u8::MAX,
        },
{
    <u8 as num::traits::CheckedAdd>::checked_add(&a, &b)
}

/// Calls `<u8 as num::traits::CheckedSub>::checked_sub`, which hands both
/// operands to `u8::checked_sub`: the difference where it is not negative,
/// `None` where it is.
#[verifier::external_body]
fn num_checked_sub_u8(a: u8, b: u8) -> (difference: Option<u8>)
    ensures
        match difference {
            Some(d) => d == a - b,
            None => a < b,
        },
{
    <u8 as num::traits::CheckedSub>::checked_sub(&a, &b)
}

impl BoundedNat for u8 {
    open spec fn value(self) -> nat {
        self as nat
    }

    open spec fn max_value() -> nat {
        u8::MAX as nat
    }

    proof fn lemma_value_in_range(self) {
    }

    proof fn lemma_value_injective(self, other: Self) {
    }
}

impl Zero for u8 {
    fn zero() -> (z: u8) {
        num_zero_u8()
    }
}

impl One for u8 {
    fn one() -> (o: u8) {
        num_one_u8()
    }
}

impl AddAssign for u8 {
    fn add_assign(&mut self, rhs: u8) {
        *self += rhs;
    }
}

impl CheckedAdd for u8 {
    fn checked_add(&self, v: &u8) -> (sum: Option<u8>) {
        num_checked_add_u8(*self, *v)
    }
}

impl CheckedSub for u8 {
    fn checked_sub(&self, v: &u8) -> (difference: Option<u8>) {
        num_checked_sub_u8(*self, *v)
    }
}

/// Calls `<u16 as num::traits::Zero>::zero`, which returns the literal `0`.
#[verifier::external_body]
fn num_zero_u16() -> (z: u16)
    ensures
        z == 0,
{
    <u16 as num::traits::Zero>::zero()
}

/// Calls `<u16 as num::traits::One>::one`, which returns the literal `1`.
#[verifier::external_body]
fn num_one_u16() -> (o: u16)
    ensures
        o == 1,
{
    <u16 as num::traits::One>::one()
}

/// Calls `<u16 as num::traits::CheckedAdd>::checked_add`, which hands both
/// operands to `u16::checked_add`: the sum where it fits in a `u16`, `None`
/// where it does not.
#[verifier::external_body]
fn num_checked_add_u16(a: u16, b: u16) -> (sum: Option<u16>)
    ensures
        match sum {
            Some(s) => s == a + b,
            None => a + b > u16::MAX,
        },
{
    <u16 as num::traits::CheckedAdd>::checked_add(&a, &b)
}

/// Calls `<u16 as num::traits::CheckedSub>::checked_sub`, which hands both
/// operands to `u16::checked_sub`: the difference where it is not negative,
/// `None` where it is.
#[verifier::external_body]
fn num_checked_sub_u16(a: u16, b: u16) -> (difference: Option<u16>)
    ensures
        match difference {
            Some(d) => d == a - b,
            None => a < b,
        },
{
    <u16 as num::traits::CheckedSub>::checked_sub(&a, &b)
}

impl BoundedNat for u16 {
    open spec fn value(self) -> nat {
        self as nat
    }

    open spec fn max_value() -> nat {
        u16::MAX as nat
    }

    proof fn lemma_value_in_range(self) {
    }

    proof fn lemma_value_injective(self, other: Self) {
    }
}

impl Zero for u16 {
    fn zero() -> (z: u16) {
        num_zero_u16()
    }
}

impl One for u16 {
    fn one() -> (o: u16) {
        num_one_u16()
    }
}

impl AddAssign for u16 {
    fn add_assign(&mut self, rhs: u16) {
        *self += rhs;
    }
}

impl CheckedAdd for u16 {
    fn checked_add(&self, v: &u16) -> (sum: Option<u16>) {
        num_checked_add_u16(*self, *v)
    }
}

impl CheckedSub for u16 {
    fn checked_sub(&self, v: &u16) -> (difference: Option<u16>) {
        num_checked_sub_u16(*self, *v)
    }
}

/// Calls `<usize as num::traits::Zero>::zero`, which returns the literal `0`.
#[verifier::external_body]
fn num_zero_usize() -> (z: usize)
    ensures
        z == 0,
{
    <usize as num::traits::Zero>::zero()
}

/// Calls `<usize as num::traits::One>::one`, which returns the literal `1`.
#[verifier::external_body]
fn num_one_usize() -> (o: usize)
    ensures
        o == 1,
{
    <usize as num::traits::One>::one()
}

/// Calls `<usize as num::traits::CheckedAdd>::checked_add`, which hands both
/// operands to `usize::checked_add`: the sum where it fits in a `usize`, `None`
/// where it does not.
#[verifier::external_body]
fn num_checked_add_usize(a: usize, b: usize) -> (sum: Option<usize>)
    ensures
        match sum {
            Some(s) => s == a + b,
            None => a + b > usize::MAX,
        },
{
    <usize as num::traits::CheckedAdd>::checked_add(&a, &b)
}

/// Calls `<usize as num::traits::CheckedSub>::checked_sub`, which hands both
/// operands to `usize::checked_sub`: the difference where it is not negative,
/// `None` where it is.
#[verifier::external_body]
fn num_checked_sub_usize(a: usize, b: usize) -> (difference: Option<usize>)
    ensures
        match difference {
            Some(d) => d == a - b,
            None => a < b,
        },
{
    <usize as num::traits::CheckedSub>::checked_sub(&a, &b)
}

impl BoundedNat for usize {
    open spec fn value(self) -> nat {
        self as nat
    }

    open spec fn max_value() -> nat {
        usize::MAX as nat
    }

    proof fn lemma_value_in_range(self) {
    }

    proof fn lemma_value_injective(self, other: Self) {
    }
}

impl Zero for usize {
    fn zero() -> (z: usize) {
        num_zero_usize()
    }
}

impl One for usize {
    fn one() -> (o: usize) {
        num_one_usize()
    }
}

impl AddAssign for usize {
    fn add_assign(&mut self, rhs: usize) {
        *self += rhs;
    }
}

impl CheckedAdd for usize {
    fn checked_add(&self, v: &usize) -> (sum: Option<usize>) {
        num_checked_add_usize(*self, *v)
    }
}

impl CheckedSub for usize {
    fn checked_sub(&self, v: &usize) -> (difference: Option<usize>) {
        num_checked_sub_usize(*self, *v)
    }
}

} // verus!
