use vstd::prelude::*;
use winter_math::fields::f64::BaseElement;
use winter_math::StarkField;

verus! {

/// Modulus of the base field: 2^64 - 2^32 + 1.
pub const MODULUS: u64 = 0xFFFF_FFFF_0000_0001;

/// Field addition on canonical representatives.
pub open spec fn fadd(a: int, b: int) -> int {
    (a + b) % (MODULUS as int)
}

/// Field subtraction on canonical representatives.
pub open spec fn fsub(a: int, b: int) -> int {
    (a - b) % (MODULUS as int)
}

/// Field multiplication on canonical representatives.
pub open spec fn fmul(a: int, b: int) -> int {
    (a * b) % (MODULUS as int)
}

/// Relies on winter_math's `BaseElement::new` and `StarkField::as_int`: `new` reduces its
/// argument modulo the field modulus and `as_int` returns the canonical integer in `[0, M)`.
#[verifier::external_body]
fn reduce(v: u64) -> (r: u64)
    ensures
        r == v % MODULUS,
{
    BaseElement::new(v).as_int()
}

/// Relies on `Add` for winter_math's `BaseElement`: addition modulo the field modulus.
#[verifier::external_body]
fn add_mod(a: u64, b: u64) -> (r: u64)
    requires
        a < MODULUS,
        b < MODULUS,
    ensures
        r as int == fadd(a as int, b as int),
{
    (BaseElement::new(a) + BaseElement::new(b)).as_int()
}

/// Relies on `Sub` for winter_math's `BaseElement`: subtraction modulo the field modulus.
#[verifier::external_body]
fn sub_mod(a: u64, b: u64) -> (r: u64)
    requires
        a < MODULUS,
        b < MODULUS,
    ensures
        r as int == fsub(a as int, b as int),
{
    (BaseElement::new(a) - BaseElement::new(b)).as_int()
}

/// Relies on `Mul` for winter_math's `BaseElement`: multiplication modulo the field modulus.
#[verifier::external_body]
fn mul_mod(a: u64, b: u64) -> (r: u64)
    requires
        a < MODULUS,
        b < MODULUS,
    ensures
        r as int == fmul(a as int, b as int),
{
    (BaseElement::new(a) * BaseElement::new(b)).as_int()
}

/// An element of the base field, held as its canonical integer in `[0, MODULUS)`.
#[derive(Clone, Copy, Debug, PartialEq, Eq, Structural)]
pub struct Felt {
    value: u64,
}

impl View for Felt {
    type V = int;

    closed spec fn view(&self) -> int {
        self.value as int % (MODULUS as int)
    }
}

impl Felt {
    /// Creates the field element congruent to `value`.
    pub fn new(value: u64) -> (r: Felt)
        ensures
            r@ == value as int % (MODULUS as int),
    {
        Felt { value: reduce(value) }
    }

    /// The additive identity.
    pub fn zero() -> (r: Felt)
        ensures
            r@ == 0,
    {
        Felt { value: 0 }
    }

    /// The multiplicative identity.
    pub fn one() -> (r: Felt)
        ensures
            r@ == 1,
    {
        Felt { value: 1 }
    }

    /// The canonical integer of this element.
    pub fn as_int(&self) -> (r: u64)
        ensures
            r as int == self@,
    {
        reduce(self.value)
    }

    pub fn add(self, rhs: Felt) -> (r: Felt)
        ensures
            r@ == fadd(self@, rhs@),
    {
        let a = self.as_int();
        let b = rhs.as_int();
        Felt { value: add_mod(a, b) }
    }

    pub fn sub(self, rhs: Felt) -> (r: Felt)
        ensures
            r@ == fsub(self@, rhs@),
    {
        let a = self.as_int();
        let b = rhs.as_int();
        Felt { value: sub_mod(a, b) }
    }

    pub fn mul(self, rhs: Felt) -> (r: Felt)
        ensures
            r@ == fmul(self@, rhs@),
    {
        let a = self.as_int();
        let b = rhs.as_int();
        Felt { value: mul_mod(a, b) }
    }
}

} // verus!
