//! The numeric domain: the scalar capabilities that layers, activations and losses compute with.
//!
//! `Number` is the base capability that every representation has (arithmetic, identities,
//! comparisons, nonzero-based logic). The transcendental operations (`exp`, `tanh`, `ln`) are the
//! continuous capability: they are only offered for types with `num_traits::Float`, so asking for
//! them on an integer representation is a compile-time error.
//!
//! Arithmetic goes through the standard operator traits, whose behaviour vstd specifies for the
//! machine integers. Contracts are therefore stated over those specifications and hold exactly
//! whenever `exact_ops` holds of the scalar type (every integer type); for other scalars they say
//! nothing about values.
use vstd::prelude::*;
use core::cmp::Ordering;
use core::ops::{Add, Div, Mul, Neg, Sub};
use num_traits::Float;
use vstd::std_specs::cmp::{PartialEqSpec, PartialOrdSpec};
use vstd::std_specs::convert::FromSpec;
use vstd::std_specs::ops::{AddSpec, DivSpec, MulSpec, NegSpec, SubSpec};

verus! {

/// The additive identity, as the conversion from `0i8` gives it.
pub open spec fn zero_of<T: From<i8>>() -> T {
    <T as FromSpec<i8>>::from_spec(0i8)
}

/// The multiplicative identity, as the conversion from `1i8` gives it.
pub open spec fn one_of<T: From<i8>>() -> T {
    <T as FromSpec<i8>>::from_spec(1i8)
}

/// The scalar's operators behave as their specifications say (true of the machine integers).
pub open spec fn exact_ops<T: Number>() -> bool {
    &&& <T as FromSpec<i8>>::obeys_from_spec()
    &&& T::obeys_add_spec()
    &&& T::obeys_sub_spec()
    &&& T::obeys_mul_spec()
    &&& T::obeys_div_spec()
    &&& T::obeys_neg_spec()
    &&& T::obeys_eq_spec()
    &&& T::obeys_partial_cmp_spec()
}

/// Zero and one are the converted constants and equality is the specified one.
pub open spec fn logic_exact<T: PartialEq + From<i8>>() -> bool {
    <T as FromSpec<i8>>::obeys_from_spec() && T::obeys_eq_spec()
}

/// Every arithmetic operator is defined on every operand (no overflow or division trap).
pub open spec fn total_ops<T: Number>() -> bool {
    &&& forall|a: T, b: T| #[trigger] a.add_req(b)
    &&& forall|a: T, b: T| #[trigger] a.sub_req(b)
    &&& forall|a: T, b: T| #[trigger] a.mul_req(b)
    &&& forall|a: T, b: T| #[trigger] a.div_req(b)
    &&& forall|a: T| #[trigger] a.neg_req()
}

/// `a` differs from zero.
pub open spec fn is_nonzero<T: PartialEq + From<i8>>(a: T) -> bool {
    !a.eq_spec(&zero_of::<T>())
}

/// `a > b` under the specified ordering.
pub open spec fn spec_gt<T: PartialOrd>(a: T, b: T) -> bool {
    a.partial_cmp_spec(&b) == Some(Ordering::Greater)
}

/// `a < b` under the specified ordering.
pub open spec fn spec_lt<T: PartialOrd>(a: T, b: T) -> bool {
    a.partial_cmp_spec(&b) == Some(Ordering::Less)
}

/// `one` where the condition holds, `zero` elsewhere: how logic results are encoded.
pub open spec fn truth_value<T: From<i8>>(b: bool) -> T {
    if b {
        one_of::<T>()
    } else {
        zero_of::<T>()
    }
}

/// The base numeric capability, shared by every scalar representation.
///
/// Logic operations read a scalar as true when it is nonzero and answer with `one()` or
/// `zero()`, not with a `bool`.
pub trait Number: Copy + PartialEq + PartialOrd + Add<Output = Self> + Sub<Output = Self> + Mul<
    Output = Self,
> + Div<Output = Self> + Neg<Output = Self> + From<i8> {
    /// The additive identity.
    fn zero() -> (r: Self)
        ensures
            <Self as FromSpec<i8>>::obeys_from_spec() ==> r == zero_of::<Self>(),
    ;

    /// The multiplicative identity.
    fn one() -> (r: Self)
        ensures
            <Self as FromSpec<i8>>::obeys_from_spec() ==> r == one_of::<Self>(),
    ;

    /// `one()` if both are nonzero, else `zero()`.
    fn and(self, rhs: Self) -> (r: Self)
        ensures
            logic_exact::<Self>() ==> r == truth_value::<Self>(
                is_nonzero(self) && is_nonzero(rhs),
            ),
    ;

    /// `one()` if either is nonzero, else `zero()`.
    fn or(self, rhs: Self) -> (r: Self)
        ensures
            logic_exact::<Self>() ==> r == truth_value::<Self>(
                is_nonzero(self) || is_nonzero(rhs),
            ),
    ;

    /// `one()` if zero, else `zero()`.
    fn not(self) -> (r: Self)
        ensures
            logic_exact::<Self>() ==> r == truth_value::<Self>(!is_nonzero(self)),
    ;

    /// Equality.
    fn eq(self, rhs: Self) -> (r: bool)
        ensures
            Self::obeys_eq_spec() ==> (r <==> self.eq_spec(&rhs)),
    ;

    /// Inequality.
    fn ne(self, rhs: Self) -> (r: bool)
        ensures
            Self::obeys_eq_spec() ==> (r <==> !self.eq_spec(&rhs)),
    ;

    /// Greater than.
    fn gt(self, rhs: Self) -> (r: bool)
        ensures
            Self::obeys_partial_cmp_spec() ==> (r <==> spec_gt(self, rhs)),
    ;

    /// Less than.
    fn lt(self, rhs: Self) -> (r: bool)
        ensures
            Self::obeys_partial_cmp_spec() ==> (r <==> spec_lt(self, rhs)),
    ;

    /// Greater than or equal.
    fn ge(self, rhs: Self) -> (r: bool)
        ensures
            Self::obeys_partial_cmp_spec() ==> (r <==> (spec_gt(self, rhs) || self.partial_cmp_spec(
                &rhs,
            ) == Some(Ordering::Equal))),
    ;

    /// Less than or equal.
    fn le(self, rhs: Self) -> (r: bool)
        ensures
            Self::obeys_partial_cmp_spec() ==> (r <==> (spec_lt(self, rhs) || self.partial_cmp_spec(
                &rhs,
            ) == Some(Ordering::Equal))),
    ;
}

impl<T> Number for T where
    T: Copy + PartialEq + PartialOrd + Add<Output = T> + Sub<Output = T> + Mul<Output = T> + Div<
        Output = T,
    > + Neg<Output = T> + From<i8>,
 {
    fn zero() -> (r: T) {
        T::from(0i8)
    }

    fn one() -> (r: T) {
        T::from(1i8)
    }

    fn and(self, rhs: T) -> (r: T) {
        let z = T::from(0i8);
        if self != z && rhs != z {
            T::from(1i8)
        } else {
            z
        }
    }

    fn or(self, rhs: T) -> (r: T) {
        let z = T::from(0i8);
        if self != z || rhs != z {
            T::from(1i8)
        } else {
            z
        }
    }

    fn not(self) -> (r: T) {
        let z = T::from(0i8);
        if self == z {
            T::from(1i8)
        } else {
            z
        }
    }

    fn eq(self, rhs: T) -> (r: bool) {
        self == rhs
    }

    fn ne(self, rhs: T) -> (r: bool) {
        self != rhs
    }

    fn gt(self, rhs: T) -> (r: bool) {
        self > rhs
    }

    fn lt(self, rhs: T) -> (r: bool) {
        self < rhs
    }

    fn ge(self, rhs: T) -> (r: bool) {
        self >= rhs
    }

    fn le(self, rhs: T) -> (r: bool) {
        self <= rhs
    }
}

/// `-x`.
pub(crate) fn negate<T: Number>(x: T) -> (r: T)
    requires
        x.neg_req(),
    ensures
        T::obeys_neg_spec() ==> r == x.neg_spec(),
{
    x.neg()
}

/// Relies on num_traits::Float::exp for the exponential of a floating-point value; nothing is
/// assumed about the result.
#[verifier::external_body]
pub(crate) fn float_exp<T: Float>(x: T) -> T {
    Float::exp(x)
}

/// Relies on num_traits::Float::tanh for the hyperbolic tangent of a floating-point value; nothing
/// is assumed about the result.
#[verifier::external_body]
pub(crate) fn float_tanh<T: Float>(x: T) -> T {
    Float::tanh(x)
}

/// Relies on num_traits::Float::ln for the natural logarithm of a floating-point value; nothing is
/// assumed about the result.
#[verifier::external_body]
pub(crate) fn float_ln<T: Float>(x: T) -> T {
    Float::ln(x)
}

/// The behaviour of zero and one that every machine integer type has: exact operators, zero
/// neutral for `+` and `-` and absorbing for `*`, `a - a == 0`, `0 / c == 0`, and `0 > 0` false.
pub open spec fn integer_zero<T: Number>() -> bool {
    &&& exact_ops::<T>()
    &&& forall|a: T|
        #![trigger a.mul_spec(zero_of::<T>())]
        #![trigger a.mul_req(zero_of::<T>())]
        a.mul_spec(zero_of::<T>()) == zero_of::<T>() && a.mul_req(zero_of::<T>())
    &&& forall|a: T|
        #![trigger zero_of::<T>().mul_spec(a)]
        #![trigger zero_of::<T>().mul_req(a)]
        zero_of::<T>().mul_spec(a) == zero_of::<T>() && zero_of::<T>().mul_req(a)
    &&& forall|a: T|
        #![trigger a.add_spec(zero_of::<T>())]
        #![trigger a.add_req(zero_of::<T>())]
        a.add_spec(zero_of::<T>()) == a && a.add_req(zero_of::<T>())
    &&& forall|a: T|
        #![trigger a.sub_spec(zero_of::<T>())]
        #![trigger a.sub_req(zero_of::<T>())]
        a.sub_spec(zero_of::<T>()) == a && a.sub_req(zero_of::<T>())
    &&& forall|a: T|
        #![trigger a.sub_spec(a)]
        #![trigger a.sub_req(a)]
        a.sub_spec(a) == zero_of::<T>() && a.sub_req(a)
    &&& forall|c: T| #[trigger] zero_of::<T>().div_req(c) ==> zero_of::<T>().div_spec(c) == zero_of::<T>()
    &&& !spec_gt(zero_of::<T>(), zero_of::<T>())
}

/// The machine integers `i32` and `i64` have exact operators and the integer behaviour of zero.
pub proof fn lemma_integers_exact()
    ensures
        integer_zero::<i32>(),
        integer_zero::<i64>(),
        zero_of::<i32>() == 0i32,
        one_of::<i32>() == 1i32,
        zero_of::<i64>() == 0i64,
        one_of::<i64>() == 1i64,
{
    assert forall|a: i32| #[trigger] a.mul_spec(0i32) == 0i32 && a.mul_req(0i32) by {}
    assert forall|a: i32| #[trigger] (0i32).mul_spec(a) == 0i32 && (0i32).mul_req(a) by {}
    assert forall|a: i32| #[trigger] a.add_spec(0i32) == a && a.add_req(0i32) by {}
    assert forall|a: i32| #[trigger] a.sub_spec(0i32) == a && a.sub_req(0i32) by {}
    assert forall|a: i32| #[trigger] a.sub_spec(a) == 0i32 && a.sub_req(a) by {}
    assert forall|c: i32| #[trigger] (0i32).div_req(c) implies (0i32).div_spec(c) == 0i32 by {
        assert(0int / (c as int) == 0) by (nonlinear_arith)
            requires
                c != 0,
        ;
    }
    assert(!spec_gt(0i32, 0i32));
    assert forall|a: i64| #[trigger] a.mul_spec(0i64) == 0i64 && a.mul_req(0i64) by {}
    assert forall|a: i64| #[trigger] (0i64).mul_spec(a) == 0i64 && (0i64).mul_req(a) by {}
    assert forall|a: i64| #[trigger] a.add_spec(0i64) == a && a.add_req(0i64) by {}
    assert forall|a: i64| #[trigger] a.sub_spec(0i64) == a && a.sub_req(0i64) by {}
    assert forall|a: i64| #[trigger] a.sub_spec(a) == 0i64 && a.sub_req(a) by {}
    assert forall|c: i64| #[trigger] (0i64).div_req(c) implies (0i64).div_spec(c) == 0i64 by {
        assert(0int / (c as int) == 0) by (nonlinear_arith)
            requires
                c != 0,
        ;
    }
    assert(!spec_gt(0i64, 0i64));
}

} // verus!
