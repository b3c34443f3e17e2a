//! Newtypes with the impls that `#[derive(DerivingVia)]` gives them, written
//! out and verified: `From`, `Deref`, arithmetic through `i32`, `Display`
//! through the innermost value, and a `#[transitive(i32 -> A -> B -> C)]`
//! conversion.

use vstd::prelude::*;
use vstd::string::*;
use std::fmt::Display;
use std::marker::PhantomData;
use crate::text::{decimal_i32, signed_decimal};

verus! {

/// `#[deriving(From)]` around an `i32`.
#[derive(Debug, Clone, Copy, PartialEq, Eq, Structural)]
pub struct A(pub i32);

/// `#[deriving(From)]` around an [`A`].
#[derive(Debug, Clone, Copy, PartialEq, Eq, Structural)]
pub struct B(pub A);

/// `#[deriving(From, Add(via = i32), Mul(via = i32), Display(via = i32))]`
/// and `#[transitive(i32 -> A -> B -> C)]` around a [`B`].
#[derive(Debug, Clone, Copy, PartialEq, Eq, Structural)]
pub struct C(pub B);

/// `#[deriving(From, Display(via = T))]` around any displayable value.
#[derive(Debug)]
pub struct D<T: Display>(pub T);

/// `#[deriving(Display(via = i32))]` around the `#[underlying]` `i32`.
#[derive(Debug)]
pub struct Test<T>(pub i32, pub PhantomData<T>);

impl From<i32> for A {
    fn from(x: i32) -> (r: A) {
        A(x)
    }
}

impl vstd::std_specs::convert::FromSpecImpl<i32> for A {
    open spec fn obeys_from_spec() -> bool {
        true
    }

    open spec fn from_spec(v: i32) -> A {
        A(v)
    }
}

impl From<A> for B {
    fn from(x: A) -> (r: B) {
        B(x)
    }
}

impl vstd::std_specs::convert::FromSpecImpl<A> for B {
    open spec fn obeys_from_spec() -> bool {
        true
    }

    open spec fn from_spec(v: A) -> B {
        B(v)
    }
}

impl From<B> for C {
    fn from(x: B) -> (r: C) {
        C(x)
    }
}

impl vstd::std_specs::convert::FromSpecImpl<B> for C {
    open spec fn obeys_from_spec() -> bool {
        true
    }

    open spec fn from_spec(v: B) -> C {
        C(v)
    }
}

/// `#[transitive(i32 -> A -> B -> C)]`: through `A` and `B` in turn.
impl From<i32> for C {
    fn from(x: i32) -> (r: C) {
        let a: A = A::from(x);
        let b: B = B::from(a);
        C::from(b)
    }
}

impl vstd::std_specs::convert::FromSpecImpl<i32> for C {
    open spec fn obeys_from_spec() -> bool {
        true
    }

    open spec fn from_spec(v: i32) -> C {
        C(B(A(v)))
    }
}

impl<T: Display> From<T> for D<T> {
    fn from(x: T) -> (r: D<T>) {
        D(x)
    }
}

impl<T: Display> vstd::std_specs::convert::FromSpecImpl<T> for D<T> {
    open spec fn obeys_from_spec() -> bool {
        true
    }

    open spec fn from_spec(v: T) -> D<T> {
        D(v)
    }
}

impl A {
    /// `Deref` to the `i32`.
    pub fn deref(&self) -> (r: &i32)
        ensures
            *r == self.0,
    {
        &self.0
    }

    /// `DerefMut` to the `i32`.
    pub fn deref_mut(&mut self) -> (r: &mut i32)
        ensures
            *r == old(self).0,
            *final(self) == A(*final(r)),
    {
        &mut self.0
    }
}

impl B {
    /// `Deref` to the [`A`].
    pub fn deref(&self) -> (r: &A)
        ensures
            *r == self.0,
    {
        &self.0
    }

    /// `DerefMut` to the [`A`].
    pub fn deref_mut(&mut self) -> (r: &mut A)
        ensures
            *r == old(self).0,
            *final(self) == B(*final(r)),
    {
        &mut self.0
    }
}

impl C {
    /// `Deref` to the [`B`].
    pub fn deref(&self) -> (r: &B)
        ensures
            *r == self.0,
    {
        &self.0
    }

    /// `DerefMut` to the [`B`].
    pub fn deref_mut(&mut self) -> (r: &mut B)
        ensures
            *r == old(self).0,
            *final(self) == C(*final(r)),
    {
        &mut self.0
    }

    /// The `i32` reached through `Deref` from `C` to `B`, `A` and `i32`.
    pub open spec fn inner(self) -> int {
        self.0.0.0 as int
    }

    /// The `i32` at the bottom of the chain.
    fn via_i32(&self) -> (r: i32)
        ensures
            r == self.inner(),
    {
        *self.deref().deref().deref()
    }

    /// `Add` through `i32`; the sum must fit in an `i32`.
    pub fn add(self, other: C) -> (r: C)
        requires
            i32::MIN <= self.inner() + other.inner() <= i32::MAX,
        ensures
            r.inner() == self.inner() + other.inner(),
    {
        let lhs = self.via_i32();
        let rhs = other.via_i32();
        C::from(lhs + rhs)
    }

    /// `Sub` through `i32`; the difference must fit in an `i32`.
    pub fn sub(self, other: C) -> (r: C)
        requires
            i32::MIN <= self.inner() - other.inner() <= i32::MAX,
        ensures
            r.inner() == self.inner() - other.inner(),
    {
        let lhs = self.via_i32();
        let rhs = other.via_i32();
        C::from(lhs - rhs)
    }

    /// `Mul` through `i32`; the product must fit in an `i32`.
    pub fn mul(self, other: C) -> (r: C)
        requires
            i32::MIN <= self.inner() * other.inner() <= i32::MAX,
        ensures
            r.inner() == self.inner() * other.inner(),
    {
        let lhs = self.via_i32();
        let rhs = other.via_i32();
        C::from(lhs * rhs)
    }

    /// `Div` through `i32`, rounding towards zero; the divisor is not zero
    /// and the quotient fits in an `i32`.
    pub fn div(self, other: C) -> (r: C)
        requires
            other.inner() != 0,
            !(self.inner() == i32::MIN && other.inner() == -1),
        ensures
            r.inner() == truncated_div(self.inner(), other.inner()),
    {
        let lhs = self.via_i32();
        let rhs = other.via_i32();
        let q = lhs.checked_div(rhs);
        assert(truncated_div(lhs as int, rhs as int) <= i32::MAX) by (nonlinear_arith)
            requires
                rhs != 0,
                !(lhs == i32::MIN && rhs == -1),
        {
        }
        C::from(q.unwrap())
    }

    /// `Display` through `i32`.
    pub fn to_string(&self) -> (r: String)
        ensures
            r@ == signed_decimal(self.inner()),
    {
        decimal_i32(self.via_i32())
    }
}

/// Integer division rounding towards zero, as Rust divides.
pub open spec fn truncated_div(x: int, d: int) -> int {
    if x == 0 {
        0
    } else if x > 0 && d > 0 {
        x / d
    } else if x < 0 && d < 0 {
        (x * -1) / (d * -1)
    } else if x < 0 {
        ((x * -1) / d) * -1
    } else {
        (x / (d * -1)) * -1
    }
}

impl<T: Display> D<T> {
    /// `Deref` to the wrapped value.
    pub fn deref(&self) -> (r: &T)
        ensures
            *r == self.0,
    {
        &self.0
    }

    /// `Display` through `T`: the wrapped value's own text.
    pub fn to_string(&self) -> (r: String)
        ensures
            to_string_from_display_ensures::<T>(&self.0, r),
    {
        self.0.to_string()
    }
}

impl<T> Test<T> {
    /// `Deref` to the underlying `i32`.
    pub fn deref(&self) -> (r: &i32)
        ensures
            *r == self.0,
    {
        &self.0
    }

    /// `Display` through `i32`.
    pub fn to_string(&self) -> (r: String)
        ensures
            r@ == signed_decimal(self.0 as int),
    {
        decimal_i32(*self.deref())
    }
}

} // verus!
