//! Generalised newtype deriving: `Display` on a newtype of a newtype reaches
//! the innermost value through `Deref`.

use vstd::prelude::*;
use vstd::string::*;
use crate::text::{decimal_i32, signed_decimal};

verus! {

/// A newtype around an `i32`, with nothing but `Deref` and `DerefMut`.
#[derive(Debug, Clone, Copy, PartialEq, Eq, Structural)]
pub struct A(pub i32);

/// `#[deriving(Display)]` around an [`A`].
#[derive(Debug, Clone, Copy, PartialEq, Eq, Structural)]
pub struct B(pub A);

impl A {
    /// `Deref` to the `i32`.
    pub fn deref(&self) -> (r: &i32)
        ensures
            *r == self.0,
    {
        &self.0
    }

    /// `DerefMut` to the `i32`.
    pub fn deref_mut(&mut self) -> (r: &mut i32)
        ensures
            *r == old(self).0,
            *final(self) == A(*final(r)),
    {
        &mut self.0
    }
}

impl B {
    /// `Deref` to the [`A`].
    pub fn deref(&self) -> (r: &A)
        ensures
            *r == self.0,
    {
        &self.0
    }

    /// `DerefMut` to the [`A`].
    pub fn deref_mut(&mut self) -> (r: &mut A)
        ensures
            *r == old(self).0,
            *final(self) == B(*final(r)),
    {
        &mut self.0
    }

    /// `Display`: the field is displayed, and `A` displays as the `i32` it
    /// dereferences to.
    pub fn to_string(&self) -> (r: String)
        ensures
            r@ == signed_decimal(self.0.0 as int),
    {
        decimal_i32(*self.deref().deref())
    }
}

} // verus!
