//! Identifiers that validate their text: `Id` is built from any string, and
//! `UserId` and `ItemId` only from strings with their prefix.

use vstd::prelude::*;
use vstd::string::*;
use crate::text::starts_with;

verus! {

/// `#[deriving(FromStr)]` around a `String`.
#[derive(Debug)]
pub struct Id(pub String);

/// `#[deriving(Display(via: String))]` around an [`Id`] that starts with `user-`.
#[derive(Debug)]
pub struct UserId(pub Id);

/// `#[deriving(Display(via: String))]` around an [`Id`] that starts with `item-`.
#[derive(Debug)]
pub struct ItemId(pub Id);

/// The text was refused.
#[derive(Debug, Clone, Copy, PartialEq, Eq, Structural)]
pub struct ValidationError;

impl ValidationError {
    /// The message of the error.
    pub fn message(&self) -> (r: String)
        ensures
            r@ == "validation error"@,
    {
        String::from_str("validation error")
    }
}

impl Id {
    /// `FromStr` for a `String` newtype, which takes any text.
    pub fn from_str(s: &str) -> (r: Id)
        ensures
            r.0@ == s@,
    {
        Id(String::from_str(s))
    }

    /// `Deref` to the `String`.
    pub fn deref(&self) -> (r: &String)
        ensures
            r@ == self.0@,
    {
        &self.0
    }
}

impl UserId {
    /// Accepts exactly the texts that start with `user-`.
    pub fn from_str(s: &str) -> (r: Result<UserId, ValidationError>)
        ensures
            r is Ok <==> "user-"@.is_prefix_of(s@),
            r matches Ok(id) ==> id.0.0@ == s@,
    {
        if starts_with(s, "user-") {
            Ok(UserId(Id::from_str(s)))
        } else {
            Err(ValidationError)
        }
    }

    /// `Display` through the `String`.
    pub fn to_string(&self) -> (r: String)
        ensures
            r@ == self.0.0@,
    {
        self.0.deref().clone()
    }
}

impl ItemId {
    /// Accepts exactly the texts that start with `item-`.
    pub fn from_str(s: &str) -> (r: Result<ItemId, ValidationError>)
        ensures
            r is Ok <==> "item-"@.is_prefix_of(s@),
            r matches Ok(id) ==> id.0.0@ == s@,
    {
        if starts_with(s, "item-") {
            Ok(ItemId(Id::from_str(s)))
        } else {
            Err(ValidationError)
        }
    }

    /// `Display` through the `String`.
    pub fn to_string(&self) -> (r: String)
        ensures
            r@ == self.0.0@,
    {
        self.0.deref().clone()
    }
}

} // verus!
