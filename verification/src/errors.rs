//! What can go wrong while expanding the derive, and what is reported.

use vstd::prelude::*;
use vstd::string::*;
use crate::fields::FieldsError;

verus! {

/// The keyword that introduces an attribute of this derive.
#[derive(Clone, Copy, PartialEq, Eq, Structural, Debug)]
pub enum Keyword {
    Deriving,
    Transitive,
}

/// A failure that stops the whole expansion: nothing but its message is
/// emitted.
#[derive(Clone, Copy, PartialEq, Eq, Structural, Debug)]
pub enum Abort {
    /// `self` was given where `via: <Type>` was expected.
    SelfReceiver,
    /// `FromIterator` was requested without `via`.
    FromIteratorWithoutVia,
    /// `IntoIterator` was requested with `via`.
    IntoIteratorWithVia,
}

/// A failure that is reported in place of the code of one attribute or one
/// derive; the rest of the expansion goes on.
#[derive(Debug)]
pub enum ExpandError {
    /// The attribute does not start with its keyword.
    ExpectedKeyword(Keyword),
    /// The keyword is not followed by a parenthesised list.
    ExpectedParentheses,
    /// Tokens follow the parenthesised list.
    UnexpectedToken,
    /// A derive is not named by a path.
    ExpectedPath,
    /// A type is expected and something else is found.
    ExpectedType,
    /// The argument of a derive names something other than `via`; holds what it names.
    ExpectedVia(String),
    /// The argument of a derive is neither `via = <Type>` nor `via: <Type>`.
    InvalidArgument,
    /// What follows `via =` is not a type.
    ExpectedViaType,
    /// No derive of this name is available.
    UnsupportedDerive,
    /// `#[transitive(..)]` lists fewer than three types.
    TransitiveTooShort,
    /// `#[transitive(..)]` does not end with the input type.
    TransitiveWrongEnd,
    /// The underlying field cannot be found.
    Fields(FieldsError),
}

/// The view of an [`ExpandError`].
pub enum ErrorV {
    ExpectedKeyword(Keyword),
    ExpectedParentheses,
    UnexpectedToken,
    ExpectedPath,
    ExpectedType,
    ExpectedVia(Seq<char>),
    InvalidArgument,
    ExpectedViaType,
    UnsupportedDerive,
    TransitiveTooShort,
    TransitiveWrongEnd,
    Fields(FieldsError),
}

impl ExpandError {
    pub open spec fn view(&self) -> ErrorV {
        match self {
            ExpandError::ExpectedKeyword(k) => ErrorV::ExpectedKeyword(*k),
            ExpandError::ExpectedParentheses => ErrorV::ExpectedParentheses,
            ExpandError::UnexpectedToken => ErrorV::UnexpectedToken,
            ExpandError::ExpectedPath => ErrorV::ExpectedPath,
            ExpandError::ExpectedType => ErrorV::ExpectedType,
            ExpandError::ExpectedVia(s) => ErrorV::ExpectedVia(s@),
            ExpandError::InvalidArgument => ErrorV::InvalidArgument,
            ExpandError::ExpectedViaType => ErrorV::ExpectedViaType,
            ExpandError::UnsupportedDerive => ErrorV::UnsupportedDerive,
            ExpandError::TransitiveTooShort => ErrorV::TransitiveTooShort,
            ExpandError::TransitiveWrongEnd => ErrorV::TransitiveWrongEnd,
            ExpandError::Fields(f) => ErrorV::Fields(*f),
        }
    }
}

/// Either kind of failure.
#[derive(Debug)]
pub enum Failure {
    Error(ExpandError),
    Abort(Abort),
}

/// The view of a [`Failure`].
pub enum FailureV {
    Error(ErrorV),
    Abort(Abort),
}

impl Failure {
    pub open spec fn view(&self) -> FailureV {
        match self {
            Failure::Error(e) => FailureV::Error(e@),
            Failure::Abort(a) => FailureV::Abort(*a),
        }
    }
}

/// The message reported for an error.
///
/// Where the attribute syntax itself is malformed (no keyword, no
/// parentheses, trailing tokens, a derive that is not a path, an item of a
/// `#[transitive(..)]` list that is not a type), the message is a fixed text
/// of this library naming the kind of mistake; it is not the message that
/// `syn`'s parser writes for the same input, which varies with the tokens
/// met. The other messages are the derive's own.
pub open spec fn error_message(e: ErrorV) -> Seq<char> {
    match e {
        ErrorV::ExpectedKeyword(Keyword::Deriving) => "expected `deriving`"@,
        ErrorV::ExpectedKeyword(Keyword::Transitive) => "expected `transitive`"@,
        ErrorV::ExpectedParentheses => "expected parentheses"@,
        ErrorV::UnexpectedToken => "unexpected token"@,
        ErrorV::ExpectedPath => "expected path"@,
        ErrorV::ExpectedType => "expected type"@,
        ErrorV::ExpectedVia(got) => "expected: `via`, got: `"@ + got + "`"@,
        ErrorV::InvalidArgument => "expected: (via = <Type>)"@,
        ErrorV::ExpectedViaType => "expected: <Type>"@,
        ErrorV::UnsupportedDerive => "Sorry, unsupported Derive"@,
        ErrorV::TransitiveTooShort => "transitive must have three or more types"@,
        ErrorV::TransitiveWrongEnd => "transitive must end with the same type as the derive input"@,
        ErrorV::Fields(FieldsError::NotAStruct) =>
            "input is not a struct: #[derive(DerivingVia)] can only be used with structs"@,
        ErrorV::Fields(FieldsError::UnderlyingRequired) =>
            "#[underlying] is required for multiple fields: Specify #[underlying] to the field."@,
        ErrorV::Fields(FieldsError::MultipleUnderlying) =>
            "multiple #[underlying] specifier is not allowed: Specify #[underlying] to only one field."@,
    }
}

/// The message and the help line reported when the expansion stops.
pub open spec fn abort_message(a: Abort) -> (Seq<char>, Seq<char>) {
    match a {
        Abort::SelfReceiver => ("Unexpected token"@, "expected: `via`, got: `self`"@),
        Abort::FromIteratorWithoutVia => (
            "#[deriving(FromIterator)] is not allowed"@,
            "Specify via as #[deriving(FromIterator(via: <ItemType>)])"@,
        ),
        Abort::IntoIteratorWithVia => (
            "#[deriving(IntoIterator(via))] is not allowed"@,
            "Please try #[deriving(Iter(via: <ItemType>)])"@,
        ),
    }
}

impl ExpandError {
    /// The message reported for this error.
    pub fn message(&self) -> (r: String)
        ensures
            r@ == error_message(self@),
    {
        match self {
            ExpandError::ExpectedKeyword(Keyword::Deriving) => String::from_str("expected `deriving`"),
            ExpandError::ExpectedKeyword(Keyword::Transitive) => String::from_str("expected `transitive`"),
            ExpandError::ExpectedParentheses => String::from_str("expected parentheses"),
            ExpandError::UnexpectedToken => String::from_str("unexpected token"),
            ExpandError::ExpectedPath => String::from_str("expected path"),
            ExpandError::ExpectedType => String::from_str("expected type"),
            ExpandError::ExpectedVia(got) => {
                let mut r = String::from_str("expected: `via`, got: `");
                r.append(got.as_str());
                r.append("`");
                r
            },
            ExpandError::InvalidArgument => String::from_str("expected: (via = <Type>)"),
            ExpandError::ExpectedViaType => String::from_str("expected: <Type>"),
            ExpandError::UnsupportedDerive => String::from_str("Sorry, unsupported Derive"),
            ExpandError::TransitiveTooShort => String::from_str("transitive must have three or more types"),
            ExpandError::TransitiveWrongEnd =>
                String::from_str("transitive must end with the same type as the derive input"),
            ExpandError::Fields(FieldsError::NotAStruct) => String::from_str(
                "input is not a struct: #[derive(DerivingVia)] can only be used with structs",
            ),
            ExpandError::Fields(FieldsError::UnderlyingRequired) => String::from_str(
                "#[underlying] is required for multiple fields: Specify #[underlying] to the field.",
            ),
            ExpandError::Fields(FieldsError::MultipleUnderlying) => String::from_str(
                "multiple #[underlying] specifier is not allowed: Specify #[underlying] to only one field.",
            ),
        }
    }
}

impl Abort {
    /// The message and the help line reported when the expansion stops.
    pub fn message(&self) -> (r: (String, String))
        ensures
            r.0@ == abort_message(*self).0,
            r.1@ == abort_message(*self).1,
    {
        match self {
            Abort::SelfReceiver => (
                String::from_str("Unexpected token"),
                String::from_str("expected: `via`, got: `self`"),
            ),
            Abort::FromIteratorWithoutVia => (
                String::from_str("#[deriving(FromIterator)] is not allowed"),
                String::from_str("Specify via as #[deriving(FromIterator(via: <ItemType>)])"),
            ),
            Abort::IntoIteratorWithVia => (
                String::from_str("#[deriving(IntoIterator(via))] is not allowed"),
                String::from_str("Please try #[deriving(Iter(via: <ItemType>)])"),
            ),
        }
    }
}

} // verus!
