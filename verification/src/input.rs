//! A plain model of the item that the derive is applied to.

use vstd::prelude::*;
use crate::tokens::TokenTree;

verus! {

/// A field of the input struct.
#[derive(Debug)]
pub struct FieldParts {
    /// The field's name; `None` for a field of a tuple struct.
    pub ident: Option<String>,
    /// The field's type, as printed.
    pub ty: String,
    /// The paths of the attributes on the field, as printed.
    pub attrs: Vec<String>,
}

/// The body of the input item.
#[derive(Debug)]
pub enum Data {
    Struct(Vec<FieldParts>),
    Enum,
    Union,
}

/// The generics of the input item, in the forms that the generated impls use.
#[derive(Debug)]
pub struct GenericParts {
    /// The generic parameters as declared, without angle brackets.
    pub params: String,
    /// The identifiers of the type parameters, in order.
    pub type_params: Vec<String>,
    /// The parameters to introduce after `impl` (with bounds), angle brackets
    /// included; empty when there are none.
    pub impl_generics: String,
    /// The arguments that follow the type's name, angle brackets included;
    /// empty when there are none.
    pub ty_generics: String,
    /// The predicates of the `where` clause, when the item has one.
    pub where_clause: Option<String>,
}

/// An attribute of the input item: the tokens of its meta item.
#[derive(Debug)]
pub struct Attribute {
    pub meta: Vec<TokenTree>,
}

/// The item that `#[derive(DerivingVia)]` is applied to.
#[derive(Debug)]
pub struct DeriveInput {
    pub ident: String,
    pub generics: GenericParts,
    pub data: Data,
    pub attrs: Vec<Attribute>,
}

} // verus!
