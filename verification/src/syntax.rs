//! The Rust grammar that this library relies on but does not define itself:
//! items, paths, types and function arguments are recognised by `syn`, and
//! derive names are turned into module names by `convert_case`.

use vstd::prelude::*;
use convert_case::Casing;
use quote::ToTokens;
use crate::invoke::Variant;

verus! {

/// Whether `text` is exactly one Rust path, as `syn` reads paths.
pub uninterp spec fn parses_as_path(text: Seq<char>) -> bool;

/// Whether `text` is exactly one Rust type, as `syn` reads types.
pub uninterp spec fn parses_as_type(text: Seq<char>) -> bool;

/// The shape `syn` reads in `text` taken as one function argument.
pub uninterp spec fn fn_arg_shape(text: Seq<char>) -> FnArgShape;

/// Whether `text` is exactly one struct, enum or union with its attributes,
/// as `syn` reads the input of a derive.
pub uninterp spec fn parses_as_derive_input(text: Seq<char>) -> bool;

/// Whether `text` is exactly one enum item, as `syn` reads enums.
pub uninterp spec fn parses_as_item_enum(text: Seq<char>) -> bool;

/// The snake-case form of a name, as `convert_case` writes it.
pub uninterp spec fn snake_case(name: Seq<char>) -> Seq<char>;

/// The shape of a function argument as `syn` reads it.
#[derive(Clone, Copy, PartialEq, Eq, Structural, Debug)]
pub enum FnArgShape {
    /// A `self` receiver, in any of its forms.
    Receiver,
    /// A typed pattern `pat: ty`.
    Typed,
    /// Not a function argument.
    Invalid,
}

#[verifier::external_type_specification]
#[verifier::external_body]
pub struct ExSynGenerics(syn::Generics);

#[verifier::external_type_specification]
#[verifier::external_body]
pub struct ExSynField(syn::Field);

/// The body of a derive input as `syn` reads it, its fields still in
/// `syn`'s form.
pub enum SynData {
    Struct(Vec<syn::Field>),
    Enum,
    Union,
}

/// A derive input as `syn` reads it: its name, and its generics and body
/// still in `syn`'s form.
pub struct SynItem {
    pub ident: String,
    pub generics: syn::Generics,
    pub data: SynData,
}

/// Calls `syn::parse_str::<syn::DeriveInput>`; claims only whether the text
/// is accepted, which is a function of the text. Of the refusal message
/// nothing is claimed.
#[verifier::external_body]
pub(crate) fn parse_derive_input(text: &str) -> (r: Result<SynItem, String>)
    ensures
        r is Ok <==> parses_as_derive_input(text@),
{
    let d = syn::parse_str::<syn::DeriveInput>(text).map_err(|e| e.to_string())?;
    let data = match d.data {
        syn::Data::Struct(s) => SynData::Struct(s.fields.into_iter().collect()),
        syn::Data::Enum(_) => SynData::Enum,
        syn::Data::Union(_) => SynData::Union,
    };
    Ok(SynItem { ident: d.ident.to_string(), generics: d.generics, data })
}

/// Prints generics read by `syn` with `quote::ToTokens`, after
/// `syn::Generics::split_for_impl`. Printed text depends on the printer the
/// process uses (the compiler's inside a macro), so nothing is claimed of it.
#[verifier::external_body]
pub(crate) fn print_generics(g: &syn::Generics) -> (r: crate::input::GenericParts) {
    let (ig, tg, _) = g.split_for_impl();
    crate::input::GenericParts {
        params: g.params.to_token_stream().to_string(),
        type_params: g.type_params().map(|t| t.ident.to_string()).collect(),
        impl_generics: ig.to_token_stream().to_string(),
        ty_generics: tg.to_token_stream().to_string(),
        where_clause: g.where_clause.as_ref().map(|w| w.predicates.to_token_stream().to_string()),
    }
}

/// Prints a field read by `syn`: its name, and its type and the paths of its
/// attributes with `quote::ToTokens`. Printed text depends on the printer the
/// process uses, so nothing is claimed of it.
#[verifier::external_body]
pub(crate) fn print_field(f: &syn::Field) -> (r: crate::input::FieldParts) {
    crate::input::FieldParts {
        ident: f.ident.as_ref().map(|i| i.to_string()),
        ty: f.ty.to_token_stream().to_string(),
        attrs: f.attrs.iter().map(|a| a.path().to_token_stream().to_string()).collect(),
    }
}

/// Calls `syn::parse_str::<syn::ItemEnum>` and prints each variant with
/// `quote::ToTokens`; claims only whether the text is accepted. The printed
/// variants depend on the printer the process uses, and of the refusal
/// message nothing is claimed.
#[verifier::external_body]
pub(crate) fn parse_item_enum(text: &str) -> (r: Result<(String, Vec<Variant>), String>)
    ensures
        r is Ok <==> parses_as_item_enum(text@),
{
    let e = match syn::parse_str::<syn::ItemEnum>(text) {
        Ok(e) => e,
        Err(err) => return Err(err.to_string()),
    };
    let variants = e.variants.iter().map(|v| Variant {
        printed: v.to_token_stream().to_string(),
        ident: v.ident.to_string(),
    }).collect();
    Ok((e.ident.to_string(), variants))
}

/// Calls `syn::parse_str::<syn::Path>`; claims only that the answer is a
/// function of the text (whether all of it is one path).
#[verifier::external_body]
pub(crate) fn is_path(text: &str) -> (r: bool)
    ensures
        r == parses_as_path(text@),
{
    syn::parse_str::<syn::Path>(text).is_ok()
}

/// Calls `syn::parse_str::<syn::Type>`; claims only that the answer is a
/// function of the text (whether all of it is one type).
#[verifier::external_body]
pub(crate) fn is_type(text: &str) -> (r: bool)
    ensures
        r == parses_as_type(text@),
{
    syn::parse_str::<syn::Type>(text).is_ok()
}

/// Calls `syn::parse_str::<syn::FnArg>` and tells its outcomes apart;
/// claims only that the shape found is a function of the text.
#[verifier::external_body]
pub(crate) fn classify_fn_arg(text: &str) -> (r: FnArgShape)
    ensures
        r == fn_arg_shape(text@),
{
    match syn::parse_str::<syn::FnArg>(text) {
        Ok(syn::FnArg::Receiver(_)) => FnArgShape::Receiver,
        Ok(syn::FnArg::Typed(_)) => FnArgShape::Typed,
        Err(_) => FnArgShape::Invalid,
    }
}

/// Calls `convert_case::Casing::to_case` with `Case::Snake`; claims only
/// that the result is a function of the name.
#[verifier::external_body]
pub(crate) fn to_snake_case(name: &str) -> (r: String)
    ensures
        r@ == snake_case(name@),
{
    name.to_case(convert_case::Case::Snake)
}

} // verus!
