//! `#[derive(Invoke)]` on an enum of derives: an `invoke` method that sends
//! each variant to the `extract` function of the module named after it.

use vstd::prelude::*;
use vstd::string::*;
use crate::syntax::{snake_case, to_snake_case, parses_as_item_enum, parse_item_enum};
use crate::tokens::{TokenTree, stream_text, render_stream};

verus! {

/// A variant of the enum: as printed, and its identifier.
#[derive(Debug)]
pub struct Variant {
    pub printed: String,
    pub ident: String,
}

/// A match arm of `invoke`: the variant as printed, and the module whose
/// `extract` it is sent to.
#[derive(Debug)]
pub struct Arm {
    pub variant: String,
    pub module: String,
}

/// The view of an [`Arm`]: variant and module.
pub open spec fn arm_view(a: Arm) -> (Seq<char>, Seq<char>) {
    (a.variant@, a.module@)
}

/// The arms of `invoke`, separated by commas.
pub open spec fn match_arms(arms: Seq<(Seq<char>, Seq<char>)>) -> Seq<char>
    decreases arms.len(),
{
    if arms.len() == 0 {
        Seq::empty()
    } else {
        let sep = if arms.len() > 1 { ", "@ } else { ""@ };
        match_arms(arms.drop_last()) + sep + arms.last().0 + " => "@ + arms.last().1 + " :: extract"@
    }
}

/// The `impl` block with the `invoke` method for the enum `name`.
pub open spec fn invoke_impl(name: Seq<char>, arms: Seq<(Seq<char>, Seq<char>)>) -> Seq<char> {
    "impl "@ + name
        + " { fn invoke(self, input: &syn::DeriveInput, via: Option<syn::Type>) -> TokenStream { use "@
        + name + " :: *; (match self { "@ + match_arms(arms) + " })(input, via) } }"@
}

/// The arms for the variants: each sent to the module named by the
/// snake-case form of its identifier.
pub open spec fn arms_of(variants: Seq<Variant>) -> Seq<(Seq<char>, Seq<char>)> {
    variants.map_values(|v: Variant| (v.printed@, snake_case(v.ident@)))
}

/// Writes the `invoke` method for the enum `name` with the given arms.
pub fn invoke_with_arms(name: &String, arms: &Vec<Arm>) -> (r: String)
    ensures
        r@ == invoke_impl(name@, arms@.map_values(|a: Arm| arm_view(a))),
{
    let ghost views = arms@.map_values(|a: Arm| arm_view(a));
    let mut body = String::from_str("");
    proof {
        reveal_strlit("");
    }
    let mut i: usize = 0;
    assert(views.take(0) =~= Seq::<(Seq<char>, Seq<char>)>::empty());
    while i < arms.len()
        invariant
            i <= arms@.len(),
            views == arms@.map_values(|a: Arm| arm_view(a)),
            body@ == match_arms(views.take(i as int)),
        decreases arms.len() - i,
    {
        if i > 0 {
            body.append(", ");
        } else {
            body.append("");
        }
        body.append(arms[i].variant.as_str());
        body.append(" => ");
        body.append(arms[i].module.as_str());
        body.append(" :: extract");
        proof {
            let next = views.take(i + 1);
            assert(next.drop_last() =~= views.take(i as int));
            assert(next.last() == arm_view(arms@[i as int]));
            reveal_strlit(", ");
            reveal_strlit("");
            assert(body@ =~= match_arms(next));
        }
        i = i + 1;
    }
    assert(views.take(views.len() as int) =~= views);
    let mut r = String::from_str("impl ");
    r.append(name.as_str());
    r.append(" { fn invoke(self, input: &syn::DeriveInput, via: Option<syn::Type>) -> TokenStream { use ");
    r.append(name.as_str());
    r.append(" :: *; (match self { ");
    r.append(body.as_str());
    r.append(" })(input, via) } }");
    r
}

/// Writes the `invoke` method that `#[derive(Invoke)]` gives the enum
/// `name` with the given variants.
pub fn invoke_method(name: &String, variants: &Vec<Variant>) -> (r: String)
    ensures
        r@ == invoke_impl(name@, arms_of(variants@)),
{
    let mut arms: Vec<Arm> = Vec::new();
    let mut i: usize = 0;
    while i < variants.len()
        invariant
            i <= variants@.len(),
            arms@.map_values(|a: Arm| arm_view(a)) =~= arms_of(variants@).take(i as int),
        decreases variants.len() - i,
    {
        let module = to_snake_case(variants[i].ident.as_str());
        let ghost before = arms@.map_values(|a: Arm| arm_view(a));
        let arm = Arm { variant: variants[i].printed.clone(), module };
        arms.push(arm);
        assert(arms@.map_values(|a: Arm| arm_view(a)) =~= before.push(arms_of(variants@)[i as int]));
        assert(arms_of(variants@).take(i + 1) =~= arms_of(variants@).take(i as int).push(arms_of(variants@)[i as int]));
        i = i + 1;
    }
    assert(arms_of(variants@).take(variants@.len() as int) =~= arms_of(variants@));
    invoke_with_arms(name, &arms)
}

/// `#[derive(Invoke)]` on the tokens of an item: when `syn` reads them as
/// an enum, its name, its variants and the `invoke` method written for them;
/// otherwise `syn`'s message.
pub fn into_extract(tokens: &Vec<TokenTree>) -> (r: Result<(String, Vec<Variant>, String), String>)
    ensures
        r is Ok <==> parses_as_item_enum(stream_text(tokens@)),
        r matches Ok((name, variants, code)) ==> code@ == invoke_impl(name@, arms_of(variants@)),
{
    let text = render_stream(tokens);
    match parse_item_enum(text.as_str()) {
        Ok((name, variants)) => {
            let code = invoke_method(&name, &variants);
            Ok((name, variants, code))
        },
        Err(message) => Err(message),
    }
}

} // verus!
