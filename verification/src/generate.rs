//! Choosing and filling the template of each requested derive.

use vstd::prelude::*;
use vstd::string::*;
use crate::input::{DeriveInput, GenericParts};
use crate::fields::{Extracted, FieldsError, extract_fields, extraction};
use crate::derives::DeriveKind;
use crate::errors::Abort;
use crate::text::str_is;
use crate::codegen::{
    Ctx, Env, add_assign_plain, add_assign_plain_code, add_assign_via, add_assign_via_code,
    add_plain, add_plain_code, add_via, add_via_code, as_mut_plain, as_mut_plain_code,
    as_mut_via, as_mut_via_code, as_ref_plain, as_ref_plain_code, as_ref_via,
    as_ref_via_code, debug_with_format, debug_with_format_code, default_plain,
    default_plain_code, default_via, default_via_code, deserialize_plain,
    deserialize_plain_code, deserialize_via, deserialize_via_code, display_plain,
    display_plain_code, display_via, display_via_code, eq_marker, eq_marker_code,
    from_iterator_via, from_iterator_via_code, from_plain, from_plain_code, from_str_parse,
    from_str_parse_code, from_str_string, from_str_string_code, from_via, from_via_code,
    hash_plain, hash_plain_code, hash_via, hash_via_code, index_mut_plain,
    index_mut_plain_code, index_mut_via, index_mut_via_code, index_plain, index_plain_code,
    index_via, index_via_code, into_inner_method, into_inner_method_code,
    into_iterator_plain, into_iterator_plain_code, into_plain, into_plain_code, into_via,
    into_via_code, iter_method, iter_method_code, mul_assign_plain, mul_assign_plain_code,
    mul_assign_via, mul_assign_via_code, mul_plain, mul_plain_code, mul_via, mul_via_code,
    ord_plain, ord_plain_code, ord_via, ord_via_code, partial_eq_plain,
    partial_eq_plain_code, partial_eq_via, partial_eq_via_code, partial_ord_plain,
    partial_ord_plain_code, partial_ord_via, partial_ord_via_code, serialize_plain,
    serialize_plain_code, serialize_via, serialize_via_code, try_from_plain,
    try_from_plain_code, try_from_via, try_from_via_code,
};

verus! {

/// The struct's `where` clause as it is printed: nothing when it has no
/// predicates.
pub open spec fn where_text(g: GenericParts) -> Seq<char> {
    match g.where_clause {
        Some(p) => if p@.len() > 0 { "where "@ + p@ } else { ""@ },
        None => ""@,
    }
}

/// The predicates of the struct's `where` clause, or nothing.
pub open spec fn predicates_text(g: GenericParts) -> Seq<char> {
    match g.where_clause {
        Some(p) => p@,
        None => ""@,
    }
}

/// The template parts for an input and its underlying field.
pub open spec fn context(input: DeriveInput, f: (Seq<char>, Seq<char>, Seq<char>)) -> Ctx {
    Ctx {
        name: input.ident@,
        ig: input.generics.impl_generics@,
        tg: input.generics.ty_generics@,
        params: input.generics.params@,
        wc: where_text(input.generics),
        preds: predicates_text(input.generics),
        acc: f.0,
        ty: f.1,
        ctor: f.2,
    }
}

/// The names of the struct's type parameters.
pub open spec fn type_param_names(input: DeriveInput) -> Seq<Seq<char>> {
    input.generics.type_params@.map_values(|s: String| s@)
}

/// The struct's predicates as the start of a longer list: followed by a
/// comma unless they end with one; nothing when there are none.
pub open spec fn leading_predicates(preds: Seq<char>) -> Seq<char> {
    if preds.len() == 0 {
        ""@
    } else if preds.last() == ',' {
        " "@ + preds
    } else {
        " "@ + preds + ","@
    }
}

/// The `where` clause of an arithmetic impl through `via`: the struct's own
/// predicates, the given bound, and `via: Clone` when `via` is one of the
/// struct's type parameters.
pub open spec fn bounded_where(c: Ctx, bound: Seq<char>, via: Seq<char>, generic: bool) -> Seq<char> {
    "where"@ + leading_predicates(c.preds) + " "@ + bound + ","@
        + (if generic { " "@ + via + ": Clone,"@ } else { ""@ })
}

/// The bound that the result of operator `op` converts back into the struct.
pub open spec fn output_bound(via: Seq<char>, op: Seq<char>) -> Seq<char> {
    "Self: ::core::convert::From<<"@ + via + " as ::core::ops::"@ + op + ">::Output>"@
}

/// The bound that `via` implements the compound assignment `op`.
pub open spec fn assign_bound(via: Seq<char>, op: Seq<char>) -> Seq<char> {
    via + ": ::core::ops::"@ + op
}

/// The code of `Add` (with `Sub`).
pub open spec fn add_code(c: Ctx, tps: Seq<Seq<char>>, via: Option<Seq<char>>) -> Seq<char> {
    match via {
        None => add_plain(c),
        Some(v) => add_via(c, v,
            bounded_where(c, output_bound(v, "Add"@), v, tps.contains(v)),
            bounded_where(c, output_bound(v, "Sub"@), v, tps.contains(v))),
    }
}

/// The code of `Mul` (with `Div`).
pub open spec fn mul_code(c: Ctx, tps: Seq<Seq<char>>, via: Option<Seq<char>>) -> Seq<char> {
    match via {
        None => mul_plain(c),
        Some(v) => mul_via(c, v,
            bounded_where(c, output_bound(v, "Mul"@), v, tps.contains(v)),
            bounded_where(c, output_bound(v, "Div"@), v, tps.contains(v))),
    }
}

/// The code of `PartialEq`.
pub open spec fn partial_eq_code(c: Ctx, via: Option<Seq<char>>) -> Seq<char> {
    match via { None => partial_eq_plain(c), Some(v) => partial_eq_via(c, v) }
}

/// The code of `PartialOrd`.
pub open spec fn partial_ord_code(c: Ctx, via: Option<Seq<char>>) -> Seq<char> {
    match via { None => partial_ord_plain(c), Some(v) => partial_ord_via(c, v) }
}

/// `via` if given, else the underlying field's type.
pub open spec fn via_or_field(c: Ctx, via: Option<Seq<char>>) -> Seq<char> {
    match via { Some(v) => v, None => c.ty }
}

/// The code that a derive generates for the parts `c`, or why the whole
/// expansion stops.
pub open spec fn kind_code(
    k: DeriveKind,
    c: Ctx,
    tps: Seq<Seq<char>>,
    via: Option<Seq<char>>,
) -> Result<Seq<char>, Abort> {
    match k {
        DeriveKind::Display => Ok(match via { None => display_plain(c), Some(v) => display_via(c, v) }),
        DeriveKind::Into => Ok(match via { None => into_plain(c), Some(v) => into_via(c, v) }),
        DeriveKind::From => Ok(match via { None => from_plain(c), Some(v) => from_via(c, v) }),
        DeriveKind::PartialEq => Ok(partial_eq_code(c, via)),
        DeriveKind::Eq => Ok(eq_marker(c) + partial_eq_code(c, via)),
        DeriveKind::PartialOrd => Ok(partial_ord_code(c, via)),
        DeriveKind::Ord => Ok(
            (match via { None => ord_plain(c), Some(v) => ord_via(c, v) }) + partial_ord_code(c, via),
        ),
        DeriveKind::TryFrom => Ok(match via { None => try_from_plain(c), Some(v) => try_from_via(c, v) }),
        DeriveKind::FromStr => Ok(
            if via_or_field(c, via) == "String"@ {
                from_str_string(c)
            } else {
                from_str_parse(c, via_or_field(c, via))
            },
        ),
        DeriveKind::Hash => Ok(match via { None => hash_plain(c), Some(v) => hash_via(c, v) }),
        DeriveKind::Serialize => Ok(match via { None => serialize_plain(c), Some(v) => serialize_via(c, v) }),
        DeriveKind::Deserialize => Ok(
            match via { None => deserialize_plain(c), Some(v) => deserialize_via(c, v) },
        ),
        DeriveKind::Add => Ok(add_code(c, tps, via)),
        DeriveKind::Mul => Ok(mul_code(c, tps, via)),
        DeriveKind::Arithmetic => Ok(add_code(c, tps, via) + mul_code(c, tps, via)),
        DeriveKind::AsRef => Ok(match via { None => as_ref_plain(c), Some(v) => as_ref_via(c, v) }),
        DeriveKind::FromIterator => match via {
            None => Err(Abort::FromIteratorWithoutVia),
            Some(v) => Ok(from_iterator_via(c, v)),
        },
        DeriveKind::Index => Ok(match via { None => index_plain(c), Some(v) => index_via(c, v) }),
        DeriveKind::AsMut => Ok(match via { None => as_mut_plain(c), Some(v) => as_mut_via(c, v) }),
        DeriveKind::IndexMut => Ok(match via { None => index_mut_plain(c), Some(v) => index_mut_via(c, v) }),
        DeriveKind::IntoIterator => match via {
            None => Ok(into_iterator_plain(c)),
            Some(_) => Err(Abort::IntoIteratorWithVia),
        },
        DeriveKind::Iter => Ok(iter_method(c, via_or_field(c, via))),
        DeriveKind::AddAssign => Ok(match via {
            None => add_assign_plain(c),
            Some(v) => add_assign_via(c, v,
                bounded_where(c, assign_bound(v, "AddAssign"@), v, tps.contains(v)),
                bounded_where(c, assign_bound(v, "SubAssign"@), v, tps.contains(v))),
        }),
        DeriveKind::MulAssign => Ok(match via {
            None => mul_assign_plain(c),
            Some(v) => mul_assign_via(c, v,
                bounded_where(c, assign_bound(v, "MulAssign"@), v, tps.contains(v)),
                bounded_where(c, assign_bound(v, "DivAssign"@), v, tps.contains(v))),
        }),
        DeriveKind::Default => Ok(match via { None => default_plain(c), Some(v) => default_via(c, v) }),
        DeriveKind::IntoInner => Ok(into_inner_method(c, via_or_field(c, via))),
    }
}

/// Only two requests stop the whole expansion: `FromIterator` without `via`
/// and `IntoIterator` with `via`; every other derive yields code.
pub proof fn law_only_iterators_abort(
    k: DeriveKind,
    c: Ctx,
    tps: Seq<Seq<char>>,
    via: Option<Seq<char>>,
)
    ensures
        kind_code(k, c, tps, via) is Err
            <==> (k == DeriveKind::FromIterator && via is None) || (k == DeriveKind::IntoIterator && via is Some),
        k == DeriveKind::FromIterator && via is None
            ==> kind_code(k, c, tps, via) == Err::<Seq<char>, Abort>(Abort::FromIteratorWithoutVia),
        k == DeriveKind::IntoIterator && via is Some
            ==> kind_code(k, c, tps, via) == Err::<Seq<char>, Abort>(Abort::IntoIteratorWithVia),
{
}

/// `Eq` brings `PartialEq` along, `Ord` brings `PartialOrd`, and
/// `Arithmetic` is `Add` followed by `Mul`, each through the same `via`.
pub proof fn law_composite_derives(c: Ctx, tps: Seq<Seq<char>>, via: Option<Seq<char>>)
    ensures
        kind_code(DeriveKind::Eq, c, tps, via) == Ok::<Seq<char>, Abort>(
            eq_marker(c) + kind_code(DeriveKind::PartialEq, c, tps, via)->Ok_0,
        ),
        kind_code(DeriveKind::Ord, c, tps, via) == Ok::<Seq<char>, Abort>(
            (match via { None => ord_plain(c), Some(v) => ord_via(c, v) })
                + kind_code(DeriveKind::PartialOrd, c, tps, via)->Ok_0,
        ),
        kind_code(DeriveKind::Arithmetic, c, tps, via) == Ok::<Seq<char>, Abort>(
            kind_code(DeriveKind::Add, c, tps, via)->Ok_0
                + kind_code(DeriveKind::Mul, c, tps, via)->Ok_0,
        ),
{
}

/// The view of an optional string.
pub open spec fn opt_view(o: Option<String>) -> Option<Seq<char>> {
    match o {
        Some(s) => Some(s@),
        None => None,
    }
}

/// Collects the template parts of an input and its underlying field.
pub fn env_of(input: &DeriveInput, f: &Extracted) -> (e: Env)
    ensures
        e@ == context(*input, (f.accessor@, f.ty@, f.constructor@)),
{
    let g = &input.generics;
    let (wc, preds) = match &g.where_clause {
        Some(p) => {
            let wc = if p.as_str().unicode_len() > 0 {
                let mut w = String::from_str("where ");
                w.append(p.as_str());
                w
            } else {
                String::from_str("")
            };
            (wc, p.clone())
        },
        None => (String::from_str(""), String::from_str("")),
    };
    Env {
        name: input.ident.clone(),
        ig: g.impl_generics.clone(),
        tg: g.ty_generics.clone(),
        params: g.params.clone(),
        wc,
        preds,
        acc: f.accessor.clone(),
        ty: f.ty.clone(),
        ctor: f.constructor.clone(),
    }
}

/// `Debug` for the input that writes its underlying field with the format
/// string literal `fmt`, or why the field cannot be found.
pub fn custom_debug(input: &DeriveInput, fmt: &str) -> (r: Result<String, FieldsError>)
    ensures
        match extraction(*input) {
            Ok(f) => r matches Ok(s) && s@ == debug_with_format(context(*input, f), fmt@),
            Err(e) => r == Err::<String, FieldsError>(e),
        },
{
    match extract_fields(input) {
        Ok(f) => {
            let env = env_of(input, &f);
            Ok(debug_with_format_code(&env, fmt))
        },
        Err(e) => Err(e),
    }
}

/// Whether `v` names one of the struct's type parameters.
pub fn is_type_param(input: &DeriveInput, v: &String) -> (r: bool)
    ensures
        r == type_param_names(*input).contains(v@),
{
    let tps = &input.generics.type_params;
    let ghost names = type_param_names(*input);
    let mut i: usize = 0;
    while i < tps.len()
        invariant
            i <= tps@.len(),
            names == tps@.map_values(|s: String| s@),
            names == type_param_names(*input),
            forall|k: int| 0 <= k < i ==> names[k] != v@,
        decreases tps.len() - i,
    {
        if str_is(&tps[i], v.as_str()) {
            assert(names[i as int] == v@);
            assert(names.contains(v@));
            return true;
        }
        i = i + 1;
    }
    assert(!names.contains(v@)) by {
        if names.contains(v@) {
            let w = choose|w: int| 0 <= w < names.len() && names[w] == v@;
            assert(names[w] != v@);
        }
    }
    false
}

fn leading_predicates_code(preds: &String) -> (r: String)
    ensures
        r@ == leading_predicates(preds@),
{
    let n = preds.as_str().unicode_len();
    if n == 0 {
        return String::from_str("");
    }
    let mut r = String::from_str(" ");
    r.append(preds.as_str());
    if preds.as_str().get_char(n - 1) != ',' {
        r.append(",");
    }
    r
}

fn bounded_where_code(e: &Env, bound: &str, via: &str, generic: bool) -> (r: String)
    ensures
        r@ == bounded_where(e@, bound@, via@, generic),
{
    let mut r = String::from_str("where");
    let lead = leading_predicates_code(&e.preds);
    r.append(lead.as_str());
    r.append(" ");
    r.append(bound);
    r.append(",");
    if generic {
        let mut extra = String::from_str(" ");
        extra.append(via);
        extra.append(": Clone,");
        r.append(extra.as_str());
    } else {
        r.append("");
    }
    r
}

fn output_bound_code(via: &str, op: &str) -> (r: String)
    ensures
        r@ == output_bound(via@, op@),
{
    let mut r = String::from_str("Self: ::core::convert::From<<");
    r.append(via);
    r.append(" as ::core::ops::");
    r.append(op);
    r.append(">::Output>");
    r
}

fn assign_bound_code(via: &str, op: &str) -> (r: String)
    ensures
        r@ == assign_bound(via@, op@),
{
    let mut r = String::from_str(via);
    r.append(": ::core::ops::");
    r.append(op);
    r
}

fn concat(a: String, b: String) -> (r: String)
    ensures
        r@ == a@ + b@,
{
    let mut a = a;
    a.append(b.as_str());
    a
}

/// Writes the code of a derive for the parts `e`, or says why the whole
/// expansion stops.
pub fn generate_kind(
    k: DeriveKind,
    e: &Env,
    input: &DeriveInput,
    via: &Option<String>,
) -> (r: Result<String, Abort>)
    ensures
        match r {
            Ok(s) => kind_code(k, e@, type_param_names(*input), opt_view(*via)) == Ok::<Seq<char>, Abort>(s@),
            Err(a) => kind_code(k, e@, type_param_names(*input), opt_view(*via)) == Err::<Seq<char>, Abort>(a),
        },
{
    let generic = match via { Some(v) => is_type_param(input, v), None => false };
    match k {
        DeriveKind::Display => Ok(match via { None => display_plain_code(e), Some(v) => display_via_code(e, v.as_str()) }),
        DeriveKind::Into => Ok(match via { None => into_plain_code(e), Some(v) => into_via_code(e, v.as_str()) }),
        DeriveKind::From => Ok(match via { None => from_plain_code(e), Some(v) => from_via_code(e, v.as_str()) }),
        DeriveKind::PartialEq => Ok(match via {
            None => partial_eq_plain_code(e),
            Some(v) => partial_eq_via_code(e, v.as_str()),
        }),
        DeriveKind::Eq => {
            let pe = match via {
                None => partial_eq_plain_code(e),
                Some(v) => partial_eq_via_code(e, v.as_str()),
            };
            Ok(concat(eq_marker_code(e), pe))
        },
        DeriveKind::PartialOrd => Ok(match via {
            None => partial_ord_plain_code(e),
            Some(v) => partial_ord_via_code(e, v.as_str()),
        }),
        DeriveKind::Ord => {
            let total = match via { None => ord_plain_code(e), Some(v) => ord_via_code(e, v.as_str()) };
            let partial = match via {
                None => partial_ord_plain_code(e),
                Some(v) => partial_ord_via_code(e, v.as_str()),
            };
            Ok(concat(total, partial))
        },
        DeriveKind::TryFrom => Ok(match via {
            None => try_from_plain_code(e),
            Some(v) => try_from_via_code(e, v.as_str()),
        }),
        DeriveKind::FromStr => {
            let x = match via { Some(v) => v, None => &e.ty };
            Ok(if str_is(x, "String") { from_str_string_code(e) } else { from_str_parse_code(e, x.as_str()) })
        },
        DeriveKind::Hash => Ok(match via { None => hash_plain_code(e), Some(v) => hash_via_code(e, v.as_str()) }),
        DeriveKind::Serialize => Ok(match via {
            None => serialize_plain_code(e),
            Some(v) => serialize_via_code(e, v.as_str()),
        }),
        DeriveKind::Deserialize => Ok(match via {
            None => deserialize_plain_code(e),
            Some(v) => deserialize_via_code(e, v.as_str()),
        }),
        DeriveKind::Add => Ok(add_text(e, via, generic)),
        DeriveKind::Mul => Ok(mul_text(e, via, generic)),
        DeriveKind::Arithmetic => {
            let a = add_text(e, via, generic);
            let m = mul_text(e, via, generic);
            Ok(concat(a, m))
        },
        DeriveKind::AsRef => Ok(match via { None => as_ref_plain_code(e), Some(v) => as_ref_via_code(e, v.as_str()) }),
        DeriveKind::FromIterator => match via {
            None => Err(Abort::FromIteratorWithoutVia),
            Some(v) => Ok(from_iterator_via_code(e, v.as_str())),
        },
        DeriveKind::Index => Ok(match via { None => index_plain_code(e), Some(v) => index_via_code(e, v.as_str()) }),
        DeriveKind::AsMut => Ok(match via { None => as_mut_plain_code(e), Some(v) => as_mut_via_code(e, v.as_str()) }),
        DeriveKind::IndexMut => Ok(match via {
            None => index_mut_plain_code(e),
            Some(v) => index_mut_via_code(e, v.as_str()),
        }),
        DeriveKind::IntoIterator => match via {
            None => Ok(into_iterator_plain_code(e)),
            Some(_) => Err(Abort::IntoIteratorWithVia),
        },
        DeriveKind::Iter => {
            let x = match via { Some(v) => v, None => &e.ty };
            Ok(iter_method_code(e, x.as_str()))
        },
        DeriveKind::AddAssign => Ok(match via {
            None => add_assign_plain_code(e),
            Some(v) => {
                let b1 = assign_bound_code(v.as_str(), "AddAssign");
                let b2 = assign_bound_code(v.as_str(), "SubAssign");
                let w1 = bounded_where_code(e, b1.as_str(), v.as_str(), generic);
                let w2 = bounded_where_code(e, b2.as_str(), v.as_str(), generic);
                add_assign_via_code(e, v.as_str(), w1.as_str(), w2.as_str())
            },
        }),
        DeriveKind::MulAssign => Ok(match via {
            None => mul_assign_plain_code(e),
            Some(v) => {
                let b1 = assign_bound_code(v.as_str(), "MulAssign");
                let b2 = assign_bound_code(v.as_str(), "DivAssign");
                let w1 = bounded_where_code(e, b1.as_str(), v.as_str(), generic);
                let w2 = bounded_where_code(e, b2.as_str(), v.as_str(), generic);
                mul_assign_via_code(e, v.as_str(), w1.as_str(), w2.as_str())
            },
        }),
        DeriveKind::Default => Ok(match via { None => default_plain_code(e), Some(v) => default_via_code(e, v.as_str()) }),
        DeriveKind::IntoInner => {
            let x = match via { Some(v) => v, None => &e.ty };
            Ok(into_inner_method_code(e, x.as_str()))
        },
    }
}

fn add_text(e: &Env, via: &Option<String>, generic: bool) -> (r: String)
    ensures
        forall|tps: Seq<Seq<char>>| (match *via { Some(v) => generic == tps.contains(v@), None => true })
            ==> r@ == add_code(e@, tps, opt_view(*via)),
{
    match via {
        None => add_plain_code(e),
        Some(v) => {
            let b1 = output_bound_code(v.as_str(), "Add");
            let b2 = output_bound_code(v.as_str(), "Sub");
            let w1 = bounded_where_code(e, b1.as_str(), v.as_str(), generic);
            let w2 = bounded_where_code(e, b2.as_str(), v.as_str(), generic);
            add_via_code(e, v.as_str(), w1.as_str(), w2.as_str())
        },
    }
}

fn mul_text(e: &Env, via: &Option<String>, generic: bool) -> (r: String)
    ensures
        forall|tps: Seq<Seq<char>>| (match *via { Some(v) => generic == tps.contains(v@), None => true })
            ==> r@ == mul_code(e@, tps, opt_view(*via)),
{
    match via {
        None => mul_plain_code(e),
        Some(v) => {
            let b1 = output_bound_code(v.as_str(), "Mul");
            let b2 = output_bound_code(v.as_str(), "Div");
            let w1 = bounded_where_code(e, b1.as_str(), v.as_str(), generic);
            let w2 = bounded_where_code(e, b2.as_str(), v.as_str(), generic);
            mul_via_code(e, v.as_str(), w1.as_str(), w2.as_str())
        },
    }
}

} // verus!
