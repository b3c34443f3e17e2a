//! The whole expansion of `#[derive(DerivingVia)]`: one item for each
//! requested derive and each `#[transitive(..)]`, then `Deref` and
//! `DerefMut`.

use vstd::prelude::*;
use vstd::string::*;
use crate::input::{Attribute, DeriveInput};
use crate::syntax::{SynData, parses_as_derive_input, parse_derive_input, print_field, print_generics};
use crate::input::{Data, FieldParts};
use crate::tokens::{Delimiter, TokenTree, stream_text, render_stream};
use crate::fields::{Extracted, FieldsError, extraction, extracted_view, extract_fields};
use crate::derives::{kind_of_name, kind_by_name};
use crate::errors::{Abort, ErrorV, ExpandError, Failure, FailureV};
use crate::attrs::{
    Derive, DeriveV, deriving_attribute, transitive_attribute, parse_deriving,
    parse_transitive, punct_is, token_punct_is,
};
use crate::codegen::{deref_impl, deref_impl_code, deref_mut_impl, deref_mut_impl_code};
use crate::generate::{context, env_of, generate_kind, kind_code, type_param_names};
use crate::text::{starts_with, str_is};

verus! {

/// One piece of the expansion: generated code, or an error reported in its
/// place.
#[derive(Debug)]
pub enum Item {
    Code(String),
    Error(ExpandError),
}

/// The view of an [`Item`].
pub enum ItemV {
    Code(Seq<char>),
    Error(ErrorV),
}

impl Item {
    pub open spec fn view(&self) -> ItemV {
        match self {
            Item::Code(s) => ItemV::Code(s@),
            Item::Error(e) => ItemV::Error(e@),
        }
    }
}

/// The view of an expansion.
pub open spec fn items_result(r: Result<Vec<Item>, Abort>) -> Result<Seq<ItemV>, Abort> {
    match r {
        Ok(items) => Ok(items@.map_values(|it: Item| it@)),
        Err(a) => Err(a),
    }
}

/// The view of one item, or of the failure that stops the expansion.
pub open spec fn item_result(r: Result<Item, Abort>) -> Result<ItemV, Abort> {
    match r {
        Ok(it) => Ok(it@),
        Err(a) => Err(a),
    }
}

/// The item that one requested derive gives.
pub open spec fn derive_item(input: DeriveInput, d: DeriveV) -> Result<ItemV, Abort> {
    let kind = match d.ident {
        Some(n) => kind_of_name(n),
        None => None,
    };
    match kind {
        None => Ok(ItemV::Error(ErrorV::UnsupportedDerive)),
        Some(k) => match extraction(input) {
            Err(e) => Ok(ItemV::Error(ErrorV::Fields(e))),
            Ok(f) => match kind_code(
                k,
                context(input, f),
                type_param_names(input),
                d.via,
            ) {
                Ok(code) => Ok(ItemV::Code(code)),
                Err(a) => Err(a),
            },
        },
    }
}

/// The items of the first `k` requested derives, in order, or the first
/// failure that stops the expansion.
pub open spec fn derive_items(input: DeriveInput, ds: Seq<DeriveV>, k: nat) -> Result<Seq<ItemV>, Abort>
    decreases k,
{
    if k == 0 {
        Ok(Seq::empty())
    } else {
        match derive_items(input, ds, (k - 1) as nat) {
            Err(a) => Err(a),
            Ok(items) => match derive_item(input, ds[k - 1]) {
                Err(a) => Err(a),
                Ok(it) => Ok(items.push(it)),
            },
        }
    }
}

/// The conversions through the given types, in order.
pub open spec fn conversions(tys: Seq<Seq<char>>) -> Seq<char>
    decreases tys.len(),
{
    if tys.len() == 0 {
        Seq::empty()
    } else {
        conversions(tys.drop_last()) + "let __: "@ + tys.last() + " = __.into(); "@
    }
}

/// A conversion through one type.
pub open spec fn conversion(t: Seq<char>) -> Seq<char> {
    "let __: "@ + t + " = __.into(); "@
}

/// Converting through a list of types converts through its first part and
/// then through the rest, in that order; through one type it is one
/// conversion.
pub proof fn law_conversions_in_order(a: Seq<Seq<char>>, b: Seq<Seq<char>>)
    ensures
        conversions(a + b) == conversions(a) + conversions(b),
    decreases b.len(),
{
    if b.len() > 0 {
        law_conversions_in_order(a, b.drop_last());
        assert((a + b).drop_last() =~= a + b.drop_last());
        assert((a + b).last() == b.last());
    } else {
        assert(a + b =~= a);
        assert(conversions(b) =~= Seq::<char>::empty());
    }
}

/// Converting through one type is one conversion to it.
pub proof fn law_conversion_through_one(t: Seq<char>)
    ensures
        conversions(seq![t]) == conversion(t),
{
    assert(seq![t].drop_last() =~= Seq::<Seq<char>>::empty());
    assert(conversions(Seq::<Seq<char>>::empty()) =~= Seq::<char>::empty());
    assert(conversions(seq![t]) =~= conversion(t));
}

/// A transitive chain gives code exactly when it lists three or more types
/// and ends with the input's name; the code converts from the first type
/// into the last, through each later type in turn.
pub proof fn law_transitive_chain(name: Seq<char>, tys: Seq<Seq<char>>)
    ensures
        (transitive_item(name, tys) is Code) <==> (tys.len() >= 3 && tys.last() == name),
        tys.len() >= 3 && tys.last() == name ==> transitive_item(name, tys) == ItemV::Code(
            "impl From<"@ + tys[0] + "> for "@ + name + " { fn from(__: "@ + tys[0] + ") -> Self { "@
                + conversions(tys.skip(1)) + "__ } }"@,
        ),
        tys.len() >= 3 ==> conversions(tys.skip(1)) == conversion(tys[1]) + conversions(tys.skip(2)),
{
    if tys.len() >= 3 {
        law_conversions_in_order(seq![tys[1]], tys.skip(2));
        law_conversion_through_one(tys[1]);
        assert(seq![tys[1]] + tys.skip(2) =~= tys.skip(1));
    }
}

/// `From` the first type, converting through each of the others in turn.
pub open spec fn transitive_code(tys: Seq<Seq<char>>) -> Seq<char> {
    "impl From<"@ + tys[0] + "> for "@ + tys.last() + " { fn from(__: "@ + tys[0]
        + ") -> Self { "@ + conversions(tys.skip(1)) + "__ } }"@
}

/// The item that `#[transitive(..)]` with the types `tys` gives for the
/// struct `name`.
pub open spec fn transitive_item(name: Seq<char>, tys: Seq<Seq<char>>) -> ItemV {
    if tys.len() < 3 {
        ItemV::Error(ErrorV::TransitiveTooShort)
    } else if tys.last() != name {
        ItemV::Error(ErrorV::TransitiveWrongEnd)
    } else {
        ItemV::Code(transitive_code(tys))
    }
}

/// The attribute is one of this derive's: its text begins with the keyword.
pub open spec fn introduced_by(meta: Seq<TokenTree>, kw: Seq<char>) -> bool {
    kw.is_prefix_of(stream_text(meta))
}

/// The items that one attribute of the input gives.
pub open spec fn attribute_items(input: DeriveInput, meta: Seq<TokenTree>) -> Result<Seq<ItemV>, Abort> {
    if introduced_by(meta, "deriving"@) {
        match deriving_attribute(meta) {
            Err(FailureV::Abort(a)) => Err(a),
            Err(FailureV::Error(e)) => Ok(seq![ItemV::Error(e)]),
            Ok(ds) => derive_items(input, ds, ds.len()),
        }
    } else if introduced_by(meta, "transitive"@) {
        match transitive_attribute(meta) {
            Err(FailureV::Abort(a)) => Err(a),
            Err(FailureV::Error(e)) => Ok(seq![ItemV::Error(e)]),
            Ok(tys) => Ok(seq![transitive_item(input.ident@, tys)]),
        }
    } else {
        Ok(Seq::empty())
    }
}

/// The items of the first `k` attributes of the input, in order, or the
/// first failure that stops the expansion.
pub open spec fn attributes_items(input: DeriveInput, k: nat) -> Result<Seq<ItemV>, Abort>
    decreases k,
{
    if k == 0 {
        Ok(Seq::empty())
    } else {
        match attributes_items(input, (k - 1) as nat) {
            Err(a) => Err(a),
            Ok(items) => match attribute_items(input, input.attrs@[k - 1].meta@) {
                Err(a) => Err(a),
                Ok(more) => Ok(items + more),
            },
        }
    }
}

/// `Deref` to the underlying field, which every expansion ends with.
pub open spec fn deref_item(input: DeriveInput) -> ItemV {
    match extraction(input) {
        Err(e) => ItemV::Error(ErrorV::Fields(e)),
        Ok(f) => ItemV::Code(deref_impl(context(input, f))),
    }
}

/// `DerefMut` to the underlying field, which every expansion ends with.
pub open spec fn deref_mut_item(input: DeriveInput) -> ItemV {
    match extraction(input) {
        Err(e) => ItemV::Error(ErrorV::Fields(e)),
        Ok(f) => ItemV::Code(deref_mut_impl(context(input, f))),
    }
}

/// The expansion of `#[derive(DerivingVia)]` on the input.
pub open spec fn expansion(input: DeriveInput) -> Result<Seq<ItemV>, Abort> {
    match attributes_items(input, input.attrs@.len()) {
        Err(a) => Err(a),
        Ok(items) => Ok(items + seq![deref_item(input), deref_mut_item(input)]),
    }
}

/// Writes the item of one requested derive.
pub fn expand_derive(
    input: &DeriveInput,
    fields: &Result<Extracted, FieldsError>,
    d: &Derive,
) -> (r: Result<Item, Abort>)
    requires
        extracted_view(*fields) == extraction(*input),
    ensures
        item_result(r) == derive_item(*input, d@),
{
    let kind = match &d.ident {
        Some(n) => kind_by_name(n),
        None => None,
    };
    match kind {
        None => Ok(Item::Error(ExpandError::UnsupportedDerive)),
        Some(k) => match fields {
            Err(e) => Ok(Item::Error(ExpandError::Fields(*e))),
            Ok(f) => {
                let env = env_of(input, f);
                match generate_kind(k, &env, input, &d.via) {
                    Ok(code) => Ok(Item::Code(code)),
                    Err(a) => Err(a),
                }
            },
        },
    }
}

/// Writes `From` along a `#[transitive(..)]` chain, or reports what is wrong
/// with the chain.
pub fn expand_transitive(name: &String, tys: &Vec<String>) -> (r: Item)
    ensures
        r@ == transitive_item(name@, tys@.map_values(|t: String| t@)),
{
    let ghost views = tys@.map_values(|t: String| t@);
    if tys.len() < 3 {
        return Item::Error(ExpandError::TransitiveTooShort);
    }
    let last = tys.len() - 1;
    if !str_is(&tys[last], name.as_str()) {
        return Item::Error(ExpandError::TransitiveWrongEnd);
    }
    proof {
        reveal_strlit("");
    }
    let mut body = String::from_str("");
    let mut i: usize = 1;
    assert(views.skip(1).take(0) =~= Seq::<Seq<char>>::empty());
    while i < tys.len()
        invariant
            1 <= i <= tys@.len(),
            views == tys@.map_values(|t: String| t@),
            body@ == conversions(views.skip(1).take(i - 1)),
        decreases tys.len() - i,
    {
        let ghost before = body@;
        body.append("let __: ");
        body.append(tys[i].as_str());
        body.append(" = __.into(); ");
        proof {
            let next = views.skip(1).take(i as int);
            assert(next.drop_last() =~= views.skip(1).take(i - 1));
            assert(next.last() == views[i as int]);
            assert(body@ =~= conversions(next));
        }
        i = i + 1;
    }
    assert(views.skip(1).take(views.len() - 1) =~= views.skip(1));
    let mut r = String::from_str("impl From<");
    r.append(tys[0].as_str());
    r.append("> for ");
    r.append(tys[last].as_str());
    r.append(" { fn from(__: ");
    r.append(tys[0].as_str());
    r.append(") -> Self { ");
    r.append(body.as_str());
    r.append("__ } }");
    Item::Code(r)
}

/// Writes the items that one attribute gives, or the failure that stops the
/// expansion.
pub fn expand_attribute(
    input: &DeriveInput,
    fields: &Result<Extracted, FieldsError>,
    attr: &Attribute,
) -> (r: Result<Vec<Item>, Abort>)
    requires
        extracted_view(*fields) == extraction(*input),
    ensures
        items_result(r) == attribute_items(*input, attr.meta@),
{
    let text = render_stream(&attr.meta);
    if starts_with(text.as_str(), "deriving") {
        match parse_deriving(&attr.meta) {
            Err(Failure::Abort(a)) => Err(a),
            Err(Failure::Error(e)) => {
                let ghost ev = e@;
                let out = vec![Item::Error(e)];
                assert(out@.map_values(|it: Item| it@) =~= seq![ItemV::Error(ev)]);
                Ok(out)
            },
            Ok(ds) => {
                let ghost dvs = ds@.map_values(|d: Derive| d@);
                let mut out: Vec<Item> = Vec::new();
                let mut i: usize = 0;
                assert(out@.map_values(|it: Item| it@) =~= Seq::<ItemV>::empty());
                while i < ds.len()
                    invariant
                        i <= ds@.len(),
                        dvs == ds@.map_values(|d: Derive| d@),
                        introduced_by(attr.meta@, "deriving"@),
                        deriving_attribute(attr.meta@) == Ok::<Seq<DeriveV>, FailureV>(dvs),
                        extracted_view(*fields) == extraction(*input),
                        derive_items(*input, dvs, i as nat)
                            == Ok::<Seq<ItemV>, Abort>(out@.map_values(|it: Item| it@)),
                    decreases ds.len() - i,
                {
                    match expand_derive(input, fields, &ds[i]) {
                        Err(a) => {
                            proof {
                                assert(dvs[i as int] == ds@[i as int]@);
                                assert(derive_items(*input, dvs, i as nat + 1) == Err::<Seq<ItemV>, Abort>(a));
                                lemma_derive_items_abort_persists(*input, dvs, i as nat + 1, dvs.len());
                                assert(dvs.len() == ds@.len());
                            }
                            return Err(a);
                        },
                        Ok(it) => {
                            assert(dvs[i as int] == ds@[i as int]@);
                            let ghost before = out@.map_values(|it: Item| it@);
                            let ghost iv = it@;
                            out.push(it);
                            assert(out@.map_values(|it: Item| it@) =~= before.push(iv));
                        },
                    }
                    i = i + 1;
                }
                Ok(out)
            },
        }
    } else if starts_with(text.as_str(), "transitive") {
        match parse_transitive(&attr.meta) {
            Err(Failure::Abort(a)) => Err(a),
            Err(Failure::Error(e)) => {
                let ghost ev = e@;
                let out = vec![Item::Error(e)];
                assert(out@.map_values(|it: Item| it@) =~= seq![ItemV::Error(ev)]);
                Ok(out)
            },
            Ok(tys) => {
                let it = expand_transitive(&input.ident, &tys);
                let ghost iv = it@;
                let out = vec![it];
                assert(out@.map_values(|it: Item| it@) =~= seq![iv]);
                Ok(out)
            },
        }
    } else {
        let out: Vec<Item> = Vec::new();
        assert(out@.map_values(|it: Item| it@) =~= Seq::<ItemV>::empty());
        Ok(out)
    }
}

/// Once a derive stops the expansion, the later ones do not matter.
pub proof fn lemma_derive_items_abort_persists(input: DeriveInput, ds: Seq<DeriveV>, j: nat, m: nat)
    requires
        j <= m,
        derive_items(input, ds, j) is Err,
    ensures
        derive_items(input, ds, m) == derive_items(input, ds, j),
    decreases m - j,
{
    if j < m {
        lemma_derive_items_abort_persists(input, ds, j, (m - 1) as nat);
    }
}

/// Once an attribute stops the expansion, the later ones do not matter.
pub proof fn lemma_attributes_abort_persists(input: DeriveInput, j: nat, m: nat)
    requires
        j <= m,
        attributes_items(input, j) is Err,
    ensures
        attributes_items(input, m) == attributes_items(input, j),
    decreases m - j,
{
    if j < m {
        lemma_attributes_abort_persists(input, j, (m - 1) as nat);
    }
}

/// Two inputs that agree on everything the generated code reads: name,
/// generics and body.
pub open spec fn same_subject(a: DeriveInput, b: DeriveInput) -> bool {
    &&& a.ident == b.ident
    &&& a.generics == b.generics
    &&& a.data == b.data
}

proof fn lemma_derive_item_agrees(a: DeriveInput, b: DeriveInput, d: DeriveV)
    requires
        same_subject(a, b),
    ensures
        derive_item(a, d) == derive_item(b, d),
        deref_item(a) == deref_item(b),
        deref_mut_item(a) == deref_mut_item(b),
{
    assert(extraction(a) == extraction(b));
    assert(type_param_names(a) == type_param_names(b));
    if let Ok(f) = extraction(a) {
        assert(context(a, f) == context(b, f));
    }
}

proof fn lemma_derive_items_agree(a: DeriveInput, b: DeriveInput, ds: Seq<DeriveV>, n: nat)
    requires
        same_subject(a, b),
    ensures
        derive_items(a, ds, n) == derive_items(b, ds, n),
    decreases n,
{
    if n > 0 {
        lemma_derive_items_agree(a, b, ds, (n - 1) as nat);
        lemma_derive_item_agrees(a, b, ds[n - 1]);
    }
}

proof fn lemma_attribute_items_agree(a: DeriveInput, b: DeriveInput, meta: Seq<TokenTree>)
    requires
        same_subject(a, b),
    ensures
        attribute_items(a, meta) == attribute_items(b, meta),
{
    if let Ok(ds) = deriving_attribute(meta) {
        lemma_derive_items_agree(a, b, ds, ds.len());
    }
}

proof fn lemma_attributes_with_extra(a: DeriveInput, b: DeriveInput, p: int, k: nat)
    requires
        same_subject(a, b),
        0 <= p <= a.attrs@.len(),
        b.attrs@.len() == a.attrs@.len() + 1,
        forall|j: int| 0 <= j < p ==> b.attrs@[j] == a.attrs@[j],
        forall|j: int| p < j < b.attrs@.len() ==> b.attrs@[j] == a.attrs@[j - 1],
        !introduced_by(b.attrs@[p].meta@, "deriving"@),
        !introduced_by(b.attrs@[p].meta@, "transitive"@),
        k <= b.attrs@.len(),
    ensures
        k <= p ==> attributes_items(b, k) == attributes_items(a, k),
        k > p ==> attributes_items(b, k) == attributes_items(a, (k - 1) as nat),
    decreases k,
{
    if k > 0 {
        let j = (k - 1) as nat;
        lemma_attributes_with_extra(a, b, p, j);
        if j < p {
            lemma_attribute_items_agree(a, b, a.attrs@[j as int].meta@);
        } else if j == p {
            if let Ok(items) = attributes_items(b, j) {
                assert(items + Seq::<ItemV>::empty() =~= items);
            }
        } else {
            lemma_attribute_items_agree(a, b, a.attrs@[j - 1].meta@);
        }
    }
}

/// An attribute that is neither `#[deriving(..)]` nor `#[transitive(..)]`
/// changes nothing: inserting one anywhere among the attributes of an input
/// leaves its expansion as it was.
pub proof fn law_other_attributes_are_ignored(a: DeriveInput, b: DeriveInput, p: int)
    requires
        same_subject(a, b),
        0 <= p <= a.attrs@.len(),
        b.attrs@ == a.attrs@.insert(p, b.attrs@[p]),
        !introduced_by(b.attrs@[p].meta@, "deriving"@),
        !introduced_by(b.attrs@[p].meta@, "transitive"@),
    ensures
        expansion(b) == expansion(a),
{
    assert forall|j: int| p < j < b.attrs@.len() implies b.attrs@[j] == a.attrs@[j - 1] by {
        assert(b.attrs@[j] == a.attrs@.insert(p, b.attrs@[p])[j]);
    }
    assert forall|j: int| 0 <= j < p implies b.attrs@[j] == a.attrs@[j] by {
        assert(b.attrs@[j] == a.attrs@.insert(p, b.attrs@[p])[j]);
    }
    lemma_attributes_with_extra(a, b, p, b.attrs@.len());
    lemma_derive_item_agrees(a, b, DeriveV { ident: None, via: None });
}

/// Every expansion that is not stopped ends with `Deref` and `DerefMut` to
/// the underlying field (or, where the field cannot be found, with the
/// reason reported twice in their place).
pub proof fn law_expansion_ends_with_deref(input: DeriveInput)
    ensures
        expansion(input) matches Ok(items) ==> {
            &&& items.len() >= 2
            &&& items[items.len() - 2] == deref_item(input)
            &&& items[items.len() - 1] == deref_mut_item(input)
        },
        extraction(input) matches Ok(f) ==> deref_item(input) == ItemV::Code(deref_impl(context(input, f)))
            && deref_mut_item(input) == ItemV::Code(deref_mut_impl(context(input, f))),
{
}

/// A list of derives gives one item per derive, in the order requested,
/// unless one of them stops the expansion; then the expansion stops with the
/// failure of the first derive that stops it.
pub proof fn law_one_item_per_derive(input: DeriveInput, ds: Seq<DeriveV>, n: nat)
    requires
        n <= ds.len(),
    ensures
        derive_items(input, ds, n) matches Ok(items) ==> {
            &&& items.len() == n
            &&& forall|i: int| 0 <= i < n ==> derive_item(input, ds[i]) == Ok::<ItemV, Abort>(#[trigger] items[i])
        },
        derive_items(input, ds, n) matches Err(a) ==> exists|i: int| {
            &&& 0 <= i < n
            &&& derive_item(input, ds[i]) == Err::<ItemV, Abort>(a)
            &&& forall|j: int| 0 <= j < i ==> (#[trigger] derive_item(input, ds[j])) is Ok
        },
        (forall|i: int| 0 <= i < n ==> (#[trigger] derive_item(input, ds[i])) is Ok)
            ==> derive_items(input, ds, n) is Ok,
    decreases n,
{
    if n > 0 {
        let m = (n - 1) as nat;
        law_one_item_per_derive(input, ds, m);
        match derive_items(input, ds, m) {
            Ok(items) => {
                if let Ok(it) = derive_item(input, ds[m as int]) {
                    let all = items.push(it);
                    assert forall|i: int| 0 <= i < n implies derive_item(input, ds[i]) == Ok::<ItemV, Abort>(#[trigger] all[i]) by {
                        if i < m {
                            assert(all[i] == items[i]);
                        }
                    }
                } else {
                    assert forall|j: int| 0 <= j < m implies (#[trigger] derive_item(input, ds[j])) is Ok by {
                        assert(derive_item(input, ds[j]) == Ok::<ItemV, Abort>(items[j]));
                    }
                }
            },
            Err(a) => {
                let i = choose|i: int| {
                    &&& 0 <= i < m
                    &&& derive_item(input, ds[i]) == Err::<ItemV, Abort>(a)
                    &&& forall|j: int| 0 <= j < i ==> (#[trigger] derive_item(input, ds[j])) is Ok
                };
                assert(0 <= i < n);
            },
        }
    }
}

/// Expands `#[derive(DerivingVia)]` on the input: the items in order, or the
/// failure that stops the whole expansion.
pub fn impl_deriving_via(input: &DeriveInput) -> (r: Result<Vec<Item>, Abort>)
    ensures
        items_result(r) == expansion(*input),
{
    let fields = extract_fields(input);
    let mut out: Vec<Item> = Vec::new();
    let mut i: usize = 0;
    assert(out@.map_values(|it: Item| it@) =~= Seq::<ItemV>::empty());
    while i < input.attrs.len()
        invariant
            i <= input.attrs@.len(),
            extracted_view(fields) == extraction(*input),
            attributes_items(*input, i as nat) == Ok::<Seq<ItemV>, Abort>(out@.map_values(|it: Item| it@)),
        decreases input.attrs.len() - i,
    {
        match expand_attribute(input, &fields, &input.attrs[i]) {
            Err(a) => {
                proof {
                    lemma_attributes_abort_persists(*input, i as nat + 1, input.attrs@.len());
                }
                return Err(a);
            },
            Ok(more) => {
                let ghost before = out@.map_values(|it: Item| it@);
                let ghost mv = more@.map_values(|it: Item| it@);
                let mut more = more;
                out.append(&mut more);
                assert(out@.map_values(|it: Item| it@) =~= before + mv);
            },
        }
        i = i + 1;
    }
    let (d, dm) = match &fields {
        Err(e) => (Item::Error(ExpandError::Fields(*e)), Item::Error(ExpandError::Fields(*e))),
        Ok(f) => {
            let env = env_of(input, f);
            (Item::Code(deref_impl_code(&env)), Item::Code(deref_mut_impl_code(&env)))
        },
    };
    let ghost before = out@.map_values(|it: Item| it@);
    let ghost dv = d@;
    let ghost dmv = dm@;
    out.push(d);
    out.push(dm);
    assert(out@.map_values(|it: Item| it@) =~= before + seq![dv, dmv]);
    Ok(out)
}

/// The outer attributes `#[..]` at the head of an item's tokens: the tokens
/// inside each pair of brackets, in order.
pub open spec fn outer_attributes(ts: Seq<TokenTree>) -> Seq<Seq<TokenTree>>
    decreases ts.len(),
{
    if ts.len() >= 2 && punct_is(ts[0], "#"@) {
        match ts[1] {
            TokenTree::Group(Delimiter::Bracket, inner) => seq![inner@] + outer_attributes(ts.skip(2)),
            _ => Seq::empty(),
        }
    } else {
        Seq::empty()
    }
}

/// The tokens begin with an outer attribute `#[..]`.
fn starts_with_attribute(ts: &Vec<TokenTree>) -> (r: bool)
    ensures
        r == (ts@.len() >= 2 && punct_is(ts@[0], "#"@) && ts@[1] matches TokenTree::Group(Delimiter::Bracket, _)),
{
    ts.len() >= 2 && token_punct_is(&ts[0], "#") && matches!(ts[1], TokenTree::Group(Delimiter::Bracket, _))
}

/// `#[derive(DerivingVia)]` on the tokens of an item. When `syn` reads them
/// as a derive input, the input as read, whose attributes are the outer
/// attributes at the head of the tokens, and its expansion; otherwise
/// `syn`'s message.
pub fn derive_generalised_newtype_deriving(tokens: Vec<TokenTree>) -> (r: Result<(DeriveInput, Result<Vec<Item>, Abort>), String>)
    ensures
        r is Ok <==> parses_as_derive_input(stream_text(tokens@)),
        r matches Ok((input, out)) ==> {
            &&& input.attrs@.map_values(|a: Attribute| a.meta@) == outer_attributes(tokens@)
            &&& items_result(out) == expansion(input)
        },
{
    let text = render_stream(&tokens);
    let item = match parse_derive_input(text.as_str()) {
        Ok(item) => item,
        Err(message) => return Err(message),
    };
    let generics = print_generics(&item.generics);
    let data = match &item.data {
        SynData::Struct(fs) => {
            let mut fields: Vec<FieldParts> = Vec::new();
            let mut i: usize = 0;
            while i < fs.len()
                decreases fs.len() - i,
            {
                fields.push(print_field(&fs[i]));
                i = i + 1;
            }
            Data::Struct(fields)
        },
        SynData::Enum => Data::Enum,
        SynData::Union => Data::Union,
    };
    let ident = item.ident;
    let ghost whole = tokens@;
    let mut rest = tokens;
    let mut attrs: Vec<Attribute> = Vec::new();
    assert(attrs@.map_values(|a: Attribute| a.meta@) =~= Seq::<Seq<TokenTree>>::empty());
    while starts_with_attribute(&rest)
        invariant
            outer_attributes(whole) == attrs@.map_values(|a: Attribute| a.meta@) + outer_attributes(rest@),
        decreases rest@.len(),
    {
        let ghost before = rest@;
        let ghost metas = attrs@.map_values(|a: Attribute| a.meta@);
        let _hash = rest.remove(0);
        let group = rest.remove(0);
        assert(rest@ =~= before.skip(2));
        match group {
            TokenTree::Group(_, inner) => {
                let ghost m = inner@;
                attrs.push(Attribute { meta: inner });
                assert(attrs@.map_values(|a: Attribute| a.meta@) =~= metas.push(m));
                assert(outer_attributes(before) == seq![m] + outer_attributes(rest@));
                assert(metas.push(m) + outer_attributes(rest@) =~= metas + (seq![m] + outer_attributes(rest@)));
            },
            _ => {},
        }
    }
    assert(outer_attributes(rest@) =~= Seq::<Seq<TokenTree>>::empty());
    assert(attrs@.map_values(|a: Attribute| a.meta@) + outer_attributes(rest@) =~= attrs@.map_values(|a: Attribute| a.meta@));
    let input = DeriveInput { ident, generics, data, attrs };
    let out = impl_deriving_via(&input);
    Ok((input, out))
}

} // verus!
