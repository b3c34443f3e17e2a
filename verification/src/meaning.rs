//! What the generated comparison, hashing and arithmetic impls do: each
//! applies the operation to the receiver's field (or the receiver seen as
//! `via`) first and the argument's second, as the field's own impl would.

use vstd::prelude::*;
use vstd::string::*;
use crate::codegen::{
    Ctx, add_assign_plain, eq_marker, add_assign_via, add_plain, add_via, hash_plain, hash_via, mul_assign_plain,
    mul_assign_via, mul_plain, mul_via, ord_plain, ord_via, partial_eq_plain, partial_eq_via,
    partial_ord_plain, partial_ord_via,
};
use crate::derives::DeriveKind;
use crate::generate::{add_code, assign_bound, bounded_where, kind_code, mul_code, output_bound};

verus! {

/// `part` occurs in `text`.
pub open spec fn has_part(text: Seq<char>, part: Seq<char>) -> bool {
    exists|i: int| 0 <= i && i + part.len() <= text.len() && #[trigger] text.subrange(i, i + part.len()) == part
}

proof fn lemma_has_part(pre: Seq<char>, part: Seq<char>, post: Seq<char>)
    ensures
        has_part(pre + part + post, part),
{
    let t = pre + part + post;
    assert(t.subrange(pre.len() as int, (pre.len() + part.len()) as int) =~= part);
}

proof fn lemma_has_part_extends(text: Seq<char>, part: Seq<char>, before: Seq<char>, after: Seq<char>)
    requires
        has_part(text, part),
    ensures
        has_part(before + text + after, part),
{
    let i = choose|i: int| 0 <= i && i + part.len() <= text.len() && #[trigger] text.subrange(i, i + part.len()) == part;
    let t = before + text + after;
    let j = before.len() as int + i;
    assert(t.subrange(j, j + part.len()) =~= text.subrange(i, i + part.len()));
}

/// The comparison in `eq` of the receiver's field with the argument's.
pub open spec fn eq_plain_part(c: Ctx) -> Seq<char> {
    " { fn eq(&self, other: &Self) -> bool { self."@ + c.acc + " .eq(&other."@ + c.acc + ") } }"@
}

proof fn lemma_partial_eq_plain_has_eq_plain_part(c: Ctx)
    ensures
        has_part(partial_eq_plain(c), eq_plain_part(c)),
{
    let pre = ("impl"@ + c.ig + " std::cmp::PartialEq for "@ + c.name + c.tg + " "@ + c.wc);
    let post = Seq::<char>::empty();
    assert(partial_eq_plain(c) =~= pre + eq_plain_part(c) + post);
    lemma_has_part(pre, eq_plain_part(c), post);
}

/// The comparison in `eq` of the receiver with the argument, both seen as `via`.
pub open spec fn eq_via_part(c: Ctx, via: Seq<char>) -> Seq<char> {
    " { fn eq(&self, other: &Self) -> bool { let left: &"@ + via + " = &*self; let right: &"@ + via + " = &*other; left.eq(right) } }"@
}

proof fn lemma_partial_eq_via_has_eq_via_part(c: Ctx, via: Seq<char>)
    ensures
        has_part(partial_eq_via(c, via), eq_via_part(c, via)),
{
    let pre = ("impl"@ + c.ig + " std::cmp::PartialEq for "@ + c.name + c.tg + " "@ + c.wc);
    let post = Seq::<char>::empty();
    assert(partial_eq_via(c, via) =~= pre + eq_via_part(c, via) + post);
    lemma_has_part(pre, eq_via_part(c, via), post);
}

/// The comparison in `partial_cmp` of the receiver's field with the argument's.
pub open spec fn partial_cmp_plain_part(c: Ctx) -> Seq<char> {
    " { fn partial_cmp(&self, other: &Self) -> Option<::core::cmp::Ordering> { self."@ + c.acc + " .partial_cmp(&other."@ + c.acc + ") } }"@
}

proof fn lemma_partial_ord_plain_has_partial_cmp_plain_part(c: Ctx)
    ensures
        has_part(partial_ord_plain(c), partial_cmp_plain_part(c)),
{
    let pre = ("impl"@ + c.ig + " PartialOrd for "@ + c.name + c.tg + " "@ + c.wc);
    let post = Seq::<char>::empty();
    assert(partial_ord_plain(c) =~= pre + partial_cmp_plain_part(c) + post);
    lemma_has_part(pre, partial_cmp_plain_part(c), post);
}

/// The comparison in `partial_cmp` of the receiver with the argument, both seen as `via`.
pub open spec fn partial_cmp_via_part(c: Ctx, via: Seq<char>) -> Seq<char> {
    " { fn partial_cmp(&self, other: &Self) -> Option<::core::cmp::Ordering> { let left: &"@ + via + " = self; let right: &"@ + via + " = other; left.partial_cmp(right) } }"@
}

proof fn lemma_partial_ord_via_has_partial_cmp_via_part(c: Ctx, via: Seq<char>)
    ensures
        has_part(partial_ord_via(c, via), partial_cmp_via_part(c, via)),
{
    let pre = ("impl"@ + c.ig + " PartialOrd for "@ + c.name + c.tg + " "@ + c.wc);
    let post = Seq::<char>::empty();
    assert(partial_ord_via(c, via) =~= pre + partial_cmp_via_part(c, via) + post);
    lemma_has_part(pre, partial_cmp_via_part(c, via), post);
}

/// The comparison in `cmp` of the receiver's field with the argument's.
pub open spec fn cmp_plain_part(c: Ctx) -> Seq<char> {
    " { fn cmp(&self, other: &Self) -> ::core::cmp::Ordering { self."@ + c.acc + " .cmp(&other."@ + c.acc + ") } }"@
}

proof fn lemma_ord_plain_has_cmp_plain_part(c: Ctx)
    ensures
        has_part(ord_plain(c), cmp_plain_part(c)),
{
    let pre = ("impl"@ + c.ig + " Ord for "@ + c.name + c.tg + " "@ + c.wc);
    let post = Seq::<char>::empty();
    assert(ord_plain(c) =~= pre + cmp_plain_part(c) + post);
    lemma_has_part(pre, cmp_plain_part(c), post);
}

/// The comparison in `cmp` of the receiver with the argument, both seen as `via`.
pub open spec fn cmp_via_part(c: Ctx, via: Seq<char>) -> Seq<char> {
    " { fn cmp(&self, other: &Self) -> ::core::cmp::Ordering { let left: &"@ + via + " = self; let right: &"@ + via + " = other; left.cmp(right) } }"@
}

proof fn lemma_ord_via_has_cmp_via_part(c: Ctx, via: Seq<char>)
    ensures
        has_part(ord_via(c, via), cmp_via_part(c, via)),
{
    let pre = ("impl"@ + c.ig + " Ord for "@ + c.name + c.tg + " "@ + c.wc);
    let post = Seq::<char>::empty();
    assert(ord_via(c, via) =~= pre + cmp_via_part(c, via) + post);
    lemma_has_part(pre, cmp_via_part(c, via), post);
}

/// The hashing of the field in `hash`.
pub open spec fn hash_plain_part(c: Ctx) -> Seq<char> {
    " { fn hash<H: std::hash::Hasher>(&self, state: &mut H) { self."@ + c.acc + " .hash(state); } }"@
}

proof fn lemma_hash_plain_has_hash_plain_part(c: Ctx)
    ensures
        has_part(hash_plain(c), hash_plain_part(c)),
{
    let pre = ("impl"@ + c.ig + " ::core::hash::Hash for "@ + c.name + c.tg + " "@ + c.wc);
    let post = Seq::<char>::empty();
    assert(hash_plain(c) =~= pre + hash_plain_part(c) + post);
    lemma_has_part(pre, hash_plain_part(c), post);
}

/// The hashing of the receiver seen as `via` in `hash`.
pub open spec fn hash_via_part(c: Ctx, via: Seq<char>) -> Seq<char> {
    " { fn hash<H: std::hash::Hasher>(&self, state: &mut H) { let de: &"@ + via + " = self; de.hash(state); } }"@
}

proof fn lemma_hash_via_has_hash_via_part(c: Ctx, via: Seq<char>)
    ensures
        has_part(hash_via(c, via), hash_via_part(c, via)),
{
    let pre = ("impl"@ + c.ig + " ::core::hash::Hash for "@ + c.name + c.tg + " "@ + c.wc);
    let post = Seq::<char>::empty();
    assert(hash_via(c, via) =~= pre + hash_via_part(c, via) + post);
    lemma_has_part(pre, hash_via_part(c, via), post);
}

/// `add`: the receiver's field plus the argument's, wrapped again.
pub open spec fn add_plain_part(c: Ctx) -> Seq<char> {
    " { type Output = Self; fn add(self, other: Self) -> Self { "@ + c.ctor + "((self."@ + c.acc + " + other."@ + c.acc + ").into()) } } impl"@
}

proof fn lemma_add_plain_has_add_plain_part(c: Ctx)
    ensures
        has_part(add_plain(c), add_plain_part(c)),
{
    let pre = ("impl"@ + c.ig + " ::core::ops::Add for "@ + c.name + c.tg + " "@ + c.wc);
    let post = (c.ig + " ::core::ops::Sub for "@ + c.name + c.tg + " "@ + c.wc + " { type Output = Self; fn sub(self, other: Self) -> Self { "@ + c.ctor + "((self."@ + c.acc + " - other."@ + c.acc + ").into()) } }"@);
    assert(add_plain(c) =~= pre + add_plain_part(c) + post);
    lemma_has_part(pre, add_plain_part(c), post);
}

/// `sub`: the receiver's field minus the argument's, wrapped again.
pub open spec fn sub_plain_part(c: Ctx) -> Seq<char> {
    " { type Output = Self; fn sub(self, other: Self) -> Self { "@ + c.ctor + "((self."@ + c.acc + " - other."@ + c.acc + ").into()) } }"@
}

proof fn lemma_add_plain_has_sub_plain_part(c: Ctx)
    ensures
        has_part(add_plain(c), sub_plain_part(c)),
{
    let pre = ("impl"@ + c.ig + " ::core::ops::Add for "@ + c.name + c.tg + " "@ + c.wc + " { type Output = Self; fn add(self, other: Self) -> Self { "@ + c.ctor + "((self."@ + c.acc + " + other."@ + c.acc + ").into()) } } impl"@ + c.ig + " ::core::ops::Sub for "@ + c.name + c.tg + " "@ + c.wc);
    let post = Seq::<char>::empty();
    assert(add_plain(c) =~= pre + sub_plain_part(c) + post);
    lemma_has_part(pre, sub_plain_part(c), post);
}

/// `add`: the receiver plus the argument, both seen as `via`.
pub open spec fn add_via_part(c: Ctx, via: Seq<char>) -> Seq<char> {
    " { type Output = Self; fn add(self, other: Self) -> Self { let lhs: &"@ + via + " = &self; let rhs: &"@ + via + " = &other; (lhs.to_owned() + rhs.to_owned()).into() } } impl"@
}

proof fn lemma_add_via_has_add_via_part(c: Ctx, via: Seq<char>, w1: Seq<char>, w2: Seq<char>)
    ensures
        has_part(add_via(c, via, w1, w2), add_via_part(c, via)),
{
    let pre = ("impl"@ + c.ig + " ::core::ops::Add for "@ + c.name + c.tg + " "@ + w1);
    let post = (c.ig + " ::core::ops::Sub for "@ + c.name + c.tg + " "@ + w2 + " { type Output = Self; fn sub(self, other: Self) -> Self { let lhs: &"@ + via + " = &self; let rhs: &"@ + via + " = &other; (lhs.to_owned() - rhs.to_owned()).into() } }"@);
    assert(add_via(c, via, w1, w2) =~= pre + add_via_part(c, via) + post);
    lemma_has_part(pre, add_via_part(c, via), post);
}

/// `sub`: the receiver minus the argument, both seen as `via`.
pub open spec fn sub_via_part(c: Ctx, via: Seq<char>) -> Seq<char> {
    " { type Output = Self; fn sub(self, other: Self) -> Self { let lhs: &"@ + via + " = &self; let rhs: &"@ + via + " = &other; (lhs.to_owned() - rhs.to_owned()).into() } }"@
}

proof fn lemma_add_via_has_sub_via_part(c: Ctx, via: Seq<char>, w1: Seq<char>, w2: Seq<char>)
    ensures
        has_part(add_via(c, via, w1, w2), sub_via_part(c, via)),
{
    let pre = ("impl"@ + c.ig + " ::core::ops::Add for "@ + c.name + c.tg + " "@ + w1 + " { type Output = Self; fn add(self, other: Self) -> Self { let lhs: &"@ + via + " = &self; let rhs: &"@ + via + " = &other; (lhs.to_owned() + rhs.to_owned()).into() } } impl"@ + c.ig + " ::core::ops::Sub for "@ + c.name + c.tg + " "@ + w2);
    let post = Seq::<char>::empty();
    assert(add_via(c, via, w1, w2) =~= pre + sub_via_part(c, via) + post);
    lemma_has_part(pre, sub_via_part(c, via), post);
}

/// `mul`: the receiver's field times the argument's, wrapped again.
pub open spec fn mul_plain_part(c: Ctx) -> Seq<char> {
    " { type Output = Self; fn mul(self, other: Self) -> Self { "@ + c.ctor + "((self."@ + c.acc + " * other."@ + c.acc + ").into()) } } impl"@
}

proof fn lemma_mul_plain_has_mul_plain_part(c: Ctx)
    ensures
        has_part(mul_plain(c), mul_plain_part(c)),
{
    let pre = ("impl"@ + c.ig + " ::core::ops::Mul for "@ + c.name + c.tg + " "@ + c.wc);
    let post = (c.ig + " ::core::ops::Div for "@ + c.name + c.tg + " "@ + c.wc + " { type Output = Self; fn div(self, other: Self) -> Self { "@ + c.ctor + "((self."@ + c.acc + " / other."@ + c.acc + ").into()) } }"@);
    assert(mul_plain(c) =~= pre + mul_plain_part(c) + post);
    lemma_has_part(pre, mul_plain_part(c), post);
}

/// `div`: the receiver's field divided by the argument's, wrapped again.
pub open spec fn div_plain_part(c: Ctx) -> Seq<char> {
    " { type Output = Self; fn div(self, other: Self) -> Self { "@ + c.ctor + "((self."@ + c.acc + " / other."@ + c.acc + ").into()) } }"@
}

proof fn lemma_mul_plain_has_div_plain_part(c: Ctx)
    ensures
        has_part(mul_plain(c), div_plain_part(c)),
{
    let pre = ("impl"@ + c.ig + " ::core::ops::Mul for "@ + c.name + c.tg + " "@ + c.wc + " { type Output = Self; fn mul(self, other: Self) -> Self { "@ + c.ctor + "((self."@ + c.acc + " * other."@ + c.acc + ").into()) } } impl"@ + c.ig + " ::core::ops::Div for "@ + c.name + c.tg + " "@ + c.wc);
    let post = Seq::<char>::empty();
    assert(mul_plain(c) =~= pre + div_plain_part(c) + post);
    lemma_has_part(pre, div_plain_part(c), post);
}

/// `mul`: the receiver times the argument, both seen as `via`.
pub open spec fn mul_via_part(c: Ctx, via: Seq<char>) -> Seq<char> {
    " { type Output = Self; fn mul(self, other: Self) -> Self { let lhs: &"@ + via + " = &self; let rhs: &"@ + via + " = &other; (lhs.to_owned() * rhs.to_owned()).into() } } impl"@
}

proof fn lemma_mul_via_has_mul_via_part(c: Ctx, via: Seq<char>, w1: Seq<char>, w2: Seq<char>)
    ensures
        has_part(mul_via(c, via, w1, w2), mul_via_part(c, via)),
{
    let pre = ("impl"@ + c.ig + " ::core::ops::Mul for "@ + c.name + c.tg + " "@ + w1);
    let post = (c.ig + " ::core::ops::Div for "@ + c.name + c.tg + " "@ + w2 + " { type Output = Self; fn div(self, other: Self) -> Self { let lhs: &"@ + via + " = &self; let rhs: &"@ + via + " = &other; (lhs.to_owned() / rhs.to_owned()).into() } }"@);
    assert(mul_via(c, via, w1, w2) =~= pre + mul_via_part(c, via) + post);
    lemma_has_part(pre, mul_via_part(c, via), post);
}

/// `div`: the receiver divided by the argument, both seen as `via`.
pub open spec fn div_via_part(c: Ctx, via: Seq<char>) -> Seq<char> {
    " { type Output = Self; fn div(self, other: Self) -> Self { let lhs: &"@ + via + " = &self; let rhs: &"@ + via + " = &other; (lhs.to_owned() / rhs.to_owned()).into() } }"@
}

proof fn lemma_mul_via_has_div_via_part(c: Ctx, via: Seq<char>, w1: Seq<char>, w2: Seq<char>)
    ensures
        has_part(mul_via(c, via, w1, w2), div_via_part(c, via)),
{
    let pre = ("impl"@ + c.ig + " ::core::ops::Mul for "@ + c.name + c.tg + " "@ + w1 + " { type Output = Self; fn mul(self, other: Self) -> Self { let lhs: &"@ + via + " = &self; let rhs: &"@ + via + " = &other; (lhs.to_owned() * rhs.to_owned()).into() } } impl"@ + c.ig + " ::core::ops::Div for "@ + c.name + c.tg + " "@ + w2);
    let post = Seq::<char>::empty();
    assert(mul_via(c, via, w1, w2) =~= pre + div_via_part(c, via) + post);
    lemma_has_part(pre, div_via_part(c, via), post);
}

/// `add_assign`: the argument's field added to the receiver's.
pub open spec fn add_assign_plain_part(c: Ctx) -> Seq<char> {
    " { fn add_assign(&mut self, rhs: Self) { self."@ + c.acc + " .add_assign(rhs."@ + c.acc + "); } } impl"@
}

proof fn lemma_add_assign_plain_has_add_assign_plain_part(c: Ctx)
    ensures
        has_part(add_assign_plain(c), add_assign_plain_part(c)),
{
    let pre = ("impl"@ + c.ig + " ::core::ops::AddAssign for "@ + c.name + c.tg + " "@ + c.wc);
    let post = (c.ig + " ::core::ops::SubAssign for "@ + c.name + c.tg + " "@ + c.wc + " { fn sub_assign(&mut self, rhs: Self) { self."@ + c.acc + " .sub_assign(rhs."@ + c.acc + "); } }"@);
    assert(add_assign_plain(c) =~= pre + add_assign_plain_part(c) + post);
    lemma_has_part(pre, add_assign_plain_part(c), post);
}

/// `sub_assign`: the argument's field taken from the receiver's.
pub open spec fn sub_assign_plain_part(c: Ctx) -> Seq<char> {
    " { fn sub_assign(&mut self, rhs: Self) { self."@ + c.acc + " .sub_assign(rhs."@ + c.acc + "); } }"@
}

proof fn lemma_add_assign_plain_has_sub_assign_plain_part(c: Ctx)
    ensures
        has_part(add_assign_plain(c), sub_assign_plain_part(c)),
{
    let pre = ("impl"@ + c.ig + " ::core::ops::AddAssign for "@ + c.name + c.tg + " "@ + c.wc + " { fn add_assign(&mut self, rhs: Self) { self."@ + c.acc + " .add_assign(rhs."@ + c.acc + "); } } impl"@ + c.ig + " ::core::ops::SubAssign for "@ + c.name + c.tg + " "@ + c.wc);
    let post = Seq::<char>::empty();
    assert(add_assign_plain(c) =~= pre + sub_assign_plain_part(c) + post);
    lemma_has_part(pre, sub_assign_plain_part(c), post);
}

/// `add_assign`: the argument added to the receiver, both seen as `via`.
pub open spec fn add_assign_via_part(c: Ctx, via: Seq<char>) -> Seq<char> {
    " { fn add_assign(&mut self, rhs: Self) { let lhs: &mut "@ + via + " = self; let rhs: &"@ + via + " = &rhs; lhs.add_assign(rhs.to_owned()); } } impl"@
}

proof fn lemma_add_assign_via_has_add_assign_via_part(c: Ctx, via: Seq<char>, w1: Seq<char>, w2: Seq<char>)
    ensures
        has_part(add_assign_via(c, via, w1, w2), add_assign_via_part(c, via)),
{
    let pre = ("impl"@ + c.ig + " ::core::ops::AddAssign for "@ + c.name + c.tg + " "@ + w1);
    let post = (c.ig + " ::core::ops::SubAssign for "@ + c.name + c.tg + " "@ + w2 + " { fn sub_assign(&mut self, rhs: Self) { let lhs: &mut "@ + via + " = self; let rhs: &"@ + via + " = &rhs; lhs.sub_assign(rhs.to_owned()); } }"@);
    assert(add_assign_via(c, via, w1, w2) =~= pre + add_assign_via_part(c, via) + post);
    lemma_has_part(pre, add_assign_via_part(c, via), post);
}

/// `sub_assign`: the argument taken from the receiver, both seen as `via`.
pub open spec fn sub_assign_via_part(c: Ctx, via: Seq<char>) -> Seq<char> {
    " { fn sub_assign(&mut self, rhs: Self) { let lhs: &mut "@ + via + " = self; let rhs: &"@ + via + " = &rhs; lhs.sub_assign(rhs.to_owned()); } }"@
}

proof fn lemma_add_assign_via_has_sub_assign_via_part(c: Ctx, via: Seq<char>, w1: Seq<char>, w2: Seq<char>)
    ensures
        has_part(add_assign_via(c, via, w1, w2), sub_assign_via_part(c, via)),
{
    let pre = ("impl"@ + c.ig + " ::core::ops::AddAssign for "@ + c.name + c.tg + " "@ + w1 + " { fn add_assign(&mut self, rhs: Self) { let lhs: &mut "@ + via + " = self; let rhs: &"@ + via + " = &rhs; lhs.add_assign(rhs.to_owned()); } } impl"@ + c.ig + " ::core::ops::SubAssign for "@ + c.name + c.tg + " "@ + w2);
    let post = Seq::<char>::empty();
    assert(add_assign_via(c, via, w1, w2) =~= pre + sub_assign_via_part(c, via) + post);
    lemma_has_part(pre, sub_assign_via_part(c, via), post);
}

/// `mul_assign`: the receiver's field multiplied by the argument's.
pub open spec fn mul_assign_plain_part(c: Ctx) -> Seq<char> {
    " { fn mul_assign(&mut self, rhs: Self) { self."@ + c.acc + " .mul_assign(rhs."@ + c.acc + "); } } impl"@
}

proof fn lemma_mul_assign_plain_has_mul_assign_plain_part(c: Ctx)
    ensures
        has_part(mul_assign_plain(c), mul_assign_plain_part(c)),
{
    let pre = ("impl"@ + c.ig + " ::core::ops::MulAssign for "@ + c.name + c.tg + " "@ + c.wc);
    let post = (c.ig + " ::core::ops::DivAssign for "@ + c.name + c.tg + " "@ + c.wc + " { fn div_assign(&mut self, rhs: Self) { self."@ + c.acc + " .div_assign(rhs."@ + c.acc + "); } }"@);
    assert(mul_assign_plain(c) =~= pre + mul_assign_plain_part(c) + post);
    lemma_has_part(pre, mul_assign_plain_part(c), post);
}

/// `div_assign`: the receiver's field divided by the argument's.
pub open spec fn div_assign_plain_part(c: Ctx) -> Seq<char> {
    " { fn div_assign(&mut self, rhs: Self) { self."@ + c.acc + " .div_assign(rhs."@ + c.acc + "); } }"@
}

proof fn lemma_mul_assign_plain_has_div_assign_plain_part(c: Ctx)
    ensures
        has_part(mul_assign_plain(c), div_assign_plain_part(c)),
{
    let pre = ("impl"@ + c.ig + " ::core::ops::MulAssign for "@ + c.name + c.tg + " "@ + c.wc + " { fn mul_assign(&mut self, rhs: Self) { self."@ + c.acc + " .mul_assign(rhs."@ + c.acc + "); } } impl"@ + c.ig + " ::core::ops::DivAssign for "@ + c.name + c.tg + " "@ + c.wc);
    let post = Seq::<char>::empty();
    assert(mul_assign_plain(c) =~= pre + div_assign_plain_part(c) + post);
    lemma_has_part(pre, div_assign_plain_part(c), post);
}

/// `mul_assign`: the receiver multiplied by the argument, both seen as `via`.
pub open spec fn mul_assign_via_part(c: Ctx, via: Seq<char>) -> Seq<char> {
    " { fn mul_assign(&mut self, rhs: Self) { let lhs: &mut "@ + via + " = self; let rhs: &"@ + via + " = &rhs; lhs.mul_assign(rhs.to_owned()); } } impl"@
}

proof fn lemma_mul_assign_via_has_mul_assign_via_part(c: Ctx, via: Seq<char>, w1: Seq<char>, w2: Seq<char>)
    ensures
        has_part(mul_assign_via(c, via, w1, w2), mul_assign_via_part(c, via)),
{
    let pre = ("impl"@ + c.ig + " ::core::ops::MulAssign for "@ + c.name + c.tg + " "@ + w1);
    let post = (c.ig + " ::core::ops::DivAssign for "@ + c.name + c.tg + " "@ + w2 + " { fn div_assign(&mut self, rhs: Self) { let lhs: &mut "@ + via + " = self; let rhs: &"@ + via + " = &rhs; lhs.div_assign(rhs.to_owned()); } }"@);
    assert(mul_assign_via(c, via, w1, w2) =~= pre + mul_assign_via_part(c, via) + post);
    lemma_has_part(pre, mul_assign_via_part(c, via), post);
}

/// `div_assign`: the receiver divided by the argument, both seen as `via`.
pub open spec fn div_assign_via_part(c: Ctx, via: Seq<char>) -> Seq<char> {
    " { fn div_assign(&mut self, rhs: Self) { let lhs: &mut "@ + via + " = self; let rhs: &"@ + via + " = &rhs; lhs.div_assign(rhs.to_owned()); } }"@
}

proof fn lemma_mul_assign_via_has_div_assign_via_part(c: Ctx, via: Seq<char>, w1: Seq<char>, w2: Seq<char>)
    ensures
        has_part(mul_assign_via(c, via, w1, w2), div_assign_via_part(c, via)),
{
    let pre = ("impl"@ + c.ig + " ::core::ops::MulAssign for "@ + c.name + c.tg + " "@ + w1 + " { fn mul_assign(&mut self, rhs: Self) { let lhs: &mut "@ + via + " = self; let rhs: &"@ + via + " = &rhs; lhs.mul_assign(rhs.to_owned()); } } impl"@ + c.ig + " ::core::ops::DivAssign for "@ + c.name + c.tg + " "@ + w2);
    let post = Seq::<char>::empty();
    assert(mul_assign_via(c, via, w1, w2) =~= pre + div_assign_via_part(c, via) + post);
    lemma_has_part(pre, div_assign_via_part(c, via), post);
}

/// Equality, order and hashing follow the field: `eq`, `partial_cmp` and
/// `cmp` compare the receiver's field (or the receiver seen as `via`) with
/// the argument's, in that order, and `hash` hashes the field (or the
/// receiver seen as `via`); `Eq` brings the same `eq`, and `Ord` the same
/// `partial_cmp` beside its `cmp`.
pub proof fn law_comparisons_follow_the_field(c: Ctx, tps: Seq<Seq<char>>, via: Option<Seq<char>>)
    ensures
        kind_code(DeriveKind::PartialEq, c, tps, via) matches Ok(code)
            && has_part(code, match via { None => eq_plain_part(c), Some(v) => eq_via_part(c, v) }),
        kind_code(DeriveKind::Eq, c, tps, via) matches Ok(code)
            && has_part(code, match via { None => eq_plain_part(c), Some(v) => eq_via_part(c, v) }),
        kind_code(DeriveKind::PartialOrd, c, tps, via) matches Ok(code)
            && has_part(code, match via { None => partial_cmp_plain_part(c), Some(v) => partial_cmp_via_part(c, v) }),
        kind_code(DeriveKind::Ord, c, tps, via) matches Ok(code)
            && has_part(code, match via { None => cmp_plain_part(c), Some(v) => cmp_via_part(c, v) })
            && has_part(code, match via { None => partial_cmp_plain_part(c), Some(v) => partial_cmp_via_part(c, v) }),
        kind_code(DeriveKind::Hash, c, tps, via) matches Ok(code)
            && has_part(code, match via { None => hash_plain_part(c), Some(v) => hash_via_part(c, v) }),
{
    let e = Seq::<char>::empty();
    match via {
        None => {
            lemma_partial_eq_plain_has_eq_plain_part(c);
            lemma_partial_ord_plain_has_partial_cmp_plain_part(c);
            lemma_ord_plain_has_cmp_plain_part(c);
            lemma_hash_plain_has_hash_plain_part(c);
            let pe = partial_eq_plain(c);
            lemma_has_part_extends(pe, eq_plain_part(c), eq_marker(c), e);
            assert(eq_marker(c) + pe + e =~= eq_marker(c) + pe);
            let po = partial_ord_plain(c);
            let o = ord_plain(c);
            lemma_has_part_extends(o, cmp_plain_part(c), e, po);
            lemma_has_part_extends(po, partial_cmp_plain_part(c), o, e);
            assert(e + o + po =~= o + po);
            assert(o + po + e =~= o + po);
        },
        Some(v) => {
            lemma_partial_eq_via_has_eq_via_part(c, v);
            lemma_partial_ord_via_has_partial_cmp_via_part(c, v);
            lemma_ord_via_has_cmp_via_part(c, v);
            lemma_hash_via_has_hash_via_part(c, v);
            let pe = partial_eq_via(c, v);
            lemma_has_part_extends(pe, eq_via_part(c, v), eq_marker(c), e);
            assert(eq_marker(c) + pe + e =~= eq_marker(c) + pe);
            let po = partial_ord_via(c, v);
            let o = ord_via(c, v);
            lemma_has_part_extends(o, cmp_via_part(c, v), e, po);
            lemma_has_part_extends(po, partial_cmp_via_part(c, v), o, e);
            assert(e + o + po =~= o + po);
            assert(o + po + e =~= o + po);
        },
    }
}

/// Arithmetic follows the field: `add`, `sub`, `mul` and `div` apply the
/// operator to the receiver's field (or the receiver seen as `via`) on the
/// left and the argument's on the right, and the compound assignments apply
/// the matching assignment to the receiver with the argument; `Arithmetic`
/// brings all four operators.
pub proof fn law_arithmetic_follows_the_field(c: Ctx, tps: Seq<Seq<char>>, via: Option<Seq<char>>)
    ensures
        kind_code(DeriveKind::Add, c, tps, via) matches Ok(code)
            && has_part(code, match via { None => add_plain_part(c), Some(v) => add_via_part(c, v) })
            && has_part(code, match via { None => sub_plain_part(c), Some(v) => sub_via_part(c, v) }),
        kind_code(DeriveKind::Mul, c, tps, via) matches Ok(code)
            && has_part(code, match via { None => mul_plain_part(c), Some(v) => mul_via_part(c, v) })
            && has_part(code, match via { None => div_plain_part(c), Some(v) => div_via_part(c, v) }),
        kind_code(DeriveKind::Arithmetic, c, tps, via) matches Ok(code)
            && has_part(code, match via { None => add_plain_part(c), Some(v) => add_via_part(c, v) })
            && has_part(code, match via { None => sub_plain_part(c), Some(v) => sub_via_part(c, v) })
            && has_part(code, match via { None => mul_plain_part(c), Some(v) => mul_via_part(c, v) })
            && has_part(code, match via { None => div_plain_part(c), Some(v) => div_via_part(c, v) }),
        kind_code(DeriveKind::AddAssign, c, tps, via) matches Ok(code)
            && has_part(code, match via { None => add_assign_plain_part(c), Some(v) => add_assign_via_part(c, v) })
            && has_part(code, match via { None => sub_assign_plain_part(c), Some(v) => sub_assign_via_part(c, v) }),
        kind_code(DeriveKind::MulAssign, c, tps, via) matches Ok(code)
            && has_part(code, match via { None => mul_assign_plain_part(c), Some(v) => mul_assign_via_part(c, v) })
            && has_part(code, match via { None => div_assign_plain_part(c), Some(v) => div_assign_via_part(c, v) }),
{
    let e = Seq::<char>::empty();
    let a = add_code(c, tps, via);
    let m = mul_code(c, tps, via);
    match via {
        None => {
            lemma_add_plain_has_add_plain_part(c);
            lemma_add_plain_has_sub_plain_part(c);
            lemma_mul_plain_has_mul_plain_part(c);
            lemma_mul_plain_has_div_plain_part(c);
            lemma_add_assign_plain_has_add_assign_plain_part(c);
            lemma_add_assign_plain_has_sub_assign_plain_part(c);
            lemma_mul_assign_plain_has_mul_assign_plain_part(c);
            lemma_mul_assign_plain_has_div_assign_plain_part(c);
            lemma_has_part_extends(a, add_plain_part(c), e, m);
            lemma_has_part_extends(a, sub_plain_part(c), e, m);
            lemma_has_part_extends(m, mul_plain_part(c), a, e);
            lemma_has_part_extends(m, div_plain_part(c), a, e);
        },
        Some(v) => {
            let g = tps.contains(v);
            lemma_add_via_has_add_via_part(c, v, bounded_where(c, output_bound(v, "Add"@), v, g), bounded_where(c, output_bound(v, "Sub"@), v, g));
            lemma_add_via_has_sub_via_part(c, v, bounded_where(c, output_bound(v, "Add"@), v, g), bounded_where(c, output_bound(v, "Sub"@), v, g));
            lemma_mul_via_has_mul_via_part(c, v, bounded_where(c, output_bound(v, "Mul"@), v, g), bounded_where(c, output_bound(v, "Div"@), v, g));
            lemma_mul_via_has_div_via_part(c, v, bounded_where(c, output_bound(v, "Mul"@), v, g), bounded_where(c, output_bound(v, "Div"@), v, g));
            lemma_add_assign_via_has_add_assign_via_part(c, v, bounded_where(c, assign_bound(v, "AddAssign"@), v, g), bounded_where(c, assign_bound(v, "SubAssign"@), v, g));
            lemma_add_assign_via_has_sub_assign_via_part(c, v, bounded_where(c, assign_bound(v, "AddAssign"@), v, g), bounded_where(c, assign_bound(v, "SubAssign"@), v, g));
            lemma_mul_assign_via_has_mul_assign_via_part(c, v, bounded_where(c, assign_bound(v, "MulAssign"@), v, g), bounded_where(c, assign_bound(v, "DivAssign"@), v, g));
            lemma_mul_assign_via_has_div_assign_via_part(c, v, bounded_where(c, assign_bound(v, "MulAssign"@), v, g), bounded_where(c, assign_bound(v, "DivAssign"@), v, g));
            lemma_has_part_extends(a, add_via_part(c, v), e, m);
            lemma_has_part_extends(a, sub_via_part(c, v), e, m);
            lemma_has_part_extends(m, mul_via_part(c, v), a, e);
            lemma_has_part_extends(m, div_via_part(c, v), a, e);
        },
    }
    assert(e + a + m =~= a + m);
    assert(a + m + e =~= a + m);
}

} // verus!
