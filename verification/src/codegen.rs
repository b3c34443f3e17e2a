//! The code that each derive generates, as text.
//!
//! Every generator fills one fixed template with the parts of the input: its
//! name, its generics in the forms an impl needs, and the accessor, type and
//! constructor of its underlying field.

use vstd::prelude::*;
use vstd::string::*;

verus! {

/// The parts of the input that the templates are filled with.
pub struct Ctx {
    /// The struct's name.
    pub name: Seq<char>,
    /// The parameters to introduce after `impl`, angle brackets included.
    pub ig: Seq<char>,
    /// The arguments after the struct's name, angle brackets included.
    pub tg: Seq<char>,
    /// The generic parameters as declared, without angle brackets.
    pub params: Seq<char>,
    /// The struct's `where` clause, or nothing.
    pub wc: Seq<char>,
    /// The predicates of the struct's `where` clause, or nothing.
    pub preds: Seq<char>,
    /// The member that names the underlying field.
    pub acc: Seq<char>,
    /// The underlying field's type.
    pub ty: Seq<char>,
    /// A closure that builds the struct around a value of the field's type.
    pub ctor: Seq<char>,
}

/// The parts of the input that the templates are filled with.
pub struct Env {
    pub name: String,
    pub ig: String,
    pub tg: String,
    pub params: String,
    pub wc: String,
    pub preds: String,
    pub acc: String,
    pub ty: String,
    pub ctor: String,
}

impl Env {
    pub open spec fn view(&self) -> Ctx {
        Ctx {
            name: self.name@,
            ig: self.ig@,
            tg: self.tg@,
            params: self.params@,
            wc: self.wc@,
            preds: self.preds@,
            acc: self.acc@,
            ty: self.ty@,
            ctor: self.ctor@,
        }
    }
}

/// `Display` through the underlying field.
pub open spec fn display_plain(c: Ctx) -> Seq<char> {
    "impl"@
        + c.ig
        + " ::core::fmt::Display for "@
        + c.name
        + c.tg
        + " "@
        + c.wc
        + " { fn fmt(&self, f: &mut ::core::fmt::Formatter<'_>) -> ::core::fmt::Result { self."@
        + c.acc
        + " .fmt(f) } }"@
}

/// Writes [`display_plain`].
pub fn display_plain_code(e: &Env) -> (r: String)
    ensures
        r@ == display_plain(e@),
{
    let mut r = String::from_str("impl");
    r.append(e.ig.as_str());
    r.append(" ::core::fmt::Display for ");
    r.append(e.name.as_str());
    r.append(e.tg.as_str());
    r.append(" ");
    r.append(e.wc.as_str());
    r.append(" { fn fmt(&self, f: &mut ::core::fmt::Formatter<'_>) -> ::core::fmt::Result { self.");
    r.append(e.acc.as_str());
    r.append(" .fmt(f) } }");
    r
}

/// `Display` through the type `via` that the struct dereferences to.
pub open spec fn display_via(c: Ctx, via: Seq<char>) -> Seq<char> {
    "impl"@
        + c.ig
        + " ::core::fmt::Display for "@
        + c.name
        + c.tg
        + " "@
        + c.wc
        + " { fn fmt(&self, f: &mut ::core::fmt::Formatter<'_>) -> ::core::fmt::Result { let de: &"@
        + via
        + " = self; write!(f, \"{}\", de) } }"@
}

/// Writes [`display_via`].
pub fn display_via_code(e: &Env, via: &str) -> (r: String)
    ensures
        r@ == display_via(e@, via@),
{
    let mut r = String::from_str("impl");
    r.append(e.ig.as_str());
    r.append(" ::core::fmt::Display for ");
    r.append(e.name.as_str());
    r.append(e.tg.as_str());
    r.append(" ");
    r.append(e.wc.as_str());
    r.append(" { fn fmt(&self, f: &mut ::core::fmt::Formatter<'_>) -> ::core::fmt::Result { let de: &");
    r.append(via);
    r.append(" = self; write!(f, \"{}\", de) } }");
    r
}

/// `From<Struct>` for the field's type.
pub open spec fn into_plain(c: Ctx) -> Seq<char> {
    "impl"@
        + c.ig
        + " ::core::convert::From<"@
        + c.name
        + c.tg
        + "> for "@
        + c.ty
        + " "@
        + c.wc
        + " { fn from(__: "@
        + c.name
        + c.tg
        + ") -> "@
        + c.ty
        + " { __."@
        + c.acc
        + " } }"@
}

/// Writes [`into_plain`].
pub fn into_plain_code(e: &Env) -> (r: String)
    ensures
        r@ == into_plain(e@),
{
    let mut r = String::from_str("impl");
    r.append(e.ig.as_str());
    r.append(" ::core::convert::From<");
    r.append(e.name.as_str());
    r.append(e.tg.as_str());
    r.append("> for ");
    r.append(e.ty.as_str());
    r.append(" ");
    r.append(e.wc.as_str());
    r.append(" { fn from(__: ");
    r.append(e.name.as_str());
    r.append(e.tg.as_str());
    r.append(") -> ");
    r.append(e.ty.as_str());
    r.append(" { __.");
    r.append(e.acc.as_str());
    r.append(" } }");
    r
}

/// `From<Struct>` for `via`.
pub open spec fn into_via(c: Ctx, via: Seq<char>) -> Seq<char> {
    "impl"@
        + c.ig
        + " ::core::convert::From<"@
        + c.name
        + c.tg
        + "> for "@
        + via
        + " "@
        + c.wc
        + " { fn from(__: "@
        + c.name
        + c.tg
        + ") -> "@
        + via
        + " { let de: &"@
        + via
        + " = &__; de.to_owned() } }"@
}

/// Writes [`into_via`].
pub fn into_via_code(e: &Env, via: &str) -> (r: String)
    ensures
        r@ == into_via(e@, via@),
{
    let mut r = String::from_str("impl");
    r.append(e.ig.as_str());
    r.append(" ::core::convert::From<");
    r.append(e.name.as_str());
    r.append(e.tg.as_str());
    r.append("> for ");
    r.append(via);
    r.append(" ");
    r.append(e.wc.as_str());
    r.append(" { fn from(__: ");
    r.append(e.name.as_str());
    r.append(e.tg.as_str());
    r.append(") -> ");
    r.append(via);
    r.append(" { let de: &");
    r.append(via);
    r.append(" = &__; de.to_owned() } }");
    r
}

/// `From` the field's type.
pub open spec fn from_plain(c: Ctx) -> Seq<char> {
    "impl"@
        + c.ig
        + " From<"@
        + c.ty
        + "> for "@
        + c.name
        + c.tg
        + " "@
        + c.wc
        + " { fn from(__: "@
        + c.ty
        + ") -> Self { "@
        + c.ctor
        + "(__) } }"@
}

/// Writes [`from_plain`].
pub fn from_plain_code(e: &Env) -> (r: String)
    ensures
        r@ == from_plain(e@),
{
    let mut r = String::from_str("impl");
    r.append(e.ig.as_str());
    r.append(" From<");
    r.append(e.ty.as_str());
    r.append("> for ");
    r.append(e.name.as_str());
    r.append(e.tg.as_str());
    r.append(" ");
    r.append(e.wc.as_str());
    r.append(" { fn from(__: ");
    r.append(e.ty.as_str());
    r.append(") -> Self { ");
    r.append(e.ctor.as_str());
    r.append("(__) } }");
    r
}

/// `From<via>`, converting `via` into the struct.
pub open spec fn from_via(c: Ctx, via: Seq<char>) -> Seq<char> {
    "impl"@
        + c.ig
        + " From<"@
        + via
        + "> for "@
        + c.name
        + c.tg
        + " "@
        + c.wc
        + " { fn from(__: "@
        + via
        + ") -> Self { __.into() } }"@
}

/// Writes [`from_via`].
pub fn from_via_code(e: &Env, via: &str) -> (r: String)
    ensures
        r@ == from_via(e@, via@),
{
    let mut r = String::from_str("impl");
    r.append(e.ig.as_str());
    r.append(" From<");
    r.append(via);
    r.append("> for ");
    r.append(e.name.as_str());
    r.append(e.tg.as_str());
    r.append(" ");
    r.append(e.wc.as_str());
    r.append(" { fn from(__: ");
    r.append(via);
    r.append(") -> Self { __.into() } }");
    r
}

/// `PartialEq` by the underlying field.
pub open spec fn partial_eq_plain(c: Ctx) -> Seq<char> {
    "impl"@
        + c.ig
        + " std::cmp::PartialEq for "@
        + c.name
        + c.tg
        + " "@
        + c.wc
        + " { fn eq(&self, other: &Self) -> bool { self."@
        + c.acc
        + " .eq(&other."@
        + c.acc
        + ") } }"@
}

/// Writes [`partial_eq_plain`].
pub fn partial_eq_plain_code(e: &Env) -> (r: String)
    ensures
        r@ == partial_eq_plain(e@),
{
    let mut r = String::from_str("impl");
    r.append(e.ig.as_str());
    r.append(" std::cmp::PartialEq for ");
    r.append(e.name.as_str());
    r.append(e.tg.as_str());
    r.append(" ");
    r.append(e.wc.as_str());
    r.append(" { fn eq(&self, other: &Self) -> bool { self.");
    r.append(e.acc.as_str());
    r.append(" .eq(&other.");
    r.append(e.acc.as_str());
    r.append(") } }");
    r
}

/// `PartialEq` by the dereferenced `via` values.
pub open spec fn partial_eq_via(c: Ctx, via: Seq<char>) -> Seq<char> {
    "impl"@
        + c.ig
        + " std::cmp::PartialEq for "@
        + c.name
        + c.tg
        + " "@
        + c.wc
        + " { fn eq(&self, other: &Self) -> bool { let left: &"@
        + via
        + " = &*self; let right: &"@
        + via
        + " = &*other; left.eq(right) } }"@
}

/// Writes [`partial_eq_via`].
pub fn partial_eq_via_code(e: &Env, via: &str) -> (r: String)
    ensures
        r@ == partial_eq_via(e@, via@),
{
    let mut r = String::from_str("impl");
    r.append(e.ig.as_str());
    r.append(" std::cmp::PartialEq for ");
    r.append(e.name.as_str());
    r.append(e.tg.as_str());
    r.append(" ");
    r.append(e.wc.as_str());
    r.append(" { fn eq(&self, other: &Self) -> bool { let left: &");
    r.append(via);
    r.append(" = &*self; let right: &");
    r.append(via);
    r.append(" = &*other; left.eq(right) } }");
    r
}

/// The `Eq` marker.
pub open spec fn eq_marker(c: Ctx) -> Seq<char> {
    "impl"@
        + c.ig
        + " ::core::cmp::Eq for "@
        + c.name
        + c.tg
        + " "@
        + c.wc
        + " {}"@
}

/// Writes [`eq_marker`].
pub fn eq_marker_code(e: &Env) -> (r: String)
    ensures
        r@ == eq_marker(e@),
{
    let mut r = String::from_str("impl");
    r.append(e.ig.as_str());
    r.append(" ::core::cmp::Eq for ");
    r.append(e.name.as_str());
    r.append(e.tg.as_str());
    r.append(" ");
    r.append(e.wc.as_str());
    r.append(" {}");
    r
}

/// `PartialOrd` by the underlying field.
pub open spec fn partial_ord_plain(c: Ctx) -> Seq<char> {
    "impl"@
        + c.ig
        + " PartialOrd for "@
        + c.name
        + c.tg
        + " "@
        + c.wc
        + " { fn partial_cmp(&self, other: &Self) -> Option<::core::cmp::Ordering> { self."@
        + c.acc
        + " .partial_cmp(&other."@
        + c.acc
        + ") } }"@
}

/// Writes [`partial_ord_plain`].
pub fn partial_ord_plain_code(e: &Env) -> (r: String)
    ensures
        r@ == partial_ord_plain(e@),
{
    let mut r = String::from_str("impl");
    r.append(e.ig.as_str());
    r.append(" PartialOrd for ");
    r.append(e.name.as_str());
    r.append(e.tg.as_str());
    r.append(" ");
    r.append(e.wc.as_str());
    r.append(" { fn partial_cmp(&self, other: &Self) -> Option<::core::cmp::Ordering> { self.");
    r.append(e.acc.as_str());
    r.append(" .partial_cmp(&other.");
    r.append(e.acc.as_str());
    r.append(") } }");
    r
}

/// `PartialOrd` by the dereferenced `via` values.
pub open spec fn partial_ord_via(c: Ctx, via: Seq<char>) -> Seq<char> {
    "impl"@
        + c.ig
        + " PartialOrd for "@
        + c.name
        + c.tg
        + " "@
        + c.wc
        + " { fn partial_cmp(&self, other: &Self) -> Option<::core::cmp::Ordering> { let left: &"@
        + via
        + " = self; let right: &"@
        + via
        + " = other; left.partial_cmp(right) } }"@
}

/// Writes [`partial_ord_via`].
pub fn partial_ord_via_code(e: &Env, via: &str) -> (r: String)
    ensures
        r@ == partial_ord_via(e@, via@),
{
    let mut r = String::from_str("impl");
    r.append(e.ig.as_str());
    r.append(" PartialOrd for ");
    r.append(e.name.as_str());
    r.append(e.tg.as_str());
    r.append(" ");
    r.append(e.wc.as_str());
    r.append(" { fn partial_cmp(&self, other: &Self) -> Option<::core::cmp::Ordering> { let left: &");
    r.append(via);
    r.append(" = self; let right: &");
    r.append(via);
    r.append(" = other; left.partial_cmp(right) } }");
    r
}

/// `Ord` by the underlying field.
pub open spec fn ord_plain(c: Ctx) -> Seq<char> {
    "impl"@
        + c.ig
        + " Ord for "@
        + c.name
        + c.tg
        + " "@
        + c.wc
        + " { fn cmp(&self, other: &Self) -> ::core::cmp::Ordering { self."@
        + c.acc
        + " .cmp(&other."@
        + c.acc
        + ") } }"@
}

/// Writes [`ord_plain`].
pub fn ord_plain_code(e: &Env) -> (r: String)
    ensures
        r@ == ord_plain(e@),
{
    let mut r = String::from_str("impl");
    r.append(e.ig.as_str());
    r.append(" Ord for ");
    r.append(e.name.as_str());
    r.append(e.tg.as_str());
    r.append(" ");
    r.append(e.wc.as_str());
    r.append(" { fn cmp(&self, other: &Self) -> ::core::cmp::Ordering { self.");
    r.append(e.acc.as_str());
    r.append(" .cmp(&other.");
    r.append(e.acc.as_str());
    r.append(") } }");
    r
}

/// `Ord` by the dereferenced `via` values.
pub open spec fn ord_via(c: Ctx, via: Seq<char>) -> Seq<char> {
    "impl"@
        + c.ig
        + " Ord for "@
        + c.name
        + c.tg
        + " "@
        + c.wc
        + " { fn cmp(&self, other: &Self) -> ::core::cmp::Ordering { let left: &"@
        + via
        + " = self; let right: &"@
        + via
        + " = other; left.cmp(right) } }"@
}

/// Writes [`ord_via`].
pub fn ord_via_code(e: &Env, via: &str) -> (r: String)
    ensures
        r@ == ord_via(e@, via@),
{
    let mut r = String::from_str("impl");
    r.append(e.ig.as_str());
    r.append(" Ord for ");
    r.append(e.name.as_str());
    r.append(e.tg.as_str());
    r.append(" ");
    r.append(e.wc.as_str());
    r.append(" { fn cmp(&self, other: &Self) -> ::core::cmp::Ordering { let left: &");
    r.append(via);
    r.append(" = self; let right: &");
    r.append(via);
    r.append(" = other; left.cmp(right) } }");
    r
}

/// `TryFrom` the field's type, which cannot fail.
pub open spec fn try_from_plain(c: Ctx) -> Seq<char> {
    "impl"@
        + c.ig
        + " ::core::convert::TryFrom<"@
        + c.ty
        + "> for "@
        + c.name
        + c.tg
        + " "@
        + c.wc
        + " { type Error = ::core::convert::Infallible; fn try_from(__: "@
        + c.ty
        + ") -> ::core::result::Result<Self, Self::Error> { Ok("@
        + c.ctor
        + "(__)) } }"@
}

/// Writes [`try_from_plain`].
pub fn try_from_plain_code(e: &Env) -> (r: String)
    ensures
        r@ == try_from_plain(e@),
{
    let mut r = String::from_str("impl");
    r.append(e.ig.as_str());
    r.append(" ::core::convert::TryFrom<");
    r.append(e.ty.as_str());
    r.append("> for ");
    r.append(e.name.as_str());
    r.append(e.tg.as_str());
    r.append(" ");
    r.append(e.wc.as_str());
    r.append(" { type Error = ::core::convert::Infallible; fn try_from(__: ");
    r.append(e.ty.as_str());
    r.append(") -> ::core::result::Result<Self, Self::Error> { Ok(");
    r.append(e.ctor.as_str());
    r.append("(__)) } }");
    r
}

/// `TryFrom` the field's type, through `via`.
pub open spec fn try_from_via(c: Ctx, via: Seq<char>) -> Seq<char> {
    "impl"@
        + c.ig
        + " ::core::convert::TryFrom<"@
        + c.ty
        + "> for "@
        + c.name
        + c.tg
        + " "@
        + c.wc
        + " { type Error = <"@
        + via
        + " as ::core::convert::TryFrom<"@
        + c.ty
        + ">>::Error; fn try_from(__: "@
        + c.ty
        + ") -> ::core::result::Result<Self, Self::Error> { let intermediate: "@
        + via
        + " = __.try_into()?; Ok(intermediate.into()) } }"@
}

/// Writes [`try_from_via`].
pub fn try_from_via_code(e: &Env, via: &str) -> (r: String)
    ensures
        r@ == try_from_via(e@, via@),
{
    let mut r = String::from_str("impl");
    r.append(e.ig.as_str());
    r.append(" ::core::convert::TryFrom<");
    r.append(e.ty.as_str());
    r.append("> for ");
    r.append(e.name.as_str());
    r.append(e.tg.as_str());
    r.append(" ");
    r.append(e.wc.as_str());
    r.append(" { type Error = <");
    r.append(via);
    r.append(" as ::core::convert::TryFrom<");
    r.append(e.ty.as_str());
    r.append(">>::Error; fn try_from(__: ");
    r.append(e.ty.as_str());
    r.append(") -> ::core::result::Result<Self, Self::Error> { let intermediate: ");
    r.append(via);
    r.append(" = __.try_into()?; Ok(intermediate.into()) } }");
    r
}

/// `FromStr` for a struct around a `String`, which cannot fail.
pub open spec fn from_str_string(c: Ctx) -> Seq<char> {
    "impl"@
        + c.ig
        + " ::core::str::FromStr for "@
        + c.name
        + c.tg
        + " "@
        + c.wc
        + " { type Err = ::core::convert::Infallible; fn from_str(__: &str) -> ::core::result::Result<Self, Self::Err> { Ok("@
        + c.ctor
        + "(__.to_owned())) } }"@
}

/// Writes [`from_str_string`].
pub fn from_str_string_code(e: &Env) -> (r: String)
    ensures
        r@ == from_str_string(e@),
{
    let mut r = String::from_str("impl");
    r.append(e.ig.as_str());
    r.append(" ::core::str::FromStr for ");
    r.append(e.name.as_str());
    r.append(e.tg.as_str());
    r.append(" ");
    r.append(e.wc.as_str());
    r.append(" { type Err = ::core::convert::Infallible; fn from_str(__: &str) -> ::core::result::Result<Self, Self::Err> { Ok(");
    r.append(e.ctor.as_str());
    r.append("(__.to_owned())) } }");
    r
}

/// `FromStr` by parsing the type `x` and converting it.
pub open spec fn from_str_parse(c: Ctx, x: Seq<char>) -> Seq<char> {
    "impl"@
        + c.ig
        + " ::core::str::FromStr for "@
        + c.name
        + c.tg
        + " "@
        + c.wc
        + " { type Err = <"@
        + x
        + " as ::core::str::FromStr>::Err; fn from_str(__: &str) -> ::core::result::Result<Self, Self::Err> { let intermediate: "@
        + x
        + " = __.parse()?; Ok(intermediate.into()) } }"@
}

/// Writes [`from_str_parse`].
pub fn from_str_parse_code(e: &Env, x: &str) -> (r: String)
    ensures
        r@ == from_str_parse(e@, x@),
{
    let mut r = String::from_str("impl");
    r.append(e.ig.as_str());
    r.append(" ::core::str::FromStr for ");
    r.append(e.name.as_str());
    r.append(e.tg.as_str());
    r.append(" ");
    r.append(e.wc.as_str());
    r.append(" { type Err = <");
    r.append(x);
    r.append(" as ::core::str::FromStr>::Err; fn from_str(__: &str) -> ::core::result::Result<Self, Self::Err> { let intermediate: ");
    r.append(x);
    r.append(" = __.parse()?; Ok(intermediate.into()) } }");
    r
}

/// `Hash` by the underlying field.
pub open spec fn hash_plain(c: Ctx) -> Seq<char> {
    "impl"@
        + c.ig
        + " ::core::hash::Hash for "@
        + c.name
        + c.tg
        + " "@
        + c.wc
        + " { fn hash<H: std::hash::Hasher>(&self, state: &mut H) { self."@
        + c.acc
        + " .hash(state); } }"@
}

/// Writes [`hash_plain`].
pub fn hash_plain_code(e: &Env) -> (r: String)
    ensures
        r@ == hash_plain(e@),
{
    let mut r = String::from_str("impl");
    r.append(e.ig.as_str());
    r.append(" ::core::hash::Hash for ");
    r.append(e.name.as_str());
    r.append(e.tg.as_str());
    r.append(" ");
    r.append(e.wc.as_str());
    r.append(" { fn hash<H: std::hash::Hasher>(&self, state: &mut H) { self.");
    r.append(e.acc.as_str());
    r.append(" .hash(state); } }");
    r
}

/// `Hash` by the dereferenced `via` value.
pub open spec fn hash_via(c: Ctx, via: Seq<char>) -> Seq<char> {
    "impl"@
        + c.ig
        + " ::core::hash::Hash for "@
        + c.name
        + c.tg
        + " "@
        + c.wc
        + " { fn hash<H: std::hash::Hasher>(&self, state: &mut H) { let de: &"@
        + via
        + " = self; de.hash(state); } }"@
}

/// Writes [`hash_via`].
pub fn hash_via_code(e: &Env, via: &str) -> (r: String)
    ensures
        r@ == hash_via(e@, via@),
{
    let mut r = String::from_str("impl");
    r.append(e.ig.as_str());
    r.append(" ::core::hash::Hash for ");
    r.append(e.name.as_str());
    r.append(e.tg.as_str());
    r.append(" ");
    r.append(e.wc.as_str());
    r.append(" { fn hash<H: std::hash::Hasher>(&self, state: &mut H) { let de: &");
    r.append(via);
    r.append(" = self; de.hash(state); } }");
    r
}

/// `serde::Serialize` by the underlying field.
pub open spec fn serialize_plain(c: Ctx) -> Seq<char> {
    "impl"@
        + c.ig
        + " serde::Serialize for "@
        + c.name
        + c.tg
        + " "@
        + c.wc
        + " { fn serialize<S: serde::Serializer>(&self, serializer: S) -> Result<S::Ok, S::Error> { self."@
        + c.acc
        + " .serialize(serializer) } }"@
}

/// Writes [`serialize_plain`].
pub fn serialize_plain_code(e: &Env) -> (r: String)
    ensures
        r@ == serialize_plain(e@),
{
    let mut r = String::from_str("impl");
    r.append(e.ig.as_str());
    r.append(" serde::Serialize for ");
    r.append(e.name.as_str());
    r.append(e.tg.as_str());
    r.append(" ");
    r.append(e.wc.as_str());
    r.append(" { fn serialize<S: serde::Serializer>(&self, serializer: S) -> Result<S::Ok, S::Error> { self.");
    r.append(e.acc.as_str());
    r.append(" .serialize(serializer) } }");
    r
}

/// `serde::Serialize` by the dereferenced `via` value.
pub open spec fn serialize_via(c: Ctx, via: Seq<char>) -> Seq<char> {
    "impl"@
        + c.ig
        + " serde::Serialize for "@
        + c.name
        + c.tg
        + " "@
        + c.wc
        + " { fn serialize<S: serde::Serializer>(&self, serializer: S) -> Result<S::Ok, S::Error> { let de: &"@
        + via
        + " = self; de.serialize(serializer) } }"@
}

/// Writes [`serialize_via`].
pub fn serialize_via_code(e: &Env, via: &str) -> (r: String)
    ensures
        r@ == serialize_via(e@, via@),
{
    let mut r = String::from_str("impl");
    r.append(e.ig.as_str());
    r.append(" serde::Serialize for ");
    r.append(e.name.as_str());
    r.append(e.tg.as_str());
    r.append(" ");
    r.append(e.wc.as_str());
    r.append(" { fn serialize<S: serde::Serializer>(&self, serializer: S) -> Result<S::Ok, S::Error> { let de: &");
    r.append(via);
    r.append(" = self; de.serialize(serializer) } }");
    r
}

/// `serde::Deserialize` through the field's type.
pub open spec fn deserialize_plain(c: Ctx) -> Seq<char> {
    "impl<'de, "@
        + c.params
        + "> serde::Deserialize<'de> for "@
        + c.name
        + c.tg
        + " { fn deserialize<D>(deserializer: D) -> Result<Self, D::Error> where D: serde::Deserializer<'de>, "@
        + c.preds
        + " { Ok("@
        + c.ctor
        + "("@
        + c.ty
        + "::deserialize(deserializer)?.into())) } }"@
}

/// Writes [`deserialize_plain`].
pub fn deserialize_plain_code(e: &Env) -> (r: String)
    ensures
        r@ == deserialize_plain(e@),
{
    let mut r = String::from_str("impl<'de, ");
    r.append(e.params.as_str());
    r.append("> serde::Deserialize<'de> for ");
    r.append(e.name.as_str());
    r.append(e.tg.as_str());
    r.append(" { fn deserialize<D>(deserializer: D) -> Result<Self, D::Error> where D: serde::Deserializer<'de>, ");
    r.append(e.preds.as_str());
    r.append(" { Ok(");
    r.append(e.ctor.as_str());
    r.append("(");
    r.append(e.ty.as_str());
    r.append("::deserialize(deserializer)?.into())) } }");
    r
}

/// `serde::Deserialize` through `via`.
pub open spec fn deserialize_via(c: Ctx, via: Seq<char>) -> Seq<char> {
    "impl<'de, "@
        + c.params
        + "> serde::Deserialize<'de> for "@
        + c.name
        + c.tg
        + " { fn deserialize<D>(deserializer: D) -> Result<Self, D::Error> where D: serde::Deserializer<'de>, "@
        + c.preds
        + " { Ok("@
        + via
        + "::deserialize(deserializer)?.into()) } }"@
}

/// Writes [`deserialize_via`].
pub fn deserialize_via_code(e: &Env, via: &str) -> (r: String)
    ensures
        r@ == deserialize_via(e@, via@),
{
    let mut r = String::from_str("impl<'de, ");
    r.append(e.params.as_str());
    r.append("> serde::Deserialize<'de> for ");
    r.append(e.name.as_str());
    r.append(e.tg.as_str());
    r.append(" { fn deserialize<D>(deserializer: D) -> Result<Self, D::Error> where D: serde::Deserializer<'de>, ");
    r.append(e.preds.as_str());
    r.append(" { Ok(");
    r.append(via);
    r.append("::deserialize(deserializer)?.into()) } }");
    r
}

/// `Add` and `Sub` on the underlying field.
pub open spec fn add_plain(c: Ctx) -> Seq<char> {
    "impl"@
        + c.ig
        + " ::core::ops::Add for "@
        + c.name
        + c.tg
        + " "@
        + c.wc
        + " { type Output = Self; fn add(self, other: Self) -> Self { "@
        + c.ctor
        + "((self."@
        + c.acc
        + " + other."@
        + c.acc
        + ").into()) } } impl"@
        + c.ig
        + " ::core::ops::Sub for "@
        + c.name
        + c.tg
        + " "@
        + c.wc
        + " { type Output = Self; fn sub(self, other: Self) -> Self { "@
        + c.ctor
        + "((self."@
        + c.acc
        + " - other."@
        + c.acc
        + ").into()) } }"@
}

/// Writes [`add_plain`].
pub fn add_plain_code(e: &Env) -> (r: String)
    ensures
        r@ == add_plain(e@),
{
    let mut r = String::from_str("impl");
    r.append(e.ig.as_str());
    r.append(" ::core::ops::Add for ");
    r.append(e.name.as_str());
    r.append(e.tg.as_str());
    r.append(" ");
    r.append(e.wc.as_str());
    r.append(" { type Output = Self; fn add(self, other: Self) -> Self { ");
    r.append(e.ctor.as_str());
    r.append("((self.");
    r.append(e.acc.as_str());
    r.append(" + other.");
    r.append(e.acc.as_str());
    r.append(").into()) } } impl");
    r.append(e.ig.as_str());
    r.append(" ::core::ops::Sub for ");
    r.append(e.name.as_str());
    r.append(e.tg.as_str());
    r.append(" ");
    r.append(e.wc.as_str());
    r.append(" { type Output = Self; fn sub(self, other: Self) -> Self { ");
    r.append(e.ctor.as_str());
    r.append("((self.");
    r.append(e.acc.as_str());
    r.append(" - other.");
    r.append(e.acc.as_str());
    r.append(").into()) } }");
    r
}

/// `Add` and `Sub` on the dereferenced `via` values, under the where clauses `w1` and `w2`.
pub open spec fn add_via(c: Ctx, via: Seq<char>, w1: Seq<char>, w2: Seq<char>) -> Seq<char> {
    "impl"@
        + c.ig
        + " ::core::ops::Add for "@
        + c.name
        + c.tg
        + " "@
        + w1
        + " { type Output = Self; fn add(self, other: Self) -> Self { let lhs: &"@
        + via
        + " = &self; let rhs: &"@
        + via
        + " = &other; (lhs.to_owned() + rhs.to_owned()).into() } } impl"@
        + c.ig
        + " ::core::ops::Sub for "@
        + c.name
        + c.tg
        + " "@
        + w2
        + " { type Output = Self; fn sub(self, other: Self) -> Self { let lhs: &"@
        + via
        + " = &self; let rhs: &"@
        + via
        + " = &other; (lhs.to_owned() - rhs.to_owned()).into() } }"@
}

/// Writes [`add_via`].
pub fn add_via_code(e: &Env, via: &str, w1: &str, w2: &str) -> (r: String)
    ensures
        r@ == add_via(e@, via@, w1@, w2@),
{
    let mut r = String::from_str("impl");
    r.append(e.ig.as_str());
    r.append(" ::core::ops::Add for ");
    r.append(e.name.as_str());
    r.append(e.tg.as_str());
    r.append(" ");
    r.append(w1);
    r.append(" { type Output = Self; fn add(self, other: Self) -> Self { let lhs: &");
    r.append(via);
    r.append(" = &self; let rhs: &");
    r.append(via);
    r.append(" = &other; (lhs.to_owned() + rhs.to_owned()).into() } } impl");
    r.append(e.ig.as_str());
    r.append(" ::core::ops::Sub for ");
    r.append(e.name.as_str());
    r.append(e.tg.as_str());
    r.append(" ");
    r.append(w2);
    r.append(" { type Output = Self; fn sub(self, other: Self) -> Self { let lhs: &");
    r.append(via);
    r.append(" = &self; let rhs: &");
    r.append(via);
    r.append(" = &other; (lhs.to_owned() - rhs.to_owned()).into() } }");
    r
}

/// `Mul` and `Div` on the underlying field.
pub open spec fn mul_plain(c: Ctx) -> Seq<char> {
    "impl"@
        + c.ig
        + " ::core::ops::Mul for "@
        + c.name
        + c.tg
        + " "@
        + c.wc
        + " { type Output = Self; fn mul(self, other: Self) -> Self { "@
        + c.ctor
        + "((self."@
        + c.acc
        + " * other."@
        + c.acc
        + ").into()) } } impl"@
        + c.ig
        + " ::core::ops::Div for "@
        + c.name
        + c.tg
        + " "@
        + c.wc
        + " { type Output = Self; fn div(self, other: Self) -> Self { "@
        + c.ctor
        + "((self."@
        + c.acc
        + " / other."@
        + c.acc
        + ").into()) } }"@
}

/// Writes [`mul_plain`].
pub fn mul_plain_code(e: &Env) -> (r: String)
    ensures
        r@ == mul_plain(e@),
{
    let mut r = String::from_str("impl");
    r.append(e.ig.as_str());
    r.append(" ::core::ops::Mul for ");
    r.append(e.name.as_str());
    r.append(e.tg.as_str());
    r.append(" ");
    r.append(e.wc.as_str());
    r.append(" { type Output = Self; fn mul(self, other: Self) -> Self { ");
    r.append(e.ctor.as_str());
    r.append("((self.");
    r.append(e.acc.as_str());
    r.append(" * other.");
    r.append(e.acc.as_str());
    r.append(").into()) } } impl");
    r.append(e.ig.as_str());
    r.append(" ::core::ops::Div for ");
    r.append(e.name.as_str());
    r.append(e.tg.as_str());
    r.append(" ");
    r.append(e.wc.as_str());
    r.append(" { type Output = Self; fn div(self, other: Self) -> Self { ");
    r.append(e.ctor.as_str());
    r.append("((self.");
    r.append(e.acc.as_str());
    r.append(" / other.");
    r.append(e.acc.as_str());
    r.append(").into()) } }");
    r
}

/// `Mul` and `Div` on the dereferenced `via` values, under the where clauses `w1` and `w2`.
pub open spec fn mul_via(c: Ctx, via: Seq<char>, w1: Seq<char>, w2: Seq<char>) -> Seq<char> {
    "impl"@
        + c.ig
        + " ::core::ops::Mul for "@
        + c.name
        + c.tg
        + " "@
        + w1
        + " { type Output = Self; fn mul(self, other: Self) -> Self { let lhs: &"@
        + via
        + " = &self; let rhs: &"@
        + via
        + " = &other; (lhs.to_owned() * rhs.to_owned()).into() } } impl"@
        + c.ig
        + " ::core::ops::Div for "@
        + c.name
        + c.tg
        + " "@
        + w2
        + " { type Output = Self; fn div(self, other: Self) -> Self { let lhs: &"@
        + via
        + " = &self; let rhs: &"@
        + via
        + " = &other; (lhs.to_owned() / rhs.to_owned()).into() } }"@
}

/// Writes [`mul_via`].
pub fn mul_via_code(e: &Env, via: &str, w1: &str, w2: &str) -> (r: String)
    ensures
        r@ == mul_via(e@, via@, w1@, w2@),
{
    let mut r = String::from_str("impl");
    r.append(e.ig.as_str());
    r.append(" ::core::ops::Mul for ");
    r.append(e.name.as_str());
    r.append(e.tg.as_str());
    r.append(" ");
    r.append(w1);
    r.append(" { type Output = Self; fn mul(self, other: Self) -> Self { let lhs: &");
    r.append(via);
    r.append(" = &self; let rhs: &");
    r.append(via);
    r.append(" = &other; (lhs.to_owned() * rhs.to_owned()).into() } } impl");
    r.append(e.ig.as_str());
    r.append(" ::core::ops::Div for ");
    r.append(e.name.as_str());
    r.append(e.tg.as_str());
    r.append(" ");
    r.append(w2);
    r.append(" { type Output = Self; fn div(self, other: Self) -> Self { let lhs: &");
    r.append(via);
    r.append(" = &self; let rhs: &");
    r.append(via);
    r.append(" = &other; (lhs.to_owned() / rhs.to_owned()).into() } }");
    r
}

/// `AsRef<T>` for every `T` the field's type refers to.
pub open spec fn as_ref_plain(c: Ctx) -> Seq<char> {
    "impl<__AsRefT: ?::core::marker::Sized, "@
        + c.params
        + "> ::core::convert::AsRef<__AsRefT> for "@
        + c.name
        + c.tg
        + " where "@
        + c.ty
        + ": ::core::convert::AsRef<__AsRefT>, "@
        + c.preds
        + " { #[inline] fn as_ref(&self) -> &__AsRefT { <"@
        + c.ty
        + " as ::core::convert::AsRef<__AsRefT>>::as_ref(&self."@
        + c.acc
        + ") } }"@
}

/// Writes [`as_ref_plain`].
pub fn as_ref_plain_code(e: &Env) -> (r: String)
    ensures
        r@ == as_ref_plain(e@),
{
    let mut r = String::from_str("impl<__AsRefT: ?::core::marker::Sized, ");
    r.append(e.params.as_str());
    r.append("> ::core::convert::AsRef<__AsRefT> for ");
    r.append(e.name.as_str());
    r.append(e.tg.as_str());
    r.append(" where ");
    r.append(e.ty.as_str());
    r.append(": ::core::convert::AsRef<__AsRefT>, ");
    r.append(e.preds.as_str());
    r.append(" { #[inline] fn as_ref(&self) -> &__AsRefT { <");
    r.append(e.ty.as_str());
    r.append(" as ::core::convert::AsRef<__AsRefT>>::as_ref(&self.");
    r.append(e.acc.as_str());
    r.append(") } }");
    r
}

/// `AsRef<via>`.
pub open spec fn as_ref_via(c: Ctx, via: Seq<char>) -> Seq<char> {
    "impl"@
        + c.ig
        + " ::core::convert::AsRef<"@
        + via
        + "> for "@
        + c.name
        + c.tg
        + " "@
        + c.wc
        + " { #[inline] fn as_ref(&self) -> &"@
        + via
        + " { &self."@
        + c.acc
        + " } }"@
}

/// Writes [`as_ref_via`].
pub fn as_ref_via_code(e: &Env, via: &str) -> (r: String)
    ensures
        r@ == as_ref_via(e@, via@),
{
    let mut r = String::from_str("impl");
    r.append(e.ig.as_str());
    r.append(" ::core::convert::AsRef<");
    r.append(via);
    r.append("> for ");
    r.append(e.name.as_str());
    r.append(e.tg.as_str());
    r.append(" ");
    r.append(e.wc.as_str());
    r.append(" { #[inline] fn as_ref(&self) -> &");
    r.append(via);
    r.append(" { &self.");
    r.append(e.acc.as_str());
    r.append(" } }");
    r
}

/// `FromIterator<via>`, collecting into the field.
pub open spec fn from_iterator_via(c: Ctx, via: Seq<char>) -> Seq<char> {
    "impl"@
        + c.ig
        + " ::core::iter::FromIterator<"@
        + via
        + "> for "@
        + c.name
        + c.tg
        + " "@
        + c.wc
        + " { fn from_iter<I: ::core::iter::IntoIterator<Item="@
        + via
        + ">>(iter: I) -> Self { "@
        + c.ctor
        + "(iter.into_iter().collect()) } }"@
}

/// Writes [`from_iterator_via`].
pub fn from_iterator_via_code(e: &Env, via: &str) -> (r: String)
    ensures
        r@ == from_iterator_via(e@, via@),
{
    let mut r = String::from_str("impl");
    r.append(e.ig.as_str());
    r.append(" ::core::iter::FromIterator<");
    r.append(via);
    r.append("> for ");
    r.append(e.name.as_str());
    r.append(e.tg.as_str());
    r.append(" ");
    r.append(e.wc.as_str());
    r.append(" { fn from_iter<I: ::core::iter::IntoIterator<Item=");
    r.append(via);
    r.append(">>(iter: I) -> Self { ");
    r.append(e.ctor.as_str());
    r.append("(iter.into_iter().collect()) } }");
    r
}

/// `Index` by whatever indexes the field's type.
pub open spec fn index_plain(c: Ctx) -> Seq<char> {
    "impl<__IdxT, "@
        + c.params
        + "> ::core::ops::Index<__IdxT> for "@
        + c.name
        + c.tg
        + " where "@
        + c.ty
        + ": ::core::ops::Index<__IdxT>, "@
        + c.preds
        + " { type Output = <"@
        + c.ty
        + " as ::core::ops::Index<__IdxT>>::Output; #[inline] fn index(&self, idx: __IdxT) -> &Self::Output { <"@
        + c.ty
        + " as ::core::ops::Index<__IdxT>>::index(&self."@
        + c.acc
        + ", idx) } }"@
}

/// Writes [`index_plain`].
pub fn index_plain_code(e: &Env) -> (r: String)
    ensures
        r@ == index_plain(e@),
{
    let mut r = String::from_str("impl<__IdxT, ");
    r.append(e.params.as_str());
    r.append("> ::core::ops::Index<__IdxT> for ");
    r.append(e.name.as_str());
    r.append(e.tg.as_str());
    r.append(" where ");
    r.append(e.ty.as_str());
    r.append(": ::core::ops::Index<__IdxT>, ");
    r.append(e.preds.as_str());
    r.append(" { type Output = <");
    r.append(e.ty.as_str());
    r.append(" as ::core::ops::Index<__IdxT>>::Output; #[inline] fn index(&self, idx: __IdxT) -> &Self::Output { <");
    r.append(e.ty.as_str());
    r.append(" as ::core::ops::Index<__IdxT>>::index(&self.");
    r.append(e.acc.as_str());
    r.append(", idx) } }");
    r
}

/// `Index` by whatever indexes `via`.
pub open spec fn index_via(c: Ctx, via: Seq<char>) -> Seq<char> {
    "impl<__IdxT, "@
        + c.params
        + "> ::core::ops::Index<__IdxT> for "@
        + c.name
        + c.tg
        + " where "@
        + via
        + ": ::core::ops::Index<__IdxT>, "@
        + c.preds
        + " { type Output = <"@
        + via
        + " as ::core::ops::Index<__IdxT>>::Output; #[inline] fn index(&self, idx: __IdxT) -> &Self::Output { <"@
        + via
        + " as ::core::ops::Index<__IdxT>>::index(self, idx) } }"@
}

/// Writes [`index_via`].
pub fn index_via_code(e: &Env, via: &str) -> (r: String)
    ensures
        r@ == index_via(e@, via@),
{
    let mut r = String::from_str("impl<__IdxT, ");
    r.append(e.params.as_str());
    r.append("> ::core::ops::Index<__IdxT> for ");
    r.append(e.name.as_str());
    r.append(e.tg.as_str());
    r.append(" where ");
    r.append(via);
    r.append(": ::core::ops::Index<__IdxT>, ");
    r.append(e.preds.as_str());
    r.append(" { type Output = <");
    r.append(via);
    r.append(" as ::core::ops::Index<__IdxT>>::Output; #[inline] fn index(&self, idx: __IdxT) -> &Self::Output { <");
    r.append(via);
    r.append(" as ::core::ops::Index<__IdxT>>::index(self, idx) } }");
    r
}

/// `AsMut<T>` for every `T` the field's type refers to.
pub open spec fn as_mut_plain(c: Ctx) -> Seq<char> {
    "impl<__AsMutT: ?::core::marker::Sized, "@
        + c.params
        + "> ::core::convert::AsMut<__AsMutT> for "@
        + c.name
        + c.tg
        + " where "@
        + c.ty
        + ": ::core::convert::AsMut<__AsMutT>, "@
        + c.preds
        + " { #[inline] fn as_mut(&mut self) -> &mut __AsMutT { <"@
        + c.ty
        + " as ::core::convert::AsMut<__AsMutT>>::as_mut(&mut self."@
        + c.acc
        + ") } }"@
}

/// Writes [`as_mut_plain`].
pub fn as_mut_plain_code(e: &Env) -> (r: String)
    ensures
        r@ == as_mut_plain(e@),
{
    let mut r = String::from_str("impl<__AsMutT: ?::core::marker::Sized, ");
    r.append(e.params.as_str());
    r.append("> ::core::convert::AsMut<__AsMutT> for ");
    r.append(e.name.as_str());
    r.append(e.tg.as_str());
    r.append(" where ");
    r.append(e.ty.as_str());
    r.append(": ::core::convert::AsMut<__AsMutT>, ");
    r.append(e.preds.as_str());
    r.append(" { #[inline] fn as_mut(&mut self) -> &mut __AsMutT { <");
    r.append(e.ty.as_str());
    r.append(" as ::core::convert::AsMut<__AsMutT>>::as_mut(&mut self.");
    r.append(e.acc.as_str());
    r.append(") } }");
    r
}

/// `AsMut<T>` for every `T` that `via` refers to.
pub open spec fn as_mut_via(c: Ctx, via: Seq<char>) -> Seq<char> {
    "impl<__AsMutT: ?::core::marker::Sized, "@
        + c.params
        + "> ::core::convert::AsMut<__AsMutT> for "@
        + c.name
        + c.tg
        + " where "@
        + via
        + ": ::core::convert::AsMut<__AsMutT>, "@
        + c.preds
        + " { #[inline] fn as_mut(&mut self) -> &mut __AsMutT { <"@
        + via
        + " as ::core::convert::AsMut<__AsMutT>>::as_mut(&mut self."@
        + c.acc
        + ") } }"@
}

/// Writes [`as_mut_via`].
pub fn as_mut_via_code(e: &Env, via: &str) -> (r: String)
    ensures
        r@ == as_mut_via(e@, via@),
{
    let mut r = String::from_str("impl<__AsMutT: ?::core::marker::Sized, ");
    r.append(e.params.as_str());
    r.append("> ::core::convert::AsMut<__AsMutT> for ");
    r.append(e.name.as_str());
    r.append(e.tg.as_str());
    r.append(" where ");
    r.append(via);
    r.append(": ::core::convert::AsMut<__AsMutT>, ");
    r.append(e.preds.as_str());
    r.append(" { #[inline] fn as_mut(&mut self) -> &mut __AsMutT { <");
    r.append(via);
    r.append(" as ::core::convert::AsMut<__AsMutT>>::as_mut(&mut self.");
    r.append(e.acc.as_str());
    r.append(") } }");
    r
}

/// `IndexMut` by whatever indexes the field's type.
pub open spec fn index_mut_plain(c: Ctx) -> Seq<char> {
    "impl<__IdxT, "@
        + c.params
        + "> ::core::ops::IndexMut<__IdxT> for "@
        + c.name
        + c.tg
        + " where "@
        + c.ty
        + ": ::core::ops::IndexMut<__IdxT>, "@
        + c.preds
        + " { #[inline] fn index_mut(&mut self, idx: __IdxT) -> &mut Self::Output { <"@
        + c.ty
        + " as ::core::ops::IndexMut<__IdxT>>::index_mut(&mut self."@
        + c.acc
        + ", idx) } }"@
}

/// Writes [`index_mut_plain`].
pub fn index_mut_plain_code(e: &Env) -> (r: String)
    ensures
        r@ == index_mut_plain(e@),
{
    let mut r = String::from_str("impl<__IdxT, ");
    r.append(e.params.as_str());
    r.append("> ::core::ops::IndexMut<__IdxT> for ");
    r.append(e.name.as_str());
    r.append(e.tg.as_str());
    r.append(" where ");
    r.append(e.ty.as_str());
    r.append(": ::core::ops::IndexMut<__IdxT>, ");
    r.append(e.preds.as_str());
    r.append(" { #[inline] fn index_mut(&mut self, idx: __IdxT) -> &mut Self::Output { <");
    r.append(e.ty.as_str());
    r.append(" as ::core::ops::IndexMut<__IdxT>>::index_mut(&mut self.");
    r.append(e.acc.as_str());
    r.append(", idx) } }");
    r
}

/// `IndexMut` by whatever indexes `via`.
pub open spec fn index_mut_via(c: Ctx, via: Seq<char>) -> Seq<char> {
    "impl<__IdxT, "@
        + c.params
        + "> ::core::ops::IndexMut<__IdxT> for "@
        + c.name
        + c.tg
        + " where "@
        + via
        + ": ::core::ops::IndexMut<__IdxT>, "@
        + c.preds
        + " { #[inline] fn index_mut(&mut self, idx: __IdxT) -> &mut Self::Output { let mut de: &mut "@
        + via
        + " = &mut self; <"@
        + via
        + " as ::core::ops::IndexMut<__IdxT>>::index_mut(&mut de, idx) } }"@
}

/// Writes [`index_mut_via`].
pub fn index_mut_via_code(e: &Env, via: &str) -> (r: String)
    ensures
        r@ == index_mut_via(e@, via@),
{
    let mut r = String::from_str("impl<__IdxT, ");
    r.append(e.params.as_str());
    r.append("> ::core::ops::IndexMut<__IdxT> for ");
    r.append(e.name.as_str());
    r.append(e.tg.as_str());
    r.append(" where ");
    r.append(via);
    r.append(": ::core::ops::IndexMut<__IdxT>, ");
    r.append(e.preds.as_str());
    r.append(" { #[inline] fn index_mut(&mut self, idx: __IdxT) -> &mut Self::Output { let mut de: &mut ");
    r.append(via);
    r.append(" = &mut self; <");
    r.append(via);
    r.append(" as ::core::ops::IndexMut<__IdxT>>::index_mut(&mut de, idx) } }");
    r
}

/// `IntoIterator` for the struct and for references to it, through the field.
pub open spec fn into_iterator_plain(c: Ctx) -> Seq<char> {
    "impl"@
        + c.ig
        + " ::core::iter::IntoIterator for "@
        + c.name
        + c.tg
        + " "@
        + c.wc
        + " { type Item = <"@
        + c.ty
        + " as ::core::iter::IntoIterator>::Item; type IntoIter = <"@
        + c.ty
        + " as ::core::iter::IntoIterator>::IntoIter; #[inline] fn into_iter(self) -> Self::IntoIter { <"@
        + c.ty
        + " as ::core::iter::IntoIterator>::into_iter(self."@
        + c.acc
        + ") } } impl<'__derivingViaLifetime, "@
        + c.params
        + "> ::core::iter::IntoIterator for &'__derivingViaLifetime "@
        + c.name
        + c.tg
        + " "@
        + c.wc
        + " { type Item = <&'__derivingViaLifetime "@
        + c.ty
        + " as ::core::iter::IntoIterator>::Item; type IntoIter = <&'__derivingViaLifetime "@
        + c.ty
        + " as ::core::iter::IntoIterator>::IntoIter; #[inline] fn into_iter(self) -> Self::IntoIter { <&'__derivingViaLifetime "@
        + c.ty
        + " as ::core::iter::IntoIterator>::into_iter(&self."@
        + c.acc
        + ") } } impl<'__derivingViaLifetime, "@
        + c.params
        + "> ::core::iter::IntoIterator for &'__derivingViaLifetime mut "@
        + c.name
        + c.tg
        + " "@
        + c.wc
        + " { type Item = <&'__derivingViaLifetime mut "@
        + c.ty
        + " as ::core::iter::IntoIterator>::Item; type IntoIter = <&'__derivingViaLifetime mut "@
        + c.ty
        + " as ::core::iter::IntoIterator>::IntoIter; #[inline] fn into_iter(self) -> Self::IntoIter { <&'__derivingViaLifetime mut "@
        + c.ty
        + " as ::core::iter::IntoIterator>::into_iter(&mut self."@
        + c.acc
        + ") } }"@
}

/// Writes [`into_iterator_plain`].
pub fn into_iterator_plain_code(e: &Env) -> (r: String)
    ensures
        r@ == into_iterator_plain(e@),
{
    let mut r = String::from_str("impl");
    r.append(e.ig.as_str());
    r.append(" ::core::iter::IntoIterator for ");
    r.append(e.name.as_str());
    r.append(e.tg.as_str());
    r.append(" ");
    r.append(e.wc.as_str());
    r.append(" { type Item = <");
    r.append(e.ty.as_str());
    r.append(" as ::core::iter::IntoIterator>::Item; type IntoIter = <");
    r.append(e.ty.as_str());
    r.append(" as ::core::iter::IntoIterator>::IntoIter; #[inline] fn into_iter(self) -> Self::IntoIter { <");
    r.append(e.ty.as_str());
    r.append(" as ::core::iter::IntoIterator>::into_iter(self.");
    r.append(e.acc.as_str());
    r.append(") } } impl<'__derivingViaLifetime, ");
    r.append(e.params.as_str());
    r.append("> ::core::iter::IntoIterator for &'__derivingViaLifetime ");
    r.append(e.name.as_str());
    r.append(e.tg.as_str());
    r.append(" ");
    r.append(e.wc.as_str());
    r.append(" { type Item = <&'__derivingViaLifetime ");
    r.append(e.ty.as_str());
    r.append(" as ::core::iter::IntoIterator>::Item; type IntoIter = <&'__derivingViaLifetime ");
    r.append(e.ty.as_str());
    r.append(" as ::core::iter::IntoIterator>::IntoIter; #[inline] fn into_iter(self) -> Self::IntoIter { <&'__derivingViaLifetime ");
    r.append(e.ty.as_str());
    r.append(" as ::core::iter::IntoIterator>::into_iter(&self.");
    r.append(e.acc.as_str());
    r.append(") } } impl<'__derivingViaLifetime, ");
    r.append(e.params.as_str());
    r.append("> ::core::iter::IntoIterator for &'__derivingViaLifetime mut ");
    r.append(e.name.as_str());
    r.append(e.tg.as_str());
    r.append(" ");
    r.append(e.wc.as_str());
    r.append(" { type Item = <&'__derivingViaLifetime mut ");
    r.append(e.ty.as_str());
    r.append(" as ::core::iter::IntoIterator>::Item; type IntoIter = <&'__derivingViaLifetime mut ");
    r.append(e.ty.as_str());
    r.append(" as ::core::iter::IntoIterator>::IntoIter; #[inline] fn into_iter(self) -> Self::IntoIter { <&'__derivingViaLifetime mut ");
    r.append(e.ty.as_str());
    r.append(" as ::core::iter::IntoIterator>::into_iter(&mut self.");
    r.append(e.acc.as_str());
    r.append(") } }");
    r
}

/// An inherent `iter` over the items of the collection type `x` held in the field.
pub open spec fn iter_method(c: Ctx, x: Seq<char>) -> Seq<char> {
    "impl"@
        + c.ig
        + " "@
        + c.name
        + c.tg
        + " "@
        + c.wc
        + " { fn iter(&self) -> ::core::slice::Iter<'_, <"@
        + x
        + " as IntoIterator>::Item> { let slice: &[<"@
        + x
        + " as IntoIterator>::Item] = &self."@
        + c.acc
        + "; slice.iter() } }"@
}

/// Writes [`iter_method`].
pub fn iter_method_code(e: &Env, x: &str) -> (r: String)
    ensures
        r@ == iter_method(e@, x@),
{
    let mut r = String::from_str("impl");
    r.append(e.ig.as_str());
    r.append(" ");
    r.append(e.name.as_str());
    r.append(e.tg.as_str());
    r.append(" ");
    r.append(e.wc.as_str());
    r.append(" { fn iter(&self) -> ::core::slice::Iter<'_, <");
    r.append(x);
    r.append(" as IntoIterator>::Item> { let slice: &[<");
    r.append(x);
    r.append(" as IntoIterator>::Item] = &self.");
    r.append(e.acc.as_str());
    r.append("; slice.iter() } }");
    r
}

/// `AddAssign` and `SubAssign` on the underlying field.
pub open spec fn add_assign_plain(c: Ctx) -> Seq<char> {
    "impl"@
        + c.ig
        + " ::core::ops::AddAssign for "@
        + c.name
        + c.tg
        + " "@
        + c.wc
        + " { fn add_assign(&mut self, rhs: Self) { self."@
        + c.acc
        + " .add_assign(rhs."@
        + c.acc
        + "); } } impl"@
        + c.ig
        + " ::core::ops::SubAssign for "@
        + c.name
        + c.tg
        + " "@
        + c.wc
        + " { fn sub_assign(&mut self, rhs: Self) { self."@
        + c.acc
        + " .sub_assign(rhs."@
        + c.acc
        + "); } }"@
}

/// Writes [`add_assign_plain`].
pub fn add_assign_plain_code(e: &Env) -> (r: String)
    ensures
        r@ == add_assign_plain(e@),
{
    let mut r = String::from_str("impl");
    r.append(e.ig.as_str());
    r.append(" ::core::ops::AddAssign for ");
    r.append(e.name.as_str());
    r.append(e.tg.as_str());
    r.append(" ");
    r.append(e.wc.as_str());
    r.append(" { fn add_assign(&mut self, rhs: Self) { self.");
    r.append(e.acc.as_str());
    r.append(" .add_assign(rhs.");
    r.append(e.acc.as_str());
    r.append("); } } impl");
    r.append(e.ig.as_str());
    r.append(" ::core::ops::SubAssign for ");
    r.append(e.name.as_str());
    r.append(e.tg.as_str());
    r.append(" ");
    r.append(e.wc.as_str());
    r.append(" { fn sub_assign(&mut self, rhs: Self) { self.");
    r.append(e.acc.as_str());
    r.append(" .sub_assign(rhs.");
    r.append(e.acc.as_str());
    r.append("); } }");
    r
}

/// `AddAssign` and `SubAssign` through `via`, under the where clauses `w1` and `w2`.
pub open spec fn add_assign_via(c: Ctx, via: Seq<char>, w1: Seq<char>, w2: Seq<char>) -> Seq<char> {
    "impl"@
        + c.ig
        + " ::core::ops::AddAssign for "@
        + c.name
        + c.tg
        + " "@
        + w1
        + " { fn add_assign(&mut self, rhs: Self) { let lhs: &mut "@
        + via
        + " = self; let rhs: &"@
        + via
        + " = &rhs; lhs.add_assign(rhs.to_owned()); } } impl"@
        + c.ig
        + " ::core::ops::SubAssign for "@
        + c.name
        + c.tg
        + " "@
        + w2
        + " { fn sub_assign(&mut self, rhs: Self) { let lhs: &mut "@
        + via
        + " = self; let rhs: &"@
        + via
        + " = &rhs; lhs.sub_assign(rhs.to_owned()); } }"@
}

/// Writes [`add_assign_via`].
pub fn add_assign_via_code(e: &Env, via: &str, w1: &str, w2: &str) -> (r: String)
    ensures
        r@ == add_assign_via(e@, via@, w1@, w2@),
{
    let mut r = String::from_str("impl");
    r.append(e.ig.as_str());
    r.append(" ::core::ops::AddAssign for ");
    r.append(e.name.as_str());
    r.append(e.tg.as_str());
    r.append(" ");
    r.append(w1);
    r.append(" { fn add_assign(&mut self, rhs: Self) { let lhs: &mut ");
    r.append(via);
    r.append(" = self; let rhs: &");
    r.append(via);
    r.append(" = &rhs; lhs.add_assign(rhs.to_owned()); } } impl");
    r.append(e.ig.as_str());
    r.append(" ::core::ops::SubAssign for ");
    r.append(e.name.as_str());
    r.append(e.tg.as_str());
    r.append(" ");
    r.append(w2);
    r.append(" { fn sub_assign(&mut self, rhs: Self) { let lhs: &mut ");
    r.append(via);
    r.append(" = self; let rhs: &");
    r.append(via);
    r.append(" = &rhs; lhs.sub_assign(rhs.to_owned()); } }");
    r
}

/// `MulAssign` and `DivAssign` on the underlying field.
pub open spec fn mul_assign_plain(c: Ctx) -> Seq<char> {
    "impl"@
        + c.ig
        + " ::core::ops::MulAssign for "@
        + c.name
        + c.tg
        + " "@
        + c.wc
        + " { fn mul_assign(&mut self, rhs: Self) { self."@
        + c.acc
        + " .mul_assign(rhs."@
        + c.acc
        + "); } } impl"@
        + c.ig
        + " ::core::ops::DivAssign for "@
        + c.name
        + c.tg
        + " "@
        + c.wc
        + " { fn div_assign(&mut self, rhs: Self) { self."@
        + c.acc
        + " .div_assign(rhs."@
        + c.acc
        + "); } }"@
}

/// Writes [`mul_assign_plain`].
pub fn mul_assign_plain_code(e: &Env) -> (r: String)
    ensures
        r@ == mul_assign_plain(e@),
{
    let mut r = String::from_str("impl");
    r.append(e.ig.as_str());
    r.append(" ::core::ops::MulAssign for ");
    r.append(e.name.as_str());
    r.append(e.tg.as_str());
    r.append(" ");
    r.append(e.wc.as_str());
    r.append(" { fn mul_assign(&mut self, rhs: Self) { self.");
    r.append(e.acc.as_str());
    r.append(" .mul_assign(rhs.");
    r.append(e.acc.as_str());
    r.append("); } } impl");
    r.append(e.ig.as_str());
    r.append(" ::core::ops::DivAssign for ");
    r.append(e.name.as_str());
    r.append(e.tg.as_str());
    r.append(" ");
    r.append(e.wc.as_str());
    r.append(" { fn div_assign(&mut self, rhs: Self) { self.");
    r.append(e.acc.as_str());
    r.append(" .div_assign(rhs.");
    r.append(e.acc.as_str());
    r.append("); } }");
    r
}

/// `MulAssign` and `DivAssign` through `via`, under the where clauses `w1` and `w2`.
pub open spec fn mul_assign_via(c: Ctx, via: Seq<char>, w1: Seq<char>, w2: Seq<char>) -> Seq<char> {
    "impl"@
        + c.ig
        + " ::core::ops::MulAssign for "@
        + c.name
        + c.tg
        + " "@
        + w1
        + " { fn mul_assign(&mut self, rhs: Self) { let lhs: &mut "@
        + via
        + " = self; let rhs: &"@
        + via
        + " = &rhs; lhs.mul_assign(rhs.to_owned()); } } impl"@
        + c.ig
        + " ::core::ops::DivAssign for "@
        + c.name
        + c.tg
        + " "@
        + w2
        + " { fn div_assign(&mut self, rhs: Self) { let lhs: &mut "@
        + via
        + " = self; let rhs: &"@
        + via
        + " = &rhs; lhs.div_assign(rhs.to_owned()); } }"@
}

/// Writes [`mul_assign_via`].
pub fn mul_assign_via_code(e: &Env, via: &str, w1: &str, w2: &str) -> (r: String)
    ensures
        r@ == mul_assign_via(e@, via@, w1@, w2@),
{
    let mut r = String::from_str("impl");
    r.append(e.ig.as_str());
    r.append(" ::core::ops::MulAssign for ");
    r.append(e.name.as_str());
    r.append(e.tg.as_str());
    r.append(" ");
    r.append(w1);
    r.append(" { fn mul_assign(&mut self, rhs: Self) { let lhs: &mut ");
    r.append(via);
    r.append(" = self; let rhs: &");
    r.append(via);
    r.append(" = &rhs; lhs.mul_assign(rhs.to_owned()); } } impl");
    r.append(e.ig.as_str());
    r.append(" ::core::ops::DivAssign for ");
    r.append(e.name.as_str());
    r.append(e.tg.as_str());
    r.append(" ");
    r.append(w2);
    r.append(" { fn div_assign(&mut self, rhs: Self) { let lhs: &mut ");
    r.append(via);
    r.append(" = self; let rhs: &");
    r.append(via);
    r.append(" = &rhs; lhs.div_assign(rhs.to_owned()); } }");
    r
}

/// `Default` from the field type's default.
pub open spec fn default_plain(c: Ctx) -> Seq<char> {
    "impl"@
        + c.ig
        + " ::core::default::Default for "@
        + c.name
        + c.tg
        + " { fn default() -> Self "@
        + c.wc
        + " { "@
        + c.ctor
        + "("@
        + c.ty
        + "::default().into()) } }"@
}

/// Writes [`default_plain`].
pub fn default_plain_code(e: &Env) -> (r: String)
    ensures
        r@ == default_plain(e@),
{
    let mut r = String::from_str("impl");
    r.append(e.ig.as_str());
    r.append(" ::core::default::Default for ");
    r.append(e.name.as_str());
    r.append(e.tg.as_str());
    r.append(" { fn default() -> Self ");
    r.append(e.wc.as_str());
    r.append(" { ");
    r.append(e.ctor.as_str());
    r.append("(");
    r.append(e.ty.as_str());
    r.append("::default().into()) } }");
    r
}

/// `Default` from the default of `via`.
pub open spec fn default_via(c: Ctx, via: Seq<char>) -> Seq<char> {
    "impl"@
        + c.ig
        + " ::core::default::Default for "@
        + c.name
        + c.tg
        + " { fn default() -> Self "@
        + c.wc
        + " { "@
        + c.ctor
        + "("@
        + via
        + "::default().into()) } }"@
}

/// Writes [`default_via`].
pub fn default_via_code(e: &Env, via: &str) -> (r: String)
    ensures
        r@ == default_via(e@, via@),
{
    let mut r = String::from_str("impl");
    r.append(e.ig.as_str());
    r.append(" ::core::default::Default for ");
    r.append(e.name.as_str());
    r.append(e.tg.as_str());
    r.append(" { fn default() -> Self ");
    r.append(e.wc.as_str());
    r.append(" { ");
    r.append(e.ctor.as_str());
    r.append("(");
    r.append(via);
    r.append("::default().into()) } }");
    r
}

/// An inherent `into_inner` that returns an owned copy of the field as the type `x`.
pub open spec fn into_inner_method(c: Ctx, x: Seq<char>) -> Seq<char> {
    "impl"@
        + c.ig
        + " "@
        + c.name
        + c.tg
        + " "@
        + c.wc
        + " { fn into_inner(self) -> "@
        + x
        + " where "@
        + x
        + ": ::core::fmt::Debug { let inner: &"@
        + x
        + " = &self."@
        + c.acc
        + "; inner.to_owned() } }"@
}

/// Writes [`into_inner_method`].
pub fn into_inner_method_code(e: &Env, x: &str) -> (r: String)
    ensures
        r@ == into_inner_method(e@, x@),
{
    let mut r = String::from_str("impl");
    r.append(e.ig.as_str());
    r.append(" ");
    r.append(e.name.as_str());
    r.append(e.tg.as_str());
    r.append(" ");
    r.append(e.wc.as_str());
    r.append(" { fn into_inner(self) -> ");
    r.append(x);
    r.append(" where ");
    r.append(x);
    r.append(": ::core::fmt::Debug { let inner: &");
    r.append(x);
    r.append(" = &self.");
    r.append(e.acc.as_str());
    r.append("; inner.to_owned() } }");
    r
}

/// `Debug` that writes the underlying field with the format string literal `fmt`.
pub open spec fn debug_with_format(c: Ctx, fmt: Seq<char>) -> Seq<char> {
    "impl"@
        + c.ig
        + " ::core::fmt::Debug for "@
        + c.name
        + c.tg
        + " "@
        + c.wc
        + " { fn fmt(&self, f: &mut ::core::fmt::Formatter<'_>) -> ::core::fmt::Result { let field = &self."@
        + c.acc
        + "; write!(f, "@
        + fmt
        + ", field) } }"@
}

/// Writes [`debug_with_format`].
pub fn debug_with_format_code(e: &Env, fmt: &str) -> (r: String)
    ensures
        r@ == debug_with_format(e@, fmt@),
{
    let mut r = String::from_str("impl");
    r.append(e.ig.as_str());
    r.append(" ::core::fmt::Debug for ");
    r.append(e.name.as_str());
    r.append(e.tg.as_str());
    r.append(" ");
    r.append(e.wc.as_str());
    r.append(" { fn fmt(&self, f: &mut ::core::fmt::Formatter<'_>) -> ::core::fmt::Result { let field = &self.");
    r.append(e.acc.as_str());
    r.append("; write!(f, ");
    r.append(fmt);
    r.append(", field) } }");
    r
}

/// `Deref` to the underlying field.
pub open spec fn deref_impl(c: Ctx) -> Seq<char> {
    "impl"@
        + c.ig
        + " ::core::ops::Deref for "@
        + c.name
        + c.tg
        + " "@
        + c.wc
        + " { type Target = "@
        + c.ty
        + "; fn deref(&self) -> &Self::Target { &self."@
        + c.acc
        + " } }"@
}

/// Writes [`deref_impl`].
pub fn deref_impl_code(e: &Env) -> (r: String)
    ensures
        r@ == deref_impl(e@),
{
    let mut r = String::from_str("impl");
    r.append(e.ig.as_str());
    r.append(" ::core::ops::Deref for ");
    r.append(e.name.as_str());
    r.append(e.tg.as_str());
    r.append(" ");
    r.append(e.wc.as_str());
    r.append(" { type Target = ");
    r.append(e.ty.as_str());
    r.append("; fn deref(&self) -> &Self::Target { &self.");
    r.append(e.acc.as_str());
    r.append(" } }");
    r
}

/// `DerefMut` to the underlying field.
pub open spec fn deref_mut_impl(c: Ctx) -> Seq<char> {
    "impl"@
        + c.ig
        + " ::core::ops::DerefMut for "@
        + c.name
        + c.tg
        + " "@
        + c.wc
        + " { #[inline] fn deref_mut(&mut self) -> &mut Self::Target { &mut self."@
        + c.acc
        + " } }"@
}

/// Writes [`deref_mut_impl`].
pub fn deref_mut_impl_code(e: &Env) -> (r: String)
    ensures
        r@ == deref_mut_impl(e@),
{
    let mut r = String::from_str("impl");
    r.append(e.ig.as_str());
    r.append(" ::core::ops::DerefMut for ");
    r.append(e.name.as_str());
    r.append(e.tg.as_str());
    r.append(" ");
    r.append(e.wc.as_str());
    r.append(" { #[inline] fn deref_mut(&mut self) -> &mut Self::Target { &mut self.");
    r.append(e.acc.as_str());
    r.append(" } }");
    r
}

} // verus!
