//! The traits that `#[deriving(..)]` can produce, and their names.
//!
//! No two names share their length, first and last character, so a name is
//! looked up by those three and then compared once.

use vstd::prelude::*;
use vstd::string::*;
use crate::text::str_is;

verus! {

/// A trait (or a group of traits, or an inherent method) that
/// `#[deriving(..)]` can generate.
#[derive(Clone, Copy, PartialEq, Eq, Structural, Debug)]
pub enum DeriveKind {
    Add,
    AddAssign,
    Arithmetic,
    AsMut,
    AsRef,
    Default,
    Deserialize,
    Display,
    Eq,
    From,
    FromIterator,
    FromStr,
    Hash,
    Index,
    IndexMut,
    Into,
    IntoInner,
    IntoIterator,
    Iter,
    Mul,
    MulAssign,
    Ord,
    PartialEq,
    PartialOrd,
    Serialize,
    TryFrom,
}

/// The name by which a derive is requested.
pub open spec fn kind_name(k: DeriveKind) -> Seq<char> {
    match k {
        DeriveKind::Add => "Add"@,
        DeriveKind::AddAssign => "AddAssign"@,
        DeriveKind::Arithmetic => "Arithmetic"@,
        DeriveKind::AsMut => "AsMut"@,
        DeriveKind::AsRef => "AsRef"@,
        DeriveKind::Default => "Default"@,
        DeriveKind::Deserialize => "Deserialize"@,
        DeriveKind::Display => "Display"@,
        DeriveKind::Eq => "Eq"@,
        DeriveKind::From => "From"@,
        DeriveKind::FromIterator => "FromIterator"@,
        DeriveKind::FromStr => "FromStr"@,
        DeriveKind::Hash => "Hash"@,
        DeriveKind::Index => "Index"@,
        DeriveKind::IndexMut => "IndexMut"@,
        DeriveKind::Into => "Into"@,
        DeriveKind::IntoInner => "IntoInner"@,
        DeriveKind::IntoIterator => "IntoIterator"@,
        DeriveKind::Iter => "Iter"@,
        DeriveKind::Mul => "Mul"@,
        DeriveKind::MulAssign => "MulAssign"@,
        DeriveKind::Ord => "Ord"@,
        DeriveKind::PartialEq => "PartialEq"@,
        DeriveKind::PartialOrd => "PartialOrd"@,
        DeriveKind::Serialize => "Serialize"@,
        DeriveKind::TryFrom => "TryFrom"@,
    }
}

/// The derive whose name has length `len` and begins and ends with `first`
/// and `last`, if there is one.
pub open spec fn kind_of_shape(len: nat, first: char, last: char) -> Option<DeriveKind> {
    if len == 3 && first == 'A' && last == 'd' {
        Some(DeriveKind::Add)
    } else if len == 9 && first == 'A' && last == 'n' {
        Some(DeriveKind::AddAssign)
    } else if len == 10 && first == 'A' && last == 'c' {
        Some(DeriveKind::Arithmetic)
    } else if len == 5 && first == 'A' && last == 't' {
        Some(DeriveKind::AsMut)
    } else if len == 5 && first == 'A' && last == 'f' {
        Some(DeriveKind::AsRef)
    } else if len == 7 && first == 'D' && last == 't' {
        Some(DeriveKind::Default)
    } else if len == 11 && first == 'D' && last == 'e' {
        Some(DeriveKind::Deserialize)
    } else if len == 7 && first == 'D' && last == 'y' {
        Some(DeriveKind::Display)
    } else if len == 2 && first == 'E' && last == 'q' {
        Some(DeriveKind::Eq)
    } else if len == 4 && first == 'F' && last == 'm' {
        Some(DeriveKind::From)
    } else if len == 12 && first == 'F' && last == 'r' {
        Some(DeriveKind::FromIterator)
    } else if len == 7 && first == 'F' && last == 'r' {
        Some(DeriveKind::FromStr)
    } else if len == 4 && first == 'H' && last == 'h' {
        Some(DeriveKind::Hash)
    } else if len == 5 && first == 'I' && last == 'x' {
        Some(DeriveKind::Index)
    } else if len == 8 && first == 'I' && last == 't' {
        Some(DeriveKind::IndexMut)
    } else if len == 4 && first == 'I' && last == 'o' {
        Some(DeriveKind::Into)
    } else if len == 9 && first == 'I' && last == 'r' {
        Some(DeriveKind::IntoInner)
    } else if len == 12 && first == 'I' && last == 'r' {
        Some(DeriveKind::IntoIterator)
    } else if len == 4 && first == 'I' && last == 'r' {
        Some(DeriveKind::Iter)
    } else if len == 3 && first == 'M' && last == 'l' {
        Some(DeriveKind::Mul)
    } else if len == 9 && first == 'M' && last == 'n' {
        Some(DeriveKind::MulAssign)
    } else if len == 3 && first == 'O' && last == 'd' {
        Some(DeriveKind::Ord)
    } else if len == 9 && first == 'P' && last == 'q' {
        Some(DeriveKind::PartialEq)
    } else if len == 10 && first == 'P' && last == 'd' {
        Some(DeriveKind::PartialOrd)
    } else if len == 9 && first == 'S' && last == 'e' {
        Some(DeriveKind::Serialize)
    } else if len == 7 && first == 'T' && last == 'm' {
        Some(DeriveKind::TryFrom)
    } else {
        None
    }
}

/// The derive requested by the name `s`, if any.
pub open spec fn kind_of_name(s: Seq<char>) -> Option<DeriveKind> {
    if s.len() == 0 {
        None
    } else {
        match kind_of_shape(s.len(), s[0], s.last()) {
            Some(k) => if kind_name(k) == s { Some(k) } else { None },
            None => None,
        }
    }
}

/// The name of a derive.
pub fn name_of(k: DeriveKind) -> (r: &'static str)
    ensures
        r@ == kind_name(k),
{
    match k {
        DeriveKind::Add => "Add",
        DeriveKind::AddAssign => "AddAssign",
        DeriveKind::Arithmetic => "Arithmetic",
        DeriveKind::AsMut => "AsMut",
        DeriveKind::AsRef => "AsRef",
        DeriveKind::Default => "Default",
        DeriveKind::Deserialize => "Deserialize",
        DeriveKind::Display => "Display",
        DeriveKind::Eq => "Eq",
        DeriveKind::From => "From",
        DeriveKind::FromIterator => "FromIterator",
        DeriveKind::FromStr => "FromStr",
        DeriveKind::Hash => "Hash",
        DeriveKind::Index => "Index",
        DeriveKind::IndexMut => "IndexMut",
        DeriveKind::Into => "Into",
        DeriveKind::IntoInner => "IntoInner",
        DeriveKind::IntoIterator => "IntoIterator",
        DeriveKind::Iter => "Iter",
        DeriveKind::Mul => "Mul",
        DeriveKind::MulAssign => "MulAssign",
        DeriveKind::Ord => "Ord",
        DeriveKind::PartialEq => "PartialEq",
        DeriveKind::PartialOrd => "PartialOrd",
        DeriveKind::Serialize => "Serialize",
        DeriveKind::TryFrom => "TryFrom",
    }
}

fn kind_with_shape(len: usize, first: char, last: char) -> (r: Option<DeriveKind>)
    ensures
        r == kind_of_shape(len as nat, first, last),
{
    if len == 3 && first == 'A' && last == 'd' {
        Some(DeriveKind::Add)
    } else if len == 9 && first == 'A' && last == 'n' {
        Some(DeriveKind::AddAssign)
    } else if len == 10 && first == 'A' && last == 'c' {
        Some(DeriveKind::Arithmetic)
    } else if len == 5 && first == 'A' && last == 't' {
        Some(DeriveKind::AsMut)
    } else if len == 5 && first == 'A' && last == 'f' {
        Some(DeriveKind::AsRef)
    } else if len == 7 && first == 'D' && last == 't' {
        Some(DeriveKind::Default)
    } else if len == 11 && first == 'D' && last == 'e' {
        Some(DeriveKind::Deserialize)
    } else if len == 7 && first == 'D' && last == 'y' {
        Some(DeriveKind::Display)
    } else if len == 2 && first == 'E' && last == 'q' {
        Some(DeriveKind::Eq)
    } else if len == 4 && first == 'F' && last == 'm' {
        Some(DeriveKind::From)
    } else if len == 12 && first == 'F' && last == 'r' {
        Some(DeriveKind::FromIterator)
    } else if len == 7 && first == 'F' && last == 'r' {
        Some(DeriveKind::FromStr)
    } else if len == 4 && first == 'H' && last == 'h' {
        Some(DeriveKind::Hash)
    } else if len == 5 && first == 'I' && last == 'x' {
        Some(DeriveKind::Index)
    } else if len == 8 && first == 'I' && last == 't' {
        Some(DeriveKind::IndexMut)
    } else if len == 4 && first == 'I' && last == 'o' {
        Some(DeriveKind::Into)
    } else if len == 9 && first == 'I' && last == 'r' {
        Some(DeriveKind::IntoInner)
    } else if len == 12 && first == 'I' && last == 'r' {
        Some(DeriveKind::IntoIterator)
    } else if len == 4 && first == 'I' && last == 'r' {
        Some(DeriveKind::Iter)
    } else if len == 3 && first == 'M' && last == 'l' {
        Some(DeriveKind::Mul)
    } else if len == 9 && first == 'M' && last == 'n' {
        Some(DeriveKind::MulAssign)
    } else if len == 3 && first == 'O' && last == 'd' {
        Some(DeriveKind::Ord)
    } else if len == 9 && first == 'P' && last == 'q' {
        Some(DeriveKind::PartialEq)
    } else if len == 10 && first == 'P' && last == 'd' {
        Some(DeriveKind::PartialOrd)
    } else if len == 9 && first == 'S' && last == 'e' {
        Some(DeriveKind::Serialize)
    } else if len == 7 && first == 'T' && last == 'm' {
        Some(DeriveKind::TryFrom)
    } else {
        None
    }
}

/// Looks up the derive requested by a name.
pub fn kind_by_name(s: &String) -> (r: Option<DeriveKind>)
    ensures
        r == kind_of_name(s@),
{
    let text = s.as_str();
    let len = text.unicode_len();
    if len == 0 {
        return None;
    }
    let first = text.get_char(0);
    let last = text.get_char(len - 1);
    match kind_with_shape(len, first, last) {
        Some(k) => if str_is(s, name_of(k)) { Some(k) } else { None },
        None => None,
    }
}

/// The name of a derive has the shape that leads back to it.
proof fn lemma_shape_of_name(k: DeriveKind)
    ensures
        kind_name(k).len() > 0,
        kind_of_shape(kind_name(k).len(), kind_name(k)[0], kind_name(k).last()) == Some(k),
{
    match k {
        DeriveKind::Add => reveal_strlit("Add"),
        DeriveKind::AddAssign => reveal_strlit("AddAssign"),
        DeriveKind::Arithmetic => reveal_strlit("Arithmetic"),
        DeriveKind::AsMut => reveal_strlit("AsMut"),
        DeriveKind::AsRef => reveal_strlit("AsRef"),
        DeriveKind::Default => reveal_strlit("Default"),
        DeriveKind::Deserialize => reveal_strlit("Deserialize"),
        DeriveKind::Display => reveal_strlit("Display"),
        DeriveKind::Eq => reveal_strlit("Eq"),
        DeriveKind::From => reveal_strlit("From"),
        DeriveKind::FromIterator => reveal_strlit("FromIterator"),
        DeriveKind::FromStr => reveal_strlit("FromStr"),
        DeriveKind::Hash => reveal_strlit("Hash"),
        DeriveKind::Index => reveal_strlit("Index"),
        DeriveKind::IndexMut => reveal_strlit("IndexMut"),
        DeriveKind::Into => reveal_strlit("Into"),
        DeriveKind::IntoInner => reveal_strlit("IntoInner"),
        DeriveKind::IntoIterator => reveal_strlit("IntoIterator"),
        DeriveKind::Iter => reveal_strlit("Iter"),
        DeriveKind::Mul => reveal_strlit("Mul"),
        DeriveKind::MulAssign => reveal_strlit("MulAssign"),
        DeriveKind::Ord => reveal_strlit("Ord"),
        DeriveKind::PartialEq => reveal_strlit("PartialEq"),
        DeriveKind::PartialOrd => reveal_strlit("PartialOrd"),
        DeriveKind::Serialize => reveal_strlit("Serialize"),
        DeriveKind::TryFrom => reveal_strlit("TryFrom"),
    }
}

/// Looking a name up gives the derive of that name, and the name of every
/// derive looks up that derive: names and derives correspond one to one.
pub proof fn law_name_lookup(k: DeriveKind, s: Seq<char>)
    ensures
        kind_of_name(kind_name(k)) == Some(k),
        kind_of_name(s) matches Some(j) ==> kind_name(j) == s,
{
    lemma_shape_of_name(k);
}

/// Each derive is requested by its own name, the name of its trait (or
/// method) in PascalCase: looking up each of these names gives that derive.
pub proof fn law_derive_names()
    ensures
        kind_of_name("Add"@) == Some(DeriveKind::Add),
        kind_of_name("AddAssign"@) == Some(DeriveKind::AddAssign),
        kind_of_name("Arithmetic"@) == Some(DeriveKind::Arithmetic),
        kind_of_name("AsMut"@) == Some(DeriveKind::AsMut),
        kind_of_name("AsRef"@) == Some(DeriveKind::AsRef),
        kind_of_name("Default"@) == Some(DeriveKind::Default),
        kind_of_name("Deserialize"@) == Some(DeriveKind::Deserialize),
        kind_of_name("Display"@) == Some(DeriveKind::Display),
        kind_of_name("Eq"@) == Some(DeriveKind::Eq),
        kind_of_name("From"@) == Some(DeriveKind::From),
        kind_of_name("FromIterator"@) == Some(DeriveKind::FromIterator),
        kind_of_name("FromStr"@) == Some(DeriveKind::FromStr),
        kind_of_name("Hash"@) == Some(DeriveKind::Hash),
        kind_of_name("Index"@) == Some(DeriveKind::Index),
        kind_of_name("IndexMut"@) == Some(DeriveKind::IndexMut),
        kind_of_name("Into"@) == Some(DeriveKind::Into),
        kind_of_name("IntoInner"@) == Some(DeriveKind::IntoInner),
        kind_of_name("IntoIterator"@) == Some(DeriveKind::IntoIterator),
        kind_of_name("Iter"@) == Some(DeriveKind::Iter),
        kind_of_name("Mul"@) == Some(DeriveKind::Mul),
        kind_of_name("MulAssign"@) == Some(DeriveKind::MulAssign),
        kind_of_name("Ord"@) == Some(DeriveKind::Ord),
        kind_of_name("PartialEq"@) == Some(DeriveKind::PartialEq),
        kind_of_name("PartialOrd"@) == Some(DeriveKind::PartialOrd),
        kind_of_name("Serialize"@) == Some(DeriveKind::Serialize),
        kind_of_name("TryFrom"@) == Some(DeriveKind::TryFrom),
{
    law_name_lookup(DeriveKind::Add, Seq::empty());
    law_name_lookup(DeriveKind::AddAssign, Seq::empty());
    law_name_lookup(DeriveKind::Arithmetic, Seq::empty());
    law_name_lookup(DeriveKind::AsMut, Seq::empty());
    law_name_lookup(DeriveKind::AsRef, Seq::empty());
    law_name_lookup(DeriveKind::Default, Seq::empty());
    law_name_lookup(DeriveKind::Deserialize, Seq::empty());
    law_name_lookup(DeriveKind::Display, Seq::empty());
    law_name_lookup(DeriveKind::Eq, Seq::empty());
    law_name_lookup(DeriveKind::From, Seq::empty());
    law_name_lookup(DeriveKind::FromIterator, Seq::empty());
    law_name_lookup(DeriveKind::FromStr, Seq::empty());
    law_name_lookup(DeriveKind::Hash, Seq::empty());
    law_name_lookup(DeriveKind::Index, Seq::empty());
    law_name_lookup(DeriveKind::IndexMut, Seq::empty());
    law_name_lookup(DeriveKind::Into, Seq::empty());
    law_name_lookup(DeriveKind::IntoInner, Seq::empty());
    law_name_lookup(DeriveKind::IntoIterator, Seq::empty());
    law_name_lookup(DeriveKind::Iter, Seq::empty());
    law_name_lookup(DeriveKind::Mul, Seq::empty());
    law_name_lookup(DeriveKind::MulAssign, Seq::empty());
    law_name_lookup(DeriveKind::Ord, Seq::empty());
    law_name_lookup(DeriveKind::PartialEq, Seq::empty());
    law_name_lookup(DeriveKind::PartialOrd, Seq::empty());
    law_name_lookup(DeriveKind::Serialize, Seq::empty());
    law_name_lookup(DeriveKind::TryFrom, Seq::empty());
}

} // verus!
