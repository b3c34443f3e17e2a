//! Finding the underlying field of a newtype, how to reach it and how to
//! build the struct around it.

use vstd::prelude::*;
use vstd::string::*;
use crate::input::{Data, DeriveInput, FieldParts};
use crate::text::{decimal, decimal_string};

verus! {

/// Why the underlying field of the input cannot be found.
#[derive(Clone, Copy, PartialEq, Eq, Structural, Debug)]
pub enum FieldsError {
    /// The input is an enum or a union.
    NotAStruct,
    /// The struct has several fields (or none) and none is marked `#[underlying]`.
    UnderlyingRequired,
    /// More than one field is marked `#[underlying]`.
    MultipleUnderlying,
}

/// How generated code reaches and wraps the underlying field.
#[derive(Debug)]
pub struct Extracted {
    /// The member that names the field: its name, or its position.
    pub accessor: String,
    /// The field's type.
    pub ty: String,
    /// A closure that builds the struct from a value of the field's type.
    pub constructor: String,
}

/// The field carries an `#[underlying]` attribute.
pub open spec fn is_marked(f: FieldParts) -> bool {
    exists|j: int| 0 <= j < f.attrs@.len() && (#[trigger] f.attrs@[j])@ == "underlying"@
}

/// A field is marked exactly when one of its attributes, at any position,
/// is `underlying`: other attributes before or after it change nothing.
pub proof fn law_marked_by_any_attribute(f: FieldParts)
    ensures
        is_marked(f) <==> f.attrs@.map_values(|a: String| a@).contains("underlying"@),
{
    let names = f.attrs@.map_values(|a: String| a@);
    if is_marked(f) {
        let j = choose|j: int| 0 <= j < f.attrs@.len() && (#[trigger] f.attrs@[j])@ == "underlying"@;
        assert(names[j] == "underlying"@);
    }
    if names.contains("underlying"@) {
        let j = choose|j: int| 0 <= j < names.len() && names[j] == "underlying"@;
        assert(f.attrs@[j]@ == "underlying"@);
    }
}

/// The positions of the marked fields, in order.
pub open spec fn marked(fs: Seq<FieldParts>) -> Seq<int>
    decreases fs.len(),
{
    if fs.len() == 0 {
        Seq::empty()
    } else if is_marked(fs.last()) {
        marked(fs.drop_last()).push(fs.len() - 1)
    } else {
        marked(fs.drop_last())
    }
}

/// The member by which the field at position `i` is named in code.
pub open spec fn key(f: FieldParts, i: int) -> Seq<char> {
    match f.ident {
        Some(id) => id@,
        None => decimal(i as nat),
    }
}

/// Whether the field at `i` is filled with its default value when the struct
/// is built around the underlying field `u` at `idx`.
pub open spec fn is_default(f: FieldParts, i: int, u: FieldParts, idx: int) -> bool {
    match (f.ident, u.ident) {
        (Some(x), Some(y)) => x@ != y@,
        (None, None) => i != idx,
        _ => false,
    }
}

/// The positions, among the first `n` fields, of the fields filled with
/// their default values.
pub open spec fn default_positions(fs: Seq<FieldParts>, idx: int, n: nat) -> Seq<int>
    decreases n,
{
    if n == 0 {
        Seq::empty()
    } else if is_default(fs[n - 1], n - 1, fs[idx], idx) {
        default_positions(fs, idx, (n - 1) as nat).push(n - 1)
    } else {
        default_positions(fs, idx, (n - 1) as nat)
    }
}

/// The initialisers `name: Default::default()` of the fields at the given
/// positions, in order and separated by commas.
pub open spec fn initialisers(fs: Seq<FieldParts>, ps: Seq<int>) -> Seq<char>
    decreases ps.len(),
{
    if ps.len() == 0 {
        Seq::empty()
    } else {
        let sep = if ps.len() > 1 { ","@ } else { ""@ };
        initialisers(fs, ps.drop_last()) + sep + " "@ + key(fs[ps.last()], ps.last())
            + ": Default::default()"@
    }
}

/// Accessor, type and constructor of the underlying field, or why there is none.
pub open spec fn extraction(input: DeriveInput) -> Result<(Seq<char>, Seq<char>, Seq<char>), FieldsError> {
    let name = input.ident@;
    match input.data {
        Data::Struct(fields) => {
            let fs = fields@;
            if fs.len() == 1 {
                let f = fs[0];
                match f.ident {
                    Some(id) => Ok((id@, f.ty@, "(|__| "@ + name + " { "@ + id@ + ": __ })"@)),
                    None => Ok(("0"@, f.ty@, "(|__| "@ + name + "(__))"@)),
                }
            } else if marked(fs).len() == 0 {
                Err(FieldsError::UnderlyingRequired)
            } else if marked(fs).len() > 1 {
                Err(FieldsError::MultipleUnderlying)
            } else {
                let idx = marked(fs)[0];
                let u = fs[idx];
                let acc = key(u, idx);
                Ok((acc, u.ty@, "(|__| "@ + name + " { "@ + acc + ": __,"@
                    + initialisers(fs, default_positions(fs, idx, fs.len())) + " })"@))
            }
        },
        _ => Err(FieldsError::NotAStruct),
    }
}

/// The view of an extraction result.
pub open spec fn extracted_view(r: Result<Extracted, FieldsError>) -> Result<(Seq<char>, Seq<char>, Seq<char>), FieldsError> {
    match r {
        Ok(e) => Ok((e.accessor@, e.ty@, e.constructor@)),
        Err(e) => Err(e),
    }
}

fn field_is_marked(f: &FieldParts) -> (r: bool)
    ensures
        r == is_marked(*f),
{
    let wanted = String::from_str("underlying");
    let mut j: usize = 0;
    while j < f.attrs.len()
        invariant
            j <= f.attrs@.len(),
            wanted@ == "underlying"@,
            forall|k: int| 0 <= k < j ==> (#[trigger] f.attrs@[k])@ != "underlying"@,
        decreases f.attrs.len() - j,
    {
        if f.attrs[j] == wanted {
            return true;
        }
        j = j + 1;
    }
    false
}

fn key_string(f: &FieldParts, i: usize) -> (r: String)
    ensures
        r@ == key(*f, i as int),
{
    match &f.ident {
        Some(id) => id.clone(),
        None => decimal_string(i),
    }
}

fn field_is_default(f: &FieldParts, i: usize, u: &FieldParts, idx: usize) -> (r: bool)
    ensures
        r == is_default(*f, i as int, *u, idx as int),
{
    match (&f.ident, &u.ident) {
        (Some(x), Some(y)) => *x != *y,
        (None, None) => i != idx,
        _ => false,
    }
}

/// Finds the underlying field: the only field, or else the one marked
/// `#[underlying]`.
pub fn extract_fields(input: &DeriveInput) -> (r: Result<Extracted, FieldsError>)
    ensures
        extracted_view(r) == extraction(*input),
{
    let fields = match &input.data {
        Data::Struct(fields) => fields,
        _ => return Err(FieldsError::NotAStruct),
    };
    let name = &input.ident;
    if fields.len() == 1 {
        let f = &fields[0];
        return match &f.ident {
            Some(id) => {
                let mut c = String::from_str("(|__| ");
                c.append(name.as_str());
                c.append(" { ");
                c.append(id.as_str());
                c.append(": __ })");
                Ok(Extracted { accessor: id.clone(), ty: f.ty.clone(), constructor: c })
            },
            None => {
                let mut c = String::from_str("(|__| ");
                c.append(name.as_str());
                c.append("(__))");
                Ok(Extracted { accessor: String::from_str("0"), ty: f.ty.clone(), constructor: c })
            },
        };
    }
    let ghost fs = fields@;
    let mut marks: Vec<usize> = Vec::new();
    let mut i: usize = 0;
    while i < fields.len()
        invariant
            fs == fields@,
            i <= fs.len(),
            marks@.len() == marked(fs.take(i as int)).len(),
            forall|k: int| 0 <= k < marks@.len() ==> marks@[k] as int == #[trigger] marked(fs.take(i as int))[k],
        decreases fields.len() - i,
    {
        assert(fs.take(i as int + 1).drop_last() =~= fs.take(i as int));
        if field_is_marked(&fields[i]) {
            marks.push(i);
        }
        i = i + 1;
    }
    assert(fs.take(fs.len() as int) =~= fs);
    if marks.len() == 0 {
        return Err(FieldsError::UnderlyingRequired);
    }
    if marks.len() > 1 {
        return Err(FieldsError::MultipleUnderlying);
    }
    let idx = marks[0];
    proof {
        lemma_marked_in_range(fs);
    }
    let u = &fields[idx];
    let acc = key_string(u, idx);
    let mut c = String::from_str("(|__| ");
    c.append(name.as_str());
    c.append(" { ");
    c.append(acc.as_str());
    c.append(": __,");
    let mut k: usize = 0;
    let mut first = true;
    while k < fields.len()
        invariant
            fs == fields@,
            k <= fs.len(),
            first == (default_positions(fs, idx as int, k as nat).len() == 0),
            0 <= idx < fs.len(),
            u == fs[idx as int],
            c@ == "(|__| "@ + name@ + " { "@ + acc@ + ": __,"@
                + initialisers(fs, default_positions(fs, idx as int, k as nat)),
        decreases fields.len() - k,
    {
        if field_is_default(&fields[k], k, u, idx) {
            let ghost dp = default_positions(fs, idx as int, k as nat);
            if first {
                c.append("");
            } else {
                c.append(",");
            }
            c.append(" ");
            let kk = key_string(&fields[k], k);
            c.append(kk.as_str());
            c.append(": Default::default()");
            first = false;
            proof {
                assert(dp.push(k as int).drop_last() =~= dp);
                reveal_strlit("");
                reveal_strlit(",");
            }
        }
        k = k + 1;
    }
    c.append(" })");
    Ok(Extracted { accessor: acc, ty: u.ty.clone(), constructor: c })
}

/// The positions listed as marked are exactly the positions of the marked
/// fields, each once and in increasing order.
pub proof fn lemma_marked_exactly(fs: Seq<FieldParts>)
    ensures
        forall|k: int| #[trigger] marked(fs).contains(k) <==> (0 <= k < fs.len() && is_marked(fs[k])),
        forall|a: int, b: int| 0 <= a < b < marked(fs).len() ==> marked(fs)[a] < marked(fs)[b],
        forall|a: int| 0 <= a < marked(fs).len() ==> 0 <= #[trigger] marked(fs)[a] < fs.len(),
    decreases fs.len(),
{
    if fs.len() > 0 {
        let rest = fs.drop_last();
        lemma_marked_exactly(rest);
        let m = marked(fs);
        let p = marked(rest);
        assert forall|k: int| #[trigger] m.contains(k) implies (0 <= k < fs.len() && is_marked(fs[k])) by {
            let w = choose|w: int| 0 <= w < m.len() && m[w] == k;
            if w < p.len() {
                assert(p[w] == k);
                assert(p.contains(k));
                assert(rest[k] == fs[k]);
            }
        }
        assert forall|k: int| 0 <= k < fs.len() && is_marked(fs[k]) implies #[trigger] m.contains(k) by {
            if k < fs.len() - 1 {
                assert(rest[k] == fs[k]);
                assert(p.contains(k));
                let w = choose|w: int| 0 <= w < p.len() && p[w] == k;
                assert(m[w] == k);
            } else {
                assert(m[m.len() - 1] == k);
            }
        }
    }
}

/// The field that the generated code works on is the struct's only field,
/// or else its one marked field: its accessor is its name, or its position
/// for an unnamed field, and its type is the field's type. The struct is
/// refused exactly when the input is no struct, when none of several (or
/// no) fields is marked, or when more than one is.
pub proof fn law_extraction_finds_the_underlying_field(input: DeriveInput)
    ensures
        extraction(input) matches Ok((acc, ty, _)) ==> input.data matches Data::Struct(fields) && exists|idx: int| {
            &&& 0 <= idx < fields@.len()
            &&& (fields@.len() == 1 || (is_marked(fields@[idx])
                && forall|j: int| 0 <= j < fields@.len() && j != idx ==> !is_marked(#[trigger] fields@[j])))
            &&& ty == fields@[idx].ty@
            &&& acc == match fields@[idx].ident { Some(n) => n@, None => decimal(idx as nat) }
        },
        (extraction(input) == Err::<(Seq<char>, Seq<char>, Seq<char>), FieldsError>(FieldsError::NotAStruct))
            <==> !(input.data is Struct),
        (extraction(input) == Err::<(Seq<char>, Seq<char>, Seq<char>), FieldsError>(FieldsError::UnderlyingRequired))
            <==> (input.data matches Data::Struct(fields) && fields@.len() != 1
                && forall|j: int| 0 <= j < fields@.len() ==> !is_marked(#[trigger] fields@[j])),
        (extraction(input) == Err::<(Seq<char>, Seq<char>, Seq<char>), FieldsError>(FieldsError::MultipleUnderlying))
            <==> (input.data matches Data::Struct(fields) && fields@.len() != 1
                && exists|a: int, b: int| 0 <= a < b < fields@.len() && is_marked(#[trigger] fields@[a]) && is_marked(#[trigger] fields@[b])),
{
    if let Data::Struct(fields) = input.data {
        let fs = fields@;
        lemma_marked_exactly(fs);
        let m = marked(fs);
        if fs.len() == 1 {
            let f = fs[0];
            assert(match f.ident { Some(n) => n@, None => decimal(0) } == key(f, 0));
            reveal_strlit("0");
        } else if m.len() == 0 {
            assert forall|j: int| 0 <= j < fs.len() implies !is_marked(#[trigger] fs[j]) by {
                if is_marked(fs[j]) {
                    assert(m.contains(j));
                }
            }
        } else if m.len() > 1 {
            assert(m.contains(m[0]) && m.contains(m[1]));
            assert(is_marked(fs[m[0]]) && is_marked(fs[m[1]]));
            assert(0 <= m[0] < m[1] < fs.len());
        } else {
            let idx = m[0];
            assert(m.contains(idx));
            assert forall|j: int| 0 <= j < fs.len() && j != idx implies !is_marked(#[trigger] fs[j]) by {
                if is_marked(fs[j]) {
                    assert(m.contains(j));
                    let w = choose|w: int| 0 <= w < m.len() && m[w] == j;
                }
            }
            if exists|a: int, b: int| 0 <= a < b < fs.len() && is_marked(#[trigger] fs[a]) && is_marked(#[trigger] fs[b]) {
                let (a, b) = choose|a: int, b: int| 0 <= a < b < fs.len() && is_marked(#[trigger] fs[a]) && is_marked(#[trigger] fs[b]);
                assert(m.contains(a) && m.contains(b));
                let wa = choose|w: int| 0 <= w < m.len() && m[w] == a;
                let wb = choose|w: int| 0 <= w < m.len() && m[w] == b;
            }
        }
    }
}

/// Every marked position is a position of the sequence.
pub proof fn lemma_marked_in_range(fs: Seq<FieldParts>)
    ensures
        forall|k: int| 0 <= k < marked(fs).len() ==> 0 <= #[trigger] marked(fs)[k] < fs.len(),
    decreases fs.len(),
{
    if fs.len() > 0 {
        let prev = fs.drop_last();
        lemma_marked_in_range(prev);
        assert forall|k: int| 0 <= k < marked(fs).len() implies 0 <= #[trigger] marked(fs)[k] < fs.len() by {
            if k < marked(prev).len() {
                assert(marked(fs)[k] == marked(prev)[k]);
            }
        }
    }
}


/// The fields are all unnamed, or all named with pairwise distinct names, as
/// in every struct that Rust accepts.
pub open spec fn well_formed_fields(fs: Seq<FieldParts>) -> bool {
    ||| forall|i: int| 0 <= i < fs.len() ==> (#[trigger] fs[i]).ident is None
    ||| {
        &&& forall|i: int| 0 <= i < fs.len() ==> (#[trigger] fs[i]).ident is Some
        &&& forall|i: int, j: int|
            0 <= i < fs.len() && 0 <= j < fs.len() && i != j
                ==> (#[trigger] fs[i]).ident->0@ != (#[trigger] fs[j]).ident->0@
    }
}

/// In a struct that Rust accepts, the constructor built around the field at
/// `idx` fills every other field with its default value, each once and in
/// declaration order, and never the field at `idx` itself.
pub proof fn law_constructor_fills_every_other_field(fs: Seq<FieldParts>, idx: int, n: nat)
    requires
        well_formed_fields(fs),
        0 <= idx < fs.len(),
        n <= fs.len(),
    ensures
        forall|i: int| 0 <= i < n ==> (default_positions(fs, idx, n).contains(i) <==> i != idx),
        forall|a: int, b: int|
            0 <= a < b < default_positions(fs, idx, n).len()
                ==> default_positions(fs, idx, n)[a] < default_positions(fs, idx, n)[b],
        forall|a: int|
            0 <= a < default_positions(fs, idx, n).len()
                ==> 0 <= #[trigger] default_positions(fs, idx, n)[a] < n,
    decreases n,
{
    if n > 0 {
        let m = (n - 1) as nat;
        law_constructor_fills_every_other_field(fs, idx, m);
        let prev = default_positions(fs, idx, m);
        let cur = default_positions(fs, idx, n);
        let last = n - 1;
        assert(is_default(fs[last], last, fs[idx], idx) <==> last != idx);
        assert forall|i: int| 0 <= i < n implies (cur.contains(i) <==> i != idx) by {
            if i < last {
                if prev.contains(i) {
                    let w = choose|w: int| 0 <= w < prev.len() && prev[w] == i;
                    assert(cur[w] == i);
                }
                if cur.contains(i) {
                    let w = choose|w: int| 0 <= w < cur.len() && cur[w] == i;
                    if w < prev.len() {
                        assert(prev[w] == i);
                    }
                }
            } else {
                if i != idx {
                    assert(cur[cur.len() - 1] == i);
                }
                if cur.contains(i) {
                    let w = choose|w: int| 0 <= w < cur.len() && cur[w] == i;
                    if w < prev.len() {
                        assert(prev[w] == i);
                    }
                }
            }
        }
    }
}

} // verus!
