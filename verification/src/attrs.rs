//! Reading the `#[deriving(..)]` and `#[transitive(..)]` attributes.
//!
//! `#[deriving(D1, D2(via: T), ..)]` lists derives, each a path optionally
//! followed by `(via: <Type>)` (or `(via = <Type>)`); a trailing comma is
//! allowed. `#[transitive(T1 -> T2 -> .. -> Tn)]` lists types separated by
//! arrows.

use vstd::prelude::*;
use vstd::string::*;
use crate::tokens::{Delimiter, TokenTree, stream_text, render_slice};
use crate::syntax::{
    FnArgShape, fn_arg_shape, parses_as_path, parses_as_type, classify_fn_arg, is_path,
    is_type,
};
use crate::errors::{Abort, ExpandError, Failure, FailureV, ErrorV, Keyword};
use crate::text::str_is;

verus! {

/// What separates the items of an attribute's list.
#[derive(Clone, Copy, PartialEq, Eq, Structural, Debug)]
pub enum Separator {
    /// `,`
    Comma,
    /// `->`
    Arrow,
}

/// The number of tokens a separator takes.
pub open spec fn sep_len(sep: Separator) -> int {
    match sep {
        Separator::Comma => 1,
        Separator::Arrow => 2,
    }
}

/// The token is the punctuation character `c`.
pub open spec fn punct_is(t: TokenTree, c: Seq<char>) -> bool {
    match t {
        TokenTree::Punct(s, _) => s@ == c,
        _ => false,
    }
}

/// The token is the punctuation character `c`, joined to the next one.
pub open spec fn joint_punct_is(t: TokenTree, c: Seq<char>) -> bool {
    match t {
        TokenTree::Punct(s, j) => j && s@ == c,
        _ => false,
    }
}

/// The token is the identifier `name`.
pub open spec fn ident_is(t: TokenTree, name: Seq<char>) -> bool {
    match t {
        TokenTree::Ident(s) => s@ == name,
        _ => false,
    }
}

/// An arrow `->` starts at position `i`.
pub open spec fn arrow_at(ts: Seq<TokenTree>, i: int) -> bool {
    &&& 0 <= i
    &&& i + 1 < ts.len()
    &&& joint_punct_is(ts[i], "-"@)
    &&& punct_is(ts[i + 1], ">"@)
}

/// The arrow at `i` gives the return type of a function-like type such as
/// `fn(u8) -> u8` or `Fn(u8) -> u8`: it follows a name and a parenthesised list.
pub open spec fn returns_arrow(ts: Seq<TokenTree>, i: int) -> bool {
    &&& i >= 2
    &&& ts[i - 1] matches TokenTree::Group(Delimiter::Parenthesis, _)
    &&& ts[i - 2] is Ident
}

/// A separator starts at position `i`.
pub open spec fn separates(ts: Seq<TokenTree>, i: int, sep: Separator) -> bool {
    match sep {
        Separator::Comma => punct_is(ts[i], ","@),
        Separator::Arrow => arrow_at(ts, i) && !returns_arrow(ts, i),
    }
}

/// The token at `i` closes an angle bracket (and is not the end of an arrow).
pub open spec fn closes_angle(ts: Seq<TokenTree>, i: int) -> bool {
    punct_is(ts[i], ">"@) && !(i > 0 && joint_punct_is(ts[i - 1], "-"@))
}

/// The depth of angle brackets after the token at `i`, given the depth before it.
pub open spec fn next_depth(ts: Seq<TokenTree>, i: int, d: nat) -> nat {
    if punct_is(ts[i], "<"@) {
        d + 1
    } else if closes_angle(ts, i) && d > 0 {
        (d - 1) as nat
    } else {
        d
    }
}

/// Angle brackets nest: `<` opens one more, a `>` that does not end an
/// arrow `->` closes the innermost open one (and is ignored when none is
/// open), and every other token, the `>` of an arrow among them, leaves the
/// depth as it was.
pub proof fn law_angle_depth(ts: Seq<TokenTree>, i: int, d: nat)
    requires
        0 <= i < ts.len(),
    ensures
        punct_is(ts[i], "<"@) ==> next_depth(ts, i, d) == d + 1,
        punct_is(ts[i], ">"@) && !(i > 0 && joint_punct_is(ts[i - 1], "-"@))
            ==> next_depth(ts, i, d) == (if d > 0 { d - 1 } else { 0 }),
        punct_is(ts[i], ">"@) && i > 0 && joint_punct_is(ts[i - 1], "-"@) ==> next_depth(ts, i, d) == d,
        !punct_is(ts[i], "<"@) && !punct_is(ts[i], ">"@) ==> next_depth(ts, i, d) == d,
{
    reveal_strlit("<");
    reveal_strlit(">");
    if punct_is(ts[i], ">"@) {
        assert(">"@ != "<"@) by {
            assert(">"@[0] != "<"@[0]);
        }
    }
}

/// A position is a separator of the list exactly when the separator stands
/// there outside every angle bracket.
pub proof fn law_separators_outside_angles(ts: Seq<TokenTree>, sep: Separator, n: nat, i: int)
    requires
        n <= ts.len(),
        0 <= i < n,
    ensures
        scan(ts, sep, n).1.contains(i) <==> (scan(ts, sep, i as nat).0 == 0 && separates(ts, i, sep)),
    decreases n,
{
    lemma_scan_positions(ts, sep, n);
    let m = (n - 1) as nat;
    lemma_scan_positions(ts, sep, m);
    let prev = scan(ts, sep, m).1;
    let cur = scan(ts, sep, n).1;
    if i < m {
        law_separators_outside_angles(ts, sep, m, i);
        if cur.contains(i) {
            let k = choose|k: int| 0 <= k < cur.len() && cur[k] == i;
            if k < prev.len() {
                assert(prev[k] == i);
            } else {
                assert(cur[k] == m);
            }
        }
        if prev.contains(i) {
            let k = choose|k: int| 0 <= k < prev.len() && prev[k] == i;
            assert(cur[k] == i);
        }
    } else {
        assert(i == m);
        if cur.contains(i) {
            let k = choose|k: int| 0 <= k < cur.len() && cur[k] == i;
            if k < prev.len() {
                assert(prev[k] < m);
            }
        }
        if scan(ts, sep, m).0 == 0 && separates(ts, i, sep) {
            assert(cur[cur.len() - 1] == i);
        }
    }
}

/// Scanning the first `n` tokens: the angle-bracket depth reached, and the
/// positions of the separators met outside angle brackets.
pub open spec fn scan(ts: Seq<TokenTree>, sep: Separator, n: nat) -> (nat, Seq<int>)
    decreases n,
{
    if n == 0 {
        (0, Seq::empty())
    } else {
        let prev = scan(ts, sep, (n - 1) as nat);
        let i = n - 1;
        if prev.0 == 0 && separates(ts, i, sep) {
            (prev.0, prev.1.push(i))
        } else {
            (next_depth(ts, i, prev.0), prev.1)
        }
    }
}

/// The positions of the top-level separators of `ts`.
pub open spec fn separators(ts: Seq<TokenTree>, sep: Separator) -> Seq<int> {
    scan(ts, sep, ts.len()).1
}

/// Where the `k`-th item between separators starts.
pub open spec fn item_start(ts: Seq<TokenTree>, sep: Separator, k: int) -> int {
    if k == 0 { 0 } else { separators(ts, sep)[k - 1] + sep_len(sep) }
}

/// Where the `k`-th item between separators ends.
pub open spec fn item_end(ts: Seq<TokenTree>, sep: Separator, k: int) -> int {
    if k == separators(ts, sep).len() { ts.len() as int } else { separators(ts, sep)[k] }
}

/// The `k`-th item between separators.
pub open spec fn item(ts: Seq<TokenTree>, sep: Separator, k: int) -> Seq<TokenTree> {
    ts.subrange(item_start(ts, sep, k), item_end(ts, sep, k))
}

/// The number of items in a separated list: an empty last item is a
/// trailing separator (or an empty list) and does not count.
pub open spec fn item_count(ts: Seq<TokenTree>, sep: Separator) -> nat {
    let n = separators(ts, sep).len();
    if item_start(ts, sep, n as int) == ts.len() { n } else { n + 1 }
}

/// Separator positions are increasing, a separator's tokens lie inside the
/// stream, and items do not overlap.
pub proof fn lemma_scan_positions(ts: Seq<TokenTree>, sep: Separator, n: nat)
    requires
        n <= ts.len(),
    ensures
        forall|k: int| 0 <= k < scan(ts, sep, n).1.len() ==> {
            &&& 0 <= #[trigger] scan(ts, sep, n).1[k] < n
            &&& scan(ts, sep, n).1[k] + sep_len(sep) <= ts.len()
            &&& separates(ts, scan(ts, sep, n).1[k], sep)
        },
        forall|a: int, b: int|
            0 <= a < b < scan(ts, sep, n).1.len()
                ==> scan(ts, sep, n).1[a] + sep_len(sep) <= scan(ts, sep, n).1[b],
        scan(ts, sep, n).1.len() <= n,
        forall|k: int| 0 <= k < scan(ts, sep, n).1.len() ==> k <= #[trigger] scan(ts, sep, n).1[k],
    decreases n,
{
    reveal_strlit("-");
    reveal_strlit(">");
    if n > 0 {
        let m = (n - 1) as nat;
        lemma_scan_positions(ts, sep, m);
        let prev = scan(ts, sep, m).1;
        let cur = scan(ts, sep, n).1;
        if cur.len() > prev.len() {
            assert forall|k: int| 0 <= k < prev.len() implies #[trigger] cur[k] == prev[k] by {}
            if prev.len() > 0 && sep == Separator::Arrow {
                let p = prev[prev.len() - 1];
                assert(punct_is(ts[p + 1], ">"@));
                if p + 1 == n - 1 {
                    assert(joint_punct_is(ts[n - 1], "-"@));
                    assert(">"@[0] != "-"@[0]);
                }
            }
        }
    }
}

/// A derive as requested: its name (when the path is a single identifier)
/// and the type it goes through, if any.
#[derive(Debug)]
pub struct Derive {
    pub ident: Option<String>,
    pub via: Option<String>,
}

/// The view of a [`Derive`].
pub struct DeriveV {
    pub ident: Option<Seq<char>>,
    pub via: Option<Seq<char>>,
}

impl Derive {
    pub open spec fn view(&self) -> DeriveV {
        DeriveV {
            ident: match self.ident { Some(s) => Some(s@), None => None },
            via: match self.via { Some(s) => Some(s@), None => None },
        }
    }
}

/// The identifier that a path consists of, if it is a single identifier.
pub open spec fn single_ident(path: Seq<TokenTree>) -> Option<Seq<char>> {
    if path.len() == 1 && path[0] is Ident {
        match path[0] {
            TokenTree::Ident(s) => Some(s@),
            _ => None,
        }
    } else {
        None
    }
}

/// The tokens inside a group.
pub open spec fn group_inner(t: TokenTree) -> Seq<TokenTree> {
    match t {
        TokenTree::Group(_, inner) => inner@,
        _ => Seq::empty(),
    }
}

/// The token is the punctuation character `c`, standing alone.
pub open spec fn lone_punct_is(t: TokenTree, c: Seq<char>) -> bool {
    match t {
        TokenTree::Punct(s, j) => !j && s@ == c,
        _ => false,
    }
}

/// The token at `i` is a single colon, not part of `::`.
pub open spec fn colon_at(ts: Seq<TokenTree>, i: int) -> bool {
    &&& lone_punct_is(ts[i], ":"@)
    &&& !(i > 0 && joint_punct_is(ts[i - 1], ":"@))
}

/// The position of the first single colon among the first `n` tokens.
pub open spec fn first_colon(ts: Seq<TokenTree>, n: nat) -> Option<int>
    decreases n,
{
    if n == 0 {
        None
    } else {
        match first_colon(ts, (n - 1) as nat) {
            Some(c) => Some(c),
            None => if colon_at(ts, n - 1) { Some(n - 1) } else { None },
        }
    }
}

/// The type that a `via: <Type>` argument names, given the shape `syn`
/// reads in its tokens `inner`: the pattern is what comes before the first
/// single colon and must be the identifier `via`; the type is what follows.
pub open spec fn via_from_arg(shape: FnArgShape, inner: Seq<TokenTree>) -> Result<Seq<char>, FailureV> {
    match shape {
        FnArgShape::Receiver => Err(FailureV::Abort(Abort::SelfReceiver)),
        FnArgShape::Typed => match first_colon(inner, inner.len()) {
            Some(c) => if c == 1 && ident_is(inner[0], "via"@) {
                Ok(stream_text(inner.skip(2)))
            } else {
                Err(FailureV::Error(ErrorV::ExpectedVia(stream_text(inner.take(c)))))
            },
            None => Err(FailureV::Error(ErrorV::InvalidArgument)),
        },
        FnArgShape::Invalid => Err(FailureV::Error(ErrorV::InvalidArgument)),
    }
}

/// The first colon found is a single colon among the tokens looked at.
pub proof fn lemma_first_colon_is_colon(ts: Seq<TokenTree>, n: nat)
    ensures
        first_colon(ts, n) matches Some(c) ==> 0 <= c < n && colon_at(ts, c),
    decreases n,
{
    if n > 0 {
        lemma_first_colon_is_colon(ts, (n - 1) as nat);
    }
}

/// An argument list read as a function argument names a type only when
/// `syn` reads a typed argument whose pattern is the identifier `via`
/// followed by a single colon; the type is what follows that colon. A
/// receiver never names a type: it stops the expansion.
pub proof fn law_via_is_the_typed_argument(shape: FnArgShape, inner: Seq<TokenTree>)
    ensures
        via_from_arg(shape, inner) matches Ok(t) ==> {
            &&& shape == FnArgShape::Typed
            &&& inner.len() >= 2
            &&& ident_is(inner[0], "via"@)
            &&& colon_at(inner, 1)
            &&& t == stream_text(inner.skip(2))
        },
        shape == FnArgShape::Receiver
            ==> via_from_arg(shape, inner) == Err::<Seq<char>, FailureV>(FailureV::Abort(Abort::SelfReceiver)),
{
    lemma_first_colon_is_colon(inner, inner.len());
}

/// The argument list is the single assignment `via = <...>`, possibly
/// followed by a comma.
pub open spec fn is_via_assignment(inner: Seq<TokenTree>) -> bool {
    &&& inner.len() >= 3
    &&& ident_is(inner[0], "via"@)
    &&& lone_punct_is(inner[1], "="@)
    &&& item_count(inner, Separator::Comma) == 1
}

/// The tokens after `via =` in a single assignment.
pub open spec fn assigned_tokens(inner: Seq<TokenTree>) -> Seq<TokenTree> {
    inner.subrange(2, item_end(inner, Separator::Comma, 0))
}

/// The type named by the argument list of a derive: `via = <Type>` as the
/// older attribute grammar writes it, or `via: <Type>` as the newer one does.
pub open spec fn via_of(inner: Seq<TokenTree>) -> Result<Seq<char>, FailureV> {
    if is_via_assignment(inner) {
        let ty = stream_text(assigned_tokens(inner));
        if parses_as_type(ty) {
            Ok(ty)
        } else {
            Err(FailureV::Error(ErrorV::ExpectedViaType))
        }
    } else {
        via_from_arg(fn_arg_shape(stream_text(inner)), inner)
    }
}

/// The item ends with an argument list.
pub open spec fn has_argument(c: Seq<TokenTree>) -> bool {
    c.len() >= 2 && c.last() matches TokenTree::Group(Delimiter::Parenthesis, _)
}

/// The derive that one item of `#[deriving(..)]` requests.
pub open spec fn derive_of_item(c: Seq<TokenTree>) -> Result<DeriveV, FailureV> {
    let path = if has_argument(c) { c.drop_last() } else { c };
    if !parses_as_path(stream_text(path)) {
        Err(FailureV::Error(ErrorV::ExpectedPath))
    } else if has_argument(c) {
        match via_of(group_inner(c.last())) {
            Ok(ty) => Ok(DeriveV { ident: single_ident(path), via: Some(ty) }),
            Err(e) => Err(e),
        }
    } else {
        Ok(DeriveV { ident: single_ident(path), via: None })
    }
}

/// The derives requested by the first `k` items, read in order until the
/// first failure.
pub open spec fn derives_upto(ts: Seq<TokenTree>, k: nat) -> Result<Seq<DeriveV>, FailureV>
    decreases k,
{
    if k == 0 {
        Ok(Seq::empty())
    } else {
        match derives_upto(ts, (k - 1) as nat) {
            Err(e) => Err(e),
            Ok(ds) => match derive_of_item(item(ts, Separator::Comma, k - 1)) {
                Ok(d) => Ok(ds.push(d)),
                Err(e) => Err(e),
            },
        }
    }
}

/// The types listed by the first `k` items of a `->` list, read in order
/// until the first one that is not a type.
pub open spec fn types_upto(ts: Seq<TokenTree>, k: nat) -> Result<Seq<Seq<char>>, FailureV>
    decreases k,
{
    if k == 0 {
        Ok(Seq::empty())
    } else {
        match types_upto(ts, (k - 1) as nat) {
            Err(e) => Err(e),
            Ok(tys) => {
                let text = stream_text(item(ts, Separator::Arrow, k - 1));
                if parses_as_type(text) {
                    Ok(tys.push(text))
                } else {
                    Err(FailureV::Error(ErrorV::ExpectedType))
                }
            },
        }
    }
}

/// Once reading the items fails, reading more items fails the same way.
pub proof fn lemma_derives_failure_persists(ts: Seq<TokenTree>, j: nat, m: nat)
    requires
        j <= m,
        derives_upto(ts, j) is Err,
    ensures
        derives_upto(ts, m) == derives_upto(ts, j),
    decreases m - j,
{
    if j < m {
        lemma_derives_failure_persists(ts, j, (m - 1) as nat);
    }
}

/// Once reading the types fails, reading more types fails the same way.
pub proof fn lemma_types_failure_persists(ts: Seq<TokenTree>, j: nat, m: nat)
    requires
        j <= m,
        types_upto(ts, j) is Err,
    ensures
        types_upto(ts, m) == types_upto(ts, j),
    decreases m - j,
{
    if j < m {
        lemma_types_failure_persists(ts, j, (m - 1) as nat);
    }
}

/// Reads `keyword(..)` and the list inside, which `list` reads; tokens after
/// the list are reported once the list has been read.
pub open spec fn keyword_list<T>(
    meta: Seq<TokenTree>,
    kw: Keyword,
    list: spec_fn(Seq<TokenTree>) -> Result<T, FailureV>,
) -> Result<T, FailureV> {
    let name = match kw { Keyword::Deriving => "deriving"@, Keyword::Transitive => "transitive"@ };
    if !(meta.len() >= 1 && ident_is(meta[0], name)) {
        Err(FailureV::Error(ErrorV::ExpectedKeyword(kw)))
    } else if !(meta.len() >= 2 && meta[1] matches TokenTree::Group(Delimiter::Parenthesis, _)) {
        Err(FailureV::Error(ErrorV::ExpectedParentheses))
    } else {
        match list(group_inner(meta[1])) {
            Err(e) => Err(e),
            Ok(v) => if meta.len() > 2 {
                Err(FailureV::Error(ErrorV::UnexpectedToken))
            } else {
                Ok(v)
            },
        }
    }
}

/// What `#[deriving(..)]` requests.
pub open spec fn deriving_attribute(meta: Seq<TokenTree>) -> Result<Seq<DeriveV>, FailureV> {
    keyword_list(meta, Keyword::Deriving,
        |content: Seq<TokenTree>| derives_upto(content, item_count(content, Separator::Comma)))
}

/// The types that `#[transitive(..)]` lists.
pub open spec fn transitive_attribute(meta: Seq<TokenTree>) -> Result<Seq<Seq<char>>, FailureV> {
    keyword_list(meta, Keyword::Transitive,
        |content: Seq<TokenTree>| types_upto(content, item_count(content, Separator::Arrow)))
}

/// The view of a parsed type or argument.
pub open spec fn text_result(r: Result<String, Failure>) -> Result<Seq<char>, FailureV> {
    match r {
        Ok(s) => Ok(s@),
        Err(e) => Err(e@),
    }
}

/// The view of a parsed derive.
pub open spec fn derive_result(r: Result<Derive, Failure>) -> Result<DeriveV, FailureV> {
    match r {
        Ok(d) => Ok(d@),
        Err(e) => Err(e@),
    }
}

/// The view of a parsed list of derives.
pub open spec fn derives_result(r: Result<Vec<Derive>, Failure>) -> Result<Seq<DeriveV>, FailureV> {
    match r {
        Ok(ds) => Ok(ds@.map_values(|d: Derive| d@)),
        Err(e) => Err(e@),
    }
}

/// The view of a parsed list of types.
pub open spec fn texts_result(r: Result<Vec<String>, Failure>) -> Result<Seq<Seq<char>>, FailureV> {
    match r {
        Ok(ts) => Ok(ts@.map_values(|t: String| t@)),
        Err(e) => Err(e@),
    }
}

pub(crate) fn token_punct_is(t: &TokenTree, c: &str) -> (r: bool)
    ensures
        r == punct_is(*t, c@),
{
    match t {
        TokenTree::Punct(s, _) => str_is(s, c),
        _ => false,
    }
}

fn token_joint_punct_is(t: &TokenTree, c: &str) -> (r: bool)
    ensures
        r == joint_punct_is(*t, c@),
{
    match t {
        TokenTree::Punct(s, j) => *j && str_is(s, c),
        _ => false,
    }
}

fn token_ident_is(t: &TokenTree, name: &str) -> (r: bool)
    ensures
        r == ident_is(*t, name@),
{
    match t {
        TokenTree::Ident(s) => str_is(s, name),
        _ => false,
    }
}

fn separates_at(ts: &Vec<TokenTree>, i: usize, sep: Separator) -> (r: bool)
    requires
        i < ts@.len(),
    ensures
        r == separates(ts@, i as int, sep),
{
    match sep {
        Separator::Comma => token_punct_is(&ts[i], ","),
        Separator::Arrow => {
            let arrow = i < ts.len() - 1 && token_joint_punct_is(&ts[i], "-")
                && token_punct_is(&ts[i + 1], ">");
            let gives_return = i >= 2 && matches!(ts[i - 1], TokenTree::Group(Delimiter::Parenthesis, _))
                && matches!(ts[i - 2], TokenTree::Ident(_));
            arrow && !gives_return
        },
    }
}

fn depth_after(ts: &Vec<TokenTree>, i: usize, d: usize) -> (r: usize)
    requires
        i < ts@.len(),
        d <= i,
    ensures
        r == next_depth(ts@, i as int, d as nat),
        r <= i + 1,
{
    let n = ts.len();
    assert(i < n);
    if token_punct_is(&ts[i], "<") {
        d + 1
    } else if token_punct_is(&ts[i], ">") && !(i > 0 && token_joint_punct_is(&ts[i - 1], "-")) && d > 0 {
        d - 1
    } else {
        d
    }
}

/// Finds the top-level separators of a token stream.
pub fn find_separators(ts: &Vec<TokenTree>, sep: Separator) -> (r: Vec<usize>)
    ensures
        r@.len() == separators(ts@, sep).len(),
        forall|k: int| 0 <= k < r@.len() ==> r@[k] as int == #[trigger] separators(ts@, sep)[k],
{
    let mut r: Vec<usize> = Vec::new();
    let mut d: usize = 0;
    let mut i: usize = 0;
    while i < ts.len()
        invariant
            i <= ts@.len(),
            d <= i,
            d == scan(ts@, sep, i as nat).0,
            r@.len() == scan(ts@, sep, i as nat).1.len(),
            forall|k: int| 0 <= k < r@.len() ==> r@[k] as int == #[trigger] scan(ts@, sep, i as nat).1[k],
        decreases ts.len() - i,
    {
        if d == 0 && separates_at(ts, i, sep) {
            r.push(i);
        } else {
            d = depth_after(ts, i, d);
        }
        i = i + 1;
    }
    r
}

fn token_lone_punct_is(t: &TokenTree, c: &str) -> (r: bool)
    ensures
        r == lone_punct_is(*t, c@),
{
    match t {
        TokenTree::Punct(s, j) => !*j && str_is(s, c),
        _ => false,
    }
}

/// Where the type of a single `via = <Type>` assignment ends, if the
/// argument list is one.
fn assignment_end(inner: &Vec<TokenTree>) -> (r: Option<usize>)
    ensures
        r is Some <==> is_via_assignment(inner@),
        r matches Some(hi) ==> hi == item_end(inner@, Separator::Comma, 0) && 2 <= hi <= inner@.len(),
{
    if !(inner.len() >= 3 && token_ident_is(&inner[0], "via") && token_lone_punct_is(&inner[1], "=")) {
        return None;
    }
    let seps = find_separators(inner, Separator::Comma);
    let count = count_items(inner, &seps, Separator::Comma);
    if count != 1 {
        return None;
    }
    let (_, hi) = item_bounds(inner, &seps, Separator::Comma, 0);
    proof {
        lemma_scan_positions(inner@, Separator::Comma, inner@.len());
        reveal_strlit(",");
        reveal_strlit("=");
        reveal_strlit("via");
        if seps@.len() > 0 {
            let p = separators(inner@, Separator::Comma)[0];
            assert(separates(inner@, p, Separator::Comma));
            assert(p != 0);
            assert(p != 1);
        }
    }
    Some(hi)
}

/// Reads the argument list of a derive: `via: <Type>` or `via = <Type>`.
pub fn parse_via(inner: &Vec<TokenTree>) -> (r: Result<String, Failure>)
    ensures
        text_result(r) == via_of(inner@),
{
    match assignment_end(inner) {
        Some(hi) => {
            let ty = render_slice(inner, 2, hi);
            if is_type(ty.as_str()) {
                Ok(ty)
            } else {
                Err(Failure::Error(ExpandError::ExpectedViaType))
            }
        },
        None => {
            let text = render_slice(inner, 0, inner.len());
            assert(inner@.subrange(0, inner@.len() as int) =~= inner@);
            via_from_shape(classify_fn_arg(text.as_str()), inner)
        },
    }
}

/// Finds the first single colon of a token stream.
fn find_first_colon(ts: &Vec<TokenTree>) -> (r: Option<usize>)
    ensures
        match r {
            Some(c) => first_colon(ts@, ts@.len()) == Some(c as int) && c < ts@.len(),
            None => first_colon(ts@, ts@.len()) is None,
        },
{
    let mut i: usize = 0;
    while i < ts.len()
        invariant
            i <= ts@.len(),
            first_colon(ts@, i as nat) is None,
        decreases ts.len() - i,
    {
        if token_lone_punct_is(&ts[i], ":") && !(i > 0 && token_joint_punct_is(&ts[i - 1], ":")) {
            proof {
                lemma_first_colon_settles(ts@, i as nat + 1, ts@.len());
            }
            return Some(i);
        }
        i = i + 1;
    }
    None
}

/// Once a colon is found, later tokens do not change which one is first.
proof fn lemma_first_colon_settles(ts: Seq<TokenTree>, j: nat, m: nat)
    requires
        j <= m,
        first_colon(ts, j) is Some,
    ensures
        first_colon(ts, m) == first_colon(ts, j),
    decreases m - j,
{
    if j < m {
        lemma_first_colon_settles(ts, j, (m - 1) as nat);
    }
}

/// The type that a `via: <Type>` argument names, given the shape that `syn`
/// reads in its tokens `inner`.
pub fn via_from_shape(shape: FnArgShape, inner: &Vec<TokenTree>) -> (r: Result<String, Failure>)
    ensures
        text_result(r) == via_from_arg(shape, inner@),
{
    match shape {
        FnArgShape::Receiver => Err(Failure::Abort(Abort::SelfReceiver)),
        FnArgShape::Typed => match find_first_colon(inner) {
            Some(c) => if c == 1 && token_ident_is(&inner[0], "via") {
                let ty = render_slice(inner, 2, inner.len());
                assert(inner@.subrange(2, inner@.len() as int) =~= inner@.skip(2));
                Ok(ty)
            } else {
                let pat = render_slice(inner, 0, c);
                assert(inner@.subrange(0, c as int) =~= inner@.take(c as int));
                Err(Failure::Error(ExpandError::ExpectedVia(pat)))
            },
            None => Err(Failure::Error(ExpandError::InvalidArgument)),
        },
        FnArgShape::Invalid => Err(Failure::Error(ExpandError::InvalidArgument)),
    }
}

fn single_ident_of(ts: &Vec<TokenTree>, lo: usize, hi: usize) -> (r: Option<String>)
    requires
        lo <= hi <= ts@.len(),
    ensures
        match r {
            Some(s) => single_ident(ts@.subrange(lo as int, hi as int)) == Some(s@),
            None => single_ident(ts@.subrange(lo as int, hi as int)) is None,
        },
{
    if hi - lo == 1 {
        match &ts[lo] {
            TokenTree::Ident(s) => Some(s.clone()),
            _ => None,
        }
    } else {
        None
    }
}

/// Reads one item of `#[deriving(..)]`: the tokens `ts[lo..hi]`.
pub fn parse_derive_item(ts: &Vec<TokenTree>, lo: usize, hi: usize) -> (r: Result<Derive, Failure>)
    requires
        lo <= hi <= ts@.len(),
    ensures
        derive_result(r) == derive_of_item(ts@.subrange(lo as int, hi as int)),
{
    let ghost c = ts@.subrange(lo as int, hi as int);
    let has_arg = hi - lo >= 2 && matches!(ts[hi - 1], TokenTree::Group(Delimiter::Parenthesis, _));
    assert(has_arg == has_argument(c));
    let path_end = if has_arg { hi - 1 } else { hi };
    assert(ts@.subrange(lo as int, path_end as int) =~= (if has_argument(c) { c.drop_last() } else { c }));
    let path = render_slice(ts, lo, path_end);
    if !is_path(path.as_str()) {
        return Err(Failure::Error(ExpandError::ExpectedPath));
    }
    let ident = single_ident_of(ts, lo, path_end);
    if has_arg {
        match &ts[hi - 1] {
            TokenTree::Group(_, inner) => match parse_via(inner) {
                Ok(ty) => Ok(Derive { ident, via: Some(ty) }),
                Err(e) => Err(e),
            },
            _ => Err(Failure::Error(ExpandError::ExpectedPath)),
        }
    } else {
        Ok(Derive { ident, via: None })
    }
}

/// The bounds of the `k`-th item, given the separator positions.
fn item_bounds(ts: &Vec<TokenTree>, seps: &Vec<usize>, sep: Separator, k: usize) -> (r: (usize, usize))
    requires
        k <= seps@.len(),
        seps@.len() == separators(ts@, sep).len(),
        forall|j: int| 0 <= j < seps@.len() ==> seps@[j] as int == #[trigger] separators(ts@, sep)[j],
    ensures
        r.0 == item_start(ts@, sep, k as int),
        r.1 == item_end(ts@, sep, k as int),
        r.0 <= r.1 <= ts@.len(),
{
    proof {
        lemma_scan_positions(ts@, sep, ts@.len());
    }
    let len = match sep { Separator::Comma => 1usize, Separator::Arrow => 2usize };
    assert(len == sep_len(sep));
    let n = ts.len();
    if k > 0 {
        assert(separators(ts@, sep)[k - 1] + sep_len(sep) <= n);
    }
    let lo = if k == 0 { 0 } else { seps[k - 1] + len };
    let hi = if k == seps.len() { ts.len() } else { seps[k] };
    proof {
        if 0 < k < seps@.len() {
            assert(separators(ts@, sep)[k - 1] + sep_len(sep) <= separators(ts@, sep)[k as int]);
        }
    }
    (lo, hi)
}

/// The number of items of a separated list.
fn count_items(ts: &Vec<TokenTree>, seps: &Vec<usize>, sep: Separator) -> (r: usize)
    requires
        seps@.len() == separators(ts@, sep).len(),
        forall|j: int| 0 <= j < seps@.len() ==> seps@[j] as int == #[trigger] separators(ts@, sep)[j],
    ensures
        r == item_count(ts@, sep),
        r <= seps@.len() + 1,
{
    let (lo, _) = item_bounds(ts, seps, sep, seps.len());
    let n = ts.len();
    proof {
        lemma_scan_positions(ts@, sep, ts@.len());
        if seps@.len() > 0 && lo < n {
            let last = seps@.len() - 1;
            assert(last <= separators(ts@, sep)[last]);
        }
    }
    if lo == ts.len() { seps.len() } else { seps.len() + 1 }
}

/// Reads the list inside `#[deriving(..)]`.
pub fn parse_derive_list(content: &Vec<TokenTree>) -> (r: Result<Vec<Derive>, Failure>)
    ensures
        derives_result(r) == derives_upto(content@, item_count(content@, Separator::Comma)),
{
    let seps = find_separators(content, Separator::Comma);
    let count = count_items(content, &seps, Separator::Comma);
    let mut out: Vec<Derive> = Vec::new();
    assert(out@.map_values(|d: Derive| d@) =~= Seq::<DeriveV>::empty());
    let mut k: usize = 0;
    while k < count
        invariant
            k <= count <= seps@.len() + 1,
            count == item_count(content@, Separator::Comma),
            seps@.len() == separators(content@, Separator::Comma).len(),
            forall|j: int| 0 <= j < seps@.len() ==> seps@[j] as int == #[trigger] separators(content@, Separator::Comma)[j],
            derives_upto(content@, k as nat) == Ok::<Seq<DeriveV>, FailureV>(out@.map_values(|d: Derive| d@)),
        decreases count - k,
    {
        let (lo, hi) = item_bounds(content, &seps, Separator::Comma, k);
        match parse_derive_item(content, lo, hi) {
            Ok(d) => {
                let ghost before = out@;
                let ghost dv = d@;
                out.push(d);
                assert(out@.map_values(|d: Derive| d@) =~= before.map_values(|d: Derive| d@).push(dv));
            },
            Err(e) => {
                proof {
                    lemma_derives_failure_persists(content@, k as nat + 1, count as nat);
                }
                return Err(e);
            },
        }
        k = k + 1;
    }
    Ok(out)
}

/// Reads the list inside `#[transitive(..)]`.
pub fn parse_type_list(content: &Vec<TokenTree>) -> (r: Result<Vec<String>, Failure>)
    ensures
        texts_result(r) == types_upto(content@, item_count(content@, Separator::Arrow)),
{
    let seps = find_separators(content, Separator::Arrow);
    let count = count_items(content, &seps, Separator::Arrow);
    let mut out: Vec<String> = Vec::new();
    assert(out@.map_values(|t: String| t@) =~= Seq::<Seq<char>>::empty());
    let mut k: usize = 0;
    while k < count
        invariant
            k <= count <= seps@.len() + 1,
            count == item_count(content@, Separator::Arrow),
            seps@.len() == separators(content@, Separator::Arrow).len(),
            forall|j: int| 0 <= j < seps@.len() ==> seps@[j] as int == #[trigger] separators(content@, Separator::Arrow)[j],
            types_upto(content@, k as nat) == Ok::<Seq<Seq<char>>, FailureV>(out@.map_values(|t: String| t@)),
        decreases count - k,
    {
        let (lo, hi) = item_bounds(content, &seps, Separator::Arrow, k);
        let text = render_slice(content, lo, hi);
        if is_type(text.as_str()) {
            let ghost before = out@;
            let ghost tv = text@;
            out.push(text);
            assert(out@.map_values(|t: String| t@) =~= before.map_values(|t: String| t@).push(tv));
        } else {
            proof {
                lemma_types_failure_persists(content@, k as nat + 1, count as nat);
            }
            return Err(Failure::Error(ExpandError::ExpectedType));
        }
        k = k + 1;
    }
    Ok(out)
}

/// Reads a `#[deriving(..)]` attribute.
pub fn parse_deriving(meta: &Vec<TokenTree>) -> (r: Result<Vec<Derive>, Failure>)
    ensures
        derives_result(r) == deriving_attribute(meta@),
{
    if !(meta.len() >= 1 && token_ident_is(&meta[0], "deriving")) {
        return Err(Failure::Error(ExpandError::ExpectedKeyword(Keyword::Deriving)));
    }
    if meta.len() < 2 {
        return Err(Failure::Error(ExpandError::ExpectedParentheses));
    }
    match &meta[1] {
        TokenTree::Group(Delimiter::Parenthesis, content) => match parse_derive_list(content) {
            Err(e) => Err(e),
            Ok(v) => if meta.len() > 2 {
                Err(Failure::Error(ExpandError::UnexpectedToken))
            } else {
                Ok(v)
            },
        },
        _ => Err(Failure::Error(ExpandError::ExpectedParentheses)),
    }
}

/// Reads a `#[transitive(..)]` attribute.
pub fn parse_transitive(meta: &Vec<TokenTree>) -> (r: Result<Vec<String>, Failure>)
    ensures
        texts_result(r) == transitive_attribute(meta@),
{
    if !(meta.len() >= 1 && token_ident_is(&meta[0], "transitive")) {
        return Err(Failure::Error(ExpandError::ExpectedKeyword(Keyword::Transitive)));
    }
    if meta.len() < 2 {
        return Err(Failure::Error(ExpandError::ExpectedParentheses));
    }
    match &meta[1] {
        TokenTree::Group(Delimiter::Parenthesis, content) => match parse_type_list(content) {
            Err(e) => Err(e),
            Ok(v) => if meta.len() > 2 {
                Err(Failure::Error(ExpandError::UnexpectedToken))
            } else {
                Ok(v)
            },
        },
        _ => Err(Failure::Error(ExpandError::ExpectedParentheses)),
    }
}

} // verus!
