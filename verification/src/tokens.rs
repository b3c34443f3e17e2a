//! A plain model of the token trees that an attribute carries, and their text.

use vstd::prelude::*;
use vstd::string::*;

verus! {

/// The delimiter of a token group.
#[derive(Clone, Copy, PartialEq, Eq, Structural, Debug)]
pub enum Delimiter {
    Parenthesis,
    Brace,
    Bracket,
    Invisible,
}

/// One token tree: an identifier, a punctuation character, a literal or a
/// delimited group of token trees.
#[derive(Debug)]
pub enum TokenTree {
    Ident(String),
    /// A single punctuation character; `true` when it is joined to the next one.
    Punct(String, bool),
    Literal(String),
    Group(Delimiter, Vec<TokenTree>),
}

/// The text that opens a group; braces are followed by a space.
pub open spec fn open_text(d: Delimiter) -> Seq<char> {
    match d {
        Delimiter::Parenthesis => "("@,
        Delimiter::Brace => "{ "@,
        Delimiter::Bracket => "["@,
        Delimiter::Invisible => ""@,
    }
}

/// The text that closes a group; braces around something are preceded by a
/// space.
pub open spec fn close_text(d: Delimiter, empty: bool) -> Seq<char> {
    match d {
        Delimiter::Parenthesis => ")"@,
        Delimiter::Brace => if empty { "}"@ } else { " }"@ },
        Delimiter::Bracket => "]"@,
        Delimiter::Invisible => ""@,
    }
}

/// The text of one token tree.
pub open spec fn tree_text(t: TokenTree) -> Seq<char>
    decreases t,
{
    match t {
        TokenTree::Ident(s) => s@,
        TokenTree::Punct(s, _) => s@,
        TokenTree::Literal(s) => s@,
        TokenTree::Group(d, inner) => open_text(d) + stream_text(inner@) + close_text(d, inner@.len() == 0),
    }
}

/// Whether a space follows this token when a stream is printed.
pub open spec fn spaced(t: TokenTree) -> bool {
    !(t matches TokenTree::Punct(_, true))
}

/// The separator printed after a token when another one follows it.
pub open spec fn gap(t: TokenTree) -> Seq<char> {
    if spaced(t) { " "@ } else { ""@ }
}

/// The text of a token stream: token texts, separated by one space except
/// after a joined punctuation character.
pub open spec fn stream_text(ts: Seq<TokenTree>) -> Seq<char>
    decreases ts,
{
    if ts.len() == 0 {
        Seq::empty()
    } else if ts.len() == 1 {
        tree_text(ts[0])
    } else {
        stream_text(ts.drop_last()) + gap(ts[ts.len() - 2]) + tree_text(ts.last())
    }
}

fn delimiters(d: Delimiter, empty: bool) -> (r: (&'static str, &'static str))
    ensures
        r.0@ == open_text(d),
        r.1@ == close_text(d, empty),
{
    match d {
        Delimiter::Parenthesis => ("(", ")"),
        Delimiter::Brace => ("{ ", if empty { "}" } else { " }" }),
        Delimiter::Bracket => ("[", "]"),
        Delimiter::Invisible => ("", ""),
    }
}

fn gap_str(t: &TokenTree) -> (r: &'static str)
    ensures
        r@ == gap(*t),
{
    match t {
        TokenTree::Punct(_, true) => "",
        _ => " ",
    }
}

/// Prints one token tree.
pub fn render_tree(t: &TokenTree) -> (r: String)
    ensures
        r@ == tree_text(*t),
    decreases t, 2nat,
{
    match t {
        TokenTree::Ident(s) => s.clone(),
        TokenTree::Punct(s, _) => s.clone(),
        TokenTree::Literal(s) => s.clone(),
        TokenTree::Group(d, inner) => {
            let (o, c) = delimiters(*d, inner.len() == 0);
            let mut r = String::from_str(o);
            let body = render_stream(inner);
            r.append(body.as_str());
            r.append(c);
            r
        },
    }
}

/// Prints the tokens `ts[lo..hi]`.
pub fn render_slice(ts: &Vec<TokenTree>, lo: usize, hi: usize) -> (r: String)
    requires
        lo <= hi <= ts@.len(),
    ensures
        r@ == stream_text(ts@.subrange(lo as int, hi as int)),
    decreases ts, 0nat,
{
    let mut r = String::new();
    let mut i: usize = lo;
    while i < hi
        invariant
            lo <= i <= hi <= ts@.len(),
            r@ == stream_text(ts@.subrange(lo as int, i as int)),
        decreases hi - i,
    {
        assert(decreases_to!(ts => ts@[i as int]));
        let piece = render_tree(&ts[i]);
        let ghost before = r@;
        if i > lo {
            r.append(gap_str(&ts[i - 1]));
        }
        r.append(piece.as_str());
        proof {
            let p = ts@.subrange(lo as int, i as int + 1);
            assert(p.drop_last() =~= ts@.subrange(lo as int, i as int));
            if i == lo {
                assert(before =~= Seq::<char>::empty());
                assert(r@ =~= tree_text(ts@[i as int]));
            }
        }
        i = i + 1;
    }
    r
}

/// Prints a token stream.
pub fn render_stream(ts: &Vec<TokenTree>) -> (r: String)
    ensures
        r@ == stream_text(ts@),
    decreases ts, 1nat,
{
    assert(ts@.subrange(0, ts@.len() as int) =~= ts@);
    render_slice(ts, 0, ts.len())
}

} // verus!
