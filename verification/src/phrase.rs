//! Short phrases of tokens, by which longer code is written out.
use vstd::prelude::*;

use crate::token::{string_literal, Delim, Tok};

verus! {

/// `first :: second`
pub open spec fn path(first: Seq<char>, second: Seq<char>) -> Seq<Tok> {
    seq![Tok::Ident(first), Tok::Punct(':', true), Tok::Punct(':', false), Tok::Ident(second)]
}

/// `first :: second :: third`
pub open spec fn path_of_three(first: Seq<char>, second: Seq<char>, third: Seq<char>) -> Seq<Tok> {
    path(first, second) + seq![
        Tok::Punct(':', true),
        Tok::Punct(':', false),
        Tok::Ident(third),
    ]
}

/// `( .. )`
pub open spec fn round(inner: Seq<Tok>) -> Seq<Tok> {
    seq![Tok::Group(Delim::Parenthesis, inner)]
}

/// `{ .. }`
pub open spec fn curly(inner: Seq<Tok>) -> Seq<Tok> {
    seq![Tok::Group(Delim::Brace, inner)]
}

/// `vec ! [ .. ]`
pub open spec fn vec_of(items: Seq<Tok>) -> Seq<Tok> {
    seq![Tok::Ident("vec"@), Tok::Punct('!', false)] + seq![Tok::Group(Delim::Bracket, items)]
}

/// A string literal.
pub open spec fn quoted(value: Seq<char>) -> Seq<Tok> {
    seq![Tok::Lit(string_literal(value))]
}

/// A single identifier or keyword.
pub open spec fn one(word: Seq<char>) -> Seq<Tok> {
    seq![Tok::Ident(word)]
}

/// A character that is joined to none.
pub open spec fn mark(c: char) -> Seq<Tok> {
    seq![Tok::Punct(c, false)]
}

} // verus!
