//! Token streams: what they hold, and how one is taken apart and put together.
//!
//! The streams themselves are those of `proc_macro2`. A contract speaks of [`tokens_of`] a stream,
//! the sequence of its token trees. Positions in the source (spans) travel along with the tokens
//! but are not part of that sequence: a span is a handle into the compiler at work, and two of
//! them cannot be compared. Where a stream begins is [`start_of`] it.
use proc_macro2::{Delimiter, Group, Ident, Literal, Punct, Spacing, Span, TokenStream, TokenTree};
use vstd::prelude::*;

verus! {

/// The brackets round a group of tokens.
#[derive(Clone, Copy, Debug, PartialEq, Eq, Structural)]
pub enum Delim {
    /// `( .. )`
    Parenthesis,
    /// `{ .. }`
    Brace,
    /// `[ .. ]`
    Bracket,
    /// No brackets: what a macro variable stood for.
    Invisible,
}

/// One token tree, without its position in the source.
pub enum Tok {
    /// An identifier or keyword, with `r#` in front where it is a raw one.
    Ident(Seq<char>),
    /// A punctuation character, and whether another one follows it without a gap.
    Punct(char, bool),
    /// A literal, as it is written.
    Lit(Seq<char>),
    /// A group of tokens in its brackets.
    Group(Delim, Seq<Tok>),
}

/// `proc_macro2::TokenStream`, opaque: see [`tokens_of`].
#[verifier::external_type_specification]
#[verifier::external_body]
pub struct ExTokenStream(proc_macro2::TokenStream);

/// `proc_macro2::Span`, opaque: a position in the source, carried along and never read.
#[verifier::external_type_specification]
#[verifier::external_body]
pub struct ExSpan(proc_macro2::Span);

/// The token trees that a stream holds, in order.
pub uninterp spec fn tokens_of(stream: TokenStream) -> Seq<Tok>;

/// The position of the first token that a stream holds, seen past invisible brackets.
pub uninterp spec fn start_of(stream: TokenStream) -> Span;

/// What each of several streams holds.
pub open spec fn all_tokens_of(streams: Seq<TokenStream>) -> Seq<Seq<Tok>> {
    streams.map_values(|stream: TokenStream| tokens_of(stream))
}

/// `TokenStream::new` of `proc_macro2` gives a stream that holds nothing.
pub assume_specification[ TokenStream::new ]() -> (stream: TokenStream)
    ensures
        tokens_of(stream) == Seq::<Tok>::empty(),
;

/// `TokenStream::is_empty` of `proc_macro2` tells whether the stream holds nothing.
pub assume_specification[ TokenStream::is_empty ](stream: &TokenStream) -> (empty: bool)
    ensures
        empty == (tokens_of(*stream).len() == 0),
;

/// The clone of a `proc_macro2` stream holds the same tokens, at the same positions.
pub assume_specification[ <TokenStream as Clone>::clone ](stream: &TokenStream) -> (copy:
    TokenStream)
    ensures
        tokens_of(copy) == tokens_of(*stream),
        start_of(copy) == start_of(*stream),
;

/// `Span::call_site` of `proc_macro2`: the position at which the macro was invoked. Nothing is
/// claimed of it.
pub assume_specification[ Span::call_site ]() -> Span;

// ---------------------------------------------------------------------------------------------
// Measures and invisible groups
// ---------------------------------------------------------------------------------------------
/// The number of tokens in a tree, groups and what they hold counted.
pub open spec fn tree_weight(tree: Tok) -> nat
    decreases tree,
{
    match tree {
        Tok::Group(_, inner) => 1 + weight(inner),
        _ => 1,
    }
}

/// The number of tokens in a sequence of trees, groups and what they hold counted.
pub open spec fn weight(tokens: Seq<Tok>) -> nat
    decreases tokens,
{
    if tokens.len() == 0 {
        0
    } else {
        tree_weight(tokens[0]) + weight(tokens.drop_first())
    }
}

/// The weight of two sequences, one behind the other, is the sum of their weights.
pub proof fn lemma_weight_concat(first: Seq<Tok>, second: Seq<Tok>)
    ensures
        weight(first + second) == weight(first) + weight(second),
    decreases first.len(),
{
    if first.len() == 0 {
        assert(first + second =~= second);
    } else {
        assert((first + second).drop_first() =~= first.drop_first() + second);
        lemma_weight_concat(first.drop_first(), second);
    }
}

/// The tokens as a reader meets them that takes no notice of invisible brackets: where the first
/// tree is an invisible group, what it holds stands in its place.
pub open spec fn past_invisible(tokens: Seq<Tok>) -> Seq<Tok>
    decreases weight(tokens),
{
    if tokens.len() == 0 {
        tokens
    } else {
        match tokens[0] {
            Tok::Group(Delim::Invisible, inner) => {
                proof {
                    lemma_weight_concat(inner, tokens.drop_first());
                    assert(tree_weight(tokens[0]) == 1 + weight(inner));
                }
                past_invisible(inner + tokens.drop_first())
            },
            _ => tokens,
        }
    }
}

/// Looking past invisible brackets adds no token, and what is then in front, if anything, is no
/// invisible group.
pub proof fn lemma_past_invisible(tokens: Seq<Tok>)
    ensures
        weight(past_invisible(tokens)) <= weight(tokens),
        past_invisible(tokens).len() > 0 ==> weight(past_invisible(tokens).drop_first())
            + tree_weight(past_invisible(tokens)[0]) <= weight(tokens),
        past_invisible(tokens).len() > 0 ==> tree_weight(past_invisible(tokens)[0]) >= 1,
    decreases weight(tokens),
{
    if tokens.len() > 0 {
        match tokens[0] {
            Tok::Group(Delim::Invisible, inner) => {
                lemma_weight_concat(inner, tokens.drop_first());
                assert(tree_weight(tokens[0]) == 1 + weight(inner));
                lemma_past_invisible(inner + tokens.drop_first());
            },
            _ => {},
        }
    }
}

// ---------------------------------------------------------------------------------------------
// Putting streams together
// ---------------------------------------------------------------------------------------------
/// An ASCII letter or an underscore.
pub open spec fn is_word_start(c: char) -> bool {
    ('a' <= c && c <= 'z') || ('A' <= c && c <= 'Z') || c == '_'
}

/// An ASCII letter, an underscore or an ASCII digit.
pub open spec fn is_word_char(c: char) -> bool {
    is_word_start(c) || ('0' <= c && c <= '9')
}

/// A word that can stand as an identifier or keyword, made of ASCII letters, digits and
/// underscores.
pub open spec fn is_plain_word(word: Seq<char>) -> bool {
    &&& word.len() > 0
    &&& is_word_start(word[0])
    &&& forall|i: int| 0 <= i < word.len() ==> is_word_char(#[trigger] word[i])
}

/// A character that can stand as a punctuation token.
pub open spec fn is_punctuation(c: char) -> bool {
    c == '!' || c == '#' || c == '$' || c == '%' || c == '&' || c == '\'' || c == '*' || c == '+'
        || c == ',' || c == '-' || c == '.' || c == '/' || c == ':' || c == ';' || c == '<' || c
        == '=' || c == '>' || c == '?' || c == '@' || c == '^' || c == '|' || c == '~'
}

/// The decimal digits of a number.
pub open spec fn decimal(n: nat) -> Seq<char>
    decreases n,
{
    if n < 10 {
        seq![(48 + n) as char]
    } else {
        decimal(n / 10).push((48 + n % 10) as char)
    }
}

/// How a string literal with the given value is written: the text of `Literal::string` of
/// `proc_macro2`.
pub uninterp spec fn string_literal(value: Seq<char>) -> Seq<char>;

/// Adds the tokens of one stream to another with `TokenStream::extend` of `proc_macro2`: they come
/// behind those that were there.
#[verifier::external_body]
pub(crate) fn append(stream: &mut TokenStream, more: TokenStream)
    ensures
        tokens_of(*final(stream)) == tokens_of(*old(stream)) + tokens_of(more),
{
    stream.extend([more]);
}

/// Adds an identifier made by `Ident::new` of `proc_macro2`, which takes every legal identifier
/// and keyword, and those made of ASCII letters, digits and underscores among them.
#[verifier::external_body]
pub(crate) fn append_word(stream: &mut TokenStream, word: &str)
    requires
        is_plain_word(word@),
    ensures
        tokens_of(*final(stream)) == tokens_of(*old(stream)).push(Tok::Ident(word@)),
{
    stream.extend([TokenTree::Ident(Ident::new(word, Span::call_site()))]);
}

/// Adds a punctuation token made by `Punct::new` of `proc_macro2`, which takes the characters of
/// [`is_punctuation`] and panics on others.
#[verifier::external_body]
pub(crate) fn append_punct(stream: &mut TokenStream, c: char, joint: bool)
    requires
        is_punctuation(c),
    ensures
        tokens_of(*final(stream)) == tokens_of(*old(stream)).push(Tok::Punct(c, joint)),
{
    let spacing = if joint { Spacing::Joint } else { Spacing::Alone };
    stream.extend([TokenTree::Punct(Punct::new(c, spacing))]);
}

/// Adds a string literal made by `Literal::string` of `proc_macro2`. How it is written is named
/// [`string_literal`] of the value.
#[verifier::external_body]
pub(crate) fn append_string(stream: &mut TokenStream, value: &str)
    ensures
        tokens_of(*final(stream)) == tokens_of(*old(stream)).push(Tok::Lit(string_literal(value@))),
{
    stream.extend([TokenTree::Literal(Literal::string(value))]);
}

/// Adds the literal of `Literal::usize_suffixed` of `proc_macro2`: the digits, then `usize`.
#[verifier::external_body]
pub(crate) fn append_count(stream: &mut TokenStream, n: usize)
    ensures
        tokens_of(*final(stream)) == tokens_of(*old(stream)).push(
            Tok::Lit(decimal(n as nat) + "usize"@),
        ),
{
    stream.extend([TokenTree::Literal(Literal::usize_suffixed(n))]);
}

/// Adds the literal of `Literal::usize_unsuffixed` of `proc_macro2`: the digits alone.
#[verifier::external_body]
pub(crate) fn append_index(stream: &mut TokenStream, n: usize)
    ensures
        tokens_of(*final(stream)) == tokens_of(*old(stream)).push(Tok::Lit(decimal(n as nat))),
{
    stream.extend([TokenTree::Literal(Literal::usize_unsuffixed(n))]);
}

/// Adds a group made by `Group::new` of `proc_macro2` of the given brackets and what they hold.
#[verifier::external_body]
pub(crate) fn append_group(stream: &mut TokenStream, delim: Delim, inner: TokenStream)
    ensures
        tokens_of(*final(stream)) == tokens_of(*old(stream)).push(
            Tok::Group(delim, tokens_of(inner)),
        ),
{
    let delimiter = match delim {
        Delim::Parenthesis => Delimiter::Parenthesis,
        Delim::Brace => Delimiter::Brace,
        Delim::Bracket => Delimiter::Bracket,
        Delim::Invisible => Delimiter::None,
    };
    stream.extend([TokenTree::Group(Group::new(delimiter, inner))]);
}

} // verus!
