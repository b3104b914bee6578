//! The front of a token stream: what stands there, and how it is taken off.
//!
//! Each step comes twice: as a spec function on token trees (`front_*`), and as a function that
//! has `syn` do the work. `syn` sees through invisible brackets, and so do the spec functions.
use proc_macro2::{Delimiter, Ident, Span, TokenStream};
use quote::ToTokens;
use syn::buffer::TokenBuffer;
use syn::ext::IdentExt;
use syn::parse::{ParseStream, Parser};
use syn::{LitStr, Type, Visibility};
use vstd::prelude::*;

use crate::token::{
    is_plain_word, past_invisible, start_of, string_literal, tokens_of, weight, Delim, Tok,
};

verus! {

/// Tokens yet to be read, and the position at which they end.
pub struct Input {
    /// What is left to read.
    pub tokens: TokenStream,
    /// Where an error is reported that comes of the tokens running out.
    pub scope: Span,
}

impl View for Input {
    type V = Seq<Tok>;

    open spec fn view(&self) -> Seq<Tok> {
        tokens_of(self.tokens)
    }
}

/// An identifier: its text, its position, and the token itself.
pub struct Name {
    pub text: String,
    pub span: Span,
    pub token: TokenStream,
}

impl Name {
    /// The token is the identifier with the text, at the position.
    pub open spec fn wf(self) -> bool {
        tokens_of(self.token) == seq![Tok::Ident(self.text@)] && start_of(self.token) == self.span
    }
}

/// A string literal: its value, and the token itself.
pub struct Text {
    pub value: String,
    pub token: TokenStream,
}

/// A piece of syntax in front of a stream.
pub struct Front {
    /// The tokens of the piece.
    pub node: TokenStream,
    /// The tokens behind it.
    pub rest: TokenStream,
    /// What is reported where a group inside the piece holds more than it should.
    pub unexpected: Option<Report>,
}

/// The tokens of a piece of syntax, those behind it, and what is said of a group inside it that
/// holds more than it should.
pub struct FrontModel {
    pub node: Seq<Tok>,
    pub rest: Seq<Tok>,
    pub unexpected: Option<Seq<char>>,
}

impl View for Front {
    type V = FrontModel;

    open spec fn view(&self) -> FrontModel {
        FrontModel {
            node: tokens_of(self.node),
            rest: tokens_of(self.rest),
            unexpected: option_message(self.unexpected),
        }
    }
}

// ---------------------------------------------------------------------------------------------
// Reports
// ---------------------------------------------------------------------------------------------
/// The tokens `::core::compile_error!{ "message" }`, by which an input is refused.
pub open spec fn refusal(message: Seq<char>) -> Seq<Tok> {
    seq![
        Tok::Punct(':', true),
        Tok::Punct(':', false),
        Tok::Ident("core"@),
        Tok::Punct(':', true),
        Tok::Punct(':', false),
        Tok::Ident("compile_error"@),
        Tok::Punct('!', false),
        Tok::Group(Delim::Brace, seq![Tok::Lit(string_literal(message))]),
    ]
}

/// What is said of tokens that do not begin as they should: that they ran out, where they did.
pub open spec fn at_front(tokens: Seq<Tok>, message: Seq<char>) -> Seq<char> {
    if tokens.len() == 0 {
        "unexpected end of input, "@ + message
    } else {
        message
    }
}

/// Why an input is refused, and the tokens that say so to the compiler.
pub struct Report {
    pub message: String,
    pub tokens: TokenStream,
}

impl View for Report {
    type V = Seq<char>;

    open spec fn view(&self) -> Seq<char> {
        self.message@
    }
}

impl Report {
    /// The tokens refuse the input with the message.
    pub open spec fn wf(self) -> bool {
        tokens_of(self.tokens) == refusal(self.message@)
    }
}

/// The message of a report, where there is one.
pub open spec fn option_message(report: Option<Report>) -> Option<Seq<char>> {
    match report {
        Some(report) => Some(report@),
        None => None,
    }
}

/// The report, where there is one, says to the compiler what it says.
pub open spec fn option_wf(report: Option<Report>) -> bool {
    report matches Some(report) ==> report.wf()
}

/// Refuses an input with a message at a position: `Error::new` of `syn`, which keeps the message,
/// rendered by its `to_compile_error` as an invocation of `compile_error!` with the message, which
/// stands at the position.
#[verifier::external_body]
pub(crate) fn refuse(span: Span, message: &str) -> (report: Report)
    ensures
        report.wf(),
        report@ == message@,
        start_of(report.tokens) == span,
{
    let error = syn::Error::new(span, message);
    Report { message: error.to_string(), tokens: error.to_compile_error() }
}

/// Refuses what is in front of the input: `ParseBuffer::error` of `syn`, which says so where there
/// is nothing left, rendered by `to_compile_error`.
#[verifier::external_body]
pub(crate) fn refuse_front(input: &Input, message: &str) -> (report: Report)
    ensures
        report.wf(),
        report@ == at_front(input@, message@),
{
    let parser = |stream: ParseStream| -> syn::Result<()> { Err(stream.error(message)) };
    let error = parser.__parse_scoped(input.scope, input.tokens.clone()).unwrap_err();
    Report { message: error.to_string(), tokens: error.to_compile_error() }
}

// ---------------------------------------------------------------------------------------------
// Identifiers
// ---------------------------------------------------------------------------------------------
/// The words that stand for no identifier unless they are written raw.
pub open spec fn is_keyword(word: Seq<char>) -> bool {
    ||| word == "_"@
    ||| word == "abstract"@
    ||| word == "as"@
    ||| word == "async"@
    ||| word == "await"@
    ||| word == "become"@
    ||| word == "box"@
    ||| word == "break"@
    ||| word == "const"@
    ||| word == "continue"@
    ||| word == "crate"@
    ||| word == "do"@
    ||| word == "dyn"@
    ||| word == "else"@
    ||| word == "enum"@
    ||| word == "extern"@
    ||| word == "false"@
    ||| word == "final"@
    ||| word == "fn"@
    ||| word == "for"@
    ||| word == "if"@
    ||| word == "impl"@
    ||| word == "in"@
    ||| word == "let"@
    ||| word == "loop"@
    ||| word == "macro"@
    ||| word == "match"@
    ||| word == "mod"@
    ||| word == "move"@
    ||| word == "mut"@
    ||| word == "override"@
    ||| word == "priv"@
    ||| word == "pub"@
    ||| word == "ref"@
    ||| word == "return"@
    ||| word == "Self"@
    ||| word == "self"@
    ||| word == "static"@
    ||| word == "struct"@
    ||| word == "super"@
    ||| word == "trait"@
    ||| word == "true"@
    ||| word == "try"@
    ||| word == "type"@
    ||| word == "typeof"@
    ||| word == "unsafe"@
    ||| word == "unsized"@
    ||| word == "use"@
    ||| word == "virtual"@
    ||| word == "where"@
    ||| word == "while"@
    ||| word == "yield"@
}

/// The identifier in front of the tokens and what is behind it, or the message that there is none.
pub open spec fn front_ident(tokens: Seq<Tok>) -> Result<(Seq<char>, Seq<Tok>), Seq<char>> {
    let seen = past_invisible(tokens);
    if seen.len() > 0 && seen[0] is Ident {
        let word = seen[0]->Ident_0;
        if is_keyword(word) {
            Err(at_front(tokens, "expected identifier, found keyword `"@ + word + "`"@))
        } else {
            Ok((word, seen.drop_first()))
        }
    } else {
        Err(at_front(tokens, "expected identifier"@))
    }
}

/// Takes an identifier off the front of the input: the parser of `syn::Ident`, which refuses the
/// keywords of the language and what is no identifier. Its position is where the input began.
#[verifier::external_body]
pub(crate) fn take_ident(input: &mut Input) -> (taken: Result<Name, Report>)
    ensures
        match (front_ident(old(input)@), taken) {
            (Ok((text, rest)), Ok(name)) => {
                &&& name.text@ == text
                &&& name.wf()
                &&& name.span == start_of(old(input).tokens)
                &&& final(input)@ == rest
            },
            (Err(message), Err(report)) => report.wf() && report@ == message,
            _ => false,
        },
{
    let parser = |stream: ParseStream| {
        Ok((stream.parse::<Ident>()?, stream.parse::<TokenStream>()?))
    };
    match parser.__parse_scoped(input.scope, input.tokens.clone()) {
        Ok((ident, rest)) => {
            input.tokens = rest;
            Ok(Name { text: ident.to_string(), span: ident.span(), token: ident.to_token_stream() })
        },
        Err(error) => Err(
            Report { message: error.to_string(), tokens: error.to_compile_error() },
        ),
    }
}

/// The identifier that a text reads as, if it reads as one: the text of what `Ident::parse_any` of
/// `syn` gets out of it. Letters that are written in parts may come out composed.
pub uninterp spec fn ident_reading(text: Seq<char>) -> Option<Seq<char>>;

/// A character that may stand round an identifier without being part of it: white space, a mark of
/// direction or of byte order, or the slash with which a comment begins.
pub open spec fn is_gap(c: char) -> bool {
    ||| c == '/'
    ||| ('\u{9}' <= c && c <= '\u{d}')
    ||| c == ' '
    ||| c == '\u{85}'
    ||| c == '\u{a0}'
    ||| c == '\u{1680}'
    ||| ('\u{2000}' <= c && c <= '\u{200a}')
    ||| c == '\u{200e}'
    ||| c == '\u{200f}'
    ||| c == '\u{2028}'
    ||| c == '\u{2029}'
    ||| c == '\u{202f}'
    ||| c == '\u{205f}'
    ||| c == '\u{3000}'
    ||| c == '\u{feff}'
}

/// A text that is an identifier, plain or raw, with nothing round it.
pub open spec fn is_ident(text: Seq<char>) -> bool {
    is_plain_word(text) || (ident_reading(text) is Some && forall|i: int|
        0 <= i < text.len() ==> !is_gap(#[trigger] text[i]))
}

/// The identifier that a text is.
pub open spec fn as_ident(text: Seq<char>) -> Seq<char> {
    if is_plain_word(text) {
        text
    } else {
        ident_reading(text).unwrap()
    }
}

/// Reads a text as an identifier, keywords included, with `Ident::parse_any` of `syn`, and gives it
/// a position. A word of ASCII letters, digits and underscores reads as itself. Of another text the
/// outcome is named [`ident_reading`].
#[verifier::external_body]
pub(crate) fn read_ident(text: &str, span: Span) -> (name: Option<Name>)
    ensures
        is_plain_word(text@) ==> (name matches Some(name) && name.text@ == text@),
        !is_plain_word(text@) ==> match (ident_reading(text@), name) {
            (Some(reading), Some(name)) => name.text@ == reading,
            (None, None) => true,
            _ => false,
        },
        name matches Some(name) ==> name.wf() && name.span == span,
{
    let mut ident = Ident::parse_any.parse_str(text).ok()?;
    ident.set_span(span);
    Some(Name { text: ident.to_string(), span, token: ident.to_token_stream() })
}

// ---------------------------------------------------------------------------------------------
// Punctuation
// ---------------------------------------------------------------------------------------------
/// What is behind the punctuation character in front of the tokens, if it is the given one.
pub open spec fn front_punct(tokens: Seq<Tok>, c: char) -> Option<Seq<Tok>> {
    let seen = past_invisible(tokens);
    if seen.len() > 0 && seen[0] is Punct && seen[0]->Punct_0 == c {
        Some(seen.drop_first())
    } else {
        None
    }
}

/// What is behind the arrow `=>` in front of the tokens, if it stands there.
pub open spec fn front_fat_arrow(tokens: Seq<Tok>) -> Option<Seq<Tok>> {
    let seen = past_invisible(tokens);
    if seen.len() > 0 && seen[0] == Tok::Punct('=', true) {
        front_punct(seen.drop_first(), '>')
    } else {
        None
    }
}

/// Takes `=>` off the front of the input: the parser of `syn::token::FatArrow`, which accepts just
/// that punctuation and otherwise says that it was expected.
#[verifier::external_body]
pub(crate) fn take_fat_arrow(input: &mut Input) -> (taken: Result<(), Report>)
    ensures
        match (front_fat_arrow(old(input)@), taken) {
            (Some(rest), Ok(())) => final(input)@ == rest,
            (None, Err(report)) => report.wf() && report@ == "expected `=>`"@,
            _ => false,
        },
{
    let parser = |stream: ParseStream| {
        Ok((stream.parse::<syn::token::FatArrow>()?, stream.parse::<TokenStream>()?))
    };
    match parser.__parse_scoped(input.scope, input.tokens.clone()) {
        Ok((_, rest)) => {
            input.tokens = rest;
            Ok(())
        },
        Err(error) => Err(
            Report { message: error.to_string(), tokens: error.to_compile_error() },
        ),
    }
}

/// Takes `;` off the front of the input: the parser of `syn::token::Semi`, which accepts just
/// that punctuation and otherwise says that it was expected.
#[verifier::external_body]
pub(crate) fn take_semi(input: &mut Input) -> (taken: Result<(), Report>)
    ensures
        match (front_punct(old(input)@, ';'), taken) {
            (Some(rest), Ok(())) => final(input)@ == rest,
            (None, Err(report)) => report.wf() && report@ == "expected `;`"@,
            _ => false,
        },
{
    let parser = |stream: ParseStream| {
        Ok((stream.parse::<syn::token::Semi>()?, stream.parse::<TokenStream>()?))
    };
    match parser.__parse_scoped(input.scope, input.tokens.clone()) {
        Ok((_, rest)) => {
            input.tokens = rest;
            Ok(())
        },
        Err(error) => Err(
            Report { message: error.to_string(), tokens: error.to_compile_error() },
        ),
    }
}

/// Takes `:` off the front of the input: the parser of `syn::token::Colon`, which accepts just
/// that punctuation and otherwise says that it was expected.
#[verifier::external_body]
pub(crate) fn take_colon(input: &mut Input) -> (taken: Result<(), Report>)
    ensures
        match (front_punct(old(input)@, ':'), taken) {
            (Some(rest), Ok(())) => final(input)@ == rest,
            (None, Err(report)) => report.wf() && report@ == "expected `:`"@,
            _ => false,
        },
{
    let parser = |stream: ParseStream| {
        Ok((stream.parse::<syn::token::Colon>()?, stream.parse::<TokenStream>()?))
    };
    match parser.__parse_scoped(input.scope, input.tokens.clone()) {
        Ok((_, rest)) => {
            input.tokens = rest;
            Ok(())
        },
        Err(error) => Err(
            Report { message: error.to_string(), tokens: error.to_compile_error() },
        ),
    }
}

/// Takes `,` off the front of the input, if it stands there: the parser of
/// `syn::token::Comma`, which accepts just that punctuation.
#[verifier::external_body]
pub(crate) fn take_comma(input: &mut Input) -> (taken: bool)
    ensures
        taken == (front_punct(old(input)@, ',') is Some),
        taken ==> final(input)@ == front_punct(old(input)@, ',').unwrap(),
        !taken ==> final(input)@ == old(input)@,
{
    let parser = |stream: ParseStream| {
        Ok((stream.parse::<syn::token::Comma>()?, stream.parse::<TokenStream>()?))
    };
    match parser.__parse_scoped(input.scope, input.tokens.clone()) {
        Ok((_, rest)) => {
            input.tokens = rest;
            true
        },
        Err(_) => false,
    }
}

/// Takes `|` off the front of the input, if it stands there: the parser of
/// `syn::token::Or`, which accepts just that punctuation.
#[verifier::external_body]
pub(crate) fn take_or(input: &mut Input) -> (taken: bool)
    ensures
        taken == (front_punct(old(input)@, '|') is Some),
        taken ==> final(input)@ == front_punct(old(input)@, '|').unwrap(),
        !taken ==> final(input)@ == old(input)@,
{
    let parser = |stream: ParseStream| {
        Ok((stream.parse::<syn::token::Or>()?, stream.parse::<TokenStream>()?))
    };
    match parser.__parse_scoped(input.scope, input.tokens.clone()) {
        Ok((_, rest)) => {
            input.tokens = rest;
            true
        },
        Err(_) => false,
    }
}

// ---------------------------------------------------------------------------------------------
// String literals
// ---------------------------------------------------------------------------------------------
/// The value of a literal that is written as given, if it is a string literal: what
/// `LitStr::value` of `syn` gives.
pub uninterp spec fn string_value(literal: Seq<char>) -> Option<Seq<char>>;

/// The string literal in front of the tokens, as its value and how it is written, and what is
/// behind it; or the message that there is none.
pub open spec fn front_string(tokens: Seq<Tok>) -> Result<
    (Seq<char>, Seq<char>, Seq<Tok>),
    Seq<char>,
> {
    let seen = past_invisible(tokens);
    if seen.len() > 0 && seen[0] is Lit && string_value(seen[0]->Lit_0) is Some {
        let written = seen[0]->Lit_0;
        Ok((string_value(written).unwrap(), written, seen.drop_first()))
    } else {
        Err(at_front(tokens, "expected string literal"@))
    }
}

/// Takes a string literal off the front of the input: the parser of `syn::LitStr`, with its
/// `value`, which is named [`string_value`] of how the literal is written.
#[verifier::external_body]
pub(crate) fn take_string(input: &mut Input) -> (taken: Result<Text, Report>)
    ensures
        match (front_string(old(input)@), taken) {
            (Ok((value, written, rest)), Ok(text)) => {
                &&& text.value@ == value
                &&& string_value(written) == Some(text.value@)
                &&& tokens_of(text.token) == seq![Tok::Lit(written)]
                &&& final(input)@ == rest
            },
            (Err(message), Err(report)) => report.wf() && report@ == message,
            _ => false,
        },
{
    let parser = |stream: ParseStream| {
        Ok((stream.parse::<LitStr>()?, stream.parse::<TokenStream>()?))
    };
    match parser.__parse_scoped(input.scope, input.tokens.clone()) {
        Ok((literal, rest)) => {
            input.tokens = rest;
            Ok(Text { value: literal.value(), token: literal.to_token_stream() })
        },
        Err(error) => Err(
            Report { message: error.to_string(), tokens: error.to_compile_error() },
        ),
    }
}

// ---------------------------------------------------------------------------------------------
// Visibilities and types
// ---------------------------------------------------------------------------------------------
/// The visibility in front of the tokens, as the parser of `syn::Visibility` reads it and `quote`
/// writes it again, or the message that it is faulty; where the tokens begin with an invisible
/// group, or with `pub` and a parenthesis.
pub uninterp spec fn other_visibility(tokens: Seq<Tok>) -> Result<FrontModel, Seq<char>>;

/// Whether the tokens begin with no visibility.
pub open spec fn begins_private(tokens: Seq<Tok>) -> bool {
    tokens.len() == 0 || (tokens[0] != Tok::Ident("pub"@) && !(tokens[0] is Group
        && tokens[0]->Group_0 is Invisible))
}

/// Whether the tokens begin with `pub` and no parenthesis behind it.
pub open spec fn begins_public(tokens: Seq<Tok>) -> bool {
    tokens.len() > 0 && tokens[0] == Tok::Ident("pub"@) && front_group(
        tokens.drop_first(),
        Delim::Parenthesis,
    ) is None
}

/// The visibility in front of the tokens, which may be none, and what is behind it, or the message
/// that it is faulty.
pub open spec fn front_visibility(tokens: Seq<Tok>) -> Result<FrontModel, Seq<char>> {
    if begins_private(tokens) {
        Ok(FrontModel { node: Seq::empty(), rest: tokens, unexpected: None })
    } else if begins_public(tokens) {
        Ok(
            FrontModel {
                node: seq![Tok::Ident("pub"@)],
                rest: tokens.drop_first(),
                unexpected: None,
            },
        )
    } else {
        other_visibility(tokens)
    }
}

/// The type in front of the tokens, as the parser of `syn::Type` reads it and `quote` writes it
/// again, or the message that there is none; where it is more than a name before `=`.
pub uninterp spec fn other_type(tokens: Seq<Tok>) -> Result<FrontModel, Seq<char>>;

/// Whether the tokens begin with a name that is no keyword, and `=` behind it.
pub open spec fn begins_named_type(tokens: Seq<Tok>) -> bool {
    &&& tokens.len() >= 2
    &&& tokens[0] is Ident
    &&& !is_keyword(tokens[0]->Ident_0)
    &&& tokens[1] is Punct
    &&& tokens[1]->Punct_0 == '='
}

/// The type in front of the tokens and what is behind it, or the message that there is none.
pub open spec fn front_type(tokens: Seq<Tok>) -> Result<FrontModel, Seq<char>> {
    if begins_named_type(tokens) {
        Ok(FrontModel { node: seq![tokens[0]], rest: tokens.drop_first(), unexpected: None })
    } else {
        other_type(tokens)
    }
}

/// The outcome of a read agrees with what was expected.
pub open spec fn front_agrees(
    expected: Result<FrontModel, Seq<char>>,
    front: Result<Front, Report>,
) -> bool {
    match (expected, front) {
        (Ok(expected), Ok(front)) => front@ == expected && option_wf(front.unexpected),
        (Err(message), Err(report)) => report.wf() && report@ == message,
        _ => false,
    }
}

/// Reads a visibility off the front of the input: the parser of `syn::Visibility`. It takes nothing
/// where there is neither `pub` nor an invisible group in front, and `pub` alone where no
/// parenthesis follows; else its outcome is named [`other_visibility`]. It leaves the end of what
/// it was given, no more than that. A group inside that holds too much does not stop the parser;
/// `syn` reports it once all is read, and it is found out here by a second run without a fork.
/// `syn` reports one message at a time.
#[verifier::external_body]
pub(crate) fn read_visibility(input: &Input) -> (front: Result<Front, Report>)
    ensures
        begins_private(input@) || begins_public(input@) ==> front_agrees(
            front_visibility(input@),
            front,
        ),
        !begins_private(input@) && !begins_public(input@) ==> front_agrees(
            other_visibility(input@),
            front,
        ),
        front matches Ok(front) ==> weight(tokens_of(front.rest)) <= weight(input@),
        front matches Ok(front) ==> begins_private(input@) ==> start_of(front.rest) == start_of(
            input.tokens,
        ),
{
    let strict = |stream: ParseStream| {
        stream.parse::<Visibility>()?;
        stream.parse::<TokenStream>()
    };
    let lenient = |stream: ParseStream| {
        let ahead = stream.fork();
        stream.parse::<TokenStream>()?;
        Ok((ahead.parse::<Visibility>()?, ahead.parse()?))
    };
    let report = |e: syn::Error| Report { message: e.to_string(), tokens: e.to_compile_error() };
    let unexpected = strict.__parse_scoped(input.scope, input.tokens.clone()).err().map(report);
    let parsed = lenient.__parse_scoped(input.scope, input.tokens.clone());
    let front = parsed.map(|(node, rest)| Front { node: node.to_token_stream(), rest, unexpected });
    front.map_err(report)
}

/// Reads a type off the front of the input: the parser of `syn::Type`. A name that is no keyword,
/// with `=` behind it, is taken for a type; else the outcome is named [`other_type`]. It leaves the
/// end of what it was given, no more than that. A group inside that holds too much does not stop
/// the parser; `syn` reports it once all is read, and it is found out here by a second run without
/// a fork. `syn` reports one message at a time.
#[verifier::external_body]
pub(crate) fn read_type(input: &Input) -> (front: Result<Front, Report>)
    ensures
        begins_named_type(input@) ==> front_agrees(front_type(input@), front),
        !begins_named_type(input@) ==> front_agrees(other_type(input@), front),
        front matches Ok(front) ==> weight(tokens_of(front.rest)) <= weight(input@),
{
    let strict = |stream: ParseStream| {
        stream.parse::<Type>()?;
        stream.parse::<TokenStream>()
    };
    let lenient = |stream: ParseStream| {
        let ahead = stream.fork();
        stream.parse::<TokenStream>()?;
        Ok((ahead.parse::<Type>()?, ahead.parse()?))
    };
    let report = |e: syn::Error| Report { message: e.to_string(), tokens: e.to_compile_error() };
    let unexpected = strict.__parse_scoped(input.scope, input.tokens.clone()).err().map(report);
    let parsed = lenient.__parse_scoped(input.scope, input.tokens.clone());
    let front = parsed.map(|(node, rest)| Front { node: node.to_token_stream(), rest, unexpected });
    front.map_err(report)
}

// ---------------------------------------------------------------------------------------------
// Groups
// ---------------------------------------------------------------------------------------------
/// What a group in front of the tokens holds and what is behind it, if a group in these brackets
/// stands there.
pub open spec fn front_group(tokens: Seq<Tok>, delim: Delim) -> Option<(Seq<Tok>, Seq<Tok>)> {
    let seen = if delim is Invisible {
        tokens
    } else {
        past_invisible(tokens)
    };
    if seen.len() > 0 && seen[0] is Group && seen[0]->Group_0 == delim {
        Some((seen[0]->Group_1, seen.drop_first()))
    } else {
        None
    }
}

/// Takes a group in the given brackets off the front of the input: `Cursor::group` of `syn`, which
/// sees through invisible brackets unless it is asked for them.
#[verifier::external_body]
pub(crate) fn take_group(input: &mut Input, delim: Delim) -> (taken: Option<Input>)
    ensures
        match (front_group(old(input)@, delim), taken) {
            (Some((inner, rest)), Some(group)) => group@ == inner && final(input)@ == rest,
            (None, None) => final(input)@ == old(input)@,
            _ => false,
        },
{
    let buffer = TokenBuffer::new2(input.tokens.clone());
    let (inner, span, rest) = buffer.begin().group(match delim {
        Delim::Parenthesis => Delimiter::Parenthesis,
        Delim::Brace => Delimiter::Brace,
        Delim::Bracket => Delimiter::Bracket,
        Delim::Invisible => Delimiter::None,
    })?;
    input.tokens = rest.token_stream();
    Some(Input { tokens: inner.token_stream(), scope: span.close() })
}

/// The position of the front of the input: `Cursor::span` of `syn`. Nothing is claimed of it.
#[verifier::external_body]
pub(crate) fn front_span(input: &Input) -> Span {
    TokenBuffer::new2(input.tokens.clone()).begin().span()
}

} // verus!
