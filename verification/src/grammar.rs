//! The grammar of a symbol definition, as a function on token trees.
//!
//! ```text
//! visibility category Name {
//!     context operation Type => "protocol";
//!     param name: type;
//!     optional param name: type;
//!     returns (type, ..);
//! }
//! ```
//!
//! Each function here says what is read off the front of the tokens and what is left behind it, or
//! the message with which it refuses them. A group of which something is left unread does not stop
//! the reading: the first such group is kept in mind (`unexpected`), and the input is refused for
//! it once everything else has been read.
//!
//! Where a function goes on with what a step left behind, it asks that this be less than what the
//! step was given (`weight`). It always is, and so the reading comes to an end.
use vstd::prelude::*;

use crate::syntax::{
    at_front, front_fat_arrow, front_group, front_ident, front_punct, front_string, front_type,
    front_visibility,
};
use crate::token::{lemma_past_invisible, past_invisible, tree_weight, weight, Delim, Tok};
use crate::trade_type::{type_named, DslType};

verus! {

// ---------------------------------------------------------------------------------------------
// What a definition says
// ---------------------------------------------------------------------------------------------
/// What a symbol does with a context.
#[derive(Clone, Copy, Debug, PartialEq, Eq, Structural)]
pub enum CtxOp {
    /// It makes the context.
    Produce,
    /// It reads the context.
    Need,
    /// It takes the context away.
    Consume,
}

/// What kind of symbol is defined.
#[derive(Clone, Copy, Debug, PartialEq, Eq, Structural)]
pub enum Category {
    Monitor,
    Executor,
    DataItem,
    Condition,
}

/// A context of a symbol: its type, and the protocol under which it is kept, as the value and the
/// token of the literal.
pub struct ContextModel {
    pub op: CtxOp,
    pub ty: Seq<Tok>,
    pub protocol: Seq<char>,
    pub literal: Seq<Tok>,
}

/// A parameter of a symbol.
pub struct ParamModel {
    pub name: Seq<char>,
    pub ty: DslType,
    pub required: bool,
}

/// One of the clauses in the braces of a definition.
pub enum Item {
    Context(ContextModel),
    Param(ParamModel),
    Returns(Seq<DslType>),
}

/// The contexts among clauses, in order.
pub open spec fn contexts_of(items: Seq<Item>) -> Seq<ContextModel>
    decreases items.len(),
{
    if items.len() == 0 {
        Seq::empty()
    } else {
        let before = contexts_of(items.drop_last());
        match items.last() {
            Item::Context(context) => before.push(context),
            _ => before,
        }
    }
}

/// The parameters among clauses, in order.
pub open spec fn params_of(items: Seq<Item>) -> Seq<ParamModel>
    decreases items.len(),
{
    if items.len() == 0 {
        Seq::empty()
    } else {
        let before = params_of(items.drop_last());
        match items.last() {
            Item::Param(param) => before.push(param),
            _ => before,
        }
    }
}

/// The return types that the last clause names which names any.
pub open spec fn returns_of(items: Seq<Item>) -> Option<Seq<DslType>>
    decreases items.len(),
{
    if items.len() == 0 {
        None
    } else {
        match items.last() {
            Item::Returns(types) => Some(types),
            _ => returns_of(items.drop_last()),
        }
    }
}

/// What the clauses in the braces of a definition come to.
pub struct Clauses {
    pub contexts: Seq<ContextModel>,
    pub params: Seq<ParamModel>,
    pub returns: Option<Seq<DslType>>,
}

impl Clauses {
    /// What the given clauses come to.
    pub open spec fn of(items: Seq<Item>) -> Clauses {
        Clauses {
            contexts: contexts_of(items),
            params: params_of(items),
            returns: returns_of(items),
        }
    }

    /// With one clause more.
    pub open spec fn with(self, item: Item) -> Clauses {
        match item {
            Item::Context(context) => Clauses { contexts: self.contexts.push(context), ..self },
            Item::Param(param) => Clauses { params: self.params.push(param), ..self },
            Item::Returns(types) => Clauses { returns: Some(types), ..self },
        }
    }
}

/// One clause more is added to what those before it come to.
pub proof fn lemma_clauses_with(items: Seq<Item>, item: Item)
    ensures
        Clauses::of(items.push(item)) == Clauses::of(items).with(item),
{
    assert(items.push(item).drop_last() =~= items);
}

/// A symbol definition.
pub struct SymbolModel {
    pub vis: Seq<Tok>,
    pub category: Category,
    pub name: Seq<char>,
    pub clauses: Clauses,
}

/// A definition, clause by clause.
pub struct Outline {
    pub vis: Seq<Tok>,
    pub category: Category,
    pub name: Seq<char>,
    pub items: Seq<Item>,
}

impl Outline {
    /// What the definition comes to.
    pub open spec fn symbol(self) -> SymbolModel {
        SymbolModel {
            vis: self.vis,
            category: self.category,
            name: self.name,
            clauses: Clauses::of(self.items),
        }
    }
}

/// The category with the given name.
pub open spec fn category_named(name: Seq<char>) -> Option<Category> {
    if name == "monitor"@ {
        Some(Category::Monitor)
    } else if name == "executor"@ {
        Some(Category::Executor)
    } else if name == "data_item"@ {
        Some(Category::DataItem)
    } else if name == "condition"@ {
        Some(Category::Condition)
    } else {
        None
    }
}

/// The operation with the given name.
pub open spec fn op_named(name: Seq<char>) -> Option<CtxOp> {
    if name == "produce"@ {
        Some(CtxOp::Produce)
    } else if name == "need"@ {
        Some(CtxOp::Need)
    } else if name == "consume"@ {
        Some(CtxOp::Consume)
    } else {
        None
    }
}

// ---------------------------------------------------------------------------------------------
// Unread tokens
// ---------------------------------------------------------------------------------------------
/// Something read, what is left behind it, and the first group of which something was left unread.
pub struct Parsed<T> {
    pub value: T,
    pub rest: Seq<Tok>,
    pub unexpected: Option<Seq<char>>,
}

/// What is said of a token that nothing reads, by the brackets that it stands in.
pub open spec fn unread_message(delim: Delim) -> Seq<char> {
    match delim {
        Delim::Parenthesis => "unexpected token, expected `)`"@,
        Delim::Brace => "unexpected token, expected `}`"@,
        Delim::Bracket => "unexpected token, expected `]`"@,
        Delim::Invisible => "unexpected token"@,
    }
}

/// What is said of tokens that nothing reads, if there are any: of the first that is more than
/// invisible brackets.
pub open spec fn unread(tokens: Seq<Tok>, delim: Delim) -> Option<Seq<char>>
    decreases weight(tokens),
{
    if tokens.len() == 0 {
        None
    } else {
        match tokens[0] {
            Tok::Group(Delim::Invisible, inner) => {
                proof {
                    assert(tree_weight(tokens[0]) == 1 + weight(inner));
                }
                match unread(inner, Delim::Invisible) {
                    Some(message) => Some(message),
                    None => unread(tokens.drop_first(), delim),
                }
            },
            _ => Some(unread_message(delim)),
        }
    }
}

/// The first of two messages.
pub open spec fn first_message(first: Option<Seq<char>>, second: Option<Seq<char>>) -> Option<
    Seq<char>,
> {
    if first is Some {
        first
    } else {
        second
    }
}

// ---------------------------------------------------------------------------------------------
// Types
// ---------------------------------------------------------------------------------------------
/// A type that is no choice: a name, a list `[Name]`, or a tuple `(type, ..)`.
pub open spec fn single_type(tokens: Seq<Tok>, unexpected: Option<Seq<char>>) -> Result<
    Parsed<DslType>,
    Seq<char>,
>
    decreases weight(tokens), 0nat,
{
    match front_group(tokens, Delim::Bracket) {
        Some((inner, rest)) => match front_ident(inner) {
            Ok((name, behind)) => Ok(
                Parsed {
                    value: DslType::List(Box::new(type_named(name))),
                    rest,
                    unexpected: first_message(unexpected, unread(behind, Delim::Bracket)),
                },
            ),
            Err(message) => Err(message),
        },
        None => match front_group(tokens, Delim::Parenthesis) {
            Some((inner, rest)) => {
                proof {
                    lemma_front_group(tokens, Delim::Parenthesis);
                }
                match tuple_types(inner, unexpected, Seq::empty()) {
                    Ok(items) => Ok(
                        Parsed {
                            value: DslType::Tuple(items.value),
                            rest,
                            unexpected: first_message(
                                items.unexpected,
                                unread(items.rest, Delim::Parenthesis),
                            ),
                        },
                    ),
                    Err(message) => Err(message),
                }
            },
            None => match front_ident(tokens) {
                Ok((name, rest)) => Ok(Parsed { value: type_named(name), rest, unexpected }),
                Err(message) => Err(message),
            },
        },
    }
}

/// The types of a tuple, behind those read before: separated by commas, up to the end or to what is
/// no comma.
pub open spec fn tuple_types(
    tokens: Seq<Tok>,
    unexpected: Option<Seq<char>>,
    before: Seq<DslType>,
) -> Result<Parsed<Seq<DslType>>, Seq<char>>
    decreases weight(tokens), 2nat,
{
    if tokens.len() == 0 {
        Ok(Parsed { value: before, rest: tokens, unexpected })
    } else {
        match trade_type(tokens, unexpected) {
            Ok(item) => match front_punct(item.rest, ',') {
                Some(rest) => if weight(rest) < weight(tokens) {
                    tuple_types(rest, item.unexpected, before.push(item.value))
                } else {
                    Err(Seq::empty())
                },
                None => Ok(
                    Parsed {
                        value: before.push(item.value),
                        rest: item.rest,
                        unexpected: item.unexpected,
                    },
                ),
            },
            Err(message) => Err(message),
        }
    }
}

/// A type, or a choice of types separated by `|`.
pub open spec fn trade_type(tokens: Seq<Tok>, unexpected: Option<Seq<char>>) -> Result<
    Parsed<DslType>,
    Seq<char>,
>
    decreases weight(tokens), 1nat,
{
    match single_type(tokens, unexpected) {
        Ok(first) => match front_punct(first.rest, '|') {
            Some(rest) => if weight(rest) < weight(tokens) {
                choice_types(rest, first.unexpected, seq![first.value])
            } else {
                Err(Seq::empty())
            },
            None => Ok(first),
        },
        Err(message) => Err(message),
    }
}

/// The types of a choice, behind those read before.
pub open spec fn choice_types(
    tokens: Seq<Tok>,
    unexpected: Option<Seq<char>>,
    before: Seq<DslType>,
) -> Result<Parsed<DslType>, Seq<char>>
    decreases weight(tokens), 1nat,
{
    match single_type(tokens, unexpected) {
        Ok(next) => match front_punct(next.rest, '|') {
            Some(rest) => if weight(rest) < weight(tokens) {
                choice_types(rest, next.unexpected, before.push(next.value))
            } else {
                Err(Seq::empty())
            },
            None => Ok(
                Parsed {
                    value: DslType::Union(before.push(next.value)),
                    rest: next.rest,
                    unexpected: next.unexpected,
                },
            ),
        },
        Err(message) => Err(message),
    }
}

// ---------------------------------------------------------------------------------------------
// Clauses
// ---------------------------------------------------------------------------------------------
/// ` => "protocol";`, behind an operation and a type.
pub open spec fn context_behind_type(op: CtxOp, ty: Seq<Tok>, tokens: Seq<Tok>) -> Result<
    (ContextModel, Seq<Tok>),
    Seq<char>,
> {
    match front_fat_arrow(tokens) {
        None => Err("expected `=>`"@),
        Some(rest) => match front_string(rest) {
            Err(message) => Err(message),
            Ok((protocol, written, rest)) => match front_punct(rest, ';') {
                None => Err("expected `;`"@),
                Some(rest) => Ok(
                    (ContextModel { op, ty, protocol, literal: seq![Tok::Lit(written)] }, rest),
                ),
            },
        },
    }
}

/// `operation Type => "protocol";`
pub open spec fn context_clause(tokens: Seq<Tok>, unexpected: Option<Seq<char>>) -> Result<
    Parsed<Item>,
    Seq<char>,
> {
    match front_ident(tokens) {
        Err(message) => Err(message),
        Ok((word, rest)) => match op_named(word) {
            None => Err("Expected 'produce', 'need', or 'consume', got '"@ + word + "'"@),
            Some(op) => match front_type(rest) {
                Err(message) => Err(message),
                Ok(ty) => match context_behind_type(op, ty.node, ty.rest) {
                    Err(message) => Err(message),
                    Ok((context, rest)) => Ok(
                        Parsed {
                            value: Item::Context(context),
                            rest,
                            unexpected: first_message(unexpected, ty.unexpected),
                        },
                    ),
                },
            },
        },
    }
}

/// `name: type;`
pub open spec fn param_clause(
    tokens: Seq<Tok>,
    unexpected: Option<Seq<char>>,
    required: bool,
) -> Result<Parsed<Item>, Seq<char>> {
    match front_ident(tokens) {
        Err(message) => Err(message),
        Ok((name, rest)) => match front_punct(rest, ':') {
            None => Err("expected `:`"@),
            Some(rest) => match trade_type(rest, unexpected) {
                Err(message) => Err(message),
                Ok(ty) => match front_punct(ty.rest, ';') {
                    None => Err("expected `;`"@),
                    Some(rest) => Ok(
                        Parsed {
                            value: Item::Param(ParamModel { name, ty: ty.value, required }),
                            rest,
                            unexpected: ty.unexpected,
                        },
                    ),
                },
            },
        },
    }
}

/// `param name: type;`, behind `optional`. The word before the name may be any.
pub open spec fn optional_clause(tokens: Seq<Tok>, unexpected: Option<Seq<char>>) -> Result<
    Parsed<Item>,
    Seq<char>,
> {
    match front_ident(tokens) {
        Err(message) => Err(message),
        Ok((_, rest)) => param_clause(rest, unexpected, false),
    }
}

/// The names of return types, behind those read before: separated by commas, up to the end or to
/// what is no comma.
pub open spec fn return_types(tokens: Seq<Tok>, before: Seq<DslType>) -> Result<
    (Seq<DslType>, Seq<Tok>),
    Seq<char>,
>
    decreases weight(tokens),
{
    if tokens.len() == 0 {
        Ok((before, tokens))
    } else {
        match front_ident(tokens) {
            Err(message) => Err(message),
            Ok((name, behind)) => match front_punct(behind, ',') {
                Some(rest) => if weight(rest) < weight(tokens) {
                    return_types(rest, before.push(type_named(name)))
                } else {
                    Err(Seq::empty())
                },
                None => Ok((before.push(type_named(name)), behind)),
            },
        }
    }
}

/// `(Name, ..);` or `Name;`
pub open spec fn returns_clause(tokens: Seq<Tok>, unexpected: Option<Seq<char>>) -> Result<
    Parsed<Item>,
    Seq<char>,
> {
    match front_group(tokens, Delim::Parenthesis) {
        Some((inner, rest)) => match return_types(inner, Seq::empty()) {
            Err(message) => Err(message),
            Ok((types, behind)) => match front_punct(rest, ';') {
                None => Err("expected `;`"@),
                Some(rest) => Ok(
                    Parsed {
                        value: Item::Returns(types),
                        rest,
                        unexpected: first_message(unexpected, unread(behind, Delim::Parenthesis)),
                    },
                ),
            },
        },
        None => match front_ident(tokens) {
            Err(message) => Err(message),
            Ok((name, rest)) => match front_punct(rest, ';') {
                None => Err("expected `;`"@),
                Some(rest) => Ok(
                    Parsed { value: Item::Returns(seq![type_named(name)]), rest, unexpected },
                ),
            },
        },
    }
}

/// A clause, by the word that it begins with.
pub open spec fn clause(tokens: Seq<Tok>, unexpected: Option<Seq<char>>) -> Result<
    Parsed<Item>,
    Seq<char>,
> {
    match front_ident(tokens) {
        Err(message) => Err(message),
        Ok((word, rest)) => if word == "context"@ {
            context_clause(rest, unexpected)
        } else if word == "param"@ {
            param_clause(rest, unexpected, true)
        } else if word == "optional"@ {
            optional_clause(rest, unexpected)
        } else if word == "returns"@ {
            returns_clause(rest, unexpected)
        } else {
            Err("Expected 'context', 'param', 'optional', or 'returns', got '"@ + word + "'"@)
        },
    }
}

/// Whether the tokens begin with a word that is the name of no operation.
pub open spec fn unknown_operation(tokens: Seq<Tok>) -> bool {
    front_ident(tokens) is Ok && op_named(front_ident(tokens)->Ok_0.0) is None
}

/// Whether the tokens begin with a word that begins no clause.
pub open spec fn unknown_clause(tokens: Seq<Tok>) -> bool {
    front_ident(tokens) is Ok && {
        let word = front_ident(tokens)->Ok_0.0;
        word != "context"@ && word != "param"@ && word != "optional"@ && word != "returns"@
    }
}

/// All clauses up to the end of the tokens, behind those read before.
pub open spec fn all_clauses(
    tokens: Seq<Tok>,
    unexpected: Option<Seq<char>>,
    before: Seq<Item>,
) -> Result<(Seq<Item>, Option<Seq<char>>), Seq<char>>
    decreases weight(tokens),
{
    if tokens.len() == 0 {
        Ok((before, unexpected))
    } else {
        match clause(tokens, unexpected) {
            Err(message) => Err(message),
            Ok(next) => if weight(next.rest) < weight(tokens) {
                all_clauses(next.rest, next.unexpected, before.push(next.value))
            } else {
                Err(Seq::empty())
            },
        }
    }
}

// ---------------------------------------------------------------------------------------------
// Definitions
// ---------------------------------------------------------------------------------------------
/// Whether the tokens begin with a word that is the name of no category.
pub open spec fn unknown_category(tokens: Seq<Tok>) -> bool {
    front_ident(tokens) is Ok && category_named(front_ident(tokens)->Ok_0.0) is None
}

/// `category Name { .. }`, behind a visibility.
pub open spec fn outline_behind_visibility(
    vis: Seq<Tok>,
    tokens: Seq<Tok>,
    unexpected: Option<Seq<char>>,
) -> Result<Parsed<Outline>, Seq<char>> {
    match front_ident(tokens) {
        Err(message) => Err(message),
        Ok((word, rest)) => match category_named(word) {
            None => Err(
                "Expected 'monitor', 'executor', 'data_item', or 'condition', got '"@ + word + "'"@,
            ),
            Some(category) => match front_ident(rest) {
                Err(message) => Err(message),
                Ok((name, rest)) => match front_group(rest, Delim::Brace) {
                    None => Err(at_front(rest, "expected curly braces"@)),
                    Some((inner, rest)) => match all_clauses(inner, unexpected, Seq::empty()) {
                        Err(message) => Err(message),
                        Ok((items, unexpected)) => Ok(
                            Parsed {
                                value: Outline { vis, category, name, items },
                                rest,
                                unexpected,
                            },
                        ),
                    },
                },
            },
        },
    }
}

/// `visibility category Name { .. }`
pub open spec fn outline(tokens: Seq<Tok>, unexpected: Option<Seq<char>>) -> Result<
    Parsed<Outline>,
    Seq<char>,
> {
    match front_visibility(tokens) {
        Err(message) => Err(message),
        Ok(vis) => outline_behind_visibility(
            vis.node,
            vis.rest,
            first_message(unexpected, vis.unexpected),
        ),
    }
}

/// A whole input: one definition, of which nothing is left unread, and nothing behind it.
pub open spec fn whole_outline(tokens: Seq<Tok>) -> Result<Outline, Seq<char>> {
    match outline(tokens, None) {
        Err(message) => Err(message),
        Ok(parsed) => match first_message(
            parsed.unexpected,
            unread(parsed.rest, Delim::Invisible),
        ) {
            Some(message) => Err(message),
            None => Ok(parsed.value),
        },
    }
}

/// What a whole input comes to.
pub open spec fn whole_definition(tokens: Seq<Tok>) -> Result<SymbolModel, Seq<char>> {
    match whole_outline(tokens) {
        Err(message) => Err(message),
        Ok(outline) => Ok(outline.symbol()),
    }
}

// ---------------------------------------------------------------------------------------------
// Every step reads something
// ---------------------------------------------------------------------------------------------
/// An identifier read leaves fewer tokens.
pub proof fn lemma_front_ident(tokens: Seq<Tok>)
    ensures
        front_ident(tokens) matches Ok((_, rest)) ==> weight(rest) < weight(tokens),
{
    lemma_past_invisible(tokens);
}

/// Punctuation read leaves fewer tokens.
pub proof fn lemma_front_punct(tokens: Seq<Tok>, c: char)
    ensures
        front_punct(tokens, c) matches Some(rest) ==> weight(rest) < weight(tokens),
{
    lemma_past_invisible(tokens);
}

/// An arrow read leaves fewer tokens.
pub proof fn lemma_front_fat_arrow(tokens: Seq<Tok>)
    ensures
        front_fat_arrow(tokens) matches Some(rest) ==> weight(rest) < weight(tokens),
{
    lemma_past_invisible(tokens);
    if past_invisible(tokens).len() > 0 {
        lemma_front_punct(past_invisible(tokens).drop_first(), '>');
    }
}

/// A string literal read leaves fewer tokens.
pub proof fn lemma_front_string(tokens: Seq<Tok>)
    ensures
        front_string(tokens) matches Ok((_, _, rest)) ==> weight(rest) < weight(tokens),
{
    lemma_past_invisible(tokens);
}

/// What a group in front holds and what is behind it are together fewer tokens.
pub proof fn lemma_front_group(tokens: Seq<Tok>, delim: Delim)
    ensures
        front_group(tokens, delim) matches Some((inner, rest)) ==> weight(inner) + weight(rest)
            < weight(tokens),
{
    lemma_past_invisible(tokens);
    if front_group(tokens, delim) is Some {
        let seen = if delim is Invisible {
            tokens
        } else {
            past_invisible(tokens)
        };
        assert(tree_weight(seen[0]) == 1 + weight(seen[0]->Group_1));
    }
}

/// A type that is no choice leaves fewer tokens.
pub proof fn lemma_single_type(tokens: Seq<Tok>, unexpected: Option<Seq<char>>)
    ensures
        single_type(tokens, unexpected) matches Ok(parsed) ==> weight(parsed.rest) < weight(tokens),
{
    lemma_front_group(tokens, Delim::Bracket);
    lemma_front_group(tokens, Delim::Parenthesis);
    lemma_front_ident(tokens);
}

/// The types of a choice leave fewer tokens.
pub proof fn lemma_choice_types(
    tokens: Seq<Tok>,
    unexpected: Option<Seq<char>>,
    before: Seq<DslType>,
)
    ensures
        choice_types(tokens, unexpected, before) matches Ok(parsed) ==> weight(parsed.rest)
            < weight(tokens),
    decreases weight(tokens),
{
    lemma_single_type(tokens, unexpected);
    if let Ok(next) = single_type(tokens, unexpected) {
        lemma_front_punct(next.rest, '|');
        if let Some(rest) = front_punct(next.rest, '|') {
            lemma_choice_types(rest, next.unexpected, before.push(next.value));
        }
    }
}

/// A type leaves fewer tokens.
pub proof fn lemma_trade_type(tokens: Seq<Tok>, unexpected: Option<Seq<char>>)
    ensures
        trade_type(tokens, unexpected) matches Ok(parsed) ==> weight(parsed.rest) < weight(tokens),
{
    lemma_single_type(tokens, unexpected);
    if let Ok(first) = single_type(tokens, unexpected) {
        lemma_front_punct(first.rest, '|');
        if let Some(rest) = front_punct(first.rest, '|') {
            lemma_choice_types(rest, first.unexpected, seq![first.value]);
        }
    }
}

} // verus!
