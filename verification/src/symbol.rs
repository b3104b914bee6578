//! A symbol definition, and how it is read.
//!
//! What is read off which tokens, and what is said of tokens that cannot be read, is the matter of
//! [`crate::grammar`].
use proc_macro2::{Span, TokenStream};
use vstd::prelude::*;

use crate::grammar::{
    all_clauses, category_named, choice_types, clause, context_behind_type, context_clause,
    first_message, lemma_clauses_with, lemma_front_fat_arrow, lemma_front_group, lemma_front_ident,
    lemma_front_punct, lemma_front_string, lemma_single_type, lemma_trade_type, op_named, outline,
    outline_behind_visibility, param_clause, return_types, returns_clause, single_type, trade_type,
    tuple_types, unknown_category, unknown_clause, unknown_operation, unread, whole_definition,
    Category, Clauses, ContextModel, CtxOp, Item, Outline, ParamModel, Parsed, SymbolModel,
};
use crate::syntax::{
    begins_private, front_group, front_span, option_message, option_wf, read_type, read_visibility,
    refuse, refuse_front, take_colon, take_comma, take_fat_arrow, take_group, take_ident, take_or,
    take_semi, take_string, Front, Input, Name, Report, Text,
};
use crate::text::{same_text, surrounded};
use crate::token::{start_of, tokens_of, weight, Delim, Tok};
use crate::trade_type::{models, type_named, DslType, TradeType};

verus! {

/// A context of a symbol.
pub struct ContextDef {
    /// What the symbol does with it.
    pub op: CtxOp,
    /// Its type.
    pub ty: TokenStream,
    /// The name under which it is kept.
    pub protocol: Text,
}

/// A parameter of a symbol.
pub struct ParamDef {
    pub name: Name,
    pub trade_type: TradeType,
    pub required: bool,
}

/// The return types of a symbol.
pub struct ReturnsDef {
    pub types: Vec<TradeType>,
}

/// A symbol definition.
pub struct SymbolDef {
    pub vis: TokenStream,
    pub category: Category,
    pub name: Name,
    pub contexts: Vec<ContextDef>,
    pub params: Vec<ParamDef>,
    pub returns: Option<ReturnsDef>,
}

impl ContextDef {
    /// What the context is, as contracts speak of it.
    pub open spec fn model(self) -> ContextModel {
        ContextModel {
            op: self.op,
            ty: tokens_of(self.ty),
            protocol: self.protocol.value@,
            literal: tokens_of(self.protocol.token),
        }
    }
}

impl ParamDef {
    /// What the parameter is, as contracts speak of it.
    pub open spec fn model(self) -> ParamModel {
        ParamModel {
            name: self.name.text@,
            ty: self.trade_type.model(),
            required: self.required,
        }
    }
}

/// What several contexts are, as contracts speak of them.
pub open spec fn context_models(contexts: Seq<ContextDef>) -> Seq<ContextModel> {
    contexts.map_values(|context: ContextDef| context.model())
}

/// What several parameters are, as contracts speak of them.
pub open spec fn param_models(params: Seq<ParamDef>) -> Seq<ParamModel> {
    params.map_values(|param: ParamDef| param.model())
}

/// The return types, as contracts speak of them.
pub open spec fn returns_model(declared: Option<ReturnsDef>) -> Option<Seq<DslType>> {
    match declared {
        Some(def) => Some(models(def.types@)),
        None => None,
    }
}

/// The tokens that the parameters keep of their names are their names.
pub open spec fn names_wf(params: Seq<ParamDef>) -> bool {
    forall|i: int| 0 <= i < params.len() ==> (#[trigger] params[i]).name.wf()
}

impl SymbolDef {
    /// The tokens that the definition keeps of names are those names.
    pub open spec fn wf(self) -> bool {
        self.name.wf() && names_wf(self.params@)
    }

    /// What the definition says, as contracts speak of it.
    pub open spec fn model(self) -> SymbolModel {
        SymbolModel {
            vis: tokens_of(self.vis),
            category: self.category,
            name: self.name.text@,
            clauses: Clauses {
                contexts: context_models(self.contexts@),
                params: param_models(self.params@),
                returns: returns_model(self.returns),
            },
        }
    }
}

// ---------------------------------------------------------------------------------------------
// Unread tokens
// ---------------------------------------------------------------------------------------------
/// The report on tokens that nothing reads, if there are any.
fn unread_report(input: Input, delim: Delim) -> (report: Option<Report>)
    ensures
        option_wf(report),
        option_message(report) == unread(input@, delim),
    decreases weight(input@),
{
    if input.tokens.is_empty() {
        return None;
    }
    let ghost tokens = input@;
    let mut rest: Input = input;
    match take_group(&mut rest, Delim::Invisible) {
        Some(inner) => {
            proof {
                lemma_front_group(tokens, Delim::Invisible);
            }
            match unread_report(inner, Delim::Invisible) {
                Some(report) => Some(report),
                None => unread_report(rest, delim),
            }
        },
        None => {
            let message: &str = match delim {
                Delim::Parenthesis => "unexpected token, expected `)`",
                Delim::Brace => "unexpected token, expected `}`",
                Delim::Bracket => "unexpected token, expected `]`",
                Delim::Invisible => "unexpected token",
            };
            Some(refuse(front_span(&rest), message))
        },
    }
}

/// Keeps a report in mind, unless there is one before it.
fn note(unexpected: &mut Option<Report>, report: Option<Report>)
    requires
        option_wf(*old(unexpected)),
        option_wf(report),
    ensures
        option_wf(*final(unexpected)),
        option_message(*final(unexpected)) == first_message(
            option_message(*old(unexpected)),
            option_message(report),
        ),
{
    if unexpected.is_none() {
        *unexpected = report;
    }
}

// ---------------------------------------------------------------------------------------------
// Types
// ---------------------------------------------------------------------------------------------
/// A type was read, or refused, as the grammar has it.
pub open spec fn type_read(
    expected: Result<Parsed<DslType>, Seq<char>>,
    taken: Result<TradeType, Report>,
    rest: Seq<Tok>,
    unexpected: Option<Report>,
) -> bool {
    match (expected, taken) {
        (Ok(parsed), Ok(ty)) => {
            &&& ty.model() == parsed.value
            &&& rest == parsed.rest
            &&& option_wf(unexpected)
            &&& option_message(unexpected) == parsed.unexpected
        },
        (Err(message), Err(report)) => report.wf() && report@ == message,
        _ => false,
    }
}

/// Reads a type that is no choice: `Name`, `[Name]` or `(type, ..)`.
pub fn parse_single_trade_type(input: &mut Input, unexpected: &mut Option<Report>) -> (taken:
    Result<TradeType, Report>)
    requires
        option_wf(*old(unexpected)),
    ensures
        type_read(
            single_type(old(input)@, option_message(*old(unexpected))),
            taken,
            final(input)@,
            *final(unexpected),
        ),
    decreases weight(old(input)@), 0nat,
{
    let ghost tokens = input@;
    let ghost reports = option_message(*unexpected);
    if let Some(mut inner) = take_group(input, Delim::Bracket) {
        let name: Name = match take_ident(&mut inner) {
            Ok(name) => name,
            Err(report) => {
                return Err(report);
            },
        };
        note(unexpected, unread_report(inner, Delim::Bracket));
        return Ok(TradeType::List(Box::new(TradeType::from_ident(name.text.as_str()))));
    }
    if let Some(mut inner) = take_group(input, Delim::Parenthesis) {
        proof {
            lemma_front_group(tokens, Delim::Parenthesis);
        }
        let ghost within = inner@;
        let mut types: Vec<TradeType> = Vec::new();
        assert(models(types@) =~= Seq::empty());
        while !inner.tokens.is_empty()
            invariant_except_break
                tuple_types(within, reports, Seq::empty()) == tuple_types(
                    inner@,
                    option_message(*unexpected),
                    models(types@),
                ),
            invariant
                tokens == old(input)@,
                reports == option_message(*old(unexpected)),
                option_wf(*unexpected),
                front_group(tokens, Delim::Bracket) is None,
                front_group(tokens, Delim::Parenthesis) == Some((within, input@)),
                weight(within) < weight(tokens),
                weight(inner@) <= weight(within),
            ensures
                tuple_types(within, reports, Seq::empty()) == Ok::<_, Seq<char>>(
                    Parsed {
                        value: models(types@),
                        rest: inner@,
                        unexpected: option_message(*unexpected),
                    },
                ),
            decreases weight(inner@),
        {
            let ghost before = inner@;
            let ghost seen = option_message(*unexpected);
            let ghost held = models(types@);
            proof {
                lemma_trade_type(before, seen);
            }
            let ty: TradeType = match parse_trade_type(&mut inner, unexpected) {
                Ok(ty) => ty,
                Err(report) => {
                    return Err(report);
                },
            };
            types.push(ty);
            assert(models(types@) =~= held.push(ty.model()));
            proof {
                lemma_front_punct(inner@, ',');
            }
            if !take_comma(&mut inner) {
                break ;
            }
        }
        note(unexpected, unread_report(inner, Delim::Parenthesis));
        let tuple: TradeType = TradeType::Tuple(types);
        assert(tuple.model()->Tuple_0 =~= models(types@));
        return Ok(tuple);
    }
    let name: Name = match take_ident(input) {
        Ok(name) => name,
        Err(report) => {
            return Err(report);
        },
    };
    Ok(TradeType::from_ident(name.text.as_str()))
}

/// Reads a type, or a choice of types separated by `|`.
pub fn parse_trade_type(input: &mut Input, unexpected: &mut Option<Report>) -> (taken: Result<
    TradeType,
    Report,
>)
    requires
        option_wf(*old(unexpected)),
    ensures
        type_read(
            trade_type(old(input)@, option_message(*old(unexpected))),
            taken,
            final(input)@,
            *final(unexpected),
        ),
    decreases weight(old(input)@), 1nat,
{
    let ghost tokens = input@;
    let ghost reports = option_message(*unexpected);
    proof {
        lemma_single_type(tokens, reports);
    }
    let first: TradeType = match parse_single_trade_type(input, unexpected) {
        Ok(first) => first,
        Err(report) => {
            return Err(report);
        },
    };
    proof {
        lemma_front_punct(input@, '|');
    }
    if !take_or(input) {
        return Ok(first);
    }
    let mut types: Vec<TradeType> = vec![first];
    assert(models(types@) =~= seq![first.model()]);
    loop
        invariant_except_break
            trade_type(tokens, reports) == choice_types(
                input@,
                option_message(*unexpected),
                models(types@),
            ),
        invariant
            tokens == old(input)@,
            reports == option_message(*old(unexpected)),
            option_wf(*unexpected),
            weight(input@) < weight(tokens),
        ensures
            trade_type(tokens, reports) == Ok::<_, Seq<char>>(
                Parsed {
                    value: DslType::Union(models(types@)),
                    rest: input@,
                    unexpected: option_message(*unexpected),
                },
            ),
        decreases weight(input@),
    {
        let ghost before = input@;
        let ghost seen = option_message(*unexpected);
        let ghost held = models(types@);
        proof {
            lemma_single_type(before, seen);
        }
        let next: TradeType = match parse_single_trade_type(input, unexpected) {
            Ok(next) => next,
            Err(report) => {
                return Err(report);
            },
        };
        types.push(next);
        assert(models(types@) =~= held.push(next.model()));
        proof {
            lemma_front_punct(input@, '|');
        }
        if !take_or(input) {
            break ;
        }
    }
    let union: TradeType = TradeType::Union(types);
    assert(union.model()->Union_0 =~= models(types@));
    Ok(union)
}

// ---------------------------------------------------------------------------------------------
// Clauses
// ---------------------------------------------------------------------------------------------
/// What stands in the braces of a definition, as far as it is read.
struct Body {
    contexts: Vec<ContextDef>,
    params: Vec<ParamDef>,
    outcome: Option<ReturnsDef>,
}

impl Body {
    /// The tokens that the parameters keep of their names are their names.
    spec fn wf(self) -> bool {
        names_wf(self.params@)
    }

    /// What has been read, as contracts speak of it.
    spec fn model(self) -> Clauses {
        Clauses {
            contexts: context_models(self.contexts@),
            params: param_models(self.params@),
            returns: returns_model(self.outcome),
        }
    }
}

/// A clause was read and added to what was read before, or refused, as the grammar has it.
spec fn clause_read(
    expected: Result<Parsed<Item>, Seq<char>>,
    taken: Result<(), Report>,
    before: Body,
    body: Body,
    rest: Seq<Tok>,
    unexpected: Option<Report>,
) -> bool {
    match (expected, taken) {
        (Ok(parsed), Ok(())) => {
            &&& body.wf()
            &&& body.model() == before.model().with(parsed.value)
            &&& rest == parsed.rest
            &&& option_wf(unexpected)
            &&& option_message(unexpected) == parsed.unexpected
        },
        (Err(message), Err(report)) => report.wf() && report@ == message,
        _ => false,
    }
}

/// Reads ` => "protocol";`, behind an operation and a type.
pub fn parse_behind_type(op: CtxOp, ty: TokenStream, input: &mut Input) -> (taken: Result<
    ContextDef,
    Report,
>)
    ensures
        match (context_behind_type(op, tokens_of(ty), old(input)@), taken) {
            (Ok((expected, rest)), Ok(context)) => {
                &&& context.model() == expected
                &&& final(input)@ == rest
                &&& weight(rest) < weight(old(input)@)
            },
            (Err(message), Err(report)) => report.wf() && report@ == message,
            _ => false,
        },
{
    proof {
        lemma_front_fat_arrow(input@);
    }
    match take_fat_arrow(input) {
        Ok(()) => {},
        Err(report) => {
            return Err(report);
        },
    }
    proof {
        lemma_front_string(input@);
    }
    let protocol: Text = match take_string(input) {
        Ok(protocol) => protocol,
        Err(report) => {
            return Err(report);
        },
    };
    proof {
        lemma_front_punct(input@, ';');
    }
    match take_semi(input) {
        Ok(()) => {},
        Err(report) => {
            return Err(report);
        },
    }
    Ok(ContextDef { op, ty, protocol })
}

/// What a symbol does with a context, by the word for it. Another word is refused where it stands.
pub fn operation_of(word: &Name) -> (op: Result<CtxOp, Report>)
    ensures
        match (op_named(word.text@), op) {
            (Some(expected), Ok(op)) => op == expected,
            (None, Err(report)) => {
                &&& report.wf()
                &&& report@ == "Expected 'produce', 'need', or 'consume', got '"@ + word.text@
                    + "'"@
                &&& start_of(report.tokens) == word.span
            },
            _ => false,
        },
{
    if same_text(word.text.as_str(), "produce") {
        Ok(CtxOp::Produce)
    } else if same_text(word.text.as_str(), "need") {
        Ok(CtxOp::Need)
    } else if same_text(word.text.as_str(), "consume") {
        Ok(CtxOp::Consume)
    } else {
        let message: String = surrounded(
            "Expected 'produce', 'need', or 'consume', got '",
            word.text.as_str(),
            "'",
        );
        Err(refuse(word.span, message.as_str()))
    }
}

/// Reads `operation Type => "protocol";` and adds the context.
fn parse_context(input: &mut Input, unexpected: &mut Option<Report>, body: &mut Body) -> (taken:
    Result<(), Report>)
    requires
        option_wf(*old(unexpected)),
        old(body).wf(),
    ensures
        clause_read(
            context_clause(old(input)@, option_message(*old(unexpected))),
            taken,
            *old(body),
            *final(body),
            final(input)@,
            *final(unexpected),
        ),
        unknown_operation(old(input)@) ==> (taken matches Err(report) && start_of(report.tokens)
            == start_of(old(input).tokens)),
        taken is Ok ==> weight(final(input)@) < weight(old(input)@),
{
    proof {
        lemma_front_ident(input@);
    }
    let word: Name = match take_ident(input) {
        Ok(word) => word,
        Err(report) => {
            return Err(report);
        },
    };
    let op: CtxOp = match operation_of(&word) {
        Ok(op) => op,
        Err(report) => {
            return Err(report);
        },
    };
    let front: Front = match read_type(input) {
        Ok(front) => front,
        Err(report) => {
            return Err(report);
        },
    };
    input.tokens = front.rest;
    note(unexpected, front.unexpected);
    let context: ContextDef = match parse_behind_type(op, front.node, input) {
        Ok(context) => context,
        Err(report) => {
            return Err(report);
        },
    };
    let ghost held = context_models(body.contexts@);
    body.contexts.push(context);
    assert(context_models(body.contexts@) =~= held.push(context.model()));
    Ok(())
}

/// Reads `name: type;` and adds the parameter.
fn parse_param(
    input: &mut Input,
    unexpected: &mut Option<Report>,
    body: &mut Body,
    required: bool,
) -> (taken: Result<(), Report>)
    requires
        option_wf(*old(unexpected)),
        old(body).wf(),
    ensures
        clause_read(
            param_clause(old(input)@, option_message(*old(unexpected)), required),
            taken,
            *old(body),
            *final(body),
            final(input)@,
            *final(unexpected),
        ),
        taken is Ok ==> weight(final(input)@) < weight(old(input)@),
{
    proof {
        lemma_front_ident(input@);
    }
    let name: Name = match take_ident(input) {
        Ok(name) => name,
        Err(report) => {
            return Err(report);
        },
    };
    proof {
        lemma_front_punct(input@, ':');
    }
    match take_colon(input) {
        Ok(()) => {},
        Err(report) => {
            return Err(report);
        },
    }
    proof {
        lemma_trade_type(input@, option_message(*unexpected));
    }
    let trade_type: TradeType = match parse_trade_type(input, unexpected) {
        Ok(ty) => ty,
        Err(report) => {
            return Err(report);
        },
    };
    proof {
        lemma_front_punct(input@, ';');
    }
    match take_semi(input) {
        Ok(()) => {},
        Err(report) => {
            return Err(report);
        },
    }
    let ghost held = param_models(body.params@);
    let param: ParamDef = ParamDef { name, trade_type, required };
    body.params.push(param);
    assert(param_models(body.params@) =~= held.push(param.model()));
    Ok(())
}

/// Reads `(Name, ..);` or `Name;` and takes the types for what the symbol returns.
fn parse_returns(input: &mut Input, unexpected: &mut Option<Report>, body: &mut Body) -> (taken:
    Result<(), Report>)
    requires
        option_wf(*old(unexpected)),
        old(body).wf(),
    ensures
        clause_read(
            returns_clause(old(input)@, option_message(*old(unexpected))),
            taken,
            *old(body),
            *final(body),
            final(input)@,
            *final(unexpected),
        ),
        taken is Ok ==> weight(final(input)@) < weight(old(input)@),
{
    let ghost tokens = input@;
    let mut types: Vec<TradeType> = Vec::new();
    let ghost start = models(types@);
    assert(start =~= Seq::empty());
    if let Some(mut inner) = take_group(input, Delim::Parenthesis) {
        proof {
            lemma_front_group(tokens, Delim::Parenthesis);
        }
        let ghost within = inner@;
        let ghost expected = return_types(within, Seq::empty());
        while !inner.tokens.is_empty()
            invariant_except_break
                expected == return_types(inner@, models(types@)),
            invariant
                tokens == old(input)@,
                front_group(tokens, Delim::Parenthesis) == Some((within, input@)),
                expected == return_types(within, Seq::empty()),
            ensures
                expected == Ok::<_, Seq<char>>((models(types@), inner@)),
            decreases weight(inner@),
        {
            let ghost held = models(types@);
            proof {
                lemma_front_ident(inner@);
            }
            let name: Name = match take_ident(&mut inner) {
                Ok(name) => name,
                Err(report) => {
                    return Err(report);
                },
            };
            types.push(TradeType::from_ident(name.text.as_str()));
            assert(models(types@) =~= held.push(type_named(name.text@)));
            proof {
                lemma_front_punct(inner@, ',');
            }
            if !take_comma(&mut inner) {
                break ;
            }
        }
        note(unexpected, unread_report(inner, Delim::Parenthesis));
    } else {
        proof {
            lemma_front_ident(tokens);
        }
        let name: Name = match take_ident(input) {
            Ok(name) => name,
            Err(report) => {
                return Err(report);
            },
        };
        types.push(TradeType::from_ident(name.text.as_str()));
        assert(models(types@) =~= seq![type_named(name.text@)]);
    }
    proof {
        lemma_front_punct(input@, ';');
    }
    match take_semi(input) {
        Ok(()) => {},
        Err(report) => {
            return Err(report);
        },
    }
    body.outcome = Some(ReturnsDef { types });
    Ok(())
}

/// Reads a clause.
fn parse_clause(input: &mut Input, unexpected: &mut Option<Report>, body: &mut Body) -> (taken:
    Result<(), Report>)
    requires
        option_wf(*old(unexpected)),
        old(body).wf(),
    ensures
        clause_read(
            clause(old(input)@, option_message(*old(unexpected))),
            taken,
            *old(body),
            *final(body),
            final(input)@,
            *final(unexpected),
        ),
        unknown_clause(old(input)@) ==> (taken matches Err(report) && start_of(report.tokens)
            == start_of(old(input).tokens)),
        taken is Ok ==> weight(final(input)@) < weight(old(input)@),
{
    proof {
        lemma_front_ident(input@);
    }
    let word: Name = match take_ident(input) {
        Ok(word) => word,
        Err(report) => {
            return Err(report);
        },
    };
    if same_text(word.text.as_str(), "context") {
        parse_context(input, unexpected, body)
    } else if same_text(word.text.as_str(), "param") {
        parse_param(input, unexpected, body, true)
    } else if same_text(word.text.as_str(), "optional") {
        proof {
            lemma_front_ident(input@);
        }
        match take_ident(input) {
            Ok(_) => {},
            Err(report) => {
                return Err(report);
            },
        }
        parse_param(input, unexpected, body, false)
    } else if same_text(word.text.as_str(), "returns") {
        parse_returns(input, unexpected, body)
    } else {
        let message: String = surrounded(
            "Expected 'context', 'param', 'optional', or 'returns', got '",
            word.text.as_str(),
            "'",
        );
        Err(refuse(word.span, message.as_str()))
    }
}

// ---------------------------------------------------------------------------------------------
// Definitions
// ---------------------------------------------------------------------------------------------
/// The category of a symbol, by the word for it. Another word is refused where it stands.
pub fn category_of(word: &Name) -> (category: Result<Category, Report>)
    ensures
        match (category_named(word.text@), category) {
            (Some(expected), Ok(category)) => category == expected,
            (None, Err(report)) => {
                &&& report.wf()
                &&& report@ == "Expected 'monitor', 'executor', 'data_item', or 'condition', got '"@
                    + word.text@ + "'"@
                &&& start_of(report.tokens) == word.span
            },
            _ => false,
        },
{
    if same_text(word.text.as_str(), "monitor") {
        Ok(Category::Monitor)
    } else if same_text(word.text.as_str(), "executor") {
        Ok(Category::Executor)
    } else if same_text(word.text.as_str(), "data_item") {
        Ok(Category::DataItem)
    } else if same_text(word.text.as_str(), "condition") {
        Ok(Category::Condition)
    } else {
        let message: String = surrounded(
            "Expected 'monitor', 'executor', 'data_item', or 'condition', got '",
            word.text.as_str(),
            "'",
        );
        Err(refuse(word.span, message.as_str()))
    }
}

/// A definition was read, or refused, as the grammar has it.
pub open spec fn definition_read(
    expected: Result<Parsed<Outline>, Seq<char>>,
    taken: Result<SymbolDef, Report>,
    rest: Seq<Tok>,
    unexpected: Option<Report>,
) -> bool {
    match (expected, taken) {
        (Ok(parsed), Ok(def)) => {
            &&& def.wf()
            &&& def.model() == parsed.value.symbol()
            &&& rest == parsed.rest
            &&& option_wf(unexpected)
            &&& option_message(unexpected) == parsed.unexpected
        },
        (Err(message), Err(report)) => report.wf() && report@ == message,
        _ => false,
    }
}

impl SymbolDef {
    /// Reads `visibility category Name { .. }`.
    pub fn parse(input: &mut Input, unexpected: &mut Option<Report>) -> (taken: Result<
        SymbolDef,
        Report,
    >)
        requires
            option_wf(*old(unexpected)),
        ensures
            definition_read(
                outline(old(input)@, option_message(*old(unexpected))),
                taken,
                final(input)@,
                *final(unexpected),
            ),
            begins_private(old(input)@) && unknown_category(old(input)@) ==> (
            taken matches Err(report) && start_of(report.tokens) == start_of(old(input).tokens)),
    {
        let front: Front = match read_visibility(input) {
            Ok(front) => front,
            Err(report) => {
                return Err(report);
            },
        };
        input.tokens = front.rest;
        note(unexpected, front.unexpected);
        SymbolDef::parse_behind_visibility(front.node, input, unexpected)
    }

    /// Reads `category Name { .. }`, behind the visibility.
    pub fn parse_behind_visibility(
        vis: TokenStream,
        input: &mut Input,
        unexpected: &mut Option<Report>,
    ) -> (taken: Result<SymbolDef, Report>)
        requires
            option_wf(*old(unexpected)),
        ensures
            definition_read(
                outline_behind_visibility(
                    tokens_of(vis),
                    old(input)@,
                    option_message(*old(unexpected)),
                ),
                taken,
                final(input)@,
                *final(unexpected),
            ),
            unknown_category(old(input)@) ==> (taken matches Err(report) && start_of(report.tokens)
                == start_of(old(input).tokens)),
    {
        let word: Name = match take_ident(input) {
            Ok(word) => word,
            Err(report) => {
                return Err(report);
            },
        };
        let category: Category = match category_of(&word) {
            Ok(category) => category,
            Err(report) => {
                return Err(report);
            },
        };
        let name: Name = match take_ident(input) {
            Ok(name) => name,
            Err(report) => {
                return Err(report);
            },
        };
        let mut content: Input = match take_group(input, Delim::Brace) {
            Some(content) => content,
            None => {
                return Err(refuse_front(input, "expected curly braces"));
            },
        };
        let ghost expected = all_clauses(content@, option_message(*unexpected), Seq::empty());
        let ghost mut items = Seq::<Item>::empty();
        let mut body: Body = Body { contexts: Vec::new(), params: Vec::new(), outcome: None };
        assert(context_models(body.contexts@) =~= Seq::empty());
        assert(param_models(body.params@) =~= Seq::empty());
        let ghost whole = outline_behind_visibility(
            tokens_of(vis),
            old(input)@,
            option_message(*old(unexpected)),
        );
        while !content.tokens.is_empty()
            invariant
                body.wf(),
                !unknown_category(old(input)@),
                option_wf(*unexpected),
                body.model() == Clauses::of(items),
                expected == all_clauses(content@, option_message(*unexpected), items),
                whole == outline_behind_visibility(
                    tokens_of(vis),
                    old(input)@,
                    option_message(*old(unexpected)),
                ),
                expected matches Err(message) ==> whole == Err::<Parsed<Outline>, _>(message),
            decreases weight(content@),
        {
            let ghost next = clause(content@, option_message(*unexpected));
            match parse_clause(&mut content, unexpected, &mut body) {
                Ok(()) => {
                    proof {
                        let item = next->Ok_0.value;
                        lemma_clauses_with(items, item);
                        items = items.push(item);
                    }
                },
                Err(report) => {
                    return Err(report);
                },
            }
        }
        Ok(
            SymbolDef {
                vis,
                category,
                name,
                contexts: body.contexts,
                params: body.params,
                returns: body.outcome,
            },
        )
    }
}

/// Reads a whole input: one definition, of which nothing is left unread, and nothing behind it.
pub fn parse_definition(tokens: TokenStream) -> (taken: Result<SymbolDef, Report>)
    ensures
        match (whole_definition(tokens_of(tokens)), taken) {
            (Ok(expected), Ok(def)) => def.wf() && def.model() == expected,
            (Err(message), Err(report)) => report.wf() && report@ == message,
            _ => false,
        },
{
    let mut input: Input = Input { tokens, scope: Span::call_site() };
    let mut unexpected: Option<Report> = None;
    let def: SymbolDef = match SymbolDef::parse(&mut input, &mut unexpected) {
        Ok(def) => def,
        Err(report) => {
            return Err(report);
        },
    };
    note(&mut unexpected, unread_report(input, Delim::Invisible));
    match unexpected {
        Some(report) => Err(report),
        None => Ok(def),
    }
}

} // verus!
