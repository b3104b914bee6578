//! The code of a symbol definition, put together.
//!
//! What the code is, is the matter of [`crate::code`]. The code needs identifiers that a definition
//! does not hold as such: a protocol may be any text. Each function here asks that those which it
//! needs can serve; [`names_fit`] tells whether all can ([`names_valid`]).
use proc_macro2::{Span, TokenStream};
use vstd::prelude::*;

use crate::code::{
    adapter_code, adapter_name, adapter_names_valid, adapter_struct, adapter_valid, category_code,
    condition_adapter_code, context_argument, context_arguments, context_binding, context_bindings,
    context_declaration, context_spec, data_item_adapter_code, data_item_spec, data_item_value,
    declarations, execute_call, execute_statement, execute_value, executor_adapter_code,
    first_field, handler_name, handler_trait_code, handler_valid, ident, literal, metadata_code,
    metadata_name, metadata_valid, missing_context, monitor_adapter_code, names_valid,
    param_binding, param_bindings, param_declaration, param_names, param_spec, protocols_valid,
    received, received_protocols_valid, result_names, result_wrappings, returns_rust_type,
    returns_spec, symbol_code, unraw, with_op, ADAPTER_STRUCT, ALIAS_LOOKUP, ALIAS_MISSING, BIND,
    BIND_OPTIONAL, BIND_OPTIONAL_VALUE, BIND_VALUE, CALL_EXECUTE, CALL_START, CATEGORY_CONDITION,
    CATEGORY_DATA_ITEM, CATEGORY_EXECUTOR, CATEGORY_MONITOR, CHOICES, CONDITION_IMPL,
    CONTEXT_CONSUME, CONTEXT_NEED, CONTEXT_PRODUCE, DATA_ITEM_IMPL, DECLARE_CANCEL, DECLARE_CONSUME,
    DECLARE_NEED, DECLARE_OPTIONAL, DECLARE_REQUIRED, DECLARE_TASK, EVALUATE, EXECUTE,
    EXECUTE_FAILED, EXECUTOR_IMPL, EXECUTOR_RESULT, FAILURE_MESSAGE, GET, GET_CONTEXT, HANDLER_BODY,
    HANDLER_HEAD, LEND, METADATA_BODY, METADATA_HEAD, MISSING_CONDITION, MISSING_DATA_ITEM,
    MISSING_EXECUTOR, MONITOR_IMPL, MONITOR_RESULT, NONE, PARAM_OPTIONAL, PARAM_OPTIONAL_MULTI,
    PARAM_REQUIRED, PARAM_REQUIRED_MULTI, REGISTRATION, RESULT, RUN, RUN_FOR_MANY, RUN_FOR_ONE,
    SOME, START, TAKE_CONTEXT, UNIT, UNIT_VALUE, VALUE,
};
use crate::grammar::{Category, ContextModel, CtxOp, ParamModel};
use crate::naming::to_snake_case;
use crate::symbol::{returns_model, ContextDef, ParamDef, ReturnsDef, SymbolDef};
use crate::syntax::{as_ident, is_gap, is_ident, read_ident};
use crate::template::{
    fill, fill_three, fill_two, fixed, in_a_row, line_up, render, rendered, separate, separated,
    terminate, terminated,
};
use crate::text::{chars_of, joined, surrounded, text_of};
use crate::token::{
    all_tokens_of, append, append_index, append_string, append_word, decimal, is_word_char,
    start_of, tokens_of, Tok,
};
use crate::trade_type::{
    field_wrappings, models, rust_types_of, tuple_field, type_specs_of, wrapping, TradeType,
    RUST_BOOL, RUST_TUPLE, SPEC_ANY, SPEC_TUPLE, TUPLE_FIELD, WRAP_TUPLE,
};

verus! {

// ---------------------------------------------------------------------------------------------
// Names and literals
// ---------------------------------------------------------------------------------------------
/// A string literal with the given value.
fn string(value: &str) -> (tokens: TokenStream)
    ensures
        tokens_of(tokens) == literal(value@),
{
    let mut tokens: TokenStream = TokenStream::new();
    append_string(&mut tokens, value);
    assert(tokens_of(tokens) =~= literal(value@));
    tokens
}

/// The literal by which the first field of a tuple is named.
fn zero() -> (tokens: TokenStream)
    ensures
        tokens_of(tokens) == first_field(),
{
    let mut tokens: TokenStream = TokenStream::new();
    append_index(&mut tokens, 0);
    assert(tokens_of(tokens) =~= first_field());
    tokens
}

/// The decimal digits of a number are word characters, and there is at least one.
proof fn lemma_decimal_word(n: nat)
    ensures
        decimal(n).len() >= 1,
        forall|i: int| 0 <= i < decimal(n).len() ==> is_word_char(#[trigger] decimal(n)[i]),
    decreases n,
{
    if n >= 10 {
        lemma_decimal_word(n / 10);
    }
}

/// Adds the decimal digits of a number to a text.
fn push_decimal(text: &mut String, n: usize)
    ensures
        final(text)@ == old(text)@ + decimal(n as nat),
    decreases n,
{
    if n >= 10 {
        push_decimal(text, n / 10);
    }
    text.push((48 + (n % 10) as u8) as char);
    assert(text@ =~= old(text)@ + decimal(n as nat));
}

/// The variable for the value at the given place of those that a handler returns.
fn result_name(i: usize) -> (tokens: TokenStream)
    ensures
        tokens_of(tokens) == ident("__r"@ + decimal(i as nat)),
{
    let mut text: String = "__r".to_owned();
    push_decimal(&mut text, i);
    proof {
        reveal_strlit("__r");
        lemma_decimal_word(i as nat);
        let digits = decimal(i as nat);
        assert forall|k: int| 0 <= k < text@.len() implies is_word_char(#[trigger] text@[k]) by {
            if k >= 3 {
                assert(text@[k] == digits[k - 3]);
            }
        }
    }
    let mut tokens: TokenStream = TokenStream::new();
    append_word(&mut tokens, text.as_str());
    assert(tokens_of(tokens) =~= ident("__r"@ + decimal(i as nat)));
    tokens
}

/// An identifier without the `r#` that makes it a raw one.
fn without_raw(name: &str) -> (text: String)
    ensures
        text@ == unraw(name@),
{
    let chars: Vec<char> = chars_of(name);
    if chars.len() < 2 || chars[0] != 'r' || chars[1] != '#' {
        return name.to_owned();
    }
    let mut kept: Vec<char> = Vec::new();
    let mut i: usize = 2;
    while i < chars.len()
        invariant
            2 <= i <= chars@.len(),
            kept@ == chars@.subrange(2, i as int),
        decreases chars@.len() - i,
    {
        kept.push(chars[i]);
        i += 1;
        assert(chars@.subrange(2, i as int) =~= chars@.subrange(2, i - 1).push(chars@[i - 1]));
    }
    assert(kept@ =~= chars@.skip(2));
    text_of(&kept)
}

/// Whether a character may stand round an identifier without being part of it.
fn gap(c: char) -> (is: bool)
    ensures
        is == is_gap(c),
{
    c == '/' || ('\u{9}' <= c && c <= '\u{d}') || c == ' ' || c == '\u{85}' || c == '\u{a0}' || c
        == '\u{1680}' || ('\u{2000}' <= c && c <= '\u{200a}') || c == '\u{200e}' || c == '\u{200f}'
        || c == '\u{2028}' || c == '\u{2029}' || c == '\u{202f}' || c == '\u{205f}' || c
        == '\u{3000}' || c == '\u{feff}'
}

/// Whether a text is an identifier with nothing round it.
fn fits(text: &str) -> (fits: bool)
    ensures
        fits == is_ident(text@),
{
    if read_ident(text, Span::call_site()).is_none() {
        return false;
    }
    let len: usize = text.unicode_len();
    let mut i: usize = 0;
    while i < len
        invariant
            len == text@.len(),
            i <= len,
            forall|k: int| 0 <= k < i ==> !is_gap(#[trigger] text@[k]),
        decreases len - i,
    {
        let c: char = text.get_char(i);
        if gap(c) {
            assert(!is_word_char(text@[i as int]));
            return false;
        }
        i += 1;
    }
    true
}

/// The identifier that a text is, as tokens at the given position.
fn made(text: &str, span: Span) -> (tokens: TokenStream)
    requires
        is_ident(text@),
    ensures
        tokens_of(tokens) == ident(as_ident(text@)),
        start_of(tokens) == span,
{
    read_ident(text, span).unwrap().token
}

/// The name of the function that returns the metadata of a symbol.
fn metadata_text(name: &str) -> (text: String)
    ensures
        text@ == metadata_name(name@),
{
    let snake: String = to_snake_case(name);
    joined(snake.as_str(), "_metadata")
}

/// The name of the trait that a handler of a symbol implements.
fn handler_text(name: &str) -> (text: String)
    ensures
        text@ == handler_name(name@),
{
    let plain: String = without_raw(name);
    joined(plain.as_str(), "Handler")
}

/// The name of the adapter of a symbol.
fn adapter_text(name: &str) -> (text: String)
    ensures
        text@ == adapter_name(name@),
{
    let plain: String = without_raw(name);
    joined(plain.as_str(), "Adapter")
}

/// Whether everything that has to serve as an identifier in the code of a symbol can.
pub fn names_fit(def: &SymbolDef) -> (fit: bool)
    ensures
        fit == names_valid(def.model()),
{
    let metadata: String = metadata_text(def.name.text.as_str());
    let handler: String = handler_text(def.name.text.as_str());
    let adapter: String = adapter_text(def.name.text.as_str());
    if !fits(metadata.as_str()) || !fits(handler.as_str()) || !fits(adapter.as_str()) {
        return false;
    }
    let ghost symbol = def.model();
    let mut i: usize = 0;
    while i < def.contexts.len()
        invariant
            i <= def.contexts@.len(),
            symbol == def.model(),
            forall|k: int|
                0 <= k < i && (symbol.category != Category::Monitor || (
                #[trigger] symbol.clauses.contexts[k]).op != CtxOp::Produce) ==> is_ident(
                    symbol.clauses.contexts[k].protocol,
                ),
        decreases def.contexts@.len() - i,
    {
        let context: &ContextDef = &def.contexts[i];
        assert(symbol.clauses.contexts[i as int] == context.model());
        if (def.category != Category::Monitor || context.op != CtxOp::Produce) && !fits(
            context.protocol.value.as_str(),
        ) {
            return false;
        }
        i += 1;
    }
    proof {
        if symbol.category != Category::Monitor {
            assert(protocols_valid(symbol.clauses.contexts));
        }
        assert(received_protocols_valid(symbol.clauses.contexts));
    }
    true
}

/// The name of the function that returns the metadata of a symbol, as tokens. It stands where the
/// macro was invoked.
pub fn metadata_ident(def: &SymbolDef) -> (tokens: TokenStream)
    requires
        is_ident(metadata_name(def.model().name)),
    ensures
        tokens_of(tokens) == ident(as_ident(metadata_name(def.model().name))),
{
    let name: String = metadata_text(def.name.text.as_str());
    made(name.as_str(), Span::call_site())
}

/// The name of the trait that a handler of a symbol implements, as tokens. It stands where the name
/// of the symbol does.
pub fn handler_ident(def: &SymbolDef) -> (tokens: TokenStream)
    requires
        is_ident(handler_name(def.model().name)),
    ensures
        tokens_of(tokens) == ident(as_ident(handler_name(def.model().name))),
        start_of(tokens) == def.name.span,
{
    let name: String = handler_text(def.name.text.as_str());
    made(name.as_str(), def.name.span)
}

/// The name of the adapter of a symbol, as tokens. It stands where the name of the symbol does.
pub fn adapter_ident(def: &SymbolDef) -> (tokens: TokenStream)
    requires
        is_ident(adapter_name(def.model().name)),
    ensures
        tokens_of(tokens) == ident(as_ident(adapter_name(def.model().name))),
        start_of(tokens) == def.name.span,
{
    let name: String = adapter_text(def.name.text.as_str());
    made(name.as_str(), def.name.span)
}

// ---------------------------------------------------------------------------------------------
// Return types
// ---------------------------------------------------------------------------------------------
/// The expressions that describe several types.
fn type_specs(types: &Vec<TradeType>) -> (specs: Vec<TokenStream>)
    ensures
        all_tokens_of(specs@) == type_specs_of(models(types@)),
{
    let ghost all = type_specs_of(models(types@));
    let mut specs: Vec<TokenStream> = Vec::new();
    let mut i: usize = 0;
    while i < types.len()
        invariant
            i <= types@.len(),
            all == type_specs_of(models(types@)),
            specs@.len() == i,
            forall|k: int| 0 <= k < i ==> tokens_of(#[trigger] specs@[k]) == all[k],
        decreases types@.len() - i,
    {
        specs.push(types[i].type_spec());
        i += 1;
    }
    assert(all_tokens_of(specs@) =~= all);
    specs
}

/// The types of Rust that stand for several types.
fn rust_types(types: &Vec<TradeType>) -> (rust: Vec<TokenStream>)
    ensures
        all_tokens_of(rust@) == rust_types_of(models(types@)),
{
    let ghost all = rust_types_of(models(types@));
    let mut rust: Vec<TokenStream> = Vec::new();
    let mut i: usize = 0;
    while i < types.len()
        invariant
            i <= types@.len(),
            all == rust_types_of(models(types@)),
            rust@.len() == i,
            forall|k: int| 0 <= k < i ==> tokens_of(#[trigger] rust@[k]) == all[k],
        decreases types@.len() - i,
    {
        rust.push(types[i].rust_type());
        i += 1;
    }
    assert(all_tokens_of(rust@) =~= all);
    rust
}

/// The optional description of what a symbol returns.
fn returns_description(declared: &Option<ReturnsDef>) -> (tokens: TokenStream)
    ensures
        tokens_of(tokens) == returns_spec(returns_model(*declared)),
{
    match declared {
        None => fixed(NONE),
        Some(def) => if def.types.len() == 1 {
            fill(SOME, def.types[0].type_spec())
        } else {
            let specs: Vec<TokenStream> = type_specs(&def.types);
            fill(SOME, fill(SPEC_TUPLE, separate(&specs)))
        },
    }
}

/// The type of Rust that stands for what a symbol returns.
fn returns_type(declared: &Option<ReturnsDef>) -> (tokens: TokenStream)
    ensures
        tokens_of(tokens) == returns_rust_type(returns_model(*declared)),
{
    match declared {
        None => fixed(UNIT),
        Some(def) => if def.types.len() == 1 {
            def.types[0].rust_type()
        } else {
            let types: Vec<TokenStream> = rust_types(&def.types);
            fill(RUST_TUPLE, separate(&types))
        },
    }
}

// ---------------------------------------------------------------------------------------------
// Metadata
// ---------------------------------------------------------------------------------------------
/// The description of a parameter.
fn describe_param(param: &ParamDef) -> (tokens: TokenStream)
    ensures
        tokens_of(tokens) == param_spec(param.model()),
{
    let name: TokenStream = string(param.name.text.as_str());
    match &param.trade_type {
        TradeType::Union(types) => {
            let specs: Vec<TokenStream> = type_specs(types);
            assert(param.model().ty->Union_0 =~= models(types@));
            let choices: TokenStream = fill(CHOICES, separate(&specs));
            fill_two(
                if param.required {
                    PARAM_REQUIRED_MULTI
                } else {
                    PARAM_OPTIONAL_MULTI
                },
                name,
                choices,
            )
        },
        TradeType::Alias(alias) => {
            let lookup: TokenStream = fill_two(
                ALIAS_LOOKUP,
                string(alias.as_str()),
                string(ALIAS_MISSING),
            );
            fill_two(
                if param.required {
                    PARAM_REQUIRED_MULTI
                } else {
                    PARAM_OPTIONAL_MULTI
                },
                name,
                lookup,
            )
        },
        other => fill_two(
            if param.required {
                PARAM_REQUIRED
            } else {
                PARAM_OPTIONAL
            },
            name,
            other.type_spec(),
        ),
    }
}

/// The description of what a symbol does with a context.
fn describe_context(context: &ContextDef) -> (tokens: TokenStream)
    ensures
        tokens_of(tokens) == context_spec(context.model()),
{
    let protocol: TokenStream = context.protocol.token.clone();
    match context.op {
        CtxOp::Produce => fill(CONTEXT_PRODUCE, protocol),
        CtxOp::Need => fill(CONTEXT_NEED, protocol),
        CtxOp::Consume => fill(CONTEXT_CONSUME, protocol),
    }
}

/// The function that returns the metadata of a symbol.
pub fn gen_metadata(def: &SymbolDef) -> (tokens: TokenStream)
    requires
        metadata_valid(def.model()),
    ensures
        tokens_of(tokens) == metadata_code(def.model()),
{
    let ghost symbol = def.model();
    let mut params: Vec<TokenStream> = Vec::new();
    let mut i: usize = 0;
    while i < def.params.len()
        invariant
            i <= def.params@.len(),
            params@.len() == i,
            forall|k: int|
                0 <= k < i ==> tokens_of(#[trigger] params@[k]) == param_spec(
                    def.params@[k].model(),
                ),
        decreases def.params@.len() - i,
    {
        params.push(describe_param(&def.params[i]));
        i += 1;
    }
    assert(all_tokens_of(params@) =~= symbol.clauses.params.map_values(
        |param: ParamModel| param_spec(param),
    ));
    let mut contexts: Vec<TokenStream> = Vec::new();
    let mut i: usize = 0;
    while i < def.contexts.len()
        invariant
            i <= def.contexts@.len(),
            contexts@.len() == i,
            forall|k: int|
                0 <= k < i ==> tokens_of(#[trigger] contexts@[k]) == context_spec(
                    def.contexts@[k].model(),
                ),
        decreases def.contexts@.len() - i,
    {
        contexts.push(describe_context(&def.contexts[i]));
        i += 1;
    }
    assert(all_tokens_of(contexts@) =~= symbol.clauses.contexts.map_values(
        |context: ContextModel| context_spec(context),
    ));
    let category: TokenStream = match def.category {
        Category::Monitor => fixed(CATEGORY_MONITOR),
        Category::Executor => fixed(CATEGORY_EXECUTOR),
        Category::DataItem => fixed(CATEGORY_DATA_ITEM),
        Category::Condition => fixed(CATEGORY_CONDITION),
    };
    let mut tokens: TokenStream = fill_two(
        METADATA_HEAD,
        def.vis.clone(),
        metadata_ident(def),
    );
    let holes: Vec<TokenStream> = vec![
        string(def.name.text.as_str()),
        returns_description(&def.returns),
        separate(&params),
        category,
        separate(&contexts),
    ];
    assert(all_tokens_of(holes@) =~= seq![
        literal(symbol.name),
        returns_spec(symbol.clauses.returns),
        separated(symbol.clauses.params.map_values(|param: ParamModel| param_spec(param))),
        category_code(symbol.category),
        separated(
            symbol.clauses.contexts.map_values(|context: ContextModel| context_spec(context)),
        ),
    ]);
    append(&mut tokens, render(METADATA_BODY, &holes));
    tokens
}

// ---------------------------------------------------------------------------------------------
// Handler trait
// ---------------------------------------------------------------------------------------------
/// The declaration of a parameter.
fn declare_param(param: &ParamDef) -> (tokens: TokenStream)
    requires
        param.name.wf(),
    ensures
        tokens_of(tokens) == param_declaration(param.model()),
{
    fill_two(
        if param.required {
            DECLARE_REQUIRED
        } else {
            DECLARE_OPTIONAL
        },
        param.name.token.clone(),
        param.trade_type.rust_type(),
    )
}

/// The declaration of a context that a handler receives.
fn declare_context(context: &ContextDef) -> (tokens: TokenStream)
    requires
        is_ident(context.protocol.value@),
    ensures
        tokens_of(tokens) == context_declaration(context.model()),
{
    fill_two(
        if context.op == CtxOp::Need {
            DECLARE_NEED
        } else {
            DECLARE_CONSUME
        },
        made(context.protocol.value.as_str(), Span::call_site()),
        context.ty.clone(),
    )
}

/// What a handler declares, behind `&self`.
fn declare(def: &SymbolDef) -> (list: Vec<TokenStream>)
    requires
        def.wf(),
        handler_valid(def.model()),
    ensures
        all_tokens_of(list@) == declarations(def.model()),
{
    let ghost symbol = def.model();
    let ghost declared = symbol.clauses.params.map_values(
        |param: ParamModel| param_declaration(param),
    );
    let mut list: Vec<TokenStream> = Vec::new();
    let mut i: usize = 0;
    while i < def.params.len()
        invariant
            i <= def.params@.len(),
            def.wf(),
            list@.len() == i,
            forall|k: int|
                0 <= k < i ==> tokens_of(#[trigger] list@[k]) == param_declaration(
                    def.params@[k].model(),
                ),
        decreases def.params@.len() - i,
    {
        list.push(declare_param(&def.params[i]));
        i += 1;
    }
    assert(all_tokens_of(list@) =~= declared);
    if def.category == Category::Monitor {
        list.push(fixed(DECLARE_CANCEL));
        assert(all_tokens_of(list@) =~= declarations(symbol));
        return list;
    }
    let ghost contexts = symbol.clauses.contexts;
    let ghost declaration = |context: ContextModel| context_declaration(context);
    let mut i: usize = 0;
    proof {
        reveal(Seq::filter);
        assert(declared + received(contexts.take(0)).map_values(declaration) =~= declared);
    }
    while i < def.contexts.len()
        invariant
            i <= def.contexts@.len(),
            symbol == def.model(),
            symbol.category != Category::Monitor,
            contexts == symbol.clauses.contexts,
            protocols_valid(contexts),
            declaration == (|context: ContextModel| context_declaration(context)),
            all_tokens_of(list@) == declared + received(contexts.take(i as int)).map_values(
                declaration,
            ),
        decreases def.contexts@.len() - i,
    {
        let context: &ContextDef = &def.contexts[i];
        let ghost before = all_tokens_of(list@);
        proof {
            reveal(Seq::filter);
            assert(contexts[i as int] == context.model());
            assert(contexts.take(i + 1).drop_last() =~= contexts.take(i as int));
        }
        if context.op != CtxOp::Produce {
            list.push(declare_context(context));
            assert(all_tokens_of(list@) =~= before.push(context_declaration(context.model())));
            assert(received(contexts.take(i + 1)).map_values(declaration) =~= received(
                contexts.take(i as int),
            ).map_values(declaration).push(context_declaration(context.model())));
        }
        i += 1;
    }
    assert(contexts.take(contexts.len() as int) =~= contexts);
    list.push(fixed(DECLARE_TASK));
    assert(all_tokens_of(list@) =~= declarations(symbol));
    list
}

/// The trait that a handler of a symbol implements.
pub fn gen_handler_trait(def: &SymbolDef) -> (tokens: TokenStream)
    requires
        def.wf(),
        handler_valid(def.model()),
    ensures
        tokens_of(tokens) == handler_trait_code(def.model()),
{
    let called: TokenStream = match def.category {
        Category::Monitor => fixed(START),
        Category::Executor => fixed(EXECUTE),
        Category::DataItem => fixed(GET),
        Category::Condition => fixed(EVALUATE),
    };
    let result: TokenStream = match def.category {
        Category::Monitor => fixed(MONITOR_RESULT),
        Category::Executor => fill(EXECUTOR_RESULT, returns_type(&def.returns)),
        Category::DataItem => returns_type(&def.returns),
        Category::Condition => fixed(RUST_BOOL),
    };
    let list: Vec<TokenStream> = declare(def);
    let mut tokens: TokenStream = fill_two(
        HANDLER_HEAD,
        def.vis.clone(),
        handler_ident(def),
    );
    append(&mut tokens, fill_three(HANDLER_BODY, called, separate(&list), result));
    tokens
}

// ---------------------------------------------------------------------------------------------
// Arguments
// ---------------------------------------------------------------------------------------------
/// The statement that takes a parameter out of the arguments.
fn bind_param(param: &ParamDef) -> (tokens: TokenStream)
    requires
        param.name.wf(),
    ensures
        tokens_of(tokens) == param_binding(param.model()),
{
    let name: TokenStream = param.name.token.clone();
    let key: TokenStream = string(param.name.text.as_str());
    if param.trade_type.is_runtime_value_type() {
        if param.required {
            fill_two(BIND_VALUE, name, key)
        } else {
            fill_two(BIND_OPTIONAL_VALUE, name, key)
        }
    } else {
        let value: TokenStream = fixed(VALUE);
        let extract: TokenStream = param.trade_type.extract_from_rv(&value);
        if param.required {
            fill_three(BIND, name, key, extract)
        } else {
            fill_three(BIND_OPTIONAL, name, key, extract)
        }
    }
}

/// The statements that take the parameters out of the arguments.
pub fn gen_param_extractions(def: &SymbolDef) -> (statements: Vec<TokenStream>)
    requires
        def.wf(),
    ensures
        all_tokens_of(statements@) == param_bindings(def.model().clauses.params),
{
    let mut statements: Vec<TokenStream> = Vec::new();
    let mut i: usize = 0;
    while i < def.params.len()
        invariant
            i <= def.params@.len(),
            def.wf(),
            statements@.len() == i,
            forall|k: int|
                0 <= k < i ==> tokens_of(#[trigger] statements@[k]) == param_binding(
                    def.params@[k].model(),
                ),
        decreases def.params@.len() - i,
    {
        statements.push(bind_param(&def.params[i]));
        i += 1;
    }
    assert(all_tokens_of(statements@) =~= param_bindings(def.model().clauses.params));
    statements
}

/// The names of the parameters.
fn names_of(def: &SymbolDef) -> (names: Vec<TokenStream>)
    requires
        def.wf(),
    ensures
        all_tokens_of(names@) == param_names(def.model().clauses.params),
{
    let mut names: Vec<TokenStream> = Vec::new();
    let mut i: usize = 0;
    while i < def.params.len()
        invariant
            i <= def.params@.len(),
            def.wf(),
            names@.len() == i,
            forall|k: int|
                0 <= k < i ==> tokens_of(#[trigger] names@[k]) == ident(def.params@[k].name.text@),
        decreases def.params@.len() - i,
    {
        names.push(def.params[i].name.token.clone());
        i += 1;
    }
    assert(all_tokens_of(names@) =~= param_names(def.model().clauses.params));
    names
}

/// What an adapter does where a context is missing.
pub fn make_context_not_found(category: Category, protocol: &str) -> (tokens: TokenStream)
    ensures
        tokens_of(tokens) == missing_context(category, protocol@),
{
    let message: String = surrounded("[context] '", protocol, "' not available");
    match category {
        Category::Executor => fill(MISSING_EXECUTOR, string(message.as_str())),
        Category::DataItem => fill(MISSING_DATA_ITEM, string(message.as_str())),
        Category::Condition => fill(MISSING_CONDITION, string(message.as_str())),
        Category::Monitor => TokenStream::new(),
    }
}

/// The statement that looks up a context.
fn bind_context(category: Category, context: &ContextDef) -> (tokens: TokenStream)
    requires
        is_ident(context.protocol.value@),
    ensures
        tokens_of(tokens) == context_binding(category, context.model()),
{
    let protocol: &str = context.protocol.value.as_str();
    let holes: Vec<TokenStream> = vec![
        made(protocol, Span::call_site()),
        context.ty.clone(),
        string(protocol),
        make_context_not_found(category, protocol),
    ];
    assert(all_tokens_of(holes@) =~= seq![
        ident(as_ident(protocol@)),
        context.model().ty,
        literal(protocol@),
        missing_context(category, protocol@),
    ]);
    render(
        if context.op == CtxOp::Consume {
            TAKE_CONTEXT
        } else {
            GET_CONTEXT
        },
        &holes,
    )
}

/// The argument by which a context is handed to the handler.
fn hand_context(context: &ContextDef) -> (tokens: TokenStream)
    requires
        is_ident(context.protocol.value@),
    ensures
        tokens_of(tokens) == context_argument(context.model()),
{
    let name: TokenStream = made(context.protocol.value.as_str(), Span::call_site());
    if context.op == CtxOp::Consume {
        name
    } else {
        fill(LEND, name)
    }
}

/// Adds the statements that look up the contexts with which a symbol does the given thing.
fn bind_contexts(def: &SymbolDef, op: CtxOp, statements: &mut Vec<TokenStream>)
    requires
        received_protocols_valid(def.model().clauses.contexts),
        op != CtxOp::Produce,
    ensures
        all_tokens_of(final(statements)@) == all_tokens_of(old(statements)@) + with_op(
            def.model().clauses.contexts,
            op,
        ).map_values(|context: ContextModel| context_binding(def.model().category, context)),
{
    let ghost symbol = def.model();
    let ghost contexts = symbol.clauses.contexts;
    let ghost bind = |context: ContextModel| context_binding(symbol.category, context);
    let ghost before = all_tokens_of(statements@);
    let mut i: usize = 0;
    proof {
        reveal(Seq::filter);
        assert(before + with_op(contexts.take(0), op).map_values(bind) =~= before);
    }
    while i < def.contexts.len()
        invariant
            i <= def.contexts@.len(),
            symbol == def.model(),
            contexts == symbol.clauses.contexts,
            received_protocols_valid(contexts),
            op != CtxOp::Produce,
            bind == (|context: ContextModel| context_binding(symbol.category, context)),
            all_tokens_of(statements@) == before + with_op(contexts.take(i as int), op).map_values(
                bind,
            ),
        decreases def.contexts@.len() - i,
    {
        let context: &ContextDef = &def.contexts[i];
        let ghost now = all_tokens_of(statements@);
        let ghost model = context.model();
        proof {
            reveal(Seq::filter);
            assert(contexts[i as int] == model);
            assert(contexts.take(i + 1).drop_last() =~= contexts.take(i as int));
        }
        if context.op == op {
            statements.push(bind_context(def.category, context));
            assert(all_tokens_of(statements@) =~= now.push(bind(model)));
            assert(with_op(contexts.take(i + 1), op).map_values(bind) =~= with_op(
                contexts.take(i as int),
                op,
            ).map_values(bind).push(bind(model)));
        }
        i += 1;
    }
    assert(contexts.take(contexts.len() as int) =~= contexts);
}

/// The arguments by which the contexts are handed to the handler.
fn hand_contexts(def: &SymbolDef) -> (arguments: Vec<TokenStream>)
    requires
        received_protocols_valid(def.model().clauses.contexts),
    ensures
        all_tokens_of(arguments@) == context_arguments(def.model().clauses.contexts),
{
    let ghost contexts = def.model().clauses.contexts;
    let ghost hand = |context: ContextModel| context_argument(context);
    let mut arguments: Vec<TokenStream> = Vec::new();
    let mut i: usize = 0;
    proof {
        reveal(Seq::filter);
        assert(all_tokens_of(arguments@) =~= received(contexts.take(0)).map_values(hand));
    }
    while i < def.contexts.len()
        invariant
            i <= def.contexts@.len(),
            contexts == def.model().clauses.contexts,
            received_protocols_valid(contexts),
            hand == (|context: ContextModel| context_argument(context)),
            all_tokens_of(arguments@) == received(contexts.take(i as int)).map_values(hand),
        decreases def.contexts@.len() - i,
    {
        let context: &ContextDef = &def.contexts[i];
        let ghost now = all_tokens_of(arguments@);
        let ghost model = context.model();
        proof {
            reveal(Seq::filter);
            assert(contexts[i as int] == model);
            assert(contexts.take(i + 1).drop_last() =~= contexts.take(i as int));
        }
        if context.op != CtxOp::Produce {
            arguments.push(hand_context(context));
            assert(all_tokens_of(arguments@) =~= now.push(hand(model)));
            assert(received(contexts.take(i + 1)).map_values(hand) =~= received(
                contexts.take(i as int),
            ).map_values(hand).push(hand(model)));
        }
        i += 1;
    }
    assert(contexts.take(contexts.len() as int) =~= contexts);
    arguments
}

/// The statements that look up the contexts, and the arguments by which these are handed to the
/// handler.
pub fn gen_context_handling(def: &SymbolDef) -> (handling: (TokenStream, Vec<TokenStream>))
    requires
        received_protocols_valid(def.model().clauses.contexts),
    ensures
        tokens_of(handling.0) == in_a_row(
            context_bindings(def.model().category, def.model().clauses.contexts),
        ),
        all_tokens_of(handling.1@) == context_arguments(def.model().clauses.contexts),
{
    let mut statements: Vec<TokenStream> = Vec::new();
    bind_contexts(def, CtxOp::Consume, &mut statements);
    bind_contexts(def, CtxOp::Need, &mut statements);
    assert(all_tokens_of(statements@) =~= context_bindings(
        def.model().category,
        def.model().clauses.contexts,
    ));
    (line_up(&statements), hand_contexts(def))
}

// ---------------------------------------------------------------------------------------------
// Adapters
// ---------------------------------------------------------------------------------------------
/// The adapter of a symbol, as a type.
fn declare_adapter(def: &SymbolDef) -> (tokens: TokenStream)
    requires
        adapter_names_valid(def.model()),
    ensures
        tokens_of(tokens) == adapter_struct(def.model()),
{
    fill_three(
        ADAPTER_STRUCT,
        def.vis.clone(),
        adapter_ident(def),
        handler_ident(def),
    )
}

/// The adapter of a monitor. A monitor looks up no context.
pub fn gen_monitor_adapter(def: &SymbolDef) -> (tokens: TokenStream)
    requires
        def.wf(),
        adapter_names_valid(def.model()),
    ensures
        tokens_of(tokens) == monitor_adapter_code(def.model()),
{
    let ghost symbol = def.model();
    let mut tokens: TokenStream = declare_adapter(def);
    let extractions: Vec<TokenStream> = gen_param_extractions(def);
    let names: Vec<TokenStream> = names_of(def);
    let holes: Vec<TokenStream> = vec![
        adapter_ident(def),
        handler_ident(def),
        line_up(&extractions),
        fill_two(CALL_START, zero(), terminate(&names)),
    ];
    assert(all_tokens_of(holes@) =~= seq![
        ident(as_ident(adapter_name(symbol.name))),
        ident(as_ident(handler_name(symbol.name))),
        in_a_row(param_bindings(symbol.clauses.params)),
        rendered(CALL_START@, seq![first_field(), terminated(param_names(symbol.clauses.params))]),
    ]);
    append(&mut tokens, render(MONITOR_IMPL, &holes));
    tokens
}

/// The statement that calls an executor's handler and binds what it returns.
fn run_executor(declared: &Option<ReturnsDef>, call: TokenStream) -> (tokens: TokenStream)
    ensures
        tokens_of(tokens) == execute_statement(returns_model(*declared), tokens_of(call)),
{
    let failed: TokenStream = fill(EXECUTE_FAILED, string(FAILURE_MESSAGE));
    match declared {
        None => fill_two(RUN, call, failed),
        Some(def) => if def.types.len() == 1 {
            fill_two(RUN_FOR_ONE, call, failed)
        } else {
            let mut names: Vec<TokenStream> = Vec::new();
            let mut i: usize = 0;
            while i < def.types.len()
                invariant
                    i <= def.types@.len(),
                    names@.len() == i,
                    forall|k: int|
                        0 <= k < i ==> tokens_of(#[trigger] names@[k]) == ident(
                            "__r"@ + decimal(k as nat),
                        ),
                decreases def.types@.len() - i,
            {
                names.push(result_name(i));
                i += 1;
            }
            assert(all_tokens_of(names@) =~= result_names(def.types@.len()));
            fill_three(RUN_FOR_MANY, call, failed, separate(&names))
        },
    }
}

/// The runtime value that an executor's adapter returns.
fn executor_value(declared: &Option<ReturnsDef>) -> (tokens: TokenStream)
    ensures
        tokens_of(tokens) == execute_value(returns_model(*declared)),
{
    match declared {
        None => fixed(UNIT_VALUE),
        Some(def) => if def.types.len() == 1 {
            let result: TokenStream = fixed(RESULT);
            def.types[0].wrap_in_rv(&result)
        } else {
            let ghost types = models(def.types@);
            let mut values: Vec<TokenStream> = Vec::new();
            let mut i: usize = 0;
            while i < def.types.len()
                invariant
                    i <= def.types@.len(),
                    types == models(def.types@),
                    values@.len() == i,
                    forall|k: int|
                        0 <= k < i ==> tokens_of(#[trigger] values@[k]) == wrapping(
                            types[k],
                            ident("__r"@ + decimal(k as nat)),
                        ),
                decreases def.types@.len() - i,
            {
                let name: TokenStream = result_name(i);
                values.push(def.types[i].wrap_in_rv(&name));
                i += 1;
            }
            assert(all_tokens_of(values@) =~= result_wrappings(types));
            fill(WRAP_TUPLE, separate(&values))
        },
    }
}

/// The adapter of an executor.
pub fn gen_executor_adapter(def: &SymbolDef) -> (tokens: TokenStream)
    requires
        def.wf(),
        adapter_valid(def.model()),
    ensures
        tokens_of(tokens) == executor_adapter_code(def.model()),
{
    let ghost symbol = def.model();
    let mut tokens: TokenStream = declare_adapter(def);
    let extractions: Vec<TokenStream> = gen_param_extractions(def);
    let names: Vec<TokenStream> = names_of(def);
    let (lookups, arguments) = gen_context_handling(def);
    let call: TokenStream = fill_three(
        CALL_EXECUTE,
        zero(),
        terminate(&names),
        terminate(&arguments),
    );
    let holes: Vec<TokenStream> = vec![
        adapter_ident(def),
        handler_ident(def),
        returns_description(&def.returns),
        line_up(&extractions),
        lookups,
        run_executor(&def.returns, call),
        fill(SOME, executor_value(&def.returns)),
    ];
    assert(all_tokens_of(holes@) =~= seq![
        ident(as_ident(adapter_name(symbol.name))),
        ident(as_ident(handler_name(symbol.name))),
        returns_spec(symbol.clauses.returns),
        in_a_row(param_bindings(symbol.clauses.params)),
        in_a_row(context_bindings(symbol.category, symbol.clauses.contexts)),
        execute_statement(symbol.clauses.returns, execute_call(symbol)),
        rendered(SOME@, seq![execute_value(symbol.clauses.returns)]),
    ]);
    append(&mut tokens, render(EXECUTOR_IMPL, &holes));
    tokens
}

/// The description of what a data item returns.
fn data_item_description(declared: &Option<ReturnsDef>) -> (tokens: TokenStream)
    ensures
        tokens_of(tokens) == data_item_spec(returns_model(*declared)),
{
    match declared {
        Some(def) => if def.types.len() == 1 {
            def.types[0].type_spec()
        } else {
            fixed(SPEC_ANY)
        },
        None => fixed(SPEC_ANY),
    }
}

/// The value that a data item's adapter returns.
fn data_item_outcome(declared: &Option<ReturnsDef>) -> (tokens: TokenStream)
    ensures
        tokens_of(tokens) == data_item_value(returns_model(*declared)),
{
    let result: TokenStream = fixed(RESULT);
    match declared {
        Some(def) => if def.types.len() == 1 {
            def.types[0].wrap_in_rv(&result)
        } else {
            let ghost types = models(def.types@);
            let mut fields: Vec<TokenStream> = Vec::new();
            let mut i: usize = 0;
            while i < def.types.len()
                invariant
                    i <= def.types@.len(),
                    types == models(def.types@),
                    fields@.len() == i,
                    forall|k: int|
                        0 <= k < i ==> tokens_of(#[trigger] fields@[k]) == wrapping(
                            types[k],
                            tuple_field(tokens_of(result), k as nat),
                        ),
                decreases def.types@.len() - i,
            {
                let mut place: TokenStream = TokenStream::new();
                append_index(&mut place, i);
                assert(tokens_of(place) =~= seq![Tok::Lit(decimal(i as nat))]);
                let field: TokenStream = fill_two(TUPLE_FIELD, result.clone(), place);
                fields.push(def.types[i].wrap_in_rv(&field));
                i += 1;
            }
            assert(all_tokens_of(fields@) =~= field_wrappings(types, tokens_of(result)));
            fill(WRAP_TUPLE, separate(&fields))
        },
        None => fixed(UNIT_VALUE),
    }
}

/// The adapter of a data item.
pub fn gen_data_item_adapter(def: &SymbolDef) -> (tokens: TokenStream)
    requires
        def.wf(),
        adapter_valid(def.model()),
    ensures
        tokens_of(tokens) == data_item_adapter_code(def.model()),
{
    let ghost symbol = def.model();
    let mut tokens: TokenStream = declare_adapter(def);
    let extractions: Vec<TokenStream> = gen_param_extractions(def);
    let names: Vec<TokenStream> = names_of(def);
    let (lookups, arguments) = gen_context_handling(def);
    let holes: Vec<TokenStream> = vec![
        adapter_ident(def),
        handler_ident(def),
        data_item_description(&def.returns),
        line_up(&extractions),
        lookups,
        zero(),
        terminate(&names),
        terminate(&arguments),
        data_item_outcome(&def.returns),
    ];
    assert(all_tokens_of(holes@) =~= seq![
        ident(as_ident(adapter_name(symbol.name))),
        ident(as_ident(handler_name(symbol.name))),
        data_item_spec(symbol.clauses.returns),
        in_a_row(param_bindings(symbol.clauses.params)),
        in_a_row(context_bindings(symbol.category, symbol.clauses.contexts)),
        first_field(),
        terminated(param_names(symbol.clauses.params)),
        terminated(context_arguments(symbol.clauses.contexts)),
        data_item_value(symbol.clauses.returns),
    ]);
    append(&mut tokens, render(DATA_ITEM_IMPL, &holes));
    tokens
}

/// The adapter of a condition.
pub fn gen_condition_adapter(def: &SymbolDef) -> (tokens: TokenStream)
    requires
        def.wf(),
        adapter_valid(def.model()),
    ensures
        tokens_of(tokens) == condition_adapter_code(def.model()),
{
    let ghost symbol = def.model();
    let mut tokens: TokenStream = declare_adapter(def);
    let extractions: Vec<TokenStream> = gen_param_extractions(def);
    let names: Vec<TokenStream> = names_of(def);
    let (lookups, arguments) = gen_context_handling(def);
    let holes: Vec<TokenStream> = vec![
        adapter_ident(def),
        handler_ident(def),
        line_up(&extractions),
        lookups,
        zero(),
        terminate(&names),
        terminate(&arguments),
    ];
    assert(all_tokens_of(holes@) =~= seq![
        ident(as_ident(adapter_name(symbol.name))),
        ident(as_ident(handler_name(symbol.name))),
        in_a_row(param_bindings(symbol.clauses.params)),
        in_a_row(context_bindings(symbol.category, symbol.clauses.contexts)),
        first_field(),
        terminated(param_names(symbol.clauses.params)),
        terminated(context_arguments(symbol.clauses.contexts)),
    ]);
    append(&mut tokens, render(CONDITION_IMPL, &holes));
    tokens
}

/// The adapter of a symbol.
pub fn gen_adapter(def: &SymbolDef) -> (tokens: TokenStream)
    requires
        def.wf(),
        adapter_valid(def.model()),
    ensures
        tokens_of(tokens) == adapter_code(def.model()),
{
    match def.category {
        Category::Monitor => gen_monitor_adapter(def),
        Category::Executor => gen_executor_adapter(def),
        Category::DataItem => gen_data_item_adapter(def),
        Category::Condition => gen_condition_adapter(def),
    }
}

// ---------------------------------------------------------------------------------------------
// The whole
// ---------------------------------------------------------------------------------------------
/// The code that a symbol definition stands for.
pub fn generate(def: &SymbolDef) -> (tokens: TokenStream)
    requires
        def.wf(),
        names_valid(def.model()),
    ensures
        tokens_of(tokens) == symbol_code(def.model()),
{
    let mut tokens: TokenStream = gen_metadata(def);
    append(&mut tokens, gen_handler_trait(def));
    append(&mut tokens, gen_adapter(def));
    append(&mut tokens, fill(REGISTRATION, metadata_ident(def)));
    tokens
}

} // verus!
