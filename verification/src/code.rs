//! The code that a symbol definition stands for.
//!
//! A definition becomes three items and a registration: a function that returns the metadata of the
//! symbol, a trait that its handler implements, an adapter that makes such a handler one of the
//! general kind, and the entry of the metadata function in the inventory of symbols.
use vstd::prelude::*;

use crate::grammar::{Category, ContextModel, CtxOp, ParamModel, SymbolModel};
use crate::naming::snake_case;
use crate::syntax::{as_ident, is_ident};
use crate::template::{in_a_row, rendered, separated, terminated};
use crate::token::{decimal, string_literal, Tok};
use crate::trade_type::{
    extraction, is_runtime_value, rust_type_of, type_spec_of, type_specs_of, wrapping, DslType,
    RUST_BOOL, SPEC_ANY, WRAP_TUPLE,
};

verus! {

// ---------------------------------------------------------------------------------------------
// Names
// ---------------------------------------------------------------------------------------------
/// An identifier, as tokens.
pub open spec fn ident(text: Seq<char>) -> Seq<Tok> {
    seq![Tok::Ident(text)]
}

/// A string literal with the given value, as tokens.
pub open spec fn literal(value: Seq<char>) -> Seq<Tok> {
    seq![Tok::Lit(string_literal(value))]
}

/// The literal by which the first field of a tuple is named, as tokens.
pub open spec fn first_field() -> Seq<Tok> {
    seq![Tok::Lit(decimal(0))]
}

/// Whether an identifier is a raw one.
pub open spec fn is_raw(name: Seq<char>) -> bool {
    name.len() >= 2 && name[0] == 'r' && name[1] == '#'
}

/// An identifier without the `r#` that makes it a raw one.
pub open spec fn unraw(name: Seq<char>) -> Seq<char> {
    if is_raw(name) {
        name.skip(2)
    } else {
        name
    }
}

/// The name of the function that returns the metadata of a symbol.
pub open spec fn metadata_name(symbol: Seq<char>) -> Seq<char> {
    snake_case(symbol) + "_metadata"@
}

/// The name of the trait that a handler of a symbol implements.
pub open spec fn handler_name(symbol: Seq<char>) -> Seq<char> {
    unraw(symbol) + "Handler"@
}

/// The name of the adapter of a symbol.
pub open spec fn adapter_name(symbol: Seq<char>) -> Seq<char> {
    unraw(symbol) + "Adapter"@
}

/// The protocols of the contexts that a symbol needs or consumes can serve as identifiers.
pub open spec fn received_protocols_valid(contexts: Seq<ContextModel>) -> bool {
    forall|i: int|
        0 <= i < contexts.len() && (#[trigger] contexts[i]).op != CtxOp::Produce ==> is_ident(
            contexts[i].protocol,
        )
}

/// The protocols of all contexts can serve as identifiers.
pub open spec fn protocols_valid(contexts: Seq<ContextModel>) -> bool {
    forall|i: int| 0 <= i < contexts.len() ==> is_ident((#[trigger] contexts[i]).protocol)
}

/// What has to serve as an identifier in the metadata of a symbol can.
pub open spec fn metadata_valid(symbol: SymbolModel) -> bool {
    is_ident(metadata_name(symbol.name))
}

/// What has to serve as an identifier in the handler trait of a symbol can. Unless the symbol is a
/// monitor, each protocol has to, even that of a context which it produces.
pub open spec fn handler_valid(symbol: SymbolModel) -> bool {
    &&& is_ident(handler_name(symbol.name))
    &&& symbol.category != Category::Monitor ==> protocols_valid(symbol.clauses.contexts)
}

/// The names of the adapter of a symbol, and of the trait that it adapts, can serve as identifiers.
pub open spec fn adapter_names_valid(symbol: SymbolModel) -> bool {
    is_ident(handler_name(symbol.name)) && is_ident(adapter_name(symbol.name))
}

/// What has to serve as an identifier in the adapter of a symbol can.
pub open spec fn adapter_valid(symbol: SymbolModel) -> bool {
    adapter_names_valid(symbol) && received_protocols_valid(symbol.clauses.contexts)
}

/// Everything that has to serve as an identifier in the code of a symbol can.
pub open spec fn names_valid(symbol: SymbolModel) -> bool {
    metadata_valid(symbol) && handler_valid(symbol) && adapter_valid(symbol)
}

// ---------------------------------------------------------------------------------------------
// Return types
// ---------------------------------------------------------------------------------------------
pub const NONE: &'static str = "None";

pub const SOME: &'static str = "Some ( #a )";

pub const UNIT: &'static str = "( )";

/// What a symbol with the given return types returns: the type, where it is one, and else the tuple
/// of them.
pub open spec fn returned(types: Seq<DslType>) -> DslType {
    if types.len() == 1 {
        types[0]
    } else {
        DslType::Tuple(types)
    }
}

/// The optional description of what a symbol returns.
pub open spec fn returns_spec(declared: Option<Seq<DslType>>) -> Seq<Tok> {
    match declared {
        None => rendered(NONE@, seq![]),
        Some(types) => rendered(SOME@, seq![type_spec_of(returned(types))]),
    }
}

/// The type of Rust that stands for what a symbol returns.
pub open spec fn returns_rust_type(declared: Option<Seq<DslType>>) -> Seq<Tok> {
    match declared {
        None => rendered(UNIT@, seq![]),
        Some(types) => rust_type_of(returned(types)),
    }
}

// ---------------------------------------------------------------------------------------------
// Metadata
// ---------------------------------------------------------------------------------------------
pub const CATEGORY_MONITOR: &'static str = "trade_meta_compiler :: SymbolCategory :: Monitor";

pub const CATEGORY_EXECUTOR: &'static str = "trade_meta_compiler :: SymbolCategory :: Executor";

pub const CATEGORY_DATA_ITEM: &'static str = "trade_meta_compiler :: SymbolCategory :: DataItem";

pub const CATEGORY_CONDITION: &'static str = "trade_meta_compiler :: SymbolCategory :: Condition";

/// The category of a symbol.
pub open spec fn category_code(category: Category) -> Seq<Tok> {
    match category {
        Category::Monitor => rendered(CATEGORY_MONITOR@, seq![]),
        Category::Executor => rendered(CATEGORY_EXECUTOR@, seq![]),
        Category::DataItem => rendered(CATEGORY_DATA_ITEM@, seq![]),
        Category::Condition => rendered(CATEGORY_CONDITION@, seq![]),
    }
}

pub const PARAM_REQUIRED: &'static str = "trade_meta_compiler :: ParamSpec :: required ( #a , #b )";

pub const PARAM_OPTIONAL: &'static str = "trade_meta_compiler :: ParamSpec :: optional ( #a , #b )";

pub const PARAM_REQUIRED_MULTI: &'static str =
    "trade_meta_compiler :: ParamSpec :: required_multi ( #a , #b )";

pub const PARAM_OPTIONAL_MULTI: &'static str =
    "trade_meta_compiler :: ParamSpec :: optional_multi ( #a , #b )";

pub const CHOICES: &'static str = "vec ! [ #a ]";

pub const ALIAS_LOOKUP: &'static str =
    "trade_meta_compiler :: TypeAliasDef :: lookup ( #a ) . unwrap_or_else ( || panic ! ( #b , #a ) )";

pub const ALIAS_MISSING: &'static str = "TypeAlias '{}' not registered";

/// The description of a parameter. A choice is described by the list of its types, an alias by the
/// list that is registered under its name.
pub open spec fn param_spec(param: ParamModel) -> Seq<Tok> {
    let name = literal(param.name);
    match param.ty {
        DslType::Union(types) => rendered(
            if param.required {
                PARAM_REQUIRED_MULTI@
            } else {
                PARAM_OPTIONAL_MULTI@
            },
            seq![name, rendered(CHOICES@, seq![separated(type_specs_of(types))])],
        ),
        DslType::Alias(alias) => rendered(
            if param.required {
                PARAM_REQUIRED_MULTI@
            } else {
                PARAM_OPTIONAL_MULTI@
            },
            seq![name, rendered(ALIAS_LOOKUP@, seq![literal(alias), literal(ALIAS_MISSING@)])],
        ),
        ty => rendered(
            if param.required {
                PARAM_REQUIRED@
            } else {
                PARAM_OPTIONAL@
            },
            seq![name, type_spec_of(ty)],
        ),
    }
}

pub const CONTEXT_PRODUCE: &'static str =
    "trade_meta_compiler :: ContextInteraction :: produce ( #a )";

pub const CONTEXT_NEED: &'static str = "trade_meta_compiler :: ContextInteraction :: need ( #a )";

pub const CONTEXT_CONSUME: &'static str =
    "trade_meta_compiler :: ContextInteraction :: consume ( #a )";

/// The description of what a symbol does with a context.
pub open spec fn context_spec(context: ContextModel) -> Seq<Tok> {
    match context.op {
        CtxOp::Produce => rendered(CONTEXT_PRODUCE@, seq![context.literal]),
        CtxOp::Need => rendered(CONTEXT_NEED@, seq![context.literal]),
        CtxOp::Consume => rendered(CONTEXT_CONSUME@, seq![context.literal]),
    }
}

pub const METADATA_HEAD: &'static str = "#a fn #b ( ) -> trade_meta_compiler :: SymbolMetadata";

pub const METADATA_BODY: &'static str =
    "{ trade_meta_compiler :: SymbolMetadata { name : #a , returns : #b , params : vec ! [ #c ] , category : #d , contexts : vec ! [ #e ] , } }";

/// The head of the function that returns the metadata of a symbol.
pub open spec fn metadata_head(symbol: SymbolModel) -> Seq<Tok> {
    rendered(METADATA_HEAD@, seq![symbol.vis, ident(as_ident(metadata_name(symbol.name)))])
}

/// The function that returns the metadata of a symbol.
pub open spec fn metadata_code(symbol: SymbolModel) -> Seq<Tok> {
    metadata_head(symbol) + rendered(
        METADATA_BODY@,
        seq![
            literal(symbol.name),
            returns_spec(symbol.clauses.returns),
            separated(symbol.clauses.params.map_values(|param: ParamModel| param_spec(param))),
            category_code(symbol.category),
            separated(
                symbol.clauses.contexts.map_values(
                    |context: ContextModel| context_spec(context),
                ),
            ),
        ],
    )
}

// ---------------------------------------------------------------------------------------------
// Handler trait
// ---------------------------------------------------------------------------------------------
pub const DECLARE_REQUIRED: &'static str = "#a : #b";

pub const DECLARE_OPTIONAL: &'static str = "#a : Option < #b >";

/// The declaration of a parameter: an optional one may be missing.
pub open spec fn param_declaration(param: ParamModel) -> Seq<Tok> {
    rendered(
        if param.required {
            DECLARE_REQUIRED@
        } else {
            DECLARE_OPTIONAL@
        },
        seq![ident(param.name), rust_type_of(param.ty)],
    )
}

pub const DECLARE_NEED: &'static str = "#a : & #b";

pub const DECLARE_CONSUME: &'static str = "#a : :: std :: sync :: Arc < #b >";

/// The declaration of a context that a handler receives: one that it needs is lent to it, one that
/// it consumes is handed over.
pub open spec fn context_declaration(context: ContextModel) -> Seq<Tok> {
    rendered(
        if context.op == CtxOp::Need {
            DECLARE_NEED@
        } else {
            DECLARE_CONSUME@
        },
        seq![ident(as_ident(context.protocol)), context.ty],
    )
}

/// The contexts that a handler receives: those that it needs or consumes, in the order of the
/// definition.
pub open spec fn received(contexts: Seq<ContextModel>) -> Seq<ContextModel> {
    contexts.filter(|context: ContextModel| context.op != CtxOp::Produce)
}

pub const DECLARE_CANCEL: &'static str = "cancel : trade_lang_core :: CancellationToken";

pub const DECLARE_TASK: &'static str =
    "ctx : & :: std :: sync :: Arc < trade_lang_core :: TradeTaskContext >";

/// What a handler declares, behind `&self`: the parameters of the symbol; the contexts that it
/// receives, unless it is a monitor, which receives none; then the token by which a monitor is
/// cancelled, or the task that another runs in.
pub open spec fn declarations(symbol: SymbolModel) -> Seq<Seq<Tok>> {
    let params = symbol.clauses.params.map_values(|param: ParamModel| param_declaration(param));
    if symbol.category == Category::Monitor {
        params.push(rendered(DECLARE_CANCEL@, seq![]))
    } else {
        (params + received(symbol.clauses.contexts).map_values(
            |context: ContextModel| context_declaration(context),
        )).push(rendered(DECLARE_TASK@, seq![]))
    }
}

pub const START: &'static str = "start";

pub const EXECUTE: &'static str = "execute";

pub const GET: &'static str = "get";

pub const EVALUATE: &'static str = "evaluate";

/// The method of a handler.
pub open spec fn method(category: Category) -> Seq<Tok> {
    match category {
        Category::Monitor => rendered(START@, seq![]),
        Category::Executor => rendered(EXECUTE@, seq![]),
        Category::DataItem => rendered(GET@, seq![]),
        Category::Condition => rendered(EVALUATE@, seq![]),
    }
}

pub const MONITOR_RESULT: &'static str =
    "trade_lang_core :: monitor_mpsc :: Receiver < trade_lang_core :: MonitorMessage >";

pub const EXECUTOR_RESULT: &'static str = "trade_lang_core :: ExecutorResult < #a >";

/// What the method of a handler returns.
pub open spec fn method_result(category: Category, declared: Option<Seq<DslType>>) -> Seq<Tok> {
    match category {
        Category::Monitor => rendered(MONITOR_RESULT@, seq![]),
        Category::Executor => rendered(EXECUTOR_RESULT@, seq![returns_rust_type(declared)]),
        Category::DataItem => returns_rust_type(declared),
        Category::Condition => rendered(RUST_BOOL@, seq![]),
    }
}

pub const HANDLER_HEAD: &'static str =
    "# [ async_trait :: async_trait ] #a trait #b : Send + Sync";

pub const HANDLER_BODY: &'static str = "{ async fn #a ( & self , #b ) -> #c ; }";

/// The head of the trait that a handler of a symbol implements.
pub open spec fn handler_head(symbol: SymbolModel) -> Seq<Tok> {
    rendered(HANDLER_HEAD@, seq![symbol.vis, ident(as_ident(handler_name(symbol.name)))])
}

/// The trait that a handler of a symbol implements.
pub open spec fn handler_trait_code(symbol: SymbolModel) -> Seq<Tok> {
    handler_head(symbol) + rendered(
        HANDLER_BODY@,
        seq![
            method(symbol.category),
            separated(declarations(symbol)),
            method_result(symbol.category, symbol.clauses.returns),
        ],
    )
}

// ---------------------------------------------------------------------------------------------
// Arguments
// ---------------------------------------------------------------------------------------------
pub const VALUE: &'static str = "v";

pub const BIND_VALUE: &'static str =
    "let #a = args . get ( #b ) . cloned ( ) . unwrap_or ( trade_meta_compiler :: RuntimeValue :: Unit ) ;";

pub const BIND_OPTIONAL_VALUE: &'static str = "let #a = args . get ( #b ) . cloned ( ) ;";

pub const BIND: &'static str =
    "let #a = args . get ( #b ) . map ( | v | #c ) . unwrap_or_default ( ) ;";

pub const BIND_OPTIONAL: &'static str = "let #a = args . get ( #b ) . map ( | v | #c ) ;";

/// The statement that takes a parameter out of the arguments. A runtime value is taken as it is, a
/// value of another type is extracted; where a required one is missing, a default takes its place.
pub open spec fn param_binding(param: ParamModel) -> Seq<Tok> {
    let name = ident(param.name);
    let key = literal(param.name);
    if is_runtime_value(param.ty) {
        if param.required {
            rendered(BIND_VALUE@, seq![name, key])
        } else {
            rendered(BIND_OPTIONAL_VALUE@, seq![name, key])
        }
    } else {
        let extract = extraction(param.ty, rendered(VALUE@, seq![]));
        if param.required {
            rendered(BIND@, seq![name, key, extract])
        } else {
            rendered(BIND_OPTIONAL@, seq![name, key, extract])
        }
    }
}

/// The statements that take the parameters out of the arguments.
pub open spec fn param_bindings(params: Seq<ParamModel>) -> Seq<Seq<Tok>> {
    params.map_values(|param: ParamModel| param_binding(param))
}

/// The names of the parameters.
pub open spec fn param_names(params: Seq<ParamModel>) -> Seq<Seq<Tok>> {
    params.map_values(|param: ParamModel| ident(param.name))
}

pub const MISSING_EXECUTOR: &'static str =
    "log :: warn ! ( #a ) ; ctx . signal_done ( ) ; return None ;";

pub const MISSING_DATA_ITEM: &'static str =
    "log :: warn ! ( #a ) ; ctx . signal_done ( ) ; return trade_meta_compiler :: RuntimeValue :: Unit ;";

pub const MISSING_CONDITION: &'static str = "log :: warn ! ( #a ) ; return false ;";

/// What is said of a context that is missing.
pub open spec fn missing_message(protocol: Seq<char>) -> Seq<char> {
    "[context] '"@ + protocol + "' not available"@
}

/// What an adapter does where a context is missing. A monitor looks up none.
pub open spec fn missing_context(category: Category, protocol: Seq<char>) -> Seq<Tok> {
    let message = literal(missing_message(protocol));
    match category {
        Category::Executor => rendered(MISSING_EXECUTOR@, seq![message]),
        Category::DataItem => rendered(MISSING_DATA_ITEM@, seq![message]),
        Category::Condition => rendered(MISSING_CONDITION@, seq![message]),
        Category::Monitor => Seq::empty(),
    }
}

pub const TAKE_CONTEXT: &'static str =
    "let #a : :: std :: sync :: Arc < #b > = match ctx . consume_context :: < #b > ( #c ) . await { Some ( v ) => v , None => { #d } } ;";

pub const GET_CONTEXT: &'static str =
    "let #a : :: std :: sync :: Arc < #b > = match ctx . get_context :: < #b > ( #c ) . await { Some ( v ) => v , None => { #d } } ;";

/// The statement that looks up a context: one that is consumed is taken away, one that is needed is
/// shared.
pub open spec fn context_binding(category: Category, context: ContextModel) -> Seq<Tok> {
    rendered(
        if context.op == CtxOp::Consume {
            TAKE_CONTEXT@
        } else {
            GET_CONTEXT@
        },
        seq![
            ident(as_ident(context.protocol)),
            context.ty,
            literal(context.protocol),
            missing_context(category, context.protocol),
        ],
    )
}

/// The contexts with which a symbol does the given thing, in the order of the definition.
pub open spec fn with_op(contexts: Seq<ContextModel>, op: CtxOp) -> Seq<ContextModel> {
    contexts.filter(|context: ContextModel| context.op == op)
}

/// The contexts that an adapter looks up: those that are consumed before those that are needed.
pub open spec fn looked_up(contexts: Seq<ContextModel>) -> Seq<ContextModel> {
    with_op(contexts, CtxOp::Consume) + with_op(contexts, CtxOp::Need)
}

/// The statements that look up the contexts.
pub open spec fn context_bindings(category: Category, contexts: Seq<ContextModel>) -> Seq<
    Seq<Tok>,
> {
    looked_up(contexts).map_values(|context: ContextModel| context_binding(category, context))
}

pub const LEND: &'static str = "& #a";

/// The argument by which a context is handed to the handler: itself where it is consumed, lent
/// where it is needed.
pub open spec fn context_argument(context: ContextModel) -> Seq<Tok> {
    if context.op == CtxOp::Consume {
        ident(as_ident(context.protocol))
    } else {
        rendered(LEND@, seq![ident(as_ident(context.protocol))])
    }
}

/// The arguments by which the contexts are handed to the handler, in the order in which it declares
/// them.
pub open spec fn context_arguments(contexts: Seq<ContextModel>) -> Seq<Seq<Tok>> {
    received(contexts).map_values(|context: ContextModel| context_argument(context))
}

// ---------------------------------------------------------------------------------------------
// Adapters
// ---------------------------------------------------------------------------------------------
pub const ADAPTER_STRUCT: &'static str = "#a struct #b < H : #c > ( pub H ) ;";

/// The adapter of a symbol, as a type.
pub open spec fn adapter_struct(symbol: SymbolModel) -> Seq<Tok> {
    rendered(
        ADAPTER_STRUCT@,
        seq![
            symbol.vis,
            ident(as_ident(adapter_name(symbol.name))),
            ident(as_ident(handler_name(symbol.name))),
        ],
    )
}

pub const CALL_START: &'static str = "self . #a . start ( #b cancel ) . await";

pub const MONITOR_IMPL: &'static str =
    "# [ async_trait :: async_trait ] impl < H : #b + 'static > trade_lang_core :: MonitorHandler for #a < H > { async fn start ( & self , args : & :: std :: collections :: HashMap < :: std :: string :: String , trade_meta_compiler :: RuntimeValue > , cancel : trade_lang_core :: CancellationToken , ) -> trade_lang_core :: monitor_mpsc :: Receiver < trade_lang_core :: MonitorMessage > { #c #d } }";

/// The adapter of a monitor: it hands on what the handler returns.
pub open spec fn monitor_adapter_code(symbol: SymbolModel) -> Seq<Tok> {
    let params = symbol.clauses.params;
    adapter_struct(symbol) + rendered(
        MONITOR_IMPL@,
        seq![
            ident(as_ident(adapter_name(symbol.name))),
            ident(as_ident(handler_name(symbol.name))),
            in_a_row(param_bindings(params)),
            rendered(CALL_START@, seq![first_field(), terminated(param_names(params))]),
        ],
    )
}

pub const CALL_EXECUTE: &'static str = "self . #a . execute ( #b #c ctx ) . await";

pub const EXECUTE_FAILED: &'static str =
    "log :: warn ! ( #a , e ) ; ctx . signal_done ( ) ; return None ;";

pub const FAILURE_MESSAGE: &'static str = "[executor] execute failed: {}, triggering finally";

pub const RUN: &'static str = "match #a { Ok ( ( ) ) => { } , Err ( e ) => { #b } }";

pub const RUN_FOR_ONE: &'static str =
    "let __result = match #a { Ok ( v ) => v , Err ( e ) => { #b } } ;";

pub const RUN_FOR_MANY: &'static str =
    "let ( #c ) = match #a { Ok ( v ) => v , Err ( e ) => { #b } } ;";

pub const RESULT: &'static str = "__result";

pub const UNIT_VALUE: &'static str = "trade_meta_compiler :: RuntimeValue :: Unit";

/// The call of an executor's handler.
pub open spec fn execute_call(symbol: SymbolModel) -> Seq<Tok> {
    rendered(
        CALL_EXECUTE@,
        seq![
            first_field(),
            terminated(param_names(symbol.clauses.params)),
            terminated(context_arguments(symbol.clauses.contexts)),
        ],
    )
}

/// The variables that hold the `n` values that an executor's handler returns.
pub open spec fn result_names(n: nat) -> Seq<Seq<Tok>> {
    Seq::new(n, |i: int| ident("__r"@ + decimal(i as nat)))
}

/// The expressions that turn the values that an executor's handler returns into runtime values.
pub open spec fn result_wrappings(types: Seq<DslType>) -> Seq<Seq<Tok>> {
    Seq::new(types.len(), |i: int| wrapping(types[i], ident("__r"@ + decimal(i as nat))))
}

/// The statement that calls an executor's handler and binds what it returns. Where the handler
/// fails, the task is told that it is done.
pub open spec fn execute_statement(declared: Option<Seq<DslType>>, call: Seq<Tok>) -> Seq<Tok> {
    let failed = rendered(EXECUTE_FAILED@, seq![literal(FAILURE_MESSAGE@)]);
    match declared {
        None => rendered(RUN@, seq![call, failed]),
        Some(types) => if types.len() == 1 {
            rendered(RUN_FOR_ONE@, seq![call, failed])
        } else {
            rendered(RUN_FOR_MANY@, seq![call, failed, separated(result_names(types.len()))])
        },
    }
}

/// The runtime value that an executor's adapter returns.
pub open spec fn execute_value(declared: Option<Seq<DslType>>) -> Seq<Tok> {
    match declared {
        None => rendered(UNIT_VALUE@, seq![]),
        Some(types) => if types.len() == 1 {
            wrapping(types[0], rendered(RESULT@, seq![]))
        } else {
            rendered(WRAP_TUPLE@, seq![separated(result_wrappings(types))])
        },
    }
}

pub const EXECUTOR_IMPL: &'static str =
    "# [ async_trait :: async_trait ] impl < H : #b + 'static > trade_lang_core :: ExecutorHandler for #a < H > { fn declared_return_type ( & self ) -> Option < trade_meta_compiler :: TypeSpec > { #c } async fn execute ( & self , args : & :: std :: collections :: HashMap < :: std :: string :: String , trade_meta_compiler :: RuntimeValue > , ctx : & :: std :: sync :: Arc < trade_lang_core :: TradeTaskContext > , ) -> Option < trade_meta_compiler :: RuntimeValue > { #d #e #f #g } }";

/// The adapter of an executor.
pub open spec fn executor_adapter_code(symbol: SymbolModel) -> Seq<Tok> {
    adapter_struct(symbol) + rendered(
        EXECUTOR_IMPL@,
        seq![
            ident(as_ident(adapter_name(symbol.name))),
            ident(as_ident(handler_name(symbol.name))),
            returns_spec(symbol.clauses.returns),
            in_a_row(param_bindings(symbol.clauses.params)),
            in_a_row(context_bindings(symbol.category, symbol.clauses.contexts)),
            execute_statement(symbol.clauses.returns, execute_call(symbol)),
            rendered(SOME@, seq![execute_value(symbol.clauses.returns)]),
        ],
    )
}

pub const DATA_ITEM_IMPL: &'static str =
    "# [ async_trait :: async_trait ] impl < H : #b + 'static > trade_lang_core :: DataItemHandler for #a < H > { fn declared_return_type ( & self ) -> trade_meta_compiler :: TypeSpec { #c } async fn get ( & self , args : & :: std :: collections :: HashMap < :: std :: string :: String , trade_meta_compiler :: RuntimeValue > , ctx : & :: std :: sync :: Arc < trade_lang_core :: TradeTaskContext > , ) -> trade_meta_compiler :: RuntimeValue { #d #e let __result = self . #f . get ( #g #h ctx ) . await ; #i } }";

/// The description of what a data item returns: of any type, unless the definition names one type.
pub open spec fn data_item_spec(declared: Option<Seq<DslType>>) -> Seq<Tok> {
    match declared {
        Some(types) => if types.len() == 1 {
            type_spec_of(types[0])
        } else {
            rendered(SPEC_ANY@, seq![])
        },
        None => rendered(SPEC_ANY@, seq![]),
    }
}

/// The value that a data item's adapter returns: what the handler returned, turned into a runtime
/// value.
pub open spec fn data_item_value(declared: Option<Seq<DslType>>) -> Seq<Tok> {
    match declared {
        Some(types) => wrapping(returned(types), rendered(RESULT@, seq![])),
        None => rendered(UNIT_VALUE@, seq![]),
    }
}

/// The adapter of a data item.
pub open spec fn data_item_adapter_code(symbol: SymbolModel) -> Seq<Tok> {
    adapter_struct(symbol) + rendered(
        DATA_ITEM_IMPL@,
        seq![
            ident(as_ident(adapter_name(symbol.name))),
            ident(as_ident(handler_name(symbol.name))),
            data_item_spec(symbol.clauses.returns),
            in_a_row(param_bindings(symbol.clauses.params)),
            in_a_row(context_bindings(symbol.category, symbol.clauses.contexts)),
            first_field(),
            terminated(param_names(symbol.clauses.params)),
            terminated(context_arguments(symbol.clauses.contexts)),
            data_item_value(symbol.clauses.returns),
        ],
    )
}

pub const CONDITION_IMPL: &'static str =
    "# [ async_trait :: async_trait ] impl < H : #b + 'static > trade_lang_core :: ConditionHandler for #a < H > { async fn evaluate ( & self , args : & :: std :: collections :: HashMap < :: std :: string :: String , trade_meta_compiler :: RuntimeValue > , ctx : & :: std :: sync :: Arc < trade_lang_core :: TradeTaskContext > , ) -> bool { #c #d let __result = self . #e . evaluate ( #f #g ctx ) . await ; __result } }";

/// The adapter of a condition.
pub open spec fn condition_adapter_code(symbol: SymbolModel) -> Seq<Tok> {
    adapter_struct(symbol) + rendered(
        CONDITION_IMPL@,
        seq![
            ident(as_ident(adapter_name(symbol.name))),
            ident(as_ident(handler_name(symbol.name))),
            in_a_row(param_bindings(symbol.clauses.params)),
            in_a_row(context_bindings(symbol.category, symbol.clauses.contexts)),
            first_field(),
            terminated(param_names(symbol.clauses.params)),
            terminated(context_arguments(symbol.clauses.contexts)),
        ],
    )
}

/// The adapter of a symbol.
pub open spec fn adapter_code(symbol: SymbolModel) -> Seq<Tok> {
    match symbol.category {
        Category::Monitor => monitor_adapter_code(symbol),
        Category::Executor => executor_adapter_code(symbol),
        Category::DataItem => data_item_adapter_code(symbol),
        Category::Condition => condition_adapter_code(symbol),
    }
}

// ---------------------------------------------------------------------------------------------
// The whole
// ---------------------------------------------------------------------------------------------
pub const REGISTRATION: &'static str =
    "trade_meta_compiler :: inventory :: submit ! { trade_meta_compiler :: SymbolFactory ( #a ) }";

/// The entry of a symbol in the inventory.
pub open spec fn registration(symbol: SymbolModel) -> Seq<Tok> {
    rendered(REGISTRATION@, seq![ident(as_ident(metadata_name(symbol.name)))])
}

/// The code that a symbol definition stands for.
pub open spec fn symbol_code(symbol: SymbolModel) -> Seq<Tok> {
    metadata_code(symbol) + handler_trait_code(symbol) + adapter_code(symbol) + registration(symbol)
}

} // verus!
