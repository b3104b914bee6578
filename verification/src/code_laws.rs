//! What the generated code is, with its tokens written out, and what holds between its parts.
use vstd::prelude::*;

use crate::code::{
    adapter_code, category_code, context_argument, context_arguments, context_binding,
    context_bindings, context_declaration, context_spec, data_item_spec, data_item_value,
    declarations, execute_call, execute_statement, execute_value, first_field, handler_name,
    handler_trait_code, metadata_code, metadata_name, method, method_result, missing_context,
    param_binding, param_bindings, param_declaration, param_names, param_spec, result_names,
    result_wrappings, returned, returns_rust_type, returns_spec, symbol_code, unraw, with_op,
    ALIAS_LOOKUP, CALL_START, CHOICES, DECLARE_CANCEL, DECLARE_TASK, EXECUTE_FAILED, SOME,
};
use crate::grammar::{category_named, Category, ContextModel, CtxOp, ParamModel, SymbolModel};
use crate::naming::snake_case;
use crate::phrase::{curly, mark, one, path, path_of_three, quoted, round, vec_of};
use crate::spelled::{
    args_declaration, async_trait_attribute, cancel_declaration, description_type, messages_type,
    spell_adapter_struct, spell_alias_lookup, spell_bind, spell_bind_optional,
    spell_bind_optional_value, spell_bind_value, spell_call_execute, spell_call_start,
    spell_category_condition, spell_category_data_item, spell_category_executor,
    spell_category_monitor, spell_choices, spell_condition_impl, spell_context_consume,
    spell_context_need, spell_context_produce, spell_data_item_impl, spell_declare_cancel,
    spell_declare_consume, spell_declare_need, spell_declare_optional, spell_declare_required,
    spell_declare_task, spell_evaluate, spell_execute, spell_execute_failed, spell_executor_impl,
    spell_executor_result, spell_get, spell_get_context, spell_handler_body, spell_handler_head,
    spell_lend, spell_metadata_body, spell_metadata_head, spell_missing_condition,
    spell_missing_data_item, spell_missing_executor, spell_monitor_impl, spell_monitor_result,
    spell_none, spell_param_optional, spell_param_optional_multi, spell_param_required,
    spell_param_required_multi, spell_registration, spell_result, spell_run, spell_run_for_many,
    spell_run_for_one, spell_rust_bool, spell_rust_tuple, spell_some, spell_spec_any,
    spell_spec_tuple, spell_start, spell_take_context, spell_unit, spell_unit_value, spell_value,
    spell_wrap_tuple, task_declaration, value_type,
};
use crate::syntax::as_ident;
use crate::template::{in_a_row, rendered, separated, terminated};
use crate::token::{decimal, Delim, Tok};
use crate::trade_type::{
    extraction, rust_type_of, rust_types_of, type_spec_of, type_specs_of, wrapping, DslType,
};
use crate::written::lemma_words_of_grammar;

verus! {

// ---------------------------------------------------------------------------------------------
// Return types
// ---------------------------------------------------------------------------------------------
/// `None` where a definition names no return types; `Some` of the description of the type where it
/// names one; and else `Some` of the description of the tuple of the types, in order.
pub open spec fn returns_written(declared: Option<Seq<DslType>>) -> Seq<Tok> {
    match declared {
        None => one("None"@),
        Some(types) => one("Some"@) + round(
            if types.len() == 1 {
                type_spec_of(types[0])
            } else {
                path_of_three("trade_meta_compiler"@, "TypeSpec"@, "Tuple"@) + round(
                    vec_of(separated(type_specs_of(types))),
                )
            },
        ),
    }
}

/// The optional description of what a symbol returns is written out as said.
pub proof fn law_returns_written(declared: Option<Seq<DslType>>)
    ensures
        returns_spec(declared) == returns_written(declared),
{
    match declared {
        None => {
            spell_none();
        },
        Some(types) => {
            spell_some(type_spec_of(returned(types)));
            spell_spec_tuple(separated(type_specs_of(types)));
            let tuple = path_of_three("trade_meta_compiler"@, "TypeSpec"@, "Tuple"@) + round(
                vec_of(separated(type_specs_of(types))),
            );
            if types.len() != 1 {
                assert(type_spec_of(DslType::Tuple(types)) =~= tuple);
            }
            let inner = if types.len() == 1 {
                type_spec_of(types[0])
            } else {
                tuple
            };
            assert(returns_spec(declared) =~= one("Some"@) + round(inner));
        },
    }
}

/// The type that a handler's method returns for the return types of a definition: `()`, the type, or
/// the tuple of the types.
pub open spec fn returned_type_written(declared: Option<Seq<DslType>>) -> Seq<Tok> {
    match declared {
        None => round(Seq::empty()),
        Some(types) => if types.len() == 1 {
            rust_type_of(types[0])
        } else {
            round(separated(rust_types_of(types)))
        },
    }
}

/// The type of Rust for what a symbol returns is written out as said.
pub proof fn law_returned_type_written(declared: Option<Seq<DslType>>)
    ensures
        returns_rust_type(declared) == returned_type_written(declared),
{
    match declared {
        None => {
            spell_unit();
        },
        Some(types) => {
            spell_rust_tuple(separated(rust_types_of(types)));
        },
    }
}

// ---------------------------------------------------------------------------------------------
// Metadata
// ---------------------------------------------------------------------------------------------
/// The name of the variant for a category.
pub open spec fn category_variant(category: Category) -> Seq<char> {
    match category {
        Category::Monitor => "Monitor"@,
        Category::Executor => "Executor"@,
        Category::DataItem => "DataItem"@,
        Category::Condition => "Condition"@,
    }
}

/// `trade_meta_compiler :: SymbolCategory ::` and the variant, for each category.
pub proof fn law_category_written(category: Category)
    ensures
        category_code(category) == path_of_three(
            "trade_meta_compiler"@,
            "SymbolCategory"@,
            category_variant(category),
        ),
{
    spell_category_monitor();
    spell_category_executor();
    spell_category_data_item();
    spell_category_condition();
    assert(category_code(category) =~= path_of_three(
        "trade_meta_compiler"@,
        "SymbolCategory"@,
        category_variant(category),
    ));
}

/// The category in the metadata is the one that the word of the definition names.
pub proof fn law_category_follows_the_word(word: Seq<char>)
    requires
        category_named(word) is Some,
    ensures
        ({
            let code = category_code(category_named(word).unwrap());
            let of = |variant: Seq<char>|
                path_of_three("trade_meta_compiler"@, "SymbolCategory"@, variant);
            &&& word == "monitor"@ ==> code == of("Monitor"@)
            &&& word == "executor"@ ==> code == of("Executor"@)
            &&& word == "data_item"@ ==> code == of("DataItem"@)
            &&& word == "condition"@ ==> code == of("Condition"@)
            &&& word == "monitor"@ || word == "executor"@ || word == "data_item"@ || word
                == "condition"@
        }),
{
    lemma_words_of_grammar();
    law_category_written(category_named(word).unwrap());
}

/// What describes a parameter: its name; then the description of its type; or, of a choice, those of
/// its types, and of an alias, those that are registered under it.
pub open spec fn param_described(param: ParamModel) -> Seq<Tok> {
    let many = param.ty is Union || param.ty is Alias;
    let constructor = if param.required && many {
        "required_multi"@
    } else if param.required {
        "required"@
    } else if many {
        "optional_multi"@
    } else {
        "optional"@
    };
    let types = match param.ty {
        DslType::Union(types) => vec_of(separated(type_specs_of(types))),
        DslType::Alias(alias) => path_of_three("trade_meta_compiler"@, "TypeAliasDef"@, "lookup"@)
            + round(quoted(alias)) + mark('.') + one("unwrap_or_else"@) + round(
            seq![Tok::Punct('|', true), Tok::Punct('|', false)] + one("panic"@) + mark('!') + round(
                quoted("TypeAlias '{}' not registered"@) + mark(',') + quoted(alias),
            ),
        ),
        ty => type_spec_of(ty),
    };
    path_of_three("trade_meta_compiler"@, "ParamSpec"@, constructor) + round(
        quoted(param.name) + mark(',') + types,
    )
}

/// A parameter is described as said.
pub proof fn law_param_described(param: ParamModel)
    ensures
        param_spec(param) == param_described(param),
{
    let name = quoted(param.name);
    let missing = quoted("TypeAlias '{}' not registered"@);
    match param.ty {
        DslType::Union(types) => {
            let list = separated(type_specs_of(types));
            spell_choices(list);
            assert(rendered(CHOICES@, seq![list]) =~= vec_of(list));
            spell_param_required_multi(name, vec_of(list));
            spell_param_optional_multi(name, vec_of(list));
        },
        DslType::Alias(alias) => {
            spell_alias_lookup(quoted(alias), missing);
            let panic = seq![Tok::Punct('|', true), Tok::Punct('|', false)] + one("panic"@) + mark(
                '!',
            ) + round(missing + mark(',') + quoted(alias));
            let lookup = path_of_three("trade_meta_compiler"@, "TypeAliasDef"@, "lookup"@) + round(
                quoted(alias),
            ) + mark('.') + one("unwrap_or_else"@) + round(panic);
            let inside = missing + seq![Tok::Punct(',', false)] + quoted(alias);
            assert(inside =~= missing + mark(',') + quoted(alias));
            let called = seq![
                Tok::Punct('|', true),
                Tok::Punct('|', false),
                Tok::Ident("panic"@),
                Tok::Punct('!', false),
            ] + round(inside);
            assert(called =~= panic);
            assert(rendered(ALIAS_LOOKUP@, seq![quoted(alias), missing]) =~= lookup);
            spell_param_required_multi(name, lookup);
            spell_param_optional_multi(name, lookup);
            assert(name + seq![Tok::Punct(',', false)] + lookup =~= name + mark(',') + lookup);
        },
        ty => {
            spell_param_required(name, type_spec_of(ty));
            spell_param_optional(name, type_spec_of(ty));
        },
    }
    assert(param_spec(param) =~= param_described(param));
}

/// What a symbol does with a context is described by the name of what it does, on the literal of the
/// protocol.
pub proof fn law_context_described(context: ContextModel)
    ensures
        context_spec(context) == path_of_three(
            "trade_meta_compiler"@,
            "ContextInteraction"@,
            match context.op {
                CtxOp::Produce => "produce"@,
                CtxOp::Need => "need"@,
                CtxOp::Consume => "consume"@,
            },
        ) + round(context.literal),
{
    spell_context_produce(context.literal);
    spell_context_need(context.literal);
    spell_context_consume(context.literal);
    assert(context_spec(context) =~= path_of_three(
        "trade_meta_compiler"@,
        "ContextInteraction"@,
        match context.op {
            CtxOp::Produce => "produce"@,
            CtxOp::Need => "need"@,
            CtxOp::Consume => "consume"@,
        },
    ) + round(context.literal));
}

/// The head of the metadata function.
pub open spec fn metadata_head_written(vis: Seq<Tok>, name: Seq<Tok>) -> Seq<Tok> {
    vis + seq![Tok::Ident("fn"@)] + name
        + seq![
            Tok::Group(Delim::Parenthesis, Seq::<Tok>::empty()),
            Tok::Punct('-', true),
            Tok::Punct('>', false),
            Tok::Ident("trade_meta_compiler"@),
            Tok::Punct(':', true),
            Tok::Punct(':', false),
            Tok::Ident("SymbolMetadata"@),
        ]
}

/// The body of the metadata function.
pub open spec fn metadata_body_written(
    name: Seq<Tok>,
    outcome: Seq<Tok>,
    params: Seq<Tok>,
    category: Seq<Tok>,
    contexts: Seq<Tok>,
) -> Seq<Tok> {
    seq![
        Tok::Group(
            Delim::Brace,
            seq![
                Tok::Ident("trade_meta_compiler"@),
                Tok::Punct(':', true),
                Tok::Punct(':', false),
                Tok::Ident("SymbolMetadata"@),
            ] + seq![
                Tok::Group(
                    Delim::Brace,
                    seq![Tok::Ident("name"@), Tok::Punct(':', false)] + name
                        + seq![
                            Tok::Punct(',', false),
                            Tok::Ident("returns"@),
                            Tok::Punct(':', false),
                        ] + outcome
                        + seq![
                            Tok::Punct(',', false),
                            Tok::Ident("params"@),
                            Tok::Punct(':', false),
                            Tok::Ident("vec"@),
                            Tok::Punct('!', false),
                        ] + seq![Tok::Group(Delim::Bracket, params)]
                        + seq![
                            Tok::Punct(',', false),
                            Tok::Ident("category"@),
                            Tok::Punct(':', false),
                        ] + category
                        + seq![
                            Tok::Punct(',', false),
                            Tok::Ident("contexts"@),
                            Tok::Punct(':', false),
                            Tok::Ident("vec"@),
                            Tok::Punct('!', false),
                        ] + seq![Tok::Group(Delim::Bracket, contexts)]
                        + seq![Tok::Punct(',', false)],
                ),
            ],
        ),
    ]
}

/// The metadata function: its name, which is that of the symbol in snake case with `_metadata`
/// behind it; and the name, return types, parameters, category and contexts of the symbol, each
/// parameter and context in its place.
pub proof fn law_metadata_written(symbol: SymbolModel)
    ensures
        metadata_code(symbol) == metadata_head_written(
            symbol.vis,
            one(as_ident(snake_case(symbol.name) + "_metadata"@)),
        ) + metadata_body_written(
            quoted(symbol.name),
            returns_written(symbol.clauses.returns),
            separated(
                symbol.clauses.params.map_values(|param: ParamModel| param_described(param)),
            ),
            path_of_three(
                "trade_meta_compiler"@,
                "SymbolCategory"@,
                category_variant(symbol.category),
            ),
            separated(
                symbol.clauses.contexts.map_values(|context: ContextModel| context_spec(context)),
            ),
        ),
{
    let params = symbol.clauses.params;
    let described = params.map_values(|param: ParamModel| param_described(param));
    let contexts = symbol.clauses.contexts.map_values(
        |context: ContextModel| context_spec(context),
    );
    assert forall|i: int| 0 <= i < params.len() implies param_spec(params[i])
        == #[trigger] described[i] by {
        law_param_described(params[i]);
    }
    assert(params.map_values(|param: ParamModel| param_spec(param)) =~= described);
    law_returns_written(symbol.clauses.returns);
    law_category_written(symbol.category);
    spell_metadata_head(symbol.vis, one(as_ident(metadata_name(symbol.name))));
    spell_metadata_body(
        quoted(symbol.name),
        returns_written(symbol.clauses.returns),
        separated(described),
        category_code(symbol.category),
        separated(contexts),
    );
}

// ---------------------------------------------------------------------------------------------
// Handler trait
// ---------------------------------------------------------------------------------------------
/// A parameter is declared with the type of Rust for its type where it is required, and with
/// `Option` of it where it is optional, whatever its type.
pub proof fn law_param_declared(param: ParamModel)
    ensures
        param_declaration(param) == one(param.name) + mark(':') + (if param.required {
            rust_type_of(param.ty)
        } else {
            one("Option"@) + mark('<') + rust_type_of(param.ty) + mark('>')
        }),
{
    spell_declare_required(one(param.name), rust_type_of(param.ty));
    spell_declare_optional(one(param.name), rust_type_of(param.ty));
    let option = one("Option"@) + mark('<') + rust_type_of(param.ty) + mark('>');
    assert(param_declaration(param) =~= one(param.name) + mark(':') + (if param.required {
        rust_type_of(param.ty)
    } else {
        option
    }));
}

/// A context that a symbol needs is declared as a reference to its type, one that it consumes as an
/// `Arc` of its type.
pub proof fn law_context_declared(context: ContextModel)
    requires
        context.op != CtxOp::Produce,
    ensures
        context.op == CtxOp::Need ==> context_declaration(context) == one(
            as_ident(context.protocol),
        ) + mark(':') + mark('&') + context.ty,
        context.op == CtxOp::Consume ==> context_declaration(context) == one(
            as_ident(context.protocol),
        ) + mark(':') + arc_of(context.ty),
{
    let name = one(as_ident(context.protocol));
    spell_declare_need(name, context.ty);
    spell_declare_consume(name, context.ty);
    if context.op == CtxOp::Need {
        assert(context_declaration(context) =~= name + mark(':') + mark('&') + context.ty);
    } else {
        assert(context_declaration(context) =~= name + mark(':') + arc_of(context.ty));
    }
}

/// `:: std :: sync :: Arc < .. >`
pub open spec fn arc_of(ty: Seq<Tok>) -> Seq<Tok> {
    seq![Tok::Punct(':', true), Tok::Punct(':', false)] + path_of_three(
        "std"@,
        "sync"@,
        "Arc"@,
    ) + mark('<') + ty + mark('>')
}

/// What a handler declares last: a monitor the token by which it is cancelled, another the task.
pub open spec fn last_declaration(category: Category) -> Seq<Tok> {
    if category == Category::Monitor {
        cancel_declaration()
    } else {
        task_declaration()
    }
}

/// What a handler declares: its parameters in order; the contexts that it receives, in order, unless
/// it is a monitor; and last the token or the task.
pub proof fn law_declarations_written(symbol: SymbolModel)
    ensures
        declarations(symbol) == symbol.clauses.params.map_values(
            |param: ParamModel| param_declaration(param),
        ) + (if symbol.category == Category::Monitor {
            Seq::<Seq<Tok>>::empty()
        } else {
            symbol.clauses.contexts.filter(
                |context: ContextModel| context.op != CtxOp::Produce,
            ).map_values(|context: ContextModel| context_declaration(context))
        }) + seq![last_declaration(symbol.category)],
{
    spell_declare_cancel();
    spell_declare_task();
    assert(rendered(DECLARE_CANCEL@, seq![]) =~= cancel_declaration());
    assert(rendered(DECLARE_TASK@, seq![]) =~= task_declaration());
    assert(declarations(symbol) =~= symbol.clauses.params.map_values(
        |param: ParamModel| param_declaration(param),
    ) + (if symbol.category == Category::Monitor {
        Seq::<Seq<Tok>>::empty()
    } else {
        symbol.clauses.contexts.filter(
            |context: ContextModel| context.op != CtxOp::Produce,
        ).map_values(|context: ContextModel| context_declaration(context))
    }) + seq![last_declaration(symbol.category)]);
}

/// The name of the method of a handler.
pub open spec fn method_name(category: Category) -> Seq<char> {
    match category {
        Category::Monitor => "start"@,
        Category::Executor => "execute"@,
        Category::DataItem => "get"@,
        Category::Condition => "evaluate"@,
    }
}

/// What the method of a handler returns: a monitor's its messages, an executor's the result of what
/// the definition says that it returns, a data item's that itself, a condition's a `bool`.
pub open spec fn method_result_written(category: Category, declared: Option<Seq<DslType>>) -> Seq<
    Tok,
> {
    match category {
        Category::Monitor => messages_type(),
        Category::Executor => path("trade_lang_core"@, "ExecutorResult"@) + mark('<')
            + returned_type_written(declared) + mark('>'),
        Category::DataItem => returned_type_written(declared),
        Category::Condition => one("bool"@),
    }
}

/// The method of a handler and what it returns are written out as said.
pub proof fn law_method_written(category: Category, declared: Option<Seq<DslType>>)
    ensures
        method(category) == one(method_name(category)),
        method_result(category, declared) == method_result_written(category, declared),
{
    spell_start();
    spell_execute();
    spell_get();
    spell_evaluate();
    spell_monitor_result();
    spell_executor_result(returns_rust_type(declared));
    spell_rust_bool();
    law_returned_type_written(declared);
    assert(method(category) =~= one(method_name(category)));
    assert(method_result(category, declared) =~= method_result_written(category, declared));
}

/// The head of the handler trait.
pub open spec fn handler_head_written(vis: Seq<Tok>, name: Seq<Tok>) -> Seq<Tok> {
    async_trait_attribute() + vis + seq![Tok::Ident("trait"@)] + name
        + seq![
            Tok::Punct(':', false),
            Tok::Ident("Send"@),
            Tok::Punct('+', false),
            Tok::Ident("Sync"@),
        ]
}

/// The body of the handler trait.
pub open spec fn handler_body_written(
    name: Seq<Tok>,
    declared: Seq<Tok>,
    result: Seq<Tok>,
) -> Seq<Tok> {
    seq![
        Tok::Group(
            Delim::Brace,
            seq![Tok::Ident("async"@), Tok::Ident("fn"@)] + name
                + seq![
                    Tok::Group(
                        Delim::Parenthesis,
                        seq![Tok::Punct('&', false), Tok::Ident("self"@), Tok::Punct(',', false)]
                            + declared,
                    ),
                ] + seq![Tok::Punct('-', true), Tok::Punct('>', false)]
                + result
                + seq![Tok::Punct(';', false)],
        ),
    ]
}

/// The handler trait: its name, which is that of the symbol with `Handler` behind it, and its one
/// method, with what it declares and what it returns.
pub proof fn law_handler_trait_written(symbol: SymbolModel)
    ensures
        handler_trait_code(symbol) == handler_head_written(
            symbol.vis,
            one(as_ident(unraw(symbol.name) + "Handler"@)),
        ) + handler_body_written(
            one(method_name(symbol.category)),
            separated(declarations(symbol)),
            method_result_written(symbol.category, symbol.clauses.returns),
        ),
{
    law_method_written(symbol.category, symbol.clauses.returns);
    spell_handler_head(symbol.vis, one(as_ident(handler_name(symbol.name))));
    spell_handler_body(
        one(method_name(symbol.category)),
        separated(declarations(symbol)),
        method_result_written(symbol.category, symbol.clauses.returns),
    );
}

// ---------------------------------------------------------------------------------------------
// Parameters in the adapter
// ---------------------------------------------------------------------------------------------
/// `let name = args . get ( "name" )`
pub open spec fn argument_looked_up(name: Seq<char>) -> Seq<Tok> {
    one("let"@) + one(name) + mark('=') + one("args"@) + mark('.') + one("get"@) + round(
        quoted(name),
    )
}

/// What is done with an argument that was looked up: a runtime value is cloned, a value of another
/// type is extracted.
pub open spec fn argument_converted(ty: DslType) -> Seq<Tok> {
    if ty is Union || ty is Alias || ty is Any {
        mark('.') + one("cloned"@) + round(Seq::empty())
    } else {
        mark('.') + one("map"@) + round(
            mark('|') + one("v"@) + mark('|') + extraction(ty, one("v"@)),
        )
    }
}

/// What takes the place of an argument that is missing: the unit value for a runtime value, and the
/// default of its type for another.
pub open spec fn default_supplied(ty: DslType) -> Seq<Tok> {
    if ty is Union || ty is Alias || ty is Any {
        mark('.') + one("unwrap_or"@) + round(
            path_of_three("trade_meta_compiler"@, "RuntimeValue"@, "Unit"@),
        )
    } else {
        mark('.') + one("unwrap_or_default"@) + round(Seq::empty())
    }
}

/// The statement that binds a parameter looks up the argument under its name, converts it by its
/// type, and supplies a default exactly where the parameter is required.
pub proof fn law_param_bound(param: ParamModel)
    ensures
        param_binding(param) == argument_looked_up(param.name) + argument_converted(param.ty) + (
        if param.required {
            default_supplied(param.ty)
        } else {
            Seq::empty()
        }) + mark(';'),
{
    let name = one(param.name);
    let key = quoted(param.name);
    spell_value();
    let extract = extraction(param.ty, one("v"@));
    spell_bind_value(name, key);
    spell_bind_optional_value(name, key);
    spell_bind(name, key, extract);
    spell_bind_optional(name, key, extract);
    let inner = seq![Tok::Punct('|', false), Tok::Ident("v"@), Tok::Punct('|', false)] + extract;
    assert(inner =~= mark('|') + one("v"@) + mark('|') + extract);
    let unit = value_type() + seq![
        Tok::Punct(':', true),
        Tok::Punct(':', false),
        Tok::Ident("Unit"@),
    ];
    assert(unit =~= path_of_three("trade_meta_compiler"@, "RuntimeValue"@, "Unit"@));
    let expected = argument_looked_up(param.name) + argument_converted(param.ty) + (
    if param.required {
        default_supplied(param.ty)
    } else {
        Seq::empty()
    }) + mark(';');
    assert(param_binding(param) =~= expected);
}

/// A handler declares `Option` for a parameter exactly where the statement that binds it supplies no
/// default: what is declared and what is handed over go together.
pub proof fn law_option_where_no_default(param: ParamModel)
    ensures
        ({
            let declared = one(param.name) + mark(':') + rust_type_of(param.ty);
            let option = one(param.name) + mark(':') + (one("Option"@) + mark('<') + rust_type_of(
                param.ty,
            ) + mark('>'));
            let bound = argument_looked_up(param.name) + argument_converted(param.ty);
            ||| param_declaration(param) == declared && param_binding(param) == bound
                + default_supplied(param.ty) + mark(';')
            ||| param_declaration(param) == option && param_binding(param) == bound + mark(';')
        }),
{
    law_param_declared(param);
    law_param_bound(param);
    let bound = argument_looked_up(param.name) + argument_converted(param.ty);
    assert(bound + Seq::<Tok>::empty() =~= bound);
}

// ---------------------------------------------------------------------------------------------
// Contexts in the adapter
// ---------------------------------------------------------------------------------------------
/// `log :: warn ! ( "message" ) ;`
pub open spec fn warning(message: Seq<char>) -> Seq<Tok> {
    path("log"@, "warn"@) + mark('!') + round(quoted(message)) + mark(';')
}

/// `ctx . signal_done ( ) ;`
pub open spec fn done_signalled() -> Seq<Tok> {
    one("ctx"@) + mark('.') + one("signal_done"@) + round(Seq::empty()) + mark(';')
}

/// Where a context is missing, an adapter warns of it and returns what stands for nothing: `None`,
/// the unit value, or `false`. An executor and a data item signal first that the task is done.
pub proof fn law_missing_context_written(category: Category, protocol: Seq<char>)
    ensures
        ({
            let warned = warning("[context] '"@ + protocol + "' not available"@);
            let missing = missing_context(category, protocol);
            &&& category == Category::Executor ==> missing == warned + done_signalled() + one(
                "return"@,
            ) + one("None"@) + mark(';')
            &&& category == Category::DataItem ==> missing == warned + done_signalled() + one(
                "return"@,
            ) + path_of_three("trade_meta_compiler"@, "RuntimeValue"@, "Unit"@) + mark(';')
            &&& category == Category::Condition ==> missing == warned + one("return"@) + one(
                "false"@,
            ) + mark(';')
            &&& category == Category::Monitor ==> missing == Seq::<Tok>::empty()
        }),
{
    let message = "[context] '"@ + protocol + "' not available"@;
    spell_missing_executor(quoted(message));
    spell_missing_data_item(quoted(message));
    spell_missing_condition(quoted(message));
    let warned = warning(message);
    let missing = missing_context(category, protocol);
    match category {
        Category::Executor => {
            assert(missing =~= warned + done_signalled() + one("return"@) + one("None"@) + mark(
                ';',
            ));
        },
        Category::DataItem => {
            assert(missing =~= warned + done_signalled() + one("return"@) + path_of_three(
                "trade_meta_compiler"@,
                "RuntimeValue"@,
                "Unit"@,
            ) + mark(';'));
        },
        Category::Condition => {
            assert(missing =~= warned + one("return"@) + one("false"@) + mark(';'));
        },
        _ => {},
    }
}

/// `let name : Arc < T > = match ctx . lookup :: < T > ( "protocol" ) . await { Some ( v ) => v ,
/// None => { .. } } ;`
pub open spec fn context_bound(context: ContextModel, lookup: Seq<char>, missing: Seq<Tok>) -> Seq<
    Tok,
> {
    let name = one(as_ident(context.protocol));
    let key = quoted(context.protocol);
    seq![Tok::Ident("let"@)] + name
        + seq![
            Tok::Punct(':', false),
            Tok::Punct(':', true),
            Tok::Punct(':', false),
            Tok::Ident("std"@),
            Tok::Punct(':', true),
            Tok::Punct(':', false),
            Tok::Ident("sync"@),
            Tok::Punct(':', true),
            Tok::Punct(':', false),
            Tok::Ident("Arc"@),
            Tok::Punct('<', false),
        ] + context.ty
        + seq![
            Tok::Punct('>', false),
            Tok::Punct('=', false),
            Tok::Ident("match"@),
            Tok::Ident("ctx"@),
            Tok::Punct('.', false),
            Tok::Ident(lookup),
            Tok::Punct(':', true),
            Tok::Punct(':', false),
            Tok::Punct('<', false),
        ] + context.ty
        + seq![Tok::Punct('>', false)]
        + seq![Tok::Group(Delim::Parenthesis, key)]
        + seq![Tok::Punct('.', false), Tok::Ident("await"@)]
        + seq![
            Tok::Group(
                Delim::Brace,
                seq![
                    Tok::Ident("Some"@),
                    Tok::Group(Delim::Parenthesis, seq![Tok::Ident("v"@)]),
                    Tok::Punct('=', true),
                    Tok::Punct('>', false),
                    Tok::Ident("v"@),
                    Tok::Punct(',', false),
                    Tok::Ident("None"@),
                    Tok::Punct('=', true),
                    Tok::Punct('>', false),
                ] + seq![Tok::Group(Delim::Brace, missing)],
            ),
        ] + seq![Tok::Punct(';', false)]
}

/// A context that is consumed is bound by `consume_context`, one that is needed by `get_context`,
/// under the identifier that its protocol is, with its type.
pub proof fn law_context_bound(category: Category, context: ContextModel)
    requires
        context.op != CtxOp::Produce,
    ensures
        context_binding(category, context) == context_bound(
            context,
            if context.op == CtxOp::Consume {
                "consume_context"@
            } else {
                "get_context"@
            },
            missing_context(category, context.protocol),
        ),
{
    let name = one(as_ident(context.protocol));
    let key = quoted(context.protocol);
    let missing = missing_context(category, context.protocol);
    if context.op == CtxOp::Consume {
        spell_take_context(name, context.ty, key, missing);
    } else {
        spell_get_context(name, context.ty, key, missing);
    }
}

/// A context is handed over as the identifier that its protocol is; one that is needed is lent.
pub proof fn law_context_handed(context: ContextModel)
    requires
        context.op != CtxOp::Produce,
    ensures
        context.op == CtxOp::Consume ==> context_argument(context) == one(
            as_ident(context.protocol),
        ),
        context.op == CtxOp::Need ==> context_argument(context) == mark('&') + one(
            as_ident(context.protocol),
        ),
{
    spell_lend(one(as_ident(context.protocol)));
}

// ---------------------------------------------------------------------------------------------
// Adapters
// ---------------------------------------------------------------------------------------------
/// The adapter, as a type.
pub open spec fn adapter_struct_written(
    vis: Seq<Tok>,
    adapter: Seq<Tok>,
    handler: Seq<Tok>,
) -> Seq<Tok> {
    vis + seq![Tok::Ident("struct"@)] + adapter
        + seq![Tok::Punct('<', false), Tok::Ident("H"@), Tok::Punct(':', false)]
        + handler
        + seq![
            Tok::Punct('>', false),
            Tok::Group(Delim::Parenthesis, seq![Tok::Ident("pub"@), Tok::Ident("H"@)]),
            Tok::Punct(';', false),
        ]
}

/// The implementation for a monitor's adapter.
pub open spec fn monitor_impl_written(
    adapter: Seq<Tok>,
    handler: Seq<Tok>,
    bindings: Seq<Tok>,
    call: Seq<Tok>,
) -> Seq<Tok> {
    async_trait_attribute()
        + seq![
            Tok::Ident("impl"@),
            Tok::Punct('<', false),
            Tok::Ident("H"@),
            Tok::Punct(':', false),
        ] + handler
        + seq![
            Tok::Punct('+', false),
            Tok::Punct('\'', true),
            Tok::Ident("static"@),
            Tok::Punct('>', false),
            Tok::Ident("trade_lang_core"@),
            Tok::Punct(':', true),
            Tok::Punct(':', false),
            Tok::Ident("MonitorHandler"@),
            Tok::Ident("for"@),
        ] + adapter
        + seq![Tok::Punct('<', false), Tok::Ident("H"@), Tok::Punct('>', false)]
        + seq![
            Tok::Group(
                Delim::Brace,
                seq![Tok::Ident("async"@), Tok::Ident("fn"@), Tok::Ident("start"@)]
                    + seq![
                        Tok::Group(
                            Delim::Parenthesis,
                            seq![
                                Tok::Punct('&', false),
                                Tok::Ident("self"@),
                                Tok::Punct(',', false),
                            ] + args_declaration()
                                + seq![Tok::Punct(',', false)]
                                + cancel_declaration()
                                + seq![Tok::Punct(',', false)],
                        ),
                    ] + seq![Tok::Punct('-', true), Tok::Punct('>', false)]
                    + messages_type()
                    + seq![Tok::Group(Delim::Brace, bindings + call)],
            ),
        ]
}

/// The implementation for an executor's adapter.
pub open spec fn executor_impl_written(
    adapter: Seq<Tok>,
    handler: Seq<Tok>,
    declared: Seq<Tok>,
    bindings: Seq<Tok>,
    lookups: Seq<Tok>,
    statement: Seq<Tok>,
    value: Seq<Tok>,
) -> Seq<Tok> {
    async_trait_attribute()
        + seq![
            Tok::Ident("impl"@),
            Tok::Punct('<', false),
            Tok::Ident("H"@),
            Tok::Punct(':', false),
        ] + handler
        + seq![
            Tok::Punct('+', false),
            Tok::Punct('\'', true),
            Tok::Ident("static"@),
            Tok::Punct('>', false),
            Tok::Ident("trade_lang_core"@),
            Tok::Punct(':', true),
            Tok::Punct(':', false),
            Tok::Ident("ExecutorHandler"@),
            Tok::Ident("for"@),
        ] + adapter
        + seq![Tok::Punct('<', false), Tok::Ident("H"@), Tok::Punct('>', false)]
        + seq![
            Tok::Group(
                Delim::Brace,
                seq![
                    Tok::Ident("fn"@),
                    Tok::Ident("declared_return_type"@),
                    Tok::Group(
                        Delim::Parenthesis,
                        seq![Tok::Punct('&', false), Tok::Ident("self"@)],
                    ),
                    Tok::Punct('-', true),
                    Tok::Punct('>', false),
                    Tok::Ident("Option"@),
                    Tok::Punct('<', false),
                ] + description_type()
                    + seq![Tok::Punct('>', false)]
                    + seq![Tok::Group(Delim::Brace, declared)]
                    + seq![Tok::Ident("async"@), Tok::Ident("fn"@), Tok::Ident("execute"@)]
                    + seq![
                        Tok::Group(
                            Delim::Parenthesis,
                            seq![
                                Tok::Punct('&', false),
                                Tok::Ident("self"@),
                                Tok::Punct(',', false),
                            ] + args_declaration()
                                + seq![Tok::Punct(',', false)]
                                + task_declaration()
                                + seq![Tok::Punct(',', false)],
                        ),
                    ] + seq![
                    Tok::Punct('-', true),
                    Tok::Punct('>', false),
                    Tok::Ident("Option"@),
                    Tok::Punct('<', false),
                ] + value_type()
                    + seq![Tok::Punct('>', false)]
                    + seq![Tok::Group(Delim::Brace, bindings + lookups + statement + value)],
            ),
        ]
}

/// The implementation for a data item's adapter.
pub open spec fn data_item_impl_written(
    adapter: Seq<Tok>,
    handler: Seq<Tok>,
    declared: Seq<Tok>,
    bindings: Seq<Tok>,
    lookups: Seq<Tok>,
    field: Seq<Tok>,
    names: Seq<Tok>,
    arguments: Seq<Tok>,
    value: Seq<Tok>,
) -> Seq<Tok> {
    async_trait_attribute()
        + seq![
            Tok::Ident("impl"@),
            Tok::Punct('<', false),
            Tok::Ident("H"@),
            Tok::Punct(':', false),
        ] + handler
        + seq![
            Tok::Punct('+', false),
            Tok::Punct('\'', true),
            Tok::Ident("static"@),
            Tok::Punct('>', false),
            Tok::Ident("trade_lang_core"@),
            Tok::Punct(':', true),
            Tok::Punct(':', false),
            Tok::Ident("DataItemHandler"@),
            Tok::Ident("for"@),
        ] + adapter
        + seq![Tok::Punct('<', false), Tok::Ident("H"@), Tok::Punct('>', false)]
        + seq![
            Tok::Group(
                Delim::Brace,
                seq![
                    Tok::Ident("fn"@),
                    Tok::Ident("declared_return_type"@),
                    Tok::Group(
                        Delim::Parenthesis,
                        seq![Tok::Punct('&', false), Tok::Ident("self"@)],
                    ),
                    Tok::Punct('-', true),
                    Tok::Punct('>', false),
                ] + description_type()
                    + seq![Tok::Group(Delim::Brace, declared)]
                    + seq![Tok::Ident("async"@), Tok::Ident("fn"@), Tok::Ident("get"@)]
                    + seq![
                        Tok::Group(
                            Delim::Parenthesis,
                            seq![
                                Tok::Punct('&', false),
                                Tok::Ident("self"@),
                                Tok::Punct(',', false),
                            ] + args_declaration()
                                + seq![Tok::Punct(',', false)]
                                + task_declaration()
                                + seq![Tok::Punct(',', false)],
                        ),
                    ] + seq![Tok::Punct('-', true), Tok::Punct('>', false)]
                    + value_type()
                    + seq![
                        Tok::Group(
                            Delim::Brace,
                            bindings + lookups
                                + seq![
                                    Tok::Ident("let"@),
                                    Tok::Ident("__result"@),
                                    Tok::Punct('=', false),
                                    Tok::Ident("self"@),
                                    Tok::Punct('.', false),
                                ] + field
                                + seq![Tok::Punct('.', false), Tok::Ident("get"@)]
                                + seq![
                                    Tok::Group(
                                        Delim::Parenthesis,
                                        names + arguments + seq![Tok::Ident("ctx"@)],
                                    ),
                                ] + seq![
                                Tok::Punct('.', false),
                                Tok::Ident("await"@),
                                Tok::Punct(';', false),
                            ] + value,
                        ),
                    ],
            ),
        ]
}

/// The implementation for a condition's adapter.
pub open spec fn condition_impl_written(
    adapter: Seq<Tok>,
    handler: Seq<Tok>,
    bindings: Seq<Tok>,
    lookups: Seq<Tok>,
    field: Seq<Tok>,
    names: Seq<Tok>,
    arguments: Seq<Tok>,
) -> Seq<Tok> {
    async_trait_attribute()
        + seq![
            Tok::Ident("impl"@),
            Tok::Punct('<', false),
            Tok::Ident("H"@),
            Tok::Punct(':', false),
        ] + handler
        + seq![
            Tok::Punct('+', false),
            Tok::Punct('\'', true),
            Tok::Ident("static"@),
            Tok::Punct('>', false),
            Tok::Ident("trade_lang_core"@),
            Tok::Punct(':', true),
            Tok::Punct(':', false),
            Tok::Ident("ConditionHandler"@),
            Tok::Ident("for"@),
        ] + adapter
        + seq![Tok::Punct('<', false), Tok::Ident("H"@), Tok::Punct('>', false)]
        + seq![
            Tok::Group(
                Delim::Brace,
                seq![Tok::Ident("async"@), Tok::Ident("fn"@), Tok::Ident("evaluate"@)]
                    + seq![
                        Tok::Group(
                            Delim::Parenthesis,
                            seq![
                                Tok::Punct('&', false),
                                Tok::Ident("self"@),
                                Tok::Punct(',', false),
                            ] + args_declaration()
                                + seq![Tok::Punct(',', false)]
                                + task_declaration()
                                + seq![Tok::Punct(',', false)],
                        ),
                    ] + seq![Tok::Punct('-', true), Tok::Punct('>', false), Tok::Ident("bool"@)]
                    + seq![
                        Tok::Group(
                            Delim::Brace,
                            bindings + lookups
                                + seq![
                                    Tok::Ident("let"@),
                                    Tok::Ident("__result"@),
                                    Tok::Punct('=', false),
                                    Tok::Ident("self"@),
                                    Tok::Punct('.', false),
                                ] + field
                                + seq![Tok::Punct('.', false), Tok::Ident("evaluate"@)]
                                + seq![
                                    Tok::Group(
                                        Delim::Parenthesis,
                                        names + arguments + seq![Tok::Ident("ctx"@)],
                                    ),
                                ] + seq![
                                Tok::Punct('.', false),
                                Tok::Ident("await"@),
                                Tok::Punct(';', false),
                                Tok::Ident("__result"@),
                            ],
                        ),
                    ],
            ),
        ]
}

/// The literal `0`.
pub open spec fn zero_written() -> Seq<Tok> {
    seq![Tok::Lit(seq!['0'])]
}

/// The name of a symbol's adapter, as tokens.
pub open spec fn adapter_word(symbol: SymbolModel) -> Seq<Tok> {
    one(as_ident(unraw(symbol.name) + "Adapter"@))
}

/// The name of a symbol's handler trait, as tokens.
pub open spec fn handler_word(symbol: SymbolModel) -> Seq<Tok> {
    one(as_ident(unraw(symbol.name) + "Handler"@))
}

/// The statements that bind the parameters, one for each, in order.
pub open spec fn params_bound(symbol: SymbolModel) -> Seq<Tok> {
    in_a_row(symbol.clauses.params.map_values(|param: ParamModel| param_binding(param)))
}

/// The names of the parameters, in order, a comma behind each.
pub open spec fn params_handed(symbol: SymbolModel) -> Seq<Tok> {
    terminated(symbol.clauses.params.map_values(|param: ParamModel| one(param.name)))
}

/// The statements that bind the contexts: those that are consumed, in order, then those that are
/// needed, in order.
pub open spec fn contexts_bound(symbol: SymbolModel) -> Seq<Tok> {
    in_a_row(
        (symbol.clauses.contexts.filter(|context: ContextModel| context.op == CtxOp::Consume)
            + symbol.clauses.contexts.filter(
            |context: ContextModel| context.op == CtxOp::Need,
        )).map_values(|context: ContextModel| context_binding(symbol.category, context)),
    )
}

/// The contexts that are handed over, in order, a comma behind each.
pub open spec fn contexts_handed(symbol: SymbolModel) -> Seq<Tok> {
    terminated(
        symbol.clauses.contexts.filter(
            |context: ContextModel| context.op != CtxOp::Produce,
        ).map_values(|context: ContextModel| context_argument(context)),
    )
}

/// The lists of the adapter are those of the parameters and contexts.
pub(crate) proof fn lemma_lists(symbol: SymbolModel)
    ensures
        params_bound(symbol) == in_a_row(param_bindings(symbol.clauses.params)),
        params_handed(symbol) == terminated(param_names(symbol.clauses.params)),
        contexts_bound(symbol) == in_a_row(
            context_bindings(symbol.category, symbol.clauses.contexts),
        ),
        contexts_handed(symbol) == terminated(context_arguments(symbol.clauses.contexts)),
{
    let params = symbol.clauses.params;
    let contexts = symbol.clauses.contexts;
    assert(params.map_values(|param: ParamModel| one(param.name)) =~= param_names(params));
    let consumed = contexts.filter(|context: ContextModel| context.op == CtxOp::Consume);
    let needed = contexts.filter(|context: ContextModel| context.op == CtxOp::Need);
    let consume = CtxOp::Consume;
    let need = CtxOp::Need;
    assert((|context: ContextModel| context.op == CtxOp::Consume) =~= (|context: ContextModel|
        context.op == consume));
    assert((|context: ContextModel| context.op == CtxOp::Need) =~= (|context: ContextModel|
        context.op == need));
    assert(consumed == with_op(contexts, CtxOp::Consume));
    assert(needed == with_op(contexts, CtxOp::Need));
}

/// `self . 0 . method ( .. ) . await`
pub open spec fn handler_called(method: Seq<char>, arguments: Seq<Tok>) -> Seq<Tok> {
    one("self"@) + mark('.') + zero_written() + mark('.') + one(method) + round(arguments) + mark(
        '.',
    ) + one("await"@)
}

/// The adapter of a monitor binds the parameters, and hands them and the token to the handler, whose
/// messages it hands on.
pub proof fn law_monitor_adapter_written(symbol: SymbolModel)
    requires
        symbol.category == Category::Monitor,
    ensures
        adapter_code(symbol) == adapter_struct_written(
            symbol.vis,
            adapter_word(symbol),
            handler_word(symbol),
        ) + monitor_impl_written(
            adapter_word(symbol),
            handler_word(symbol),
            params_bound(symbol),
            handler_called("start"@, params_handed(symbol) + one("cancel"@)),
        ),
{
    spell_adapter_struct(symbol.vis, adapter_word(symbol), handler_word(symbol));
    lemma_lists(symbol);
    assert(first_field() =~= zero_written());
    spell_call_start(zero_written(), params_handed(symbol));
    let call = handler_called("start"@, params_handed(symbol) + one("cancel"@));
    assert(rendered(CALL_START@, seq![zero_written(), params_handed(symbol)]) =~= call);
    spell_monitor_impl(adapter_word(symbol), handler_word(symbol), params_bound(symbol), call);
}

/// What an executor's adapter does where the handler fails.
pub open spec fn failure_handled() -> Seq<Tok> {
    path("log"@, "warn"@) + mark('!') + round(
        quoted("[executor] execute failed: {}, triggering finally"@) + mark(',') + one("e"@),
    ) + mark(';') + done_signalled() + one("return"@) + one("None"@) + mark(';')
}

/// `Err ( e ) => { .. }`
pub open spec fn failure_arm() -> Seq<Tok> {
    one("Err"@) + round(one("e"@)) + seq![Tok::Punct('=', true), Tok::Punct('>', false)] + curly(
        failure_handled(),
    )
}

/// The variable for the value at the given place.
pub open spec fn result_variable(place: nat) -> Seq<Tok> {
    one("__r"@ + decimal(place))
}

/// The statement that calls an executor's handler: it binds nothing, `__result`, or a variable for
/// each of the values, as the definition says what is returned.
pub open spec fn execution_written(declared: Option<Seq<DslType>>, call: Seq<Tok>) -> Seq<Tok> {
    let ok = one("Ok"@) + round(one("v"@)) + seq![Tok::Punct('=', true), Tok::Punct('>', false)]
        + one("v"@) + mark(',');
    match declared {
        None => one("match"@) + call + curly(
            one("Ok"@) + round(round(Seq::empty())) + seq![
                Tok::Punct('=', true),
                Tok::Punct('>', false),
            ] + curly(Seq::empty()) + mark(',') + failure_arm(),
        ),
        Some(types) => {
            let bound = if types.len() == 1 {
                one("__result"@)
            } else {
                round(separated(Seq::new(types.len(), |i: int| result_variable(i as nat))))
            };
            one("let"@) + bound + mark('=') + one("match"@) + call + curly(ok + failure_arm())
                + mark(';')
        },
    }
}

/// The value that an executor's adapter returns: the unit value; the value made of `__result`; or
/// the tuple of the values made of the variables.
pub open spec fn execution_value(declared: Option<Seq<DslType>>) -> Seq<Tok> {
    one("Some"@) + round(
        match declared {
            None => path_of_three("trade_meta_compiler"@, "RuntimeValue"@, "Unit"@),
            Some(types) => if types.len() == 1 {
                wrapping(types[0], one("__result"@))
            } else {
                path_of_three("trade_meta_compiler"@, "RuntimeValue"@, "Tuple"@) + round(
                    vec_of(
                        separated(
                            Seq::new(
                                types.len(),
                                |i: int| wrapping(types[i], result_variable(i as nat)),
                            ),
                        ),
                    ),
                )
            },
        },
    )
}

/// The call of an executor's handler and the value that is returned are written out as said.
proof fn lemma_execution_written(declared: Option<Seq<DslType>>, call: Seq<Tok>)
    ensures
        execute_statement(declared, call) == execution_written(declared, call),
        rendered(SOME@, seq![execute_value(declared)]) == execution_value(declared),
{
    let message = quoted("[executor] execute failed: {}, triggering finally"@);
    spell_execute_failed(message);
    let warned = message + seq![Tok::Punct(',', false), Tok::Ident("e"@)];
    assert(warned =~= message + mark(',') + one("e"@));
    let failed = rendered(EXECUTE_FAILED@, seq![message]);
    assert(failed =~= failure_handled());
    spell_some(execute_value(declared));
    match declared {
        None => {
            spell_run(call, failed);
            let arms = seq![
                Tok::Ident("Ok"@),
                Tok::Group(
                    Delim::Parenthesis,
                    seq![Tok::Group(Delim::Parenthesis, Seq::<Tok>::empty())],
                ),
                Tok::Punct('=', true),
                Tok::Punct('>', false),
                Tok::Group(Delim::Brace, Seq::<Tok>::empty()),
                Tok::Punct(',', false),
                Tok::Ident("Err"@),
                Tok::Group(Delim::Parenthesis, seq![Tok::Ident("e"@)]),
                Tok::Punct('=', true),
                Tok::Punct('>', false),
            ] + curly(failed);
            assert(arms =~= one("Ok"@) + round(round(Seq::empty())) + seq![
                Tok::Punct('=', true),
                Tok::Punct('>', false),
            ] + curly(Seq::empty()) + mark(',') + failure_arm());
            assert(execute_statement(declared, call) =~= execution_written(declared, call));
            spell_unit_value();
            assert(execute_value(declared) =~= path_of_three(
                "trade_meta_compiler"@,
                "RuntimeValue"@,
                "Unit"@,
            ));
        },
        Some(types) => {
            let names = Seq::new(types.len(), |i: int| result_variable(i as nat));
            assert(result_names(types.len()) =~= names);
            let values = Seq::new(
                types.len(),
                |i: int| wrapping(types[i], result_variable(i as nat)),
            );
            assert(result_wrappings(types) =~= values);
            spell_run_for_one(call, failed);
            spell_run_for_many(call, failed, separated(names));
            let arms = seq![
                Tok::Ident("Ok"@),
                Tok::Group(Delim::Parenthesis, seq![Tok::Ident("v"@)]),
                Tok::Punct('=', true),
                Tok::Punct('>', false),
                Tok::Ident("v"@),
                Tok::Punct(',', false),
                Tok::Ident("Err"@),
                Tok::Group(Delim::Parenthesis, seq![Tok::Ident("e"@)]),
                Tok::Punct('=', true),
                Tok::Punct('>', false),
            ] + curly(failed);
            assert(arms =~= one("Ok"@) + round(one("v"@)) + seq![
                Tok::Punct('=', true),
                Tok::Punct('>', false),
            ] + one("v"@) + mark(',') + failure_arm());
            assert(execute_statement(declared, call) =~= execution_written(declared, call));
            spell_result();
            spell_wrap_tuple(separated(values));
            if types.len() != 1 {
                assert(execute_value(declared) =~= path_of_three(
                    "trade_meta_compiler"@,
                    "RuntimeValue"@,
                    "Tuple"@,
                ) + round(vec_of(separated(values))));
            }
        },
    }
    assert(rendered(SOME@, seq![execute_value(declared)]) =~= execution_value(declared));
}

/// The adapter of an executor declares what its metadata name, binds the parameters and then the
/// contexts, hands them and the task to the handler, and returns what came back.
pub proof fn law_executor_adapter_written(symbol: SymbolModel)
    requires
        symbol.category == Category::Executor,
    ensures
        adapter_code(symbol) == adapter_struct_written(
            symbol.vis,
            adapter_word(symbol),
            handler_word(symbol),
        ) + executor_impl_written(
            adapter_word(symbol),
            handler_word(symbol),
            returns_written(symbol.clauses.returns),
            params_bound(symbol),
            contexts_bound(symbol),
            execution_written(
                symbol.clauses.returns,
                handler_called(
                    "execute"@,
                    params_handed(symbol) + contexts_handed(symbol) + one("ctx"@),
                ),
            ),
            execution_value(symbol.clauses.returns),
        ),
{
    spell_adapter_struct(symbol.vis, adapter_word(symbol), handler_word(symbol));
    law_returns_written(symbol.clauses.returns);
    lemma_lists(symbol);
    assert(first_field() =~= zero_written());
    spell_call_execute(zero_written(), params_handed(symbol), contexts_handed(symbol));
    let arguments = params_handed(symbol) + contexts_handed(symbol) + one("ctx"@);
    let call = handler_called("execute"@, arguments);
    assert(execute_call(symbol) =~= call);
    lemma_execution_written(symbol.clauses.returns, call);
    spell_executor_impl(
        adapter_word(symbol),
        handler_word(symbol),
        returns_written(symbol.clauses.returns),
        params_bound(symbol),
        contexts_bound(symbol),
        execution_written(symbol.clauses.returns, call),
        execution_value(symbol.clauses.returns),
    );
}

/// The description of what a data item returns: of the one type, or else of any type.
pub open spec fn data_item_declared(declared: Option<Seq<DslType>>) -> Seq<Tok> {
    match declared {
        Some(types) if types.len() == 1 => type_spec_of(types[0]),
        _ => path_of_three("trade_meta_compiler"@, "TypeSpec"@, "Any"@),
    }
}

/// The value that a data item's adapter returns: made of `__result` as the one type or as the tuple
/// of the types, or the unit value where the definition names none.
pub open spec fn data_item_returned(declared: Option<Seq<DslType>>) -> Seq<Tok> {
    match declared {
        Some(types) => if types.len() == 1 {
            wrapping(types[0], one("__result"@))
        } else {
            wrapping(DslType::Tuple(types), one("__result"@))
        },
        None => path_of_three("trade_meta_compiler"@, "RuntimeValue"@, "Unit"@),
    }
}

/// The adapter of a data item binds the parameters and then the contexts, hands them and the task to
/// the handler, and returns the value made of what came back.
pub proof fn law_data_item_adapter_written(symbol: SymbolModel)
    requires
        symbol.category == Category::DataItem,
    ensures
        adapter_code(symbol) == adapter_struct_written(
            symbol.vis,
            adapter_word(symbol),
            handler_word(symbol),
        ) + data_item_impl_written(
            adapter_word(symbol),
            handler_word(symbol),
            data_item_declared(symbol.clauses.returns),
            params_bound(symbol),
            contexts_bound(symbol),
            zero_written(),
            params_handed(symbol),
            contexts_handed(symbol),
            data_item_returned(symbol.clauses.returns),
        ),
{
    spell_adapter_struct(symbol.vis, adapter_word(symbol), handler_word(symbol));
    lemma_lists(symbol);
    assert(first_field() =~= zero_written());
    spell_spec_any();
    spell_result();
    spell_unit_value();
    let declared = symbol.clauses.returns;
    assert(data_item_spec(declared) =~= data_item_declared(declared));
    assert(data_item_value(declared) =~= data_item_returned(declared));
    spell_data_item_impl(
        adapter_word(symbol),
        handler_word(symbol),
        data_item_declared(declared),
        params_bound(symbol),
        contexts_bound(symbol),
        zero_written(),
        params_handed(symbol),
        contexts_handed(symbol),
        data_item_returned(declared),
    );
}

/// The adapter of a condition binds the parameters and then the contexts, hands them and the task to
/// the handler, and returns what came back.
pub proof fn law_condition_adapter_written(symbol: SymbolModel)
    requires
        symbol.category == Category::Condition,
    ensures
        adapter_code(symbol) == adapter_struct_written(
            symbol.vis,
            adapter_word(symbol),
            handler_word(symbol),
        ) + condition_impl_written(
            adapter_word(symbol),
            handler_word(symbol),
            params_bound(symbol),
            contexts_bound(symbol),
            zero_written(),
            params_handed(symbol),
            contexts_handed(symbol),
        ),
{
    spell_adapter_struct(symbol.vis, adapter_word(symbol), handler_word(symbol));
    lemma_lists(symbol);
    assert(first_field() =~= zero_written());
    spell_condition_impl(
        adapter_word(symbol),
        handler_word(symbol),
        params_bound(symbol),
        contexts_bound(symbol),
        zero_written(),
        params_handed(symbol),
        contexts_handed(symbol),
    );
}

// ---------------------------------------------------------------------------------------------
// The whole
// ---------------------------------------------------------------------------------------------
/// The entry of a symbol in the inventory.
pub open spec fn registration_written(name: Seq<Tok>) -> Seq<Tok> {
    seq![
        Tok::Ident("trade_meta_compiler"@),
        Tok::Punct(':', true),
        Tok::Punct(':', false),
        Tok::Ident("inventory"@),
        Tok::Punct(':', true),
        Tok::Punct(':', false),
        Tok::Ident("submit"@),
        Tok::Punct('!', false),
    ] + seq![
        Tok::Group(
            Delim::Brace,
            seq![
                Tok::Ident("trade_meta_compiler"@),
                Tok::Punct(':', true),
                Tok::Punct(':', false),
                Tok::Ident("SymbolFactory"@),
            ] + seq![Tok::Group(Delim::Parenthesis, name)],
        ),
    ]
}

/// The code of a symbol: the metadata function, the handler trait, the adapter, and the entry of the
/// metadata function in the inventory.
pub proof fn law_registration_written(symbol: SymbolModel)
    ensures
        symbol_code(symbol) == metadata_code(symbol) + handler_trait_code(symbol) + adapter_code(
            symbol,
        ) + registration_written(one(as_ident(snake_case(symbol.name) + "_metadata"@))),
{
    spell_registration(one(as_ident(metadata_name(symbol.name))));
}

} // verus!
