//! What holds between the parts of the code of a symbol.
use vstd::prelude::*;

use crate::code::{
    adapter_code, context_argument, context_arguments, context_binding, context_bindings, looked_up,
    metadata_code, missing_context, received, with_op,
};
use crate::code_laws::{
    category_variant, context_bound, contexts_bound, contexts_handed, data_item_returned,
    execution_value, execution_written, handler_called, law_condition_adapter_written,
    law_context_bound, law_context_handed, law_data_item_adapter_written,
    law_executor_adapter_written, law_metadata_written, lemma_lists, params_bound, params_handed,
    returns_written,
};
use crate::grammar::{
    category_named, whole_definition, Category, ContextModel, CtxOp, Item, Outline, SymbolModel,
};
use crate::laws::law_received_contexts_are_looked_up;
use crate::phrase::{curly, mark, one, path_of_three, round, vec_of};
use crate::refusals::is_common;
use crate::syntax::as_ident;
use crate::template::{in_a_row, separated, terminated};
use crate::token::{Delim, Tok};
use crate::trade_type::{type_spec_of, type_specs_of};
use crate::word_laws::law_lists_are_made_of_parts;
use crate::written::{
    category_word, is_written_item, law_common_visibility_is_read, law_definition_is_read,
    lemma_words_of_grammar, written_items, written_outline,
};

verus! {

/// What the group in the given place holds.
pub open spec fn inside(tokens: Seq<Tok>, place: int) -> Seq<Tok> {
    match tokens[place] {
        Tok::Group(_, inner) => inner,
        _ => Seq::empty(),
    }
}

/// What the last token holds, where it is a group.
pub open spec fn inside_last(tokens: Seq<Tok>) -> Seq<Tok> {
    inside(tokens, tokens.len() - 1)
}

/// The fields of the metadata that a metadata function returns.
pub open spec fn fields_of(code: Seq<Tok>) -> Seq<Tok> {
    inside_last(inside_last(code))
}

/// The body of the method that an adapter has last, which is the one that calls the handler.
pub open spec fn method_body(code: Seq<Tok>) -> Seq<Tok> {
    inside_last(inside_last(code))
}

/// What an executor's adapter declares that it returns is the very expression that the metadata of
/// the executor hold for it: `None` where the definition names no return types, `Some` of the
/// description of the type where it names one, and else `Some` of the tuple of the descriptions.
pub proof fn law_executor_declares_what_metadata_name(symbol: SymbolModel)
    requires
        symbol.category == Category::Executor,
    ensures
        ({
            let block = inside_last(adapter_code(symbol));
            let fields = fields_of(metadata_code(symbol));
            let declared = inside(block, 12);
            &&& block.take(2) == one("fn"@) + one("declared_return_type"@)
            &&& block[12] == Tok::Group(Delim::Brace, declared)
            &&& fields.subrange(4, 6 + declared.len() as int) == one("returns"@) + mark(':')
                + declared
            &&& fields.subrange(6 + declared.len() as int, 8 + declared.len() as int) == mark(',')
                + one("params"@)
            &&& match symbol.clauses.returns {
                None => declared == one("None"@),
                Some(types) => if types.len() == 1 {
                    declared == one("Some"@) + round(type_spec_of(types[0]))
                } else {
                    declared == one("Some"@) + round(
                        path_of_three("trade_meta_compiler"@, "TypeSpec"@, "Tuple"@) + round(
                            vec_of(
                                separated(
                                    Seq::new(types.len(), |i: int| type_spec_of(types[i])),
                                ),
                            ),
                        ),
                    )
                },
            }
        }),
{
    lemma_declared_in_adapter(symbol);
    lemma_outcome_in_metadata(symbol);
    if let Some(types) = symbol.clauses.returns {
        assert(type_specs_of(types) =~= Seq::new(
            types.len(),
            |i: int| type_spec_of(types[i]),
        ));
    }
}

/// The body of the first method of an executor's adapter.
proof fn lemma_declared_in_adapter(symbol: SymbolModel)
    requires
        symbol.category == Category::Executor,
    ensures
        ({
            let block = inside_last(adapter_code(symbol));
            &&& block.take(2) == one("fn"@) + one("declared_return_type"@)
            &&& block[12] == Tok::Group(Delim::Brace, returns_written(symbol.clauses.returns))
        }),
{
    law_executor_adapter_written(symbol);
    let block = inside_last(adapter_code(symbol));
    assert(block[0] == Tok::Ident("fn"@) && block[1] == Tok::Ident("declared_return_type"@));
    assert(block.take(2) =~= one("fn"@) + one("declared_return_type"@));
}

/// Where the metadata hold what a symbol returns.
proof fn lemma_outcome_in_metadata(symbol: SymbolModel)
    ensures
        ({
            let fields = fields_of(metadata_code(symbol));
            let outcome = returns_written(symbol.clauses.returns);
            let end = 6 + outcome.len() as int;
            &&& fields.subrange(4, end) == one("returns"@) + mark(':') + outcome
            &&& fields.subrange(end, end + 2) == mark(',') + one("params"@)
        }),
{
    law_metadata_written(symbol);
    let fields = fields_of(metadata_code(symbol));
    let outcome = returns_written(symbol.clauses.returns);
    let end = 6 + outcome.len() as int;
    assert(fields.subrange(4, end) =~= one("returns"@) + mark(':') + outcome);
    assert(fields.subrange(end, end + 2) =~= mark(',') + one("params"@));
}

/// The variant of the metadata for the word with which a definition begins.
pub open spec fn variant_for(word: Seq<char>) -> Seq<char> {
    if word == "monitor"@ {
        "Monitor"@
    } else if word == "executor"@ {
        "Executor"@
    } else if word == "data_item"@ {
        "DataItem"@
    } else {
        "Condition"@
    }
}

/// The category in the metadata of a definition is the one that its word names: `category :
/// trade_meta_compiler :: SymbolCategory ::` and the variant for the word.
pub proof fn law_metadata_hold_the_category(
    vis: Seq<Tok>,
    word: Seq<char>,
    name: Seq<char>,
    items: Seq<Item>,
)
    requires
        word == "monitor"@ || word == "executor"@ || word == "data_item"@ || word == "condition"@,
        is_common(Outline { vis, category: Category::Monitor, name, items }),
    ensures
        ({
            let input = vis + (one(word) + (one(name) + curly(written_items(items))));
            let symbol = whole_definition(input)->Ok_0;
            let fields = fields_of(metadata_code(symbol));
            let place = 15 + returns_written(symbol.clauses.returns).len() as int;
            &&& whole_definition(input) is Ok
            &&& fields.subrange(place - 2, place + 7) == one("category"@) + mark(':')
                + path_of_three("trade_meta_compiler"@, "SymbolCategory"@, variant_for(word))
            &&& fields[place + 7] == Tok::Punct(',', false)
        }),
{
    lemma_words_of_grammar();
    let category = category_named(word).unwrap();
    let outline = Outline { vis, category, name, items };
    assert(word == category_word(category));
    let input = vis + (one(word) + (one(name) + curly(written_items(items))));
    assert(input =~= written_outline(outline));
    let other = Outline { vis, category: Category::Monitor, name, items };
    assert forall|i: int| 0 <= i < outline.items.len() implies is_written_item(
        #[trigger] outline.items[i],
    ) by {
        assert(other.items[i] == outline.items[i]);
    }
    law_common_visibility_is_read(outline);
    law_definition_is_read(outline);
    let symbol = outline.symbol();
    lemma_category_in_metadata(symbol);
    assert(category_variant(category) == variant_for(word));
}

/// Where the metadata hold the category of a symbol.
proof fn lemma_category_in_metadata(symbol: SymbolModel)
    ensures
        ({
            let fields = fields_of(metadata_code(symbol));
            let place = 15 + returns_written(symbol.clauses.returns).len() as int;
            &&& fields.subrange(place - 2, place + 7) == one("category"@) + mark(':')
                + path_of_three(
                "trade_meta_compiler"@,
                "SymbolCategory"@,
                category_variant(symbol.category),
            )
            &&& fields[place + 7] == Tok::Punct(',', false)
        }),
{
    law_metadata_written(symbol);
    let fields = fields_of(metadata_code(symbol));
    let place = 15 + returns_written(symbol.clauses.returns).len() as int;
    assert(fields.subrange(place - 2, place + 7) =~= one("category"@) + mark(':')
        + path_of_three(
        "trade_meta_compiler"@,
        "SymbolCategory"@,
        category_variant(symbol.category),
    ));
}

/// The statement that looks up a context: by `consume_context` one that is consumed, by
/// `get_context` one that is needed.
pub open spec fn lookup_of(category: Category, context: ContextModel) -> Seq<Tok> {
    context_bound(
        context,
        if context.op == CtxOp::Consume {
            "consume_context"@
        } else {
            "get_context"@
        },
        missing_context(category, context.protocol),
    )
}

/// The argument by which a context is handed over: itself where it is consumed, lent where it is
/// needed.
pub open spec fn argument_of(context: ContextModel) -> Seq<Tok> {
    if context.op == CtxOp::Consume {
        one(as_ident(context.protocol))
    } else {
        mark('&') + one(as_ident(context.protocol))
    }
}

/// The tokens hold the piece, in one stretch.
pub open spec fn holds(tokens: Seq<Tok>, piece: Seq<Tok>) -> bool {
    exists|before: Seq<Tok>, after: Seq<Tok>| tokens == #[trigger] (before + piece + after)
}

/// Every context that a handler is handed is bound by a statement of the same adapter: the
/// statements that bind contexts are one for each that is handed over, and no more.
pub proof fn law_contexts_handed_are_looked_up(symbol: SymbolModel, context: ContextModel)
    requires
        symbol.category != Category::Monitor,
        symbol.clauses.contexts.contains(context),
        context.op != CtxOp::Produce,
    ensures
        ({
            let bindings = context_bindings(symbol.category, symbol.clauses.contexts);
            let bound = lookup_of(symbol.category, context);
            &&& contexts_bound(symbol) == in_a_row(bindings)
            &&& bindings.contains(bound)
            &&& bindings.len() == context_arguments(symbol.clauses.contexts).len()
        }),
{
    let contexts = symbol.clauses.contexts;
    let bindings = context_bindings(symbol.category, contexts);
    lemma_lists(symbol);
    law_context_bound(symbol.category, context);
    law_received_contexts_are_looked_up(contexts);
    let op = context.op;
    let i = contexts.index_of(context);
    lemma_filter_keeps(contexts, |c: ContextModel| c.op == op, i);
    let picked = with_op(contexts, op);
    let k = choose|k: int| 0 <= k < picked.len() && picked[k] == context;
    let place = if op == CtxOp::Consume {
        k
    } else {
        k + with_op(contexts, CtxOp::Consume).len()
    };
    assert(looked_up(contexts)[place] == context);
    assert(bindings[place] == context_binding(symbol.category, context));
}

/// What is picked out of a sequence is in what is picked.
proof fn lemma_filter_keeps(
    contexts: Seq<ContextModel>,
    keep: spec_fn(ContextModel) -> bool,
    i: int,
)
    requires
        0 <= i < contexts.len(),
        keep(contexts[i]),
    ensures
        exists|k: int|
            0 <= k < contexts.filter(keep).len() && #[trigger] contexts.filter(keep)[k]
                == contexts[i],
    decreases contexts.len(),
{
    reveal(Seq::filter);
    let before = contexts.drop_last();
    let picked = contexts.filter(keep);
    if i == contexts.len() - 1 {
        assert(picked[picked.len() - 1] == contexts[i]);
    } else {
        lemma_filter_keeps(before, keep, i);
        let k = choose|k: int|
            0 <= k < before.filter(keep).len() && #[trigger] before.filter(keep)[k] == before[i];
        assert(picked[k] == contexts[i]);
    }
}

/// The part of the method of an adapter that calls the handler, and what it returns.
pub open spec fn call_part(symbol: SymbolModel) -> Seq<Tok> {
    let arguments = params_handed(symbol) + contexts_handed(symbol) + one("ctx"@);
    match symbol.category {
        Category::Executor => execution_written(
            symbol.clauses.returns,
            handler_called("execute"@, arguments),
        ) + execution_value(symbol.clauses.returns),
        Category::DataItem => one("let"@) + one("__result"@) + mark('=') + handler_called(
            "get"@,
            arguments,
        ) + mark(';') + data_item_returned(symbol.clauses.returns),
        _ => one("let"@) + one("__result"@) + mark('=') + handler_called("evaluate"@, arguments)
            + mark(';') + one("__result"@),
    }
}

/// The method of an executor's adapter binds the parameters, then the contexts, and then calls the
/// handler.
proof fn lemma_executor_binds_and_calls(symbol: SymbolModel)
    requires
        symbol.category == Category::Executor,
    ensures
        method_body(adapter_code(symbol)) == params_bound(symbol) + contexts_bound(symbol)
            + call_part(symbol),
{
    law_executor_adapter_written(symbol);
    let arguments = params_handed(symbol) + contexts_handed(symbol) + one("ctx"@);
    let call = execution_written(
        symbol.clauses.returns,
        handler_called("execute"@, arguments),
    );
    let value = execution_value(symbol.clauses.returns);
    let bound = params_bound(symbol) + contexts_bound(symbol);
    assert(method_body(adapter_code(symbol)) == bound + call + value);
    assert(bound + call + value =~= bound + (call + value));
}

/// So does that of a data item's.
proof fn lemma_data_item_binds_and_calls(symbol: SymbolModel)
    requires
        symbol.category == Category::DataItem,
    ensures
        method_body(adapter_code(symbol)) == params_bound(symbol) + contexts_bound(symbol)
            + call_part(symbol),
{
    law_data_item_adapter_written(symbol);
    assert(method_body(adapter_code(symbol)) =~= params_bound(symbol) + contexts_bound(symbol)
        + call_part(symbol));
}

/// So does that of a condition's.
proof fn lemma_condition_binds_and_calls(symbol: SymbolModel)
    requires
        symbol.category == Category::Condition,
    ensures
        method_body(adapter_code(symbol)) == params_bound(symbol) + contexts_bound(symbol)
            + call_part(symbol),
{
    law_condition_adapter_written(symbol);
    assert(method_body(adapter_code(symbol)) =~= params_bound(symbol) + contexts_bound(symbol)
        + call_part(symbol));
}

/// The method of an adapter binds the parameters, then the contexts, and then calls the handler.
pub proof fn law_method_binds_and_calls(symbol: SymbolModel)
    requires
        symbol.category != Category::Monitor,
    ensures
        method_body(adapter_code(symbol)) == params_bound(symbol) + contexts_bound(symbol)
            + call_part(symbol),
{
    match symbol.category {
        Category::Executor => {
            lemma_executor_binds_and_calls(symbol);
        },
        Category::DataItem => {
            lemma_data_item_binds_and_calls(symbol);
        },
        _ => {
            lemma_condition_binds_and_calls(symbol);
        },
    }
}

/// Every context that the handler is handed is bound before, by a statement of the same method that
/// looks it up, under the identifier by which it is handed over: in the adapter of an executor, of a
/// data item and of a condition.
pub proof fn law_contexts_are_bound_before_the_call(symbol: SymbolModel, context: ContextModel)
    requires
        symbol.category != Category::Monitor,
        symbol.clauses.contexts.contains(context),
        context.op != CtxOp::Produce,
    ensures
        method_body(adapter_code(symbol)) == params_bound(symbol) + contexts_bound(symbol)
            + call_part(symbol),
        holds(contexts_bound(symbol), lookup_of(symbol.category, context)),
        holds(contexts_handed(symbol), argument_of(context) + mark(',')),
{
    let contexts = symbol.clauses.contexts;
    law_method_binds_and_calls(symbol);
    lemma_lists(symbol);
    law_context_handed(context);
    let i = contexts.index_of(context);
    law_contexts_handed_are_looked_up(symbol, context);
    let bindings = context_bindings(symbol.category, contexts);
    let arguments = context_arguments(contexts);
    let bound = lookup_of(symbol.category, context);
    let k = bindings.index_of(bound);
    lemma_piece_in_list(bindings, k);
    lemma_filter_keeps(contexts, |c: ContextModel| c.op != CtxOp::Produce, i);
    let handed = received(contexts);
    let j = choose|j: int| 0 <= j < handed.len() && #[trigger] handed[j] == contexts[i];
    assert(arguments[j] == context_argument(context));
    lemma_piece_in_list(arguments, j);
}

/// A piece of a list stands in what is made of the list.
proof fn lemma_piece_in_list(pieces: Seq<Seq<Tok>>, k: int)
    requires
        0 <= k < pieces.len(),
    ensures
        holds(in_a_row(pieces), pieces[k]),
        holds(terminated(pieces), pieces[k] + mark(',')),
{
    let before = pieces.take(k);
    let after = pieces.skip(k + 1);
    law_lists_are_made_of_parts(pieces[k], before, seq![pieces[k]]);
    law_lists_are_made_of_parts(pieces[k], before + seq![pieces[k]], after);
    assert(pieces =~= before + seq![pieces[k]] + after);
    assert(in_a_row(pieces) == in_a_row(before) + pieces[k] + in_a_row(after));
    assert(terminated(pieces) == terminated(before) + (pieces[k] + mark(',')) + terminated(after));
}

} // verus!
