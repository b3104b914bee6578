//! What holds of the library as a whole.
use vstd::prelude::*;
use vstd::utf8::{encode_utf8, is_ascii_chars, is_ascii_chars_encode_utf8};

use crate::code::{
    adapter_code, adapter_name, adapter_names_valid, adapter_struct, context_argument,
    context_arguments, context_bindings, context_declaration, context_spec, data_item_spec,
    declarations, handler_head, handler_name, handler_trait_code, ident, is_raw, looked_up,
    metadata_code, metadata_head, metadata_name, metadata_valid, names_valid, param_declaration,
    param_names, received, registration, returns_spec, symbol_code, unraw, with_op, ADAPTER_STRUCT,
    HANDLER_HEAD, METADATA_HEAD, SOME,
};
use crate::grammar::{Category, Clauses, ContextModel, CtxOp, SymbolModel};
use crate::naming::{is_upper, small, snake_case, snake_prefix, starts_word};
use crate::rendering::{
    lemma_close, lemma_hole, lemma_open, lemma_plain, lemma_punct, lemma_puncts, partial,
};
use crate::template::rendered;
use crate::syntax::as_ident;
use crate::token::{is_plain_word, is_word_char, Delim, Tok};
use crate::trade_type::DslType;

verus! {

// ---------------------------------------------------------------------------------------------
// What is generated
// ---------------------------------------------------------------------------------------------
/// `pub struct NameAdapter < H : NameHandler > ( pub H ) ;`
proof fn lemma_adapter_struct(symbol: SymbolModel)
    ensures
        adapter_struct(symbol) == symbol.vis + seq![
            Tok::Ident("struct"@),
            Tok::Ident(as_ident(adapter_name(symbol.name))),
            Tok::Punct('<', false),
            Tok::Ident("H"@),
            Tok::Punct(':', false),
            Tok::Ident(as_ident(handler_name(symbol.name))),
            Tok::Punct('>', false),
            Tok::Group(Delim::Parenthesis, seq![Tok::Ident("pub"@), Tok::Ident("H"@)]),
            Tok::Punct(';', false),
        ],
{
    reveal_strlit("#a");
    reveal_strlit("struct");
    reveal_strlit("#b");
    reveal_strlit("<");
    reveal_strlit("H");
    reveal_strlit(":");
    reveal_strlit("#c");
    reveal_strlit(">");
    reveal_strlit("(");
    reveal_strlit("pub");
    reveal_strlit(")");
    reveal_strlit(";");
    reveal_strlit("#a struct #b < H : #c > ( pub H ) ;");
    let holes = seq![
        symbol.vis,
        ident(as_ident(adapter_name(symbol.name))),
        ident(as_ident(handler_name(symbol.name))),
    ];
    let t0 = "#a"@;
    lemma_hole(t0, "#a"@, holes, 0);
    lemma_plain(t0, "struct"@, holes);
    let t1 = t0.push(' ') + "struct"@;
    lemma_hole(t1, "#b"@, holes, 1);
    let t2 = t1.push(' ') + "#b"@;
    lemma_punct(t2, "<"@, holes);
    let t3 = t2.push(' ') + "<"@;
    lemma_plain(t3, "H"@, holes);
    let t4 = t3.push(' ') + "H"@;
    lemma_punct(t4, ":"@, holes);
    let t5 = t4.push(' ') + ":"@;
    lemma_hole(t5, "#c"@, holes, 2);
    let t6 = t5.push(' ') + "#c"@;
    lemma_punct(t6, ">"@, holes);
    let t7 = t6.push(' ') + ">"@;
    assert("("@ =~= seq!['(']);
    lemma_open(t7, "("@, holes, Delim::Parenthesis);
    let t8 = t7.push(' ') + "("@;
    lemma_plain(t8, "pub"@, holes);
    let t9 = t8.push(' ') + "pub"@;
    lemma_plain(t9, "H"@, holes);
    let t10 = t9.push(' ') + "H"@;
    assert(")"@ =~= seq![')']);
    lemma_close(t10, ")"@, holes);
    let t11 = t10.push(' ') + ")"@;
    lemma_punct(t11, ";"@, holes);
    let t12 = t11.push(' ') + ";"@;
    assert(ADAPTER_STRUCT@ =~= t12);
    let p = partial(t12, holes);
    assert(p.open =~= Seq::empty());
    assert(partial(t10, holes).tokens =~= seq![Tok::Ident("pub"@), Tok::Ident("H"@)]);
    assert(p.tokens =~= adapter_struct(symbol));
    assert(adapter_struct(symbol) =~= symbol.vis + seq![
        Tok::Ident("struct"@),
        Tok::Ident(as_ident(adapter_name(symbol.name))),
        Tok::Punct('<', false),
        Tok::Ident("H"@),
        Tok::Punct(':', false),
        Tok::Ident(as_ident(handler_name(symbol.name))),
        Tok::Punct('>', false),
        Tok::Group(Delim::Parenthesis, seq![Tok::Ident("pub"@), Tok::Ident("H"@)]),
        Tok::Punct(';', false),
    ]);
}

/// `pub fn name_metadata ( ) -> trade_meta_compiler :: SymbolMetadata`
proof fn lemma_metadata_head(symbol: SymbolModel)
    ensures
        metadata_head(symbol) == symbol.vis + seq![
            Tok::Ident("fn"@),
            Tok::Ident(as_ident(metadata_name(symbol.name))),
            Tok::Group(Delim::Parenthesis, Seq::empty()),
            Tok::Punct('-', true),
            Tok::Punct('>', false),
            Tok::Ident("trade_meta_compiler"@),
            Tok::Punct(':', true),
            Tok::Punct(':', false),
            Tok::Ident("SymbolMetadata"@),
        ],
{
    reveal_strlit("#a");
    reveal_strlit("fn");
    reveal_strlit("#b");
    reveal_strlit("(");
    reveal_strlit(")");
    reveal_strlit("->");
    reveal_strlit("trade_meta_compiler");
    reveal_strlit("::");
    reveal_strlit("SymbolMetadata");
    reveal_strlit("#a fn #b ( ) -> trade_meta_compiler :: SymbolMetadata");
    let holes = seq![symbol.vis, ident(as_ident(metadata_name(symbol.name)))];
    lemma_hole("#a"@, "#a"@, holes, 0);
    let t0 = "#a"@;
    lemma_plain(t0, "fn"@, holes);
    let t1 = t0.push(' ') + "fn"@;
    lemma_hole(t1, "#b"@, holes, 1);
    let t2 = t1.push(' ') + "#b"@;
    assert("("@ =~= seq!['(']);
    lemma_open(t2, "("@, holes, Delim::Parenthesis);
    let t3 = t2.push(' ') + "("@;
    assert(")"@ =~= seq![')']);
    lemma_close(t3, ")"@, holes);
    let t4 = t3.push(' ') + ")"@;
    lemma_puncts(t4, "->"@, holes);
    let t5 = t4.push(' ') + "->"@;
    lemma_plain(t5, "trade_meta_compiler"@, holes);
    let t6 = t5.push(' ') + "trade_meta_compiler"@;
    lemma_puncts(t6, "::"@, holes);
    let t7 = t6.push(' ') + "::"@;
    lemma_plain(t7, "SymbolMetadata"@, holes);
    let t8 = t7.push(' ') + "SymbolMetadata"@;
    assert(METADATA_HEAD@ =~= t8);
    assert(partial(t8, holes).open =~= Seq::empty());
}

/// `# [ async_trait :: async_trait ] pub trait NameHandler : Send + Sync`
proof fn lemma_handler_head(symbol: SymbolModel)
    ensures
        handler_head(symbol) == seq![
            Tok::Punct('#', false),
            Tok::Group(
                Delim::Bracket,
                seq![
                    Tok::Ident("async_trait"@),
                    Tok::Punct(':', true),
                    Tok::Punct(':', false),
                    Tok::Ident("async_trait"@),
                ],
            ),
        ] + symbol.vis + seq![
            Tok::Ident("trait"@),
            Tok::Ident(as_ident(handler_name(symbol.name))),
            Tok::Punct(':', false),
            Tok::Ident("Send"@),
            Tok::Punct('+', false),
            Tok::Ident("Sync"@),
        ],
{
    reveal_strlit("#");
    reveal_strlit("[");
    reveal_strlit("async_trait");
    reveal_strlit("::");
    reveal_strlit("]");
    reveal_strlit("#a");
    reveal_strlit("trait");
    reveal_strlit("#b");
    reveal_strlit(":");
    reveal_strlit("Send");
    reveal_strlit("+");
    reveal_strlit("Sync");
    reveal_strlit("# [ async_trait :: async_trait ] #a trait #b : Send + Sync");
    let holes = seq![symbol.vis, ident(as_ident(handler_name(symbol.name)))];
    lemma_punct("#"@, "#"@, holes);
    let t0 = "#"@;
    assert("["@ =~= seq!['[']);
    assert(seq!['('][0] == '(' && seq!['{'][0] == '{');
    lemma_open(t0, "["@, holes, Delim::Bracket);
    let t1 = t0.push(' ') + "["@;
    lemma_plain(t1, "async_trait"@, holes);
    let t2 = t1.push(' ') + "async_trait"@;
    lemma_puncts(t2, "::"@, holes);
    let t3 = t2.push(' ') + "::"@;
    lemma_plain(t3, "async_trait"@, holes);
    let t4 = t3.push(' ') + "async_trait"@;
    assert("]"@ =~= seq![']']);
    lemma_close(t4, "]"@, holes);
    let t5 = t4.push(' ') + "]"@;
    lemma_hole(t5, "#a"@, holes, 0);
    let t6 = t5.push(' ') + "#a"@;
    lemma_plain(t6, "trait"@, holes);
    let t7 = t6.push(' ') + "trait"@;
    lemma_hole(t7, "#b"@, holes, 1);
    let t8 = t7.push(' ') + "#b"@;
    lemma_punct(t8, ":"@, holes);
    let t9 = t8.push(' ') + ":"@;
    lemma_plain(t9, "Send"@, holes);
    let t10 = t9.push(' ') + "Send"@;
    lemma_punct(t10, "+"@, holes);
    let t11 = t10.push(' ') + "+"@;
    lemma_plain(t11, "Sync"@, holes);
    let t12 = t11.push(' ') + "Sync"@;
    assert(HANDLER_HEAD@ =~= t12);
    assert(partial(t12, holes).open =~= Seq::empty());
    assert(partial(t4, holes).tokens =~= seq![
        Tok::Ident("async_trait"@),
        Tok::Punct(':', true),
        Tok::Punct(':', false),
        Tok::Ident("async_trait"@),
    ]);
}

/// The code of a symbol holds, in this order: the function `{snake_case}_metadata()`, the trait
/// `{Name}Handler`, the struct `{Name}Adapter<H>` for a handler `H`, each of the visibility that
/// the definition has; then the registration of the symbol.
pub proof fn law_code_holds_the_items(symbol: SymbolModel)
    ensures
        symbol_code(symbol) == metadata_code(symbol) + handler_trait_code(symbol) + adapter_code(
            symbol,
        ) + registration(symbol),
        (symbol.vis + seq![
            Tok::Ident("fn"@),
            Tok::Ident(as_ident(snake_case(symbol.name) + "_metadata"@)),
            Tok::Group(Delim::Parenthesis, Seq::empty()),
        ]).is_prefix_of(metadata_code(symbol)),
        (seq![
            Tok::Punct('#', false),
            Tok::Group(
                Delim::Bracket,
                seq![
                    Tok::Ident("async_trait"@),
                    Tok::Punct(':', true),
                    Tok::Punct(':', false),
                    Tok::Ident("async_trait"@),
                ],
            ),
        ] + symbol.vis + seq![
            Tok::Ident("trait"@),
            Tok::Ident(as_ident(unraw(symbol.name) + "Handler"@)),
        ]).is_prefix_of(handler_trait_code(symbol)),
        (symbol.vis + seq![
            Tok::Ident("struct"@),
            Tok::Ident(as_ident(unraw(symbol.name) + "Adapter"@)),
            Tok::Punct('<', false),
            Tok::Ident("H"@),
            Tok::Punct(':', false),
            Tok::Ident(as_ident(unraw(symbol.name) + "Handler"@)),
            Tok::Punct('>', false),
        ]).is_prefix_of(adapter_code(symbol)),
{
    lemma_metadata_head(symbol);
    lemma_handler_head(symbol);
    lemma_adapter_struct(symbol);
}

/// A symbol whose name is made of ASCII letters, digits and underscores gives the names of what is
/// generated as they are built; and where its protocols are such words too, all names serve.
pub proof fn law_plain_names_serve(symbol: SymbolModel)
    requires
        is_plain_word(symbol.name),
    ensures
        as_ident(metadata_name(symbol.name)) == snake_case(symbol.name) + "_metadata"@,
        as_ident(handler_name(symbol.name)) == symbol.name + "Handler"@,
        as_ident(adapter_name(symbol.name)) == symbol.name + "Adapter"@,
        metadata_valid(symbol),
        adapter_names_valid(symbol),
        (forall|i: int|
            0 <= i < symbol.clauses.contexts.len() ==> is_plain_word(
                (#[trigger] symbol.clauses.contexts[i]).protocol,
            )) ==> names_valid(symbol),
{
    let name = symbol.name;
    reveal_strlit("_metadata");
    reveal_strlit("Handler");
    reveal_strlit("Adapter");
    assert(!is_raw(name)) by {
        if is_raw(name) {
            assert(is_word_char(name[1]));
        }
    }
    lemma_plain_with_suffix(name, "Handler"@);
    lemma_plain_with_suffix(name, "Adapter"@);
    let snake = snake_case(name);
    lemma_snake_chars(name, name.len());
    lemma_snake_first(name, name.len());
    assert forall|i: int| 0 <= i < snake.len() implies is_word_char(#[trigger] snake[i]) by {
        if snake[i] != '_' {
            let k = choose|k: int| 0 <= k < name.len() && snake[i] == small(#[trigger] name[k]);
            assert(is_word_char(name[k]));
        }
    }
    lemma_plain_with_suffix(snake, "_metadata"@);
}

/// A word with word characters behind it is a word.
proof fn lemma_plain_with_suffix(word: Seq<char>, suffix: Seq<char>)
    requires
        is_plain_word(word),
        forall|i: int| 0 <= i < suffix.len() ==> is_word_char(#[trigger] suffix[i]),
    ensures
        is_plain_word(word + suffix),
{
    assert forall|i: int| 0 <= i < (word + suffix).len() implies is_word_char(
        #[trigger] (word + suffix)[i],
    ) by {
        if i < word.len() {
            assert(is_word_char(word[i]));
        } else {
            assert(is_word_char(suffix[i - word.len()]));
        }
    }
}

/// The first character of a name in snake case is that of the name made small.
proof fn lemma_snake_first(name: Seq<char>, n: nat)
    requires
        0 < n <= name.len(),
    ensures
        snake_prefix(name, n).len() > 0,
        snake_prefix(name, n)[0] == small(name[0]),
    decreases n,
{
    reveal_with_fuel(snake_prefix, 2);
    if n > 1 {
        lemma_snake_first(name, (n - 1) as nat);
    }
}

/// The adapter hands the handler as many arguments as it declares, in the order in which it
/// declares them: each parameter; then, unless it is a monitor, each context that it receives; then
/// the token by which a monitor is cancelled, or the task.
pub proof fn law_arguments_follow_declarations(symbol: SymbolModel)
    ensures
        ({
            let params = symbol.clauses.params;
            &&& param_names(params).len() == params.len()
            &&& forall|i: int|
                0 <= i < params.len() ==> declarations(symbol)[i] == param_declaration(params[i])
                    && #[trigger] param_names(params)[i] == ident(params[i].name)
            &&& symbol.category == Category::Monitor ==> declarations(symbol).len() == params.len()
                + 1
        }),
        symbol.category != Category::Monitor ==> {
            let params = symbol.clauses.params;
            let contexts = received(symbol.clauses.contexts);
            let arguments = context_arguments(symbol.clauses.contexts);
            &&& declarations(symbol).len() == params.len() + contexts.len() + 1
            &&& arguments.len() == contexts.len()
            &&& forall|i: int|
                0 <= i < contexts.len() ==> declarations(symbol)[params.len() + i]
                    == context_declaration(contexts[i]) && #[trigger] arguments[i]
                    == context_argument(contexts[i])
        },
{
}

/// The contexts that a handler receives are those that its adapter looks up, each as often.
pub proof fn law_received_contexts_are_looked_up(contexts: Seq<ContextModel>)
    ensures
        looked_up(contexts).to_multiset() == received(contexts).to_multiset(),
        looked_up(contexts).len() == received(contexts).len(),
    decreases contexts.len(),
{
    broadcast use vstd::seq_lib::group_to_multiset_ensures;

    reveal(Seq::filter);
    let consumed = with_op(contexts, CtxOp::Consume);
    let needed = with_op(contexts, CtxOp::Need);
    vstd::seq_lib::lemma_multiset_commutative(consumed, needed);
    if contexts.len() > 0 {
        let before = contexts.drop_last();
        law_received_contexts_are_looked_up(before);
        vstd::seq_lib::lemma_multiset_commutative(
            with_op(before, CtxOp::Consume),
            with_op(before, CtxOp::Need),
        );
        assert(looked_up(contexts).to_multiset() =~= received(contexts).to_multiset());
    } else {
        assert(looked_up(contexts) =~= received(contexts));
    }
}

/// The definition without the contexts that the symbol produces.
pub open spec fn without_produced(symbol: SymbolModel) -> SymbolModel {
    SymbolModel {
        clauses: Clauses { contexts: received(symbol.clauses.contexts), ..symbol.clauses },
        ..symbol
    }
}

/// What is picked of the contexts that are received is what is picked of all.
proof fn lemma_picked_of_received(contexts: Seq<ContextModel>)
    ensures
        received(received(contexts)) == received(contexts),
        looked_up(received(contexts)) == looked_up(contexts),
    decreases contexts.len(),
{
    reveal(Seq::filter);
    if contexts.len() > 0 {
        let before = contexts.drop_last();
        lemma_picked_of_received(before);
        lemma_with_op_of_received(contexts, CtxOp::Consume);
        lemma_with_op_of_received(contexts, CtxOp::Need);
        if contexts.last().op != CtxOp::Produce {
            assert(received(contexts).drop_last() =~= received(before));
        }
    }
}

/// What is picked of the contexts that are received is what is picked of all.
proof fn lemma_with_op_of_received(contexts: Seq<ContextModel>, op: CtxOp)
    requires
        op != CtxOp::Produce,
    ensures
        with_op(received(contexts), op) == with_op(contexts, op),
    decreases contexts.len(),
{
    reveal(Seq::filter);
    if contexts.len() > 0 {
        let before = contexts.drop_last();
        lemma_with_op_of_received(before, op);
        if contexts.last().op != CtxOp::Produce {
            assert(received(contexts).drop_last() =~= received(before));
        }
    }
}

/// A context that a symbol produces is seen in its metadata only: what is looked up and handed to
/// the handler, the handler and the adapter are those of the definition without it. Where a symbol
/// neither needs nor consumes a context, nothing is looked up.
pub proof fn law_produced_contexts_stay_out(symbol: SymbolModel)
    ensures
        context_bindings(symbol.category, received(symbol.clauses.contexts)) == context_bindings(
            symbol.category,
            symbol.clauses.contexts,
        ),
        context_arguments(received(symbol.clauses.contexts)) == context_arguments(
            symbol.clauses.contexts,
        ),
        context_arguments(symbol.clauses.contexts).len() == with_op(
            symbol.clauses.contexts,
            CtxOp::Consume,
        ).len() + with_op(symbol.clauses.contexts, CtxOp::Need).len(),
        received(symbol.clauses.contexts).len() == 0 ==> context_bindings(
            symbol.category,
            symbol.clauses.contexts,
        ).len() == 0,
        handler_trait_code(without_produced(symbol)) == handler_trait_code(symbol),
        adapter_code(without_produced(symbol)) == adapter_code(symbol),
{
    lemma_picked_of_received(symbol.clauses.contexts);
    law_received_contexts_are_looked_up(symbol.clauses.contexts);
}

/// A monitor receives no context and hands on what its handler returns: its handler and adapter are
/// those of the definition with other contexts and other return types, or none.
pub proof fn law_monitor_depends_on_parameters_only(
    symbol: SymbolModel,
    contexts: Seq<ContextModel>,
    declared: Option<Seq<DslType>>,
)
    requires
        symbol.category == Category::Monitor,
    ensures
        ({
            let other = SymbolModel {
                clauses: Clauses { contexts, returns: declared, ..symbol.clauses },
                ..symbol
            };
            &&& handler_trait_code(other) == handler_trait_code(symbol)
            &&& adapter_code(other) == adapter_code(symbol)
        }),
{
}

/// The metadata of a symbol do not depend on the types of its contexts.
pub proof fn law_metadata_hold_no_context_types(symbol: SymbolModel, contexts: Seq<ContextModel>)
    requires
        contexts.len() == symbol.clauses.contexts.len(),
        forall|i: int|
            0 <= i < contexts.len() ==> (#[trigger] contexts[i]).op
                == symbol.clauses.contexts[i].op && contexts[i].literal
                == symbol.clauses.contexts[i].literal,
    ensures
        metadata_code(
            SymbolModel { clauses: Clauses { contexts, ..symbol.clauses }, ..symbol },
        ) == metadata_code(symbol),
{
    let spec = |context: ContextModel| context_spec(context);
    assert(contexts.map_values(spec) =~= symbol.clauses.contexts.map_values(spec));
}

/// Where a definition names one return type, a data item declares the type that its metadata names.
pub proof fn law_data_item_declares_what_metadata_names(types: Seq<DslType>)
    requires
        types.len() == 1,
    ensures
        returns_spec(Some(types)) == rendered(SOME@, seq![data_item_spec(Some(types))]),
{
}

// ---------------------------------------------------------------------------------------------
// Names
// ---------------------------------------------------------------------------------------------
/// In an ASCII name an underscore comes before each capital letter behind a small letter or a
/// digit, and nowhere else.
pub proof fn law_words_of_ascii_name(name: Seq<char>, i: int)
    requires
        is_ascii_chars(name),
        0 <= i < name.len(),
    ensures
        starts_word(name, i) == (i > 0 && 'A' <= name[i] && name[i] <= 'Z' && (('a' <= name[i - 1]
            && name[i - 1] <= 'z') || ('0' <= name[i - 1] && name[i - 1] <= '9'))),
{
    is_ascii_chars_encode_utf8(name);
    if i > 0 {
        assert(name[i - 1] as u8 == encode_utf8(name)[i - 1]);
    }
}

/// A name in snake case holds no capital letter from `A` to `Z`.
pub proof fn law_snake_case_holds_no_capital(name: Seq<char>)
    ensures
        forall|i: int|
            0 <= i < snake_case(name).len() ==> !('A' <= #[trigger] snake_case(name)[i]
                && snake_case(name)[i] <= 'Z'),
{
    lemma_snake_chars(name, name.len());
}

/// A character of a name in snake case is an underscore or one of the name made small.
proof fn lemma_snake_chars(name: Seq<char>, n: nat)
    requires
        n <= name.len(),
    ensures
        forall|i: int|
            0 <= i < snake_prefix(name, n).len() ==> (#[trigger] snake_prefix(name, n)[i]) == '_'
                || exists|k: int|
                0 <= k < n && snake_prefix(name, n)[i] == small(#[trigger] name[k]),
    decreases n,
{
    if n > 0 {
        let before = snake_prefix(name, (n - 1) as nat);
        lemma_snake_chars(name, (n - 1) as nat);
        let after = snake_prefix(name, n);
        assert forall|i: int| 0 <= i < after.len() implies (#[trigger] after[i]) == '_' || exists|
            k: int,
        |
            0 <= k < n && after[i] == small(#[trigger] name[k]) by {
            if i < before.len() {
                assert(after[i] == before[i]);
            } else if after[i] != '_' {
                assert(after[i] == small(name[n - 1]));
            }
        }
    }
}

/// A name without uppercase characters is its own snake case.
pub proof fn law_snake_case_of_small_name(name: Seq<char>)
    requires
        forall|i: int| 0 <= i < name.len() ==> !is_upper(#[trigger] name[i]),
    ensures
        snake_case(name) == name,
{
    lemma_snake_prefix_of_small_name(name, name.len());
    assert(name.take(name.len() as int) =~= name);
}

/// The first characters of a name without uppercase characters stay.
proof fn lemma_snake_prefix_of_small_name(name: Seq<char>, n: nat)
    requires
        n <= name.len(),
        forall|i: int| 0 <= i < name.len() ==> !is_upper(#[trigger] name[i]),
    ensures
        snake_prefix(name, n) == name.take(n as int),
    decreases n,
{
    if n > 0 {
        lemma_snake_prefix_of_small_name(name, (n - 1) as nat);
        assert(!is_upper(name[n - 1]));
        assert(name.take(n as int) =~= name.take(n - 1).push(name[n - 1]));
    } else {
        assert(name.take(0) =~= Seq::empty());
    }
}

/// The snake case of a name whose uppercase characters are ASCII letters is its own snake case.
pub proof fn law_snake_case_is_stable(name: Seq<char>)
    requires
        forall|i: int|
            0 <= i < name.len() && is_upper(#[trigger] name[i]) ==> (name[i] as u32) < 128,
    ensures
        snake_case(snake_case(name)) == snake_case(name),
{
    let snake = snake_case(name);
    lemma_snake_chars(name, name.len());
    assert forall|i: int| 0 <= i < snake.len() implies !is_upper(#[trigger] snake[i]) by {
        if snake[i] != '_' {
            let k = choose|k: int| 0 <= k < name.len() && snake[i] == small(#[trigger] name[k]);
            assert(!is_upper(small(name[k])));
        }
    }
    law_snake_case_of_small_name(snake);
}

} // verus!
