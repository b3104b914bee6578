//! What each template stands for, token by token.
use vstd::prelude::*;

use crate::code::{
    ADAPTER_STRUCT, ALIAS_LOOKUP, BIND, BIND_OPTIONAL, BIND_OPTIONAL_VALUE, BIND_VALUE,
    CALL_EXECUTE, CALL_START, CATEGORY_CONDITION, CATEGORY_DATA_ITEM, CATEGORY_EXECUTOR,
    CATEGORY_MONITOR, CHOICES, CONDITION_IMPL, CONTEXT_CONSUME, CONTEXT_NEED, CONTEXT_PRODUCE,
    DATA_ITEM_IMPL, DECLARE_CANCEL, DECLARE_CONSUME, DECLARE_NEED, DECLARE_OPTIONAL,
    DECLARE_REQUIRED, DECLARE_TASK, EVALUATE, EXECUTE, EXECUTE_FAILED, EXECUTOR_IMPL,
    EXECUTOR_RESULT, GET, GET_CONTEXT, HANDLER_BODY, HANDLER_HEAD, LEND, METADATA_BODY,
    METADATA_HEAD, MISSING_CONDITION, MISSING_DATA_ITEM, MISSING_EXECUTOR, MONITOR_IMPL,
    MONITOR_RESULT, NONE, PARAM_OPTIONAL, PARAM_OPTIONAL_MULTI, PARAM_REQUIRED,
    PARAM_REQUIRED_MULTI, REGISTRATION, RESULT, RUN, RUN_FOR_MANY, RUN_FOR_ONE, SOME, START,
    TAKE_CONTEXT, UNIT, UNIT_VALUE, VALUE,
};
use crate::rendering::{lemma_stands_rendered, Piece};
use crate::template::rendered;
use crate::token::{Delim, Tok};
use crate::trade_type::{
    EXTRACT_BOOL, EXTRACT_DURATION, EXTRACT_FLOAT, EXTRACT_LIST, EXTRACT_STRING, EXTRACT_TUPLE,
    EXTRACT_VALUE, ITEM, LENT_TUPLE_ITEM, RUST_BOOL, RUST_DURATION, RUST_FLOAT, RUST_LIST,
    RUST_STRING, RUST_TUPLE, RUST_VALUE, SPEC_ADDRESS, SPEC_AMOUNT, SPEC_ANY, SPEC_BOOL, SPEC_COUNT,
    SPEC_DURATION, SPEC_LIST, SPEC_NUMBER, SPEC_PERCENT, SPEC_PRICE, SPEC_STRING, SPEC_TIMEPOINT,
    SPEC_TUPLE, TUPLE_FIELD, TUPLE_ITEM, WRAP_AMOUNT, WRAP_BOOL, WRAP_COUNT, WRAP_DURATION,
    WRAP_LIST, WRAP_NUMBER, WRAP_PERCENT, WRAP_PRICE, WRAP_STRING, WRAP_TIME_POINT, WRAP_TUPLE,
};

verus! {

/// `# [ async_trait :: async_trait ]`
pub open spec fn async_trait_attribute() -> Seq<Tok> {
    seq![
        Tok::Punct('#', false),
        Tok::Group(
            Delim::Bracket,
            seq![
                Tok::Ident("async_trait"@),
                Tok::Punct(':', true),
                Tok::Punct(':', false),
                Tok::Ident("async_trait"@),
            ],
        ),
    ]
}

/// The words of [`async_trait_attribute`].
pub(crate) proof fn piece_async_trait_attribute(holes: Seq<Seq<Tok>>) -> (piece: Piece)
    ensures
        piece.good(holes),
        piece == (Piece {
            text: "# [ async_trait :: async_trait ]"@,
            tokens: async_trait_attribute(),
        }),
{
    reveal_strlit("#");
    reveal_strlit("async_trait");
    reveal_strlit("::");
    reveal_strlit("# [ async_trait :: async_trait ]");
    let p1 = Piece::of_mark("#"@, holes);
    let p3 = Piece::of_word("async_trait"@, holes);
    let p4 = p3.then_marks("::"@, holes);
    let p5 = p4.then_word("async_trait"@, holes);
    assert(p5.tokens =~= seq![
        Tok::Ident("async_trait"@),
        Tok::Punct(':', true),
        Tok::Punct(':', false),
        Tok::Ident("async_trait"@),
    ]);
    let p2 = p5.in_square(holes);
    let p6 = p1.then_piece(p2, holes);
    assert(p6.tokens =~= seq![
        Tok::Punct('#', false),
        Tok::Group(
            Delim::Bracket,
            seq![
                Tok::Ident("async_trait"@),
                Tok::Punct(':', true),
                Tok::Punct(':', false),
                Tok::Ident("async_trait"@),
            ],
        ),
    ]);
    assert("# [ async_trait :: async_trait ]"@ =~= p6.text);
    p6
}

/// `args : & :: std :: collections :: HashMap < :: std :: string :: String , trade_meta_compiler :: RuntimeValue >`
pub open spec fn args_declaration() -> Seq<Tok> {
    seq![
        Tok::Ident("args"@),
        Tok::Punct(':', false),
        Tok::Punct('&', false),
        Tok::Punct(':', true),
        Tok::Punct(':', false),
        Tok::Ident("std"@),
        Tok::Punct(':', true),
        Tok::Punct(':', false),
        Tok::Ident("collections"@),
        Tok::Punct(':', true),
        Tok::Punct(':', false),
        Tok::Ident("HashMap"@),
        Tok::Punct('<', false),
    ] + string_type()
        + seq![Tok::Punct(',', false)]
        + value_type()
        + seq![Tok::Punct('>', false)]
}

/// The words of [`args_declaration`].
pub(crate) proof fn piece_args_declaration(holes: Seq<Seq<Tok>>) -> (piece: Piece)
    ensures
        piece.good(holes),
        piece == (Piece {
            text: "args : & :: std :: collections :: HashMap < :: std :: string :: String , trade_meta_compiler :: RuntimeValue >"@,
            tokens: args_declaration(),
        }),
{
    reveal_strlit("args");
    reveal_strlit(":");
    reveal_strlit("&");
    reveal_strlit("::");
    reveal_strlit("std");
    reveal_strlit("collections");
    reveal_strlit("HashMap");
    reveal_strlit("<");
    reveal_strlit("args : & :: std :: collections :: HashMap <");
    reveal_strlit(":: std :: string :: String");
    reveal_strlit(",");
    reveal_strlit("trade_meta_compiler :: RuntimeValue");
    reveal_strlit(">");
    reveal_strlit(
        "args : & :: std :: collections :: HashMap < :: std :: string :: String , trade_meta_compiler :: RuntimeValue >",
    );
    let p1 = Piece::of_word("args"@, holes);
    let p2 = p1.then_mark(":"@, holes);
    let p3 = p2.then_mark("&"@, holes);
    let p4 = p3.then_marks("::"@, holes);
    let p5 = p4.then_word("std"@, holes);
    let p6 = p5.then_marks("::"@, holes);
    let p7 = p6.then_word("collections"@, holes);
    let p8 = p7.then_marks("::"@, holes);
    let p9 = p8.then_word("HashMap"@, holes);
    let p10 = p9.then_mark("<"@, holes);
    assert(p10.tokens =~= seq![
        Tok::Ident("args"@),
        Tok::Punct(':', false),
        Tok::Punct('&', false),
        Tok::Punct(':', true),
        Tok::Punct(':', false),
        Tok::Ident("std"@),
        Tok::Punct(':', true),
        Tok::Punct(':', false),
        Tok::Ident("collections"@),
        Tok::Punct(':', true),
        Tok::Punct(':', false),
        Tok::Ident("HashMap"@),
        Tok::Punct('<', false),
    ]);
    let p11 = p10.as_text("args : & :: std :: collections :: HashMap <"@, holes);
    let p12 = piece_string_type(holes);
    let p13 = p11.then_piece(p12, holes);
    let p14 = Piece::of_mark(","@, holes);
    let p15 = p13.then_piece(p14, holes);
    let p16 = piece_value_type(holes);
    let p17 = p15.then_piece(p16, holes);
    let p18 = Piece::of_mark(">"@, holes);
    let p19 = p17.then_piece(p18, holes);
    let p20 = p19.as_text("args : & :: std :: collections :: HashMap < :: std :: string :: String , trade_meta_compiler :: RuntimeValue >"@, holes);
    assert("args : & :: std :: collections :: HashMap < :: std :: string :: String , trade_meta_compiler :: RuntimeValue >"@ =~= p20.text);
    p20
}

/// `ctx : & :: std :: sync :: Arc < trade_lang_core :: TradeTaskContext >`
pub open spec fn task_declaration() -> Seq<Tok> {
    seq![
        Tok::Ident("ctx"@),
        Tok::Punct(':', false),
        Tok::Punct('&', false),
        Tok::Punct(':', true),
        Tok::Punct(':', false),
        Tok::Ident("std"@),
        Tok::Punct(':', true),
        Tok::Punct(':', false),
        Tok::Ident("sync"@),
        Tok::Punct(':', true),
        Tok::Punct(':', false),
        Tok::Ident("Arc"@),
        Tok::Punct('<', false),
        Tok::Ident("trade_lang_core"@),
        Tok::Punct(':', true),
        Tok::Punct(':', false),
        Tok::Ident("TradeTaskContext"@),
        Tok::Punct('>', false),
    ]
}

/// The words of [`task_declaration`].
pub(crate) proof fn piece_task_declaration(holes: Seq<Seq<Tok>>) -> (piece: Piece)
    ensures
        piece.good(holes),
        piece == (Piece {
            text: "ctx : & :: std :: sync :: Arc < trade_lang_core :: TradeTaskContext >"@,
            tokens: task_declaration(),
        }),
{
    reveal_strlit("ctx");
    reveal_strlit(":");
    reveal_strlit("&");
    reveal_strlit("::");
    reveal_strlit("std");
    reveal_strlit("sync");
    reveal_strlit("Arc");
    reveal_strlit("<");
    reveal_strlit("trade_lang_core");
    reveal_strlit("TradeTaskContext");
    reveal_strlit(">");
    reveal_strlit("ctx : & :: std :: sync :: Arc < trade_lang_core :: TradeTaskContext >");
    let p1 = Piece::of_word("ctx"@, holes);
    let p2 = p1.then_mark(":"@, holes);
    let p3 = p2.then_mark("&"@, holes);
    let p4 = p3.then_marks("::"@, holes);
    let p5 = p4.then_word("std"@, holes);
    let p6 = p5.then_marks("::"@, holes);
    let p7 = p6.then_word("sync"@, holes);
    let p8 = p7.then_marks("::"@, holes);
    let p9 = p8.then_word("Arc"@, holes);
    let p10 = p9.then_mark("<"@, holes);
    let p11 = p10.then_word("trade_lang_core"@, holes);
    let p12 = p11.then_marks("::"@, holes);
    let p13 = p12.then_word("TradeTaskContext"@, holes);
    let p14 = p13.then_mark(">"@, holes);
    assert(p14.tokens =~= seq![
        Tok::Ident("ctx"@),
        Tok::Punct(':', false),
        Tok::Punct('&', false),
        Tok::Punct(':', true),
        Tok::Punct(':', false),
        Tok::Ident("std"@),
        Tok::Punct(':', true),
        Tok::Punct(':', false),
        Tok::Ident("sync"@),
        Tok::Punct(':', true),
        Tok::Punct(':', false),
        Tok::Ident("Arc"@),
        Tok::Punct('<', false),
        Tok::Ident("trade_lang_core"@),
        Tok::Punct(':', true),
        Tok::Punct(':', false),
        Tok::Ident("TradeTaskContext"@),
        Tok::Punct('>', false),
    ]);
    assert("ctx : & :: std :: sync :: Arc < trade_lang_core :: TradeTaskContext >"@ =~= p14.text);
    p14
}

/// `cancel : trade_lang_core :: CancellationToken`
pub open spec fn cancel_declaration() -> Seq<Tok> {
    seq![
        Tok::Ident("cancel"@),
        Tok::Punct(':', false),
        Tok::Ident("trade_lang_core"@),
        Tok::Punct(':', true),
        Tok::Punct(':', false),
        Tok::Ident("CancellationToken"@),
    ]
}

/// The words of [`cancel_declaration`].
pub(crate) proof fn piece_cancel_declaration(holes: Seq<Seq<Tok>>) -> (piece: Piece)
    ensures
        piece.good(holes),
        piece == (Piece {
            text: "cancel : trade_lang_core :: CancellationToken"@,
            tokens: cancel_declaration(),
        }),
{
    reveal_strlit("cancel");
    reveal_strlit(":");
    reveal_strlit("trade_lang_core");
    reveal_strlit("::");
    reveal_strlit("CancellationToken");
    reveal_strlit("cancel : trade_lang_core :: CancellationToken");
    let p1 = Piece::of_word("cancel"@, holes);
    let p2 = p1.then_mark(":"@, holes);
    let p3 = p2.then_word("trade_lang_core"@, holes);
    let p4 = p3.then_marks("::"@, holes);
    let p5 = p4.then_word("CancellationToken"@, holes);
    assert(p5.tokens =~= seq![
        Tok::Ident("cancel"@),
        Tok::Punct(':', false),
        Tok::Ident("trade_lang_core"@),
        Tok::Punct(':', true),
        Tok::Punct(':', false),
        Tok::Ident("CancellationToken"@),
    ]);
    assert("cancel : trade_lang_core :: CancellationToken"@ =~= p5.text);
    p5
}

/// `trade_lang_core :: monitor_mpsc :: Receiver < trade_lang_core :: MonitorMessage >`
pub open spec fn messages_type() -> Seq<Tok> {
    seq![
        Tok::Ident("trade_lang_core"@),
        Tok::Punct(':', true),
        Tok::Punct(':', false),
        Tok::Ident("monitor_mpsc"@),
        Tok::Punct(':', true),
        Tok::Punct(':', false),
        Tok::Ident("Receiver"@),
        Tok::Punct('<', false),
        Tok::Ident("trade_lang_core"@),
        Tok::Punct(':', true),
        Tok::Punct(':', false),
        Tok::Ident("MonitorMessage"@),
        Tok::Punct('>', false),
    ]
}

/// The words of [`messages_type`].
pub(crate) proof fn piece_messages_type(holes: Seq<Seq<Tok>>) -> (piece: Piece)
    ensures
        piece.good(holes),
        piece == (Piece {
            text: "trade_lang_core :: monitor_mpsc :: Receiver < trade_lang_core :: MonitorMessage >"@,
            tokens: messages_type(),
        }),
{
    reveal_strlit("trade_lang_core");
    reveal_strlit("::");
    reveal_strlit("monitor_mpsc");
    reveal_strlit("Receiver");
    reveal_strlit("<");
    reveal_strlit("MonitorMessage");
    reveal_strlit(">");
    reveal_strlit(
        "trade_lang_core :: monitor_mpsc :: Receiver < trade_lang_core :: MonitorMessage >",
    );
    let p1 = Piece::of_word("trade_lang_core"@, holes);
    let p2 = p1.then_marks("::"@, holes);
    let p3 = p2.then_word("monitor_mpsc"@, holes);
    let p4 = p3.then_marks("::"@, holes);
    let p5 = p4.then_word("Receiver"@, holes);
    let p6 = p5.then_mark("<"@, holes);
    let p7 = p6.then_word("trade_lang_core"@, holes);
    let p8 = p7.then_marks("::"@, holes);
    let p9 = p8.then_word("MonitorMessage"@, holes);
    let p10 = p9.then_mark(">"@, holes);
    assert(p10.tokens =~= seq![
        Tok::Ident("trade_lang_core"@),
        Tok::Punct(':', true),
        Tok::Punct(':', false),
        Tok::Ident("monitor_mpsc"@),
        Tok::Punct(':', true),
        Tok::Punct(':', false),
        Tok::Ident("Receiver"@),
        Tok::Punct('<', false),
        Tok::Ident("trade_lang_core"@),
        Tok::Punct(':', true),
        Tok::Punct(':', false),
        Tok::Ident("MonitorMessage"@),
        Tok::Punct('>', false),
    ]);
    assert("trade_lang_core :: monitor_mpsc :: Receiver < trade_lang_core :: MonitorMessage >"@ =~= p10.text);
    p10
}

/// `:: std :: string :: String`
pub open spec fn string_type() -> Seq<Tok> {
    seq![
        Tok::Punct(':', true),
        Tok::Punct(':', false),
        Tok::Ident("std"@),
        Tok::Punct(':', true),
        Tok::Punct(':', false),
        Tok::Ident("string"@),
        Tok::Punct(':', true),
        Tok::Punct(':', false),
        Tok::Ident("String"@),
    ]
}

/// The words of [`string_type`].
pub(crate) proof fn piece_string_type(holes: Seq<Seq<Tok>>) -> (piece: Piece)
    ensures
        piece.good(holes),
        piece == (Piece {
            text: ":: std :: string :: String"@,
            tokens: string_type(),
        }),
{
    reveal_strlit("::");
    reveal_strlit("std");
    reveal_strlit("string");
    reveal_strlit("String");
    reveal_strlit(":: std :: string :: String");
    let p1 = Piece::of_marks("::"@, holes);
    let p2 = p1.then_word("std"@, holes);
    let p3 = p2.then_marks("::"@, holes);
    let p4 = p3.then_word("string"@, holes);
    let p5 = p4.then_marks("::"@, holes);
    let p6 = p5.then_word("String"@, holes);
    assert(p6.tokens =~= seq![
        Tok::Punct(':', true),
        Tok::Punct(':', false),
        Tok::Ident("std"@),
        Tok::Punct(':', true),
        Tok::Punct(':', false),
        Tok::Ident("string"@),
        Tok::Punct(':', true),
        Tok::Punct(':', false),
        Tok::Ident("String"@),
    ]);
    assert(":: std :: string :: String"@ =~= p6.text);
    p6
}

/// `trade_meta_compiler :: RuntimeValue`
pub open spec fn value_type() -> Seq<Tok> {
    seq![
        Tok::Ident("trade_meta_compiler"@),
        Tok::Punct(':', true),
        Tok::Punct(':', false),
        Tok::Ident("RuntimeValue"@),
    ]
}

/// The words of [`value_type`].
pub(crate) proof fn piece_value_type(holes: Seq<Seq<Tok>>) -> (piece: Piece)
    ensures
        piece.good(holes),
        piece == (Piece {
            text: "trade_meta_compiler :: RuntimeValue"@,
            tokens: value_type(),
        }),
{
    reveal_strlit("trade_meta_compiler");
    reveal_strlit("::");
    reveal_strlit("RuntimeValue");
    reveal_strlit("trade_meta_compiler :: RuntimeValue");
    let p1 = Piece::of_word("trade_meta_compiler"@, holes);
    let p2 = p1.then_marks("::"@, holes);
    let p3 = p2.then_word("RuntimeValue"@, holes);
    assert(p3.tokens =~= seq![
        Tok::Ident("trade_meta_compiler"@),
        Tok::Punct(':', true),
        Tok::Punct(':', false),
        Tok::Ident("RuntimeValue"@),
    ]);
    assert("trade_meta_compiler :: RuntimeValue"@ =~= p3.text);
    p3
}

/// `trade_meta_compiler :: TypeSpec`
pub open spec fn description_type() -> Seq<Tok> {
    seq![
        Tok::Ident("trade_meta_compiler"@),
        Tok::Punct(':', true),
        Tok::Punct(':', false),
        Tok::Ident("TypeSpec"@),
    ]
}

/// The words of [`description_type`].
pub(crate) proof fn piece_description_type(holes: Seq<Seq<Tok>>) -> (piece: Piece)
    ensures
        piece.good(holes),
        piece == (Piece {
            text: "trade_meta_compiler :: TypeSpec"@,
            tokens: description_type(),
        }),
{
    reveal_strlit("trade_meta_compiler");
    reveal_strlit("::");
    reveal_strlit("TypeSpec");
    reveal_strlit("trade_meta_compiler :: TypeSpec");
    let p1 = Piece::of_word("trade_meta_compiler"@, holes);
    let p2 = p1.then_marks("::"@, holes);
    let p3 = p2.then_word("TypeSpec"@, holes);
    assert(p3.tokens =~= seq![
        Tok::Ident("trade_meta_compiler"@),
        Tok::Punct(':', true),
        Tok::Punct(':', false),
        Tok::Ident("TypeSpec"@),
    ]);
    assert("trade_meta_compiler :: TypeSpec"@ =~= p3.text);
    p3
}

/// What `RUST_FLOAT` stands for.
pub(crate) proof fn spell_rust_float()
    ensures
        rendered(RUST_FLOAT@, seq![]) == seq![Tok::Ident("f64"@)],
{
    reveal_strlit("f64");
    let holes = Seq::<Seq<Tok>>::empty();
    let p1 = Piece::of_word("f64"@, holes);
    lemma_stands_rendered(RUST_FLOAT@, holes, p1.tokens);
}

/// What `RUST_DURATION` stands for.
pub(crate) proof fn spell_rust_duration()
    ensures
        rendered(RUST_DURATION@, seq![]) == seq![Tok::Ident("u64"@)],
{
    reveal_strlit("u64");
    let holes = Seq::<Seq<Tok>>::empty();
    let p1 = Piece::of_word("u64"@, holes);
    lemma_stands_rendered(RUST_DURATION@, holes, p1.tokens);
}

/// What `RUST_STRING` stands for.
pub(crate) proof fn spell_rust_string()
    ensures
        rendered(RUST_STRING@, seq![]) == string_type(),
{
    reveal_strlit(":: std :: string :: String");
    let holes = Seq::<Seq<Tok>>::empty();
    let p1 = piece_string_type(holes);
    lemma_stands_rendered(RUST_STRING@, holes, p1.tokens);
}

/// What `RUST_BOOL` stands for.
pub(crate) proof fn spell_rust_bool()
    ensures
        rendered(RUST_BOOL@, seq![]) == seq![Tok::Ident("bool"@)],
{
    reveal_strlit("bool");
    let holes = Seq::<Seq<Tok>>::empty();
    let p1 = Piece::of_word("bool"@, holes);
    lemma_stands_rendered(RUST_BOOL@, holes, p1.tokens);
}

/// What `RUST_VALUE` stands for.
pub(crate) proof fn spell_rust_value()
    ensures
        rendered(RUST_VALUE@, seq![]) == value_type(),
{
    reveal_strlit("trade_meta_compiler :: RuntimeValue");
    let holes = Seq::<Seq<Tok>>::empty();
    let p1 = piece_value_type(holes);
    lemma_stands_rendered(RUST_VALUE@, holes, p1.tokens);
}

/// What `RUST_LIST` stands for.
pub(crate) proof fn spell_rust_list(a: Seq<Tok>)
    ensures
        rendered(RUST_LIST@, seq![a]) == seq![
            Tok::Punct(':', true),
            Tok::Punct(':', false),
            Tok::Ident("std"@),
            Tok::Punct(':', true),
            Tok::Punct(':', false),
            Tok::Ident("vec"@),
            Tok::Punct(':', true),
            Tok::Punct(':', false),
            Tok::Ident("Vec"@),
            Tok::Punct('<', false),
        ] + a
            + seq![Tok::Punct('>', false)],
{
    reveal_strlit("::");
    reveal_strlit("std");
    reveal_strlit("vec");
    reveal_strlit("Vec");
    reveal_strlit("<");
    reveal_strlit(":: std :: vec :: Vec <");
    reveal_strlit("#a");
    reveal_strlit(">");
    reveal_strlit(":: std :: vec :: Vec < #a >");
    let holes = seq![a];
    let p1 = Piece::of_marks("::"@, holes);
    let p2 = p1.then_word("std"@, holes);
    let p3 = p2.then_marks("::"@, holes);
    let p4 = p3.then_word("vec"@, holes);
    let p5 = p4.then_marks("::"@, holes);
    let p6 = p5.then_word("Vec"@, holes);
    let p7 = p6.then_mark("<"@, holes);
    assert(p7.tokens =~= seq![
        Tok::Punct(':', true),
        Tok::Punct(':', false),
        Tok::Ident("std"@),
        Tok::Punct(':', true),
        Tok::Punct(':', false),
        Tok::Ident("vec"@),
        Tok::Punct(':', true),
        Tok::Punct(':', false),
        Tok::Ident("Vec"@),
        Tok::Punct('<', false),
    ]);
    let p8 = p7.as_text(":: std :: vec :: Vec <"@, holes);
    let p9 = Piece::of_hole("#a"@, holes, 0);
    let p10 = p8.then_piece(p9, holes);
    let p11 = Piece::of_mark(">"@, holes);
    let p12 = p10.then_piece(p11, holes);
    let p13 = p12.as_text(":: std :: vec :: Vec < #a >"@, holes);
    assert(RUST_LIST@ =~= p13.text);
    lemma_stands_rendered(RUST_LIST@, holes, p13.tokens);
}

/// What `RUST_TUPLE` stands for.
pub(crate) proof fn spell_rust_tuple(a: Seq<Tok>)
    ensures
        rendered(RUST_TUPLE@, seq![a]) == seq![Tok::Group(Delim::Parenthesis, a)],
{
    reveal_strlit("#a");
    reveal_strlit("( #a )");
    let holes = seq![a];
    let p2 = Piece::of_hole("#a"@, holes, 0);
    let p1 = p2.in_round(holes);
    assert(RUST_TUPLE@ =~= p1.text);
    lemma_stands_rendered(RUST_TUPLE@, holes, p1.tokens);
}

/// What `SPEC_PRICE` stands for.
pub(crate) proof fn spell_spec_price()
    ensures
        rendered(SPEC_PRICE@, seq![]) == description_type()
            + seq![Tok::Punct(':', true), Tok::Punct(':', false), Tok::Ident("Price"@)],
{
    reveal_strlit("trade_meta_compiler :: TypeSpec");
    reveal_strlit("::");
    reveal_strlit("Price");
    reveal_strlit("trade_meta_compiler :: TypeSpec :: Price");
    let holes = Seq::<Seq<Tok>>::empty();
    let p1 = piece_description_type(holes);
    let p2 = Piece::of_marks("::"@, holes);
    let p3 = p2.then_word("Price"@, holes);
    assert(p3.tokens =~= seq![Tok::Punct(':', true), Tok::Punct(':', false), Tok::Ident("Price"@)]);
    let p4 = p1.then_piece(p3, holes);
    assert(SPEC_PRICE@ =~= p4.text);
    lemma_stands_rendered(SPEC_PRICE@, holes, p4.tokens);
}

/// What `SPEC_AMOUNT` stands for.
pub(crate) proof fn spell_spec_amount()
    ensures
        rendered(SPEC_AMOUNT@, seq![]) == description_type()
            + seq![Tok::Punct(':', true), Tok::Punct(':', false), Tok::Ident("Amount"@)],
{
    reveal_strlit("trade_meta_compiler :: TypeSpec");
    reveal_strlit("::");
    reveal_strlit("Amount");
    reveal_strlit("trade_meta_compiler :: TypeSpec :: Amount");
    let holes = Seq::<Seq<Tok>>::empty();
    let p1 = piece_description_type(holes);
    let p2 = Piece::of_marks("::"@, holes);
    let p3 = p2.then_word("Amount"@, holes);
    assert(p3.tokens =~= seq![Tok::Punct(':', true), Tok::Punct(':', false), Tok::Ident("Amount"@)]);
    let p4 = p1.then_piece(p3, holes);
    assert(SPEC_AMOUNT@ =~= p4.text);
    lemma_stands_rendered(SPEC_AMOUNT@, holes, p4.tokens);
}

/// What `SPEC_DURATION` stands for.
pub(crate) proof fn spell_spec_duration()
    ensures
        rendered(SPEC_DURATION@, seq![]) == description_type()
            + seq![Tok::Punct(':', true), Tok::Punct(':', false), Tok::Ident("Duration"@)],
{
    reveal_strlit("trade_meta_compiler :: TypeSpec");
    reveal_strlit("::");
    reveal_strlit("Duration");
    reveal_strlit("trade_meta_compiler :: TypeSpec :: Duration");
    let holes = Seq::<Seq<Tok>>::empty();
    let p1 = piece_description_type(holes);
    let p2 = Piece::of_marks("::"@, holes);
    let p3 = p2.then_word("Duration"@, holes);
    assert(p3.tokens =~= seq![
        Tok::Punct(':', true),
        Tok::Punct(':', false),
        Tok::Ident("Duration"@),
    ]);
    let p4 = p1.then_piece(p3, holes);
    assert(SPEC_DURATION@ =~= p4.text);
    lemma_stands_rendered(SPEC_DURATION@, holes, p4.tokens);
}

/// What `SPEC_TIMEPOINT` stands for.
pub(crate) proof fn spell_spec_timepoint()
    ensures
        rendered(SPEC_TIMEPOINT@, seq![]) == description_type()
            + seq![Tok::Punct(':', true), Tok::Punct(':', false), Tok::Ident("TimePoint"@)],
{
    reveal_strlit("trade_meta_compiler :: TypeSpec");
    reveal_strlit("::");
    reveal_strlit("TimePoint");
    reveal_strlit("trade_meta_compiler :: TypeSpec :: TimePoint");
    let holes = Seq::<Seq<Tok>>::empty();
    let p1 = piece_description_type(holes);
    let p2 = Piece::of_marks("::"@, holes);
    let p3 = p2.then_word("TimePoint"@, holes);
    assert(p3.tokens =~= seq![
        Tok::Punct(':', true),
        Tok::Punct(':', false),
        Tok::Ident("TimePoint"@),
    ]);
    let p4 = p1.then_piece(p3, holes);
    assert(SPEC_TIMEPOINT@ =~= p4.text);
    lemma_stands_rendered(SPEC_TIMEPOINT@, holes, p4.tokens);
}

/// What `SPEC_PERCENT` stands for.
pub(crate) proof fn spell_spec_percent()
    ensures
        rendered(SPEC_PERCENT@, seq![]) == description_type()
            + seq![Tok::Punct(':', true), Tok::Punct(':', false), Tok::Ident("Percent"@)],
{
    reveal_strlit("trade_meta_compiler :: TypeSpec");
    reveal_strlit("::");
    reveal_strlit("Percent");
    reveal_strlit("trade_meta_compiler :: TypeSpec :: Percent");
    let holes = Seq::<Seq<Tok>>::empty();
    let p1 = piece_description_type(holes);
    let p2 = Piece::of_marks("::"@, holes);
    let p3 = p2.then_word("Percent"@, holes);
    assert(p3.tokens =~= seq![Tok::Punct(':', true), Tok::Punct(':', false), Tok::Ident("Percent"@)]);
    let p4 = p1.then_piece(p3, holes);
    assert(SPEC_PERCENT@ =~= p4.text);
    lemma_stands_rendered(SPEC_PERCENT@, holes, p4.tokens);
}

/// What `SPEC_COUNT` stands for.
pub(crate) proof fn spell_spec_count()
    ensures
        rendered(SPEC_COUNT@, seq![]) == description_type()
            + seq![Tok::Punct(':', true), Tok::Punct(':', false), Tok::Ident("Count"@)],
{
    reveal_strlit("trade_meta_compiler :: TypeSpec");
    reveal_strlit("::");
    reveal_strlit("Count");
    reveal_strlit("trade_meta_compiler :: TypeSpec :: Count");
    let holes = Seq::<Seq<Tok>>::empty();
    let p1 = piece_description_type(holes);
    let p2 = Piece::of_marks("::"@, holes);
    let p3 = p2.then_word("Count"@, holes);
    assert(p3.tokens =~= seq![Tok::Punct(':', true), Tok::Punct(':', false), Tok::Ident("Count"@)]);
    let p4 = p1.then_piece(p3, holes);
    assert(SPEC_COUNT@ =~= p4.text);
    lemma_stands_rendered(SPEC_COUNT@, holes, p4.tokens);
}

/// What `SPEC_NUMBER` stands for.
pub(crate) proof fn spell_spec_number()
    ensures
        rendered(SPEC_NUMBER@, seq![]) == description_type()
            + seq![Tok::Punct(':', true), Tok::Punct(':', false), Tok::Ident("Number"@)],
{
    reveal_strlit("trade_meta_compiler :: TypeSpec");
    reveal_strlit("::");
    reveal_strlit("Number");
    reveal_strlit("trade_meta_compiler :: TypeSpec :: Number");
    let holes = Seq::<Seq<Tok>>::empty();
    let p1 = piece_description_type(holes);
    let p2 = Piece::of_marks("::"@, holes);
    let p3 = p2.then_word("Number"@, holes);
    assert(p3.tokens =~= seq![Tok::Punct(':', true), Tok::Punct(':', false), Tok::Ident("Number"@)]);
    let p4 = p1.then_piece(p3, holes);
    assert(SPEC_NUMBER@ =~= p4.text);
    lemma_stands_rendered(SPEC_NUMBER@, holes, p4.tokens);
}

/// What `SPEC_STRING` stands for.
pub(crate) proof fn spell_spec_string()
    ensures
        rendered(SPEC_STRING@, seq![]) == description_type()
            + seq![Tok::Punct(':', true), Tok::Punct(':', false), Tok::Ident("String"@)],
{
    reveal_strlit("trade_meta_compiler :: TypeSpec");
    reveal_strlit("::");
    reveal_strlit("String");
    reveal_strlit("trade_meta_compiler :: TypeSpec :: String");
    let holes = Seq::<Seq<Tok>>::empty();
    let p1 = piece_description_type(holes);
    let p2 = Piece::of_marks("::"@, holes);
    let p3 = p2.then_word("String"@, holes);
    assert(p3.tokens =~= seq![Tok::Punct(':', true), Tok::Punct(':', false), Tok::Ident("String"@)]);
    let p4 = p1.then_piece(p3, holes);
    assert(SPEC_STRING@ =~= p4.text);
    lemma_stands_rendered(SPEC_STRING@, holes, p4.tokens);
}

/// What `SPEC_BOOL` stands for.
pub(crate) proof fn spell_spec_bool()
    ensures
        rendered(SPEC_BOOL@, seq![]) == description_type()
            + seq![Tok::Punct(':', true), Tok::Punct(':', false), Tok::Ident("Bool"@)],
{
    reveal_strlit("trade_meta_compiler :: TypeSpec");
    reveal_strlit("::");
    reveal_strlit("Bool");
    reveal_strlit("trade_meta_compiler :: TypeSpec :: Bool");
    let holes = Seq::<Seq<Tok>>::empty();
    let p1 = piece_description_type(holes);
    let p2 = Piece::of_marks("::"@, holes);
    let p3 = p2.then_word("Bool"@, holes);
    assert(p3.tokens =~= seq![Tok::Punct(':', true), Tok::Punct(':', false), Tok::Ident("Bool"@)]);
    let p4 = p1.then_piece(p3, holes);
    assert(SPEC_BOOL@ =~= p4.text);
    lemma_stands_rendered(SPEC_BOOL@, holes, p4.tokens);
}

/// What `SPEC_ADDRESS` stands for.
pub(crate) proof fn spell_spec_address()
    ensures
        rendered(SPEC_ADDRESS@, seq![]) == description_type()
            + seq![Tok::Punct(':', true), Tok::Punct(':', false), Tok::Ident("Address"@)],
{
    reveal_strlit("trade_meta_compiler :: TypeSpec");
    reveal_strlit("::");
    reveal_strlit("Address");
    reveal_strlit("trade_meta_compiler :: TypeSpec :: Address");
    let holes = Seq::<Seq<Tok>>::empty();
    let p1 = piece_description_type(holes);
    let p2 = Piece::of_marks("::"@, holes);
    let p3 = p2.then_word("Address"@, holes);
    assert(p3.tokens =~= seq![Tok::Punct(':', true), Tok::Punct(':', false), Tok::Ident("Address"@)]);
    let p4 = p1.then_piece(p3, holes);
    assert(SPEC_ADDRESS@ =~= p4.text);
    lemma_stands_rendered(SPEC_ADDRESS@, holes, p4.tokens);
}

/// What `SPEC_ANY` stands for.
pub(crate) proof fn spell_spec_any()
    ensures
        rendered(SPEC_ANY@, seq![]) == description_type()
            + seq![Tok::Punct(':', true), Tok::Punct(':', false), Tok::Ident("Any"@)],
{
    reveal_strlit("trade_meta_compiler :: TypeSpec");
    reveal_strlit("::");
    reveal_strlit("Any");
    reveal_strlit("trade_meta_compiler :: TypeSpec :: Any");
    let holes = Seq::<Seq<Tok>>::empty();
    let p1 = piece_description_type(holes);
    let p2 = Piece::of_marks("::"@, holes);
    let p3 = p2.then_word("Any"@, holes);
    assert(p3.tokens =~= seq![Tok::Punct(':', true), Tok::Punct(':', false), Tok::Ident("Any"@)]);
    let p4 = p1.then_piece(p3, holes);
    assert(SPEC_ANY@ =~= p4.text);
    lemma_stands_rendered(SPEC_ANY@, holes, p4.tokens);
}

/// What `SPEC_LIST` stands for.
pub(crate) proof fn spell_spec_list(a: Seq<Tok>)
    ensures
        rendered(SPEC_LIST@, seq![a]) == description_type()
            + seq![Tok::Punct(':', true), Tok::Punct(':', false), Tok::Ident("List"@)]
            + seq![
                Tok::Group(
                    Delim::Parenthesis,
                    seq![
                        Tok::Ident("Box"@),
                        Tok::Punct(':', true),
                        Tok::Punct(':', false),
                        Tok::Ident("new"@),
                    ] + seq![Tok::Group(Delim::Parenthesis, a)],
                ),
            ],
{
    reveal_strlit("trade_meta_compiler :: TypeSpec");
    reveal_strlit("::");
    reveal_strlit("List");
    reveal_strlit("Box");
    reveal_strlit("new");
    reveal_strlit("#a");
    reveal_strlit("trade_meta_compiler :: TypeSpec :: List ( Box :: new ( #a ) )");
    let holes = seq![a];
    let p1 = piece_description_type(holes);
    let p2 = Piece::of_marks("::"@, holes);
    let p3 = p2.then_word("List"@, holes);
    assert(p3.tokens =~= seq![Tok::Punct(':', true), Tok::Punct(':', false), Tok::Ident("List"@)]);
    let p4 = p1.then_piece(p3, holes);
    let p6 = Piece::of_word("Box"@, holes);
    let p7 = p6.then_marks("::"@, holes);
    let p8 = p7.then_word("new"@, holes);
    assert(p8.tokens =~= seq![
        Tok::Ident("Box"@),
        Tok::Punct(':', true),
        Tok::Punct(':', false),
        Tok::Ident("new"@),
    ]);
    let p10 = Piece::of_hole("#a"@, holes, 0);
    let p9 = p10.in_round(holes);
    let p11 = p8.then_piece(p9, holes);
    let p5 = p11.in_round(holes);
    let p12 = p4.then_piece(p5, holes);
    let p13 = p12.as_text("trade_meta_compiler :: TypeSpec :: List ( Box :: new ( #a ) )"@, holes);
    assert(SPEC_LIST@ =~= p13.text);
    lemma_stands_rendered(SPEC_LIST@, holes, p13.tokens);
}

/// What `SPEC_TUPLE` stands for.
pub(crate) proof fn spell_spec_tuple(a: Seq<Tok>)
    ensures
        rendered(SPEC_TUPLE@, seq![a]) == description_type()
            + seq![Tok::Punct(':', true), Tok::Punct(':', false), Tok::Ident("Tuple"@)]
            + seq![
                Tok::Group(
                    Delim::Parenthesis,
                    seq![Tok::Ident("vec"@), Tok::Punct('!', false)]
                        + seq![Tok::Group(Delim::Bracket, a)],
                ),
            ],
{
    reveal_strlit("trade_meta_compiler :: TypeSpec");
    reveal_strlit("::");
    reveal_strlit("Tuple");
    reveal_strlit("vec");
    reveal_strlit("!");
    reveal_strlit("#a");
    reveal_strlit("trade_meta_compiler :: TypeSpec :: Tuple ( vec ! [ #a ] )");
    let holes = seq![a];
    let p1 = piece_description_type(holes);
    let p2 = Piece::of_marks("::"@, holes);
    let p3 = p2.then_word("Tuple"@, holes);
    assert(p3.tokens =~= seq![Tok::Punct(':', true), Tok::Punct(':', false), Tok::Ident("Tuple"@)]);
    let p4 = p1.then_piece(p3, holes);
    let p6 = Piece::of_word("vec"@, holes);
    let p7 = p6.then_mark("!"@, holes);
    assert(p7.tokens =~= seq![Tok::Ident("vec"@), Tok::Punct('!', false)]);
    let p9 = Piece::of_hole("#a"@, holes, 0);
    let p8 = p9.in_square(holes);
    let p10 = p7.then_piece(p8, holes);
    let p5 = p10.in_round(holes);
    let p11 = p4.then_piece(p5, holes);
    let p12 = p11.as_text("trade_meta_compiler :: TypeSpec :: Tuple ( vec ! [ #a ] )"@, holes);
    assert(SPEC_TUPLE@ =~= p12.text);
    lemma_stands_rendered(SPEC_TUPLE@, holes, p12.tokens);
}

/// What `EXTRACT_FLOAT` stands for.
pub(crate) proof fn spell_extract_float(a: Seq<Tok>)
    ensures
        rendered(EXTRACT_FLOAT@, seq![a]) == a
            + seq![
                Tok::Punct('.', false),
                Tok::Ident("as_f64"@),
                Tok::Group(Delim::Parenthesis, Seq::<Tok>::empty()),
            ],
{
    reveal_strlit("#a");
    reveal_strlit(".");
    reveal_strlit("as_f64");
    reveal_strlit("#a . as_f64 ( )");
    let holes = seq![a];
    let p1 = Piece::of_hole("#a"@, holes, 0);
    let p2 = Piece::of_mark("."@, holes);
    let p3 = p2.then_word("as_f64"@, holes);
    let p4 = Piece::empty_round(holes);
    let p5 = p3.then_piece(p4, holes);
    assert(p5.tokens =~= seq![
        Tok::Punct('.', false),
        Tok::Ident("as_f64"@),
        Tok::Group(Delim::Parenthesis, Seq::<Tok>::empty()),
    ]);
    let p6 = p1.then_piece(p5, holes);
    assert(EXTRACT_FLOAT@ =~= p6.text);
    lemma_stands_rendered(EXTRACT_FLOAT@, holes, p6.tokens);
}

/// What `EXTRACT_DURATION` stands for.
pub(crate) proof fn spell_extract_duration(a: Seq<Tok>)
    ensures
        rendered(EXTRACT_DURATION@, seq![a]) == a
            + seq![
                Tok::Punct('.', false),
                Tok::Ident("as_f64"@),
                Tok::Group(Delim::Parenthesis, Seq::<Tok>::empty()),
                Tok::Ident("as"@),
                Tok::Ident("u64"@),
            ],
{
    reveal_strlit("#a");
    reveal_strlit(".");
    reveal_strlit("as_f64");
    reveal_strlit("as");
    reveal_strlit("u64");
    reveal_strlit(". as_f64 ( ) as u64");
    reveal_strlit("#a . as_f64 ( ) as u64");
    let holes = seq![a];
    let p1 = Piece::of_hole("#a"@, holes, 0);
    let p2 = Piece::of_mark("."@, holes);
    let p3 = p2.then_word("as_f64"@, holes);
    let p4 = Piece::empty_round(holes);
    let p5 = p3.then_piece(p4, holes);
    let p6 = p5.then_word("as"@, holes);
    let p7 = p6.then_word("u64"@, holes);
    assert(p7.tokens =~= seq![
        Tok::Punct('.', false),
        Tok::Ident("as_f64"@),
        Tok::Group(Delim::Parenthesis, Seq::<Tok>::empty()),
        Tok::Ident("as"@),
        Tok::Ident("u64"@),
    ]);
    let p8 = p7.as_text(". as_f64 ( ) as u64"@, holes);
    let p9 = p1.then_piece(p8, holes);
    assert(EXTRACT_DURATION@ =~= p9.text);
    lemma_stands_rendered(EXTRACT_DURATION@, holes, p9.tokens);
}

/// What `EXTRACT_STRING` stands for.
pub(crate) proof fn spell_extract_string(a: Seq<Tok>)
    ensures
        rendered(EXTRACT_STRING@, seq![a]) == seq![
            Tok::Group(
                Delim::Brace,
                seq![Tok::Ident("match"@)] + a
                    + seq![
                        Tok::Group(
                            Delim::Brace,
                            value_type()
                                + seq![
                                    Tok::Punct(':', true),
                                    Tok::Punct(':', false),
                                    Tok::Ident("Str"@),
                                    Tok::Group(Delim::Parenthesis, seq![Tok::Ident("s"@)]),
                                    Tok::Punct('=', true),
                                    Tok::Punct('>', false),
                                    Tok::Ident("s"@),
                                    Tok::Punct('.', false),
                                    Tok::Ident("clone"@),
                                    Tok::Group(Delim::Parenthesis, Seq::<Tok>::empty()),
                                    Tok::Punct(',', false),
                                    Tok::Ident("_"@),
                                    Tok::Punct('=', true),
                                    Tok::Punct('>', false),
                                ] + string_type()
                                + seq![
                                    Tok::Punct(':', true),
                                    Tok::Punct(':', false),
                                    Tok::Ident("new"@),
                                    Tok::Group(Delim::Parenthesis, Seq::<Tok>::empty()),
                                    Tok::Punct(',', false),
                                ],
                        ),
                    ],
            ),
        ],
{
    reveal_strlit("match");
    reveal_strlit("#a");
    reveal_strlit("trade_meta_compiler :: RuntimeValue");
    reveal_strlit("::");
    reveal_strlit("Str");
    reveal_strlit("s");
    reveal_strlit("=>");
    reveal_strlit(".");
    reveal_strlit("clone");
    reveal_strlit(",");
    reveal_strlit("_");
    reveal_strlit(":: Str ( s ) => s . clone ( ) , _ =>");
    reveal_strlit(":: std :: string :: String");
    reveal_strlit("new");
    reveal_strlit(":: new ( ) ,");
    reveal_strlit(
        "trade_meta_compiler :: RuntimeValue :: Str ( s ) => s . clone ( ) , _ => :: std :: string :: String :: new ( ) ,",
    );
    reveal_strlit(
        "match #a { trade_meta_compiler :: RuntimeValue :: Str ( s ) => s . clone ( ) , _ => :: std :: string :: String :: new ( ) , }",
    );
    reveal_strlit(
        "{ match #a { trade_meta_compiler :: RuntimeValue :: Str ( s ) => s . clone ( ) , _ => :: std :: string :: String :: new ( ) , } }",
    );
    let holes = seq![a];
    let p2 = Piece::of_word("match"@, holes);
    let p3 = Piece::of_hole("#a"@, holes, 0);
    let p4 = p2.then_piece(p3, holes);
    let p6 = piece_value_type(holes);
    let p7 = Piece::of_marks("::"@, holes);
    let p8 = p7.then_word("Str"@, holes);
    let p10 = Piece::of_word("s"@, holes);
    let p9 = p10.in_round(holes);
    let p11 = p8.then_piece(p9, holes);
    let p12 = p11.then_marks("=>"@, holes);
    let p13 = p12.then_word("s"@, holes);
    let p14 = p13.then_mark("."@, holes);
    let p15 = p14.then_word("clone"@, holes);
    let p16 = Piece::empty_round(holes);
    let p17 = p15.then_piece(p16, holes);
    let p18 = p17.then_mark(","@, holes);
    let p19 = p18.then_word("_"@, holes);
    let p20 = p19.then_marks("=>"@, holes);
    assert(p20.tokens =~= seq![
        Tok::Punct(':', true),
        Tok::Punct(':', false),
        Tok::Ident("Str"@),
        Tok::Group(Delim::Parenthesis, seq![Tok::Ident("s"@)]),
        Tok::Punct('=', true),
        Tok::Punct('>', false),
        Tok::Ident("s"@),
        Tok::Punct('.', false),
        Tok::Ident("clone"@),
        Tok::Group(Delim::Parenthesis, Seq::<Tok>::empty()),
        Tok::Punct(',', false),
        Tok::Ident("_"@),
        Tok::Punct('=', true),
        Tok::Punct('>', false),
    ]);
    let p21 = p20.as_text(":: Str ( s ) => s . clone ( ) , _ =>"@, holes);
    let p22 = p6.then_piece(p21, holes);
    let p23 = piece_string_type(holes);
    let p24 = p22.then_piece(p23, holes);
    let p25 = Piece::of_marks("::"@, holes);
    let p26 = p25.then_word("new"@, holes);
    let p27 = Piece::empty_round(holes);
    let p28 = p26.then_piece(p27, holes);
    let p29 = p28.then_mark(","@, holes);
    assert(p29.tokens =~= seq![
        Tok::Punct(':', true),
        Tok::Punct(':', false),
        Tok::Ident("new"@),
        Tok::Group(Delim::Parenthesis, Seq::<Tok>::empty()),
        Tok::Punct(',', false),
    ]);
    let p30 = p29.as_text(":: new ( ) ,"@, holes);
    let p31 = p24.then_piece(p30, holes);
    let p32 = p31.as_text("trade_meta_compiler :: RuntimeValue :: Str ( s ) => s . clone ( ) , _ => :: std :: string :: String :: new ( ) ,"@, holes);
    let p5 = p32.in_curly(holes);
    let p33 = p4.then_piece(p5, holes);
    let p34 = p33.as_text("match #a { trade_meta_compiler :: RuntimeValue :: Str ( s ) => s . clone ( ) , _ => :: std :: string :: String :: new ( ) , }"@, holes);
    let p1 = p34.in_curly(holes);
    assert(EXTRACT_STRING@ =~= p1.text);
    lemma_stands_rendered(EXTRACT_STRING@, holes, p1.tokens);
}

/// What `EXTRACT_BOOL` stands for.
pub(crate) proof fn spell_extract_bool(a: Seq<Tok>)
    ensures
        rendered(EXTRACT_BOOL@, seq![a]) == seq![
            Tok::Group(
                Delim::Brace,
                seq![Tok::Ident("match"@)] + a
                    + seq![
                        Tok::Group(
                            Delim::Brace,
                            value_type()
                                + seq![
                                    Tok::Punct(':', true),
                                    Tok::Punct(':', false),
                                    Tok::Ident("Bool"@),
                                    Tok::Group(Delim::Parenthesis, seq![Tok::Ident("b"@)]),
                                    Tok::Punct('=', true),
                                    Tok::Punct('>', false),
                                    Tok::Punct('*', false),
                                    Tok::Ident("b"@),
                                    Tok::Punct(',', false),
                                    Tok::Ident("_"@),
                                    Tok::Punct('=', true),
                                    Tok::Punct('>', false),
                                    Tok::Ident("false"@),
                                    Tok::Punct(',', false),
                                ],
                        ),
                    ],
            ),
        ],
{
    reveal_strlit("match");
    reveal_strlit("#a");
    reveal_strlit("trade_meta_compiler :: RuntimeValue");
    reveal_strlit("::");
    reveal_strlit("Bool");
    reveal_strlit("b");
    reveal_strlit("=>");
    reveal_strlit("*");
    reveal_strlit(",");
    reveal_strlit("_");
    reveal_strlit("false");
    reveal_strlit(":: Bool ( b ) => * b , _ => false ,");
    reveal_strlit(
        "match #a { trade_meta_compiler :: RuntimeValue :: Bool ( b ) => * b , _ => false , }",
    );
    reveal_strlit(
        "{ match #a { trade_meta_compiler :: RuntimeValue :: Bool ( b ) => * b , _ => false , } }",
    );
    let holes = seq![a];
    let p2 = Piece::of_word("match"@, holes);
    let p3 = Piece::of_hole("#a"@, holes, 0);
    let p4 = p2.then_piece(p3, holes);
    let p6 = piece_value_type(holes);
    let p7 = Piece::of_marks("::"@, holes);
    let p8 = p7.then_word("Bool"@, holes);
    let p10 = Piece::of_word("b"@, holes);
    let p9 = p10.in_round(holes);
    let p11 = p8.then_piece(p9, holes);
    let p12 = p11.then_marks("=>"@, holes);
    let p13 = p12.then_mark("*"@, holes);
    let p14 = p13.then_word("b"@, holes);
    let p15 = p14.then_mark(","@, holes);
    let p16 = p15.then_word("_"@, holes);
    let p17 = p16.then_marks("=>"@, holes);
    let p18 = p17.then_word("false"@, holes);
    let p19 = p18.then_mark(","@, holes);
    assert(p19.tokens =~= seq![
        Tok::Punct(':', true),
        Tok::Punct(':', false),
        Tok::Ident("Bool"@),
        Tok::Group(Delim::Parenthesis, seq![Tok::Ident("b"@)]),
        Tok::Punct('=', true),
        Tok::Punct('>', false),
        Tok::Punct('*', false),
        Tok::Ident("b"@),
        Tok::Punct(',', false),
        Tok::Ident("_"@),
        Tok::Punct('=', true),
        Tok::Punct('>', false),
        Tok::Ident("false"@),
        Tok::Punct(',', false),
    ]);
    let p20 = p19.as_text(":: Bool ( b ) => * b , _ => false ,"@, holes);
    let p21 = p6.then_piece(p20, holes);
    let p5 = p21.in_curly(holes);
    let p22 = p4.then_piece(p5, holes);
    let p23 = p22.as_text("match #a { trade_meta_compiler :: RuntimeValue :: Bool ( b ) => * b , _ => false , }"@, holes);
    let p1 = p23.in_curly(holes);
    assert(EXTRACT_BOOL@ =~= p1.text);
    lemma_stands_rendered(EXTRACT_BOOL@, holes, p1.tokens);
}

/// What `EXTRACT_VALUE` stands for.
pub(crate) proof fn spell_extract_value(a: Seq<Tok>)
    ensures
        rendered(EXTRACT_VALUE@, seq![a]) == a
            + seq![
                Tok::Punct('.', false),
                Tok::Ident("clone"@),
                Tok::Group(Delim::Parenthesis, Seq::<Tok>::empty()),
            ],
{
    reveal_strlit("#a");
    reveal_strlit(".");
    reveal_strlit("clone");
    reveal_strlit("#a . clone ( )");
    let holes = seq![a];
    let p1 = Piece::of_hole("#a"@, holes, 0);
    let p2 = Piece::of_mark("."@, holes);
    let p3 = p2.then_word("clone"@, holes);
    let p4 = Piece::empty_round(holes);
    let p5 = p3.then_piece(p4, holes);
    assert(p5.tokens =~= seq![
        Tok::Punct('.', false),
        Tok::Ident("clone"@),
        Tok::Group(Delim::Parenthesis, Seq::<Tok>::empty()),
    ]);
    let p6 = p1.then_piece(p5, holes);
    assert(EXTRACT_VALUE@ =~= p6.text);
    lemma_stands_rendered(EXTRACT_VALUE@, holes, p6.tokens);
}

/// What `ITEM` stands for.
pub(crate) proof fn spell_item()
    ensures
        rendered(ITEM@, seq![]) == seq![Tok::Ident("__item"@)],
{
    reveal_strlit("__item");
    let holes = Seq::<Seq<Tok>>::empty();
    let p1 = Piece::of_word("__item"@, holes);
    lemma_stands_rendered(ITEM@, holes, p1.tokens);
}

/// What `EXTRACT_LIST` stands for.
pub(crate) proof fn spell_extract_list(a: Seq<Tok>, b: Seq<Tok>)
    ensures
        rendered(EXTRACT_LIST@, seq![a, b]) == seq![
            Tok::Group(
                Delim::Brace,
                seq![Tok::Ident("match"@)] + a
                    + seq![
                        Tok::Group(
                            Delim::Brace,
                            value_type()
                                + seq![
                                    Tok::Punct(':', true),
                                    Tok::Punct(':', false),
                                    Tok::Ident("List"@),
                                    Tok::Group(Delim::Parenthesis, seq![Tok::Ident("items"@)]),
                                    Tok::Punct('=', true),
                                    Tok::Punct('>', false),
                                ] + seq![
                                Tok::Group(
                                    Delim::Brace,
                                    seq![
                                        Tok::Ident("items"@),
                                        Tok::Punct('.', false),
                                        Tok::Ident("iter"@),
                                        Tok::Group(Delim::Parenthesis, Seq::<Tok>::empty()),
                                        Tok::Punct('.', false),
                                        Tok::Ident("map"@),
                                    ] + seq![
                                        Tok::Group(
                                            Delim::Parenthesis,
                                            seq![
                                                Tok::Punct('|', false),
                                                Tok::Ident("__item"@),
                                                Tok::Punct('|', false),
                                            ] + b,
                                        ),
                                    ] + seq![
                                        Tok::Punct('.', false),
                                        Tok::Ident("collect"@),
                                        Tok::Group(Delim::Parenthesis, Seq::<Tok>::empty()),
                                    ],
                                ),
                            ] + seq![
                                Tok::Ident("_"@),
                                Tok::Punct('=', true),
                                Tok::Punct('>', false),
                                Tok::Punct(':', true),
                                Tok::Punct(':', false),
                                Tok::Ident("std"@),
                                Tok::Punct(':', true),
                                Tok::Punct(':', false),
                                Tok::Ident("vec"@),
                                Tok::Punct(':', true),
                                Tok::Punct(':', false),
                                Tok::Ident("Vec"@),
                                Tok::Punct(':', true),
                                Tok::Punct(':', false),
                                Tok::Ident("new"@),
                                Tok::Group(Delim::Parenthesis, Seq::<Tok>::empty()),
                                Tok::Punct(',', false),
                            ],
                        ),
                    ],
            ),
        ],
{
    reveal_strlit("match");
    reveal_strlit("#a");
    reveal_strlit("trade_meta_compiler :: RuntimeValue");
    reveal_strlit("::");
    reveal_strlit("List");
    reveal_strlit("items");
    reveal_strlit("=>");
    reveal_strlit(":: List ( items ) =>");
    reveal_strlit(".");
    reveal_strlit("iter");
    reveal_strlit("map");
    reveal_strlit("items . iter ( ) . map");
    reveal_strlit("|");
    reveal_strlit("__item");
    reveal_strlit("#b");
    reveal_strlit("collect");
    reveal_strlit("items . iter ( ) . map ( | __item | #b ) . collect ( )");
    reveal_strlit("_");
    reveal_strlit("std");
    reveal_strlit("vec");
    reveal_strlit("Vec");
    reveal_strlit("new");
    reveal_strlit(",");
    reveal_strlit("_ => :: std :: vec :: Vec :: new ( ) ,");
    reveal_strlit(
        "trade_meta_compiler :: RuntimeValue :: List ( items ) => { items . iter ( ) . map ( | __item | #b ) . collect ( ) } _ => :: std :: vec :: Vec :: new ( ) ,",
    );
    reveal_strlit(
        "match #a { trade_meta_compiler :: RuntimeValue :: List ( items ) => { items . iter ( ) . map ( | __item | #b ) . collect ( ) } _ => :: std :: vec :: Vec :: new ( ) , }",
    );
    reveal_strlit(
        "{ match #a { trade_meta_compiler :: RuntimeValue :: List ( items ) => { items . iter ( ) . map ( | __item | #b ) . collect ( ) } _ => :: std :: vec :: Vec :: new ( ) , } }",
    );
    let holes = seq![a, b];
    let p2 = Piece::of_word("match"@, holes);
    let p3 = Piece::of_hole("#a"@, holes, 0);
    let p4 = p2.then_piece(p3, holes);
    let p6 = piece_value_type(holes);
    let p7 = Piece::of_marks("::"@, holes);
    let p8 = p7.then_word("List"@, holes);
    let p10 = Piece::of_word("items"@, holes);
    let p9 = p10.in_round(holes);
    let p11 = p8.then_piece(p9, holes);
    let p12 = p11.then_marks("=>"@, holes);
    assert(p12.tokens =~= seq![
        Tok::Punct(':', true),
        Tok::Punct(':', false),
        Tok::Ident("List"@),
        Tok::Group(Delim::Parenthesis, seq![Tok::Ident("items"@)]),
        Tok::Punct('=', true),
        Tok::Punct('>', false),
    ]);
    let p13 = p12.as_text(":: List ( items ) =>"@, holes);
    let p14 = p6.then_piece(p13, holes);
    let p16 = Piece::of_word("items"@, holes);
    let p17 = p16.then_mark("."@, holes);
    let p18 = p17.then_word("iter"@, holes);
    let p19 = Piece::empty_round(holes);
    let p20 = p18.then_piece(p19, holes);
    let p21 = p20.then_mark("."@, holes);
    let p22 = p21.then_word("map"@, holes);
    assert(p22.tokens =~= seq![
        Tok::Ident("items"@),
        Tok::Punct('.', false),
        Tok::Ident("iter"@),
        Tok::Group(Delim::Parenthesis, Seq::<Tok>::empty()),
        Tok::Punct('.', false),
        Tok::Ident("map"@),
    ]);
    let p23 = p22.as_text("items . iter ( ) . map"@, holes);
    let p25 = Piece::of_mark("|"@, holes);
    let p26 = p25.then_word("__item"@, holes);
    let p27 = p26.then_mark("|"@, holes);
    assert(p27.tokens =~= seq![
        Tok::Punct('|', false),
        Tok::Ident("__item"@),
        Tok::Punct('|', false),
    ]);
    let p28 = Piece::of_hole("#b"@, holes, 1);
    let p29 = p27.then_piece(p28, holes);
    let p24 = p29.in_round(holes);
    let p30 = p23.then_piece(p24, holes);
    let p31 = Piece::of_mark("."@, holes);
    let p32 = p31.then_word("collect"@, holes);
    let p33 = Piece::empty_round(holes);
    let p34 = p32.then_piece(p33, holes);
    assert(p34.tokens =~= seq![
        Tok::Punct('.', false),
        Tok::Ident("collect"@),
        Tok::Group(Delim::Parenthesis, Seq::<Tok>::empty()),
    ]);
    let p35 = p30.then_piece(p34, holes);
    let p36 = p35.as_text("items . iter ( ) . map ( | __item | #b ) . collect ( )"@, holes);
    let p15 = p36.in_curly(holes);
    let p37 = p14.then_piece(p15, holes);
    let p38 = Piece::of_word("_"@, holes);
    let p39 = p38.then_marks("=>"@, holes);
    let p40 = p39.then_marks("::"@, holes);
    let p41 = p40.then_word("std"@, holes);
    let p42 = p41.then_marks("::"@, holes);
    let p43 = p42.then_word("vec"@, holes);
    let p44 = p43.then_marks("::"@, holes);
    let p45 = p44.then_word("Vec"@, holes);
    let p46 = p45.then_marks("::"@, holes);
    let p47 = p46.then_word("new"@, holes);
    let p48 = Piece::empty_round(holes);
    let p49 = p47.then_piece(p48, holes);
    let p50 = p49.then_mark(","@, holes);
    assert(p50.tokens =~= seq![
        Tok::Ident("_"@),
        Tok::Punct('=', true),
        Tok::Punct('>', false),
        Tok::Punct(':', true),
        Tok::Punct(':', false),
        Tok::Ident("std"@),
        Tok::Punct(':', true),
        Tok::Punct(':', false),
        Tok::Ident("vec"@),
        Tok::Punct(':', true),
        Tok::Punct(':', false),
        Tok::Ident("Vec"@),
        Tok::Punct(':', true),
        Tok::Punct(':', false),
        Tok::Ident("new"@),
        Tok::Group(Delim::Parenthesis, Seq::<Tok>::empty()),
        Tok::Punct(',', false),
    ]);
    let p51 = p50.as_text("_ => :: std :: vec :: Vec :: new ( ) ,"@, holes);
    let p52 = p37.then_piece(p51, holes);
    let p53 = p52.as_text("trade_meta_compiler :: RuntimeValue :: List ( items ) => { items . iter ( ) . map ( | __item | #b ) . collect ( ) } _ => :: std :: vec :: Vec :: new ( ) ,"@, holes);
    let p5 = p53.in_curly(holes);
    let p54 = p4.then_piece(p5, holes);
    let p55 = p54.as_text("match #a { trade_meta_compiler :: RuntimeValue :: List ( items ) => { items . iter ( ) . map ( | __item | #b ) . collect ( ) } _ => :: std :: vec :: Vec :: new ( ) , }"@, holes);
    let p1 = p55.in_curly(holes);
    assert(EXTRACT_LIST@ =~= p1.text);
    lemma_stands_rendered(EXTRACT_LIST@, holes, p1.tokens);
}

/// What `TUPLE_ITEM` stands for.
pub(crate) proof fn spell_tuple_item(a: Seq<Tok>)
    ensures
        rendered(TUPLE_ITEM@, seq![a]) == seq![Tok::Ident("__tup_items"@)]
            + seq![Tok::Group(Delim::Bracket, a)],
{
    reveal_strlit("__tup_items");
    reveal_strlit("#a");
    reveal_strlit("__tup_items [ #a ]");
    let holes = seq![a];
    let p1 = Piece::of_word("__tup_items"@, holes);
    let p3 = Piece::of_hole("#a"@, holes, 0);
    let p2 = p3.in_square(holes);
    let p4 = p1.then_piece(p2, holes);
    assert(TUPLE_ITEM@ =~= p4.text);
    lemma_stands_rendered(TUPLE_ITEM@, holes, p4.tokens);
}

/// What `LENT_TUPLE_ITEM` stands for.
pub(crate) proof fn spell_lent_tuple_item(a: Seq<Tok>)
    ensures
        rendered(LENT_TUPLE_ITEM@, seq![a]) == seq![
            Tok::Punct('&', false),
            Tok::Ident("__tup_items"@),
        ] + seq![Tok::Group(Delim::Bracket, a)],
{
    reveal_strlit("&");
    reveal_strlit("__tup_items");
    reveal_strlit("#a");
    reveal_strlit("& __tup_items [ #a ]");
    let holes = seq![a];
    let p1 = Piece::of_mark("&"@, holes);
    let p2 = p1.then_word("__tup_items"@, holes);
    assert(p2.tokens =~= seq![Tok::Punct('&', false), Tok::Ident("__tup_items"@)]);
    let p4 = Piece::of_hole("#a"@, holes, 0);
    let p3 = p4.in_square(holes);
    let p5 = p2.then_piece(p3, holes);
    assert(LENT_TUPLE_ITEM@ =~= p5.text);
    lemma_stands_rendered(LENT_TUPLE_ITEM@, holes, p5.tokens);
}

/// What `EXTRACT_TUPLE` stands for.
pub(crate) proof fn spell_extract_tuple(a: Seq<Tok>, b: Seq<Tok>, c: Seq<Tok>)
    ensures
        rendered(EXTRACT_TUPLE@, seq![a, b, c]) == seq![
            Tok::Group(
                Delim::Brace,
                seq![Tok::Ident("match"@)] + a
                    + seq![
                        Tok::Group(
                            Delim::Brace,
                            value_type()
                                + seq![
                                    Tok::Punct(':', true),
                                    Tok::Punct(':', false),
                                    Tok::Ident("Tuple"@),
                                    Tok::Group(
                                        Delim::Parenthesis,
                                        seq![Tok::Ident("__tup_items"@)],
                                    ),
                                    Tok::Ident("if"@),
                                    Tok::Ident("__tup_items"@),
                                    Tok::Punct('.', false),
                                    Tok::Ident("len"@),
                                    Tok::Group(Delim::Parenthesis, Seq::<Tok>::empty()),
                                    Tok::Punct('>', true),
                                    Tok::Punct('=', false),
                                ] + b
                                + seq![Tok::Punct('=', true), Tok::Punct('>', false)]
                                + seq![
                                    Tok::Group(
                                        Delim::Brace,
                                        seq![Tok::Group(Delim::Parenthesis, c)],
                                    ),
                                ] + seq![
                                Tok::Ident("_"@),
                                Tok::Punct('=', true),
                                Tok::Punct('>', false),
                                Tok::Ident("Default"@),
                                Tok::Punct(':', true),
                                Tok::Punct(':', false),
                                Tok::Ident("default"@),
                                Tok::Group(Delim::Parenthesis, Seq::<Tok>::empty()),
                                Tok::Punct(',', false),
                            ],
                        ),
                    ],
            ),
        ],
{
    reveal_strlit("match");
    reveal_strlit("#a");
    reveal_strlit("trade_meta_compiler :: RuntimeValue");
    reveal_strlit("::");
    reveal_strlit("Tuple");
    reveal_strlit("__tup_items");
    reveal_strlit("if");
    reveal_strlit(".");
    reveal_strlit("len");
    reveal_strlit(">=");
    reveal_strlit(":: Tuple ( __tup_items ) if __tup_items . len ( ) >=");
    reveal_strlit("#b");
    reveal_strlit("=>");
    reveal_strlit("#c");
    reveal_strlit("_");
    reveal_strlit("Default");
    reveal_strlit("default");
    reveal_strlit(",");
    reveal_strlit("_ => Default :: default ( ) ,");
    reveal_strlit(
        "trade_meta_compiler :: RuntimeValue :: Tuple ( __tup_items ) if __tup_items . len ( ) >= #b => { ( #c ) } _ => Default :: default ( ) ,",
    );
    reveal_strlit(
        "match #a { trade_meta_compiler :: RuntimeValue :: Tuple ( __tup_items ) if __tup_items . len ( ) >= #b => { ( #c ) } _ => Default :: default ( ) , }",
    );
    reveal_strlit(
        "{ match #a { trade_meta_compiler :: RuntimeValue :: Tuple ( __tup_items ) if __tup_items . len ( ) >= #b => { ( #c ) } _ => Default :: default ( ) , } }",
    );
    let holes = seq![a, b, c];
    let p2 = Piece::of_word("match"@, holes);
    let p3 = Piece::of_hole("#a"@, holes, 0);
    let p4 = p2.then_piece(p3, holes);
    let p6 = piece_value_type(holes);
    let p7 = Piece::of_marks("::"@, holes);
    let p8 = p7.then_word("Tuple"@, holes);
    let p10 = Piece::of_word("__tup_items"@, holes);
    let p9 = p10.in_round(holes);
    let p11 = p8.then_piece(p9, holes);
    let p12 = p11.then_word("if"@, holes);
    let p13 = p12.then_word("__tup_items"@, holes);
    let p14 = p13.then_mark("."@, holes);
    let p15 = p14.then_word("len"@, holes);
    let p16 = Piece::empty_round(holes);
    let p17 = p15.then_piece(p16, holes);
    let p18 = p17.then_marks(">="@, holes);
    assert(p18.tokens =~= seq![
        Tok::Punct(':', true),
        Tok::Punct(':', false),
        Tok::Ident("Tuple"@),
        Tok::Group(Delim::Parenthesis, seq![Tok::Ident("__tup_items"@)]),
        Tok::Ident("if"@),
        Tok::Ident("__tup_items"@),
        Tok::Punct('.', false),
        Tok::Ident("len"@),
        Tok::Group(Delim::Parenthesis, Seq::<Tok>::empty()),
        Tok::Punct('>', true),
        Tok::Punct('=', false),
    ]);
    let p19 = p18.as_text(":: Tuple ( __tup_items ) if __tup_items . len ( ) >="@, holes);
    let p20 = p6.then_piece(p19, holes);
    let p21 = Piece::of_hole("#b"@, holes, 1);
    let p22 = p20.then_piece(p21, holes);
    let p23 = Piece::of_marks("=>"@, holes);
    let p24 = p22.then_piece(p23, holes);
    let p27 = Piece::of_hole("#c"@, holes, 2);
    let p26 = p27.in_round(holes);
    let p25 = p26.in_curly(holes);
    let p28 = p24.then_piece(p25, holes);
    let p29 = Piece::of_word("_"@, holes);
    let p30 = p29.then_marks("=>"@, holes);
    let p31 = p30.then_word("Default"@, holes);
    let p32 = p31.then_marks("::"@, holes);
    let p33 = p32.then_word("default"@, holes);
    let p34 = Piece::empty_round(holes);
    let p35 = p33.then_piece(p34, holes);
    let p36 = p35.then_mark(","@, holes);
    assert(p36.tokens =~= seq![
        Tok::Ident("_"@),
        Tok::Punct('=', true),
        Tok::Punct('>', false),
        Tok::Ident("Default"@),
        Tok::Punct(':', true),
        Tok::Punct(':', false),
        Tok::Ident("default"@),
        Tok::Group(Delim::Parenthesis, Seq::<Tok>::empty()),
        Tok::Punct(',', false),
    ]);
    let p37 = p36.as_text("_ => Default :: default ( ) ,"@, holes);
    let p38 = p28.then_piece(p37, holes);
    let p39 = p38.as_text("trade_meta_compiler :: RuntimeValue :: Tuple ( __tup_items ) if __tup_items . len ( ) >= #b => { ( #c ) } _ => Default :: default ( ) ,"@, holes);
    let p5 = p39.in_curly(holes);
    let p40 = p4.then_piece(p5, holes);
    let p41 = p40.as_text("match #a { trade_meta_compiler :: RuntimeValue :: Tuple ( __tup_items ) if __tup_items . len ( ) >= #b => { ( #c ) } _ => Default :: default ( ) , }"@, holes);
    let p1 = p41.in_curly(holes);
    assert(EXTRACT_TUPLE@ =~= p1.text);
    lemma_stands_rendered(EXTRACT_TUPLE@, holes, p1.tokens);
}

/// What `WRAP_PRICE` stands for.
pub(crate) proof fn spell_wrap_price(a: Seq<Tok>)
    ensures
        rendered(WRAP_PRICE@, seq![a]) == value_type()
            + seq![Tok::Punct(':', true), Tok::Punct(':', false), Tok::Ident("Price"@)]
            + seq![Tok::Group(Delim::Parenthesis, a)],
{
    reveal_strlit("trade_meta_compiler :: RuntimeValue");
    reveal_strlit("::");
    reveal_strlit("Price");
    reveal_strlit("#a");
    reveal_strlit("trade_meta_compiler :: RuntimeValue :: Price ( #a )");
    let holes = seq![a];
    let p1 = piece_value_type(holes);
    let p2 = Piece::of_marks("::"@, holes);
    let p3 = p2.then_word("Price"@, holes);
    assert(p3.tokens =~= seq![Tok::Punct(':', true), Tok::Punct(':', false), Tok::Ident("Price"@)]);
    let p4 = p1.then_piece(p3, holes);
    let p6 = Piece::of_hole("#a"@, holes, 0);
    let p5 = p6.in_round(holes);
    let p7 = p4.then_piece(p5, holes);
    let p8 = p7.as_text("trade_meta_compiler :: RuntimeValue :: Price ( #a )"@, holes);
    assert(WRAP_PRICE@ =~= p8.text);
    lemma_stands_rendered(WRAP_PRICE@, holes, p8.tokens);
}

/// What `WRAP_AMOUNT` stands for.
pub(crate) proof fn spell_wrap_amount(a: Seq<Tok>)
    ensures
        rendered(WRAP_AMOUNT@, seq![a]) == value_type()
            + seq![Tok::Punct(':', true), Tok::Punct(':', false), Tok::Ident("Amount"@)]
            + seq![
                Tok::Group(
                    Delim::Parenthesis,
                    a + seq![Tok::Punct(',', false)] + string_type()
                        + seq![
                            Tok::Punct(':', true),
                            Tok::Punct(':', false),
                            Tok::Ident("new"@),
                            Tok::Group(Delim::Parenthesis, Seq::<Tok>::empty()),
                        ],
                ),
            ],
{
    reveal_strlit("trade_meta_compiler :: RuntimeValue");
    reveal_strlit("::");
    reveal_strlit("Amount");
    reveal_strlit("#a");
    reveal_strlit(",");
    reveal_strlit(":: std :: string :: String");
    reveal_strlit("new");
    reveal_strlit("#a , :: std :: string :: String :: new ( )");
    reveal_strlit(
        "trade_meta_compiler :: RuntimeValue :: Amount ( #a , :: std :: string :: String :: new ( ) )",
    );
    let holes = seq![a];
    let p1 = piece_value_type(holes);
    let p2 = Piece::of_marks("::"@, holes);
    let p3 = p2.then_word("Amount"@, holes);
    assert(p3.tokens =~= seq![Tok::Punct(':', true), Tok::Punct(':', false), Tok::Ident("Amount"@)]);
    let p4 = p1.then_piece(p3, holes);
    let p6 = Piece::of_hole("#a"@, holes, 0);
    let p7 = Piece::of_mark(","@, holes);
    let p8 = p6.then_piece(p7, holes);
    let p9 = piece_string_type(holes);
    let p10 = p8.then_piece(p9, holes);
    let p11 = Piece::of_marks("::"@, holes);
    let p12 = p11.then_word("new"@, holes);
    let p13 = Piece::empty_round(holes);
    let p14 = p12.then_piece(p13, holes);
    assert(p14.tokens =~= seq![
        Tok::Punct(':', true),
        Tok::Punct(':', false),
        Tok::Ident("new"@),
        Tok::Group(Delim::Parenthesis, Seq::<Tok>::empty()),
    ]);
    let p15 = p10.then_piece(p14, holes);
    let p16 = p15.as_text("#a , :: std :: string :: String :: new ( )"@, holes);
    let p5 = p16.in_round(holes);
    let p17 = p4.then_piece(p5, holes);
    let p18 = p17.as_text("trade_meta_compiler :: RuntimeValue :: Amount ( #a , :: std :: string :: String :: new ( ) )"@, holes);
    assert(WRAP_AMOUNT@ =~= p18.text);
    lemma_stands_rendered(WRAP_AMOUNT@, holes, p18.tokens);
}

/// What `WRAP_DURATION` stands for.
pub(crate) proof fn spell_wrap_duration(a: Seq<Tok>)
    ensures
        rendered(WRAP_DURATION@, seq![a]) == value_type()
            + seq![Tok::Punct(':', true), Tok::Punct(':', false), Tok::Ident("Duration"@)]
            + seq![Tok::Group(Delim::Parenthesis, a + seq![Tok::Ident("as"@), Tok::Ident("f64"@)])],
{
    reveal_strlit("trade_meta_compiler :: RuntimeValue");
    reveal_strlit("::");
    reveal_strlit("Duration");
    reveal_strlit("#a");
    reveal_strlit("as");
    reveal_strlit("f64");
    reveal_strlit("trade_meta_compiler :: RuntimeValue :: Duration ( #a as f64 )");
    let holes = seq![a];
    let p1 = piece_value_type(holes);
    let p2 = Piece::of_marks("::"@, holes);
    let p3 = p2.then_word("Duration"@, holes);
    assert(p3.tokens =~= seq![
        Tok::Punct(':', true),
        Tok::Punct(':', false),
        Tok::Ident("Duration"@),
    ]);
    let p4 = p1.then_piece(p3, holes);
    let p6 = Piece::of_hole("#a"@, holes, 0);
    let p7 = Piece::of_word("as"@, holes);
    let p8 = p7.then_word("f64"@, holes);
    assert(p8.tokens =~= seq![Tok::Ident("as"@), Tok::Ident("f64"@)]);
    let p9 = p6.then_piece(p8, holes);
    let p5 = p9.in_round(holes);
    let p10 = p4.then_piece(p5, holes);
    let p11 = p10.as_text("trade_meta_compiler :: RuntimeValue :: Duration ( #a as f64 )"@, holes);
    assert(WRAP_DURATION@ =~= p11.text);
    lemma_stands_rendered(WRAP_DURATION@, holes, p11.tokens);
}

/// What `WRAP_TIME_POINT` stands for.
pub(crate) proof fn spell_wrap_time_point(a: Seq<Tok>)
    ensures
        rendered(WRAP_TIME_POINT@, seq![a]) == value_type()
            + seq![Tok::Punct(':', true), Tok::Punct(':', false), Tok::Ident("TimePoint"@)]
            + seq![Tok::Group(Delim::Parenthesis, a)],
{
    reveal_strlit("trade_meta_compiler :: RuntimeValue");
    reveal_strlit("::");
    reveal_strlit("TimePoint");
    reveal_strlit("#a");
    reveal_strlit("trade_meta_compiler :: RuntimeValue :: TimePoint ( #a )");
    let holes = seq![a];
    let p1 = piece_value_type(holes);
    let p2 = Piece::of_marks("::"@, holes);
    let p3 = p2.then_word("TimePoint"@, holes);
    assert(p3.tokens =~= seq![
        Tok::Punct(':', true),
        Tok::Punct(':', false),
        Tok::Ident("TimePoint"@),
    ]);
    let p4 = p1.then_piece(p3, holes);
    let p6 = Piece::of_hole("#a"@, holes, 0);
    let p5 = p6.in_round(holes);
    let p7 = p4.then_piece(p5, holes);
    let p8 = p7.as_text("trade_meta_compiler :: RuntimeValue :: TimePoint ( #a )"@, holes);
    assert(WRAP_TIME_POINT@ =~= p8.text);
    lemma_stands_rendered(WRAP_TIME_POINT@, holes, p8.tokens);
}

/// What `WRAP_PERCENT` stands for.
pub(crate) proof fn spell_wrap_percent(a: Seq<Tok>)
    ensures
        rendered(WRAP_PERCENT@, seq![a]) == value_type()
            + seq![Tok::Punct(':', true), Tok::Punct(':', false), Tok::Ident("Percent"@)]
            + seq![Tok::Group(Delim::Parenthesis, a)],
{
    reveal_strlit("trade_meta_compiler :: RuntimeValue");
    reveal_strlit("::");
    reveal_strlit("Percent");
    reveal_strlit("#a");
    reveal_strlit("trade_meta_compiler :: RuntimeValue :: Percent ( #a )");
    let holes = seq![a];
    let p1 = piece_value_type(holes);
    let p2 = Piece::of_marks("::"@, holes);
    let p3 = p2.then_word("Percent"@, holes);
    assert(p3.tokens =~= seq![Tok::Punct(':', true), Tok::Punct(':', false), Tok::Ident("Percent"@)]);
    let p4 = p1.then_piece(p3, holes);
    let p6 = Piece::of_hole("#a"@, holes, 0);
    let p5 = p6.in_round(holes);
    let p7 = p4.then_piece(p5, holes);
    let p8 = p7.as_text("trade_meta_compiler :: RuntimeValue :: Percent ( #a )"@, holes);
    assert(WRAP_PERCENT@ =~= p8.text);
    lemma_stands_rendered(WRAP_PERCENT@, holes, p8.tokens);
}

/// What `WRAP_COUNT` stands for.
pub(crate) proof fn spell_wrap_count(a: Seq<Tok>)
    ensures
        rendered(WRAP_COUNT@, seq![a]) == value_type()
            + seq![Tok::Punct(':', true), Tok::Punct(':', false), Tok::Ident("Count"@)]
            + seq![Tok::Group(Delim::Parenthesis, a)],
{
    reveal_strlit("trade_meta_compiler :: RuntimeValue");
    reveal_strlit("::");
    reveal_strlit("Count");
    reveal_strlit("#a");
    reveal_strlit("trade_meta_compiler :: RuntimeValue :: Count ( #a )");
    let holes = seq![a];
    let p1 = piece_value_type(holes);
    let p2 = Piece::of_marks("::"@, holes);
    let p3 = p2.then_word("Count"@, holes);
    assert(p3.tokens =~= seq![Tok::Punct(':', true), Tok::Punct(':', false), Tok::Ident("Count"@)]);
    let p4 = p1.then_piece(p3, holes);
    let p6 = Piece::of_hole("#a"@, holes, 0);
    let p5 = p6.in_round(holes);
    let p7 = p4.then_piece(p5, holes);
    let p8 = p7.as_text("trade_meta_compiler :: RuntimeValue :: Count ( #a )"@, holes);
    assert(WRAP_COUNT@ =~= p8.text);
    lemma_stands_rendered(WRAP_COUNT@, holes, p8.tokens);
}

/// What `WRAP_NUMBER` stands for.
pub(crate) proof fn spell_wrap_number(a: Seq<Tok>)
    ensures
        rendered(WRAP_NUMBER@, seq![a]) == value_type()
            + seq![Tok::Punct(':', true), Tok::Punct(':', false), Tok::Ident("Number"@)]
            + seq![Tok::Group(Delim::Parenthesis, a)],
{
    reveal_strlit("trade_meta_compiler :: RuntimeValue");
    reveal_strlit("::");
    reveal_strlit("Number");
    reveal_strlit("#a");
    reveal_strlit("trade_meta_compiler :: RuntimeValue :: Number ( #a )");
    let holes = seq![a];
    let p1 = piece_value_type(holes);
    let p2 = Piece::of_marks("::"@, holes);
    let p3 = p2.then_word("Number"@, holes);
    assert(p3.tokens =~= seq![Tok::Punct(':', true), Tok::Punct(':', false), Tok::Ident("Number"@)]);
    let p4 = p1.then_piece(p3, holes);
    let p6 = Piece::of_hole("#a"@, holes, 0);
    let p5 = p6.in_round(holes);
    let p7 = p4.then_piece(p5, holes);
    let p8 = p7.as_text("trade_meta_compiler :: RuntimeValue :: Number ( #a )"@, holes);
    assert(WRAP_NUMBER@ =~= p8.text);
    lemma_stands_rendered(WRAP_NUMBER@, holes, p8.tokens);
}

/// What `WRAP_STRING` stands for.
pub(crate) proof fn spell_wrap_string(a: Seq<Tok>)
    ensures
        rendered(WRAP_STRING@, seq![a]) == value_type()
            + seq![Tok::Punct(':', true), Tok::Punct(':', false), Tok::Ident("Str"@)]
            + seq![Tok::Group(Delim::Parenthesis, a)],
{
    reveal_strlit("trade_meta_compiler :: RuntimeValue");
    reveal_strlit("::");
    reveal_strlit("Str");
    reveal_strlit("#a");
    reveal_strlit("trade_meta_compiler :: RuntimeValue :: Str ( #a )");
    let holes = seq![a];
    let p1 = piece_value_type(holes);
    let p2 = Piece::of_marks("::"@, holes);
    let p3 = p2.then_word("Str"@, holes);
    assert(p3.tokens =~= seq![Tok::Punct(':', true), Tok::Punct(':', false), Tok::Ident("Str"@)]);
    let p4 = p1.then_piece(p3, holes);
    let p6 = Piece::of_hole("#a"@, holes, 0);
    let p5 = p6.in_round(holes);
    let p7 = p4.then_piece(p5, holes);
    let p8 = p7.as_text("trade_meta_compiler :: RuntimeValue :: Str ( #a )"@, holes);
    assert(WRAP_STRING@ =~= p8.text);
    lemma_stands_rendered(WRAP_STRING@, holes, p8.tokens);
}

/// What `WRAP_BOOL` stands for.
pub(crate) proof fn spell_wrap_bool(a: Seq<Tok>)
    ensures
        rendered(WRAP_BOOL@, seq![a]) == value_type()
            + seq![Tok::Punct(':', true), Tok::Punct(':', false), Tok::Ident("Bool"@)]
            + seq![Tok::Group(Delim::Parenthesis, a)],
{
    reveal_strlit("trade_meta_compiler :: RuntimeValue");
    reveal_strlit("::");
    reveal_strlit("Bool");
    reveal_strlit("#a");
    reveal_strlit("trade_meta_compiler :: RuntimeValue :: Bool ( #a )");
    let holes = seq![a];
    let p1 = piece_value_type(holes);
    let p2 = Piece::of_marks("::"@, holes);
    let p3 = p2.then_word("Bool"@, holes);
    assert(p3.tokens =~= seq![Tok::Punct(':', true), Tok::Punct(':', false), Tok::Ident("Bool"@)]);
    let p4 = p1.then_piece(p3, holes);
    let p6 = Piece::of_hole("#a"@, holes, 0);
    let p5 = p6.in_round(holes);
    let p7 = p4.then_piece(p5, holes);
    let p8 = p7.as_text("trade_meta_compiler :: RuntimeValue :: Bool ( #a )"@, holes);
    assert(WRAP_BOOL@ =~= p8.text);
    lemma_stands_rendered(WRAP_BOOL@, holes, p8.tokens);
}

/// What `WRAP_LIST` stands for.
pub(crate) proof fn spell_wrap_list(a: Seq<Tok>, b: Seq<Tok>)
    ensures
        rendered(WRAP_LIST@, seq![a, b]) == value_type()
            + seq![Tok::Punct(':', true), Tok::Punct(':', false), Tok::Ident("List"@)]
            + seq![
                Tok::Group(
                    Delim::Parenthesis,
                    a
                        + seq![
                            Tok::Punct('.', false),
                            Tok::Ident("into_iter"@),
                            Tok::Group(Delim::Parenthesis, Seq::<Tok>::empty()),
                            Tok::Punct('.', false),
                            Tok::Ident("map"@),
                        ] + seq![
                        Tok::Group(
                            Delim::Parenthesis,
                            seq![
                                Tok::Punct('|', false),
                                Tok::Ident("__item"@),
                                Tok::Punct('|', false),
                            ] + b,
                        ),
                    ] + seq![
                        Tok::Punct('.', false),
                        Tok::Ident("collect"@),
                        Tok::Group(Delim::Parenthesis, Seq::<Tok>::empty()),
                    ],
                ),
            ],
{
    reveal_strlit("trade_meta_compiler :: RuntimeValue");
    reveal_strlit("::");
    reveal_strlit("List");
    reveal_strlit("#a");
    reveal_strlit(".");
    reveal_strlit("into_iter");
    reveal_strlit("map");
    reveal_strlit(". into_iter ( ) . map");
    reveal_strlit("|");
    reveal_strlit("__item");
    reveal_strlit("#b");
    reveal_strlit("collect");
    reveal_strlit("#a . into_iter ( ) . map ( | __item | #b ) . collect ( )");
    reveal_strlit(
        "trade_meta_compiler :: RuntimeValue :: List ( #a . into_iter ( ) . map ( | __item | #b ) . collect ( ) )",
    );
    let holes = seq![a, b];
    let p1 = piece_value_type(holes);
    let p2 = Piece::of_marks("::"@, holes);
    let p3 = p2.then_word("List"@, holes);
    assert(p3.tokens =~= seq![Tok::Punct(':', true), Tok::Punct(':', false), Tok::Ident("List"@)]);
    let p4 = p1.then_piece(p3, holes);
    let p6 = Piece::of_hole("#a"@, holes, 0);
    let p7 = Piece::of_mark("."@, holes);
    let p8 = p7.then_word("into_iter"@, holes);
    let p9 = Piece::empty_round(holes);
    let p10 = p8.then_piece(p9, holes);
    let p11 = p10.then_mark("."@, holes);
    let p12 = p11.then_word("map"@, holes);
    assert(p12.tokens =~= seq![
        Tok::Punct('.', false),
        Tok::Ident("into_iter"@),
        Tok::Group(Delim::Parenthesis, Seq::<Tok>::empty()),
        Tok::Punct('.', false),
        Tok::Ident("map"@),
    ]);
    let p13 = p12.as_text(". into_iter ( ) . map"@, holes);
    let p14 = p6.then_piece(p13, holes);
    let p16 = Piece::of_mark("|"@, holes);
    let p17 = p16.then_word("__item"@, holes);
    let p18 = p17.then_mark("|"@, holes);
    assert(p18.tokens =~= seq![
        Tok::Punct('|', false),
        Tok::Ident("__item"@),
        Tok::Punct('|', false),
    ]);
    let p19 = Piece::of_hole("#b"@, holes, 1);
    let p20 = p18.then_piece(p19, holes);
    let p15 = p20.in_round(holes);
    let p21 = p14.then_piece(p15, holes);
    let p22 = Piece::of_mark("."@, holes);
    let p23 = p22.then_word("collect"@, holes);
    let p24 = Piece::empty_round(holes);
    let p25 = p23.then_piece(p24, holes);
    assert(p25.tokens =~= seq![
        Tok::Punct('.', false),
        Tok::Ident("collect"@),
        Tok::Group(Delim::Parenthesis, Seq::<Tok>::empty()),
    ]);
    let p26 = p21.then_piece(p25, holes);
    let p27 = p26.as_text("#a . into_iter ( ) . map ( | __item | #b ) . collect ( )"@, holes);
    let p5 = p27.in_round(holes);
    let p28 = p4.then_piece(p5, holes);
    let p29 = p28.as_text("trade_meta_compiler :: RuntimeValue :: List ( #a . into_iter ( ) . map ( | __item | #b ) . collect ( ) )"@, holes);
    assert(WRAP_LIST@ =~= p29.text);
    lemma_stands_rendered(WRAP_LIST@, holes, p29.tokens);
}

/// What `TUPLE_FIELD` stands for.
pub(crate) proof fn spell_tuple_field(a: Seq<Tok>, b: Seq<Tok>)
    ensures
        rendered(TUPLE_FIELD@, seq![a, b]) == a + seq![Tok::Punct('.', false)] + b,
{
    reveal_strlit("#a");
    reveal_strlit(".");
    reveal_strlit("#b");
    reveal_strlit("#a . #b");
    let holes = seq![a, b];
    let p1 = Piece::of_hole("#a"@, holes, 0);
    let p2 = Piece::of_mark("."@, holes);
    let p3 = p1.then_piece(p2, holes);
    let p4 = Piece::of_hole("#b"@, holes, 1);
    let p5 = p3.then_piece(p4, holes);
    let p6 = p5.as_text("#a . #b"@, holes);
    assert(TUPLE_FIELD@ =~= p6.text);
    lemma_stands_rendered(TUPLE_FIELD@, holes, p6.tokens);
}

/// What `WRAP_TUPLE` stands for.
pub(crate) proof fn spell_wrap_tuple(a: Seq<Tok>)
    ensures
        rendered(WRAP_TUPLE@, seq![a]) == value_type()
            + seq![Tok::Punct(':', true), Tok::Punct(':', false), Tok::Ident("Tuple"@)]
            + seq![
                Tok::Group(
                    Delim::Parenthesis,
                    seq![Tok::Ident("vec"@), Tok::Punct('!', false)]
                        + seq![Tok::Group(Delim::Bracket, a)],
                ),
            ],
{
    reveal_strlit("trade_meta_compiler :: RuntimeValue");
    reveal_strlit("::");
    reveal_strlit("Tuple");
    reveal_strlit("vec");
    reveal_strlit("!");
    reveal_strlit("#a");
    reveal_strlit("trade_meta_compiler :: RuntimeValue :: Tuple ( vec ! [ #a ] )");
    let holes = seq![a];
    let p1 = piece_value_type(holes);
    let p2 = Piece::of_marks("::"@, holes);
    let p3 = p2.then_word("Tuple"@, holes);
    assert(p3.tokens =~= seq![Tok::Punct(':', true), Tok::Punct(':', false), Tok::Ident("Tuple"@)]);
    let p4 = p1.then_piece(p3, holes);
    let p6 = Piece::of_word("vec"@, holes);
    let p7 = p6.then_mark("!"@, holes);
    assert(p7.tokens =~= seq![Tok::Ident("vec"@), Tok::Punct('!', false)]);
    let p9 = Piece::of_hole("#a"@, holes, 0);
    let p8 = p9.in_square(holes);
    let p10 = p7.then_piece(p8, holes);
    let p5 = p10.in_round(holes);
    let p11 = p4.then_piece(p5, holes);
    let p12 = p11.as_text("trade_meta_compiler :: RuntimeValue :: Tuple ( vec ! [ #a ] )"@, holes);
    assert(WRAP_TUPLE@ =~= p12.text);
    lemma_stands_rendered(WRAP_TUPLE@, holes, p12.tokens);
}

/// What `NONE` stands for.
pub(crate) proof fn spell_none()
    ensures
        rendered(NONE@, seq![]) == seq![Tok::Ident("None"@)],
{
    reveal_strlit("None");
    let holes = Seq::<Seq<Tok>>::empty();
    let p1 = Piece::of_word("None"@, holes);
    lemma_stands_rendered(NONE@, holes, p1.tokens);
}

/// What `SOME` stands for.
pub(crate) proof fn spell_some(a: Seq<Tok>)
    ensures
        rendered(SOME@, seq![a]) == seq![Tok::Ident("Some"@)]
            + seq![Tok::Group(Delim::Parenthesis, a)],
{
    reveal_strlit("Some");
    reveal_strlit("#a");
    reveal_strlit("Some ( #a )");
    let holes = seq![a];
    let p1 = Piece::of_word("Some"@, holes);
    let p3 = Piece::of_hole("#a"@, holes, 0);
    let p2 = p3.in_round(holes);
    let p4 = p1.then_piece(p2, holes);
    assert(SOME@ =~= p4.text);
    lemma_stands_rendered(SOME@, holes, p4.tokens);
}

/// What `UNIT` stands for.
pub(crate) proof fn spell_unit()
    ensures
        rendered(UNIT@, seq![]) == seq![Tok::Group(Delim::Parenthesis, Seq::<Tok>::empty())],
{
    reveal_strlit("( )");
    let holes = Seq::<Seq<Tok>>::empty();
    let p1 = Piece::empty_round(holes);
    assert(p1.tokens =~= seq![Tok::Group(Delim::Parenthesis, Seq::<Tok>::empty())]);
    assert(UNIT@ =~= p1.text);
    lemma_stands_rendered(UNIT@, holes, p1.tokens);
}

/// What `CATEGORY_MONITOR` stands for.
pub(crate) proof fn spell_category_monitor()
    ensures
        rendered(CATEGORY_MONITOR@, seq![]) == seq![
            Tok::Ident("trade_meta_compiler"@),
            Tok::Punct(':', true),
            Tok::Punct(':', false),
            Tok::Ident("SymbolCategory"@),
            Tok::Punct(':', true),
            Tok::Punct(':', false),
            Tok::Ident("Monitor"@),
        ],
{
    reveal_strlit("trade_meta_compiler");
    reveal_strlit("::");
    reveal_strlit("SymbolCategory");
    reveal_strlit("Monitor");
    reveal_strlit("trade_meta_compiler :: SymbolCategory :: Monitor");
    let holes = Seq::<Seq<Tok>>::empty();
    let p1 = Piece::of_word("trade_meta_compiler"@, holes);
    let p2 = p1.then_marks("::"@, holes);
    let p3 = p2.then_word("SymbolCategory"@, holes);
    let p4 = p3.then_marks("::"@, holes);
    let p5 = p4.then_word("Monitor"@, holes);
    assert(p5.tokens =~= seq![
        Tok::Ident("trade_meta_compiler"@),
        Tok::Punct(':', true),
        Tok::Punct(':', false),
        Tok::Ident("SymbolCategory"@),
        Tok::Punct(':', true),
        Tok::Punct(':', false),
        Tok::Ident("Monitor"@),
    ]);
    assert(CATEGORY_MONITOR@ =~= p5.text);
    lemma_stands_rendered(CATEGORY_MONITOR@, holes, p5.tokens);
}

/// What `CATEGORY_EXECUTOR` stands for.
pub(crate) proof fn spell_category_executor()
    ensures
        rendered(CATEGORY_EXECUTOR@, seq![]) == seq![
            Tok::Ident("trade_meta_compiler"@),
            Tok::Punct(':', true),
            Tok::Punct(':', false),
            Tok::Ident("SymbolCategory"@),
            Tok::Punct(':', true),
            Tok::Punct(':', false),
            Tok::Ident("Executor"@),
        ],
{
    reveal_strlit("trade_meta_compiler");
    reveal_strlit("::");
    reveal_strlit("SymbolCategory");
    reveal_strlit("Executor");
    reveal_strlit("trade_meta_compiler :: SymbolCategory :: Executor");
    let holes = Seq::<Seq<Tok>>::empty();
    let p1 = Piece::of_word("trade_meta_compiler"@, holes);
    let p2 = p1.then_marks("::"@, holes);
    let p3 = p2.then_word("SymbolCategory"@, holes);
    let p4 = p3.then_marks("::"@, holes);
    let p5 = p4.then_word("Executor"@, holes);
    assert(p5.tokens =~= seq![
        Tok::Ident("trade_meta_compiler"@),
        Tok::Punct(':', true),
        Tok::Punct(':', false),
        Tok::Ident("SymbolCategory"@),
        Tok::Punct(':', true),
        Tok::Punct(':', false),
        Tok::Ident("Executor"@),
    ]);
    assert(CATEGORY_EXECUTOR@ =~= p5.text);
    lemma_stands_rendered(CATEGORY_EXECUTOR@, holes, p5.tokens);
}

/// What `CATEGORY_DATA_ITEM` stands for.
pub(crate) proof fn spell_category_data_item()
    ensures
        rendered(CATEGORY_DATA_ITEM@, seq![]) == seq![
            Tok::Ident("trade_meta_compiler"@),
            Tok::Punct(':', true),
            Tok::Punct(':', false),
            Tok::Ident("SymbolCategory"@),
            Tok::Punct(':', true),
            Tok::Punct(':', false),
            Tok::Ident("DataItem"@),
        ],
{
    reveal_strlit("trade_meta_compiler");
    reveal_strlit("::");
    reveal_strlit("SymbolCategory");
    reveal_strlit("DataItem");
    reveal_strlit("trade_meta_compiler :: SymbolCategory :: DataItem");
    let holes = Seq::<Seq<Tok>>::empty();
    let p1 = Piece::of_word("trade_meta_compiler"@, holes);
    let p2 = p1.then_marks("::"@, holes);
    let p3 = p2.then_word("SymbolCategory"@, holes);
    let p4 = p3.then_marks("::"@, holes);
    let p5 = p4.then_word("DataItem"@, holes);
    assert(p5.tokens =~= seq![
        Tok::Ident("trade_meta_compiler"@),
        Tok::Punct(':', true),
        Tok::Punct(':', false),
        Tok::Ident("SymbolCategory"@),
        Tok::Punct(':', true),
        Tok::Punct(':', false),
        Tok::Ident("DataItem"@),
    ]);
    assert(CATEGORY_DATA_ITEM@ =~= p5.text);
    lemma_stands_rendered(CATEGORY_DATA_ITEM@, holes, p5.tokens);
}

/// What `CATEGORY_CONDITION` stands for.
pub(crate) proof fn spell_category_condition()
    ensures
        rendered(CATEGORY_CONDITION@, seq![]) == seq![
            Tok::Ident("trade_meta_compiler"@),
            Tok::Punct(':', true),
            Tok::Punct(':', false),
            Tok::Ident("SymbolCategory"@),
            Tok::Punct(':', true),
            Tok::Punct(':', false),
            Tok::Ident("Condition"@),
        ],
{
    reveal_strlit("trade_meta_compiler");
    reveal_strlit("::");
    reveal_strlit("SymbolCategory");
    reveal_strlit("Condition");
    reveal_strlit("trade_meta_compiler :: SymbolCategory :: Condition");
    let holes = Seq::<Seq<Tok>>::empty();
    let p1 = Piece::of_word("trade_meta_compiler"@, holes);
    let p2 = p1.then_marks("::"@, holes);
    let p3 = p2.then_word("SymbolCategory"@, holes);
    let p4 = p3.then_marks("::"@, holes);
    let p5 = p4.then_word("Condition"@, holes);
    assert(p5.tokens =~= seq![
        Tok::Ident("trade_meta_compiler"@),
        Tok::Punct(':', true),
        Tok::Punct(':', false),
        Tok::Ident("SymbolCategory"@),
        Tok::Punct(':', true),
        Tok::Punct(':', false),
        Tok::Ident("Condition"@),
    ]);
    assert(CATEGORY_CONDITION@ =~= p5.text);
    lemma_stands_rendered(CATEGORY_CONDITION@, holes, p5.tokens);
}

/// What `PARAM_REQUIRED` stands for.
pub(crate) proof fn spell_param_required(a: Seq<Tok>, b: Seq<Tok>)
    ensures
        rendered(PARAM_REQUIRED@, seq![a, b]) == seq![
            Tok::Ident("trade_meta_compiler"@),
            Tok::Punct(':', true),
            Tok::Punct(':', false),
            Tok::Ident("ParamSpec"@),
            Tok::Punct(':', true),
            Tok::Punct(':', false),
            Tok::Ident("required"@),
        ] + seq![Tok::Group(Delim::Parenthesis, a + seq![Tok::Punct(',', false)] + b)],
{
    reveal_strlit("trade_meta_compiler");
    reveal_strlit("::");
    reveal_strlit("ParamSpec");
    reveal_strlit("required");
    reveal_strlit("trade_meta_compiler :: ParamSpec :: required");
    reveal_strlit("#a");
    reveal_strlit(",");
    reveal_strlit("#b");
    reveal_strlit("#a , #b");
    reveal_strlit("trade_meta_compiler :: ParamSpec :: required ( #a , #b )");
    let holes = seq![a, b];
    let p1 = Piece::of_word("trade_meta_compiler"@, holes);
    let p2 = p1.then_marks("::"@, holes);
    let p3 = p2.then_word("ParamSpec"@, holes);
    let p4 = p3.then_marks("::"@, holes);
    let p5 = p4.then_word("required"@, holes);
    assert(p5.tokens =~= seq![
        Tok::Ident("trade_meta_compiler"@),
        Tok::Punct(':', true),
        Tok::Punct(':', false),
        Tok::Ident("ParamSpec"@),
        Tok::Punct(':', true),
        Tok::Punct(':', false),
        Tok::Ident("required"@),
    ]);
    let p6 = p5.as_text("trade_meta_compiler :: ParamSpec :: required"@, holes);
    let p8 = Piece::of_hole("#a"@, holes, 0);
    let p9 = Piece::of_mark(","@, holes);
    let p10 = p8.then_piece(p9, holes);
    let p11 = Piece::of_hole("#b"@, holes, 1);
    let p12 = p10.then_piece(p11, holes);
    let p13 = p12.as_text("#a , #b"@, holes);
    let p7 = p13.in_round(holes);
    let p14 = p6.then_piece(p7, holes);
    assert(PARAM_REQUIRED@ =~= p14.text);
    lemma_stands_rendered(PARAM_REQUIRED@, holes, p14.tokens);
}

/// What `PARAM_OPTIONAL` stands for.
pub(crate) proof fn spell_param_optional(a: Seq<Tok>, b: Seq<Tok>)
    ensures
        rendered(PARAM_OPTIONAL@, seq![a, b]) == seq![
            Tok::Ident("trade_meta_compiler"@),
            Tok::Punct(':', true),
            Tok::Punct(':', false),
            Tok::Ident("ParamSpec"@),
            Tok::Punct(':', true),
            Tok::Punct(':', false),
            Tok::Ident("optional"@),
        ] + seq![Tok::Group(Delim::Parenthesis, a + seq![Tok::Punct(',', false)] + b)],
{
    reveal_strlit("trade_meta_compiler");
    reveal_strlit("::");
    reveal_strlit("ParamSpec");
    reveal_strlit("optional");
    reveal_strlit("trade_meta_compiler :: ParamSpec :: optional");
    reveal_strlit("#a");
    reveal_strlit(",");
    reveal_strlit("#b");
    reveal_strlit("#a , #b");
    reveal_strlit("trade_meta_compiler :: ParamSpec :: optional ( #a , #b )");
    let holes = seq![a, b];
    let p1 = Piece::of_word("trade_meta_compiler"@, holes);
    let p2 = p1.then_marks("::"@, holes);
    let p3 = p2.then_word("ParamSpec"@, holes);
    let p4 = p3.then_marks("::"@, holes);
    let p5 = p4.then_word("optional"@, holes);
    assert(p5.tokens =~= seq![
        Tok::Ident("trade_meta_compiler"@),
        Tok::Punct(':', true),
        Tok::Punct(':', false),
        Tok::Ident("ParamSpec"@),
        Tok::Punct(':', true),
        Tok::Punct(':', false),
        Tok::Ident("optional"@),
    ]);
    let p6 = p5.as_text("trade_meta_compiler :: ParamSpec :: optional"@, holes);
    let p8 = Piece::of_hole("#a"@, holes, 0);
    let p9 = Piece::of_mark(","@, holes);
    let p10 = p8.then_piece(p9, holes);
    let p11 = Piece::of_hole("#b"@, holes, 1);
    let p12 = p10.then_piece(p11, holes);
    let p13 = p12.as_text("#a , #b"@, holes);
    let p7 = p13.in_round(holes);
    let p14 = p6.then_piece(p7, holes);
    assert(PARAM_OPTIONAL@ =~= p14.text);
    lemma_stands_rendered(PARAM_OPTIONAL@, holes, p14.tokens);
}

/// What `PARAM_REQUIRED_MULTI` stands for.
pub(crate) proof fn spell_param_required_multi(a: Seq<Tok>, b: Seq<Tok>)
    ensures
        rendered(PARAM_REQUIRED_MULTI@, seq![a, b]) == seq![
            Tok::Ident("trade_meta_compiler"@),
            Tok::Punct(':', true),
            Tok::Punct(':', false),
            Tok::Ident("ParamSpec"@),
            Tok::Punct(':', true),
            Tok::Punct(':', false),
            Tok::Ident("required_multi"@),
        ] + seq![Tok::Group(Delim::Parenthesis, a + seq![Tok::Punct(',', false)] + b)],
{
    reveal_strlit("trade_meta_compiler");
    reveal_strlit("::");
    reveal_strlit("ParamSpec");
    reveal_strlit("required_multi");
    reveal_strlit("trade_meta_compiler :: ParamSpec :: required_multi");
    reveal_strlit("#a");
    reveal_strlit(",");
    reveal_strlit("#b");
    reveal_strlit("#a , #b");
    reveal_strlit("trade_meta_compiler :: ParamSpec :: required_multi ( #a , #b )");
    let holes = seq![a, b];
    let p1 = Piece::of_word("trade_meta_compiler"@, holes);
    let p2 = p1.then_marks("::"@, holes);
    let p3 = p2.then_word("ParamSpec"@, holes);
    let p4 = p3.then_marks("::"@, holes);
    let p5 = p4.then_word("required_multi"@, holes);
    assert(p5.tokens =~= seq![
        Tok::Ident("trade_meta_compiler"@),
        Tok::Punct(':', true),
        Tok::Punct(':', false),
        Tok::Ident("ParamSpec"@),
        Tok::Punct(':', true),
        Tok::Punct(':', false),
        Tok::Ident("required_multi"@),
    ]);
    let p6 = p5.as_text("trade_meta_compiler :: ParamSpec :: required_multi"@, holes);
    let p8 = Piece::of_hole("#a"@, holes, 0);
    let p9 = Piece::of_mark(","@, holes);
    let p10 = p8.then_piece(p9, holes);
    let p11 = Piece::of_hole("#b"@, holes, 1);
    let p12 = p10.then_piece(p11, holes);
    let p13 = p12.as_text("#a , #b"@, holes);
    let p7 = p13.in_round(holes);
    let p14 = p6.then_piece(p7, holes);
    assert(PARAM_REQUIRED_MULTI@ =~= p14.text);
    lemma_stands_rendered(PARAM_REQUIRED_MULTI@, holes, p14.tokens);
}

/// What `PARAM_OPTIONAL_MULTI` stands for.
pub(crate) proof fn spell_param_optional_multi(a: Seq<Tok>, b: Seq<Tok>)
    ensures
        rendered(PARAM_OPTIONAL_MULTI@, seq![a, b]) == seq![
            Tok::Ident("trade_meta_compiler"@),
            Tok::Punct(':', true),
            Tok::Punct(':', false),
            Tok::Ident("ParamSpec"@),
            Tok::Punct(':', true),
            Tok::Punct(':', false),
            Tok::Ident("optional_multi"@),
        ] + seq![Tok::Group(Delim::Parenthesis, a + seq![Tok::Punct(',', false)] + b)],
{
    reveal_strlit("trade_meta_compiler");
    reveal_strlit("::");
    reveal_strlit("ParamSpec");
    reveal_strlit("optional_multi");
    reveal_strlit("trade_meta_compiler :: ParamSpec :: optional_multi");
    reveal_strlit("#a");
    reveal_strlit(",");
    reveal_strlit("#b");
    reveal_strlit("#a , #b");
    reveal_strlit("trade_meta_compiler :: ParamSpec :: optional_multi ( #a , #b )");
    let holes = seq![a, b];
    let p1 = Piece::of_word("trade_meta_compiler"@, holes);
    let p2 = p1.then_marks("::"@, holes);
    let p3 = p2.then_word("ParamSpec"@, holes);
    let p4 = p3.then_marks("::"@, holes);
    let p5 = p4.then_word("optional_multi"@, holes);
    assert(p5.tokens =~= seq![
        Tok::Ident("trade_meta_compiler"@),
        Tok::Punct(':', true),
        Tok::Punct(':', false),
        Tok::Ident("ParamSpec"@),
        Tok::Punct(':', true),
        Tok::Punct(':', false),
        Tok::Ident("optional_multi"@),
    ]);
    let p6 = p5.as_text("trade_meta_compiler :: ParamSpec :: optional_multi"@, holes);
    let p8 = Piece::of_hole("#a"@, holes, 0);
    let p9 = Piece::of_mark(","@, holes);
    let p10 = p8.then_piece(p9, holes);
    let p11 = Piece::of_hole("#b"@, holes, 1);
    let p12 = p10.then_piece(p11, holes);
    let p13 = p12.as_text("#a , #b"@, holes);
    let p7 = p13.in_round(holes);
    let p14 = p6.then_piece(p7, holes);
    assert(PARAM_OPTIONAL_MULTI@ =~= p14.text);
    lemma_stands_rendered(PARAM_OPTIONAL_MULTI@, holes, p14.tokens);
}

/// What `CHOICES` stands for.
pub(crate) proof fn spell_choices(a: Seq<Tok>)
    ensures
        rendered(CHOICES@, seq![a]) == seq![Tok::Ident("vec"@), Tok::Punct('!', false)]
            + seq![Tok::Group(Delim::Bracket, a)],
{
    reveal_strlit("vec");
    reveal_strlit("!");
    reveal_strlit("#a");
    reveal_strlit("vec ! [ #a ]");
    let holes = seq![a];
    let p1 = Piece::of_word("vec"@, holes);
    let p2 = p1.then_mark("!"@, holes);
    assert(p2.tokens =~= seq![Tok::Ident("vec"@), Tok::Punct('!', false)]);
    let p4 = Piece::of_hole("#a"@, holes, 0);
    let p3 = p4.in_square(holes);
    let p5 = p2.then_piece(p3, holes);
    assert(CHOICES@ =~= p5.text);
    lemma_stands_rendered(CHOICES@, holes, p5.tokens);
}

/// What `ALIAS_LOOKUP` stands for.
pub(crate) proof fn spell_alias_lookup(a: Seq<Tok>, b: Seq<Tok>)
    ensures
        rendered(ALIAS_LOOKUP@, seq![a, b]) == seq![
            Tok::Ident("trade_meta_compiler"@),
            Tok::Punct(':', true),
            Tok::Punct(':', false),
            Tok::Ident("TypeAliasDef"@),
            Tok::Punct(':', true),
            Tok::Punct(':', false),
            Tok::Ident("lookup"@),
        ] + seq![Tok::Group(Delim::Parenthesis, a)]
            + seq![Tok::Punct('.', false), Tok::Ident("unwrap_or_else"@)]
            + seq![
                Tok::Group(
                    Delim::Parenthesis,
                    seq![
                        Tok::Punct('|', true),
                        Tok::Punct('|', false),
                        Tok::Ident("panic"@),
                        Tok::Punct('!', false),
                    ] + seq![Tok::Group(Delim::Parenthesis, b + seq![Tok::Punct(',', false)] + a)],
                ),
            ],
{
    reveal_strlit("trade_meta_compiler");
    reveal_strlit("::");
    reveal_strlit("TypeAliasDef");
    reveal_strlit("lookup");
    reveal_strlit("trade_meta_compiler :: TypeAliasDef :: lookup");
    reveal_strlit("#a");
    reveal_strlit(".");
    reveal_strlit("unwrap_or_else");
    reveal_strlit("||");
    reveal_strlit("panic");
    reveal_strlit("!");
    reveal_strlit("#b");
    reveal_strlit(",");
    reveal_strlit("#b , #a");
    reveal_strlit(
        "trade_meta_compiler :: TypeAliasDef :: lookup ( #a ) . unwrap_or_else ( || panic ! ( #b , #a ) )",
    );
    let holes = seq![a, b];
    let p1 = Piece::of_word("trade_meta_compiler"@, holes);
    let p2 = p1.then_marks("::"@, holes);
    let p3 = p2.then_word("TypeAliasDef"@, holes);
    let p4 = p3.then_marks("::"@, holes);
    let p5 = p4.then_word("lookup"@, holes);
    assert(p5.tokens =~= seq![
        Tok::Ident("trade_meta_compiler"@),
        Tok::Punct(':', true),
        Tok::Punct(':', false),
        Tok::Ident("TypeAliasDef"@),
        Tok::Punct(':', true),
        Tok::Punct(':', false),
        Tok::Ident("lookup"@),
    ]);
    let p6 = p5.as_text("trade_meta_compiler :: TypeAliasDef :: lookup"@, holes);
    let p8 = Piece::of_hole("#a"@, holes, 0);
    let p7 = p8.in_round(holes);
    let p9 = p6.then_piece(p7, holes);
    let p10 = Piece::of_mark("."@, holes);
    let p11 = p10.then_word("unwrap_or_else"@, holes);
    assert(p11.tokens =~= seq![Tok::Punct('.', false), Tok::Ident("unwrap_or_else"@)]);
    let p12 = p9.then_piece(p11, holes);
    let p14 = Piece::of_marks("||"@, holes);
    let p15 = p14.then_word("panic"@, holes);
    let p16 = p15.then_mark("!"@, holes);
    assert(p16.tokens =~= seq![
        Tok::Punct('|', true),
        Tok::Punct('|', false),
        Tok::Ident("panic"@),
        Tok::Punct('!', false),
    ]);
    let p18 = Piece::of_hole("#b"@, holes, 1);
    let p19 = Piece::of_mark(","@, holes);
    let p20 = p18.then_piece(p19, holes);
    let p21 = Piece::of_hole("#a"@, holes, 0);
    let p22 = p20.then_piece(p21, holes);
    let p23 = p22.as_text("#b , #a"@, holes);
    let p17 = p23.in_round(holes);
    let p24 = p16.then_piece(p17, holes);
    let p13 = p24.in_round(holes);
    let p25 = p12.then_piece(p13, holes);
    let p26 = p25.as_text("trade_meta_compiler :: TypeAliasDef :: lookup ( #a ) . unwrap_or_else ( || panic ! ( #b , #a ) )"@, holes);
    assert(ALIAS_LOOKUP@ =~= p26.text);
    lemma_stands_rendered(ALIAS_LOOKUP@, holes, p26.tokens);
}

/// What `CONTEXT_PRODUCE` stands for.
pub(crate) proof fn spell_context_produce(a: Seq<Tok>)
    ensures
        rendered(CONTEXT_PRODUCE@, seq![a]) == seq![
            Tok::Ident("trade_meta_compiler"@),
            Tok::Punct(':', true),
            Tok::Punct(':', false),
            Tok::Ident("ContextInteraction"@),
            Tok::Punct(':', true),
            Tok::Punct(':', false),
            Tok::Ident("produce"@),
        ] + seq![Tok::Group(Delim::Parenthesis, a)],
{
    reveal_strlit("trade_meta_compiler");
    reveal_strlit("::");
    reveal_strlit("ContextInteraction");
    reveal_strlit("produce");
    reveal_strlit("trade_meta_compiler :: ContextInteraction :: produce");
    reveal_strlit("#a");
    reveal_strlit("trade_meta_compiler :: ContextInteraction :: produce ( #a )");
    let holes = seq![a];
    let p1 = Piece::of_word("trade_meta_compiler"@, holes);
    let p2 = p1.then_marks("::"@, holes);
    let p3 = p2.then_word("ContextInteraction"@, holes);
    let p4 = p3.then_marks("::"@, holes);
    let p5 = p4.then_word("produce"@, holes);
    assert(p5.tokens =~= seq![
        Tok::Ident("trade_meta_compiler"@),
        Tok::Punct(':', true),
        Tok::Punct(':', false),
        Tok::Ident("ContextInteraction"@),
        Tok::Punct(':', true),
        Tok::Punct(':', false),
        Tok::Ident("produce"@),
    ]);
    let p6 = p5.as_text("trade_meta_compiler :: ContextInteraction :: produce"@, holes);
    let p8 = Piece::of_hole("#a"@, holes, 0);
    let p7 = p8.in_round(holes);
    let p9 = p6.then_piece(p7, holes);
    assert(CONTEXT_PRODUCE@ =~= p9.text);
    lemma_stands_rendered(CONTEXT_PRODUCE@, holes, p9.tokens);
}

/// What `CONTEXT_NEED` stands for.
pub(crate) proof fn spell_context_need(a: Seq<Tok>)
    ensures
        rendered(CONTEXT_NEED@, seq![a]) == seq![
            Tok::Ident("trade_meta_compiler"@),
            Tok::Punct(':', true),
            Tok::Punct(':', false),
            Tok::Ident("ContextInteraction"@),
            Tok::Punct(':', true),
            Tok::Punct(':', false),
            Tok::Ident("need"@),
        ] + seq![Tok::Group(Delim::Parenthesis, a)],
{
    reveal_strlit("trade_meta_compiler");
    reveal_strlit("::");
    reveal_strlit("ContextInteraction");
    reveal_strlit("need");
    reveal_strlit("trade_meta_compiler :: ContextInteraction :: need");
    reveal_strlit("#a");
    reveal_strlit("trade_meta_compiler :: ContextInteraction :: need ( #a )");
    let holes = seq![a];
    let p1 = Piece::of_word("trade_meta_compiler"@, holes);
    let p2 = p1.then_marks("::"@, holes);
    let p3 = p2.then_word("ContextInteraction"@, holes);
    let p4 = p3.then_marks("::"@, holes);
    let p5 = p4.then_word("need"@, holes);
    assert(p5.tokens =~= seq![
        Tok::Ident("trade_meta_compiler"@),
        Tok::Punct(':', true),
        Tok::Punct(':', false),
        Tok::Ident("ContextInteraction"@),
        Tok::Punct(':', true),
        Tok::Punct(':', false),
        Tok::Ident("need"@),
    ]);
    let p6 = p5.as_text("trade_meta_compiler :: ContextInteraction :: need"@, holes);
    let p8 = Piece::of_hole("#a"@, holes, 0);
    let p7 = p8.in_round(holes);
    let p9 = p6.then_piece(p7, holes);
    assert(CONTEXT_NEED@ =~= p9.text);
    lemma_stands_rendered(CONTEXT_NEED@, holes, p9.tokens);
}

/// What `CONTEXT_CONSUME` stands for.
pub(crate) proof fn spell_context_consume(a: Seq<Tok>)
    ensures
        rendered(CONTEXT_CONSUME@, seq![a]) == seq![
            Tok::Ident("trade_meta_compiler"@),
            Tok::Punct(':', true),
            Tok::Punct(':', false),
            Tok::Ident("ContextInteraction"@),
            Tok::Punct(':', true),
            Tok::Punct(':', false),
            Tok::Ident("consume"@),
        ] + seq![Tok::Group(Delim::Parenthesis, a)],
{
    reveal_strlit("trade_meta_compiler");
    reveal_strlit("::");
    reveal_strlit("ContextInteraction");
    reveal_strlit("consume");
    reveal_strlit("trade_meta_compiler :: ContextInteraction :: consume");
    reveal_strlit("#a");
    reveal_strlit("trade_meta_compiler :: ContextInteraction :: consume ( #a )");
    let holes = seq![a];
    let p1 = Piece::of_word("trade_meta_compiler"@, holes);
    let p2 = p1.then_marks("::"@, holes);
    let p3 = p2.then_word("ContextInteraction"@, holes);
    let p4 = p3.then_marks("::"@, holes);
    let p5 = p4.then_word("consume"@, holes);
    assert(p5.tokens =~= seq![
        Tok::Ident("trade_meta_compiler"@),
        Tok::Punct(':', true),
        Tok::Punct(':', false),
        Tok::Ident("ContextInteraction"@),
        Tok::Punct(':', true),
        Tok::Punct(':', false),
        Tok::Ident("consume"@),
    ]);
    let p6 = p5.as_text("trade_meta_compiler :: ContextInteraction :: consume"@, holes);
    let p8 = Piece::of_hole("#a"@, holes, 0);
    let p7 = p8.in_round(holes);
    let p9 = p6.then_piece(p7, holes);
    assert(CONTEXT_CONSUME@ =~= p9.text);
    lemma_stands_rendered(CONTEXT_CONSUME@, holes, p9.tokens);
}

/// What `METADATA_HEAD` stands for.
pub(crate) proof fn spell_metadata_head(a: Seq<Tok>, b: Seq<Tok>)
    ensures
        rendered(METADATA_HEAD@, seq![a, b]) == a + seq![Tok::Ident("fn"@)] + b
            + seq![
                Tok::Group(Delim::Parenthesis, Seq::<Tok>::empty()),
                Tok::Punct('-', true),
                Tok::Punct('>', false),
                Tok::Ident("trade_meta_compiler"@),
                Tok::Punct(':', true),
                Tok::Punct(':', false),
                Tok::Ident("SymbolMetadata"@),
            ],
{
    reveal_strlit("#a");
    reveal_strlit("fn");
    reveal_strlit("#b");
    reveal_strlit("->");
    reveal_strlit("trade_meta_compiler");
    reveal_strlit("::");
    reveal_strlit("SymbolMetadata");
    reveal_strlit("( ) -> trade_meta_compiler :: SymbolMetadata");
    reveal_strlit("#a fn #b ( ) -> trade_meta_compiler :: SymbolMetadata");
    let holes = seq![a, b];
    let p1 = Piece::of_hole("#a"@, holes, 0);
    let p2 = Piece::of_word("fn"@, holes);
    let p3 = p1.then_piece(p2, holes);
    let p4 = Piece::of_hole("#b"@, holes, 1);
    let p5 = p3.then_piece(p4, holes);
    let p6 = Piece::empty_round(holes);
    let p7 = p6.then_marks("->"@, holes);
    let p8 = p7.then_word("trade_meta_compiler"@, holes);
    let p9 = p8.then_marks("::"@, holes);
    let p10 = p9.then_word("SymbolMetadata"@, holes);
    assert(p10.tokens =~= seq![
        Tok::Group(Delim::Parenthesis, Seq::<Tok>::empty()),
        Tok::Punct('-', true),
        Tok::Punct('>', false),
        Tok::Ident("trade_meta_compiler"@),
        Tok::Punct(':', true),
        Tok::Punct(':', false),
        Tok::Ident("SymbolMetadata"@),
    ]);
    let p11 = p10.as_text("( ) -> trade_meta_compiler :: SymbolMetadata"@, holes);
    let p12 = p5.then_piece(p11, holes);
    let p13 = p12.as_text("#a fn #b ( ) -> trade_meta_compiler :: SymbolMetadata"@, holes);
    assert(METADATA_HEAD@ =~= p13.text);
    lemma_stands_rendered(METADATA_HEAD@, holes, p13.tokens);
}

/// What `METADATA_BODY` stands for.
pub(crate) proof fn spell_metadata_body(
    a: Seq<Tok>,
    b: Seq<Tok>,
    c: Seq<Tok>,
    d: Seq<Tok>,
    e: Seq<Tok>,
)
    ensures
        rendered(METADATA_BODY@, seq![a, b, c, d, e]) == seq![
            Tok::Group(
                Delim::Brace,
                seq![
                    Tok::Ident("trade_meta_compiler"@),
                    Tok::Punct(':', true),
                    Tok::Punct(':', false),
                    Tok::Ident("SymbolMetadata"@),
                ] + seq![
                    Tok::Group(
                        Delim::Brace,
                        seq![Tok::Ident("name"@), Tok::Punct(':', false)] + a
                            + seq![
                                Tok::Punct(',', false),
                                Tok::Ident("returns"@),
                                Tok::Punct(':', false),
                            ] + b
                            + seq![
                                Tok::Punct(',', false),
                                Tok::Ident("params"@),
                                Tok::Punct(':', false),
                                Tok::Ident("vec"@),
                                Tok::Punct('!', false),
                            ] + seq![Tok::Group(Delim::Bracket, c)]
                            + seq![
                                Tok::Punct(',', false),
                                Tok::Ident("category"@),
                                Tok::Punct(':', false),
                            ] + d
                            + seq![
                                Tok::Punct(',', false),
                                Tok::Ident("contexts"@),
                                Tok::Punct(':', false),
                                Tok::Ident("vec"@),
                                Tok::Punct('!', false),
                            ] + seq![Tok::Group(Delim::Bracket, e)]
                            + seq![Tok::Punct(',', false)],
                    ),
                ],
            ),
        ],
{
    reveal_strlit("trade_meta_compiler");
    reveal_strlit("::");
    reveal_strlit("SymbolMetadata");
    reveal_strlit("name");
    reveal_strlit(":");
    reveal_strlit("#a");
    reveal_strlit(",");
    reveal_strlit("returns");
    reveal_strlit("#b");
    reveal_strlit("params");
    reveal_strlit("vec");
    reveal_strlit("!");
    reveal_strlit(", params : vec !");
    reveal_strlit("#c");
    reveal_strlit("category");
    reveal_strlit("#d");
    reveal_strlit("contexts");
    reveal_strlit(", contexts : vec !");
    reveal_strlit("#e");
    reveal_strlit(
        "name : #a , returns : #b , params : vec ! [ #c ] , category : #d , contexts : vec ! [ #e ] ,",
    );
    reveal_strlit(
        "{ trade_meta_compiler :: SymbolMetadata { name : #a , returns : #b , params : vec ! [ #c ] , category : #d , contexts : vec ! [ #e ] , } }",
    );
    let holes = seq![a, b, c, d, e];
    let p2 = Piece::of_word("trade_meta_compiler"@, holes);
    let p3 = p2.then_marks("::"@, holes);
    let p4 = p3.then_word("SymbolMetadata"@, holes);
    assert(p4.tokens =~= seq![
        Tok::Ident("trade_meta_compiler"@),
        Tok::Punct(':', true),
        Tok::Punct(':', false),
        Tok::Ident("SymbolMetadata"@),
    ]);
    let p6 = Piece::of_word("name"@, holes);
    let p7 = p6.then_mark(":"@, holes);
    assert(p7.tokens =~= seq![Tok::Ident("name"@), Tok::Punct(':', false)]);
    let p8 = Piece::of_hole("#a"@, holes, 0);
    let p9 = p7.then_piece(p8, holes);
    let p10 = Piece::of_mark(","@, holes);
    let p11 = p10.then_word("returns"@, holes);
    let p12 = p11.then_mark(":"@, holes);
    assert(p12.tokens =~= seq![
        Tok::Punct(',', false),
        Tok::Ident("returns"@),
        Tok::Punct(':', false),
    ]);
    let p13 = p9.then_piece(p12, holes);
    let p14 = Piece::of_hole("#b"@, holes, 1);
    let p15 = p13.then_piece(p14, holes);
    let p16 = Piece::of_mark(","@, holes);
    let p17 = p16.then_word("params"@, holes);
    let p18 = p17.then_mark(":"@, holes);
    let p19 = p18.then_word("vec"@, holes);
    let p20 = p19.then_mark("!"@, holes);
    assert(p20.tokens =~= seq![
        Tok::Punct(',', false),
        Tok::Ident("params"@),
        Tok::Punct(':', false),
        Tok::Ident("vec"@),
        Tok::Punct('!', false),
    ]);
    let p21 = p20.as_text(", params : vec !"@, holes);
    let p22 = p15.then_piece(p21, holes);
    let p24 = Piece::of_hole("#c"@, holes, 2);
    let p23 = p24.in_square(holes);
    let p25 = p22.then_piece(p23, holes);
    let p26 = Piece::of_mark(","@, holes);
    let p27 = p26.then_word("category"@, holes);
    let p28 = p27.then_mark(":"@, holes);
    assert(p28.tokens =~= seq![
        Tok::Punct(',', false),
        Tok::Ident("category"@),
        Tok::Punct(':', false),
    ]);
    let p29 = p25.then_piece(p28, holes);
    let p30 = Piece::of_hole("#d"@, holes, 3);
    let p31 = p29.then_piece(p30, holes);
    let p32 = Piece::of_mark(","@, holes);
    let p33 = p32.then_word("contexts"@, holes);
    let p34 = p33.then_mark(":"@, holes);
    let p35 = p34.then_word("vec"@, holes);
    let p36 = p35.then_mark("!"@, holes);
    assert(p36.tokens =~= seq![
        Tok::Punct(',', false),
        Tok::Ident("contexts"@),
        Tok::Punct(':', false),
        Tok::Ident("vec"@),
        Tok::Punct('!', false),
    ]);
    let p37 = p36.as_text(", contexts : vec !"@, holes);
    let p38 = p31.then_piece(p37, holes);
    let p40 = Piece::of_hole("#e"@, holes, 4);
    let p39 = p40.in_square(holes);
    let p41 = p38.then_piece(p39, holes);
    let p42 = Piece::of_mark(","@, holes);
    let p43 = p41.then_piece(p42, holes);
    let p44 = p43.as_text("name : #a , returns : #b , params : vec ! [ #c ] , category : #d , contexts : vec ! [ #e ] ,"@, holes);
    let p5 = p44.in_curly(holes);
    let p45 = p4.then_piece(p5, holes);
    let p1 = p45.in_curly(holes);
    assert(METADATA_BODY@ =~= p1.text);
    lemma_stands_rendered(METADATA_BODY@, holes, p1.tokens);
}

/// What `DECLARE_REQUIRED` stands for.
pub(crate) proof fn spell_declare_required(a: Seq<Tok>, b: Seq<Tok>)
    ensures
        rendered(DECLARE_REQUIRED@, seq![a, b]) == a + seq![Tok::Punct(':', false)] + b,
{
    reveal_strlit("#a");
    reveal_strlit(":");
    reveal_strlit("#b");
    reveal_strlit("#a : #b");
    let holes = seq![a, b];
    let p1 = Piece::of_hole("#a"@, holes, 0);
    let p2 = Piece::of_mark(":"@, holes);
    let p3 = p1.then_piece(p2, holes);
    let p4 = Piece::of_hole("#b"@, holes, 1);
    let p5 = p3.then_piece(p4, holes);
    let p6 = p5.as_text("#a : #b"@, holes);
    assert(DECLARE_REQUIRED@ =~= p6.text);
    lemma_stands_rendered(DECLARE_REQUIRED@, holes, p6.tokens);
}

/// What `DECLARE_OPTIONAL` stands for.
pub(crate) proof fn spell_declare_optional(a: Seq<Tok>, b: Seq<Tok>)
    ensures
        rendered(DECLARE_OPTIONAL@, seq![a, b]) == a
            + seq![Tok::Punct(':', false), Tok::Ident("Option"@), Tok::Punct('<', false)]
            + b
            + seq![Tok::Punct('>', false)],
{
    reveal_strlit("#a");
    reveal_strlit(":");
    reveal_strlit("Option");
    reveal_strlit("<");
    reveal_strlit("#b");
    reveal_strlit(">");
    reveal_strlit("#a : Option < #b >");
    let holes = seq![a, b];
    let p1 = Piece::of_hole("#a"@, holes, 0);
    let p2 = Piece::of_mark(":"@, holes);
    let p3 = p2.then_word("Option"@, holes);
    let p4 = p3.then_mark("<"@, holes);
    assert(p4.tokens =~= seq![Tok::Punct(':', false), Tok::Ident("Option"@), Tok::Punct('<', false)]);
    let p5 = p1.then_piece(p4, holes);
    let p6 = Piece::of_hole("#b"@, holes, 1);
    let p7 = p5.then_piece(p6, holes);
    let p8 = Piece::of_mark(">"@, holes);
    let p9 = p7.then_piece(p8, holes);
    let p10 = p9.as_text("#a : Option < #b >"@, holes);
    assert(DECLARE_OPTIONAL@ =~= p10.text);
    lemma_stands_rendered(DECLARE_OPTIONAL@, holes, p10.tokens);
}

/// What `DECLARE_NEED` stands for.
pub(crate) proof fn spell_declare_need(a: Seq<Tok>, b: Seq<Tok>)
    ensures
        rendered(DECLARE_NEED@, seq![a, b]) == a
            + seq![Tok::Punct(':', false), Tok::Punct('&', false)]
            + b,
{
    reveal_strlit("#a");
    reveal_strlit(":");
    reveal_strlit("&");
    reveal_strlit("#b");
    reveal_strlit("#a : & #b");
    let holes = seq![a, b];
    let p1 = Piece::of_hole("#a"@, holes, 0);
    let p2 = Piece::of_mark(":"@, holes);
    let p3 = p2.then_mark("&"@, holes);
    assert(p3.tokens =~= seq![Tok::Punct(':', false), Tok::Punct('&', false)]);
    let p4 = p1.then_piece(p3, holes);
    let p5 = Piece::of_hole("#b"@, holes, 1);
    let p6 = p4.then_piece(p5, holes);
    let p7 = p6.as_text("#a : & #b"@, holes);
    assert(DECLARE_NEED@ =~= p7.text);
    lemma_stands_rendered(DECLARE_NEED@, holes, p7.tokens);
}

/// What `DECLARE_CONSUME` stands for.
pub(crate) proof fn spell_declare_consume(a: Seq<Tok>, b: Seq<Tok>)
    ensures
        rendered(DECLARE_CONSUME@, seq![a, b]) == a
            + seq![
                Tok::Punct(':', false),
                Tok::Punct(':', true),
                Tok::Punct(':', false),
                Tok::Ident("std"@),
                Tok::Punct(':', true),
                Tok::Punct(':', false),
                Tok::Ident("sync"@),
                Tok::Punct(':', true),
                Tok::Punct(':', false),
                Tok::Ident("Arc"@),
                Tok::Punct('<', false),
            ] + b
            + seq![Tok::Punct('>', false)],
{
    reveal_strlit("#a");
    reveal_strlit(":");
    reveal_strlit("::");
    reveal_strlit("std");
    reveal_strlit("sync");
    reveal_strlit("Arc");
    reveal_strlit("<");
    reveal_strlit(": :: std :: sync :: Arc <");
    reveal_strlit("#b");
    reveal_strlit(">");
    reveal_strlit("#a : :: std :: sync :: Arc < #b >");
    let holes = seq![a, b];
    let p1 = Piece::of_hole("#a"@, holes, 0);
    let p2 = Piece::of_mark(":"@, holes);
    let p3 = p2.then_marks("::"@, holes);
    let p4 = p3.then_word("std"@, holes);
    let p5 = p4.then_marks("::"@, holes);
    let p6 = p5.then_word("sync"@, holes);
    let p7 = p6.then_marks("::"@, holes);
    let p8 = p7.then_word("Arc"@, holes);
    let p9 = p8.then_mark("<"@, holes);
    assert(p9.tokens =~= seq![
        Tok::Punct(':', false),
        Tok::Punct(':', true),
        Tok::Punct(':', false),
        Tok::Ident("std"@),
        Tok::Punct(':', true),
        Tok::Punct(':', false),
        Tok::Ident("sync"@),
        Tok::Punct(':', true),
        Tok::Punct(':', false),
        Tok::Ident("Arc"@),
        Tok::Punct('<', false),
    ]);
    let p10 = p9.as_text(": :: std :: sync :: Arc <"@, holes);
    let p11 = p1.then_piece(p10, holes);
    let p12 = Piece::of_hole("#b"@, holes, 1);
    let p13 = p11.then_piece(p12, holes);
    let p14 = Piece::of_mark(">"@, holes);
    let p15 = p13.then_piece(p14, holes);
    let p16 = p15.as_text("#a : :: std :: sync :: Arc < #b >"@, holes);
    assert(DECLARE_CONSUME@ =~= p16.text);
    lemma_stands_rendered(DECLARE_CONSUME@, holes, p16.tokens);
}

/// What `DECLARE_CANCEL` stands for.
pub(crate) proof fn spell_declare_cancel()
    ensures
        rendered(DECLARE_CANCEL@, seq![]) == cancel_declaration(),
{
    reveal_strlit("cancel : trade_lang_core :: CancellationToken");
    let holes = Seq::<Seq<Tok>>::empty();
    let p1 = piece_cancel_declaration(holes);
    lemma_stands_rendered(DECLARE_CANCEL@, holes, p1.tokens);
}

/// What `DECLARE_TASK` stands for.
pub(crate) proof fn spell_declare_task()
    ensures
        rendered(DECLARE_TASK@, seq![]) == task_declaration(),
{
    reveal_strlit("ctx : & :: std :: sync :: Arc < trade_lang_core :: TradeTaskContext >");
    let holes = Seq::<Seq<Tok>>::empty();
    let p1 = piece_task_declaration(holes);
    lemma_stands_rendered(DECLARE_TASK@, holes, p1.tokens);
}

/// What `START` stands for.
pub(crate) proof fn spell_start()
    ensures
        rendered(START@, seq![]) == seq![Tok::Ident("start"@)],
{
    reveal_strlit("start");
    let holes = Seq::<Seq<Tok>>::empty();
    let p1 = Piece::of_word("start"@, holes);
    lemma_stands_rendered(START@, holes, p1.tokens);
}

/// What `EXECUTE` stands for.
pub(crate) proof fn spell_execute()
    ensures
        rendered(EXECUTE@, seq![]) == seq![Tok::Ident("execute"@)],
{
    reveal_strlit("execute");
    let holes = Seq::<Seq<Tok>>::empty();
    let p1 = Piece::of_word("execute"@, holes);
    lemma_stands_rendered(EXECUTE@, holes, p1.tokens);
}

/// What `GET` stands for.
pub(crate) proof fn spell_get()
    ensures
        rendered(GET@, seq![]) == seq![Tok::Ident("get"@)],
{
    reveal_strlit("get");
    let holes = Seq::<Seq<Tok>>::empty();
    let p1 = Piece::of_word("get"@, holes);
    lemma_stands_rendered(GET@, holes, p1.tokens);
}

/// What `EVALUATE` stands for.
pub(crate) proof fn spell_evaluate()
    ensures
        rendered(EVALUATE@, seq![]) == seq![Tok::Ident("evaluate"@)],
{
    reveal_strlit("evaluate");
    let holes = Seq::<Seq<Tok>>::empty();
    let p1 = Piece::of_word("evaluate"@, holes);
    lemma_stands_rendered(EVALUATE@, holes, p1.tokens);
}

/// What `MONITOR_RESULT` stands for.
pub(crate) proof fn spell_monitor_result()
    ensures
        rendered(MONITOR_RESULT@, seq![]) == messages_type(),
{
    reveal_strlit(
        "trade_lang_core :: monitor_mpsc :: Receiver < trade_lang_core :: MonitorMessage >",
    );
    let holes = Seq::<Seq<Tok>>::empty();
    let p1 = piece_messages_type(holes);
    lemma_stands_rendered(MONITOR_RESULT@, holes, p1.tokens);
}

/// What `EXECUTOR_RESULT` stands for.
pub(crate) proof fn spell_executor_result(a: Seq<Tok>)
    ensures
        rendered(EXECUTOR_RESULT@, seq![a]) == seq![
            Tok::Ident("trade_lang_core"@),
            Tok::Punct(':', true),
            Tok::Punct(':', false),
            Tok::Ident("ExecutorResult"@),
            Tok::Punct('<', false),
        ] + a
            + seq![Tok::Punct('>', false)],
{
    reveal_strlit("trade_lang_core");
    reveal_strlit("::");
    reveal_strlit("ExecutorResult");
    reveal_strlit("<");
    reveal_strlit("trade_lang_core :: ExecutorResult <");
    reveal_strlit("#a");
    reveal_strlit(">");
    reveal_strlit("trade_lang_core :: ExecutorResult < #a >");
    let holes = seq![a];
    let p1 = Piece::of_word("trade_lang_core"@, holes);
    let p2 = p1.then_marks("::"@, holes);
    let p3 = p2.then_word("ExecutorResult"@, holes);
    let p4 = p3.then_mark("<"@, holes);
    assert(p4.tokens =~= seq![
        Tok::Ident("trade_lang_core"@),
        Tok::Punct(':', true),
        Tok::Punct(':', false),
        Tok::Ident("ExecutorResult"@),
        Tok::Punct('<', false),
    ]);
    let p5 = p4.as_text("trade_lang_core :: ExecutorResult <"@, holes);
    let p6 = Piece::of_hole("#a"@, holes, 0);
    let p7 = p5.then_piece(p6, holes);
    let p8 = Piece::of_mark(">"@, holes);
    let p9 = p7.then_piece(p8, holes);
    let p10 = p9.as_text("trade_lang_core :: ExecutorResult < #a >"@, holes);
    assert(EXECUTOR_RESULT@ =~= p10.text);
    lemma_stands_rendered(EXECUTOR_RESULT@, holes, p10.tokens);
}

/// What `HANDLER_HEAD` stands for.
pub(crate) proof fn spell_handler_head(a: Seq<Tok>, b: Seq<Tok>)
    ensures
        rendered(HANDLER_HEAD@, seq![a, b]) == async_trait_attribute() + a
            + seq![Tok::Ident("trait"@)]
            + b
            + seq![
                Tok::Punct(':', false),
                Tok::Ident("Send"@),
                Tok::Punct('+', false),
                Tok::Ident("Sync"@),
            ],
{
    reveal_strlit("# [ async_trait :: async_trait ]");
    reveal_strlit("#a");
    reveal_strlit("trait");
    reveal_strlit("#b");
    reveal_strlit(":");
    reveal_strlit("Send");
    reveal_strlit("+");
    reveal_strlit("Sync");
    reveal_strlit(": Send + Sync");
    reveal_strlit("# [ async_trait :: async_trait ] #a trait #b : Send + Sync");
    let holes = seq![a, b];
    let p1 = piece_async_trait_attribute(holes);
    let p2 = Piece::of_hole("#a"@, holes, 0);
    let p3 = p1.then_piece(p2, holes);
    let p4 = Piece::of_word("trait"@, holes);
    let p5 = p3.then_piece(p4, holes);
    let p6 = Piece::of_hole("#b"@, holes, 1);
    let p7 = p5.then_piece(p6, holes);
    let p8 = Piece::of_mark(":"@, holes);
    let p9 = p8.then_word("Send"@, holes);
    let p10 = p9.then_mark("+"@, holes);
    let p11 = p10.then_word("Sync"@, holes);
    assert(p11.tokens =~= seq![
        Tok::Punct(':', false),
        Tok::Ident("Send"@),
        Tok::Punct('+', false),
        Tok::Ident("Sync"@),
    ]);
    let p12 = p11.as_text(": Send + Sync"@, holes);
    let p13 = p7.then_piece(p12, holes);
    let p14 = p13.as_text("# [ async_trait :: async_trait ] #a trait #b : Send + Sync"@, holes);
    assert(HANDLER_HEAD@ =~= p14.text);
    lemma_stands_rendered(HANDLER_HEAD@, holes, p14.tokens);
}

/// What `HANDLER_BODY` stands for.
pub(crate) proof fn spell_handler_body(a: Seq<Tok>, b: Seq<Tok>, c: Seq<Tok>)
    ensures
        rendered(HANDLER_BODY@, seq![a, b, c]) == seq![
            Tok::Group(
                Delim::Brace,
                seq![Tok::Ident("async"@), Tok::Ident("fn"@)] + a
                    + seq![
                        Tok::Group(
                            Delim::Parenthesis,
                            seq![
                                Tok::Punct('&', false),
                                Tok::Ident("self"@),
                                Tok::Punct(',', false),
                            ] + b,
                        ),
                    ] + seq![Tok::Punct('-', true), Tok::Punct('>', false)]
                    + c
                    + seq![Tok::Punct(';', false)],
            ),
        ],
{
    reveal_strlit("async");
    reveal_strlit("fn");
    reveal_strlit("#a");
    reveal_strlit("&");
    reveal_strlit("self");
    reveal_strlit(",");
    reveal_strlit("#b");
    reveal_strlit("->");
    reveal_strlit("#c");
    reveal_strlit(";");
    reveal_strlit("async fn #a ( & self , #b ) -> #c ;");
    reveal_strlit("{ async fn #a ( & self , #b ) -> #c ; }");
    let holes = seq![a, b, c];
    let p2 = Piece::of_word("async"@, holes);
    let p3 = p2.then_word("fn"@, holes);
    assert(p3.tokens =~= seq![Tok::Ident("async"@), Tok::Ident("fn"@)]);
    let p4 = Piece::of_hole("#a"@, holes, 0);
    let p5 = p3.then_piece(p4, holes);
    let p7 = Piece::of_mark("&"@, holes);
    let p8 = p7.then_word("self"@, holes);
    let p9 = p8.then_mark(","@, holes);
    assert(p9.tokens =~= seq![Tok::Punct('&', false), Tok::Ident("self"@), Tok::Punct(',', false)]);
    let p10 = Piece::of_hole("#b"@, holes, 1);
    let p11 = p9.then_piece(p10, holes);
    let p6 = p11.in_round(holes);
    let p12 = p5.then_piece(p6, holes);
    let p13 = Piece::of_marks("->"@, holes);
    let p14 = p12.then_piece(p13, holes);
    let p15 = Piece::of_hole("#c"@, holes, 2);
    let p16 = p14.then_piece(p15, holes);
    let p17 = Piece::of_mark(";"@, holes);
    let p18 = p16.then_piece(p17, holes);
    let p19 = p18.as_text("async fn #a ( & self , #b ) -> #c ;"@, holes);
    let p1 = p19.in_curly(holes);
    assert(HANDLER_BODY@ =~= p1.text);
    lemma_stands_rendered(HANDLER_BODY@, holes, p1.tokens);
}

/// What `VALUE` stands for.
pub(crate) proof fn spell_value()
    ensures
        rendered(VALUE@, seq![]) == seq![Tok::Ident("v"@)],
{
    reveal_strlit("v");
    let holes = Seq::<Seq<Tok>>::empty();
    let p1 = Piece::of_word("v"@, holes);
    lemma_stands_rendered(VALUE@, holes, p1.tokens);
}

/// What `BIND_VALUE` stands for.
pub(crate) proof fn spell_bind_value(a: Seq<Tok>, b: Seq<Tok>)
    ensures
        rendered(BIND_VALUE@, seq![a, b]) == seq![Tok::Ident("let"@)] + a
            + seq![
                Tok::Punct('=', false),
                Tok::Ident("args"@),
                Tok::Punct('.', false),
                Tok::Ident("get"@),
            ] + seq![Tok::Group(Delim::Parenthesis, b)]
            + seq![
                Tok::Punct('.', false),
                Tok::Ident("cloned"@),
                Tok::Group(Delim::Parenthesis, Seq::<Tok>::empty()),
                Tok::Punct('.', false),
                Tok::Ident("unwrap_or"@),
            ] + seq![
            Tok::Group(
                Delim::Parenthesis,
                value_type()
                    + seq![Tok::Punct(':', true), Tok::Punct(':', false), Tok::Ident("Unit"@)],
            ),
        ] + seq![Tok::Punct(';', false)],
{
    reveal_strlit("let");
    reveal_strlit("#a");
    reveal_strlit("=");
    reveal_strlit("args");
    reveal_strlit(".");
    reveal_strlit("get");
    reveal_strlit("= args . get");
    reveal_strlit("#b");
    reveal_strlit("cloned");
    reveal_strlit("unwrap_or");
    reveal_strlit(". cloned ( ) . unwrap_or");
    reveal_strlit("trade_meta_compiler :: RuntimeValue");
    reveal_strlit("::");
    reveal_strlit("Unit");
    reveal_strlit(";");
    reveal_strlit(
        "let #a = args . get ( #b ) . cloned ( ) . unwrap_or ( trade_meta_compiler :: RuntimeValue :: Unit ) ;",
    );
    let holes = seq![a, b];
    let p1 = Piece::of_word("let"@, holes);
    let p2 = Piece::of_hole("#a"@, holes, 0);
    let p3 = p1.then_piece(p2, holes);
    let p4 = Piece::of_mark("="@, holes);
    let p5 = p4.then_word("args"@, holes);
    let p6 = p5.then_mark("."@, holes);
    let p7 = p6.then_word("get"@, holes);
    assert(p7.tokens =~= seq![
        Tok::Punct('=', false),
        Tok::Ident("args"@),
        Tok::Punct('.', false),
        Tok::Ident("get"@),
    ]);
    let p8 = p7.as_text("= args . get"@, holes);
    let p9 = p3.then_piece(p8, holes);
    let p11 = Piece::of_hole("#b"@, holes, 1);
    let p10 = p11.in_round(holes);
    let p12 = p9.then_piece(p10, holes);
    let p13 = Piece::of_mark("."@, holes);
    let p14 = p13.then_word("cloned"@, holes);
    let p15 = Piece::empty_round(holes);
    let p16 = p14.then_piece(p15, holes);
    let p17 = p16.then_mark("."@, holes);
    let p18 = p17.then_word("unwrap_or"@, holes);
    assert(p18.tokens =~= seq![
        Tok::Punct('.', false),
        Tok::Ident("cloned"@),
        Tok::Group(Delim::Parenthesis, Seq::<Tok>::empty()),
        Tok::Punct('.', false),
        Tok::Ident("unwrap_or"@),
    ]);
    let p19 = p18.as_text(". cloned ( ) . unwrap_or"@, holes);
    let p20 = p12.then_piece(p19, holes);
    let p22 = piece_value_type(holes);
    let p23 = Piece::of_marks("::"@, holes);
    let p24 = p23.then_word("Unit"@, holes);
    assert(p24.tokens =~= seq![Tok::Punct(':', true), Tok::Punct(':', false), Tok::Ident("Unit"@)]);
    let p25 = p22.then_piece(p24, holes);
    let p21 = p25.in_round(holes);
    let p26 = p20.then_piece(p21, holes);
    let p27 = Piece::of_mark(";"@, holes);
    let p28 = p26.then_piece(p27, holes);
    let p29 = p28.as_text("let #a = args . get ( #b ) . cloned ( ) . unwrap_or ( trade_meta_compiler :: RuntimeValue :: Unit ) ;"@, holes);
    assert(BIND_VALUE@ =~= p29.text);
    lemma_stands_rendered(BIND_VALUE@, holes, p29.tokens);
}

/// What `BIND_OPTIONAL_VALUE` stands for.
pub(crate) proof fn spell_bind_optional_value(a: Seq<Tok>, b: Seq<Tok>)
    ensures
        rendered(BIND_OPTIONAL_VALUE@, seq![a, b]) == seq![Tok::Ident("let"@)] + a
            + seq![
                Tok::Punct('=', false),
                Tok::Ident("args"@),
                Tok::Punct('.', false),
                Tok::Ident("get"@),
            ] + seq![Tok::Group(Delim::Parenthesis, b)]
            + seq![
                Tok::Punct('.', false),
                Tok::Ident("cloned"@),
                Tok::Group(Delim::Parenthesis, Seq::<Tok>::empty()),
                Tok::Punct(';', false),
            ],
{
    reveal_strlit("let");
    reveal_strlit("#a");
    reveal_strlit("=");
    reveal_strlit("args");
    reveal_strlit(".");
    reveal_strlit("get");
    reveal_strlit("= args . get");
    reveal_strlit("#b");
    reveal_strlit("cloned");
    reveal_strlit(";");
    reveal_strlit(". cloned ( ) ;");
    reveal_strlit("let #a = args . get ( #b ) . cloned ( ) ;");
    let holes = seq![a, b];
    let p1 = Piece::of_word("let"@, holes);
    let p2 = Piece::of_hole("#a"@, holes, 0);
    let p3 = p1.then_piece(p2, holes);
    let p4 = Piece::of_mark("="@, holes);
    let p5 = p4.then_word("args"@, holes);
    let p6 = p5.then_mark("."@, holes);
    let p7 = p6.then_word("get"@, holes);
    assert(p7.tokens =~= seq![
        Tok::Punct('=', false),
        Tok::Ident("args"@),
        Tok::Punct('.', false),
        Tok::Ident("get"@),
    ]);
    let p8 = p7.as_text("= args . get"@, holes);
    let p9 = p3.then_piece(p8, holes);
    let p11 = Piece::of_hole("#b"@, holes, 1);
    let p10 = p11.in_round(holes);
    let p12 = p9.then_piece(p10, holes);
    let p13 = Piece::of_mark("."@, holes);
    let p14 = p13.then_word("cloned"@, holes);
    let p15 = Piece::empty_round(holes);
    let p16 = p14.then_piece(p15, holes);
    let p17 = p16.then_mark(";"@, holes);
    assert(p17.tokens =~= seq![
        Tok::Punct('.', false),
        Tok::Ident("cloned"@),
        Tok::Group(Delim::Parenthesis, Seq::<Tok>::empty()),
        Tok::Punct(';', false),
    ]);
    let p18 = p17.as_text(". cloned ( ) ;"@, holes);
    let p19 = p12.then_piece(p18, holes);
    let p20 = p19.as_text("let #a = args . get ( #b ) . cloned ( ) ;"@, holes);
    assert(BIND_OPTIONAL_VALUE@ =~= p20.text);
    lemma_stands_rendered(BIND_OPTIONAL_VALUE@, holes, p20.tokens);
}

/// What `BIND` stands for.
pub(crate) proof fn spell_bind(a: Seq<Tok>, b: Seq<Tok>, c: Seq<Tok>)
    ensures
        rendered(BIND@, seq![a, b, c]) == seq![Tok::Ident("let"@)] + a
            + seq![
                Tok::Punct('=', false),
                Tok::Ident("args"@),
                Tok::Punct('.', false),
                Tok::Ident("get"@),
            ] + seq![Tok::Group(Delim::Parenthesis, b)]
            + seq![Tok::Punct('.', false), Tok::Ident("map"@)]
            + seq![
                Tok::Group(
                    Delim::Parenthesis,
                    seq![Tok::Punct('|', false), Tok::Ident("v"@), Tok::Punct('|', false)] + c,
                ),
            ] + seq![
            Tok::Punct('.', false),
            Tok::Ident("unwrap_or_default"@),
            Tok::Group(Delim::Parenthesis, Seq::<Tok>::empty()),
            Tok::Punct(';', false),
        ],
{
    reveal_strlit("let");
    reveal_strlit("#a");
    reveal_strlit("=");
    reveal_strlit("args");
    reveal_strlit(".");
    reveal_strlit("get");
    reveal_strlit("= args . get");
    reveal_strlit("#b");
    reveal_strlit("map");
    reveal_strlit("|");
    reveal_strlit("v");
    reveal_strlit("#c");
    reveal_strlit("unwrap_or_default");
    reveal_strlit(";");
    reveal_strlit(". unwrap_or_default ( ) ;");
    reveal_strlit("let #a = args . get ( #b ) . map ( | v | #c ) . unwrap_or_default ( ) ;");
    let holes = seq![a, b, c];
    let p1 = Piece::of_word("let"@, holes);
    let p2 = Piece::of_hole("#a"@, holes, 0);
    let p3 = p1.then_piece(p2, holes);
    let p4 = Piece::of_mark("="@, holes);
    let p5 = p4.then_word("args"@, holes);
    let p6 = p5.then_mark("."@, holes);
    let p7 = p6.then_word("get"@, holes);
    assert(p7.tokens =~= seq![
        Tok::Punct('=', false),
        Tok::Ident("args"@),
        Tok::Punct('.', false),
        Tok::Ident("get"@),
    ]);
    let p8 = p7.as_text("= args . get"@, holes);
    let p9 = p3.then_piece(p8, holes);
    let p11 = Piece::of_hole("#b"@, holes, 1);
    let p10 = p11.in_round(holes);
    let p12 = p9.then_piece(p10, holes);
    let p13 = Piece::of_mark("."@, holes);
    let p14 = p13.then_word("map"@, holes);
    assert(p14.tokens =~= seq![Tok::Punct('.', false), Tok::Ident("map"@)]);
    let p15 = p12.then_piece(p14, holes);
    let p17 = Piece::of_mark("|"@, holes);
    let p18 = p17.then_word("v"@, holes);
    let p19 = p18.then_mark("|"@, holes);
    assert(p19.tokens =~= seq![Tok::Punct('|', false), Tok::Ident("v"@), Tok::Punct('|', false)]);
    let p20 = Piece::of_hole("#c"@, holes, 2);
    let p21 = p19.then_piece(p20, holes);
    let p16 = p21.in_round(holes);
    let p22 = p15.then_piece(p16, holes);
    let p23 = Piece::of_mark("."@, holes);
    let p24 = p23.then_word("unwrap_or_default"@, holes);
    let p25 = Piece::empty_round(holes);
    let p26 = p24.then_piece(p25, holes);
    let p27 = p26.then_mark(";"@, holes);
    assert(p27.tokens =~= seq![
        Tok::Punct('.', false),
        Tok::Ident("unwrap_or_default"@),
        Tok::Group(Delim::Parenthesis, Seq::<Tok>::empty()),
        Tok::Punct(';', false),
    ]);
    let p28 = p27.as_text(". unwrap_or_default ( ) ;"@, holes);
    let p29 = p22.then_piece(p28, holes);
    let p30 = p29.as_text("let #a = args . get ( #b ) . map ( | v | #c ) . unwrap_or_default ( ) ;"@, holes);
    assert(BIND@ =~= p30.text);
    lemma_stands_rendered(BIND@, holes, p30.tokens);
}

/// What `BIND_OPTIONAL` stands for.
pub(crate) proof fn spell_bind_optional(a: Seq<Tok>, b: Seq<Tok>, c: Seq<Tok>)
    ensures
        rendered(BIND_OPTIONAL@, seq![a, b, c]) == seq![Tok::Ident("let"@)] + a
            + seq![
                Tok::Punct('=', false),
                Tok::Ident("args"@),
                Tok::Punct('.', false),
                Tok::Ident("get"@),
            ] + seq![Tok::Group(Delim::Parenthesis, b)]
            + seq![Tok::Punct('.', false), Tok::Ident("map"@)]
            + seq![
                Tok::Group(
                    Delim::Parenthesis,
                    seq![Tok::Punct('|', false), Tok::Ident("v"@), Tok::Punct('|', false)] + c,
                ),
            ] + seq![Tok::Punct(';', false)],
{
    reveal_strlit("let");
    reveal_strlit("#a");
    reveal_strlit("=");
    reveal_strlit("args");
    reveal_strlit(".");
    reveal_strlit("get");
    reveal_strlit("= args . get");
    reveal_strlit("#b");
    reveal_strlit("map");
    reveal_strlit("|");
    reveal_strlit("v");
    reveal_strlit("#c");
    reveal_strlit(";");
    reveal_strlit("let #a = args . get ( #b ) . map ( | v | #c ) ;");
    let holes = seq![a, b, c];
    let p1 = Piece::of_word("let"@, holes);
    let p2 = Piece::of_hole("#a"@, holes, 0);
    let p3 = p1.then_piece(p2, holes);
    let p4 = Piece::of_mark("="@, holes);
    let p5 = p4.then_word("args"@, holes);
    let p6 = p5.then_mark("."@, holes);
    let p7 = p6.then_word("get"@, holes);
    assert(p7.tokens =~= seq![
        Tok::Punct('=', false),
        Tok::Ident("args"@),
        Tok::Punct('.', false),
        Tok::Ident("get"@),
    ]);
    let p8 = p7.as_text("= args . get"@, holes);
    let p9 = p3.then_piece(p8, holes);
    let p11 = Piece::of_hole("#b"@, holes, 1);
    let p10 = p11.in_round(holes);
    let p12 = p9.then_piece(p10, holes);
    let p13 = Piece::of_mark("."@, holes);
    let p14 = p13.then_word("map"@, holes);
    assert(p14.tokens =~= seq![Tok::Punct('.', false), Tok::Ident("map"@)]);
    let p15 = p12.then_piece(p14, holes);
    let p17 = Piece::of_mark("|"@, holes);
    let p18 = p17.then_word("v"@, holes);
    let p19 = p18.then_mark("|"@, holes);
    assert(p19.tokens =~= seq![Tok::Punct('|', false), Tok::Ident("v"@), Tok::Punct('|', false)]);
    let p20 = Piece::of_hole("#c"@, holes, 2);
    let p21 = p19.then_piece(p20, holes);
    let p16 = p21.in_round(holes);
    let p22 = p15.then_piece(p16, holes);
    let p23 = Piece::of_mark(";"@, holes);
    let p24 = p22.then_piece(p23, holes);
    let p25 = p24.as_text("let #a = args . get ( #b ) . map ( | v | #c ) ;"@, holes);
    assert(BIND_OPTIONAL@ =~= p25.text);
    lemma_stands_rendered(BIND_OPTIONAL@, holes, p25.tokens);
}

/// What `MISSING_EXECUTOR` stands for.
pub(crate) proof fn spell_missing_executor(a: Seq<Tok>)
    ensures
        rendered(MISSING_EXECUTOR@, seq![a]) == seq![
            Tok::Ident("log"@),
            Tok::Punct(':', true),
            Tok::Punct(':', false),
            Tok::Ident("warn"@),
            Tok::Punct('!', false),
        ] + seq![Tok::Group(Delim::Parenthesis, a)]
            + seq![
                Tok::Punct(';', false),
                Tok::Ident("ctx"@),
                Tok::Punct('.', false),
                Tok::Ident("signal_done"@),
                Tok::Group(Delim::Parenthesis, Seq::<Tok>::empty()),
                Tok::Punct(';', false),
                Tok::Ident("return"@),
                Tok::Ident("None"@),
                Tok::Punct(';', false),
            ],
{
    reveal_strlit("log");
    reveal_strlit("::");
    reveal_strlit("warn");
    reveal_strlit("!");
    reveal_strlit("log :: warn !");
    reveal_strlit("#a");
    reveal_strlit(";");
    reveal_strlit("ctx");
    reveal_strlit(".");
    reveal_strlit("signal_done");
    reveal_strlit("return");
    reveal_strlit("None");
    reveal_strlit("; ctx . signal_done ( ) ; return None ;");
    reveal_strlit("log :: warn ! ( #a ) ; ctx . signal_done ( ) ; return None ;");
    let holes = seq![a];
    let p1 = Piece::of_word("log"@, holes);
    let p2 = p1.then_marks("::"@, holes);
    let p3 = p2.then_word("warn"@, holes);
    let p4 = p3.then_mark("!"@, holes);
    assert(p4.tokens =~= seq![
        Tok::Ident("log"@),
        Tok::Punct(':', true),
        Tok::Punct(':', false),
        Tok::Ident("warn"@),
        Tok::Punct('!', false),
    ]);
    let p5 = p4.as_text("log :: warn !"@, holes);
    let p7 = Piece::of_hole("#a"@, holes, 0);
    let p6 = p7.in_round(holes);
    let p8 = p5.then_piece(p6, holes);
    let p9 = Piece::of_mark(";"@, holes);
    let p10 = p9.then_word("ctx"@, holes);
    let p11 = p10.then_mark("."@, holes);
    let p12 = p11.then_word("signal_done"@, holes);
    let p13 = Piece::empty_round(holes);
    let p14 = p12.then_piece(p13, holes);
    let p15 = p14.then_mark(";"@, holes);
    let p16 = p15.then_word("return"@, holes);
    let p17 = p16.then_word("None"@, holes);
    let p18 = p17.then_mark(";"@, holes);
    assert(p18.tokens =~= seq![
        Tok::Punct(';', false),
        Tok::Ident("ctx"@),
        Tok::Punct('.', false),
        Tok::Ident("signal_done"@),
        Tok::Group(Delim::Parenthesis, Seq::<Tok>::empty()),
        Tok::Punct(';', false),
        Tok::Ident("return"@),
        Tok::Ident("None"@),
        Tok::Punct(';', false),
    ]);
    let p19 = p18.as_text("; ctx . signal_done ( ) ; return None ;"@, holes);
    let p20 = p8.then_piece(p19, holes);
    let p21 = p20.as_text("log :: warn ! ( #a ) ; ctx . signal_done ( ) ; return None ;"@, holes);
    assert(MISSING_EXECUTOR@ =~= p21.text);
    lemma_stands_rendered(MISSING_EXECUTOR@, holes, p21.tokens);
}

/// What `MISSING_DATA_ITEM` stands for.
pub(crate) proof fn spell_missing_data_item(a: Seq<Tok>)
    ensures
        rendered(MISSING_DATA_ITEM@, seq![a]) == seq![
            Tok::Ident("log"@),
            Tok::Punct(':', true),
            Tok::Punct(':', false),
            Tok::Ident("warn"@),
            Tok::Punct('!', false),
        ] + seq![Tok::Group(Delim::Parenthesis, a)]
            + seq![
                Tok::Punct(';', false),
                Tok::Ident("ctx"@),
                Tok::Punct('.', false),
                Tok::Ident("signal_done"@),
                Tok::Group(Delim::Parenthesis, Seq::<Tok>::empty()),
                Tok::Punct(';', false),
                Tok::Ident("return"@),
            ] + value_type()
            + seq![
                Tok::Punct(':', true),
                Tok::Punct(':', false),
                Tok::Ident("Unit"@),
                Tok::Punct(';', false),
            ],
{
    reveal_strlit("log");
    reveal_strlit("::");
    reveal_strlit("warn");
    reveal_strlit("!");
    reveal_strlit("log :: warn !");
    reveal_strlit("#a");
    reveal_strlit(";");
    reveal_strlit("ctx");
    reveal_strlit(".");
    reveal_strlit("signal_done");
    reveal_strlit("return");
    reveal_strlit("; ctx . signal_done ( ) ; return");
    reveal_strlit("trade_meta_compiler :: RuntimeValue");
    reveal_strlit("Unit");
    reveal_strlit(
        "log :: warn ! ( #a ) ; ctx . signal_done ( ) ; return trade_meta_compiler :: RuntimeValue :: Unit ;",
    );
    let holes = seq![a];
    let p1 = Piece::of_word("log"@, holes);
    let p2 = p1.then_marks("::"@, holes);
    let p3 = p2.then_word("warn"@, holes);
    let p4 = p3.then_mark("!"@, holes);
    assert(p4.tokens =~= seq![
        Tok::Ident("log"@),
        Tok::Punct(':', true),
        Tok::Punct(':', false),
        Tok::Ident("warn"@),
        Tok::Punct('!', false),
    ]);
    let p5 = p4.as_text("log :: warn !"@, holes);
    let p7 = Piece::of_hole("#a"@, holes, 0);
    let p6 = p7.in_round(holes);
    let p8 = p5.then_piece(p6, holes);
    let p9 = Piece::of_mark(";"@, holes);
    let p10 = p9.then_word("ctx"@, holes);
    let p11 = p10.then_mark("."@, holes);
    let p12 = p11.then_word("signal_done"@, holes);
    let p13 = Piece::empty_round(holes);
    let p14 = p12.then_piece(p13, holes);
    let p15 = p14.then_mark(";"@, holes);
    let p16 = p15.then_word("return"@, holes);
    assert(p16.tokens =~= seq![
        Tok::Punct(';', false),
        Tok::Ident("ctx"@),
        Tok::Punct('.', false),
        Tok::Ident("signal_done"@),
        Tok::Group(Delim::Parenthesis, Seq::<Tok>::empty()),
        Tok::Punct(';', false),
        Tok::Ident("return"@),
    ]);
    let p17 = p16.as_text("; ctx . signal_done ( ) ; return"@, holes);
    let p18 = p8.then_piece(p17, holes);
    let p19 = piece_value_type(holes);
    let p20 = p18.then_piece(p19, holes);
    let p21 = Piece::of_marks("::"@, holes);
    let p22 = p21.then_word("Unit"@, holes);
    let p23 = p22.then_mark(";"@, holes);
    assert(p23.tokens =~= seq![
        Tok::Punct(':', true),
        Tok::Punct(':', false),
        Tok::Ident("Unit"@),
        Tok::Punct(';', false),
    ]);
    let p24 = p20.then_piece(p23, holes);
    let p25 = p24.as_text("log :: warn ! ( #a ) ; ctx . signal_done ( ) ; return trade_meta_compiler :: RuntimeValue :: Unit ;"@, holes);
    assert(MISSING_DATA_ITEM@ =~= p25.text);
    lemma_stands_rendered(MISSING_DATA_ITEM@, holes, p25.tokens);
}

/// What `MISSING_CONDITION` stands for.
pub(crate) proof fn spell_missing_condition(a: Seq<Tok>)
    ensures
        rendered(MISSING_CONDITION@, seq![a]) == seq![
            Tok::Ident("log"@),
            Tok::Punct(':', true),
            Tok::Punct(':', false),
            Tok::Ident("warn"@),
            Tok::Punct('!', false),
        ] + seq![Tok::Group(Delim::Parenthesis, a)]
            + seq![
                Tok::Punct(';', false),
                Tok::Ident("return"@),
                Tok::Ident("false"@),
                Tok::Punct(';', false),
            ],
{
    reveal_strlit("log");
    reveal_strlit("::");
    reveal_strlit("warn");
    reveal_strlit("!");
    reveal_strlit("log :: warn !");
    reveal_strlit("#a");
    reveal_strlit(";");
    reveal_strlit("return");
    reveal_strlit("false");
    reveal_strlit("; return false ;");
    reveal_strlit("log :: warn ! ( #a ) ; return false ;");
    let holes = seq![a];
    let p1 = Piece::of_word("log"@, holes);
    let p2 = p1.then_marks("::"@, holes);
    let p3 = p2.then_word("warn"@, holes);
    let p4 = p3.then_mark("!"@, holes);
    assert(p4.tokens =~= seq![
        Tok::Ident("log"@),
        Tok::Punct(':', true),
        Tok::Punct(':', false),
        Tok::Ident("warn"@),
        Tok::Punct('!', false),
    ]);
    let p5 = p4.as_text("log :: warn !"@, holes);
    let p7 = Piece::of_hole("#a"@, holes, 0);
    let p6 = p7.in_round(holes);
    let p8 = p5.then_piece(p6, holes);
    let p9 = Piece::of_mark(";"@, holes);
    let p10 = p9.then_word("return"@, holes);
    let p11 = p10.then_word("false"@, holes);
    let p12 = p11.then_mark(";"@, holes);
    assert(p12.tokens =~= seq![
        Tok::Punct(';', false),
        Tok::Ident("return"@),
        Tok::Ident("false"@),
        Tok::Punct(';', false),
    ]);
    let p13 = p12.as_text("; return false ;"@, holes);
    let p14 = p8.then_piece(p13, holes);
    let p15 = p14.as_text("log :: warn ! ( #a ) ; return false ;"@, holes);
    assert(MISSING_CONDITION@ =~= p15.text);
    lemma_stands_rendered(MISSING_CONDITION@, holes, p15.tokens);
}

/// What `TAKE_CONTEXT` stands for.
pub(crate) proof fn spell_take_context(a: Seq<Tok>, b: Seq<Tok>, c: Seq<Tok>, d: Seq<Tok>)
    ensures
        rendered(TAKE_CONTEXT@, seq![a, b, c, d]) == seq![Tok::Ident("let"@)] + a
            + seq![
                Tok::Punct(':', false),
                Tok::Punct(':', true),
                Tok::Punct(':', false),
                Tok::Ident("std"@),
                Tok::Punct(':', true),
                Tok::Punct(':', false),
                Tok::Ident("sync"@),
                Tok::Punct(':', true),
                Tok::Punct(':', false),
                Tok::Ident("Arc"@),
                Tok::Punct('<', false),
            ] + b
            + seq![
                Tok::Punct('>', false),
                Tok::Punct('=', false),
                Tok::Ident("match"@),
                Tok::Ident("ctx"@),
                Tok::Punct('.', false),
                Tok::Ident("consume_context"@),
                Tok::Punct(':', true),
                Tok::Punct(':', false),
                Tok::Punct('<', false),
            ] + b
            + seq![Tok::Punct('>', false)]
            + seq![Tok::Group(Delim::Parenthesis, c)]
            + seq![Tok::Punct('.', false), Tok::Ident("await"@)]
            + seq![
                Tok::Group(
                    Delim::Brace,
                    seq![
                        Tok::Ident("Some"@),
                        Tok::Group(Delim::Parenthesis, seq![Tok::Ident("v"@)]),
                        Tok::Punct('=', true),
                        Tok::Punct('>', false),
                        Tok::Ident("v"@),
                        Tok::Punct(',', false),
                        Tok::Ident("None"@),
                        Tok::Punct('=', true),
                        Tok::Punct('>', false),
                    ] + seq![Tok::Group(Delim::Brace, d)],
                ),
            ] + seq![Tok::Punct(';', false)],
{
    reveal_strlit("let");
    reveal_strlit("#a");
    reveal_strlit(":");
    reveal_strlit("::");
    reveal_strlit("std");
    reveal_strlit("sync");
    reveal_strlit("Arc");
    reveal_strlit("<");
    reveal_strlit(": :: std :: sync :: Arc <");
    reveal_strlit("#b");
    reveal_strlit(">");
    reveal_strlit("=");
    reveal_strlit("match");
    reveal_strlit("ctx");
    reveal_strlit(".");
    reveal_strlit("consume_context");
    reveal_strlit("> = match ctx . consume_context :: <");
    reveal_strlit("#c");
    reveal_strlit("await");
    reveal_strlit("Some");
    reveal_strlit("v");
    reveal_strlit("=>");
    reveal_strlit(",");
    reveal_strlit("None");
    reveal_strlit("Some ( v ) => v , None =>");
    reveal_strlit("#d");
    reveal_strlit(";");
    reveal_strlit(
        "let #a : :: std :: sync :: Arc < #b > = match ctx . consume_context :: < #b > ( #c ) . await { Some ( v ) => v , None => { #d } } ;",
    );
    let holes = seq![a, b, c, d];
    let p1 = Piece::of_word("let"@, holes);
    let p2 = Piece::of_hole("#a"@, holes, 0);
    let p3 = p1.then_piece(p2, holes);
    let p4 = Piece::of_mark(":"@, holes);
    let p5 = p4.then_marks("::"@, holes);
    let p6 = p5.then_word("std"@, holes);
    let p7 = p6.then_marks("::"@, holes);
    let p8 = p7.then_word("sync"@, holes);
    let p9 = p8.then_marks("::"@, holes);
    let p10 = p9.then_word("Arc"@, holes);
    let p11 = p10.then_mark("<"@, holes);
    assert(p11.tokens =~= seq![
        Tok::Punct(':', false),
        Tok::Punct(':', true),
        Tok::Punct(':', false),
        Tok::Ident("std"@),
        Tok::Punct(':', true),
        Tok::Punct(':', false),
        Tok::Ident("sync"@),
        Tok::Punct(':', true),
        Tok::Punct(':', false),
        Tok::Ident("Arc"@),
        Tok::Punct('<', false),
    ]);
    let p12 = p11.as_text(": :: std :: sync :: Arc <"@, holes);
    let p13 = p3.then_piece(p12, holes);
    let p14 = Piece::of_hole("#b"@, holes, 1);
    let p15 = p13.then_piece(p14, holes);
    let p16 = Piece::of_mark(">"@, holes);
    let p17 = p16.then_mark("="@, holes);
    let p18 = p17.then_word("match"@, holes);
    let p19 = p18.then_word("ctx"@, holes);
    let p20 = p19.then_mark("."@, holes);
    let p21 = p20.then_word("consume_context"@, holes);
    let p22 = p21.then_marks("::"@, holes);
    let p23 = p22.then_mark("<"@, holes);
    assert(p23.tokens =~= seq![
        Tok::Punct('>', false),
        Tok::Punct('=', false),
        Tok::Ident("match"@),
        Tok::Ident("ctx"@),
        Tok::Punct('.', false),
        Tok::Ident("consume_context"@),
        Tok::Punct(':', true),
        Tok::Punct(':', false),
        Tok::Punct('<', false),
    ]);
    let p24 = p23.as_text("> = match ctx . consume_context :: <"@, holes);
    let p25 = p15.then_piece(p24, holes);
    let p26 = Piece::of_hole("#b"@, holes, 1);
    let p27 = p25.then_piece(p26, holes);
    let p28 = Piece::of_mark(">"@, holes);
    let p29 = p27.then_piece(p28, holes);
    let p31 = Piece::of_hole("#c"@, holes, 2);
    let p30 = p31.in_round(holes);
    let p32 = p29.then_piece(p30, holes);
    let p33 = Piece::of_mark("."@, holes);
    let p34 = p33.then_word("await"@, holes);
    assert(p34.tokens =~= seq![Tok::Punct('.', false), Tok::Ident("await"@)]);
    let p35 = p32.then_piece(p34, holes);
    let p37 = Piece::of_word("Some"@, holes);
    let p39 = Piece::of_word("v"@, holes);
    let p38 = p39.in_round(holes);
    let p40 = p37.then_piece(p38, holes);
    let p41 = p40.then_marks("=>"@, holes);
    let p42 = p41.then_word("v"@, holes);
    let p43 = p42.then_mark(","@, holes);
    let p44 = p43.then_word("None"@, holes);
    let p45 = p44.then_marks("=>"@, holes);
    assert(p45.tokens =~= seq![
        Tok::Ident("Some"@),
        Tok::Group(Delim::Parenthesis, seq![Tok::Ident("v"@)]),
        Tok::Punct('=', true),
        Tok::Punct('>', false),
        Tok::Ident("v"@),
        Tok::Punct(',', false),
        Tok::Ident("None"@),
        Tok::Punct('=', true),
        Tok::Punct('>', false),
    ]);
    let p46 = p45.as_text("Some ( v ) => v , None =>"@, holes);
    let p48 = Piece::of_hole("#d"@, holes, 3);
    let p47 = p48.in_curly(holes);
    let p49 = p46.then_piece(p47, holes);
    let p36 = p49.in_curly(holes);
    let p50 = p35.then_piece(p36, holes);
    let p51 = Piece::of_mark(";"@, holes);
    let p52 = p50.then_piece(p51, holes);
    let p53 = p52.as_text("let #a : :: std :: sync :: Arc < #b > = match ctx . consume_context :: < #b > ( #c ) . await { Some ( v ) => v , None => { #d } } ;"@, holes);
    assert(TAKE_CONTEXT@ =~= p53.text);
    lemma_stands_rendered(TAKE_CONTEXT@, holes, p53.tokens);
}

/// What `GET_CONTEXT` stands for.
pub(crate) proof fn spell_get_context(a: Seq<Tok>, b: Seq<Tok>, c: Seq<Tok>, d: Seq<Tok>)
    ensures
        rendered(GET_CONTEXT@, seq![a, b, c, d]) == seq![Tok::Ident("let"@)] + a
            + seq![
                Tok::Punct(':', false),
                Tok::Punct(':', true),
                Tok::Punct(':', false),
                Tok::Ident("std"@),
                Tok::Punct(':', true),
                Tok::Punct(':', false),
                Tok::Ident("sync"@),
                Tok::Punct(':', true),
                Tok::Punct(':', false),
                Tok::Ident("Arc"@),
                Tok::Punct('<', false),
            ] + b
            + seq![
                Tok::Punct('>', false),
                Tok::Punct('=', false),
                Tok::Ident("match"@),
                Tok::Ident("ctx"@),
                Tok::Punct('.', false),
                Tok::Ident("get_context"@),
                Tok::Punct(':', true),
                Tok::Punct(':', false),
                Tok::Punct('<', false),
            ] + b
            + seq![Tok::Punct('>', false)]
            + seq![Tok::Group(Delim::Parenthesis, c)]
            + seq![Tok::Punct('.', false), Tok::Ident("await"@)]
            + seq![
                Tok::Group(
                    Delim::Brace,
                    seq![
                        Tok::Ident("Some"@),
                        Tok::Group(Delim::Parenthesis, seq![Tok::Ident("v"@)]),
                        Tok::Punct('=', true),
                        Tok::Punct('>', false),
                        Tok::Ident("v"@),
                        Tok::Punct(',', false),
                        Tok::Ident("None"@),
                        Tok::Punct('=', true),
                        Tok::Punct('>', false),
                    ] + seq![Tok::Group(Delim::Brace, d)],
                ),
            ] + seq![Tok::Punct(';', false)],
{
    reveal_strlit("let");
    reveal_strlit("#a");
    reveal_strlit(":");
    reveal_strlit("::");
    reveal_strlit("std");
    reveal_strlit("sync");
    reveal_strlit("Arc");
    reveal_strlit("<");
    reveal_strlit(": :: std :: sync :: Arc <");
    reveal_strlit("#b");
    reveal_strlit(">");
    reveal_strlit("=");
    reveal_strlit("match");
    reveal_strlit("ctx");
    reveal_strlit(".");
    reveal_strlit("get_context");
    reveal_strlit("> = match ctx . get_context :: <");
    reveal_strlit("#c");
    reveal_strlit("await");
    reveal_strlit("Some");
    reveal_strlit("v");
    reveal_strlit("=>");
    reveal_strlit(",");
    reveal_strlit("None");
    reveal_strlit("Some ( v ) => v , None =>");
    reveal_strlit("#d");
    reveal_strlit(";");
    reveal_strlit(
        "let #a : :: std :: sync :: Arc < #b > = match ctx . get_context :: < #b > ( #c ) . await { Some ( v ) => v , None => { #d } } ;",
    );
    let holes = seq![a, b, c, d];
    let p1 = Piece::of_word("let"@, holes);
    let p2 = Piece::of_hole("#a"@, holes, 0);
    let p3 = p1.then_piece(p2, holes);
    let p4 = Piece::of_mark(":"@, holes);
    let p5 = p4.then_marks("::"@, holes);
    let p6 = p5.then_word("std"@, holes);
    let p7 = p6.then_marks("::"@, holes);
    let p8 = p7.then_word("sync"@, holes);
    let p9 = p8.then_marks("::"@, holes);
    let p10 = p9.then_word("Arc"@, holes);
    let p11 = p10.then_mark("<"@, holes);
    assert(p11.tokens =~= seq![
        Tok::Punct(':', false),
        Tok::Punct(':', true),
        Tok::Punct(':', false),
        Tok::Ident("std"@),
        Tok::Punct(':', true),
        Tok::Punct(':', false),
        Tok::Ident("sync"@),
        Tok::Punct(':', true),
        Tok::Punct(':', false),
        Tok::Ident("Arc"@),
        Tok::Punct('<', false),
    ]);
    let p12 = p11.as_text(": :: std :: sync :: Arc <"@, holes);
    let p13 = p3.then_piece(p12, holes);
    let p14 = Piece::of_hole("#b"@, holes, 1);
    let p15 = p13.then_piece(p14, holes);
    let p16 = Piece::of_mark(">"@, holes);
    let p17 = p16.then_mark("="@, holes);
    let p18 = p17.then_word("match"@, holes);
    let p19 = p18.then_word("ctx"@, holes);
    let p20 = p19.then_mark("."@, holes);
    let p21 = p20.then_word("get_context"@, holes);
    let p22 = p21.then_marks("::"@, holes);
    let p23 = p22.then_mark("<"@, holes);
    assert(p23.tokens =~= seq![
        Tok::Punct('>', false),
        Tok::Punct('=', false),
        Tok::Ident("match"@),
        Tok::Ident("ctx"@),
        Tok::Punct('.', false),
        Tok::Ident("get_context"@),
        Tok::Punct(':', true),
        Tok::Punct(':', false),
        Tok::Punct('<', false),
    ]);
    let p24 = p23.as_text("> = match ctx . get_context :: <"@, holes);
    let p25 = p15.then_piece(p24, holes);
    let p26 = Piece::of_hole("#b"@, holes, 1);
    let p27 = p25.then_piece(p26, holes);
    let p28 = Piece::of_mark(">"@, holes);
    let p29 = p27.then_piece(p28, holes);
    let p31 = Piece::of_hole("#c"@, holes, 2);
    let p30 = p31.in_round(holes);
    let p32 = p29.then_piece(p30, holes);
    let p33 = Piece::of_mark("."@, holes);
    let p34 = p33.then_word("await"@, holes);
    assert(p34.tokens =~= seq![Tok::Punct('.', false), Tok::Ident("await"@)]);
    let p35 = p32.then_piece(p34, holes);
    let p37 = Piece::of_word("Some"@, holes);
    let p39 = Piece::of_word("v"@, holes);
    let p38 = p39.in_round(holes);
    let p40 = p37.then_piece(p38, holes);
    let p41 = p40.then_marks("=>"@, holes);
    let p42 = p41.then_word("v"@, holes);
    let p43 = p42.then_mark(","@, holes);
    let p44 = p43.then_word("None"@, holes);
    let p45 = p44.then_marks("=>"@, holes);
    assert(p45.tokens =~= seq![
        Tok::Ident("Some"@),
        Tok::Group(Delim::Parenthesis, seq![Tok::Ident("v"@)]),
        Tok::Punct('=', true),
        Tok::Punct('>', false),
        Tok::Ident("v"@),
        Tok::Punct(',', false),
        Tok::Ident("None"@),
        Tok::Punct('=', true),
        Tok::Punct('>', false),
    ]);
    let p46 = p45.as_text("Some ( v ) => v , None =>"@, holes);
    let p48 = Piece::of_hole("#d"@, holes, 3);
    let p47 = p48.in_curly(holes);
    let p49 = p46.then_piece(p47, holes);
    let p36 = p49.in_curly(holes);
    let p50 = p35.then_piece(p36, holes);
    let p51 = Piece::of_mark(";"@, holes);
    let p52 = p50.then_piece(p51, holes);
    let p53 = p52.as_text("let #a : :: std :: sync :: Arc < #b > = match ctx . get_context :: < #b > ( #c ) . await { Some ( v ) => v , None => { #d } } ;"@, holes);
    assert(GET_CONTEXT@ =~= p53.text);
    lemma_stands_rendered(GET_CONTEXT@, holes, p53.tokens);
}

/// What `LEND` stands for.
pub(crate) proof fn spell_lend(a: Seq<Tok>)
    ensures
        rendered(LEND@, seq![a]) == seq![Tok::Punct('&', false)] + a,
{
    reveal_strlit("&");
    reveal_strlit("#a");
    reveal_strlit("& #a");
    let holes = seq![a];
    let p1 = Piece::of_mark("&"@, holes);
    let p2 = Piece::of_hole("#a"@, holes, 0);
    let p3 = p1.then_piece(p2, holes);
    assert(LEND@ =~= p3.text);
    lemma_stands_rendered(LEND@, holes, p3.tokens);
}

/// What `ADAPTER_STRUCT` stands for.
pub(crate) proof fn spell_adapter_struct(a: Seq<Tok>, b: Seq<Tok>, c: Seq<Tok>)
    ensures
        rendered(ADAPTER_STRUCT@, seq![a, b, c]) == a + seq![Tok::Ident("struct"@)] + b
            + seq![Tok::Punct('<', false), Tok::Ident("H"@), Tok::Punct(':', false)]
            + c
            + seq![
                Tok::Punct('>', false),
                Tok::Group(Delim::Parenthesis, seq![Tok::Ident("pub"@), Tok::Ident("H"@)]),
                Tok::Punct(';', false),
            ],
{
    reveal_strlit("#a");
    reveal_strlit("struct");
    reveal_strlit("#b");
    reveal_strlit("<");
    reveal_strlit("H");
    reveal_strlit(":");
    reveal_strlit("#c");
    reveal_strlit(">");
    reveal_strlit("pub");
    reveal_strlit(";");
    reveal_strlit("#a struct #b < H : #c > ( pub H ) ;");
    let holes = seq![a, b, c];
    let p1 = Piece::of_hole("#a"@, holes, 0);
    let p2 = Piece::of_word("struct"@, holes);
    let p3 = p1.then_piece(p2, holes);
    let p4 = Piece::of_hole("#b"@, holes, 1);
    let p5 = p3.then_piece(p4, holes);
    let p6 = Piece::of_mark("<"@, holes);
    let p7 = p6.then_word("H"@, holes);
    let p8 = p7.then_mark(":"@, holes);
    assert(p8.tokens =~= seq![Tok::Punct('<', false), Tok::Ident("H"@), Tok::Punct(':', false)]);
    let p9 = p5.then_piece(p8, holes);
    let p10 = Piece::of_hole("#c"@, holes, 2);
    let p11 = p9.then_piece(p10, holes);
    let p12 = Piece::of_mark(">"@, holes);
    let p14 = Piece::of_word("pub"@, holes);
    let p15 = p14.then_word("H"@, holes);
    assert(p15.tokens =~= seq![Tok::Ident("pub"@), Tok::Ident("H"@)]);
    let p13 = p15.in_round(holes);
    let p16 = p12.then_piece(p13, holes);
    let p17 = p16.then_mark(";"@, holes);
    assert(p17.tokens =~= seq![
        Tok::Punct('>', false),
        Tok::Group(Delim::Parenthesis, seq![Tok::Ident("pub"@), Tok::Ident("H"@)]),
        Tok::Punct(';', false),
    ]);
    let p18 = p11.then_piece(p17, holes);
    let p19 = p18.as_text("#a struct #b < H : #c > ( pub H ) ;"@, holes);
    assert(ADAPTER_STRUCT@ =~= p19.text);
    lemma_stands_rendered(ADAPTER_STRUCT@, holes, p19.tokens);
}

/// What `CALL_START` stands for.
pub(crate) proof fn spell_call_start(a: Seq<Tok>, b: Seq<Tok>)
    ensures
        rendered(CALL_START@, seq![a, b]) == seq![Tok::Ident("self"@), Tok::Punct('.', false)] + a
            + seq![Tok::Punct('.', false), Tok::Ident("start"@)]
            + seq![Tok::Group(Delim::Parenthesis, b + seq![Tok::Ident("cancel"@)])]
            + seq![Tok::Punct('.', false), Tok::Ident("await"@)],
{
    reveal_strlit("self");
    reveal_strlit(".");
    reveal_strlit("#a");
    reveal_strlit("start");
    reveal_strlit("#b");
    reveal_strlit("cancel");
    reveal_strlit("await");
    reveal_strlit("self . #a . start ( #b cancel ) . await");
    let holes = seq![a, b];
    let p1 = Piece::of_word("self"@, holes);
    let p2 = p1.then_mark("."@, holes);
    assert(p2.tokens =~= seq![Tok::Ident("self"@), Tok::Punct('.', false)]);
    let p3 = Piece::of_hole("#a"@, holes, 0);
    let p4 = p2.then_piece(p3, holes);
    let p5 = Piece::of_mark("."@, holes);
    let p6 = p5.then_word("start"@, holes);
    assert(p6.tokens =~= seq![Tok::Punct('.', false), Tok::Ident("start"@)]);
    let p7 = p4.then_piece(p6, holes);
    let p9 = Piece::of_hole("#b"@, holes, 1);
    let p10 = Piece::of_word("cancel"@, holes);
    let p11 = p9.then_piece(p10, holes);
    let p8 = p11.in_round(holes);
    let p12 = p7.then_piece(p8, holes);
    let p13 = Piece::of_mark("."@, holes);
    let p14 = p13.then_word("await"@, holes);
    assert(p14.tokens =~= seq![Tok::Punct('.', false), Tok::Ident("await"@)]);
    let p15 = p12.then_piece(p14, holes);
    let p16 = p15.as_text("self . #a . start ( #b cancel ) . await"@, holes);
    assert(CALL_START@ =~= p16.text);
    lemma_stands_rendered(CALL_START@, holes, p16.tokens);
}

/// What `MONITOR_IMPL` stands for.
pub(crate) proof fn spell_monitor_impl(a: Seq<Tok>, b: Seq<Tok>, c: Seq<Tok>, d: Seq<Tok>)
    ensures
        rendered(MONITOR_IMPL@, seq![a, b, c, d]) == async_trait_attribute()
            + seq![
                Tok::Ident("impl"@),
                Tok::Punct('<', false),
                Tok::Ident("H"@),
                Tok::Punct(':', false),
            ] + b
            + seq![
                Tok::Punct('+', false),
                Tok::Punct('\'', true),
                Tok::Ident("static"@),
                Tok::Punct('>', false),
                Tok::Ident("trade_lang_core"@),
                Tok::Punct(':', true),
                Tok::Punct(':', false),
                Tok::Ident("MonitorHandler"@),
                Tok::Ident("for"@),
            ] + a
            + seq![Tok::Punct('<', false), Tok::Ident("H"@), Tok::Punct('>', false)]
            + seq![
                Tok::Group(
                    Delim::Brace,
                    seq![Tok::Ident("async"@), Tok::Ident("fn"@), Tok::Ident("start"@)]
                        + seq![
                            Tok::Group(
                                Delim::Parenthesis,
                                seq![
                                    Tok::Punct('&', false),
                                    Tok::Ident("self"@),
                                    Tok::Punct(',', false),
                                ] + args_declaration()
                                    + seq![Tok::Punct(',', false)]
                                    + cancel_declaration()
                                    + seq![Tok::Punct(',', false)],
                            ),
                        ] + seq![Tok::Punct('-', true), Tok::Punct('>', false)]
                        + messages_type()
                        + seq![Tok::Group(Delim::Brace, c + d)],
                ),
            ],
{
    reveal_strlit("# [ async_trait :: async_trait ]");
    reveal_strlit("impl");
    reveal_strlit("<");
    reveal_strlit("H");
    reveal_strlit(":");
    reveal_strlit("impl < H :");
    reveal_strlit("#b");
    reveal_strlit("+");
    reveal_strlit("'static");
    reveal_strlit("static");
    reveal_strlit(">");
    reveal_strlit("trade_lang_core");
    reveal_strlit("::");
    reveal_strlit("MonitorHandler");
    reveal_strlit("for");
    reveal_strlit("+ 'static > trade_lang_core :: MonitorHandler for");
    reveal_strlit("#a");
    reveal_strlit("async");
    reveal_strlit("fn");
    reveal_strlit("start");
    reveal_strlit("&");
    reveal_strlit("self");
    reveal_strlit(",");
    reveal_strlit(
        "args : & :: std :: collections :: HashMap < :: std :: string :: String , trade_meta_compiler :: RuntimeValue >",
    );
    reveal_strlit("cancel : trade_lang_core :: CancellationToken");
    reveal_strlit(
        "& self , args : & :: std :: collections :: HashMap < :: std :: string :: String , trade_meta_compiler :: RuntimeValue > , cancel : trade_lang_core :: CancellationToken ,",
    );
    reveal_strlit("->");
    reveal_strlit(
        "trade_lang_core :: monitor_mpsc :: Receiver < trade_lang_core :: MonitorMessage >",
    );
    reveal_strlit("#c");
    reveal_strlit("#d");
    reveal_strlit(
        "async fn start ( & self , args : & :: std :: collections :: HashMap < :: std :: string :: String , trade_meta_compiler :: RuntimeValue > , cancel : trade_lang_core :: CancellationToken , ) -> trade_lang_core :: monitor_mpsc :: Receiver < trade_lang_core :: MonitorMessage > { #c #d }",
    );
    reveal_strlit(
        "# [ async_trait :: async_trait ] impl < H : #b + 'static > trade_lang_core :: MonitorHandler for #a < H > { async fn start ( & self , args : & :: std :: collections :: HashMap < :: std :: string :: String , trade_meta_compiler :: RuntimeValue > , cancel : trade_lang_core :: CancellationToken , ) -> trade_lang_core :: monitor_mpsc :: Receiver < trade_lang_core :: MonitorMessage > { #c #d } }",
    );
    let holes = seq![a, b, c, d];
    let p1 = piece_async_trait_attribute(holes);
    let p2 = Piece::of_word("impl"@, holes);
    let p3 = p2.then_mark("<"@, holes);
    let p4 = p3.then_word("H"@, holes);
    let p5 = p4.then_mark(":"@, holes);
    assert(p5.tokens =~= seq![
        Tok::Ident("impl"@),
        Tok::Punct('<', false),
        Tok::Ident("H"@),
        Tok::Punct(':', false),
    ]);
    let p6 = p5.as_text("impl < H :"@, holes);
    let p7 = p1.then_piece(p6, holes);
    let p8 = Piece::of_hole("#b"@, holes, 1);
    let p9 = p7.then_piece(p8, holes);
    let p10 = Piece::of_mark("+"@, holes);
    assert("'static"@ =~= seq!['\''] + "static"@);
    let p11 = p10.then_lifetime("'static"@, "static"@, holes);
    let p12 = p11.then_mark(">"@, holes);
    let p13 = p12.then_word("trade_lang_core"@, holes);
    let p14 = p13.then_marks("::"@, holes);
    let p15 = p14.then_word("MonitorHandler"@, holes);
    let p16 = p15.then_word("for"@, holes);
    assert(p16.tokens =~= seq![
        Tok::Punct('+', false),
        Tok::Punct('\'', true),
        Tok::Ident("static"@),
        Tok::Punct('>', false),
        Tok::Ident("trade_lang_core"@),
        Tok::Punct(':', true),
        Tok::Punct(':', false),
        Tok::Ident("MonitorHandler"@),
        Tok::Ident("for"@),
    ]);
    let p17 = p16.as_text("+ 'static > trade_lang_core :: MonitorHandler for"@, holes);
    let p18 = p9.then_piece(p17, holes);
    let p19 = Piece::of_hole("#a"@, holes, 0);
    let p20 = p18.then_piece(p19, holes);
    let p21 = Piece::of_mark("<"@, holes);
    let p22 = p21.then_word("H"@, holes);
    let p23 = p22.then_mark(">"@, holes);
    assert(p23.tokens =~= seq![Tok::Punct('<', false), Tok::Ident("H"@), Tok::Punct('>', false)]);
    let p24 = p20.then_piece(p23, holes);
    let p26 = Piece::of_word("async"@, holes);
    let p27 = p26.then_word("fn"@, holes);
    let p28 = p27.then_word("start"@, holes);
    assert(p28.tokens =~= seq![Tok::Ident("async"@), Tok::Ident("fn"@), Tok::Ident("start"@)]);
    let p30 = Piece::of_mark("&"@, holes);
    let p31 = p30.then_word("self"@, holes);
    let p32 = p31.then_mark(","@, holes);
    assert(p32.tokens =~= seq![Tok::Punct('&', false), Tok::Ident("self"@), Tok::Punct(',', false)]);
    let p33 = piece_args_declaration(holes);
    let p34 = p32.then_piece(p33, holes);
    let p35 = Piece::of_mark(","@, holes);
    let p36 = p34.then_piece(p35, holes);
    let p37 = piece_cancel_declaration(holes);
    let p38 = p36.then_piece(p37, holes);
    let p39 = Piece::of_mark(","@, holes);
    let p40 = p38.then_piece(p39, holes);
    let p41 = p40.as_text("& self , args : & :: std :: collections :: HashMap < :: std :: string :: String , trade_meta_compiler :: RuntimeValue > , cancel : trade_lang_core :: CancellationToken ,"@, holes);
    let p29 = p41.in_round(holes);
    let p42 = p28.then_piece(p29, holes);
    let p43 = Piece::of_marks("->"@, holes);
    let p44 = p42.then_piece(p43, holes);
    let p45 = piece_messages_type(holes);
    let p46 = p44.then_piece(p45, holes);
    let p48 = Piece::of_hole("#c"@, holes, 2);
    let p49 = Piece::of_hole("#d"@, holes, 3);
    let p50 = p48.then_piece(p49, holes);
    let p47 = p50.in_curly(holes);
    let p51 = p46.then_piece(p47, holes);
    let p52 = p51.as_text("async fn start ( & self , args : & :: std :: collections :: HashMap < :: std :: string :: String , trade_meta_compiler :: RuntimeValue > , cancel : trade_lang_core :: CancellationToken , ) -> trade_lang_core :: monitor_mpsc :: Receiver < trade_lang_core :: MonitorMessage > { #c #d }"@, holes);
    let p25 = p52.in_curly(holes);
    let p53 = p24.then_piece(p25, holes);
    let p54 = p53.as_text("# [ async_trait :: async_trait ] impl < H : #b + 'static > trade_lang_core :: MonitorHandler for #a < H > { async fn start ( & self , args : & :: std :: collections :: HashMap < :: std :: string :: String , trade_meta_compiler :: RuntimeValue > , cancel : trade_lang_core :: CancellationToken , ) -> trade_lang_core :: monitor_mpsc :: Receiver < trade_lang_core :: MonitorMessage > { #c #d } }"@, holes);
    assert(MONITOR_IMPL@ =~= p54.text);
    lemma_stands_rendered(MONITOR_IMPL@, holes, p54.tokens);
}

/// What `CALL_EXECUTE` stands for.
pub(crate) proof fn spell_call_execute(a: Seq<Tok>, b: Seq<Tok>, c: Seq<Tok>)
    ensures
        rendered(CALL_EXECUTE@, seq![a, b, c]) == seq![Tok::Ident("self"@), Tok::Punct('.', false)]
            + a
            + seq![Tok::Punct('.', false), Tok::Ident("execute"@)]
            + seq![Tok::Group(Delim::Parenthesis, b + c + seq![Tok::Ident("ctx"@)])]
            + seq![Tok::Punct('.', false), Tok::Ident("await"@)],
{
    reveal_strlit("self");
    reveal_strlit(".");
    reveal_strlit("#a");
    reveal_strlit("execute");
    reveal_strlit("#b");
    reveal_strlit("#c");
    reveal_strlit("ctx");
    reveal_strlit("#b #c ctx");
    reveal_strlit("await");
    reveal_strlit("self . #a . execute ( #b #c ctx ) . await");
    let holes = seq![a, b, c];
    let p1 = Piece::of_word("self"@, holes);
    let p2 = p1.then_mark("."@, holes);
    assert(p2.tokens =~= seq![Tok::Ident("self"@), Tok::Punct('.', false)]);
    let p3 = Piece::of_hole("#a"@, holes, 0);
    let p4 = p2.then_piece(p3, holes);
    let p5 = Piece::of_mark("."@, holes);
    let p6 = p5.then_word("execute"@, holes);
    assert(p6.tokens =~= seq![Tok::Punct('.', false), Tok::Ident("execute"@)]);
    let p7 = p4.then_piece(p6, holes);
    let p9 = Piece::of_hole("#b"@, holes, 1);
    let p10 = Piece::of_hole("#c"@, holes, 2);
    let p11 = p9.then_piece(p10, holes);
    let p12 = Piece::of_word("ctx"@, holes);
    let p13 = p11.then_piece(p12, holes);
    let p14 = p13.as_text("#b #c ctx"@, holes);
    let p8 = p14.in_round(holes);
    let p15 = p7.then_piece(p8, holes);
    let p16 = Piece::of_mark("."@, holes);
    let p17 = p16.then_word("await"@, holes);
    assert(p17.tokens =~= seq![Tok::Punct('.', false), Tok::Ident("await"@)]);
    let p18 = p15.then_piece(p17, holes);
    let p19 = p18.as_text("self . #a . execute ( #b #c ctx ) . await"@, holes);
    assert(CALL_EXECUTE@ =~= p19.text);
    lemma_stands_rendered(CALL_EXECUTE@, holes, p19.tokens);
}

/// What `EXECUTE_FAILED` stands for.
pub(crate) proof fn spell_execute_failed(a: Seq<Tok>)
    ensures
        rendered(EXECUTE_FAILED@, seq![a]) == seq![
            Tok::Ident("log"@),
            Tok::Punct(':', true),
            Tok::Punct(':', false),
            Tok::Ident("warn"@),
            Tok::Punct('!', false),
        ] + seq![Tok::Group(Delim::Parenthesis, a + seq![Tok::Punct(',', false), Tok::Ident("e"@)])]
            + seq![
                Tok::Punct(';', false),
                Tok::Ident("ctx"@),
                Tok::Punct('.', false),
                Tok::Ident("signal_done"@),
                Tok::Group(Delim::Parenthesis, Seq::<Tok>::empty()),
                Tok::Punct(';', false),
                Tok::Ident("return"@),
                Tok::Ident("None"@),
                Tok::Punct(';', false),
            ],
{
    reveal_strlit("log");
    reveal_strlit("::");
    reveal_strlit("warn");
    reveal_strlit("!");
    reveal_strlit("log :: warn !");
    reveal_strlit("#a");
    reveal_strlit(",");
    reveal_strlit("e");
    reveal_strlit(";");
    reveal_strlit("ctx");
    reveal_strlit(".");
    reveal_strlit("signal_done");
    reveal_strlit("return");
    reveal_strlit("None");
    reveal_strlit("; ctx . signal_done ( ) ; return None ;");
    reveal_strlit("log :: warn ! ( #a , e ) ; ctx . signal_done ( ) ; return None ;");
    let holes = seq![a];
    let p1 = Piece::of_word("log"@, holes);
    let p2 = p1.then_marks("::"@, holes);
    let p3 = p2.then_word("warn"@, holes);
    let p4 = p3.then_mark("!"@, holes);
    assert(p4.tokens =~= seq![
        Tok::Ident("log"@),
        Tok::Punct(':', true),
        Tok::Punct(':', false),
        Tok::Ident("warn"@),
        Tok::Punct('!', false),
    ]);
    let p5 = p4.as_text("log :: warn !"@, holes);
    let p7 = Piece::of_hole("#a"@, holes, 0);
    let p8 = Piece::of_mark(","@, holes);
    let p9 = p8.then_word("e"@, holes);
    assert(p9.tokens =~= seq![Tok::Punct(',', false), Tok::Ident("e"@)]);
    let p10 = p7.then_piece(p9, holes);
    let p6 = p10.in_round(holes);
    let p11 = p5.then_piece(p6, holes);
    let p12 = Piece::of_mark(";"@, holes);
    let p13 = p12.then_word("ctx"@, holes);
    let p14 = p13.then_mark("."@, holes);
    let p15 = p14.then_word("signal_done"@, holes);
    let p16 = Piece::empty_round(holes);
    let p17 = p15.then_piece(p16, holes);
    let p18 = p17.then_mark(";"@, holes);
    let p19 = p18.then_word("return"@, holes);
    let p20 = p19.then_word("None"@, holes);
    let p21 = p20.then_mark(";"@, holes);
    assert(p21.tokens =~= seq![
        Tok::Punct(';', false),
        Tok::Ident("ctx"@),
        Tok::Punct('.', false),
        Tok::Ident("signal_done"@),
        Tok::Group(Delim::Parenthesis, Seq::<Tok>::empty()),
        Tok::Punct(';', false),
        Tok::Ident("return"@),
        Tok::Ident("None"@),
        Tok::Punct(';', false),
    ]);
    let p22 = p21.as_text("; ctx . signal_done ( ) ; return None ;"@, holes);
    let p23 = p11.then_piece(p22, holes);
    let p24 = p23.as_text("log :: warn ! ( #a , e ) ; ctx . signal_done ( ) ; return None ;"@, holes);
    assert(EXECUTE_FAILED@ =~= p24.text);
    lemma_stands_rendered(EXECUTE_FAILED@, holes, p24.tokens);
}

/// What `RUN` stands for.
pub(crate) proof fn spell_run(a: Seq<Tok>, b: Seq<Tok>)
    ensures
        rendered(RUN@, seq![a, b]) == seq![Tok::Ident("match"@)] + a
            + seq![
                Tok::Group(
                    Delim::Brace,
                    seq![
                        Tok::Ident("Ok"@),
                        Tok::Group(
                            Delim::Parenthesis,
                            seq![Tok::Group(Delim::Parenthesis, Seq::<Tok>::empty())],
                        ),
                        Tok::Punct('=', true),
                        Tok::Punct('>', false),
                        Tok::Group(Delim::Brace, Seq::<Tok>::empty()),
                        Tok::Punct(',', false),
                        Tok::Ident("Err"@),
                        Tok::Group(Delim::Parenthesis, seq![Tok::Ident("e"@)]),
                        Tok::Punct('=', true),
                        Tok::Punct('>', false),
                    ] + seq![Tok::Group(Delim::Brace, b)],
                ),
            ],
{
    reveal_strlit("match");
    reveal_strlit("#a");
    reveal_strlit("Ok");
    reveal_strlit("=>");
    reveal_strlit(",");
    reveal_strlit("Err");
    reveal_strlit("e");
    reveal_strlit("Ok ( ( ) ) => { } , Err ( e ) =>");
    reveal_strlit("#b");
    reveal_strlit("match #a { Ok ( ( ) ) => { } , Err ( e ) => { #b } }");
    let holes = seq![a, b];
    let p1 = Piece::of_word("match"@, holes);
    let p2 = Piece::of_hole("#a"@, holes, 0);
    let p3 = p1.then_piece(p2, holes);
    let p5 = Piece::of_word("Ok"@, holes);
    let p7 = Piece::empty_round(holes);
    assert(p7.tokens =~= seq![Tok::Group(Delim::Parenthesis, Seq::<Tok>::empty())]);
    let p6 = p7.in_round(holes);
    let p8 = p5.then_piece(p6, holes);
    let p9 = p8.then_marks("=>"@, holes);
    let p10 = Piece::empty_curly(holes);
    let p11 = p9.then_piece(p10, holes);
    let p12 = p11.then_mark(","@, holes);
    let p13 = p12.then_word("Err"@, holes);
    let p15 = Piece::of_word("e"@, holes);
    let p14 = p15.in_round(holes);
    let p16 = p13.then_piece(p14, holes);
    let p17 = p16.then_marks("=>"@, holes);
    assert(p17.tokens =~= seq![
        Tok::Ident("Ok"@),
        Tok::Group(Delim::Parenthesis, seq![Tok::Group(Delim::Parenthesis, Seq::<Tok>::empty())]),
        Tok::Punct('=', true),
        Tok::Punct('>', false),
        Tok::Group(Delim::Brace, Seq::<Tok>::empty()),
        Tok::Punct(',', false),
        Tok::Ident("Err"@),
        Tok::Group(Delim::Parenthesis, seq![Tok::Ident("e"@)]),
        Tok::Punct('=', true),
        Tok::Punct('>', false),
    ]);
    let p18 = p17.as_text("Ok ( ( ) ) => { } , Err ( e ) =>"@, holes);
    let p20 = Piece::of_hole("#b"@, holes, 1);
    let p19 = p20.in_curly(holes);
    let p21 = p18.then_piece(p19, holes);
    let p4 = p21.in_curly(holes);
    let p22 = p3.then_piece(p4, holes);
    let p23 = p22.as_text("match #a { Ok ( ( ) ) => { } , Err ( e ) => { #b } }"@, holes);
    assert(RUN@ =~= p23.text);
    lemma_stands_rendered(RUN@, holes, p23.tokens);
}

/// What `RUN_FOR_ONE` stands for.
pub(crate) proof fn spell_run_for_one(a: Seq<Tok>, b: Seq<Tok>)
    ensures
        rendered(RUN_FOR_ONE@, seq![a, b]) == seq![
            Tok::Ident("let"@),
            Tok::Ident("__result"@),
            Tok::Punct('=', false),
            Tok::Ident("match"@),
        ] + a
            + seq![
                Tok::Group(
                    Delim::Brace,
                    seq![
                        Tok::Ident("Ok"@),
                        Tok::Group(Delim::Parenthesis, seq![Tok::Ident("v"@)]),
                        Tok::Punct('=', true),
                        Tok::Punct('>', false),
                        Tok::Ident("v"@),
                        Tok::Punct(',', false),
                        Tok::Ident("Err"@),
                        Tok::Group(Delim::Parenthesis, seq![Tok::Ident("e"@)]),
                        Tok::Punct('=', true),
                        Tok::Punct('>', false),
                    ] + seq![Tok::Group(Delim::Brace, b)],
                ),
            ] + seq![Tok::Punct(';', false)],
{
    reveal_strlit("let");
    reveal_strlit("__result");
    reveal_strlit("=");
    reveal_strlit("match");
    reveal_strlit("let __result = match");
    reveal_strlit("#a");
    reveal_strlit("Ok");
    reveal_strlit("v");
    reveal_strlit("=>");
    reveal_strlit(",");
    reveal_strlit("Err");
    reveal_strlit("e");
    reveal_strlit("Ok ( v ) => v , Err ( e ) =>");
    reveal_strlit("#b");
    reveal_strlit(";");
    reveal_strlit("let __result = match #a { Ok ( v ) => v , Err ( e ) => { #b } } ;");
    let holes = seq![a, b];
    let p1 = Piece::of_word("let"@, holes);
    let p2 = p1.then_word("__result"@, holes);
    let p3 = p2.then_mark("="@, holes);
    let p4 = p3.then_word("match"@, holes);
    assert(p4.tokens =~= seq![
        Tok::Ident("let"@),
        Tok::Ident("__result"@),
        Tok::Punct('=', false),
        Tok::Ident("match"@),
    ]);
    let p5 = p4.as_text("let __result = match"@, holes);
    let p6 = Piece::of_hole("#a"@, holes, 0);
    let p7 = p5.then_piece(p6, holes);
    let p9 = Piece::of_word("Ok"@, holes);
    let p11 = Piece::of_word("v"@, holes);
    let p10 = p11.in_round(holes);
    let p12 = p9.then_piece(p10, holes);
    let p13 = p12.then_marks("=>"@, holes);
    let p14 = p13.then_word("v"@, holes);
    let p15 = p14.then_mark(","@, holes);
    let p16 = p15.then_word("Err"@, holes);
    let p18 = Piece::of_word("e"@, holes);
    let p17 = p18.in_round(holes);
    let p19 = p16.then_piece(p17, holes);
    let p20 = p19.then_marks("=>"@, holes);
    assert(p20.tokens =~= seq![
        Tok::Ident("Ok"@),
        Tok::Group(Delim::Parenthesis, seq![Tok::Ident("v"@)]),
        Tok::Punct('=', true),
        Tok::Punct('>', false),
        Tok::Ident("v"@),
        Tok::Punct(',', false),
        Tok::Ident("Err"@),
        Tok::Group(Delim::Parenthesis, seq![Tok::Ident("e"@)]),
        Tok::Punct('=', true),
        Tok::Punct('>', false),
    ]);
    let p21 = p20.as_text("Ok ( v ) => v , Err ( e ) =>"@, holes);
    let p23 = Piece::of_hole("#b"@, holes, 1);
    let p22 = p23.in_curly(holes);
    let p24 = p21.then_piece(p22, holes);
    let p8 = p24.in_curly(holes);
    let p25 = p7.then_piece(p8, holes);
    let p26 = Piece::of_mark(";"@, holes);
    let p27 = p25.then_piece(p26, holes);
    let p28 = p27.as_text("let __result = match #a { Ok ( v ) => v , Err ( e ) => { #b } } ;"@, holes);
    assert(RUN_FOR_ONE@ =~= p28.text);
    lemma_stands_rendered(RUN_FOR_ONE@, holes, p28.tokens);
}

/// What `RUN_FOR_MANY` stands for.
pub(crate) proof fn spell_run_for_many(a: Seq<Tok>, b: Seq<Tok>, c: Seq<Tok>)
    ensures
        rendered(RUN_FOR_MANY@, seq![a, b, c]) == seq![Tok::Ident("let"@)]
            + seq![Tok::Group(Delim::Parenthesis, c)]
            + seq![Tok::Punct('=', false), Tok::Ident("match"@)]
            + a
            + seq![
                Tok::Group(
                    Delim::Brace,
                    seq![
                        Tok::Ident("Ok"@),
                        Tok::Group(Delim::Parenthesis, seq![Tok::Ident("v"@)]),
                        Tok::Punct('=', true),
                        Tok::Punct('>', false),
                        Tok::Ident("v"@),
                        Tok::Punct(',', false),
                        Tok::Ident("Err"@),
                        Tok::Group(Delim::Parenthesis, seq![Tok::Ident("e"@)]),
                        Tok::Punct('=', true),
                        Tok::Punct('>', false),
                    ] + seq![Tok::Group(Delim::Brace, b)],
                ),
            ] + seq![Tok::Punct(';', false)],
{
    reveal_strlit("let");
    reveal_strlit("#c");
    reveal_strlit("=");
    reveal_strlit("match");
    reveal_strlit("#a");
    reveal_strlit("Ok");
    reveal_strlit("v");
    reveal_strlit("=>");
    reveal_strlit(",");
    reveal_strlit("Err");
    reveal_strlit("e");
    reveal_strlit("Ok ( v ) => v , Err ( e ) =>");
    reveal_strlit("#b");
    reveal_strlit(";");
    reveal_strlit("let ( #c ) = match #a { Ok ( v ) => v , Err ( e ) => { #b } } ;");
    let holes = seq![a, b, c];
    let p1 = Piece::of_word("let"@, holes);
    let p3 = Piece::of_hole("#c"@, holes, 2);
    let p2 = p3.in_round(holes);
    let p4 = p1.then_piece(p2, holes);
    let p5 = Piece::of_mark("="@, holes);
    let p6 = p5.then_word("match"@, holes);
    assert(p6.tokens =~= seq![Tok::Punct('=', false), Tok::Ident("match"@)]);
    let p7 = p4.then_piece(p6, holes);
    let p8 = Piece::of_hole("#a"@, holes, 0);
    let p9 = p7.then_piece(p8, holes);
    let p11 = Piece::of_word("Ok"@, holes);
    let p13 = Piece::of_word("v"@, holes);
    let p12 = p13.in_round(holes);
    let p14 = p11.then_piece(p12, holes);
    let p15 = p14.then_marks("=>"@, holes);
    let p16 = p15.then_word("v"@, holes);
    let p17 = p16.then_mark(","@, holes);
    let p18 = p17.then_word("Err"@, holes);
    let p20 = Piece::of_word("e"@, holes);
    let p19 = p20.in_round(holes);
    let p21 = p18.then_piece(p19, holes);
    let p22 = p21.then_marks("=>"@, holes);
    assert(p22.tokens =~= seq![
        Tok::Ident("Ok"@),
        Tok::Group(Delim::Parenthesis, seq![Tok::Ident("v"@)]),
        Tok::Punct('=', true),
        Tok::Punct('>', false),
        Tok::Ident("v"@),
        Tok::Punct(',', false),
        Tok::Ident("Err"@),
        Tok::Group(Delim::Parenthesis, seq![Tok::Ident("e"@)]),
        Tok::Punct('=', true),
        Tok::Punct('>', false),
    ]);
    let p23 = p22.as_text("Ok ( v ) => v , Err ( e ) =>"@, holes);
    let p25 = Piece::of_hole("#b"@, holes, 1);
    let p24 = p25.in_curly(holes);
    let p26 = p23.then_piece(p24, holes);
    let p10 = p26.in_curly(holes);
    let p27 = p9.then_piece(p10, holes);
    let p28 = Piece::of_mark(";"@, holes);
    let p29 = p27.then_piece(p28, holes);
    let p30 = p29.as_text("let ( #c ) = match #a { Ok ( v ) => v , Err ( e ) => { #b } } ;"@, holes);
    assert(RUN_FOR_MANY@ =~= p30.text);
    lemma_stands_rendered(RUN_FOR_MANY@, holes, p30.tokens);
}

/// What `RESULT` stands for.
pub(crate) proof fn spell_result()
    ensures
        rendered(RESULT@, seq![]) == seq![Tok::Ident("__result"@)],
{
    reveal_strlit("__result");
    let holes = Seq::<Seq<Tok>>::empty();
    let p1 = Piece::of_word("__result"@, holes);
    lemma_stands_rendered(RESULT@, holes, p1.tokens);
}

/// What `UNIT_VALUE` stands for.
pub(crate) proof fn spell_unit_value()
    ensures
        rendered(UNIT_VALUE@, seq![]) == value_type()
            + seq![Tok::Punct(':', true), Tok::Punct(':', false), Tok::Ident("Unit"@)],
{
    reveal_strlit("trade_meta_compiler :: RuntimeValue");
    reveal_strlit("::");
    reveal_strlit("Unit");
    reveal_strlit("trade_meta_compiler :: RuntimeValue :: Unit");
    let holes = Seq::<Seq<Tok>>::empty();
    let p1 = piece_value_type(holes);
    let p2 = Piece::of_marks("::"@, holes);
    let p3 = p2.then_word("Unit"@, holes);
    assert(p3.tokens =~= seq![Tok::Punct(':', true), Tok::Punct(':', false), Tok::Ident("Unit"@)]);
    let p4 = p1.then_piece(p3, holes);
    assert(UNIT_VALUE@ =~= p4.text);
    lemma_stands_rendered(UNIT_VALUE@, holes, p4.tokens);
}

/// What `EXECUTOR_IMPL` stands for.
pub(crate) proof fn spell_executor_impl(
    a: Seq<Tok>,
    b: Seq<Tok>,
    c: Seq<Tok>,
    d: Seq<Tok>,
    e: Seq<Tok>,
    f: Seq<Tok>,
    g: Seq<Tok>,
)
    ensures
        rendered(EXECUTOR_IMPL@, seq![a, b, c, d, e, f, g]) == async_trait_attribute()
            + seq![
                Tok::Ident("impl"@),
                Tok::Punct('<', false),
                Tok::Ident("H"@),
                Tok::Punct(':', false),
            ] + b
            + seq![
                Tok::Punct('+', false),
                Tok::Punct('\'', true),
                Tok::Ident("static"@),
                Tok::Punct('>', false),
                Tok::Ident("trade_lang_core"@),
                Tok::Punct(':', true),
                Tok::Punct(':', false),
                Tok::Ident("ExecutorHandler"@),
                Tok::Ident("for"@),
            ] + a
            + seq![Tok::Punct('<', false), Tok::Ident("H"@), Tok::Punct('>', false)]
            + seq![
                Tok::Group(
                    Delim::Brace,
                    seq![
                        Tok::Ident("fn"@),
                        Tok::Ident("declared_return_type"@),
                        Tok::Group(
                            Delim::Parenthesis,
                            seq![Tok::Punct('&', false), Tok::Ident("self"@)],
                        ),
                        Tok::Punct('-', true),
                        Tok::Punct('>', false),
                        Tok::Ident("Option"@),
                        Tok::Punct('<', false),
                    ] + description_type()
                        + seq![Tok::Punct('>', false)]
                        + seq![Tok::Group(Delim::Brace, c)]
                        + seq![Tok::Ident("async"@), Tok::Ident("fn"@), Tok::Ident("execute"@)]
                        + seq![
                            Tok::Group(
                                Delim::Parenthesis,
                                seq![
                                    Tok::Punct('&', false),
                                    Tok::Ident("self"@),
                                    Tok::Punct(',', false),
                                ] + args_declaration()
                                    + seq![Tok::Punct(',', false)]
                                    + task_declaration()
                                    + seq![Tok::Punct(',', false)],
                            ),
                        ] + seq![
                        Tok::Punct('-', true),
                        Tok::Punct('>', false),
                        Tok::Ident("Option"@),
                        Tok::Punct('<', false),
                    ] + value_type()
                        + seq![Tok::Punct('>', false)]
                        + seq![Tok::Group(Delim::Brace, d + e + f + g)],
                ),
            ],
{
    reveal_strlit("# [ async_trait :: async_trait ]");
    reveal_strlit("impl");
    reveal_strlit("<");
    reveal_strlit("H");
    reveal_strlit(":");
    reveal_strlit("impl < H :");
    reveal_strlit("#b");
    reveal_strlit("+");
    reveal_strlit("'static");
    reveal_strlit("static");
    reveal_strlit(">");
    reveal_strlit("trade_lang_core");
    reveal_strlit("::");
    reveal_strlit("ExecutorHandler");
    reveal_strlit("for");
    reveal_strlit("+ 'static > trade_lang_core :: ExecutorHandler for");
    reveal_strlit("#a");
    reveal_strlit("fn");
    reveal_strlit("declared_return_type");
    reveal_strlit("&");
    reveal_strlit("self");
    reveal_strlit("->");
    reveal_strlit("Option");
    reveal_strlit("fn declared_return_type ( & self ) -> Option <");
    reveal_strlit("trade_meta_compiler :: TypeSpec");
    reveal_strlit("#c");
    reveal_strlit("async");
    reveal_strlit("execute");
    reveal_strlit(",");
    reveal_strlit(
        "args : & :: std :: collections :: HashMap < :: std :: string :: String , trade_meta_compiler :: RuntimeValue >",
    );
    reveal_strlit("ctx : & :: std :: sync :: Arc < trade_lang_core :: TradeTaskContext >");
    reveal_strlit(
        "& self , args : & :: std :: collections :: HashMap < :: std :: string :: String , trade_meta_compiler :: RuntimeValue > , ctx : & :: std :: sync :: Arc < trade_lang_core :: TradeTaskContext > ,",
    );
    reveal_strlit("trade_meta_compiler :: RuntimeValue");
    reveal_strlit("#d");
    reveal_strlit("#e");
    reveal_strlit("#f");
    reveal_strlit("#g");
    reveal_strlit("#d #e #f #g");
    reveal_strlit(
        "fn declared_return_type ( & self ) -> Option < trade_meta_compiler :: TypeSpec > { #c } async fn execute ( & self , args : & :: std :: collections :: HashMap < :: std :: string :: String , trade_meta_compiler :: RuntimeValue > , ctx : & :: std :: sync :: Arc < trade_lang_core :: TradeTaskContext > , ) -> Option < trade_meta_compiler :: RuntimeValue > { #d #e #f #g }",
    );
    reveal_strlit(
        "# [ async_trait :: async_trait ] impl < H : #b + 'static > trade_lang_core :: ExecutorHandler for #a < H > { fn declared_return_type ( & self ) -> Option < trade_meta_compiler :: TypeSpec > { #c } async fn execute ( & self , args : & :: std :: collections :: HashMap < :: std :: string :: String , trade_meta_compiler :: RuntimeValue > , ctx : & :: std :: sync :: Arc < trade_lang_core :: TradeTaskContext > , ) -> Option < trade_meta_compiler :: RuntimeValue > { #d #e #f #g } }",
    );
    let holes = seq![a, b, c, d, e, f, g];
    let p1 = piece_async_trait_attribute(holes);
    let p2 = Piece::of_word("impl"@, holes);
    let p3 = p2.then_mark("<"@, holes);
    let p4 = p3.then_word("H"@, holes);
    let p5 = p4.then_mark(":"@, holes);
    assert(p5.tokens =~= seq![
        Tok::Ident("impl"@),
        Tok::Punct('<', false),
        Tok::Ident("H"@),
        Tok::Punct(':', false),
    ]);
    let p6 = p5.as_text("impl < H :"@, holes);
    let p7 = p1.then_piece(p6, holes);
    let p8 = Piece::of_hole("#b"@, holes, 1);
    let p9 = p7.then_piece(p8, holes);
    let p10 = Piece::of_mark("+"@, holes);
    assert("'static"@ =~= seq!['\''] + "static"@);
    let p11 = p10.then_lifetime("'static"@, "static"@, holes);
    let p12 = p11.then_mark(">"@, holes);
    let p13 = p12.then_word("trade_lang_core"@, holes);
    let p14 = p13.then_marks("::"@, holes);
    let p15 = p14.then_word("ExecutorHandler"@, holes);
    let p16 = p15.then_word("for"@, holes);
    assert(p16.tokens =~= seq![
        Tok::Punct('+', false),
        Tok::Punct('\'', true),
        Tok::Ident("static"@),
        Tok::Punct('>', false),
        Tok::Ident("trade_lang_core"@),
        Tok::Punct(':', true),
        Tok::Punct(':', false),
        Tok::Ident("ExecutorHandler"@),
        Tok::Ident("for"@),
    ]);
    let p17 = p16.as_text("+ 'static > trade_lang_core :: ExecutorHandler for"@, holes);
    let p18 = p9.then_piece(p17, holes);
    let p19 = Piece::of_hole("#a"@, holes, 0);
    let p20 = p18.then_piece(p19, holes);
    let p21 = Piece::of_mark("<"@, holes);
    let p22 = p21.then_word("H"@, holes);
    let p23 = p22.then_mark(">"@, holes);
    assert(p23.tokens =~= seq![Tok::Punct('<', false), Tok::Ident("H"@), Tok::Punct('>', false)]);
    let p24 = p20.then_piece(p23, holes);
    let p26 = Piece::of_word("fn"@, holes);
    let p27 = p26.then_word("declared_return_type"@, holes);
    let p29 = Piece::of_mark("&"@, holes);
    let p30 = p29.then_word("self"@, holes);
    assert(p30.tokens =~= seq![Tok::Punct('&', false), Tok::Ident("self"@)]);
    let p28 = p30.in_round(holes);
    let p31 = p27.then_piece(p28, holes);
    let p32 = p31.then_marks("->"@, holes);
    let p33 = p32.then_word("Option"@, holes);
    let p34 = p33.then_mark("<"@, holes);
    assert(p34.tokens =~= seq![
        Tok::Ident("fn"@),
        Tok::Ident("declared_return_type"@),
        Tok::Group(Delim::Parenthesis, seq![Tok::Punct('&', false), Tok::Ident("self"@)]),
        Tok::Punct('-', true),
        Tok::Punct('>', false),
        Tok::Ident("Option"@),
        Tok::Punct('<', false),
    ]);
    let p35 = p34.as_text("fn declared_return_type ( & self ) -> Option <"@, holes);
    let p36 = piece_description_type(holes);
    let p37 = p35.then_piece(p36, holes);
    let p38 = Piece::of_mark(">"@, holes);
    let p39 = p37.then_piece(p38, holes);
    let p41 = Piece::of_hole("#c"@, holes, 2);
    let p40 = p41.in_curly(holes);
    let p42 = p39.then_piece(p40, holes);
    let p43 = Piece::of_word("async"@, holes);
    let p44 = p43.then_word("fn"@, holes);
    let p45 = p44.then_word("execute"@, holes);
    assert(p45.tokens =~= seq![Tok::Ident("async"@), Tok::Ident("fn"@), Tok::Ident("execute"@)]);
    let p46 = p42.then_piece(p45, holes);
    let p48 = Piece::of_mark("&"@, holes);
    let p49 = p48.then_word("self"@, holes);
    let p50 = p49.then_mark(","@, holes);
    assert(p50.tokens =~= seq![Tok::Punct('&', false), Tok::Ident("self"@), Tok::Punct(',', false)]);
    let p51 = piece_args_declaration(holes);
    let p52 = p50.then_piece(p51, holes);
    let p53 = Piece::of_mark(","@, holes);
    let p54 = p52.then_piece(p53, holes);
    let p55 = piece_task_declaration(holes);
    let p56 = p54.then_piece(p55, holes);
    let p57 = Piece::of_mark(","@, holes);
    let p58 = p56.then_piece(p57, holes);
    let p59 = p58.as_text("& self , args : & :: std :: collections :: HashMap < :: std :: string :: String , trade_meta_compiler :: RuntimeValue > , ctx : & :: std :: sync :: Arc < trade_lang_core :: TradeTaskContext > ,"@, holes);
    let p47 = p59.in_round(holes);
    let p60 = p46.then_piece(p47, holes);
    let p61 = Piece::of_marks("->"@, holes);
    let p62 = p61.then_word("Option"@, holes);
    let p63 = p62.then_mark("<"@, holes);
    assert(p63.tokens =~= seq![
        Tok::Punct('-', true),
        Tok::Punct('>', false),
        Tok::Ident("Option"@),
        Tok::Punct('<', false),
    ]);
    let p64 = p60.then_piece(p63, holes);
    let p65 = piece_value_type(holes);
    let p66 = p64.then_piece(p65, holes);
    let p67 = Piece::of_mark(">"@, holes);
    let p68 = p66.then_piece(p67, holes);
    let p70 = Piece::of_hole("#d"@, holes, 3);
    let p71 = Piece::of_hole("#e"@, holes, 4);
    let p72 = p70.then_piece(p71, holes);
    let p73 = Piece::of_hole("#f"@, holes, 5);
    let p74 = p72.then_piece(p73, holes);
    let p75 = Piece::of_hole("#g"@, holes, 6);
    let p76 = p74.then_piece(p75, holes);
    let p77 = p76.as_text("#d #e #f #g"@, holes);
    let p69 = p77.in_curly(holes);
    let p78 = p68.then_piece(p69, holes);
    let p79 = p78.as_text("fn declared_return_type ( & self ) -> Option < trade_meta_compiler :: TypeSpec > { #c } async fn execute ( & self , args : & :: std :: collections :: HashMap < :: std :: string :: String , trade_meta_compiler :: RuntimeValue > , ctx : & :: std :: sync :: Arc < trade_lang_core :: TradeTaskContext > , ) -> Option < trade_meta_compiler :: RuntimeValue > { #d #e #f #g }"@, holes);
    let p25 = p79.in_curly(holes);
    let p80 = p24.then_piece(p25, holes);
    let p81 = p80.as_text("# [ async_trait :: async_trait ] impl < H : #b + 'static > trade_lang_core :: ExecutorHandler for #a < H > { fn declared_return_type ( & self ) -> Option < trade_meta_compiler :: TypeSpec > { #c } async fn execute ( & self , args : & :: std :: collections :: HashMap < :: std :: string :: String , trade_meta_compiler :: RuntimeValue > , ctx : & :: std :: sync :: Arc < trade_lang_core :: TradeTaskContext > , ) -> Option < trade_meta_compiler :: RuntimeValue > { #d #e #f #g } }"@, holes);
    assert(EXECUTOR_IMPL@ =~= p81.text);
    lemma_stands_rendered(EXECUTOR_IMPL@, holes, p81.tokens);
}

/// What `DATA_ITEM_IMPL` stands for.
#[verifier::rlimit(40)]
pub(crate) proof fn spell_data_item_impl(
    a: Seq<Tok>,
    b: Seq<Tok>,
    c: Seq<Tok>,
    d: Seq<Tok>,
    e: Seq<Tok>,
    f: Seq<Tok>,
    g: Seq<Tok>,
    h: Seq<Tok>,
    i: Seq<Tok>,
)
    ensures
        rendered(DATA_ITEM_IMPL@, seq![a, b, c, d, e, f, g, h, i]) == async_trait_attribute()
            + seq![
                Tok::Ident("impl"@),
                Tok::Punct('<', false),
                Tok::Ident("H"@),
                Tok::Punct(':', false),
            ] + b
            + seq![
                Tok::Punct('+', false),
                Tok::Punct('\'', true),
                Tok::Ident("static"@),
                Tok::Punct('>', false),
                Tok::Ident("trade_lang_core"@),
                Tok::Punct(':', true),
                Tok::Punct(':', false),
                Tok::Ident("DataItemHandler"@),
                Tok::Ident("for"@),
            ] + a
            + seq![Tok::Punct('<', false), Tok::Ident("H"@), Tok::Punct('>', false)]
            + seq![
                Tok::Group(
                    Delim::Brace,
                    seq![
                        Tok::Ident("fn"@),
                        Tok::Ident("declared_return_type"@),
                        Tok::Group(
                            Delim::Parenthesis,
                            seq![Tok::Punct('&', false), Tok::Ident("self"@)],
                        ),
                        Tok::Punct('-', true),
                        Tok::Punct('>', false),
                    ] + description_type()
                        + seq![Tok::Group(Delim::Brace, c)]
                        + seq![Tok::Ident("async"@), Tok::Ident("fn"@), Tok::Ident("get"@)]
                        + seq![
                            Tok::Group(
                                Delim::Parenthesis,
                                seq![
                                    Tok::Punct('&', false),
                                    Tok::Ident("self"@),
                                    Tok::Punct(',', false),
                                ] + args_declaration()
                                    + seq![Tok::Punct(',', false)]
                                    + task_declaration()
                                    + seq![Tok::Punct(',', false)],
                            ),
                        ] + seq![Tok::Punct('-', true), Tok::Punct('>', false)]
                        + value_type()
                        + seq![
                            Tok::Group(
                                Delim::Brace,
                                d + e
                                    + seq![
                                        Tok::Ident("let"@),
                                        Tok::Ident("__result"@),
                                        Tok::Punct('=', false),
                                        Tok::Ident("self"@),
                                        Tok::Punct('.', false),
                                    ] + f
                                    + seq![Tok::Punct('.', false), Tok::Ident("get"@)]
                                    + seq![
                                        Tok::Group(
                                            Delim::Parenthesis,
                                            g + h + seq![Tok::Ident("ctx"@)],
                                        ),
                                    ] + seq![
                                    Tok::Punct('.', false),
                                    Tok::Ident("await"@),
                                    Tok::Punct(';', false),
                                ] + i,
                            ),
                        ],
                ),
            ],
{
    reveal_strlit("# [ async_trait :: async_trait ]");
    reveal_strlit("impl");
    reveal_strlit("<");
    reveal_strlit("H");
    reveal_strlit(":");
    reveal_strlit("impl < H :");
    reveal_strlit("#b");
    reveal_strlit("+");
    reveal_strlit("'static");
    reveal_strlit("static");
    reveal_strlit(">");
    reveal_strlit("trade_lang_core");
    reveal_strlit("::");
    reveal_strlit("DataItemHandler");
    reveal_strlit("for");
    reveal_strlit("+ 'static > trade_lang_core :: DataItemHandler for");
    reveal_strlit("#a");
    reveal_strlit("fn");
    reveal_strlit("declared_return_type");
    reveal_strlit("&");
    reveal_strlit("self");
    reveal_strlit("->");
    reveal_strlit("fn declared_return_type ( & self ) ->");
    reveal_strlit("trade_meta_compiler :: TypeSpec");
    reveal_strlit("#c");
    reveal_strlit("async");
    reveal_strlit("get");
    reveal_strlit(",");
    reveal_strlit(
        "args : & :: std :: collections :: HashMap < :: std :: string :: String , trade_meta_compiler :: RuntimeValue >",
    );
    reveal_strlit("ctx : & :: std :: sync :: Arc < trade_lang_core :: TradeTaskContext >");
    reveal_strlit(
        "& self , args : & :: std :: collections :: HashMap < :: std :: string :: String , trade_meta_compiler :: RuntimeValue > , ctx : & :: std :: sync :: Arc < trade_lang_core :: TradeTaskContext > ,",
    );
    reveal_strlit("trade_meta_compiler :: RuntimeValue");
    reveal_strlit("#d");
    reveal_strlit("#e");
    reveal_strlit("let");
    reveal_strlit("__result");
    reveal_strlit("=");
    reveal_strlit(".");
    reveal_strlit("let __result = self .");
    reveal_strlit("#f");
    reveal_strlit("#g");
    reveal_strlit("#h");
    reveal_strlit("ctx");
    reveal_strlit("#g #h ctx");
    reveal_strlit("await");
    reveal_strlit(";");
    reveal_strlit("#i");
    reveal_strlit("#d #e let __result = self . #f . get ( #g #h ctx ) . await ; #i");
    reveal_strlit(
        "fn declared_return_type ( & self ) -> trade_meta_compiler :: TypeSpec { #c } async fn get ( & self , args : & :: std :: collections :: HashMap < :: std :: string :: String , trade_meta_compiler :: RuntimeValue > , ctx : & :: std :: sync :: Arc < trade_lang_core :: TradeTaskContext > , ) -> trade_meta_compiler :: RuntimeValue { #d #e let __result = self . #f . get ( #g #h ctx ) . await ; #i }",
    );
    reveal_strlit(
        "# [ async_trait :: async_trait ] impl < H : #b + 'static > trade_lang_core :: DataItemHandler for #a < H > { fn declared_return_type ( & self ) -> trade_meta_compiler :: TypeSpec { #c } async fn get ( & self , args : & :: std :: collections :: HashMap < :: std :: string :: String , trade_meta_compiler :: RuntimeValue > , ctx : & :: std :: sync :: Arc < trade_lang_core :: TradeTaskContext > , ) -> trade_meta_compiler :: RuntimeValue { #d #e let __result = self . #f . get ( #g #h ctx ) . await ; #i } }",
    );
    let holes = seq![a, b, c, d, e, f, g, h, i];
    let p1 = piece_async_trait_attribute(holes);
    let p2 = Piece::of_word("impl"@, holes);
    let p3 = p2.then_mark("<"@, holes);
    let p4 = p3.then_word("H"@, holes);
    let p5 = p4.then_mark(":"@, holes);
    assert(p5.tokens =~= seq![
        Tok::Ident("impl"@),
        Tok::Punct('<', false),
        Tok::Ident("H"@),
        Tok::Punct(':', false),
    ]);
    let p6 = p5.as_text("impl < H :"@, holes);
    let p7 = p1.then_piece(p6, holes);
    let p8 = Piece::of_hole("#b"@, holes, 1);
    let p9 = p7.then_piece(p8, holes);
    let p10 = Piece::of_mark("+"@, holes);
    assert("'static"@ =~= seq!['\''] + "static"@);
    let p11 = p10.then_lifetime("'static"@, "static"@, holes);
    let p12 = p11.then_mark(">"@, holes);
    let p13 = p12.then_word("trade_lang_core"@, holes);
    let p14 = p13.then_marks("::"@, holes);
    let p15 = p14.then_word("DataItemHandler"@, holes);
    let p16 = p15.then_word("for"@, holes);
    assert(p16.tokens =~= seq![
        Tok::Punct('+', false),
        Tok::Punct('\'', true),
        Tok::Ident("static"@),
        Tok::Punct('>', false),
        Tok::Ident("trade_lang_core"@),
        Tok::Punct(':', true),
        Tok::Punct(':', false),
        Tok::Ident("DataItemHandler"@),
        Tok::Ident("for"@),
    ]);
    let p17 = p16.as_text("+ 'static > trade_lang_core :: DataItemHandler for"@, holes);
    let p18 = p9.then_piece(p17, holes);
    let p19 = Piece::of_hole("#a"@, holes, 0);
    let p20 = p18.then_piece(p19, holes);
    let p21 = Piece::of_mark("<"@, holes);
    let p22 = p21.then_word("H"@, holes);
    let p23 = p22.then_mark(">"@, holes);
    assert(p23.tokens =~= seq![Tok::Punct('<', false), Tok::Ident("H"@), Tok::Punct('>', false)]);
    let p24 = p20.then_piece(p23, holes);
    let p26 = Piece::of_word("fn"@, holes);
    let p27 = p26.then_word("declared_return_type"@, holes);
    let p29 = Piece::of_mark("&"@, holes);
    let p30 = p29.then_word("self"@, holes);
    assert(p30.tokens =~= seq![Tok::Punct('&', false), Tok::Ident("self"@)]);
    let p28 = p30.in_round(holes);
    let p31 = p27.then_piece(p28, holes);
    let p32 = p31.then_marks("->"@, holes);
    assert(p32.tokens =~= seq![
        Tok::Ident("fn"@),
        Tok::Ident("declared_return_type"@),
        Tok::Group(Delim::Parenthesis, seq![Tok::Punct('&', false), Tok::Ident("self"@)]),
        Tok::Punct('-', true),
        Tok::Punct('>', false),
    ]);
    let p33 = p32.as_text("fn declared_return_type ( & self ) ->"@, holes);
    let p34 = piece_description_type(holes);
    let p35 = p33.then_piece(p34, holes);
    let p37 = Piece::of_hole("#c"@, holes, 2);
    let p36 = p37.in_curly(holes);
    let p38 = p35.then_piece(p36, holes);
    let p39 = Piece::of_word("async"@, holes);
    let p40 = p39.then_word("fn"@, holes);
    let p41 = p40.then_word("get"@, holes);
    assert(p41.tokens =~= seq![Tok::Ident("async"@), Tok::Ident("fn"@), Tok::Ident("get"@)]);
    let p42 = p38.then_piece(p41, holes);
    let p44 = Piece::of_mark("&"@, holes);
    let p45 = p44.then_word("self"@, holes);
    let p46 = p45.then_mark(","@, holes);
    assert(p46.tokens =~= seq![Tok::Punct('&', false), Tok::Ident("self"@), Tok::Punct(',', false)]);
    let p47 = piece_args_declaration(holes);
    let p48 = p46.then_piece(p47, holes);
    let p49 = Piece::of_mark(","@, holes);
    let p50 = p48.then_piece(p49, holes);
    let p51 = piece_task_declaration(holes);
    let p52 = p50.then_piece(p51, holes);
    let p53 = Piece::of_mark(","@, holes);
    let p54 = p52.then_piece(p53, holes);
    let p55 = p54.as_text("& self , args : & :: std :: collections :: HashMap < :: std :: string :: String , trade_meta_compiler :: RuntimeValue > , ctx : & :: std :: sync :: Arc < trade_lang_core :: TradeTaskContext > ,"@, holes);
    let p43 = p55.in_round(holes);
    let p56 = p42.then_piece(p43, holes);
    let p57 = Piece::of_marks("->"@, holes);
    let p58 = p56.then_piece(p57, holes);
    let p59 = piece_value_type(holes);
    let p60 = p58.then_piece(p59, holes);
    let p62 = Piece::of_hole("#d"@, holes, 3);
    let p63 = Piece::of_hole("#e"@, holes, 4);
    let p64 = p62.then_piece(p63, holes);
    let p65 = Piece::of_word("let"@, holes);
    let p66 = p65.then_word("__result"@, holes);
    let p67 = p66.then_mark("="@, holes);
    let p68 = p67.then_word("self"@, holes);
    let p69 = p68.then_mark("."@, holes);
    assert(p69.tokens =~= seq![
        Tok::Ident("let"@),
        Tok::Ident("__result"@),
        Tok::Punct('=', false),
        Tok::Ident("self"@),
        Tok::Punct('.', false),
    ]);
    let p70 = p69.as_text("let __result = self ."@, holes);
    let p71 = p64.then_piece(p70, holes);
    let p72 = Piece::of_hole("#f"@, holes, 5);
    let p73 = p71.then_piece(p72, holes);
    let p74 = Piece::of_mark("."@, holes);
    let p75 = p74.then_word("get"@, holes);
    assert(p75.tokens =~= seq![Tok::Punct('.', false), Tok::Ident("get"@)]);
    let p76 = p73.then_piece(p75, holes);
    let p78 = Piece::of_hole("#g"@, holes, 6);
    let p79 = Piece::of_hole("#h"@, holes, 7);
    let p80 = p78.then_piece(p79, holes);
    let p81 = Piece::of_word("ctx"@, holes);
    let p82 = p80.then_piece(p81, holes);
    let p83 = p82.as_text("#g #h ctx"@, holes);
    let p77 = p83.in_round(holes);
    let p84 = p76.then_piece(p77, holes);
    let p85 = Piece::of_mark("."@, holes);
    let p86 = p85.then_word("await"@, holes);
    let p87 = p86.then_mark(";"@, holes);
    assert(p87.tokens =~= seq![Tok::Punct('.', false), Tok::Ident("await"@), Tok::Punct(';', false)]);
    let p88 = p84.then_piece(p87, holes);
    let p89 = Piece::of_hole("#i"@, holes, 8);
    let p90 = p88.then_piece(p89, holes);
    let p91 = p90.as_text("#d #e let __result = self . #f . get ( #g #h ctx ) . await ; #i"@, holes);
    let p61 = p91.in_curly(holes);
    let p92 = p60.then_piece(p61, holes);
    let p93 = p92.as_text("fn declared_return_type ( & self ) -> trade_meta_compiler :: TypeSpec { #c } async fn get ( & self , args : & :: std :: collections :: HashMap < :: std :: string :: String , trade_meta_compiler :: RuntimeValue > , ctx : & :: std :: sync :: Arc < trade_lang_core :: TradeTaskContext > , ) -> trade_meta_compiler :: RuntimeValue { #d #e let __result = self . #f . get ( #g #h ctx ) . await ; #i }"@, holes);
    let p25 = p93.in_curly(holes);
    let p94 = p24.then_piece(p25, holes);
    let p95 = p94.as_text("# [ async_trait :: async_trait ] impl < H : #b + 'static > trade_lang_core :: DataItemHandler for #a < H > { fn declared_return_type ( & self ) -> trade_meta_compiler :: TypeSpec { #c } async fn get ( & self , args : & :: std :: collections :: HashMap < :: std :: string :: String , trade_meta_compiler :: RuntimeValue > , ctx : & :: std :: sync :: Arc < trade_lang_core :: TradeTaskContext > , ) -> trade_meta_compiler :: RuntimeValue { #d #e let __result = self . #f . get ( #g #h ctx ) . await ; #i } }"@, holes);
    assert(DATA_ITEM_IMPL@ =~= p95.text);
    lemma_stands_rendered(DATA_ITEM_IMPL@, holes, p95.tokens);
}

/// What `CONDITION_IMPL` stands for.
pub(crate) proof fn spell_condition_impl(
    a: Seq<Tok>,
    b: Seq<Tok>,
    c: Seq<Tok>,
    d: Seq<Tok>,
    e: Seq<Tok>,
    f: Seq<Tok>,
    g: Seq<Tok>,
)
    ensures
        rendered(CONDITION_IMPL@, seq![a, b, c, d, e, f, g]) == async_trait_attribute()
            + seq![
                Tok::Ident("impl"@),
                Tok::Punct('<', false),
                Tok::Ident("H"@),
                Tok::Punct(':', false),
            ] + b
            + seq![
                Tok::Punct('+', false),
                Tok::Punct('\'', true),
                Tok::Ident("static"@),
                Tok::Punct('>', false),
                Tok::Ident("trade_lang_core"@),
                Tok::Punct(':', true),
                Tok::Punct(':', false),
                Tok::Ident("ConditionHandler"@),
                Tok::Ident("for"@),
            ] + a
            + seq![Tok::Punct('<', false), Tok::Ident("H"@), Tok::Punct('>', false)]
            + seq![
                Tok::Group(
                    Delim::Brace,
                    seq![Tok::Ident("async"@), Tok::Ident("fn"@), Tok::Ident("evaluate"@)]
                        + seq![
                            Tok::Group(
                                Delim::Parenthesis,
                                seq![
                                    Tok::Punct('&', false),
                                    Tok::Ident("self"@),
                                    Tok::Punct(',', false),
                                ] + args_declaration()
                                    + seq![Tok::Punct(',', false)]
                                    + task_declaration()
                                    + seq![Tok::Punct(',', false)],
                            ),
                        ] + seq![
                        Tok::Punct('-', true),
                        Tok::Punct('>', false),
                        Tok::Ident("bool"@),
                    ] + seq![
                        Tok::Group(
                            Delim::Brace,
                            c + d
                                + seq![
                                    Tok::Ident("let"@),
                                    Tok::Ident("__result"@),
                                    Tok::Punct('=', false),
                                    Tok::Ident("self"@),
                                    Tok::Punct('.', false),
                                ] + e
                                + seq![Tok::Punct('.', false), Tok::Ident("evaluate"@)]
                                + seq![
                                    Tok::Group(
                                        Delim::Parenthesis,
                                        f + g + seq![Tok::Ident("ctx"@)],
                                    ),
                                ] + seq![
                                Tok::Punct('.', false),
                                Tok::Ident("await"@),
                                Tok::Punct(';', false),
                                Tok::Ident("__result"@),
                            ],
                        ),
                    ],
                ),
            ],
{
    reveal_strlit("# [ async_trait :: async_trait ]");
    reveal_strlit("impl");
    reveal_strlit("<");
    reveal_strlit("H");
    reveal_strlit(":");
    reveal_strlit("impl < H :");
    reveal_strlit("#b");
    reveal_strlit("+");
    reveal_strlit("'static");
    reveal_strlit("static");
    reveal_strlit(">");
    reveal_strlit("trade_lang_core");
    reveal_strlit("::");
    reveal_strlit("ConditionHandler");
    reveal_strlit("for");
    reveal_strlit("+ 'static > trade_lang_core :: ConditionHandler for");
    reveal_strlit("#a");
    reveal_strlit("async");
    reveal_strlit("fn");
    reveal_strlit("evaluate");
    reveal_strlit("&");
    reveal_strlit("self");
    reveal_strlit(",");
    reveal_strlit(
        "args : & :: std :: collections :: HashMap < :: std :: string :: String , trade_meta_compiler :: RuntimeValue >",
    );
    reveal_strlit("ctx : & :: std :: sync :: Arc < trade_lang_core :: TradeTaskContext >");
    reveal_strlit(
        "& self , args : & :: std :: collections :: HashMap < :: std :: string :: String , trade_meta_compiler :: RuntimeValue > , ctx : & :: std :: sync :: Arc < trade_lang_core :: TradeTaskContext > ,",
    );
    reveal_strlit("->");
    reveal_strlit("bool");
    reveal_strlit("#c");
    reveal_strlit("#d");
    reveal_strlit("let");
    reveal_strlit("__result");
    reveal_strlit("=");
    reveal_strlit(".");
    reveal_strlit("let __result = self .");
    reveal_strlit("#e");
    reveal_strlit("#f");
    reveal_strlit("#g");
    reveal_strlit("ctx");
    reveal_strlit("#f #g ctx");
    reveal_strlit("await");
    reveal_strlit(";");
    reveal_strlit(". await ; __result");
    reveal_strlit("#c #d let __result = self . #e . evaluate ( #f #g ctx ) . await ; __result");
    reveal_strlit(
        "async fn evaluate ( & self , args : & :: std :: collections :: HashMap < :: std :: string :: String , trade_meta_compiler :: RuntimeValue > , ctx : & :: std :: sync :: Arc < trade_lang_core :: TradeTaskContext > , ) -> bool { #c #d let __result = self . #e . evaluate ( #f #g ctx ) . await ; __result }",
    );
    reveal_strlit(
        "# [ async_trait :: async_trait ] impl < H : #b + 'static > trade_lang_core :: ConditionHandler for #a < H > { async fn evaluate ( & self , args : & :: std :: collections :: HashMap < :: std :: string :: String , trade_meta_compiler :: RuntimeValue > , ctx : & :: std :: sync :: Arc < trade_lang_core :: TradeTaskContext > , ) -> bool { #c #d let __result = self . #e . evaluate ( #f #g ctx ) . await ; __result } }",
    );
    let holes = seq![a, b, c, d, e, f, g];
    let p1 = piece_async_trait_attribute(holes);
    let p2 = Piece::of_word("impl"@, holes);
    let p3 = p2.then_mark("<"@, holes);
    let p4 = p3.then_word("H"@, holes);
    let p5 = p4.then_mark(":"@, holes);
    assert(p5.tokens =~= seq![
        Tok::Ident("impl"@),
        Tok::Punct('<', false),
        Tok::Ident("H"@),
        Tok::Punct(':', false),
    ]);
    let p6 = p5.as_text("impl < H :"@, holes);
    let p7 = p1.then_piece(p6, holes);
    let p8 = Piece::of_hole("#b"@, holes, 1);
    let p9 = p7.then_piece(p8, holes);
    let p10 = Piece::of_mark("+"@, holes);
    assert("'static"@ =~= seq!['\''] + "static"@);
    let p11 = p10.then_lifetime("'static"@, "static"@, holes);
    let p12 = p11.then_mark(">"@, holes);
    let p13 = p12.then_word("trade_lang_core"@, holes);
    let p14 = p13.then_marks("::"@, holes);
    let p15 = p14.then_word("ConditionHandler"@, holes);
    let p16 = p15.then_word("for"@, holes);
    assert(p16.tokens =~= seq![
        Tok::Punct('+', false),
        Tok::Punct('\'', true),
        Tok::Ident("static"@),
        Tok::Punct('>', false),
        Tok::Ident("trade_lang_core"@),
        Tok::Punct(':', true),
        Tok::Punct(':', false),
        Tok::Ident("ConditionHandler"@),
        Tok::Ident("for"@),
    ]);
    let p17 = p16.as_text("+ 'static > trade_lang_core :: ConditionHandler for"@, holes);
    let p18 = p9.then_piece(p17, holes);
    let p19 = Piece::of_hole("#a"@, holes, 0);
    let p20 = p18.then_piece(p19, holes);
    let p21 = Piece::of_mark("<"@, holes);
    let p22 = p21.then_word("H"@, holes);
    let p23 = p22.then_mark(">"@, holes);
    assert(p23.tokens =~= seq![Tok::Punct('<', false), Tok::Ident("H"@), Tok::Punct('>', false)]);
    let p24 = p20.then_piece(p23, holes);
    let p26 = Piece::of_word("async"@, holes);
    let p27 = p26.then_word("fn"@, holes);
    let p28 = p27.then_word("evaluate"@, holes);
    assert(p28.tokens =~= seq![Tok::Ident("async"@), Tok::Ident("fn"@), Tok::Ident("evaluate"@)]);
    let p30 = Piece::of_mark("&"@, holes);
    let p31 = p30.then_word("self"@, holes);
    let p32 = p31.then_mark(","@, holes);
    assert(p32.tokens =~= seq![Tok::Punct('&', false), Tok::Ident("self"@), Tok::Punct(',', false)]);
    let p33 = piece_args_declaration(holes);
    let p34 = p32.then_piece(p33, holes);
    let p35 = Piece::of_mark(","@, holes);
    let p36 = p34.then_piece(p35, holes);
    let p37 = piece_task_declaration(holes);
    let p38 = p36.then_piece(p37, holes);
    let p39 = Piece::of_mark(","@, holes);
    let p40 = p38.then_piece(p39, holes);
    let p41 = p40.as_text("& self , args : & :: std :: collections :: HashMap < :: std :: string :: String , trade_meta_compiler :: RuntimeValue > , ctx : & :: std :: sync :: Arc < trade_lang_core :: TradeTaskContext > ,"@, holes);
    let p29 = p41.in_round(holes);
    let p42 = p28.then_piece(p29, holes);
    let p43 = Piece::of_marks("->"@, holes);
    let p44 = p43.then_word("bool"@, holes);
    assert(p44.tokens =~= seq![Tok::Punct('-', true), Tok::Punct('>', false), Tok::Ident("bool"@)]);
    let p45 = p42.then_piece(p44, holes);
    let p47 = Piece::of_hole("#c"@, holes, 2);
    let p48 = Piece::of_hole("#d"@, holes, 3);
    let p49 = p47.then_piece(p48, holes);
    let p50 = Piece::of_word("let"@, holes);
    let p51 = p50.then_word("__result"@, holes);
    let p52 = p51.then_mark("="@, holes);
    let p53 = p52.then_word("self"@, holes);
    let p54 = p53.then_mark("."@, holes);
    assert(p54.tokens =~= seq![
        Tok::Ident("let"@),
        Tok::Ident("__result"@),
        Tok::Punct('=', false),
        Tok::Ident("self"@),
        Tok::Punct('.', false),
    ]);
    let p55 = p54.as_text("let __result = self ."@, holes);
    let p56 = p49.then_piece(p55, holes);
    let p57 = Piece::of_hole("#e"@, holes, 4);
    let p58 = p56.then_piece(p57, holes);
    let p59 = Piece::of_mark("."@, holes);
    let p60 = p59.then_word("evaluate"@, holes);
    assert(p60.tokens =~= seq![Tok::Punct('.', false), Tok::Ident("evaluate"@)]);
    let p61 = p58.then_piece(p60, holes);
    let p63 = Piece::of_hole("#f"@, holes, 5);
    let p64 = Piece::of_hole("#g"@, holes, 6);
    let p65 = p63.then_piece(p64, holes);
    let p66 = Piece::of_word("ctx"@, holes);
    let p67 = p65.then_piece(p66, holes);
    let p68 = p67.as_text("#f #g ctx"@, holes);
    let p62 = p68.in_round(holes);
    let p69 = p61.then_piece(p62, holes);
    let p70 = Piece::of_mark("."@, holes);
    let p71 = p70.then_word("await"@, holes);
    let p72 = p71.then_mark(";"@, holes);
    let p73 = p72.then_word("__result"@, holes);
    assert(p73.tokens =~= seq![
        Tok::Punct('.', false),
        Tok::Ident("await"@),
        Tok::Punct(';', false),
        Tok::Ident("__result"@),
    ]);
    let p74 = p73.as_text(". await ; __result"@, holes);
    let p75 = p69.then_piece(p74, holes);
    let p76 = p75.as_text("#c #d let __result = self . #e . evaluate ( #f #g ctx ) . await ; __result"@, holes);
    let p46 = p76.in_curly(holes);
    let p77 = p45.then_piece(p46, holes);
    let p78 = p77.as_text("async fn evaluate ( & self , args : & :: std :: collections :: HashMap < :: std :: string :: String , trade_meta_compiler :: RuntimeValue > , ctx : & :: std :: sync :: Arc < trade_lang_core :: TradeTaskContext > , ) -> bool { #c #d let __result = self . #e . evaluate ( #f #g ctx ) . await ; __result }"@, holes);
    let p25 = p78.in_curly(holes);
    let p79 = p24.then_piece(p25, holes);
    let p80 = p79.as_text("# [ async_trait :: async_trait ] impl < H : #b + 'static > trade_lang_core :: ConditionHandler for #a < H > { async fn evaluate ( & self , args : & :: std :: collections :: HashMap < :: std :: string :: String , trade_meta_compiler :: RuntimeValue > , ctx : & :: std :: sync :: Arc < trade_lang_core :: TradeTaskContext > , ) -> bool { #c #d let __result = self . #e . evaluate ( #f #g ctx ) . await ; __result } }"@, holes);
    assert(CONDITION_IMPL@ =~= p80.text);
    lemma_stands_rendered(CONDITION_IMPL@, holes, p80.tokens);
}

/// What `REGISTRATION` stands for.
pub(crate) proof fn spell_registration(a: Seq<Tok>)
    ensures
        rendered(REGISTRATION@, seq![a]) == seq![
            Tok::Ident("trade_meta_compiler"@),
            Tok::Punct(':', true),
            Tok::Punct(':', false),
            Tok::Ident("inventory"@),
            Tok::Punct(':', true),
            Tok::Punct(':', false),
            Tok::Ident("submit"@),
            Tok::Punct('!', false),
        ] + seq![
            Tok::Group(
                Delim::Brace,
                seq![
                    Tok::Ident("trade_meta_compiler"@),
                    Tok::Punct(':', true),
                    Tok::Punct(':', false),
                    Tok::Ident("SymbolFactory"@),
                ] + seq![Tok::Group(Delim::Parenthesis, a)],
            ),
        ],
{
    reveal_strlit("trade_meta_compiler");
    reveal_strlit("::");
    reveal_strlit("inventory");
    reveal_strlit("submit");
    reveal_strlit("!");
    reveal_strlit("trade_meta_compiler :: inventory :: submit !");
    reveal_strlit("SymbolFactory");
    reveal_strlit("#a");
    reveal_strlit(
        "trade_meta_compiler :: inventory :: submit ! { trade_meta_compiler :: SymbolFactory ( #a ) }",
    );
    let holes = seq![a];
    let p1 = Piece::of_word("trade_meta_compiler"@, holes);
    let p2 = p1.then_marks("::"@, holes);
    let p3 = p2.then_word("inventory"@, holes);
    let p4 = p3.then_marks("::"@, holes);
    let p5 = p4.then_word("submit"@, holes);
    let p6 = p5.then_mark("!"@, holes);
    assert(p6.tokens =~= seq![
        Tok::Ident("trade_meta_compiler"@),
        Tok::Punct(':', true),
        Tok::Punct(':', false),
        Tok::Ident("inventory"@),
        Tok::Punct(':', true),
        Tok::Punct(':', false),
        Tok::Ident("submit"@),
        Tok::Punct('!', false),
    ]);
    let p7 = p6.as_text("trade_meta_compiler :: inventory :: submit !"@, holes);
    let p9 = Piece::of_word("trade_meta_compiler"@, holes);
    let p10 = p9.then_marks("::"@, holes);
    let p11 = p10.then_word("SymbolFactory"@, holes);
    assert(p11.tokens =~= seq![
        Tok::Ident("trade_meta_compiler"@),
        Tok::Punct(':', true),
        Tok::Punct(':', false),
        Tok::Ident("SymbolFactory"@),
    ]);
    let p13 = Piece::of_hole("#a"@, holes, 0);
    let p12 = p13.in_round(holes);
    let p14 = p11.then_piece(p12, holes);
    let p8 = p14.in_curly(holes);
    let p15 = p7.then_piece(p8, holes);
    assert(REGISTRATION@ =~= p15.text);
    lemma_stands_rendered(REGISTRATION@, holes, p15.tokens);
}

} // verus!
