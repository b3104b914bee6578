//! How a definition is written, and that it is read as it is written.
//!
//! The functions here give one way to write each type, clause and definition. The laws say that the
//! grammar takes what is written for what it says.
use vstd::prelude::*;

use crate::code::{names_valid, symbol_code};
use crate::grammar::{
    all_clauses, category_named, choice_types, clause, contexts_of, lemma_front_punct,
    lemma_single_type, lemma_trade_type, op_named, outline_behind_visibility, params_of,
    return_types, returns_of, single_type, trade_type, tuple_types, whole_definition, whole_outline,
    Category, Clauses, ContextModel, CtxOp, Item, Outline, ParamModel, Parsed,
};
use crate::laws::law_plain_names_serve;
use crate::syntax::{
    front_fat_arrow, front_ident, front_punct, front_type, front_visibility, is_keyword,
    string_value, FrontModel,
};
use crate::token::{is_plain_word, lemma_weight_concat, past_invisible, weight, Delim, Tok};
use crate::trade_type::{type_named, DslType};
use crate::answer;

verus! {

// ---------------------------------------------------------------------------------------------
// Types
// ---------------------------------------------------------------------------------------------
/// The name of a type that has one.
pub open spec fn name_of_type(ty: DslType) -> Seq<char> {
    match ty {
        DslType::Price => "Price"@,
        DslType::Amount => "Amount"@,
        DslType::Duration => "Duration"@,
        DslType::TimePoint => "TimePoint"@,
        DslType::Percent => "Percent"@,
        DslType::Count => "Count"@,
        DslType::Number => "Number"@,
        DslType::StringTy => "String"@,
        DslType::Bool => "Bool"@,
        DslType::Address => "Address"@,
        DslType::Any => "Any"@,
        DslType::Alias(name) => name,
        _ => Seq::empty(),
    }
}

/// Whether a type has a name: one of the language's own, or an alias that is none of these and no
/// keyword.
pub open spec fn is_named(ty: DslType) -> bool {
    match ty {
        DslType::List(_) | DslType::Tuple(_) | DslType::Union(_) => false,
        DslType::Alias(name) => type_named(name) == ty && !is_keyword(name),
        _ => true,
    }
}

/// Whether a type can be written where no choice can: a name, a list of a named type, or a tuple.
pub open spec fn is_single(ty: DslType) -> bool
    decreases ty, 0nat,
{
    match ty {
        DslType::List(elem) => is_named(*elem),
        DslType::Tuple(elems) => forall|i: int|
            0 <= i < elems.len() ==> is_written_type(#[trigger] elems[i]),
        DslType::Union(_) => false,
        _ => is_named(ty),
    }
}

/// Whether a type can be written: one that is no choice, or a choice of two or more such.
pub open spec fn is_written_type(ty: DslType) -> bool
    decreases ty, 1nat,
{
    match ty {
        DslType::Union(types) => types.len() >= 2 && forall|i: int|
            0 <= i < types.len() ==> is_single(#[trigger] types[i]),
        _ => is_single(ty),
    }
}

/// How a type is written.
pub open spec fn written_type(ty: DslType) -> Seq<Tok>
    decreases ty,
{
    match ty {
        DslType::List(elem) => seq![Tok::Group(Delim::Bracket, written_type(*elem))],
        DslType::Tuple(elems) => seq![Tok::Group(Delim::Parenthesis, written_types(elems, ','))],
        DslType::Union(types) => written_types(types, '|'),
        _ => seq![Tok::Ident(name_of_type(ty))],
    }
}

/// How several types are written, with the given character between each two.
pub open spec fn written_types(types: Seq<DslType>, between: char) -> Seq<Tok>
    decreases types,
{
    if types.len() == 0 {
        Seq::empty()
    } else if types.len() == 1 {
        written_type(types[0])
    } else {
        written_type(types[0]) + (seq![Tok::Punct(between, false)] + written_types(
            types.drop_first(),
            between,
        ))
    }
}

/// Tokens that begin with something else than invisible brackets are met as they stand.
pub(crate) proof fn lemma_visible(first: Tok, rest: Seq<Tok>)
    requires
        !(first matches Tok::Group(delim, _) && delim is Invisible),
    ensures
        past_invisible(seq![first] + rest) == seq![first] + rest,
        (seq![first] + rest).drop_first() == rest,
        (seq![first] + rest)[0] == first,
{
    assert((seq![first] + rest).drop_first() =~= rest);
}

/// The name of a type, where it has one, is no keyword and stands for the type.
pub proof fn lemma_named(ty: DslType)
    requires
        is_named(ty),
    ensures
        !is_keyword(name_of_type(ty)),
        type_named(name_of_type(ty)) == ty,
{
    lemma_names_differ();
}

/// A keyword begins with a small letter or an underscore, or is `Self`; and long ones are few.
proof fn lemma_keyword_begins(word: Seq<char>)
    requires
        is_keyword(word),
    ensures
        word.len() > 0,
        ('a' <= word[0] && word[0] <= 'z') || word[0] == '_' || word == "Self"@,
        word.len() == 4 ==> word[0] != 'n',
        word.len() == 5 ==> word[0] != 'p',
        word.len() == 7 ==> word[0] == 'u' || word[0] == 'v',
        word.len() == 8 ==> word[0] != 'e' && word[1] != 'p',
        word.len() <= 8,
{
    reveal_strlit("_");
    reveal_strlit("abstract");
    reveal_strlit("as");
    reveal_strlit("async");
    reveal_strlit("await");
    reveal_strlit("become");
    reveal_strlit("box");
    reveal_strlit("break");
    reveal_strlit("const");
    reveal_strlit("continue");
    reveal_strlit("crate");
    reveal_strlit("do");
    reveal_strlit("dyn");
    reveal_strlit("else");
    reveal_strlit("enum");
    reveal_strlit("extern");
    reveal_strlit("false");
    reveal_strlit("final");
    reveal_strlit("fn");
    reveal_strlit("for");
    reveal_strlit("if");
    reveal_strlit("impl");
    reveal_strlit("in");
    reveal_strlit("let");
    reveal_strlit("loop");
    reveal_strlit("macro");
    reveal_strlit("match");
    reveal_strlit("mod");
    reveal_strlit("move");
    reveal_strlit("mut");
    reveal_strlit("override");
    reveal_strlit("priv");
    reveal_strlit("pub");
    reveal_strlit("ref");
    reveal_strlit("return");
    reveal_strlit("Self");
    reveal_strlit("self");
    reveal_strlit("static");
    reveal_strlit("struct");
    reveal_strlit("super");
    reveal_strlit("trait");
    reveal_strlit("true");
    reveal_strlit("try");
    reveal_strlit("type");
    reveal_strlit("typeof");
    reveal_strlit("unsafe");
    reveal_strlit("unsized");
    reveal_strlit("use");
    reveal_strlit("virtual");
    reveal_strlit("where");
    reveal_strlit("while");
    reveal_strlit("yield");
}

/// A word that begins with a capital letter is no keyword, but for `Self`.
proof fn lemma_capital_is_no_keyword(word: Seq<char>)
    requires
        word.len() > 0,
        'A' <= word[0] && word[0] <= 'Z',
        word.len() != 4 || word[0] != 'S',
    ensures
        !is_keyword(word),
{
    reveal_strlit("Self");
    if is_keyword(word) {
        lemma_keyword_begins(word);
    }
}

/// The names of the types stand for them, and are no keywords.
proof fn lemma_names_differ()
    ensures
        !is_keyword("Price"@),
        !is_keyword("Amount"@),
        !is_keyword("Duration"@),
        !is_keyword("TimePoint"@),
        !is_keyword("Percent"@),
        !is_keyword("Count"@),
        !is_keyword("Number"@),
        !is_keyword("String"@),
        !is_keyword("Bool"@),
        !is_keyword("Address"@),
        !is_keyword("Any"@),
        type_named("Price"@) == DslType::Price,
        type_named("Amount"@) == DslType::Amount,
        type_named("Duration"@) == DslType::Duration,
        type_named("TimePoint"@) == DslType::TimePoint,
        type_named("Percent"@) == DslType::Percent,
        type_named("Count"@) == DslType::Count,
        type_named("Number"@) == DslType::Number,
        type_named("String"@) == DslType::StringTy,
        type_named("Bool"@) == DslType::Bool,
        type_named("Address"@) == DslType::Address,
        type_named("Any"@) == DslType::Any,
{
    reveal_strlit("Price");
    reveal_strlit("Amount");
    reveal_strlit("Duration");
    reveal_strlit("TimePoint");
    reveal_strlit("Percent");
    reveal_strlit("Count");
    reveal_strlit("Number");
    reveal_strlit("String");
    reveal_strlit("Bool");
    reveal_strlit("Address");
    reveal_strlit("Any");
    lemma_capital_is_no_keyword("Price"@);
    lemma_capital_is_no_keyword("Amount"@);
    lemma_capital_is_no_keyword("Duration"@);
    lemma_capital_is_no_keyword("TimePoint"@);
    lemma_capital_is_no_keyword("Percent"@);
    lemma_capital_is_no_keyword("Count"@);
    lemma_capital_is_no_keyword("Number"@);
    lemma_capital_is_no_keyword("String"@);
    lemma_capital_is_no_keyword("Bool"@);
    lemma_capital_is_no_keyword("Address"@);
    lemma_capital_is_no_keyword("Any"@);
    assert("Price"@[0] == 'P' && "Price"@.len() == 5);
    assert("Amount"@[0] == 'A' && "Amount"@.len() == 6);
    assert("Duration"@[0] == 'D' && "Duration"@.len() == 8);
    assert("TimePoint"@[0] == 'T' && "TimePoint"@.len() == 9);
    assert("Percent"@[0] == 'P' && "Percent"@.len() == 7);
    assert("Count"@[0] == 'C' && "Count"@.len() == 5);
    assert("Number"@[0] == 'N' && "Number"@.len() == 6);
    assert("String"@[0] == 'S' && "String"@.len() == 6);
    assert("Bool"@[0] == 'B' && "Bool"@.len() == 4);
    assert("Address"@[0] == 'A' && "Address"@.len() == 7);
    assert("Any"@[0] == 'A' && "Any"@.len() == 3);
}

/// A written type holds a token.
proof fn lemma_type_begins(ty: DslType)
    requires
        is_written_type(ty),
    ensures
        written_type(ty).len() > 0,
    decreases ty,
{
    match ty {
        DslType::Union(types) => {
            lemma_type_begins(types[0]);
            assert(written_types(types, '|').len() > 0);
        },
        _ => {},
    }
}

/// A type that is no choice is read as it is written.
proof fn lemma_single_is_read(ty: DslType, rest: Seq<Tok>, unexpected: Option<Seq<char>>)
    requires
        is_single(ty),
    ensures
        single_type(written_type(ty) + rest, unexpected) == Ok::<_, Seq<char>>(
            Parsed { value: ty, rest, unexpected },
        ),
    decreases ty, 0nat,
{
    match ty {
        DslType::List(elem) => {
            let inner = written_type(*elem);
            lemma_visible(Tok::Group(Delim::Bracket, inner), rest);
            lemma_named(*elem);
            lemma_visible(Tok::Ident(name_of_type(*elem)), Seq::empty());
            assert(inner =~= seq![Tok::Ident(name_of_type(*elem))] + Seq::empty());
        },
        DslType::Tuple(elems) => {
            let inner = written_types(elems, ',');
            lemma_visible(Tok::Group(Delim::Parenthesis, inner), rest);
            lemma_tuple_is_read(elems, unexpected, Seq::empty());
            assert(Seq::<DslType>::empty() + elems =~= elems);
        },
        DslType::Union(_) => {},
        _ => {
            lemma_named(ty);
            lemma_visible(Tok::Ident(name_of_type(ty)), rest);
        },
    }
}

/// The types of a tuple are read as they are written.
proof fn lemma_tuple_is_read(
    types: Seq<DslType>,
    unexpected: Option<Seq<char>>,
    before: Seq<DslType>,
)
    requires
        forall|i: int| 0 <= i < types.len() ==> is_written_type(#[trigger] types[i]),
    ensures
        tuple_types(written_types(types, ','), unexpected, before) == Ok::<_, Seq<char>>(
            Parsed { value: before + types, rest: Seq::empty(), unexpected },
        ),
    decreases types, 0nat,
{
    let tokens = written_types(types, ',');
    if types.len() == 0 {
        assert(before + types =~= before);
    } else {
        let first = written_type(types[0]);
        let rest = if types.len() == 1 {
            Seq::<Tok>::empty()
        } else {
            seq![Tok::Punct(',', false)] + written_types(types.drop_first(), ',')
        };
        assert(tokens =~= first + rest);
        lemma_type_begins(types[0]);
        if types.len() > 1 {
            lemma_visible(Tok::Punct(',', false), written_types(types.drop_first(), ','));
        }
        assert(decreases_to!(types => types[0]));
        law_type_is_read(types[0], rest, unexpected);
        lemma_trade_type(tokens, unexpected);
        lemma_front_punct(rest, ',');
        if types.len() == 1 {
            assert(before.push(types[0]) =~= before + types);
        } else {
            assert forall|i: int| 0 <= i < types.drop_first().len() implies is_written_type(
                #[trigger] types.drop_first()[i],
            ) by {
                assert(types.drop_first()[i] == types[i + 1]);
            }
            assert(decreases_to!(types => types.drop_first()));
            lemma_tuple_is_read(types.drop_first(), unexpected, before.push(types[0]));
            assert(before.push(types[0]) + types.drop_first() =~= before + types);
        }
    }
}

/// The types of a tuple are read as they are written, with a comma behind the last.
proof fn lemma_tuple_with_comma_is_read(
    types: Seq<DslType>,
    unexpected: Option<Seq<char>>,
    before: Seq<DslType>,
)
    requires
        types.len() >= 1,
        forall|i: int| 0 <= i < types.len() ==> is_written_type(#[trigger] types[i]),
    ensures
        tuple_types(
            written_types(types, ',') + seq![Tok::Punct(',', false)],
            unexpected,
            before,
        ) == Ok::<_, Seq<char>>(
            Parsed { value: before + types, rest: Seq::empty(), unexpected },
        ),
    decreases types.len(),
{
    let comma = seq![Tok::Punct(',', false)];
    let tokens = written_types(types, ',') + comma;
    let first = written_type(types[0]);
    let behind = if types.len() == 1 {
        Seq::<Tok>::empty()
    } else {
        written_types(types.drop_first(), ',') + comma
    };
    assert(tokens =~= first + (comma + behind));
    lemma_type_begins(types[0]);
    lemma_punct_is_read(',', false, behind);
    law_type_is_read(types[0], comma + behind, unexpected);
    lemma_trade_type(tokens, unexpected);
    lemma_front_punct(comma + behind, ',');
    if types.len() == 1 {
        assert(before.push(types[0]) =~= before + types);
    } else {
        assert forall|i: int| 0 <= i < types.drop_first().len() implies is_written_type(
            #[trigger] types.drop_first()[i],
        ) by {
            assert(types.drop_first()[i] == types[i + 1]);
        }
        lemma_tuple_with_comma_is_read(types.drop_first(), unexpected, before.push(types[0]));
        assert(before.push(types[0]) + types.drop_first() =~= before + types);
    }
}

/// A tuple reads the same with a comma behind its last type and without.
pub proof fn law_comma_behind_tuple_types(
    types: Seq<DslType>,
    rest: Seq<Tok>,
    unexpected: Option<Seq<char>>,
)
    requires
        types.len() >= 1,
        forall|i: int| 0 <= i < types.len() ==> is_written_type(#[trigger] types[i]),
    ensures
        single_type(
            seq![
                Tok::Group(
                    Delim::Parenthesis,
                    written_types(types, ',') + seq![Tok::Punct(',', false)],
                ),
            ] + rest,
            unexpected,
        ) == Ok::<_, Seq<char>>(Parsed { value: DslType::Tuple(types), rest, unexpected }),
{
    let inner = written_types(types, ',') + seq![Tok::Punct(',', false)];
    lemma_visible(Tok::Group(Delim::Parenthesis, inner), rest);
    lemma_tuple_with_comma_is_read(types, unexpected, Seq::empty());
    assert(Seq::<DslType>::empty() + types =~= types);
}

/// The types of a choice are read as they are written.
proof fn lemma_choice_is_read(
    types: Seq<DslType>,
    rest: Seq<Tok>,
    unexpected: Option<Seq<char>>,
    before: Seq<DslType>,
)
    requires
        types.len() >= 1,
        forall|i: int| 0 <= i < types.len() ==> is_single(#[trigger] types[i]),
        front_punct(rest, '|') is None,
    ensures
        choice_types(written_types(types, '|') + rest, unexpected, before) == Ok::<_, Seq<char>>(
            Parsed { value: DslType::Union(before + types), rest, unexpected },
        ),
    decreases types, 0nat,
{
    let tokens = written_types(types, '|') + rest;
    let first = written_type(types[0]);
    assert(decreases_to!(types => types[0]));
    if types.len() == 1 {
        lemma_single_is_read(types[0], rest, unexpected);
        assert(before.push(types[0]) =~= before + types);
    } else {
        let behind = written_types(types.drop_first(), '|') + rest;
        assert(tokens =~= first + (seq![Tok::Punct('|', false)] + behind));
        lemma_visible(Tok::Punct('|', false), behind);
        lemma_single_is_read(types[0], seq![Tok::Punct('|', false)] + behind, unexpected);
        lemma_single_type(tokens, unexpected);
        lemma_front_punct(seq![Tok::Punct('|', false)] + behind, '|');
        assert forall|i: int| 0 <= i < types.drop_first().len() implies is_single(
            #[trigger] types.drop_first()[i],
        ) by {
            assert(types.drop_first()[i] == types[i + 1]);
        }
        assert(decreases_to!(types => types.drop_first()));
        lemma_choice_is_read(types.drop_first(), rest, unexpected, before.push(types[0]));
        assert(before.push(types[0]) + types.drop_first() =~= before + types);
    }
}

/// A type is read as it is written, whatever stands behind it but for `|`.
pub proof fn law_type_is_read(ty: DslType, rest: Seq<Tok>, unexpected: Option<Seq<char>>)
    requires
        is_written_type(ty),
        front_punct(rest, '|') is None,
    ensures
        trade_type(written_type(ty) + rest, unexpected) == Ok::<_, Seq<char>>(
            Parsed { value: ty, rest, unexpected },
        ),
    decreases ty, 1nat,
{
    match ty {
        DslType::Union(types) => {
            let tokens = written_type(ty) + rest;
            let behind = written_types(types.drop_first(), '|') + rest;
            assert(written_types(types, '|') + rest =~= written_type(types[0]) + (seq![
                Tok::Punct('|', false),
            ] + behind));
            lemma_visible(Tok::Punct('|', false), behind);
            lemma_single_is_read(types[0], seq![Tok::Punct('|', false)] + behind, unexpected);
            lemma_single_type(tokens, unexpected);
            lemma_front_punct(seq![Tok::Punct('|', false)] + behind, '|');
            assert forall|i: int| 0 <= i < types.drop_first().len() implies is_single(
                #[trigger] types.drop_first()[i],
            ) by {
                assert(types.drop_first()[i] == types[i + 1]);
            }
            assert(decreases_to!(ty => types));
            assert(decreases_to!(types => types.drop_first()));
            lemma_choice_is_read(types.drop_first(), rest, unexpected, seq![types[0]]);
            assert(seq![types[0]] + types.drop_first() =~= types);
        },
        _ => {
            lemma_single_is_read(ty, rest, unexpected);
        },
    }
}

// ---------------------------------------------------------------------------------------------
// Clauses
// ---------------------------------------------------------------------------------------------
/// A word that the grammar knows.
pub open spec fn is_word_of_grammar(word: Seq<char>) -> bool {
    ||| word == "context"@
    ||| word == "param"@
    ||| word == "optional"@
    ||| word == "returns"@
    ||| word == "produce"@
    ||| word == "need"@
    ||| word == "consume"@
    ||| word == "monitor"@
    ||| word == "executor"@
    ||| word == "data_item"@
    ||| word == "condition"@
}

/// The words that the grammar knows are no keywords, and differ from each other.
pub(crate) proof fn lemma_words_of_grammar()
    ensures
        forall|word: Seq<char>| is_word_of_grammar(word) ==> !#[trigger] is_keyword(word),
        "context"@ != "param"@,
        "context"@ != "optional"@,
        "context"@ != "returns"@,
        "param"@ != "optional"@,
        "param"@ != "returns"@,
        "optional"@ != "returns"@,
        op_named("produce"@) == Some(CtxOp::Produce),
        op_named("need"@) == Some(CtxOp::Need),
        op_named("consume"@) == Some(CtxOp::Consume),
        category_named("monitor"@) == Some(Category::Monitor),
        category_named("executor"@) == Some(Category::Executor),
        category_named("data_item"@) == Some(Category::DataItem),
        category_named("condition"@) == Some(Category::Condition),
{
    reveal_strlit("context");
    reveal_strlit("param");
    reveal_strlit("optional");
    reveal_strlit("returns");
    reveal_strlit("produce");
    reveal_strlit("need");
    reveal_strlit("consume");
    reveal_strlit("monitor");
    reveal_strlit("executor");
    reveal_strlit("data_item");
    reveal_strlit("condition");
    assert("context"@[0] == 'c');
    assert("param"@[0] == 'p');
    assert("optional"@[0] == 'o');
    assert("optional"@[1] == 'p');
    assert("returns"@[0] == 'r');
    assert("produce"@[0] == 'p');
    assert("need"@[0] == 'n');
    assert("consume"@[0] == 'c');
    assert("monitor"@[0] == 'm');
    assert("executor"@[0] == 'e');
    assert("data_item"@[0] == 'd');
    assert("condition"@[0] == 'c');
    assert forall|word: Seq<char>| is_word_of_grammar(word) implies !#[trigger] is_keyword(
        word,
    ) by {
        reveal_strlit("Self");
        if is_keyword(word) {
            lemma_keyword_begins(word);
        }
    }
}

/// An identifier in front is read.
pub(crate) proof fn lemma_ident_is_read(word: Seq<char>, rest: Seq<Tok>)
    requires
        !is_keyword(word),
    ensures
        front_ident(seq![Tok::Ident(word)] + rest) == Ok::<_, Seq<char>>((word, rest)),
{
    lemma_visible(Tok::Ident(word), rest);
}

/// A punctuation character in front is read, and no other.
pub(crate) proof fn lemma_punct_is_read(c: char, joint: bool, rest: Seq<Tok>)
    ensures
        front_punct(seq![Tok::Punct(c, joint)] + rest, c) == Some(rest),
        forall|other: char|
            other != c ==> (#[trigger] front_punct(seq![Tok::Punct(c, joint)] + rest, other))
                is None,
{
    lemma_visible(Tok::Punct(c, joint), rest);
}

/// Whether a parameter can be written.
pub open spec fn is_written_param(param: ParamModel) -> bool {
    !is_keyword(param.name) && is_written_type(param.ty)
}

/// How a parameter is written.
pub open spec fn written_param(param: ParamModel) -> Seq<Tok> {
    (if param.required {
        seq![Tok::Ident("param"@)]
    } else {
        seq![Tok::Ident("optional"@), Tok::Ident("param"@)]
    }) + (seq![Tok::Ident(param.name)] + (seq![Tok::Punct(':', false)] + (written_type(param.ty)
        + seq![Tok::Punct(';', false)])))
}

/// A parameter is read as it is written.
pub proof fn law_param_is_read(
    param: ParamModel,
    rest: Seq<Tok>,
    unexpected: Option<Seq<char>>,
)
    requires
        is_written_param(param),
    ensures
        clause(written_param(param) + rest, unexpected) == Ok::<_, Seq<char>>(
            Parsed { value: Item::Param(param), rest, unexpected },
        ),
{
    lemma_words_of_grammar();
    assert(is_word_of_grammar("param"@) && is_word_of_grammar("optional"@));
    let end = seq![Tok::Punct(';', false)] + rest;
    let typed = written_type(param.ty) + end;
    let colon = seq![Tok::Punct(':', false)] + typed;
    let named = seq![Tok::Ident(param.name)] + colon;
    lemma_punct_is_read(';', false, rest);
    law_type_is_read(param.ty, end, unexpected);
    lemma_punct_is_read(':', false, typed);
    lemma_ident_is_read(param.name, colon);
    lemma_ident_is_read("param"@, named);
    if param.required {
        assert(written_param(param) + rest =~= seq![Tok::Ident("param"@)] + named);
    } else {
        let word = seq![Tok::Ident("param"@)] + named;
        lemma_ident_is_read("optional"@, word);
        assert(written_param(param) + rest =~= seq![Tok::Ident("optional"@)] + word);
    }
}

/// The word for what a symbol does with a context.
pub open spec fn op_word(op: CtxOp) -> Seq<char> {
    match op {
        CtxOp::Produce => "produce"@,
        CtxOp::Need => "need"@,
        CtxOp::Consume => "consume"@,
    }
}

/// Whether a type of Rust is read as it is written wherever an arrow follows.
pub open spec fn is_written_rust_type(ty: Seq<Tok>) -> bool {
    forall|rest: Seq<Tok>|
        rest.len() > 0 && rest[0] == Tok::Punct('=', true) ==> #[trigger] front_type(ty + rest)
            == Ok::<_, Seq<char>>(FrontModel { node: ty, rest, unexpected: None })
}

/// A name that is no keyword is read as a type of Rust.
pub proof fn law_named_rust_type_is_read(name: Seq<char>)
    requires
        !is_keyword(name),
    ensures
        is_written_rust_type(seq![Tok::Ident(name)]),
{
    assert forall|rest: Seq<Tok>|
        rest.len() > 0 && rest[0] == Tok::Punct('=', true) implies #[trigger] front_type(
        seq![Tok::Ident(name)] + rest,
    ) == Ok::<_, Seq<char>>(
        FrontModel { node: seq![Tok::Ident(name)], rest, unexpected: None },
    ) by {
        let tokens = seq![Tok::Ident(name)] + rest;
        assert(tokens[1] == rest[0]);
        assert(tokens.drop_first() =~= rest);
        assert(seq![tokens[0]] =~= seq![Tok::Ident(name)]);
    }
}

/// Whether a context can be written: its type is read as it is written, and its literal is a string
/// literal with its protocol for a value.
pub open spec fn is_written_context(context: ContextModel) -> bool {
    &&& is_written_rust_type(context.ty)
    &&& context.literal.len() == 1
    &&& context.literal[0] matches Tok::Lit(written) && string_value(written) == Some(
        context.protocol,
    )
}

/// How a context is written.
pub open spec fn written_context(context: ContextModel) -> Seq<Tok> {
    seq![Tok::Ident("context"@)] + (seq![Tok::Ident(op_word(context.op))] + (context.ty + (seq![
        Tok::Punct('=', true),
    ] + (seq![Tok::Punct('>', false)] + (context.literal + seq![Tok::Punct(';', false)])))))
}

/// A context is read as it is written.
pub proof fn law_context_is_read(
    context: ContextModel,
    rest: Seq<Tok>,
    unexpected: Option<Seq<char>>,
)
    requires
        is_written_context(context),
    ensures
        clause(written_context(context) + rest, unexpected) == Ok::<_, Seq<char>>(
            Parsed { value: Item::Context(context), rest, unexpected },
        ),
{
    lemma_words_of_grammar();
    assert(is_word_of_grammar("context"@) && is_word_of_grammar(op_word(context.op)));
    let end = seq![Tok::Punct(';', false)] + rest;
    let literal = context.literal + end;
    let head = seq![Tok::Punct('>', false)] + literal;
    let arrow = seq![Tok::Punct('=', true)] + head;
    let typed = context.ty + arrow;
    let worded = seq![Tok::Ident(op_word(context.op))] + typed;
    lemma_punct_is_read(';', false, rest);
    lemma_visible(context.literal[0], end);
    assert(literal =~= seq![context.literal[0]] + end);
    assert(seq![context.literal[0]] =~= context.literal);
    lemma_punct_is_read('>', false, literal);
    lemma_visible(Tok::Punct('=', true), head);
    assert(front_fat_arrow(arrow) == Some(literal));
    assert(front_type(typed) == Ok::<_, Seq<char>>(
        FrontModel { node: context.ty, rest: arrow, unexpected: None },
    ));
    lemma_ident_is_read(op_word(context.op), typed);
    lemma_ident_is_read("context"@, worded);
    assert(written_context(context) + rest =~= seq![Tok::Ident("context"@)] + worded);
}

/// Whether return types can be written: each has a name.
pub open spec fn is_written_returns(types: Seq<DslType>) -> bool {
    forall|i: int| 0 <= i < types.len() ==> is_named(#[trigger] types[i])
}

/// How return types are written.
pub open spec fn written_returns(types: Seq<DslType>) -> Seq<Tok> {
    seq![Tok::Ident("returns"@)] + (seq![
        Tok::Group(Delim::Parenthesis, written_types(types, ',')),
    ] + seq![Tok::Punct(';', false)])
}

/// The names of return types are read as they are written.
proof fn lemma_returns_are_read(types: Seq<DslType>, before: Seq<DslType>)
    requires
        is_written_returns(types),
    ensures
        return_types(written_types(types, ','), before) == Ok::<_, Seq<char>>(
            (before + types, Seq::<Tok>::empty()),
        ),
    decreases types.len(),
{
    let tokens = written_types(types, ',');
    if types.len() == 0 {
        assert(before + types =~= before);
    } else {
        lemma_named(types[0]);
        let name = name_of_type(types[0]);
        assert(written_type(types[0]) == seq![Tok::Ident(name)]);
        if types.len() == 1 {
            lemma_ident_is_read(name, Seq::empty());
            assert(tokens =~= seq![Tok::Ident(name)] + Seq::empty());
            assert(before.push(types[0]) =~= before + types);
        } else {
            let behind = written_types(types.drop_first(), ',');
            let comma = seq![Tok::Punct(',', false)] + behind;
            lemma_ident_is_read(name, comma);
            lemma_punct_is_read(',', false, behind);
            lemma_weight_concat(seq![Tok::Ident(name)], comma);
            lemma_weight_concat(seq![Tok::Punct(',', false)], behind);
            lemma_one_weighs(Tok::Punct(',', false));
            assert(tokens =~= seq![Tok::Ident(name)] + comma);
            assert(is_written_returns(types.drop_first()));
            lemma_returns_are_read(types.drop_first(), before.push(types[0]));
            assert(before.push(types[0]) + types.drop_first() =~= before + types);
        }
    }
}

/// A token has a weight.
pub(crate) proof fn lemma_one_weighs(token: Tok)
    ensures
        weight(seq![token]) >= 1,
{
    reveal_with_fuel(weight, 2);
}

/// Return types are read as they are written.
pub proof fn law_returns_are_read(
    types: Seq<DslType>,
    rest: Seq<Tok>,
    unexpected: Option<Seq<char>>,
)
    requires
        is_written_returns(types),
    ensures
        clause(written_returns(types) + rest, unexpected) == Ok::<_, Seq<char>>(
            Parsed { value: Item::Returns(types), rest, unexpected },
        ),
{
    lemma_words_of_grammar();
    assert(is_word_of_grammar("returns"@));
    let group = Tok::Group(Delim::Parenthesis, written_types(types, ','));
    let end = seq![Tok::Punct(';', false)] + rest;
    lemma_punct_is_read(';', false, rest);
    lemma_visible(group, end);
    lemma_returns_are_read(types, Seq::empty());
    assert(Seq::<DslType>::empty() + types =~= types);
    lemma_ident_is_read("returns"@, seq![group] + end);
    assert(written_returns(types) + rest =~= seq![Tok::Ident("returns"@)] + (seq![group] + end));
}

/// The names of return types are read as they are written, with a comma behind the last.
proof fn lemma_returns_with_comma_are_read(types: Seq<DslType>, before: Seq<DslType>)
    requires
        types.len() >= 1,
        is_written_returns(types),
    ensures
        return_types(
            written_types(types, ',') + seq![Tok::Punct(',', false)],
            before,
        ) == Ok::<_, Seq<char>>((before + types, Seq::<Tok>::empty())),
    decreases types.len(),
{
    let comma = seq![Tok::Punct(',', false)];
    let tokens = written_types(types, ',') + comma;
    lemma_named(types[0]);
    let name = name_of_type(types[0]);
    assert(written_type(types[0]) == seq![Tok::Ident(name)]);
    let behind = if types.len() == 1 {
        Seq::<Tok>::empty()
    } else {
        written_types(types.drop_first(), ',') + comma
    };
    assert(tokens =~= seq![Tok::Ident(name)] + (comma + behind));
    lemma_ident_is_read(name, comma + behind);
    lemma_punct_is_read(',', false, behind);
    lemma_weight_concat(seq![Tok::Ident(name)], comma + behind);
    lemma_weight_concat(comma, behind);
    lemma_one_weighs(Tok::Punct(',', false));
    if types.len() == 1 {
        assert(return_types(behind, before.push(types[0])) == Ok::<_, Seq<char>>(
            (before.push(types[0]), behind),
        ));
        assert(before.push(types[0]) =~= before + types);
    } else {
        assert(is_written_returns(types.drop_first()));
        lemma_returns_with_comma_are_read(types.drop_first(), before.push(types[0]));
        assert(before.push(types[0]) + types.drop_first() =~= before + types);
    }
}

/// Return types read the same with a comma behind the last and without.
pub proof fn law_comma_behind_return_types(
    types: Seq<DslType>,
    rest: Seq<Tok>,
    unexpected: Option<Seq<char>>,
)
    requires
        types.len() >= 1,
        is_written_returns(types),
    ensures
        clause(
            bracketed_return(written_types(types, ',') + seq![Tok::Punct(',', false)]) + rest,
            unexpected,
        ) == Ok::<_, Seq<char>>(Parsed { value: Item::Returns(types), rest, unexpected }),
{
    lemma_words_of_grammar();
    assert(is_word_of_grammar("returns"@));
    let inner = written_types(types, ',') + seq![Tok::Punct(',', false)];
    let group = Tok::Group(Delim::Parenthesis, inner);
    let end = seq![Tok::Punct(';', false)] + rest;
    lemma_punct_is_read(';', false, rest);
    lemma_visible(group, end);
    lemma_returns_with_comma_are_read(types, Seq::empty());
    assert(Seq::<DslType>::empty() + types =~= types);
    lemma_ident_is_read("returns"@, seq![group] + end);
    assert(bracketed_return(inner) + rest =~= seq![Tok::Ident("returns"@)] + (seq![group] + end));
}

/// Whether a clause can be written.
pub open spec fn is_written_item(item: Item) -> bool {
    match item {
        Item::Context(context) => is_written_context(context),
        Item::Param(param) => is_written_param(param),
        Item::Returns(types) => is_written_returns(types),
    }
}

/// How a clause is written.
pub open spec fn written_item(item: Item) -> Seq<Tok> {
    match item {
        Item::Context(context) => written_context(context),
        Item::Param(param) => written_param(param),
        Item::Returns(types) => written_returns(types),
    }
}

/// A clause is read as it is written.
pub proof fn law_item_is_read(item: Item, rest: Seq<Tok>, unexpected: Option<Seq<char>>)
    requires
        is_written_item(item),
    ensures
        clause(written_item(item) + rest, unexpected) == Ok::<_, Seq<char>>(
            Parsed { value: item, rest, unexpected },
        ),
{
    match item {
        Item::Context(context) => {
            law_context_is_read(context, rest, unexpected);
        },
        Item::Param(param) => {
            law_param_is_read(param, rest, unexpected);
        },
        Item::Returns(types) => {
            law_returns_are_read(types, rest, unexpected);
        },
    }
}

/// `returns Name ;`
pub open spec fn bare_return(name: Seq<char>) -> Seq<Tok> {
    seq![Tok::Ident("returns"@)] + (seq![Tok::Ident(name)] + seq![Tok::Punct(';', false)])
}

/// `returns ( .. ) ;`
pub open spec fn bracketed_return(inner: Seq<Tok>) -> Seq<Tok> {
    seq![Tok::Ident("returns"@)] + (seq![Tok::Group(Delim::Parenthesis, inner)] + seq![
        Tok::Punct(';', false),
    ])
}

/// One return type reads the same whether it stands alone, in parentheses, or in parentheses with a
/// comma behind it, whatever was read before and stands behind; and empty parentheses stand for no
/// type, which is not the same as no return types at all.
pub proof fn law_one_return_type_in_every_form(
    name: Seq<char>,
    rest: Seq<Tok>,
    unexpected: Option<Seq<char>>,
    before: Seq<Item>,
)
    requires
        !is_keyword(name),
    ensures
        ({
            let one = Item::Returns(seq![type_named(name)]);
            let after = all_clauses(rest, unexpected, before.push(one));
            let word = seq![Tok::Ident(name)];
            let comma = seq![Tok::Punct(',', false)];
            &&& all_clauses(bare_return(name) + rest, unexpected, before) == after
            &&& all_clauses(bracketed_return(word) + rest, unexpected, before) == after
            &&& all_clauses(bracketed_return(word + comma) + rest, unexpected, before) == after
            &&& all_clauses(bracketed_return(Seq::empty()) + rest, unexpected, before)
                == all_clauses(rest, unexpected, before.push(Item::Returns(Seq::empty())))
            &&& returns_of(before.push(one)) == Some(seq![type_named(name)])
            &&& returns_of(before.push(Item::Returns(Seq::empty()))) == Some(
                Seq::<DslType>::empty(),
            )
        }),
{
    lemma_words_of_grammar();
    assert(is_word_of_grammar("returns"@));
    let end = seq![Tok::Punct(';', false)] + rest;
    lemma_punct_is_read(';', false, rest);
    // bare
    let named = seq![Tok::Ident(name)] + end;
    lemma_visible(Tok::Ident(name), end);
    lemma_ident_is_read(name, end);
    lemma_ident_is_read("returns"@, named);
    assert(bare_return(name) + rest =~= seq![Tok::Ident("returns"@)] + named);
    lemma_clause_shrinks(Tok::Ident("returns"@), bare_return(name).drop_first(), rest);
    assert(seq![Tok::Ident("returns"@)] + bare_return(name).drop_first() =~= bare_return(name));
    // in parentheses
    let word = seq![Tok::Ident(name)];
    let comma = seq![Tok::Punct(',', false)];
    let nothing = Seq::<Tok>::empty();
    let none = Seq::<DslType>::empty();
    assert(none.push(type_named(name)) =~= seq![type_named(name)]);
    lemma_ident_is_read(name, nothing);
    lemma_visible(Tok::Ident(name), nothing);
    assert(word + nothing =~= word);
    assert(return_types(word, none) == Ok::<_, Seq<char>>((seq![type_named(name)], nothing)));
    lemma_bracketed_is_read(word, seq![type_named(name)], rest, unexpected, before);
    // with a comma
    lemma_ident_is_read(name, comma);
    lemma_punct_is_read(',', false, nothing);
    assert(comma + nothing =~= comma);
    lemma_weight_concat(word, comma);
    lemma_one_weighs(Tok::Ident(name));
    lemma_one_weighs(Tok::Punct(',', false));
    assert(return_types(nothing, seq![type_named(name)]) == Ok::<_, Seq<char>>(
        (seq![type_named(name)], nothing),
    ));
    assert(return_types(word + comma, none) == Ok::<_, Seq<char>>(
        (seq![type_named(name)], nothing),
    ));
    lemma_bracketed_is_read(word + comma, seq![type_named(name)], rest, unexpected, before);
    // empty
    assert(return_types(nothing, none) == Ok::<_, Seq<char>>((none, nothing)));
    lemma_bracketed_is_read(nothing, none, rest, unexpected, before);
}

/// Return types in parentheses are read where what the parentheses hold is.
proof fn lemma_bracketed_is_read(
    inner: Seq<Tok>,
    types: Seq<DslType>,
    rest: Seq<Tok>,
    unexpected: Option<Seq<char>>,
    before: Seq<Item>,
)
    requires
        return_types(inner, Seq::empty()) == Ok::<_, Seq<char>>((types, Seq::<Tok>::empty())),
    ensures
        all_clauses(bracketed_return(inner) + rest, unexpected, before) == all_clauses(
            rest,
            unexpected,
            before.push(Item::Returns(types)),
        ),
{
    lemma_words_of_grammar();
    assert(is_word_of_grammar("returns"@));
    let group = Tok::Group(Delim::Parenthesis, inner);
    let end = seq![Tok::Punct(';', false)] + rest;
    lemma_punct_is_read(';', false, rest);
    lemma_visible(group, end);
    lemma_ident_is_read("returns"@, seq![group] + end);
    let whole = bracketed_return(inner);
    assert(whole + rest =~= seq![Tok::Ident("returns"@)] + (seq![group] + end));
    lemma_clause_shrinks(Tok::Ident("returns"@), whole.drop_first(), rest);
    assert(seq![Tok::Ident("returns"@)] + whole.drop_first() =~= whole);
}

/// A definition names no return types exactly where no clause does.
pub proof fn law_return_types_named(items: Seq<Item>)
    ensures
        returns_of(items) is None <==> forall|i: int|
            0 <= i < items.len() ==> !((#[trigger] items[i]) is Returns),
    decreases items.len(),
{
    if items.len() > 0 {
        let before = items.drop_last();
        law_return_types_named(before);
        assert forall|i: int| 0 <= i < before.len() implies before[i] == items[i] by {}
        assert(items[items.len() - 1] == items.last());
        if returns_of(items) is None {
            assert forall|i: int| 0 <= i < items.len() implies !((#[trigger] items[i])
                is Returns) by {
                if i < before.len() {
                    assert(!(before[i] is Returns));
                }
            }
        }
    }
}

/// Contexts and parameters each keep the order in which the definition has them, one for each
/// clause.
pub proof fn law_clauses_keep_their_order(items: Seq<Item>)
    ensures
        contexts_of(items) == items.filter(|item: Item| item is Context).map_values(
            |item: Item| item->Context_0,
        ),
        params_of(items) == items.filter(|item: Item| item is Param).map_values(
            |item: Item| item->Param_0,
        ),
    decreases items.len(),
{
    reveal(Seq::filter);
    if items.len() > 0 {
        law_clauses_keep_their_order(items.drop_last());
    }
    assert(contexts_of(items) =~= items.filter(|item: Item| item is Context).map_values(
        |item: Item| item->Context_0,
    ));
    assert(params_of(items) =~= items.filter(|item: Item| item is Param).map_values(
        |item: Item| item->Param_0,
    ));
}

/// The last clause that names return types says what is returned, whatever those before it name.
pub proof fn law_last_return_types_count(before: Seq<Item>, types: Seq<DslType>, after: Seq<Item>)
    requires
        forall|i: int| 0 <= i < after.len() ==> !((#[trigger] after[i]) is Returns),
    ensures
        returns_of(before + seq![Item::Returns(types)] + after) == Some(types),
    decreases after.len(),
{
    let items = before + seq![Item::Returns(types)] + after;
    if after.len() > 0 {
        assert(items.last() == after[after.len() - 1]);
        assert(items.drop_last() =~= before + seq![Item::Returns(types)] + after.drop_last());
        law_last_return_types_count(before, types, after.drop_last());
    }
}

/// A definition comes to what it says: its visibility, category and name, and its contexts,
/// parameters and return types as its clauses have them.
pub proof fn law_definition_says(outline: Outline)
    ensures
        outline.symbol().vis == outline.vis,
        outline.symbol().category == outline.category,
        outline.symbol().name == outline.name,
        outline.symbol().clauses.contexts == outline.items.filter(
            |item: Item| item is Context,
        ).map_values(|item: Item| item->Context_0),
        outline.symbol().clauses.params == outline.items.filter(
            |item: Item| item is Param,
        ).map_values(|item: Item| item->Param_0),
        outline.symbol().clauses.returns is None <==> forall|i: int|
            0 <= i < outline.items.len() ==> !((#[trigger] outline.items[i]) is Returns),
        forall|before: Seq<Item>, types: Seq<DslType>, after: Seq<Item>|
            outline.items == #[trigger] (before + seq![Item::Returns(types)] + after) && (forall|
                i: int,
            |
                0 <= i < after.len() ==> !((#[trigger] after[i]) is Returns))
                ==> outline.symbol().clauses.returns == Some(types),
{
    law_clauses_keep_their_order(outline.items);
    law_return_types_named(outline.items);
    assert forall|before: Seq<Item>, types: Seq<DslType>, after: Seq<Item>|
        outline.items == #[trigger] (before + seq![Item::Returns(types)] + after) && (forall|i: int|
            0 <= i < after.len() ==> !((#[trigger] after[i])
                is Returns)) implies outline.symbol().clauses.returns == Some(types) by {
        law_last_return_types_count(before, types, after);
    }
}

// ---------------------------------------------------------------------------------------------
// Definitions
// ---------------------------------------------------------------------------------------------
/// Two inputs with the same visibility, category and name come to the same definition where they
/// have the same contexts, the same parameters and the same last return types, however their
/// clauses are interleaved.
pub proof fn law_interleaving_does_not_matter(
    first: Seq<Tok>,
    second: Seq<Tok>,
    a: Outline,
    b: Outline,
)
    requires
        whole_outline(first) == Ok::<_, Seq<char>>(a),
        whole_outline(second) == Ok::<_, Seq<char>>(b),
        a.vis == b.vis,
        a.category == b.category,
        a.name == b.name,
        contexts_of(a.items) == contexts_of(b.items),
        params_of(a.items) == params_of(b.items),
        returns_of(a.items) == returns_of(b.items),
    ensures
        whole_definition(first) == whole_definition(second),
        whole_definition(first) is Ok,
{
}

/// How several clauses are written.
pub open spec fn written_items(items: Seq<Item>) -> Seq<Tok>
    decreases items.len(),
{
    if items.len() == 0 {
        Seq::empty()
    } else {
        written_item(items[0]) + written_items(items.drop_first())
    }
}

/// The word for a category.
pub open spec fn category_word(category: Category) -> Seq<char> {
    match category {
        Category::Monitor => "monitor"@,
        Category::Executor => "executor"@,
        Category::DataItem => "data_item"@,
        Category::Condition => "condition"@,
    }
}

/// `category Name { .. }`
pub open spec fn braced(category: Category, name: Seq<char>, inner: Seq<Tok>) -> Seq<Tok> {
    seq![Tok::Ident(category_word(category))] + (seq![Tok::Ident(name)] + seq![
        Tok::Group(Delim::Brace, inner),
    ])
}

/// How a definition is written, behind its visibility.
pub open spec fn written_body(outline: Outline) -> Seq<Tok> {
    braced(outline.category, outline.name, written_items(outline.items))
}

/// How a definition is written.
pub open spec fn written_outline(outline: Outline) -> Seq<Tok> {
    outline.vis + written_body(outline)
}

/// Whether a definition can be written: its visibility is read as that visibility in front of the
/// rest, its name is no keyword, and each of its clauses can be written.
pub open spec fn is_written_outline(outline: Outline) -> bool {
    &&& front_visibility(written_outline(outline)) == Ok::<_, Seq<char>>(
        FrontModel { node: outline.vis, rest: written_body(outline), unexpected: None },
    )
    &&& !is_keyword(outline.name)
    &&& forall|i: int|
        0 <= i < outline.items.len() ==> is_written_item(#[trigger] outline.items[i])
}

/// A clause that was read leaves less to read.
pub(crate) proof fn lemma_clause_shrinks(first: Tok, more: Seq<Tok>, rest: Seq<Tok>)
    ensures
        weight(rest) < weight((seq![first] + more) + rest),
        ((seq![first] + more) + rest).len() > 0,
{
    lemma_weight_concat(seq![first] + more, rest);
    lemma_weight_concat(seq![first], more);
    lemma_one_weighs(first);
}

/// Clauses are read as they are written, whatever was read before and stands behind.
pub proof fn law_items_are_read(
    items: Seq<Item>,
    rest: Seq<Tok>,
    unexpected: Option<Seq<char>>,
    before: Seq<Item>,
)
    requires
        forall|i: int| 0 <= i < items.len() ==> is_written_item(#[trigger] items[i]),
    ensures
        all_clauses(written_items(items) + rest, unexpected, before) == all_clauses(
            rest,
            unexpected,
            before + items,
        ),
    decreases items.len(),
{
    if items.len() == 0 {
        assert(written_items(items) + rest =~= rest);
        assert(before + items =~= before);
    } else {
        let first = written_item(items[0]);
        let behind = written_items(items.drop_first()) + rest;
        assert(written_items(items) + rest =~= first + behind);
        law_item_is_read(items[0], behind, unexpected);
        lemma_clause_shrinks(first[0], first.drop_first(), behind);
        assert(seq![first[0]] + first.drop_first() =~= first);
        assert forall|i: int| 0 <= i < items.drop_first().len() implies is_written_item(
            #[trigger] items.drop_first()[i],
        ) by {
            assert(items.drop_first()[i] == items[i + 1]);
        }
        law_items_are_read(items.drop_first(), rest, unexpected, before.push(items[0]));
        assert(before.push(items[0]) + items.drop_first() =~= before + items);
    }
}

/// No visibility, and `pub`, are read as they are written in front of a definition.
pub proof fn law_common_visibility_is_read(outline: Outline)
    requires
        outline.vis.len() == 0 || outline.vis == seq![Tok::Ident("pub"@)],
    ensures
        front_visibility(written_outline(outline)) == Ok::<_, Seq<char>>(
            FrontModel { node: outline.vis, rest: written_body(outline), unexpected: None },
        ),
{
    let tokens = written_outline(outline);
    let body = written_body(outline);
    let word = category_word(outline.category);
    lemma_words_of_grammar();
    assert(is_word_of_grammar(word));
    assert(is_keyword("pub"@));
    let behind = seq![Tok::Ident(outline.name)] + seq![
        Tok::Group(Delim::Brace, written_items(outline.items)),
    ];
    lemma_visible(Tok::Ident(word), behind);
    if outline.vis.len() == 0 {
        assert(outline.vis =~= Seq::empty());
        assert(tokens =~= body);
    } else {
        assert(tokens[0] == Tok::Ident("pub"@));
        assert(tokens.drop_first() =~= body);
    }
}

/// Behind a visibility, what is read of a definition is what is read of its braces.
proof fn lemma_braced_is_read(
    vis: Seq<Tok>,
    category: Category,
    name: Seq<char>,
    inner: Seq<Tok>,
    unexpected: Option<Seq<char>>,
)
    requires
        !is_keyword(name),
    ensures
        outline_behind_visibility(vis, braced(category, name, inner), unexpected) == (
        match all_clauses(inner, unexpected, Seq::empty()) {
            Err(message) => Err(message),
            Ok((items, unexpected)) => Ok::<_, Seq<char>>(
                Parsed {
                    value: Outline { vis, category, name, items },
                    rest: Seq::<Tok>::empty(),
                    unexpected,
                },
            ),
        }),
{
    let group = Tok::Group(Delim::Brace, inner);
    lemma_words_of_grammar();
    assert(is_word_of_grammar(category_word(category)));
    lemma_visible(group, Seq::empty());
    assert(seq![group] + Seq::empty() =~= seq![group]);
    lemma_ident_is_read(name, seq![group]);
    lemma_ident_is_read(category_word(category), seq![Tok::Ident(name)] + seq![group]);
}

/// A definition with one return type is the same whether the type stands alone, in parentheses, or
/// in parentheses with a comma behind it, between whatever clauses. With empty parentheses as its
/// last clause it has return types, none in number; without a clause that names any it has none.
pub proof fn law_definition_with_one_return_type(
    vis: Seq<Tok>,
    category: Category,
    name: Seq<char>,
    items: Seq<Item>,
    ty: Seq<char>,
    rest: Seq<Tok>,
    unexpected: Option<Seq<char>>,
)
    requires
        !is_keyword(name),
        !is_keyword(ty),
        forall|i: int| 0 <= i < items.len() ==> is_written_item(#[trigger] items[i]),
    ensures
        ({
            let read = |form: Seq<Tok>|
                outline_behind_visibility(
                    vis,
                    braced(category, name, written_items(items) + (form + rest)),
                    unexpected,
                );
            let word = seq![Tok::Ident(ty)];
            &&& read(bracketed_return(word)) == read(bare_return(ty))
            &&& read(bracketed_return(word + seq![Tok::Punct(',', false)])) == read(bare_return(ty))
        }),
        rest.len() == 0 ==> {
            let read = |form: Seq<Tok>|
                outline_behind_visibility(
                    vis,
                    braced(category, name, written_items(items) + (form + rest)),
                    unexpected,
                );
            let one = read(bare_return(ty));
            let none = read(bracketed_return(Seq::empty()));
            &&& one is Ok && one->Ok_0.value.symbol().clauses.returns == Some(
                seq![type_named(ty)],
            )
            &&& none is Ok && none->Ok_0.value.symbol().clauses.returns == Some(
                Seq::<DslType>::empty(),
            )
            &&& (forall|i: int| 0 <= i < items.len() ==> !((#[trigger] items[i]) is Returns))
                ==> Clauses::of(items).returns is None
        },
{
    let word = seq![Tok::Ident(ty)];
    let comma = seq![Tok::Punct(',', false)];
    let before = Seq::<Item>::empty() + items;
    assert(before =~= items);
    law_one_return_type_in_every_form(ty, rest, unexpected, items);
    law_return_types_named(items);
    lemma_form_is_read(vis, category, name, items, bare_return(ty) + rest, unexpected);
    lemma_form_is_read(vis, category, name, items, bracketed_return(word) + rest, unexpected);
    lemma_form_is_read(
        vis,
        category,
        name,
        items,
        bracketed_return(word + comma) + rest,
        unexpected,
    );
    lemma_form_is_read(
        vis,
        category,
        name,
        items,
        bracketed_return(Seq::empty()) + rest,
        unexpected,
    );
}

/// What is read of a definition whose first clauses are written is what is read behind them.
pub(crate) proof fn lemma_form_is_read(
    vis: Seq<Tok>,
    category: Category,
    name: Seq<char>,
    items: Seq<Item>,
    form: Seq<Tok>,
    unexpected: Option<Seq<char>>,
)
    requires
        !is_keyword(name),
        forall|i: int| 0 <= i < items.len() ==> is_written_item(#[trigger] items[i]),
    ensures
        outline_behind_visibility(
            vis,
            braced(category, name, written_items(items) + form),
            unexpected,
        ) == (match all_clauses(form, unexpected, items) {
            Err(message) => Err(message),
            Ok((items, unexpected)) => Ok::<_, Seq<char>>(
                Parsed {
                    value: Outline { vis, category, name, items },
                    rest: Seq::<Tok>::empty(),
                    unexpected,
                },
            ),
        }),
{
    lemma_braced_is_read(vis, category, name, written_items(items) + form, unexpected);
    law_items_are_read(items, form, unexpected, Seq::empty());
    assert(Seq::<Item>::empty() + items =~= items);
}

/// A definition is read as it is written, its clauses in any order, and answered by its code.
pub proof fn law_definition_is_read(outline: Outline)
    requires
        is_written_outline(outline),
    ensures
        whole_outline(written_outline(outline)) == Ok::<_, Seq<char>>(outline),
        whole_definition(written_outline(outline)) == Ok::<_, Seq<char>>(outline.symbol()),
        names_valid(outline.symbol()) ==> answer(written_outline(outline)) == Some(
            symbol_code(outline.symbol()),
        ),
{
    lemma_braced_is_read(
        outline.vis,
        outline.category,
        outline.name,
        written_items(outline.items),
        None,
    );
    law_items_are_read(outline.items, Seq::empty(), None, Seq::empty());
    assert(written_items(outline.items) + Seq::empty() =~= written_items(outline.items));
    assert(Seq::<Item>::empty() + outline.items =~= outline.items);
}

/// A definition without a visibility, or with `pub`, is read as it is written, its clauses in any
/// order. Where it and its protocols are named by words of ASCII letters, digits and underscores,
/// it is answered by its code.
pub proof fn law_common_definition_is_answered(outline: Outline)
    requires
        outline.vis.len() == 0 || outline.vis == seq![Tok::Ident("pub"@)],
        !is_keyword(outline.name),
        forall|i: int|
            0 <= i < outline.items.len() ==> is_written_item(#[trigger] outline.items[i]),
    ensures
        whole_definition(written_outline(outline)) == Ok::<_, Seq<char>>(outline.symbol()),
        is_plain_word(outline.name) && (forall|i: int|
            0 <= i < contexts_of(outline.items).len() ==> is_plain_word(
                (#[trigger] contexts_of(outline.items)[i]).protocol,
            )) ==> answer(written_outline(outline)) == Some(symbol_code(outline.symbol())),
{
    law_common_visibility_is_read(outline);
    law_definition_is_read(outline);
    if is_plain_word(outline.name) {
        law_plain_names_serve(outline.symbol());
    }
}

} // verus!
