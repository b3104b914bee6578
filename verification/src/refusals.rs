//! Which inputs are refused, and with which words.
use vstd::prelude::*;

use crate::answer;
use crate::code::{names_valid, symbol_code, unraw};
use crate::grammar::{
    all_clauses, choice_types, clause, context_behind_type, outline, outline_behind_visibility,
    param_clause, return_types, single_type, trade_type, tuple_types, unread, Category,
    ContextModel, CtxOp, Item, Outline, ParamModel, Parsed,
};
use crate::naming::snake_case;
use crate::phrase::{curly, mark, one, path, quoted};
use crate::symbol::SymbolDef;
use crate::syntax::{
    as_ident, front_fat_arrow, front_group, front_ident, front_punct, front_type, front_visibility,
    ident_reading, is_gap, is_ident, is_keyword, refusal, string_value, FrontModel,
};
use crate::token::{is_plain_word, is_word_char, tokens_of, tree_weight, weight, Delim, Tok};
use crate::trade_type::{type_named, DslType};
use crate::written::{
    braced, bracketed_return, category_word, is_word_of_grammar, is_written_item, is_written_param,
    law_common_visibility_is_read, law_definition_is_read, law_items_are_read, law_type_is_read,
    lemma_clause_shrinks, lemma_form_is_read, lemma_ident_is_read, lemma_punct_is_read,
    lemma_visible, lemma_words_of_grammar, op_word, written_body, written_items, written_outline,
    written_type,
};

verus! {

/// `:: core :: compile_error ! { "message" }`
pub open spec fn refused(message: Seq<char>) -> Seq<Tok> {
    seq![Tok::Punct(':', true), Tok::Punct(':', false)] + path("core"@, "compile_error"@) + mark(
        '!',
    ) + curly(quoted(message))
}

/// An outline without a visibility, or with `pub`, whose name is no keyword and whose clauses can
/// be written.
pub open spec fn is_common(outline: Outline) -> bool {
    &&& outline.vis.len() == 0 || outline.vis == seq![Tok::Ident("pub"@)]
    &&& !is_keyword(outline.name)
    &&& forall|i: int|
        0 <= i < outline.items.len() ==> is_written_item(#[trigger] outline.items[i])
}

/// The definition with more tokens behind its clauses, inside the braces.
pub open spec fn with_more(outline: Outline, more: Seq<Tok>) -> Seq<Tok> {
    outline.vis + braced(outline.category, outline.name, written_items(outline.items) + more)
}

/// Tokens that are none, or begin with an identifier.
pub open spec fn at_next_word(tokens: Seq<Tok>) -> bool {
    tokens.len() == 0 || tokens[0] is Ident
}

/// The tokens by which an input is refused are the invocation of `compile_error!`.
proof fn lemma_refusal(message: Seq<char>)
    ensures
        refusal(message) == refused(message),
{
    assert(refusal(message) =~= refused(message));
}

/// An input of which no definition can be read is refused with what is said of it.
proof fn lemma_input_refused(tokens: Seq<Tok>, message: Seq<char>)
    requires
        outline(tokens, None) == Err::<Parsed<Outline>, Seq<char>>(message),
    ensures
        answer(tokens) == Some(refused(message)),
{
    lemma_refusal(message);
}

/// Behind no visibility or `pub`, the rest of the input decides.
proof fn lemma_behind_visibility(vis: Seq<Tok>, word: Seq<char>, more: Seq<Tok>)
    requires
        vis.len() == 0 || vis == seq![Tok::Ident("pub"@)],
        word != "pub"@,
    ensures
        outline(vis + (seq![Tok::Ident(word)] + more), None) == outline_behind_visibility(
            vis,
            seq![Tok::Ident(word)] + more,
            None,
        ),
{
    let body = seq![Tok::Ident(word)] + more;
    let tokens = vis + body;
    lemma_visible(Tok::Ident(word), more);
    if vis.len() == 0 {
        assert(vis =~= Seq::empty());
        assert(tokens =~= body);
    } else {
        assert(tokens[0] == Tok::Ident("pub"@));
        assert(tokens.drop_first() =~= body);
    }
}

/// What is read of a common definition with more in its braces is what is read of that.
proof fn lemma_with_more(begun: Outline, more: Seq<Tok>)
    requires
        is_common(begun),
    ensures
        outline(with_more(begun, more), None) == (match all_clauses(more, None, begun.items) {
            Err(message) => Err(message),
            Ok((items, unexpected)) => Ok::<_, Seq<char>>(
                Parsed {
                    value: Outline { items, ..begun },
                    rest: Seq::<Tok>::empty(),
                    unexpected,
                },
            ),
        }),
{
    lemma_words_of_grammar();
    assert(is_word_of_grammar(category_word(begun.category)));
    assert(is_keyword("pub"@));
    lemma_behind_visibility(
        begun.vis,
        category_word(begun.category),
        seq![Tok::Ident(begun.name)] + seq![
            Tok::Group(Delim::Brace, written_items(begun.items) + more),
        ],
    );
    lemma_form_is_read(begun.vis, begun.category, begun.name, begun.items, more, None);
}

/// Where clauses were read and the next one is refused, the input is refused with what is said of
/// it.
proof fn lemma_clause_refused(begun: Outline, more: Seq<Tok>, message: Seq<char>)
    requires
        is_common(begun),
        more.len() > 0,
        clause(more, None) == Err::<Parsed<Item>, Seq<char>>(message),
    ensures
        answer(with_more(begun, more)) == Some(refused(message)),
{
    lemma_with_more(begun, more);
    lemma_input_refused(with_more(begun, more), message);
}

/// A word that is none of the four categories is refused where a category is expected, whatever
/// stands behind it; the refusal names the four and the word.
pub proof fn law_unknown_category_is_refused(vis: Seq<Tok>, word: Seq<char>, more: Seq<Tok>)
    requires
        vis.len() == 0 || vis == seq![Tok::Ident("pub"@)],
        !is_keyword(word),
        word != "monitor"@,
        word != "executor"@,
        word != "data_item"@,
        word != "condition"@,
    ensures
        answer(vis + (one(word) + more)) == Some(
            refused(
                "Expected 'monitor', 'executor', 'data_item', or 'condition', got '"@ + word
                    + "'"@,
            ),
        ),
{
    assert(is_keyword("pub"@));
    lemma_behind_visibility(vis, word, more);
    lemma_ident_is_read(word, more);
    lemma_input_refused(
        vis + (one(word) + more),
        "Expected 'monitor', 'executor', 'data_item', or 'condition', got '"@ + word + "'"@,
    );
}

/// Behind the name of a symbol its clauses stand in braces.
pub proof fn law_braces_are_expected(
    vis: Seq<Tok>,
    category: Category,
    name: Seq<char>,
    more: Seq<Tok>,
)
    requires
        vis.len() == 0 || vis == seq![Tok::Ident("pub"@)],
        !is_keyword(name),
        more.len() > 0 ==> !(more[0] matches Tok::Group(delim, _) && (delim is Brace
            || delim is Invisible)),
    ensures
        answer(vis + (one(category_word(category)) + (one(name) + more))) == Some(
            refused(
                if more.len() == 0 {
                    "unexpected end of input, expected curly braces"@
                } else {
                    "expected curly braces"@
                },
            ),
        ),
{
    reveal_strlit("unexpected end of input, ");
    reveal_strlit("expected curly braces");
    reveal_strlit("unexpected end of input, expected curly braces");
    assert("unexpected end of input, "@ + "expected curly braces"@
        =~= "unexpected end of input, expected curly braces"@);
    lemma_words_of_grammar();
    assert(is_word_of_grammar(category_word(category)));
    assert(is_keyword("pub"@));
    lemma_behind_visibility(vis, category_word(category), one(name) + more);
    lemma_ident_is_read(category_word(category), one(name) + more);
    lemma_ident_is_read(name, more);
    if more.len() > 0 {
        lemma_visible(more[0], more.drop_first());
        assert(seq![more[0]] + more.drop_first() =~= more);
    }
    lemma_input_refused(
        vis + (one(category_word(category)) + (one(name) + more)),
        if more.len() == 0 {
            "unexpected end of input, expected curly braces"@
        } else {
            "expected curly braces"@
        },
    );
}

/// A word that begins no clause is refused where a clause is expected, behind whatever clauses and
/// whatever stands behind it; the refusal names those that begin one, and the word.
pub proof fn law_unknown_clause_is_refused(begun: Outline, word: Seq<char>, more: Seq<Tok>)
    requires
        is_common(begun),
        !is_keyword(word),
        word != "context"@,
        word != "param"@,
        word != "optional"@,
        word != "returns"@,
    ensures
        answer(with_more(begun, one(word) + more)) == Some(
            refused(
                "Expected 'context', 'param', 'optional', or 'returns', got '"@ + word + "'"@,
            ),
        ),
{
    lemma_ident_is_read(word, more);
    lemma_clause_refused(
        begun,
        one(word) + more,
        "Expected 'context', 'param', 'optional', or 'returns', got '"@ + word + "'"@,
    );
}

/// A word that is none of the three operations is refused behind `context`, whatever stands behind
/// it; the refusal names the three and the word.
pub proof fn law_unknown_operation_is_refused(begun: Outline, word: Seq<char>, more: Seq<Tok>)
    requires
        is_common(begun),
        !is_keyword(word),
        word != "produce"@,
        word != "need"@,
        word != "consume"@,
    ensures
        answer(with_more(begun, one("context"@) + (one(word) + more))) == Some(
            refused("Expected 'produce', 'need', or 'consume', got '"@ + word + "'"@),
        ),
{
    lemma_words_of_grammar();
    assert(is_word_of_grammar("context"@));
    lemma_ident_is_read("context"@, one(word) + more);
    lemma_ident_is_read(word, more);
    lemma_clause_refused(
        begun,
        one("context"@) + (one(word) + more),
        "Expected 'produce', 'need', or 'consume', got '"@ + word + "'"@,
    );
}

/// Tokens that begin with an identifier, or are none, begin with no punctuation and no arrow.
proof fn lemma_at_next_word(more: Seq<Tok>)
    requires
        at_next_word(more),
    ensures
        forall|c: char| (#[trigger] front_punct(more, c)) is None,
        front_fat_arrow(more) is None,
{
    if more.len() > 0 {
        lemma_visible(more[0], more.drop_first());
        assert(seq![more[0]] + more.drop_first() =~= more);
    }
}

/// The words in front of the name of a parameter.
pub open spec fn param_words(required: bool) -> Seq<Tok> {
    if required {
        one("param"@)
    } else {
        one("optional"@) + one("param"@)
    }
}

/// What is read behind the words in front of a parameter.
proof fn lemma_param_words(required: bool, tokens: Seq<Tok>)
    ensures
        clause(param_words(required) + tokens, None) == param_clause(tokens, None, required),
        (param_words(required) + tokens).len() > 0,
{
    lemma_words_of_grammar();
    assert(is_word_of_grammar("param"@) && is_word_of_grammar("optional"@));
    lemma_ident_is_read("param"@, tokens);
    lemma_ident_is_read("optional"@, one("param"@) + tokens);
    if required {
        assert(param_words(required) + tokens =~= one("param"@) + tokens);
    } else {
        assert(param_words(required) + tokens =~= one("optional"@) + (one("param"@) + tokens));
    }
}

/// A parameter whose name is followed by no colon is refused, and so is one whose type is followed
/// by no semicolon.
pub proof fn law_param_is_whole(begun: Outline, param: ParamModel, more: Seq<Tok>)
    requires
        is_common(begun),
        is_written_param(param),
        at_next_word(more),
    ensures
        answer(with_more(begun, param_words(param.required) + (one(param.name) + more))) == Some(
            refused("expected `:`"@),
        ),
        answer(
            with_more(
                begun,
                param_words(param.required) + (one(param.name) + (mark(':') + (written_type(
                    param.ty,
                ) + more))),
            ),
        ) == Some(refused("expected `;`"@)),
{
    lemma_at_next_word(more);
    let unmarked = one(param.name) + more;
    let typed = written_type(param.ty) + more;
    let unended = one(param.name) + (mark(':') + typed);
    lemma_ident_is_read(param.name, more);
    lemma_param_words(param.required, unmarked);
    lemma_clause_refused(begun, param_words(param.required) + unmarked, "expected `:`"@);
    lemma_ident_is_read(param.name, mark(':') + typed);
    lemma_punct_is_read(':', false, typed);
    law_type_is_read(param.ty, more, None);
    lemma_param_words(param.required, unended);
    lemma_clause_refused(begun, param_words(param.required) + unended, "expected `;`"@);
}

/// Behind `optional` the word before the name of a parameter may be any: it is not looked at.
pub proof fn law_word_behind_optional(
    word: Seq<char>,
    more: Seq<Tok>,
    unexpected: Option<Seq<char>>,
)
    requires
        !is_keyword(word),
    ensures
        clause(one("optional"@) + (one(word) + more), unexpected) == clause(
            one("optional"@) + (one("param"@) + more),
            unexpected,
        ),
        clause(one("optional"@) + (one(word) + more), unexpected) == param_clause(
            more,
            unexpected,
            false,
        ),
{
    lemma_words_of_grammar();
    assert(is_word_of_grammar("param"@) && is_word_of_grammar("optional"@));
    lemma_ident_is_read("optional"@, one(word) + more);
    lemma_ident_is_read("optional"@, one("param"@) + more);
    lemma_ident_is_read(word, more);
    lemma_ident_is_read("param"@, more);
}

/// Return types that are followed by no semicolon are refused, whether they stand in parentheses or
/// one stands alone.
pub proof fn law_returns_are_whole(begun: Outline, name: Seq<char>, more: Seq<Tok>)
    requires
        is_common(begun),
        !is_keyword(name),
        at_next_word(more),
    ensures
        answer(with_more(begun, one("returns"@) + (one(name) + more))) == Some(
            refused("expected `;`"@),
        ),
        answer(
            with_more(
                begun,
                one("returns"@) + (seq![Tok::Group(Delim::Parenthesis, one(name))] + more),
            ),
        ) == Some(refused("expected `;`"@)),
{
    lemma_words_of_grammar();
    assert(is_word_of_grammar("returns"@));
    lemma_at_next_word(more);
    let group = Tok::Group(Delim::Parenthesis, one(name));
    lemma_ident_is_read("returns"@, one(name) + more);
    lemma_ident_is_read(name, more);
    lemma_visible(Tok::Ident(name), more);
    lemma_clause_refused(begun, one("returns"@) + (one(name) + more), "expected `;`"@);
    lemma_ident_is_read("returns"@, seq![group] + more);
    lemma_visible(group, more);
    lemma_ident_is_read(name, Seq::empty());
    assert(one(name) + Seq::<Tok>::empty() =~= one(name));
    lemma_clause_refused(begun, one("returns"@) + (seq![group] + more), "expected `;`"@);
}

/// A context whose type is a name is refused where no arrow follows `=`, where no string literal
/// follows the arrow, and where no semicolon follows the literal.
pub proof fn law_context_is_whole(
    begun: Outline,
    op: CtxOp,
    ty: Seq<char>,
    literal: Seq<char>,
    more: Seq<Tok>,
)
    requires
        is_common(begun),
        !is_keyword(ty),
        string_value(literal) is Some,
        at_next_word(more),
    ensures
        ({
            let head = |tail: Seq<Tok>|
                with_more(begun, one("context"@) + (one(op_word(op)) + (one(ty) + tail)));
            let equals = Tok::Punct('=', true);
            let arrow = Tok::Punct('>', false);
            &&& answer(head(seq![Tok::Punct('=', false)] + more)) == Some(
                refused("expected `=>`"@),
            )
            &&& answer(head(seq![equals] + (seq![arrow] + more))) == Some(
                refused(
                    if more.len() == 0 {
                        "unexpected end of input, expected string literal"@
                    } else {
                        "expected string literal"@
                    },
                ),
            )
            &&& answer(head(seq![equals] + (seq![arrow] + (seq![Tok::Lit(literal)] + more))))
                == Some(refused("expected `;`"@))
        }),
{
    reveal_strlit("unexpected end of input, ");
    reveal_strlit("expected string literal");
    reveal_strlit("unexpected end of input, expected string literal");
    assert("unexpected end of input, "@ + "expected string literal"@
        =~= "unexpected end of input, expected string literal"@);
    lemma_at_next_word(more);
    let equals = Tok::Punct('=', true);
    let arrow = Tok::Punct('>', false);
    let unmarked = seq![Tok::Punct('=', false)] + more;
    let worded = seq![equals] + (seq![arrow] + more);
    let literate = seq![Tok::Lit(literal)] + more;
    let unended = seq![equals] + (seq![arrow] + literate);
    lemma_visible(Tok::Punct('=', false), more);
    lemma_context_refused(begun, op, ty, Tok::Punct('=', false), more, "expected `=>`"@);
    lemma_visible(equals, seq![arrow] + more);
    lemma_punct_is_read('>', false, more);
    if more.len() > 0 {
        lemma_visible(more[0], more.drop_first());
        assert(seq![more[0]] + more.drop_first() =~= more);
    }
    assert(front_fat_arrow(worded) == Some(more));
    lemma_context_refused(
        begun,
        op,
        ty,
        equals,
        seq![arrow] + more,
        if more.len() == 0 {
            "unexpected end of input, expected string literal"@
        } else {
            "expected string literal"@
        },
    );
    lemma_visible(equals, seq![arrow] + literate);
    lemma_punct_is_read('>', false, literate);
    lemma_visible(Tok::Lit(literal), more);
    assert(front_fat_arrow(unended) == Some(literate));
    lemma_context_refused(begun, op, ty, equals, seq![arrow] + literate, "expected `;`"@);
}

/// A context whose type is a name is refused with what is said of the tokens behind the type.
proof fn lemma_context_refused(
    begun: Outline,
    op: CtxOp,
    ty: Seq<char>,
    equals: Tok,
    tail: Seq<Tok>,
    message: Seq<char>,
)
    requires
        is_common(begun),
        !is_keyword(ty),
        equals is Punct,
        equals->Punct_0 == '=',
        context_behind_type(op, one(ty), seq![equals] + tail) == Err::<
            (ContextModel, Seq<Tok>),
            Seq<char>,
        >(message),
    ensures
        answer(
            with_more(
                begun,
                one("context"@) + (one(op_word(op)) + (one(ty) + (seq![equals] + tail))),
            ),
        ) == Some(refused(message)),
{
    lemma_words_of_grammar();
    assert(is_word_of_grammar("context"@) && is_word_of_grammar(op_word(op)));
    let marked = seq![equals] + tail;
    let typed = one(ty) + marked;
    assert(typed[1] == equals);
    assert(typed.drop_first() =~= marked);
    assert(seq![typed[0]] =~= one(ty));
    lemma_ident_is_read(op_word(op), typed);
    lemma_ident_is_read("context"@, one(op_word(op)) + typed);
    lemma_clause_refused(begun, one("context"@) + (one(op_word(op)) + typed), message);
}

/// Nothing may stand behind a definition.
pub proof fn law_nothing_stands_behind(begun: Outline, token: Tok, more: Seq<Tok>)
    requires
        is_common(begun),
        !(token matches Tok::Group(delim, _) && delim is Invisible),
    ensures
        answer(written_outline(begun) + (seq![token] + more)) == Some(
            refused("unexpected token"@),
        ),
{
    let behind = seq![token] + more;
    let group = Tok::Group(Delim::Brace, written_items(begun.items));
    let body = one(category_word(begun.category)) + (one(begun.name) + (seq![group] + behind));
    lemma_words_of_grammar();
    assert(is_word_of_grammar(category_word(begun.category)));
    assert(is_keyword("pub"@));
    assert(written_outline(begun) + behind =~= begun.vis + body);
    lemma_behind_visibility(
        begun.vis,
        category_word(begun.category),
        one(begun.name) + (seq![group] + behind),
    );
    lemma_ident_is_read(
        category_word(begun.category),
        one(begun.name) + (seq![group] + behind),
    );
    lemma_ident_is_read(begun.name, seq![group] + behind);
    lemma_visible(group, behind);
    law_items_are_read(begun.items, Seq::empty(), None, Seq::empty());
    assert(written_items(begun.items) + Seq::<Tok>::empty() =~= written_items(begun.items));
    assert(behind[0] == token);
    lemma_refusal("unexpected token"@);
}

/// A group of a clause of which something is left unread does not stop the reading: the input is
/// refused for it, once all its clauses are read.
pub proof fn law_unread_tokens_are_refused(
    begun: Outline,
    name: Seq<char>,
    required: bool,
    ty: Seq<char>,
    behind: Seq<Tok>,
    after: Seq<Item>,
)
    requires
        is_common(begun),
        !is_keyword(name),
        !is_keyword(ty),
        behind.len() > 0,
        !(behind[0] is Group),
        !(behind[0] is Punct),
        forall|i: int| 0 <= i < after.len() ==> is_written_item(#[trigger] after[i]),
    ensures
        ({
            let inner = one(ty) + behind;
            let end = written_items(after);
            &&& answer(with_more(begun, list_param(required, name, inner) + end)) == Some(
                refused("unexpected token, expected `]`"@),
            )
            &&& answer(with_more(begun, tuple_param(required, name, inner) + end)) == Some(
                refused("unexpected token, expected `)`"@),
            )
            &&& answer(with_more(begun, bracketed_return(inner) + end)) == Some(
                refused("unexpected token, expected `)`"@),
            )
        }),
{
    let inner = one(ty) + behind;
    let end = written_items(after);
    lemma_faulty_list(required, name, ty, behind, end, None);
    lemma_unread_later(
        begun,
        list_param(required, name, inner) + end,
        after,
        "unexpected token, expected `]`"@,
    );
    lemma_faulty_tuple(required, name, ty, behind, end);
    lemma_unread_later(
        begun,
        tuple_param(required, name, inner) + end,
        after,
        "unexpected token, expected `)`"@,
    );
    lemma_faulty_returns(ty, behind, end, None);
    lemma_unread_later(
        begun,
        bracketed_return(inner) + end,
        after,
        "unexpected token, expected `)`"@,
    );
}

/// What is read of a tuple of which something is left unread.
proof fn lemma_faulty_tuple(
    required: bool,
    name: Seq<char>,
    ty: Seq<char>,
    behind: Seq<Tok>,
    rest: Seq<Tok>,
)
    requires
        !is_keyword(name),
        !is_keyword(ty),
        behind.len() > 0,
        !(behind[0] is Group),
        !(behind[0] is Punct),
    ensures
        ({
            let form = tuple_param(required, name, one(ty) + behind) + rest;
            let read = clause(form, None);
            &&& form.len() > 0
            &&& weight(rest) < weight(form)
            &&& read is Ok
            &&& read->Ok_0.rest == rest
            &&& read->Ok_0.unexpected == Some("unexpected token, expected `)`"@)
        }),
{
    let inner = one(ty) + behind;
    let group = Tok::Group(Delim::Parenthesis, inner);
    let end = mark(';') + rest;
    let typed = mark(':') + (seq![group] + end);
    let named = one(name) + typed;
    lemma_ident_is_read(ty, behind);
    lemma_visible(Tok::Ident(ty), behind);
    lemma_visible(behind[0], behind.drop_first());
    assert(seq![behind[0]] + behind.drop_first() =~= behind);
    lemma_visible(group, end);
    lemma_punct_is_read(';', false, rest);
    lemma_punct_is_read(':', false, seq![group] + end);
    lemma_ident_is_read(name, typed);
    let read = Parsed { value: type_named(ty), rest: behind, unexpected: None };
    assert(single_type(inner, None) == Ok::<_, Seq<char>>(read));
    assert(trade_type(inner, None) == Ok::<_, Seq<char>>(read));
    assert(tuple_types(inner, None, Seq::empty()) is Ok);
    lemma_param_words(required, named);
    let front = tuple_param(required, name, inner);
    assert(front + rest =~= param_words(required) + named);
    lemma_shorter(front, rest, front + rest);
}

/// What is behind something is less than the whole.
proof fn lemma_shorter(front: Seq<Tok>, end: Seq<Tok>, whole: Seq<Tok>)
    requires
        front.len() > 0,
        whole =~= front + end,
    ensures
        weight(end) < weight(whole),
{
    lemma_clause_shrinks(front[0], front.drop_first(), end);
    assert(seq![front[0]] + front.drop_first() =~= front);
}

/// Where a clause was read that left something unread, the input is refused for it in the end.
proof fn lemma_unread_later(
    begun: Outline,
    form: Seq<Tok>,
    after: Seq<Item>,
    message: Seq<char>,
)
    requires
        is_common(begun),
        form.len() > 0,
        clause(form, None) is Ok,
        clause(form, None)->Ok_0.rest == written_items(after),
        clause(form, None)->Ok_0.unexpected == Some(message),
        weight(written_items(after)) < weight(form),
        forall|i: int| 0 <= i < after.len() ==> is_written_item(#[trigger] after[i]),
    ensures
        answer(with_more(begun, form)) == Some(refused(message)),
{
    lemma_with_more(begun, form);
    let read = begun.items.push(clause(form, None)->Ok_0.value);
    law_items_are_read(after, Seq::empty(), Some(message), read);
    assert(written_items(after) + Seq::<Tok>::empty() =~= written_items(after));
    lemma_refusal(message);
}

/// The clause `param name : [ .. ] ;`, or an optional one, of a list.
pub open spec fn list_param(required: bool, name: Seq<char>, inner: Seq<Tok>) -> Seq<Tok> {
    param_words(required) + (one(name) + (mark(':') + (seq![Tok::Group(Delim::Bracket, inner)]
        + mark(';'))))
}

/// The clause `param name : ( .. ) ;`, or an optional one, of a tuple.
pub open spec fn tuple_param(required: bool, name: Seq<char>, inner: Seq<Tok>) -> Seq<Tok> {
    param_words(required) + (one(name) + (mark(':') + (seq![Tok::Group(Delim::Parenthesis, inner)]
        + mark(';'))))
}

/// What is read of a list of which something is left unread.
proof fn lemma_faulty_list(
    required: bool,
    name: Seq<char>,
    ty: Seq<char>,
    behind: Seq<Tok>,
    rest: Seq<Tok>,
    unexpected: Option<Seq<char>>,
)
    requires
        !is_keyword(name),
        !is_keyword(ty),
        behind.len() > 0,
        !(behind[0] is Group),
    ensures
        ({
            let form = list_param(required, name, one(ty) + behind) + rest;
            let read = clause(form, unexpected);
            &&& form.len() > 0
            &&& weight(rest) < weight(form)
            &&& read is Ok
            &&& read->Ok_0.rest == rest
            &&& read->Ok_0.unexpected == (if unexpected is Some {
                unexpected
            } else {
                Some("unexpected token, expected `]`"@)
            })
        }),
{
    lemma_words_of_grammar();
    assert(is_word_of_grammar("param"@) && is_word_of_grammar("optional"@));
    let group = Tok::Group(Delim::Bracket, one(ty) + behind);
    let end = mark(';') + rest;
    let typed = mark(':') + (seq![group] + end);
    let named = one(name) + typed;
    lemma_ident_is_read(ty, behind);
    lemma_visible(behind[0], behind.drop_first());
    assert(seq![behind[0]] + behind.drop_first() =~= behind);
    lemma_visible(group, end);
    lemma_punct_is_read(';', false, rest);
    lemma_punct_is_read(':', false, seq![group] + end);
    lemma_ident_is_read(name, typed);
    lemma_ident_is_read("param"@, named);
    lemma_ident_is_read("optional"@, one("param"@) + named);
    let front = list_param(required, name, one(ty) + behind);
    if required {
        assert(front + rest =~= one("param"@) + named);
    } else {
        assert(front + rest =~= one("optional"@) + (one("param"@) + named));
    }
    lemma_shorter(front, rest, front + rest);
}

/// What is read of return types of which something is left unread.
proof fn lemma_faulty_returns(
    ty: Seq<char>,
    behind: Seq<Tok>,
    rest: Seq<Tok>,
    unexpected: Option<Seq<char>>,
)
    requires
        !is_keyword(ty),
        behind.len() > 0,
        !(behind[0] is Group),
        !(behind[0] is Punct),
    ensures
        ({
            let form = bracketed_return(one(ty) + behind) + rest;
            let read = clause(form, unexpected);
            &&& form.len() > 0
            &&& weight(rest) < weight(form)
            &&& read is Ok
            &&& read->Ok_0.rest == rest
            &&& read->Ok_0.unexpected == (if unexpected is Some {
                unexpected
            } else {
                Some("unexpected token, expected `)`"@)
            })
        }),
{
    lemma_words_of_grammar();
    assert(is_word_of_grammar("returns"@));
    let group = Tok::Group(Delim::Parenthesis, one(ty) + behind);
    let end = mark(';') + rest;
    lemma_ident_is_read(ty, behind);
    lemma_visible(behind[0], behind.drop_first());
    assert(seq![behind[0]] + behind.drop_first() =~= behind);
    lemma_visible(Tok::Ident(ty), behind);
    lemma_visible(group, end);
    lemma_punct_is_read(';', false, rest);
    lemma_ident_is_read("returns"@, seq![group] + end);
    let front = bracketed_return(one(ty) + behind);
    assert(front + rest =~= one("returns"@) + (seq![group] + end));
    lemma_shorter(front, rest, front + rest);
}

/// Of two groups of which something is left unread, the input is refused for the first; and for
/// that, too, where something stands behind the definition.
pub proof fn law_first_unread_is_named(
    begun: Outline,
    name: Seq<char>,
    required: bool,
    ty: Seq<char>,
    behind: Seq<Tok>,
    after: Seq<Item>,
)
    requires
        is_common(begun),
        !is_keyword(name),
        !is_keyword(ty),
        behind.len() > 0,
        !(behind[0] is Group),
        !(behind[0] is Punct),
        forall|i: int| 0 <= i < after.len() ==> is_written_item(#[trigger] after[i]),
    ensures
        ({
            let list = list_param(required, name, one(ty) + behind);
            let types = bracketed_return(one(ty) + behind);
            &&& answer(with_more(begun, list + (types + written_items(after)))) == Some(
                refused("unexpected token, expected `]`"@),
            )
            &&& answer(with_more(begun, types + (list + written_items(after)))) == Some(
                refused("unexpected token, expected `)`"@),
            )
            &&& answer(with_more(begun, list + written_items(after)) + behind) == Some(
                refused("unexpected token, expected `]`"@),
            )
        }),
{
    let list = list_param(required, name, one(ty) + behind);
    let types = bracketed_return(one(ty) + behind);
    let end = written_items(after);
    let of_list = "unexpected token, expected `]`"@;
    let of_types = "unexpected token, expected `)`"@;
    lemma_faulty_list(required, name, ty, behind, types + end, None);
    lemma_faulty_returns(ty, behind, end, Some(of_list));
    lemma_unread_at_last(begun, list + (types + end), types + end, after, of_list);
    lemma_faulty_returns(ty, behind, list + end, None);
    lemma_faulty_list(required, name, ty, behind, end, Some(of_types));
    lemma_unread_at_last(begun, types + (list + end), list + end, after, of_types);
    lemma_faulty_list(required, name, ty, behind, end, None);
    lemma_unread_before_the_end(begun, list + end, after, behind, of_list);
}

/// Where a clause was read that left something unread, the input is refused for it, whatever stands
/// behind the definition.
proof fn lemma_unread_before_the_end(
    begun: Outline,
    form: Seq<Tok>,
    after: Seq<Item>,
    behind: Seq<Tok>,
    message: Seq<char>,
)
    requires
        is_common(begun),
        form.len() > 0,
        clause(form, None) is Ok,
        clause(form, None)->Ok_0.rest == written_items(after),
        clause(form, None)->Ok_0.unexpected == Some(message),
        weight(written_items(after)) < weight(form),
        forall|i: int| 0 <= i < after.len() ==> is_written_item(#[trigger] after[i]),
    ensures
        answer(with_more(begun, form) + behind) == Some(refused(message)),
{
    let end = written_items(after);
    let input = with_more(begun, form) + behind;
    let group = Tok::Group(Delim::Brace, written_items(begun.items) + form);
    let body = one(category_word(begun.category)) + (one(begun.name) + (seq![group] + behind));
    lemma_words_of_grammar();
    assert(is_word_of_grammar(category_word(begun.category)));
    assert(is_keyword("pub"@));
    assert(input =~= begun.vis + body);
    lemma_behind_visibility(
        begun.vis,
        category_word(begun.category),
        one(begun.name) + (seq![group] + behind),
    );
    lemma_ident_is_read(
        category_word(begun.category),
        one(begun.name) + (seq![group] + behind),
    );
    lemma_ident_is_read(begun.name, seq![group] + behind);
    lemma_visible(group, behind);
    law_items_are_read(begun.items, form, None, Seq::empty());
    assert(Seq::<Item>::empty() + begun.items =~= begun.items);
    let read = begun.items.push(clause(form, None)->Ok_0.value);
    law_items_are_read(after, Seq::empty(), Some(message), read);
    assert(end + Seq::<Tok>::empty() =~= end);
    assert(outline(input, None) is Ok);
    lemma_refusal(message);
}

/// Where a clause was read that left something unread, and another behind it, the input is refused
/// for the first.
proof fn lemma_unread_at_last(
    begun: Outline,
    form: Seq<Tok>,
    next: Seq<Tok>,
    after: Seq<Item>,
    message: Seq<char>,
)
    requires
        is_common(begun),
        form.len() > 0,
        clause(form, None) is Ok,
        clause(form, None)->Ok_0.rest == next,
        clause(form, None)->Ok_0.unexpected == Some(message),
        weight(next) < weight(form),
        next.len() > 0,
        clause(next, Some(message)) is Ok,
        clause(next, Some(message))->Ok_0.rest == written_items(after),
        clause(next, Some(message))->Ok_0.unexpected == Some(message),
        weight(written_items(after)) < weight(next),
        forall|i: int| 0 <= i < after.len() ==> is_written_item(#[trigger] after[i]),
    ensures
        answer(with_more(begun, form)) == Some(refused(message)),
{
    lemma_with_more(begun, form);
    let first = begun.items.push(clause(form, None)->Ok_0.value);
    let second = first.push(clause(next, Some(message))->Ok_0.value);
    law_items_are_read(after, Seq::empty(), Some(message), second);
    assert(written_items(after) + Seq::<Tok>::empty() =~= written_items(after));
    assert(all_clauses(next, Some(message), first) == all_clauses(
        written_items(after),
        Some(message),
        second,
    ));
    assert(all_clauses(form, None, begun.items) == all_clauses(next, Some(message), first));
    lemma_refusal(message);
}

/// The number of tokens that are more than invisible brackets, those inside of such brackets
/// counted.
pub open spec fn visible(tokens: Seq<Tok>) -> nat
    decreases weight(tokens),
{
    if tokens.len() == 0 {
        0
    } else {
        match tokens[0] {
            Tok::Group(Delim::Invisible, inner) => {
                proof {
                    assert(tree_weight(tokens[0]) == 1 + weight(inner));
                }
                visible(inner) + visible(tokens.drop_first())
            },
            _ => {
                proof {
                    assert(tree_weight(tokens[0]) >= 1);
                }
                1 + visible(tokens.drop_first())
            },
        }
    }
}

/// Tokens are left unread exactly where there are some that are more than invisible brackets. What
/// is said of them tells which bracket was expected in place of the first, if any.
pub proof fn law_unread_tokens(tokens: Seq<Tok>, delim: Delim)
    ensures
        unread(tokens, delim) is None == (visible(tokens) == 0),
        tokens.len() > 0 && !(tokens[0] is Group) ==> unread(tokens, delim) == Some(
            match delim {
                Delim::Parenthesis => "unexpected token, expected `)`"@,
                Delim::Brace => "unexpected token, expected `}`"@,
                Delim::Bracket => "unexpected token, expected `]`"@,
                Delim::Invisible => "unexpected token"@,
            },
        ),
        delim is Invisible && visible(tokens) > 0 ==> unread(tokens, delim) == Some(
            "unexpected token"@,
        ),
        tokens.len() > 0 ==> (tokens[0] matches Tok::Group(Delim::Invisible, inner) ==> unread(
            tokens,
            delim,
        ) == (if visible(inner) > 0 {
            Some("unexpected token"@)
        } else {
            unread(tokens.drop_first(), delim)
        })),
    decreases weight(tokens),
{
    if tokens.len() > 0 {
        match tokens[0] {
            Tok::Group(Delim::Invisible, inner) => {
                assert(tree_weight(tokens[0]) == 1 + weight(inner));
                law_unread_tokens(inner, Delim::Invisible);
                law_unread_tokens(tokens.drop_first(), delim);
            },
            _ => {},
        }
    }
}

/// A faulty visibility is refused as its parser refuses it; and where that leaves something unread
/// in front of a definition, the input is refused for it.
pub proof fn law_faulty_visibility_is_refused(begun: Outline, tokens: Seq<Tok>, message: Seq<char>)
    requires
        !is_keyword(begun.name),
        forall|i: int|
            0 <= i < begun.items.len() ==> is_written_item(#[trigger] begun.items[i]),
    ensures
        front_visibility(tokens) == Err::<FrontModel, Seq<char>>(message) ==> answer(tokens) == Some(
            refused(message),
        ),
        front_visibility(tokens) == Ok::<_, Seq<char>>(
            FrontModel {
                node: begun.vis,
                rest: written_body(begun),
                unexpected: Some(message),
            },
        ) ==> answer(tokens) == Some(refused(message)),
{
    lemma_refusal(message);
    lemma_form_is_read(
        begun.vis,
        begun.category,
        begun.name,
        begun.items,
        Seq::empty(),
        Some(message),
    );
    assert(written_items(begun.items) + Seq::<Tok>::empty() =~= written_items(begun.items));
}

/// A faulty type of a context is refused as its parser refuses it; and where that leaves something
/// unread, the input is refused for it once all its clauses are read.
pub proof fn law_faulty_rust_type_is_refused(
    begun: Outline,
    op: CtxOp,
    tokens: Seq<Tok>,
    node: Seq<Tok>,
    literal: Seq<char>,
    after: Seq<Item>,
    message: Seq<char>,
)
    requires
        is_common(begun),
        string_value(literal) is Some,
        forall|i: int| 0 <= i < after.len() ==> is_written_item(#[trigger] after[i]),
    ensures
        ({
            let input = |tail: Seq<Tok>|
                with_more(begun, one("context"@) + (one(op_word(op)) + tail));
            let tail = seq![Tok::Punct('=', true)] + (seq![Tok::Punct('>', false)] + (seq![
                Tok::Lit(literal),
            ] + (mark(';') + written_items(after))));
            &&& front_type(tokens) == Err::<FrontModel, Seq<char>>(message) ==> answer(
                input(tokens),
            ) == Some(refused(message))
            &&& front_type(tokens) == Ok::<_, Seq<char>>(
                FrontModel { node, rest: tail, unexpected: Some(message) },
            ) && weight(tail) <= weight(tokens) ==> answer(input(tokens)) == Some(refused(message))
        }),
{
    lemma_words_of_grammar();
    assert(is_word_of_grammar("context"@) && is_word_of_grammar(op_word(op)));
    let form = one("context"@) + (one(op_word(op)) + tokens);
    lemma_ident_is_read(op_word(op), tokens);
    lemma_ident_is_read("context"@, one(op_word(op)) + tokens);
    let end = written_items(after);
    let ended = mark(';') + end;
    let literate = seq![Tok::Lit(literal)] + ended;
    let tail = seq![Tok::Punct('=', true)] + (seq![Tok::Punct('>', false)] + literate);
    lemma_visible(Tok::Punct('=', true), seq![Tok::Punct('>', false)] + literate);
    lemma_punct_is_read('>', false, literate);
    lemma_visible(Tok::Lit(literal), ended);
    lemma_punct_is_read(';', false, end);
    assert(front_fat_arrow(tail) == Some(literate));
    lemma_shorter(
        seq![Tok::Punct('=', true)] + (seq![Tok::Punct('>', false)] + (seq![Tok::Lit(literal)]
            + mark(';'))),
        end,
        tail,
    );
    lemma_shorter(one("context"@) + one(op_word(op)), tokens, form);
    if front_type(tokens) == Err::<FrontModel, Seq<char>>(message) {
        lemma_clause_refused(begun, form, message);
    }
    if front_type(tokens) == Ok::<_, Seq<char>>(
        FrontModel { node, rest: tail, unexpected: Some(message) },
    ) && weight(tail) <= weight(tokens) {
        lemma_unread_later(begun, form, after, message);
    }
}

// ---------------------------------------------------------------------------------------------
// Where a word is expected
// ---------------------------------------------------------------------------------------------
/// Tokens that begin with no identifier: none, or such that begin with a punctuation character, a
/// literal, a keyword or brackets that can be seen.
pub open spec fn begins_no_word(tokens: Seq<Tok>) -> bool {
    tokens.len() == 0 || match tokens[0] {
        Tok::Ident(word) => is_keyword(word),
        Tok::Group(delim, _) => !(delim is Invisible),
        _ => true,
    }
}

/// Tokens that begin with no type: with no identifier, and neither with parentheses nor with square
/// brackets.
pub open spec fn begins_no_type(tokens: Seq<Tok>) -> bool {
    begins_no_word(tokens) && (tokens.len() > 0 ==> (tokens[0] matches Tok::Group(delim, _)
        ==> delim is Brace))
}

/// What is said of tokens that begin with no identifier where one is expected.
pub open spec fn complaint(tokens: Seq<Tok>) -> Seq<char> {
    if tokens.len() == 0 {
        "unexpected end of input, expected identifier"@
    } else {
        match tokens[0] {
            Tok::Ident(word) => "expected identifier, found keyword `"@ + word + "`"@,
            _ => "expected identifier"@,
        }
    }
}

/// Where no identifier is, that is said.
proof fn lemma_no_word(tokens: Seq<Tok>)
    requires
        begins_no_word(tokens),
    ensures
        front_ident(tokens) == Err::<(Seq<char>, Seq<Tok>), Seq<char>>(complaint(tokens)),
        begins_no_type(tokens) ==> front_group(tokens, Delim::Bracket) is None && front_group(
            tokens,
            Delim::Parenthesis,
        ) is None,
{
    reveal_strlit("unexpected end of input, ");
    reveal_strlit("expected identifier");
    reveal_strlit("unexpected end of input, expected identifier");
    assert("unexpected end of input, "@ + "expected identifier"@
        =~= "unexpected end of input, expected identifier"@);
    if tokens.len() > 0 {
        lemma_visible(tokens[0], tokens.drop_first());
        assert(seq![tokens[0]] + tokens.drop_first() =~= tokens);
    }
}

/// Where no type is, that is said.
proof fn lemma_no_type(tokens: Seq<Tok>, unexpected: Option<Seq<char>>)
    requires
        begins_no_type(tokens),
    ensures
        single_type(tokens, unexpected) == Err::<Parsed<DslType>, Seq<char>>(complaint(tokens)),
        trade_type(tokens, unexpected) == Err::<Parsed<DslType>, Seq<char>>(complaint(tokens)),
{
    lemma_no_word(tokens);
}

/// A definition has a word for its category and a name, each an identifier.
pub proof fn law_definition_has_words(vis: Seq<Tok>, category: Category, tail: Seq<Tok>)
    requires
        vis.len() == 0 || vis == seq![Tok::Ident("pub"@)],
        begins_no_word(tail),
    ensures
        answer(vis + (one(category_word(category)) + tail)) == Some(refused(complaint(tail))),
        tail.len() == 0 || !(tail[0] is Group || tail[0] == Tok::Ident("pub"@)) ==> answer(
            vis + tail,
        ) == Some(refused(complaint(tail))),
{
    lemma_words_of_grammar();
    assert(is_word_of_grammar(category_word(category)));
    assert(is_keyword("pub"@));
    lemma_no_word(tail);
    lemma_behind_visibility(vis, category_word(category), tail);
    lemma_ident_is_read(category_word(category), tail);
    lemma_input_refused(vis + (one(category_word(category)) + tail), complaint(tail));
    if tail.len() == 0 || !(tail[0] is Group || tail[0] == Tok::Ident("pub"@)) {
        let tokens = vis + tail;
        if vis.len() == 0 {
            assert(vis =~= Seq::empty());
            assert(tokens =~= tail);
        } else {
            assert(tokens[0] == Tok::Ident("pub"@));
            assert(tokens.drop_first() =~= tail);
            if tail.len() > 0 {
                lemma_visible(tail[0], tail.drop_first());
                assert(seq![tail[0]] + tail.drop_first() =~= tail);
            }
        }
        lemma_input_refused(tokens, complaint(tail));
    }
}

/// A clause begins with an identifier; the operation of a context is one, and so are the name of a
/// parameter and the word behind `optional`. Behind `returns` stands an identifier, unless
/// parentheses do.
pub proof fn law_clauses_have_words(begun: Outline, required: bool, tail: Seq<Tok>)
    requires
        is_common(begun),
        begins_no_word(tail),
    ensures
        ({
            let refusal = Some(refused(complaint(tail)));
            &&& tail.len() > 0 ==> answer(with_more(begun, tail)) == refusal
            &&& answer(with_more(begun, one("context"@) + tail)) == refusal
            &&& answer(with_more(begun, one("optional"@) + tail)) == refusal
            &&& answer(with_more(begun, param_words(required) + tail)) == refusal
            &&& begins_no_type(tail) ==> answer(with_more(begun, one("returns"@) + tail)) == refusal
        }),
{
    lemma_words_of_grammar();
    assert(is_word_of_grammar("context"@) && is_word_of_grammar("optional"@));
    assert(is_word_of_grammar("returns"@));
    lemma_no_word(tail);
    lemma_ident_is_read("context"@, tail);
    lemma_ident_is_read("optional"@, tail);
    lemma_ident_is_read("returns"@, tail);
    lemma_param_words(required, tail);
    if tail.len() > 0 {
        lemma_clause_refused(begun, tail, complaint(tail));
    }
    lemma_clause_refused(begun, one("context"@) + tail, complaint(tail));
    lemma_clause_refused(begun, one("optional"@) + tail, complaint(tail));
    lemma_clause_refused(begun, param_words(required) + tail, complaint(tail));
    if begins_no_type(tail) {
        lemma_clause_refused(begun, one("returns"@) + tail, complaint(tail));
    }
}

/// Where no type is behind `|`, that is said.
proof fn lemma_no_choice(ty: Seq<char>, tail: Seq<Tok>)
    requires
        !is_keyword(ty),
        begins_no_type(tail),
    ensures
        trade_type(one(ty) + (mark('|') + tail), None) == Err::<Parsed<DslType>, Seq<char>>(
            complaint(tail),
        ),
{
    let choice = one(ty) + (mark('|') + tail);
    lemma_no_type(tail, None);
    lemma_ident_is_read(ty, mark('|') + tail);
    lemma_visible(Tok::Ident(ty), mark('|') + tail);
    lemma_punct_is_read('|', false, tail);
    lemma_shorter(one(ty) + mark('|'), tail, choice);
    assert(choice_types(tail, None, seq![type_named(ty)]) == Err::<Parsed<DslType>, Seq<char>>(
        complaint(tail),
    ));
    let first = Parsed { value: type_named(ty), rest: mark('|') + tail, unexpected: None };
    assert(single_type(choice, None) == Ok::<_, Seq<char>>(first));
}

/// A parameter whose type is refused is refused with what is said of the type.
proof fn lemma_type_refused(
    begun: Outline,
    required: bool,
    name: Seq<char>,
    tokens: Seq<Tok>,
    message: Seq<char>,
)
    requires
        is_common(begun),
        !is_keyword(name),
        trade_type(tokens, None) == Err::<Parsed<DslType>, Seq<char>>(message),
    ensures
        answer(
            with_more(begun, param_words(required) + (one(name) + (mark(':') + tokens))),
        ) == Some(refused(message)),
{
    lemma_ident_is_read(name, mark(':') + tokens);
    lemma_punct_is_read(':', false, tokens);
    lemma_param_words(required, one(name) + (mark(':') + tokens));
    lemma_clause_refused(
        begun,
        param_words(required) + (one(name) + (mark(':') + tokens)),
        message,
    );
}

/// A parameter has a type, and a type stands behind each `|`.
pub proof fn law_types_are_not_missing(
    begun: Outline,
    required: bool,
    name: Seq<char>,
    ty: Seq<char>,
    tail: Seq<Tok>,
)
    requires
        is_common(begun),
        !is_keyword(name),
        !is_keyword(ty),
        begins_no_type(tail),
    ensures
        ({
            let typed = |tokens: Seq<Tok>|
                with_more(begun, param_words(required) + (one(name) + (mark(':') + tokens)));
            &&& answer(typed(tail)) == Some(refused(complaint(tail)))
            &&& answer(typed(one(ty) + (mark('|') + tail))) == Some(refused(complaint(tail)))
        }),
{
    lemma_no_type(tail, None);
    lemma_no_choice(ty, tail);
    lemma_type_refused(begun, required, name, tail, complaint(tail));
    lemma_type_refused(begun, required, name, one(ty) + (mark('|') + tail), complaint(tail));
}

/// A list holds a name, return types in parentheses are names, and a tuple holds types: brackets
/// that begin with something else are refused.
pub proof fn law_groups_hold_types(
    begun: Outline,
    required: bool,
    name: Seq<char>,
    inner: Seq<Tok>,
    more: Seq<Tok>,
)
    requires
        is_common(begun),
        !is_keyword(name),
        begins_no_word(inner),
    ensures
        ({
            let refusal = Some(refused(complaint(inner)));
            let group = |delim: Delim| seq![Tok::Group(delim, inner)] + more;
            let typed = |tokens: Seq<Tok>|
                with_more(begun, param_words(required) + (one(name) + (mark(':') + tokens)));
            &&& answer(typed(group(Delim::Bracket))) == refusal
            &&& inner.len() > 0 && begins_no_type(inner) ==> answer(typed(group(Delim::Parenthesis)))
                == refusal
            &&& inner.len() > 0 ==> answer(
                with_more(begun, one("returns"@) + group(Delim::Parenthesis)),
            ) == refusal
        }),
{
    lemma_words_of_grammar();
    assert(is_word_of_grammar("returns"@));
    lemma_no_word(inner);
    let message = complaint(inner);
    let list = seq![Tok::Group(Delim::Bracket, inner)] + more;
    let tuple = seq![Tok::Group(Delim::Parenthesis, inner)] + more;
    lemma_visible(Tok::Group(Delim::Bracket, inner), more);
    lemma_visible(Tok::Group(Delim::Parenthesis, inner), more);
    assert(single_type(list, None) == Err::<Parsed<DslType>, Seq<char>>(message));
    lemma_type_refused(begun, required, name, list, message);
    if inner.len() > 0 && begins_no_type(inner) {
        lemma_no_type(inner, None);
        assert(tuple_types(inner, None, Seq::empty()) is Err);
        assert(single_type(tuple, None) == Err::<Parsed<DslType>, Seq<char>>(message));
        lemma_type_refused(begun, required, name, tuple, message);
    }
    if inner.len() > 0 {
        lemma_ident_is_read("returns"@, tuple);
        assert(return_types(inner, Seq::empty()) is Err);
        lemma_clause_refused(begun, one("returns"@) + tuple, message);
    }
}

// ---------------------------------------------------------------------------------------------
// Names
// ---------------------------------------------------------------------------------------------
/// A text serves as an identifier where it is a word of ASCII letters, digits and underscores, which
/// it then is itself; else where it reads as one and holds nothing that may stand round one: white
/// space, a mark of direction or of byte order, or a slash.
pub proof fn law_texts_that_serve(text: Seq<char>, i: int)
    ensures
        is_plain_word(text) ==> is_ident(text) && as_ident(text) == text,
        !is_plain_word(text) && is_ident(text) ==> ident_reading(text) == Some(as_ident(text)),
        is_ident(text) && 0 <= i < text.len() ==> !is_gap(text[i]),
        ident_reading(text) is Some && (forall|k: int|
            0 <= k < text.len() ==> '!' <= #[trigger] text[k] <= '~' && text[k] != '/')
            ==> is_ident(text),
{
    if is_plain_word(text) && 0 <= i < text.len() {
        assert(is_word_char(text[i]));
    }
}

/// What may stand round an identifier: the slash, the white space of Unicode, and its marks of
/// direction and of byte order.
pub proof fn law_gaps(c: char)
    ensures
        is_gap(c) == (c as u32 == 0x2f || 9 <= c as u32 <= 13 || c as u32 == 0x20 || c as u32 == 0x85
            || c as u32 == 0xa0 || c as u32 == 0x1680 || 0x2000 <= c as u32 <= 0x200a || c as u32
            == 0x200e || c as u32 == 0x200f || c as u32 == 0x2028 || c as u32 == 0x2029 || c as u32
            == 0x202f || c as u32 == 0x205f || c as u32 == 0x3000 || c as u32 == 0xfeff),
{
}

/// What a definition is, as contracts speak of it, is what it holds, part for part.
pub proof fn law_models_keep_definitions(def: SymbolDef)
    ensures
        def.model().vis == tokens_of(def.vis),
        def.model().category == def.category,
        def.model().name == def.name.text@,
        def.model().clauses.params.len() == def.params@.len(),
        forall|i: int|
            0 <= i < def.params@.len() ==> {
                let param = #[trigger] def.model().clauses.params[i];
                param.name == def.params@[i].name.text@ && param.ty
                    == def.params@[i].trade_type.model() && param.required
                    == def.params@[i].required
            },
        def.model().clauses.contexts.len() == def.contexts@.len(),
        forall|i: int|
            0 <= i < def.contexts@.len() ==> {
                let context = #[trigger] def.model().clauses.contexts[i];
                context.op == def.contexts@[i].op && context.ty == tokens_of(def.contexts@[i].ty)
                    && context.protocol == def.contexts@[i].protocol.value@ && context.literal
                    == tokens_of(def.contexts@[i].protocol.token)
            },
        match def.returns {
            None => def.model().clauses.returns is None,
            Some(declared) => def.model().clauses.returns == Some(
                Seq::new(declared.types@.len(), |i: int| declared.types@[i].model()),
            ),
        },
{
}

/// What has to serve as an identifier: the names of the metadata function, of the handler trait and
/// of the adapter, and the protocol of each context, but for one that a monitor produces. Where one
/// of them does not serve there is no answer; where all do, the answer is the code.
pub proof fn law_answered_where_names_serve(begun: Outline)
    requires
        is_common(begun),
    ensures
        ({
            let symbol = begun.symbol();
            let serve = is_ident(snake_case(begun.name) + "_metadata"@) && is_ident(
                unraw(begun.name) + "Handler"@,
            ) && is_ident(unraw(begun.name) + "Adapter"@) && forall|i: int|
                0 <= i < symbol.clauses.contexts.len() ==> is_ident(
                    (#[trigger] symbol.clauses.contexts[i]).protocol,
                ) || (begun.category == Category::Monitor && symbol.clauses.contexts[i].op
                    == CtxOp::Produce);
            answer(written_outline(begun)) == if serve {
                Some(symbol_code(symbol))
            } else {
                None
            }
        }),
{
    law_common_visibility_is_read(begun);
    law_definition_is_read(begun);
    let symbol = begun.symbol();
    let contexts = symbol.clauses.contexts;
    if names_valid(symbol) {
        assert forall|i: int| 0 <= i < contexts.len() implies is_ident(
            (#[trigger] contexts[i]).protocol,
        ) || (begun.category == Category::Monitor && contexts[i].op == CtxOp::Produce) by {}
    }
}

} // verus!
