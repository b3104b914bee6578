//! What a template stands for, found word by word.
use vstd::prelude::*;

use crate::template::{
    filled, hole, is_closing, opening, puncts, rendered, word_tokens, words, Partial,
};
use crate::token::{
    is_plain_word, is_punctuation, lemma_weight_concat, tree_weight, weight, Delim, Tok,
};

verus! {

/// A text behind a space adds its words.
pub proof fn lemma_words_behind(first: Seq<char>, word: Seq<char>)
    requires
        forall|i: int| 0 <= i < word.len() ==> word[i] != ' ',
    ensures
        words(first.push(' ') + word) == words(first).push(word),
        words(first).len() >= 1,
    decreases word.len(),
{
    lemma_words_some(first);
    let text = first.push(' ') + word;
    if word.len() == 0 {
        assert(text =~= first.push(' '));
        assert(text.drop_last() =~= first);
        assert(word =~= Seq::<char>::empty());
    } else {
        lemma_words_behind(first, word.drop_last());
        assert(text.drop_last() =~= first.push(' ') + word.drop_last());
        assert(word.drop_last().push(word.last()) =~= word);
        assert(words(first).push(word.drop_last()).drop_last() =~= words(first));
    }
}

/// Every text has a word, if an empty one.
pub proof fn lemma_words_some(text: Seq<char>)
    ensures
        words(text).len() >= 1,
    decreases text.len(),
{
    if text.len() > 0 {
        lemma_words_some(text.drop_last());
    }
}

/// A text without spaces is a word.
pub proof fn lemma_one_word(word: Seq<char>)
    requires
        forall|i: int| 0 <= i < word.len() ==> word[i] != ' ',
    ensures
        words(word) == seq![word],
    decreases word.len(),
{
    if word.len() == 0 {
        assert(word =~= Seq::<char>::empty());
    } else {
        lemma_one_word(word.drop_last());
        assert(word.drop_last().push(word.last()) =~= word);
        assert(seq![word.drop_last()].drop_last() =~= Seq::<Seq<char>>::empty());
        assert(Seq::<Seq<char>>::empty().push(word) =~= seq![word]);
    }
}

/// A template filled in part, up to the end of the text.
pub open spec fn partial(text: Seq<char>, holes: Seq<Seq<Tok>>) -> Partial {
    filled(words(text), holes)
}

/// A word, alone and behind a template.
pub proof fn lemma_next(text: Seq<char>, word: Seq<char>, holes: Seq<Seq<Tok>>)
    requires
        forall|i: int| 0 <= i < word.len() ==> word[i] != ' ',
    ensures
        partial(word, holes) == (Partial { open: Seq::empty(), tokens: Seq::empty() }).with(
            word,
            holes,
        ),
        partial(text.push(' ') + word, holes) == partial(text, holes).with(word, holes),
{
    reveal_with_fuel(filled, 2);
    lemma_one_word(word);
    assert(seq![word].drop_last() =~= Seq::<Seq<char>>::empty());
    lemma_words_behind(text, word);
    assert(words(text).push(word).drop_last() =~= words(text));
}

/// A word behind a template stands for itself.
pub proof fn lemma_plain(text: Seq<char>, word: Seq<char>, holes: Seq<Seq<Tok>>)
    requires
        is_plain_word(word),
    ensures
        partial(word, holes) == (Partial { open: Seq::empty(), tokens: seq![Tok::Ident(word)] }),
        partial(text.push(' ') + word, holes) == (Partial {
            open: partial(text, holes).open,
            tokens: partial(text, holes).tokens.push(Tok::Ident(word)),
        }),
{
    lemma_next(text, word, holes);
    assert(seq!['('][0] == '(' && seq!['{'][0] == '{' && seq!['['][0] == '[');
    assert(seq![')'][0] == ')' && seq!['}'][0] == '}' && seq![']'][0] == ']');
    let tokens = partial(text, holes).tokens;
    assert(tokens + seq![Tok::Ident(word)] =~= tokens.push(Tok::Ident(word)));
    assert(Seq::<Tok>::empty() + seq![Tok::Ident(word)] =~= seq![Tok::Ident(word)]);
}

/// A hole behind a template stands for what it is filled with.
pub proof fn lemma_hole(text: Seq<char>, word: Seq<char>, holes: Seq<Seq<Tok>>, k: int)
    requires
        hole(word) == Some(k),
        k < holes.len(),
    ensures
        partial(word, holes) == (Partial { open: Seq::empty(), tokens: holes[k] }),
        partial(text.push(' ') + word, holes) == (Partial {
            open: partial(text, holes).open,
            tokens: partial(text, holes).tokens + holes[k],
        }),
{
    lemma_next(text, word, holes);
    assert(seq!['('].len() == 1 && seq!['{'].len() == 1 && seq!['['].len() == 1);
    assert(seq![')'].len() == 1 && seq!['}'].len() == 1 && seq![']'].len() == 1);
    assert(Seq::<Tok>::empty() + holes[k] =~= holes[k]);
}

/// A punctuation character behind a template stands for itself.
pub proof fn lemma_punct(text: Seq<char>, word: Seq<char>, holes: Seq<Seq<Tok>>)
    requires
        word.len() == 1,
        is_punctuation(word[0]),
    ensures
        partial(word, holes) == (Partial {
            open: Seq::empty(),
            tokens: seq![Tok::Punct(word[0], false)],
        }),
        partial(text.push(' ') + word, holes) == (Partial {
            open: partial(text, holes).open,
            tokens: partial(text, holes).tokens.push(Tok::Punct(word[0], false)),
        }),
{
    lemma_next(text, word, holes);
    assert(seq!['('][0] == '(' && seq!['{'][0] == '{' && seq!['['][0] == '[');
    assert(seq![')'][0] == ')' && seq!['}'][0] == '}' && seq![']'][0] == ']');
    assert(!is_plain_word(word));
    reveal_with_fuel(puncts, 2);
    let one = Tok::Punct(word[0], false);
    assert(puncts(word, 1) =~= seq![one]);
    let tokens = partial(text, holes).tokens;
    assert(tokens + seq![one] =~= tokens.push(one));
    assert(Seq::<Tok>::empty() + seq![one] =~= seq![one]);
}

/// Two punctuation characters behind a template stand for themselves, joined.
pub proof fn lemma_puncts(text: Seq<char>, word: Seq<char>, holes: Seq<Seq<Tok>>)
    requires
        word.len() == 2,
        is_punctuation(word[0]),
        word[0] != '\'',
        is_punctuation(word[1]),
    ensures
        partial(word, holes) == (Partial {
            open: Seq::empty(),
            tokens: seq![Tok::Punct(word[0], true), Tok::Punct(word[1], false)],
        }),
        partial(text.push(' ') + word, holes) == (Partial {
            open: partial(text, holes).open,
            tokens: partial(text, holes).tokens + seq![
                Tok::Punct(word[0], true),
                Tok::Punct(word[1], false),
            ],
        }),
{
    lemma_next(text, word, holes);
    assert(seq!['('].len() == 1 && seq!['{'].len() == 1 && seq!['['].len() == 1);
    assert(seq![')'].len() == 1 && seq!['}'].len() == 1 && seq![']'].len() == 1);
    assert(!is_plain_word(word));
    reveal_with_fuel(puncts, 3);
    let two = seq![Tok::Punct(word[0], true), Tok::Punct(word[1], false)];
    assert(puncts(word, 2) =~= two);
    assert(Seq::<Tok>::empty() + two =~= two);
}

/// A bracket behind a template opens a group.
pub proof fn lemma_open(text: Seq<char>, word: Seq<char>, holes: Seq<Seq<Tok>>, delim: Delim)
    requires
        opening(word) == Some(delim),
    ensures
        partial(word, holes) == (Partial {
            open: seq![(delim, Seq::<Tok>::empty())],
            tokens: Seq::empty(),
        }),
        partial(text.push(' ') + word, holes) == (Partial {
            open: partial(text, holes).open.push((delim, partial(text, holes).tokens)),
            tokens: Seq::empty(),
        }),
{
    assert(seq!['('][0] == '(' && seq!['{'][0] == '{' && seq!['['][0] == '[');
    lemma_next(text, word, holes);
    let none = Seq::<(Delim, Seq<Tok>)>::empty();
    assert(none.push((delim, Seq::<Tok>::empty())) =~= seq![(delim, Seq::<Tok>::empty())]);
}

/// A closing bracket behind a template closes the group opened last.
pub proof fn lemma_close(text: Seq<char>, word: Seq<char>, holes: Seq<Seq<Tok>>)
    requires
        is_closing(word),
    ensures
        partial(text.push(' ') + word, holes) == partial(text, holes).closed(),
{
    assert(seq!['('][0] == '(' && seq!['{'][0] == '{' && seq!['['][0] == '[');
    assert(seq![')'][0] == ')' && seq!['}'][0] == '}' && seq![']'][0] == ']');
    lemma_next(text, word, holes);
}

/// The words of two texts with a space between them are those of the first, then those of the
/// second.
pub proof fn lemma_words_split(first: Seq<char>, second: Seq<char>)
    ensures
        words(first.push(' ') + second) == words(first) + words(second),
        words(second).len() >= 1,
    decreases second.len(),
{
    let text = first.push(' ') + second;
    lemma_words_some(second);
    if second.len() == 0 {
        assert(text =~= first.push(' '));
        assert(text.drop_last() =~= first);
        assert(words(first).push(Seq::<char>::empty()) =~= words(first) + seq![
            Seq::<char>::empty(),
        ]);
    } else {
        let before = second.drop_last();
        lemma_words_split(first, before);
        assert(text.drop_last() =~= first.push(' ') + before);
        let list = words(first) + words(before);
        if second.last() == ' ' {
            assert(list.push(Seq::<char>::empty()) =~= words(first) + words(second));
        } else {
            assert(list.last() == words(before).last());
            assert(list.drop_last().push(list.last().push(second.last())) =~= words(first)
                + words(second));
        }
    }
}

/// The tokens that stand outside of all groups.
pub open spec fn outermost(p: Partial) -> Seq<Tok> {
    if p.open.len() == 0 {
        p.tokens
    } else {
        p.open[0].1
    }
}

/// The weight of what stands before open groups, and of these.
pub open spec fn open_load(open: Seq<(Delim, Seq<Tok>)>) -> nat
    decreases open.len(),
{
    if open.len() == 0 {
        0
    } else {
        open_load(open.drop_last()) + weight(open.last().1) + 1
    }
}

/// The weight of a template filled in part.
pub open spec fn load(p: Partial) -> nat {
    open_load(p.open) + weight(p.tokens)
}

/// Closing a group keeps the weight and what stands outside of all groups.
proof fn lemma_closed_keeps(p: Partial)
    ensures
        outermost(p).is_prefix_of(outermost(p.closed())),
        load(p.closed()) == load(p),
{
    if p.open.len() > 0 {
        let (delim, before) = p.open.last();
        let group = Tok::Group(delim, p.tokens);
        lemma_weight_concat(before, seq![group]);
        assert(before + seq![group] =~= before.push(group));
        reveal_with_fuel(weight, 2);
        assert(seq![group].drop_first() =~= Seq::<Tok>::empty());
        assert(tree_weight(group) == 1 + weight(p.tokens));
    }
}

/// One word more takes nothing away.
proof fn lemma_with_grows(p: Partial, word: Seq<char>, holes: Seq<Seq<Tok>>)
    ensures
        outermost(p).is_prefix_of(outermost(p.with(word, holes))),
        load(p.with(word, holes)) >= load(p),
{
    match opening(word) {
        Some(delim) => {
            let frame = (delim, p.tokens);
            assert(p.open.push(frame).drop_last() =~= p.open);
        },
        None => {
            if is_closing(word) {
                lemma_closed_keeps(p);
            } else {
                lemma_weight_concat(p.tokens, word_tokens(word, holes));
            }
        },
    }
}

/// More words take nothing away.
proof fn lemma_filled_grows(first: Seq<Seq<char>>, more: Seq<Seq<char>>, holes: Seq<Seq<Tok>>)
    ensures
        outermost(filled(first, holes)).is_prefix_of(outermost(filled(first + more, holes))),
        load(filled(first + more, holes)) >= load(filled(first, holes)),
    decreases more.len(),
{
    if more.len() == 0 {
        assert(first + more =~= first);
    } else {
        lemma_filled_grows(first, more.drop_last(), holes);
        assert((first + more).drop_last() =~= first + more.drop_last());
        lemma_with_grows(filled(first + more.drop_last(), holes), more.last(), holes);
    }
}

/// Closing all groups takes nothing away.
proof fn lemma_all_keeps(p: Partial)
    ensures
        outermost(p).is_prefix_of(p.all()),
        weight(p.all()) == load(p),
    decreases p.open.len(),
{
    if p.open.len() > 0 {
        lemma_closed_keeps(p);
        lemma_all_keeps(p.closed());
    }
}

/// A template begins with what its beginning stands for outside of all groups, and weighs as much.
pub proof fn lemma_rendered_grows(text: Seq<char>, more: Seq<char>, holes: Seq<Seq<Tok>>)
    ensures
        outermost(partial(text, holes)).is_prefix_of(rendered(text.push(' ') + more, holes)),
        weight(rendered(text.push(' ') + more, holes)) >= load(partial(text, holes)),
{
    lemma_words_split(text, more);
    lemma_filled_grows(words(text), words(more), holes);
    lemma_all_keeps(partial(text.push(' ') + more, holes));
}

// ---------------------------------------------------------------------------------------------
// Templates, piece by piece
// ---------------------------------------------------------------------------------------------
/// A template filled in part, with more words.
pub open spec fn run(p: Partial, list: Seq<Seq<char>>, holes: Seq<Seq<Tok>>) -> Partial
    decreases list.len(),
{
    if list.len() == 0 {
        p
    } else {
        run(p, list.drop_last(), holes).with(list.last(), holes)
    }
}

/// More words, one part after the other.
proof fn lemma_run_split(
    p: Partial,
    first: Seq<Seq<char>>,
    second: Seq<Seq<char>>,
    holes: Seq<Seq<Tok>>,
)
    ensures
        run(p, first + second, holes) == run(run(p, first, holes), second, holes),
    decreases second.len(),
{
    if second.len() == 0 {
        assert(first + second =~= first);
    } else {
        assert((first + second).drop_last() =~= first + second.drop_last());
        lemma_run_split(p, first, second.drop_last(), holes);
    }
}

/// A template is filled from nothing on.
proof fn lemma_filled_runs(list: Seq<Seq<char>>, holes: Seq<Seq<Tok>>)
    ensures
        filled(list, holes) == run(
            Partial { open: Seq::empty(), tokens: Seq::empty() },
            list,
            holes,
        ),
    decreases list.len(),
{
    if list.len() > 0 {
        lemma_filled_runs(list.drop_last(), holes);
    }
}

/// Whether a piece of a template stands for the given tokens, wherever it stands.
#[verifier::opaque]
pub open spec fn stands_for(text: Seq<char>, holes: Seq<Seq<Tok>>, tokens: Seq<Tok>) -> bool {
    forall|p: Partial|
        #[trigger] run(p, words(text), holes) == (Partial {
            open: p.open,
            tokens: p.tokens + tokens,
        })
}

/// A template that stands for tokens is rendered as these.
pub proof fn lemma_stands_rendered(text: Seq<char>, holes: Seq<Seq<Tok>>, tokens: Seq<Tok>)
    requires
        stands_for(text, holes, tokens),
    ensures
        rendered(text, holes) == tokens,
{
    reveal(stands_for);
    lemma_filled_runs(words(text), holes);
    let nothing = Partial { open: Seq::empty(), tokens: Seq::empty() };
    assert(run(nothing, words(text), holes).tokens =~= tokens);
}

/// Two pieces, one behind the other, stand for what they stand for, one behind the other.
pub proof fn lemma_stands_behind(
    first: Seq<char>,
    a: Seq<Tok>,
    second: Seq<char>,
    b: Seq<Tok>,
    holes: Seq<Seq<Tok>>,
)
    requires
        stands_for(first, holes, a),
        stands_for(second, holes, b),
    ensures
        stands_for(first.push(' ') + second, holes, a + b),
{
    reveal(stands_for);
    lemma_words_split(first, second);
    assert forall|p: Partial|
        #[trigger] run(p, words(first.push(' ') + second), holes) == (Partial {
            open: p.open,
            tokens: p.tokens + (a + b),
        }) by {
        lemma_run_split(p, words(first), words(second), holes);
        assert(p.tokens + a + b =~= p.tokens + (a + b));
    }
}

/// A word that is no bracket stands for its tokens.
pub proof fn lemma_stands_word(word: Seq<char>, holes: Seq<Seq<Tok>>)
    requires
        opening(word) is None,
        !is_closing(word),
        forall|i: int| 0 <= i < word.len() ==> word[i] != ' ',
    ensures
        stands_for(word, holes, word_tokens(word, holes)),
{
    reveal(stands_for);
    lemma_one_word(word);
    assert forall|p: Partial|
        #[trigger] run(p, words(word), holes) == (Partial {
            open: p.open,
            tokens: p.tokens + word_tokens(word, holes),
        }) by {
        reveal_with_fuel(run, 2);
        assert(seq![word].drop_last() =~= Seq::<Seq<char>>::empty());
    }
}

/// A plain word stands for itself.
pub proof fn lemma_stands_plain(word: Seq<char>, holes: Seq<Seq<Tok>>)
    requires
        is_plain_word(word),
    ensures
        stands_for(word, holes, seq![Tok::Ident(word)]),
{
    assert(seq!['('][0] == '(' && seq!['{'][0] == '{' && seq!['['][0] == '[');
    assert(seq![')'][0] == ')' && seq!['}'][0] == '}' && seq![']'][0] == ']');
    lemma_stands_word(word, holes);
}

/// A hole stands for what it is filled with.
pub proof fn lemma_stands_hole(word: Seq<char>, holes: Seq<Seq<Tok>>, k: int)
    requires
        hole(word) == Some(k),
        k < holes.len(),
    ensures
        stands_for(word, holes, holes[k]),
{
    assert(seq!['('].len() == 1 && seq!['{'].len() == 1 && seq!['['].len() == 1);
    assert(seq![')'].len() == 1 && seq!['}'].len() == 1 && seq![']'].len() == 1);
    lemma_stands_word(word, holes);
}

/// A punctuation character stands for itself.
pub proof fn lemma_stands_punct(word: Seq<char>, holes: Seq<Seq<Tok>>)
    requires
        word.len() == 1,
        is_punctuation(word[0]),
    ensures
        stands_for(word, holes, seq![Tok::Punct(word[0], false)]),
{
    assert(seq!['('][0] == '(' && seq!['{'][0] == '{' && seq!['['][0] == '[');
    assert(seq![')'][0] == ')' && seq!['}'][0] == '}' && seq![']'][0] == ']');
    assert(!is_plain_word(word));
    lemma_stands_word(word, holes);
    reveal_with_fuel(puncts, 2);
    assert(puncts(word, 1) =~= seq![Tok::Punct(word[0], false)]);
}

/// Two punctuation characters stand for themselves, joined.
pub proof fn lemma_stands_puncts(word: Seq<char>, holes: Seq<Seq<Tok>>)
    requires
        word.len() == 2,
        is_punctuation(word[0]),
        word[0] != '\'',
        is_punctuation(word[1]),
    ensures
        stands_for(word, holes, seq![Tok::Punct(word[0], true), Tok::Punct(word[1], false)]),
{
    assert(seq!['('].len() == 1 && seq!['{'].len() == 1 && seq!['['].len() == 1);
    assert(seq![')'].len() == 1 && seq!['}'].len() == 1 && seq![']'].len() == 1);
    assert(!is_plain_word(word));
    lemma_stands_word(word, holes);
    reveal_with_fuel(puncts, 3);
    assert(puncts(word, 2) =~= seq![Tok::Punct(word[0], true), Tok::Punct(word[1], false)]);
}

/// A lifetime stands for itself.
pub proof fn lemma_stands_lifetime(word: Seq<char>, name: Seq<char>, holes: Seq<Seq<Tok>>)
    requires
        is_plain_word(name),
        word == seq!['\''] + name,
    ensures
        stands_for(word, holes, seq![Tok::Punct('\'', true), Tok::Ident(name)]),
{
    assert(word[0] == '\'');
    assert(word.drop_first() =~= name);
    assert(seq!['('].len() == 1 && seq!['{'].len() == 1 && seq!['['].len() == 1);
    assert(seq![')'].len() == 1 && seq!['}'].len() == 1 && seq![']'].len() == 1);
    assert forall|i: int| 0 <= i < word.len() implies word[i] != ' ' by {
        if i > 0 {
            assert(word[i] == name[i - 1]);
        }
    }
    assert(!is_plain_word(word));
    lemma_stands_word(word, holes);
}

/// A bracket opens a group, and another closes it round what it stands for.
proof fn lemma_run_group(
    p: Partial,
    open: Seq<char>,
    inner: Seq<Seq<char>>,
    close: Seq<char>,
    delim: Delim,
    tokens: Seq<Tok>,
    holes: Seq<Seq<Tok>>,
)
    requires
        opening(open) == Some(delim),
        is_closing(close),
        forall|q: Partial|
            #[trigger] run(q, inner, holes) == (Partial {
                open: q.open,
                tokens: q.tokens + tokens,
            }),
    ensures
        run(p, seq![open] + inner + seq![close], holes) == (Partial {
            open: p.open,
            tokens: p.tokens + seq![Tok::Group(delim, tokens)],
        }),
{
    assert(seq!['('][0] == '(' && seq!['{'][0] == '{' && seq!['['][0] == '[');
    assert(seq![')'][0] == ')' && seq!['}'][0] == '}' && seq![']'][0] == ']');
    let opened = Partial { open: p.open.push((delim, p.tokens)), tokens: Seq::empty() };
    reveal_with_fuel(run, 2);
    assert(seq![open].drop_last() =~= Seq::<Seq<char>>::empty());
    assert(run(p, seq![open], holes) == opened);
    lemma_run_split(p, seq![open], inner, holes);
    let full = run(opened, inner, holes);
    assert(full.tokens =~= tokens);
    let list = seq![open] + inner;
    assert((list + seq![close]).drop_last() =~= list);
    assert((list + seq![close]).last() == close);
    assert(full.open.drop_last() =~= p.open);
    assert(p.tokens.push(Tok::Group(delim, tokens)) =~= p.tokens + seq![
        Tok::Group(delim, tokens),
    ]);
}

/// A piece in brackets stands for a group of what it stands for.
pub proof fn lemma_stands_group(
    open: Seq<char>,
    inner: Seq<char>,
    close: Seq<char>,
    delim: Delim,
    tokens: Seq<Tok>,
    holes: Seq<Seq<Tok>>,
)
    requires
        opening(open) == Some(delim),
        is_closing(close),
        stands_for(inner, holes, tokens),
    ensures
        stands_for(
            (open.push(' ') + inner).push(' ') + close,
            holes,
            seq![Tok::Group(delim, tokens)],
        ),
{
    reveal(stands_for);
    assert(seq!['('][0] == '(' && seq!['{'][0] == '{' && seq!['['][0] == '[');
    assert(seq![')'][0] == ')' && seq!['}'][0] == '}' && seq![']'][0] == ']');
    lemma_one_word(open);
    lemma_one_word(close);
    lemma_words_split(open, inner);
    lemma_words_split(open.push(' ') + inner, close);
    let text = (open.push(' ') + inner).push(' ') + close;
    assert(words(text) =~= seq![open] + words(inner) + seq![close]);
    assert forall|p: Partial|
        #[trigger] run(p, words(text), holes) == (Partial {
            open: p.open,
            tokens: p.tokens + seq![Tok::Group(delim, tokens)],
        }) by {
        lemma_run_group(p, open, words(inner), close, delim, tokens, holes);
    }
}

/// Brackets round nothing stand for a group of nothing.
pub proof fn lemma_stands_empty_group(
    open: Seq<char>,
    close: Seq<char>,
    delim: Delim,
    holes: Seq<Seq<Tok>>,
)
    requires
        opening(open) == Some(delim),
        is_closing(close),
    ensures
        stands_for(
            open.push(' ') + close,
            holes,
            seq![Tok::Group(delim, Seq::<Tok>::empty())],
        ),
{
    reveal(stands_for);
    assert(seq!['('][0] == '(' && seq!['{'][0] == '{' && seq!['['][0] == '[');
    assert(seq![')'][0] == ')' && seq!['}'][0] == '}' && seq![']'][0] == ']');
    lemma_one_word(open);
    lemma_one_word(close);
    lemma_words_split(open, close);
    let text = open.push(' ') + close;
    let nothing = Seq::<Seq<char>>::empty();
    assert(words(text) =~= seq![open] + nothing + seq![close]);
    assert forall|p: Partial|
        #[trigger] run(p, words(text), holes) == (Partial {
            open: p.open,
            tokens: p.tokens + seq![Tok::Group(delim, Seq::<Tok>::empty())],
        }) by {
        assert forall|q: Partial|
            #[trigger] run(q, nothing, holes) == (Partial {
                open: q.open,
                tokens: q.tokens + Seq::<Tok>::empty(),
            }) by {
            assert(q.tokens + Seq::<Tok>::empty() =~= q.tokens);
        }
        lemma_run_group(p, open, nothing, close, delim, Seq::empty(), holes);
    }
}

/// A piece of a template, and the tokens that it stands for.
pub struct Piece {
    pub text: Seq<char>,
    pub tokens: Seq<Tok>,
}

impl Piece {
    /// The text stands for the tokens.
    pub open spec fn good(self, holes: Seq<Seq<Tok>>) -> bool {
        stands_for(self.text, holes, self.tokens)
    }

    /// A plain word.
    pub proof fn of_word(word: Seq<char>, holes: Seq<Seq<Tok>>) -> (piece: Piece)
        requires
            is_plain_word(word),
        ensures
            piece.good(holes),
            piece == (Piece { text: word, tokens: seq![Tok::Ident(word)] }),
    {
        lemma_stands_plain(word, holes);
        Piece { text: word, tokens: seq![Tok::Ident(word)] }
    }

    /// A hole.
    pub proof fn of_hole(word: Seq<char>, holes: Seq<Seq<Tok>>, k: int) -> (piece: Piece)
        requires
            hole(word) == Some(k),
            k < holes.len(),
        ensures
            piece.good(holes),
            piece == (Piece { text: word, tokens: holes[k] }),
    {
        lemma_stands_hole(word, holes, k);
        Piece { text: word, tokens: holes[k] }
    }

    /// A punctuation character.
    pub proof fn of_mark(word: Seq<char>, holes: Seq<Seq<Tok>>) -> (piece: Piece)
        requires
            word.len() == 1,
            is_punctuation(word[0]),
        ensures
            piece.good(holes),
            piece == (Piece { text: word, tokens: seq![Tok::Punct(word[0], false)] }),
    {
        lemma_stands_punct(word, holes);
        Piece { text: word, tokens: seq![Tok::Punct(word[0], false)] }
    }

    /// Two punctuation characters.
    pub proof fn of_marks(word: Seq<char>, holes: Seq<Seq<Tok>>) -> (piece: Piece)
        requires
            word.len() == 2,
            is_punctuation(word[0]),
            word[0] != '\'',
            is_punctuation(word[1]),
        ensures
            piece.good(holes),
            piece == (Piece {
                text: word,
                tokens: seq![Tok::Punct(word[0], true), Tok::Punct(word[1], false)],
            }),
    {
        lemma_stands_puncts(word, holes);
        Piece { text: word, tokens: seq![Tok::Punct(word[0], true), Tok::Punct(word[1], false)] }
    }

    /// With another piece behind it.
    pub proof fn then_piece(self, next: Piece, holes: Seq<Seq<Tok>>) -> (piece: Piece)
        requires
            self.good(holes),
            next.good(holes),
        ensures
            piece.good(holes),
            piece == (Piece {
                text: self.text.push(' ') + next.text,
                tokens: self.tokens + next.tokens,
            }),
    {
        lemma_stands_behind(self.text, self.tokens, next.text, next.tokens, holes);
        Piece { text: self.text.push(' ') + next.text, tokens: self.tokens + next.tokens }
    }

    /// The same, its text written in another way.
    pub proof fn as_text(self, text: Seq<char>, holes: Seq<Seq<Tok>>) -> (piece: Piece)
        requires
            self.good(holes),
            text =~= self.text,
        ensures
            piece.good(holes),
            piece == (Piece { text, tokens: self.tokens }),
    {
        Piece { text, tokens: self.tokens }
    }

    /// With a plain word behind it.
    pub proof fn then_word(self, word: Seq<char>, holes: Seq<Seq<Tok>>) -> (piece: Piece)
        requires
            self.good(holes),
            is_plain_word(word),
        ensures
            piece.good(holes),
            piece == (Piece {
                text: self.text.push(' ') + word,
                tokens: self.tokens.push(Tok::Ident(word)),
            }),
    {
        let next = Piece::of_word(word, holes);
        let piece = self.then_piece(next, holes);
        assert(piece.tokens =~= self.tokens.push(Tok::Ident(word)));
        piece
    }

    /// With a punctuation character behind it.
    pub proof fn then_mark(self, word: Seq<char>, holes: Seq<Seq<Tok>>) -> (piece: Piece)
        requires
            self.good(holes),
            word.len() == 1,
            is_punctuation(word[0]),
        ensures
            piece.good(holes),
            piece == (Piece {
                text: self.text.push(' ') + word,
                tokens: self.tokens.push(Tok::Punct(word[0], false)),
            }),
    {
        let next = Piece::of_mark(word, holes);
        let piece = self.then_piece(next, holes);
        assert(piece.tokens =~= self.tokens.push(Tok::Punct(word[0], false)));
        piece
    }

    /// With two punctuation characters behind it.
    pub proof fn then_marks(self, word: Seq<char>, holes: Seq<Seq<Tok>>) -> (piece: Piece)
        requires
            self.good(holes),
            word.len() == 2,
            is_punctuation(word[0]),
            word[0] != '\'',
            is_punctuation(word[1]),
        ensures
            piece.good(holes),
            piece == (Piece {
                text: self.text.push(' ') + word,
                tokens: self.tokens.push(Tok::Punct(word[0], true)).push(
                    Tok::Punct(word[1], false),
                ),
            }),
    {
        let next = Piece::of_marks(word, holes);
        let piece = self.then_piece(next, holes);
        assert(piece.tokens =~= self.tokens.push(Tok::Punct(word[0], true)).push(
            Tok::Punct(word[1], false),
        ));
        piece
    }

    /// With a lifetime behind it.
    pub proof fn then_lifetime(
        self,
        word: Seq<char>,
        name: Seq<char>,
        holes: Seq<Seq<Tok>>,
    ) -> (piece: Piece)
        requires
            self.good(holes),
            is_plain_word(name),
            word == seq!['\''] + name,
        ensures
            piece.good(holes),
            piece == (Piece {
                text: self.text.push(' ') + word,
                tokens: self.tokens.push(Tok::Punct('\'', true)).push(Tok::Ident(name)),
            }),
    {
        lemma_stands_lifetime(word, name, holes);
        let next = Piece { text: word, tokens: seq![Tok::Punct('\'', true), Tok::Ident(name)] };
        let piece = self.then_piece(next, holes);
        assert(piece.tokens =~= self.tokens.push(Tok::Punct('\'', true)).push(Tok::Ident(name)));
        piece
    }

    /// In round brackets.
    pub proof fn in_round(self, holes: Seq<Seq<Tok>>) -> (piece: Piece)
        requires
            self.good(holes),
        ensures
            piece.good(holes),
            piece == (Piece {
                text: (seq!['('].push(' ') + self.text).push(' ') + seq![')'],
                tokens: seq![Tok::Group(Delim::Parenthesis, self.tokens)],
            }),
    {
        let delim = Delim::Parenthesis;
        lemma_stands_group(seq!['('], self.text, seq![')'], delim, self.tokens, holes);
        Piece {
            text: (seq!['('].push(' ') + self.text).push(' ') + seq![')'],
            tokens: seq![Tok::Group(delim, self.tokens)],
        }
    }

    /// In curly brackets.
    pub proof fn in_curly(self, holes: Seq<Seq<Tok>>) -> (piece: Piece)
        requires
            self.good(holes),
        ensures
            piece.good(holes),
            piece == (Piece {
                text: (seq!['{'].push(' ') + self.text).push(' ') + seq!['}'],
                tokens: seq![Tok::Group(Delim::Brace, self.tokens)],
            }),
    {
        assert(seq!['('][0] == '(' && seq!['{'][0] == '{');
        let delim = Delim::Brace;
        lemma_stands_group(seq!['{'], self.text, seq!['}'], delim, self.tokens, holes);
        Piece {
            text: (seq!['{'].push(' ') + self.text).push(' ') + seq!['}'],
            tokens: seq![Tok::Group(delim, self.tokens)],
        }
    }

    /// In square brackets.
    pub proof fn in_square(self, holes: Seq<Seq<Tok>>) -> (piece: Piece)
        requires
            self.good(holes),
        ensures
            piece.good(holes),
            piece == (Piece {
                text: (seq!['['].push(' ') + self.text).push(' ') + seq![']'],
                tokens: seq![Tok::Group(Delim::Bracket, self.tokens)],
            }),
    {
        assert(seq!['('][0] == '(' && seq!['{'][0] == '{' && seq!['['][0] == '[');
        let delim = Delim::Bracket;
        lemma_stands_group(seq!['['], self.text, seq![']'], delim, self.tokens, holes);
        Piece {
            text: (seq!['['].push(' ') + self.text).push(' ') + seq![']'],
            tokens: seq![Tok::Group(delim, self.tokens)],
        }
    }

    /// Round brackets with nothing in them.
    pub proof fn empty_round(holes: Seq<Seq<Tok>>) -> (piece: Piece)
        ensures
            piece.good(holes),
            piece == (Piece {
                text: seq!['('].push(' ') + seq![')'],
                tokens: seq![Tok::Group(Delim::Parenthesis, Seq::<Tok>::empty())],
            }),
    {
        lemma_stands_empty_group(seq!['('], seq![')'], Delim::Parenthesis, holes);
        Piece {
            text: seq!['('].push(' ') + seq![')'],
            tokens: seq![Tok::Group(Delim::Parenthesis, Seq::<Tok>::empty())],
        }
    }

    /// Curly brackets with nothing in them.
    pub proof fn empty_curly(holes: Seq<Seq<Tok>>) -> (piece: Piece)
        ensures
            piece.good(holes),
            piece == (Piece {
                text: seq!['{'].push(' ') + seq!['}'],
                tokens: seq![Tok::Group(Delim::Brace, Seq::<Tok>::empty())],
            }),
    {
        assert(seq!['('][0] == '(' && seq!['{'][0] == '{');
        lemma_stands_empty_group(seq!['{'], seq!['}'], Delim::Brace, holes);
        Piece {
            text: seq!['{'].push(' ') + seq!['}'],
            tokens: seq![Tok::Group(Delim::Brace, Seq::<Tok>::empty())],
        }
    }
}

} // verus!
