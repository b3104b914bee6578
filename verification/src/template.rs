//! Templates of token streams.
//!
//! A template is a text whose words stand between single spaces. A word is an opening or closing
//! bracket, an identifier or keyword, a lifetime, a run of punctuation, or a hole: `#a` stands for
//! the first of the streams that the template is filled with, `#b` for the second, and so on.
use proc_macro2::TokenStream;
use vstd::prelude::*;

use crate::text::{chars_of, text_of};
use crate::token::{
    all_tokens_of, append, append_group, append_punct, append_word, is_plain_word, is_punctuation,
    is_word_char, tokens_of, Delim, Tok,
};

verus! {

// ---------------------------------------------------------------------------------------------
// What a template stands for
// ---------------------------------------------------------------------------------------------
/// The words of a template: what stands before, between and behind its spaces.
pub open spec fn words(template: Seq<char>) -> Seq<Seq<char>>
    decreases template.len(),
{
    if template.len() == 0 {
        seq![Seq::<char>::empty()]
    } else {
        let before = words(template.drop_last());
        if template.last() == ' ' {
            before.push(Seq::<char>::empty())
        } else {
            before.drop_last().push(before.last().push(template.last()))
        }
    }
}

/// The bracket that a word opens.
pub open spec fn opening(word: Seq<char>) -> Option<Delim> {
    if word == seq!['('] {
        Some(Delim::Parenthesis)
    } else if word == seq!['{'] {
        Some(Delim::Brace)
    } else if word == seq!['['] {
        Some(Delim::Bracket)
    } else {
        None
    }
}

/// Whether a word is a closing bracket.
pub open spec fn is_closing(word: Seq<char>) -> bool {
    word == seq![')'] || word == seq!['}'] || word == seq![']']
}

/// The number of the stream that a word stands for.
pub open spec fn hole(word: Seq<char>) -> Option<int> {
    if word.len() == 2 && word[0] == '#' && 'a' <= word[1] && word[1] <= 'z' {
        Some(word[1] as int - 'a' as int)
    } else {
        None
    }
}

/// Whether a word is a lifetime.
pub open spec fn is_lifetime(word: Seq<char>) -> bool {
    word.len() > 1 && word[0] == '\'' && is_plain_word(word.drop_first())
}

/// The punctuation tokens of the first `n` characters of a word, each joined to the character
/// behind it.
pub open spec fn puncts(word: Seq<char>, n: nat) -> Seq<Tok>
    decreases n,
{
    if n == 0 || n > word.len() {
        Seq::empty()
    } else {
        let before = puncts(word, (n - 1) as nat);
        if is_punctuation(word[n - 1]) {
            before.push(Tok::Punct(word[n - 1], n < word.len()))
        } else {
            before
        }
    }
}

/// The tokens that a word other than a bracket stands for.
pub open spec fn word_tokens(word: Seq<char>, holes: Seq<Seq<Tok>>) -> Seq<Tok> {
    match hole(word) {
        Some(k) => if k < holes.len() {
            holes[k]
        } else {
            Seq::empty()
        },
        None => if is_plain_word(word) {
            seq![Tok::Ident(word)]
        } else if is_lifetime(word) {
            seq![Tok::Punct('\'', true), Tok::Ident(word.drop_first())]
        } else {
            puncts(word, word.len())
        },
    }
}

/// A template filled in part: the groups that are open, each with what stands before it, and the
/// tokens since the last of them was opened.
pub struct Partial {
    pub open: Seq<(Delim, Seq<Tok>)>,
    pub tokens: Seq<Tok>,
}

impl Partial {
    /// The group opened last, closed.
    pub open spec fn closed(self) -> Partial {
        if self.open.len() == 0 {
            self
        } else {
            Partial {
                open: self.open.drop_last(),
                tokens: self.open.last().1.push(Tok::Group(self.open.last().0, self.tokens)),
            }
        }
    }

    /// With one word more.
    pub open spec fn with(self, word: Seq<char>, holes: Seq<Seq<Tok>>) -> Partial {
        match opening(word) {
            Some(delim) => Partial {
                open: self.open.push((delim, self.tokens)),
                tokens: Seq::empty(),
            },
            None => if is_closing(word) {
                self.closed()
            } else {
                Partial { open: self.open, tokens: self.tokens + word_tokens(word, holes) }
            },
        }
    }

    /// The tokens, with every group closed.
    pub open spec fn all(self) -> Seq<Tok>
        decreases self.open.len(),
    {
        if self.open.len() == 0 {
            self.tokens
        } else {
            self.closed().all()
        }
    }
}

/// The words filled in, from the first to the last.
pub open spec fn filled(words: Seq<Seq<char>>, holes: Seq<Seq<Tok>>) -> Partial
    decreases words.len(),
{
    if words.len() == 0 {
        Partial { open: Seq::empty(), tokens: Seq::empty() }
    } else {
        filled(words.drop_last(), holes).with(words.last(), holes)
    }
}

/// The tokens that a template stands for when its holes are filled with the given ones.
pub open spec fn rendered(template: Seq<char>, holes: Seq<Seq<Tok>>) -> Seq<Tok> {
    filled(words(template), holes).all()
}

// ---------------------------------------------------------------------------------------------
// Filling a template
// ---------------------------------------------------------------------------------------------
/// The words of a template.
fn split(template: &str) -> (list: Vec<Vec<char>>)
    ensures
        list@.map_values(|word: Vec<char>| word@) == words(template@),
{
    let chars: Vec<char> = chars_of(template);
    let mut list: Vec<Vec<char>> = Vec::new();
    let mut word: Vec<char> = Vec::new();
    let mut i: usize = 0;
    assert(list@.map_values(|w: Vec<char>| w@).push(word@) =~= seq![Seq::<char>::empty()]);
    while i < chars.len()
        invariant
            i <= chars@.len(),
            list@.map_values(|w: Vec<char>| w@).push(word@) == words(chars@.take(i as int)),
        decreases chars@.len() - i,
    {
        let ghost before = list@.map_values(|w: Vec<char>| w@);
        assert(before.push(word@).drop_last() =~= before);
        assert(chars@.take(i + 1).drop_last() =~= chars@.take(i as int));
        if chars[i] == ' ' {
            let ghost done = word@;
            list.push(word);
            word = Vec::new();
            assert(list@.map_values(|w: Vec<char>| w@) =~= before.push(done));
            assert(word@ =~= Seq::<char>::empty());
        } else {
            word.push(chars[i]);
        }
        i += 1;
    }
    assert(chars@.take(chars@.len() as int) =~= chars@);
    let ghost before = list@.map_values(|w: Vec<char>| w@);
    let ghost last = word@;
    list.push(word);
    assert(list@.map_values(|w: Vec<char>| w@) =~= before.push(last));
    list
}

/// Whether the characters from the given place on make up a plain word.
fn plain_word(word: &Vec<char>, from: usize) -> (plain: bool)
    requires
        from <= word@.len(),
    ensures
        plain == is_plain_word(word@.skip(from as int)),
{
    let ghost tail = word@.skip(from as int);
    if from == word.len() {
        return false;
    }
    let first: char = word[from];
    assert(tail[0] == first);
    if !(('a' <= first && first <= 'z') || ('A' <= first && first <= 'Z') || first == '_') {
        return false;
    }
    let mut i: usize = from;
    while i < word.len()
        invariant
            from <= i <= word@.len(),
            tail == word@.skip(from as int),
            forall|k: int| 0 <= k < i - from ==> is_word_char(#[trigger] tail[k]),
        decreases word@.len() - i,
    {
        let c: char = word[i];
        assert(tail[i - from] == c);
        let letter: bool = ('a' <= c && c <= 'z') || ('A' <= c && c <= 'Z');
        if !(letter || c == '_' || ('0' <= c && c <= '9')) {
            return false;
        }
        i += 1;
    }
    true
}

/// Whether a character can stand as a punctuation token.
fn punctuation(c: char) -> (is: bool)
    ensures
        is == is_punctuation(c),
{
    c == '!' || c == '#' || c == '$' || c == '%' || c == '&' || c == '\'' || c == '*' || c == '+'
        || c == ',' || c == '-' || c == '.' || c == '/' || c == ':' || c == ';' || c == '<' || c
        == '=' || c == '>' || c == '?' || c == '@' || c == '^' || c == '|' || c == '~'
}

/// Adds the tokens that a word other than a bracket stands for.
fn append_word_tokens(stream: &mut TokenStream, word: &Vec<char>, holes: &Vec<TokenStream>)
    ensures
        tokens_of(*final(stream)) == tokens_of(*old(stream)) + word_tokens(
            word@,
            all_tokens_of(holes@),
        ),
{
    if word.len() == 2 && word[0] == '#' && 'a' <= word[1] && word[1] <= 'z' {
        let k: usize = word[1] as usize - 'a' as usize;
        if k < holes.len() {
            append(stream, holes[k].clone());
        }
        assert(tokens_of(*old(stream)) + Seq::<Tok>::empty() =~= tokens_of(*old(stream)));
        return;
    }
    assert(word@.skip(0) =~= word@);
    if plain_word(word, 0) {
        let text: String = text_of(word);
        append_word(stream, text.as_str());
        assert(tokens_of(*old(stream)).push(Tok::Ident(word@)) =~= tokens_of(*old(stream))
            + seq![Tok::Ident(word@)]);
        return;
    }
    if word.len() > 1 && word[0] == '\'' && plain_word(word, 1) {
        assert(word@.skip(1) =~= word@.drop_first());
        let mut name: Vec<char> = Vec::new();
        let mut i: usize = 1;
        while i < word.len()
            invariant
                1 <= i <= word@.len(),
                name@ == word@.subrange(1, i as int),
            decreases word@.len() - i,
        {
            name.push(word[i]);
            i += 1;
            assert(word@.subrange(1, i as int) =~= word@.subrange(1, i - 1).push(word@[i - 1]));
        }
        assert(name@ =~= word@.drop_first());
        append_punct(stream, '\'', true);
        let text: String = text_of(&name);
        append_word(stream, text.as_str());
        assert(tokens_of(*stream) =~= tokens_of(*old(stream)) + seq![
            Tok::Punct('\'', true),
            Tok::Ident(word@.drop_first()),
        ]);
        return;
    }
    proof {
        if word@.len() > 1 {
            assert(word@.skip(1) =~= word@.drop_first());
        }
    }
    let mut i: usize = 0;
    while i < word.len()
        invariant
            i <= word@.len(),
            tokens_of(*stream) =~= tokens_of(*old(stream)) + puncts(word@, i as nat),
        decreases word@.len() - i,
    {
        if punctuation(word[i]) {
            append_punct(stream, word[i], i + 1 < word.len());
        }
        i += 1;
    }
}

/// Fills a template with the given streams.
pub fn render(template: &str, holes: &Vec<TokenStream>) -> (stream: TokenStream)
    ensures
        tokens_of(stream) == rendered(template@, all_tokens_of(holes@)),
{
    let list: Vec<Vec<char>> = split(template);
    let ghost all = words(template@);
    let ghost fill = all_tokens_of(holes@);
    let mut open: Vec<(Delim, TokenStream)> = Vec::new();
    let mut stream: TokenStream = TokenStream::new();
    let ghost seen = |frame: (Delim, TokenStream)| (frame.0, tokens_of(frame.1));
    let mut i: usize = 0;
    assert(open@.map_values(seen) =~= filled(all.take(0), fill).open);
    while i < list.len()
        invariant
            i <= list@.len(),
            all == list@.map_values(|word: Vec<char>| word@),
            fill == all_tokens_of(holes@),
            seen == (|frame: (Delim, TokenStream)| (frame.0, tokens_of(frame.1))),
            open@.map_values(seen) == filled(all.take(i as int), fill).open,
            tokens_of(stream) == filled(all.take(i as int), fill).tokens,
        decreases list@.len() - i,
    {
        let word: &Vec<char> = &list[i];
        let ghost partial = filled(all.take(i as int), fill);
        assert(all.take(i + 1).drop_last() =~= all.take(i as int));
        assert(all[i as int] == word@);
        let one: bool = word.len() == 1;
        let delim: Option<Delim> = if one && word[0] == '(' {
            Some(Delim::Parenthesis)
        } else if one && word[0] == '{' {
            Some(Delim::Brace)
        } else if one && word[0] == '[' {
            Some(Delim::Bracket)
        } else {
            None
        };
        proof {
            if one {
                assert(word@ =~= seq![word@[0]]);
            }
            assert(seq!['('][0] == '(');
            assert(seq!['{'][0] == '{');
            assert(seq!['['][0] == '[');
            assert(seq![')'][0] == ')');
            assert(seq!['}'][0] == '}');
            assert(seq![']'][0] == ']');
            assert(delim == opening(word@));
        }
        if let Some(delim) = delim {
            let ghost frames = open@.map_values(seen);
            let ghost before = tokens_of(stream);
            open.push((delim, stream));
            stream = TokenStream::new();
            assert(open@.map_values(seen) =~= frames.push((delim, before)));
        } else if one && (word[0] == ')' || word[0] == '}' || word[0] == ']') {
            let ghost frames = open@.map_values(seen);
            if let Some((delim, outer)) = open.pop() {
                assert(open@.map_values(seen) =~= frames.drop_last());
                assert(frames.last() == (delim, tokens_of(outer)));
                let mut closed: TokenStream = outer;
                append_group(&mut closed, delim, stream);
                stream = closed;
            }
        } else {
            append_word_tokens(&mut stream, word, holes);
        }
        i += 1;
    }
    assert(all.take(all.len() as int) =~= all);
    while open.len() > 0
        invariant
            seen == (|frame: (Delim, TokenStream)| (frame.0, tokens_of(frame.1))),
            (Partial { open: open@.map_values(seen), tokens: tokens_of(stream) }).all() == rendered(
                template@,
                fill,
            ),
        decreases open@.len(),
    {
        let ghost frames = open@.map_values(seen);
        if let Some((delim, outer)) = open.pop() {
            assert(open@.map_values(seen) =~= frames.drop_last());
            assert(frames.last() == (delim, tokens_of(outer)));
            let mut closed: TokenStream = outer;
            append_group(&mut closed, delim, stream);
            stream = closed;
        }
    }
    stream
}

/// A template without holes.
pub fn fixed(template: &str) -> (stream: TokenStream)
    ensures
        tokens_of(stream) == rendered(template@, seq![]),
{
    let holes: Vec<TokenStream> = Vec::new();
    assert(all_tokens_of(holes@) =~= seq![]);
    render(template, &holes)
}

/// A template with one hole.
pub fn fill(template: &str, a: TokenStream) -> (stream: TokenStream)
    ensures
        tokens_of(stream) == rendered(template@, seq![tokens_of(a)]),
{
    let holes: Vec<TokenStream> = vec![a];
    assert(all_tokens_of(holes@) =~= seq![tokens_of(a)]);
    render(template, &holes)
}

/// A template with two holes.
pub fn fill_two(template: &str, a: TokenStream, b: TokenStream) -> (stream: TokenStream)
    ensures
        tokens_of(stream) == rendered(template@, seq![tokens_of(a), tokens_of(b)]),
{
    let holes: Vec<TokenStream> = vec![a, b];
    assert(all_tokens_of(holes@) =~= seq![tokens_of(a), tokens_of(b)]);
    render(template, &holes)
}

/// A template with three holes.
pub fn fill_three(template: &str, a: TokenStream, b: TokenStream, c: TokenStream) -> (stream:
    TokenStream)
    ensures
        tokens_of(stream) == rendered(template@, seq![tokens_of(a), tokens_of(b), tokens_of(c)]),
{
    let holes: Vec<TokenStream> = vec![a, b, c];
    assert(all_tokens_of(holes@) =~= seq![tokens_of(a), tokens_of(b), tokens_of(c)]);
    render(template, &holes)
}

// ---------------------------------------------------------------------------------------------
// Lists
// ---------------------------------------------------------------------------------------------
/// Several pieces with a comma between each two.
pub open spec fn separated(pieces: Seq<Seq<Tok>>) -> Seq<Tok>
    decreases pieces.len(),
{
    if pieces.len() == 0 {
        Seq::empty()
    } else if pieces.len() == 1 {
        pieces[0]
    } else {
        separated(pieces.drop_last()).push(Tok::Punct(',', false)) + pieces.last()
    }
}

/// Several pieces with a comma behind each.
pub open spec fn terminated(pieces: Seq<Seq<Tok>>) -> Seq<Tok>
    decreases pieces.len(),
{
    if pieces.len() == 0 {
        Seq::empty()
    } else {
        (terminated(pieces.drop_last()) + pieces.last()).push(Tok::Punct(',', false))
    }
}

/// Several pieces, one behind the other.
pub open spec fn in_a_row(pieces: Seq<Seq<Tok>>) -> Seq<Tok>
    decreases pieces.len(),
{
    if pieces.len() == 0 {
        Seq::empty()
    } else {
        in_a_row(pieces.drop_last()) + pieces.last()
    }
}

/// Puts a comma between each two of the pieces.
pub fn separate(pieces: &Vec<TokenStream>) -> (stream: TokenStream)
    ensures
        tokens_of(stream) == separated(all_tokens_of(pieces@)),
{
    let ghost all = all_tokens_of(pieces@);
    let mut stream: TokenStream = TokenStream::new();
    let mut i: usize = 0;
    while i < pieces.len()
        invariant
            i <= pieces@.len(),
            all == all_tokens_of(pieces@),
            tokens_of(stream) == separated(all.take(i as int)),
        decreases pieces@.len() - i,
    {
        assert(all.take(i + 1).drop_last() =~= all.take(i as int));
        assert(all[i as int] == tokens_of(pieces@[i as int]));
        if i > 0 {
            append_punct(&mut stream, ',', false);
        }
        append(&mut stream, pieces[i].clone());
        i += 1;
        assert(tokens_of(stream) =~= separated(all.take(i as int)));
    }
    assert(all.take(all.len() as int) =~= all);
    stream
}

/// Puts a comma behind each of the pieces.
pub fn terminate(pieces: &Vec<TokenStream>) -> (stream: TokenStream)
    ensures
        tokens_of(stream) == terminated(all_tokens_of(pieces@)),
{
    let ghost all = all_tokens_of(pieces@);
    let mut stream: TokenStream = TokenStream::new();
    let mut i: usize = 0;
    while i < pieces.len()
        invariant
            i <= pieces@.len(),
            all == all_tokens_of(pieces@),
            tokens_of(stream) == terminated(all.take(i as int)),
        decreases pieces@.len() - i,
    {
        assert(all.take(i + 1).drop_last() =~= all.take(i as int));
        assert(all[i as int] == tokens_of(pieces@[i as int]));
        append(&mut stream, pieces[i].clone());
        append_punct(&mut stream, ',', false);
        i += 1;
    }
    assert(all.take(all.len() as int) =~= all);
    stream
}

/// Puts the pieces one behind the other.
pub fn line_up(pieces: &Vec<TokenStream>) -> (stream: TokenStream)
    ensures
        tokens_of(stream) == in_a_row(all_tokens_of(pieces@)),
{
    let ghost all = all_tokens_of(pieces@);
    let mut stream: TokenStream = TokenStream::new();
    let mut i: usize = 0;
    while i < pieces.len()
        invariant
            i <= pieces@.len(),
            all == all_tokens_of(pieces@),
            tokens_of(stream) == in_a_row(all.take(i as int)),
        decreases pieces@.len() - i,
    {
        assert(all.take(i + 1).drop_last() =~= all.take(i as int));
        assert(all[i as int] == tokens_of(pieces@[i as int]));
        append(&mut stream, pieces[i].clone());
        i += 1;
    }
    assert(all.take(all.len() as int) =~= all);
    stream
}

} // verus!
