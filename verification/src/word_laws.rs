//! What holds of names, words and lists.
use vstd::prelude::*;

use vstd::utf8::{encode_utf8, is_ascii_chars};

use crate::code::{adapter_name, handler_name, metadata_name};
use crate::grammar::{category_named, op_named, Category, CtxOp};
use crate::laws::law_words_of_ascii_name;
use crate::naming::{
    is_lower, is_lower_beyond_ascii, is_upper, is_upper_beyond_ascii, small, snake_case,
    snake_prefix, starts_word,
};
use crate::template::{in_a_row, separated, terminated};
use crate::token::{decimal, Tok};
use crate::trade_type::{type_named, DslType};
use crate::written::{lemma_named, lemma_words_of_grammar};

verus! {

// ---------------------------------------------------------------------------------------------
// Words of the language
// ---------------------------------------------------------------------------------------------
/// The language has eleven types with names of their own; every other name is an alias, for itself.
pub proof fn law_names_of_types(name: Seq<char>)
    ensures
        ({
            let ty = type_named(name);
            &&& ty is Price == (name == "Price"@)
            &&& ty is Amount == (name == "Amount"@)
            &&& ty is Duration == (name == "Duration"@)
            &&& ty is TimePoint == (name == "TimePoint"@)
            &&& ty is Percent == (name == "Percent"@)
            &&& ty is Count == (name == "Count"@)
            &&& ty is Number == (name == "Number"@)
            &&& ty is StringTy == (name == "String"@)
            &&& ty is Bool == (name == "Bool"@)
            &&& ty is Address == (name == "Address"@)
            &&& ty is Any == (name == "Any"@)
            &&& ty matches DslType::Alias(alias) ==> alias == name
            &&& !(ty is List || ty is Tuple || ty is Union)
        }),
{
    lemma_named(DslType::Price);
    lemma_named(DslType::Amount);
    lemma_named(DslType::Duration);
    lemma_named(DslType::TimePoint);
    lemma_named(DslType::Percent);
    lemma_named(DslType::Count);
    lemma_named(DslType::Number);
    lemma_named(DslType::StringTy);
    lemma_named(DslType::Bool);
    lemma_named(DslType::Address);
    lemma_named(DslType::Any);
}

/// Each of the four categories has a word of its own, and no other word names one.
pub proof fn law_words_of_categories(word: Seq<char>)
    ensures
        (category_named(word) == Some(Category::Monitor)) == (word == "monitor"@),
        (category_named(word) == Some(Category::Executor)) == (word == "executor"@),
        (category_named(word) == Some(Category::DataItem)) == (word == "data_item"@),
        (category_named(word) == Some(Category::Condition)) == (word == "condition"@),
{
    lemma_words_of_grammar();
}

/// Each of the three operations on contexts has a word of its own, and no other word names one.
pub proof fn law_words_of_operations(word: Seq<char>)
    ensures
        (op_named(word) == Some(CtxOp::Produce)) == (word == "produce"@),
        (op_named(word) == Some(CtxOp::Need)) == (word == "need"@),
        (op_named(word) == Some(CtxOp::Consume)) == (word == "consume"@),
{
    lemma_words_of_grammar();
}

// ---------------------------------------------------------------------------------------------
// Names of what is generated
// ---------------------------------------------------------------------------------------------
/// A raw identifier gives its name to the handler and the adapter without the mark of a raw one,
/// another as it is.
pub proof fn law_raw_names(name: Seq<char>)
    ensures
        handler_name(seq!['r', '#'] + name) == name + "Handler"@,
        adapter_name(seq!['r', '#'] + name) == name + "Adapter"@,
        !(name.len() >= 2 && name[0] == 'r' && name[1] == '#') ==> handler_name(name) == name
            + "Handler"@ && adapter_name(name) == name + "Adapter"@,
        metadata_name(name) == snake_case(name) + "_metadata"@,
{
    let raw = seq!['r', '#'] + name;
    assert(raw[0] == 'r' && raw[1] == '#');
    assert(raw.skip(2) =~= name);
}

/// A character made small is the letter 32 places on for a capital letter from `A` to `Z`, and else
/// the same.
pub proof fn law_small_letters(c: char)
    ensures
        'A' <= c && c <= 'Z' ==> small(c) as u32 == c as u32 + 32,
        !('A' <= c && c <= 'Z') ==> small(c) == c,
{
}

/// Of the ASCII characters the letters from `A` to `Z` are uppercase and those from `a` to `z`
/// lowercase; of the others, those that Unicode calls so.
pub proof fn law_letters(c: char)
    ensures
        (c as u32) < 128 ==> is_upper(c) == (65 <= c as u32 <= 90) && is_lower(c) == (97 <= c as u32
            <= 122),
        c as u32 >= 128 ==> is_upper(c) == is_upper_beyond_ascii(c) && is_lower(c)
            == is_lower_beyond_ascii(c),
{
}

/// One character more puts that character, made small, behind the snake case of an ASCII name, with
/// an underscore before it exactly where it is a capital letter behind a small letter or a digit.
pub proof fn law_snake_case_letter_by_letter(name: Seq<char>, c: char)
    requires
        is_ascii_chars(name.push(c)),
    ensures
        snake_case(Seq::empty()) == Seq::<char>::empty(),
        snake_case(name.push(c)) == (if name.len() > 0 && 'A' <= c && c <= 'Z' && (('a'
            <= name.last() && name.last() <= 'z') || ('0' <= name.last() && name.last() <= '9')) {
            snake_case(name).push('_').push(small(c))
        } else {
            snake_case(name).push(small(c))
        }),
{
    let longer = name.push(c);
    assert forall|i: int| 0 <= i < name.len() implies '\0' <= #[trigger] name[i]
        <= '\u{7f}' by {
        assert(longer[i] == name[i]);
    }
    lemma_snake_prefix_grows(name, c, name.len());
    law_words_of_ascii_name(longer, name.len() as int);
}

/// What was made of the first characters of an ASCII name stays where one more comes behind it.
proof fn lemma_snake_prefix_grows(name: Seq<char>, c: char, n: nat)
    requires
        is_ascii_chars(name),
        is_ascii_chars(name.push(c)),
        n <= name.len(),
    ensures
        snake_prefix(name.push(c), n) == snake_prefix(name, n),
    decreases n,
{
    if n > 0 {
        lemma_snake_prefix_grows(name, c, (n - 1) as nat);
        law_words_of_ascii_name(name, n - 1);
        law_words_of_ascii_name(name.push(c), n - 1);
        assert(name.push(c)[n - 1] == name[n - 1]);
        if n >= 2 {
            assert(name.push(c)[n - 2] == name[n - 2]);
        }
    }
}

/// Whatever the name, its snake case is its characters made small, in order, with underscores among
/// them.
pub proof fn law_snake_case_keeps_the_letters(name: Seq<char>)
    ensures
        snake_case(name).filter(|c: char| c != '_') == name.map_values(
            |c: char| small(c),
        ).filter(|c: char| c != '_'),
{
    lemma_prefix_keeps_the_letters(name, name.len());
    assert(name.take(name.len() as int) =~= name);
}

/// So does the snake case of the first characters.
proof fn lemma_prefix_keeps_the_letters(name: Seq<char>, n: nat)
    requires
        n <= name.len(),
    ensures
        snake_prefix(name, n).filter(|c: char| c != '_') == name.take(n as int).map_values(
            |c: char| small(c),
        ).filter(|c: char| c != '_'),
    decreases n,
{
    let keep = |c: char| c != '_';
    let letters = |k: nat| name.take(k as int).map_values(|c: char| small(c));
    reveal(Seq::filter);
    if n == 0 {
        assert(snake_prefix(name, n) =~= letters(n));
    } else {
        let m = (n - 1) as nat;
        lemma_prefix_keeps_the_letters(name, m);
        assert(letters(n).drop_last() =~= letters(m));
        assert(letters(n).last() == small(name[n - 1]));
        let before = snake_prefix(name, m);
        let spaced = if starts_word(name, n - 1) {
            before.push('_')
        } else {
            before
        };
        assert(before.push('_').drop_last() =~= before);
        assert(spaced.filter(keep) == before.filter(keep));
        let longer = spaced.push(small(name[n - 1]));
        assert(longer == snake_prefix(name, n));
        assert(longer.drop_last() =~= spaced);
        assert(longer.filter(keep) == letters(n).filter(keep));
    }
}

/// In whatever name, an underscore comes before the character in a place exactly where it is
/// uppercase, not the first, and the byte in the place before it in the encoded name is lowercase or
/// a digit, taken as a character.
pub proof fn law_underscores_follow_bytes(name: Seq<char>, i: int)
    requires
        0 <= i < name.len(),
    ensures
        snake_prefix(name, (i + 1) as nat) == snake_prefix(name, i as nat) + (if i > 0 && is_upper(
            name[i],
        ) && (is_lower(encode_utf8(name)[i - 1] as char) || 48 <= encode_utf8(name)[i - 1] <= 57) {
            seq!['_', small(name[i])]
        } else {
            seq![small(name[i])]
        }),
{
}

// ---------------------------------------------------------------------------------------------
// Numbers
// ---------------------------------------------------------------------------------------------
/// The number that decimal digits stand for.
pub open spec fn number_of(digits: Seq<char>) -> int
    decreases digits.len(),
{
    if digits.len() == 0 {
        0
    } else {
        10 * number_of(digits.drop_last()) + (digits.last() as u32 - 48)
    }
}

/// A number is written in digits that stand for it, without a needless zero in front.
pub proof fn law_decimal_digits(n: nat)
    ensures
        number_of(decimal(n)) == n,
        decimal(n).len() > 0,
        forall|i: int| 0 <= i < decimal(n).len() ==> '0' <= #[trigger] decimal(n)[i] <= '9',
        n > 0 ==> decimal(n)[0] != '0',
        n == 0 ==> decimal(n) == seq!['0'],
    decreases n,
{
    reveal_with_fuel(number_of, 2);
    if n >= 10 {
        law_decimal_digits(n / 10);
        assert(decimal(n).drop_last() =~= decimal(n / 10));
        assert(10 * (n / 10) + n % 10 == n);
    } else {
        assert(decimal(n).drop_last() =~= Seq::<char>::empty());
    }
}

// ---------------------------------------------------------------------------------------------
// Lists
// ---------------------------------------------------------------------------------------------
/// A list of pieces is made of its parts: nothing of no piece, the piece of one, and of two lists,
/// one behind the other, what is made of each. Between two pieces that are separated stands a comma;
/// behind each that is terminated stands one.
pub proof fn law_lists_are_made_of_parts(
    piece: Seq<Tok>,
    first: Seq<Seq<Tok>>,
    second: Seq<Seq<Tok>>,
)
    ensures
        in_a_row(Seq::empty()) == Seq::<Tok>::empty(),
        in_a_row(seq![piece]) == piece,
        in_a_row(first + second) == in_a_row(first) + in_a_row(second),
        terminated(Seq::empty()) == Seq::<Tok>::empty(),
        terminated(seq![piece]) == piece + seq![Tok::Punct(',', false)],
        terminated(first + second) == terminated(first) + terminated(second),
        separated(Seq::empty()) == Seq::<Tok>::empty(),
        separated(seq![piece]) == piece,
        separated(first + second) == (if first.len() == 0 {
            separated(second)
        } else if second.len() == 0 {
            separated(first)
        } else {
            separated(first) + seq![Tok::Punct(',', false)] + separated(second)
        }),
    decreases second.len(),
{
    let one = seq![piece];
    assert(one.drop_last() =~= Seq::<Seq<Tok>>::empty());
    reveal_with_fuel(in_a_row, 2);
    reveal_with_fuel(terminated, 2);
    assert(in_a_row(one) =~= piece);
    assert(terminated(one) =~= piece + seq![Tok::Punct(',', false)]);
    if first.len() == 0 {
        assert(first + second =~= second);
        assert(in_a_row(first) + in_a_row(second) =~= in_a_row(second));
        assert(terminated(first) + terminated(second) =~= terminated(second));
    } else if second.len() == 0 {
        assert(first + second =~= first);
        assert(in_a_row(first) + in_a_row(second) =~= in_a_row(first));
        assert(terminated(first) + terminated(second) =~= terminated(first));
    } else {
        let before = second.drop_last();
        law_lists_are_made_of_parts(piece, first, before);
        assert((first + second).drop_last() =~= first + before);
        assert((first + second).last() == second.last());
        assert(in_a_row(first + second) =~= in_a_row(first) + in_a_row(second));
        assert(terminated(first + second) =~= terminated(first) + terminated(second));
        if before.len() == 0 {
            assert(first + before =~= first);
        }
        assert(separated(first + second) =~= separated(first) + seq![Tok::Punct(',', false)]
            + separated(second));
    }
}

} // verus!
