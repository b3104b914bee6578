//! What holds of the types of the language and the code that stands for them.
use vstd::prelude::*;

use crate::rendering::{
    lemma_close, lemma_hole, lemma_open, lemma_plain, lemma_punct, lemma_puncts,
    lemma_rendered_grows, load, open_load, outermost, partial,
};
use crate::template::{rendered, separated, Partial};
use crate::token::{decimal, is_plain_word, lemma_weight_concat, weight, Delim, Tok};
use crate::trade_type::{
    extraction, field_wrappings, is_runtime_value, rust_type_of, rust_types_of, tuple_field,
    type_spec_of, type_specs_of, wrapping, DslType, EXTRACT_VALUE, ITEM, RUST_BOOL, RUST_DURATION,
    RUST_FLOAT, RUST_LIST, RUST_STRING, RUST_TUPLE, RUST_VALUE, SPEC_ADDRESS, SPEC_AMOUNT, SPEC_ANY,
    SPEC_BOOL, SPEC_COUNT, SPEC_DURATION, SPEC_LIST, SPEC_NUMBER, SPEC_PERCENT, SPEC_PRICE,
    SPEC_STRING, SPEC_TIMEPOINT, SPEC_TUPLE, TUPLE_FIELD, WRAP_AMOUNT, WRAP_BOOL, WRAP_COUNT,
    WRAP_DURATION, WRAP_LIST, WRAP_NUMBER, WRAP_PERCENT, WRAP_PRICE, WRAP_STRING, WRAP_TIME_POINT,
    WRAP_TUPLE,
};
use crate::written::{lemma_named, name_of_type};

verus! {

/// A choice, an alias and any type are met as runtime values: they are described as any type, a
/// value is taken as it is, and handed back as it is.
pub proof fn law_runtime_values(ty: DslType, value: Seq<Tok>)
    requires
        is_runtime_value(ty),
    ensures
        rust_type_of(ty) == rendered(RUST_VALUE@, seq![]),
        type_spec_of(ty) == rendered(SPEC_ANY@, seq![]),
        extraction(ty, value) == rendered(EXTRACT_VALUE@, seq![value]),
        wrapping(ty, value) == value,
{
}

/// `trade_meta_compiler :: RuntimeValue`
proof fn lemma_rust_value()
    ensures
        rendered(RUST_VALUE@, seq![]) == seq![
            Tok::Ident("trade_meta_compiler"@),
            Tok::Punct(':', true),
            Tok::Punct(':', false),
            Tok::Ident("RuntimeValue"@),
        ],
{
    reveal_strlit("trade_meta_compiler");
    reveal_strlit("::");
    reveal_strlit("RuntimeValue");
    reveal_strlit("trade_meta_compiler :: RuntimeValue");
    let holes = Seq::<Seq<Tok>>::empty();
    lemma_plain("trade_meta_compiler"@, "trade_meta_compiler"@, holes);
    let t0 = "trade_meta_compiler"@;
    lemma_puncts(t0, "::"@, holes);
    let t1 = t0.push(' ') + "::"@;
    lemma_plain(t1, "RuntimeValue"@, holes);
    let t2 = t1.push(' ') + "RuntimeValue"@;
    assert(RUST_VALUE@ =~= t2);
    assert(partial(t2, holes).open =~= Seq::empty());
}

/// `:: std :: string :: String` begins with a colon.
proof fn lemma_rust_string()
    ensures
        rendered(RUST_STRING@, seq![]).len() > 0,
        rendered(RUST_STRING@, seq![])[0] == Tok::Punct(':', true),
{
    reveal_strlit("::");
    reveal_strlit("std");
    reveal_strlit("string");
    reveal_strlit("String");
    reveal_strlit(":: std :: string :: String");
    let holes = Seq::<Seq<Tok>>::empty();
    lemma_puncts("::"@, "::"@, holes);
    let t0 = "::"@;
    lemma_plain(t0, "std"@, holes);
    let t1 = t0.push(' ') + "std"@;
    lemma_puncts(t1, "::"@, holes);
    let t2 = t1.push(' ') + "::"@;
    lemma_plain(t2, "string"@, holes);
    let t3 = t2.push(' ') + "string"@;
    lemma_puncts(t3, "::"@, holes);
    let t4 = t3.push(' ') + "::"@;
    lemma_plain(t4, "String"@, holes);
    let t5 = t4.push(' ') + "String"@;
    assert(RUST_STRING@ =~= t5);
    assert(partial(t5, holes).open =~= Seq::empty());
}

/// `:: std :: vec :: Vec < .. >` begins with a colon.
proof fn lemma_rust_list(elem: Seq<Tok>)
    ensures
        rendered(RUST_LIST@, seq![elem]).len() > 0,
        rendered(RUST_LIST@, seq![elem])[0] == Tok::Punct(':', true),
{
    reveal_strlit("::");
    reveal_strlit("std");
    reveal_strlit("vec");
    reveal_strlit("Vec");
    reveal_strlit("<");
    reveal_strlit("#a");
    reveal_strlit(">");
    reveal_strlit(":: std :: vec :: Vec < #a >");
    let holes = seq![elem];
    lemma_puncts("::"@, "::"@, holes);
    let t0 = "::"@;
    lemma_plain(t0, "std"@, holes);
    let t1 = t0.push(' ') + "std"@;
    lemma_puncts(t1, "::"@, holes);
    let t2 = t1.push(' ') + "::"@;
    lemma_plain(t2, "vec"@, holes);
    let t3 = t2.push(' ') + "vec"@;
    lemma_puncts(t3, "::"@, holes);
    let t4 = t3.push(' ') + "::"@;
    lemma_plain(t4, "Vec"@, holes);
    let t5 = t4.push(' ') + "Vec"@;
    lemma_punct(t5, "<"@, holes);
    let t6 = t5.push(' ') + "<"@;
    lemma_hole(t6, "#a"@, holes, 0);
    let t7 = t6.push(' ') + "#a"@;
    lemma_punct(t7, ">"@, holes);
    let t8 = t7.push(' ') + ">"@;
    assert(RUST_LIST@ =~= t8);
    assert(partial(t8, holes).open =~= Seq::empty());
}

/// `( .. )` is one group.
proof fn lemma_rust_tuple(elems: Seq<Tok>)
    ensures
        rendered(RUST_TUPLE@, seq![elems]) == seq![Tok::Group(Delim::Parenthesis, elems)],
{
    reveal_strlit("(");
    reveal_strlit("#a");
    reveal_strlit(")");
    reveal_strlit("( #a )");
    let holes = seq![elems];
    assert("("@ =~= seq!['(']);
    lemma_open("("@, "("@, holes, Delim::Parenthesis);
    let t0 = "("@;
    lemma_hole(t0, "#a"@, holes, 0);
    let t1 = t0.push(' ') + "#a"@;
    assert(")"@ =~= seq![')']);
    lemma_close(t1, ")"@, holes);
    let t2 = t1.push(' ') + ")"@;
    assert(RUST_TUPLE@ =~= t2);
    assert(partial(t1, holes).tokens =~= elems);
    assert(Seq::<Tok>::empty().push(Tok::Group(Delim::Parenthesis, elems)) =~= seq![
        Tok::Group(Delim::Parenthesis, elems),
    ]);
    assert(partial(t2, holes).open =~= Seq::empty());
}

/// `f64`, `u64` and `bool` are one word.
proof fn lemma_rust_words()
    ensures
        rendered(RUST_FLOAT@, seq![]).len() == 1,
        rendered(RUST_DURATION@, seq![]).len() == 1,
        rendered(RUST_BOOL@, seq![]).len() == 1,
{
    reveal_strlit("f64");
    reveal_strlit("u64");
    reveal_strlit("bool");
    let holes = Seq::<Seq<Tok>>::empty();
    lemma_plain("f64"@, "f64"@, holes);
    lemma_plain("u64"@, "u64"@, holes);
    lemma_plain("bool"@, "bool"@, holes);
}

/// The types whose values code meets as runtime values are those for which a handler declares
/// `trade_meta_compiler::RuntimeValue`.
pub proof fn law_runtime_value_types(ty: DslType)
    ensures
        is_runtime_value(ty) == (rust_type_of(ty) == seq![
            Tok::Ident("trade_meta_compiler"@),
            Tok::Punct(':', true),
            Tok::Punct(':', false),
            Tok::Ident("RuntimeValue"@),
        ]),
{
    lemma_rust_value();
    lemma_rust_words();
    lemma_rust_string();
    match ty {
        DslType::List(elem) => {
            lemma_rust_list(rust_type_of(*elem));
        },
        DslType::Tuple(elems) => {
            lemma_rust_tuple(separated(rust_types_of(elems)));
        },
        _ => {},
    }
}

// ---------------------------------------------------------------------------------------------
// Values into a runtime value
// ---------------------------------------------------------------------------------------------
/// `trade_meta_compiler :: RuntimeValue ::`
pub open spec fn value_path() -> Seq<Tok> {
    seq![
        Tok::Ident("trade_meta_compiler"@),
        Tok::Punct(':', true),
        Tok::Punct(':', false),
        Tok::Ident("RuntimeValue"@),
        Tok::Punct(':', true),
        Tok::Punct(':', false),
    ]
}

/// `trade_meta_compiler :: RuntimeValue ::` in a template stands for itself.
proof fn lemma_value_path(holes: Seq<Seq<Tok>>)
    ensures
        partial("trade_meta_compiler :: RuntimeValue ::"@, holes) == (Partial {
            open: Seq::empty(),
            tokens: value_path(),
        }),
{
    reveal_strlit("trade_meta_compiler");
    reveal_strlit("::");
    reveal_strlit("RuntimeValue");
    reveal_strlit("trade_meta_compiler :: RuntimeValue ::");
    lemma_plain("trade_meta_compiler"@, "trade_meta_compiler"@, holes);
    let t0 = "trade_meta_compiler"@;
    lemma_puncts(t0, "::"@, holes);
    let t1 = t0.push(' ') + "::"@;
    lemma_plain(t1, "RuntimeValue"@, holes);
    let t2 = t1.push(' ') + "RuntimeValue"@;
    lemma_puncts(t2, "::"@, holes);
    let t3 = t2.push(' ') + "::"@;
    assert("trade_meta_compiler :: RuntimeValue ::"@ =~= t3);
    assert(partial(t3, holes).tokens =~= value_path());
}

/// `trade_meta_compiler :: RuntimeValue :: Name ( #a`
spec fn opened(name: Seq<char>) -> Seq<char> {
    let named = "trade_meta_compiler :: RuntimeValue ::"@.push(' ') + name;
    (named.push(' ') + "("@).push(' ') + "#a"@
}

/// A template that begins with the constructor of a runtime value stands for more than what it is
/// filled with.
proof fn lemma_constructor(name: Seq<char>, template: Seq<char>, holes: Seq<Seq<Tok>>)
    requires
        is_plain_word(name),
        holes.len() >= 1,
        template.len() > opened(name).len(),
        template.take(opened(name).len() as int + 1) == opened(name).push(' '),
    ensures
        value_path().is_prefix_of(rendered(template, holes)),
        weight(rendered(template, holes)) > weight(holes[0]),
{
    let path = "trade_meta_compiler :: RuntimeValue ::"@;
    lemma_value_path(holes);
    lemma_plain(path, name, holes);
    let named = path.push(' ') + name;
    reveal_strlit("(");
    assert("("@ =~= seq!['(']);
    lemma_open(named, "("@, holes, Delim::Parenthesis);
    let bracket = named.push(' ') + "("@;
    reveal_strlit("#a");
    lemma_hole(bracket, "#a"@, holes, 0);
    let text = opened(name);
    let more = template.skip(text.len() as int + 1);
    assert(template =~= text.push(' ') + more);
    lemma_rendered_grows(text, more, holes);
    let p = partial(text, holes);
    assert(p.tokens =~= holes[0]);
    assert(p.open =~= seq![(Delim::Parenthesis, value_path().push(Tok::Ident(name)))]);
    reveal_with_fuel(open_load, 2);
    assert(load(p) >= weight(holes[0]) + 1);
    assert(outermost(p) == value_path().push(Tok::Ident(name)));
}

/// The template for `RuntimeValue::Price` begins with the constructor.
proof fn lemma_wrap_price(value: Seq<Tok>)
    ensures
        value_path().is_prefix_of(rendered(WRAP_PRICE@, seq![value])),
        weight(rendered(WRAP_PRICE@, seq![value])) > weight(value),
{
    reveal_strlit("trade_meta_compiler :: RuntimeValue ::");
    reveal_strlit("Price");
    reveal_strlit("(");
    reveal_strlit("#a");
    reveal_strlit(
        "trade_meta_compiler :: RuntimeValue :: Price ( #a )",
    );
    let text = opened("Price"@);
    assert(WRAP_PRICE@.take(text.len() as int + 1) =~= text.push(' '));
    lemma_constructor("Price"@, WRAP_PRICE@, seq![value]);
}

/// The template for `RuntimeValue::Amount` begins with the constructor.
proof fn lemma_wrap_amount(value: Seq<Tok>)
    ensures
        value_path().is_prefix_of(rendered(WRAP_AMOUNT@, seq![value])),
        weight(rendered(WRAP_AMOUNT@, seq![value])) > weight(value),
{
    reveal_strlit("trade_meta_compiler :: RuntimeValue ::");
    reveal_strlit("Amount");
    reveal_strlit("(");
    reveal_strlit("#a");
    reveal_strlit(
        "trade_meta_compiler :: RuntimeValue :: Amount ( #a , :: std :: string :: String :: new ( ) )",
    );
    let text = opened("Amount"@);
    assert(WRAP_AMOUNT@.take(text.len() as int + 1) =~= text.push(' '));
    lemma_constructor("Amount"@, WRAP_AMOUNT@, seq![value]);
}

/// The template for `RuntimeValue::Duration` begins with the constructor.
proof fn lemma_wrap_duration(value: Seq<Tok>)
    ensures
        value_path().is_prefix_of(rendered(WRAP_DURATION@, seq![value])),
        weight(rendered(WRAP_DURATION@, seq![value])) > weight(value),
{
    reveal_strlit("trade_meta_compiler :: RuntimeValue ::");
    reveal_strlit("Duration");
    reveal_strlit("(");
    reveal_strlit("#a");
    reveal_strlit(
        "trade_meta_compiler :: RuntimeValue :: Duration ( #a as f64 )",
    );
    let text = opened("Duration"@);
    assert(WRAP_DURATION@.take(text.len() as int + 1) =~= text.push(' '));
    lemma_constructor("Duration"@, WRAP_DURATION@, seq![value]);
}

/// The template for `RuntimeValue::TimePoint` begins with the constructor.
proof fn lemma_wrap_time_point(value: Seq<Tok>)
    ensures
        value_path().is_prefix_of(rendered(WRAP_TIME_POINT@, seq![value])),
        weight(rendered(WRAP_TIME_POINT@, seq![value])) > weight(value),
{
    reveal_strlit("trade_meta_compiler :: RuntimeValue ::");
    reveal_strlit("TimePoint");
    reveal_strlit("(");
    reveal_strlit("#a");
    reveal_strlit(
        "trade_meta_compiler :: RuntimeValue :: TimePoint ( #a )",
    );
    let text = opened("TimePoint"@);
    assert(WRAP_TIME_POINT@.take(text.len() as int + 1) =~= text.push(' '));
    lemma_constructor("TimePoint"@, WRAP_TIME_POINT@, seq![value]);
}

/// The template for `RuntimeValue::Percent` begins with the constructor.
proof fn lemma_wrap_percent(value: Seq<Tok>)
    ensures
        value_path().is_prefix_of(rendered(WRAP_PERCENT@, seq![value])),
        weight(rendered(WRAP_PERCENT@, seq![value])) > weight(value),
{
    reveal_strlit("trade_meta_compiler :: RuntimeValue ::");
    reveal_strlit("Percent");
    reveal_strlit("(");
    reveal_strlit("#a");
    reveal_strlit(
        "trade_meta_compiler :: RuntimeValue :: Percent ( #a )",
    );
    let text = opened("Percent"@);
    assert(WRAP_PERCENT@.take(text.len() as int + 1) =~= text.push(' '));
    lemma_constructor("Percent"@, WRAP_PERCENT@, seq![value]);
}

/// The template for `RuntimeValue::Count` begins with the constructor.
proof fn lemma_wrap_count(value: Seq<Tok>)
    ensures
        value_path().is_prefix_of(rendered(WRAP_COUNT@, seq![value])),
        weight(rendered(WRAP_COUNT@, seq![value])) > weight(value),
{
    reveal_strlit("trade_meta_compiler :: RuntimeValue ::");
    reveal_strlit("Count");
    reveal_strlit("(");
    reveal_strlit("#a");
    reveal_strlit(
        "trade_meta_compiler :: RuntimeValue :: Count ( #a )",
    );
    let text = opened("Count"@);
    assert(WRAP_COUNT@.take(text.len() as int + 1) =~= text.push(' '));
    lemma_constructor("Count"@, WRAP_COUNT@, seq![value]);
}

/// The template for `RuntimeValue::Number` begins with the constructor.
proof fn lemma_wrap_number(value: Seq<Tok>)
    ensures
        value_path().is_prefix_of(rendered(WRAP_NUMBER@, seq![value])),
        weight(rendered(WRAP_NUMBER@, seq![value])) > weight(value),
{
    reveal_strlit("trade_meta_compiler :: RuntimeValue ::");
    reveal_strlit("Number");
    reveal_strlit("(");
    reveal_strlit("#a");
    reveal_strlit(
        "trade_meta_compiler :: RuntimeValue :: Number ( #a )",
    );
    let text = opened("Number"@);
    assert(WRAP_NUMBER@.take(text.len() as int + 1) =~= text.push(' '));
    lemma_constructor("Number"@, WRAP_NUMBER@, seq![value]);
}

/// The template for `RuntimeValue::Str` begins with the constructor.
proof fn lemma_wrap_string(value: Seq<Tok>)
    ensures
        value_path().is_prefix_of(rendered(WRAP_STRING@, seq![value])),
        weight(rendered(WRAP_STRING@, seq![value])) > weight(value),
{
    reveal_strlit("trade_meta_compiler :: RuntimeValue ::");
    reveal_strlit("Str");
    reveal_strlit("(");
    reveal_strlit("#a");
    reveal_strlit(
        "trade_meta_compiler :: RuntimeValue :: Str ( #a )",
    );
    let text = opened("Str"@);
    assert(WRAP_STRING@.take(text.len() as int + 1) =~= text.push(' '));
    lemma_constructor("Str"@, WRAP_STRING@, seq![value]);
}

/// The template for `RuntimeValue::Bool` begins with the constructor.
proof fn lemma_wrap_bool(value: Seq<Tok>)
    ensures
        value_path().is_prefix_of(rendered(WRAP_BOOL@, seq![value])),
        weight(rendered(WRAP_BOOL@, seq![value])) > weight(value),
{
    reveal_strlit("trade_meta_compiler :: RuntimeValue ::");
    reveal_strlit("Bool");
    reveal_strlit("(");
    reveal_strlit("#a");
    reveal_strlit(
        "trade_meta_compiler :: RuntimeValue :: Bool ( #a )",
    );
    let text = opened("Bool"@);
    assert(WRAP_BOOL@.take(text.len() as int + 1) =~= text.push(' '));
    lemma_constructor("Bool"@, WRAP_BOOL@, seq![value]);
}

/// The template for `RuntimeValue::List` begins with the constructor.
proof fn lemma_wrap_list(value: Seq<Tok>, item: Seq<Tok>)
    ensures
        value_path().is_prefix_of(rendered(WRAP_LIST@, seq![value, item])),
        weight(rendered(WRAP_LIST@, seq![value, item])) > weight(value),
{
    reveal_strlit("trade_meta_compiler :: RuntimeValue ::");
    reveal_strlit("List");
    reveal_strlit("(");
    reveal_strlit("#a");
    reveal_strlit(
        "trade_meta_compiler :: RuntimeValue :: List ( #a . into_iter ( ) . map ( | __item | #b ) . collect ( ) )",
    );
    let text = opened("List"@);
    assert(WRAP_LIST@.take(text.len() as int + 1) =~= text.push(' '));
    lemma_constructor("List"@, WRAP_LIST@, seq![value, item]);
}

/// The template for `RuntimeValue::Tuple` begins with the constructor.
proof fn lemma_wrap_tuple(fields: Seq<Tok>)
    ensures
        value_path().is_prefix_of(rendered(WRAP_TUPLE@, seq![fields])),
        weight(rendered(WRAP_TUPLE@, seq![fields])) > weight(fields),
{
    reveal_strlit("trade_meta_compiler :: RuntimeValue ::");
    reveal_strlit("Tuple");
    reveal_strlit("(");
    reveal_strlit("vec");
    reveal_strlit("!");
    reveal_strlit("[");
    reveal_strlit("#a");
    reveal_strlit("] )");
    reveal_strlit("trade_meta_compiler :: RuntimeValue :: Tuple ( vec ! [ #a ] )");
    let holes = seq![fields];
    let t0 = "trade_meta_compiler :: RuntimeValue ::"@;
    lemma_value_path(holes);
    lemma_plain(t0, "Tuple"@, holes);
    let t1 = t0.push(' ') + "Tuple"@;
    assert("("@ =~= seq!['(']);
    lemma_open(t1, "("@, holes, Delim::Parenthesis);
    let t2 = t1.push(' ') + "("@;
    lemma_plain(t2, "vec"@, holes);
    let t3 = t2.push(' ') + "vec"@;
    lemma_punct(t3, "!"@, holes);
    let t4 = t3.push(' ') + "!"@;
    assert("["@ =~= seq!['[']);
    assert(seq!['('][0] == '(' && seq!['{'][0] == '{');
    lemma_open(t4, "["@, holes, Delim::Bracket);
    let t5 = t4.push(' ') + "["@;
    lemma_hole(t5, "#a"@, holes, 0);
    let t6 = t5.push(' ') + "#a"@;
    assert(WRAP_TUPLE@ =~= t6.push(' ') + "] )"@);
    lemma_rendered_grows(t6, "] )"@, holes);
    let p = partial(t6, holes);
    assert(p.tokens =~= fields);
    assert(p.open.len() == 2);
    assert(open_load(p.open) >= 1);
    assert(p.open[0].1 == value_path().push(Tok::Ident("Tuple"@)));
}

/// A field of a tuple weighs more than the tuple.
proof fn lemma_field_weighs(value: Seq<Tok>, place: nat)
    ensures
        weight(tuple_field(value, place)) >= weight(value),
{
    reveal_strlit("#a");
    reveal_strlit(". #b");
    reveal_strlit("#a . #b");
    let holes = seq![value, seq![Tok::Lit(decimal(place))]];
    lemma_hole("#a"@, "#a"@, holes, 0);
    assert(TUPLE_FIELD@ =~= "#a"@.push(' ') + ". #b"@);
    lemma_rendered_grows("#a"@, ". #b"@, holes);
}

/// A list weighs as much as each of its pieces.
proof fn lemma_piece_weighs(pieces: Seq<Seq<Tok>>, k: int)
    requires
        0 <= k < pieces.len(),
    ensures
        weight(separated(pieces)) >= weight(pieces[k]),
    decreases pieces.len(),
{
    if pieces.len() > 1 {
        let before = separated(pieces.drop_last());
        let comma = seq![Tok::Punct(',', false)];
        assert(before.push(Tok::Punct(',', false)) =~= before + comma);
        lemma_weight_concat(before, comma);
        lemma_weight_concat(before + comma, pieces.last());
        if k < pieces.len() - 1 {
            lemma_piece_weighs(pieces.drop_last(), k);
            assert(pieces.drop_last()[k] == pieces[k]);
        }
    }
}

/// Whether the runtime value made of a value of the type says nothing of the value: a tuple of such
/// types, the empty tuple among them.
pub open spec fn is_hollow(ty: DslType) -> bool
    decreases ty,
{
    match ty {
        DslType::Tuple(elems) => forall|i: int|
            0 <= i < elems.len() ==> is_hollow(#[trigger] elems[i]),
        _ => false,
    }
}

/// The runtime value made of a value of a hollow type is always the same.
proof fn lemma_hollow_is_constant(ty: DslType, first: Seq<Tok>, second: Seq<Tok>)
    requires
        is_hollow(ty),
    ensures
        wrapping(ty, first) == wrapping(ty, second),
    decreases ty,
{
    if let DslType::Tuple(elems) = ty {
        assert forall|i: int| 0 <= i < elems.len() implies field_wrappings(elems, first)[i]
            == field_wrappings(elems, second)[i] by {
            assert(decreases_to!(ty => elems));
            assert(decreases_to!(elems => elems[i]));
            lemma_hollow_is_constant(
                elems[i],
                tuple_field(first, i as nat),
                tuple_field(second, i as nat),
            );
        }
        assert(field_wrappings(elems, first) =~= field_wrappings(elems, second));
    }
}

/// What is made of a value begins with a constructor, unless the value is a runtime value.
proof fn lemma_wrapping_constructs(ty: DslType, value: Seq<Tok>)
    requires
        !is_runtime_value(ty),
    ensures
        value_path().is_prefix_of(wrapping(ty, value)),
        ty !is Tuple ==> weight(wrapping(ty, value)) > weight(value),
{
    match ty {
        DslType::Price => {
            lemma_wrap_price(value);
        },
        DslType::Amount => {
            lemma_wrap_amount(value);
        },
        DslType::Duration => {
            lemma_wrap_duration(value);
        },
        DslType::TimePoint => {
            lemma_wrap_time_point(value);
        },
        DslType::Percent => {
            lemma_wrap_percent(value);
        },
        DslType::Count => {
            lemma_wrap_count(value);
        },
        DslType::Number => {
            lemma_wrap_number(value);
        },
        DslType::StringTy | DslType::Address => {
            lemma_wrap_string(value);
        },
        DslType::Bool => {
            lemma_wrap_bool(value);
        },
        DslType::List(elem) => {
            lemma_wrap_list(value, wrapping(*elem, rendered(ITEM@, seq![])));
        },
        DslType::Tuple(elems) => {
            lemma_wrap_tuple(separated(field_wrappings(elems, value)));
        },
        _ => {},
    }
}

/// What is made of a value weighs as much as it does, and more where the value is no runtime value;
/// but for hollow types.
proof fn lemma_wrapping_weighs(ty: DslType, value: Seq<Tok>)
    requires
        !is_hollow(ty),
    ensures
        weight(wrapping(ty, value)) >= weight(value),
        !is_runtime_value(ty) ==> weight(wrapping(ty, value)) > weight(value),
    decreases ty,
{
    if !is_runtime_value(ty) {
        lemma_wrapping_constructs(ty, value);
    }
    if let DslType::Tuple(elems) = ty {
        let fields = field_wrappings(elems, value);
        let k = choose|k: int| 0 <= k < elems.len() && !is_hollow(#[trigger] elems[k]);
        assert(decreases_to!(ty => elems));
        assert(decreases_to!(elems => elems[k]));
        lemma_wrapping_weighs(elems[k], tuple_field(value, k as nat));
        lemma_field_weighs(value, k as nat);
        lemma_piece_weighs(fields, k);
        lemma_wrap_tuple(separated(fields));
    }
}

/// A value is handed back as it is exactly where its type is one whose values are runtime values; a
/// value of another type is handed to a constructor of runtime values. Left out is the one value
/// that a hollow type makes of every value: it is made of itself, too.
pub proof fn law_wrapping_keeps_runtime_values(ty: DslType, value: Seq<Tok>)
    requires
        !(is_hollow(ty) && value == wrapping(ty, Seq::empty())),
    ensures
        wrapping(ty, value) == value <==> is_runtime_value(ty),
        !is_runtime_value(ty) ==> value_path().is_prefix_of(wrapping(ty, value)),
{
    if !is_runtime_value(ty) {
        lemma_wrapping_constructs(ty, value);
        if is_hollow(ty) {
            lemma_hollow_is_constant(ty, value, Seq::empty());
        } else {
            lemma_wrapping_weighs(ty, value);
        }
    }
}

// ---------------------------------------------------------------------------------------------
// Descriptions of types
// ---------------------------------------------------------------------------------------------
/// `trade_meta_compiler :: TypeSpec ::`
pub open spec fn spec_path() -> Seq<Tok> {
    seq![
        Tok::Ident("trade_meta_compiler"@),
        Tok::Punct(':', true),
        Tok::Punct(':', false),
        Tok::Ident("TypeSpec"@),
        Tok::Punct(':', true),
        Tok::Punct(':', false),
    ]
}

/// `trade_meta_compiler :: TypeSpec ::` in a template stands for itself.
proof fn lemma_spec_path(holes: Seq<Seq<Tok>>)
    ensures
        partial("trade_meta_compiler :: TypeSpec ::"@, holes) == (Partial {
            open: Seq::empty(),
            tokens: spec_path(),
        }),
{
    reveal_strlit("trade_meta_compiler");
    reveal_strlit("::");
    reveal_strlit("TypeSpec");
    reveal_strlit("trade_meta_compiler :: TypeSpec ::");
    lemma_plain("trade_meta_compiler"@, "trade_meta_compiler"@, holes);
    let t0 = "trade_meta_compiler"@;
    lemma_puncts(t0, "::"@, holes);
    let t1 = t0.push(' ') + "::"@;
    lemma_plain(t1, "TypeSpec"@, holes);
    let t2 = t1.push(' ') + "TypeSpec"@;
    lemma_puncts(t2, "::"@, holes);
    let t3 = t2.push(' ') + "::"@;
    assert("trade_meta_compiler :: TypeSpec ::"@ =~= t3);
    assert(partial(t3, holes).tokens =~= spec_path());
}

/// The path and a word stand for themselves.
proof fn lemma_spec_word(word: Seq<char>)
    requires
        is_plain_word(word),
    ensures
        rendered("trade_meta_compiler :: TypeSpec ::"@.push(' ') + word, seq![])
            == spec_path().push(Tok::Ident(word)),
{
    let holes = Seq::<Seq<Tok>>::empty();
    lemma_spec_path(holes);
    lemma_plain("trade_meta_compiler :: TypeSpec ::"@, word, holes);
    let text = "trade_meta_compiler :: TypeSpec ::"@.push(' ') + word;
    assert(partial(text, holes).open =~= Seq::empty());
}

/// `trade_meta_compiler :: TypeSpec :: Price`
proof fn lemma_spec_price()
    ensures
        rendered(SPEC_PRICE@, seq![]) == spec_path().push(Tok::Ident("Price"@)),
{
    reveal_strlit("trade_meta_compiler :: TypeSpec ::");
    reveal_strlit("Price");
    reveal_strlit("trade_meta_compiler :: TypeSpec :: Price");
    assert(SPEC_PRICE@ =~= "trade_meta_compiler :: TypeSpec ::"@.push(' ') + "Price"@);
    lemma_spec_word("Price"@);
}

/// `trade_meta_compiler :: TypeSpec :: Amount`
proof fn lemma_spec_amount()
    ensures
        rendered(SPEC_AMOUNT@, seq![]) == spec_path().push(Tok::Ident("Amount"@)),
{
    reveal_strlit("trade_meta_compiler :: TypeSpec ::");
    reveal_strlit("Amount");
    reveal_strlit("trade_meta_compiler :: TypeSpec :: Amount");
    assert(SPEC_AMOUNT@ =~= "trade_meta_compiler :: TypeSpec ::"@.push(' ') + "Amount"@);
    lemma_spec_word("Amount"@);
}

/// `trade_meta_compiler :: TypeSpec :: Duration`
proof fn lemma_spec_duration()
    ensures
        rendered(SPEC_DURATION@, seq![]) == spec_path().push(Tok::Ident("Duration"@)),
{
    reveal_strlit("trade_meta_compiler :: TypeSpec ::");
    reveal_strlit("Duration");
    reveal_strlit("trade_meta_compiler :: TypeSpec :: Duration");
    assert(SPEC_DURATION@ =~= "trade_meta_compiler :: TypeSpec ::"@.push(' ') + "Duration"@);
    lemma_spec_word("Duration"@);
}

/// `trade_meta_compiler :: TypeSpec :: TimePoint`
proof fn lemma_spec_time_point()
    ensures
        rendered(SPEC_TIMEPOINT@, seq![]) == spec_path().push(Tok::Ident("TimePoint"@)),
{
    reveal_strlit("trade_meta_compiler :: TypeSpec ::");
    reveal_strlit("TimePoint");
    reveal_strlit("trade_meta_compiler :: TypeSpec :: TimePoint");
    assert(SPEC_TIMEPOINT@ =~= "trade_meta_compiler :: TypeSpec ::"@.push(' ') + "TimePoint"@);
    lemma_spec_word("TimePoint"@);
}

/// `trade_meta_compiler :: TypeSpec :: Percent`
proof fn lemma_spec_percent()
    ensures
        rendered(SPEC_PERCENT@, seq![]) == spec_path().push(Tok::Ident("Percent"@)),
{
    reveal_strlit("trade_meta_compiler :: TypeSpec ::");
    reveal_strlit("Percent");
    reveal_strlit("trade_meta_compiler :: TypeSpec :: Percent");
    assert(SPEC_PERCENT@ =~= "trade_meta_compiler :: TypeSpec ::"@.push(' ') + "Percent"@);
    lemma_spec_word("Percent"@);
}

/// `trade_meta_compiler :: TypeSpec :: Count`
proof fn lemma_spec_count()
    ensures
        rendered(SPEC_COUNT@, seq![]) == spec_path().push(Tok::Ident("Count"@)),
{
    reveal_strlit("trade_meta_compiler :: TypeSpec ::");
    reveal_strlit("Count");
    reveal_strlit("trade_meta_compiler :: TypeSpec :: Count");
    assert(SPEC_COUNT@ =~= "trade_meta_compiler :: TypeSpec ::"@.push(' ') + "Count"@);
    lemma_spec_word("Count"@);
}

/// `trade_meta_compiler :: TypeSpec :: Number`
proof fn lemma_spec_number()
    ensures
        rendered(SPEC_NUMBER@, seq![]) == spec_path().push(Tok::Ident("Number"@)),
{
    reveal_strlit("trade_meta_compiler :: TypeSpec ::");
    reveal_strlit("Number");
    reveal_strlit("trade_meta_compiler :: TypeSpec :: Number");
    assert(SPEC_NUMBER@ =~= "trade_meta_compiler :: TypeSpec ::"@.push(' ') + "Number"@);
    lemma_spec_word("Number"@);
}

/// `trade_meta_compiler :: TypeSpec :: String`
proof fn lemma_spec_string()
    ensures
        rendered(SPEC_STRING@, seq![]) == spec_path().push(Tok::Ident("String"@)),
{
    reveal_strlit("trade_meta_compiler :: TypeSpec ::");
    reveal_strlit("String");
    reveal_strlit("trade_meta_compiler :: TypeSpec :: String");
    assert(SPEC_STRING@ =~= "trade_meta_compiler :: TypeSpec ::"@.push(' ') + "String"@);
    lemma_spec_word("String"@);
}

/// `trade_meta_compiler :: TypeSpec :: Bool`
proof fn lemma_spec_bool()
    ensures
        rendered(SPEC_BOOL@, seq![]) == spec_path().push(Tok::Ident("Bool"@)),
{
    reveal_strlit("trade_meta_compiler :: TypeSpec ::");
    reveal_strlit("Bool");
    reveal_strlit("trade_meta_compiler :: TypeSpec :: Bool");
    assert(SPEC_BOOL@ =~= "trade_meta_compiler :: TypeSpec ::"@.push(' ') + "Bool"@);
    lemma_spec_word("Bool"@);
}

/// `trade_meta_compiler :: TypeSpec :: Address`
proof fn lemma_spec_address()
    ensures
        rendered(SPEC_ADDRESS@, seq![]) == spec_path().push(Tok::Ident("Address"@)),
{
    reveal_strlit("trade_meta_compiler :: TypeSpec ::");
    reveal_strlit("Address");
    reveal_strlit("trade_meta_compiler :: TypeSpec :: Address");
    assert(SPEC_ADDRESS@ =~= "trade_meta_compiler :: TypeSpec ::"@.push(' ') + "Address"@);
    lemma_spec_word("Address"@);
}

/// `trade_meta_compiler :: TypeSpec :: Any`
proof fn lemma_spec_any()
    ensures
        rendered(SPEC_ANY@, seq![]) == spec_path().push(Tok::Ident("Any"@)),
{
    reveal_strlit("trade_meta_compiler :: TypeSpec ::");
    reveal_strlit("Any");
    reveal_strlit("trade_meta_compiler :: TypeSpec :: Any");
    assert(SPEC_ANY@ =~= "trade_meta_compiler :: TypeSpec ::"@.push(' ') + "Any"@);
    lemma_spec_word("Any"@);
}

/// `trade_meta_compiler :: TypeSpec :: List ( Box :: new ( .. ) )`
proof fn lemma_spec_list(elem: Seq<Tok>)
    ensures
        rendered(SPEC_LIST@, seq![elem]) == spec_path() + seq![
            Tok::Ident("List"@),
            Tok::Group(
                Delim::Parenthesis,
                seq![
                    Tok::Ident("Box"@),
                    Tok::Punct(':', true),
                    Tok::Punct(':', false),
                    Tok::Ident("new"@),
                    Tok::Group(Delim::Parenthesis, elem),
                ],
            ),
        ],
{
    reveal_strlit("trade_meta_compiler :: TypeSpec ::");
    reveal_strlit("List");
    reveal_strlit("(");
    reveal_strlit("Box");
    reveal_strlit("::");
    reveal_strlit("new");
    reveal_strlit("#a");
    reveal_strlit(")");
    reveal_strlit("trade_meta_compiler :: TypeSpec :: List ( Box :: new ( #a ) )");
    let holes = seq![elem];
    let t0 = "trade_meta_compiler :: TypeSpec ::"@;
    lemma_spec_path(holes);
    lemma_plain(t0, "List"@, holes);
    let t1 = t0.push(' ') + "List"@;
    assert("("@ =~= seq!['(']);
    assert(")"@ =~= seq![')']);
    lemma_open(t1, "("@, holes, Delim::Parenthesis);
    let t2 = t1.push(' ') + "("@;
    lemma_plain(t2, "Box"@, holes);
    let t3 = t2.push(' ') + "Box"@;
    lemma_puncts(t3, "::"@, holes);
    let t4 = t3.push(' ') + "::"@;
    lemma_plain(t4, "new"@, holes);
    let t5 = t4.push(' ') + "new"@;
    lemma_open(t5, "("@, holes, Delim::Parenthesis);
    let t6 = t5.push(' ') + "("@;
    lemma_hole(t6, "#a"@, holes, 0);
    let t7 = t6.push(' ') + "#a"@;
    lemma_close(t7, ")"@, holes);
    let t8 = t7.push(' ') + ")"@;
    lemma_close(t8, ")"@, holes);
    let t9 = t8.push(' ') + ")"@;
    assert(SPEC_LIST@ =~= t9);
    assert(partial(t7, holes).tokens =~= elem);
    assert(partial(t8, holes).tokens =~= seq![
        Tok::Ident("Box"@),
        Tok::Punct(':', true),
        Tok::Punct(':', false),
        Tok::Ident("new"@),
        Tok::Group(Delim::Parenthesis, elem),
    ]);
    assert(partial(t9, holes).open =~= Seq::empty());
}

/// `trade_meta_compiler :: TypeSpec :: Tuple ( vec ! [ .. ] )`
proof fn lemma_spec_tuple(elems: Seq<Tok>)
    ensures
        rendered(SPEC_TUPLE@, seq![elems]) == spec_path() + seq![
            Tok::Ident("Tuple"@),
            Tok::Group(
                Delim::Parenthesis,
                seq![
                    Tok::Ident("vec"@),
                    Tok::Punct('!', false),
                    Tok::Group(Delim::Bracket, elems),
                ],
            ),
        ],
{
    reveal_strlit("trade_meta_compiler :: TypeSpec ::");
    reveal_strlit("Tuple");
    reveal_strlit("(");
    reveal_strlit("vec");
    reveal_strlit("!");
    reveal_strlit("[");
    reveal_strlit("#a");
    reveal_strlit("]");
    reveal_strlit(")");
    reveal_strlit("trade_meta_compiler :: TypeSpec :: Tuple ( vec ! [ #a ] )");
    let holes = seq![elems];
    let t0 = "trade_meta_compiler :: TypeSpec ::"@;
    lemma_spec_path(holes);
    lemma_plain(t0, "Tuple"@, holes);
    let t1 = t0.push(' ') + "Tuple"@;
    assert("("@ =~= seq!['(']);
    lemma_open(t1, "("@, holes, Delim::Parenthesis);
    let t2 = t1.push(' ') + "("@;
    lemma_plain(t2, "vec"@, holes);
    let t3 = t2.push(' ') + "vec"@;
    lemma_punct(t3, "!"@, holes);
    let t4 = t3.push(' ') + "!"@;
    assert("["@ =~= seq!['[']);
    assert(seq!['('][0] == '(' && seq!['{'][0] == '{');
    lemma_open(t4, "["@, holes, Delim::Bracket);
    let t5 = t4.push(' ') + "["@;
    lemma_hole(t5, "#a"@, holes, 0);
    let t6 = t5.push(' ') + "#a"@;
    assert("]"@ =~= seq![']']);
    lemma_close(t6, "]"@, holes);
    let t7 = t6.push(' ') + "]"@;
    assert(")"@ =~= seq![')']);
    lemma_close(t7, ")"@, holes);
    let t8 = t7.push(' ') + ")"@;
    assert(SPEC_TUPLE@ =~= t8);
    assert(partial(t6, holes).tokens =~= elems);
    assert(partial(t7, holes).tokens =~= seq![
        Tok::Ident("vec"@),
        Tok::Punct('!', false),
        Tok::Group(Delim::Bracket, elems),
    ]);
    assert(partial(t8, holes).open =~= Seq::empty());
}

/// Whether a type is none of the choices and aliases, and made of none.
pub open spec fn is_plain_type(ty: DslType) -> bool
    decreases ty,
{
    match ty {
        DslType::List(elem) => is_plain_type(*elem),
        DslType::Tuple(elems) => forall|i: int|
            0 <= i < elems.len() ==> is_plain_type(#[trigger] elems[i]),
        DslType::Union(_) | DslType::Alias(_) => false,
        _ => true,
    }
}

/// The description of a type with a name of the language's own is the path and the name.
proof fn lemma_named_description(ty: DslType)
    requires
        is_plain_type(ty),
        ty !is List,
        ty !is Tuple,
    ensures
        type_spec_of(ty) == spec_path().push(Tok::Ident(name_of_type(ty))),
{
    match ty {
        DslType::Price => {
            lemma_spec_price();
        },
        DslType::Amount => {
            lemma_spec_amount();
        },
        DslType::Duration => {
            lemma_spec_duration();
        },
        DslType::TimePoint => {
            lemma_spec_time_point();
        },
        DslType::Percent => {
            lemma_spec_percent();
        },
        DslType::Count => {
            lemma_spec_count();
        },
        DslType::Number => {
            lemma_spec_number();
        },
        DslType::StringTy => {
            lemma_spec_string();
        },
        DslType::Bool => {
            lemma_spec_bool();
        },
        DslType::Address => {
            lemma_spec_address();
        },
        DslType::Any => {
            lemma_spec_any();
        },
        _ => {},
    }
}

/// A description is not empty, and holds no comma outside of brackets.
proof fn lemma_description_without_comma(ty: DslType)
    requires
        is_plain_type(ty),
    ensures
        type_spec_of(ty).len() > 0,
        forall|i: int|
            0 <= i < type_spec_of(ty).len() ==> #[trigger] type_spec_of(ty)[i] != Tok::Punct(
                ',',
                false,
            ),
{
    match ty {
        DslType::List(elem) => {
            lemma_spec_list(type_spec_of(*elem));
        },
        DslType::Tuple(elems) => {
            lemma_spec_tuple(separated(type_specs_of(elems)));
        },
        _ => {
            lemma_named_description(ty);
        },
    }
}

/// Pieces that are not empty and hold no comma outside of brackets.
spec fn are_comma_free(pieces: Seq<Seq<Tok>>) -> bool {
    forall|k: int|
        0 <= k < pieces.len() ==> (#[trigger] pieces[k]).len() > 0 && forall|i: int|
            0 <= i < pieces[k].len() ==> #[trigger] pieces[k][i] != Tok::Punct(',', false)
}

/// A list of pieces without commas tells the pieces.
proof fn lemma_separated_tells(first: Seq<Seq<Tok>>, second: Seq<Seq<Tok>>)
    requires
        are_comma_free(first),
        are_comma_free(second),
        separated(first) == separated(second),
    ensures
        first == second,
    decreases first.len(),
{
    let comma = Tok::Punct(',', false);
    lemma_separated_some(first);
    lemma_separated_some(second);
    if first.len() == 0 || second.len() == 0 {
        assert(first =~= second);
    } else if first.len() == 1 && second.len() == 1 {
        assert(first =~= second);
    } else if first.len() == 1 {
        lemma_has_comma(second);
        let i = separated(second.drop_last()).len() as int;
        assert(first[0][i] == comma);
    } else if second.len() == 1 {
        lemma_has_comma(first);
        let i = separated(first.drop_last()).len() as int;
        assert(second[0][i] == comma);
    } else {
        let a = separated(first.drop_last());
        let b = separated(second.drop_last());
        let p = first.last();
        let q = second.last();
        let all = separated(first);
        assert(all =~= a.push(comma) + p);
        assert(all =~= b.push(comma) + q);
        if p.len() < q.len() {
            let i = a.len() as int;
            assert(all[i] == comma);
            assert(all[i] == q[i - b.len() - 1]);
        }
        if q.len() < p.len() {
            let i = b.len() as int;
            assert(all[i] == comma);
            assert(all[i] == p[i - a.len() - 1]);
        }
        assert(a.len() == b.len());
        assert forall|i: int| 0 <= i < a.len() implies a[i] == b[i] by {
            assert(all[i] == a[i]);
            assert(all[i] == b[i]);
        }
        assert(a =~= b);
        assert forall|i: int| 0 <= i < p.len() implies p[i] == q[i] by {
            assert(all[a.len() + 1 + i] == p[i]);
            assert(all[b.len() + 1 + i] == q[i]);
        }
        assert(p =~= q);
        lemma_separated_tells(first.drop_last(), second.drop_last());
        assert(first =~= first.drop_last().push(p));
        assert(second =~= second.drop_last().push(q));
    }
}

/// A list is empty exactly where there are no pieces, or the pieces are empty.
proof fn lemma_separated_some(pieces: Seq<Seq<Tok>>)
    requires
        are_comma_free(pieces),
    ensures
        separated(pieces).len() == 0 <==> pieces.len() == 0,
{
    if pieces.len() == 1 {
        assert(pieces[0].len() > 0);
    }
}

/// A list of two or more pieces holds a comma before its last piece.
proof fn lemma_has_comma(pieces: Seq<Seq<Tok>>)
    requires
        pieces.len() >= 2,
    ensures
        separated(pieces.drop_last()).len() < separated(pieces).len(),
        separated(pieces)[separated(pieces.drop_last()).len() as int] == Tok::Punct(',', false),
{
}

/// Of types without choice or alias, two are described alike only where they are the same.
pub proof fn law_descriptions_tell_types(a: DslType, b: DslType)
    requires
        is_plain_type(a),
        is_plain_type(b),
    ensures
        type_spec_of(a) == type_spec_of(b) <==> a == b,
    decreases a,
{
    if type_spec_of(a) == type_spec_of(b) {
        lemma_description_shape(a);
        lemma_description_shape(b);
        let same = type_spec_of(a);
        match a {
            DslType::List(x) => {
                lemma_spec_list(type_spec_of(*x));
                if let DslType::List(y) = b {
                    lemma_spec_list(type_spec_of(*y));
                    assert(same[7]->Group_1[4]->Group_1 == type_spec_of(*x));
                    assert(same[7]->Group_1[4]->Group_1 == type_spec_of(*y));
                    law_descriptions_tell_types(*x, *y);
                }
            },
            DslType::Tuple(xs) => {
                lemma_spec_tuple(separated(type_specs_of(xs)));
                if let DslType::Tuple(ys) = b {
                    lemma_spec_tuple(separated(type_specs_of(ys)));
                    assert(same[7]->Group_1[2]->Group_1 == separated(type_specs_of(xs)));
                    assert(same[7]->Group_1[2]->Group_1 == separated(type_specs_of(ys)));
                    lemma_descriptions_comma_free(xs);
                    lemma_descriptions_comma_free(ys);
                    lemma_separated_tells(type_specs_of(xs), type_specs_of(ys));
                    assert(type_specs_of(xs).len() == xs.len());
                    assert(type_specs_of(ys).len() == ys.len());
                    assert forall|i: int| 0 <= i < xs.len() implies xs[i] == ys[i] by {
                        assert(type_specs_of(xs)[i] == type_spec_of(xs[i]));
                        assert(type_specs_of(ys)[i] == type_spec_of(ys[i]));
                        assert(decreases_to!(a => xs));
                        assert(decreases_to!(xs => xs[i]));
                        law_descriptions_tell_types(xs[i], ys[i]);
                    }
                    assert(xs =~= ys);
                }
            },
            _ => {
                if b !is List && b !is Tuple {
                    lemma_named_description(a);
                    lemma_named_description(b);
                    assert(same[6] == Tok::Ident(name_of_type(a)));
                    assert(same[6] == Tok::Ident(name_of_type(b)));
                    lemma_named(a);
                    lemma_named(b);
                }
            },
        }
    }
}

/// The descriptions of several types are not empty, and hold no comma outside of brackets.
proof fn lemma_descriptions_comma_free(types: Seq<DslType>)
    requires
        forall|i: int| 0 <= i < types.len() ==> is_plain_type(#[trigger] types[i]),
    ensures
        are_comma_free(type_specs_of(types)),
{
    assert forall|k: int| 0 <= k < types.len() implies (#[trigger] type_specs_of(types)[k]).len()
        > 0 && forall|i: int|
        0 <= i < type_specs_of(types)[k].len() ==> #[trigger] type_specs_of(types)[k][i]
            != Tok::Punct(',', false) by {
        lemma_description_without_comma(types[k]);
    }
}

/// Names, lists and tuples are told apart by their descriptions.
proof fn lemma_description_shape(ty: DslType)
    requires
        is_plain_type(ty),
    ensures
        type_spec_of(ty).len() == (if ty is List || ty is Tuple {
            8nat
        } else {
            7
        }),
        ty is List ==> type_spec_of(ty)[6]->Ident_0.len() == 4,
        ty is Tuple ==> type_spec_of(ty)[6]->Ident_0.len() == 5,
{
    match ty {
        DslType::List(elem) => {
            reveal_strlit("List");
            lemma_spec_list(type_spec_of(*elem));
        },
        DslType::Tuple(elems) => {
            reveal_strlit("Tuple");
            lemma_spec_tuple(separated(type_specs_of(elems)));
        },
        _ => {
            lemma_named_description(ty);
        },
    }
}

} // verus!
