//! The code that stands for a type, with its tokens written out, and what holds between its forms.
use vstd::prelude::*;

use crate::phrase::{mark, one, path, path_of_three, round, vec_of};
use crate::spelled::{
    spell_extract_bool, spell_extract_duration, spell_extract_float, spell_extract_list,
    spell_extract_string, spell_extract_tuple, spell_extract_value, spell_item,
    spell_lent_tuple_item, spell_rust_bool, spell_rust_duration, spell_rust_float, spell_rust_list,
    spell_rust_string, spell_rust_tuple, spell_rust_value, spell_spec_address, spell_spec_amount,
    spell_spec_any, spell_spec_bool, spell_spec_count, spell_spec_duration, spell_spec_list,
    spell_spec_number, spell_spec_percent, spell_spec_price, spell_spec_string,
    spell_spec_timepoint, spell_spec_tuple, spell_tuple_field, spell_tuple_item, spell_wrap_amount,
    spell_wrap_bool, spell_wrap_count, spell_wrap_duration, spell_wrap_list, spell_wrap_number,
    spell_wrap_percent, spell_wrap_price, spell_wrap_string, spell_wrap_time_point,
    spell_wrap_tuple, string_type, value_type,
};
use crate::template::{rendered, separated};
use crate::token::{decimal, Delim, Tok};
use crate::trade_type::{
    extraction, field_wrappings, is_runtime_value, item_extractions, models, rust_type_of,
    rust_types_of, tuple_field, type_spec_of, type_specs_of, wrapping, DslType, TradeType,
    LENT_TUPLE_ITEM, TUPLE_ITEM,
};

verus! {

/// The sequence ends in the given one.
pub open spec fn ends_in(tokens: Seq<Tok>, tail: Seq<Tok>) -> bool {
    tokens.len() >= tail.len() && tokens.skip(tokens.len() - tail.len()) == tail
}

/// `:: std :: string :: String`
pub open spec fn string_written() -> Seq<Tok> {
    seq![Tok::Punct(':', true), Tok::Punct(':', false)] + path_of_three(
        "std"@,
        "string"@,
        "String"@,
    )
}

/// A number, an amount of time in seconds, a text, a truth value and a list each have a type of
/// Rust; a tuple has the tuple of those of its types, in order; and all else is a runtime value.
pub proof fn law_rust_type_written(ty: DslType)
    ensures
        rust_type_of(ty) == (match ty {
            DslType::Price
            | DslType::Amount
            | DslType::Percent
            | DslType::Count
            | DslType::Number
            | DslType::TimePoint => one("f64"@),
            DslType::Duration => one("u64"@),
            DslType::StringTy | DslType::Address => string_written(),
            DslType::Bool => one("bool"@),
            DslType::List(elem) => seq![Tok::Punct(':', true), Tok::Punct(':', false)]
                + path_of_three("std"@, "vec"@, "Vec"@) + mark('<') + rust_type_of(*elem) + mark('>'),
            DslType::Tuple(elems) => round(
                separated(Seq::new(elems.len(), |i: int| rust_type_of(elems[i]))),
            ),
            _ => path("trade_meta_compiler"@, "RuntimeValue"@),
        }),
{
    spell_rust_float();
    spell_rust_duration();
    spell_rust_string();
    spell_rust_bool();
    spell_rust_value();
    match ty {
        DslType::StringTy | DslType::Address => {
            assert(rust_type_of(ty) =~= string_written());
        },
        DslType::List(elem) => {
            spell_rust_list(rust_type_of(*elem));
            assert(rust_type_of(ty) =~= seq![Tok::Punct(':', true), Tok::Punct(':', false)]
                + path_of_three("std"@, "vec"@, "Vec"@) + mark('<') + rust_type_of(*elem) + mark(
                '>',
            ));
        },
        DslType::Tuple(elems) => {
            spell_rust_tuple(separated(rust_types_of(elems)));
            assert(rust_types_of(elems) =~= Seq::new(elems.len(), |i: int| rust_type_of(elems[i])));
        },
        DslType::Any | DslType::Union(_) | DslType::Alias(_) => {
            assert(rust_type_of(ty) =~= path("trade_meta_compiler"@, "RuntimeValue"@));
        },
        _ => {},
    }
}

/// A type is described by the variant of its own name; a list by the boxed description of its
/// type; a tuple by those of its types, in order; and a choice or an alias as any type.
pub proof fn law_description_written(ty: DslType)
    ensures
        type_spec_of(ty) == path_of_three(
            "trade_meta_compiler"@,
            "TypeSpec"@,
            match ty {
                DslType::Price => "Price"@,
                DslType::Amount => "Amount"@,
                DslType::Duration => "Duration"@,
                DslType::TimePoint => "TimePoint"@,
                DslType::Percent => "Percent"@,
                DslType::Count => "Count"@,
                DslType::Number => "Number"@,
                DslType::StringTy => "String"@,
                DslType::Bool => "Bool"@,
                DslType::Address => "Address"@,
                DslType::List(_) => "List"@,
                DslType::Tuple(_) => "Tuple"@,
                _ => "Any"@,
            },
        ) + (match ty {
            DslType::List(elem) => round(
                path("Box"@, "new"@) + round(type_spec_of(*elem)),
            ),
            DslType::Tuple(elems) => round(
                vec_of(separated(Seq::new(elems.len(), |i: int| type_spec_of(elems[i])))),
            ),
            _ => Seq::empty(),
        }),
{
    spell_spec_price();
    spell_spec_amount();
    spell_spec_duration();
    spell_spec_timepoint();
    spell_spec_percent();
    spell_spec_count();
    spell_spec_number();
    spell_spec_string();
    spell_spec_bool();
    spell_spec_address();
    spell_spec_any();
    match ty {
        DslType::List(elem) => {
            spell_spec_list(type_spec_of(*elem));
            let boxed = path("Box"@, "new"@) + round(type_spec_of(*elem));
            assert(type_spec_of(ty) =~= path_of_three("trade_meta_compiler"@, "TypeSpec"@, "List"@)
                + round(boxed));
        },
        DslType::Tuple(elems) => {
            spell_spec_tuple(separated(type_specs_of(elems)));
            assert(type_specs_of(elems) =~= Seq::new(elems.len(), |i: int| type_spec_of(elems[i])));
            assert(type_spec_of(ty) =~= path_of_three("trade_meta_compiler"@, "TypeSpec"@, "Tuple"@)
                + round(vec_of(separated(type_specs_of(elems)))));
        },
        _ => {},
    }
}

/// The text of a runtime value, or the empty text.
pub open spec fn string_extracted(value: Seq<Tok>) -> Seq<Tok> {
    seq![
        Tok::Group(
            Delim::Brace,
            seq![Tok::Ident("match"@)] + value
                + seq![
                    Tok::Group(
                        Delim::Brace,
                        value_type()
                            + seq![
                                Tok::Punct(':', true),
                                Tok::Punct(':', false),
                                Tok::Ident("Str"@),
                                Tok::Group(Delim::Parenthesis, seq![Tok::Ident("s"@)]),
                                Tok::Punct('=', true),
                                Tok::Punct('>', false),
                                Tok::Ident("s"@),
                                Tok::Punct('.', false),
                                Tok::Ident("clone"@),
                                Tok::Group(Delim::Parenthesis, Seq::<Tok>::empty()),
                                Tok::Punct(',', false),
                                Tok::Ident("_"@),
                                Tok::Punct('=', true),
                                Tok::Punct('>', false),
                            ] + string_type()
                            + seq![
                                Tok::Punct(':', true),
                                Tok::Punct(':', false),
                                Tok::Ident("new"@),
                                Tok::Group(Delim::Parenthesis, Seq::<Tok>::empty()),
                                Tok::Punct(',', false),
                            ],
                    ),
                ],
        ),
    ]
}

/// The truth value of a runtime value, or `false`.
pub open spec fn bool_extracted(value: Seq<Tok>) -> Seq<Tok> {
    seq![
        Tok::Group(
            Delim::Brace,
            seq![Tok::Ident("match"@)] + value
                + seq![
                    Tok::Group(
                        Delim::Brace,
                        value_type()
                            + seq![
                                Tok::Punct(':', true),
                                Tok::Punct(':', false),
                                Tok::Ident("Bool"@),
                                Tok::Group(Delim::Parenthesis, seq![Tok::Ident("b"@)]),
                                Tok::Punct('=', true),
                                Tok::Punct('>', false),
                                Tok::Punct('*', false),
                                Tok::Ident("b"@),
                                Tok::Punct(',', false),
                                Tok::Ident("_"@),
                                Tok::Punct('=', true),
                                Tok::Punct('>', false),
                                Tok::Ident("false"@),
                                Tok::Punct(',', false),
                            ],
                    ),
                ],
        ),
    ]
}

/// The items of a runtime value, each extracted, or no items.
pub open spec fn list_extracted(value: Seq<Tok>, item: Seq<Tok>) -> Seq<Tok> {
    seq![
        Tok::Group(
            Delim::Brace,
            seq![Tok::Ident("match"@)] + value
                + seq![
                    Tok::Group(
                        Delim::Brace,
                        value_type()
                            + seq![
                                Tok::Punct(':', true),
                                Tok::Punct(':', false),
                                Tok::Ident("List"@),
                                Tok::Group(Delim::Parenthesis, seq![Tok::Ident("items"@)]),
                                Tok::Punct('=', true),
                                Tok::Punct('>', false),
                            ] + seq![
                            Tok::Group(
                                Delim::Brace,
                                seq![
                                    Tok::Ident("items"@),
                                    Tok::Punct('.', false),
                                    Tok::Ident("iter"@),
                                    Tok::Group(Delim::Parenthesis, Seq::<Tok>::empty()),
                                    Tok::Punct('.', false),
                                    Tok::Ident("map"@),
                                ] + seq![
                                    Tok::Group(
                                        Delim::Parenthesis,
                                        seq![
                                            Tok::Punct('|', false),
                                            Tok::Ident("__item"@),
                                            Tok::Punct('|', false),
                                        ] + item,
                                    ),
                                ] + seq![
                                    Tok::Punct('.', false),
                                    Tok::Ident("collect"@),
                                    Tok::Group(Delim::Parenthesis, Seq::<Tok>::empty()),
                                ],
                            ),
                        ] + seq![
                            Tok::Ident("_"@),
                            Tok::Punct('=', true),
                            Tok::Punct('>', false),
                            Tok::Punct(':', true),
                            Tok::Punct(':', false),
                            Tok::Ident("std"@),
                            Tok::Punct(':', true),
                            Tok::Punct(':', false),
                            Tok::Ident("vec"@),
                            Tok::Punct(':', true),
                            Tok::Punct(':', false),
                            Tok::Ident("Vec"@),
                            Tok::Punct(':', true),
                            Tok::Punct(':', false),
                            Tok::Ident("new"@),
                            Tok::Group(Delim::Parenthesis, Seq::<Tok>::empty()),
                            Tok::Punct(',', false),
                        ],
                    ),
                ],
        ),
    ]
}

/// The items of a runtime value that has enough of them, or the default.
pub open spec fn tuple_extracted(value: Seq<Tok>, least: Seq<Tok>, items: Seq<Tok>) -> Seq<Tok> {
    seq![
        Tok::Group(
            Delim::Brace,
            seq![Tok::Ident("match"@)] + value
                + seq![
                    Tok::Group(
                        Delim::Brace,
                        value_type()
                            + seq![
                                Tok::Punct(':', true),
                                Tok::Punct(':', false),
                                Tok::Ident("Tuple"@),
                                Tok::Group(Delim::Parenthesis, seq![Tok::Ident("__tup_items"@)]),
                                Tok::Ident("if"@),
                                Tok::Ident("__tup_items"@),
                                Tok::Punct('.', false),
                                Tok::Ident("len"@),
                                Tok::Group(Delim::Parenthesis, Seq::<Tok>::empty()),
                                Tok::Punct('>', true),
                                Tok::Punct('=', false),
                            ] + least
                            + seq![Tok::Punct('=', true), Tok::Punct('>', false)]
                            + seq![
                                Tok::Group(
                                    Delim::Brace,
                                    seq![Tok::Group(Delim::Parenthesis, items)],
                                ),
                            ] + seq![
                            Tok::Ident("_"@),
                            Tok::Punct('=', true),
                            Tok::Punct('>', false),
                            Tok::Ident("Default"@),
                            Tok::Punct(':', true),
                            Tok::Punct(':', false),
                            Tok::Ident("default"@),
                            Tok::Group(Delim::Parenthesis, Seq::<Tok>::empty()),
                            Tok::Punct(',', false),
                        ],
                    ),
                ],
        ),
    ]
}

/// `value . as_f64 ( )`
pub open spec fn as_float(value: Seq<Tok>) -> Seq<Tok> {
    value + mark('.') + one("as_f64"@) + round(Seq::empty())
}

/// `__tup_items [ place ]`
pub open spec fn item_at(place: nat) -> Seq<Tok> {
    one("__tup_items"@) + seq![
        Tok::Group(Delim::Bracket, seq![Tok::Lit(decimal(place) + "usize"@)]),
    ]
}

/// A value of a type whose type of Rust is a number is read as a number, an amount of time is then
/// made a whole number, a runtime value is cloned, and all else is matched on.
pub proof fn law_extraction_written(ty: DslType, value: Seq<Tok>)
    ensures
        extraction(ty, value) == (match ty {
            DslType::Price
            | DslType::Amount
            | DslType::Percent
            | DslType::Count
            | DslType::Number
            | DslType::TimePoint => as_float(value),
            DslType::Duration => as_float(value) + one("as"@) + one("u64"@),
            DslType::StringTy | DslType::Address => string_extracted(value),
            DslType::Bool => bool_extracted(value),
            DslType::List(elem) => list_extracted(value, extraction(*elem, one("__item"@))),
            DslType::Tuple(elems) => tuple_extracted(
                value,
                seq![Tok::Lit(decimal(elems.len()) + "usize"@)],
                separated(item_extractions(elems)),
            ),
            _ => value + mark('.') + one("clone"@) + round(Seq::empty()),
        }),
{
    spell_item();
    match ty {
        DslType::Price
        | DslType::Amount
        | DslType::Percent
        | DslType::Count
        | DslType::Number
        | DslType::TimePoint => {
            spell_extract_float(value);
            assert(extraction(ty, value) =~= as_float(value));
        },
        DslType::Duration => {
            spell_extract_duration(value);
            assert(extraction(ty, value) =~= as_float(value) + one("as"@) + one("u64"@));
        },
        DslType::StringTy | DslType::Address => {
            spell_extract_string(value);
        },
        DslType::Bool => {
            spell_extract_bool(value);
        },
        DslType::List(elem) => {
            spell_extract_list(value, extraction(*elem, one("__item"@)));
        },
        DslType::Tuple(elems) => {
            spell_extract_tuple(
                value,
                seq![Tok::Lit(decimal(elems.len()) + "usize"@)],
                separated(item_extractions(elems)),
            );
        },
        DslType::Any | DslType::Union(_) | DslType::Alias(_) => {
            spell_extract_value(value);
            assert(extraction(ty, value) =~= value + mark('.') + one("clone"@) + round(
                Seq::empty(),
            ));
        },
    }
}

/// The value in a place of a tuple is taken out of the item in that place: out of a reference to it
/// where what takes it out is a block, and else out of the item itself.
pub proof fn law_items_extracted_in_place(types: Seq<DslType>, place: int)
    requires
        0 <= place < types.len(),
    ensures
        item_extractions(types).len() == types.len(),
        ({
            let ty = types[place];
            let item = item_at(place as nat);
            item_extractions(types)[place] == extraction(
                ty,
                if extraction(ty, item).len() == 1 {
                    mark('&') + item
                } else {
                    item
                },
            )
        }),
{
    let ty = types[place];
    let item = item_at(place as nat);
    let index = seq![Tok::Lit(decimal(place as nat) + "usize"@)];
    law_extraction_written(ty, item);
    spell_tuple_item(index);
    spell_lent_tuple_item(index);
    assert(rendered(TUPLE_ITEM@, seq![index]) =~= item);
    assert(rendered(LENT_TUPLE_ITEM@, seq![index]) =~= mark('&') + item);
}

/// The variant of a runtime value that the first arm of a match looks for, where a match in a block
/// is the code.
spec fn variant_matched(code: Seq<Tok>) -> Seq<char> {
    match code[0] {
        Tok::Group(_, inner) => match inner.last() {
            Tok::Group(_, arms) => match arms[6] {
                Tok::Ident(variant) => variant,
                _ => Seq::empty(),
            },
            _ => Seq::empty(),
        },
        _ => Seq::empty(),
    }
}

/// The blocks that extract values look for the variants that they are about.
proof fn lemma_variants_matched(value: Seq<Tok>, first: Seq<Tok>, second: Seq<Tok>)
    ensures
        variant_matched(string_extracted(value)) == "Str"@,
        variant_matched(bool_extracted(value)) == "Bool"@,
        variant_matched(list_extracted(value, first)) == "List"@,
        variant_matched(tuple_extracted(value, first, second)) == "Tuple"@,
{
}

/// The words by which the code of types differs do differ.
proof fn lemma_type_words()
    ensures
        "as_f64"@ != "clone"@,
        "f64"@ != "u64"@,
        "f64"@ != "bool"@,
        "u64"@ != "bool"@,
        "string"@ != "vec"@,
        "Str"@ != "Bool"@,
        "Str"@ != "List"@,
        "Str"@ != "Tuple"@,
        "Bool"@ != "List"@,
        "Bool"@ != "Tuple"@,
        "List"@ != "Tuple"@,
{
    reveal_strlit("as_f64");
    reveal_strlit("clone");
    reveal_strlit("f64");
    reveal_strlit("u64");
    reveal_strlit("bool");
    reveal_strlit("string");
    reveal_strlit("vec");
    reveal_strlit("Str");
    reveal_strlit("Bool");
    reveal_strlit("List");
    reveal_strlit("Tuple");
    assert("as_f64"@.len() != "clone"@.len());
    assert("string"@.len() != "vec"@.len());
    assert("f64"@[0] != "u64"@[0]);
    assert("f64"@.len() != "bool"@.len());
    assert("Str"@.len() != "Bool"@.len());
    assert("Bool"@.len() != "Tuple"@.len());
    assert("Bool"@[0] != "List"@[0]);
}

/// A value is read as a number exactly where its type of Rust is `f64`, and ends up as a whole
/// number exactly where that is `u64`: what is extracted is of the type that is declared.
pub proof fn law_extraction_fits_rust_type(ty: DslType, value: Seq<Tok>)
    ensures
        (extraction(ty, value) == as_float(value)) == (rust_type_of(ty) == one("f64"@)),
        ends_in(extraction(ty, value), one("as"@) + one("u64"@)) == (rust_type_of(ty) == one(
            "u64"@,
        )),
        (extraction(ty, value) == string_extracted(value)) == (rust_type_of(ty)
            == string_written()),
        (extraction(ty, value) == bool_extracted(value)) == (rust_type_of(ty) == one("bool"@)),
        (extraction(ty, value) == value + mark('.') + one("clone"@) + round(Seq::empty())) == (
        rust_type_of(ty) == path("trade_meta_compiler"@, "RuntimeValue"@)),
{
    lemma_type_words();
    law_extraction_written(ty, value);
    law_rust_type_written(ty);
    let code = extraction(ty, value);
    let n = value.len() as int;
    let whole = one("as"@) + one("u64"@);
    let float = as_float(value);
    let copy = value + mark('.') + one("clone"@) + round(Seq::empty());
    assert(float.len() == n + 3 && float[n + 1] == Tok::Ident("as_f64"@));
    assert(copy.len() == n + 3 && copy[n + 1] == Tok::Ident("clone"@));
    assert(ends_in(code, whole) ==> code.len() >= 2 && code[code.len() - 2] == Tok::Ident("as"@)
        && code[code.len() - 1] == Tok::Ident("u64"@)) by {
        if ends_in(code, whole) {
            let tail = code.skip(code.len() - 2);
            assert(tail[0] == whole[0] && tail[1] == whole[1]);
        }
    }
    match ty {
        DslType::Duration => {
            assert(code.skip(code.len() - 2) =~= whole);
        },
        _ => {},
    }
    assert(one("f64"@)[0] == Tok::Ident("f64"@));
    assert(one("u64"@)[0] == Tok::Ident("u64"@));
    assert(one("bool"@)[0] == Tok::Ident("bool"@));
    assert(path("trade_meta_compiler"@, "RuntimeValue"@).len() == 4);
    assert(string_written().len() == 9 && string_written()[5] == Tok::Ident("string"@));
    if let DslType::List(elem) = ty {
        assert(rust_type_of(ty)[5] == Tok::Ident("vec"@));
    }
    lemma_variants_matched(value, Seq::empty(), Seq::empty());
    if let DslType::List(elem) = ty {
        lemma_variants_matched(value, extraction(*elem, one("__item"@)), Seq::empty());
    }
    if let DslType::Tuple(elems) = ty {
        lemma_variants_matched(
            value,
            seq![Tok::Lit(decimal(elems.len()) + "usize"@)],
            separated(item_extractions(elems)),
        );
    }
}

/// The runtime value of a list, made of each of its items.
pub open spec fn list_wrapped(value: Seq<Tok>, item: Seq<Tok>) -> Seq<Tok> {
    value_type() + seq![Tok::Punct(':', true), Tok::Punct(':', false), Tok::Ident("List"@)]
        + seq![
            Tok::Group(
                Delim::Parenthesis,
                value
                    + seq![
                        Tok::Punct('.', false),
                        Tok::Ident("into_iter"@),
                        Tok::Group(Delim::Parenthesis, Seq::<Tok>::empty()),
                        Tok::Punct('.', false),
                        Tok::Ident("map"@),
                    ] + seq![
                    Tok::Group(
                        Delim::Parenthesis,
                        seq![Tok::Punct('|', false), Tok::Ident("__item"@), Tok::Punct('|', false)]
                            + item,
                    ),
                ] + seq![
                    Tok::Punct('.', false),
                    Tok::Ident("collect"@),
                    Tok::Group(Delim::Parenthesis, Seq::<Tok>::empty()),
                ],
            ),
        ]
}

/// `trade_meta_compiler :: RuntimeValue :: variant ( inner )`
pub open spec fn wrapped_as(variant: Seq<char>, inner: Seq<Tok>) -> Seq<Tok> {
    path_of_three("trade_meta_compiler"@, "RuntimeValue"@, variant) + round(inner)
}

/// A value becomes the variant of a runtime value that has the name of its type; a text or an
/// address becomes a text; an amount gets an empty unit; an amount of time becomes a number; and a
/// runtime value stays as it is.
pub proof fn law_wrapping_written(ty: DslType, value: Seq<Tok>)
    ensures
        wrapping(ty, value) == (match ty {
            DslType::Price => wrapped_as("Price"@, value),
            DslType::Amount => wrapped_as(
                "Amount"@,
                value + mark(',') + string_written() + seq![
                    Tok::Punct(':', true),
                    Tok::Punct(':', false),
                ] + one("new"@) + round(Seq::empty()),
            ),
            DslType::Duration => wrapped_as("Duration"@, value + one("as"@) + one("f64"@)),
            DslType::TimePoint => wrapped_as("TimePoint"@, value),
            DslType::Percent => wrapped_as("Percent"@, value),
            DslType::Count => wrapped_as("Count"@, value),
            DslType::Number => wrapped_as("Number"@, value),
            DslType::StringTy | DslType::Address => wrapped_as("Str"@, value),
            DslType::Bool => wrapped_as("Bool"@, value),
            DslType::List(elem) => list_wrapped(value, wrapping(*elem, one("__item"@))),
            DslType::Tuple(elems) => wrapped_as(
                "Tuple"@,
                vec_of(
                    separated(
                        Seq::new(
                            elems.len(),
                            |i: int|
                                wrapping(
                                    elems[i],
                                    value + mark('.') + seq![Tok::Lit(decimal(i as nat))],
                                ),
                        ),
                    ),
                ),
            ),
            _ => value,
        }),
{
    spell_item();
    spell_wrap_price(value);
    spell_wrap_time_point(value);
    spell_wrap_percent(value);
    spell_wrap_count(value);
    spell_wrap_number(value);
    spell_wrap_string(value);
    spell_wrap_bool(value);
    let code = wrapping(ty, value);
    match ty {
        DslType::Price => {
            assert(code =~= wrapped_as("Price"@, value));
        },
        DslType::Amount => {
            spell_wrap_amount(value);
            let inner = value + mark(',') + string_written() + seq![
                Tok::Punct(':', true),
                Tok::Punct(':', false),
            ] + one("new"@) + round(Seq::empty());
            let spelled = value + seq![Tok::Punct(',', false)] + string_type() + seq![
                Tok::Punct(':', true),
                Tok::Punct(':', false),
                Tok::Ident("new"@),
                Tok::Group(Delim::Parenthesis, Seq::<Tok>::empty()),
            ];
            assert(inner =~= spelled);
            assert(code =~= wrapped_as("Amount"@, inner));
        },
        DslType::Duration => {
            spell_wrap_duration(value);
            let inner = value + one("as"@) + one("f64"@);
            assert(inner =~= value + seq![Tok::Ident("as"@), Tok::Ident("f64"@)]);
            assert(code =~= wrapped_as("Duration"@, inner));
        },
        DslType::TimePoint => {
            assert(code =~= wrapped_as("TimePoint"@, value));
        },
        DslType::Percent => {
            assert(code =~= wrapped_as("Percent"@, value));
        },
        DslType::Count => {
            assert(code =~= wrapped_as("Count"@, value));
        },
        DslType::Number => {
            assert(code =~= wrapped_as("Number"@, value));
        },
        DslType::StringTy | DslType::Address => {
            assert(code =~= wrapped_as("Str"@, value));
        },
        DslType::Bool => {
            assert(code =~= wrapped_as("Bool"@, value));
        },
        DslType::List(elem) => {
            spell_wrap_list(value, wrapping(*elem, one("__item"@)));
        },
        DslType::Tuple(elems) => {
            let fields = Seq::new(
                elems.len(),
                |i: int|
                    wrapping(elems[i], value + mark('.') + seq![Tok::Lit(decimal(i as nat))]),
            );
            assert forall|i: int| 0 <= i < elems.len() implies field_wrappings(elems, value)[i]
                == #[trigger] fields[i] by {
                let index = seq![Tok::Lit(decimal(i as nat))];
                spell_tuple_field(value, index);
                assert(tuple_field(value, i as nat) =~= value + mark('.') + index);
            }
            assert(field_wrappings(elems, value) =~= fields);
            spell_wrap_tuple(separated(fields));
            assert(code =~= wrapped_as("Tuple"@, vec_of(separated(fields))));
        },
        _ => {},
    }
}

/// Of types that are neither lists nor tuples, two have the same type of Rust exactly where their
/// values are taken out of a runtime value alike.
pub proof fn law_extractions_tell_rust_types(a: DslType, b: DslType, value: Seq<Tok>)
    requires
        !(a is List || a is Tuple),
        !(b is List || b is Tuple),
    ensures
        (rust_type_of(a) == rust_type_of(b)) == (extraction(a, value) == extraction(b, value)),
{
    law_rust_type_written(a);
    law_rust_type_written(b);
    law_extraction_fits_rust_type(a, value);
    law_extraction_fits_rust_type(b, value);
    law_extraction_written(a, value);
    law_extraction_written(b, value);
}

/// A type that code meets as a runtime value is one whose type of Rust is that of runtime values.
pub proof fn law_runtime_value_exactly_where_typed_so(ty: DslType)
    ensures
        is_runtime_value(ty) == (rust_type_of(ty) == path("trade_meta_compiler"@, "RuntimeValue"@)),
{
    law_rust_type_written(ty);
    assert(string_written().len() == 9);
    assert(path("trade_meta_compiler"@, "RuntimeValue"@).len() == 4);
    assert(one("f64"@).len() == 1 && one("u64"@).len() == 1 && one("bool"@).len() == 1);
    if let DslType::List(elem) = ty {
        assert(rust_type_of(ty).len() >= 9);
    }
}

/// A type in code and the type that contracts speak of are of one name, part for part.
pub proof fn law_models_keep_types(ty: TradeType)
    ensures
        ty is Price == ty.model() is Price,
        ty is Amount == ty.model() is Amount,
        ty is Duration == ty.model() is Duration,
        ty is TimePoint == ty.model() is TimePoint,
        ty is Percent == ty.model() is Percent,
        ty is Count == ty.model() is Count,
        ty is Number == ty.model() is Number,
        ty is StringTy == ty.model() is StringTy,
        ty is Bool == ty.model() is Bool,
        ty is Address == ty.model() is Address,
        ty is Any == ty.model() is Any,
        match ty {
            TradeType::List(elem) => ty.model() matches DslType::List(inner) && *inner
                == elem.model(),
            TradeType::Tuple(elems) => ty.model() matches DslType::Tuple(inner) && inner =~= models(
                elems@,
            ),
            TradeType::Union(elems) => ty.model() matches DslType::Union(inner) && inner =~= models(
                elems@,
            ),
            TradeType::Alias(name) => ty.model() == DslType::Alias(name@),
            _ => true,
        },
{
}

} // verus!
