//! The types of the language: how one is named, and the code that stands for it.
use proc_macro2::TokenStream;
use vstd::prelude::*;

use crate::template::{fill, fill_three, fill_two, fixed, rendered, separate, separated};
use crate::text::same_text;
use crate::token::{all_tokens_of, append_count, append_index, decimal, tokens_of, Tok};

verus! {

/// A type of the language.
#[derive(Debug)]
pub enum TradeType {
    Price,
    Amount,
    Duration,
    TimePoint,
    Percent,
    Count,
    Number,
    StringTy,
    Bool,
    Address,
    Any,
    /// A list, such as `[Address]`.
    List(Box<TradeType>),
    /// A tuple, such as `(Price, Amount)`.
    Tuple(Vec<TradeType>),
    /// A choice, such as `Percent | Amount`.
    Union(Vec<TradeType>),
    /// A name that stands for a choice registered elsewhere.
    Alias(String),
}

/// A type of the language, as contracts speak of it.
pub enum DslType {
    Price,
    Amount,
    Duration,
    TimePoint,
    Percent,
    Count,
    Number,
    StringTy,
    Bool,
    Address,
    Any,
    List(Box<DslType>),
    Tuple(Seq<DslType>),
    Union(Seq<DslType>),
    Alias(Seq<char>),
}

/// What several types are, as contracts speak of them.
pub open spec fn models(types: Seq<TradeType>) -> Seq<DslType> {
    Seq::new(types.len(), |i: int| types[i].model())
}

/// The type with the given name; a name that is none of the language's own is an alias.
pub open spec fn type_named(name: Seq<char>) -> DslType {
    if name == "Price"@ {
        DslType::Price
    } else if name == "Amount"@ {
        DslType::Amount
    } else if name == "Duration"@ {
        DslType::Duration
    } else if name == "TimePoint"@ {
        DslType::TimePoint
    } else if name == "Percent"@ {
        DslType::Percent
    } else if name == "Count"@ {
        DslType::Count
    } else if name == "Number"@ {
        DslType::Number
    } else if name == "String"@ {
        DslType::StringTy
    } else if name == "Bool"@ {
        DslType::Bool
    } else if name == "Address"@ {
        DslType::Address
    } else if name == "Any"@ {
        DslType::Any
    } else {
        DslType::Alias(name)
    }
}

// ---------------------------------------------------------------------------------------------
// Types of Rust
// ---------------------------------------------------------------------------------------------
pub const RUST_FLOAT: &'static str = "f64";

pub const RUST_DURATION: &'static str = "u64";

pub const RUST_STRING: &'static str = ":: std :: string :: String";

pub const RUST_BOOL: &'static str = "bool";

pub const RUST_VALUE: &'static str = "trade_meta_compiler :: RuntimeValue";

pub const RUST_LIST: &'static str = ":: std :: vec :: Vec < #a >";

pub const RUST_TUPLE: &'static str = "( #a )";

/// The type of Rust that stands for a type of the language.
pub open spec fn rust_type_of(ty: DslType) -> Seq<Tok>
    decreases ty,
{
    match ty {
        DslType::Price | DslType::Amount | DslType::Percent | DslType::Count | DslType::Number
        | DslType::TimePoint => rendered(RUST_FLOAT@, seq![]),
        DslType::Duration => rendered(RUST_DURATION@, seq![]),
        DslType::StringTy | DslType::Address => rendered(RUST_STRING@, seq![]),
        DslType::Bool => rendered(RUST_BOOL@, seq![]),
        DslType::List(elem) => rendered(RUST_LIST@, seq![rust_type_of(*elem)]),
        DslType::Tuple(elems) => rendered(RUST_TUPLE@, seq![separated(rust_types_of(elems))]),
        DslType::Any | DslType::Union(_) | DslType::Alias(_) => rendered(RUST_VALUE@, seq![]),
    }
}

/// The types of Rust that stand for several types of the language.
pub open spec fn rust_types_of(types: Seq<DslType>) -> Seq<Seq<Tok>>
    decreases types,
{
    Seq::new(
        types.len(),
        |i: int|
            if 0 <= i < types.len() {
                rust_type_of(types[i])
            } else {
                Seq::empty()
            },
    )
}

// ---------------------------------------------------------------------------------------------
// Descriptions of types
// ---------------------------------------------------------------------------------------------
pub const SPEC_PRICE: &'static str = "trade_meta_compiler :: TypeSpec :: Price";

pub const SPEC_AMOUNT: &'static str = "trade_meta_compiler :: TypeSpec :: Amount";

pub const SPEC_DURATION: &'static str = "trade_meta_compiler :: TypeSpec :: Duration";

pub const SPEC_TIMEPOINT: &'static str = "trade_meta_compiler :: TypeSpec :: TimePoint";

pub const SPEC_PERCENT: &'static str = "trade_meta_compiler :: TypeSpec :: Percent";

pub const SPEC_COUNT: &'static str = "trade_meta_compiler :: TypeSpec :: Count";

pub const SPEC_NUMBER: &'static str = "trade_meta_compiler :: TypeSpec :: Number";

pub const SPEC_STRING: &'static str = "trade_meta_compiler :: TypeSpec :: String";

pub const SPEC_BOOL: &'static str = "trade_meta_compiler :: TypeSpec :: Bool";

pub const SPEC_ADDRESS: &'static str = "trade_meta_compiler :: TypeSpec :: Address";

pub const SPEC_ANY: &'static str = "trade_meta_compiler :: TypeSpec :: Any";

pub const SPEC_LIST: &'static str = "trade_meta_compiler :: TypeSpec :: List ( Box :: new ( #a ) )";

pub const SPEC_TUPLE: &'static str = "trade_meta_compiler :: TypeSpec :: Tuple ( vec ! [ #a ] )";

/// The expression that describes a type of the language at run time. A choice or an alias has no
/// description of its own; it is described as any type.
pub open spec fn type_spec_of(ty: DslType) -> Seq<Tok>
    decreases ty,
{
    match ty {
        DslType::Price => rendered(SPEC_PRICE@, seq![]),
        DslType::Amount => rendered(SPEC_AMOUNT@, seq![]),
        DslType::Duration => rendered(SPEC_DURATION@, seq![]),
        DslType::TimePoint => rendered(SPEC_TIMEPOINT@, seq![]),
        DslType::Percent => rendered(SPEC_PERCENT@, seq![]),
        DslType::Count => rendered(SPEC_COUNT@, seq![]),
        DslType::Number => rendered(SPEC_NUMBER@, seq![]),
        DslType::StringTy => rendered(SPEC_STRING@, seq![]),
        DslType::Bool => rendered(SPEC_BOOL@, seq![]),
        DslType::Address => rendered(SPEC_ADDRESS@, seq![]),
        DslType::Any => rendered(SPEC_ANY@, seq![]),
        DslType::List(elem) => rendered(SPEC_LIST@, seq![type_spec_of(*elem)]),
        DslType::Tuple(elems) => rendered(SPEC_TUPLE@, seq![separated(type_specs_of(elems))]),
        DslType::Union(_) | DslType::Alias(_) => rendered(SPEC_ANY@, seq![]),
    }
}

/// The expressions that describe several types of the language at run time.
pub open spec fn type_specs_of(types: Seq<DslType>) -> Seq<Seq<Tok>>
    decreases types,
{
    Seq::new(
        types.len(),
        |i: int|
            if 0 <= i < types.len() {
                type_spec_of(types[i])
            } else {
                Seq::empty()
            },
    )
}

// ---------------------------------------------------------------------------------------------
// Values out of a runtime value
// ---------------------------------------------------------------------------------------------
pub const EXTRACT_FLOAT: &'static str = "#a . as_f64 ( )";

pub const EXTRACT_DURATION: &'static str = "#a . as_f64 ( ) as u64";

pub const EXTRACT_STRING: &'static str =
    "{ match #a { trade_meta_compiler :: RuntimeValue :: Str ( s ) => s . clone ( ) , _ => :: std :: string :: String :: new ( ) , } }";

pub const EXTRACT_BOOL: &'static str =
    "{ match #a { trade_meta_compiler :: RuntimeValue :: Bool ( b ) => * b , _ => false , } }";

pub const EXTRACT_VALUE: &'static str = "#a . clone ( )";

pub const ITEM: &'static str = "__item";

pub const EXTRACT_LIST: &'static str =
    "{ match #a { trade_meta_compiler :: RuntimeValue :: List ( items ) => { items . iter ( ) . map ( | __item | #b ) . collect ( ) } _ => :: std :: vec :: Vec :: new ( ) , } }";

pub const TUPLE_ITEM: &'static str = "__tup_items [ #a ]";

pub const LENT_TUPLE_ITEM: &'static str = "& __tup_items [ #a ]";

pub const EXTRACT_TUPLE: &'static str =
    "{ match #a { trade_meta_compiler :: RuntimeValue :: Tuple ( __tup_items ) if __tup_items . len ( ) >= #b => { ( #c ) } _ => Default :: default ( ) , } }";

/// A number written as a literal of type `usize`.
pub open spec fn count_literal(n: nat) -> Seq<Tok> {
    seq![Tok::Lit(decimal(n) + "usize"@)]
}

/// The expression that takes the value of a type out of the runtime value that `value` stands for.
pub open spec fn extraction(ty: DslType, value: Seq<Tok>) -> Seq<Tok>
    decreases ty,
{
    match ty {
        DslType::Price | DslType::Amount | DslType::Percent | DslType::Count | DslType::Number
        | DslType::TimePoint => rendered(EXTRACT_FLOAT@, seq![value]),
        DslType::Duration => rendered(EXTRACT_DURATION@, seq![value]),
        DslType::StringTy | DslType::Address => rendered(EXTRACT_STRING@, seq![value]),
        DslType::Bool => rendered(EXTRACT_BOOL@, seq![value]),
        DslType::List(elem) => rendered(
            EXTRACT_LIST@,
            seq![value, extraction(*elem, rendered(ITEM@, seq![]))],
        ),
        DslType::Tuple(elems) => rendered(
            EXTRACT_TUPLE@,
            seq![value, count_literal(elems.len()), separated(item_extractions(elems))],
        ),
        DslType::Any | DslType::Union(_) | DslType::Alias(_) => rendered(
            EXTRACT_VALUE@,
            seq![value],
        ),
    }
}

/// Whether a value of the type is taken out of a runtime value by a match on it.
pub open spec fn is_matched(ty: DslType) -> bool {
    ty is StringTy || ty is Address || ty is Bool || ty is List || ty is Tuple
}

/// The item of a tuple at the given place, as a value of the given type is taken out of it: a match
/// looks at a reference to it, so that nothing moves out of the tuple.
pub open spec fn tuple_item(ty: DslType, place: nat) -> Seq<Tok> {
    rendered(
        if is_matched(ty) {
            LENT_TUPLE_ITEM@
        } else {
            TUPLE_ITEM@
        },
        seq![count_literal(place)],
    )
}

/// The expressions that take the values of several types out of the items of a tuple, each out of
/// the item in its place.
pub open spec fn item_extractions(types: Seq<DslType>) -> Seq<Seq<Tok>>
    decreases types,
{
    Seq::new(
        types.len(),
        |i: int|
            if 0 <= i < types.len() {
                extraction(types[i], tuple_item(types[i], i as nat))
            } else {
                Seq::empty()
            },
    )
}

// ---------------------------------------------------------------------------------------------
// Values into a runtime value
// ---------------------------------------------------------------------------------------------
pub const WRAP_PRICE: &'static str = "trade_meta_compiler :: RuntimeValue :: Price ( #a )";

pub const WRAP_AMOUNT: &'static str =
    "trade_meta_compiler :: RuntimeValue :: Amount ( #a , :: std :: string :: String :: new ( ) )";

pub const WRAP_DURATION: &'static str =
    "trade_meta_compiler :: RuntimeValue :: Duration ( #a as f64 )";

pub const WRAP_TIME_POINT: &'static str = "trade_meta_compiler :: RuntimeValue :: TimePoint ( #a )";

pub const WRAP_PERCENT: &'static str = "trade_meta_compiler :: RuntimeValue :: Percent ( #a )";

pub const WRAP_COUNT: &'static str = "trade_meta_compiler :: RuntimeValue :: Count ( #a )";

pub const WRAP_NUMBER: &'static str = "trade_meta_compiler :: RuntimeValue :: Number ( #a )";

pub const WRAP_STRING: &'static str = "trade_meta_compiler :: RuntimeValue :: Str ( #a )";

pub const WRAP_BOOL: &'static str = "trade_meta_compiler :: RuntimeValue :: Bool ( #a )";

pub const WRAP_LIST: &'static str =
    "trade_meta_compiler :: RuntimeValue :: List ( #a . into_iter ( ) . map ( | __item | #b ) . collect ( ) )";

pub const TUPLE_FIELD: &'static str = "#a . #b";

pub const WRAP_TUPLE: &'static str =
    "trade_meta_compiler :: RuntimeValue :: Tuple ( vec ! [ #a ] )";

/// The expression that turns the value of a type, which `value` stands for, into a runtime value.
pub open spec fn wrapping(ty: DslType, value: Seq<Tok>) -> Seq<Tok>
    decreases ty,
{
    match ty {
        DslType::Price => rendered(WRAP_PRICE@, seq![value]),
        DslType::Amount => rendered(WRAP_AMOUNT@, seq![value]),
        DslType::Duration => rendered(WRAP_DURATION@, seq![value]),
        DslType::TimePoint => rendered(WRAP_TIME_POINT@, seq![value]),
        DslType::Percent => rendered(WRAP_PERCENT@, seq![value]),
        DslType::Count => rendered(WRAP_COUNT@, seq![value]),
        DslType::Number => rendered(WRAP_NUMBER@, seq![value]),
        DslType::StringTy | DslType::Address => rendered(WRAP_STRING@, seq![value]),
        DslType::Bool => rendered(WRAP_BOOL@, seq![value]),
        DslType::List(elem) => rendered(
            WRAP_LIST@,
            seq![value, wrapping(*elem, rendered(ITEM@, seq![]))],
        ),
        DslType::Tuple(elems) => rendered(
            WRAP_TUPLE@,
            seq![separated(field_wrappings(elems, value))],
        ),
        DslType::Any | DslType::Union(_) | DslType::Alias(_) => value,
    }
}

/// The field at the given place of the tuple that `value` stands for.
pub open spec fn tuple_field(value: Seq<Tok>, place: nat) -> Seq<Tok> {
    rendered(TUPLE_FIELD@, seq![value, seq![Tok::Lit(decimal(place))]])
}

/// The expressions that turn the fields of a tuple, which `value` stands for, into runtime values.
pub open spec fn field_wrappings(types: Seq<DslType>, value: Seq<Tok>) -> Seq<Seq<Tok>>
    decreases types,
{
    Seq::new(
        types.len(),
        |i: int|
            if 0 <= i < types.len() {
                wrapping(types[i], tuple_field(value, i as nat))
            } else {
                Seq::empty()
            },
    )
}

/// Whether code meets a value of the type as a runtime value: a choice, an alias or any type.
pub open spec fn is_runtime_value(ty: DslType) -> bool {
    ty is Union || ty is Alias || ty is Any
}

impl TradeType {
    /// What the type is, as contracts speak of it.
    pub open spec fn model(self) -> DslType
        decreases self,
    {
        match self {
            TradeType::Price => DslType::Price,
            TradeType::Amount => DslType::Amount,
            TradeType::Duration => DslType::Duration,
            TradeType::TimePoint => DslType::TimePoint,
            TradeType::Percent => DslType::Percent,
            TradeType::Count => DslType::Count,
            TradeType::Number => DslType::Number,
            TradeType::StringTy => DslType::StringTy,
            TradeType::Bool => DslType::Bool,
            TradeType::Address => DslType::Address,
            TradeType::Any => DslType::Any,
            TradeType::List(elem) => DslType::List(Box::new(elem.model())),
            TradeType::Tuple(elems) => DslType::Tuple(
                Seq::new(
                    elems@.len(),
                    |i: int|
                        if 0 <= i < elems@.len() {
                            elems@[i].model()
                        } else {
                            DslType::Any
                        },
                ),
            ),
            TradeType::Union(elems) => DslType::Union(
                Seq::new(
                    elems@.len(),
                    |i: int|
                        if 0 <= i < elems@.len() {
                            elems@[i].model()
                        } else {
                            DslType::Any
                        },
                ),
            ),
            TradeType::Alias(name) => DslType::Alias(name@),
        }
    }

    /// The type with the given name.
    pub fn from_ident(name: &str) -> (ty: TradeType)
        ensures
            ty.model() == type_named(name@),
    {
        if same_text(name, "Price") {
            TradeType::Price
        } else if same_text(name, "Amount") {
            TradeType::Amount
        } else if same_text(name, "Duration") {
            TradeType::Duration
        } else if same_text(name, "TimePoint") {
            TradeType::TimePoint
        } else if same_text(name, "Percent") {
            TradeType::Percent
        } else if same_text(name, "Count") {
            TradeType::Count
        } else if same_text(name, "Number") {
            TradeType::Number
        } else if same_text(name, "String") {
            TradeType::StringTy
        } else if same_text(name, "Bool") {
            TradeType::Bool
        } else if same_text(name, "Address") {
            TradeType::Address
        } else if same_text(name, "Any") {
            TradeType::Any
        } else {
            TradeType::Alias(name.to_owned())
        }
    }

    /// The type of Rust that stands for this one.
    pub fn rust_type(&self) -> (tokens: TokenStream)
        ensures
            tokens_of(tokens) == rust_type_of(self.model()),
        decreases self,
    {
        match self {
            TradeType::Price
            | TradeType::Amount
            | TradeType::Percent
            | TradeType::Count
            | TradeType::Number
            | TradeType::TimePoint => fixed(RUST_FLOAT),
            TradeType::Duration => fixed(RUST_DURATION),
            TradeType::StringTy | TradeType::Address => fixed(RUST_STRING),
            TradeType::Bool => fixed(RUST_BOOL),
            TradeType::List(elem) => fill(RUST_LIST, elem.rust_type()),
            TradeType::Tuple(elems) => {
                let mut types: Vec<TokenStream> = Vec::new();
                let mut i: usize = 0;
                while i < elems.len()
                    invariant
                        i <= elems@.len(),
                        *self == TradeType::Tuple(*elems),
                        types@.len() == i,
                        forall|k: int|
                            0 <= k < i ==> tokens_of(#[trigger] types@[k]) == rust_type_of(
                                elems@[k].model(),
                            ),
                    decreases elems@.len() - i,
                {
                    assert(decreases_to!(elems@ => elems@[i as int]));
                    assert(decreases_to!(*self => self->Tuple_0));
                    types.push(elems[i].rust_type());
                    i += 1;
                }
                assert(all_tokens_of(types@) =~= rust_types_of(self.model()->Tuple_0));
                fill(RUST_TUPLE, separate(&types))
            },
            TradeType::Any | TradeType::Union(_) | TradeType::Alias(_) => fixed(RUST_VALUE),
        }
    }

    /// The expression that describes this type at run time.
    pub fn type_spec(&self) -> (tokens: TokenStream)
        ensures
            tokens_of(tokens) == type_spec_of(self.model()),
        decreases self,
    {
        match self {
            TradeType::Price => fixed(SPEC_PRICE),
            TradeType::Amount => fixed(SPEC_AMOUNT),
            TradeType::Duration => fixed(SPEC_DURATION),
            TradeType::TimePoint => fixed(SPEC_TIMEPOINT),
            TradeType::Percent => fixed(SPEC_PERCENT),
            TradeType::Count => fixed(SPEC_COUNT),
            TradeType::Number => fixed(SPEC_NUMBER),
            TradeType::StringTy => fixed(SPEC_STRING),
            TradeType::Bool => fixed(SPEC_BOOL),
            TradeType::Address => fixed(SPEC_ADDRESS),
            TradeType::Any => fixed(SPEC_ANY),
            TradeType::List(elem) => fill(SPEC_LIST, elem.type_spec()),
            TradeType::Tuple(elems) => {
                let mut specs: Vec<TokenStream> = Vec::new();
                let mut i: usize = 0;
                while i < elems.len()
                    invariant
                        i <= elems@.len(),
                        *self == TradeType::Tuple(*elems),
                        specs@.len() == i,
                        forall|k: int|
                            0 <= k < i ==> tokens_of(#[trigger] specs@[k]) == type_spec_of(
                                elems@[k].model(),
                            ),
                    decreases elems@.len() - i,
                {
                    assert(decreases_to!(elems@ => elems@[i as int]));
                    assert(decreases_to!(*self => self->Tuple_0));
                    specs.push(elems[i].type_spec());
                    i += 1;
                }
                assert(all_tokens_of(specs@) =~= type_specs_of(self.model()->Tuple_0));
                fill(SPEC_TUPLE, separate(&specs))
            },
            TradeType::Union(_) | TradeType::Alias(_) => fixed(SPEC_ANY),
        }
    }

    /// The expression that takes a value of this type out of the runtime value that `value` stands
    /// for.
    pub fn extract_from_rv(&self, value: &TokenStream) -> (tokens: TokenStream)
        ensures
            tokens_of(tokens) == extraction(self.model(), tokens_of(*value)),
        decreases self,
    {
        match self {
            TradeType::Price
            | TradeType::Amount
            | TradeType::Percent
            | TradeType::Count
            | TradeType::Number
            | TradeType::TimePoint => fill(EXTRACT_FLOAT, value.clone()),
            TradeType::Duration => fill(EXTRACT_DURATION, value.clone()),
            TradeType::StringTy | TradeType::Address => fill(EXTRACT_STRING, value.clone()),
            TradeType::Bool => fill(EXTRACT_BOOL, value.clone()),
            TradeType::List(elem) => {
                let item: TokenStream = fixed(ITEM);
                fill_two(EXTRACT_LIST, value.clone(), elem.extract_from_rv(&item))
            },
            TradeType::Tuple(elems) => {
                let mut items: Vec<TokenStream> = Vec::new();
                let mut i: usize = 0;
                while i < elems.len()
                    invariant
                        i <= elems@.len(),
                        *self == TradeType::Tuple(*elems),
                        items@.len() == i,
                        forall|k: int|
                            0 <= k < i ==> tokens_of(#[trigger] items@[k]) == extraction(
                                elems@[k].model(),
                                tuple_item(elems@[k].model(), k as nat),
                            ),
                    decreases elems@.len() - i,
                {
                    let matched: bool = matches!(
                        elems[i],
                        TradeType::StringTy
                        | TradeType::Address
                        | TradeType::Bool
                        | TradeType::List(_)
                        | TradeType::Tuple(_)
                    );
                    let place: TokenStream = fill(
                        if matched {
                            LENT_TUPLE_ITEM
                        } else {
                            TUPLE_ITEM
                        },
                        count(i),
                    );
                    assert(decreases_to!(elems@ => elems@[i as int]));
                    assert(decreases_to!(*self => self->Tuple_0));
                    items.push(elems[i].extract_from_rv(&place));
                    i += 1;
                }
                assert(all_tokens_of(items@) =~= item_extractions(self.model()->Tuple_0));
                fill_three(EXTRACT_TUPLE, value.clone(), count(elems.len()), separate(&items))
            },
            TradeType::Any | TradeType::Union(_) | TradeType::Alias(_) => fill(
                EXTRACT_VALUE,
                value.clone(),
            ),
        }
    }

    /// The expression that turns a value of this type, which `value` stands for, into a runtime
    /// value.
    pub fn wrap_in_rv(&self, value: &TokenStream) -> (tokens: TokenStream)
        ensures
            tokens_of(tokens) == wrapping(self.model(), tokens_of(*value)),
        decreases self,
    {
        match self {
            TradeType::Price => fill(WRAP_PRICE, value.clone()),
            TradeType::Amount => fill(WRAP_AMOUNT, value.clone()),
            TradeType::Duration => fill(WRAP_DURATION, value.clone()),
            TradeType::TimePoint => fill(WRAP_TIME_POINT, value.clone()),
            TradeType::Percent => fill(WRAP_PERCENT, value.clone()),
            TradeType::Count => fill(WRAP_COUNT, value.clone()),
            TradeType::Number => fill(WRAP_NUMBER, value.clone()),
            TradeType::StringTy | TradeType::Address => fill(WRAP_STRING, value.clone()),
            TradeType::Bool => fill(WRAP_BOOL, value.clone()),
            TradeType::List(elem) => {
                let item: TokenStream = fixed(ITEM);
                fill_two(WRAP_LIST, value.clone(), elem.wrap_in_rv(&item))
            },
            TradeType::Tuple(elems) => {
                let mut fields: Vec<TokenStream> = Vec::new();
                let mut i: usize = 0;
                while i < elems.len()
                    invariant
                        i <= elems@.len(),
                        *self == TradeType::Tuple(*elems),
                        fields@.len() == i,
                        forall|k: int|
                            0 <= k < i ==> tokens_of(#[trigger] fields@[k]) == wrapping(
                                elems@[k].model(),
                                tuple_field(tokens_of(*value), k as nat),
                            ),
                    decreases elems@.len() - i,
                {
                    let field: TokenStream = fill_two(TUPLE_FIELD, value.clone(), index(i));
                    assert(decreases_to!(elems@ => elems@[i as int]));
                    assert(decreases_to!(*self => self->Tuple_0));
                    fields.push(elems[i].wrap_in_rv(&field));
                    i += 1;
                }
                assert(all_tokens_of(fields@) =~= field_wrappings(
                    self.model()->Tuple_0,
                    tokens_of(*value),
                ));
                fill(WRAP_TUPLE, separate(&fields))
            },
            TradeType::Any | TradeType::Union(_) | TradeType::Alias(_) => value.clone(),
        }
    }

    /// Whether code meets a value of this type as a runtime value: a choice, an alias or any type.
    pub fn is_runtime_value_type(&self) -> (is: bool)
        ensures
            is == is_runtime_value(self.model()),
    {
        matches!(self, TradeType::Union(_) | TradeType::Alias(_) | TradeType::Any)
    }
}

/// A number written as a literal of type `usize`.
fn count(n: usize) -> (tokens: TokenStream)
    ensures
        tokens_of(tokens) == count_literal(n as nat),
{
    let mut tokens: TokenStream = TokenStream::new();
    append_count(&mut tokens, n);
    assert(tokens_of(tokens) =~= count_literal(n as nat));
    tokens
}

/// A number written as a literal without a type.
fn index(n: usize) -> (tokens: TokenStream)
    ensures
        tokens_of(tokens) == seq![Tok::Lit(decimal(n as nat))],
{
    let mut tokens: TokenStream = TokenStream::new();
    append_index(&mut tokens, n);
    assert(tokens_of(tokens) =~= seq![Tok::Lit(decimal(n as nat))]);
    tokens
}

} // verus!
