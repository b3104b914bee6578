use proc_macro2::TokenStream;
use trade_symbol::trade_type::TradeType;

fn stream(text: &str) -> TokenStream {
    text.parse().unwrap()
}

fn pair() -> TradeType {
    TradeType::Tuple(vec![TradeType::Price, TradeType::Bool])
}

#[test]
fn a_name_of_the_language_is_its_type() {
    assert!(matches!(TradeType::from_ident("Price"), TradeType::Price));
    assert!(matches!(TradeType::from_ident("Amount"), TradeType::Amount));
    assert!(matches!(TradeType::from_ident("Duration"), TradeType::Duration));
    assert!(matches!(TradeType::from_ident("TimePoint"), TradeType::TimePoint));
    assert!(matches!(TradeType::from_ident("Percent"), TradeType::Percent));
    assert!(matches!(TradeType::from_ident("Count"), TradeType::Count));
    assert!(matches!(TradeType::from_ident("Number"), TradeType::Number));
    assert!(matches!(TradeType::from_ident("String"), TradeType::StringTy));
    assert!(matches!(TradeType::from_ident("Bool"), TradeType::Bool));
    assert!(matches!(TradeType::from_ident("Address"), TradeType::Address));
    assert!(matches!(TradeType::from_ident("Any"), TradeType::Any));
}

#[test]
fn another_name_is_an_alias() {
    match TradeType::from_ident("price") {
        TradeType::Alias(name) => assert_eq!(name, "price"),
        _ => panic!("no alias"),
    }
    match TradeType::from_ident("StringTy") {
        TradeType::Alias(name) => assert_eq!(name, "StringTy"),
        _ => panic!("no alias"),
    }
}

#[test]
fn types_of_rust() {
    let cases = vec![
        (TradeType::Price, "f64"),
        (TradeType::Amount, "f64"),
        (TradeType::Percent, "f64"),
        (TradeType::Count, "f64"),
        (TradeType::Number, "f64"),
        (TradeType::TimePoint, "f64"),
        (TradeType::Duration, "u64"),
        (TradeType::StringTy, ":: std :: string :: String"),
        (TradeType::Address, ":: std :: string :: String"),
        (TradeType::Bool, "bool"),
        (TradeType::Any, "trade_meta_compiler :: RuntimeValue"),
        (TradeType::List(Box::new(TradeType::Address)), ":: std :: vec :: Vec < :: std :: string :: String >"),
        (pair(), "(f64 , bool)"),
        (TradeType::Tuple(vec![]), "()"),
        (TradeType::Tuple(vec![TradeType::Price]), "(f64)"),
        (TradeType::Union(vec![TradeType::Price]), "trade_meta_compiler :: RuntimeValue"),
        (TradeType::Alias("X".to_string()), "trade_meta_compiler :: RuntimeValue"),
    ];
    for (ty, expected) in cases {
        assert_eq!(ty.rust_type().to_string(), expected);
    }
}

#[test]
fn descriptions_of_types() {
    let cases = vec![
        (TradeType::Price, "Price"),
        (TradeType::Amount, "Amount"),
        (TradeType::Duration, "Duration"),
        (TradeType::TimePoint, "TimePoint"),
        (TradeType::Percent, "Percent"),
        (TradeType::Count, "Count"),
        (TradeType::Number, "Number"),
        (TradeType::StringTy, "String"),
        (TradeType::Bool, "Bool"),
        (TradeType::Address, "Address"),
        (TradeType::Any, "Any"),
        (TradeType::Union(vec![TradeType::Price, TradeType::Bool]), "Any"),
        (TradeType::Alias("X".to_string()), "Any"),
        (
            TradeType::List(Box::new(TradeType::Price)),
            "List (Box :: new (trade_meta_compiler :: TypeSpec :: Price))",
        ),
        (
            pair(),
            "Tuple (vec ! [trade_meta_compiler :: TypeSpec :: Price , trade_meta_compiler :: TypeSpec :: Bool])",
        ),
    ];
    for (ty, expected) in cases {
        assert_eq!(
            ty.type_spec().to_string(),
            format!("trade_meta_compiler :: TypeSpec :: {}", expected)
        );
    }
}

#[test]
fn values_out_of_a_runtime_value() {
    let v = stream("v");
    assert_eq!(TradeType::Price.extract_from_rv(&v).to_string(), "v . as_f64 ()");
    assert_eq!(TradeType::Duration.extract_from_rv(&v).to_string(), "v . as_f64 () as u64");
    assert_eq!(
        TradeType::Address.extract_from_rv(&v).to_string(),
        "{ match v { trade_meta_compiler :: RuntimeValue :: Str (s) => s . clone () , _ => :: std :: string :: String :: new () , } }"
    );
    assert_eq!(
        TradeType::Bool.extract_from_rv(&v).to_string(),
        "{ match v { trade_meta_compiler :: RuntimeValue :: Bool (b) => * b , _ => false , } }"
    );
    assert_eq!(TradeType::Any.extract_from_rv(&v).to_string(), "v . clone ()");
    assert_eq!(
        TradeType::List(Box::new(TradeType::Price)).extract_from_rv(&v).to_string(),
        "{ match v { trade_meta_compiler :: RuntimeValue :: List (items) => { items . iter () . map (| __item | __item . as_f64 ()) . collect () } _ => :: std :: vec :: Vec :: new () , } }"
    );
    assert_eq!(
        TradeType::Tuple(vec![TradeType::Price, TradeType::Any]).extract_from_rv(&v).to_string(),
        "{ match v { trade_meta_compiler :: RuntimeValue :: Tuple (__tup_items) if __tup_items . len () >= 2usize => { (__tup_items [0usize] . as_f64 () , __tup_items [1usize] . clone ()) } _ => Default :: default () , } }"
    );
}

#[test]
fn items_that_are_matched_are_lent() {
    let v = stream("v");
    let bool_and_price = TradeType::Tuple(vec![TradeType::Bool, TradeType::Price]);
    assert_eq!(
        bool_and_price.extract_from_rv(&v).to_string(),
        "{ match v { trade_meta_compiler :: RuntimeValue :: Tuple (__tup_items) if __tup_items . len () >= 2usize => { ({ match & __tup_items [0usize] { trade_meta_compiler :: RuntimeValue :: Bool (b) => * b , _ => false , } } , __tup_items [1usize] . as_f64 ()) } _ => Default :: default () , } }"
    );
    for ty in [
        TradeType::StringTy,
        TradeType::Address,
        TradeType::Bool,
        TradeType::List(Box::new(TradeType::Price)),
        TradeType::Tuple(vec![TradeType::Price]),
    ] {
        let text = TradeType::Tuple(vec![ty]).extract_from_rv(&v).to_string();
        assert!(text.contains("match & __tup_items [0usize] {"), "{}", text);
    }
    for ty in [
        TradeType::Price,
        TradeType::Amount,
        TradeType::Duration,
        TradeType::TimePoint,
        TradeType::Percent,
        TradeType::Count,
        TradeType::Number,
        TradeType::Any,
        TradeType::Union(vec![TradeType::Price, TradeType::Bool]),
        TradeType::Alias("X".to_string()),
    ] {
        let text = TradeType::Tuple(vec![ty]).extract_from_rv(&v).to_string();
        assert!(text.contains("{ (__tup_items [0usize] . "), "{}", text);
    }
}

#[test]
fn descriptions_tell_types_apart() {
    let texts: Vec<String> = [
        TradeType::StringTy,
        TradeType::Address,
        TradeType::Price,
        TradeType::Amount,
        TradeType::Tuple(vec![]),
        TradeType::Tuple(vec![TradeType::Price]),
        TradeType::Tuple(vec![TradeType::Price, TradeType::Amount]),
        TradeType::Tuple(vec![TradeType::Tuple(vec![TradeType::Price, TradeType::Amount])]),
        TradeType::Tuple(vec![TradeType::Tuple(vec![TradeType::Price]), TradeType::Amount]),
        TradeType::List(Box::new(TradeType::Price)),
        TradeType::List(Box::new(TradeType::List(Box::new(TradeType::Price)))),
    ]
    .iter()
    .map(|ty| ty.type_spec().to_string())
    .collect();
    for i in 0..texts.len() {
        for j in 0..i {
            assert_ne!(texts[i], texts[j]);
        }
    }
}

#[test]
fn the_empty_tuple_makes_the_same_value_of_every_value() {
    let empty = TradeType::Tuple(vec![]);
    let made = empty.wrap_in_rv(&stream("x"));
    assert_eq!(made.to_string(), "trade_meta_compiler :: RuntimeValue :: Tuple (vec ! [])");
    assert_eq!(empty.wrap_in_rv(&made).to_string(), made.to_string());
}

#[test]
fn values_into_a_runtime_value() {
    let x = stream("x");
    let cases = vec![
        (TradeType::Price, "Price (x)"),
        (TradeType::Amount, "Amount (x , :: std :: string :: String :: new ())"),
        (TradeType::Duration, "Duration (x as f64)"),
        (TradeType::TimePoint, "TimePoint (x)"),
        (TradeType::Percent, "Percent (x)"),
        (TradeType::Count, "Count (x)"),
        (TradeType::Number, "Number (x)"),
        (TradeType::StringTy, "Str (x)"),
        (TradeType::Address, "Str (x)"),
        (TradeType::Bool, "Bool (x)"),
        (
            TradeType::List(Box::new(TradeType::Count)),
            "List (x . into_iter () . map (| __item | trade_meta_compiler :: RuntimeValue :: Count (__item)) . collect ())",
        ),
        (
            pair(),
            "Tuple (vec ! [trade_meta_compiler :: RuntimeValue :: Price (x . 0) , trade_meta_compiler :: RuntimeValue :: Bool (x . 1)])",
        ),
    ];
    for (ty, expected) in cases {
        assert_eq!(
            ty.wrap_in_rv(&x).to_string(),
            format!("trade_meta_compiler :: RuntimeValue :: {}", expected)
        );
    }
}

#[test]
fn a_runtime_value_passes_unchanged() {
    let x = stream("x");
    for ty in [
        TradeType::Any,
        TradeType::Alias("X".to_string()),
        TradeType::Union(vec![TradeType::Price, TradeType::Bool]),
    ] {
        assert!(ty.is_runtime_value_type());
        assert_eq!(ty.rust_type().to_string(), "trade_meta_compiler :: RuntimeValue");
        assert_eq!(ty.wrap_in_rv(&x).to_string(), "x");
        assert_eq!(ty.extract_from_rv(&x).to_string(), "x . clone ()");
    }
    for ty in [TradeType::Price, pair(), TradeType::List(Box::new(TradeType::Any))] {
        assert!(!ty.is_runtime_value_type());
    }
}

#[test]
fn numbers_with_several_digits() {
    let mut elems = Vec::new();
    for _ in 0..12 {
        elems.push(TradeType::Any);
    }
    let text = TradeType::Tuple(elems).wrap_in_rv(&stream("x")).to_string();
    assert!(text.contains("x . 9 , x . 10 , x . 11"));
}
