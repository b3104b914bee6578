use proc_macro2::{Delimiter, Group, Span, TokenStream, TokenTree};
use trade_symbol::define_symbol;
use trade_symbol::grammar::{Category, CtxOp};
use trade_symbol::symbol::{
    category_of, operation_of, parse_behind_type, parse_definition, SymbolDef,
};
use trade_symbol::syntax::Input;
use trade_symbol::trade_type::TradeType;

fn stream(text: &str) -> TokenStream {
    text.parse().unwrap()
}

fn read(text: &str) -> SymbolDef {
    match parse_definition(stream(text)) {
        Ok(def) => def,
        Err(report) => panic!("{}", report.message),
    }
}

fn message(input: TokenStream) -> String {
    match parse_definition(input.clone()) {
        Ok(_) => panic!("no error"),
        Err(report) => {
            assert_eq!(
                report.tokens.to_string(),
                format!(":: core :: compile_error ! {{ {:?} }}", report.message)
            );
            assert_eq!(define_symbol(input).unwrap().to_string(), report.tokens.to_string());
            report.message
        }
    }
}

fn refused(text: &str) -> String {
    message(stream(text))
}

fn clause(text: &str) -> String {
    refused(&format!("executor X {{ {} }}", text))
}

fn param(ty: &str) -> TradeType {
    let mut def = read(&format!("executor X {{ param p: {}; }}", ty));
    assert_eq!(def.params.len(), 1);
    def.params.pop().unwrap().trade_type
}

fn invisible(inner: TokenStream) -> TokenStream {
    TokenStream::from(TokenTree::Group(Group::new(Delimiter::None, inner)))
}

fn two(first: TokenStream, second: TokenStream) -> TokenStream {
    let mut all = first;
    all.extend([second]);
    all
}

#[test]
fn a_whole_definition() {
    let def = read(
        "pub executor PumpBuy {
            context need PumpTradeCtx => \"pump_trade\";
            context produce Vec<Order> => \"orders\";
            context consume Quote => \"quote\";
            param amount: Amount;
            optional param slippage: Percent;
            returns (Price, Bool);
        }",
    );
    assert_eq!(def.vis.to_string(), "pub");
    assert_eq!(def.category, Category::Executor);
    assert_eq!(def.name.text, "PumpBuy");
    assert_eq!(def.name.token.to_string(), "PumpBuy");
    assert_eq!(def.contexts.len(), 3);
    assert_eq!(def.contexts[0].op, CtxOp::Need);
    assert_eq!(def.contexts[0].ty.to_string(), "PumpTradeCtx");
    assert_eq!(def.contexts[0].protocol.value, "pump_trade");
    assert_eq!(def.contexts[0].protocol.token.to_string(), "\"pump_trade\"");
    assert_eq!(def.contexts[1].op, CtxOp::Produce);
    assert_eq!(def.contexts[1].ty.to_string(), "Vec < Order >");
    assert_eq!(def.contexts[2].op, CtxOp::Consume);
    assert_eq!(def.params.len(), 2);
    assert_eq!(def.params[0].name.text, "amount");
    assert!(def.params[0].required);
    assert!(matches!(def.params[0].trade_type, TradeType::Amount));
    assert_eq!(def.params[1].name.text, "slippage");
    assert!(!def.params[1].required);
    assert!(matches!(def.params[1].trade_type, TradeType::Percent));
    let types = def.returns.unwrap().types;
    assert_eq!(types.len(), 2);
    assert!(matches!(types[0], TradeType::Price));
    assert!(matches!(types[1], TradeType::Bool));
}

#[test]
fn categories() {
    assert_eq!(read("monitor X {}").category, Category::Monitor);
    assert_eq!(read("executor X {}").category, Category::Executor);
    assert_eq!(read("data_item X {}").category, Category::DataItem);
    assert_eq!(read("condition X {}").category, Category::Condition);
}

#[test]
fn visibilities() {
    assert_eq!(read("monitor X {}").vis.to_string(), "");
    assert_eq!(read("pub(crate) monitor X {}").vis.to_string(), "pub (crate)");
    assert_eq!(read("pub(in a::b) monitor X {}").vis.to_string(), "pub (in a :: b)");
}

#[test]
fn a_parenthesis_that_is_no_visibility_is_left() {
    assert_eq!(refused("pub (a) monitor X {}"), "expected identifier");
    assert_eq!(refused("pub(in 1) monitor X {}"), "expected identifier");
}

#[test]
fn named_types() {
    assert!(matches!(param("String"), TradeType::StringTy));
    match param("Slippage") {
        TradeType::Alias(name) => assert_eq!(name, "Slippage"),
        _ => panic!("no alias"),
    }
}

#[test]
fn list_types() {
    match param("[Address]") {
        TradeType::List(elem) => assert!(matches!(*elem, TradeType::Address)),
        _ => panic!("no list"),
    }
}

#[test]
fn tuple_types() {
    match param("(Price, [Bool], (Any,), Percent | Amount)") {
        TradeType::Tuple(types) => {
            assert_eq!(types.len(), 4);
            assert!(matches!(types[0], TradeType::Price));
            assert!(matches!(types[1], TradeType::List(_)));
            assert!(matches!(types[2], TradeType::Tuple(_)));
            assert!(matches!(types[3], TradeType::Union(_)));
        }
        _ => panic!("no tuple"),
    }
    match param("()") {
        TradeType::Tuple(types) => assert!(types.is_empty()),
        _ => panic!("no tuple"),
    }
}

#[test]
fn choice_types() {
    match param("Percent | [Amount] | Price") {
        TradeType::Union(types) => {
            assert_eq!(types.len(), 3);
            assert!(matches!(types[0], TradeType::Percent));
            assert!(matches!(types[1], TradeType::List(_)));
            assert!(matches!(types[2], TradeType::Price));
        }
        _ => panic!("no choice"),
    }
}

#[test]
fn returns_in_every_form() {
    assert!(read("executor X {}").returns.is_none());
    assert_eq!(read("executor X { returns Price; }").returns.unwrap().types.len(), 1);
    assert_eq!(read("executor X { returns (Price); }").returns.unwrap().types.len(), 1);
    assert_eq!(read("executor X { returns (); }").returns.unwrap().types.len(), 0);
    assert_eq!(read("executor X { returns (Price, Bool,); }").returns.unwrap().types.len(), 2);
}

#[test]
fn the_last_returns_counts() {
    let types = read("executor X { returns Price; returns (Bool, Any); }").returns.unwrap().types;
    assert_eq!(types.len(), 2);
    assert!(matches!(types[0], TradeType::Bool));
}

#[test]
fn an_optional_parameter() {
    let def = read("executor X { optional param p: Price; }");
    assert_eq!(def.params.len(), 1);
    assert!(!def.params[0].required);
    assert_eq!(def.params[0].name.text, "p");
}

#[test]
fn any_word_may_follow_optional() {
    let def = read("executor X { optional thing x: Price; }");
    assert_eq!(def.params.len(), 1);
    assert!(!def.params[0].required);
    assert_eq!(def.params[0].name.text, "x");
    assert_eq!(clause("optional p: Price;"), "expected identifier");
    assert_eq!(clause("optional"), "unexpected end of input, expected identifier");
    assert_eq!(clause("optional fn"), "expected identifier, found keyword `fn`");
}

#[test]
fn words_by_themselves() {
    let word = |text: &str| read(&format!("executor {} {{}}", text)).name;
    assert!(matches!(category_of(&word("data_item")), Ok(Category::DataItem)));
    assert!(matches!(operation_of(&word("consume")), Ok(CtxOp::Consume)));
    match category_of(&word("consume")) {
        Ok(_) => panic!("no error"),
        Err(report) => assert_eq!(
            report.message,
            "Expected 'monitor', 'executor', 'data_item', or 'condition', got 'consume'"
        ),
    }
    match operation_of(&word("monitor")) {
        Ok(_) => panic!("no error"),
        Err(report) => assert_eq!(
            report.message,
            "Expected 'produce', 'need', or 'consume', got 'monitor'"
        ),
    }
}

#[test]
fn interleaving_does_not_matter() {
    let texts = [
        "executor X { context need A => \"a\"; context need B => \"b\"; param p: Any; param q: Bool; returns Price; }",
        "executor X { returns Bool; param p: Any; context need A => \"a\"; returns Price; param q: Bool; context need B => \"b\"; }",
    ];
    for text in texts {
        let def = read(text);
        let protocols: Vec<&str> = def.contexts.iter().map(|c| c.protocol.value.as_str()).collect();
        let names: Vec<&str> = def.params.iter().map(|p| p.name.text.as_str()).collect();
        assert_eq!(protocols, ["a", "b"]);
        assert_eq!(names, ["p", "q"]);
        let types = def.returns.unwrap().types;
        assert_eq!(types.len(), 1);
        assert!(matches!(types[0], TradeType::Price));
    }
}

#[test]
fn one_return_type_in_every_form() {
    for text in ["Price", "(Price)", "(Price,)"] {
        let types = read(&format!("executor X {{ returns {}; }}", text)).returns.unwrap().types;
        assert_eq!(types.len(), 1);
        assert!(matches!(types[0], TradeType::Price));
    }
    assert!(read("executor X { returns (); }").returns.unwrap().types.is_empty());
    assert!(read("executor X {}").returns.is_none());
}

#[test]
fn what_follows_a_visibility() {
    let mut input = Input { tokens: stream("condition X { returns Bool; } rest"), scope: Span::call_site() };
    let mut unexpected = None;
    match SymbolDef::parse_behind_visibility(stream("pub(super)"), &mut input, &mut unexpected) {
        Ok(def) => {
            assert_eq!(def.vis.to_string(), "pub (super)");
            assert_eq!(def.category, Category::Condition);
            assert_eq!(def.name.text, "X");
        }
        Err(report) => panic!("{}", report.message),
    }
    assert_eq!(input.tokens.to_string(), "rest");
    assert!(unexpected.is_none());
}

#[test]
fn what_follows_a_type() {
    let mut input = Input { tokens: stream("=> \"a\"; rest"), scope: Span::call_site() };
    match parse_behind_type(CtxOp::Need, stream("A<B>"), &mut input) {
        Ok(context) => {
            assert_eq!(context.op, CtxOp::Need);
            assert_eq!(context.ty.to_string(), "A < B >");
            assert_eq!(context.protocol.value, "a");
        }
        Err(report) => panic!("{}", report.message),
    }
    assert_eq!(input.tokens.to_string(), "rest");
    let mut input = Input { tokens: stream("\"a\";"), scope: Span::call_site() };
    match parse_behind_type(CtxOp::Need, stream("A"), &mut input) {
        Ok(_) => panic!("no error"),
        Err(report) => assert_eq!(report.message, "expected `=>`"),
    }
}

#[test]
fn clauses_come_in_any_order() {
    let def = read("executor X { returns Price; param a: Any; context need A => \"a\"; param b: Any; }");
    assert_eq!(def.params[0].name.text, "a");
    assert_eq!(def.params[1].name.text, "b");
    assert_eq!(def.contexts.len(), 1);
}

#[test]
fn raw_names() {
    let def = read("executor r#type { param r#fn: Any; }");
    assert_eq!(def.name.text, "r#type");
    assert_eq!(def.params[0].name.text, "r#fn");
}

#[test]
fn a_raw_protocol_has_its_value() {
    let def = read("executor X { context need A => r\"a\"; }");
    assert_eq!(def.contexts[0].protocol.value, "a");
    assert_eq!(def.contexts[0].protocol.token.to_string(), "r\"a\"");
    let def = read("executor X { context need A => \"\\x61b\"; }");
    assert_eq!(def.contexts[0].protocol.value, "ab");
}

#[test]
fn an_unknown_category() {
    assert_eq!(
        refused("observer X {}"),
        "Expected 'monitor', 'executor', 'data_item', or 'condition', got 'observer'"
    );
    assert_eq!(
        refused("r#monitor X {}"),
        "Expected 'monitor', 'executor', 'data_item', or 'condition', got 'r#monitor'"
    );
}

#[test]
fn an_unknown_operation() {
    assert_eq!(
        clause("context take A => \"a\";"),
        "Expected 'produce', 'need', or 'consume', got 'take'"
    );
}

#[test]
fn an_unknown_clause() {
    assert_eq!(
        clause("argument a: Any;"),
        "Expected 'context', 'param', 'optional', or 'returns', got 'argument'"
    );
}

#[test]
fn what_ends_too_early() {
    assert_eq!(refused(""), "unexpected end of input, expected identifier");
    assert_eq!(refused("executor"), "unexpected end of input, expected identifier");
    assert_eq!(refused("executor X"), "unexpected end of input, expected curly braces");
    assert_eq!(clause("param"), "unexpected end of input, expected identifier");
    assert_eq!(clause("context need A =>"), "unexpected end of input, expected string literal");
}

#[test]
fn what_stands_in_the_wrong_place() {
    assert_eq!(refused("executor X ()"), "expected curly braces");
    assert_eq!(refused("executor 1 {}"), "expected identifier");
    assert_eq!(refused("executor fn {}"), "expected identifier, found keyword `fn`");
    assert_eq!(clause("param self: Any;"), "expected identifier, found keyword `self`");
    assert_eq!(clause("param a Any;"), "expected `:`");
    assert_eq!(clause("param a: Any"), "expected `;`");
    assert_eq!(clause("param a: Any,"), "expected `;`");
    assert_eq!(clause("context need A = > \"a\";"), "expected `=>`");
    assert_eq!(clause("context need A => a;"), "expected string literal");
    assert_eq!(clause("context need A => 'a';"), "expected string literal");
    assert_eq!(clause("context need A => \"a\""), "expected `;`");
    assert_eq!(clause("returns Price"), "expected `;`");
    assert_eq!(clause("returns [Price];"), "expected identifier");
    assert_eq!(clause("returns (Price | Bool);"), "unexpected token, expected `)`");
    assert_eq!(clause("param a: Price |;"), "expected identifier");
    assert_eq!(clause("param a: [];"), "unexpected end of input, expected identifier");
    assert!(clause("context need => \"a\";").starts_with("expected one of: "));
}

#[test]
fn what_a_group_holds_too_much() {
    assert_eq!(clause("param a: [Price Bool];"), "unexpected token, expected `]`");
    assert_eq!(clause("param a: [Price, Bool];"), "unexpected token, expected `]`");
    assert_eq!(clause("param a: (Price Bool);"), "unexpected token, expected `)`");
    assert_eq!(clause("returns (Price Bool);"), "unexpected token, expected `)`");
}

#[test]
fn the_first_group_that_holds_too_much_is_reported() {
    assert_eq!(
        clause("param a: [Price Bool]; param b: (Price Bool);"),
        "unexpected token, expected `]`"
    );
    assert_eq!(
        clause("param b: ((Price [Bool]) Bool); param a: [Price Bool];"),
        "unexpected token, expected `)`"
    );
}

#[test]
fn another_error_comes_before_a_group_that_holds_too_much() {
    assert_eq!(clause("param a: [Price Bool] param"), "expected `;`");
    assert_eq!(
        clause("param a: [Price Bool]; other"),
        "Expected 'context', 'param', 'optional', or 'returns', got 'other'"
    );
}

#[test]
fn what_stands_behind_the_definition() {
    assert_eq!(refused("executor X {} executor Y {}"), "unexpected token");
    assert_eq!(refused("executor X { param a: [Price Bool]; } ;"), "unexpected token, expected `]`");
}

#[test]
fn what_a_type_holds_too_much() {
    assert_eq!(clause("context need [A B] => \"a\";"), "unexpected token, expected `]`");
    assert_eq!(clause("context need [A B] => \"a\""), "expected `;`");
    assert_eq!(
        clause("context need [A B] => \"a\"; param b: (Price Bool);"),
        "unexpected token, expected `]`"
    );
    assert_eq!(
        clause("param b: (Price Bool); context need [A B] => \"a\";"),
        "unexpected token, expected `)`"
    );
}

#[test]
fn invisible_brackets_are_seen_through() {
    let def = two(invisible(stream("pub executor")), invisible(stream("X { returns Price; }")));
    match parse_definition(def) {
        Ok(def) => {
            assert_eq!(def.name.text, "X");
            assert_eq!(def.returns.unwrap().types.len(), 1);
        }
        Err(report) => panic!("{}", report.message),
    }
}

#[test]
fn invisible_brackets_with_nothing_in_them_are_no_token() {
    let nothing = invisible(TokenStream::new());
    assert!(parse_definition(two(stream("executor X {}"), nothing.clone())).is_ok());
    assert_eq!(
        message(two(stream("executor X {}"), two(nothing, invisible(stream("a"))))),
        "unexpected token"
    );
}

#[test]
fn the_protocol_need_not_be_a_name_to_be_read() {
    let def = read("monitor X { context produce A => \"any text\"; }");
    assert_eq!(def.contexts[0].protocol.value, "any text");
}
