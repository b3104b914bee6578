use proc_macro2::{Delimiter, TokenStream, TokenTree};
use trade_symbol::define_symbol;
use trade_symbol::generate::{
    gen_adapter, gen_context_handling, gen_handler_trait, gen_metadata, gen_param_extractions,
    generate, make_context_not_found, names_fit,
};
use trade_symbol::grammar::Category;
use trade_symbol::symbol::{parse_definition, SymbolDef};

fn stream(text: &str) -> TokenStream {
    text.parse().unwrap()
}

fn flatten(stream: TokenStream, out: &mut Vec<String>) {
    for tree in stream {
        match tree {
            TokenTree::Group(group) => {
                let (open, close) = match group.delimiter() {
                    Delimiter::Parenthesis => ("(", ")"),
                    Delimiter::Brace => ("{", "}"),
                    Delimiter::Bracket => ("[", "]"),
                    Delimiter::None => ("<none>", "</none>"),
                };
                out.push(open.to_string());
                flatten(group.stream(), out);
                out.push(close.to_string());
            }
            other => out.push(other.to_string()),
        }
    }
}

fn flat(stream: TokenStream) -> Vec<String> {
    let mut out = Vec::new();
    flatten(stream, &mut out);
    out
}

fn code(text: &str) -> Vec<String> {
    flat(stream(text))
}

fn read(text: &str) -> SymbolDef {
    match parse_definition(stream(text)) {
        Ok(def) => {
            assert!(names_fit(&def));
            def
        }
        Err(report) => panic!("{}", report.message),
    }
}

const BUY: &str = "pub executor PumpBuy {
    context need PumpTradeCtx => \"pump_trade\";
    param amount: Amount;
    param slippage: Percent;
    returns (Price, Price);
}";

const BUY_METADATA: &str = "pub fn pump_buy_metadata() -> trade_meta_compiler::SymbolMetadata {
    trade_meta_compiler::SymbolMetadata {
        name: \"PumpBuy\",
        returns: Some(trade_meta_compiler::TypeSpec::Tuple(vec![
            trade_meta_compiler::TypeSpec::Price,
            trade_meta_compiler::TypeSpec::Price
        ])),
        params: vec![
            trade_meta_compiler::ParamSpec::required(\"amount\", trade_meta_compiler::TypeSpec::Amount),
            trade_meta_compiler::ParamSpec::required(\"slippage\", trade_meta_compiler::TypeSpec::Percent)
        ],
        category: trade_meta_compiler::SymbolCategory::Executor,
        contexts: vec![trade_meta_compiler::ContextInteraction::need(\"pump_trade\")],
    }
}";

const BUY_HANDLER: &str = "#[async_trait::async_trait]
pub trait PumpBuyHandler: Send + Sync {
    async fn execute(
        &self,
        amount: f64,
        slippage: f64,
        pump_trade: &PumpTradeCtx,
        ctx: &::std::sync::Arc<trade_lang_core::TradeTaskContext>
    ) -> trade_lang_core::ExecutorResult<(f64, f64)>;
}";

const BUY_ADAPTER: &str = "pub struct PumpBuyAdapter<H: PumpBuyHandler>(pub H);

#[async_trait::async_trait]
impl<H: PumpBuyHandler + 'static> trade_lang_core::ExecutorHandler for PumpBuyAdapter<H> {
    fn declared_return_type(&self) -> Option<trade_meta_compiler::TypeSpec> {
        Some(trade_meta_compiler::TypeSpec::Tuple(vec![
            trade_meta_compiler::TypeSpec::Price,
            trade_meta_compiler::TypeSpec::Price
        ]))
    }

    async fn execute(
        &self,
        args: &::std::collections::HashMap<::std::string::String, trade_meta_compiler::RuntimeValue>,
        ctx: &::std::sync::Arc<trade_lang_core::TradeTaskContext>,
    ) -> Option<trade_meta_compiler::RuntimeValue> {
        let amount = args.get(\"amount\").map(|v| v.as_f64()).unwrap_or_default();
        let slippage = args.get(\"slippage\").map(|v| v.as_f64()).unwrap_or_default();
        let pump_trade: ::std::sync::Arc<PumpTradeCtx> = match ctx.get_context::<PumpTradeCtx>(\"pump_trade\").await {
            Some(v) => v,
            None => {
                log::warn!(\"[context] 'pump_trade' not available\");
                ctx.signal_done();
                return None;
            }
        };
        let (__r0, __r1) = match self.0.execute(amount, slippage, &pump_trade, ctx).await {
            Ok(v) => v,
            Err(e) => {
                log::warn!(\"[executor] execute failed: {}, triggering finally\", e);
                ctx.signal_done();
                return None;
            }
        };
        Some(trade_meta_compiler::RuntimeValue::Tuple(vec![
            trade_meta_compiler::RuntimeValue::Price(__r0),
            trade_meta_compiler::RuntimeValue::Price(__r1)
        ]))
    }
}";

#[test]
fn an_executor() {
    let def = read(BUY);
    assert_eq!(flat(gen_metadata(&def)), code(BUY_METADATA));
    assert_eq!(flat(gen_handler_trait(&def)), code(BUY_HANDLER));
    assert_eq!(flat(gen_adapter(&def)), code(BUY_ADAPTER));
    let all = format!(
        "{} {} {} trade_meta_compiler::inventory::submit! {{
            trade_meta_compiler::SymbolFactory(pump_buy_metadata)
        }}",
        BUY_METADATA, BUY_HANDLER, BUY_ADAPTER
    );
    assert_eq!(flat(generate(&def)), code(&all));
    assert_eq!(flat(define_symbol(stream(BUY)).unwrap()), code(&all));
}

#[test]
fn an_executor_that_returns_nothing() {
    let def = read("executor Stop { context consume Position => \"position\"; }");
    assert_eq!(
        flat(gen_handler_trait(&def)),
        code(
            "#[async_trait::async_trait]
            trait StopHandler: Send + Sync {
                async fn execute(
                    &self,
                    position: ::std::sync::Arc<Position>,
                    ctx: &::std::sync::Arc<trade_lang_core::TradeTaskContext>
                ) -> trade_lang_core::ExecutorResult<()>;
            }"
        )
    );
    assert_eq!(
        flat(gen_adapter(&def)),
        code(
            "struct StopAdapter<H: StopHandler>(pub H);

            #[async_trait::async_trait]
            impl<H: StopHandler + 'static> trade_lang_core::ExecutorHandler for StopAdapter<H> {
                fn declared_return_type(&self) -> Option<trade_meta_compiler::TypeSpec> {
                    None
                }

                async fn execute(
                    &self,
                    args: &::std::collections::HashMap<::std::string::String, trade_meta_compiler::RuntimeValue>,
                    ctx: &::std::sync::Arc<trade_lang_core::TradeTaskContext>,
                ) -> Option<trade_meta_compiler::RuntimeValue> {
                    let position: ::std::sync::Arc<Position> = match ctx.consume_context::<Position>(\"position\").await {
                        Some(v) => v,
                        None => {
                            log::warn!(\"[context] 'position' not available\");
                            ctx.signal_done();
                            return None;
                        }
                    };
                    match self.0.execute(position, ctx).await {
                        Ok(()) => {},
                        Err(e) => {
                            log::warn!(\"[executor] execute failed: {}, triggering finally\", e);
                            ctx.signal_done();
                            return None;
                        }
                    }
                    Some(trade_meta_compiler::RuntimeValue::Unit)
                }
            }"
        )
    );
}

#[test]
fn an_executor_that_returns_one_value() {
    let text = gen_adapter(&read("executor X { returns Amount; }")).to_string();
    assert!(text.contains("let __result = match self . 0 . execute (ctx) . await { Ok (v) => v ,"));
    assert!(text.contains(
        "Some (trade_meta_compiler :: RuntimeValue :: Amount (__result , :: std :: string :: String :: new ()))"
    ));
    let text = gen_handler_trait(&read("executor X { returns Amount; }")).to_string();
    assert!(text.ends_with("-> trade_lang_core :: ExecutorResult < f64 > ; }"));
}

#[test]
fn an_executor_with_an_empty_list_of_types() {
    let def = read("executor X { returns (); }");
    assert!(gen_metadata(&def).to_string().contains(
        "returns : Some (trade_meta_compiler :: TypeSpec :: Tuple (vec ! []))"
    ));
    let text = gen_adapter(&def).to_string();
    assert!(text.contains("let () = match self . 0 . execute (ctx) . await"));
    assert!(text.contains("Some (trade_meta_compiler :: RuntimeValue :: Tuple (vec ! []))"));
}

#[test]
fn an_executor_with_many_types() {
    let def = read(
        "executor X { returns (Any, Any, Any, Any, Any, Any, Any, Any, Any, Any, Bool); }",
    );
    let text = gen_adapter(&def).to_string();
    assert!(text.contains("let (__r0 , __r1 , __r2 , __r3 , __r4 , __r5 , __r6 , __r7 , __r8 , __r9 , __r10) ="));
    assert!(text.contains("__r9 , trade_meta_compiler :: RuntimeValue :: Bool (__r10)"));
}

#[test]
fn a_monitor() {
    let def = read(
        "pub(crate) monitor NewPair {
            context produce PairCtx => \"pair\";
            param dex: String;
            optional param min: Amount;
        }",
    );
    assert_eq!(
        flat(gen_metadata(&def)),
        code(
            "pub(crate) fn new_pair_metadata() -> trade_meta_compiler::SymbolMetadata {
                trade_meta_compiler::SymbolMetadata {
                    name: \"NewPair\",
                    returns: None,
                    params: vec![
                        trade_meta_compiler::ParamSpec::required(\"dex\", trade_meta_compiler::TypeSpec::String),
                        trade_meta_compiler::ParamSpec::optional(\"min\", trade_meta_compiler::TypeSpec::Amount)
                    ],
                    category: trade_meta_compiler::SymbolCategory::Monitor,
                    contexts: vec![trade_meta_compiler::ContextInteraction::produce(\"pair\")],
                }
            }"
        )
    );
    assert_eq!(
        flat(gen_handler_trait(&def)),
        code(
            "#[async_trait::async_trait]
            pub(crate) trait NewPairHandler: Send + Sync {
                async fn start(
                    &self,
                    dex: ::std::string::String,
                    min: Option<f64>,
                    cancel: trade_lang_core::CancellationToken
                ) -> trade_lang_core::monitor_mpsc::Receiver<trade_lang_core::MonitorMessage>;
            }"
        )
    );
    assert_eq!(
        flat(gen_adapter(&def)),
        code(
            "pub(crate) struct NewPairAdapter<H: NewPairHandler>(pub H);

            #[async_trait::async_trait]
            impl<H: NewPairHandler + 'static> trade_lang_core::MonitorHandler for NewPairAdapter<H> {
                async fn start(
                    &self,
                    args: &::std::collections::HashMap<::std::string::String, trade_meta_compiler::RuntimeValue>,
                    cancel: trade_lang_core::CancellationToken,
                ) -> trade_lang_core::monitor_mpsc::Receiver<trade_lang_core::MonitorMessage> {
                    let dex = args.get(\"dex\").map(|v| {
                        match v {
                            trade_meta_compiler::RuntimeValue::Str(s) => s.clone(),
                            _ => ::std::string::String::new(),
                        }
                    }).unwrap_or_default();
                    let min = args.get(\"min\").map(|v| v.as_f64());
                    self.0.start(dex, min, cancel).await
                }
            }"
        )
    );
}

#[test]
fn a_data_item() {
    let def = read(
        "pub data_item Holders {
            context need TokenCtx => \"token\";
            param token: Address;
            returns Count;
        }",
    );
    assert_eq!(
        flat(gen_handler_trait(&def)),
        code(
            "#[async_trait::async_trait]
            pub trait HoldersHandler: Send + Sync {
                async fn get(
                    &self,
                    token: ::std::string::String,
                    token: &TokenCtx,
                    ctx: &::std::sync::Arc<trade_lang_core::TradeTaskContext>
                ) -> f64;
            }"
        )
    );
    assert_eq!(
        flat(gen_adapter(&def)),
        code(
            "pub struct HoldersAdapter<H: HoldersHandler>(pub H);

            #[async_trait::async_trait]
            impl<H: HoldersHandler + 'static> trade_lang_core::DataItemHandler for HoldersAdapter<H> {
                fn declared_return_type(&self) -> trade_meta_compiler::TypeSpec {
                    trade_meta_compiler::TypeSpec::Count
                }

                async fn get(
                    &self,
                    args: &::std::collections::HashMap<::std::string::String, trade_meta_compiler::RuntimeValue>,
                    ctx: &::std::sync::Arc<trade_lang_core::TradeTaskContext>,
                ) -> trade_meta_compiler::RuntimeValue {
                    let token = args.get(\"token\").map(|v| {
                        match v {
                            trade_meta_compiler::RuntimeValue::Str(s) => s.clone(),
                            _ => ::std::string::String::new(),
                        }
                    }).unwrap_or_default();
                    let token: ::std::sync::Arc<TokenCtx> = match ctx.get_context::<TokenCtx>(\"token\").await {
                        Some(v) => v,
                        None => {
                            log::warn!(\"[context] 'token' not available\");
                            ctx.signal_done();
                            return trade_meta_compiler::RuntimeValue::Unit;
                        }
                    };
                    let __result = self.0.get(token, &token, ctx).await;
                    trade_meta_compiler::RuntimeValue::Count(__result)
                }
            }"
        )
    );
}

#[test]
fn a_data_item_declares_what_its_metadata_names() {
    let def = read("data_item X { returns Address; }");
    assert!(gen_metadata(&def).to_string().contains(
        "returns : Some (trade_meta_compiler :: TypeSpec :: Address) ,"
    ));
    assert!(gen_adapter(&def).to_string().contains(
        "fn declared_return_type (& self) -> trade_meta_compiler :: TypeSpec { trade_meta_compiler :: TypeSpec :: Address }"
    ));
}

#[test]
fn a_data_item_without_one_type() {
    let cases = [
        ("data_item X {}", "trade_meta_compiler :: RuntimeValue :: Unit"),
        (
            "data_item X { returns (Price, Bool); }",
            "trade_meta_compiler :: RuntimeValue :: Tuple (vec ! [trade_meta_compiler :: RuntimeValue :: Price (__result . 0) , trade_meta_compiler :: RuntimeValue :: Bool (__result . 1)])",
        ),
        ("data_item X { returns (); }", "trade_meta_compiler :: RuntimeValue :: Tuple (vec ! [])"),
    ];
    for (text, value) in cases {
        let adapter = gen_adapter(&read(text)).to_string();
        assert!(adapter.contains("{ trade_meta_compiler :: TypeSpec :: Any }"));
        assert!(adapter.ends_with(&format!(
            "let __result = self . 0 . get (ctx) . await ; {} }} }}",
            value
        )));
    }
    let handler = gen_handler_trait(&read("data_item X {}")).to_string();
    assert!(handler.ends_with("-> () ; }"));
    let handler = gen_handler_trait(&read("data_item X { returns (Price, Bool); }")).to_string();
    assert!(handler.ends_with("-> (f64 , bool) ; }"));
}

#[test]
fn a_condition() {
    let def = read("pub condition Above { param level: Price; returns Price; }");
    assert_eq!(
        flat(gen_handler_trait(&def)),
        code(
            "#[async_trait::async_trait]
            pub trait AboveHandler: Send + Sync {
                async fn evaluate(
                    &self,
                    level: f64,
                    ctx: &::std::sync::Arc<trade_lang_core::TradeTaskContext>
                ) -> bool;
            }"
        )
    );
    assert_eq!(
        flat(gen_adapter(&def)),
        code(
            "pub struct AboveAdapter<H: AboveHandler>(pub H);

            #[async_trait::async_trait]
            impl<H: AboveHandler + 'static> trade_lang_core::ConditionHandler for AboveAdapter<H> {
                async fn evaluate(
                    &self,
                    args: &::std::collections::HashMap<::std::string::String, trade_meta_compiler::RuntimeValue>,
                    ctx: &::std::sync::Arc<trade_lang_core::TradeTaskContext>,
                ) -> bool {
                    let level = args.get(\"level\").map(|v| v.as_f64()).unwrap_or_default();
                    let __result = self.0.evaluate(level, ctx).await;
                    __result
                }
            }"
        )
    );
}

#[test]
fn descriptions_of_parameters() {
    let def = read(
        "condition X {
            param a: Percent | Amount;
            optional param b: Percent | Amount;
            param c: Slippage;
            optional param d: Slippage;
            param e: [Address];
        }",
    );
    let text = flat(gen_metadata(&def)).join(" ");
    let expected = code(
        "params: vec![
            trade_meta_compiler::ParamSpec::required_multi(\"a\", vec![
                trade_meta_compiler::TypeSpec::Percent, trade_meta_compiler::TypeSpec::Amount
            ]),
            trade_meta_compiler::ParamSpec::optional_multi(\"b\", vec![
                trade_meta_compiler::TypeSpec::Percent, trade_meta_compiler::TypeSpec::Amount
            ]),
            trade_meta_compiler::ParamSpec::required_multi(
                \"c\",
                trade_meta_compiler::TypeAliasDef::lookup(\"Slippage\")
                    .unwrap_or_else(|| panic!(\"TypeAlias '{}' not registered\", \"Slippage\"))
            ),
            trade_meta_compiler::ParamSpec::optional_multi(
                \"d\",
                trade_meta_compiler::TypeAliasDef::lookup(\"Slippage\")
                    .unwrap_or_else(|| panic!(\"TypeAlias '{}' not registered\", \"Slippage\"))
            ),
            trade_meta_compiler::ParamSpec::required(
                \"e\",
                trade_meta_compiler::TypeSpec::List(Box::new(trade_meta_compiler::TypeSpec::Address))
            )
        ],",
    )
    .join(" ");
    assert!(text.contains(&expected));
}

#[test]
fn parameters_out_of_the_arguments() {
    let def = read(
        "condition X {
            param a: Any;
            optional param b: Slippage;
            param c: Duration;
            optional param d: Duration;
        }",
    );
    let statements = gen_param_extractions(&def);
    let expected = [
        "let a = args . get (\"a\") . cloned () . unwrap_or (trade_meta_compiler :: RuntimeValue :: Unit) ;",
        "let b = args . get (\"b\") . cloned () ;",
        "let c = args . get (\"c\") . map (| v | v . as_f64 () as u64) . unwrap_or_default () ;",
        "let d = args . get (\"d\") . map (| v | v . as_f64 () as u64) ;",
    ];
    assert_eq!(statements.len(), 4);
    for (statement, text) in statements.iter().zip(expected) {
        assert_eq!(statement.to_string(), text);
    }
}

#[test]
fn consumed_contexts_are_looked_up_before_needed_ones() {
    let def = read(
        "condition X {
            context need A => \"a\";
            context produce B => \"b\";
            context consume C => \"c\";
            context need D => \"d\";
        }",
    );
    let (statements, arguments) = gen_context_handling(&def);
    let texts: Vec<String> = arguments.iter().map(|a| a.to_string()).collect();
    assert_eq!(texts, ["& a", "c", "& d"]);
    let one = |name: &str, call: &str, ty: &str| {
        format!(
            "let {}: ::std::sync::Arc<{}> = match ctx.{}::<{}>(\"{}\").await {{
                Some(v) => v,
                None => {{ log::warn!(\"[context] '{}' not available\"); return false; }}
            }};",
            name, ty, call, ty, name, name
        )
    };
    let expected = format!(
        "{} {} {}",
        one("c", "consume_context", "C"),
        one("a", "get_context", "A"),
        one("d", "get_context", "D")
    );
    assert_eq!(flat(statements), code(&expected));
}

#[test]
fn contexts_are_declared_in_the_order_of_the_definition() {
    let def = read(
        "condition X {
            context need A => \"a\";
            context produce B => \"b\";
            context consume C => \"c\";
        }",
    );
    assert!(gen_handler_trait(&def).to_string().contains(
        "evaluate (& self , a : & A , c : :: std :: sync :: Arc < C > , ctx :"
    ));
}

#[test]
fn arguments_follow_the_declarations() {
    let def = read(
        "condition X {
            context need A => \"a\";
            context produce B => \"b\";
            context consume C => \"c\";
            param p: Bool;
        }",
    );
    assert!(gen_handler_trait(&def).to_string().contains(
        "evaluate (& self , p : bool , a : & A , c : :: std :: sync :: Arc < C > , ctx :"
    ));
    assert!(gen_adapter(&def).to_string().contains("evaluate (p , & a , c , ctx) . await"));
}

#[test]
fn a_produced_context_is_seen_in_the_metadata_only() {
    let with = read("data_item X { context produce A => \"a\"; param p: Any; }");
    let without = read("data_item X { param p: Any; }");
    assert_eq!(flat(gen_handler_trait(&with)), flat(gen_handler_trait(&without)));
    assert_eq!(flat(gen_adapter(&with)), flat(gen_adapter(&without)));
    assert_ne!(flat(gen_metadata(&with)), flat(gen_metadata(&without)));
}

#[test]
fn a_monitor_looks_up_no_context() {
    let with = read("monitor X { context need A => \"a\"; context consume B => \"b\"; }");
    let without = read("monitor X {}");
    assert_eq!(flat(gen_handler_trait(&with)), flat(gen_handler_trait(&without)));
    assert_eq!(flat(gen_adapter(&with)), flat(gen_adapter(&without)));
}

#[test]
fn where_a_context_is_missing() {
    assert_eq!(
        make_context_not_found(Category::Executor, "a").to_string(),
        "log :: warn ! (\"[context] 'a' not available\") ; ctx . signal_done () ; return None ;"
    );
    assert_eq!(
        make_context_not_found(Category::DataItem, "a").to_string(),
        "log :: warn ! (\"[context] 'a' not available\") ; ctx . signal_done () ; return trade_meta_compiler :: RuntimeValue :: Unit ;"
    );
    assert_eq!(
        make_context_not_found(Category::Condition, "a").to_string(),
        "log :: warn ! (\"[context] 'a' not available\") ; return false ;"
    );
    assert_eq!(make_context_not_found(Category::Monitor, "a").to_string(), "");
}

#[test]
fn a_raw_name() {
    let def = read("executor r#type { param r#fn: Bool; context need A => \"r#in\"; }");
    let metadata = gen_metadata(&def).to_string();
    assert!(metadata.starts_with("fn r#type_metadata () ->"));
    assert!(metadata.contains("name : \"r#type\" ,"));
    let handler = gen_handler_trait(&def).to_string();
    assert!(handler.contains("trait typeHandler :"));
    assert!(handler.contains("r#fn : bool , r#in : & A ,"));
    assert!(gen_adapter(&def).to_string().contains("struct typeAdapter < H : typeHandler >"));
}

#[test]
fn a_protocol_with_characters_that_need_care_in_a_literal() {
    let def = read("monitor X { context produce A => \"a\\n\\\"b\\\"\"; }");
    assert!(gen_metadata(&def).to_string().contains("produce (\"a\\n\\\"b\\\"\")"));
}

#[test]
fn there_is_no_code_without_identifiers() {
    for text in [
        "executor X { context need A => \"no name\"; }",
        "executor X { context consume A => \"\"; }",
        "executor X { context produce A => \"1a\"; }",
        "executor X { context need A => \" a\"; }",
        "executor X { context need A => \"a /* b */\"; }",
        "executor X { context need A => \"a\\u{200e}\"; }",
        "executor X { context need A => \"\\u{feff}a\"; }",
        "executor X { context need A => \"a\\n\"; }",
        "executor X { context need A => \"r#crate\"; }",
        "monitor X { context need A => \"a-b\"; }",
        "monitor X { context consume A => \"a-b\"; }",
    ] {
        assert!(define_symbol(stream(text)).is_none(), "{}", text);
    }
}

#[test]
fn each_function_needs_its_own_identifiers_only() {
    let any = |text: &str| match parse_definition(stream(text)) {
        Ok(def) => def,
        Err(report) => panic!("{}", report.message),
    };
    let def = any("executor X { context produce T => \"pump-trade\"; returns Bool; }");
    assert!(!names_fit(&def));
    let text = gen_metadata(&def).to_string();
    assert!(text.contains("contexts : vec ! [trade_meta_compiler :: ContextInteraction :: produce (\"pump-trade\")]"));
    assert!(text.contains("returns : Some (trade_meta_compiler :: TypeSpec :: Bool) ,"));
    let (statements, arguments) = gen_context_handling(&def);
    assert!(statements.is_empty());
    assert!(arguments.is_empty());
    assert!(gen_adapter(&def).to_string().contains("execute (ctx) . await"));
    let def = any("monitor X { context need T => \"pump-trade\"; }");
    assert!(!names_fit(&def));
    assert_eq!(
        flat(gen_handler_trait(&def)),
        flat(gen_handler_trait(&any("monitor X { returns Price; }")))
    );
}

#[test]
fn metadata_hold_no_context_types() {
    assert_eq!(
        flat(gen_metadata(&read("executor X { context need A => \"a\"; }"))),
        flat(gen_metadata(&read("executor X { context need Vec<B> => \"a\"; }")))
    );
}

#[test]
fn what_a_monitor_produces_needs_no_identifier() {
    assert!(define_symbol(stream("monitor X { context produce A => \"no name\"; }")).is_some());
}

#[test]
fn letters_outside_of_ascii_serve_in_identifiers() {
    let def = read("executor X { context need A => \"prix_é\"; }");
    assert!(gen_handler_trait(&def).to_string().contains("prix_é : & A ,"));
    // a letter written in two parts
    assert!(define_symbol(stream("executor X { context need A => \"e\\u{301}\"; }")).is_some());
}

#[test]
fn a_keyword_serves_as_an_identifier() {
    let def = read("executor X { context need A => \"type\"; }");
    assert!(gen_handler_trait(&def).to_string().contains("type : & A ,"));
}

#[test]
fn what_is_generated_holds_the_promised_items() {
    let text = define_symbol(stream("pub condition RugPull {}")).unwrap().to_string();
    assert!(text.starts_with("pub fn rug_pull_metadata () -> trade_meta_compiler :: SymbolMetadata {"));
    assert!(text.contains("# [async_trait :: async_trait] pub trait RugPullHandler : Send + Sync {"));
    assert!(text.contains("pub struct RugPullAdapter < H : RugPullHandler > (pub H) ;"));
    assert!(text.ends_with(
        "trade_meta_compiler :: inventory :: submit ! { trade_meta_compiler :: SymbolFactory (rug_pull_metadata) }"
    ));
}
