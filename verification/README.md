# trade_symbol

The macro `define_symbol!` of a trading language, as verified functions on token streams. A
definition such as

```text
pub executor PumpBuy {
    context need PumpTradeCtx => "pump_trade";
    param amount: Amount;
    param slippage: Percent;
    returns (Price, Price);
}
```

becomes a metadata function, a typed handler trait, an adapter from that trait to the general
handler, and the registration of the symbol.

- `src/token.rs`, `src/syntax.rs`: token streams and the front of one, on top of `proc_macro2` and
  `syn`. What is believed of these two crates stands here.
- `src/grammar.rs`, `src/symbol.rs`: the grammar of a definition, and the reader that follows it.
- `src/trade_type.rs`, `src/naming.rs`, `src/template.rs`, `src/text.rs`: the types of the language,
  the names of what is generated, and how code is put together.
- `src/code.rs`, `src/generate.rs`: the code that a definition stands for, and the generator.
- `src/laws.rs`, `src/type_laws.rs`, `src/written.rs`: what holds of the whole, proved;
  `src/rendering.rs` serves these proofs.
- `app/`: the procedural macro itself.
