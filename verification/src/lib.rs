//! The macro `define_symbol!` of a trading language, as a function on token streams.
//!
//! A definition
//!
//! ```text
//! pub executor PumpBuy {
//!     context need PumpTradeCtx => "pump_trade";
//!     param amount: Amount;
//!     param slippage: Percent;
//!     returns (Price, Price);
//! }
//! ```
//!
//! becomes the function `pump_buy_metadata`, which describes the symbol, the trait
//! `PumpBuyHandler`, which its handler implements, and the adapter `PumpBuyAdapter<H>`, which makes
//! such a handler a handler of the general kind.
//!
//! The categories are `monitor`, `executor`, `data_item` and `condition`. What a symbol does with a
//! context is `produce` (make it), `need` (read it) or `consume` (take it away). The types are
//! `Price`, `Amount`, `Duration`, `TimePoint`, `Percent`, `Count`, `Number`, `String`, `Bool`,
//! `Address` and `Any`, lists `[Type]`, tuples `(Type, Type)`, choices `Type | Type`, and names
//! that stand for a choice registered elsewhere.
use proc_macro2::TokenStream;
use vstd::prelude::*;

pub mod adapter_laws;
pub mod code;
pub mod code_laws;
pub mod generate;
pub mod grammar;
pub mod laws;
pub mod naming;
pub mod phrase;
pub mod refusals;
pub mod rendering;
pub mod spelled;
pub mod symbol;
pub mod syntax;
pub mod template;
pub mod text;
pub mod token;
pub mod trade_type;
pub mod type_code_laws;
pub mod type_laws;
pub mod word_laws;
pub mod written;

use crate::code::{names_valid, symbol_code};
use crate::generate::{generate, names_fit};
use crate::grammar::whole_definition;
use crate::symbol::parse_definition;
use crate::syntax::refusal;
use crate::token::{tokens_of, Tok};

verus! {

/// The answer to an input: the code of the definition that it holds, or the refusal of an input
/// that holds none. There is no answer where a name in the definition cannot serve as the
/// identifier that the code needs.
pub open spec fn answer(input: Seq<Tok>) -> Option<Seq<Tok>> {
    match whole_definition(input) {
        Ok(symbol) => if names_valid(symbol) {
            Some(symbol_code(symbol))
        } else {
            None
        },
        Err(message) => Some(refusal(message)),
    }
}

/// Defines a symbol of the trading language. The answer holds
///   - `{snake_case}_metadata()`, which returns the metadata of the symbol,
///   - the trait `{Name}Handler`, the interface that its handler implements,
///   - the struct `{Name}Adapter<H>`, which makes such a handler one of the general kind;
///
/// or, where the input is no definition, an invocation of `compile_error!` that says why. There is
/// none where a name in the definition cannot serve as the identifier that the code needs.
pub fn define_symbol(input: TokenStream) -> (output: Option<TokenStream>)
    ensures
        match (answer(tokens_of(input)), output) {
            (Some(expected), Some(tokens)) => tokens_of(tokens) == expected,
            (None, None) => true,
            _ => false,
        },
{
    match parse_definition(input) {
        Ok(def) => if names_fit(&def) {
            Some(generate(&def))
        } else {
            None
        },
        Err(report) => Some(report.tokens),
    }
}

} // verus!
