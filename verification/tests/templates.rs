use proc_macro2::TokenStream;
use trade_symbol::template::{fill, fill_three, fill_two, fixed, line_up, render, separate, terminate};

fn stream(text: &str) -> TokenStream {
    text.parse().unwrap()
}

fn three() -> Vec<TokenStream> {
    vec![stream("x"), stream("y + 1"), stream("(z)")]
}

#[test]
fn words_brackets_and_punctuation() {
    assert_eq!(fixed("fn f ( ) -> u8 { [ 'a ] }").to_string(), "fn f () -> u8 { ['a] }");
    assert_eq!(fixed("a :: b => c").to_string(), "a :: b => c");
    assert_eq!(fixed("").to_string(), "");
}

#[test]
fn holes() {
    assert_eq!(fill("f ( #a )", stream("x , y")).to_string(), "f (x , y)");
    assert_eq!(fill_two("#b #a #b", stream("x"), stream("y")).to_string(), "y x y");
    assert_eq!(
        fill_three("#a { #b ( #c ) }", stream("x"), stream("y"), stream("z")).to_string(),
        "x { y (z) }"
    );
    assert_eq!(render("#c #b", &three()).to_string(), "(z) y + 1");
}

#[test]
fn a_hole_without_a_stream_stays_empty() {
    assert_eq!(fill("( #a #z )", stream("x")).to_string(), "(x)");
}

#[test]
fn a_group_left_open_is_closed_at_the_end() {
    assert_eq!(fixed("a ( b { c").to_string(), "a (b { c })");
    assert_eq!(fixed(") a").to_string(), "a");
}

#[test]
fn pieces_in_lists() {
    assert_eq!(separate(&three()).to_string(), "x , y + 1 , (z)");
    assert_eq!(terminate(&three()).to_string(), "x , y + 1 , (z) ,");
    assert_eq!(line_up(&three()).to_string(), "x y + 1 (z)");
    assert_eq!(separate(&Vec::new()).to_string(), "");
    assert_eq!(terminate(&Vec::new()).to_string(), "");
    assert_eq!(separate(&vec![stream("x")]).to_string(), "x");
}
