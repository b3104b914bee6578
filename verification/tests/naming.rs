use trade_symbol::naming::to_snake_case;

#[test]
fn a_capital_starts_a_word() {
    assert_eq!(to_snake_case("PumpBuy"), "pump_buy");
    assert_eq!(to_snake_case("Price"), "price");
}

#[test]
fn a_run_of_capitals_is_one_word() {
    assert_eq!(to_snake_case("HTTPServer"), "httpserver");
    assert_eq!(to_snake_case("getHTTP"), "get_http");
}

#[test]
fn a_digit_ends_a_word() {
    assert_eq!(to_snake_case("Ema20Cross"), "ema20_cross");
}

#[test]
fn an_underscore_starts_no_word() {
    assert_eq!(to_snake_case("Pump_Buy"), "pump_buy");
}

#[test]
fn the_empty_name_stays() {
    assert_eq!(to_snake_case(""), "");
}

#[test]
fn no_ascii_capital_is_left() {
    for name in ["PumpBuy", "ABC", "aB1C_D", "r#Type"] {
        assert!(!to_snake_case(name).chars().any(|c| c.is_ascii_uppercase()));
    }
}

#[test]
fn a_snake_case_name_is_its_own_snake_case() {
    for name in ["PumpBuy", "Ema20Cross", "HTTPServer", "pump_buy"] {
        let snake = to_snake_case(name);
        assert_eq!(to_snake_case(&snake), snake);
    }
}

#[test]
fn outside_of_ascii_a_capital_stays() {
    assert_eq!(to_snake_case("aÄ"), "a_Ä");
}

#[test]
fn a_word_is_found_by_the_byte_before_the_place() {
    // the byte before the third place is the second of the two that encode the first character;
    // taken as a character of its own it is neither lowercase nor a digit
    assert_eq!(to_snake_case("éaB"), "éab");
    assert_eq!(to_snake_case("é1A"), "é1a");
    // here it is the letter before
    assert_eq!(to_snake_case("aaB"), "aa_b");
    // and here the first of two bytes
    assert_eq!(to_snake_case("aäB"), "aäb");
    // the second byte of this one is a lowercase character
    assert_eq!(to_snake_case("ªaB"), "ªa_b");
}

#[test]
fn outside_of_ascii_a_second_pass_may_find_a_word() {
    assert_eq!(to_snake_case("BÄ"), "bÄ");
    assert_eq!(to_snake_case("bÄ"), "b_Ä");
}
