use fee_backcalc::{parse_non_negative_number, validate_fee_percent, NumberReading};

/// What a number text that parses to `value` reads as.
fn reading(value: f64) -> NumberReading {
    NumberReading::Number {
        bits: value.to_bits(),
        below_zero: value < 0.0,
        at_least_hundred: value >= 100.0,
    }
}

#[test]
fn blank_text_asks_for_input() {
    assert_eq!(
        parse_non_negative_number("消費税率", "  ", reading(0.0)),
        Err("消費税率を入力してください".to_string())
    );
    assert_eq!(
        parse_non_negative_number("受け取りたい金額", "", NumberReading::NotANumber),
        Err("受け取りたい金額を入力してください".to_string())
    );
}

#[test]
fn text_that_is_no_number_is_refused() {
    assert_eq!(
        parse_non_negative_number("消費税率", "abc", NumberReading::NotANumber),
        Err("消費税率は数値で入力してください".to_string())
    );
}

#[test]
fn negative_numbers_are_refused_and_zero_is_accepted() {
    assert_eq!(
        parse_non_negative_number("消費税率", "-1", reading(-1.0)),
        Err("消費税率は0以上で入力してください".to_string())
    );
    assert_eq!(parse_non_negative_number("消費税率", "0", reading(0.0)), Ok(0.0f64.to_bits()));
    assert_eq!(parse_non_negative_number("消費税率", "-0", reading(-0.0)), Ok((-0.0f64).to_bits()));
    assert_eq!(parse_non_negative_number("消費税率", " 8 ", reading(8.0)), Ok(8.0f64.to_bits()));
}

#[test]
fn fee_percent_must_stay_below_one_hundred() {
    assert_eq!(validate_fee_percent("99.9", reading(99.9)), Ok(99.9f64.to_bits()));
    assert_eq!(
        validate_fee_percent("100", reading(100.0)),
        Err("手数料率は100未満で入力してください".to_string())
    );
    assert_eq!(
        validate_fee_percent("inf", reading(f64::INFINITY)),
        Err("手数料率は100未満で入力してください".to_string())
    );
    assert_eq!(
        validate_fee_percent("-3", reading(-3.0)),
        Err("手数料率は0以上で入力してください".to_string())
    );
    assert_eq!(
        validate_fee_percent("", reading(0.0)),
        Err("手数料率を入力してください".to_string())
    );
    assert_eq!(
        validate_fee_percent("x", NumberReading::NotANumber),
        Err("手数料率は数値で入力してください".to_string())
    );
}

#[test]
fn not_a_number_value_passes_both_comparisons() {
    let nan = f64::NAN;
    assert_eq!(validate_fee_percent("NaN", reading(nan)), Ok(nan.to_bits()));
}
