use fee_backcalc::{format_number, format_yen, integer_string, jp, trim, trim_trailing_zero};

#[test]
fn formats_numbers_with_commas() {
    assert_eq!(format_number(0.0 as i64), "0");
    assert_eq!(format_number(1234.0 as i64), "1,234");
    assert_eq!(format_number(123456789.0 as i64), "123,456,789");
}

#[test]
fn formats_plain_integer_without_commas() {
    assert_eq!(integer_string(0.0 as i64), "0");
    assert_eq!(integer_string(1234.0 as i64), "1234");
    assert_eq!(integer_string(123456789.0 as i64), "123456789");
}

#[test]
fn formats_yen_with_commas() {
    assert_eq!(format_yen(14103.0 as i64), "14,103円");
}

#[test]
fn formats_negative_numbers_with_sign_before_groups() {
    assert_eq!(format_number(-1), "-1");
    assert_eq!(format_number(-999), "-999");
    assert_eq!(format_number(-1000), "-1,000");
    assert_eq!(format_number(-123456), "-123,456");
    assert_eq!(integer_string(-1234567), "-1234567");
    assert_eq!(format_yen(-3103), "-3,103円");
}

#[test]
fn formats_group_boundaries() {
    assert_eq!(format_number(999), "999");
    assert_eq!(format_number(1000), "1,000");
    assert_eq!(format_number(100000), "100,000");
    assert_eq!(format_number(1000000), "1,000,000");
    assert_eq!(format_number(12), "12");
}

#[test]
fn formats_extreme_integers() {
    assert_eq!(integer_string(i64::MAX), "9223372036854775807");
    assert_eq!(integer_string(i64::MIN), "-9223372036854775808");
    assert_eq!(format_number(i64::MAX), "9,223,372,036,854,775,807");
    assert_eq!(format_number(i64::MIN), "-9,223,372,036,854,775,808");
}

#[test]
fn integer_string_matches_std_rendering() {
    for value in [0i64, 7, -7, 10, 99, 100, 4096, -65536, 1_000_000_007, i64::MAX, i64::MIN] {
        assert_eq!(integer_string(value), value.to_string());
    }
}

#[test]
fn format_number_without_commas_is_integer_string() {
    for value in [0i64, 5, -5, 1234, -98765, 123456789, i64::MIN] {
        assert_eq!(format_number(value).replace(',', ""), integer_string(value));
    }
}

#[test]
fn format_yen_appends_yen_sign_to_format_number() {
    for value in [0i64, 12, 1222, 14103, -1] {
        assert_eq!(format_yen(value), format!("{}円", format_number(value)));
    }
}

#[test]
fn trims_trailing_fraction_zeros() {
    assert_eq!(trim_trailing_zero("20.0000"), "20");
    assert_eq!(trim_trailing_zero("12.5000"), "12.5");
    assert_eq!(trim_trailing_zero("0.0000"), "0");
    assert_eq!(trim_trailing_zero("100.0000"), "100");
    assert_eq!(trim_trailing_zero("3.1416"), "3.1416");
    assert_eq!(trim_trailing_zero("0.1000"), "0.1");
}

#[test]
fn trim_trailing_zero_keeps_text_without_decimal_point() {
    assert_eq!(trim_trailing_zero("100"), "100");
    assert_eq!(trim_trailing_zero("inf"), "inf");
    assert_eq!(trim_trailing_zero("NaN"), "NaN");
    assert_eq!(trim_trailing_zero(""), "");
}

#[test]
fn trim_trailing_zero_matches_fixed_rendering_of_floats() {
    let cases: [(f64, &str); 5] = [(20.0, "20"), (12.5, "12.5"), (0.0, "0"), (99.9, "99.9"), (1.23456, "1.2346")];
    for (value, expected) in cases {
        assert_eq!(trim_trailing_zero(&format!("{value:.4}")), expected);
    }
}

#[test]
fn trims_surrounding_white_space() {
    assert_eq!(trim("  CrowdWorks \t"), "CrowdWorks");
    assert_eq!(trim("\u{3000}ランサーズ\u{3000}"), "ランサーズ");
    assert_eq!(trim(" a b "), "a b");
    assert_eq!(trim("   "), "");
    assert_eq!(trim(""), "");
    assert_eq!(trim("x"), "x");
}

#[test]
fn jp_copies_its_text() {
    assert_eq!(jp("受け取りたい金額"), "受け取りたい金額");
    assert_eq!(jp(""), "");
}

#[test]
fn commas_separate_groups_of_three_digits() {
    for value in [1i64, 12, 123, 1234, 12345, 123456, 1234567, 12345678, 123456789, i64::MAX] {
        let text = format_number(value);
        let groups: Vec<&str> = text.split(',').collect();
        assert!((1..=3).contains(&groups[0].len()));
        for group in &groups[1..] {
            assert_eq!(group.len(), 3);
        }
        let digits = integer_string(value).len();
        assert_eq!(text.len(), digits + (digits - 1) / 3);
    }
}

#[test]
fn trim_agrees_with_std_white_space_on_every_char() {
    for code in 0u32..=0x10ffff {
        if let Some(c) = char::from_u32(code) {
            let text = c.to_string();
            assert_eq!(trim(&text).is_empty(), c.is_whitespace(), "U+{code:04X}");
        }
    }
}
