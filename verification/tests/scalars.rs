use badpod::basic::{option_bool_yn, Bool, NonNegF64};
use badpod::decimal::{has_numeral_form, parse_unsigned};
use badpod::numbers::{
    accept_non_negative, is_below_zero, is_nan, is_single_nan, option_float, option_u64, Float,
    NonNegNumber, U64,
};

fn double_of(s: &str) -> Option<u64> {
    s.parse::<f64>().ok().map(f64::to_bits)
}

fn single_of(s: &str) -> Option<u32> {
    s.parse::<f32>().ok().map(f32::to_bits)
}

#[test]
fn bool_accepts_the_two_literals() {
    assert_eq!(Bool::parse("true"), Bool::Bool(true));
    assert_eq!(Bool::parse("false"), Bool::Bool(false));
}

#[test]
fn bool_is_case_sensitive() {
    assert_eq!(Bool::parse("TRUE"), Bool::Other("TRUE".to_string()));
    assert_eq!(Bool::parse("True"), Bool::Other("True".to_string()));
    assert_eq!(Bool::parse("FALSE"), Bool::Other("FALSE".to_string()));
}

#[test]
fn bool_keeps_text_it_cannot_read() {
    for s in ["", " true", "true ", "1", "0", "yes", "no", "tru", "truee", "t\u{00e9}", "\n"] {
        assert_eq!(Bool::parse(s), Bool::Other(s.to_string()));
    }
}

#[test]
fn bool_agrees_with_the_native_reading() {
    for s in ["true", "false", "TRUE", "", "t", "falsee", " false", "True", "fals\u{0435}"] {
        let expected = match s.parse::<bool>() {
            Ok(b) => Bool::Bool(b),
            Err(_) => Bool::Other(s.to_string()),
        };
        assert_eq!(Bool::parse(s), expected);
    }
}

#[test]
fn yes_and_no_both_mean_false() {
    assert_eq!(option_bool_yn("no"), Some(Bool::Bool(false)));
    assert_eq!(option_bool_yn("yes"), Some(Bool::Bool(false)));
}

#[test]
fn yes_or_no_keeps_any_other_text() {
    assert_eq!(option_bool_yn("maybe"), Some(Bool::Other("maybe".to_string())));
    assert_eq!(option_bool_yn("Yes"), Some(Bool::Other("Yes".to_string())));
    assert_eq!(option_bool_yn("NO"), Some(Bool::Other("NO".to_string())));
    assert_eq!(option_bool_yn("true"), Some(Bool::Other("true".to_string())));
    assert_eq!(option_bool_yn(""), Some(Bool::Other(String::new())));
}

#[test]
fn unsigned_reads_plain_digits() {
    assert_eq!(parse_unsigned("0"), Some(0));
    assert_eq!(parse_unsigned("123"), Some(123));
    assert_eq!(parse_unsigned("100200"), Some(100200));
    assert_eq!(parse_unsigned("007"), Some(7));
    assert_eq!(parse_unsigned("+5"), Some(5));
    assert_eq!(parse_unsigned("+0"), Some(0));
}

#[test]
fn unsigned_reads_up_to_the_largest_value() {
    assert_eq!(parse_unsigned("18446744073709551615"), Some(u64::MAX));
    assert_eq!(parse_unsigned("+18446744073709551615"), Some(u64::MAX));
    assert_eq!(parse_unsigned("00000000000000000000018446744073709551615"), Some(u64::MAX));
    assert_eq!(parse_unsigned("18446744073709551616"), None);
    assert_eq!(parse_unsigned("18446744073709551620"), None);
    assert_eq!(parse_unsigned("99999999999999999999"), None);
    assert_eq!(parse_unsigned("184467440737095516150"), None);
}

#[test]
fn unsigned_rejects_everything_else() {
    for s in [
        "", "+", "-", "-1", "-0", "++1", "+-1", " 1", "1 ", "1_000", "1.5", "1e3", "0x10", "12a",
        "a12", "\u{0661}\u{0662}\u{0663}", "1\u{00a0}", "\u{ff11}", "1+", "--1",
    ] {
        assert_eq!(parse_unsigned(s), None, "{:?}", s);
    }
}

#[test]
fn unsigned_agrees_with_the_native_reading() {
    for s in [
        "0", "1", "42", "+42", "0042", "18446744073709551615", "18446744073709551616",
        "340282366920938463463374607431768211456", "", "+", "-", "-7", "7-", " 7", "7 ", "1,000",
        "1_000", "seven", "\u{0967}", "4294967296", "+00", "00", "9223372036854775808",
    ] {
        assert_eq!(parse_unsigned(s), s.parse::<u64>().ok(), "{:?}", s);
    }
}

#[test]
fn u64_field_is_valid_or_keeps_its_text() {
    assert_eq!(U64::parse("100200"), U64::U64(100200));
    assert_eq!(U64::parse("-3"), U64::Other("-3".to_string()));
    assert_eq!(U64::parse("1.5"), U64::Other("1.5".to_string()));
    assert_eq!(U64::parse(""), U64::Other(String::new()));
    assert_eq!(option_u64("12"), Some(U64::U64(12)));
    assert_eq!(option_u64("twelve"), Some(U64::Other("twelve".to_string())));
}

#[test]
fn below_zero_agrees_with_the_comparison() {
    let samples: [f64; 16] = [
        0.0,
        -0.0,
        1.5,
        -1.5,
        f64::MIN_POSITIVE,
        -f64::MIN_POSITIVE,
        5e-324,
        -5e-324,
        f64::MAX,
        f64::MIN,
        f64::INFINITY,
        f64::NEG_INFINITY,
        f64::NAN,
        -f64::NAN,
        f64::from_bits(0xfff0_0000_0000_0001),
        f64::from_bits(0xffff_ffff_ffff_ffff),
    ];
    for x in samples {
        assert_eq!(is_below_zero(x.to_bits()), x < 0.0, "{:?}", x);
    }
    assert!(is_below_zero(0x8000_0000_0000_0001));
    assert!(is_below_zero(0xfff0_0000_0000_0000));
    assert!(!is_below_zero(0x8000_0000_0000_0000));
    assert!(!is_below_zero(0x7fff_ffff_ffff_ffff));
    assert!(!is_below_zero(0));
}

#[test]
fn number_prefers_the_integer_reading() {
    assert_eq!(NonNegNumber::parse("123", double_of("123")), NonNegNumber::U64(123));
    assert_eq!(NonNegNumber::parse("+7", double_of("+7")), NonNegNumber::U64(7));
    assert_eq!(NonNegNumber::parse("0", double_of("0")), NonNegNumber::U64(0));
}

#[test]
fn number_falls_back_on_the_floating_point_reading() {
    assert_eq!(NonNegNumber::parse("1.5", double_of("1.5")), NonNegNumber::F64(1.5f64.to_bits()));
    assert_eq!(
        NonNegNumber::parse("18446744073709551616", double_of("18446744073709551616")),
        NonNegNumber::F64(18446744073709551616f64.to_bits())
    );
    assert_eq!(NonNegNumber::parse("1e3", double_of("1e3")), NonNegNumber::F64(1000f64.to_bits()));
    assert_eq!(NonNegNumber::parse(".5", double_of(".5")), NonNegNumber::F64(0.5f64.to_bits()));
    assert_eq!(NonNegNumber::parse("5.", double_of("5.")), NonNegNumber::F64(5f64.to_bits()));
    assert_eq!(
        NonNegNumber::parse("1e999", double_of("1e999")),
        NonNegNumber::F64(f64::INFINITY.to_bits())
    );
}

#[test]
fn number_takes_no_word_for_a_numeral() {
    for s in [
        "NaN", "nan", "NAN", "+nan", "-nan", "inf", "Inf", "INF", "+inf", "infinity", "Infinity",
        "+infinity", "-inf", "-infinity",
    ] {
        assert!(double_of(s).is_some(), "{:?}", s);
        assert_eq!(NonNegNumber::parse(s, double_of(s)), NonNegNumber::Other(s.to_string()));
        assert_eq!(NonNegF64::parse(s, double_of(s)), NonNegF64::Other(s.to_string()));
        assert_eq!(option_float(s, single_of(s)), Some(Float::Other(s.to_string())));
    }
}

#[test]
fn number_never_holds_what_is_not_a_number() {
    let nan = f64::NAN.to_bits();
    assert_eq!(NonNegNumber::parse("1.5", Some(nan)), NonNegNumber::Other("1.5".to_string()));
    assert_eq!(NonNegF64::parse("1.5", Some(nan)), NonNegF64::Other("1.5".to_string()));
    assert_eq!(NonNegF64::parse("1.5", Some(nan | (1 << 63))), NonNegF64::Other("1.5".to_string()));
    assert_eq!(
        option_float("1.5", Some(f32::NAN.to_bits())),
        Some(Float::Other("1.5".to_string()))
    );
    assert_eq!(accept_non_negative("1.5", Some(nan)), None);
    assert_eq!(accept_non_negative("1.5", Some(1.5f64.to_bits())), Some(1.5f64.to_bits()));
    assert_eq!(accept_non_negative("abc", Some(1.5f64.to_bits())), None);
    assert_eq!(accept_non_negative("-1.5", Some((-1.5f64).to_bits())), None);
    assert_eq!(accept_non_negative("1.5", None), None);
}

#[test]
fn not_a_number_agrees_with_the_native_test() {
    let doubles: [f64; 10] = [
        0.0,
        -0.0,
        1.5,
        -1.5,
        f64::INFINITY,
        f64::NEG_INFINITY,
        f64::NAN,
        -f64::NAN,
        f64::from_bits(0x7ff0_0000_0000_0001),
        f64::from_bits(0xffff_ffff_ffff_ffff),
    ];
    for x in doubles {
        assert_eq!(is_nan(x.to_bits()), x.is_nan(), "{:?}", x);
    }
    let singles: [f32; 10] = [
        0.0,
        -0.0,
        1.5,
        -1.5,
        f32::INFINITY,
        f32::NEG_INFINITY,
        f32::NAN,
        -f32::NAN,
        f32::from_bits(0x7f80_0001),
        f32::from_bits(0xffff_ffff),
    ];
    for x in singles {
        assert_eq!(is_single_nan(x.to_bits()), x.is_nan(), "{:?}", x);
    }
}

#[test]
fn numeral_form_is_sign_digits_point_and_exponent() {
    for s in [
        "0", "1", "123", "+1", "-1", "1.5", "-1.5", "+1.5", "1.", ".5", "-.5", "+5.", "1e3", "1E3",
        "1e+3", "1e-3", "1.5e10", ".5e1", "5.e1", "-1.25E-7", "007", "0.0", "-0.0", "1e999",
        "00.00e00",
    ] {
        assert!(has_numeral_form(s), "{:?}", s);
    }
    for s in [
        "", "+", "-", ".", "+.", "-.", "e", "e5", ".e5", "1e", "1e+", "1e-", "1ee5", "1e5e5",
        "1.5.2", "1..5", "++1", "+-1", "1+", "1-", " 1", "1 ", "1_000", "1,5", "0x10", "1.5f",
        "1e5.5", "1e.5", "NaN", "nan", "inf", "-inf", "infinity", "1\u{0661}", "\u{0661}",
        "1.5\u{00a0}", "\u{ff11}.5", "1\u{2212}5",
    ] {
        assert!(!has_numeral_form(s), "{:?}", s);
    }
}

#[test]
fn numeral_form_agrees_with_the_native_reading() {
    for s in [
        "0", "1.5", "-1.5", "+1.5", "1.", ".5", ".", "", "+", "-", "1e3", "1E-3", "1e", "e1", "1e+",
        "1.5e10", "1.5.2", "1e5e5", " 1.5", "1.5 ", "1_0", "0x1p3", "1,5", "1e999", "-1e999",
        "1e-999", "00012.5000", "+.5e+5", "-.E5", "5.e-1", "1.e", "\u{0661}.5", "12abc",
    ] {
        assert_eq!(has_numeral_form(s), s.parse::<f64>().is_ok(), "{:?}", s);
        assert_eq!(has_numeral_form(s), s.parse::<f32>().is_ok(), "{:?}", s);
    }
}

#[test]
fn number_rejects_what_is_below_zero() {
    assert_eq!(
        NonNegNumber::parse("-1.5", double_of("-1.5")),
        NonNegNumber::Other("-1.5".to_string())
    );
    assert_eq!(NonNegNumber::parse("-1", double_of("-1")), NonNegNumber::Other("-1".to_string()));
    assert_eq!(
        NonNegNumber::parse("-1e999", double_of("-1e999")),
        NonNegNumber::Other("-1e999".to_string())
    );
}

#[test]
fn number_takes_negative_zero_for_zero() {
    assert_eq!(
        NonNegNumber::parse("-0.0", double_of("-0.0")),
        NonNegNumber::F64((-0.0f64).to_bits())
    );
    assert_eq!(NonNegNumber::parse("-0", double_of("-0")), NonNegNumber::F64((-0.0f64).to_bits()));
}

#[test]
fn number_keeps_text_that_is_no_number() {
    assert_eq!(NonNegNumber::parse("abc", double_of("abc")), NonNegNumber::Other("abc".to_string()));
    assert_eq!(NonNegNumber::parse("", double_of("")), NonNegNumber::Other(String::new()));
    assert_eq!(NonNegNumber::parse("1.5", None), NonNegNumber::Other("1.5".to_string()));
}

#[test]
fn non_negative_double_reads_floating_point_only() {
    assert_eq!(NonNegF64::parse("1.5", double_of("1.5")), NonNegF64::F64(1.5f64.to_bits()));
    assert_eq!(NonNegF64::parse("123", double_of("123")), NonNegF64::F64(123f64.to_bits()));
    assert_eq!(NonNegF64::parse("-1.5", double_of("-1.5")), NonNegF64::Other("-1.5".to_string()));
    assert_eq!(NonNegF64::parse("-0.0", double_of("-0.0")), NonNegF64::F64((-0.0f64).to_bits()));
    assert_eq!(NonNegF64::parse("x", double_of("x")), NonNegF64::Other("x".to_string()));
    assert_eq!(
        NonNegF64::parse("1e999", double_of("1e999")),
        NonNegF64::F64(f64::INFINITY.to_bits())
    );
    assert_eq!(
        NonNegF64::parse("-1e999", double_of("-1e999")),
        NonNegF64::Other("-1e999".to_string())
    );
    assert_eq!(
        NonNegF64::parse("abc", Some(1.5f64.to_bits())),
        NonNegF64::Other("abc".to_string())
    );
}

#[test]
fn float_accepts_any_sign() {
    assert_eq!(option_float("1.5", single_of("1.5")), Some(Float::Float(1.5f32.to_bits())));
    assert_eq!(option_float("-1.5", single_of("-1.5")), Some(Float::Float((-1.5f32).to_bits())));
    assert_eq!(option_float("2", single_of("2")), Some(Float::Float(2f32.to_bits())));
    assert_eq!(option_float("loud", single_of("loud")), Some(Float::Other("loud".to_string())));
    assert_eq!(
        option_float("-1e99", single_of("-1e99")),
        Some(Float::Float(f32::NEG_INFINITY.to_bits()))
    );
    assert_eq!(
        option_float("loud", Some(1.5f32.to_bits())),
        Some(Float::Other("loud".to_string()))
    );
    assert_eq!(option_float("1.5", None), Some(Float::Other("1.5".to_string())));
}
