use seximal::{
    parse_real, SeximalError, Si12, Si144, Si24, Si332, Si52, Sisize, Su12, Su144, Su24, Su332,
    Su52, Susize,
};

// ----- Integer round-trip, including the extremes of each width -----

#[test]
fn round_trip_si12_extremes() {
    for v in [i8::MIN, -1, 0, 1, 13, i8::MAX] {
        let s = Si12::new(v).to_string();
        assert_eq!(Si12::from(&s).unwrap().value(), v, "round trip failed for {}", v);
    }
}

#[test]
fn round_trip_si24_extremes() {
    for v in [i16::MIN, -36, 0, 36, i16::MAX] {
        let s = Si24::new(v).to_string();
        assert_eq!(Si24::from(&s).unwrap().value(), v, "round trip failed for {}", v);
    }
}

#[test]
fn round_trip_si52_extremes() {
    for v in [i32::MIN, -1, 0, 13, i32::MAX] {
        let s = Si52::new(v).to_string();
        assert_eq!(Si52::from(&s).unwrap().value(), v, "round trip failed for {}", v);
    }
}

#[test]
fn round_trip_si144_extremes() {
    for v in [i64::MIN, -1, 0, 13, i64::MAX] {
        let s = Si144::new(v).to_string();
        assert_eq!(Si144::from(&s).unwrap().value(), v, "round trip failed for {}", v);
    }
}

#[test]
fn round_trip_si332_extremes() {
    for v in [i128::MIN, -1, 0, 13, i128::MAX] {
        let s = Si332::new(v).to_string();
        assert_eq!(Si332::from(&s).unwrap().value(), v, "round trip failed for {}", v);
    }
}

#[test]
fn round_trip_sisize_extremes() {
    for v in [isize::MIN, -1, 0, 13, isize::MAX] {
        let s = Sisize::new(v).to_string();
        assert_eq!(Sisize::from(&s).unwrap().value(), v, "round trip failed for {}", v);
    }
}

#[test]
fn round_trip_unsigned_extremes() {
    for v in [0u8, 1, 13, u8::MAX] {
        let s = Su12::new(v).to_string();
        assert_eq!(Su12::from(&s).unwrap().value(), v);
    }
    for v in [0u16, 36, u16::MAX] {
        let s = Su24::new(v).to_string();
        assert_eq!(Su24::from(&s).unwrap().value(), v);
    }
    for v in [0u32, 13, u32::MAX] {
        let s = Su52::new(v).to_string();
        assert_eq!(Su52::from(&s).unwrap().value(), v);
    }
    for v in [0u64, 13, u64::MAX] {
        let s = Su144::new(v).to_string();
        assert_eq!(Su144::from(&s).unwrap().value(), v);
    }
    for v in [0u128, 13, u128::MAX] {
        let s = Su332::new(v).to_string();
        assert_eq!(Su332::from(&s).unwrap().value(), v);
    }
    for v in [0usize, 13, usize::MAX] {
        let s = Susize::new(v).to_string();
        assert_eq!(Susize::from(&s).unwrap().value(), v);
    }
}

// ----- Concrete formatting scenarios -----

#[test]
fn format_thirteen_is_21() {
    assert_eq!(Si52::new(13).to_string(), "21");
    assert_eq!(Su52::new(13).to_string(), "21");
}

#[test]
fn parse_21_is_thirteen() {
    assert_eq!(Si52::from("21").unwrap().value(), 13);
    assert_eq!(Su52::from("21").unwrap().value(), 13);
}

#[test]
fn format_zero_every_width() {
    assert_eq!(Si12::new(0).to_string(), "0");
    assert_eq!(Si24::new(0).to_string(), "0");
    assert_eq!(Si52::new(0).to_string(), "0");
    assert_eq!(Si144::new(0).to_string(), "0");
    assert_eq!(Si332::new(0).to_string(), "0");
    assert_eq!(Sisize::new(0).to_string(), "0");
    assert_eq!(Su12::new(0).to_string(), "0");
    assert_eq!(Su24::new(0).to_string(), "0");
    assert_eq!(Su52::new(0).to_string(), "0");
    assert_eq!(Su144::new(0).to_string(), "0");
    assert_eq!(Su332::new(0).to_string(), "0");
    assert_eq!(Susize::new(0).to_string(), "0");
}

#[test]
fn negative_sign_placement() {
    assert_eq!(Si52::new(-36).to_string(), "-100");
    assert_eq!(Si52::from("-100").unwrap().value(), -36);
    assert_eq!(Si12::new(i8::MIN).to_string(), "-332");
    assert_eq!(Si12::from("-332").unwrap().value(), i8::MIN);
}

// ----- Parse errors, one test per error kind -----

#[test]
fn parse_rejects_invalid_digit() {
    assert_eq!(Si52::from("9").unwrap_err(), SeximalError::InvalidDigit);
    assert_eq!(Su52::from("2a3").unwrap_err(), SeximalError::InvalidDigit);
    assert_eq!(Si52::from("").unwrap_err(), SeximalError::InvalidDigit);
    assert_eq!(Si52::from("-").unwrap_err(), SeximalError::InvalidDigit);
    assert_eq!(Su52::from("-21").unwrap_err(), SeximalError::InvalidDigit);
    assert_eq!(Si52::from("\u{e9}12").unwrap_err(), SeximalError::InvalidDigit);
}

#[test]
fn parse_rejects_misplaced_sign() {
    assert_eq!(Si52::from("1-2").unwrap_err(), SeximalError::MisplacedSign);
    assert_eq!(Si52::from("--1").unwrap_err(), SeximalError::MisplacedSign);
    assert_eq!(Su52::from("1-2").unwrap_err(), SeximalError::MisplacedSign);
}

#[test]
fn parse_rejects_overflow_by_digit_count() {
    // For an 8-bit signed type (max 127), "300" needs 6^2 = 36 <= 127, so it
    // still succeeds; one more digit trips the conservative pre-check.
    assert_eq!(Si12::from("300").unwrap().value(), 108);
    assert_eq!(Si12::from("1000").unwrap_err(), SeximalError::Overflow);
    // The pre-check runs before digit validation.
    assert_eq!(Si12::from("6666").unwrap_err(), SeximalError::Overflow);
    assert_eq!(Si12::from("66").unwrap_err(), SeximalError::InvalidDigit);
}

#[test]
fn parse_rejects_overflow_by_magnitude() {
    // Four digits pass the 8-bit unsigned pre-check (6^3 = 216 <= 255), but
    // the accumulated value can still exceed the width.
    assert_eq!(Su12::from("1103").unwrap().value(), 255);
    assert_eq!(Su12::from("1104").unwrap_err(), SeximalError::Overflow);
    // Fifty digits pass the 128-bit pre-check; the value may still overflow.
    let wide = "5".repeat(50);
    assert_eq!(Su332::from(&wide).unwrap_err(), SeximalError::Overflow);
}

#[test]
fn parse_allows_redundant_leading_zeros() {
    assert_eq!(Si52::from("0021").unwrap().value(), 13);
    assert_eq!(Si52::from("-0").unwrap().value(), 0);
}

// ----- Cross-type conversions -----

#[test]
fn conversions_preserve_value_in_range() {
    let a = Si52::new(21);
    assert_eq!(a.as_sisize().value(), 21);
    assert_eq!(a.as_si332().value(), 21);
    assert_eq!(a.as_si144().value(), 21);
    assert_eq!(a.as_si24().value(), 21);
    assert_eq!(a.as_si12().value(), 21);
    assert_eq!(a.as_susize().value(), 21);
    assert_eq!(a.as_su332().value(), 21);
    assert_eq!(a.as_su144().value(), 21);
    assert_eq!(a.as_su52().value(), 21);
    assert_eq!(a.as_su24().value(), 21);
    assert_eq!(a.as_su12().value(), 21);
    let b = Su12::new(200);
    assert_eq!(b.as_si144().value(), 200);
    assert_eq!(b.as_su332().value(), 200);
}

// ----- The real-number text splitter -----

#[test]
fn parse_real_splits_sign_and_digit_groups() {
    let p = parse_real("10.13").unwrap();
    assert!(!p.negative);
    assert_eq!(p.whole, vec![1, 0]);
    assert_eq!(p.fraction, vec![1, 3]);

    let p = parse_real("-10.13").unwrap();
    assert!(p.negative);
    assert_eq!(p.whole, vec![1, 0]);
    assert_eq!(p.fraction, vec![1, 3]);

    let p = parse_real("205").unwrap();
    assert!(!p.negative);
    assert_eq!(p.whole, vec![2, 0, 5]);
    assert_eq!(p.fraction, Vec::<u8>::new());
}

#[test]
fn parse_real_rejects_bad_text() {
    assert_eq!(parse_real("1.2.3").unwrap_err(), SeximalError::TooManyRadixPoints);
    assert_eq!(parse_real("").unwrap_err(), SeximalError::InvalidDigit);
    assert_eq!(parse_real("1.").unwrap_err(), SeximalError::InvalidDigit);
    assert_eq!(parse_real(".5").unwrap_err(), SeximalError::InvalidDigit);
    assert_eq!(parse_real("1.9").unwrap_err(), SeximalError::InvalidDigit);
    assert_eq!(parse_real("2.1-3").unwrap_err(), SeximalError::MisplacedSign);
    assert_eq!(parse_real("6.6").unwrap_err(), SeximalError::InvalidDigit);
}

// ----- The 64-bit unsigned wrapper -----

#[test]
fn su144_basics() {
    let num = Su144::new(13);
    assert_eq!(num.to_string(), "21");
    assert_eq!(Su144::from("21").unwrap().value(), 13);
    assert_eq!(Su144::from("0").unwrap().value(), 0);
    let num = num + Su144::new(2);
    assert_eq!(num.value(), 15);
    let num = num * 2u64;
    assert_eq!(num.value(), 30);
}

#[test]
fn su144_from_rejects_garbage() {
    assert_eq!(Su144::from("9").unwrap_err(), SeximalError::InvalidDigit);
}
