use psrutils::data_types::{parse_decimal, Decimal, J2000Dec, J2000Ra, Mjd};
use psrutils::error::PsruError;
use psrutils::parse_tools::{parse_bool, parse_f64, parse_u32};

fn number(text: &str) -> Decimal {
    parse_decimal(text).unwrap()
}

#[test]
fn ra_dec_coords() {
    for ra in [
        "RA     59:59.999\n",
        "RA     23:59:\n",
        "RA     24:59:59.999\n",
        "RA     12:60:59.999\n",
        "RA     12:59:60\n",
        "RA     -2:59:59.999\n",
    ] {
        let c = ra.parse::<J2000Ra>();
        if c.is_ok() {
            panic!("{} should not be ok as ra", ra);
        }
    }

    for ra in ["23:59:59.999", "0:59:59.999", "23:0:59.999", "23:59:0.0", "0:0:0"] {
        let c = ra.parse::<J2000Ra>();
        if let Err(err) = c {
            panic!("{}\n{} should be ok as ra", err.message(), ra);
        }
    }

    for dec in [
        "59:59.999",
        "0:59:",
        "90:59:59.999",
        "90:0:0.001",
        "0:60:59.999",
        "0:59:60",
        "-90:59:59.999",
        "-90:0:0.001",
    ] {
        let c = dec.parse::<J2000Dec>();
        if c.is_ok() {
            panic!("{} should not be ok as dec", dec);
        }
    }

    for dec in [
        "89:59:59.999",
        "90:0:0.0",
        "0:59:59.999",
        "89:0:59.999",
        "89:59:0.0",
        "0:0:0",
        "-0:0:0",
        "-89:59:59.999",
        "-90:0:0.0",
    ] {
        let c = dec.parse::<J2000Dec>();
        if let Err(err) = c {
            panic!("{}\n{} should be ok as dec", err.message(), dec);
        }
    }
}

#[test]
fn ra_bare_strings_that_lie_out_of_bounds() {
    for ra in ["59:59.999", "23:59:", "24:59:59.999", "12:60:59.999", "12:59:60", "-2:59:59.999"] {
        match J2000Ra::from_str(ra) {
            Err(PsruError::InvalidRA(text)) => assert_eq!(text, ra),
            other => panic!("{} gave {:?}", ra, other),
        }
    }
}

#[test]
fn ra_every_whole_second_of_a_day_parses() {
    for h in 0..24 {
        for m in [0, 1, 30, 59] {
            for s in [0, 1, 30, 59] {
                let text = format!("{}:{}:{}", h, m, s);
                let ra = J2000Ra::from_str(&text).unwrap();
                assert_eq!(ra.major(), h);
                assert_eq!(ra.minutes(), m);
                assert_eq!(ra.seconds().to_text(), format!("{}", s));
                assert_eq!(ra.to_text(), text);
            }
        }
    }
}

#[test]
fn ra_components() {
    let ra = J2000Ra::from_str("12:30:00").unwrap();
    assert_eq!(ra.major(), 12);
    assert_eq!(ra.minutes(), 30);
    assert!(ra.seconds().is_zero());
    let hours = ra.major() as f64 + ra.minutes() as f64 / 60.0
        + ra.seconds().to_text().parse::<f64>().unwrap() / 3600.0;
    assert_eq!(hours, 12.5);
}

#[test]
fn ra_new_checks_bounds() {
    assert!(J2000Ra::new(5, 55, number("10.30536")).is_ok());
    assert!(J2000Ra::new(23, 59, number("59.999999999999999999999")).is_ok());
    assert!(matches!(J2000Ra::new(26, 0, number("0.0")), Err(PsruError::InvalidRA(_))));
    assert!(matches!(J2000Ra::new(24, 0, number("0")), Err(PsruError::InvalidRA(_))));
    assert!(matches!(J2000Ra::new(-1, 0, number("0")), Err(PsruError::InvalidRA(_))));
    assert!(matches!(J2000Ra::new(1, 60, number("0")), Err(PsruError::InvalidRA(_))));
    assert!(matches!(J2000Ra::new(1, 0, number("60")), Err(PsruError::InvalidRA(_))));
    assert!(matches!(J2000Ra::new(1, 0, number("6e1")), Err(PsruError::InvalidRA(_))));
    assert!(matches!(J2000Ra::new(1, 0, number("-0.5")), Err(PsruError::InvalidRA(_))));
    match J2000Ra::new(26, 3, number("1.50")) {
        Err(PsruError::InvalidRA(text)) => assert_eq!(text, "26:3:1.5"),
        other => panic!("{:?}", other),
    }
}

#[test]
fn dec_new_checks_bounds() {
    assert!(J2000Dec::new(7, 24, number("25.4304")).is_ok());
    assert!(J2000Dec::new(90, 0, number("0.0")).is_ok());
    assert!(J2000Dec::new(-90, 0, number("0.0")).is_ok());
    assert!(J2000Dec::new(-89, 59, number("59.9")).is_ok());
    assert!(matches!(J2000Dec::new(100, 0, number("0.0")), Err(PsruError::InvalidDec(_))));
    assert!(matches!(J2000Dec::new(91, 0, number("0.0")), Err(PsruError::InvalidDec(_))));
    assert!(matches!(J2000Dec::new(-91, 0, number("0.0")), Err(PsruError::InvalidDec(_))));
    assert!(matches!(J2000Dec::new(90, 1, number("0.0")), Err(PsruError::InvalidDec(_))));
    assert!(matches!(J2000Dec::new(90, 0, number("0.001")), Err(PsruError::InvalidDec(_))));
    assert!(matches!(J2000Dec::new(-90, 1, number("0")), Err(PsruError::InvalidDec(_))));
    assert!(matches!(J2000Dec::new(-90, 0, number("1e-9")), Err(PsruError::InvalidDec(_))));
    assert!(matches!(J2000Dec::new(0, 60, number("0")), Err(PsruError::InvalidDec(_))));
    assert!(matches!(J2000Dec::new(0, 0, number("60")), Err(PsruError::InvalidDec(_))));
}

#[test]
fn dec_wrong_shape_is_reported_as_dec() {
    match J2000Dec::from_str("59:59.999") {
        Err(PsruError::InvalidDec(text)) => assert_eq!(text, "59:59.999"),
        other => panic!("{:?}", other),
    }
    assert!(matches!(J2000Dec::from_str("1:2:3:4"), Err(PsruError::InvalidDec(_))));
    assert!(matches!(J2000Dec::from_str("1:x:3"), Err(PsruError::InvalidDec(_))));
    assert!(matches!(J2000Dec::from_str("200:0:0"), Err(PsruError::InvalidDec(_))));
    assert!(matches!(J2000Dec::from_str(""), Err(PsruError::InvalidDec(_))));
}

#[test]
fn coord_text_round_trip() {
    let dec = J2000Dec::from_str("-45:07:09.250").unwrap();
    assert_eq!(dec.major(), -45);
    assert_eq!(dec.minutes(), 7);
    assert_eq!(dec.to_text(), "-45:7:9.25");
    let again = J2000Dec::from_str(&dec.to_text()).unwrap();
    assert_eq!(dec, again);
}

#[test]
fn decimal_numerals() {
    for (text, written) in [
        ("0", "0"),
        ("-0", "0"),
        ("0.0", "0"),
        ("000", "0"),
        ("7", "7"),
        ("+7", "7"),
        ("-7", "-7"),
        ("007", "7"),
        ("9001", "9001"),
        ("55000", "55000"),
        ("1001.1", "1001.1"),
        ("1001.100", "1001.1"),
        ("-0.02", "-0.02"),
        ("0.0002", "0.0002"),
        (".5", "0.5"),
        ("5.", "5"),
        ("1e5", "1e5"),
        ("1E5", "1e5"),
        ("1e+5", "1e5"),
        ("1.5e-15", "1.5e-15"),
        ("-3.7E-015", "-3.7e-15"),
        ("0e7", "0"),
        ("12.50e0", "12.5"),
        ("999.999", "999.999"),
        ("1e2147483647", "1e2147483647"),
        ("1e-2147483647", "1e-2147483647"),
    ] {
        let d = parse_decimal(text).unwrap_or_else(|| panic!("{} should parse", text));
        assert_eq!(d.to_text(), written, "{}", text);
        let again = parse_decimal(&d.to_text()).unwrap();
        assert_eq!(again, d, "{}", text);
        assert_eq!(again.to_text(), written);
    }
}

#[test]
fn decimal_rejects_what_is_no_numeral() {
    for text in [
        "", "+", "-", ".", "e5", "1e", "1e+", "1e-", "--1", "1.2.3", "1,5", "abc", "1x", " 1", "1 ",
        "inf", "nan", "1e2147483648", "1e-2147483648", "0x10", "1_000", "١",
    ] {
        assert!(parse_decimal(text).is_none(), "{:?} should not parse", text);
    }
}

#[test]
fn decimal_equality_is_of_numbers() {
    for (a, b) in [
        ("1e3", "1000"),
        ("0.01e5", "1000"),
        ("1000.000", "1E+3"),
        ("1.5e1", "15"),
        ("15e-1", "1.5"),
        ("0.00015e4", "1.5"),
        ("-2.50", "-25e-1"),
        ("0", "-0"),
        ("0", "0e17"),
        ("0.0", "000"),
        ("123456789012345678901234567890", "1.2345678901234567890123456789e29"),
        ("1e-2147483647", "0.1e-2147483646"),
    ] {
        assert_eq!(number(a), number(b), "{} and {}", a, b);
        assert_eq!(number(b), number(a), "{} and {}", b, a);
    }
    for (a, b) in [
        ("1", "10"),
        ("1", "-1"),
        ("1", "0"),
        ("0", "1e-9"),
        ("1.5", "1.51"),
        ("15", "1.5"),
        ("1e3", "1e4"),
        ("12", "21"),
        ("100", "1000"),
        ("0.001", "0.01"),
        ("1e2147483647", "1e-2147483647"),
    ] {
        assert_ne!(number(a), number(b), "{} and {}", a, b);
        assert_ne!(number(b), number(a), "{} and {}", b, a);
    }
}

#[test]
fn decimal_signs_and_zero() {
    assert!(number("0").is_zero());
    assert!(number("-0.000").is_zero());
    assert!(!number("-0.000").is_negative());
    assert!(!number("0").is_positive());
    assert!(number("1e-300").is_positive());
    assert!(number("-1e-300").is_negative());
    assert!(!number("-1e-300").is_positive());
    assert!(!number("0.0001").is_zero());
}

#[test]
fn decimal_integer_part() {
    for (text, bound, below) in [
        ("0", 1, true),
        ("0", 0, false),
        ("0.999999999999999999999999", 1, true),
        ("1", 1, false),
        ("1.0", 1, false),
        ("59.999", 60, true),
        ("60", 60, false),
        ("60.0000", 60, false),
        ("6e1", 60, false),
        ("5.9999e1", 60, true),
        ("0.6e2", 60, false),
        ("600e-1", 60, false),
        ("599e-1", 60, true),
        ("0.00000000001e12", 60, true),
        ("0.00000000001e13", 60, false),
        ("1e2147483647", 60, false),
        ("1e-2147483647", 60, true),
        ("123456789012345678901234567890", 60, false),
        ("-59", 60, true),
        ("-61", 60, false),
        ("18446744073709551615", u64::MAX, false),
        ("18446744073709551614", u64::MAX, true),
    ] {
        assert_eq!(number(text).integer_part_below(bound), below, "{} below {}", text, bound);
    }
}

#[test]
fn mjd_from_text() {
    let mjd = Mjd::from_str("55000.97531").unwrap();
    assert_eq!(mjd.days(), 55000);
    assert_eq!(mjd.fraction().to_text(), "0.97531");
    assert_eq!(mjd.to_text(), "MJD 55000.97531");
    let value = mjd.days() as f64 + mjd.fraction().to_text().parse::<f64>().unwrap();
    assert_eq!(value, 55000.0 + 0.97531);

    let whole = Mjd::from_str("55000").unwrap();
    assert_eq!(whole.days(), 55000);
    assert!(whole.fraction().is_zero());
    assert_eq!(whole.to_text(), "MJD 55000.0");

    let half = "55000.50".parse::<Mjd>().unwrap();
    assert_eq!(half, Mjd::from_str("55000.5").unwrap());
    assert_eq!(half.to_text(), "MJD 55000.5");
    assert_eq!(Mjd::from_str("4294967295.0").unwrap().days(), u32::MAX);
    assert_eq!(Mjd::from_str("0.007").unwrap().to_text(), "MJD 0.007");
}

#[test]
fn mjd_rejects_other_shapes() {
    for text in [
        "", ".", ".5", "55000.", "55000.5.5", "55000,5", "+55000", "-1", "abc", "5e3", "55000.5e1",
        "55000.-5", "4294967296", "4294967296.5", " 55000",
    ] {
        match Mjd::from_str(text) {
            Err(PsruError::Unparsable { value, to_type }) => {
                assert_eq!(value, text);
                assert_eq!(to_type, "MJD");
            }
            other => panic!("{:?} gave {:?}", text, other),
        }
    }
}

#[test]
fn mjd_new_takes_a_fraction_of_a_day() {
    assert!(Mjd::is_day_fraction(&number("0")));
    assert!(Mjd::is_day_fraction(&number("0.999")));
    assert!(Mjd::is_day_fraction(&number("5e-1")));
    assert!(!Mjd::is_day_fraction(&number("1")));
    assert!(!Mjd::is_day_fraction(&number("-0.1")));
    assert!(!Mjd::is_day_fraction(&number("97531")));
    let mjd = Mjd::new(55, number("0.25"));
    assert_eq!(mjd, Mjd::from_str("55.25").unwrap());
    assert_eq!(mjd.clone(), mjd);
    assert_eq!(Mjd::new(55, number("25e-2")).to_text(), "MJD 55+25e-2");
}

#[test]
fn primitive_parsers() {
    assert_eq!(parse_u32("0").unwrap(), 0);
    assert_eq!(parse_u32("+17").unwrap(), 17);
    assert_eq!(parse_u32("0004294967295").unwrap(), u32::MAX);
    for text in ["", "+", "-1", "4294967296", "1.0", "1e3", "12a", " 1", "99999999999999999999999"] {
        match parse_u32(text) {
            Err(PsruError::Unparsable { value, to_type }) => {
                assert_eq!(value, text);
                assert_eq!(to_type, "integer");
            }
            other => panic!("{:?} gave {:?}", text, other),
        }
    }
    for text in ["1", "Y", "y"] {
        assert_eq!(parse_bool(text).unwrap(), true);
    }
    for text in ["0", "N", "n"] {
        assert_eq!(parse_bool(text).unwrap(), false);
    }
    for text in ["", "yes", "no", "2", "T", "true", "11", "Yy"] {
        match parse_bool(text) {
            Err(PsruError::Unparsable { value, to_type }) => {
                assert_eq!(value, text);
                assert_eq!(to_type, "bool");
            }
            other => panic!("{:?} gave {:?}", text, other),
        }
    }
    assert_eq!(parse_f64("-0.02").unwrap().to_text(), "-0.02");
    match parse_f64("1.2.3") {
        Err(PsruError::Unparsable { value, to_type }) => {
            assert_eq!(value, "1.2.3");
            assert_eq!(to_type, "double");
        }
        other => panic!("{:?}", other),
    }
}
