use psrutils::data_types::parse_decimal;
use psrutils::error::{tim_ctx, PsruError, TimContext};
use psrutils::text::{join, split_whitespace};
use psrutils::timfile::{parse_line, read_line, Flag, FlagMap, TOAInfo, TimFormat, TimLine};

const T2_MINIMAL: &[&str] = &["dir/file.ext", "999.999", "55000.97531", "99.11", "tele-id"];

#[test]
fn t2_incomplete() {
    for i in 0..T2_MINIMAL.len() {
        let line = T2_MINIMAL
            .iter()
            .enumerate()
            .filter(|(j, _)| i != *j)
            .map(|a| *a.1)
            .collect::<Vec<_>>();

        assert!(TOAInfo::parse_tempo2(&line).is_err(), "'{}' should fail", line.join(" "),);
    }
}

#[test]
fn t2_minimal() {
    TOAInfo::parse_tempo2(T2_MINIMAL).unwrap();
}

#[test]
fn t2_bad() {
    TOAInfo::parse_tempo2(&[&["C"], T2_MINIMAL].concat()).unwrap();
}

#[test]
fn t2_comments() {
    let parts =
        ["#hii", "dir/file.ext", "999.999", "55000.97531", "99.11", "tele-id", "#hellouuu"];
    TOAInfo::parse_tempo2(&parts).unwrap();
}

#[test]
fn t2_minimal_line_values() {
    let toa = TOAInfo::from_line_tempo2("dir/file.ext 999.999 55000.97531 99.11 tele-id").unwrap();
    assert!(!toa.is_bad);
    assert_eq!(toa.file, "dir/file.ext");
    assert_eq!(toa.frequency.to_text().parse::<f64>().unwrap(), 999.999);
    assert_eq!(toa.frequency, parse_decimal("999.999").unwrap());
    assert_eq!(toa.mjd.days(), 55000);
    assert_eq!(toa.mjd.fraction().to_text().parse::<f64>().unwrap(), 0.97531);
    assert_eq!(toa.mjd_error.to_text().parse::<f64>().unwrap(), 99.11);
    assert_eq!(toa.site_id, "tele-id");
    assert_eq!(toa.comment, "");
    assert!(toa.flags.is_empty());
    assert!(toa.flags.get("fe").is_none());
}

#[test]
fn t2_each_missing_field_ends_the_line_too_soon() {
    for i in 0..T2_MINIMAL.len() {
        let line = T2_MINIMAL
            .iter()
            .enumerate()
            .filter(|(j, _)| i != *j)
            .map(|a| *a.1)
            .collect::<Vec<_>>();
        assert!(
            matches!(TOAInfo::parse_tempo2(&line), Err(PsruError::TimUnexpectedEOL(None))),
            "'{}'",
            line.join(" ")
        );
        let bad_line = [&["C"], line.as_slice()].concat();
        assert!(
            matches!(TOAInfo::parse_tempo2(&bad_line), Err(PsruError::TimUnexpectedEOL(None))),
            "'{}'",
            bad_line.join(" ")
        );
        // A line cut short after field `i` lacks every field behind it.
        let cut: Vec<&str> = T2_MINIMAL[..i].to_vec();
        assert!(
            matches!(TOAInfo::parse_tempo2(&cut), Err(PsruError::TimUnexpectedEOL(None))),
            "'{}'",
            cut.join(" ")
        );
    }
    assert!(matches!(TOAInfo::parse_tempo2(&[]), Err(PsruError::TimUnexpectedEOL(None))));
    assert!(matches!(TOAInfo::parse_tempo2(&["C"]), Err(PsruError::TimUnexpectedEOL(None))));
    assert!(matches!(TOAInfo::from_line_tempo2("   "), Err(PsruError::TimUnexpectedEOL(None))));
    // A line that ends too soon is reported as that, whatever its words are.
    assert!(matches!(
        TOAInfo::from_line_tempo2("f fast"),
        Err(PsruError::TimUnexpectedEOL(None))
    ));
}

#[test]
fn t2_field_errors() {
    match TOAInfo::from_line_tempo2("f fast 55000.5 1 s") {
        Err(PsruError::Unparsable { value, to_type }) => {
            assert_eq!((value.as_str(), to_type), ("fast", "double"));
        }
        other => panic!("{:?}", other),
    }
    match TOAInfo::from_line_tempo2("f 1 55000.5.5 1 s") {
        Err(PsruError::Unparsable { value, to_type }) => {
            assert_eq!((value.as_str(), to_type), ("55000.5.5", "MJD"));
        }
        other => panic!("{:?}", other),
    }
    match TOAInfo::from_line_tempo2("f 1 55000.5 big s") {
        Err(PsruError::Unparsable { value, to_type }) => {
            assert_eq!((value.as_str(), to_type), ("big", "double"));
        }
        other => panic!("{:?}", other),
    }
    // The first number at fault is the one reported.
    assert!(matches!(
        TOAInfo::from_line_tempo2("f fast 55000.5.5 big s -flag"),
        Err(PsruError::Unparsable { to_type: "double", .. })
    ));
    assert!(matches!(
        TOAInfo::from_line_tempo2("f 1 55000.5.5 big s -flag"),
        Err(PsruError::Unparsable { to_type: "MJD", .. })
    ));
    assert!(matches!(
        TOAInfo::from_line_tempo2("f 1 55000.5 1 s -flag"),
        Err(PsruError::TimUnvaluedFlag(None, _))
    ));
}

#[test]
fn t2_flags() {
    let line = "fname 1.0 55.0 0.0 st -flag value -flag2 42 plain 1e3 -flag again --x -y";
    let toa = TOAInfo::from_line_tempo2(line).unwrap();
    assert_eq!(toa.file, "fname");
    assert_eq!(toa.frequency.to_text(), "1");
    assert_eq!(toa.mjd.days(), 55);
    assert!(toa.mjd.fraction().is_zero());
    assert!(toa.mjd_error.is_zero());
    assert_eq!(toa.site_id, "st");
    assert!(!toa.flags.is_empty());
    assert_eq!(toa.flags.get("flag"), Some(&Flag::String("again".to_string())));
    assert_eq!(toa.flags.get("flag2"), Some(&Flag::Double(parse_decimal("42.0").unwrap())));
    assert_eq!(toa.flags.get("plain"), Some(&Flag::Double(parse_decimal("1000").unwrap())));
    assert_eq!(toa.flags.get("-x"), Some(&Flag::String("-y".to_string())));
    assert_eq!(toa.flags.get("-flag"), None);
    assert_eq!(toa.flags.get("value"), None);

    match TOAInfo::from_line_tempo2("fname 1.0 55.0 0.0 st -flag value -flag2") {
        Err(PsruError::TimUnvaluedFlag(None, flag)) => assert_eq!(flag, "-flag2"),
        other => panic!("{:?}", other),
    }
    match TOAInfo::from_line_tempo2("fname 1.0 55.0 0.0 st lonely") {
        Err(PsruError::TimUnvaluedFlag(None, flag)) => assert_eq!(flag, "lonely"),
        other => panic!("{:?}", other),
    }
}

#[test]
fn flag_map() {
    let map = FlagMap::new();
    assert!(map.is_empty());
    let map = map.with("a".to_string(), Flag::String("1".to_string()));
    let map = map.with("b".to_string(), Flag::String("2".to_string()));
    let map = map.with("a".to_string(), Flag::String("3".to_string()));
    assert!(!map.is_empty());
    assert_eq!(map.get("a"), Some(&Flag::String("3".to_string())));
    assert_eq!(map.get("b"), Some(&Flag::String("2".to_string())));
    assert_eq!(map.get("c"), None);
}

#[test]
fn t2_bad_marker_and_comments() {
    let toa = TOAInfo::from_line_tempo2(
        "c #first dir/file.ext 999.999 55000.97531 99.11 tele-id -fe L #second # the rest -x 1",
    )
    .unwrap();
    assert!(toa.is_bad);
    assert_eq!(toa.file, "dir/file.ext");
    assert_eq!(toa.site_id, "tele-id");
    assert_eq!(toa.comment, "#first -- #second -- the -- rest -- -x -- 1");
    assert_eq!(toa.flags.get("fe"), Some(&Flag::String("L".to_string())));
    assert_eq!(toa.flags.get("x"), None);

    let toa = TOAInfo::parse_tempo2(&[&["C"], T2_MINIMAL].concat()).unwrap();
    assert!(toa.is_bad);
    assert_eq!(toa.file, "dir/file.ext");
    assert_eq!(toa.comment, "");

    let parts =
        ["#hii", "dir/file.ext", "999.999", "55000.97531", "99.11", "tele-id", "#hellouuu"];
    let toa = TOAInfo::parse_tempo2(&parts).unwrap();
    assert!(!toa.is_bad);
    assert_eq!(toa.comment, "#hii -- #hellouuu");
    assert_eq!(toa.file, "dir/file.ext");

    // A lone `#` before the fields leaves no field.
    assert!(matches!(
        TOAInfo::from_line_tempo2("# dir/file.ext 999.999 55000.97531 99.11 tele-id"),
        Err(PsruError::TimUnexpectedEOL(None))
    ));
}

#[test]
fn parkes_lines_are_not_read() {
    let blank_and_period = format!(" {}.{}", "x".repeat(40), "123");
    assert!(matches!(
        TOAInfo::parse_parkes(&blank_and_period),
        Err(PsruError::TimParkesNotImplemented(None))
    ));
    assert!(matches!(TOAInfo::parse_parkes(""), Err(PsruError::TimParkesMissingBlank(None))));
    assert!(matches!(
        TOAInfo::parse_parkes("x 12345"),
        Err(PsruError::TimParkesMissingBlank(None))
    ));
    assert!(matches!(
        TOAInfo::parse_parkes(" short"),
        Err(PsruError::TimParkesMissingPeriod(None))
    ));
    let no_period = format!(" {}", "x".repeat(60));
    assert!(matches!(
        TOAInfo::parse_parkes(&no_period),
        Err(PsruError::TimParkesMissingPeriod(None))
    ));
    assert!(matches!(TOAInfo::parse_parkes(" µ"), Err(PsruError::TimNotAscii(None))));
    assert!(matches!(
        parse_line(TimFormat::Parkes, &blank_and_period),
        Err(PsruError::TimParkesNotImplemented(None))
    ));
}

#[test]
fn tim_directives() {
    assert_eq!(
        parse_line(TimFormat::Tempo2, "INCLUDE sub/other.tim").unwrap(),
        TimLine::Include("sub/other.tim".to_string())
    );
    assert_eq!(
        parse_line(TimFormat::Parkes, "  INCLUDE   other.tim  extra").unwrap(),
        TimLine::Include("other.tim".to_string())
    );
    assert!(matches!(parse_line(TimFormat::Tempo2, "INCLUDE"), Err(PsruError::TimUnexpectedEOL(None))));
    assert_eq!(parse_line(TimFormat::Tempo2, "FORMAT 1").unwrap(), TimLine::Nothing);
    match parse_line(TimFormat::Parkes, "FORMAT 1") {
        Err(PsruError::TimFormatDiscrepancy(None, format)) => assert_eq!(format, "Tempo2"),
        other => panic!("{:?}", other),
    }
    assert_eq!(parse_line(TimFormat::Tempo2, "MODE 1").unwrap(), TimLine::Nothing);
    assert_eq!(parse_line(TimFormat::Parkes, "MODE 1").unwrap(), TimLine::Nothing);
    assert!(matches!(parse_line(TimFormat::Tempo2, "FORMAT"), Err(PsruError::TimUnexpectedEOL(None))));
    match parse_line(TimFormat::Tempo2, "dir/file.ext 999.999 55000.97531 99.11 tele-id").unwrap() {
        TimLine::Toa(toa) => assert_eq!(toa.site_id, "tele-id"),
        other => panic!("{:?}", other),
    }
}

#[test]
fn tim_errors_carry_their_place() {
    let mut ctx = TimContext::new("dir/a.tim", 0);
    ctx.line(7);
    assert_eq!(ctx.to_text(), "In file 'dir/a.tim' on line 7:");
    assert_eq!(tim_ctx(Some(&ctx)), "In file 'dir/a.tim' on line 7:");
    assert_eq!(tim_ctx(None), "");
    assert_eq!(read_line(TimFormat::Tempo2, &ctx, "").unwrap(), TimLine::Nothing);
    let err = read_line(TimFormat::Tempo2, &ctx, "f 1 2").unwrap_err();
    assert_eq!(err.message(), "In file 'dir/a.tim' on line 7: TOA line ended prematurely");
    // The place that is attached first stays.
    let outer = TimContext::new("top.tim", 3);
    let err = err.set_tim_ctx(&outer);
    assert_eq!(err.message(), "In file 'dir/a.tim' on line 7: TOA line ended prematurely");
    assert_eq!(
        PsruError::TimUnexpectedEOL(None).message(),
        " TOA line ended prematurely"
    );
    let err = read_line(TimFormat::Tempo2, &ctx, "f 1 2 3 s -flag").unwrap_err();
    assert_eq!(err.message(), "In file 'dir/a.tim' on line 7: Flag '-flag' did not have a value.");
    let err = read_line(TimFormat::Parkes, &ctx, "FORMAT 1").unwrap_err();
    assert_eq!(
        err.message(),
        "In file 'dir/a.tim' on line 7: Read format does not match supplied 'Tempo2'"
    );
    let err = read_line(TimFormat::Parkes, &ctx, "x").unwrap_err();
    assert_eq!(
        err.message(),
        "In file 'dir/a.tim' on line 7: There's supposed to be a blank space in the first column."
    );
    // An error of a kind without a place is left as it is.
    let err = read_line(TimFormat::Tempo2, &ctx, "f fast 2 3 s").unwrap_err();
    assert_eq!(err.message(), "Impossible to parse 'fast' into type double.");
    assert!(matches!(
        PsruError::ParNoName.set_tim_ctx(&ctx),
        PsruError::ParNoName
    ));
    for err in [
        PsruError::TimMalformedMJD(None),
        PsruError::TimNotAscii(None),
        PsruError::TimParkesMissingPeriod(None),
        PsruError::TimParkesNotImplemented(None),
    ] {
        let message = err.set_tim_ctx(&ctx).message();
        assert!(message.starts_with("In file 'dir/a.tim' on line 7: "), "{}", message);
    }
}

#[test]
fn error_messages() {
    for (err, message) in [
        (PsruError::IOError("gone".to_string()), "IO error >> gone"),
        (PsruError::InvalidRA("1:2".to_string()), "Invalid RA string '1:2'."),
        (PsruError::InvalidDec("1:2".to_string()), "Invalid DEC string '1:2'."),
        (PsruError::ParMissingValue("F0".to_string()), "Param 'F0' missing value."),
        (PsruError::ParUnknownFlag("F".to_string()), "Unknown flag 'F'."),
        (PsruError::ParUnrecognisedKey("K".to_string()), "Unrecognised key 'K'."),
        (PsruError::IncompleteJump("JUMP x".to_string()), "Incomplete jump 'JUMP x'."),
        (PsruError::BadGlitch(0), "Glitch with index 0 is incomplete."),
        (PsruError::BadGlitch(1234567890), "Glitch with index 1234567890 is incomplete."),
        (PsruError::ParBadFrequency, "Bad F0 parameter."),
        (PsruError::ParBadPEpoch, "Bad PEPOCH parameter."),
        (PsruError::ParRepeatParam("RA".to_string()), "Repeated 'RA' parameter."),
        (PsruError::OrphanFile, "File does not have a (readable) parent directory."),
        (PsruError::TimMalformedMJD(None), " MJD is expected to be in decimal format."),
        (PsruError::TimNotAscii(None), " Cannot handle non-ascii text in the supplied mode."),
        (
            PsruError::TimParkesMissingPeriod(None),
            " There's supposed to be a period in the column 42.",
        ),
        (PsruError::ParDuplicateParameters(vec![]), "There are duplicate parameters defined:"),
    ] {
        assert_eq!(err.message(), message);
    }
}

#[test]
fn words_and_joins() {
    assert_eq!(split_whitespace(""), Vec::<&str>::new());
    assert_eq!(split_whitespace(" \t\r\n"), Vec::<&str>::new());
    assert_eq!(split_whitespace("a"), vec!["a"]);
    assert_eq!(split_whitespace("  F0\t 9001  1 \u{a0}0.1\u{3000}"), vec!["F0", "9001", "1", "0.1"]);
    assert_eq!(split_whitespace("µs ×2 ’x’"), vec!["µs", "×2", "’x’"]);
    for line in ["  a  bb   ccc ", "x\ty\u{2003}z", "\u{85}one\u{1680}two\u{2028}"] {
        assert_eq!(split_whitespace(line), line.split_whitespace().collect::<Vec<_>>());
    }
    assert_eq!(join(&[], " "), "");
    assert_eq!(join(&["a"], " "), "a");
    assert_eq!(join(&["a", "b", "c"], " -- "), "a -- b -- c");
}
