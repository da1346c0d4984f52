use psrutils::data_types::{parse_decimal, J2000Ra};
use psrutils::error::PsruError;
use psrutils::parfile::glitch::Glitch;
use psrutils::parfile::jump::{Jump, JumpType};
use psrutils::parfile::parameters::{
    parse_count, parse_fitted, parse_flag, parse_text, FittedParameterValue, Parameter,
};
use psrutils::parfile::tables::{float_table, lookup};
use psrutils::parfile::{
    find_duplicates, BinaryModel, ErrorMode, ParParseError, Parfile, T2CMethod, TimeEphemeris,
    Units,
};

fn lines_of(text: &str) -> Vec<String> {
    text.lines().map(|line| line.to_string()).collect()
}

fn read(text: &str) -> Result<Parfile, PsruError> {
    Parfile::read(&lines_of(text))
}

const MINIMAL: &str = "PSR J0000-9999\nRA 23:59:59.999\nDEC 45:59:59.999\nPEPOCH 55000\nF0 9001\nDM 1001.1\n";

#[test]
fn incomplete_parinfo() {
    let minimal = [
        "RA 23:59:59.999\n",
        "DEC 359:59:59.999\n",
        "PSR J0000-9999\n",
        "PEPOCH 55000\n",
        "F0 9001\n",
        "DM 99\n",
    ];

    for i in 2..6 {
        let subset = minimal.iter().enumerate().fold(String::new(), |a, (j, line)| {
            if i == j {
                a
            } else {
                a + line
            }
        });

        let par = read(&subset);
        assert!(par.is_err());
    }
}

#[test]
fn minimal_parinfo() {
    let minimal = "
        PSR    J0000-9999\n\
        RA     23:59:59.999\n\
        DEC    45:59:59.999\n\
        PEPOCH 55000\n\
        F0     9001\n\
        DM 1001.1\n\
    ";

    let par = read(minimal);
    match par {
        Ok(_) => {}
        Err(err) => panic!("{}", err.message()),
    }
}

#[test]
fn duplicate_params() {
    // Text param
    let lines = "
        PSR J0000-9999\n\
        RA 23:59:59.999\n\
        DEC 359:59:59.999\n\
        PEPOCH 55000\n\
        F0 9001\n\
        PSR J3164-9999\n\
        DM 0.1\n\
    ";

    let par = read(lines);
    assert!(par.is_err());

    // Number param
    let lines = "
        PSR J0000-9999\n\
        RA 23:59:59.999\n\
        DEC 359:59:59.999\n\
        PEPOCH 55000\n\
        F0 9001\n\
        F1 0.0002\n\
        F1 0.002\n\
        DM 99.99\n\
        F1 0.002\n\
    ";

    let par = read(lines);
    assert!(par.is_err());

    // Flag
    let lines = "
        PSR J0000-9999\n\
        RA 23:59:59.999\n\
        DEC 359:59:59.999\n\
        IMP\n\
        PEPOCH 55000\n\
        F0 9001\n\
        DM 99.99\n\
        IMP\n\
    ";

    let par = read(lines);
    assert!(par.is_err());
}

#[test]
fn write_read_invariance() {
    let minimal = "
        PSR     J0000-9999\n\
        RA      23:59:59.999\n\
        DEC     45:59:59.999\n\
        PEPOCH  55000\n\
        F0      9001\n\
        DM      1001.1\n\
        F1      -0.02\n\
        MODE 1\n\
        MODEL   BT\n\
        NOTRACK y\n\
        NITS    1000\n\
        DM_SERIES   TAYLOR\n\
    ";

    let par = read(minimal).unwrap();
    let src = par.write().unwrap();

    let par = Parfile::read(&src).unwrap();
    let dst = par.write().unwrap();

    assert_eq!(src, dst);
}

#[test]
fn written_lines_are_exact() {
    let text = "
        RA      23:59:59.999\n\
        DM      1001.10\n\
        PSRJ    J0000-9999\n\
        DEC     -45:59:59.999 1 0.001\n\
        PEPOCH  55000\n\
        F0      9001 1 0.0001\n\
        F1      -0.02e-13\n\
        MODE 1\n\
        MODEL   BT\n\
        UNITS   TDB\n\
        TIMEEPH FB90\n\
        T2CMETHOD IAU2000B\n\
        NOTRACK y\n\
        TEMPO1 0\n\
        NITS    1000\n\
        CLK UTC(NIST)\n\
        DM_SERIES   TAYLOR\n\
        PDOT 5\n\
        JUMP MJD 50000 51000.5 0.25 1\n\
        JUMP FREQ 1000 2000 -1e-3 0\n\
        JUMP TEL pks 1 0\n\
        JUMP NAME fred 2 1\n\
        JUMP -be CPSR2 3 0 trailing words\n\
        glep_0 51000\n\
        GLF0_0 1e-6\n\
        GLF0D_0 2e-6\n\
    ";
    let par = read(text).unwrap();
    let lines = par.write().unwrap();
    assert_eq!(
        lines,
        vec![
            "PSR J0000-9999",
            "RA 23:59:59.999",
            "DEC -45:59:59.999 1 0.001",
            "DM 1001.1",
            "PEPOCH 55000",
            "F0 9001 1 0.0001",
            "F1 -0.02e-13",
            "P1 5",
            "NITS 1000",
            "CLK UTC(NIST)",
            "DM_SERIES TAYLOR",
            "NOTRACK Y",
            "TEMPO1 N",
            "TIMEEPH FB90",
            "MODEL BT",
            "UNITS TDB",
            "T2CMETHOD IAU2000B",
            "MODE 1",
            "GLEP_0  51000",
            "GLPH_0  0",
            "GLF0_0  1e-6",
            "GLF1_0  0",
            "GLF0D_0 2e-6",
            "GLTD_0  0",
            "JUMP MJD 50000 51000.5 0.25 1",
            "JUMP FREQ 1000 2000 -1e-3 0",
            "JUMP TEL pks 1 0",
            "JUMP NAME fred 2 1",
            "JUMP -be CPSR2 3 0",
        ]
    );
    let again = Parfile::read(&lines).unwrap().write().unwrap();
    assert_eq!(lines, again);
}

#[test]
fn read_fills_the_fields() {
    let text = "
        PSR    J0000-9999\n\
        RA     23:59:59.999\n\
        DEC    45:59:59.999\n\
        PEPOCH 55000\n\
        F0     9001 1 0.0001\n\
        DM     1001.1\n\
    ";
    let par = read(text).unwrap();

    let name_par = &par.texts[0];
    assert_eq!(name_par.name(), "PSR");
    assert_eq!(name_par.value(), "J0000-9999");
    assert_eq!(name_par.description(), "Definition of clock to use");

    let ra = J2000Ra::new(23, 59, parse_decimal("59.999").unwrap()).unwrap();
    assert_eq!(par.ra.value(), &FittedParameterValue::JustValue(ra));
    assert_eq!(par.ra.name(), "RA");
    assert_eq!(par.ra.description(), "J2000 right ascension");
    assert_eq!(par.dec.name(), "DEC");

    let f0_par = &par.parameters[1];
    let fpv = FittedParameterValue::FitInfo {
        value: parse_decimal("9001.0").unwrap(),
        fit: true,
        error: parse_decimal("0.0001").unwrap(),
    };
    assert_eq!(f0_par.name(), "F0");
    assert_eq!(f0_par.value(), &fpv);
    assert_eq!(f0_par.description(), "The rotational frequency (Hz)");

    assert_eq!(par.time_eph, TimeEphemeris::Unstated);
    assert_eq!(par.binary_model, BinaryModel::Unstated);
    assert_eq!(par.t2c_method, T2CMethod::Unstated);
    assert_eq!(par.units, Units::Unstated);
    assert_eq!(par.error_mode, ErrorMode::Unstated);
    assert!(par.glitches.is_empty());
    assert!(par.jumps.is_empty());
    assert!(par.counts.is_empty());
    assert!(par.flags.is_empty());
}

#[test]
fn each_mandatory_parameter_is_missed() {
    let lines = lines_of(MINIMAL);
    assert!(Parfile::read(&lines).is_ok());
    for (key, expected) in [("PSR", "Missing PSR parameter."), ("PEPOCH", "Missing PEPOCH parameter."), ("F0", "Missing F0 parameter."), ("DM", "Missing DM parameter.")] {
        let subset: Vec<String> =
            lines.iter().filter(|line| !line.starts_with(key)).cloned().collect();
        assert_eq!(subset.len(), lines.len() - 1);
        match Parfile::read(&subset) {
            Err(err) => assert_eq!(err.message(), expected),
            Ok(_) => panic!("a file without {} was read", key),
        }
    }
    assert!(matches!(read("RA 1:2:3\n"), Err(PsruError::ParNoName)));
    assert!(matches!(read("PSR a\n"), Err(PsruError::ParNoPEpoch)));
    assert!(matches!(read("PSR a\nPEPOCH 5\n"), Err(PsruError::ParNoFrequency)));
    assert!(matches!(read("PSR a\nPEPOCH 5\nF0 1\n"), Err(PsruError::ParNoDispersion)));
    assert!(read("PSR a\nPEPOCH 5\nF0 1\nDM -3\n").is_ok());
    assert!(read("PSR a\nPEPOCH 5\nF0 1\nDM 0\n").is_ok());
}

#[test]
fn mandatory_values_must_be_positive() {
    assert!(matches!(read("PSR a\nPEPOCH 0\nF0 1\nDM 1\n"), Err(PsruError::ParBadPEpoch)));
    assert!(matches!(read("PSR a\nPEPOCH -5\nF0 1\nDM 1\n"), Err(PsruError::ParBadPEpoch)));
    assert!(matches!(read("PSR a\nPEPOCH 5\nF0 0.0\nDM 1\n"), Err(PsruError::ParBadFrequency)));
    assert!(matches!(
        read("PSR a\nPEPOCH 5\nF0 -1e-9 1 0.1\nDM 1\n"),
        Err(PsruError::ParBadFrequency)
    ));
    assert!(read("PSR a\nPEPOCH 1e-9\nF0 1e-9 0 0\nDM 1\n").is_ok());
}

#[test]
fn duplicates_of_each_kind() {
    match read("PSR J0000-9999\nPEPOCH 55000\nF0 9001\nPSRJ J3164-9999\nDM 0.1\n") {
        Err(PsruError::ParDuplicateParameters(pairs)) => {
            assert_eq!(pairs, vec![("PSR J0000-9999".to_string(), "PSR J3164-9999".to_string())]);
        }
        other => panic!("{:?}", other),
    }
    match read("PSR a\nPEPOCH 55000\nF0 9001\nF1 0.0002\nF1 0.002 1 0.5\nDM 99.99\nF1 0.02\n") {
        Err(PsruError::ParDuplicateParameters(pairs)) => {
            assert_eq!(
                pairs,
                vec![
                    ("F1 0.0002".to_string(), "F1 0.002 1 0.5".to_string()),
                    ("F1 0.002 1 0.5".to_string(), "F1 0.02".to_string()),
                ]
            );
        }
        other => panic!("{:?}", other),
    }
    match read("PSR a\nNOTRACK 1\nPEPOCH 55000\nF0 9001\nDM 99.99\nNOTRACK 0\n") {
        Err(PsruError::ParDuplicateParameters(pairs)) => {
            assert_eq!(pairs, vec![("NOTRACK".to_string(), "NOTRACK".to_string())]);
        }
        other => panic!("{:?}", other),
    }
    match read("PSR a\nNITS 1\nPEPOCH 55000\nF0 9001\nDM 99.99\nNTOA 4\nNITS 2\n") {
        Err(PsruError::ParDuplicateParameters(pairs)) => {
            assert_eq!(pairs, vec![("NITS 1".to_string(), "NITS 2".to_string())]);
        }
        other => panic!("{:?}", other),
    }
    // The aliases of one parameter are one name.
    assert!(matches!(
        read("PSR a\nPEPOCH 55000\nF0 9001\nDM 1\nP 5\nP0 6\n"),
        Err(PsruError::ParDuplicateParameters(_))
    ));
    let message = read("PSR a\nPSR b\nPEPOCH 55000\nF0 9001\nDM 1\n").unwrap_err().message();
    assert_eq!(message, "There are duplicate parameters defined:\n * 'PSR a' and 'PSR b'");
}

#[test]
fn find_duplicates_pairs() {
    let table = float_table();
    let entry = |key: &str| Parameter::new(&lookup(&table, key).unwrap(), 0u32);
    let none: Vec<Parameter<u32>> = vec![];
    assert_eq!(find_duplicates(&none), vec![]);
    assert_eq!(find_duplicates(&[entry("F0"), entry("F1"), entry("DM")]), vec![]);
    assert_eq!(find_duplicates(&[entry("F0"), entry("F1"), entry("F0")]), vec![(0, 2)]);
    assert_eq!(
        find_duplicates(&[entry("F0"), entry("F0"), entry("F0")]),
        vec![(0, 1), (1, 2)]
    );
    assert_eq!(
        find_duplicates(&[entry("DM"), entry("F0"), entry("F1"), entry("F0"), entry("DM"), entry("F0")]),
        vec![(0, 4), (1, 3), (3, 5)]
    );
    assert_eq!(find_duplicates(&[entry("P"), entry("P0"), entry("PDOT"), entry("P1")]), vec![(0, 1), (2, 3)]);
}

#[test]
fn glitch_needs_epoch_and_frequencies() {
    let base = MINIMAL.to_string();
    // A glitch that is referred to by one of its values alone is incomplete.
    match read(&(base.clone() + "GLF1_2 0.5\n")) {
        Err(PsruError::BadGlitch(index)) => assert_eq!(index, 0),
        other => panic!("{:?}", other),
    }
    let mut par = Parfile::new();
    for line in lines_of(MINIMAL) {
        par.parse_line(&line).unwrap();
    }
    par.parse_line("GLF1_2 0.5").unwrap();
    assert_eq!(par.glitches.len(), 3);
    assert_eq!(par.glitches[2].number, 2);
    assert_eq!(par.glitches[2].f1.to_text(), "0.5");
    assert!(par.glitches[2].f0.is_zero());
    assert!(par.glitches[2].epoch.is_zero());
    assert!(matches!(par.glitches[2].check(), Err(PsruError::BadGlitch(2))));
    assert!(matches!(par.check(), Err(PsruError::BadGlitch(0))));
    assert!(par.write().is_err());

    let complete = base.clone() + "GLEP_0 51000\nGLF0_0 1e-6\nGLF0D_0 2e-6\nGLTD_0 7\nglph_0 0.1\nGlF1_0 3\n";
    let par = read(&complete).unwrap();
    assert_eq!(par.glitches.len(), 1);
    assert_eq!(par.glitches[0].td.to_text(), "7");
    assert_eq!(par.glitches[0].phase.to_text(), "0.1");
    assert_eq!(par.glitches[0].f1.to_text(), "3");
    assert!(par.glitches[0].check().is_ok());

    for missing in ["GLEP_0", "GLF0_0", "GLF0D_0"] {
        let text: String = complete
            .lines()
            .filter(|line| !line.starts_with(missing))
            .map(|line| line.to_string() + "\n")
            .collect();
        assert!(matches!(read(&text), Err(PsruError::BadGlitch(0))), "{}", missing);
    }
    // A later line overwrites an earlier one.
    let par = read(&(complete.clone() + "GLEP_0 52000\n")).unwrap();
    assert_eq!(par.glitches[0].epoch.to_text(), "52000");
}

#[test]
fn glitch_lines() {
    let mut glitches: Vec<Glitch> = vec![];
    assert_eq!(Glitch::parse(&["GLEP_1", "51000.5"], &mut glitches).unwrap(), true);
    assert_eq!(glitches.len(), 2);
    assert_eq!(glitches[0], Glitch::blank(0));
    assert_eq!(glitches[1].epoch.to_text(), "51000.5");
    assert_eq!(Glitch::parse(&["GLF0D_+0", "2"], &mut glitches).unwrap(), true);
    assert_eq!(glitches.len(), 2);
    assert_eq!(glitches[0].f0d.to_text(), "2");
    for parts in [
        vec!["GLEP_1"],
        vec!["GLEP_1", "5", "1"],
        vec!["GLEP", "5"],
        vec!["GLEP_1_2", "5"],
        vec!["GLXX_1", "5"],
        vec!["F0", "5"],
        vec!["_1", "5"],
    ] {
        assert_eq!(Glitch::parse(&parts, &mut glitches).unwrap(), false, "{:?}", parts);
        assert_eq!(glitches.len(), 2);
    }
    match Glitch::parse(&["GLEP_x", "5"], &mut glitches) {
        Err(PsruError::Unparsable { value, to_type }) => {
            assert_eq!(value, "x");
            assert_eq!(to_type, "glitch index");
        }
        other => panic!("{:?}", other),
    }
    assert!(matches!(Glitch::parse(&["GLEP_", "5"], &mut glitches), Err(PsruError::Unparsable { .. })));
    match Glitch::parse(&["GLEP_7", "five"], &mut glitches) {
        Err(PsruError::Unparsable { value, to_type }) => {
            assert_eq!(value, "five");
            assert_eq!(to_type, "double");
        }
        other => panic!("{:?}", other),
    }
    assert_eq!(glitches.len(), 2);
    assert_eq!(
        glitches[1].write(),
        vec!["GLEP_1  51000.5", "GLPH_1  0", "GLF0_1  0", "GLF1_1  0", "GLF0D_1 0", "GLTD_1  0"]
    );
    assert_eq!(glitches[1].clone(), glitches[1]);
}

#[test]
fn jump_lines() {
    let mut jumps: Vec<Jump> = vec![];
    assert_eq!(Jump::parse(&["F0", "1"], &mut jumps).unwrap(), false);
    assert_eq!(Jump::parse(&[], &mut jumps).unwrap(), false);
    assert_eq!(Jump::parse(&["JUMP", "MJD", "50000", "51000.5", "0.25", "1"], &mut jumps).unwrap(), true);
    assert_eq!(Jump::parse(&["JUMP", "FREQ", "1", "2", "-3", "n"], &mut jumps).unwrap(), true);
    assert_eq!(Jump::parse(&["JUMP", "TEL", "pks", "1", "0"], &mut jumps).unwrap(), true);
    assert_eq!(Jump::parse(&["JUMP", "NAME", "fred", "1", "Y"], &mut jumps).unwrap(), true);
    assert_eq!(Jump::parse(&["JUMP", "-fe", "L-wide", "1e-6", "0"], &mut jumps).unwrap(), true);
    assert_eq!(jumps.len(), 5);
    assert_eq!(
        jumps[0].jtype,
        JumpType::Mjd(parse_decimal("50000").unwrap(), parse_decimal("51000.5").unwrap())
    );
    assert_eq!(jumps[0].value.to_text(), "0.25");
    assert!(jumps[0].fit);
    assert_eq!(
        jumps[1].jtype,
        JumpType::Freq(parse_decimal("1").unwrap(), parse_decimal("2").unwrap())
    );
    assert!(!jumps[1].fit);
    assert_eq!(jumps[2].jtype, JumpType::Tel("pks".to_string()));
    assert_eq!(jumps[3].jtype, JumpType::Name("fred".to_string()));
    assert_eq!(jumps[4].jtype, JumpType::Flag("-fe".to_string(), "L-wide".to_string()));
    assert_eq!(jumps[4].write(), "JUMP -fe L-wide 1e-6 0");
    assert_eq!(jumps[0].write(), "JUMP MJD 50000 51000.5 0.25 1");
    assert_eq!(jumps[3].write(), "JUMP NAME fred 1 1");

    for parts in [
        vec!["JUMP"],
        vec!["JUMP", "MJD"],
        vec!["JUMP", "MJD", "1"],
        vec!["JUMP", "MJD", "1", "2"],
        vec!["JUMP", "MJD", "1", "2", "3"],
        vec!["JUMP", "FREQ", "1", "2", "3"],
        vec!["JUMP", "TEL", "pks"],
        vec!["JUMP", "TEL", "pks", "1"],
        vec!["JUMP", "NAME", "n", "1"],
        vec!["JUMP", "-f", "v"],
    ] {
        match Jump::parse(&parts, &mut jumps) {
            Err(PsruError::IncompleteJump(line)) => assert_eq!(line, parts.join(" ")),
            other => panic!("{:?} gave {:?}", parts, other),
        }
        assert_eq!(jumps.len(), 5);
    }
    assert!(matches!(
        Jump::parse(&["JUMP", "MJD", "a", "2", "3", "1"], &mut jumps),
        Err(PsruError::Unparsable { to_type: "double", .. })
    ));
    assert!(matches!(
        Jump::parse(&["JUMP", "MJD", "1", "b"], &mut jumps),
        Err(PsruError::Unparsable { to_type: "double", .. })
    ));
    assert!(matches!(
        Jump::parse(&["JUMP", "TEL", "pks", "x", "1"], &mut jumps),
        Err(PsruError::Unparsable { to_type: "double", .. })
    ));
    assert!(matches!(
        Jump::parse(&["JUMP", "TEL", "pks", "1", "maybe"], &mut jumps),
        Err(PsruError::Unparsable { to_type: "bool", .. })
    ));
    assert_eq!(jumps.len(), 5);
}

#[test]
fn special_keywords() {
    let mut par = Parfile::new();
    assert_eq!(par.parse_special(&["F0", "1"]).unwrap(), false);
    assert_eq!(par.parse_special(&["RAJ", "1:2:3", "1", "0.5"]).unwrap(), true);
    assert_eq!(par.ra.name(), "RA");
    assert!(matches!(par.ra.value(), FittedParameterValue::FitInfo { fit: true, .. }));
    match par.parse_special(&["RA", "1:2:3"]) {
        Err(PsruError::ParRepeatParam(key)) => assert_eq!(key, "RA"),
        other => panic!("{:?}", other),
    }
    assert_eq!(par.parse_special(&["DECJ", "-1:2:3"]).unwrap(), true);
    match par.parse_special(&["DEC", "1:2:3"]) {
        Err(PsruError::ParRepeatParam(key)) => assert_eq!(key, "DEC"),
        other => panic!("{:?}", other),
    }
    for (key, good, expected) in [
        ("TIMEEPH", "IF99", "Unknown time ephemeris 'x'."),
        ("MODEL", "ELL1", "Unknown binary model 'x'."),
        ("T2CMETHOD", "TEMPO", "Unknown t2CMethod 'x'."),
        ("UNITS", "SI", "Unknown units 'x'."),
        ("MODE", "0", "Unknown error mode 'x'."),
    ] {
        let mut par = Parfile::new();
        assert_eq!(par.parse_special(&[key, "x"]).unwrap_err().message(), expected);
        assert_eq!(par.parse_special(&[key, good]).unwrap(), true);
        match par.parse_special(&[key, good]) {
            Err(PsruError::ParRepeatParam(k)) => assert_eq!(k, key),
            other => panic!("{:?}", other),
        }
    }
    let mut par = Parfile::new();
    par.parse_line("TIMEEPH IF99").unwrap();
    par.parse_line("MODEL DD").unwrap();
    par.parse_line("T2CMETHOD TEMPO").unwrap();
    par.parse_line("UNITS TCB").unwrap();
    par.parse_line("MODE 0").unwrap();
    assert_eq!(par.time_eph, TimeEphemeris::IF99);
    assert_eq!(par.binary_model, BinaryModel::DD);
    assert_eq!(par.t2c_method, T2CMethod::TEMPO);
    assert_eq!(par.units, Units::TCB);
    assert_eq!(par.error_mode, ErrorMode::Mode0);
    assert_eq!(TimeEphemeris::default(), TimeEphemeris::Unstated);
    assert_eq!(BinaryModel::default(), BinaryModel::Unstated);
    assert_eq!(T2CMethod::default(), T2CMethod::Unstated);
    assert_eq!(Units::default(), Units::Unstated);
    assert_eq!(ErrorMode::default(), ErrorMode::Unstated);
}

#[test]
fn coordinates_in_a_file() {
    match read("RA 24:0:0\n") {
        Err(PsruError::InvalidRA(text)) => assert_eq!(text, "24:0:0"),
        other => panic!("{:?}", other),
    }
    match read("DEC 359:59:59.999\n") {
        Err(PsruError::InvalidDec(text)) => assert_eq!(text, "359:59:59.999"),
        other => panic!("{:?}", other),
    }
    assert!(matches!(read("RA 1:2:3 maybe 0.1\n"), Err(PsruError::Unparsable { to_type: "bool", .. })));
    assert!(matches!(read("RA 1:2:3 1 much\n"), Err(PsruError::Unparsable { to_type: "double", .. })));
}

#[test]
fn lines_without_value_and_unknown_keys() {
    let mut par = Parfile::new();
    match par.parse_line("IMP") {
        Err(PsruError::ParMissingValue(key)) => assert_eq!(key, "IMP"),
        other => panic!("{:?}", other),
    }
    match par.parse_line("   \t ") {
        Err(PsruError::ParMissingValue(key)) => assert_eq!(key, ""),
        other => panic!("{:?}", other),
    }
    match par.parse_line("WHATEVER 5") {
        Err(PsruError::ParUnrecognisedKey(key)) => assert_eq!(key, "WHATEVER"),
        other => panic!("{:?}", other),
    }
    assert!(matches!(par.parse_line("F0 fast"), Err(PsruError::Unparsable { to_type: "double", .. })));
    assert!(matches!(par.parse_line("NITS many"), Err(PsruError::Unparsable { to_type: "integer", .. })));
    assert!(matches!(par.parse_line("NOTRACK perhaps"), Err(PsruError::Unparsable { to_type: "bool", .. })));
    assert!(par.parameters.is_empty() && par.counts.is_empty() && par.flags.is_empty());
    // The first line that is reported ends the reading.
    match read("PSR a\nWHATEVER 5\nF0 fast\n") {
        Err(PsruError::ParUnrecognisedKey(key)) => assert_eq!(key, "WHATEVER"),
        other => panic!("{:?}", other),
    }
}

#[test]
fn table_parsers() {
    let p = parse_fitted(&["PBDOT", "1.5e-12", "0", "1e-14"]).unwrap().unwrap();
    assert_eq!(p.name(), "P1");
    assert_eq!(p.description(), "1st time derivative of binary period (days / s)");
    assert!(matches!(p.value(), FittedParameterValue::FitInfo { fit: false, .. }));
    let p = parse_fitted(&["P1", "3", "1"]).unwrap().unwrap();
    assert_eq!(p.description(), "Spin down rate of pulsar (10^-15)");
    assert_eq!(p.value(), &FittedParameterValue::JustValue(parse_decimal("3").unwrap()));
    assert!(parse_fitted(&["NITS", "3"]).unwrap().is_none());
    assert!(parse_fitted(&["f0", "3"]).unwrap().is_none());

    let c = parse_count(&["NTOA", "12"]).unwrap().unwrap();
    assert_eq!((c.name(), *c.value()), ("NTOA", 12));
    assert_eq!(c.description(), "Number of TOAs");
    assert!(parse_count(&["F0", "12"]).unwrap().is_none());

    let f = parse_flag(&["DILATEFREQ", "N"]).unwrap().unwrap();
    assert_eq!((f.name(), *f.value()), ("DILATEFREQ", false));
    assert!(parse_flag(&["F0", "1"]).unwrap().is_none());

    let t = parse_text(&["TSPAN", "x"]).unwrap().unwrap();
    assert_eq!((t.name(), t.value().as_str()), ("NSPAN", "x"));
    let t = parse_text(&["PSRB", "B0000+00"]).unwrap().unwrap();
    assert_eq!((t.name(), t.value().as_str()), ("PSR", "B0000+00"));
    assert!(matches!(parse_text(&["F0", "1"]), Err(PsruError::ParUnrecognisedKey(_))));
}

#[test]
fn missing_values_are_not_written() {
    let mut par = read(MINIMAL).unwrap();
    let table = float_table();
    par.parameters.push(Parameter::new(&lookup(&table, "F2").unwrap(), FittedParameterValue::Missing));
    par.ra = Parameter::unnamed(FittedParameterValue::Missing);
    assert_eq!(
        par.write().unwrap(),
        vec!["PSR J0000-9999", "DEC 45:59:59.999", "PEPOCH 55000", "F0 9001", "DM 1001.1"]
    );
    par.texts.clear();
    assert!(matches!(par.write(), Err(PsruError::ParNoName)));
}

#[test]
fn par_error_messages() {
    assert_eq!(ParParseError::NoName.message(), "Missing PSR parameter.");
    assert_eq!(ParParseError::BadGlitch(12).message(), "Glitch with index 12 is incomplete.");
    assert_eq!(
        ParParseError::Unparsable { value: "x".to_string(), to_type: "double" }.message(),
        "Impossible to parse 'x' into type double."
    );
    assert!(matches!(
        ParParseError::RepeatParam("RA".to_string()).into_error(),
        PsruError::ParRepeatParam(_)
    ));
    assert_eq!(
        ParParseError::DuplicateParameters(vec![
            ("a".to_string(), "b".to_string()),
            ("c".to_string(), "d".to_string())
        ])
        .message(),
        "There are duplicate parameters defined:\n * 'a' and 'b'\n * 'c' and 'd'"
    );
}
