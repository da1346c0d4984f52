//! The errors of a parameter file alone.

use vstd::prelude::*;
use crate::error::{
    duplicates_message, message_text, pair_views, wrapped, ErrorView, PsruError,
};
use crate::text::u64_text;

verus! {

/// What can go wrong with a parameter file: the errors of this crate
/// without those of `.tim` files.
#[derive(Debug)]
pub enum ParParseError {
    Unparsable { value: String, to_type: &'static str },
    IOError(String),
    InvalidRA(String),
    InvalidDec(String),
    MissingValue(String),
    UnknownFlag(String),
    UnrecognisedKey(String),
    UnknownBinaryModel(String),
    UnknownTimeEphemeris(String),
    UnknownT2CMethod(String),
    UnknownUnits(String),
    UnknownErrorMode(String),
    IncompleteJump(String),
    BadGlitch(usize),
    NoName,
    NoFrequency,
    NoPEpoch,
    NoDispersion,
    BadFrequency,
    BadPEpoch,
    DuplicateParameters(Vec<(String, String)>),
    RepeatParam(String),
}

impl View for ParParseError {
    type V = ErrorView;

    open spec fn view(&self) -> ErrorView {
        match *self {
            ParParseError::Unparsable { value, to_type } => ErrorView::Unparsable {
                value: value@,
                to_type: to_type@,
            },
            ParParseError::IOError(s) => ErrorView::IOError(s@),
            ParParseError::InvalidRA(s) => ErrorView::InvalidRA(s@),
            ParParseError::InvalidDec(s) => ErrorView::InvalidDec(s@),
            ParParseError::MissingValue(s) => ErrorView::ParMissingValue(s@),
            ParParseError::UnknownFlag(s) => ErrorView::ParUnknownFlag(s@),
            ParParseError::UnrecognisedKey(s) => ErrorView::ParUnrecognisedKey(s@),
            ParParseError::UnknownBinaryModel(s) => ErrorView::UnknownBinaryModel(s@),
            ParParseError::UnknownTimeEphemeris(s) => ErrorView::UnknownTimeEphemeris(s@),
            ParParseError::UnknownT2CMethod(s) => ErrorView::UnknownT2CMethod(s@),
            ParParseError::UnknownUnits(s) => ErrorView::UnknownUnits(s@),
            ParParseError::UnknownErrorMode(s) => ErrorView::UnknownErrorMode(s@),
            ParParseError::IncompleteJump(s) => ErrorView::IncompleteJump(s@),
            ParParseError::BadGlitch(g) => ErrorView::BadGlitch(g),
            ParParseError::NoName => ErrorView::ParNoName,
            ParParseError::NoFrequency => ErrorView::ParNoFrequency,
            ParParseError::NoPEpoch => ErrorView::ParNoPEpoch,
            ParParseError::NoDispersion => ErrorView::ParNoDispersion,
            ParParseError::BadFrequency => ErrorView::ParBadFrequency,
            ParParseError::BadPEpoch => ErrorView::ParBadPEpoch,
            ParParseError::DuplicateParameters(items) => ErrorView::ParDuplicateParameters(
                pair_views(items@),
            ),
            ParParseError::RepeatParam(s) => ErrorView::ParRepeatParam(s@),
        }
    }
}

impl ParParseError {
    /// The same error among all errors of this crate.
    pub fn into_error(self) -> (r: PsruError)
        ensures
            r@ == self@,
    {
        match self {
            ParParseError::Unparsable { value, to_type } => PsruError::Unparsable {
                value,
                to_type,
            },
            ParParseError::IOError(s) => PsruError::IOError(s),
            ParParseError::InvalidRA(s) => PsruError::InvalidRA(s),
            ParParseError::InvalidDec(s) => PsruError::InvalidDec(s),
            ParParseError::MissingValue(s) => PsruError::ParMissingValue(s),
            ParParseError::UnknownFlag(s) => PsruError::ParUnknownFlag(s),
            ParParseError::UnrecognisedKey(s) => PsruError::ParUnrecognisedKey(s),
            ParParseError::UnknownBinaryModel(s) => PsruError::UnknownBinaryModel(s),
            ParParseError::UnknownTimeEphemeris(s) => PsruError::UnknownTimeEphemeris(s),
            ParParseError::UnknownT2CMethod(s) => PsruError::UnknownT2CMethod(s),
            ParParseError::UnknownUnits(s) => PsruError::UnknownUnits(s),
            ParParseError::UnknownErrorMode(s) => PsruError::UnknownErrorMode(s),
            ParParseError::IncompleteJump(s) => PsruError::IncompleteJump(s),
            ParParseError::BadGlitch(g) => PsruError::BadGlitch(g),
            ParParseError::NoName => PsruError::ParNoName,
            ParParseError::NoFrequency => PsruError::ParNoFrequency,
            ParParseError::NoPEpoch => PsruError::ParNoPEpoch,
            ParParseError::NoDispersion => PsruError::ParNoDispersion,
            ParParseError::BadFrequency => PsruError::ParBadFrequency,
            ParParseError::BadPEpoch => PsruError::ParBadPEpoch,
            ParParseError::DuplicateParameters(items) => PsruError::ParDuplicateParameters(items),
            ParParseError::RepeatParam(s) => PsruError::ParRepeatParam(s),
        }
    }

    /// The message of the error, for a person to read.
    pub fn message(&self) -> (s: String)
        ensures
            s@ == message_text(self@),
    {
        match self {
            ParParseError::Unparsable { value, to_type } => {
                let mut s = wrapped("Impossible to parse '", value.as_str(), "' into type ");
                s.append(to_type);
                s.append(".");
                s
            },
            ParParseError::IOError(e) => {
                let mut s = "IO error >> ".to_owned();
                s.append(e.as_str());
                s
            },
            ParParseError::InvalidRA(v) => wrapped("Invalid RA string '", v.as_str(), "'."),
            ParParseError::InvalidDec(v) => wrapped("Invalid DEC string '", v.as_str(), "'."),
            ParParseError::MissingValue(v) => wrapped("Param '", v.as_str(), "' missing value."),
            ParParseError::UnknownFlag(v) => wrapped("Unknown flag '", v.as_str(), "'."),
            ParParseError::UnrecognisedKey(v) => wrapped("Unrecognised key '", v.as_str(), "'."),
            ParParseError::UnknownBinaryModel(v) => wrapped(
                "Unknown binary model '",
                v.as_str(),
                "'.",
            ),
            ParParseError::UnknownTimeEphemeris(v) => wrapped(
                "Unknown time ephemeris '",
                v.as_str(),
                "'.",
            ),
            ParParseError::UnknownT2CMethod(v) => wrapped("Unknown t2CMethod '", v.as_str(), "'."),
            ParParseError::UnknownUnits(v) => wrapped("Unknown units '", v.as_str(), "'."),
            ParParseError::UnknownErrorMode(v) => wrapped(
                "Unknown error mode '",
                v.as_str(),
                "'.",
            ),
            ParParseError::IncompleteJump(v) => wrapped("Incomplete jump '", v.as_str(), "'."),
            ParParseError::BadGlitch(g) => {
                let number = u64_text(*g as u64);
                wrapped("Glitch with index ", number.as_str(), " is incomplete.")
            },
            ParParseError::NoName => "Missing PSR parameter.".to_owned(),
            ParParseError::NoFrequency => "Missing F0 parameter.".to_owned(),
            ParParseError::NoPEpoch => "Missing PEPOCH parameter.".to_owned(),
            ParParseError::NoDispersion => "Missing DM parameter.".to_owned(),
            ParParseError::BadFrequency => "Bad F0 parameter.".to_owned(),
            ParParseError::BadPEpoch => "Bad PEPOCH parameter.".to_owned(),
            ParParseError::DuplicateParameters(items) => duplicates_message(items),
            ParParseError::RepeatParam(v) => wrapped("Repeated '", v.as_str(), "' parameter."),
        }
    }
}

} // verus!
