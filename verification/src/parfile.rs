//! Parameter files: reading, checking and writing.
//!
//! A parameter file is a list of lines, each a key and its value. A line is
//! split into words and taken as the first of these that fits: a value of a
//! glitch, a jump, one of the special keywords, a switch, a number, a count,
//! a word of text. A key that fits none is reported: nothing is passed over
//! in silence.

use vstd::prelude::*;
use crate::data_types::{
    coord_text, parse_dec_text, parse_ra_text, views, CoordKind, CoordView, DECCoordType, Decimal,
    DecimalView, J2000Coord, RACoordType,
};
use crate::error::{pair_views, ErrorView, PsruError};
use crate::text::{
    first_index, lemma_first_index, nat_text, same_text, split_whitespace, texts, u64_text, words,
};
pub use error::ParParseError;
pub use glitch::Glitch;
pub use jump::{Jump, JumpType};
pub use parameters::{FittedParameterValue, Parameter};
use glitch::{glitch_complete, glitch_line, glitch_lines, GlitchView};
use jump::{jump_line, jump_text, JumpView};
use parameters::{
    count_entry, entry, fitted_entry, fitted_value, flag_entry, parse_count, parse_fit_info,
    parse_fitted, parse_flag, parse_text, text_entry, FittedParameter, FittedView, J2000Fit,
    ParameterView,
};
use tables::{coord_rows, coord_table, find_row, lookup};

pub mod error;
pub mod glitch;
pub mod glitch_laws;
pub mod jump;
pub mod jump_laws;
pub mod parameters;
pub mod round_trip;
pub mod table_laws;
pub mod tables;

verus! {

/// The time ephemeris in use.
#[derive(Debug, Clone, Copy, PartialEq, Eq)]
pub enum TimeEphemeris {
    Unstated,
    IF99,
    FB90,
}

/// The binary model in use.
#[derive(Debug, Clone, Copy, PartialEq, Eq)]
pub enum BinaryModel {
    Unstated,
    BT,
    ELL1,
    DD,
    MSS,
}

/// The method of transforming from the terrestrial to the celestial frame.
#[derive(Debug, Clone, Copy, PartialEq, Eq)]
pub enum T2CMethod {
    Unstated,
    IAU2000B,
    TEMPO,
}

/// The error mode in use.
#[derive(Debug, Clone, Copy, PartialEq, Eq)]
pub enum ErrorMode {
    Unstated,
    Mode0,
    Mode1,
}

/// The units in use.
#[derive(Debug, Clone, Copy, PartialEq, Eq)]
pub enum Units {
    Unstated,
    SI,
    TCB,
    TDB,
}

impl Default for TimeEphemeris {
    fn default() -> (r: Self)
        ensures
            r == TimeEphemeris::Unstated,
    {
        TimeEphemeris::Unstated
    }
}

impl Default for BinaryModel {
    fn default() -> (r: Self)
        ensures
            r == BinaryModel::Unstated,
    {
        BinaryModel::Unstated
    }
}

impl Default for T2CMethod {
    fn default() -> (r: Self)
        ensures
            r == T2CMethod::Unstated,
    {
        T2CMethod::Unstated
    }
}

impl Default for ErrorMode {
    fn default() -> (r: Self)
        ensures
            r == ErrorMode::Unstated,
    {
        ErrorMode::Unstated
    }
}

impl Default for Units {
    fn default() -> (r: Self)
        ensures
            r == Units::Unstated,
    {
        Units::Unstated
    }
}

/// The time ephemeris that a word names.
pub open spec fn time_ephemeris_of(word: Seq<char>) -> Option<TimeEphemeris> {
    if word == "IF99"@ {
        Some(TimeEphemeris::IF99)
    } else if word == "FB90"@ {
        Some(TimeEphemeris::FB90)
    } else {
        None
    }
}

/// The binary model that a word names.
pub open spec fn binary_model_of(word: Seq<char>) -> Option<BinaryModel> {
    if word == "BT"@ {
        Some(BinaryModel::BT)
    } else if word == "DD"@ {
        Some(BinaryModel::DD)
    } else if word == "ELL1"@ {
        Some(BinaryModel::ELL1)
    } else if word == "MSS"@ {
        Some(BinaryModel::MSS)
    } else {
        None
    }
}

/// The method that a word names.
pub open spec fn t2c_method_of(word: Seq<char>) -> Option<T2CMethod> {
    if word == "TEMPO"@ {
        Some(T2CMethod::TEMPO)
    } else if word == "IAU2000B"@ {
        Some(T2CMethod::IAU2000B)
    } else {
        None
    }
}

/// The units that a word names.
pub open spec fn units_of(word: Seq<char>) -> Option<Units> {
    if word == "SI"@ {
        Some(Units::SI)
    } else if word == "TCB"@ {
        Some(Units::TCB)
    } else if word == "TDB"@ {
        Some(Units::TDB)
    } else {
        None
    }
}

/// The error mode that a word names.
pub open spec fn error_mode_of(word: Seq<char>) -> Option<ErrorMode> {
    if word == "0"@ {
        Some(ErrorMode::Mode0)
    } else if word == "1"@ {
        Some(ErrorMode::Mode1)
    } else {
        None
    }
}

/// A parameter file, as loaded.
///
/// It follows the loose standards of TEMPO2. A file that was read, and one
/// that is written, has values for `PSR`, `F0`, `PEPOCH` and `DM`. The
/// closed vocabularies (such as `units`) get no default where a file leaves
/// them out: they are `Unstated`.
///
/// Glitches and jumps are kept in lists. A glitch stands at the place of
/// its index, so the indices of a file must leave no gap.
///
/// All fields are public: this is a data file. What is set by hand is
/// checked when it is written, and a value that fails the check is not
/// written.
#[derive(Debug)]
pub struct Parfile {
    /// J2000 right ascension (hh:mm:ss.sss).
    pub ra: Parameter<J2000Fit<RACoordType>>,
    /// J2000 declination (dd:mm:ss.sss).
    pub dec: Parameter<J2000Fit<DECCoordType>>,
    /// The parameters whose value is a number, each with what the file says
    /// of fitting it.
    pub parameters: Vec<FittedParameter>,
    /// The parameters whose value is a count.
    pub counts: Vec<Parameter<u32>>,
    /// The parameters whose value is a word of text.
    pub texts: Vec<Parameter<String>>,
    /// The switches.
    pub flags: Vec<Parameter<bool>>,
    /// The glitches, if any.
    pub glitches: Vec<Glitch>,
    /// The jumps, if any.
    pub jumps: Vec<Jump>,
    /// Which time ephemeris to use.
    pub time_eph: TimeEphemeris,
    /// The binary model.
    pub binary_model: BinaryModel,
    /// The method of transforming from the terrestrial to the celestial
    /// frame.
    pub t2c_method: T2CMethod,
    /// What units to use.
    pub units: Units,
    /// Which error mode to use.
    pub error_mode: ErrorMode,
}

/// What a [`Parfile`] holds.
pub struct ParfileView {
    pub ra: ParameterView<FittedView<CoordView>>,
    pub dec: ParameterView<FittedView<CoordView>>,
    pub parameters: Seq<ParameterView<FittedView<DecimalView>>>,
    pub counts: Seq<ParameterView<u32>>,
    pub texts: Seq<ParameterView<Seq<char>>>,
    pub flags: Seq<ParameterView<bool>>,
    pub glitches: Seq<GlitchView>,
    pub jumps: Seq<JumpView>,
    pub time_eph: TimeEphemeris,
    pub binary_model: BinaryModel,
    pub t2c_method: T2CMethod,
    pub units: Units,
    pub error_mode: ErrorMode,
}

impl View for Parfile {
    type V = ParfileView;

    open spec fn view(&self) -> ParfileView {
        ParfileView {
            ra: self.ra@,
            dec: self.dec@,
            parameters: views(self.parameters@),
            counts: views(self.counts@),
            texts: views(self.texts@),
            flags: views(self.flags@),
            glitches: views(self.glitches@),
            jumps: views(self.jumps@),
            time_eph: self.time_eph,
            binary_model: self.binary_model,
            t2c_method: self.t2c_method,
            units: self.units,
            error_mode: self.error_mode,
        }
    }
}

impl ParfileView {
    /// The file that holds nothing.
    pub open spec fn empty() -> ParfileView {
        ParfileView {
            ra: ParameterView { name: ""@, description: ""@, value: FittedView::Missing },
            dec: ParameterView { name: ""@, description: ""@, value: FittedView::Missing },
            parameters: Seq::empty(),
            counts: Seq::empty(),
            texts: Seq::empty(),
            flags: Seq::empty(),
            glitches: Seq::empty(),
            jumps: Seq::empty(),
            time_eph: TimeEphemeris::Unstated,
            binary_model: BinaryModel::Unstated,
            t2c_method: T2CMethod::Unstated,
            units: Units::Unstated,
            error_mode: ErrorMode::Unstated,
        }
    }
}

/// What a coordinate line sets: the coordinate under its canonical name,
/// with the fit information that the line gives.
pub open spec fn coord_entry(
    row: tables::ParamRow,
    coord: Result<CoordView, ErrorView>,
    parts: Seq<Seq<char>>,
) -> Result<ParameterView<FittedView<CoordView>>, ErrorView> {
    match coord {
        Err(e) => Err(e),
        Ok(c) => match fitted_value(c, parts) {
            Err(e) => Err(e),
            Ok(v) => Ok(entry(row, v)),
        },
    }
}

/// What the words of a line do to a file where their key is one of the
/// special keywords: a coordinate (`RA`, `RAJ`, `DEC`, `DECJ`) or one of the
/// closed vocabularies (`TIMEEPH`, `MODEL`, `T2CMETHOD`, `UNITS`, `MODE`).
/// Each may be given once; a second line of the same keyword is reported,
/// and so is a word that the vocabulary does not hold. Any other key yields
/// nothing.
pub open spec fn special_line(par: ParfileView, parts: Seq<Seq<char>>) -> Result<
    Option<ParfileView>,
    ErrorView,
> {
    let key = parts[0];
    let value = parts[1];
    match find_row(coord_rows(), key) {
        Some(row) => if row.name@ == "RA"@ {
            if !par.ra.value.is_missing() {
                Err(ErrorView::ParRepeatParam("RA"@))
            } else {
                match coord_entry(row, parse_ra_text(value), parts) {
                    Err(e) => Err(e),
                    Ok(ra) => Ok(Some(ParfileView { ra, ..par })),
                }
            }
        } else {
            if !par.dec.value.is_missing() {
                Err(ErrorView::ParRepeatParam("DEC"@))
            } else {
                match coord_entry(row, parse_dec_text(value), parts) {
                    Err(e) => Err(e),
                    Ok(dec) => Ok(Some(ParfileView { dec, ..par })),
                }
            }
        },
        None => if key == "TIMEEPH"@ {
            if par.time_eph != TimeEphemeris::Unstated {
                Err(ErrorView::ParRepeatParam("TIMEEPH"@))
            } else {
                match time_ephemeris_of(value) {
                    None => Err(ErrorView::UnknownTimeEphemeris(value)),
                    Some(time_eph) => Ok(Some(ParfileView { time_eph, ..par })),
                }
            }
        } else if key == "MODEL"@ {
            if par.binary_model != BinaryModel::Unstated {
                Err(ErrorView::ParRepeatParam("MODEL"@))
            } else {
                match binary_model_of(value) {
                    None => Err(ErrorView::UnknownBinaryModel(value)),
                    Some(binary_model) => Ok(Some(ParfileView { binary_model, ..par })),
                }
            }
        } else if key == "T2CMETHOD"@ {
            if par.t2c_method != T2CMethod::Unstated {
                Err(ErrorView::ParRepeatParam("T2CMETHOD"@))
            } else {
                match t2c_method_of(value) {
                    None => Err(ErrorView::UnknownT2CMethod(value)),
                    Some(t2c_method) => Ok(Some(ParfileView { t2c_method, ..par })),
                }
            }
        } else if key == "UNITS"@ {
            if par.units != Units::Unstated {
                Err(ErrorView::ParRepeatParam("UNITS"@))
            } else {
                match units_of(value) {
                    None => Err(ErrorView::UnknownUnits(value)),
                    Some(units) => Ok(Some(ParfileView { units, ..par })),
                }
            }
        } else if key == "MODE"@ {
            if par.error_mode != ErrorMode::Unstated {
                Err(ErrorView::ParRepeatParam("MODE"@))
            } else {
                match error_mode_of(value) {
                    None => Err(ErrorView::UnknownErrorMode(value)),
                    Some(error_mode) => Ok(Some(ParfileView { error_mode, ..par })),
                }
            }
        } else {
            Ok(None)
        },
    }
}

/// The key of a line that has no value: its one word, or nothing where the
/// line is blank.
pub open spec fn bare_key(parts: Seq<Seq<char>>) -> Seq<char> {
    if parts.len() == 0 {
        Seq::empty()
    } else {
        parts[0]
    }
}

/// What the words of a line, two or more, do to a file. They are taken as
/// the first of these that fits: a value of a glitch, a jump, a special
/// keyword, a switch, a number, a count, a word of text. A key that nothing
/// knows is reported.
#[verifier::opaque]
pub open spec fn parsed_words(par: ParfileView, parts: Seq<Seq<char>>) -> Result<
    ParfileView,
    ErrorView,
> {
    match glitch_line(parts, par.glitches) {
        Err(e) => Err(e),
        Ok(Some(glitches)) => Ok(ParfileView { glitches, ..par }),
        Ok(None) => match jump_line(parts) {
            Err(e) => Err(e),
            Ok(Some(j)) => Ok(ParfileView { jumps: par.jumps.push(j), ..par }),
            Ok(None) => match special_line(par, parts) {
                Err(e) => Err(e),
                Ok(Some(p)) => Ok(p),
                Ok(None) => match flag_entry(parts) {
                    Err(e) => Err(e),
                    Ok(Some(f)) => Ok(ParfileView { flags: par.flags.push(f), ..par }),
                    Ok(None) => match fitted_entry(parts) {
                        Err(e) => Err(e),
                        Ok(Some(p)) => Ok(
                            ParfileView { parameters: par.parameters.push(p), ..par },
                        ),
                        Ok(None) => match count_entry(parts) {
                            Err(e) => Err(e),
                            Ok(Some(c)) => Ok(ParfileView { counts: par.counts.push(c), ..par }),
                            Ok(None) => match text_entry(parts) {
                                Err(e) => Err(e),
                                Ok(Some(t)) => Ok(
                                    ParfileView { texts: par.texts.push(t), ..par },
                                ),
                                Ok(None) => Ok(par),
                            },
                        },
                    },
                },
            },
        },
    }
}

/// What one line does to a file. The line is split into words. A line of
/// fewer than two words has no value, and is reported with its key.
pub open spec fn parsed_line(par: ParfileView, line: Seq<char>) -> Result<ParfileView, ErrorView> {
    let parts = words(line);
    if parts.len() < 2 {
        Err(ErrorView::ParMissingValue(bare_key(parts)))
    } else {
        parsed_words(par, parts)
    }
}

/// What a list of lines, taken from the first to the last, does to a file.
/// An empty line does nothing. The first line that is reported ends the
/// reading.
pub open spec fn parsed_lines(par: ParfileView, lines: Seq<Seq<char>>) -> Result<
    ParfileView,
    ErrorView,
>
    decreases lines.len(),
{
    if lines.len() == 0 {
        Ok(par)
    } else {
        match parsed_lines(par, lines.drop_last()) {
            Err(e) => Err(e),
            Ok(p) => if lines.last().len() == 0 {
                Ok(p)
            } else {
                parsed_line(p, lines.last())
            },
        }
    }
}

/// The names of a list of entries.
pub open spec fn names_of<V>(entries: Seq<ParameterView<V>>) -> Seq<Seq<char>> {
    Seq::new(entries.len(), |i: int| entries[i].name)
}

/// The duplicates among the first `n` names: for each of them that stands
/// again later in the list, in order, its place and the first place at
/// which it stands again. A name that stands three times so gives two
/// pairs.
pub open spec fn duplicates_among(names: Seq<Seq<char>>, n: int) -> Seq<(usize, usize)>
    decreases n,
{
    if n <= 0 || n > names.len() {
        Seq::empty()
    } else {
        let earlier = duplicates_among(names, n - 1);
        match first_index(names, names[n - 1], n) {
            Some(j) => earlier.push(((n - 1) as usize, j as usize)),
            None => earlier,
        }
    }
}

/// The duplicates of a list of names.
pub open spec fn duplicate_pairs(names: Seq<Seq<char>>) -> Seq<(usize, usize)> {
    duplicates_among(names, names.len() as int)
}

/// How a switch is written where a value is fitted: `1` or `0`.
pub open spec fn fit_mark(fit: bool) -> Seq<char> {
    if fit {
        "1"@
    } else {
        "0"@
    }
}

/// The line of a number parameter: its name and value, and where there is
/// fit information, whether to fit and the uncertainty.
pub open spec fn number_line(p: ParameterView<FittedView<DecimalView>>) -> Seq<char> {
    match p.value {
        FittedView::Missing => "MISSING"@,
        FittedView::JustValue(v) => p.name + " "@ + v.text(),
        FittedView::FitInfo { value, fit, error } => p.name + " "@ + value.text() + " "@
            + fit_mark(fit) + " "@ + error.text(),
    }
}

/// The line of a coordinate.
pub open spec fn coord_line(p: ParameterView<FittedView<CoordView>>) -> Seq<char> {
    match p.value {
        FittedView::Missing => "MISSING"@,
        FittedView::JustValue(v) => p.name + " "@ + coord_text(v),
        FittedView::FitInfo { value, fit, error } => p.name + " "@ + coord_text(value) + " "@
            + fit_mark(fit) + " "@ + error.text(),
    }
}

/// The line of a count.
pub open spec fn count_line(p: ParameterView<u32>) -> Seq<char> {
    p.name + " "@ + nat_text(p.value as nat)
}

/// The line of a text parameter.
pub open spec fn text_line(p: ParameterView<Seq<char>>) -> Seq<char> {
    p.name + " "@ + p.value
}

/// The line of a switch: its name, and `Y` or `N`.
pub open spec fn flag_line(p: ParameterView<bool>) -> Seq<char> {
    p.name + " "@ + (if p.value {
        "Y"@
    } else {
        "N"@
    })
}

/// The lines of the number parameters, one for each.
pub open spec fn number_lines(entries: Seq<ParameterView<FittedView<DecimalView>>>) -> Seq<
    Seq<char>,
> {
    Seq::new(entries.len(), |i: int| number_line(entries[i]))
}

/// The lines of the counts, one for each.
pub open spec fn count_lines(entries: Seq<ParameterView<u32>>) -> Seq<Seq<char>> {
    Seq::new(entries.len(), |i: int| count_line(entries[i]))
}

/// The lines of the text parameters, one for each.
pub open spec fn text_lines(entries: Seq<ParameterView<Seq<char>>>) -> Seq<Seq<char>> {
    Seq::new(entries.len(), |i: int| text_line(entries[i]))
}

/// The lines of the switches, one for each.
pub open spec fn flag_lines(entries: Seq<ParameterView<bool>>) -> Seq<Seq<char>> {
    Seq::new(entries.len(), |i: int| flag_line(entries[i]))
}

/// For each pair of places, the pair of what stands there in `lines`.
pub open spec fn rendered_pairs(lines: Seq<Seq<char>>, pairs: Seq<(usize, usize)>) -> Seq<
    (Seq<char>, Seq<char>),
> {
    Seq::new(pairs.len(), |k: int| (lines[pairs[k].0 as int], lines[pairs[k].1 as int]))
}

/// The report of the duplicates among `names`, if there are any; each entry
/// is shown as `lines` has it.
pub open spec fn duplicate_report(lines: Seq<Seq<char>>, names: Seq<Seq<char>>) -> Option<
    ErrorView,
> {
    let pairs = duplicate_pairs(names);
    if pairs.len() == 0 {
        None
    } else {
        Some(ErrorView::ParDuplicateParameters(rendered_pairs(lines, pairs)))
    }
}

/// Whether a value is there and greater than zero.
pub open spec fn value_positive(v: FittedView<DecimalView>) -> bool {
    match v {
        FittedView::Missing => false,
        FittedView::JustValue(x) => x.is_positive(),
        FittedView::FitInfo { value, fit, error } => value.is_positive(),
    }
}

/// What the mandatory parameters of a file lack, if anything: a name
/// (`PSR`), an epoch of the period (`PEPOCH`) greater than zero, a frequency
/// (`F0`) greater than zero, and a dispersion measure (`DM`), looked for in
/// that order. Of several entries of one name the first counts.
pub open spec fn mandatory(par: ParfileView) -> Result<(), ErrorView> {
    let names = names_of(par.parameters);
    if first_index(names_of(par.texts), "PSR"@, 0) is None {
        Err(ErrorView::ParNoName)
    } else {
        match first_index(names, "PEPOCH"@, 0) {
            None => Err(ErrorView::ParNoPEpoch),
            Some(i) => if !value_positive(par.parameters[i].value) {
                Err(ErrorView::ParBadPEpoch)
            } else {
                match first_index(names, "F0"@, 0) {
                    None => Err(ErrorView::ParNoFrequency),
                    Some(j) => if !value_positive(par.parameters[j].value) {
                        Err(ErrorView::ParBadFrequency)
                    } else if first_index(names, "DM"@, 0) is None {
                        Err(ErrorView::ParNoDispersion)
                    } else {
                        Ok(())
                    },
                }
            },
        }
    }
}

/// The first place at or after `from` of a glitch that is not complete.
pub open spec fn first_incomplete(glitches: Seq<GlitchView>, from: int) -> Option<int>
    decreases glitches.len() - from,
{
    if from < 0 || from >= glitches.len() {
        None
    } else if !glitch_complete(glitches[from]) {
        Some(from)
    } else {
        first_incomplete(glitches, from + 1)
    }
}

/// What is wrong with a file as a whole, if anything. In this order: a
/// mandatory parameter that is missing or not positive; a name that stands
/// twice among the numbers, among the counts, among the texts, or among the
/// switches; a glitch that is not complete.
pub open spec fn check_result(par: ParfileView) -> Result<(), ErrorView> {
    match mandatory(par) {
        Err(e) => Err(e),
        Ok(()) => match duplicate_report(number_lines(par.parameters), names_of(par.parameters)) {
            Some(e) => Err(e),
            None => match duplicate_report(count_lines(par.counts), names_of(par.counts)) {
                Some(e) => Err(e),
                None => match duplicate_report(text_lines(par.texts), names_of(par.texts)) {
                    Some(e) => Err(e),
                    None => match duplicate_report(names_of(par.flags), names_of(par.flags)) {
                        Some(e) => Err(e),
                        None => match first_incomplete(par.glitches, 0) {
                            Some(i) => Err(ErrorView::BadGlitch(par.glitches[i].number)),
                            None => Ok(()),
                        },
                    },
                },
            },
        },
    }
}

/// What reading a list of lines gives: the file that the lines make, if no
/// line is reported and the file as a whole passes the check.
pub open spec fn read_result(lines: Seq<Seq<char>>) -> Result<ParfileView, ErrorView> {
    match parsed_lines(ParfileView::empty(), lines) {
        Err(e) => Err(e),
        Ok(par) => match check_result(par) {
            Err(e) => Err(e),
            Ok(()) => Ok(par),
        },
    }
}

/// The first place at or after `from` at which an entry of the name `name`
/// stands.
pub fn position<T: View>(params: &[Parameter<T>], name: &str, from: usize) -> (r: Option<usize>)
    ensures
        match first_index(names_of(views(params@)), name@, from as int) {
            Some(i) => r is Some && r->0 as int == i && from <= i < params@.len(),
            None => r is None,
        },
{
    let ghost names = names_of(views(params@));
    let mut i = from;
    while i < params.len()
        invariant
            from <= i,
            names == names_of(views(params@)),
            first_index(names, name@, from as int) == first_index(names, name@, i as int),
        decreases params.len() - i,
    {
        if same_text(params[i].name(), name) {
            return Some(i);
        }
        i = i + 1;
    }
    None
}

/// Finds the entries whose name stands again later in the list: for each,
/// in order, its place and the first place at which the name stands again.
pub fn find_duplicates<T: View>(params: &[Parameter<T>]) -> (pairs: Vec<(usize, usize)>)
    ensures
        pairs@ == duplicate_pairs(names_of(views(params@))),
        forall|k: int|
            0 <= k < pairs@.len() ==> (#[trigger] pairs@[k]).0 < pairs@[k].1 < params@.len(),
{
    let ghost names = names_of(views(params@));
    let mut pairs: Vec<(usize, usize)> = Vec::new();
    let mut i: usize = 0;
    while i < params.len()
        invariant
            i <= params.len(),
            names == names_of(views(params@)),
            pairs@ == duplicates_among(names, i as int),
            forall|k: int|
                0 <= k < pairs@.len() ==> (#[trigger] pairs@[k]).0 < pairs@[k].1 < params@.len(),
        decreases params.len() - i,
    {
        match position(params, params[i].name(), i + 1) {
            Some(j) => {
                pairs.push((i, j));
            },
            None => {},
        }
        i = i + 1;
    }
    pairs
}

/// The line of a number parameter.
fn number_line_of(p: &FittedParameter) -> (s: String)
    ensures
        s@ == number_line(p@),
{
    match p.value() {
        FittedParameterValue::Missing => "MISSING".to_owned(),
        FittedParameterValue::JustValue(v) => {
            let mut s = p.name().to_owned();
            s.append(" ");
            s.append(v.to_text().as_str());
            s
        },
        FittedParameterValue::FitInfo { value, fit, error } => {
            let mut s = p.name().to_owned();
            s.append(" ");
            s.append(value.to_text().as_str());
            s.append(" ");
            if *fit {
                s.append("1");
            } else {
                s.append("0");
            }
            s.append(" ");
            s.append(error.to_text().as_str());
            s
        },
    }
}

/// The line of a coordinate.
fn coord_line_of<CT: CoordKind>(p: &Parameter<J2000Fit<CT>>) -> (s: String)
    ensures
        s@ == coord_line(p@),
{
    match p.value() {
        FittedParameterValue::Missing => "MISSING".to_owned(),
        FittedParameterValue::JustValue(v) => {
            let mut s = p.name().to_owned();
            s.append(" ");
            s.append(v.to_text().as_str());
            s
        },
        FittedParameterValue::FitInfo { value, fit, error } => {
            let mut s = p.name().to_owned();
            s.append(" ");
            s.append(value.to_text().as_str());
            s.append(" ");
            if *fit {
                s.append("1");
            } else {
                s.append("0");
            }
            s.append(" ");
            s.append(error.to_text().as_str());
            s
        },
    }
}

/// The line of a count.
fn count_line_of(p: &Parameter<u32>) -> (s: String)
    ensures
        s@ == count_line(p@),
{
    let mut s = p.name().to_owned();
    s.append(" ");
    s.append(u64_text(*p.value() as u64).as_str());
    s
}

/// The line of a text parameter.
fn text_line_of(p: &Parameter<String>) -> (s: String)
    ensures
        s@ == text_line(p@),
{
    let mut s = p.name().to_owned();
    s.append(" ");
    s.append(p.value().as_str());
    s
}

/// The line of a switch.
fn flag_line_of(p: &Parameter<bool>) -> (s: String)
    ensures
        s@ == flag_line(p@),
{
    let mut s = p.name().to_owned();
    s.append(" ");
    if *p.value() {
        s.append("Y");
    } else {
        s.append("N");
    }
    s
}

/// The lines of the number parameters, one for each.
fn number_lines_of(params: &Vec<FittedParameter>) -> (lines: Vec<String>)
    ensures
        views(lines@) == number_lines(views(params@)),
{
    let mut lines: Vec<String> = Vec::new();
    let mut i: usize = 0;
    while i < params.len()
        invariant
            i <= params.len(),
            lines@.len() == i,
            forall|k: int| 0 <= k < i ==> (#[trigger] lines@[k])@ == number_line(params@[k]@),
        decreases params.len() - i,
    {
        lines.push(number_line_of(&params[i]));
        i = i + 1;
    }
    assert(views(lines@) =~= number_lines(views(params@)));
    lines
}

/// The lines of the counts, one for each.
fn count_lines_of(params: &Vec<Parameter<u32>>) -> (lines: Vec<String>)
    ensures
        views(lines@) == count_lines(views(params@)),
{
    let mut lines: Vec<String> = Vec::new();
    let mut i: usize = 0;
    while i < params.len()
        invariant
            i <= params.len(),
            lines@.len() == i,
            forall|k: int| 0 <= k < i ==> (#[trigger] lines@[k])@ == count_line(params@[k]@),
        decreases params.len() - i,
    {
        lines.push(count_line_of(&params[i]));
        i = i + 1;
    }
    assert(views(lines@) =~= count_lines(views(params@)));
    lines
}

/// The lines of the text parameters, one for each.
fn text_lines_of(params: &Vec<Parameter<String>>) -> (lines: Vec<String>)
    ensures
        views(lines@) == text_lines(views(params@)),
{
    let mut lines: Vec<String> = Vec::new();
    let mut i: usize = 0;
    while i < params.len()
        invariant
            i <= params.len(),
            lines@.len() == i,
            forall|k: int| 0 <= k < i ==> (#[trigger] lines@[k])@ == text_line(params@[k]@),
        decreases params.len() - i,
    {
        lines.push(text_line_of(&params[i]));
        i = i + 1;
    }
    assert(views(lines@) =~= text_lines(views(params@)));
    lines
}

/// The names of the switches, one for each.
fn flag_names_of(params: &Vec<Parameter<bool>>) -> (lines: Vec<String>)
    ensures
        views(lines@) == names_of(views(params@)),
{
    let mut lines: Vec<String> = Vec::new();
    let mut i: usize = 0;
    while i < params.len()
        invariant
            i <= params.len(),
            lines@.len() == i,
            forall|k: int| 0 <= k < i ==> (#[trigger] lines@[k])@ == params@[k]@.name,
        decreases params.len() - i,
    {
        lines.push(params[i].name().to_owned());
        i = i + 1;
    }
    assert(views(lines@) =~= names_of(views(params@)));
    lines
}

/// For each pair of places, the pair of what stands there in `lines`.
fn pick_pairs(lines: &Vec<String>, pairs: &Vec<(usize, usize)>) -> (items: Vec<(String, String)>)
    requires
        forall|k: int|
            0 <= k < pairs@.len() ==> (#[trigger] pairs@[k]).0 < lines@.len() && pairs@[k].1
                < lines@.len(),
    ensures
        pair_views(items@) == rendered_pairs(views(lines@), pairs@),
{
    let mut items: Vec<(String, String)> = Vec::new();
    let mut k: usize = 0;
    while k < pairs.len()
        invariant
            k <= pairs.len(),
            items@.len() == k,
            forall|m: int|
                0 <= m < pairs@.len() ==> (#[trigger] pairs@[m]).0 < lines@.len() && pairs@[m].1
                    < lines@.len(),
            forall|m: int|
                0 <= m < k ==> (#[trigger] items@[m]).0@ == lines@[pairs@[m].0 as int]@
                    && items@[m].1@ == lines@[pairs@[m].1 as int]@,
        decreases pairs.len() - k,
    {
        let pair = pairs[k];
        items.push((lines[pair.0].clone(), lines[pair.1].clone()));
        k = k + 1;
    }
    assert(pair_views(items@) =~= rendered_pairs(views(lines@), pairs@));
    items
}

/// Whether a value is there and greater than zero.
fn is_value_positive(v: &FittedParameterValue<Decimal>) -> (r: bool)
    ensures
        r == value_positive(v@),
{
    match v {
        FittedParameterValue::Missing => false,
        FittedParameterValue::JustValue(x) => x.is_positive(),
        FittedParameterValue::FitInfo { value, fit, error } => value.is_positive(),
    }
}

/// How a time ephemeris is written.
pub open spec fn time_ephemeris_text(e: TimeEphemeris) -> Seq<char> {
    match e {
        TimeEphemeris::Unstated => "Unstated"@,
        TimeEphemeris::IF99 => "IF99"@,
        TimeEphemeris::FB90 => "FB90"@,
    }
}

/// How a binary model is written.
pub open spec fn binary_model_text(m: BinaryModel) -> Seq<char> {
    match m {
        BinaryModel::Unstated => "Unstated"@,
        BinaryModel::BT => "BT"@,
        BinaryModel::ELL1 => "ELL1"@,
        BinaryModel::DD => "DD"@,
        BinaryModel::MSS => "MSS"@,
    }
}

/// How a method is written.
pub open spec fn t2c_method_text(m: T2CMethod) -> Seq<char> {
    match m {
        T2CMethod::Unstated => "Unstated"@,
        T2CMethod::IAU2000B => "IAU2000B"@,
        T2CMethod::TEMPO => "TEMPO"@,
    }
}

/// How units are written.
pub open spec fn units_text(u: Units) -> Seq<char> {
    match u {
        Units::Unstated => "Unstated"@,
        Units::SI => "SI"@,
        Units::TCB => "TCB"@,
        Units::TDB => "TDB"@,
    }
}

/// How an error mode is written.
pub open spec fn error_mode_text(m: ErrorMode) -> Seq<char> {
    match m {
        ErrorMode::Unstated => "Unstated"@,
        ErrorMode::Mode0 => "0"@,
        ErrorMode::Mode1 => "1"@,
    }
}

/// The line of a keyword, unless nothing is stated for it.
pub open spec fn keyword_lines(stated: bool, key: Seq<char>, word: Seq<char>) -> Seq<Seq<char>> {
    if stated {
        seq![key + word]
    } else {
        Seq::empty()
    }
}

/// The lines of the closed vocabularies, for those that are stated.
pub open spec fn vocabulary_lines(par: ParfileView) -> Seq<Seq<char>> {
    keyword_lines(
        par.time_eph != TimeEphemeris::Unstated,
        "TIMEEPH "@,
        time_ephemeris_text(par.time_eph),
    ) + keyword_lines(
        par.binary_model != BinaryModel::Unstated,
        "MODEL "@,
        binary_model_text(par.binary_model),
    ) + keyword_lines(par.units != Units::Unstated, "UNITS "@, units_text(par.units))
        + keyword_lines(
        par.t2c_method != T2CMethod::Unstated,
        "T2CMETHOD "@,
        t2c_method_text(par.t2c_method),
    ) + keyword_lines(
        par.error_mode != ErrorMode::Unstated,
        "MODE "@,
        error_mode_text(par.error_mode),
    )
}

/// The line of a coordinate, unless it is missing.
pub open spec fn present_coord_lines(p: ParameterView<FittedView<CoordView>>) -> Seq<Seq<char>> {
    if p.value.is_missing() {
        Seq::empty()
    } else {
        seq![coord_line(p)]
    }
}

/// The lines of the number parameters, but for those whose value is
/// missing.
pub open spec fn present_number_lines(
    entries: Seq<ParameterView<FittedView<DecimalView>>>,
) -> Seq<Seq<char>>
    decreases entries.len(),
{
    if entries.len() == 0 {
        Seq::empty()
    } else {
        present_number_lines(entries.drop_last()) + (if entries.last().value.is_missing() {
            Seq::empty()
        } else {
            seq![number_line(entries.last())]
        })
    }
}

/// The lines of all glitches, six for each.
pub open spec fn all_glitch_lines(glitches: Seq<GlitchView>) -> Seq<Seq<char>>
    decreases glitches.len(),
{
    if glitches.len() == 0 {
        Seq::empty()
    } else {
        all_glitch_lines(glitches.drop_last()) + glitch_lines(glitches.last())
    }
}

/// The lines of the jumps, one for each.
pub open spec fn jump_lines(jumps: Seq<JumpView>) -> Seq<Seq<char>> {
    Seq::new(jumps.len(), |i: int| jump_text(jumps[i]))
}

/// The lines of a file whose name stands at place `name_at` of its texts.
/// The name leads; then come the coordinates, the numbers, the counts, the
/// other texts, the switches, the closed vocabularies, the glitches and the
/// jumps. Within each kind the order is that of the lists.
pub open spec fn written(par: ParfileView, name_at: int) -> Seq<Seq<char>> {
    seq!["PSR "@ + par.texts[name_at].value] + present_coord_lines(par.ra) + present_coord_lines(
        par.dec,
    ) + present_number_lines(par.parameters) + count_lines(par.counts) + text_lines(
        par.texts.subrange(0, name_at),
    ) + text_lines(par.texts.subrange(name_at + 1, par.texts.len() as int)) + flag_lines(
        par.flags,
    ) + vocabulary_lines(par) + all_glitch_lines(par.glitches) + jump_lines(par.jumps)
}

/// What writing a file gives: its lines, if it passes the check.
pub open spec fn write_result(par: ParfileView) -> Result<Seq<Seq<char>>, ErrorView> {
    match check_result(par) {
        Err(e) => Err(e),
        Ok(()) => match first_index(names_of(par.texts), "PSR"@, 0) {
            Some(name_at) => Ok(written(par, name_at)),
            None => Err(ErrorView::ParNoName),
        },
    }
}

/// The lines of the number parameters, but for those whose value is
/// missing.
fn present_number_lines_of(params: &Vec<FittedParameter>) -> (lines: Vec<String>)
    ensures
        views(lines@) == present_number_lines(views(params@)),
{
    let mut lines: Vec<String> = Vec::new();
    let mut i: usize = 0;
    let ghost all = views(params@);
    assert(all.take(0) =~= Seq::empty());
    assert(views(lines@) =~= Seq::empty());
    while i < params.len()
        invariant
            i <= params.len(),
            all == views(params@),
            views(lines@) == present_number_lines(all.take(i as int)),
        decreases params.len() - i,
    {
        proof {
            let next = all.take(i + 1);
            assert(next.drop_last() =~= all.take(i as int));
            assert(next.last() == params@[i as int]@);
        }
        let ghost before = lines@;
        match params[i].value() {
            FittedParameterValue::Missing => {
                assert(views(lines@) + Seq::<Seq<char>>::empty() =~= views(lines@));
            },
            _ => {
                lines.push(number_line_of(&params[i]));
                assert(views(lines@) =~= views(before) + seq![number_line(params@[i as int]@)]);
            },
        }
        i = i + 1;
    }
    assert(all.take(i as int) =~= all);
    lines
}

/// The lines of the text parameters from place `from` up to place `to`.
fn text_lines_between(params: &Vec<Parameter<String>>, from: usize, to: usize) -> (lines: Vec<
    String,
>)
    requires
        from <= to <= params@.len(),
    ensures
        views(lines@) == text_lines(views(params@).subrange(from as int, to as int)),
{
    let mut lines: Vec<String> = Vec::new();
    let mut i: usize = from;
    while i < to
        invariant
            from <= i <= to <= params@.len(),
            lines@.len() == i - from,
            forall|k: int|
                0 <= k < i - from ==> (#[trigger] lines@[k])@ == text_line(params@[from + k]@),
        decreases to - i,
    {
        lines.push(text_line_of(&params[i]));
        i = i + 1;
    }
    assert(views(lines@) =~= text_lines(views(params@).subrange(from as int, to as int)));
    lines
}

/// The lines of the switches, one for each.
fn flag_lines_of(params: &Vec<Parameter<bool>>) -> (lines: Vec<String>)
    ensures
        views(lines@) == flag_lines(views(params@)),
{
    let mut lines: Vec<String> = Vec::new();
    let mut i: usize = 0;
    while i < params.len()
        invariant
            i <= params.len(),
            lines@.len() == i,
            forall|k: int| 0 <= k < i ==> (#[trigger] lines@[k])@ == flag_line(params@[k]@),
        decreases params.len() - i,
    {
        lines.push(flag_line_of(&params[i]));
        i = i + 1;
    }
    assert(views(lines@) =~= flag_lines(views(params@)));
    lines
}

/// The lines of the jumps, one for each.
fn jump_lines_of(jumps: &Vec<Jump>) -> (lines: Vec<String>)
    ensures
        views(lines@) == jump_lines(views(jumps@)),
{
    let mut lines: Vec<String> = Vec::new();
    let mut i: usize = 0;
    while i < jumps.len()
        invariant
            i <= jumps.len(),
            lines@.len() == i,
            forall|k: int| 0 <= k < i ==> (#[trigger] lines@[k])@ == jump_text(jumps@[k]@),
        decreases jumps.len() - i,
    {
        lines.push(jumps[i].write());
        i = i + 1;
    }
    assert(views(lines@) =~= jump_lines(views(jumps@)));
    lines
}

/// The lines of all glitches, six for each.
fn glitch_lines_of(glitches: &Vec<Glitch>) -> (lines: Vec<String>)
    ensures
        views(lines@) == all_glitch_lines(views(glitches@)),
{
    let mut lines: Vec<String> = Vec::new();
    let mut i: usize = 0;
    let ghost all = views(glitches@);
    assert(all.take(0) =~= Seq::empty());
    assert(views(lines@) =~= Seq::empty());
    while i < glitches.len()
        invariant
            i <= glitches.len(),
            all == views(glitches@),
            views(lines@) == all_glitch_lines(all.take(i as int)),
        decreases glitches.len() - i,
    {
        proof {
            let next = all.take(i + 1);
            assert(next.drop_last() =~= all.take(i as int));
            assert(next.last() == glitches@[i as int]@);
        }
        let ghost before = lines@;
        let mut six = glitches[i].write();
        let ghost added = six@;
        lines.append(&mut six);
        assert(views(lines@) =~= views(before) + views(added));
        i = i + 1;
    }
    assert(all.take(i as int) =~= all);
    lines
}

/// The line of a coordinate, unless it is missing.
fn present_coord_lines_of<CT: CoordKind>(p: &Parameter<J2000Fit<CT>>) -> (lines: Vec<String>)
    ensures
        views(lines@) == present_coord_lines(p@),
{
    let mut lines: Vec<String> = Vec::new();
    match p.value() {
        FittedParameterValue::Missing => {
            assert(views(lines@) =~= Seq::empty());
        },
        _ => {
            lines.push(coord_line_of(p));
            assert(views(lines@) =~= seq![coord_line(p@)]);
        },
    }
    lines
}

/// The line of a keyword and a word.
fn keyword_line(key: &str, word: &str) -> (lines: Vec<String>)
    ensures
        views(lines@) == keyword_lines(true, key@, word@),
{
    let mut s = key.to_owned();
    s.append(word);
    let mut lines: Vec<String> = Vec::new();
    lines.push(s);
    assert(views(lines@) =~= keyword_lines(true, key@, word@));
    lines
}

/// No line.
fn no_line() -> (lines: Vec<String>)
    ensures
        views(lines@) == Seq::<Seq<char>>::empty(),
{
    let lines: Vec<String> = Vec::new();
    assert(views(lines@) =~= Seq::<Seq<char>>::empty());
    lines
}

/// Adds the lines of `more` to `lines`.
fn add_lines(lines: &mut Vec<String>, more: Vec<String>)
    ensures
        views(final(lines)@) == views(old(lines)@) + views(more@),
{
    let mut more = more;
    let ghost before = lines@;
    let ghost added = more@;
    lines.append(&mut more);
    assert(views(lines@) =~= views(before) + views(added));
}

/// Once a line is reported, the lines after it change nothing.
pub proof fn lemma_parsed_lines_fail(par: ParfileView, lines: Seq<Seq<char>>, n: int)
    requires
        0 <= n <= lines.len(),
        parsed_lines(par, lines.take(n)) is Err,
    ensures
        parsed_lines(par, lines) == parsed_lines(par, lines.take(n)),
    decreases lines.len() - n,
{
    if n == lines.len() {
        assert(lines.take(n) =~= lines);
    } else {
        assert(lines.take(n + 1).drop_last() =~= lines.take(n));
        lemma_parsed_lines_fail(par, lines, n + 1);
    }
}

impl Parfile {
    /// The file that holds nothing.
    pub fn new() -> (r: Self)
        ensures
            r@ == ParfileView::empty(),
    {
        let r = Parfile {
            ra: Parameter::unnamed(FittedParameterValue::Missing),
            dec: Parameter::unnamed(FittedParameterValue::Missing),
            parameters: Vec::new(),
            counts: Vec::new(),
            texts: Vec::new(),
            flags: Vec::new(),
            glitches: Vec::new(),
            jumps: Vec::new(),
            time_eph: TimeEphemeris::Unstated,
            binary_model: BinaryModel::Unstated,
            t2c_method: T2CMethod::Unstated,
            units: Units::Unstated,
            error_mode: ErrorMode::Unstated,
        };
        assert(r@.parameters =~= Seq::empty());
        assert(r@.counts =~= Seq::empty());
        assert(r@.texts =~= Seq::empty());
        assert(r@.flags =~= Seq::empty());
        assert(r@.glitches =~= Seq::empty());
        assert(r@.jumps =~= Seq::empty());
        r
    }

    /// Takes the words of a line as a special keyword, where its key is
    /// one, and says whether it was.
    pub fn parse_special(&mut self, parts: &[&str]) -> (r: Result<bool, PsruError>)
        requires
            parts@.len() >= 2,
        ensures
            match special_line(old(self)@, texts(parts@)) {
                Ok(Some(p)) => r matches Ok(true) && final(self)@ == p,
                Ok(None) => r matches Ok(false) && final(self)@ == old(self)@,
                Err(e) => r is Err && r->Err_0@ == e && final(self)@ == old(self)@,
            },
    {
        let key = parts[0];
        let value = parts[1];
        let coords = coord_table();
        match lookup(&coords, key) {
            Some(row) => {
                if same_text(row.name, "RA") {
                    match self.ra.value() {
                        FittedParameterValue::Missing => {},
                        _ => {
                            return Err(PsruError::ParRepeatParam("RA".to_owned()));
                        },
                    }
                    let coord = match J2000Coord::<RACoordType>::from_str(value) {
                        Ok(coord) => coord,
                        Err(e) => {
                            return Err(e);
                        },
                    };
                    match parse_fit_info(coord, parts) {
                        Ok(v) => {
                            self.ra = Parameter::new(&row, v);
                        },
                        Err(e) => {
                            return Err(e);
                        },
                    }
                } else {
                    match self.dec.value() {
                        FittedParameterValue::Missing => {},
                        _ => {
                            return Err(PsruError::ParRepeatParam("DEC".to_owned()));
                        },
                    }
                    let coord = match J2000Coord::<DECCoordType>::from_str(value) {
                        Ok(coord) => coord,
                        Err(e) => {
                            return Err(e);
                        },
                    };
                    match parse_fit_info(coord, parts) {
                        Ok(v) => {
                            self.dec = Parameter::new(&row, v);
                        },
                        Err(e) => {
                            return Err(e);
                        },
                    }
                }
                Ok(true)
            },
            None => {
                if same_text(key, "TIMEEPH") {
                    match self.time_eph {
                        TimeEphemeris::Unstated => {},
                        _ => {
                            return Err(PsruError::ParRepeatParam("TIMEEPH".to_owned()));
                        },
                    }
                    self.time_eph = if same_text(value, "IF99") {
                        TimeEphemeris::IF99
                    } else if same_text(value, "FB90") {
                        TimeEphemeris::FB90
                    } else {
                        return Err(PsruError::UnknownTimeEphemeris(value.to_owned()));
                    };
                    Ok(true)
                } else if same_text(key, "MODEL") {
                    match self.binary_model {
                        BinaryModel::Unstated => {},
                        _ => {
                            return Err(PsruError::ParRepeatParam("MODEL".to_owned()));
                        },
                    }
                    self.binary_model = if same_text(value, "BT") {
                        BinaryModel::BT
                    } else if same_text(value, "DD") {
                        BinaryModel::DD
                    } else if same_text(value, "ELL1") {
                        BinaryModel::ELL1
                    } else if same_text(value, "MSS") {
                        BinaryModel::MSS
                    } else {
                        return Err(PsruError::UnknownBinaryModel(value.to_owned()));
                    };
                    Ok(true)
                } else if same_text(key, "T2CMETHOD") {
                    match self.t2c_method {
                        T2CMethod::Unstated => {},
                        _ => {
                            return Err(PsruError::ParRepeatParam("T2CMETHOD".to_owned()));
                        },
                    }
                    self.t2c_method = if same_text(value, "TEMPO") {
                        T2CMethod::TEMPO
                    } else if same_text(value, "IAU2000B") {
                        T2CMethod::IAU2000B
                    } else {
                        return Err(PsruError::UnknownT2CMethod(value.to_owned()));
                    };
                    Ok(true)
                } else if same_text(key, "UNITS") {
                    match self.units {
                        Units::Unstated => {},
                        _ => {
                            return Err(PsruError::ParRepeatParam("UNITS".to_owned()));
                        },
                    }
                    self.units = if same_text(value, "SI") {
                        Units::SI
                    } else if same_text(value, "TCB") {
                        Units::TCB
                    } else if same_text(value, "TDB") {
                        Units::TDB
                    } else {
                        return Err(PsruError::UnknownUnits(value.to_owned()));
                    };
                    Ok(true)
                } else if same_text(key, "MODE") {
                    match self.error_mode {
                        ErrorMode::Unstated => {},
                        _ => {
                            return Err(PsruError::ParRepeatParam("MODE".to_owned()));
                        },
                    }
                    self.error_mode = if same_text(value, "0") {
                        ErrorMode::Mode0
                    } else if same_text(value, "1") {
                        ErrorMode::Mode1
                    } else {
                        return Err(PsruError::UnknownErrorMode(value.to_owned()));
                    };
                    Ok(true)
                } else {
                    Ok(false)
                }
            },
        }
    }

    /// Takes one line into the file. A line that is reported leaves the
    /// file as it was.
    pub fn parse_line(&mut self, line: &str) -> (r: Result<(), PsruError>)
        ensures
            match parsed_line(old(self)@, line@) {
                Ok(p) => r is Ok && final(self)@ == p,
                Err(e) => r is Err && r->Err_0@ == e && final(self)@ == old(self)@,
            },
    {
        proof {
            reveal(parsed_words);
        }
        let words = split_whitespace(line);
        let parts = words.as_slice();
        if parts.len() < 2 {
            if parts.len() == 0 {
                return Err(PsruError::ParMissingValue(String::new()));
            }
            return Err(PsruError::ParMissingValue(parts[0].to_owned()));
        }
        match Glitch::parse(parts, &mut self.glitches) {
            Err(e) => {
                return Err(e);
            },
            Ok(true) => {
                return Ok(());
            },
            Ok(false) => {},
        }
        match Jump::parse(parts, &mut self.jumps) {
            Err(e) => {
                return Err(e);
            },
            Ok(true) => {
                return Ok(());
            },
            Ok(false) => {},
        }
        match self.parse_special(parts) {
            Err(e) => {
                return Err(e);
            },
            Ok(true) => {
                return Ok(());
            },
            Ok(false) => {},
        }
        match parse_flag(parts) {
            Err(e) => {
                return Err(e);
            },
            Ok(Some(flag)) => {
                let ghost before = self.flags@;
                self.flags.push(flag);
                assert(views(self.flags@) =~= views(before).push(flag@));
                return Ok(());
            },
            Ok(None) => {},
        }
        match parse_fitted(parts) {
            Err(e) => {
                return Err(e);
            },
            Ok(Some(param)) => {
                let ghost before = self.parameters@;
                self.parameters.push(param);
                assert(views(self.parameters@) =~= views(before).push(param@));
                return Ok(());
            },
            Ok(None) => {},
        }
        match parse_count(parts) {
            Err(e) => {
                return Err(e);
            },
            Ok(Some(param)) => {
                let ghost before = self.counts@;
                self.counts.push(param);
                assert(views(self.counts@) =~= views(before).push(param@));
                return Ok(());
            },
            Ok(None) => {},
        }
        match parse_text(parts) {
            Err(e) => {
                return Err(e);
            },
            Ok(Some(param)) => {
                let ghost before = self.texts@;
                self.texts.push(param);
                assert(views(self.texts@) =~= views(before).push(param@));
                return Ok(());
            },
            Ok(None) => {},
        }
        Ok(())
    }
    /// Checks that the mandatory parameters are there.
    fn check_mandatory(&self) -> (r: Result<(), PsruError>)
        ensures
            match mandatory(self@) {
                Ok(()) => r is Ok,
                Err(e) => r is Err && r->Err_0@ == e,
            },
    {
        let ghost names = names_of(self@.parameters);
        let name = position(self.texts.as_slice(), "PSR", 0);
        assert(name is None <==> first_index(names_of(self@.texts), "PSR"@, 0) is None);
        if name.is_none() {
            return Err(PsruError::ParNoName);
        }
        let epoch = position(self.parameters.as_slice(), "PEPOCH", 0);
        assert(epoch is None <==> first_index(names, "PEPOCH"@, 0) is None);
        match epoch {
            None => {
                return Err(PsruError::ParNoPEpoch);
            },
            Some(i) => {
                assert(first_index(names, "PEPOCH"@, 0) == Some(i as int));
                assert(self@.parameters[i as int] == self.parameters@[i as int]@);
                if !is_value_positive(self.parameters[i].value()) {
                    return Err(PsruError::ParBadPEpoch);
                }
            },
        }
        let frequency = position(self.parameters.as_slice(), "F0", 0);
        assert(frequency is None <==> first_index(names, "F0"@, 0) is None);
        match frequency {
            None => {
                return Err(PsruError::ParNoFrequency);
            },
            Some(j) => {
                assert(first_index(names, "F0"@, 0) == Some(j as int));
                assert(self@.parameters[j as int] == self.parameters@[j as int]@);
                if !is_value_positive(self.parameters[j].value()) {
                    return Err(PsruError::ParBadFrequency);
                }
            },
        }
        let dispersion = position(self.parameters.as_slice(), "DM", 0);
        assert(dispersion is None <==> first_index(names, "DM"@, 0) is None);
        if dispersion.is_none() {
            return Err(PsruError::ParNoDispersion);
        }
        Ok(())
    }

    /// Looks for a name that stands twice in one of the four lists.
    fn check_duplicates(&self) -> (r: Option<PsruError>)
        ensures
            match duplicate_report(number_lines(self@.parameters), names_of(self@.parameters)) {
                Some(e) => r is Some && r->0@ == e,
                None => match duplicate_report(count_lines(self@.counts), names_of(self@.counts)) {
                    Some(e) => r is Some && r->0@ == e,
                    None => match duplicate_report(
                        text_lines(self@.texts),
                        names_of(self@.texts),
                    ) {
                        Some(e) => r is Some && r->0@ == e,
                        None => match duplicate_report(
                            names_of(self@.flags),
                            names_of(self@.flags),
                        ) {
                            Some(e) => r is Some && r->0@ == e,
                            None => r is None,
                        },
                    },
                },
            },
    {
        let pairs = find_duplicates(self.parameters.as_slice());
        assert(pairs@ == duplicate_pairs(names_of(self@.parameters)));
        if pairs.len() > 0 {
            let lines = number_lines_of(&self.parameters);
            assert(views(lines@).len() == self.parameters@.len());
            return Some(PsruError::ParDuplicateParameters(pick_pairs(&lines, &pairs)));
        }
        let pairs = find_duplicates(self.counts.as_slice());
        assert(pairs@ == duplicate_pairs(names_of(self@.counts)));
        if pairs.len() > 0 {
            let lines = count_lines_of(&self.counts);
            assert(views(lines@).len() == self.counts@.len());
            return Some(PsruError::ParDuplicateParameters(pick_pairs(&lines, &pairs)));
        }
        let pairs = find_duplicates(self.texts.as_slice());
        assert(pairs@ == duplicate_pairs(names_of(self@.texts)));
        if pairs.len() > 0 {
            let lines = text_lines_of(&self.texts);
            assert(views(lines@).len() == self.texts@.len());
            return Some(PsruError::ParDuplicateParameters(pick_pairs(&lines, &pairs)));
        }
        let pairs = find_duplicates(self.flags.as_slice());
        assert(pairs@ == duplicate_pairs(names_of(self@.flags)));
        if pairs.len() > 0 {
            let lines = flag_names_of(&self.flags);
            assert(views(lines@).len() == self.flags@.len());
            return Some(PsruError::ParDuplicateParameters(pick_pairs(&lines, &pairs)));
        }
        None
    }

    /// Looks for a glitch that is not complete.
    fn check_glitches(&self) -> (r: Result<(), PsruError>)
        ensures
            match first_incomplete(self@.glitches, 0) {
                Some(i) => r is Err && r->Err_0@ == ErrorView::BadGlitch(
                    self@.glitches[i].number,
                ),
                None => r is Ok,
            },
    {
        let mut i: usize = 0;
        while i < self.glitches.len()
            invariant
                i <= self.glitches.len(),
                first_incomplete(self@.glitches, 0) == first_incomplete(self@.glitches, i as int),
            decreases self.glitches.len() - i,
        {
            assert(self@.glitches[i as int] == self.glitches@[i as int]@);
            match self.glitches[i].check() {
                Err(e) => {
                    return Err(e);
                },
                Ok(()) => {},
            }
            i = i + 1;
        }
        Ok(())
    }

    /// Checks the file as a whole. This is done once all lines are read,
    /// and again before the file is written.
    pub fn check(&self) -> (r: Result<(), PsruError>)
        ensures
            match check_result(self@) {
                Ok(()) => r is Ok,
                Err(e) => r is Err && r->Err_0@ == e,
            },
    {
        match self.check_mandatory() {
            Err(e) => {
                return Err(e);
            },
            Ok(()) => {},
        }
        match self.check_duplicates() {
            Some(e) => {
                return Err(e);
            },
            None => {},
        }
        self.check_glitches()
    }

    /// Reads the lines of a parameter file. A malformed entry, an entry
    /// given twice, a mandatory parameter that is missing and a value out
    /// of bounds are reported, and then no file is returned.
    ///
    /// Most parameters are numbers, some are words, a few are counts, and
    /// the closed vocabularies have enumerations of their own.
    pub fn read(lines: &Vec<String>) -> (r: Result<Self, PsruError>)
        ensures
            match read_result(views(lines@)) {
                Ok(par) => r is Ok && r->Ok_0@ == par,
                Err(e) => r is Err && r->Err_0@ == e,
            },
    {
        let mut par = Parfile::new();
        let mut i: usize = 0;
        let ghost all = views(lines@);
        assert(all.take(0) =~= Seq::<Seq<char>>::empty());
        while i < lines.len()
            invariant
                i <= lines.len(),
                all == views(lines@),
                parsed_lines(ParfileView::empty(), all.take(i as int)) == Ok::<
                    ParfileView,
                    ErrorView,
                >(par@),
            decreases lines.len() - i,
        {
            proof {
                let next = all.take(i + 1);
                assert(next.drop_last() =~= all.take(i as int));
                assert(next.last() == lines@[i as int]@);
            }
            let line = lines[i].as_str();
            if line.unicode_len() != 0 {
                match par.parse_line(line) {
                    Ok(()) => {},
                    Err(e) => {
                        proof {
                            lemma_parsed_lines_fail(
                                ParfileView::empty(),
                                all,
                                i + 1,
                            );
                        }
                        return Err(e);
                    },
                }
            }
            i = i + 1;
        }
        assert(all.take(i as int) =~= all);
        match par.check() {
            Ok(()) => Ok(par),
            Err(e) => Err(e),
        }
    }
    /// The lines of the closed vocabularies, for those that are stated.
    fn vocabulary_lines_of(&self) -> (lines: Vec<String>)
        ensures
            views(lines@) == vocabulary_lines(self@),
    {
        let mut lines = match self.time_eph {
            TimeEphemeris::Unstated => no_line(),
            TimeEphemeris::IF99 => keyword_line("TIMEEPH ", "IF99"),
            TimeEphemeris::FB90 => keyword_line("TIMEEPH ", "FB90"),
        };
        add_lines(
            &mut lines,
            match self.binary_model {
                BinaryModel::Unstated => no_line(),
                BinaryModel::BT => keyword_line("MODEL ", "BT"),
                BinaryModel::ELL1 => keyword_line("MODEL ", "ELL1"),
                BinaryModel::DD => keyword_line("MODEL ", "DD"),
                BinaryModel::MSS => keyword_line("MODEL ", "MSS"),
            },
        );
        add_lines(
            &mut lines,
            match self.units {
                Units::Unstated => no_line(),
                Units::SI => keyword_line("UNITS ", "SI"),
                Units::TCB => keyword_line("UNITS ", "TCB"),
                Units::TDB => keyword_line("UNITS ", "TDB"),
            },
        );
        add_lines(
            &mut lines,
            match self.t2c_method {
                T2CMethod::Unstated => no_line(),
                T2CMethod::IAU2000B => keyword_line("T2CMETHOD ", "IAU2000B"),
                T2CMethod::TEMPO => keyword_line("T2CMETHOD ", "TEMPO"),
            },
        );
        add_lines(
            &mut lines,
            match self.error_mode {
                ErrorMode::Unstated => no_line(),
                ErrorMode::Mode0 => keyword_line("MODE ", "0"),
                ErrorMode::Mode1 => keyword_line("MODE ", "1"),
            },
        );
        lines
    }

    /// Writes the file as lines. The order of the parameters and the white
    /// space may differ from those of a file that it was read from; what the
    /// lines say is the same. A file that fails the check is not written.
    pub fn write(&self) -> (r: Result<Vec<String>, PsruError>)
        ensures
            match write_result(self@) {
                Ok(lines) => r is Ok && views(r->Ok_0@) == lines,
                Err(e) => r is Err && r->Err_0@ == e,
            },
    {
        match self.check() {
            Err(e) => {
                return Err(e);
            },
            Ok(()) => {},
        }
        // The name leads, though it is a text parameter like the others.
        let name_at = match position(self.texts.as_slice(), "PSR", 0) {
            Some(name_at) => name_at,
            None => {
                return Err(PsruError::ParNoName);
            },
        };
        let count = self.texts.len();
        assert(name_at < count);
        assert(first_index(names_of(self@.texts), "PSR"@, 0) == Some(name_at as int));
        assert(self@.texts[name_at as int] == self.texts@[name_at as int]@);
        let mut lines = keyword_line("PSR ", self.texts[name_at].value().as_str());
        add_lines(&mut lines, present_coord_lines_of(&self.ra));
        add_lines(&mut lines, present_coord_lines_of(&self.dec));
        add_lines(&mut lines, present_number_lines_of(&self.parameters));
        add_lines(&mut lines, count_lines_of(&self.counts));
        add_lines(&mut lines, text_lines_between(&self.texts, 0, name_at));
        add_lines(&mut lines, text_lines_between(&self.texts, name_at + 1, count));
        add_lines(&mut lines, flag_lines_of(&self.flags));
        add_lines(&mut lines, self.vocabulary_lines_of());
        add_lines(&mut lines, glitch_lines_of(&self.glitches));
        add_lines(&mut lines, jump_lines_of(&self.jumps));
        Ok(lines)
    }
}

/// The list of duplicates only grows as more names are looked at.
pub proof fn lemma_duplicates_grow(names: Seq<Seq<char>>, n: int, m: int)
    requires
        0 <= n <= m <= names.len(),
    ensures
        duplicates_among(names, n).len() <= duplicates_among(names, m).len(),
    decreases m - n,
{
    if n < m {
        lemma_duplicates_grow(names, n, m - 1);
    }
}

/// A name that stands at two places of a list makes a duplicate.
pub proof fn lemma_duplicate_found(names: Seq<Seq<char>>, i: int, j: int)
    requires
        0 <= i < j < names.len(),
        names[i] == names[j],
    ensures
        duplicate_pairs(names).len() > 0,
{
    lemma_first_index(names, names[i], i + 1);
    assert(first_index(names, names[i], i + 1) is Some);
    lemma_duplicates_grow(names, i + 1, names.len() as int);
}

/// A list without duplicates holds each name once.
pub proof fn lemma_no_duplicates(names: Seq<Seq<char>>)
    requires
        duplicate_pairs(names).len() == 0,
    ensures
        forall|i: int, j: int|
            0 <= i < j < names.len() ==> #[trigger] names[i] != #[trigger] names[j],
{
    assert forall|i: int, j: int| 0 <= i < j < names.len() implies #[trigger] names[i]
        != #[trigger] names[j] by {
        if names[i] == names[j] {
            lemma_duplicate_found(names, i, j);
        }
    }
}

/// A file without a name is reported for that.
pub proof fn lemma_missing_name(par: ParfileView)
    requires
        first_index(names_of(par.texts), "PSR"@, 0) is None,
    ensures
        check_result(par) == Err::<(), ErrorView>(ErrorView::ParNoName),
{
}

/// A file with a name and without an epoch is reported for that.
pub proof fn lemma_missing_epoch(par: ParfileView)
    requires
        first_index(names_of(par.texts), "PSR"@, 0) is Some,
        first_index(names_of(par.parameters), "PEPOCH"@, 0) is None,
    ensures
        check_result(par) == Err::<(), ErrorView>(ErrorView::ParNoPEpoch),
{
}

/// A file with a name and an epoch, and without a frequency, is reported
/// for that.
pub proof fn lemma_missing_frequency(par: ParfileView, epoch_at: int)
    requires
        first_index(names_of(par.texts), "PSR"@, 0) is Some,
        first_index(names_of(par.parameters), "PEPOCH"@, 0) == Some(epoch_at),
        value_positive(par.parameters[epoch_at].value),
        first_index(names_of(par.parameters), "F0"@, 0) is None,
    ensures
        check_result(par) == Err::<(), ErrorView>(ErrorView::ParNoFrequency),
{
}

/// A file with a name, an epoch and a frequency, and without a dispersion
/// measure, is reported for that.
pub proof fn lemma_missing_dispersion(par: ParfileView, epoch_at: int, frequency_at: int)
    requires
        first_index(names_of(par.texts), "PSR"@, 0) is Some,
        first_index(names_of(par.parameters), "PEPOCH"@, 0) == Some(epoch_at),
        value_positive(par.parameters[epoch_at].value),
        first_index(names_of(par.parameters), "F0"@, 0) == Some(frequency_at),
        value_positive(par.parameters[frequency_at].value),
        first_index(names_of(par.parameters), "DM"@, 0) is None,
    ensures
        check_result(par) == Err::<(), ErrorView>(ErrorView::ParNoDispersion),
{
}

/// Lines that make a file without one of its mandatory parameters give no
/// file: what is read has all four.
pub proof fn lemma_read_has_mandatory(lines: Seq<Seq<char>>)
    ensures
        read_result(lines) matches Ok(par) ==> {
            &&& parsed_lines(ParfileView::empty(), lines) == Ok::<ParfileView, ErrorView>(par)
            &&& check_result(par) is Ok
            &&& mandatory(par) is Ok
            &&& first_index(names_of(par.texts), "PSR"@, 0) is Some
            &&& first_index(names_of(par.parameters), "PEPOCH"@, 0) is Some
            &&& first_index(names_of(par.parameters), "F0"@, 0) is Some
            &&& first_index(names_of(par.parameters), "DM"@, 0) is Some
        },
{
}

/// A file that has its mandatory parameters, and in which a name stands
/// twice among the numbers, the counts, the texts or the switches, is
/// reported for its duplicates.
pub proof fn lemma_duplicate_is_reported(par: ParfileView, i: int, j: int)
    requires
        mandatory(par) is Ok,
        0 <= i < j,
        ({
            ||| j < par.parameters.len() && par.parameters[i].name == par.parameters[j].name
            ||| j < par.counts.len() && par.counts[i].name == par.counts[j].name
            ||| j < par.texts.len() && par.texts[i].name == par.texts[j].name
            ||| j < par.flags.len() && par.flags[i].name == par.flags[j].name
        }),
    ensures
        check_result(par) matches Err(ErrorView::ParDuplicateParameters(_)),
{
    if j < par.parameters.len() && par.parameters[i].name == par.parameters[j].name {
        lemma_duplicate_found(names_of(par.parameters), i, j);
    }
    if j < par.counts.len() && par.counts[i].name == par.counts[j].name {
        lemma_duplicate_found(names_of(par.counts), i, j);
    }
    if j < par.texts.len() && par.texts[i].name == par.texts[j].name {
        lemma_duplicate_found(names_of(par.texts), i, j);
    }
    if j < par.flags.len() && par.flags[i].name == par.flags[j].name {
        lemma_duplicate_found(names_of(par.flags), i, j);
    }
}

/// What is read, and what is written, passes the check: nothing that fails
/// it is ever returned or written.
pub proof fn lemma_read_and_write_check(par: ParfileView, lines: Seq<Seq<char>>)
    ensures
        read_result(lines) == Ok::<ParfileView, ErrorView>(par) ==> check_result(par) is Ok,
        write_result(par) is Ok ==> check_result(par) is Ok,
        check_result(par) is Err ==> write_result(par) is Err,
{
}

} // verus!
