//! One entry of a parameter file, and the parsers of the four kinds of
//! entry: numbers with fit information, counts, words and switches.

use vstd::prelude::*;
use super::tables::{
    count_rows, count_table, find_row, flag_rows, flag_table, float_rows, float_table, lookup,
    text_rows, text_table, ParamRow,
};
use crate::data_types::{parse_decimal_text, Decimal, DecimalView, J2000Coord};
use crate::error::{ErrorView, PsruError};
use crate::parse_tools::{
    parse_bool, parse_bool_text, parse_f64, parse_u32, parse_u32_text, unparsable,
};
use crate::text::texts;

verus! {

/// A value, and what the file says of fitting it.
#[derive(Debug, PartialEq)]
pub enum FittedParameterValue<T> {
    /// No value was given. Nothing that is missing is ever written out.
    Missing,
    /// A value, with nothing said of fitting it.
    JustValue(T),
    /// A value with fit information.
    FitInfo {
        /// The value arrived at.
        value: T,
        /// Whether to fit the value.
        fit: bool,
        /// The uncertainty of the fit.
        error: Decimal,
    },
}

/// What a [`FittedParameterValue`] holds.
pub enum FittedView<V> {
    Missing,
    JustValue(V),
    FitInfo { value: V, fit: bool, error: DecimalView },
}

impl<T: View> View for FittedParameterValue<T> {
    type V = FittedView<T::V>;

    open spec fn view(&self) -> FittedView<T::V> {
        match *self {
            FittedParameterValue::Missing => FittedView::Missing,
            FittedParameterValue::JustValue(v) => FittedView::JustValue(v@),
            FittedParameterValue::FitInfo { value, fit, error } => FittedView::FitInfo {
                value: value@,
                fit,
                error: error@,
            },
        }
    }
}

impl<V> FittedView<V> {
    /// Whether a value is there.
    pub open spec fn is_missing(self) -> bool {
        self is Missing
    }
}

/// An entry of a parameter file.
#[derive(Debug)]
pub struct Parameter<T> {
    name: &'static str,
    description: &'static str,
    value: T,
}

/// What a [`Parameter`] holds.
pub struct ParameterView<V> {
    pub name: Seq<char>,
    pub description: Seq<char>,
    pub value: V,
}

impl<T: View> View for Parameter<T> {
    type V = ParameterView<T::V>;

    closed spec fn view(&self) -> ParameterView<T::V> {
        ParameterView { name: self.name@, description: self.description@, value: self.value@ }
    }
}

/// A parameter with a number for its value.
pub type FittedParameter = Parameter<FittedParameterValue<Decimal>>;

/// The value of a coordinate parameter.
pub type J2000Fit<CT> = FittedParameterValue<J2000Coord<CT>>;

/// The entry that a table row and a value make.
pub open spec fn entry<V>(row: ParamRow, value: V) -> ParameterView<V> {
    ParameterView { name: row.name@, description: row.description@, value }
}

impl<T: View> Parameter<T> {
    /// The canonical name of the parameter: the key under which it is
    /// written.
    pub fn name(&self) -> (r: &'static str)
        ensures
            r@ == self@.name,
    {
        self.name
    }

    /// What the parameter means. Most descriptions follow the Tempo2
    /// manual.
    pub fn description(&self) -> (r: &'static str)
        ensures
            r@ == self@.description,
    {
        self.description
    }

    /// The value recorded.
    pub fn value(&self) -> (r: &T)
        ensures
            r@ == self@.value,
    {
        &self.value
    }

    /// The entry of the parameter that `row` names, with `value`.
    pub fn new(row: &ParamRow, value: T) -> (r: Self)
        ensures
            r@ == entry(*row, value@),
    {
        Self { name: row.name, description: row.description, value }
    }

    /// An entry with no name, for a parameter that is not there yet.
    pub fn unnamed(value: T) -> (r: Self)
        ensures
            r@ == (ParameterView { name: ""@, description: ""@, value: value@ }),
    {
        Self { name: "", description: "", value }
    }
}

/// The value with the fit information of a line, where the line gives any:
/// more than three words mean that the third says whether to fit and the
/// fourth gives the uncertainty.
pub open spec fn fitted_value<V>(value: V, parts: Seq<Seq<char>>) -> Result<
    FittedView<V>,
    ErrorView,
> {
    if parts.len() > 3 {
        match parse_bool_text(parts[2]) {
            None => Err(unparsable(parts[2], "bool"@)),
            Some(fit) => match parse_decimal_text(parts[3]) {
                None => Err(unparsable(parts[3], "double"@)),
                Some(error) => Ok(FittedView::FitInfo { value, fit, error }),
            },
        }
    } else {
        Ok(FittedView::JustValue(value))
    }
}

/// Adds to `value` the fit information that a line gives.
pub fn parse_fit_info<T: View>(value: T, parts: &[&str]) -> (r: Result<
    FittedParameterValue<T>,
    PsruError,
>)
    ensures
        match fitted_value(value@, texts(parts@)) {
            Ok(v) => r is Ok && r->Ok_0@ == v,
            Err(e) => r is Err && r->Err_0@ == e,
        },
{
    if parts.len() > 3 {
        let fit = match parse_bool(parts[2]) {
            Ok(fit) => fit,
            Err(e) => {
                return Err(e);
            },
        };
        let error = match parse_f64(parts[3]) {
            Ok(error) => error,
            Err(e) => {
                return Err(e);
            },
        };
        Ok(FittedParameterValue::FitInfo { value, fit, error })
    } else {
        Ok(FittedParameterValue::JustValue(value))
    }
}

/// What a line says as a number parameter: nothing where its key is in no
/// row of the table of numbers.
pub open spec fn fitted_entry(parts: Seq<Seq<char>>) -> Result<
    Option<ParameterView<FittedView<DecimalView>>>,
    ErrorView,
> {
    match find_row(float_rows(), parts[0]) {
        None => Ok(None),
        Some(row) => match parse_decimal_text(parts[1]) {
            None => Err(unparsable(parts[1], "double"@)),
            Some(value) => match fitted_value(value, parts) {
                Ok(v) => Ok(Some(entry(row, v))),
                Err(e) => Err(e),
            },
        },
    }
}

/// Reads the words of a line as a number parameter.
pub fn parse_fitted(parts: &[&str]) -> (r: Result<Option<FittedParameter>, PsruError>)
    requires
        parts@.len() >= 2,
    ensures
        match fitted_entry(texts(parts@)) {
            Ok(Some(p)) => r matches Ok(Some(q)) && q@ == p,
            Ok(None) => r matches Ok(None),
            Err(e) => r is Err && r->Err_0@ == e,
        },
{
    let table = float_table();
    let row = match lookup(&table, parts[0]) {
        Some(row) => row,
        None => {
            return Ok(None);
        },
    };
    let value = match parse_f64(parts[1]) {
        Ok(value) => value,
        Err(e) => {
            return Err(e);
        },
    };
    match parse_fit_info(value, parts) {
        Ok(v) => Ok(Some(Parameter::new(&row, v))),
        Err(e) => Err(e),
    }
}

/// What a line says as a switch: nothing where its key is in no row of the
/// table of switches.
pub open spec fn flag_entry(parts: Seq<Seq<char>>) -> Result<
    Option<ParameterView<bool>>,
    ErrorView,
> {
    match find_row(flag_rows(), parts[0]) {
        None => Ok(None),
        Some(row) => match parse_bool_text(parts[1]) {
            None => Err(unparsable(parts[1], "bool"@)),
            Some(value) => Ok(Some(entry(row, value))),
        },
    }
}

/// Reads the words of a line as a switch.
pub fn parse_flag(parts: &[&str]) -> (r: Result<Option<Parameter<bool>>, PsruError>)
    requires
        parts@.len() >= 2,
    ensures
        match flag_entry(texts(parts@)) {
            Ok(Some(p)) => r matches Ok(Some(q)) && q@ == p,
            Ok(None) => r matches Ok(None),
            Err(e) => r is Err && r->Err_0@ == e,
        },
{
    let table = flag_table();
    let row = match lookup(&table, parts[0]) {
        Some(row) => row,
        None => {
            return Ok(None);
        },
    };
    match parse_bool(parts[1]) {
        Ok(value) => Ok(Some(Parameter::new(&row, value))),
        Err(e) => Err(e),
    }
}

/// What a line says as a count: nothing where its key is in no row of the
/// table of counts.
pub open spec fn count_entry(parts: Seq<Seq<char>>) -> Result<
    Option<ParameterView<u32>>,
    ErrorView,
> {
    match find_row(count_rows(), parts[0]) {
        None => Ok(None),
        Some(row) => match parse_u32_text(parts[1]) {
            None => Err(unparsable(parts[1], "integer"@)),
            Some(value) => Ok(Some(entry(row, value))),
        },
    }
}

/// Reads the words of a line as a count.
pub fn parse_count(parts: &[&str]) -> (r: Result<Option<Parameter<u32>>, PsruError>)
    requires
        parts@.len() >= 2,
    ensures
        match count_entry(texts(parts@)) {
            Ok(Some(p)) => r matches Ok(Some(q)) && q@ == p,
            Ok(None) => r matches Ok(None),
            Err(e) => r is Err && r->Err_0@ == e,
        },
{
    let table = count_table();
    let row = match lookup(&table, parts[0]) {
        Some(row) => row,
        None => {
            return Ok(None);
        },
    };
    match parse_u32(parts[1]) {
        Ok(value) => Ok(Some(Parameter::new(&row, value))),
        Err(e) => Err(e),
    }
}

/// What a line says as a text parameter. A key that is in no row of the
/// table of texts is in no table at all, and is reported.
pub open spec fn text_entry(parts: Seq<Seq<char>>) -> Result<
    Option<ParameterView<Seq<char>>>,
    ErrorView,
> {
    match find_row(text_rows(), parts[0]) {
        None => Err(ErrorView::ParUnrecognisedKey(parts[0])),
        Some(row) => Ok(Some(entry(row, parts[1]))),
    }
}

/// Reads the words of a line as a text parameter.
pub fn parse_text(parts: &[&str]) -> (r: Result<Option<Parameter<String>>, PsruError>)
    requires
        parts@.len() >= 2,
    ensures
        match text_entry(texts(parts@)) {
            Ok(Some(p)) => r matches Ok(Some(q)) && q@ == p,
            Ok(None) => r matches Ok(None),
            Err(e) => r is Err && r->Err_0@ == e,
        },
{
    let table = text_table();
    match lookup(&table, parts[0]) {
        Some(row) => Ok(Some(Parameter::new(&row, parts[1].to_owned()))),
        None => Err(PsruError::ParUnrecognisedKey(parts[0].to_owned())),
    }
}

} // verus!
