//! Times-of-arrival files: what each line of one says.
//!
//! A `.tim` file holds one time of arrival per line, and directives. One
//! of them, `INCLUDE`, names another file whose lines take its place. This
//! module reads a line and says what it asks for; to open the files is left
//! to the caller, who hands each line over with its file and number, so
//! that what is reported names the place.

use vstd::prelude::*;
use crate::error::{with_context, ErrorView, PsruError, TimContext};
use crate::text::{same_text, split_whitespace, words};
use toa::{parkes_line, toa_line, ToaView};

pub mod toa;

pub use toa::{Flag, FlagMap, FlagView, TOAInfo};

verus! {

/// The format in which the times of arrival of a `.tim` file are written.
#[derive(Debug, PartialEq, Eq, Clone, Copy)]
pub enum TimFormat {
    /// The format of Tempo2.
    Tempo2,
    /// The fixed columns of Parkes. Lines in it are recognised, not read.
    Parkes,
}

/// What a line of a `.tim` file asks of its reader.
#[derive(Debug, PartialEq)]
pub enum TimLine {
    /// Nothing: the line is empty, or a directive that changes nothing.
    Nothing,
    /// To read the file of this path, taken from the directory of the file
    /// that the line stands in, and to put its times of arrival here.
    Include(String),
    /// To take this time of arrival.
    Toa(TOAInfo),
}

/// What a [`TimLine`] holds.
pub enum TimLineView {
    Nothing,
    Include(Seq<char>),
    Toa(ToaView),
}

impl View for TimLine {
    type V = TimLineView;

    open spec fn view(&self) -> TimLineView {
        match *self {
            TimLine::Nothing => TimLineView::Nothing,
            TimLine::Include(path) => TimLineView::Include(path@),
            TimLine::Toa(toa) => TimLineView::Toa(toa@),
        }
    }
}

/// What a line that is not empty asks for. `INCLUDE` and a path ask for
/// the file of that path. `FORMAT 1` states that the file is in the Tempo2
/// format, and is reported where another format is being read. `MODE 1` is
/// accepted and changes nothing. Any other line is a time of arrival in the
/// format that is being read.
pub open spec fn tim_line(mode: TimFormat, line: Seq<char>) -> Result<TimLineView, ErrorView> {
    let parts = words(line);
    if parts.len() > 0 && parts[0] == "INCLUDE"@ {
        if parts.len() < 2 {
            Err(ErrorView::TimUnexpectedEOL(None))
        } else {
            Ok(TimLineView::Include(parts[1]))
        }
    } else if parts.len() > 1 && parts[0] == "FORMAT"@ && parts[1] == "1"@ {
        if mode == TimFormat::Tempo2 {
            Ok(TimLineView::Nothing)
        } else {
            Err(ErrorView::TimFormatDiscrepancy(None, "Tempo2"@))
        }
    } else if parts.len() > 1 && parts[0] == "MODE"@ && parts[1] == "1"@ {
        Ok(TimLineView::Nothing)
    } else {
        match mode {
            TimFormat::Tempo2 => match toa_line(parts) {
                Ok(toa) => Ok(TimLineView::Toa(toa)),
                Err(e) => Err(e),
            },
            TimFormat::Parkes => Err(parkes_line(line)),
        }
    }
}

/// What a line of a file asks for, with the place of the line attached to
/// what is reported of it. An empty line asks for nothing.
pub open spec fn placed_line(
    mode: TimFormat,
    ctx: crate::error::TimContextView,
    line: Seq<char>,
) -> Result<TimLineView, ErrorView> {
    if line.len() == 0 {
        Ok(TimLineView::Nothing)
    } else {
        match tim_line(mode, line) {
            Ok(l) => Ok(l),
            Err(e) => Err(with_context(e, ctx)),
        }
    }
}

/// Reads a line that is not empty, and says what it asks for.
pub fn parse_line(mode: TimFormat, line: &str) -> (r: Result<TimLine, PsruError>)
    ensures
        match tim_line(mode, line@) {
            Ok(l) => r is Ok && r->Ok_0@ == l,
            Err(e) => r is Err && r->Err_0@ == e,
        },
{
    let words = split_whitespace(line);
    let parts = words.as_slice();
    if parts.len() > 0 && same_text(parts[0], "INCLUDE") {
        if parts.len() < 2 {
            return Err(PsruError::TimUnexpectedEOL(None));
        }
        return Ok(TimLine::Include(parts[1].to_owned()));
    }
    if parts.len() > 1 && same_text(parts[0], "FORMAT") && same_text(parts[1], "1") {
        return match mode {
            TimFormat::Tempo2 => Ok(TimLine::Nothing),
            TimFormat::Parkes => Err(
                PsruError::TimFormatDiscrepancy(None, "Tempo2".to_owned()),
            ),
        };
    }
    if parts.len() > 1 && same_text(parts[0], "MODE") && same_text(parts[1], "1") {
        return Ok(TimLine::Nothing);
    }
    match mode {
        TimFormat::Tempo2 => match TOAInfo::parse_tempo2(parts) {
            Ok(toa) => Ok(TimLine::Toa(toa)),
            Err(e) => Err(e),
        },
        TimFormat::Parkes => match TOAInfo::parse_parkes(line) {
            Ok(toa) => Ok(TimLine::Toa(toa)),
            Err(e) => Err(e),
        },
    }
}

/// Reads the line that stands at the place `ctx` of a file, and says what
/// it asks for. What is reported of the line carries the place, unless it
/// carries one already.
pub fn read_line(mode: TimFormat, ctx: &TimContext, line: &str) -> (r: Result<TimLine, PsruError>)
    ensures
        match placed_line(mode, ctx@, line@) {
            Ok(l) => r is Ok && r->Ok_0@ == l,
            Err(e) => r is Err && r->Err_0@ == e,
        },
{
    if line.unicode_len() == 0 {
        return Ok(TimLine::Nothing);
    }
    match parse_line(mode, line) {
        Ok(l) => Ok(l),
        Err(e) => Err(e.set_tim_ctx(ctx)),
    }
}

} // verus!
