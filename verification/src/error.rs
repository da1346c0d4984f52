//! The errors of this crate, and the place in a `.tim` file that an error
//! can carry.

use vstd::prelude::*;
use crate::text::{nat_text, u64_text};

verus! {

/// Where in a `.tim` file something went wrong.
#[derive(Debug)]
pub struct TimContext {
    fname: String,
    line: usize,
}

/// What a [`TimContext`] holds.
pub struct TimContextView {
    pub fname: Seq<char>,
    pub line: usize,
}

impl View for TimContext {
    type V = TimContextView;

    closed spec fn view(&self) -> TimContextView {
        TimContextView { fname: self.fname@, line: self.line }
    }
}

impl Clone for TimContext {
    fn clone(&self) -> (r: Self)
        ensures
            r@ == self@,
    {
        TimContext { fname: self.fname.clone(), line: self.line }
    }
}

/// How a context reads in a message.
pub open spec fn context_text(ctx: TimContextView) -> Seq<char> {
    "In file '"@ + ctx.fname + "' on line "@ + nat_text(ctx.line as nat) + ":"@
}

/// How an optional context reads in a message: nothing where there is none.
pub open spec fn optional_context_text(ctx: Option<TimContextView>) -> Seq<char> {
    match ctx {
        Some(c) => context_text(c),
        None => Seq::empty(),
    }
}

impl TimContext {
    /// The context of line `line_number` of the file `fname`.
    pub fn new(fname: &str, line_number: usize) -> (r: Self)
        ensures
            r@ == (TimContextView { fname: fname@, line: line_number }),
    {
        Self { fname: fname.to_owned(), line: line_number }
    }

    /// Moves the context to another line of the same file.
    pub fn line(&mut self, number: usize)
        ensures
            final(self)@ == (TimContextView { fname: old(self)@.fname, line: number }),
    {
        self.line = number;
    }

    /// The context as it stands at the head of a message.
    pub fn to_text(&self) -> (s: String)
        ensures
            s@ == context_text(self@),
    {
        let mut s = "In file '".to_owned();
        s.append(self.fname.as_str());
        s.append("' on line ");
        let number = u64_text(self.line as u64);
        s.append(number.as_str());
        s.append(":");
        s
    }
}

/// The text of an optional context: empty where there is none.
pub fn tim_ctx(ctx: Option<&TimContext>) -> (s: String)
    ensures
        s@ == optional_context_text(
            match ctx {
                Some(c) => Some(c@),
                None => None,
            },
        ),
{
    match ctx {
        Some(c) => c.to_text(),
        None => String::new(),
    }
}

/// Everything that can go wrong in this crate.
#[derive(Debug)]
pub enum PsruError {
    /// A token is not of the lexical kind expected.
    Unparsable { value: String, to_type: &'static str },
    /// Reading or writing failed; the text is the system's message.
    IOError(String),
    // Parameter files
    InvalidRA(String),
    InvalidDec(String),
    ParMissingValue(String),
    ParUnknownFlag(String),
    ParUnrecognisedKey(String),
    UnknownBinaryModel(String),
    UnknownTimeEphemeris(String),
    UnknownT2CMethod(String),
    UnknownUnits(String),
    UnknownErrorMode(String),
    IncompleteJump(String),
    BadGlitch(usize),
    ParNoName,
    ParNoFrequency,
    ParNoPEpoch,
    ParNoDispersion,
    ParBadFrequency,
    ParBadPEpoch,
    ParDuplicateParameters(Vec<(String, String)>),
    ParRepeatParam(String),
    // Times of arrival
    OrphanFile,
    TimUnexpectedEOL(Option<TimContext>),
    TimMalformedMJD(Option<TimContext>),
    TimUnvaluedFlag(Option<TimContext>, String),
    TimFormatDiscrepancy(Option<TimContext>, String),
    TimNotAscii(Option<TimContext>),
    TimParkesMissingBlank(Option<TimContext>),
    TimParkesMissingPeriod(Option<TimContext>),
    /// The fixed-column format is recognised but not read.
    TimParkesNotImplemented(Option<TimContext>),
}

/// What a [`PsruError`] holds.
pub enum ErrorView {
    Unparsable { value: Seq<char>, to_type: Seq<char> },
    IOError(Seq<char>),
    InvalidRA(Seq<char>),
    InvalidDec(Seq<char>),
    ParMissingValue(Seq<char>),
    ParUnknownFlag(Seq<char>),
    ParUnrecognisedKey(Seq<char>),
    UnknownBinaryModel(Seq<char>),
    UnknownTimeEphemeris(Seq<char>),
    UnknownT2CMethod(Seq<char>),
    UnknownUnits(Seq<char>),
    UnknownErrorMode(Seq<char>),
    IncompleteJump(Seq<char>),
    BadGlitch(usize),
    ParNoName,
    ParNoFrequency,
    ParNoPEpoch,
    ParNoDispersion,
    ParBadFrequency,
    ParBadPEpoch,
    ParDuplicateParameters(Seq<(Seq<char>, Seq<char>)>),
    ParRepeatParam(Seq<char>),
    OrphanFile,
    TimUnexpectedEOL(Option<TimContextView>),
    TimMalformedMJD(Option<TimContextView>),
    TimUnvaluedFlag(Option<TimContextView>, Seq<char>),
    TimFormatDiscrepancy(Option<TimContextView>, Seq<char>),
    TimNotAscii(Option<TimContextView>),
    TimParkesMissingBlank(Option<TimContextView>),
    TimParkesMissingPeriod(Option<TimContextView>),
    TimParkesNotImplemented(Option<TimContextView>),
}

/// The view of an optional context.
pub open spec fn context_view(ctx: Option<TimContext>) -> Option<TimContextView> {
    match ctx {
        Some(c) => Some(c@),
        None => None,
    }
}

/// The views of a list of pairs of strings.
pub open spec fn pair_views(items: Seq<(String, String)>) -> Seq<(Seq<char>, Seq<char>)> {
    Seq::new(items.len(), |i: int| (items[i].0@, items[i].1@))
}

impl View for PsruError {
    type V = ErrorView;

    open spec fn view(&self) -> ErrorView {
        match *self {
            PsruError::Unparsable { value, to_type } => ErrorView::Unparsable {
                value: value@,
                to_type: to_type@,
            },
            PsruError::IOError(s) => ErrorView::IOError(s@),
            PsruError::InvalidRA(s) => ErrorView::InvalidRA(s@),
            PsruError::InvalidDec(s) => ErrorView::InvalidDec(s@),
            PsruError::ParMissingValue(s) => ErrorView::ParMissingValue(s@),
            PsruError::ParUnknownFlag(s) => ErrorView::ParUnknownFlag(s@),
            PsruError::ParUnrecognisedKey(s) => ErrorView::ParUnrecognisedKey(s@),
            PsruError::UnknownBinaryModel(s) => ErrorView::UnknownBinaryModel(s@),
            PsruError::UnknownTimeEphemeris(s) => ErrorView::UnknownTimeEphemeris(s@),
            PsruError::UnknownT2CMethod(s) => ErrorView::UnknownT2CMethod(s@),
            PsruError::UnknownUnits(s) => ErrorView::UnknownUnits(s@),
            PsruError::UnknownErrorMode(s) => ErrorView::UnknownErrorMode(s@),
            PsruError::IncompleteJump(s) => ErrorView::IncompleteJump(s@),
            PsruError::BadGlitch(g) => ErrorView::BadGlitch(g),
            PsruError::ParNoName => ErrorView::ParNoName,
            PsruError::ParNoFrequency => ErrorView::ParNoFrequency,
            PsruError::ParNoPEpoch => ErrorView::ParNoPEpoch,
            PsruError::ParNoDispersion => ErrorView::ParNoDispersion,
            PsruError::ParBadFrequency => ErrorView::ParBadFrequency,
            PsruError::ParBadPEpoch => ErrorView::ParBadPEpoch,
            PsruError::ParDuplicateParameters(items) => ErrorView::ParDuplicateParameters(
                pair_views(items@),
            ),
            PsruError::ParRepeatParam(s) => ErrorView::ParRepeatParam(s@),
            PsruError::OrphanFile => ErrorView::OrphanFile,
            PsruError::TimUnexpectedEOL(c) => ErrorView::TimUnexpectedEOL(context_view(c)),
            PsruError::TimMalformedMJD(c) => ErrorView::TimMalformedMJD(context_view(c)),
            PsruError::TimUnvaluedFlag(c, s) => ErrorView::TimUnvaluedFlag(context_view(c), s@),
            PsruError::TimFormatDiscrepancy(c, s) => ErrorView::TimFormatDiscrepancy(
                context_view(c),
                s@,
            ),
            PsruError::TimNotAscii(c) => ErrorView::TimNotAscii(context_view(c)),
            PsruError::TimParkesMissingBlank(c) => ErrorView::TimParkesMissingBlank(
                context_view(c),
            ),
            PsruError::TimParkesMissingPeriod(c) => ErrorView::TimParkesMissingPeriod(
                context_view(c),
            ),
            PsruError::TimParkesNotImplemented(c) => ErrorView::TimParkesNotImplemented(
                context_view(c),
            ),
        }
    }
}

/// The context that stays: the one already there, else the one offered.
pub open spec fn first_context(
    old_ctx: Option<TimContextView>,
    ctx: TimContextView,
) -> Option<TimContextView> {
    match old_ctx {
        Some(c) => Some(c),
        None => Some(ctx),
    }
}

/// An error with `ctx` attached, where its kind has a place for a context
/// and holds none yet; any other error unchanged.
pub open spec fn with_context(e: ErrorView, ctx: TimContextView) -> ErrorView {
    match e {
        ErrorView::TimUnexpectedEOL(c) => ErrorView::TimUnexpectedEOL(first_context(c, ctx)),
        ErrorView::TimMalformedMJD(c) => ErrorView::TimMalformedMJD(first_context(c, ctx)),
        ErrorView::TimUnvaluedFlag(c, s) => ErrorView::TimUnvaluedFlag(first_context(c, ctx), s),
        ErrorView::TimFormatDiscrepancy(c, s) => ErrorView::TimFormatDiscrepancy(
            first_context(c, ctx),
            s,
        ),
        ErrorView::TimNotAscii(c) => ErrorView::TimNotAscii(first_context(c, ctx)),
        ErrorView::TimParkesMissingBlank(c) => ErrorView::TimParkesMissingBlank(
            first_context(c, ctx),
        ),
        ErrorView::TimParkesMissingPeriod(c) => ErrorView::TimParkesMissingPeriod(
            first_context(c, ctx),
        ),
        ErrorView::TimParkesNotImplemented(c) => ErrorView::TimParkesNotImplemented(
            first_context(c, ctx),
        ),
        other => other,
    }
}

/// The lines that name each pair of duplicates in a message.
pub open spec fn duplicates_text(items: Seq<(Seq<char>, Seq<char>)>) -> Seq<char>
    decreases items.len(),
{
    if items.len() == 0 {
        Seq::empty()
    } else {
        duplicates_text(items.drop_last()) + "\n * '"@ + items.last().0 + "' and '"@
            + items.last().1 + "'"@
    }
}

/// The message of an error, for a person to read.
pub open spec fn message_text(e: ErrorView) -> Seq<char> {
    match e {
        ErrorView::Unparsable { value, to_type } => "Impossible to parse '"@ + value
            + "' into type "@ + to_type + "."@,
        ErrorView::IOError(s) => "IO error >> "@ + s,
        ErrorView::InvalidRA(s) => "Invalid RA string '"@ + s + "'."@,
        ErrorView::InvalidDec(s) => "Invalid DEC string '"@ + s + "'."@,
        ErrorView::ParMissingValue(s) => "Param '"@ + s + "' missing value."@,
        ErrorView::ParUnknownFlag(s) => "Unknown flag '"@ + s + "'."@,
        ErrorView::ParUnrecognisedKey(s) => "Unrecognised key '"@ + s + "'."@,
        ErrorView::UnknownBinaryModel(s) => "Unknown binary model '"@ + s + "'."@,
        ErrorView::UnknownTimeEphemeris(s) => "Unknown time ephemeris '"@ + s + "'."@,
        ErrorView::UnknownT2CMethod(s) => "Unknown t2CMethod '"@ + s + "'."@,
        ErrorView::UnknownUnits(s) => "Unknown units '"@ + s + "'."@,
        ErrorView::UnknownErrorMode(s) => "Unknown error mode '"@ + s + "'."@,
        ErrorView::IncompleteJump(s) => "Incomplete jump '"@ + s + "'."@,
        ErrorView::BadGlitch(g) => "Glitch with index "@ + nat_text(g as nat)
            + " is incomplete."@,
        ErrorView::ParNoName => "Missing PSR parameter."@,
        ErrorView::ParNoFrequency => "Missing F0 parameter."@,
        ErrorView::ParNoPEpoch => "Missing PEPOCH parameter."@,
        ErrorView::ParNoDispersion => "Missing DM parameter."@,
        ErrorView::ParBadFrequency => "Bad F0 parameter."@,
        ErrorView::ParBadPEpoch => "Bad PEPOCH parameter."@,
        ErrorView::ParDuplicateParameters(items) => "There are duplicate parameters defined:"@
            + duplicates_text(items),
        ErrorView::ParRepeatParam(s) => "Repeated '"@ + s + "' parameter."@,
        ErrorView::OrphanFile => "File does not have a (readable) parent directory."@,
        ErrorView::TimUnexpectedEOL(c) => optional_context_text(c)
            + " TOA line ended prematurely"@,
        ErrorView::TimMalformedMJD(c) => optional_context_text(c)
            + " MJD is expected to be in decimal format."@,
        ErrorView::TimUnvaluedFlag(c, s) => optional_context_text(c) + " Flag '"@ + s
            + "' did not have a value."@,
        ErrorView::TimFormatDiscrepancy(c, s) => optional_context_text(c)
            + " Read format does not match supplied '"@ + s + "'"@,
        ErrorView::TimNotAscii(c) => optional_context_text(c)
            + " Cannot handle non-ascii text in the supplied mode."@,
        ErrorView::TimParkesMissingBlank(c) => optional_context_text(c)
            + " There's supposed to be a blank space in the first column."@,
        ErrorView::TimParkesMissingPeriod(c) => optional_context_text(c)
            + " There's supposed to be a period in the column 42."@,
        ErrorView::TimParkesNotImplemented(c) => optional_context_text(c)
            + " Reading the Parkes format is not implemented."@,
    }
}

/// The message that names each pair of duplicates.
pub(crate) fn duplicates_message(items: &Vec<(String, String)>) -> (s: String)
    ensures
        s@ == "There are duplicate parameters defined:"@ + duplicates_text(pair_views(items@)),
{
    let mut s = "There are duplicate parameters defined:".to_owned();
    let ghost head = s@;
    let mut i: usize = 0;
    assert(pair_views(items@).take(0) =~= Seq::empty());
    assert(head + duplicates_text(Seq::empty()) =~= head);
    while i < items.len()
        invariant
            i <= items.len(),
            s@ == head + duplicates_text(pair_views(items@).take(i as int)),
        decreases items.len() - i,
    {
        let ghost before = pair_views(items@).take(i as int);
        let ghost after = pair_views(items@).take(i + 1);
        proof {
            assert(after.drop_last() =~= before);
            assert(after.last() == (items@[i as int].0@, items@[i as int].1@));
        }
        s.append("\n * '");
        s.append(items[i].0.as_str());
        s.append("' and '");
        s.append(items[i].1.as_str());
        s.append("'");
        assert(s@ =~= head + duplicates_text(after));
        i = i + 1;
    }
    assert(pair_views(items@).take(i as int) =~= pair_views(items@));
    s
}

/// `prefix`, then `value`, then `suffix`.
pub(crate) fn wrapped(prefix: &str, value: &str, suffix: &str) -> (s: String)
    ensures
        s@ == prefix@ + value@ + suffix@,
{
    let mut s = prefix.to_owned();
    s.append(value);
    s.append(suffix);
    s
}

/// The text of an optional context, then `rest`.
fn after_context(ctx: &Option<TimContext>, rest: &str) -> (s: String)
    ensures
        s@ == optional_context_text(context_view(*ctx)) + rest@,
{
    let mut s = match ctx {
        Some(c) => c.to_text(),
        None => String::new(),
    };
    s.append(rest);
    s
}

/// The context to keep in a slot: what is there, else a copy of `ctx`.
fn keep_first(old_ctx: Option<TimContext>, ctx: &TimContext) -> (r: Option<TimContext>)
    ensures
        context_view(r) == first_context(context_view(old_ctx), ctx@),
{
    match old_ctx {
        Some(c) => Some(c),
        None => Some(ctx.clone()),
    }
}

impl PsruError {
    /// Attaches a file and line to an error of a `.tim` file that carries
    /// none yet. An error that already carries one keeps it, and an error of
    /// another kind is returned as it came.
    pub fn set_tim_ctx(self, ctx: &TimContext) -> (r: Self)
        ensures
            r@ == with_context(self@, ctx@),
    {
        match self {
            PsruError::TimUnexpectedEOL(c) => PsruError::TimUnexpectedEOL(keep_first(c, ctx)),
            PsruError::TimMalformedMJD(c) => PsruError::TimMalformedMJD(keep_first(c, ctx)),
            PsruError::TimUnvaluedFlag(c, s) => PsruError::TimUnvaluedFlag(
                keep_first(c, ctx),
                s,
            ),
            PsruError::TimFormatDiscrepancy(c, s) => PsruError::TimFormatDiscrepancy(
                keep_first(c, ctx),
                s,
            ),
            PsruError::TimNotAscii(c) => PsruError::TimNotAscii(keep_first(c, ctx)),
            PsruError::TimParkesMissingBlank(c) => PsruError::TimParkesMissingBlank(
                keep_first(c, ctx),
            ),
            PsruError::TimParkesMissingPeriod(c) => PsruError::TimParkesMissingPeriod(
                keep_first(c, ctx),
            ),
            PsruError::TimParkesNotImplemented(c) => PsruError::TimParkesNotImplemented(
                keep_first(c, ctx),
            ),
            other => other,
        }
    }

    /// The message of the error, for a person to read.
    pub fn message(&self) -> (s: String)
        ensures
            s@ == message_text(self@),
    {
        match self {
            PsruError::Unparsable { value, to_type } => {
                let mut s = wrapped("Impossible to parse '", value.as_str(), "' into type ");
                s.append(to_type);
                s.append(".");
                s
            },
            PsruError::IOError(e) => {
                let mut s = "IO error >> ".to_owned();
                s.append(e.as_str());
                s
            },
            PsruError::InvalidRA(v) => wrapped("Invalid RA string '", v.as_str(), "'."),
            PsruError::InvalidDec(v) => wrapped("Invalid DEC string '", v.as_str(), "'."),
            PsruError::ParMissingValue(v) => wrapped("Param '", v.as_str(), "' missing value."),
            PsruError::ParUnknownFlag(v) => wrapped("Unknown flag '", v.as_str(), "'."),
            PsruError::ParUnrecognisedKey(v) => wrapped("Unrecognised key '", v.as_str(), "'."),
            PsruError::UnknownBinaryModel(v) => wrapped(
                "Unknown binary model '",
                v.as_str(),
                "'.",
            ),
            PsruError::UnknownTimeEphemeris(v) => wrapped(
                "Unknown time ephemeris '",
                v.as_str(),
                "'.",
            ),
            PsruError::UnknownT2CMethod(v) => wrapped("Unknown t2CMethod '", v.as_str(), "'."),
            PsruError::UnknownUnits(v) => wrapped("Unknown units '", v.as_str(), "'."),
            PsruError::UnknownErrorMode(v) => wrapped("Unknown error mode '", v.as_str(), "'."),
            PsruError::IncompleteJump(v) => wrapped("Incomplete jump '", v.as_str(), "'."),
            PsruError::BadGlitch(g) => {
                let number = u64_text(*g as u64);
                wrapped("Glitch with index ", number.as_str(), " is incomplete.")
            },
            PsruError::ParNoName => "Missing PSR parameter.".to_owned(),
            PsruError::ParNoFrequency => "Missing F0 parameter.".to_owned(),
            PsruError::ParNoPEpoch => "Missing PEPOCH parameter.".to_owned(),
            PsruError::ParNoDispersion => "Missing DM parameter.".to_owned(),
            PsruError::ParBadFrequency => "Bad F0 parameter.".to_owned(),
            PsruError::ParBadPEpoch => "Bad PEPOCH parameter.".to_owned(),
            PsruError::ParDuplicateParameters(items) => duplicates_message(items),
            PsruError::ParRepeatParam(v) => wrapped("Repeated '", v.as_str(), "' parameter."),
            PsruError::OrphanFile => "File does not have a (readable) parent directory.".to_owned(),
            PsruError::TimUnexpectedEOL(c) => after_context(c, " TOA line ended prematurely"),
            PsruError::TimMalformedMJD(c) => after_context(
                c,
                " MJD is expected to be in decimal format.",
            ),
            PsruError::TimUnvaluedFlag(c, flag) => {
                let mut s = after_context(c, " Flag '");
                s.append(flag.as_str());
                s.append("' did not have a value.");
                s
            },
            PsruError::TimFormatDiscrepancy(c, format) => {
                let mut s = after_context(c, " Read format does not match supplied '");
                s.append(format.as_str());
                s.append("'");
                s
            },
            PsruError::TimNotAscii(c) => after_context(
                c,
                " Cannot handle non-ascii text in the supplied mode.",
            ),
            PsruError::TimParkesMissingBlank(c) => after_context(
                c,
                " There's supposed to be a blank space in the first column.",
            ),
            PsruError::TimParkesMissingPeriod(c) => after_context(
                c,
                " There's supposed to be a period in the column 42.",
            ),
            PsruError::TimParkesNotImplemented(c) => after_context(
                c,
                " Reading the Parkes format is not implemented.",
            ),
        }
    }
}

/// The place that is attached first stays: to attach a second place to an
/// error changes nothing.
pub proof fn lemma_first_context_stays(e: ErrorView, first: TimContextView, second: TimContextView)
    ensures
        with_context(with_context(e, first), second) == with_context(e, first),
{
}

} // verus!
