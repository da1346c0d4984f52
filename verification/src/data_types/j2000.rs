//! Celestial coordinates of the epoch J2000: right ascension and declination.

use std::marker::PhantomData;
use std::str::FromStr;
use vstd::prelude::*;
use super::decimal::{
    lemma_decimal_text_chars, lemma_decimal_text_parses, lemma_parse_decimal_wf, parse_decimal,
    parse_decimal_text, Decimal, DecimalView,
};
use crate::error::{ErrorView, PsruError};
use crate::text::{
    chars_of, i64_text, int_text, lemma_int_text_parses, lemma_nat_text_parses,
    lemma_nat_text_parses_unsigned, lemma_span_between, nat_text, parse_signed, parse_signed_chars,
    parse_unsigned, parse_unsigned_chars, scan_to, span_len, u64_text,
};

verus! {

/// Marks a coordinate as a right ascension, see [`J2000Ra`].
#[derive(Debug, Default, PartialEq)]
pub struct RACoordType;

/// Marks a coordinate as a declination, see [`J2000Dec`].
#[derive(Debug, Default, PartialEq)]
pub struct DECCoordType;

/// What a coordinate holds.
pub struct CoordView {
    pub major: i8,
    pub minutes: u8,
    pub seconds: DecimalView,
}

/// Whether minutes and seconds are below 60, and the seconds not negative.
pub open spec fn sexagesimal(v: CoordView) -> bool {
    v.minutes < 60 && !v.seconds.is_negative() && v.seconds.integer_part() < 60
}

/// The bounds of a right ascension: hours from 0 up to, but not including,
/// 24.
pub open spec fn ra_valid(v: CoordView) -> bool {
    0 <= v.major < 24 && sexagesimal(v)
}

/// The bounds of a declination: degrees from -90 to 90, and at either pole
/// neither minutes nor seconds.
pub open spec fn dec_valid(v: CoordView) -> bool {
    &&& -90 <= v.major <= 90
    &&& (v.major == 90 || v.major == -90) ==> v.minutes == 0 && v.seconds.is_zero()
    &&& sexagesimal(v)
}

/// A kind of coordinate, which sets the bounds of its values.
pub trait CoordKind {
    /// Whether the components lie within the bounds of this kind.
    spec fn valid(v: CoordView) -> bool;
}

impl CoordKind for RACoordType {
    open spec fn valid(v: CoordView) -> bool {
        ra_valid(v)
    }
}

impl CoordKind for DECCoordType {
    open spec fn valid(v: CoordView) -> bool {
        dec_valid(v)
    }
}

/// A J2000 coordinate. It comes in two kinds, right ascension and
/// declination, which share this structure and differ in their bounds. A
/// value always lies within the bounds of its kind.
#[derive(Debug, PartialEq)]
pub struct J2000Coord<CT: CoordKind> {
    /// Hours for a right ascension, degrees for a declination.
    major: i8,
    /// Sixtieths of one unit of `major`.
    minutes: u8,
    /// Sixtieths of one minute.
    seconds: Decimal,
    _phantom: PhantomData<CT>,
}

/// A right ascension.
pub type J2000Ra = J2000Coord<RACoordType>;

/// A declination.
pub type J2000Dec = J2000Coord<DECCoordType>;

impl<CT: CoordKind> View for J2000Coord<CT> {
    type V = CoordView;

    closed spec fn view(&self) -> CoordView {
        CoordView { major: self.major, minutes: self.minutes, seconds: self.seconds@ }
    }
}

/// The three fields of `s`, where exactly two colons part it.
pub open spec fn coord_fields(s: Seq<char>) -> Option<(Seq<char>, Seq<char>, Seq<char>)> {
    let p = span_len(s, ':', 0) as int;
    let q = p + 1 + span_len(s, ':', p + 1);
    let r = q + 1 + span_len(s, ':', q + 1);
    if p < s.len() && q < s.len() && r >= s.len() {
        Some((s.take(p), s.subrange(p + 1, q), s.skip(q + 1)))
    } else {
        None
    }
}

/// The components that `major:minutes:seconds` spells: a signed integer, an
/// unsigned integer and a decimal number, the integers of 8 bits.
pub open spec fn parse_coord_text(s: Seq<char>) -> Option<CoordView> {
    match coord_fields(s) {
        Some((a, b, c)) => match (parse_signed(a), parse_unsigned(b), parse_decimal_text(c)) {
            (Some(major), Some(minutes), Some(seconds)) => if -128 <= major <= 127 && minutes
                <= 255 {
                Some(CoordView { major: major as i8, minutes: minutes as u8, seconds })
            } else {
                None
            },
            _ => None,
        },
        None => None,
    }
}

/// The right ascension that a text spells, or the report that names the
/// text.
pub open spec fn parse_ra_text(s: Seq<char>) -> Result<CoordView, ErrorView> {
    match parse_coord_text(s) {
        Some(v) => if ra_valid(v) {
            Ok(v)
        } else {
            Err(ErrorView::InvalidRA(s))
        },
        None => Err(ErrorView::InvalidRA(s)),
    }
}

/// The declination that a text spells, or the report that names the text.
pub open spec fn parse_dec_text(s: Seq<char>) -> Result<CoordView, ErrorView> {
    match parse_coord_text(s) {
        Some(v) => if dec_valid(v) {
            Ok(v)
        } else {
            Err(ErrorView::InvalidDec(s))
        },
        None => Err(ErrorView::InvalidDec(s)),
    }
}

/// How a coordinate reads: `major:minutes:seconds`.
pub open spec fn coord_text(v: CoordView) -> Seq<char> {
    int_text(v.major as int) + ":"@ + nat_text(v.minutes as nat) + ":"@ + v.seconds.text()
}

/// The components that a text spells, before any bound is looked at.
fn parse_components(s: &str) -> (r: Option<(i8, u8, Decimal)>)
    ensures
        match parse_coord_text(s@) {
            Some(v) => r matches Some((major, minutes, seconds)) && v == (CoordView {
                major,
                minutes,
                seconds: seconds@,
            }),
            None => r is None,
        },
{
    let chars = chars_of(s);
    let n = chars.len();
    let p = scan_to(&chars, ':', 0);
    if p >= n {
        return None;
    }
    let q = scan_to(&chars, ':', p + 1);
    if q >= n {
        return None;
    }
    let r = scan_to(&chars, ':', q + 1);
    if r < n {
        return None;
    }
    let major_chars = chars_of(s.substring_char(0, p));
    let minute_chars = chars_of(s.substring_char(p + 1, q));
    proof {
        assert(major_chars@.skip(0) =~= s@.take(p as int));
        assert(minute_chars@.skip(0) =~= s@.subrange(p + 1, q as int));
        assert(s@.subrange(q + 1, n as int) =~= s@.skip(q + 1));
    }
    let major = match parse_signed_chars(&major_chars, 0, -128, 127) {
        Some(m) => m as i8,
        None => {
            return None;
        },
    };
    let minutes = match parse_unsigned_chars(&minute_chars, 0, 255) {
        Some(m) => m as u8,
        None => {
            return None;
        },
    };
    match parse_decimal(s.substring_char(q + 1, n)) {
        Some(seconds) => Some((major, minutes, seconds)),
        None => None,
    }
}

/// Whether minutes and seconds lie below 60, and the seconds are not
/// negative.
fn is_sexagesimal(major: i8, minutes: u8, seconds: &Decimal) -> (r: bool)
    ensures
        r == sexagesimal(CoordView { major, minutes, seconds: seconds@ }),
{
    minutes < 60 && !seconds.is_negative() && seconds.integer_part_below(60)
}

impl<CT: CoordKind> J2000Coord<CT> {
    #[verifier::type_invariant]
    spec fn well_formed(self) -> bool {
        CT::valid(self@)
    }

    /// Hours for a right ascension, degrees for a declination.
    pub fn major(&self) -> (r: i8)
        ensures
            r == self@.major,
            CT::valid(self@),
    {
        proof {
            use_type_invariant(self);
        }
        self.major
    }

    /// Sixtieths of one unit of `major`.
    pub fn minutes(&self) -> (r: u8)
        ensures
            r == self@.minutes,
    {
        self.minutes
    }

    /// Sixtieths of one minute.
    pub fn seconds(&self) -> (r: &Decimal)
        ensures
            r@ == self@.seconds,
    {
        &self.seconds
    }

    /// The coordinate as it reads: `major:minutes:seconds`.
    pub fn to_text(&self) -> (s: String)
        ensures
            s@ == coord_text(self@),
    {
        components_text(self.major, self.minutes, &self.seconds)
    }
}

/// `major:minutes:seconds`.
fn components_text(major: i8, minutes: u8, seconds: &Decimal) -> (s: String)
    ensures
        s@ == coord_text(CoordView { major, minutes, seconds: seconds@ }),
{
    let mut s = i64_text(major as i64);
    s.append(":");
    let m = u64_text(minutes as u64);
    s.append(m.as_str());
    s.append(":");
    let sec = seconds.to_text();
    s.append(sec.as_str());
    s
}

impl J2000Coord<RACoordType> {
    /// A right ascension of the given hours, minutes and seconds, or the
    /// report that they lie out of bounds.
    pub fn new(hours: i8, minutes: u8, seconds: Decimal) -> (r: Result<Self, PsruError>)
        ensures
            ({
                let v = CoordView { major: hours, minutes, seconds: seconds@ };
                if ra_valid(v) {
                    r is Ok && r->Ok_0@ == v
                } else {
                    r is Err && r->Err_0@ == ErrorView::InvalidRA(coord_text(v))
                }
            }),
    {
        if hours >= 0 && hours < 24 && is_sexagesimal(hours, minutes, &seconds) {
            Ok(Self { major: hours, minutes, seconds, _phantom: PhantomData })
        } else {
            Err(PsruError::InvalidRA(components_text(hours, minutes, &seconds)))
        }
    }

    /// Reads a right ascension from `hours:minutes:seconds`. A text of
    /// another shape, and one whose values lie out of bounds, is reported
    /// with the text itself.
    pub fn from_str(s: &str) -> (r: Result<Self, PsruError>)
        ensures
            match parse_ra_text(s@) {
                Ok(v) => r is Ok && r->Ok_0@ == v,
                Err(e) => r is Err && r->Err_0@ == e,
            },
    {
        match parse_components(s) {
            Some((hours, minutes, seconds)) => {
                if hours >= 0 && hours < 24 && is_sexagesimal(hours, minutes, &seconds) {
                    Ok(Self { major: hours, minutes, seconds, _phantom: PhantomData })
                } else {
                    Err(PsruError::InvalidRA(s.to_owned()))
                }
            },
            None => Err(PsruError::InvalidRA(s.to_owned())),
        }
    }
}

impl J2000Coord<DECCoordType> {
    /// A declination of the given degrees, minutes and seconds, or the
    /// report that they lie out of bounds.
    pub fn new(degrees: i8, minutes: u8, seconds: Decimal) -> (r: Result<Self, PsruError>)
        ensures
            ({
                let v = CoordView { major: degrees, minutes, seconds: seconds@ };
                if dec_valid(v) {
                    r is Ok && r->Ok_0@ == v
                } else {
                    r is Err && r->Err_0@ == ErrorView::InvalidDec(coord_text(v))
                }
            }),
    {
        if dec_in_bounds(degrees, minutes, &seconds) {
            Ok(Self { major: degrees, minutes, seconds, _phantom: PhantomData })
        } else {
            Err(PsruError::InvalidDec(components_text(degrees, minutes, &seconds)))
        }
    }

    /// Reads a declination from `degrees:minutes:seconds`. A text of another
    /// shape, and one whose values lie out of bounds, is reported with the
    /// text itself.
    pub fn from_str(s: &str) -> (r: Result<Self, PsruError>)
        ensures
            match parse_dec_text(s@) {
                Ok(v) => r is Ok && r->Ok_0@ == v,
                Err(e) => r is Err && r->Err_0@ == e,
            },
    {
        match parse_components(s) {
            Some((degrees, minutes, seconds)) => {
                if dec_in_bounds(degrees, minutes, &seconds) {
                    Ok(Self { major: degrees, minutes, seconds, _phantom: PhantomData })
                } else {
                    Err(PsruError::InvalidDec(s.to_owned()))
                }
            },
            None => Err(PsruError::InvalidDec(s.to_owned())),
        }
    }
}

/// Whether the components lie within the bounds of a declination.
fn dec_in_bounds(degrees: i8, minutes: u8, seconds: &Decimal) -> (r: bool)
    ensures
        r == dec_valid(CoordView { major: degrees, minutes, seconds: seconds@ }),
{
    let at_pole = degrees == 90 || degrees == -90;
    degrees >= -90 && degrees <= 90 && (!at_pole || (minutes == 0 && seconds.is_zero()))
        && is_sexagesimal(degrees, minutes, seconds)
}

impl FromStr for J2000Coord<RACoordType> {
    type Err = PsruError;

    /// Reads a right ascension from `hours:minutes:seconds`, as the
    /// function of this name on the type itself does.
    fn from_str(s: &str) -> (r: Result<Self, Self::Err>)
        ensures
            match parse_ra_text(s@) {
                Ok(v) => r is Ok && r->Ok_0@ == v,
                Err(e) => r is Err && r->Err_0@ == e,
            },
    {
        J2000Coord::<RACoordType>::from_str(s)
    }
}

impl FromStr for J2000Coord<DECCoordType> {
    type Err = PsruError;

    /// Reads a declination from `degrees:minutes:seconds`, as the function
    /// of this name on the type itself does.
    fn from_str(s: &str) -> (r: Result<Self, Self::Err>)
        ensures
            match parse_dec_text(s@) {
                Ok(v) => r is Ok && r->Ok_0@ == v,
                Err(e) => r is Err && r->Err_0@ == e,
            },
    {
        J2000Coord::<DECCoordType>::from_str(s)
    }
}

/// A coordinate reads back from its text: to write its components and to
/// read what was written gives the components again.
pub proof fn lemma_coord_text_parses(v: CoordView)
    requires
        v.seconds.wf(),
    ensures
        parse_coord_text(coord_text(v)) == Some(v),
{
    let major = int_text(v.major as int);
    let minutes = nat_text(v.minutes as nat);
    let seconds = v.seconds.text();
    let colon = seq![':'];
    let s = coord_text(v);
    reveal_strlit(":");
    assert(":"@ =~= colon);
    lemma_int_text_parses(v.major as int);
    lemma_nat_text_parses(v.minutes as nat);
    lemma_nat_text_parses_unsigned(v.minutes as nat);
    lemma_decimal_text_parses(v.seconds);
    lemma_decimal_text_chars(v.seconds);
    let empty = Seq::<char>::empty();
    // The first field runs up to the first colon.
    let rest = colon + minutes + colon + seconds;
    assert(s =~= empty + major + rest);
    assert(rest[0] == ':');
    lemma_span_between(empty, major, rest, ':');
    let p = major.len() as int;
    assert(s.take(p) =~= major);
    // The second runs from there up to the second colon.
    let head = major + colon;
    let tail = colon + seconds;
    assert(s =~= head + minutes + tail);
    assert(tail[0] == ':');
    lemma_span_between(head, minutes, tail, ':');
    let q = p + 1 + minutes.len();
    // The third runs to the end.
    let front = major + colon + minutes + colon;
    assert(s =~= front + seconds + empty);
    lemma_span_between(front, seconds, empty, ':');
    assert(s.skip(q + 1) =~= seconds);
    assert(s.subrange(q + 1, s.len() as int) =~= seconds);
    assert(coord_fields(s) == Some((major, minutes, seconds)));
}

/// Every right ascension within bounds is read from its text: hours from 0
/// up to, but not including, 24, minutes below 60, and seconds from 0 up to,
/// but not including, 60.
pub proof fn lemma_valid_ra_parses(v: CoordView)
    requires
        v.seconds.wf(),
        0 <= v.major < 24,
        v.minutes < 60,
        !v.seconds.is_negative(),
        v.seconds.integer_part() < 60,
    ensures
        parse_ra_text(coord_text(v)) == Ok::<CoordView, ErrorView>(v),
{
    lemma_coord_text_parses(v);
}

/// What the bounds of a declination say of any text `s` that spells
/// components: at either pole, minutes or seconds that are not zero are
/// reported, and zero minutes and seconds are read; degrees beyond the poles
/// are reported. A text that spells no components is reported.
pub proof fn lemma_dec_text_bounds(s: Seq<char>)
    ensures
        match parse_coord_text(s) {
            Some(v) => {
                &&& (v.major == 90 || v.major == -90) && (v.minutes != 0 || !v.seconds.is_zero())
                    ==> parse_dec_text(s) == Err::<CoordView, ErrorView>(ErrorView::InvalidDec(s))
                &&& (v.major == 90 || v.major == -90) && v.minutes == 0 && v.seconds.is_zero()
                    ==> parse_dec_text(s) == Ok::<CoordView, ErrorView>(v)
                &&& v.major < -90 || v.major > 90 ==> parse_dec_text(s) == Err::<
                    CoordView,
                    ErrorView,
                >(ErrorView::InvalidDec(s))
            },
            None => parse_dec_text(s) == Err::<CoordView, ErrorView>(ErrorView::InvalidDec(s)),
        },
{
    match parse_coord_text(s) {
        Some(v) => {
            if v.seconds.is_zero() {
                assert(v.seconds.integer_digits() =~= Seq::<char>::empty()) by {
                    lemma_parse_coord_wf(s);
                }
            }
        },
        None => {},
    }
}

/// The seconds of a coordinate that was read are held in the one way.
pub proof fn lemma_parse_coord_wf(s: Seq<char>)
    ensures
        parse_coord_text(s) matches Some(v) ==> v.seconds.wf(),
{
    match coord_fields(s) {
        Some((a, b, c)) => {
            lemma_parse_decimal_wf(c);
        },
        None => {},
    }
}

} // verus!
