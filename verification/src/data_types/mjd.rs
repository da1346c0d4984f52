//! Modified Julian dates.

use std::str::FromStr;
use vstd::prelude::*;
use super::decimal::{digit_run, numeral, scan_digits, Decimal, DecimalView};
use crate::error::PsruError;
use crate::parse_tools::unparsable;
use crate::text::{chars_of, digits_value, nat_text, parse_digits, u64_text};

verus! {

/// A date and time as a Modified Julian Date: whole days, and a fraction of
/// a day from 0 up to, but not including, 1.
#[derive(Debug, PartialEq)]
pub struct Mjd {
    days: u32,
    frac: Decimal,
}

/// What an [`Mjd`] holds.
pub struct MjdView {
    pub days: u32,
    pub frac: DecimalView,
}

/// Whether a number lies in the interval from 0 up to, but not including, 1.
pub open spec fn in_unit_interval(d: DecimalView) -> bool {
    !d.is_negative() && d.integer_part() == 0
}

/// The date that a token spells: digits for the days, then optionally a
/// point and digits for the fraction of a day.
pub open spec fn parse_mjd_text(s: Seq<char>) -> Option<MjdView> {
    let b = digit_run(s, 0) as int;
    let d = b + 1 + digit_run(s, b + 1);
    if b == 0 || digits_value(s.take(b)) > u32::MAX {
        None
    } else if b >= s.len() {
        Some(MjdView { days: digits_value(s.take(b)) as u32, frac: DecimalView::zero() })
    } else if s[b] == '.' && d > b + 1 && d >= s.len() {
        Some(
            MjdView {
                days: digits_value(s.take(b)) as u32,
                frac: numeral(false, Seq::empty(), s.skip(b + 1), 0),
            },
        )
    } else {
        None
    }
}

/// How a date reads: `MJD`, the days, a point, and the digits of the
/// fraction (`0` where there are none). A fraction that was given with a
/// power of ten follows the days after a `+` instead.
pub open spec fn mjd_text(m: MjdView) -> Seq<char> {
    if m.frac.int_digits.len() == 0 && m.frac.exponent == 0 {
        "MJD "@ + nat_text(m.days as nat) + "."@ + (if m.frac.frac_digits.len() == 0 {
            "0"@
        } else {
            m.frac.frac_digits
        })
    } else {
        "MJD "@ + nat_text(m.days as nat) + "+"@ + m.frac.text()
    }
}

/// A fraction written after the point alone lies below 1.
proof fn lemma_fraction_in_unit_interval(digits: Seq<char>)
    ensures
        in_unit_interval(numeral(false, Seq::empty(), digits, 0)),
{
    let v = numeral(false, Seq::empty(), digits, 0);
    assert(v.int_digits.len() == 0);
    assert(v.integer_digits() =~= Seq::<char>::empty());
}

impl View for Mjd {
    type V = MjdView;

    closed spec fn view(&self) -> MjdView {
        MjdView { days: self.days, frac: self.frac@ }
    }
}

impl Clone for Mjd {
    fn clone(&self) -> (r: Self)
        ensures
            r@ == self@,
    {
        proof {
            use_type_invariant(self);
        }
        Mjd { days: self.days, frac: self.frac.clone() }
    }
}

impl Mjd {
    #[verifier::type_invariant]
    spec fn well_formed(self) -> bool {
        in_unit_interval(self.frac@)
    }

    /// The date of `days` whole days and the fraction `frac` of a day.
    pub fn new(days: u32, frac: Decimal) -> (r: Self)
        requires
            in_unit_interval(frac@),
        ensures
            r@ == (MjdView { days, frac: frac@ }),
    {
        Self { days, frac }
    }

    /// Whether `frac` can be the fraction of a day in a date.
    pub fn is_day_fraction(frac: &Decimal) -> (r: bool)
        ensures
            r == in_unit_interval(frac@),
    {
        !frac.is_negative() && frac.integer_part_below(1)
    }

    /// The whole days.
    pub fn days(&self) -> (r: u32)
        ensures
            r == self@.days,
    {
        self.days
    }

    /// The fraction of a day.
    pub fn fraction(&self) -> (r: &Decimal)
        ensures
            r@ == self@.frac,
            in_unit_interval(r@),
    {
        proof {
            use_type_invariant(self);
        }
        &self.frac
    }

    /// Reads a date from a token. Anything but digits, or digits, a point
    /// and digits, is reported as unparsable, and so are days that do not
    /// fit in 32 bits.
    pub fn from_str(s: &str) -> (r: Result<Self, PsruError>)
        ensures
            match parse_mjd_text(s@) {
                Some(v) => r is Ok && r->Ok_0@ == v,
                None => r is Err && r->Err_0@ == unparsable(s@, "MJD"@),
            },
    {
        let chars = chars_of(s);
        let n = chars.len();
        let b = scan_digits(&chars, 0);
        if b == 0 {
            return Err(PsruError::Unparsable { value: s.to_owned(), to_type: "MJD" });
        }
        let day_chars = chars_of(s.substring_char(0, b));
        assert(day_chars@.skip(0) =~= s@.take(b as int));
        assert(s@.subrange(0, b as int) =~= s@.take(b as int));
        let days = match parse_digits(&day_chars, 0, 4294967295) {
            Some(n) => n as u32,
            None => {
                return Err(PsruError::Unparsable { value: s.to_owned(), to_type: "MJD" });
            },
        };
        if b >= n {
            return Ok(Self { days, frac: Decimal::zero() });
        }
        if chars[b] != '.' {
            return Err(PsruError::Unparsable { value: s.to_owned(), to_type: "MJD" });
        }
        let d = scan_digits(&chars, b + 1);
        if d == b + 1 || d < n {
            return Err(PsruError::Unparsable { value: s.to_owned(), to_type: "MJD" });
        }
        proof {
            assert(s@.subrange(b + 1, d as int) =~= s@.skip(b + 1));
            reveal_strlit("");
            assert(""@ =~= Seq::<char>::empty());
            lemma_fraction_in_unit_interval(s@.skip(b + 1));
        }
        let frac = Decimal::from_parts(false, "", s.substring_char(b + 1, n), 0);
        Ok(Self { days, frac })
    }

    /// The date as it reads.
    pub fn to_text(&self) -> (s: String)
        ensures
            s@ == mjd_text(self@),
    {
        let mut s = "MJD ".to_owned();
        let days = u64_text(self.days as u64);
        s.append(days.as_str());
        let (plain, digits) = self.frac.plain_fraction();
        if plain {
            s.append(".");
            if digits.as_str().unicode_len() == 0 {
                s.append("0");
            } else {
                s.append(digits.as_str());
            }
        } else {
            s.append("+");
            let rest = self.frac.to_text();
            s.append(rest.as_str());
        }
        s
    }
}

impl FromStr for Mjd {
    type Err = PsruError;

    /// Reads a date from a token, as the function of this name on the type
    /// itself does.
    fn from_str(s: &str) -> (r: Result<Self, Self::Err>)
        ensures
            match parse_mjd_text(s@) {
                Some(v) => r is Ok && r->Ok_0@ == v,
                None => r is Err && r->Err_0@ == unparsable(s@, "MJD"@),
            },
    {
        Mjd::from_str(s)
    }
}

} // verus!
