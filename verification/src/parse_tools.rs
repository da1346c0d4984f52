//! Tokens to values: numbers, counts and yes-or-no switches, each with the
//! same report where the token is of another kind.

use vstd::prelude::*;
use crate::data_types::{parse_decimal, parse_decimal_text, Decimal};
use crate::error::{ErrorView, PsruError};
use crate::text::{chars_of, parse_unsigned, parse_unsigned_chars};

verus! {

/// The report that `value` is not of the kind `to_type`.
pub open spec fn unparsable(value: Seq<char>, to_type: Seq<char>) -> ErrorView {
    ErrorView::Unparsable { value, to_type }
}

/// The count that a token spells, where it fits in 32 bits.
pub open spec fn parse_u32_text(s: Seq<char>) -> Option<u32> {
    match parse_unsigned(s) {
        Some(n) => if n <= u32::MAX {
            Some(n as u32)
        } else {
            None
        },
        None => None,
    }
}

/// The switch that a token spells: `1`, `Y` or `y` for on; `0`, `N` or `n`
/// for off.
pub open spec fn parse_bool_text(s: Seq<char>) -> Option<bool> {
    if s.len() != 1 {
        None
    } else if s[0] == '1' || s[0] == 'Y' || s[0] == 'y' {
        Some(true)
    } else if s[0] == '0' || s[0] == 'N' || s[0] == 'n' {
        Some(false)
    } else {
        None
    }
}

/// Reads a token as a double-precision number, held as the decimal number
/// that the token spells.
pub fn parse_f64(value: &str) -> (r: Result<Decimal, PsruError>)
    ensures
        match parse_decimal_text(value@) {
            Some(v) => r is Ok && r->Ok_0@ == v,
            None => r is Err && r->Err_0@ == unparsable(value@, "double"@),
        },
{
    match parse_decimal(value) {
        Some(d) => Ok(d),
        None => Err(PsruError::Unparsable { value: value.to_owned(), to_type: "double" }),
    }
}

/// Reads a token as a count.
pub fn parse_u32(value: &str) -> (r: Result<u32, PsruError>)
    ensures
        match parse_u32_text(value@) {
            Some(n) => r is Ok && r->Ok_0 == n,
            None => r is Err && r->Err_0@ == unparsable(value@, "integer"@),
        },
{
    let chars = chars_of(value);
    assert(chars@.skip(0) =~= value@);
    match parse_unsigned_chars(&chars, 0, 4294967295) {
        Some(n) => Ok(n as u32),
        None => Err(PsruError::Unparsable { value: value.to_owned(), to_type: "integer" }),
    }
}

/// Reads a token as a switch.
pub fn parse_bool(value: &str) -> (r: Result<bool, PsruError>)
    ensures
        match parse_bool_text(value@) {
            Some(b) => r is Ok && r->Ok_0 == b,
            None => r is Err && r->Err_0@ == unparsable(value@, "bool"@),
        },
{
    let chars = chars_of(value);
    if chars.len() == 1 {
        let c = chars[0];
        if c == '1' || c == 'Y' || c == 'y' {
            return Ok(true);
        }
        if c == '0' || c == 'N' || c == 'n' {
            return Ok(false);
        }
    }
    Err(PsruError::Unparsable { value: value.to_owned(), to_type: "bool" })
}

} // verus!
