//! The values that the files hold: exact decimal numbers, celestial
//! coordinates and dates.

use vstd::prelude::*;

mod decimal;
mod decimal_laws;
mod j2000;
mod mjd;

pub use decimal::{
    digit_run, frac_end, frac_start, has_point, int_end, int_start, is_numeral_char, leading_zeros,
    lemma_decimal_text_chars, lemma_decimal_text_parses, lemma_digit_run, lemma_digit_run_digits,
    lemma_numeral_wf, lemma_parse_decimal_wf, numeral, parse_decimal, parse_decimal_text,
    parse_exponent, trailing_zeros, Decimal, DecimalView,
};
pub use decimal_laws::{
    lemma_digits_value_bound, lemma_digits_value_split, lemma_digits_value_zeros,
    lemma_integer_part, lemma_integer_part_of_significant, lemma_is_zero, lemma_pow10,
    lemma_pow10_add, lemma_same_number, lemma_same_number_is_same_value, lemma_significant, pow10,
    same_value, scaled_down,
};
pub use j2000::{
    coord_fields, coord_text, dec_valid, lemma_coord_text_parses, lemma_dec_text_bounds,
    lemma_parse_coord_wf, lemma_valid_ra_parses, parse_coord_text, parse_dec_text, parse_ra_text,
    ra_valid, sexagesimal, CoordKind, CoordView, DECCoordType, J2000Coord, J2000Dec, J2000Ra,
    RACoordType,
};
pub use mjd::{in_unit_interval, mjd_text, parse_mjd_text, Mjd, MjdView};

verus! {

/// The views of the items of a sequence.
pub open spec fn views<T: View>(items: Seq<T>) -> Seq<T::V> {
    Seq::new(items.len(), |i: int| items[i]@)
}

} // verus!
