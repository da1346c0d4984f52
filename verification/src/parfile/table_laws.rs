//! What the tables hold, as far as the reading of written lines needs it:
//! no name of one table is a key of a table that is looked at before it, no
//! name is an alias, and no name looks like the key of a glitch, a jump, a
//! coordinate or a keyword.

use vstd::prelude::*;
use super::glitch::{glitch_field, glitch_key};
use super::tables::{
    coord_rows, count_rows, find_row, flag_rows, float_rows, float_rows_part_1, float_rows_part_2,
    float_rows_part_3, float_rows_part_4, float_rows_part_5, float_rows_part_6,
    lemma_find_row_append, lemma_find_row_member, text_rows, ParamRow,
};
use crate::text::{ascii_upper, is_word, upper_text};

verus! {

/// Whether a key is one of the spellings of a coordinate.
pub open spec fn is_coord_key(key: Seq<char>) -> bool {
    ||| key == "RA"@
    ||| key == "RAJ"@
    ||| key == "DEC"@
    ||| key == "DECJ"@
}

/// Whether a key is one of the keywords of the closed vocabularies.
pub open spec fn is_keyword(key: Seq<char>) -> bool {
    ||| key == "TIMEEPH"@
    ||| key == "MODEL"@
    ||| key == "T2CMETHOD"@
    ||| key == "UNITS"@
    ||| key == "MODE"@
}

/// Whether a key is one of the spellings of a switch.
pub open spec fn is_flag_key(key: Seq<char>) -> bool {
    ||| key == "TEMPO1"@
    ||| key == "NOTRACK"@
    ||| key == "NO_SS_SHAPIRO"@
    ||| key == "IPM"@
    ||| key == "DILATE_FREQ"@
    ||| key == "PLANET_SHAPIRO"@
    ||| key == "CORRECT_TROPOSPHERE"@
    ||| key == "DILATEFREQ"@
}

/// Whether a key is one of the spellings of a count.
pub open spec fn is_count_key(key: Seq<char>) -> bool {
    ||| key == "NITS"@
    ||| key == "IBOOT"@
    ||| key == "NTOA"@
}

/// Whether a key is an alias of a text parameter, and not its name.
pub open spec fn is_text_alias(key: Seq<char>) -> bool {
    ||| key == "PSRJ"@
    ||| key == "PSRB"@
    ||| key == "TSPAN"@
}

/// Whether a key is an alias of a number parameter, and not its name.
pub open spec fn is_float_alias(key: Seq<char>) -> bool {
    ||| key == "P"@
    ||| key == "PDOT"@
    ||| key == "LAMBDA"@
    ||| key == "BETA"@
    ||| key == "PMELONG"@
    ||| key == "PMELAT"@
    ||| key == "PBDOT"@
    ||| key == "E"@
    ||| key == "XDOT"@
    ||| key == "EDOT"@
}

/// Whether a key is spelled by one of the rows 1 to 16 of the table of numbers.
pub open spec fn is_float_key_1(key: Seq<char>) -> bool {
    ||| key == "F0"@
    ||| key == "F1"@
    ||| key == "F2"@
    ||| key == "F3"@
    ||| key == "F4"@
    ||| key == "F5"@
    ||| key == "F6"@
    ||| key == "P0"@
    ||| key == "P"@
    ||| key == "P1"@
    ||| key == "PDOT"@
    ||| key == "PEPOCH"@
    ||| key == "ELONG"@
    ||| key == "LAMBDA"@
    ||| key == "ELAT"@
    ||| key == "BETA"@
}

/// Whether a key is spelled by one of the rows 17 to 32 of the table of numbers.
pub open spec fn is_float_key_2(key: Seq<char>) -> bool {
    ||| key == "POSEPOCH"@
    ||| key == "PMLAMBDA"@
    ||| key == "PMELONG"@
    ||| key == "PMBETA"@
    ||| key == "PMELAT"@
    ||| key == "PMRA"@
    ||| key == "PMDEC"@
    ||| key == "DMEPOCH"@
    ||| key == "DM"@
    ||| key == "DM1"@
    ||| key == "DM2"@
    ||| key == "DM3"@
    ||| key == "DM4"@
    ||| key == "DM5"@
    ||| key == "DM6"@
    ||| key == "FDD"@
}

/// Whether a key is spelled by one of the rows 33 to 48 of the table of numbers.
pub open spec fn is_float_key_3(key: Seq<char>) -> bool {
    ||| key == "PX"@
    ||| key == "PMRV"@
    ||| key == "WAVE_OM"@
    ||| key == "WAVE1"@
    ||| key == "WAVE2"@
    ||| key == "WAVE3"@
    ||| key == "WAVE4"@
    ||| key == "WAVE5"@
    ||| key == "WAVE6"@
    ||| key == "TRES"@
    ||| key == "NE1AU"@
    ||| key == "TZRMJD"@
    ||| key == "TZRFRQ"@
    ||| key == "START"@
    ||| key == "FINISH"@
    ||| key == "A1"@
}

/// Whether a key is spelled by one of the rows 49 to 64 of the table of numbers.
pub open spec fn is_float_key_4(key: Seq<char>) -> bool {
    ||| key == "PB"@
    ||| key == "P1"@
    ||| key == "PBDOT"@
    ||| key == "PB2"@
    ||| key == "PB3"@
    ||| key == "PB5"@
    ||| key == "PB6"@
    ||| key == "ECC"@
    ||| key == "E"@
    ||| key == "T0"@
    ||| key == "OM"@
    ||| key == "TASC"@
    ||| key == "EPS1"@
    ||| key == "EPS2"@
    ||| key == "OMDOT"@
}

/// Whether a key is spelled by one of the rows 65 to 80 of the table of numbers.
pub open spec fn is_float_key_5(key: Seq<char>) -> bool {
    ||| key == "A1DOT"@
    ||| key == "XDOT"@
    ||| key == "SINI"@
    ||| key == "M2"@
    ||| key == "XPBDOT"@
    ||| key == "ECCDOT"@
    ||| key == "EDOT"@
    ||| key == "GAMMA"@
    ||| key == "DR"@
    ||| key == "DTH"@
    ||| key == "A0"@
    ||| key == "B0"@
    ||| key == "BP"@
    ||| key == "BPP"@
    ||| key == "DTHETA"@
    ||| key == "XOMDOT"@
}

/// Whether a key is spelled by one of the rows 81 to 88 of the table of numbers.
pub open spec fn is_float_key_6(key: Seq<char>) -> bool {
    ||| key == "EPS1DOT"@
    ||| key == "EPS2DOT"@
    ||| key == "KOM"@
    ||| key == "KIN"@
    ||| key == "SHAPMAX"@
    ||| key == "MTOT"@
    ||| key == "NE_SW"@
    ||| key == "CHI2R"@
}

/// Whether a key is one of the spellings of a number parameter.
pub open spec fn is_float_key(key: Seq<char>) -> bool {
    ||| is_float_key_1(key)
    ||| is_float_key_2(key)
    ||| is_float_key_3(key)
    ||| is_float_key_4(key)
    ||| is_float_key_5(key)
    ||| is_float_key_6(key)
}

/// Whether a key starts as the keys of a glitch do, whatever the case of
/// its letters.
pub open spec fn starts_like_glitch(key: Seq<char>) -> bool {
    key.len() >= 2 && ascii_upper(key[0]) == 'G' && ascii_upper(key[1]) == 'L'
}

/// A key that is free for the tables: a word that does not start as the key
/// of a glitch does, and is not `JUMP`, nor a coordinate, nor a keyword.
pub open spec fn free_key(key: Seq<char>) -> bool {
    &&& is_word(key)
    &&& !starts_like_glitch(key)
    &&& key != "JUMP"@
    &&& !is_coord_key(key)
    &&& !is_keyword(key)
}

/// Whether `name` is the name of a row of the table.
pub open spec fn named_in(rows: Seq<ParamRow>, name: Seq<char>) -> bool {
    exists|i: int| 0 <= i < rows.len() && (#[trigger] rows[i]).name@ == name
}

/// The key of a glitch starts with `GL`, in either case.
pub proof fn lemma_glitch_key_start(key: Seq<char>)
    ensures
        glitch_key(key) is Some ==> starts_like_glitch(key),
{
    reveal_strlit("GLEP");
    reveal_strlit("GLPH");
    reveal_strlit("GLF0");
    reveal_strlit("GLF1");
    reveal_strlit("GLF0D");
    reveal_strlit("GLTD");
    if glitch_key(key) is Some {
        let p = crate::text::span_len(key, '_', 0) as int;
        let prefix = key.take(p);
        let upper = upper_text(prefix);
        assert(glitch_field(prefix) is Some);
        assert(upper.len() >= 4);
        assert(upper[0] == 'G');
        assert(upper[1] == 'L');
        assert(prefix[0] == key[0]);
        assert(prefix[1] == key[1]);
    }
}

/// A key that the table of coordinates holds is one of its spellings.
pub proof fn lemma_coord_keys_found(key: Seq<char>)
    ensures
        find_row(coord_rows(), key) is Some ==> is_coord_key(key),
{
    let rows = coord_rows();
    lemma_find_row_member(rows, key);
    assert(rows.len() == 4);
    if find_row(rows, key) is Some {
        let row = find_row(rows, key)->0;
        let i = choose|i: int| 0 <= i < rows.len() && #[trigger] rows[i] == row;
        if i == 0 {
            assert(rows[0] == row);
        }         else if i == 1 {
            assert(rows[1] == row);
        }         else if i == 2 {
            assert(rows[2] == row);
        }         else if i == 3 {
            assert(rows[3] == row);
        }
    }
}

/// A key that the table of switches holds is one of its spellings.
pub proof fn lemma_flag_keys_found(key: Seq<char>)
    ensures
        find_row(flag_rows(), key) is Some ==> is_flag_key(key),
{
    let rows = flag_rows();
    lemma_find_row_member(rows, key);
    assert(rows.len() == 8);
    if find_row(rows, key) is Some {
        let row = find_row(rows, key)->0;
        let i = choose|i: int| 0 <= i < rows.len() && #[trigger] rows[i] == row;
        if i == 0 {
            assert(rows[0] == row);
        }         else if i == 1 {
            assert(rows[1] == row);
        }         else if i == 2 {
            assert(rows[2] == row);
        }         else if i == 3 {
            assert(rows[3] == row);
        }         else if i == 4 {
            assert(rows[4] == row);
        }         else if i == 5 {
            assert(rows[5] == row);
        }         else if i == 6 {
            assert(rows[6] == row);
        }         else if i == 7 {
            assert(rows[7] == row);
        }
    }
}

/// A key that the table of counts holds is one of its spellings.
pub proof fn lemma_count_keys_found(key: Seq<char>)
    ensures
        find_row(count_rows(), key) is Some ==> is_count_key(key),
{
    let rows = count_rows();
    lemma_find_row_member(rows, key);
    assert(rows.len() == 3);
    if find_row(rows, key) is Some {
        let row = find_row(rows, key)->0;
        let i = choose|i: int| 0 <= i < rows.len() && #[trigger] rows[i] == row;
        if i == 0 {
            assert(rows[0] == row);
        }         else if i == 1 {
            assert(rows[1] == row);
        }         else if i == 2 {
            assert(rows[2] == row);
        }
    }
}

/// What holds of every row of the table of numbers: its name is free for
/// the tables, no switch and no alias; and its key is the name or an alias.
pub open spec fn number_row_ok(row: ParamRow) -> bool {
    &&& free_key(row.name@)
    &&& !is_flag_key(row.name@)
    &&& !is_float_alias(row.name@)
    &&& (row.key@ == row.name@ || is_float_alias(row.key@))
}

/// What holds of every row of the table of counts: its name is free for
/// the tables, and neither a switch nor a number; and its key is the name.
pub open spec fn count_row_ok(row: ParamRow) -> bool {
    &&& free_key(row.name@)
    &&& !is_flag_key(row.name@)
    &&& !is_float_key(row.name@)
    &&& row.key@ == row.name@
}

/// What holds of every row of the table of texts: its name is free for the
/// tables, neither a switch nor a number nor a count, and no alias; and its
/// key is the name or an alias.
pub open spec fn text_row_ok(row: ParamRow) -> bool {
    &&& free_key(row.name@)
    &&& !is_flag_key(row.name@)
    &&& !is_float_key(row.name@)
    &&& !is_count_key(row.name@)
    &&& !is_text_alias(row.name@)
    &&& (row.key@ == row.name@ || is_text_alias(row.key@))
}

/// What holds of every row of the table of switches: its name is free for
/// the tables, and its key is the name.
pub open spec fn flag_row_ok(row: ParamRow) -> bool {
    &&& free_key(row.name@)
    &&& row.key@ == row.name@
}

/// Whether some row of the table spells `key`.
pub open spec fn keyed_in(rows: Seq<ParamRow>, key: Seq<char>) -> bool {
    exists|i: int| 0 <= i < rows.len() && (#[trigger] rows[i]).key@ == key
}

/// Rows 1 to 16 of the table of numbers are as every row of it has to be.
proof fn lemma_float_rows_1_ok()
    ensures
        forall|i: int|
            0 <= i < float_rows_part_1().len() ==> number_row_ok(#[trigger] float_rows_part_1()[i]) && keyed_in(
                float_rows_part_1(),
                float_rows_part_1()[i].name@,
            ),
{
    reveal_strlit("JUMP");
    reveal_strlit("RA");
    reveal_strlit("RAJ");
    reveal_strlit("DEC");
    reveal_strlit("DECJ");
    reveal_strlit("TIMEEPH");
    reveal_strlit("MODEL");
    reveal_strlit("T2CMETHOD");
    reveal_strlit("UNITS");
    reveal_strlit("MODE");
    reveal_strlit("TEMPO1");
    reveal_strlit("NOTRACK");
    reveal_strlit("NO_SS_SHAPIRO");
    reveal_strlit("IPM");
    reveal_strlit("DILATE_FREQ");
    reveal_strlit("PLANET_SHAPIRO");
    reveal_strlit("CORRECT_TROPOSPHERE");
    reveal_strlit("DILATEFREQ");
    reveal_strlit("P");
    reveal_strlit("PDOT");
    reveal_strlit("LAMBDA");
    reveal_strlit("BETA");
    reveal_strlit("PMELONG");
    reveal_strlit("PMELAT");
    reveal_strlit("PBDOT");
    reveal_strlit("E");
    reveal_strlit("XDOT");
    reveal_strlit("EDOT");
    reveal_strlit("F0");
    reveal_strlit("F1");
    reveal_strlit("F2");
    reveal_strlit("F3");
    reveal_strlit("F4");
    reveal_strlit("F5");
    reveal_strlit("F6");
    reveal_strlit("P0");
    reveal_strlit("P1");
    reveal_strlit("PEPOCH");
    reveal_strlit("ELONG");
    reveal_strlit("ELAT");
    assert("JUMP"@.len() == 4 && "JUMP"@[0] == 'J' && "JUMP"@[1] == 'U' && "JUMP"@[2] == 'M'
        && "JUMP"@[3] == 'P');
    assert("RA"@.len() == 2 && "RA"@[0] == 'R' && "RA"@[1] == 'A');
    assert("RAJ"@.len() == 3 && "RAJ"@[0] == 'R' && "RAJ"@[1] == 'A' && "RAJ"@[2] == 'J');
    assert("DEC"@.len() == 3 && "DEC"@[0] == 'D' && "DEC"@[1] == 'E' && "DEC"@[2] == 'C');
    assert("DECJ"@.len() == 4 && "DECJ"@[0] == 'D' && "DECJ"@[1] == 'E' && "DECJ"@[2] == 'C'
        && "DECJ"@[3] == 'J');
    assert("TIMEEPH"@.len() == 7 && "TIMEEPH"@[0] == 'T' && "TIMEEPH"@[1] == 'I'
        && "TIMEEPH"@[2] == 'M' && "TIMEEPH"@[3] == 'E' && "TIMEEPH"@[4] == 'E'
        && "TIMEEPH"@[5] == 'P' && "TIMEEPH"@[6] == 'H');
    assert("MODEL"@.len() == 5 && "MODEL"@[0] == 'M' && "MODEL"@[1] == 'O' && "MODEL"@[2] == 'D'
        && "MODEL"@[3] == 'E' && "MODEL"@[4] == 'L');
    assert("T2CMETHOD"@.len() == 9 && "T2CMETHOD"@[0] == 'T' && "T2CMETHOD"@[1] == '2'
        && "T2CMETHOD"@[2] == 'C' && "T2CMETHOD"@[3] == 'M' && "T2CMETHOD"@[4] == 'E'
        && "T2CMETHOD"@[5] == 'T' && "T2CMETHOD"@[6] == 'H' && "T2CMETHOD"@[7] == 'O'
        && "T2CMETHOD"@[8] == 'D');
    assert("UNITS"@.len() == 5 && "UNITS"@[0] == 'U' && "UNITS"@[1] == 'N' && "UNITS"@[2] == 'I'
        && "UNITS"@[3] == 'T' && "UNITS"@[4] == 'S');
    assert("MODE"@.len() == 4 && "MODE"@[0] == 'M' && "MODE"@[1] == 'O' && "MODE"@[2] == 'D'
        && "MODE"@[3] == 'E');
    assert("TEMPO1"@.len() == 6 && "TEMPO1"@[0] == 'T' && "TEMPO1"@[1] == 'E'
        && "TEMPO1"@[2] == 'M' && "TEMPO1"@[3] == 'P' && "TEMPO1"@[4] == 'O'
        && "TEMPO1"@[5] == '1');
    assert("NOTRACK"@.len() == 7 && "NOTRACK"@[0] == 'N' && "NOTRACK"@[1] == 'O'
        && "NOTRACK"@[2] == 'T' && "NOTRACK"@[3] == 'R' && "NOTRACK"@[4] == 'A'
        && "NOTRACK"@[5] == 'C' && "NOTRACK"@[6] == 'K');
    assert("NO_SS_SHAPIRO"@.len() == 13 && "NO_SS_SHAPIRO"@[0] == 'N'
        && "NO_SS_SHAPIRO"@[1] == 'O' && "NO_SS_SHAPIRO"@[2] == '_'
        && "NO_SS_SHAPIRO"@[3] == 'S' && "NO_SS_SHAPIRO"@[4] == 'S'
        && "NO_SS_SHAPIRO"@[5] == '_' && "NO_SS_SHAPIRO"@[6] == 'S'
        && "NO_SS_SHAPIRO"@[7] == 'H' && "NO_SS_SHAPIRO"@[8] == 'A'
        && "NO_SS_SHAPIRO"@[9] == 'P' && "NO_SS_SHAPIRO"@[10] == 'I'
        && "NO_SS_SHAPIRO"@[11] == 'R' && "NO_SS_SHAPIRO"@[12] == 'O');
    assert("IPM"@.len() == 3 && "IPM"@[0] == 'I' && "IPM"@[1] == 'P' && "IPM"@[2] == 'M');
    assert("DILATE_FREQ"@.len() == 11 && "DILATE_FREQ"@[0] == 'D' && "DILATE_FREQ"@[1] == 'I'
        && "DILATE_FREQ"@[2] == 'L' && "DILATE_FREQ"@[3] == 'A' && "DILATE_FREQ"@[4] == 'T'
        && "DILATE_FREQ"@[5] == 'E' && "DILATE_FREQ"@[6] == '_' && "DILATE_FREQ"@[7] == 'F'
        && "DILATE_FREQ"@[8] == 'R' && "DILATE_FREQ"@[9] == 'E' && "DILATE_FREQ"@[10] == 'Q');
    assert("PLANET_SHAPIRO"@.len() == 14 && "PLANET_SHAPIRO"@[0] == 'P'
        && "PLANET_SHAPIRO"@[1] == 'L' && "PLANET_SHAPIRO"@[2] == 'A'
        && "PLANET_SHAPIRO"@[3] == 'N' && "PLANET_SHAPIRO"@[4] == 'E'
        && "PLANET_SHAPIRO"@[5] == 'T' && "PLANET_SHAPIRO"@[6] == '_'
        && "PLANET_SHAPIRO"@[7] == 'S' && "PLANET_SHAPIRO"@[8] == 'H'
        && "PLANET_SHAPIRO"@[9] == 'A' && "PLANET_SHAPIRO"@[10] == 'P'
        && "PLANET_SHAPIRO"@[11] == 'I' && "PLANET_SHAPIRO"@[12] == 'R'
        && "PLANET_SHAPIRO"@[13] == 'O');
    assert("CORRECT_TROPOSPHERE"@.len() == 19 && "CORRECT_TROPOSPHERE"@[0] == 'C'
        && "CORRECT_TROPOSPHERE"@[1] == 'O' && "CORRECT_TROPOSPHERE"@[2] == 'R'
        && "CORRECT_TROPOSPHERE"@[3] == 'R' && "CORRECT_TROPOSPHERE"@[4] == 'E'
        && "CORRECT_TROPOSPHERE"@[5] == 'C' && "CORRECT_TROPOSPHERE"@[6] == 'T'
        && "CORRECT_TROPOSPHERE"@[7] == '_' && "CORRECT_TROPOSPHERE"@[8] == 'T'
        && "CORRECT_TROPOSPHERE"@[9] == 'R' && "CORRECT_TROPOSPHERE"@[10] == 'O'
        && "CORRECT_TROPOSPHERE"@[11] == 'P' && "CORRECT_TROPOSPHERE"@[12] == 'O'
        && "CORRECT_TROPOSPHERE"@[13] == 'S' && "CORRECT_TROPOSPHERE"@[14] == 'P'
        && "CORRECT_TROPOSPHERE"@[15] == 'H' && "CORRECT_TROPOSPHERE"@[16] == 'E'
        && "CORRECT_TROPOSPHERE"@[17] == 'R' && "CORRECT_TROPOSPHERE"@[18] == 'E');
    assert("DILATEFREQ"@.len() == 10 && "DILATEFREQ"@[0] == 'D' && "DILATEFREQ"@[1] == 'I'
        && "DILATEFREQ"@[2] == 'L' && "DILATEFREQ"@[3] == 'A' && "DILATEFREQ"@[4] == 'T'
        && "DILATEFREQ"@[5] == 'E' && "DILATEFREQ"@[6] == 'F' && "DILATEFREQ"@[7] == 'R'
        && "DILATEFREQ"@[8] == 'E' && "DILATEFREQ"@[9] == 'Q');
    assert("P"@.len() == 1 && "P"@[0] == 'P');
    assert("PDOT"@.len() == 4 && "PDOT"@[0] == 'P' && "PDOT"@[1] == 'D' && "PDOT"@[2] == 'O'
        && "PDOT"@[3] == 'T');
    assert("LAMBDA"@.len() == 6 && "LAMBDA"@[0] == 'L' && "LAMBDA"@[1] == 'A'
        && "LAMBDA"@[2] == 'M' && "LAMBDA"@[3] == 'B' && "LAMBDA"@[4] == 'D'
        && "LAMBDA"@[5] == 'A');
    assert("BETA"@.len() == 4 && "BETA"@[0] == 'B' && "BETA"@[1] == 'E' && "BETA"@[2] == 'T'
        && "BETA"@[3] == 'A');
    assert("PMELONG"@.len() == 7 && "PMELONG"@[0] == 'P' && "PMELONG"@[1] == 'M'
        && "PMELONG"@[2] == 'E' && "PMELONG"@[3] == 'L' && "PMELONG"@[4] == 'O'
        && "PMELONG"@[5] == 'N' && "PMELONG"@[6] == 'G');
    assert("PMELAT"@.len() == 6 && "PMELAT"@[0] == 'P' && "PMELAT"@[1] == 'M'
        && "PMELAT"@[2] == 'E' && "PMELAT"@[3] == 'L' && "PMELAT"@[4] == 'A'
        && "PMELAT"@[5] == 'T');
    assert("PBDOT"@.len() == 5 && "PBDOT"@[0] == 'P' && "PBDOT"@[1] == 'B' && "PBDOT"@[2] == 'D'
        && "PBDOT"@[3] == 'O' && "PBDOT"@[4] == 'T');
    assert("E"@.len() == 1 && "E"@[0] == 'E');
    assert("XDOT"@.len() == 4 && "XDOT"@[0] == 'X' && "XDOT"@[1] == 'D' && "XDOT"@[2] == 'O'
        && "XDOT"@[3] == 'T');
    assert("EDOT"@.len() == 4 && "EDOT"@[0] == 'E' && "EDOT"@[1] == 'D' && "EDOT"@[2] == 'O'
        && "EDOT"@[3] == 'T');
    assert("F0"@.len() == 2 && "F0"@[0] == 'F' && "F0"@[1] == '0');
    assert("F1"@.len() == 2 && "F1"@[0] == 'F' && "F1"@[1] == '1');
    assert("F2"@.len() == 2 && "F2"@[0] == 'F' && "F2"@[1] == '2');
    assert("F3"@.len() == 2 && "F3"@[0] == 'F' && "F3"@[1] == '3');
    assert("F4"@.len() == 2 && "F4"@[0] == 'F' && "F4"@[1] == '4');
    assert("F5"@.len() == 2 && "F5"@[0] == 'F' && "F5"@[1] == '5');
    assert("F6"@.len() == 2 && "F6"@[0] == 'F' && "F6"@[1] == '6');
    assert("P0"@.len() == 2 && "P0"@[0] == 'P' && "P0"@[1] == '0');
    assert("P1"@.len() == 2 && "P1"@[0] == 'P' && "P1"@[1] == '1');
    assert("PEPOCH"@.len() == 6 && "PEPOCH"@[0] == 'P' && "PEPOCH"@[1] == 'E'
        && "PEPOCH"@[2] == 'P' && "PEPOCH"@[3] == 'O' && "PEPOCH"@[4] == 'C'
        && "PEPOCH"@[5] == 'H');
    assert("ELONG"@.len() == 5 && "ELONG"@[0] == 'E' && "ELONG"@[1] == 'L' && "ELONG"@[2] == 'O'
        && "ELONG"@[3] == 'N' && "ELONG"@[4] == 'G');
    assert("ELAT"@.len() == 4 && "ELAT"@[0] == 'E' && "ELAT"@[1] == 'L' && "ELAT"@[2] == 'A'
        && "ELAT"@[3] == 'T');
    let rows = float_rows_part_1();
    assert(rows.len() == 16);
    assert forall|i: int| 0 <= i < rows.len() implies number_row_ok(#[trigger] rows[i]) && keyed_in(
        rows,
        rows[i].name@,
    ) by {
        if i == 0 {
            assert(rows[0].key@ == "F0"@ && rows[0].name@ == "F0"@);
            assert(free_key("F0"@));
            assert(!is_flag_key("F0"@));
            assert(!is_float_alias("F0"@));
            assert(rows[0].key@ == "F0"@);
        }         else if i == 1 {
            assert(rows[1].key@ == "F1"@ && rows[1].name@ == "F1"@);
            assert(free_key("F1"@));
            assert(!is_flag_key("F1"@));
            assert(!is_float_alias("F1"@));
            assert(rows[1].key@ == "F1"@);
        }         else if i == 2 {
            assert(rows[2].key@ == "F2"@ && rows[2].name@ == "F2"@);
            assert(free_key("F2"@));
            assert(!is_flag_key("F2"@));
            assert(!is_float_alias("F2"@));
            assert(rows[2].key@ == "F2"@);
        }         else if i == 3 {
            assert(rows[3].key@ == "F3"@ && rows[3].name@ == "F3"@);
            assert(free_key("F3"@));
            assert(!is_flag_key("F3"@));
            assert(!is_float_alias("F3"@));
            assert(rows[3].key@ == "F3"@);
        }         else if i == 4 {
            assert(rows[4].key@ == "F4"@ && rows[4].name@ == "F4"@);
            assert(free_key("F4"@));
            assert(!is_flag_key("F4"@));
            assert(!is_float_alias("F4"@));
            assert(rows[4].key@ == "F4"@);
        }         else if i == 5 {
            assert(rows[5].key@ == "F5"@ && rows[5].name@ == "F5"@);
            assert(free_key("F5"@));
            assert(!is_flag_key("F5"@));
            assert(!is_float_alias("F5"@));
            assert(rows[5].key@ == "F5"@);
        }         else if i == 6 {
            assert(rows[6].key@ == "F6"@ && rows[6].name@ == "F6"@);
            assert(free_key("F6"@));
            assert(!is_flag_key("F6"@));
            assert(!is_float_alias("F6"@));
            assert(rows[6].key@ == "F6"@);
        }         else if i == 7 {
            assert(rows[7].key@ == "P0"@ && rows[7].name@ == "P0"@);
            assert(free_key("P0"@));
            assert(!is_flag_key("P0"@));
            assert(!is_float_alias("P0"@));
            assert(rows[7].key@ == "P0"@);
        }         else if i == 8 {
            assert(rows[8].key@ == "P"@ && rows[8].name@ == "P0"@);
            assert(free_key("P0"@));
            assert(!is_flag_key("P0"@));
            assert(!is_float_alias("P0"@));
            assert(rows[7].key@ == "P0"@);
        }         else if i == 9 {
            assert(rows[9].key@ == "P1"@ && rows[9].name@ == "P1"@);
            assert(free_key("P1"@));
            assert(!is_flag_key("P1"@));
            assert(!is_float_alias("P1"@));
            assert(rows[9].key@ == "P1"@);
        }         else if i == 10 {
            assert(rows[10].key@ == "PDOT"@ && rows[10].name@ == "P1"@);
            assert(free_key("P1"@));
            assert(!is_flag_key("P1"@));
            assert(!is_float_alias("P1"@));
            assert(rows[9].key@ == "P1"@);
        }         else if i == 11 {
            assert(rows[11].key@ == "PEPOCH"@ && rows[11].name@ == "PEPOCH"@);
            assert(free_key("PEPOCH"@));
            assert(!is_flag_key("PEPOCH"@));
            assert(!is_float_alias("PEPOCH"@));
            assert(rows[11].key@ == "PEPOCH"@);
        }         else if i == 12 {
            assert(rows[12].key@ == "ELONG"@ && rows[12].name@ == "ELONG"@);
            assert(free_key("ELONG"@));
            assert(!is_flag_key("ELONG"@));
            assert(!is_float_alias("ELONG"@));
            assert(rows[12].key@ == "ELONG"@);
        }         else if i == 13 {
            assert(rows[13].key@ == "LAMBDA"@ && rows[13].name@ == "ELONG"@);
            assert(free_key("ELONG"@));
            assert(!is_flag_key("ELONG"@));
            assert(!is_float_alias("ELONG"@));
            assert(rows[12].key@ == "ELONG"@);
        }         else if i == 14 {
            assert(rows[14].key@ == "ELAT"@ && rows[14].name@ == "ELAT"@);
            assert(free_key("ELAT"@));
            assert(!is_flag_key("ELAT"@));
            assert(!is_float_alias("ELAT"@));
            assert(rows[14].key@ == "ELAT"@);
        }         else if i == 15 {
            assert(rows[15].key@ == "BETA"@ && rows[15].name@ == "ELAT"@);
            assert(free_key("ELAT"@));
            assert(!is_flag_key("ELAT"@));
            assert(!is_float_alias("ELAT"@));
            assert(rows[14].key@ == "ELAT"@);
        }
    }
}

/// Rows 17 to 32 of the table of numbers are as every row of it has to be.
proof fn lemma_float_rows_2_ok()
    ensures
        forall|i: int|
            0 <= i < float_rows_part_2().len() ==> number_row_ok(#[trigger] float_rows_part_2()[i]) && keyed_in(
                float_rows_part_2(),
                float_rows_part_2()[i].name@,
            ),
{
    reveal_strlit("JUMP");
    reveal_strlit("RA");
    reveal_strlit("RAJ");
    reveal_strlit("DEC");
    reveal_strlit("DECJ");
    reveal_strlit("TIMEEPH");
    reveal_strlit("MODEL");
    reveal_strlit("T2CMETHOD");
    reveal_strlit("UNITS");
    reveal_strlit("MODE");
    reveal_strlit("TEMPO1");
    reveal_strlit("NOTRACK");
    reveal_strlit("NO_SS_SHAPIRO");
    reveal_strlit("IPM");
    reveal_strlit("DILATE_FREQ");
    reveal_strlit("PLANET_SHAPIRO");
    reveal_strlit("CORRECT_TROPOSPHERE");
    reveal_strlit("DILATEFREQ");
    reveal_strlit("P");
    reveal_strlit("PDOT");
    reveal_strlit("LAMBDA");
    reveal_strlit("BETA");
    reveal_strlit("PMELONG");
    reveal_strlit("PMELAT");
    reveal_strlit("PBDOT");
    reveal_strlit("E");
    reveal_strlit("XDOT");
    reveal_strlit("EDOT");
    reveal_strlit("POSEPOCH");
    reveal_strlit("PMLAMBDA");
    reveal_strlit("PMBETA");
    reveal_strlit("PMRA");
    reveal_strlit("PMDEC");
    reveal_strlit("DMEPOCH");
    reveal_strlit("DM");
    reveal_strlit("DM1");
    reveal_strlit("DM2");
    reveal_strlit("DM3");
    reveal_strlit("DM4");
    reveal_strlit("DM5");
    reveal_strlit("DM6");
    reveal_strlit("FDD");
    assert("JUMP"@.len() == 4 && "JUMP"@[0] == 'J' && "JUMP"@[1] == 'U' && "JUMP"@[2] == 'M'
        && "JUMP"@[3] == 'P');
    assert("RA"@.len() == 2 && "RA"@[0] == 'R' && "RA"@[1] == 'A');
    assert("RAJ"@.len() == 3 && "RAJ"@[0] == 'R' && "RAJ"@[1] == 'A' && "RAJ"@[2] == 'J');
    assert("DEC"@.len() == 3 && "DEC"@[0] == 'D' && "DEC"@[1] == 'E' && "DEC"@[2] == 'C');
    assert("DECJ"@.len() == 4 && "DECJ"@[0] == 'D' && "DECJ"@[1] == 'E' && "DECJ"@[2] == 'C'
        && "DECJ"@[3] == 'J');
    assert("TIMEEPH"@.len() == 7 && "TIMEEPH"@[0] == 'T' && "TIMEEPH"@[1] == 'I'
        && "TIMEEPH"@[2] == 'M' && "TIMEEPH"@[3] == 'E' && "TIMEEPH"@[4] == 'E'
        && "TIMEEPH"@[5] == 'P' && "TIMEEPH"@[6] == 'H');
    assert("MODEL"@.len() == 5 && "MODEL"@[0] == 'M' && "MODEL"@[1] == 'O' && "MODEL"@[2] == 'D'
        && "MODEL"@[3] == 'E' && "MODEL"@[4] == 'L');
    assert("T2CMETHOD"@.len() == 9 && "T2CMETHOD"@[0] == 'T' && "T2CMETHOD"@[1] == '2'
        && "T2CMETHOD"@[2] == 'C' && "T2CMETHOD"@[3] == 'M' && "T2CMETHOD"@[4] == 'E'
        && "T2CMETHOD"@[5] == 'T' && "T2CMETHOD"@[6] == 'H' && "T2CMETHOD"@[7] == 'O'
        && "T2CMETHOD"@[8] == 'D');
    assert("UNITS"@.len() == 5 && "UNITS"@[0] == 'U' && "UNITS"@[1] == 'N' && "UNITS"@[2] == 'I'
        && "UNITS"@[3] == 'T' && "UNITS"@[4] == 'S');
    assert("MODE"@.len() == 4 && "MODE"@[0] == 'M' && "MODE"@[1] == 'O' && "MODE"@[2] == 'D'
        && "MODE"@[3] == 'E');
    assert("TEMPO1"@.len() == 6 && "TEMPO1"@[0] == 'T' && "TEMPO1"@[1] == 'E'
        && "TEMPO1"@[2] == 'M' && "TEMPO1"@[3] == 'P' && "TEMPO1"@[4] == 'O'
        && "TEMPO1"@[5] == '1');
    assert("NOTRACK"@.len() == 7 && "NOTRACK"@[0] == 'N' && "NOTRACK"@[1] == 'O'
        && "NOTRACK"@[2] == 'T' && "NOTRACK"@[3] == 'R' && "NOTRACK"@[4] == 'A'
        && "NOTRACK"@[5] == 'C' && "NOTRACK"@[6] == 'K');
    assert("NO_SS_SHAPIRO"@.len() == 13 && "NO_SS_SHAPIRO"@[0] == 'N'
        && "NO_SS_SHAPIRO"@[1] == 'O' && "NO_SS_SHAPIRO"@[2] == '_'
        && "NO_SS_SHAPIRO"@[3] == 'S' && "NO_SS_SHAPIRO"@[4] == 'S'
        && "NO_SS_SHAPIRO"@[5] == '_' && "NO_SS_SHAPIRO"@[6] == 'S'
        && "NO_SS_SHAPIRO"@[7] == 'H' && "NO_SS_SHAPIRO"@[8] == 'A'
        && "NO_SS_SHAPIRO"@[9] == 'P' && "NO_SS_SHAPIRO"@[10] == 'I'
        && "NO_SS_SHAPIRO"@[11] == 'R' && "NO_SS_SHAPIRO"@[12] == 'O');
    assert("IPM"@.len() == 3 && "IPM"@[0] == 'I' && "IPM"@[1] == 'P' && "IPM"@[2] == 'M');
    assert("DILATE_FREQ"@.len() == 11 && "DILATE_FREQ"@[0] == 'D' && "DILATE_FREQ"@[1] == 'I'
        && "DILATE_FREQ"@[2] == 'L' && "DILATE_FREQ"@[3] == 'A' && "DILATE_FREQ"@[4] == 'T'
        && "DILATE_FREQ"@[5] == 'E' && "DILATE_FREQ"@[6] == '_' && "DILATE_FREQ"@[7] == 'F'
        && "DILATE_FREQ"@[8] == 'R' && "DILATE_FREQ"@[9] == 'E' && "DILATE_FREQ"@[10] == 'Q');
    assert("PLANET_SHAPIRO"@.len() == 14 && "PLANET_SHAPIRO"@[0] == 'P'
        && "PLANET_SHAPIRO"@[1] == 'L' && "PLANET_SHAPIRO"@[2] == 'A'
        && "PLANET_SHAPIRO"@[3] == 'N' && "PLANET_SHAPIRO"@[4] == 'E'
        && "PLANET_SHAPIRO"@[5] == 'T' && "PLANET_SHAPIRO"@[6] == '_'
        && "PLANET_SHAPIRO"@[7] == 'S' && "PLANET_SHAPIRO"@[8] == 'H'
        && "PLANET_SHAPIRO"@[9] == 'A' && "PLANET_SHAPIRO"@[10] == 'P'
        && "PLANET_SHAPIRO"@[11] == 'I' && "PLANET_SHAPIRO"@[12] == 'R'
        && "PLANET_SHAPIRO"@[13] == 'O');
    assert("CORRECT_TROPOSPHERE"@.len() == 19 && "CORRECT_TROPOSPHERE"@[0] == 'C'
        && "CORRECT_TROPOSPHERE"@[1] == 'O' && "CORRECT_TROPOSPHERE"@[2] == 'R'
        && "CORRECT_TROPOSPHERE"@[3] == 'R' && "CORRECT_TROPOSPHERE"@[4] == 'E'
        && "CORRECT_TROPOSPHERE"@[5] == 'C' && "CORRECT_TROPOSPHERE"@[6] == 'T'
        && "CORRECT_TROPOSPHERE"@[7] == '_' && "CORRECT_TROPOSPHERE"@[8] == 'T'
        && "CORRECT_TROPOSPHERE"@[9] == 'R' && "CORRECT_TROPOSPHERE"@[10] == 'O'
        && "CORRECT_TROPOSPHERE"@[11] == 'P' && "CORRECT_TROPOSPHERE"@[12] == 'O'
        && "CORRECT_TROPOSPHERE"@[13] == 'S' && "CORRECT_TROPOSPHERE"@[14] == 'P'
        && "CORRECT_TROPOSPHERE"@[15] == 'H' && "CORRECT_TROPOSPHERE"@[16] == 'E'
        && "CORRECT_TROPOSPHERE"@[17] == 'R' && "CORRECT_TROPOSPHERE"@[18] == 'E');
    assert("DILATEFREQ"@.len() == 10 && "DILATEFREQ"@[0] == 'D' && "DILATEFREQ"@[1] == 'I'
        && "DILATEFREQ"@[2] == 'L' && "DILATEFREQ"@[3] == 'A' && "DILATEFREQ"@[4] == 'T'
        && "DILATEFREQ"@[5] == 'E' && "DILATEFREQ"@[6] == 'F' && "DILATEFREQ"@[7] == 'R'
        && "DILATEFREQ"@[8] == 'E' && "DILATEFREQ"@[9] == 'Q');
    assert("P"@.len() == 1 && "P"@[0] == 'P');
    assert("PDOT"@.len() == 4 && "PDOT"@[0] == 'P' && "PDOT"@[1] == 'D' && "PDOT"@[2] == 'O'
        && "PDOT"@[3] == 'T');
    assert("LAMBDA"@.len() == 6 && "LAMBDA"@[0] == 'L' && "LAMBDA"@[1] == 'A'
        && "LAMBDA"@[2] == 'M' && "LAMBDA"@[3] == 'B' && "LAMBDA"@[4] == 'D'
        && "LAMBDA"@[5] == 'A');
    assert("BETA"@.len() == 4 && "BETA"@[0] == 'B' && "BETA"@[1] == 'E' && "BETA"@[2] == 'T'
        && "BETA"@[3] == 'A');
    assert("PMELONG"@.len() == 7 && "PMELONG"@[0] == 'P' && "PMELONG"@[1] == 'M'
        && "PMELONG"@[2] == 'E' && "PMELONG"@[3] == 'L' && "PMELONG"@[4] == 'O'
        && "PMELONG"@[5] == 'N' && "PMELONG"@[6] == 'G');
    assert("PMELAT"@.len() == 6 && "PMELAT"@[0] == 'P' && "PMELAT"@[1] == 'M'
        && "PMELAT"@[2] == 'E' && "PMELAT"@[3] == 'L' && "PMELAT"@[4] == 'A'
        && "PMELAT"@[5] == 'T');
    assert("PBDOT"@.len() == 5 && "PBDOT"@[0] == 'P' && "PBDOT"@[1] == 'B' && "PBDOT"@[2] == 'D'
        && "PBDOT"@[3] == 'O' && "PBDOT"@[4] == 'T');
    assert("E"@.len() == 1 && "E"@[0] == 'E');
    assert("XDOT"@.len() == 4 && "XDOT"@[0] == 'X' && "XDOT"@[1] == 'D' && "XDOT"@[2] == 'O'
        && "XDOT"@[3] == 'T');
    assert("EDOT"@.len() == 4 && "EDOT"@[0] == 'E' && "EDOT"@[1] == 'D' && "EDOT"@[2] == 'O'
        && "EDOT"@[3] == 'T');
    assert("POSEPOCH"@.len() == 8 && "POSEPOCH"@[0] == 'P' && "POSEPOCH"@[1] == 'O'
        && "POSEPOCH"@[2] == 'S' && "POSEPOCH"@[3] == 'E' && "POSEPOCH"@[4] == 'P'
        && "POSEPOCH"@[5] == 'O' && "POSEPOCH"@[6] == 'C' && "POSEPOCH"@[7] == 'H');
    assert("PMLAMBDA"@.len() == 8 && "PMLAMBDA"@[0] == 'P' && "PMLAMBDA"@[1] == 'M'
        && "PMLAMBDA"@[2] == 'L' && "PMLAMBDA"@[3] == 'A' && "PMLAMBDA"@[4] == 'M'
        && "PMLAMBDA"@[5] == 'B' && "PMLAMBDA"@[6] == 'D' && "PMLAMBDA"@[7] == 'A');
    assert("PMBETA"@.len() == 6 && "PMBETA"@[0] == 'P' && "PMBETA"@[1] == 'M'
        && "PMBETA"@[2] == 'B' && "PMBETA"@[3] == 'E' && "PMBETA"@[4] == 'T'
        && "PMBETA"@[5] == 'A');
    assert("PMRA"@.len() == 4 && "PMRA"@[0] == 'P' && "PMRA"@[1] == 'M' && "PMRA"@[2] == 'R'
        && "PMRA"@[3] == 'A');
    assert("PMDEC"@.len() == 5 && "PMDEC"@[0] == 'P' && "PMDEC"@[1] == 'M' && "PMDEC"@[2] == 'D'
        && "PMDEC"@[3] == 'E' && "PMDEC"@[4] == 'C');
    assert("DMEPOCH"@.len() == 7 && "DMEPOCH"@[0] == 'D' && "DMEPOCH"@[1] == 'M'
        && "DMEPOCH"@[2] == 'E' && "DMEPOCH"@[3] == 'P' && "DMEPOCH"@[4] == 'O'
        && "DMEPOCH"@[5] == 'C' && "DMEPOCH"@[6] == 'H');
    assert("DM"@.len() == 2 && "DM"@[0] == 'D' && "DM"@[1] == 'M');
    assert("DM1"@.len() == 3 && "DM1"@[0] == 'D' && "DM1"@[1] == 'M' && "DM1"@[2] == '1');
    assert("DM2"@.len() == 3 && "DM2"@[0] == 'D' && "DM2"@[1] == 'M' && "DM2"@[2] == '2');
    assert("DM3"@.len() == 3 && "DM3"@[0] == 'D' && "DM3"@[1] == 'M' && "DM3"@[2] == '3');
    assert("DM4"@.len() == 3 && "DM4"@[0] == 'D' && "DM4"@[1] == 'M' && "DM4"@[2] == '4');
    assert("DM5"@.len() == 3 && "DM5"@[0] == 'D' && "DM5"@[1] == 'M' && "DM5"@[2] == '5');
    assert("DM6"@.len() == 3 && "DM6"@[0] == 'D' && "DM6"@[1] == 'M' && "DM6"@[2] == '6');
    assert("FDD"@.len() == 3 && "FDD"@[0] == 'F' && "FDD"@[1] == 'D' && "FDD"@[2] == 'D');
    let rows = float_rows_part_2();
    assert(rows.len() == 16);
    assert forall|i: int| 0 <= i < rows.len() implies number_row_ok(#[trigger] rows[i]) && keyed_in(
        rows,
        rows[i].name@,
    ) by {
        if i == 0 {
            assert(rows[0].key@ == "POSEPOCH"@ && rows[0].name@ == "POSEPOCH"@);
            assert(free_key("POSEPOCH"@));
            assert(!is_flag_key("POSEPOCH"@));
            assert(!is_float_alias("POSEPOCH"@));
            assert(rows[0].key@ == "POSEPOCH"@);
        }         else if i == 1 {
            assert(rows[1].key@ == "PMLAMBDA"@ && rows[1].name@ == "PMLAMBDA"@);
            assert(free_key("PMLAMBDA"@));
            assert(!is_flag_key("PMLAMBDA"@));
            assert(!is_float_alias("PMLAMBDA"@));
            assert(rows[1].key@ == "PMLAMBDA"@);
        }         else if i == 2 {
            assert(rows[2].key@ == "PMELONG"@ && rows[2].name@ == "PMLAMBDA"@);
            assert(free_key("PMLAMBDA"@));
            assert(!is_flag_key("PMLAMBDA"@));
            assert(!is_float_alias("PMLAMBDA"@));
            assert(rows[1].key@ == "PMLAMBDA"@);
        }         else if i == 3 {
            assert(rows[3].key@ == "PMBETA"@ && rows[3].name@ == "PMBETA"@);
            assert(free_key("PMBETA"@));
            assert(!is_flag_key("PMBETA"@));
            assert(!is_float_alias("PMBETA"@));
            assert(rows[3].key@ == "PMBETA"@);
        }         else if i == 4 {
            assert(rows[4].key@ == "PMELAT"@ && rows[4].name@ == "PMBETA"@);
            assert(free_key("PMBETA"@));
            assert(!is_flag_key("PMBETA"@));
            assert(!is_float_alias("PMBETA"@));
            assert(rows[3].key@ == "PMBETA"@);
        }         else if i == 5 {
            assert(rows[5].key@ == "PMRA"@ && rows[5].name@ == "PMRA"@);
            assert(free_key("PMRA"@));
            assert(!is_flag_key("PMRA"@));
            assert(!is_float_alias("PMRA"@));
            assert(rows[5].key@ == "PMRA"@);
        }         else if i == 6 {
            assert(rows[6].key@ == "PMDEC"@ && rows[6].name@ == "PMDEC"@);
            assert(free_key("PMDEC"@));
            assert(!is_flag_key("PMDEC"@));
            assert(!is_float_alias("PMDEC"@));
            assert(rows[6].key@ == "PMDEC"@);
        }         else if i == 7 {
            assert(rows[7].key@ == "DMEPOCH"@ && rows[7].name@ == "DMEPOCH"@);
            assert(free_key("DMEPOCH"@));
            assert(!is_flag_key("DMEPOCH"@));
            assert(!is_float_alias("DMEPOCH"@));
            assert(rows[7].key@ == "DMEPOCH"@);
        }         else if i == 8 {
            assert(rows[8].key@ == "DM"@ && rows[8].name@ == "DM"@);
            assert(free_key("DM"@));
            assert(!is_flag_key("DM"@));
            assert(!is_float_alias("DM"@));
            assert(rows[8].key@ == "DM"@);
        }         else if i == 9 {
            assert(rows[9].key@ == "DM1"@ && rows[9].name@ == "DM1"@);
            assert(free_key("DM1"@));
            assert(!is_flag_key("DM1"@));
            assert(!is_float_alias("DM1"@));
            assert(rows[9].key@ == "DM1"@);
        }         else if i == 10 {
            assert(rows[10].key@ == "DM2"@ && rows[10].name@ == "DM2"@);
            assert(free_key("DM2"@));
            assert(!is_flag_key("DM2"@));
            assert(!is_float_alias("DM2"@));
            assert(rows[10].key@ == "DM2"@);
        }         else if i == 11 {
            assert(rows[11].key@ == "DM3"@ && rows[11].name@ == "DM3"@);
            assert(free_key("DM3"@));
            assert(!is_flag_key("DM3"@));
            assert(!is_float_alias("DM3"@));
            assert(rows[11].key@ == "DM3"@);
        }         else if i == 12 {
            assert(rows[12].key@ == "DM4"@ && rows[12].name@ == "DM4"@);
            assert(free_key("DM4"@));
            assert(!is_flag_key("DM4"@));
            assert(!is_float_alias("DM4"@));
            assert(rows[12].key@ == "DM4"@);
        }         else if i == 13 {
            assert(rows[13].key@ == "DM5"@ && rows[13].name@ == "DM5"@);
            assert(free_key("DM5"@));
            assert(!is_flag_key("DM5"@));
            assert(!is_float_alias("DM5"@));
            assert(rows[13].key@ == "DM5"@);
        }         else if i == 14 {
            assert(rows[14].key@ == "DM6"@ && rows[14].name@ == "DM6"@);
            assert(free_key("DM6"@));
            assert(!is_flag_key("DM6"@));
            assert(!is_float_alias("DM6"@));
            assert(rows[14].key@ == "DM6"@);
        }         else if i == 15 {
            assert(rows[15].key@ == "FDD"@ && rows[15].name@ == "FDD"@);
            assert(free_key("FDD"@));
            assert(!is_flag_key("FDD"@));
            assert(!is_float_alias("FDD"@));
            assert(rows[15].key@ == "FDD"@);
        }
    }
}

/// Rows 33 to 48 of the table of numbers are as every row of it has to be.
proof fn lemma_float_rows_3_ok()
    ensures
        forall|i: int|
            0 <= i < float_rows_part_3().len() ==> number_row_ok(#[trigger] float_rows_part_3()[i]) && keyed_in(
                float_rows_part_3(),
                float_rows_part_3()[i].name@,
            ),
{
    reveal_strlit("JUMP");
    reveal_strlit("RA");
    reveal_strlit("RAJ");
    reveal_strlit("DEC");
    reveal_strlit("DECJ");
    reveal_strlit("TIMEEPH");
    reveal_strlit("MODEL");
    reveal_strlit("T2CMETHOD");
    reveal_strlit("UNITS");
    reveal_strlit("MODE");
    reveal_strlit("TEMPO1");
    reveal_strlit("NOTRACK");
    reveal_strlit("NO_SS_SHAPIRO");
    reveal_strlit("IPM");
    reveal_strlit("DILATE_FREQ");
    reveal_strlit("PLANET_SHAPIRO");
    reveal_strlit("CORRECT_TROPOSPHERE");
    reveal_strlit("DILATEFREQ");
    reveal_strlit("P");
    reveal_strlit("PDOT");
    reveal_strlit("LAMBDA");
    reveal_strlit("BETA");
    reveal_strlit("PMELONG");
    reveal_strlit("PMELAT");
    reveal_strlit("PBDOT");
    reveal_strlit("E");
    reveal_strlit("XDOT");
    reveal_strlit("EDOT");
    reveal_strlit("PX");
    reveal_strlit("PMRV");
    reveal_strlit("WAVE_OM");
    reveal_strlit("WAVE1");
    reveal_strlit("WAVE2");
    reveal_strlit("WAVE3");
    reveal_strlit("WAVE4");
    reveal_strlit("WAVE5");
    reveal_strlit("WAVE6");
    reveal_strlit("TRES");
    reveal_strlit("NE1AU");
    reveal_strlit("TZRMJD");
    reveal_strlit("TZRFRQ");
    reveal_strlit("START");
    reveal_strlit("FINISH");
    reveal_strlit("A1");
    assert("JUMP"@.len() == 4 && "JUMP"@[0] == 'J' && "JUMP"@[1] == 'U' && "JUMP"@[2] == 'M'
        && "JUMP"@[3] == 'P');
    assert("RA"@.len() == 2 && "RA"@[0] == 'R' && "RA"@[1] == 'A');
    assert("RAJ"@.len() == 3 && "RAJ"@[0] == 'R' && "RAJ"@[1] == 'A' && "RAJ"@[2] == 'J');
    assert("DEC"@.len() == 3 && "DEC"@[0] == 'D' && "DEC"@[1] == 'E' && "DEC"@[2] == 'C');
    assert("DECJ"@.len() == 4 && "DECJ"@[0] == 'D' && "DECJ"@[1] == 'E' && "DECJ"@[2] == 'C'
        && "DECJ"@[3] == 'J');
    assert("TIMEEPH"@.len() == 7 && "TIMEEPH"@[0] == 'T' && "TIMEEPH"@[1] == 'I'
        && "TIMEEPH"@[2] == 'M' && "TIMEEPH"@[3] == 'E' && "TIMEEPH"@[4] == 'E'
        && "TIMEEPH"@[5] == 'P' && "TIMEEPH"@[6] == 'H');
    assert("MODEL"@.len() == 5 && "MODEL"@[0] == 'M' && "MODEL"@[1] == 'O' && "MODEL"@[2] == 'D'
        && "MODEL"@[3] == 'E' && "MODEL"@[4] == 'L');
    assert("T2CMETHOD"@.len() == 9 && "T2CMETHOD"@[0] == 'T' && "T2CMETHOD"@[1] == '2'
        && "T2CMETHOD"@[2] == 'C' && "T2CMETHOD"@[3] == 'M' && "T2CMETHOD"@[4] == 'E'
        && "T2CMETHOD"@[5] == 'T' && "T2CMETHOD"@[6] == 'H' && "T2CMETHOD"@[7] == 'O'
        && "T2CMETHOD"@[8] == 'D');
    assert("UNITS"@.len() == 5 && "UNITS"@[0] == 'U' && "UNITS"@[1] == 'N' && "UNITS"@[2] == 'I'
        && "UNITS"@[3] == 'T' && "UNITS"@[4] == 'S');
    assert("MODE"@.len() == 4 && "MODE"@[0] == 'M' && "MODE"@[1] == 'O' && "MODE"@[2] == 'D'
        && "MODE"@[3] == 'E');
    assert("TEMPO1"@.len() == 6 && "TEMPO1"@[0] == 'T' && "TEMPO1"@[1] == 'E'
        && "TEMPO1"@[2] == 'M' && "TEMPO1"@[3] == 'P' && "TEMPO1"@[4] == 'O'
        && "TEMPO1"@[5] == '1');
    assert("NOTRACK"@.len() == 7 && "NOTRACK"@[0] == 'N' && "NOTRACK"@[1] == 'O'
        && "NOTRACK"@[2] == 'T' && "NOTRACK"@[3] == 'R' && "NOTRACK"@[4] == 'A'
        && "NOTRACK"@[5] == 'C' && "NOTRACK"@[6] == 'K');
    assert("NO_SS_SHAPIRO"@.len() == 13 && "NO_SS_SHAPIRO"@[0] == 'N'
        && "NO_SS_SHAPIRO"@[1] == 'O' && "NO_SS_SHAPIRO"@[2] == '_'
        && "NO_SS_SHAPIRO"@[3] == 'S' && "NO_SS_SHAPIRO"@[4] == 'S'
        && "NO_SS_SHAPIRO"@[5] == '_' && "NO_SS_SHAPIRO"@[6] == 'S'
        && "NO_SS_SHAPIRO"@[7] == 'H' && "NO_SS_SHAPIRO"@[8] == 'A'
        && "NO_SS_SHAPIRO"@[9] == 'P' && "NO_SS_SHAPIRO"@[10] == 'I'
        && "NO_SS_SHAPIRO"@[11] == 'R' && "NO_SS_SHAPIRO"@[12] == 'O');
    assert("IPM"@.len() == 3 && "IPM"@[0] == 'I' && "IPM"@[1] == 'P' && "IPM"@[2] == 'M');
    assert("DILATE_FREQ"@.len() == 11 && "DILATE_FREQ"@[0] == 'D' && "DILATE_FREQ"@[1] == 'I'
        && "DILATE_FREQ"@[2] == 'L' && "DILATE_FREQ"@[3] == 'A' && "DILATE_FREQ"@[4] == 'T'
        && "DILATE_FREQ"@[5] == 'E' && "DILATE_FREQ"@[6] == '_' && "DILATE_FREQ"@[7] == 'F'
        && "DILATE_FREQ"@[8] == 'R' && "DILATE_FREQ"@[9] == 'E' && "DILATE_FREQ"@[10] == 'Q');
    assert("PLANET_SHAPIRO"@.len() == 14 && "PLANET_SHAPIRO"@[0] == 'P'
        && "PLANET_SHAPIRO"@[1] == 'L' && "PLANET_SHAPIRO"@[2] == 'A'
        && "PLANET_SHAPIRO"@[3] == 'N' && "PLANET_SHAPIRO"@[4] == 'E'
        && "PLANET_SHAPIRO"@[5] == 'T' && "PLANET_SHAPIRO"@[6] == '_'
        && "PLANET_SHAPIRO"@[7] == 'S' && "PLANET_SHAPIRO"@[8] == 'H'
        && "PLANET_SHAPIRO"@[9] == 'A' && "PLANET_SHAPIRO"@[10] == 'P'
        && "PLANET_SHAPIRO"@[11] == 'I' && "PLANET_SHAPIRO"@[12] == 'R'
        && "PLANET_SHAPIRO"@[13] == 'O');
    assert("CORRECT_TROPOSPHERE"@.len() == 19 && "CORRECT_TROPOSPHERE"@[0] == 'C'
        && "CORRECT_TROPOSPHERE"@[1] == 'O' && "CORRECT_TROPOSPHERE"@[2] == 'R'
        && "CORRECT_TROPOSPHERE"@[3] == 'R' && "CORRECT_TROPOSPHERE"@[4] == 'E'
        && "CORRECT_TROPOSPHERE"@[5] == 'C' && "CORRECT_TROPOSPHERE"@[6] == 'T'
        && "CORRECT_TROPOSPHERE"@[7] == '_' && "CORRECT_TROPOSPHERE"@[8] == 'T'
        && "CORRECT_TROPOSPHERE"@[9] == 'R' && "CORRECT_TROPOSPHERE"@[10] == 'O'
        && "CORRECT_TROPOSPHERE"@[11] == 'P' && "CORRECT_TROPOSPHERE"@[12] == 'O'
        && "CORRECT_TROPOSPHERE"@[13] == 'S' && "CORRECT_TROPOSPHERE"@[14] == 'P'
        && "CORRECT_TROPOSPHERE"@[15] == 'H' && "CORRECT_TROPOSPHERE"@[16] == 'E'
        && "CORRECT_TROPOSPHERE"@[17] == 'R' && "CORRECT_TROPOSPHERE"@[18] == 'E');
    assert("DILATEFREQ"@.len() == 10 && "DILATEFREQ"@[0] == 'D' && "DILATEFREQ"@[1] == 'I'
        && "DILATEFREQ"@[2] == 'L' && "DILATEFREQ"@[3] == 'A' && "DILATEFREQ"@[4] == 'T'
        && "DILATEFREQ"@[5] == 'E' && "DILATEFREQ"@[6] == 'F' && "DILATEFREQ"@[7] == 'R'
        && "DILATEFREQ"@[8] == 'E' && "DILATEFREQ"@[9] == 'Q');
    assert("P"@.len() == 1 && "P"@[0] == 'P');
    assert("PDOT"@.len() == 4 && "PDOT"@[0] == 'P' && "PDOT"@[1] == 'D' && "PDOT"@[2] == 'O'
        && "PDOT"@[3] == 'T');
    assert("LAMBDA"@.len() == 6 && "LAMBDA"@[0] == 'L' && "LAMBDA"@[1] == 'A'
        && "LAMBDA"@[2] == 'M' && "LAMBDA"@[3] == 'B' && "LAMBDA"@[4] == 'D'
        && "LAMBDA"@[5] == 'A');
    assert("BETA"@.len() == 4 && "BETA"@[0] == 'B' && "BETA"@[1] == 'E' && "BETA"@[2] == 'T'
        && "BETA"@[3] == 'A');
    assert("PMELONG"@.len() == 7 && "PMELONG"@[0] == 'P' && "PMELONG"@[1] == 'M'
        && "PMELONG"@[2] == 'E' && "PMELONG"@[3] == 'L' && "PMELONG"@[4] == 'O'
        && "PMELONG"@[5] == 'N' && "PMELONG"@[6] == 'G');
    assert("PMELAT"@.len() == 6 && "PMELAT"@[0] == 'P' && "PMELAT"@[1] == 'M'
        && "PMELAT"@[2] == 'E' && "PMELAT"@[3] == 'L' && "PMELAT"@[4] == 'A'
        && "PMELAT"@[5] == 'T');
    assert("PBDOT"@.len() == 5 && "PBDOT"@[0] == 'P' && "PBDOT"@[1] == 'B' && "PBDOT"@[2] == 'D'
        && "PBDOT"@[3] == 'O' && "PBDOT"@[4] == 'T');
    assert("E"@.len() == 1 && "E"@[0] == 'E');
    assert("XDOT"@.len() == 4 && "XDOT"@[0] == 'X' && "XDOT"@[1] == 'D' && "XDOT"@[2] == 'O'
        && "XDOT"@[3] == 'T');
    assert("EDOT"@.len() == 4 && "EDOT"@[0] == 'E' && "EDOT"@[1] == 'D' && "EDOT"@[2] == 'O'
        && "EDOT"@[3] == 'T');
    assert("PX"@.len() == 2 && "PX"@[0] == 'P' && "PX"@[1] == 'X');
    assert("PMRV"@.len() == 4 && "PMRV"@[0] == 'P' && "PMRV"@[1] == 'M' && "PMRV"@[2] == 'R'
        && "PMRV"@[3] == 'V');
    assert("WAVE_OM"@.len() == 7 && "WAVE_OM"@[0] == 'W' && "WAVE_OM"@[1] == 'A'
        && "WAVE_OM"@[2] == 'V' && "WAVE_OM"@[3] == 'E' && "WAVE_OM"@[4] == '_'
        && "WAVE_OM"@[5] == 'O' && "WAVE_OM"@[6] == 'M');
    assert("WAVE1"@.len() == 5 && "WAVE1"@[0] == 'W' && "WAVE1"@[1] == 'A' && "WAVE1"@[2] == 'V'
        && "WAVE1"@[3] == 'E' && "WAVE1"@[4] == '1');
    assert("WAVE2"@.len() == 5 && "WAVE2"@[0] == 'W' && "WAVE2"@[1] == 'A' && "WAVE2"@[2] == 'V'
        && "WAVE2"@[3] == 'E' && "WAVE2"@[4] == '2');
    assert("WAVE3"@.len() == 5 && "WAVE3"@[0] == 'W' && "WAVE3"@[1] == 'A' && "WAVE3"@[2] == 'V'
        && "WAVE3"@[3] == 'E' && "WAVE3"@[4] == '3');
    assert("WAVE4"@.len() == 5 && "WAVE4"@[0] == 'W' && "WAVE4"@[1] == 'A' && "WAVE4"@[2] == 'V'
        && "WAVE4"@[3] == 'E' && "WAVE4"@[4] == '4');
    assert("WAVE5"@.len() == 5 && "WAVE5"@[0] == 'W' && "WAVE5"@[1] == 'A' && "WAVE5"@[2] == 'V'
        && "WAVE5"@[3] == 'E' && "WAVE5"@[4] == '5');
    assert("WAVE6"@.len() == 5 && "WAVE6"@[0] == 'W' && "WAVE6"@[1] == 'A' && "WAVE6"@[2] == 'V'
        && "WAVE6"@[3] == 'E' && "WAVE6"@[4] == '6');
    assert("TRES"@.len() == 4 && "TRES"@[0] == 'T' && "TRES"@[1] == 'R' && "TRES"@[2] == 'E'
        && "TRES"@[3] == 'S');
    assert("NE1AU"@.len() == 5 && "NE1AU"@[0] == 'N' && "NE1AU"@[1] == 'E' && "NE1AU"@[2] == '1'
        && "NE1AU"@[3] == 'A' && "NE1AU"@[4] == 'U');
    assert("TZRMJD"@.len() == 6 && "TZRMJD"@[0] == 'T' && "TZRMJD"@[1] == 'Z'
        && "TZRMJD"@[2] == 'R' && "TZRMJD"@[3] == 'M' && "TZRMJD"@[4] == 'J'
        && "TZRMJD"@[5] == 'D');
    assert("TZRFRQ"@.len() == 6 && "TZRFRQ"@[0] == 'T' && "TZRFRQ"@[1] == 'Z'
        && "TZRFRQ"@[2] == 'R' && "TZRFRQ"@[3] == 'F' && "TZRFRQ"@[4] == 'R'
        && "TZRFRQ"@[5] == 'Q');
    assert("START"@.len() == 5 && "START"@[0] == 'S' && "START"@[1] == 'T' && "START"@[2] == 'A'
        && "START"@[3] == 'R' && "START"@[4] == 'T');
    assert("FINISH"@.len() == 6 && "FINISH"@[0] == 'F' && "FINISH"@[1] == 'I'
        && "FINISH"@[2] == 'N' && "FINISH"@[3] == 'I' && "FINISH"@[4] == 'S'
        && "FINISH"@[5] == 'H');
    assert("A1"@.len() == 2 && "A1"@[0] == 'A' && "A1"@[1] == '1');
    let rows = float_rows_part_3();
    assert(rows.len() == 16);
    assert forall|i: int| 0 <= i < rows.len() implies number_row_ok(#[trigger] rows[i]) && keyed_in(
        rows,
        rows[i].name@,
    ) by {
        if i == 0 {
            assert(rows[0].key@ == "PX"@ && rows[0].name@ == "PX"@);
            assert(free_key("PX"@));
            assert(!is_flag_key("PX"@));
            assert(!is_float_alias("PX"@));
            assert(rows[0].key@ == "PX"@);
        }         else if i == 1 {
            assert(rows[1].key@ == "PMRV"@ && rows[1].name@ == "PMRV"@);
            assert(free_key("PMRV"@));
            assert(!is_flag_key("PMRV"@));
            assert(!is_float_alias("PMRV"@));
            assert(rows[1].key@ == "PMRV"@);
        }         else if i == 2 {
            assert(rows[2].key@ == "WAVE_OM"@ && rows[2].name@ == "WAVE_OM"@);
            assert(free_key("WAVE_OM"@));
            assert(!is_flag_key("WAVE_OM"@));
            assert(!is_float_alias("WAVE_OM"@));
            assert(rows[2].key@ == "WAVE_OM"@);
        }         else if i == 3 {
            assert(rows[3].key@ == "WAVE1"@ && rows[3].name@ == "WAVE1"@);
            assert(free_key("WAVE1"@));
            assert(!is_flag_key("WAVE1"@));
            assert(!is_float_alias("WAVE1"@));
            assert(rows[3].key@ == "WAVE1"@);
        }         else if i == 4 {
            assert(rows[4].key@ == "WAVE2"@ && rows[4].name@ == "WAVE2"@);
            assert(free_key("WAVE2"@));
            assert(!is_flag_key("WAVE2"@));
            assert(!is_float_alias("WAVE2"@));
            assert(rows[4].key@ == "WAVE2"@);
        }         else if i == 5 {
            assert(rows[5].key@ == "WAVE3"@ && rows[5].name@ == "WAVE3"@);
            assert(free_key("WAVE3"@));
            assert(!is_flag_key("WAVE3"@));
            assert(!is_float_alias("WAVE3"@));
            assert(rows[5].key@ == "WAVE3"@);
        }         else if i == 6 {
            assert(rows[6].key@ == "WAVE4"@ && rows[6].name@ == "WAVE4"@);
            assert(free_key("WAVE4"@));
            assert(!is_flag_key("WAVE4"@));
            assert(!is_float_alias("WAVE4"@));
            assert(rows[6].key@ == "WAVE4"@);
        }         else if i == 7 {
            assert(rows[7].key@ == "WAVE5"@ && rows[7].name@ == "WAVE5"@);
            assert(free_key("WAVE5"@));
            assert(!is_flag_key("WAVE5"@));
            assert(!is_float_alias("WAVE5"@));
            assert(rows[7].key@ == "WAVE5"@);
        }         else if i == 8 {
            assert(rows[8].key@ == "WAVE6"@ && rows[8].name@ == "WAVE6"@);
            assert(free_key("WAVE6"@));
            assert(!is_flag_key("WAVE6"@));
            assert(!is_float_alias("WAVE6"@));
            assert(rows[8].key@ == "WAVE6"@);
        }         else if i == 9 {
            assert(rows[9].key@ == "TRES"@ && rows[9].name@ == "TRES"@);
            assert(free_key("TRES"@));
            assert(!is_flag_key("TRES"@));
            assert(!is_float_alias("TRES"@));
            assert(rows[9].key@ == "TRES"@);
        }         else if i == 10 {
            assert(rows[10].key@ == "NE1AU"@ && rows[10].name@ == "NE1AU"@);
            assert(free_key("NE1AU"@));
            assert(!is_flag_key("NE1AU"@));
            assert(!is_float_alias("NE1AU"@));
            assert(rows[10].key@ == "NE1AU"@);
        }         else if i == 11 {
            assert(rows[11].key@ == "TZRMJD"@ && rows[11].name@ == "TZRMJD"@);
            assert(free_key("TZRMJD"@));
            assert(!is_flag_key("TZRMJD"@));
            assert(!is_float_alias("TZRMJD"@));
            assert(rows[11].key@ == "TZRMJD"@);
        }         else if i == 12 {
            assert(rows[12].key@ == "TZRFRQ"@ && rows[12].name@ == "TZRFRQ"@);
            assert(free_key("TZRFRQ"@));
            assert(!is_flag_key("TZRFRQ"@));
            assert(!is_float_alias("TZRFRQ"@));
            assert(rows[12].key@ == "TZRFRQ"@);
        }         else if i == 13 {
            assert(rows[13].key@ == "START"@ && rows[13].name@ == "START"@);
            assert(free_key("START"@));
            assert(!is_flag_key("START"@));
            assert(!is_float_alias("START"@));
            assert(rows[13].key@ == "START"@);
        }         else if i == 14 {
            assert(rows[14].key@ == "FINISH"@ && rows[14].name@ == "FINISH"@);
            assert(free_key("FINISH"@));
            assert(!is_flag_key("FINISH"@));
            assert(!is_float_alias("FINISH"@));
            assert(rows[14].key@ == "FINISH"@);
        }         else if i == 15 {
            assert(rows[15].key@ == "A1"@ && rows[15].name@ == "A1"@);
            assert(free_key("A1"@));
            assert(!is_flag_key("A1"@));
            assert(!is_float_alias("A1"@));
            assert(rows[15].key@ == "A1"@);
        }
    }
}

/// Rows 49 to 64 of the table of numbers are as every row of it has to be.
proof fn lemma_float_rows_4_ok()
    ensures
        forall|i: int|
            0 <= i < float_rows_part_4().len() ==> number_row_ok(#[trigger] float_rows_part_4()[i]) && keyed_in(
                float_rows_part_4(),
                float_rows_part_4()[i].name@,
            ),
{
    reveal_strlit("JUMP");
    reveal_strlit("RA");
    reveal_strlit("RAJ");
    reveal_strlit("DEC");
    reveal_strlit("DECJ");
    reveal_strlit("TIMEEPH");
    reveal_strlit("MODEL");
    reveal_strlit("T2CMETHOD");
    reveal_strlit("UNITS");
    reveal_strlit("MODE");
    reveal_strlit("TEMPO1");
    reveal_strlit("NOTRACK");
    reveal_strlit("NO_SS_SHAPIRO");
    reveal_strlit("IPM");
    reveal_strlit("DILATE_FREQ");
    reveal_strlit("PLANET_SHAPIRO");
    reveal_strlit("CORRECT_TROPOSPHERE");
    reveal_strlit("DILATEFREQ");
    reveal_strlit("P");
    reveal_strlit("PDOT");
    reveal_strlit("LAMBDA");
    reveal_strlit("BETA");
    reveal_strlit("PMELONG");
    reveal_strlit("PMELAT");
    reveal_strlit("PBDOT");
    reveal_strlit("E");
    reveal_strlit("XDOT");
    reveal_strlit("EDOT");
    reveal_strlit("PB");
    reveal_strlit("P1");
    reveal_strlit("PB2");
    reveal_strlit("PB3");
    reveal_strlit("PB5");
    reveal_strlit("PB6");
    reveal_strlit("ECC");
    reveal_strlit("T0");
    reveal_strlit("OM");
    reveal_strlit("TASC");
    reveal_strlit("EPS1");
    reveal_strlit("EPS2");
    reveal_strlit("OMDOT");
    assert("JUMP"@.len() == 4 && "JUMP"@[0] == 'J' && "JUMP"@[1] == 'U' && "JUMP"@[2] == 'M'
        && "JUMP"@[3] == 'P');
    assert("RA"@.len() == 2 && "RA"@[0] == 'R' && "RA"@[1] == 'A');
    assert("RAJ"@.len() == 3 && "RAJ"@[0] == 'R' && "RAJ"@[1] == 'A' && "RAJ"@[2] == 'J');
    assert("DEC"@.len() == 3 && "DEC"@[0] == 'D' && "DEC"@[1] == 'E' && "DEC"@[2] == 'C');
    assert("DECJ"@.len() == 4 && "DECJ"@[0] == 'D' && "DECJ"@[1] == 'E' && "DECJ"@[2] == 'C'
        && "DECJ"@[3] == 'J');
    assert("TIMEEPH"@.len() == 7 && "TIMEEPH"@[0] == 'T' && "TIMEEPH"@[1] == 'I'
        && "TIMEEPH"@[2] == 'M' && "TIMEEPH"@[3] == 'E' && "TIMEEPH"@[4] == 'E'
        && "TIMEEPH"@[5] == 'P' && "TIMEEPH"@[6] == 'H');
    assert("MODEL"@.len() == 5 && "MODEL"@[0] == 'M' && "MODEL"@[1] == 'O' && "MODEL"@[2] == 'D'
        && "MODEL"@[3] == 'E' && "MODEL"@[4] == 'L');
    assert("T2CMETHOD"@.len() == 9 && "T2CMETHOD"@[0] == 'T' && "T2CMETHOD"@[1] == '2'
        && "T2CMETHOD"@[2] == 'C' && "T2CMETHOD"@[3] == 'M' && "T2CMETHOD"@[4] == 'E'
        && "T2CMETHOD"@[5] == 'T' && "T2CMETHOD"@[6] == 'H' && "T2CMETHOD"@[7] == 'O'
        && "T2CMETHOD"@[8] == 'D');
    assert("UNITS"@.len() == 5 && "UNITS"@[0] == 'U' && "UNITS"@[1] == 'N' && "UNITS"@[2] == 'I'
        && "UNITS"@[3] == 'T' && "UNITS"@[4] == 'S');
    assert("MODE"@.len() == 4 && "MODE"@[0] == 'M' && "MODE"@[1] == 'O' && "MODE"@[2] == 'D'
        && "MODE"@[3] == 'E');
    assert("TEMPO1"@.len() == 6 && "TEMPO1"@[0] == 'T' && "TEMPO1"@[1] == 'E'
        && "TEMPO1"@[2] == 'M' && "TEMPO1"@[3] == 'P' && "TEMPO1"@[4] == 'O'
        && "TEMPO1"@[5] == '1');
    assert("NOTRACK"@.len() == 7 && "NOTRACK"@[0] == 'N' && "NOTRACK"@[1] == 'O'
        && "NOTRACK"@[2] == 'T' && "NOTRACK"@[3] == 'R' && "NOTRACK"@[4] == 'A'
        && "NOTRACK"@[5] == 'C' && "NOTRACK"@[6] == 'K');
    assert("NO_SS_SHAPIRO"@.len() == 13 && "NO_SS_SHAPIRO"@[0] == 'N'
        && "NO_SS_SHAPIRO"@[1] == 'O' && "NO_SS_SHAPIRO"@[2] == '_'
        && "NO_SS_SHAPIRO"@[3] == 'S' && "NO_SS_SHAPIRO"@[4] == 'S'
        && "NO_SS_SHAPIRO"@[5] == '_' && "NO_SS_SHAPIRO"@[6] == 'S'
        && "NO_SS_SHAPIRO"@[7] == 'H' && "NO_SS_SHAPIRO"@[8] == 'A'
        && "NO_SS_SHAPIRO"@[9] == 'P' && "NO_SS_SHAPIRO"@[10] == 'I'
        && "NO_SS_SHAPIRO"@[11] == 'R' && "NO_SS_SHAPIRO"@[12] == 'O');
    assert("IPM"@.len() == 3 && "IPM"@[0] == 'I' && "IPM"@[1] == 'P' && "IPM"@[2] == 'M');
    assert("DILATE_FREQ"@.len() == 11 && "DILATE_FREQ"@[0] == 'D' && "DILATE_FREQ"@[1] == 'I'
        && "DILATE_FREQ"@[2] == 'L' && "DILATE_FREQ"@[3] == 'A' && "DILATE_FREQ"@[4] == 'T'
        && "DILATE_FREQ"@[5] == 'E' && "DILATE_FREQ"@[6] == '_' && "DILATE_FREQ"@[7] == 'F'
        && "DILATE_FREQ"@[8] == 'R' && "DILATE_FREQ"@[9] == 'E' && "DILATE_FREQ"@[10] == 'Q');
    assert("PLANET_SHAPIRO"@.len() == 14 && "PLANET_SHAPIRO"@[0] == 'P'
        && "PLANET_SHAPIRO"@[1] == 'L' && "PLANET_SHAPIRO"@[2] == 'A'
        && "PLANET_SHAPIRO"@[3] == 'N' && "PLANET_SHAPIRO"@[4] == 'E'
        && "PLANET_SHAPIRO"@[5] == 'T' && "PLANET_SHAPIRO"@[6] == '_'
        && "PLANET_SHAPIRO"@[7] == 'S' && "PLANET_SHAPIRO"@[8] == 'H'
        && "PLANET_SHAPIRO"@[9] == 'A' && "PLANET_SHAPIRO"@[10] == 'P'
        && "PLANET_SHAPIRO"@[11] == 'I' && "PLANET_SHAPIRO"@[12] == 'R'
        && "PLANET_SHAPIRO"@[13] == 'O');
    assert("CORRECT_TROPOSPHERE"@.len() == 19 && "CORRECT_TROPOSPHERE"@[0] == 'C'
        && "CORRECT_TROPOSPHERE"@[1] == 'O' && "CORRECT_TROPOSPHERE"@[2] == 'R'
        && "CORRECT_TROPOSPHERE"@[3] == 'R' && "CORRECT_TROPOSPHERE"@[4] == 'E'
        && "CORRECT_TROPOSPHERE"@[5] == 'C' && "CORRECT_TROPOSPHERE"@[6] == 'T'
        && "CORRECT_TROPOSPHERE"@[7] == '_' && "CORRECT_TROPOSPHERE"@[8] == 'T'
        && "CORRECT_TROPOSPHERE"@[9] == 'R' && "CORRECT_TROPOSPHERE"@[10] == 'O'
        && "CORRECT_TROPOSPHERE"@[11] == 'P' && "CORRECT_TROPOSPHERE"@[12] == 'O'
        && "CORRECT_TROPOSPHERE"@[13] == 'S' && "CORRECT_TROPOSPHERE"@[14] == 'P'
        && "CORRECT_TROPOSPHERE"@[15] == 'H' && "CORRECT_TROPOSPHERE"@[16] == 'E'
        && "CORRECT_TROPOSPHERE"@[17] == 'R' && "CORRECT_TROPOSPHERE"@[18] == 'E');
    assert("DILATEFREQ"@.len() == 10 && "DILATEFREQ"@[0] == 'D' && "DILATEFREQ"@[1] == 'I'
        && "DILATEFREQ"@[2] == 'L' && "DILATEFREQ"@[3] == 'A' && "DILATEFREQ"@[4] == 'T'
        && "DILATEFREQ"@[5] == 'E' && "DILATEFREQ"@[6] == 'F' && "DILATEFREQ"@[7] == 'R'
        && "DILATEFREQ"@[8] == 'E' && "DILATEFREQ"@[9] == 'Q');
    assert("P"@.len() == 1 && "P"@[0] == 'P');
    assert("PDOT"@.len() == 4 && "PDOT"@[0] == 'P' && "PDOT"@[1] == 'D' && "PDOT"@[2] == 'O'
        && "PDOT"@[3] == 'T');
    assert("LAMBDA"@.len() == 6 && "LAMBDA"@[0] == 'L' && "LAMBDA"@[1] == 'A'
        && "LAMBDA"@[2] == 'M' && "LAMBDA"@[3] == 'B' && "LAMBDA"@[4] == 'D'
        && "LAMBDA"@[5] == 'A');
    assert("BETA"@.len() == 4 && "BETA"@[0] == 'B' && "BETA"@[1] == 'E' && "BETA"@[2] == 'T'
        && "BETA"@[3] == 'A');
    assert("PMELONG"@.len() == 7 && "PMELONG"@[0] == 'P' && "PMELONG"@[1] == 'M'
        && "PMELONG"@[2] == 'E' && "PMELONG"@[3] == 'L' && "PMELONG"@[4] == 'O'
        && "PMELONG"@[5] == 'N' && "PMELONG"@[6] == 'G');
    assert("PMELAT"@.len() == 6 && "PMELAT"@[0] == 'P' && "PMELAT"@[1] == 'M'
        && "PMELAT"@[2] == 'E' && "PMELAT"@[3] == 'L' && "PMELAT"@[4] == 'A'
        && "PMELAT"@[5] == 'T');
    assert("PBDOT"@.len() == 5 && "PBDOT"@[0] == 'P' && "PBDOT"@[1] == 'B' && "PBDOT"@[2] == 'D'
        && "PBDOT"@[3] == 'O' && "PBDOT"@[4] == 'T');
    assert("E"@.len() == 1 && "E"@[0] == 'E');
    assert("XDOT"@.len() == 4 && "XDOT"@[0] == 'X' && "XDOT"@[1] == 'D' && "XDOT"@[2] == 'O'
        && "XDOT"@[3] == 'T');
    assert("EDOT"@.len() == 4 && "EDOT"@[0] == 'E' && "EDOT"@[1] == 'D' && "EDOT"@[2] == 'O'
        && "EDOT"@[3] == 'T');
    assert("PB"@.len() == 2 && "PB"@[0] == 'P' && "PB"@[1] == 'B');
    assert("P1"@.len() == 2 && "P1"@[0] == 'P' && "P1"@[1] == '1');
    assert("PB2"@.len() == 3 && "PB2"@[0] == 'P' && "PB2"@[1] == 'B' && "PB2"@[2] == '2');
    assert("PB3"@.len() == 3 && "PB3"@[0] == 'P' && "PB3"@[1] == 'B' && "PB3"@[2] == '3');
    assert("PB5"@.len() == 3 && "PB5"@[0] == 'P' && "PB5"@[1] == 'B' && "PB5"@[2] == '5');
    assert("PB6"@.len() == 3 && "PB6"@[0] == 'P' && "PB6"@[1] == 'B' && "PB6"@[2] == '6');
    assert("ECC"@.len() == 3 && "ECC"@[0] == 'E' && "ECC"@[1] == 'C' && "ECC"@[2] == 'C');
    assert("T0"@.len() == 2 && "T0"@[0] == 'T' && "T0"@[1] == '0');
    assert("OM"@.len() == 2 && "OM"@[0] == 'O' && "OM"@[1] == 'M');
    assert("TASC"@.len() == 4 && "TASC"@[0] == 'T' && "TASC"@[1] == 'A' && "TASC"@[2] == 'S'
        && "TASC"@[3] == 'C');
    assert("EPS1"@.len() == 4 && "EPS1"@[0] == 'E' && "EPS1"@[1] == 'P' && "EPS1"@[2] == 'S'
        && "EPS1"@[3] == '1');
    assert("EPS2"@.len() == 4 && "EPS2"@[0] == 'E' && "EPS2"@[1] == 'P' && "EPS2"@[2] == 'S'
        && "EPS2"@[3] == '2');
    assert("OMDOT"@.len() == 5 && "OMDOT"@[0] == 'O' && "OMDOT"@[1] == 'M' && "OMDOT"@[2] == 'D'
        && "OMDOT"@[3] == 'O' && "OMDOT"@[4] == 'T');
    let rows = float_rows_part_4();
    assert(rows.len() == 16);
    assert forall|i: int| 0 <= i < rows.len() implies number_row_ok(#[trigger] rows[i]) && keyed_in(
        rows,
        rows[i].name@,
    ) by {
        if i == 0 {
            assert(rows[0].key@ == "PB"@ && rows[0].name@ == "PB"@);
            assert(free_key("PB"@));
            assert(!is_flag_key("PB"@));
            assert(!is_float_alias("PB"@));
            assert(rows[0].key@ == "PB"@);
        }         else if i == 1 {
            assert(rows[1].key@ == "P1"@ && rows[1].name@ == "P1"@);
            assert(free_key("P1"@));
            assert(!is_flag_key("P1"@));
            assert(!is_float_alias("P1"@));
            assert(rows[1].key@ == "P1"@);
        }         else if i == 2 {
            assert(rows[2].key@ == "PBDOT"@ && rows[2].name@ == "P1"@);
            assert(free_key("P1"@));
            assert(!is_flag_key("P1"@));
            assert(!is_float_alias("P1"@));
            assert(rows[1].key@ == "P1"@);
        }         else if i == 3 {
            assert(rows[3].key@ == "PB2"@ && rows[3].name@ == "PB2"@);
            assert(free_key("PB2"@));
            assert(!is_flag_key("PB2"@));
            assert(!is_float_alias("PB2"@));
            assert(rows[3].key@ == "PB2"@);
        }         else if i == 4 {
            assert(rows[4].key@ == "PB2"@ && rows[4].name@ == "PB2"@);
            assert(free_key("PB2"@));
            assert(!is_flag_key("PB2"@));
            assert(!is_float_alias("PB2"@));
            assert(rows[3].key@ == "PB2"@);
        }         else if i == 5 {
            assert(rows[5].key@ == "PB3"@ && rows[5].name@ == "PB3"@);
            assert(free_key("PB3"@));
            assert(!is_flag_key("PB3"@));
            assert(!is_float_alias("PB3"@));
            assert(rows[5].key@ == "PB3"@);
        }         else if i == 6 {
            assert(rows[6].key@ == "PB5"@ && rows[6].name@ == "PB5"@);
            assert(free_key("PB5"@));
            assert(!is_flag_key("PB5"@));
            assert(!is_float_alias("PB5"@));
            assert(rows[6].key@ == "PB5"@);
        }         else if i == 7 {
            assert(rows[7].key@ == "PB6"@ && rows[7].name@ == "PB6"@);
            assert(free_key("PB6"@));
            assert(!is_flag_key("PB6"@));
            assert(!is_float_alias("PB6"@));
            assert(rows[7].key@ == "PB6"@);
        }         else if i == 8 {
            assert(rows[8].key@ == "ECC"@ && rows[8].name@ == "ECC"@);
            assert(free_key("ECC"@));
            assert(!is_flag_key("ECC"@));
            assert(!is_float_alias("ECC"@));
            assert(rows[8].key@ == "ECC"@);
        }         else if i == 9 {
            assert(rows[9].key@ == "E"@ && rows[9].name@ == "ECC"@);
            assert(free_key("ECC"@));
            assert(!is_flag_key("ECC"@));
            assert(!is_float_alias("ECC"@));
            assert(rows[8].key@ == "ECC"@);
        }         else if i == 10 {
            assert(rows[10].key@ == "T0"@ && rows[10].name@ == "T0"@);
            assert(free_key("T0"@));
            assert(!is_flag_key("T0"@));
            assert(!is_float_alias("T0"@));
            assert(rows[10].key@ == "T0"@);
        }         else if i == 11 {
            assert(rows[11].key@ == "OM"@ && rows[11].name@ == "OM"@);
            assert(free_key("OM"@));
            assert(!is_flag_key("OM"@));
            assert(!is_float_alias("OM"@));
            assert(rows[11].key@ == "OM"@);
        }         else if i == 12 {
            assert(rows[12].key@ == "TASC"@ && rows[12].name@ == "TASC"@);
            assert(free_key("TASC"@));
            assert(!is_flag_key("TASC"@));
            assert(!is_float_alias("TASC"@));
            assert(rows[12].key@ == "TASC"@);
        }         else if i == 13 {
            assert(rows[13].key@ == "EPS1"@ && rows[13].name@ == "EPS1"@);
            assert(free_key("EPS1"@));
            assert(!is_flag_key("EPS1"@));
            assert(!is_float_alias("EPS1"@));
            assert(rows[13].key@ == "EPS1"@);
        }         else if i == 14 {
            assert(rows[14].key@ == "EPS2"@ && rows[14].name@ == "EPS2"@);
            assert(free_key("EPS2"@));
            assert(!is_flag_key("EPS2"@));
            assert(!is_float_alias("EPS2"@));
            assert(rows[14].key@ == "EPS2"@);
        }         else if i == 15 {
            assert(rows[15].key@ == "OMDOT"@ && rows[15].name@ == "OMDOT"@);
            assert(free_key("OMDOT"@));
            assert(!is_flag_key("OMDOT"@));
            assert(!is_float_alias("OMDOT"@));
            assert(rows[15].key@ == "OMDOT"@);
        }
    }
}

/// Rows 65 to 80 of the table of numbers are as every row of it has to be.
proof fn lemma_float_rows_5_ok()
    ensures
        forall|i: int|
            0 <= i < float_rows_part_5().len() ==> number_row_ok(#[trigger] float_rows_part_5()[i]) && keyed_in(
                float_rows_part_5(),
                float_rows_part_5()[i].name@,
            ),
{
    reveal_strlit("JUMP");
    reveal_strlit("RA");
    reveal_strlit("RAJ");
    reveal_strlit("DEC");
    reveal_strlit("DECJ");
    reveal_strlit("TIMEEPH");
    reveal_strlit("MODEL");
    reveal_strlit("T2CMETHOD");
    reveal_strlit("UNITS");
    reveal_strlit("MODE");
    reveal_strlit("TEMPO1");
    reveal_strlit("NOTRACK");
    reveal_strlit("NO_SS_SHAPIRO");
    reveal_strlit("IPM");
    reveal_strlit("DILATE_FREQ");
    reveal_strlit("PLANET_SHAPIRO");
    reveal_strlit("CORRECT_TROPOSPHERE");
    reveal_strlit("DILATEFREQ");
    reveal_strlit("P");
    reveal_strlit("PDOT");
    reveal_strlit("LAMBDA");
    reveal_strlit("BETA");
    reveal_strlit("PMELONG");
    reveal_strlit("PMELAT");
    reveal_strlit("PBDOT");
    reveal_strlit("E");
    reveal_strlit("XDOT");
    reveal_strlit("EDOT");
    reveal_strlit("A1DOT");
    reveal_strlit("SINI");
    reveal_strlit("M2");
    reveal_strlit("XPBDOT");
    reveal_strlit("ECCDOT");
    reveal_strlit("GAMMA");
    reveal_strlit("DR");
    reveal_strlit("DTH");
    reveal_strlit("A0");
    reveal_strlit("B0");
    reveal_strlit("BP");
    reveal_strlit("BPP");
    reveal_strlit("DTHETA");
    reveal_strlit("XOMDOT");
    assert("JUMP"@.len() == 4 && "JUMP"@[0] == 'J' && "JUMP"@[1] == 'U' && "JUMP"@[2] == 'M'
        && "JUMP"@[3] == 'P');
    assert("RA"@.len() == 2 && "RA"@[0] == 'R' && "RA"@[1] == 'A');
    assert("RAJ"@.len() == 3 && "RAJ"@[0] == 'R' && "RAJ"@[1] == 'A' && "RAJ"@[2] == 'J');
    assert("DEC"@.len() == 3 && "DEC"@[0] == 'D' && "DEC"@[1] == 'E' && "DEC"@[2] == 'C');
    assert("DECJ"@.len() == 4 && "DECJ"@[0] == 'D' && "DECJ"@[1] == 'E' && "DECJ"@[2] == 'C'
        && "DECJ"@[3] == 'J');
    assert("TIMEEPH"@.len() == 7 && "TIMEEPH"@[0] == 'T' && "TIMEEPH"@[1] == 'I'
        && "TIMEEPH"@[2] == 'M' && "TIMEEPH"@[3] == 'E' && "TIMEEPH"@[4] == 'E'
        && "TIMEEPH"@[5] == 'P' && "TIMEEPH"@[6] == 'H');
    assert("MODEL"@.len() == 5 && "MODEL"@[0] == 'M' && "MODEL"@[1] == 'O' && "MODEL"@[2] == 'D'
        && "MODEL"@[3] == 'E' && "MODEL"@[4] == 'L');
    assert("T2CMETHOD"@.len() == 9 && "T2CMETHOD"@[0] == 'T' && "T2CMETHOD"@[1] == '2'
        && "T2CMETHOD"@[2] == 'C' && "T2CMETHOD"@[3] == 'M' && "T2CMETHOD"@[4] == 'E'
        && "T2CMETHOD"@[5] == 'T' && "T2CMETHOD"@[6] == 'H' && "T2CMETHOD"@[7] == 'O'
        && "T2CMETHOD"@[8] == 'D');
    assert("UNITS"@.len() == 5 && "UNITS"@[0] == 'U' && "UNITS"@[1] == 'N' && "UNITS"@[2] == 'I'
        && "UNITS"@[3] == 'T' && "UNITS"@[4] == 'S');
    assert("MODE"@.len() == 4 && "MODE"@[0] == 'M' && "MODE"@[1] == 'O' && "MODE"@[2] == 'D'
        && "MODE"@[3] == 'E');
    assert("TEMPO1"@.len() == 6 && "TEMPO1"@[0] == 'T' && "TEMPO1"@[1] == 'E'
        && "TEMPO1"@[2] == 'M' && "TEMPO1"@[3] == 'P' && "TEMPO1"@[4] == 'O'
        && "TEMPO1"@[5] == '1');
    assert("NOTRACK"@.len() == 7 && "NOTRACK"@[0] == 'N' && "NOTRACK"@[1] == 'O'
        && "NOTRACK"@[2] == 'T' && "NOTRACK"@[3] == 'R' && "NOTRACK"@[4] == 'A'
        && "NOTRACK"@[5] == 'C' && "NOTRACK"@[6] == 'K');
    assert("NO_SS_SHAPIRO"@.len() == 13 && "NO_SS_SHAPIRO"@[0] == 'N'
        && "NO_SS_SHAPIRO"@[1] == 'O' && "NO_SS_SHAPIRO"@[2] == '_'
        && "NO_SS_SHAPIRO"@[3] == 'S' && "NO_SS_SHAPIRO"@[4] == 'S'
        && "NO_SS_SHAPIRO"@[5] == '_' && "NO_SS_SHAPIRO"@[6] == 'S'
        && "NO_SS_SHAPIRO"@[7] == 'H' && "NO_SS_SHAPIRO"@[8] == 'A'
        && "NO_SS_SHAPIRO"@[9] == 'P' && "NO_SS_SHAPIRO"@[10] == 'I'
        && "NO_SS_SHAPIRO"@[11] == 'R' && "NO_SS_SHAPIRO"@[12] == 'O');
    assert("IPM"@.len() == 3 && "IPM"@[0] == 'I' && "IPM"@[1] == 'P' && "IPM"@[2] == 'M');
    assert("DILATE_FREQ"@.len() == 11 && "DILATE_FREQ"@[0] == 'D' && "DILATE_FREQ"@[1] == 'I'
        && "DILATE_FREQ"@[2] == 'L' && "DILATE_FREQ"@[3] == 'A' && "DILATE_FREQ"@[4] == 'T'
        && "DILATE_FREQ"@[5] == 'E' && "DILATE_FREQ"@[6] == '_' && "DILATE_FREQ"@[7] == 'F'
        && "DILATE_FREQ"@[8] == 'R' && "DILATE_FREQ"@[9] == 'E' && "DILATE_FREQ"@[10] == 'Q');
    assert("PLANET_SHAPIRO"@.len() == 14 && "PLANET_SHAPIRO"@[0] == 'P'
        && "PLANET_SHAPIRO"@[1] == 'L' && "PLANET_SHAPIRO"@[2] == 'A'
        && "PLANET_SHAPIRO"@[3] == 'N' && "PLANET_SHAPIRO"@[4] == 'E'
        && "PLANET_SHAPIRO"@[5] == 'T' && "PLANET_SHAPIRO"@[6] == '_'
        && "PLANET_SHAPIRO"@[7] == 'S' && "PLANET_SHAPIRO"@[8] == 'H'
        && "PLANET_SHAPIRO"@[9] == 'A' && "PLANET_SHAPIRO"@[10] == 'P'
        && "PLANET_SHAPIRO"@[11] == 'I' && "PLANET_SHAPIRO"@[12] == 'R'
        && "PLANET_SHAPIRO"@[13] == 'O');
    assert("CORRECT_TROPOSPHERE"@.len() == 19 && "CORRECT_TROPOSPHERE"@[0] == 'C'
        && "CORRECT_TROPOSPHERE"@[1] == 'O' && "CORRECT_TROPOSPHERE"@[2] == 'R'
        && "CORRECT_TROPOSPHERE"@[3] == 'R' && "CORRECT_TROPOSPHERE"@[4] == 'E'
        && "CORRECT_TROPOSPHERE"@[5] == 'C' && "CORRECT_TROPOSPHERE"@[6] == 'T'
        && "CORRECT_TROPOSPHERE"@[7] == '_' && "CORRECT_TROPOSPHERE"@[8] == 'T'
        && "CORRECT_TROPOSPHERE"@[9] == 'R' && "CORRECT_TROPOSPHERE"@[10] == 'O'
        && "CORRECT_TROPOSPHERE"@[11] == 'P' && "CORRECT_TROPOSPHERE"@[12] == 'O'
        && "CORRECT_TROPOSPHERE"@[13] == 'S' && "CORRECT_TROPOSPHERE"@[14] == 'P'
        && "CORRECT_TROPOSPHERE"@[15] == 'H' && "CORRECT_TROPOSPHERE"@[16] == 'E'
        && "CORRECT_TROPOSPHERE"@[17] == 'R' && "CORRECT_TROPOSPHERE"@[18] == 'E');
    assert("DILATEFREQ"@.len() == 10 && "DILATEFREQ"@[0] == 'D' && "DILATEFREQ"@[1] == 'I'
        && "DILATEFREQ"@[2] == 'L' && "DILATEFREQ"@[3] == 'A' && "DILATEFREQ"@[4] == 'T'
        && "DILATEFREQ"@[5] == 'E' && "DILATEFREQ"@[6] == 'F' && "DILATEFREQ"@[7] == 'R'
        && "DILATEFREQ"@[8] == 'E' && "DILATEFREQ"@[9] == 'Q');
    assert("P"@.len() == 1 && "P"@[0] == 'P');
    assert("PDOT"@.len() == 4 && "PDOT"@[0] == 'P' && "PDOT"@[1] == 'D' && "PDOT"@[2] == 'O'
        && "PDOT"@[3] == 'T');
    assert("LAMBDA"@.len() == 6 && "LAMBDA"@[0] == 'L' && "LAMBDA"@[1] == 'A'
        && "LAMBDA"@[2] == 'M' && "LAMBDA"@[3] == 'B' && "LAMBDA"@[4] == 'D'
        && "LAMBDA"@[5] == 'A');
    assert("BETA"@.len() == 4 && "BETA"@[0] == 'B' && "BETA"@[1] == 'E' && "BETA"@[2] == 'T'
        && "BETA"@[3] == 'A');
    assert("PMELONG"@.len() == 7 && "PMELONG"@[0] == 'P' && "PMELONG"@[1] == 'M'
        && "PMELONG"@[2] == 'E' && "PMELONG"@[3] == 'L' && "PMELONG"@[4] == 'O'
        && "PMELONG"@[5] == 'N' && "PMELONG"@[6] == 'G');
    assert("PMELAT"@.len() == 6 && "PMELAT"@[0] == 'P' && "PMELAT"@[1] == 'M'
        && "PMELAT"@[2] == 'E' && "PMELAT"@[3] == 'L' && "PMELAT"@[4] == 'A'
        && "PMELAT"@[5] == 'T');
    assert("PBDOT"@.len() == 5 && "PBDOT"@[0] == 'P' && "PBDOT"@[1] == 'B' && "PBDOT"@[2] == 'D'
        && "PBDOT"@[3] == 'O' && "PBDOT"@[4] == 'T');
    assert("E"@.len() == 1 && "E"@[0] == 'E');
    assert("XDOT"@.len() == 4 && "XDOT"@[0] == 'X' && "XDOT"@[1] == 'D' && "XDOT"@[2] == 'O'
        && "XDOT"@[3] == 'T');
    assert("EDOT"@.len() == 4 && "EDOT"@[0] == 'E' && "EDOT"@[1] == 'D' && "EDOT"@[2] == 'O'
        && "EDOT"@[3] == 'T');
    assert("A1DOT"@.len() == 5 && "A1DOT"@[0] == 'A' && "A1DOT"@[1] == '1' && "A1DOT"@[2] == 'D'
        && "A1DOT"@[3] == 'O' && "A1DOT"@[4] == 'T');
    assert("SINI"@.len() == 4 && "SINI"@[0] == 'S' && "SINI"@[1] == 'I' && "SINI"@[2] == 'N'
        && "SINI"@[3] == 'I');
    assert("M2"@.len() == 2 && "M2"@[0] == 'M' && "M2"@[1] == '2');
    assert("XPBDOT"@.len() == 6 && "XPBDOT"@[0] == 'X' && "XPBDOT"@[1] == 'P'
        && "XPBDOT"@[2] == 'B' && "XPBDOT"@[3] == 'D' && "XPBDOT"@[4] == 'O'
        && "XPBDOT"@[5] == 'T');
    assert("ECCDOT"@.len() == 6 && "ECCDOT"@[0] == 'E' && "ECCDOT"@[1] == 'C'
        && "ECCDOT"@[2] == 'C' && "ECCDOT"@[3] == 'D' && "ECCDOT"@[4] == 'O'
        && "ECCDOT"@[5] == 'T');
    assert("GAMMA"@.len() == 5 && "GAMMA"@[0] == 'G' && "GAMMA"@[1] == 'A' && "GAMMA"@[2] == 'M'
        && "GAMMA"@[3] == 'M' && "GAMMA"@[4] == 'A');
    assert("DR"@.len() == 2 && "DR"@[0] == 'D' && "DR"@[1] == 'R');
    assert("DTH"@.len() == 3 && "DTH"@[0] == 'D' && "DTH"@[1] == 'T' && "DTH"@[2] == 'H');
    assert("A0"@.len() == 2 && "A0"@[0] == 'A' && "A0"@[1] == '0');
    assert("B0"@.len() == 2 && "B0"@[0] == 'B' && "B0"@[1] == '0');
    assert("BP"@.len() == 2 && "BP"@[0] == 'B' && "BP"@[1] == 'P');
    assert("BPP"@.len() == 3 && "BPP"@[0] == 'B' && "BPP"@[1] == 'P' && "BPP"@[2] == 'P');
    assert("DTHETA"@.len() == 6 && "DTHETA"@[0] == 'D' && "DTHETA"@[1] == 'T'
        && "DTHETA"@[2] == 'H' && "DTHETA"@[3] == 'E' && "DTHETA"@[4] == 'T'
        && "DTHETA"@[5] == 'A');
    assert("XOMDOT"@.len() == 6 && "XOMDOT"@[0] == 'X' && "XOMDOT"@[1] == 'O'
        && "XOMDOT"@[2] == 'M' && "XOMDOT"@[3] == 'D' && "XOMDOT"@[4] == 'O'
        && "XOMDOT"@[5] == 'T');
    let rows = float_rows_part_5();
    assert(rows.len() == 16);
    assert forall|i: int| 0 <= i < rows.len() implies number_row_ok(#[trigger] rows[i]) && keyed_in(
        rows,
        rows[i].name@,
    ) by {
        if i == 0 {
            assert(rows[0].key@ == "A1DOT"@ && rows[0].name@ == "A1DOT"@);
            assert(free_key("A1DOT"@));
            assert(!is_flag_key("A1DOT"@));
            assert(!is_float_alias("A1DOT"@));
            assert(rows[0].key@ == "A1DOT"@);
        }         else if i == 1 {
            assert(rows[1].key@ == "XDOT"@ && rows[1].name@ == "A1DOT"@);
            assert(free_key("A1DOT"@));
            assert(!is_flag_key("A1DOT"@));
            assert(!is_float_alias("A1DOT"@));
            assert(rows[0].key@ == "A1DOT"@);
        }         else if i == 2 {
            assert(rows[2].key@ == "SINI"@ && rows[2].name@ == "SINI"@);
            assert(free_key("SINI"@));
            assert(!is_flag_key("SINI"@));
            assert(!is_float_alias("SINI"@));
            assert(rows[2].key@ == "SINI"@);
        }         else if i == 3 {
            assert(rows[3].key@ == "M2"@ && rows[3].name@ == "M2"@);
            assert(free_key("M2"@));
            assert(!is_flag_key("M2"@));
            assert(!is_float_alias("M2"@));
            assert(rows[3].key@ == "M2"@);
        }         else if i == 4 {
            assert(rows[4].key@ == "XPBDOT"@ && rows[4].name@ == "XPBDOT"@);
            assert(free_key("XPBDOT"@));
            assert(!is_flag_key("XPBDOT"@));
            assert(!is_float_alias("XPBDOT"@));
            assert(rows[4].key@ == "XPBDOT"@);
        }         else if i == 5 {
            assert(rows[5].key@ == "ECCDOT"@ && rows[5].name@ == "ECCDOT"@);
            assert(free_key("ECCDOT"@));
            assert(!is_flag_key("ECCDOT"@));
            assert(!is_float_alias("ECCDOT"@));
            assert(rows[5].key@ == "ECCDOT"@);
        }         else if i == 6 {
            assert(rows[6].key@ == "EDOT"@ && rows[6].name@ == "ECCDOT"@);
            assert(free_key("ECCDOT"@));
            assert(!is_flag_key("ECCDOT"@));
            assert(!is_float_alias("ECCDOT"@));
            assert(rows[5].key@ == "ECCDOT"@);
        }         else if i == 7 {
            assert(rows[7].key@ == "GAMMA"@ && rows[7].name@ == "GAMMA"@);
            assert(free_key("GAMMA"@));
            assert(!is_flag_key("GAMMA"@));
            assert(!is_float_alias("GAMMA"@));
            assert(rows[7].key@ == "GAMMA"@);
        }         else if i == 8 {
            assert(rows[8].key@ == "DR"@ && rows[8].name@ == "DR"@);
            assert(free_key("DR"@));
            assert(!is_flag_key("DR"@));
            assert(!is_float_alias("DR"@));
            assert(rows[8].key@ == "DR"@);
        }         else if i == 9 {
            assert(rows[9].key@ == "DTH"@ && rows[9].name@ == "DTH"@);
            assert(free_key("DTH"@));
            assert(!is_flag_key("DTH"@));
            assert(!is_float_alias("DTH"@));
            assert(rows[9].key@ == "DTH"@);
        }         else if i == 10 {
            assert(rows[10].key@ == "A0"@ && rows[10].name@ == "A0"@);
            assert(free_key("A0"@));
            assert(!is_flag_key("A0"@));
            assert(!is_float_alias("A0"@));
            assert(rows[10].key@ == "A0"@);
        }         else if i == 11 {
            assert(rows[11].key@ == "B0"@ && rows[11].name@ == "B0"@);
            assert(free_key("B0"@));
            assert(!is_flag_key("B0"@));
            assert(!is_float_alias("B0"@));
            assert(rows[11].key@ == "B0"@);
        }         else if i == 12 {
            assert(rows[12].key@ == "BP"@ && rows[12].name@ == "BP"@);
            assert(free_key("BP"@));
            assert(!is_flag_key("BP"@));
            assert(!is_float_alias("BP"@));
            assert(rows[12].key@ == "BP"@);
        }         else if i == 13 {
            assert(rows[13].key@ == "BPP"@ && rows[13].name@ == "BPP"@);
            assert(free_key("BPP"@));
            assert(!is_flag_key("BPP"@));
            assert(!is_float_alias("BPP"@));
            assert(rows[13].key@ == "BPP"@);
        }         else if i == 14 {
            assert(rows[14].key@ == "DTHETA"@ && rows[14].name@ == "DTHETA"@);
            assert(free_key("DTHETA"@));
            assert(!is_flag_key("DTHETA"@));
            assert(!is_float_alias("DTHETA"@));
            assert(rows[14].key@ == "DTHETA"@);
        }         else if i == 15 {
            assert(rows[15].key@ == "XOMDOT"@ && rows[15].name@ == "XOMDOT"@);
            assert(free_key("XOMDOT"@));
            assert(!is_flag_key("XOMDOT"@));
            assert(!is_float_alias("XOMDOT"@));
            assert(rows[15].key@ == "XOMDOT"@);
        }
    }
}

/// Rows 81 to 88 of the table of numbers are as every row of it has to be.
proof fn lemma_float_rows_6_ok()
    ensures
        forall|i: int|
            0 <= i < float_rows_part_6().len() ==> number_row_ok(#[trigger] float_rows_part_6()[i]) && keyed_in(
                float_rows_part_6(),
                float_rows_part_6()[i].name@,
            ),
{
    reveal_strlit("JUMP");
    reveal_strlit("RA");
    reveal_strlit("RAJ");
    reveal_strlit("DEC");
    reveal_strlit("DECJ");
    reveal_strlit("TIMEEPH");
    reveal_strlit("MODEL");
    reveal_strlit("T2CMETHOD");
    reveal_strlit("UNITS");
    reveal_strlit("MODE");
    reveal_strlit("TEMPO1");
    reveal_strlit("NOTRACK");
    reveal_strlit("NO_SS_SHAPIRO");
    reveal_strlit("IPM");
    reveal_strlit("DILATE_FREQ");
    reveal_strlit("PLANET_SHAPIRO");
    reveal_strlit("CORRECT_TROPOSPHERE");
    reveal_strlit("DILATEFREQ");
    reveal_strlit("P");
    reveal_strlit("PDOT");
    reveal_strlit("LAMBDA");
    reveal_strlit("BETA");
    reveal_strlit("PMELONG");
    reveal_strlit("PMELAT");
    reveal_strlit("PBDOT");
    reveal_strlit("E");
    reveal_strlit("XDOT");
    reveal_strlit("EDOT");
    reveal_strlit("EPS1DOT");
    reveal_strlit("EPS2DOT");
    reveal_strlit("KOM");
    reveal_strlit("KIN");
    reveal_strlit("SHAPMAX");
    reveal_strlit("MTOT");
    reveal_strlit("NE_SW");
    reveal_strlit("CHI2R");
    assert("JUMP"@.len() == 4 && "JUMP"@[0] == 'J' && "JUMP"@[1] == 'U' && "JUMP"@[2] == 'M'
        && "JUMP"@[3] == 'P');
    assert("RA"@.len() == 2 && "RA"@[0] == 'R' && "RA"@[1] == 'A');
    assert("RAJ"@.len() == 3 && "RAJ"@[0] == 'R' && "RAJ"@[1] == 'A' && "RAJ"@[2] == 'J');
    assert("DEC"@.len() == 3 && "DEC"@[0] == 'D' && "DEC"@[1] == 'E' && "DEC"@[2] == 'C');
    assert("DECJ"@.len() == 4 && "DECJ"@[0] == 'D' && "DECJ"@[1] == 'E' && "DECJ"@[2] == 'C'
        && "DECJ"@[3] == 'J');
    assert("TIMEEPH"@.len() == 7 && "TIMEEPH"@[0] == 'T' && "TIMEEPH"@[1] == 'I'
        && "TIMEEPH"@[2] == 'M' && "TIMEEPH"@[3] == 'E' && "TIMEEPH"@[4] == 'E'
        && "TIMEEPH"@[5] == 'P' && "TIMEEPH"@[6] == 'H');
    assert("MODEL"@.len() == 5 && "MODEL"@[0] == 'M' && "MODEL"@[1] == 'O' && "MODEL"@[2] == 'D'
        && "MODEL"@[3] == 'E' && "MODEL"@[4] == 'L');
    assert("T2CMETHOD"@.len() == 9 && "T2CMETHOD"@[0] == 'T' && "T2CMETHOD"@[1] == '2'
        && "T2CMETHOD"@[2] == 'C' && "T2CMETHOD"@[3] == 'M' && "T2CMETHOD"@[4] == 'E'
        && "T2CMETHOD"@[5] == 'T' && "T2CMETHOD"@[6] == 'H' && "T2CMETHOD"@[7] == 'O'
        && "T2CMETHOD"@[8] == 'D');
    assert("UNITS"@.len() == 5 && "UNITS"@[0] == 'U' && "UNITS"@[1] == 'N' && "UNITS"@[2] == 'I'
        && "UNITS"@[3] == 'T' && "UNITS"@[4] == 'S');
    assert("MODE"@.len() == 4 && "MODE"@[0] == 'M' && "MODE"@[1] == 'O' && "MODE"@[2] == 'D'
        && "MODE"@[3] == 'E');
    assert("TEMPO1"@.len() == 6 && "TEMPO1"@[0] == 'T' && "TEMPO1"@[1] == 'E'
        && "TEMPO1"@[2] == 'M' && "TEMPO1"@[3] == 'P' && "TEMPO1"@[4] == 'O'
        && "TEMPO1"@[5] == '1');
    assert("NOTRACK"@.len() == 7 && "NOTRACK"@[0] == 'N' && "NOTRACK"@[1] == 'O'
        && "NOTRACK"@[2] == 'T' && "NOTRACK"@[3] == 'R' && "NOTRACK"@[4] == 'A'
        && "NOTRACK"@[5] == 'C' && "NOTRACK"@[6] == 'K');
    assert("NO_SS_SHAPIRO"@.len() == 13 && "NO_SS_SHAPIRO"@[0] == 'N'
        && "NO_SS_SHAPIRO"@[1] == 'O' && "NO_SS_SHAPIRO"@[2] == '_'
        && "NO_SS_SHAPIRO"@[3] == 'S' && "NO_SS_SHAPIRO"@[4] == 'S'
        && "NO_SS_SHAPIRO"@[5] == '_' && "NO_SS_SHAPIRO"@[6] == 'S'
        && "NO_SS_SHAPIRO"@[7] == 'H' && "NO_SS_SHAPIRO"@[8] == 'A'
        && "NO_SS_SHAPIRO"@[9] == 'P' && "NO_SS_SHAPIRO"@[10] == 'I'
        && "NO_SS_SHAPIRO"@[11] == 'R' && "NO_SS_SHAPIRO"@[12] == 'O');
    assert("IPM"@.len() == 3 && "IPM"@[0] == 'I' && "IPM"@[1] == 'P' && "IPM"@[2] == 'M');
    assert("DILATE_FREQ"@.len() == 11 && "DILATE_FREQ"@[0] == 'D' && "DILATE_FREQ"@[1] == 'I'
        && "DILATE_FREQ"@[2] == 'L' && "DILATE_FREQ"@[3] == 'A' && "DILATE_FREQ"@[4] == 'T'
        && "DILATE_FREQ"@[5] == 'E' && "DILATE_FREQ"@[6] == '_' && "DILATE_FREQ"@[7] == 'F'
        && "DILATE_FREQ"@[8] == 'R' && "DILATE_FREQ"@[9] == 'E' && "DILATE_FREQ"@[10] == 'Q');
    assert("PLANET_SHAPIRO"@.len() == 14 && "PLANET_SHAPIRO"@[0] == 'P'
        && "PLANET_SHAPIRO"@[1] == 'L' && "PLANET_SHAPIRO"@[2] == 'A'
        && "PLANET_SHAPIRO"@[3] == 'N' && "PLANET_SHAPIRO"@[4] == 'E'
        && "PLANET_SHAPIRO"@[5] == 'T' && "PLANET_SHAPIRO"@[6] == '_'
        && "PLANET_SHAPIRO"@[7] == 'S' && "PLANET_SHAPIRO"@[8] == 'H'
        && "PLANET_SHAPIRO"@[9] == 'A' && "PLANET_SHAPIRO"@[10] == 'P'
        && "PLANET_SHAPIRO"@[11] == 'I' && "PLANET_SHAPIRO"@[12] == 'R'
        && "PLANET_SHAPIRO"@[13] == 'O');
    assert("CORRECT_TROPOSPHERE"@.len() == 19 && "CORRECT_TROPOSPHERE"@[0] == 'C'
        && "CORRECT_TROPOSPHERE"@[1] == 'O' && "CORRECT_TROPOSPHERE"@[2] == 'R'
        && "CORRECT_TROPOSPHERE"@[3] == 'R' && "CORRECT_TROPOSPHERE"@[4] == 'E'
        && "CORRECT_TROPOSPHERE"@[5] == 'C' && "CORRECT_TROPOSPHERE"@[6] == 'T'
        && "CORRECT_TROPOSPHERE"@[7] == '_' && "CORRECT_TROPOSPHERE"@[8] == 'T'
        && "CORRECT_TROPOSPHERE"@[9] == 'R' && "CORRECT_TROPOSPHERE"@[10] == 'O'
        && "CORRECT_TROPOSPHERE"@[11] == 'P' && "CORRECT_TROPOSPHERE"@[12] == 'O'
        && "CORRECT_TROPOSPHERE"@[13] == 'S' && "CORRECT_TROPOSPHERE"@[14] == 'P'
        && "CORRECT_TROPOSPHERE"@[15] == 'H' && "CORRECT_TROPOSPHERE"@[16] == 'E'
        && "CORRECT_TROPOSPHERE"@[17] == 'R' && "CORRECT_TROPOSPHERE"@[18] == 'E');
    assert("DILATEFREQ"@.len() == 10 && "DILATEFREQ"@[0] == 'D' && "DILATEFREQ"@[1] == 'I'
        && "DILATEFREQ"@[2] == 'L' && "DILATEFREQ"@[3] == 'A' && "DILATEFREQ"@[4] == 'T'
        && "DILATEFREQ"@[5] == 'E' && "DILATEFREQ"@[6] == 'F' && "DILATEFREQ"@[7] == 'R'
        && "DILATEFREQ"@[8] == 'E' && "DILATEFREQ"@[9] == 'Q');
    assert("P"@.len() == 1 && "P"@[0] == 'P');
    assert("PDOT"@.len() == 4 && "PDOT"@[0] == 'P' && "PDOT"@[1] == 'D' && "PDOT"@[2] == 'O'
        && "PDOT"@[3] == 'T');
    assert("LAMBDA"@.len() == 6 && "LAMBDA"@[0] == 'L' && "LAMBDA"@[1] == 'A'
        && "LAMBDA"@[2] == 'M' && "LAMBDA"@[3] == 'B' && "LAMBDA"@[4] == 'D'
        && "LAMBDA"@[5] == 'A');
    assert("BETA"@.len() == 4 && "BETA"@[0] == 'B' && "BETA"@[1] == 'E' && "BETA"@[2] == 'T'
        && "BETA"@[3] == 'A');
    assert("PMELONG"@.len() == 7 && "PMELONG"@[0] == 'P' && "PMELONG"@[1] == 'M'
        && "PMELONG"@[2] == 'E' && "PMELONG"@[3] == 'L' && "PMELONG"@[4] == 'O'
        && "PMELONG"@[5] == 'N' && "PMELONG"@[6] == 'G');
    assert("PMELAT"@.len() == 6 && "PMELAT"@[0] == 'P' && "PMELAT"@[1] == 'M'
        && "PMELAT"@[2] == 'E' && "PMELAT"@[3] == 'L' && "PMELAT"@[4] == 'A'
        && "PMELAT"@[5] == 'T');
    assert("PBDOT"@.len() == 5 && "PBDOT"@[0] == 'P' && "PBDOT"@[1] == 'B' && "PBDOT"@[2] == 'D'
        && "PBDOT"@[3] == 'O' && "PBDOT"@[4] == 'T');
    assert("E"@.len() == 1 && "E"@[0] == 'E');
    assert("XDOT"@.len() == 4 && "XDOT"@[0] == 'X' && "XDOT"@[1] == 'D' && "XDOT"@[2] == 'O'
        && "XDOT"@[3] == 'T');
    assert("EDOT"@.len() == 4 && "EDOT"@[0] == 'E' && "EDOT"@[1] == 'D' && "EDOT"@[2] == 'O'
        && "EDOT"@[3] == 'T');
    assert("EPS1DOT"@.len() == 7 && "EPS1DOT"@[0] == 'E' && "EPS1DOT"@[1] == 'P'
        && "EPS1DOT"@[2] == 'S' && "EPS1DOT"@[3] == '1' && "EPS1DOT"@[4] == 'D'
        && "EPS1DOT"@[5] == 'O' && "EPS1DOT"@[6] == 'T');
    assert("EPS2DOT"@.len() == 7 && "EPS2DOT"@[0] == 'E' && "EPS2DOT"@[1] == 'P'
        && "EPS2DOT"@[2] == 'S' && "EPS2DOT"@[3] == '2' && "EPS2DOT"@[4] == 'D'
        && "EPS2DOT"@[5] == 'O' && "EPS2DOT"@[6] == 'T');
    assert("KOM"@.len() == 3 && "KOM"@[0] == 'K' && "KOM"@[1] == 'O' && "KOM"@[2] == 'M');
    assert("KIN"@.len() == 3 && "KIN"@[0] == 'K' && "KIN"@[1] == 'I' && "KIN"@[2] == 'N');
    assert("SHAPMAX"@.len() == 7 && "SHAPMAX"@[0] == 'S' && "SHAPMAX"@[1] == 'H'
        && "SHAPMAX"@[2] == 'A' && "SHAPMAX"@[3] == 'P' && "SHAPMAX"@[4] == 'M'
        && "SHAPMAX"@[5] == 'A' && "SHAPMAX"@[6] == 'X');
    assert("MTOT"@.len() == 4 && "MTOT"@[0] == 'M' && "MTOT"@[1] == 'T' && "MTOT"@[2] == 'O'
        && "MTOT"@[3] == 'T');
    assert("NE_SW"@.len() == 5 && "NE_SW"@[0] == 'N' && "NE_SW"@[1] == 'E' && "NE_SW"@[2] == '_'
        && "NE_SW"@[3] == 'S' && "NE_SW"@[4] == 'W');
    assert("CHI2R"@.len() == 5 && "CHI2R"@[0] == 'C' && "CHI2R"@[1] == 'H' && "CHI2R"@[2] == 'I'
        && "CHI2R"@[3] == '2' && "CHI2R"@[4] == 'R');
    let rows = float_rows_part_6();
    assert(rows.len() == 8);
    assert forall|i: int| 0 <= i < rows.len() implies number_row_ok(#[trigger] rows[i]) && keyed_in(
        rows,
        rows[i].name@,
    ) by {
        if i == 0 {
            assert(rows[0].key@ == "EPS1DOT"@ && rows[0].name@ == "EPS1DOT"@);
            assert(free_key("EPS1DOT"@));
            assert(!is_flag_key("EPS1DOT"@));
            assert(!is_float_alias("EPS1DOT"@));
            assert(rows[0].key@ == "EPS1DOT"@);
        }         else if i == 1 {
            assert(rows[1].key@ == "EPS2DOT"@ && rows[1].name@ == "EPS2DOT"@);
            assert(free_key("EPS2DOT"@));
            assert(!is_flag_key("EPS2DOT"@));
            assert(!is_float_alias("EPS2DOT"@));
            assert(rows[1].key@ == "EPS2DOT"@);
        }         else if i == 2 {
            assert(rows[2].key@ == "KOM"@ && rows[2].name@ == "KOM"@);
            assert(free_key("KOM"@));
            assert(!is_flag_key("KOM"@));
            assert(!is_float_alias("KOM"@));
            assert(rows[2].key@ == "KOM"@);
        }         else if i == 3 {
            assert(rows[3].key@ == "KIN"@ && rows[3].name@ == "KIN"@);
            assert(free_key("KIN"@));
            assert(!is_flag_key("KIN"@));
            assert(!is_float_alias("KIN"@));
            assert(rows[3].key@ == "KIN"@);
        }         else if i == 4 {
            assert(rows[4].key@ == "SHAPMAX"@ && rows[4].name@ == "SHAPMAX"@);
            assert(free_key("SHAPMAX"@));
            assert(!is_flag_key("SHAPMAX"@));
            assert(!is_float_alias("SHAPMAX"@));
            assert(rows[4].key@ == "SHAPMAX"@);
        }         else if i == 5 {
            assert(rows[5].key@ == "MTOT"@ && rows[5].name@ == "MTOT"@);
            assert(free_key("MTOT"@));
            assert(!is_flag_key("MTOT"@));
            assert(!is_float_alias("MTOT"@));
            assert(rows[5].key@ == "MTOT"@);
        }         else if i == 6 {
            assert(rows[6].key@ == "NE_SW"@ && rows[6].name@ == "NE_SW"@);
            assert(free_key("NE_SW"@));
            assert(!is_flag_key("NE_SW"@));
            assert(!is_float_alias("NE_SW"@));
            assert(rows[6].key@ == "NE_SW"@);
        }         else if i == 7 {
            assert(rows[7].key@ == "CHI2R"@ && rows[7].name@ == "CHI2R"@);
            assert(free_key("CHI2R"@));
            assert(!is_flag_key("CHI2R"@));
            assert(!is_float_alias("CHI2R"@));
            assert(rows[7].key@ == "CHI2R"@);
        }
    }
}

/// The rows of the table of counts are as they have to be.
pub proof fn lemma_count_rows_ok()
    ensures
        forall|i: int|
            0 <= i < count_rows().len() ==> count_row_ok(#[trigger] count_rows()[i]) && keyed_in(
                count_rows(),
                count_rows()[i].name@,
            ),
{
    reveal_strlit("JUMP");
    reveal_strlit("RA");
    reveal_strlit("RAJ");
    reveal_strlit("DEC");
    reveal_strlit("DECJ");
    reveal_strlit("TIMEEPH");
    reveal_strlit("MODEL");
    reveal_strlit("T2CMETHOD");
    reveal_strlit("UNITS");
    reveal_strlit("MODE");
    reveal_strlit("TEMPO1");
    reveal_strlit("NOTRACK");
    reveal_strlit("NO_SS_SHAPIRO");
    reveal_strlit("IPM");
    reveal_strlit("DILATE_FREQ");
    reveal_strlit("PLANET_SHAPIRO");
    reveal_strlit("CORRECT_TROPOSPHERE");
    reveal_strlit("DILATEFREQ");
    reveal_strlit("F0");
    reveal_strlit("F1");
    reveal_strlit("F2");
    reveal_strlit("F3");
    reveal_strlit("F4");
    reveal_strlit("F5");
    reveal_strlit("F6");
    reveal_strlit("P0");
    reveal_strlit("P");
    reveal_strlit("P1");
    reveal_strlit("PDOT");
    reveal_strlit("PEPOCH");
    reveal_strlit("ELONG");
    reveal_strlit("LAMBDA");
    reveal_strlit("ELAT");
    reveal_strlit("BETA");
    reveal_strlit("POSEPOCH");
    reveal_strlit("PMLAMBDA");
    reveal_strlit("PMELONG");
    reveal_strlit("PMBETA");
    reveal_strlit("PMELAT");
    reveal_strlit("PMRA");
    reveal_strlit("PMDEC");
    reveal_strlit("DMEPOCH");
    reveal_strlit("DM");
    reveal_strlit("DM1");
    reveal_strlit("DM2");
    reveal_strlit("DM3");
    reveal_strlit("DM4");
    reveal_strlit("DM5");
    reveal_strlit("DM6");
    reveal_strlit("FDD");
    reveal_strlit("PX");
    reveal_strlit("PMRV");
    reveal_strlit("WAVE_OM");
    reveal_strlit("WAVE1");
    reveal_strlit("WAVE2");
    reveal_strlit("WAVE3");
    reveal_strlit("WAVE4");
    reveal_strlit("WAVE5");
    reveal_strlit("WAVE6");
    reveal_strlit("TRES");
    reveal_strlit("NE1AU");
    reveal_strlit("TZRMJD");
    reveal_strlit("TZRFRQ");
    reveal_strlit("START");
    reveal_strlit("FINISH");
    reveal_strlit("A1");
    reveal_strlit("PB");
    reveal_strlit("PBDOT");
    reveal_strlit("PB2");
    reveal_strlit("PB3");
    reveal_strlit("PB5");
    reveal_strlit("PB6");
    reveal_strlit("ECC");
    reveal_strlit("E");
    reveal_strlit("T0");
    reveal_strlit("OM");
    reveal_strlit("TASC");
    reveal_strlit("EPS1");
    reveal_strlit("EPS2");
    reveal_strlit("OMDOT");
    reveal_strlit("A1DOT");
    reveal_strlit("XDOT");
    reveal_strlit("SINI");
    reveal_strlit("M2");
    reveal_strlit("XPBDOT");
    reveal_strlit("ECCDOT");
    reveal_strlit("EDOT");
    reveal_strlit("GAMMA");
    reveal_strlit("DR");
    reveal_strlit("DTH");
    reveal_strlit("A0");
    reveal_strlit("B0");
    reveal_strlit("BP");
    reveal_strlit("BPP");
    reveal_strlit("DTHETA");
    reveal_strlit("XOMDOT");
    reveal_strlit("EPS1DOT");
    reveal_strlit("EPS2DOT");
    reveal_strlit("KOM");
    reveal_strlit("KIN");
    reveal_strlit("SHAPMAX");
    reveal_strlit("MTOT");
    reveal_strlit("NE_SW");
    reveal_strlit("CHI2R");
    reveal_strlit("NITS");
    reveal_strlit("IBOOT");
    reveal_strlit("NTOA");
    assert("JUMP"@.len() == 4 && "JUMP"@[0] == 'J' && "JUMP"@[1] == 'U' && "JUMP"@[2] == 'M'
        && "JUMP"@[3] == 'P');
    assert("RA"@.len() == 2 && "RA"@[0] == 'R' && "RA"@[1] == 'A');
    assert("RAJ"@.len() == 3 && "RAJ"@[0] == 'R' && "RAJ"@[1] == 'A' && "RAJ"@[2] == 'J');
    assert("DEC"@.len() == 3 && "DEC"@[0] == 'D' && "DEC"@[1] == 'E' && "DEC"@[2] == 'C');
    assert("DECJ"@.len() == 4 && "DECJ"@[0] == 'D' && "DECJ"@[1] == 'E' && "DECJ"@[2] == 'C'
        && "DECJ"@[3] == 'J');
    assert("TIMEEPH"@.len() == 7 && "TIMEEPH"@[0] == 'T' && "TIMEEPH"@[1] == 'I'
        && "TIMEEPH"@[2] == 'M' && "TIMEEPH"@[3] == 'E' && "TIMEEPH"@[4] == 'E'
        && "TIMEEPH"@[5] == 'P' && "TIMEEPH"@[6] == 'H');
    assert("MODEL"@.len() == 5 && "MODEL"@[0] == 'M' && "MODEL"@[1] == 'O' && "MODEL"@[2] == 'D'
        && "MODEL"@[3] == 'E' && "MODEL"@[4] == 'L');
    assert("T2CMETHOD"@.len() == 9 && "T2CMETHOD"@[0] == 'T' && "T2CMETHOD"@[1] == '2'
        && "T2CMETHOD"@[2] == 'C' && "T2CMETHOD"@[3] == 'M' && "T2CMETHOD"@[4] == 'E'
        && "T2CMETHOD"@[5] == 'T' && "T2CMETHOD"@[6] == 'H' && "T2CMETHOD"@[7] == 'O'
        && "T2CMETHOD"@[8] == 'D');
    assert("UNITS"@.len() == 5 && "UNITS"@[0] == 'U' && "UNITS"@[1] == 'N' && "UNITS"@[2] == 'I'
        && "UNITS"@[3] == 'T' && "UNITS"@[4] == 'S');
    assert("MODE"@.len() == 4 && "MODE"@[0] == 'M' && "MODE"@[1] == 'O' && "MODE"@[2] == 'D'
        && "MODE"@[3] == 'E');
    assert("TEMPO1"@.len() == 6 && "TEMPO1"@[0] == 'T' && "TEMPO1"@[1] == 'E'
        && "TEMPO1"@[2] == 'M' && "TEMPO1"@[3] == 'P' && "TEMPO1"@[4] == 'O'
        && "TEMPO1"@[5] == '1');
    assert("NOTRACK"@.len() == 7 && "NOTRACK"@[0] == 'N' && "NOTRACK"@[1] == 'O'
        && "NOTRACK"@[2] == 'T' && "NOTRACK"@[3] == 'R' && "NOTRACK"@[4] == 'A'
        && "NOTRACK"@[5] == 'C' && "NOTRACK"@[6] == 'K');
    assert("NO_SS_SHAPIRO"@.len() == 13 && "NO_SS_SHAPIRO"@[0] == 'N'
        && "NO_SS_SHAPIRO"@[1] == 'O' && "NO_SS_SHAPIRO"@[2] == '_'
        && "NO_SS_SHAPIRO"@[3] == 'S' && "NO_SS_SHAPIRO"@[4] == 'S'
        && "NO_SS_SHAPIRO"@[5] == '_' && "NO_SS_SHAPIRO"@[6] == 'S'
        && "NO_SS_SHAPIRO"@[7] == 'H' && "NO_SS_SHAPIRO"@[8] == 'A'
        && "NO_SS_SHAPIRO"@[9] == 'P' && "NO_SS_SHAPIRO"@[10] == 'I'
        && "NO_SS_SHAPIRO"@[11] == 'R' && "NO_SS_SHAPIRO"@[12] == 'O');
    assert("IPM"@.len() == 3 && "IPM"@[0] == 'I' && "IPM"@[1] == 'P' && "IPM"@[2] == 'M');
    assert("DILATE_FREQ"@.len() == 11 && "DILATE_FREQ"@[0] == 'D' && "DILATE_FREQ"@[1] == 'I'
        && "DILATE_FREQ"@[2] == 'L' && "DILATE_FREQ"@[3] == 'A' && "DILATE_FREQ"@[4] == 'T'
        && "DILATE_FREQ"@[5] == 'E' && "DILATE_FREQ"@[6] == '_' && "DILATE_FREQ"@[7] == 'F'
        && "DILATE_FREQ"@[8] == 'R' && "DILATE_FREQ"@[9] == 'E' && "DILATE_FREQ"@[10] == 'Q');
    assert("PLANET_SHAPIRO"@.len() == 14 && "PLANET_SHAPIRO"@[0] == 'P'
        && "PLANET_SHAPIRO"@[1] == 'L' && "PLANET_SHAPIRO"@[2] == 'A'
        && "PLANET_SHAPIRO"@[3] == 'N' && "PLANET_SHAPIRO"@[4] == 'E'
        && "PLANET_SHAPIRO"@[5] == 'T' && "PLANET_SHAPIRO"@[6] == '_'
        && "PLANET_SHAPIRO"@[7] == 'S' && "PLANET_SHAPIRO"@[8] == 'H'
        && "PLANET_SHAPIRO"@[9] == 'A' && "PLANET_SHAPIRO"@[10] == 'P'
        && "PLANET_SHAPIRO"@[11] == 'I' && "PLANET_SHAPIRO"@[12] == 'R'
        && "PLANET_SHAPIRO"@[13] == 'O');
    assert("CORRECT_TROPOSPHERE"@.len() == 19 && "CORRECT_TROPOSPHERE"@[0] == 'C'
        && "CORRECT_TROPOSPHERE"@[1] == 'O' && "CORRECT_TROPOSPHERE"@[2] == 'R'
        && "CORRECT_TROPOSPHERE"@[3] == 'R' && "CORRECT_TROPOSPHERE"@[4] == 'E'
        && "CORRECT_TROPOSPHERE"@[5] == 'C' && "CORRECT_TROPOSPHERE"@[6] == 'T'
        && "CORRECT_TROPOSPHERE"@[7] == '_' && "CORRECT_TROPOSPHERE"@[8] == 'T'
        && "CORRECT_TROPOSPHERE"@[9] == 'R' && "CORRECT_TROPOSPHERE"@[10] == 'O'
        && "CORRECT_TROPOSPHERE"@[11] == 'P' && "CORRECT_TROPOSPHERE"@[12] == 'O'
        && "CORRECT_TROPOSPHERE"@[13] == 'S' && "CORRECT_TROPOSPHERE"@[14] == 'P'
        && "CORRECT_TROPOSPHERE"@[15] == 'H' && "CORRECT_TROPOSPHERE"@[16] == 'E'
        && "CORRECT_TROPOSPHERE"@[17] == 'R' && "CORRECT_TROPOSPHERE"@[18] == 'E');
    assert("DILATEFREQ"@.len() == 10 && "DILATEFREQ"@[0] == 'D' && "DILATEFREQ"@[1] == 'I'
        && "DILATEFREQ"@[2] == 'L' && "DILATEFREQ"@[3] == 'A' && "DILATEFREQ"@[4] == 'T'
        && "DILATEFREQ"@[5] == 'E' && "DILATEFREQ"@[6] == 'F' && "DILATEFREQ"@[7] == 'R'
        && "DILATEFREQ"@[8] == 'E' && "DILATEFREQ"@[9] == 'Q');
    assert("F0"@.len() == 2 && "F0"@[0] == 'F' && "F0"@[1] == '0');
    assert("F1"@.len() == 2 && "F1"@[0] == 'F' && "F1"@[1] == '1');
    assert("F2"@.len() == 2 && "F2"@[0] == 'F' && "F2"@[1] == '2');
    assert("F3"@.len() == 2 && "F3"@[0] == 'F' && "F3"@[1] == '3');
    assert("F4"@.len() == 2 && "F4"@[0] == 'F' && "F4"@[1] == '4');
    assert("F5"@.len() == 2 && "F5"@[0] == 'F' && "F5"@[1] == '5');
    assert("F6"@.len() == 2 && "F6"@[0] == 'F' && "F6"@[1] == '6');
    assert("P0"@.len() == 2 && "P0"@[0] == 'P' && "P0"@[1] == '0');
    assert("P"@.len() == 1 && "P"@[0] == 'P');
    assert("P1"@.len() == 2 && "P1"@[0] == 'P' && "P1"@[1] == '1');
    assert("PDOT"@.len() == 4 && "PDOT"@[0] == 'P' && "PDOT"@[1] == 'D' && "PDOT"@[2] == 'O'
        && "PDOT"@[3] == 'T');
    assert("PEPOCH"@.len() == 6 && "PEPOCH"@[0] == 'P' && "PEPOCH"@[1] == 'E'
        && "PEPOCH"@[2] == 'P' && "PEPOCH"@[3] == 'O' && "PEPOCH"@[4] == 'C'
        && "PEPOCH"@[5] == 'H');
    assert("ELONG"@.len() == 5 && "ELONG"@[0] == 'E' && "ELONG"@[1] == 'L' && "ELONG"@[2] == 'O'
        && "ELONG"@[3] == 'N' && "ELONG"@[4] == 'G');
    assert("LAMBDA"@.len() == 6 && "LAMBDA"@[0] == 'L' && "LAMBDA"@[1] == 'A'
        && "LAMBDA"@[2] == 'M' && "LAMBDA"@[3] == 'B' && "LAMBDA"@[4] == 'D'
        && "LAMBDA"@[5] == 'A');
    assert("ELAT"@.len() == 4 && "ELAT"@[0] == 'E' && "ELAT"@[1] == 'L' && "ELAT"@[2] == 'A'
        && "ELAT"@[3] == 'T');
    assert("BETA"@.len() == 4 && "BETA"@[0] == 'B' && "BETA"@[1] == 'E' && "BETA"@[2] == 'T'
        && "BETA"@[3] == 'A');
    assert("POSEPOCH"@.len() == 8 && "POSEPOCH"@[0] == 'P' && "POSEPOCH"@[1] == 'O'
        && "POSEPOCH"@[2] == 'S' && "POSEPOCH"@[3] == 'E' && "POSEPOCH"@[4] == 'P'
        && "POSEPOCH"@[5] == 'O' && "POSEPOCH"@[6] == 'C' && "POSEPOCH"@[7] == 'H');
    assert("PMLAMBDA"@.len() == 8 && "PMLAMBDA"@[0] == 'P' && "PMLAMBDA"@[1] == 'M'
        && "PMLAMBDA"@[2] == 'L' && "PMLAMBDA"@[3] == 'A' && "PMLAMBDA"@[4] == 'M'
        && "PMLAMBDA"@[5] == 'B' && "PMLAMBDA"@[6] == 'D' && "PMLAMBDA"@[7] == 'A');
    assert("PMELONG"@.len() == 7 && "PMELONG"@[0] == 'P' && "PMELONG"@[1] == 'M'
        && "PMELONG"@[2] == 'E' && "PMELONG"@[3] == 'L' && "PMELONG"@[4] == 'O'
        && "PMELONG"@[5] == 'N' && "PMELONG"@[6] == 'G');
    assert("PMBETA"@.len() == 6 && "PMBETA"@[0] == 'P' && "PMBETA"@[1] == 'M'
        && "PMBETA"@[2] == 'B' && "PMBETA"@[3] == 'E' && "PMBETA"@[4] == 'T'
        && "PMBETA"@[5] == 'A');
    assert("PMELAT"@.len() == 6 && "PMELAT"@[0] == 'P' && "PMELAT"@[1] == 'M'
        && "PMELAT"@[2] == 'E' && "PMELAT"@[3] == 'L' && "PMELAT"@[4] == 'A'
        && "PMELAT"@[5] == 'T');
    assert("PMRA"@.len() == 4 && "PMRA"@[0] == 'P' && "PMRA"@[1] == 'M' && "PMRA"@[2] == 'R'
        && "PMRA"@[3] == 'A');
    assert("PMDEC"@.len() == 5 && "PMDEC"@[0] == 'P' && "PMDEC"@[1] == 'M' && "PMDEC"@[2] == 'D'
        && "PMDEC"@[3] == 'E' && "PMDEC"@[4] == 'C');
    assert("DMEPOCH"@.len() == 7 && "DMEPOCH"@[0] == 'D' && "DMEPOCH"@[1] == 'M'
        && "DMEPOCH"@[2] == 'E' && "DMEPOCH"@[3] == 'P' && "DMEPOCH"@[4] == 'O'
        && "DMEPOCH"@[5] == 'C' && "DMEPOCH"@[6] == 'H');
    assert("DM"@.len() == 2 && "DM"@[0] == 'D' && "DM"@[1] == 'M');
    assert("DM1"@.len() == 3 && "DM1"@[0] == 'D' && "DM1"@[1] == 'M' && "DM1"@[2] == '1');
    assert("DM2"@.len() == 3 && "DM2"@[0] == 'D' && "DM2"@[1] == 'M' && "DM2"@[2] == '2');
    assert("DM3"@.len() == 3 && "DM3"@[0] == 'D' && "DM3"@[1] == 'M' && "DM3"@[2] == '3');
    assert("DM4"@.len() == 3 && "DM4"@[0] == 'D' && "DM4"@[1] == 'M' && "DM4"@[2] == '4');
    assert("DM5"@.len() == 3 && "DM5"@[0] == 'D' && "DM5"@[1] == 'M' && "DM5"@[2] == '5');
    assert("DM6"@.len() == 3 && "DM6"@[0] == 'D' && "DM6"@[1] == 'M' && "DM6"@[2] == '6');
    assert("FDD"@.len() == 3 && "FDD"@[0] == 'F' && "FDD"@[1] == 'D' && "FDD"@[2] == 'D');
    assert("PX"@.len() == 2 && "PX"@[0] == 'P' && "PX"@[1] == 'X');
    assert("PMRV"@.len() == 4 && "PMRV"@[0] == 'P' && "PMRV"@[1] == 'M' && "PMRV"@[2] == 'R'
        && "PMRV"@[3] == 'V');
    assert("WAVE_OM"@.len() == 7 && "WAVE_OM"@[0] == 'W' && "WAVE_OM"@[1] == 'A'
        && "WAVE_OM"@[2] == 'V' && "WAVE_OM"@[3] == 'E' && "WAVE_OM"@[4] == '_'
        && "WAVE_OM"@[5] == 'O' && "WAVE_OM"@[6] == 'M');
    assert("WAVE1"@.len() == 5 && "WAVE1"@[0] == 'W' && "WAVE1"@[1] == 'A' && "WAVE1"@[2] == 'V'
        && "WAVE1"@[3] == 'E' && "WAVE1"@[4] == '1');
    assert("WAVE2"@.len() == 5 && "WAVE2"@[0] == 'W' && "WAVE2"@[1] == 'A' && "WAVE2"@[2] == 'V'
        && "WAVE2"@[3] == 'E' && "WAVE2"@[4] == '2');
    assert("WAVE3"@.len() == 5 && "WAVE3"@[0] == 'W' && "WAVE3"@[1] == 'A' && "WAVE3"@[2] == 'V'
        && "WAVE3"@[3] == 'E' && "WAVE3"@[4] == '3');
    assert("WAVE4"@.len() == 5 && "WAVE4"@[0] == 'W' && "WAVE4"@[1] == 'A' && "WAVE4"@[2] == 'V'
        && "WAVE4"@[3] == 'E' && "WAVE4"@[4] == '4');
    assert("WAVE5"@.len() == 5 && "WAVE5"@[0] == 'W' && "WAVE5"@[1] == 'A' && "WAVE5"@[2] == 'V'
        && "WAVE5"@[3] == 'E' && "WAVE5"@[4] == '5');
    assert("WAVE6"@.len() == 5 && "WAVE6"@[0] == 'W' && "WAVE6"@[1] == 'A' && "WAVE6"@[2] == 'V'
        && "WAVE6"@[3] == 'E' && "WAVE6"@[4] == '6');
    assert("TRES"@.len() == 4 && "TRES"@[0] == 'T' && "TRES"@[1] == 'R' && "TRES"@[2] == 'E'
        && "TRES"@[3] == 'S');
    assert("NE1AU"@.len() == 5 && "NE1AU"@[0] == 'N' && "NE1AU"@[1] == 'E' && "NE1AU"@[2] == '1'
        && "NE1AU"@[3] == 'A' && "NE1AU"@[4] == 'U');
    assert("TZRMJD"@.len() == 6 && "TZRMJD"@[0] == 'T' && "TZRMJD"@[1] == 'Z'
        && "TZRMJD"@[2] == 'R' && "TZRMJD"@[3] == 'M' && "TZRMJD"@[4] == 'J'
        && "TZRMJD"@[5] == 'D');
    assert("TZRFRQ"@.len() == 6 && "TZRFRQ"@[0] == 'T' && "TZRFRQ"@[1] == 'Z'
        && "TZRFRQ"@[2] == 'R' && "TZRFRQ"@[3] == 'F' && "TZRFRQ"@[4] == 'R'
        && "TZRFRQ"@[5] == 'Q');
    assert("START"@.len() == 5 && "START"@[0] == 'S' && "START"@[1] == 'T' && "START"@[2] == 'A'
        && "START"@[3] == 'R' && "START"@[4] == 'T');
    assert("FINISH"@.len() == 6 && "FINISH"@[0] == 'F' && "FINISH"@[1] == 'I'
        && "FINISH"@[2] == 'N' && "FINISH"@[3] == 'I' && "FINISH"@[4] == 'S'
        && "FINISH"@[5] == 'H');
    assert("A1"@.len() == 2 && "A1"@[0] == 'A' && "A1"@[1] == '1');
    assert("PB"@.len() == 2 && "PB"@[0] == 'P' && "PB"@[1] == 'B');
    assert("PBDOT"@.len() == 5 && "PBDOT"@[0] == 'P' && "PBDOT"@[1] == 'B' && "PBDOT"@[2] == 'D'
        && "PBDOT"@[3] == 'O' && "PBDOT"@[4] == 'T');
    assert("PB2"@.len() == 3 && "PB2"@[0] == 'P' && "PB2"@[1] == 'B' && "PB2"@[2] == '2');
    assert("PB3"@.len() == 3 && "PB3"@[0] == 'P' && "PB3"@[1] == 'B' && "PB3"@[2] == '3');
    assert("PB5"@.len() == 3 && "PB5"@[0] == 'P' && "PB5"@[1] == 'B' && "PB5"@[2] == '5');
    assert("PB6"@.len() == 3 && "PB6"@[0] == 'P' && "PB6"@[1] == 'B' && "PB6"@[2] == '6');
    assert("ECC"@.len() == 3 && "ECC"@[0] == 'E' && "ECC"@[1] == 'C' && "ECC"@[2] == 'C');
    assert("E"@.len() == 1 && "E"@[0] == 'E');
    assert("T0"@.len() == 2 && "T0"@[0] == 'T' && "T0"@[1] == '0');
    assert("OM"@.len() == 2 && "OM"@[0] == 'O' && "OM"@[1] == 'M');
    assert("TASC"@.len() == 4 && "TASC"@[0] == 'T' && "TASC"@[1] == 'A' && "TASC"@[2] == 'S'
        && "TASC"@[3] == 'C');
    assert("EPS1"@.len() == 4 && "EPS1"@[0] == 'E' && "EPS1"@[1] == 'P' && "EPS1"@[2] == 'S'
        && "EPS1"@[3] == '1');
    assert("EPS2"@.len() == 4 && "EPS2"@[0] == 'E' && "EPS2"@[1] == 'P' && "EPS2"@[2] == 'S'
        && "EPS2"@[3] == '2');
    assert("OMDOT"@.len() == 5 && "OMDOT"@[0] == 'O' && "OMDOT"@[1] == 'M' && "OMDOT"@[2] == 'D'
        && "OMDOT"@[3] == 'O' && "OMDOT"@[4] == 'T');
    assert("A1DOT"@.len() == 5 && "A1DOT"@[0] == 'A' && "A1DOT"@[1] == '1' && "A1DOT"@[2] == 'D'
        && "A1DOT"@[3] == 'O' && "A1DOT"@[4] == 'T');
    assert("XDOT"@.len() == 4 && "XDOT"@[0] == 'X' && "XDOT"@[1] == 'D' && "XDOT"@[2] == 'O'
        && "XDOT"@[3] == 'T');
    assert("SINI"@.len() == 4 && "SINI"@[0] == 'S' && "SINI"@[1] == 'I' && "SINI"@[2] == 'N'
        && "SINI"@[3] == 'I');
    assert("M2"@.len() == 2 && "M2"@[0] == 'M' && "M2"@[1] == '2');
    assert("XPBDOT"@.len() == 6 && "XPBDOT"@[0] == 'X' && "XPBDOT"@[1] == 'P'
        && "XPBDOT"@[2] == 'B' && "XPBDOT"@[3] == 'D' && "XPBDOT"@[4] == 'O'
        && "XPBDOT"@[5] == 'T');
    assert("ECCDOT"@.len() == 6 && "ECCDOT"@[0] == 'E' && "ECCDOT"@[1] == 'C'
        && "ECCDOT"@[2] == 'C' && "ECCDOT"@[3] == 'D' && "ECCDOT"@[4] == 'O'
        && "ECCDOT"@[5] == 'T');
    assert("EDOT"@.len() == 4 && "EDOT"@[0] == 'E' && "EDOT"@[1] == 'D' && "EDOT"@[2] == 'O'
        && "EDOT"@[3] == 'T');
    assert("GAMMA"@.len() == 5 && "GAMMA"@[0] == 'G' && "GAMMA"@[1] == 'A' && "GAMMA"@[2] == 'M'
        && "GAMMA"@[3] == 'M' && "GAMMA"@[4] == 'A');
    assert("DR"@.len() == 2 && "DR"@[0] == 'D' && "DR"@[1] == 'R');
    assert("DTH"@.len() == 3 && "DTH"@[0] == 'D' && "DTH"@[1] == 'T' && "DTH"@[2] == 'H');
    assert("A0"@.len() == 2 && "A0"@[0] == 'A' && "A0"@[1] == '0');
    assert("B0"@.len() == 2 && "B0"@[0] == 'B' && "B0"@[1] == '0');
    assert("BP"@.len() == 2 && "BP"@[0] == 'B' && "BP"@[1] == 'P');
    assert("BPP"@.len() == 3 && "BPP"@[0] == 'B' && "BPP"@[1] == 'P' && "BPP"@[2] == 'P');
    assert("DTHETA"@.len() == 6 && "DTHETA"@[0] == 'D' && "DTHETA"@[1] == 'T'
        && "DTHETA"@[2] == 'H' && "DTHETA"@[3] == 'E' && "DTHETA"@[4] == 'T'
        && "DTHETA"@[5] == 'A');
    assert("XOMDOT"@.len() == 6 && "XOMDOT"@[0] == 'X' && "XOMDOT"@[1] == 'O'
        && "XOMDOT"@[2] == 'M' && "XOMDOT"@[3] == 'D' && "XOMDOT"@[4] == 'O'
        && "XOMDOT"@[5] == 'T');
    assert("EPS1DOT"@.len() == 7 && "EPS1DOT"@[0] == 'E' && "EPS1DOT"@[1] == 'P'
        && "EPS1DOT"@[2] == 'S' && "EPS1DOT"@[3] == '1' && "EPS1DOT"@[4] == 'D'
        && "EPS1DOT"@[5] == 'O' && "EPS1DOT"@[6] == 'T');
    assert("EPS2DOT"@.len() == 7 && "EPS2DOT"@[0] == 'E' && "EPS2DOT"@[1] == 'P'
        && "EPS2DOT"@[2] == 'S' && "EPS2DOT"@[3] == '2' && "EPS2DOT"@[4] == 'D'
        && "EPS2DOT"@[5] == 'O' && "EPS2DOT"@[6] == 'T');
    assert("KOM"@.len() == 3 && "KOM"@[0] == 'K' && "KOM"@[1] == 'O' && "KOM"@[2] == 'M');
    assert("KIN"@.len() == 3 && "KIN"@[0] == 'K' && "KIN"@[1] == 'I' && "KIN"@[2] == 'N');
    assert("SHAPMAX"@.len() == 7 && "SHAPMAX"@[0] == 'S' && "SHAPMAX"@[1] == 'H'
        && "SHAPMAX"@[2] == 'A' && "SHAPMAX"@[3] == 'P' && "SHAPMAX"@[4] == 'M'
        && "SHAPMAX"@[5] == 'A' && "SHAPMAX"@[6] == 'X');
    assert("MTOT"@.len() == 4 && "MTOT"@[0] == 'M' && "MTOT"@[1] == 'T' && "MTOT"@[2] == 'O'
        && "MTOT"@[3] == 'T');
    assert("NE_SW"@.len() == 5 && "NE_SW"@[0] == 'N' && "NE_SW"@[1] == 'E' && "NE_SW"@[2] == '_'
        && "NE_SW"@[3] == 'S' && "NE_SW"@[4] == 'W');
    assert("CHI2R"@.len() == 5 && "CHI2R"@[0] == 'C' && "CHI2R"@[1] == 'H' && "CHI2R"@[2] == 'I'
        && "CHI2R"@[3] == '2' && "CHI2R"@[4] == 'R');
    assert("NITS"@.len() == 4 && "NITS"@[0] == 'N' && "NITS"@[1] == 'I' && "NITS"@[2] == 'T'
        && "NITS"@[3] == 'S');
    assert("IBOOT"@.len() == 5 && "IBOOT"@[0] == 'I' && "IBOOT"@[1] == 'B' && "IBOOT"@[2] == 'O'
        && "IBOOT"@[3] == 'O' && "IBOOT"@[4] == 'T');
    assert("NTOA"@.len() == 4 && "NTOA"@[0] == 'N' && "NTOA"@[1] == 'T' && "NTOA"@[2] == 'O'
        && "NTOA"@[3] == 'A');
    let rows = count_rows();
    assert(rows.len() == 3);
    assert forall|i: int| 0 <= i < rows.len() implies count_row_ok(#[trigger] rows[i]) && keyed_in(
        rows,
        rows[i].name@,
    ) by {
        if i == 0 {
            assert(rows[0].key@ == "NITS"@ && rows[0].name@ == "NITS"@);
            assert(free_key("NITS"@));
            assert(!is_flag_key("NITS"@));
            assert(!is_float_key_1("NITS"@));
            assert(!is_float_key_2("NITS"@));
            assert(!is_float_key_3("NITS"@));
            assert(!is_float_key_4("NITS"@));
            assert(!is_float_key_5("NITS"@));
            assert(!is_float_key_6("NITS"@));
            assert(rows[0].key@ == "NITS"@);
        }         else if i == 1 {
            assert(rows[1].key@ == "IBOOT"@ && rows[1].name@ == "IBOOT"@);
            assert(free_key("IBOOT"@));
            assert(!is_flag_key("IBOOT"@));
            assert(!is_float_key_1("IBOOT"@));
            assert(!is_float_key_2("IBOOT"@));
            assert(!is_float_key_3("IBOOT"@));
            assert(!is_float_key_4("IBOOT"@));
            assert(!is_float_key_5("IBOOT"@));
            assert(!is_float_key_6("IBOOT"@));
            assert(rows[1].key@ == "IBOOT"@);
        }         else if i == 2 {
            assert(rows[2].key@ == "NTOA"@ && rows[2].name@ == "NTOA"@);
            assert(free_key("NTOA"@));
            assert(!is_flag_key("NTOA"@));
            assert(!is_float_key_1("NTOA"@));
            assert(!is_float_key_2("NTOA"@));
            assert(!is_float_key_3("NTOA"@));
            assert(!is_float_key_4("NTOA"@));
            assert(!is_float_key_5("NTOA"@));
            assert(!is_float_key_6("NTOA"@));
            assert(rows[2].key@ == "NTOA"@);
        }
    }
}

/// The rows of the table of texts are as they have to be.
pub proof fn lemma_text_rows_ok()
    ensures
        forall|i: int|
            0 <= i < text_rows().len() ==> text_row_ok(#[trigger] text_rows()[i]) && keyed_in(
                text_rows(),
                text_rows()[i].name@,
            ),
{
    reveal_strlit("JUMP");
    reveal_strlit("RA");
    reveal_strlit("RAJ");
    reveal_strlit("DEC");
    reveal_strlit("DECJ");
    reveal_strlit("TIMEEPH");
    reveal_strlit("MODEL");
    reveal_strlit("T2CMETHOD");
    reveal_strlit("UNITS");
    reveal_strlit("MODE");
    reveal_strlit("TEMPO1");
    reveal_strlit("NOTRACK");
    reveal_strlit("NO_SS_SHAPIRO");
    reveal_strlit("IPM");
    reveal_strlit("DILATE_FREQ");
    reveal_strlit("PLANET_SHAPIRO");
    reveal_strlit("CORRECT_TROPOSPHERE");
    reveal_strlit("DILATEFREQ");
    reveal_strlit("F0");
    reveal_strlit("F1");
    reveal_strlit("F2");
    reveal_strlit("F3");
    reveal_strlit("F4");
    reveal_strlit("F5");
    reveal_strlit("F6");
    reveal_strlit("P0");
    reveal_strlit("P");
    reveal_strlit("P1");
    reveal_strlit("PDOT");
    reveal_strlit("PEPOCH");
    reveal_strlit("ELONG");
    reveal_strlit("LAMBDA");
    reveal_strlit("ELAT");
    reveal_strlit("BETA");
    reveal_strlit("POSEPOCH");
    reveal_strlit("PMLAMBDA");
    reveal_strlit("PMELONG");
    reveal_strlit("PMBETA");
    reveal_strlit("PMELAT");
    reveal_strlit("PMRA");
    reveal_strlit("PMDEC");
    reveal_strlit("DMEPOCH");
    reveal_strlit("DM");
    reveal_strlit("DM1");
    reveal_strlit("DM2");
    reveal_strlit("DM3");
    reveal_strlit("DM4");
    reveal_strlit("DM5");
    reveal_strlit("DM6");
    reveal_strlit("FDD");
    reveal_strlit("PX");
    reveal_strlit("PMRV");
    reveal_strlit("WAVE_OM");
    reveal_strlit("WAVE1");
    reveal_strlit("WAVE2");
    reveal_strlit("WAVE3");
    reveal_strlit("WAVE4");
    reveal_strlit("WAVE5");
    reveal_strlit("WAVE6");
    reveal_strlit("TRES");
    reveal_strlit("NE1AU");
    reveal_strlit("TZRMJD");
    reveal_strlit("TZRFRQ");
    reveal_strlit("START");
    reveal_strlit("FINISH");
    reveal_strlit("A1");
    reveal_strlit("PB");
    reveal_strlit("PBDOT");
    reveal_strlit("PB2");
    reveal_strlit("PB3");
    reveal_strlit("PB5");
    reveal_strlit("PB6");
    reveal_strlit("ECC");
    reveal_strlit("E");
    reveal_strlit("T0");
    reveal_strlit("OM");
    reveal_strlit("TASC");
    reveal_strlit("EPS1");
    reveal_strlit("EPS2");
    reveal_strlit("OMDOT");
    reveal_strlit("A1DOT");
    reveal_strlit("XDOT");
    reveal_strlit("SINI");
    reveal_strlit("M2");
    reveal_strlit("XPBDOT");
    reveal_strlit("ECCDOT");
    reveal_strlit("EDOT");
    reveal_strlit("GAMMA");
    reveal_strlit("DR");
    reveal_strlit("DTH");
    reveal_strlit("A0");
    reveal_strlit("B0");
    reveal_strlit("BP");
    reveal_strlit("BPP");
    reveal_strlit("DTHETA");
    reveal_strlit("XOMDOT");
    reveal_strlit("EPS1DOT");
    reveal_strlit("EPS2DOT");
    reveal_strlit("KOM");
    reveal_strlit("KIN");
    reveal_strlit("SHAPMAX");
    reveal_strlit("MTOT");
    reveal_strlit("NE_SW");
    reveal_strlit("CHI2R");
    reveal_strlit("NITS");
    reveal_strlit("IBOOT");
    reveal_strlit("NTOA");
    reveal_strlit("PSRJ");
    reveal_strlit("PSRB");
    reveal_strlit("TSPAN");
    reveal_strlit("PSR");
    reveal_strlit("CLK");
    reveal_strlit("CLK_CORR_CHAIN");
    reveal_strlit("EPHEM");
    reveal_strlit("TZRSITE");
    reveal_strlit("NSPAN");
    reveal_strlit("EPHVER");
    reveal_strlit("TRACK");
    reveal_strlit("AFAC");
    reveal_strlit("DM_SERIES");
    assert("JUMP"@.len() == 4 && "JUMP"@[0] == 'J' && "JUMP"@[1] == 'U' && "JUMP"@[2] == 'M'
        && "JUMP"@[3] == 'P');
    assert("RA"@.len() == 2 && "RA"@[0] == 'R' && "RA"@[1] == 'A');
    assert("RAJ"@.len() == 3 && "RAJ"@[0] == 'R' && "RAJ"@[1] == 'A' && "RAJ"@[2] == 'J');
    assert("DEC"@.len() == 3 && "DEC"@[0] == 'D' && "DEC"@[1] == 'E' && "DEC"@[2] == 'C');
    assert("DECJ"@.len() == 4 && "DECJ"@[0] == 'D' && "DECJ"@[1] == 'E' && "DECJ"@[2] == 'C'
        && "DECJ"@[3] == 'J');
    assert("TIMEEPH"@.len() == 7 && "TIMEEPH"@[0] == 'T' && "TIMEEPH"@[1] == 'I'
        && "TIMEEPH"@[2] == 'M' && "TIMEEPH"@[3] == 'E' && "TIMEEPH"@[4] == 'E'
        && "TIMEEPH"@[5] == 'P' && "TIMEEPH"@[6] == 'H');
    assert("MODEL"@.len() == 5 && "MODEL"@[0] == 'M' && "MODEL"@[1] == 'O' && "MODEL"@[2] == 'D'
        && "MODEL"@[3] == 'E' && "MODEL"@[4] == 'L');
    assert("T2CMETHOD"@.len() == 9 && "T2CMETHOD"@[0] == 'T' && "T2CMETHOD"@[1] == '2'
        && "T2CMETHOD"@[2] == 'C' && "T2CMETHOD"@[3] == 'M' && "T2CMETHOD"@[4] == 'E'
        && "T2CMETHOD"@[5] == 'T' && "T2CMETHOD"@[6] == 'H' && "T2CMETHOD"@[7] == 'O'
        && "T2CMETHOD"@[8] == 'D');
    assert("UNITS"@.len() == 5 && "UNITS"@[0] == 'U' && "UNITS"@[1] == 'N' && "UNITS"@[2] == 'I'
        && "UNITS"@[3] == 'T' && "UNITS"@[4] == 'S');
    assert("MODE"@.len() == 4 && "MODE"@[0] == 'M' && "MODE"@[1] == 'O' && "MODE"@[2] == 'D'
        && "MODE"@[3] == 'E');
    assert("TEMPO1"@.len() == 6 && "TEMPO1"@[0] == 'T' && "TEMPO1"@[1] == 'E'
        && "TEMPO1"@[2] == 'M' && "TEMPO1"@[3] == 'P' && "TEMPO1"@[4] == 'O'
        && "TEMPO1"@[5] == '1');
    assert("NOTRACK"@.len() == 7 && "NOTRACK"@[0] == 'N' && "NOTRACK"@[1] == 'O'
        && "NOTRACK"@[2] == 'T' && "NOTRACK"@[3] == 'R' && "NOTRACK"@[4] == 'A'
        && "NOTRACK"@[5] == 'C' && "NOTRACK"@[6] == 'K');
    assert("NO_SS_SHAPIRO"@.len() == 13 && "NO_SS_SHAPIRO"@[0] == 'N'
        && "NO_SS_SHAPIRO"@[1] == 'O' && "NO_SS_SHAPIRO"@[2] == '_'
        && "NO_SS_SHAPIRO"@[3] == 'S' && "NO_SS_SHAPIRO"@[4] == 'S'
        && "NO_SS_SHAPIRO"@[5] == '_' && "NO_SS_SHAPIRO"@[6] == 'S'
        && "NO_SS_SHAPIRO"@[7] == 'H' && "NO_SS_SHAPIRO"@[8] == 'A'
        && "NO_SS_SHAPIRO"@[9] == 'P' && "NO_SS_SHAPIRO"@[10] == 'I'
        && "NO_SS_SHAPIRO"@[11] == 'R' && "NO_SS_SHAPIRO"@[12] == 'O');
    assert("IPM"@.len() == 3 && "IPM"@[0] == 'I' && "IPM"@[1] == 'P' && "IPM"@[2] == 'M');
    assert("DILATE_FREQ"@.len() == 11 && "DILATE_FREQ"@[0] == 'D' && "DILATE_FREQ"@[1] == 'I'
        && "DILATE_FREQ"@[2] == 'L' && "DILATE_FREQ"@[3] == 'A' && "DILATE_FREQ"@[4] == 'T'
        && "DILATE_FREQ"@[5] == 'E' && "DILATE_FREQ"@[6] == '_' && "DILATE_FREQ"@[7] == 'F'
        && "DILATE_FREQ"@[8] == 'R' && "DILATE_FREQ"@[9] == 'E' && "DILATE_FREQ"@[10] == 'Q');
    assert("PLANET_SHAPIRO"@.len() == 14 && "PLANET_SHAPIRO"@[0] == 'P'
        && "PLANET_SHAPIRO"@[1] == 'L' && "PLANET_SHAPIRO"@[2] == 'A'
        && "PLANET_SHAPIRO"@[3] == 'N' && "PLANET_SHAPIRO"@[4] == 'E'
        && "PLANET_SHAPIRO"@[5] == 'T' && "PLANET_SHAPIRO"@[6] == '_'
        && "PLANET_SHAPIRO"@[7] == 'S' && "PLANET_SHAPIRO"@[8] == 'H'
        && "PLANET_SHAPIRO"@[9] == 'A' && "PLANET_SHAPIRO"@[10] == 'P'
        && "PLANET_SHAPIRO"@[11] == 'I' && "PLANET_SHAPIRO"@[12] == 'R'
        && "PLANET_SHAPIRO"@[13] == 'O');
    assert("CORRECT_TROPOSPHERE"@.len() == 19 && "CORRECT_TROPOSPHERE"@[0] == 'C'
        && "CORRECT_TROPOSPHERE"@[1] == 'O' && "CORRECT_TROPOSPHERE"@[2] == 'R'
        && "CORRECT_TROPOSPHERE"@[3] == 'R' && "CORRECT_TROPOSPHERE"@[4] == 'E'
        && "CORRECT_TROPOSPHERE"@[5] == 'C' && "CORRECT_TROPOSPHERE"@[6] == 'T'
        && "CORRECT_TROPOSPHERE"@[7] == '_' && "CORRECT_TROPOSPHERE"@[8] == 'T'
        && "CORRECT_TROPOSPHERE"@[9] == 'R' && "CORRECT_TROPOSPHERE"@[10] == 'O'
        && "CORRECT_TROPOSPHERE"@[11] == 'P' && "CORRECT_TROPOSPHERE"@[12] == 'O'
        && "CORRECT_TROPOSPHERE"@[13] == 'S' && "CORRECT_TROPOSPHERE"@[14] == 'P'
        && "CORRECT_TROPOSPHERE"@[15] == 'H' && "CORRECT_TROPOSPHERE"@[16] == 'E'
        && "CORRECT_TROPOSPHERE"@[17] == 'R' && "CORRECT_TROPOSPHERE"@[18] == 'E');
    assert("DILATEFREQ"@.len() == 10 && "DILATEFREQ"@[0] == 'D' && "DILATEFREQ"@[1] == 'I'
        && "DILATEFREQ"@[2] == 'L' && "DILATEFREQ"@[3] == 'A' && "DILATEFREQ"@[4] == 'T'
        && "DILATEFREQ"@[5] == 'E' && "DILATEFREQ"@[6] == 'F' && "DILATEFREQ"@[7] == 'R'
        && "DILATEFREQ"@[8] == 'E' && "DILATEFREQ"@[9] == 'Q');
    assert("F0"@.len() == 2 && "F0"@[0] == 'F' && "F0"@[1] == '0');
    assert("F1"@.len() == 2 && "F1"@[0] == 'F' && "F1"@[1] == '1');
    assert("F2"@.len() == 2 && "F2"@[0] == 'F' && "F2"@[1] == '2');
    assert("F3"@.len() == 2 && "F3"@[0] == 'F' && "F3"@[1] == '3');
    assert("F4"@.len() == 2 && "F4"@[0] == 'F' && "F4"@[1] == '4');
    assert("F5"@.len() == 2 && "F5"@[0] == 'F' && "F5"@[1] == '5');
    assert("F6"@.len() == 2 && "F6"@[0] == 'F' && "F6"@[1] == '6');
    assert("P0"@.len() == 2 && "P0"@[0] == 'P' && "P0"@[1] == '0');
    assert("P"@.len() == 1 && "P"@[0] == 'P');
    assert("P1"@.len() == 2 && "P1"@[0] == 'P' && "P1"@[1] == '1');
    assert("PDOT"@.len() == 4 && "PDOT"@[0] == 'P' && "PDOT"@[1] == 'D' && "PDOT"@[2] == 'O'
        && "PDOT"@[3] == 'T');
    assert("PEPOCH"@.len() == 6 && "PEPOCH"@[0] == 'P' && "PEPOCH"@[1] == 'E'
        && "PEPOCH"@[2] == 'P' && "PEPOCH"@[3] == 'O' && "PEPOCH"@[4] == 'C'
        && "PEPOCH"@[5] == 'H');
    assert("ELONG"@.len() == 5 && "ELONG"@[0] == 'E' && "ELONG"@[1] == 'L' && "ELONG"@[2] == 'O'
        && "ELONG"@[3] == 'N' && "ELONG"@[4] == 'G');
    assert("LAMBDA"@.len() == 6 && "LAMBDA"@[0] == 'L' && "LAMBDA"@[1] == 'A'
        && "LAMBDA"@[2] == 'M' && "LAMBDA"@[3] == 'B' && "LAMBDA"@[4] == 'D'
        && "LAMBDA"@[5] == 'A');
    assert("ELAT"@.len() == 4 && "ELAT"@[0] == 'E' && "ELAT"@[1] == 'L' && "ELAT"@[2] == 'A'
        && "ELAT"@[3] == 'T');
    assert("BETA"@.len() == 4 && "BETA"@[0] == 'B' && "BETA"@[1] == 'E' && "BETA"@[2] == 'T'
        && "BETA"@[3] == 'A');
    assert("POSEPOCH"@.len() == 8 && "POSEPOCH"@[0] == 'P' && "POSEPOCH"@[1] == 'O'
        && "POSEPOCH"@[2] == 'S' && "POSEPOCH"@[3] == 'E' && "POSEPOCH"@[4] == 'P'
        && "POSEPOCH"@[5] == 'O' && "POSEPOCH"@[6] == 'C' && "POSEPOCH"@[7] == 'H');
    assert("PMLAMBDA"@.len() == 8 && "PMLAMBDA"@[0] == 'P' && "PMLAMBDA"@[1] == 'M'
        && "PMLAMBDA"@[2] == 'L' && "PMLAMBDA"@[3] == 'A' && "PMLAMBDA"@[4] == 'M'
        && "PMLAMBDA"@[5] == 'B' && "PMLAMBDA"@[6] == 'D' && "PMLAMBDA"@[7] == 'A');
    assert("PMELONG"@.len() == 7 && "PMELONG"@[0] == 'P' && "PMELONG"@[1] == 'M'
        && "PMELONG"@[2] == 'E' && "PMELONG"@[3] == 'L' && "PMELONG"@[4] == 'O'
        && "PMELONG"@[5] == 'N' && "PMELONG"@[6] == 'G');
    assert("PMBETA"@.len() == 6 && "PMBETA"@[0] == 'P' && "PMBETA"@[1] == 'M'
        && "PMBETA"@[2] == 'B' && "PMBETA"@[3] == 'E' && "PMBETA"@[4] == 'T'
        && "PMBETA"@[5] == 'A');
    assert("PMELAT"@.len() == 6 && "PMELAT"@[0] == 'P' && "PMELAT"@[1] == 'M'
        && "PMELAT"@[2] == 'E' && "PMELAT"@[3] == 'L' && "PMELAT"@[4] == 'A'
        && "PMELAT"@[5] == 'T');
    assert("PMRA"@.len() == 4 && "PMRA"@[0] == 'P' && "PMRA"@[1] == 'M' && "PMRA"@[2] == 'R'
        && "PMRA"@[3] == 'A');
    assert("PMDEC"@.len() == 5 && "PMDEC"@[0] == 'P' && "PMDEC"@[1] == 'M' && "PMDEC"@[2] == 'D'
        && "PMDEC"@[3] == 'E' && "PMDEC"@[4] == 'C');
    assert("DMEPOCH"@.len() == 7 && "DMEPOCH"@[0] == 'D' && "DMEPOCH"@[1] == 'M'
        && "DMEPOCH"@[2] == 'E' && "DMEPOCH"@[3] == 'P' && "DMEPOCH"@[4] == 'O'
        && "DMEPOCH"@[5] == 'C' && "DMEPOCH"@[6] == 'H');
    assert("DM"@.len() == 2 && "DM"@[0] == 'D' && "DM"@[1] == 'M');
    assert("DM1"@.len() == 3 && "DM1"@[0] == 'D' && "DM1"@[1] == 'M' && "DM1"@[2] == '1');
    assert("DM2"@.len() == 3 && "DM2"@[0] == 'D' && "DM2"@[1] == 'M' && "DM2"@[2] == '2');
    assert("DM3"@.len() == 3 && "DM3"@[0] == 'D' && "DM3"@[1] == 'M' && "DM3"@[2] == '3');
    assert("DM4"@.len() == 3 && "DM4"@[0] == 'D' && "DM4"@[1] == 'M' && "DM4"@[2] == '4');
    assert("DM5"@.len() == 3 && "DM5"@[0] == 'D' && "DM5"@[1] == 'M' && "DM5"@[2] == '5');
    assert("DM6"@.len() == 3 && "DM6"@[0] == 'D' && "DM6"@[1] == 'M' && "DM6"@[2] == '6');
    assert("FDD"@.len() == 3 && "FDD"@[0] == 'F' && "FDD"@[1] == 'D' && "FDD"@[2] == 'D');
    assert("PX"@.len() == 2 && "PX"@[0] == 'P' && "PX"@[1] == 'X');
    assert("PMRV"@.len() == 4 && "PMRV"@[0] == 'P' && "PMRV"@[1] == 'M' && "PMRV"@[2] == 'R'
        && "PMRV"@[3] == 'V');
    assert("WAVE_OM"@.len() == 7 && "WAVE_OM"@[0] == 'W' && "WAVE_OM"@[1] == 'A'
        && "WAVE_OM"@[2] == 'V' && "WAVE_OM"@[3] == 'E' && "WAVE_OM"@[4] == '_'
        && "WAVE_OM"@[5] == 'O' && "WAVE_OM"@[6] == 'M');
    assert("WAVE1"@.len() == 5 && "WAVE1"@[0] == 'W' && "WAVE1"@[1] == 'A' && "WAVE1"@[2] == 'V'
        && "WAVE1"@[3] == 'E' && "WAVE1"@[4] == '1');
    assert("WAVE2"@.len() == 5 && "WAVE2"@[0] == 'W' && "WAVE2"@[1] == 'A' && "WAVE2"@[2] == 'V'
        && "WAVE2"@[3] == 'E' && "WAVE2"@[4] == '2');
    assert("WAVE3"@.len() == 5 && "WAVE3"@[0] == 'W' && "WAVE3"@[1] == 'A' && "WAVE3"@[2] == 'V'
        && "WAVE3"@[3] == 'E' && "WAVE3"@[4] == '3');
    assert("WAVE4"@.len() == 5 && "WAVE4"@[0] == 'W' && "WAVE4"@[1] == 'A' && "WAVE4"@[2] == 'V'
        && "WAVE4"@[3] == 'E' && "WAVE4"@[4] == '4');
    assert("WAVE5"@.len() == 5 && "WAVE5"@[0] == 'W' && "WAVE5"@[1] == 'A' && "WAVE5"@[2] == 'V'
        && "WAVE5"@[3] == 'E' && "WAVE5"@[4] == '5');
    assert("WAVE6"@.len() == 5 && "WAVE6"@[0] == 'W' && "WAVE6"@[1] == 'A' && "WAVE6"@[2] == 'V'
        && "WAVE6"@[3] == 'E' && "WAVE6"@[4] == '6');
    assert("TRES"@.len() == 4 && "TRES"@[0] == 'T' && "TRES"@[1] == 'R' && "TRES"@[2] == 'E'
        && "TRES"@[3] == 'S');
    assert("NE1AU"@.len() == 5 && "NE1AU"@[0] == 'N' && "NE1AU"@[1] == 'E' && "NE1AU"@[2] == '1'
        && "NE1AU"@[3] == 'A' && "NE1AU"@[4] == 'U');
    assert("TZRMJD"@.len() == 6 && "TZRMJD"@[0] == 'T' && "TZRMJD"@[1] == 'Z'
        && "TZRMJD"@[2] == 'R' && "TZRMJD"@[3] == 'M' && "TZRMJD"@[4] == 'J'
        && "TZRMJD"@[5] == 'D');
    assert("TZRFRQ"@.len() == 6 && "TZRFRQ"@[0] == 'T' && "TZRFRQ"@[1] == 'Z'
        && "TZRFRQ"@[2] == 'R' && "TZRFRQ"@[3] == 'F' && "TZRFRQ"@[4] == 'R'
        && "TZRFRQ"@[5] == 'Q');
    assert("START"@.len() == 5 && "START"@[0] == 'S' && "START"@[1] == 'T' && "START"@[2] == 'A'
        && "START"@[3] == 'R' && "START"@[4] == 'T');
    assert("FINISH"@.len() == 6 && "FINISH"@[0] == 'F' && "FINISH"@[1] == 'I'
        && "FINISH"@[2] == 'N' && "FINISH"@[3] == 'I' && "FINISH"@[4] == 'S'
        && "FINISH"@[5] == 'H');
    assert("A1"@.len() == 2 && "A1"@[0] == 'A' && "A1"@[1] == '1');
    assert("PB"@.len() == 2 && "PB"@[0] == 'P' && "PB"@[1] == 'B');
    assert("PBDOT"@.len() == 5 && "PBDOT"@[0] == 'P' && "PBDOT"@[1] == 'B' && "PBDOT"@[2] == 'D'
        && "PBDOT"@[3] == 'O' && "PBDOT"@[4] == 'T');
    assert("PB2"@.len() == 3 && "PB2"@[0] == 'P' && "PB2"@[1] == 'B' && "PB2"@[2] == '2');
    assert("PB3"@.len() == 3 && "PB3"@[0] == 'P' && "PB3"@[1] == 'B' && "PB3"@[2] == '3');
    assert("PB5"@.len() == 3 && "PB5"@[0] == 'P' && "PB5"@[1] == 'B' && "PB5"@[2] == '5');
    assert("PB6"@.len() == 3 && "PB6"@[0] == 'P' && "PB6"@[1] == 'B' && "PB6"@[2] == '6');
    assert("ECC"@.len() == 3 && "ECC"@[0] == 'E' && "ECC"@[1] == 'C' && "ECC"@[2] == 'C');
    assert("E"@.len() == 1 && "E"@[0] == 'E');
    assert("T0"@.len() == 2 && "T0"@[0] == 'T' && "T0"@[1] == '0');
    assert("OM"@.len() == 2 && "OM"@[0] == 'O' && "OM"@[1] == 'M');
    assert("TASC"@.len() == 4 && "TASC"@[0] == 'T' && "TASC"@[1] == 'A' && "TASC"@[2] == 'S'
        && "TASC"@[3] == 'C');
    assert("EPS1"@.len() == 4 && "EPS1"@[0] == 'E' && "EPS1"@[1] == 'P' && "EPS1"@[2] == 'S'
        && "EPS1"@[3] == '1');
    assert("EPS2"@.len() == 4 && "EPS2"@[0] == 'E' && "EPS2"@[1] == 'P' && "EPS2"@[2] == 'S'
        && "EPS2"@[3] == '2');
    assert("OMDOT"@.len() == 5 && "OMDOT"@[0] == 'O' && "OMDOT"@[1] == 'M' && "OMDOT"@[2] == 'D'
        && "OMDOT"@[3] == 'O' && "OMDOT"@[4] == 'T');
    assert("A1DOT"@.len() == 5 && "A1DOT"@[0] == 'A' && "A1DOT"@[1] == '1' && "A1DOT"@[2] == 'D'
        && "A1DOT"@[3] == 'O' && "A1DOT"@[4] == 'T');
    assert("XDOT"@.len() == 4 && "XDOT"@[0] == 'X' && "XDOT"@[1] == 'D' && "XDOT"@[2] == 'O'
        && "XDOT"@[3] == 'T');
    assert("SINI"@.len() == 4 && "SINI"@[0] == 'S' && "SINI"@[1] == 'I' && "SINI"@[2] == 'N'
        && "SINI"@[3] == 'I');
    assert("M2"@.len() == 2 && "M2"@[0] == 'M' && "M2"@[1] == '2');
    assert("XPBDOT"@.len() == 6 && "XPBDOT"@[0] == 'X' && "XPBDOT"@[1] == 'P'
        && "XPBDOT"@[2] == 'B' && "XPBDOT"@[3] == 'D' && "XPBDOT"@[4] == 'O'
        && "XPBDOT"@[5] == 'T');
    assert("ECCDOT"@.len() == 6 && "ECCDOT"@[0] == 'E' && "ECCDOT"@[1] == 'C'
        && "ECCDOT"@[2] == 'C' && "ECCDOT"@[3] == 'D' && "ECCDOT"@[4] == 'O'
        && "ECCDOT"@[5] == 'T');
    assert("EDOT"@.len() == 4 && "EDOT"@[0] == 'E' && "EDOT"@[1] == 'D' && "EDOT"@[2] == 'O'
        && "EDOT"@[3] == 'T');
    assert("GAMMA"@.len() == 5 && "GAMMA"@[0] == 'G' && "GAMMA"@[1] == 'A' && "GAMMA"@[2] == 'M'
        && "GAMMA"@[3] == 'M' && "GAMMA"@[4] == 'A');
    assert("DR"@.len() == 2 && "DR"@[0] == 'D' && "DR"@[1] == 'R');
    assert("DTH"@.len() == 3 && "DTH"@[0] == 'D' && "DTH"@[1] == 'T' && "DTH"@[2] == 'H');
    assert("A0"@.len() == 2 && "A0"@[0] == 'A' && "A0"@[1] == '0');
    assert("B0"@.len() == 2 && "B0"@[0] == 'B' && "B0"@[1] == '0');
    assert("BP"@.len() == 2 && "BP"@[0] == 'B' && "BP"@[1] == 'P');
    assert("BPP"@.len() == 3 && "BPP"@[0] == 'B' && "BPP"@[1] == 'P' && "BPP"@[2] == 'P');
    assert("DTHETA"@.len() == 6 && "DTHETA"@[0] == 'D' && "DTHETA"@[1] == 'T'
        && "DTHETA"@[2] == 'H' && "DTHETA"@[3] == 'E' && "DTHETA"@[4] == 'T'
        && "DTHETA"@[5] == 'A');
    assert("XOMDOT"@.len() == 6 && "XOMDOT"@[0] == 'X' && "XOMDOT"@[1] == 'O'
        && "XOMDOT"@[2] == 'M' && "XOMDOT"@[3] == 'D' && "XOMDOT"@[4] == 'O'
        && "XOMDOT"@[5] == 'T');
    assert("EPS1DOT"@.len() == 7 && "EPS1DOT"@[0] == 'E' && "EPS1DOT"@[1] == 'P'
        && "EPS1DOT"@[2] == 'S' && "EPS1DOT"@[3] == '1' && "EPS1DOT"@[4] == 'D'
        && "EPS1DOT"@[5] == 'O' && "EPS1DOT"@[6] == 'T');
    assert("EPS2DOT"@.len() == 7 && "EPS2DOT"@[0] == 'E' && "EPS2DOT"@[1] == 'P'
        && "EPS2DOT"@[2] == 'S' && "EPS2DOT"@[3] == '2' && "EPS2DOT"@[4] == 'D'
        && "EPS2DOT"@[5] == 'O' && "EPS2DOT"@[6] == 'T');
    assert("KOM"@.len() == 3 && "KOM"@[0] == 'K' && "KOM"@[1] == 'O' && "KOM"@[2] == 'M');
    assert("KIN"@.len() == 3 && "KIN"@[0] == 'K' && "KIN"@[1] == 'I' && "KIN"@[2] == 'N');
    assert("SHAPMAX"@.len() == 7 && "SHAPMAX"@[0] == 'S' && "SHAPMAX"@[1] == 'H'
        && "SHAPMAX"@[2] == 'A' && "SHAPMAX"@[3] == 'P' && "SHAPMAX"@[4] == 'M'
        && "SHAPMAX"@[5] == 'A' && "SHAPMAX"@[6] == 'X');
    assert("MTOT"@.len() == 4 && "MTOT"@[0] == 'M' && "MTOT"@[1] == 'T' && "MTOT"@[2] == 'O'
        && "MTOT"@[3] == 'T');
    assert("NE_SW"@.len() == 5 && "NE_SW"@[0] == 'N' && "NE_SW"@[1] == 'E' && "NE_SW"@[2] == '_'
        && "NE_SW"@[3] == 'S' && "NE_SW"@[4] == 'W');
    assert("CHI2R"@.len() == 5 && "CHI2R"@[0] == 'C' && "CHI2R"@[1] == 'H' && "CHI2R"@[2] == 'I'
        && "CHI2R"@[3] == '2' && "CHI2R"@[4] == 'R');
    assert("NITS"@.len() == 4 && "NITS"@[0] == 'N' && "NITS"@[1] == 'I' && "NITS"@[2] == 'T'
        && "NITS"@[3] == 'S');
    assert("IBOOT"@.len() == 5 && "IBOOT"@[0] == 'I' && "IBOOT"@[1] == 'B' && "IBOOT"@[2] == 'O'
        && "IBOOT"@[3] == 'O' && "IBOOT"@[4] == 'T');
    assert("NTOA"@.len() == 4 && "NTOA"@[0] == 'N' && "NTOA"@[1] == 'T' && "NTOA"@[2] == 'O'
        && "NTOA"@[3] == 'A');
    assert("PSRJ"@.len() == 4 && "PSRJ"@[0] == 'P' && "PSRJ"@[1] == 'S' && "PSRJ"@[2] == 'R'
        && "PSRJ"@[3] == 'J');
    assert("PSRB"@.len() == 4 && "PSRB"@[0] == 'P' && "PSRB"@[1] == 'S' && "PSRB"@[2] == 'R'
        && "PSRB"@[3] == 'B');
    assert("TSPAN"@.len() == 5 && "TSPAN"@[0] == 'T' && "TSPAN"@[1] == 'S' && "TSPAN"@[2] == 'P'
        && "TSPAN"@[3] == 'A' && "TSPAN"@[4] == 'N');
    assert("PSR"@.len() == 3 && "PSR"@[0] == 'P' && "PSR"@[1] == 'S' && "PSR"@[2] == 'R');
    assert("CLK"@.len() == 3 && "CLK"@[0] == 'C' && "CLK"@[1] == 'L' && "CLK"@[2] == 'K');
    assert("CLK_CORR_CHAIN"@.len() == 14 && "CLK_CORR_CHAIN"@[0] == 'C'
        && "CLK_CORR_CHAIN"@[1] == 'L' && "CLK_CORR_CHAIN"@[2] == 'K'
        && "CLK_CORR_CHAIN"@[3] == '_' && "CLK_CORR_CHAIN"@[4] == 'C'
        && "CLK_CORR_CHAIN"@[5] == 'O' && "CLK_CORR_CHAIN"@[6] == 'R'
        && "CLK_CORR_CHAIN"@[7] == 'R' && "CLK_CORR_CHAIN"@[8] == '_'
        && "CLK_CORR_CHAIN"@[9] == 'C' && "CLK_CORR_CHAIN"@[10] == 'H'
        && "CLK_CORR_CHAIN"@[11] == 'A' && "CLK_CORR_CHAIN"@[12] == 'I'
        && "CLK_CORR_CHAIN"@[13] == 'N');
    assert("EPHEM"@.len() == 5 && "EPHEM"@[0] == 'E' && "EPHEM"@[1] == 'P' && "EPHEM"@[2] == 'H'
        && "EPHEM"@[3] == 'E' && "EPHEM"@[4] == 'M');
    assert("TZRSITE"@.len() == 7 && "TZRSITE"@[0] == 'T' && "TZRSITE"@[1] == 'Z'
        && "TZRSITE"@[2] == 'R' && "TZRSITE"@[3] == 'S' && "TZRSITE"@[4] == 'I'
        && "TZRSITE"@[5] == 'T' && "TZRSITE"@[6] == 'E');
    assert("NSPAN"@.len() == 5 && "NSPAN"@[0] == 'N' && "NSPAN"@[1] == 'S' && "NSPAN"@[2] == 'P'
        && "NSPAN"@[3] == 'A' && "NSPAN"@[4] == 'N');
    assert("EPHVER"@.len() == 6 && "EPHVER"@[0] == 'E' && "EPHVER"@[1] == 'P'
        && "EPHVER"@[2] == 'H' && "EPHVER"@[3] == 'V' && "EPHVER"@[4] == 'E'
        && "EPHVER"@[5] == 'R');
    assert("TRACK"@.len() == 5 && "TRACK"@[0] == 'T' && "TRACK"@[1] == 'R' && "TRACK"@[2] == 'A'
        && "TRACK"@[3] == 'C' && "TRACK"@[4] == 'K');
    assert("AFAC"@.len() == 4 && "AFAC"@[0] == 'A' && "AFAC"@[1] == 'F' && "AFAC"@[2] == 'A'
        && "AFAC"@[3] == 'C');
    assert("DM_SERIES"@.len() == 9 && "DM_SERIES"@[0] == 'D' && "DM_SERIES"@[1] == 'M'
        && "DM_SERIES"@[2] == '_' && "DM_SERIES"@[3] == 'S' && "DM_SERIES"@[4] == 'E'
        && "DM_SERIES"@[5] == 'R' && "DM_SERIES"@[6] == 'I' && "DM_SERIES"@[7] == 'E'
        && "DM_SERIES"@[8] == 'S');
    let rows = text_rows();
    assert(rows.len() == 13);
    assert forall|i: int| 0 <= i < rows.len() implies text_row_ok(#[trigger] rows[i]) && keyed_in(
        rows,
        rows[i].name@,
    ) by {
        if i == 0 {
            assert(rows[0].key@ == "PSR"@ && rows[0].name@ == "PSR"@);
            assert(free_key("PSR"@));
            assert(!is_flag_key("PSR"@));
            assert(!is_float_key_1("PSR"@));
            assert(!is_float_key_2("PSR"@));
            assert(!is_float_key_3("PSR"@));
            assert(!is_float_key_4("PSR"@));
            assert(!is_float_key_5("PSR"@));
            assert(!is_float_key_6("PSR"@));
            assert(!is_count_key("PSR"@));
            assert(!is_text_alias("PSR"@));
            assert(rows[0].key@ == "PSR"@);
        }         else if i == 1 {
            assert(rows[1].key@ == "PSRJ"@ && rows[1].name@ == "PSR"@);
            assert(free_key("PSR"@));
            assert(!is_flag_key("PSR"@));
            assert(!is_float_key_1("PSR"@));
            assert(!is_float_key_2("PSR"@));
            assert(!is_float_key_3("PSR"@));
            assert(!is_float_key_4("PSR"@));
            assert(!is_float_key_5("PSR"@));
            assert(!is_float_key_6("PSR"@));
            assert(!is_count_key("PSR"@));
            assert(!is_text_alias("PSR"@));
            assert(rows[0].key@ == "PSR"@);
        }         else if i == 2 {
            assert(rows[2].key@ == "PSRB"@ && rows[2].name@ == "PSR"@);
            assert(free_key("PSR"@));
            assert(!is_flag_key("PSR"@));
            assert(!is_float_key_1("PSR"@));
            assert(!is_float_key_2("PSR"@));
            assert(!is_float_key_3("PSR"@));
            assert(!is_float_key_4("PSR"@));
            assert(!is_float_key_5("PSR"@));
            assert(!is_float_key_6("PSR"@));
            assert(!is_count_key("PSR"@));
            assert(!is_text_alias("PSR"@));
            assert(rows[0].key@ == "PSR"@);
        }         else if i == 3 {
            assert(rows[3].key@ == "CLK"@ && rows[3].name@ == "CLK"@);
            assert(free_key("CLK"@));
            assert(!is_flag_key("CLK"@));
            assert(!is_float_key_1("CLK"@));
            assert(!is_float_key_2("CLK"@));
            assert(!is_float_key_3("CLK"@));
            assert(!is_float_key_4("CLK"@));
            assert(!is_float_key_5("CLK"@));
            assert(!is_float_key_6("CLK"@));
            assert(!is_count_key("CLK"@));
            assert(!is_text_alias("CLK"@));
            assert(rows[3].key@ == "CLK"@);
        }         else if i == 4 {
            assert(rows[4].key@ == "CLK_CORR_CHAIN"@ && rows[4].name@ == "CLK_CORR_CHAIN"@);
            assert(free_key("CLK_CORR_CHAIN"@));
            assert(!is_flag_key("CLK_CORR_CHAIN"@));
            assert(!is_float_key_1("CLK_CORR_CHAIN"@));
            assert(!is_float_key_2("CLK_CORR_CHAIN"@));
            assert(!is_float_key_3("CLK_CORR_CHAIN"@));
            assert(!is_float_key_4("CLK_CORR_CHAIN"@));
            assert(!is_float_key_5("CLK_CORR_CHAIN"@));
            assert(!is_float_key_6("CLK_CORR_CHAIN"@));
            assert(!is_count_key("CLK_CORR_CHAIN"@));
            assert(!is_text_alias("CLK_CORR_CHAIN"@));
            assert(rows[4].key@ == "CLK_CORR_CHAIN"@);
        }         else if i == 5 {
            assert(rows[5].key@ == "EPHEM"@ && rows[5].name@ == "EPHEM"@);
            assert(free_key("EPHEM"@));
            assert(!is_flag_key("EPHEM"@));
            assert(!is_float_key_1("EPHEM"@));
            assert(!is_float_key_2("EPHEM"@));
            assert(!is_float_key_3("EPHEM"@));
            assert(!is_float_key_4("EPHEM"@));
            assert(!is_float_key_5("EPHEM"@));
            assert(!is_float_key_6("EPHEM"@));
            assert(!is_count_key("EPHEM"@));
            assert(!is_text_alias("EPHEM"@));
            assert(rows[5].key@ == "EPHEM"@);
        }         else if i == 6 {
            assert(rows[6].key@ == "TZRSITE"@ && rows[6].name@ == "TZRSITE"@);
            assert(free_key("TZRSITE"@));
            assert(!is_flag_key("TZRSITE"@));
            assert(!is_float_key_1("TZRSITE"@));
            assert(!is_float_key_2("TZRSITE"@));
            assert(!is_float_key_3("TZRSITE"@));
            assert(!is_float_key_4("TZRSITE"@));
            assert(!is_float_key_5("TZRSITE"@));
            assert(!is_float_key_6("TZRSITE"@));
            assert(!is_count_key("TZRSITE"@));
            assert(!is_text_alias("TZRSITE"@));
            assert(rows[6].key@ == "TZRSITE"@);
        }         else if i == 7 {
            assert(rows[7].key@ == "NSPAN"@ && rows[7].name@ == "NSPAN"@);
            assert(free_key("NSPAN"@));
            assert(!is_flag_key("NSPAN"@));
            assert(!is_float_key_1("NSPAN"@));
            assert(!is_float_key_2("NSPAN"@));
            assert(!is_float_key_3("NSPAN"@));
            assert(!is_float_key_4("NSPAN"@));
            assert(!is_float_key_5("NSPAN"@));
            assert(!is_float_key_6("NSPAN"@));
            assert(!is_count_key("NSPAN"@));
            assert(!is_text_alias("NSPAN"@));
            assert(rows[7].key@ == "NSPAN"@);
        }         else if i == 8 {
            assert(rows[8].key@ == "TSPAN"@ && rows[8].name@ == "NSPAN"@);
            assert(free_key("NSPAN"@));
            assert(!is_flag_key("NSPAN"@));
            assert(!is_float_key_1("NSPAN"@));
            assert(!is_float_key_2("NSPAN"@));
            assert(!is_float_key_3("NSPAN"@));
            assert(!is_float_key_4("NSPAN"@));
            assert(!is_float_key_5("NSPAN"@));
            assert(!is_float_key_6("NSPAN"@));
            assert(!is_count_key("NSPAN"@));
            assert(!is_text_alias("NSPAN"@));
            assert(rows[7].key@ == "NSPAN"@);
        }         else if i == 9 {
            assert(rows[9].key@ == "EPHVER"@ && rows[9].name@ == "EPHVER"@);
            assert(free_key("EPHVER"@));
            assert(!is_flag_key("EPHVER"@));
            assert(!is_float_key_1("EPHVER"@));
            assert(!is_float_key_2("EPHVER"@));
            assert(!is_float_key_3("EPHVER"@));
            assert(!is_float_key_4("EPHVER"@));
            assert(!is_float_key_5("EPHVER"@));
            assert(!is_float_key_6("EPHVER"@));
            assert(!is_count_key("EPHVER"@));
            assert(!is_text_alias("EPHVER"@));
            assert(rows[9].key@ == "EPHVER"@);
        }         else if i == 10 {
            assert(rows[10].key@ == "TRACK"@ && rows[10].name@ == "TRACK"@);
            assert(free_key("TRACK"@));
            assert(!is_flag_key("TRACK"@));
            assert(!is_float_key_1("TRACK"@));
            assert(!is_float_key_2("TRACK"@));
            assert(!is_float_key_3("TRACK"@));
            assert(!is_float_key_4("TRACK"@));
            assert(!is_float_key_5("TRACK"@));
            assert(!is_float_key_6("TRACK"@));
            assert(!is_count_key("TRACK"@));
            assert(!is_text_alias("TRACK"@));
            assert(rows[10].key@ == "TRACK"@);
        }         else if i == 11 {
            assert(rows[11].key@ == "AFAC"@ && rows[11].name@ == "AFAC"@);
            assert(free_key("AFAC"@));
            assert(!is_flag_key("AFAC"@));
            assert(!is_float_key_1("AFAC"@));
            assert(!is_float_key_2("AFAC"@));
            assert(!is_float_key_3("AFAC"@));
            assert(!is_float_key_4("AFAC"@));
            assert(!is_float_key_5("AFAC"@));
            assert(!is_float_key_6("AFAC"@));
            assert(!is_count_key("AFAC"@));
            assert(!is_text_alias("AFAC"@));
            assert(rows[11].key@ == "AFAC"@);
        }         else if i == 12 {
            assert(rows[12].key@ == "DM_SERIES"@ && rows[12].name@ == "DM_SERIES"@);
            assert(free_key("DM_SERIES"@));
            assert(!is_flag_key("DM_SERIES"@));
            assert(!is_float_key_1("DM_SERIES"@));
            assert(!is_float_key_2("DM_SERIES"@));
            assert(!is_float_key_3("DM_SERIES"@));
            assert(!is_float_key_4("DM_SERIES"@));
            assert(!is_float_key_5("DM_SERIES"@));
            assert(!is_float_key_6("DM_SERIES"@));
            assert(!is_count_key("DM_SERIES"@));
            assert(!is_text_alias("DM_SERIES"@));
            assert(rows[12].key@ == "DM_SERIES"@);
        }
    }
}

/// The rows of the table of switches are as they have to be.
pub proof fn lemma_flag_rows_ok()
    ensures
        forall|i: int|
            0 <= i < flag_rows().len() ==> flag_row_ok(#[trigger] flag_rows()[i]) && keyed_in(
                flag_rows(),
                flag_rows()[i].name@,
            ),
{
    reveal_strlit("JUMP");
    reveal_strlit("RA");
    reveal_strlit("RAJ");
    reveal_strlit("DEC");
    reveal_strlit("DECJ");
    reveal_strlit("TIMEEPH");
    reveal_strlit("MODEL");
    reveal_strlit("T2CMETHOD");
    reveal_strlit("UNITS");
    reveal_strlit("MODE");
    reveal_strlit("TEMPO1");
    reveal_strlit("NOTRACK");
    reveal_strlit("NO_SS_SHAPIRO");
    reveal_strlit("IPM");
    reveal_strlit("DILATE_FREQ");
    reveal_strlit("PLANET_SHAPIRO");
    reveal_strlit("CORRECT_TROPOSPHERE");
    reveal_strlit("DILATEFREQ");
    assert("JUMP"@.len() == 4 && "JUMP"@[0] == 'J' && "JUMP"@[1] == 'U' && "JUMP"@[2] == 'M'
        && "JUMP"@[3] == 'P');
    assert("RA"@.len() == 2 && "RA"@[0] == 'R' && "RA"@[1] == 'A');
    assert("RAJ"@.len() == 3 && "RAJ"@[0] == 'R' && "RAJ"@[1] == 'A' && "RAJ"@[2] == 'J');
    assert("DEC"@.len() == 3 && "DEC"@[0] == 'D' && "DEC"@[1] == 'E' && "DEC"@[2] == 'C');
    assert("DECJ"@.len() == 4 && "DECJ"@[0] == 'D' && "DECJ"@[1] == 'E' && "DECJ"@[2] == 'C'
        && "DECJ"@[3] == 'J');
    assert("TIMEEPH"@.len() == 7 && "TIMEEPH"@[0] == 'T' && "TIMEEPH"@[1] == 'I'
        && "TIMEEPH"@[2] == 'M' && "TIMEEPH"@[3] == 'E' && "TIMEEPH"@[4] == 'E'
        && "TIMEEPH"@[5] == 'P' && "TIMEEPH"@[6] == 'H');
    assert("MODEL"@.len() == 5 && "MODEL"@[0] == 'M' && "MODEL"@[1] == 'O' && "MODEL"@[2] == 'D'
        && "MODEL"@[3] == 'E' && "MODEL"@[4] == 'L');
    assert("T2CMETHOD"@.len() == 9 && "T2CMETHOD"@[0] == 'T' && "T2CMETHOD"@[1] == '2'
        && "T2CMETHOD"@[2] == 'C' && "T2CMETHOD"@[3] == 'M' && "T2CMETHOD"@[4] == 'E'
        && "T2CMETHOD"@[5] == 'T' && "T2CMETHOD"@[6] == 'H' && "T2CMETHOD"@[7] == 'O'
        && "T2CMETHOD"@[8] == 'D');
    assert("UNITS"@.len() == 5 && "UNITS"@[0] == 'U' && "UNITS"@[1] == 'N' && "UNITS"@[2] == 'I'
        && "UNITS"@[3] == 'T' && "UNITS"@[4] == 'S');
    assert("MODE"@.len() == 4 && "MODE"@[0] == 'M' && "MODE"@[1] == 'O' && "MODE"@[2] == 'D'
        && "MODE"@[3] == 'E');
    assert("TEMPO1"@.len() == 6 && "TEMPO1"@[0] == 'T' && "TEMPO1"@[1] == 'E'
        && "TEMPO1"@[2] == 'M' && "TEMPO1"@[3] == 'P' && "TEMPO1"@[4] == 'O'
        && "TEMPO1"@[5] == '1');
    assert("NOTRACK"@.len() == 7 && "NOTRACK"@[0] == 'N' && "NOTRACK"@[1] == 'O'
        && "NOTRACK"@[2] == 'T' && "NOTRACK"@[3] == 'R' && "NOTRACK"@[4] == 'A'
        && "NOTRACK"@[5] == 'C' && "NOTRACK"@[6] == 'K');
    assert("NO_SS_SHAPIRO"@.len() == 13 && "NO_SS_SHAPIRO"@[0] == 'N'
        && "NO_SS_SHAPIRO"@[1] == 'O' && "NO_SS_SHAPIRO"@[2] == '_'
        && "NO_SS_SHAPIRO"@[3] == 'S' && "NO_SS_SHAPIRO"@[4] == 'S'
        && "NO_SS_SHAPIRO"@[5] == '_' && "NO_SS_SHAPIRO"@[6] == 'S'
        && "NO_SS_SHAPIRO"@[7] == 'H' && "NO_SS_SHAPIRO"@[8] == 'A'
        && "NO_SS_SHAPIRO"@[9] == 'P' && "NO_SS_SHAPIRO"@[10] == 'I'
        && "NO_SS_SHAPIRO"@[11] == 'R' && "NO_SS_SHAPIRO"@[12] == 'O');
    assert("IPM"@.len() == 3 && "IPM"@[0] == 'I' && "IPM"@[1] == 'P' && "IPM"@[2] == 'M');
    assert("DILATE_FREQ"@.len() == 11 && "DILATE_FREQ"@[0] == 'D' && "DILATE_FREQ"@[1] == 'I'
        && "DILATE_FREQ"@[2] == 'L' && "DILATE_FREQ"@[3] == 'A' && "DILATE_FREQ"@[4] == 'T'
        && "DILATE_FREQ"@[5] == 'E' && "DILATE_FREQ"@[6] == '_' && "DILATE_FREQ"@[7] == 'F'
        && "DILATE_FREQ"@[8] == 'R' && "DILATE_FREQ"@[9] == 'E' && "DILATE_FREQ"@[10] == 'Q');
    assert("PLANET_SHAPIRO"@.len() == 14 && "PLANET_SHAPIRO"@[0] == 'P'
        && "PLANET_SHAPIRO"@[1] == 'L' && "PLANET_SHAPIRO"@[2] == 'A'
        && "PLANET_SHAPIRO"@[3] == 'N' && "PLANET_SHAPIRO"@[4] == 'E'
        && "PLANET_SHAPIRO"@[5] == 'T' && "PLANET_SHAPIRO"@[6] == '_'
        && "PLANET_SHAPIRO"@[7] == 'S' && "PLANET_SHAPIRO"@[8] == 'H'
        && "PLANET_SHAPIRO"@[9] == 'A' && "PLANET_SHAPIRO"@[10] == 'P'
        && "PLANET_SHAPIRO"@[11] == 'I' && "PLANET_SHAPIRO"@[12] == 'R'
        && "PLANET_SHAPIRO"@[13] == 'O');
    assert("CORRECT_TROPOSPHERE"@.len() == 19 && "CORRECT_TROPOSPHERE"@[0] == 'C'
        && "CORRECT_TROPOSPHERE"@[1] == 'O' && "CORRECT_TROPOSPHERE"@[2] == 'R'
        && "CORRECT_TROPOSPHERE"@[3] == 'R' && "CORRECT_TROPOSPHERE"@[4] == 'E'
        && "CORRECT_TROPOSPHERE"@[5] == 'C' && "CORRECT_TROPOSPHERE"@[6] == 'T'
        && "CORRECT_TROPOSPHERE"@[7] == '_' && "CORRECT_TROPOSPHERE"@[8] == 'T'
        && "CORRECT_TROPOSPHERE"@[9] == 'R' && "CORRECT_TROPOSPHERE"@[10] == 'O'
        && "CORRECT_TROPOSPHERE"@[11] == 'P' && "CORRECT_TROPOSPHERE"@[12] == 'O'
        && "CORRECT_TROPOSPHERE"@[13] == 'S' && "CORRECT_TROPOSPHERE"@[14] == 'P'
        && "CORRECT_TROPOSPHERE"@[15] == 'H' && "CORRECT_TROPOSPHERE"@[16] == 'E'
        && "CORRECT_TROPOSPHERE"@[17] == 'R' && "CORRECT_TROPOSPHERE"@[18] == 'E');
    assert("DILATEFREQ"@.len() == 10 && "DILATEFREQ"@[0] == 'D' && "DILATEFREQ"@[1] == 'I'
        && "DILATEFREQ"@[2] == 'L' && "DILATEFREQ"@[3] == 'A' && "DILATEFREQ"@[4] == 'T'
        && "DILATEFREQ"@[5] == 'E' && "DILATEFREQ"@[6] == 'F' && "DILATEFREQ"@[7] == 'R'
        && "DILATEFREQ"@[8] == 'E' && "DILATEFREQ"@[9] == 'Q');
    let rows = flag_rows();
    assert(rows.len() == 8);
    assert forall|i: int| 0 <= i < rows.len() implies flag_row_ok(#[trigger] rows[i]) && keyed_in(
        rows,
        rows[i].name@,
    ) by {
        if i == 0 {
            assert(rows[0].key@ == "TEMPO1"@ && rows[0].name@ == "TEMPO1"@);
            assert(free_key("TEMPO1"@));
            assert(rows[0].key@ == "TEMPO1"@);
        }         else if i == 1 {
            assert(rows[1].key@ == "NOTRACK"@ && rows[1].name@ == "NOTRACK"@);
            assert(free_key("NOTRACK"@));
            assert(rows[1].key@ == "NOTRACK"@);
        }         else if i == 2 {
            assert(rows[2].key@ == "NO_SS_SHAPIRO"@ && rows[2].name@ == "NO_SS_SHAPIRO"@);
            assert(free_key("NO_SS_SHAPIRO"@));
            assert(rows[2].key@ == "NO_SS_SHAPIRO"@);
        }         else if i == 3 {
            assert(rows[3].key@ == "IPM"@ && rows[3].name@ == "IPM"@);
            assert(free_key("IPM"@));
            assert(rows[3].key@ == "IPM"@);
        }         else if i == 4 {
            assert(rows[4].key@ == "DILATE_FREQ"@ && rows[4].name@ == "DILATE_FREQ"@);
            assert(free_key("DILATE_FREQ"@));
            assert(rows[4].key@ == "DILATE_FREQ"@);
        }         else if i == 5 {
            assert(rows[5].key@ == "PLANET_SHAPIRO"@ && rows[5].name@ == "PLANET_SHAPIRO"@);
            assert(free_key("PLANET_SHAPIRO"@));
            assert(rows[5].key@ == "PLANET_SHAPIRO"@);
        }         else if i == 6 {
            assert(rows[6].key@ == "CORRECT_TROPOSPHERE"@ && rows[6].name@ == "CORRECT_TROPOSPHERE"@);
            assert(free_key("CORRECT_TROPOSPHERE"@));
            assert(rows[6].key@ == "CORRECT_TROPOSPHERE"@);
        }         else if i == 7 {
            assert(rows[7].key@ == "DILATEFREQ"@ && rows[7].name@ == "DILATEFREQ"@);
            assert(free_key("DILATEFREQ"@));
            assert(rows[7].key@ == "DILATEFREQ"@);
        }
    }
}

/// A key that rows 1 to 16 of the table of numbers hold is one of their
/// spellings.
proof fn lemma_float_keys_1_found(key: Seq<char>)
    ensures
        find_row(float_rows_part_1(), key) is Some ==> is_float_key_1(key),
{
    let rows = float_rows_part_1();
    lemma_find_row_member(rows, key);
    assert(rows.len() == 16);
    if find_row(rows, key) is Some {
        let row = find_row(rows, key)->0;
        let i = choose|i: int| 0 <= i < rows.len() && #[trigger] rows[i] == row;
        if i == 0 {
            assert(rows[0] == row);
        }         else if i == 1 {
            assert(rows[1] == row);
        }         else if i == 2 {
            assert(rows[2] == row);
        }         else if i == 3 {
            assert(rows[3] == row);
        }         else if i == 4 {
            assert(rows[4] == row);
        }         else if i == 5 {
            assert(rows[5] == row);
        }         else if i == 6 {
            assert(rows[6] == row);
        }         else if i == 7 {
            assert(rows[7] == row);
        }         else if i == 8 {
            assert(rows[8] == row);
        }         else if i == 9 {
            assert(rows[9] == row);
        }         else if i == 10 {
            assert(rows[10] == row);
        }         else if i == 11 {
            assert(rows[11] == row);
        }         else if i == 12 {
            assert(rows[12] == row);
        }         else if i == 13 {
            assert(rows[13] == row);
        }         else if i == 14 {
            assert(rows[14] == row);
        }         else if i == 15 {
            assert(rows[15] == row);
        }
    }
}

/// A key that rows 17 to 32 of the table of numbers hold is one of their
/// spellings.
proof fn lemma_float_keys_2_found(key: Seq<char>)
    ensures
        find_row(float_rows_part_2(), key) is Some ==> is_float_key_2(key),
{
    let rows = float_rows_part_2();
    lemma_find_row_member(rows, key);
    assert(rows.len() == 16);
    if find_row(rows, key) is Some {
        let row = find_row(rows, key)->0;
        let i = choose|i: int| 0 <= i < rows.len() && #[trigger] rows[i] == row;
        if i == 0 {
            assert(rows[0] == row);
        }         else if i == 1 {
            assert(rows[1] == row);
        }         else if i == 2 {
            assert(rows[2] == row);
        }         else if i == 3 {
            assert(rows[3] == row);
        }         else if i == 4 {
            assert(rows[4] == row);
        }         else if i == 5 {
            assert(rows[5] == row);
        }         else if i == 6 {
            assert(rows[6] == row);
        }         else if i == 7 {
            assert(rows[7] == row);
        }         else if i == 8 {
            assert(rows[8] == row);
        }         else if i == 9 {
            assert(rows[9] == row);
        }         else if i == 10 {
            assert(rows[10] == row);
        }         else if i == 11 {
            assert(rows[11] == row);
        }         else if i == 12 {
            assert(rows[12] == row);
        }         else if i == 13 {
            assert(rows[13] == row);
        }         else if i == 14 {
            assert(rows[14] == row);
        }         else if i == 15 {
            assert(rows[15] == row);
        }
    }
}

/// A key that rows 33 to 48 of the table of numbers hold is one of their
/// spellings.
proof fn lemma_float_keys_3_found(key: Seq<char>)
    ensures
        find_row(float_rows_part_3(), key) is Some ==> is_float_key_3(key),
{
    let rows = float_rows_part_3();
    lemma_find_row_member(rows, key);
    assert(rows.len() == 16);
    if find_row(rows, key) is Some {
        let row = find_row(rows, key)->0;
        let i = choose|i: int| 0 <= i < rows.len() && #[trigger] rows[i] == row;
        if i == 0 {
            assert(rows[0] == row);
        }         else if i == 1 {
            assert(rows[1] == row);
        }         else if i == 2 {
            assert(rows[2] == row);
        }         else if i == 3 {
            assert(rows[3] == row);
        }         else if i == 4 {
            assert(rows[4] == row);
        }         else if i == 5 {
            assert(rows[5] == row);
        }         else if i == 6 {
            assert(rows[6] == row);
        }         else if i == 7 {
            assert(rows[7] == row);
        }         else if i == 8 {
            assert(rows[8] == row);
        }         else if i == 9 {
            assert(rows[9] == row);
        }         else if i == 10 {
            assert(rows[10] == row);
        }         else if i == 11 {
            assert(rows[11] == row);
        }         else if i == 12 {
            assert(rows[12] == row);
        }         else if i == 13 {
            assert(rows[13] == row);
        }         else if i == 14 {
            assert(rows[14] == row);
        }         else if i == 15 {
            assert(rows[15] == row);
        }
    }
}

/// A key that rows 49 to 64 of the table of numbers hold is one of their
/// spellings.
proof fn lemma_float_keys_4_found(key: Seq<char>)
    ensures
        find_row(float_rows_part_4(), key) is Some ==> is_float_key_4(key),
{
    let rows = float_rows_part_4();
    lemma_find_row_member(rows, key);
    assert(rows.len() == 16);
    if find_row(rows, key) is Some {
        let row = find_row(rows, key)->0;
        let i = choose|i: int| 0 <= i < rows.len() && #[trigger] rows[i] == row;
        if i == 0 {
            assert(rows[0] == row);
        }         else if i == 1 {
            assert(rows[1] == row);
        }         else if i == 2 {
            assert(rows[2] == row);
        }         else if i == 3 {
            assert(rows[3] == row);
        }         else if i == 4 {
            assert(rows[4] == row);
        }         else if i == 5 {
            assert(rows[5] == row);
        }         else if i == 6 {
            assert(rows[6] == row);
        }         else if i == 7 {
            assert(rows[7] == row);
        }         else if i == 8 {
            assert(rows[8] == row);
        }         else if i == 9 {
            assert(rows[9] == row);
        }         else if i == 10 {
            assert(rows[10] == row);
        }         else if i == 11 {
            assert(rows[11] == row);
        }         else if i == 12 {
            assert(rows[12] == row);
        }         else if i == 13 {
            assert(rows[13] == row);
        }         else if i == 14 {
            assert(rows[14] == row);
        }         else if i == 15 {
            assert(rows[15] == row);
        }
    }
}

/// A key that rows 65 to 80 of the table of numbers hold is one of their
/// spellings.
proof fn lemma_float_keys_5_found(key: Seq<char>)
    ensures
        find_row(float_rows_part_5(), key) is Some ==> is_float_key_5(key),
{
    let rows = float_rows_part_5();
    lemma_find_row_member(rows, key);
    assert(rows.len() == 16);
    if find_row(rows, key) is Some {
        let row = find_row(rows, key)->0;
        let i = choose|i: int| 0 <= i < rows.len() && #[trigger] rows[i] == row;
        if i == 0 {
            assert(rows[0] == row);
        }         else if i == 1 {
            assert(rows[1] == row);
        }         else if i == 2 {
            assert(rows[2] == row);
        }         else if i == 3 {
            assert(rows[3] == row);
        }         else if i == 4 {
            assert(rows[4] == row);
        }         else if i == 5 {
            assert(rows[5] == row);
        }         else if i == 6 {
            assert(rows[6] == row);
        }         else if i == 7 {
            assert(rows[7] == row);
        }         else if i == 8 {
            assert(rows[8] == row);
        }         else if i == 9 {
            assert(rows[9] == row);
        }         else if i == 10 {
            assert(rows[10] == row);
        }         else if i == 11 {
            assert(rows[11] == row);
        }         else if i == 12 {
            assert(rows[12] == row);
        }         else if i == 13 {
            assert(rows[13] == row);
        }         else if i == 14 {
            assert(rows[14] == row);
        }         else if i == 15 {
            assert(rows[15] == row);
        }
    }
}

/// A key that rows 81 to 88 of the table of numbers hold is one of their
/// spellings.
proof fn lemma_float_keys_6_found(key: Seq<char>)
    ensures
        find_row(float_rows_part_6(), key) is Some ==> is_float_key_6(key),
{
    let rows = float_rows_part_6();
    lemma_find_row_member(rows, key);
    assert(rows.len() == 8);
    if find_row(rows, key) is Some {
        let row = find_row(rows, key)->0;
        let i = choose|i: int| 0 <= i < rows.len() && #[trigger] rows[i] == row;
        if i == 0 {
            assert(rows[0] == row);
        }         else if i == 1 {
            assert(rows[1] == row);
        }         else if i == 2 {
            assert(rows[2] == row);
        }         else if i == 3 {
            assert(rows[3] == row);
        }         else if i == 4 {
            assert(rows[4] == row);
        }         else if i == 5 {
            assert(rows[5] == row);
        }         else if i == 6 {
            assert(rows[6] == row);
        }         else if i == 7 {
            assert(rows[7] == row);
        }
    }
}

/// Rows that are as the rows of the table of numbers have to be, put end to
/// end, are so too.
proof fn lemma_number_rows_append(a: Seq<ParamRow>, b: Seq<ParamRow>)
    requires
        forall|i: int| 0 <= i < a.len() ==> number_row_ok(#[trigger] a[i]) && keyed_in(a, a[i].name@),
        forall|i: int| 0 <= i < b.len() ==> number_row_ok(#[trigger] b[i]) && keyed_in(b, b[i].name@),
    ensures
        forall|i: int|
            0 <= i < (a + b).len() ==> number_row_ok(#[trigger] (a + b)[i]) && keyed_in(
                a + b,
                (a + b)[i].name@,
            ),
{
    let rows = a + b;
    assert forall|i: int| 0 <= i < rows.len() implies number_row_ok(#[trigger] rows[i]) && keyed_in(
        rows,
        rows[i].name@,
    ) by {
        if i < a.len() {
            assert(rows[i] == a[i]);
            let j = choose|j: int| 0 <= j < a.len() && (#[trigger] a[j]).key@ == a[i].name@;
            assert(rows[j] == a[j]);
        } else {
            assert(rows[i] == b[i - a.len()]);
            let j = choose|j: int|
                0 <= j < b.len() && (#[trigger] b[j]).key@ == b[i - a.len()].name@;
            assert(rows[j + a.len()] == b[j]);
        }
    }
}

/// Every row of the table of numbers is as it has to be, and the name of
/// every row is spelled by a row.
pub proof fn lemma_float_rows_ok()
    ensures
        forall|i: int|
            0 <= i < float_rows().len() ==> number_row_ok(#[trigger] float_rows()[i]) && keyed_in(
                float_rows(),
                float_rows()[i].name@,
            ),
{
    lemma_float_rows_1_ok();
    lemma_float_rows_2_ok();
    lemma_float_rows_3_ok();
    lemma_float_rows_4_ok();
    lemma_float_rows_5_ok();
    lemma_float_rows_6_ok();
    let a = float_rows_part_1();
    let b = float_rows_part_2();
    let c = float_rows_part_3();
    let d = float_rows_part_4();
    let e = float_rows_part_5();
    let f = float_rows_part_6();
    lemma_number_rows_append(a, b);
    lemma_number_rows_append(a + b, c);
    lemma_number_rows_append(a + b + c, d);
    lemma_number_rows_append(a + b + c + d, e);
    lemma_number_rows_append(a + b + c + d + e, f);
}

/// A key that the table of numbers holds is one of its spellings.
pub proof fn lemma_float_keys_found(key: Seq<char>)
    ensures
        find_row(float_rows(), key) is Some ==> is_float_key(key),
{
    let a = float_rows_part_1();
    let b = float_rows_part_2();
    let c = float_rows_part_3();
    let d = float_rows_part_4();
    let e = float_rows_part_5();
    let f = float_rows_part_6();
    lemma_float_keys_1_found(key);
    lemma_float_keys_2_found(key);
    lemma_float_keys_3_found(key);
    lemma_float_keys_4_found(key);
    lemma_float_keys_5_found(key);
    lemma_float_keys_6_found(key);
    lemma_find_row_append(a, b, key);
    lemma_find_row_append(a + b, c, key);
    lemma_find_row_append(a + b + c, d, key);
    lemma_find_row_append(a + b + c + d, e, key);
    lemma_find_row_append(a + b + c + d + e, f, key);
}

/// A key that some row spells is found.
pub proof fn lemma_keyed_found(rows: Seq<ParamRow>, key: Seq<char>)
    requires
        keyed_in(rows, key),
    ensures
        find_row(rows, key) is Some,
{
    if find_row(rows, key) is None {
        let i = choose|i: int| 0 <= i < rows.len() && (#[trigger] rows[i]).key@ == key;
        lemma_find_row_absent(rows, key, i);
    }
}

/// A key that is not found is spelled by no row.
proof fn lemma_find_row_absent(rows: Seq<ParamRow>, key: Seq<char>, i: int)
    requires
        find_row(rows, key) is None,
        0 <= i < rows.len(),
    ensures
        rows[i].key@ != key,
    decreases rows.len(),
{
    if i > 0 {
        assert(rows.skip(1)[i - 1] == rows[i]);
        lemma_find_row_absent(rows.skip(1), key, i - 1);
    }
}

/// A key that is free for the tables is left to them by what is looked at
/// before them.
pub proof fn lemma_free_key(key: Seq<char>)
    requires
        free_key(key),
    ensures
        is_word(key),
        glitch_key(key) is None,
        key != "JUMP"@,
        find_row(coord_rows(), key) is None,
        !is_keyword(key),
{
    lemma_glitch_key_start(key);
    lemma_coord_keys_found(key);
}

} // verus!
