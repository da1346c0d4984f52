//! What is written reads back: the lines that a file is written as make,
//! when they are read, a file that is written as the same lines.

use vstd::prelude::*;
use super::glitch::{glitch_key, glitch_line, GlitchView};
use super::glitch_laws::{glitch_ok, lemma_all_glitch_lines_read, lemma_glitch_line_ok};
use super::jump::{jump_line, JumpView};
use super::jump_laws::{jump_ok, lemma_jump_line_ok, lemma_jump_lines_read};
use super::parameters::{
    count_entry, entry, fitted_entry, fitted_value, flag_entry, text_entry, FittedView,
    ParameterView,
};
use super::table_laws::{
    count_row_ok, flag_row_ok, is_keyword, lemma_coord_keys_found, lemma_count_keys_found,
    lemma_count_rows_ok, lemma_flag_keys_found, lemma_flag_rows_ok, lemma_float_keys_found,
    lemma_float_rows_ok, lemma_free_key, lemma_glitch_key_start, lemma_keyed_found,
    lemma_text_rows_ok, named_in, number_row_ok, text_row_ok,
};
use super::tables::{
    coord_rows, count_rows, find_row, flag_rows, float_rows, lemma_find_row_at,
    lemma_find_row_member, text_rows, ParamRow,
};
use super::{
    binary_model_of, binary_model_text, error_mode_of, error_mode_text, keyword_lines,
    t2c_method_of, t2c_method_text, time_ephemeris_of, time_ephemeris_text, units_of, units_text,
};
use super::{
    all_glitch_lines, check_result, coord_line, count_line, count_lines, duplicate_pairs,
    duplicates_among, fit_mark, flag_line, flag_lines, jump_lines, lemma_no_duplicates, mandatory,
    names_of, number_line, parsed_line, parsed_lines, parsed_words, present_coord_lines,
    present_number_lines, read_result, special_line, text_line, text_lines, vocabulary_lines,
    write_result, written, BinaryModel, ErrorMode, ParfileView, T2CMethod, TimeEphemeris, Units,
};
use crate::error::ErrorView;
use crate::parse_tools::parse_bool_text;
use crate::data_types::{
    coord_text, dec_valid, is_numeral_char, lemma_coord_text_parses, lemma_decimal_text_chars,
    lemma_decimal_text_parses, lemma_parse_coord_wf, lemma_parse_decimal_wf, parse_dec_text,
    parse_decimal_text, parse_ra_text, ra_valid, CoordView, DecimalView,
};
use crate::text::{
    first_index, int_text, is_digit, is_whitespace, is_word, lemma_first_index,
    lemma_int_text_parses, lemma_nat_text_parses, lemma_nat_text_parses_unsigned, lemma_span_len,
    lemma_words_are_words, lemma_words_cons, lemma_words_one, nat_text, words,
};

verus! {

/// A key that is left to the tables: a word that is no key of a glitch, not
/// `JUMP`, no coordinate and no keyword.
pub open spec fn table_key(key: Seq<char>) -> bool {
    &&& is_word(key)
    &&& glitch_key(key) is None
    &&& key != "JUMP"@
    &&& find_row(coord_rows(), key) is None
    &&& !is_keyword(key)
}

/// A name under which a number is written and read back: a key left to the
/// tables that is no switch, and that the table of numbers knows as the name
/// itself.
pub open spec fn plain_number_name(name: Seq<char>) -> bool {
    &&& table_key(name)
    &&& find_row(flag_rows(), name) is None
    &&& find_row(float_rows(), name) matches Some(row) && row.name@ == name
}

/// A name under which a count is written and read back.
pub open spec fn plain_count_name(name: Seq<char>) -> bool {
    &&& table_key(name)
    &&& find_row(flag_rows(), name) is None
    &&& find_row(float_rows(), name) is None
    &&& find_row(count_rows(), name) matches Some(row) && row.name@ == name
}

/// A name under which a word of text is written and read back.
pub open spec fn plain_text_name(name: Seq<char>) -> bool {
    &&& table_key(name)
    &&& find_row(flag_rows(), name) is None
    &&& find_row(float_rows(), name) is None
    &&& find_row(count_rows(), name) is None
    &&& find_row(text_rows(), name) matches Some(row) && row.name@ == name
}

/// A name under which a switch is written and read back.
pub open spec fn plain_flag_name(name: Seq<char>) -> bool {
    &&& table_key(name)
    &&& find_row(flag_rows(), name) matches Some(row) && row.name@ == name
}

/// A number entry as reading leaves it: there is a value, and every number
/// in it is held in the one way.
pub open spec fn number_ok(e: ParameterView<FittedView<DecimalView>>) -> bool {
    match e.value {
        FittedView::Missing => false,
        FittedView::JustValue(v) => v.wf(),
        FittedView::FitInfo { value, fit, error } => value.wf() && error.wf(),
    }
}

/// A coordinate entry as reading leaves it, if it is there: a coordinate
/// within `bounds`, and every number in it held in the one way.
pub open spec fn coord_ok(
    e: ParameterView<FittedView<CoordView>>,
    bounds: spec_fn(CoordView) -> bool,
) -> bool {
    match e.value {
        FittedView::Missing => true,
        FittedView::JustValue(v) => v.seconds.wf() && bounds(v),
        FittedView::FitInfo { value, fit, error } => value.seconds.wf() && bounds(value)
            && error.wf(),
    }
}

/// The numeral of a number is a word.
pub proof fn lemma_decimal_text_is_word(d: DecimalView)
    requires
        d.wf(),
    ensures
        is_word(d.text()),
{
    lemma_decimal_text_chars(d);
    assert forall|i: int| 0 <= i < d.text().len() implies !is_whitespace(#[trigger] d.text()[i]) by {
        assert(is_numeral_char(d.text()[i]));
    }
}

/// The numeral of a natural number is a word.
pub proof fn lemma_nat_text_is_word(n: nat)
    ensures
        is_word(nat_text(n)),
{
    lemma_nat_text_parses(n);
    assert forall|i: int| 0 <= i < nat_text(n).len() implies !is_whitespace(
        #[trigger] nat_text(n)[i],
    ) by {
        assert(is_digit(nat_text(n)[i]));
    }
}

/// The text of a coordinate is a word.
pub proof fn lemma_coord_text_is_word(v: CoordView)
    requires
        v.seconds.wf(),
    ensures
        is_word(coord_text(v)),
{
    let major = int_text(v.major as int);
    let minutes = nat_text(v.minutes as nat);
    let seconds = v.seconds.text();
    let s = coord_text(v);
    reveal_strlit(":");
    lemma_int_text_parses(v.major as int);
    lemma_nat_text_parses(v.minutes as nat);
    lemma_decimal_text_chars(v.seconds);
    let a = major.len() as int;
    let b = a + 1 + minutes.len();
    assert(s =~= major + seq![':'] + minutes + seq![':'] + seconds);
    assert forall|i: int| 0 <= i < s.len() implies !is_whitespace(#[trigger] s[i]) by {
        if i < a {
            assert(s[i] == major[i]);
        } else if i == a {
        } else if i < b {
            assert(s[i] == minutes[i - a - 1]);
            assert(is_digit(minutes[i - a - 1]));
        } else if i == b {
        } else {
            assert(s[i] == seconds[i - b - 1]);
            assert(is_numeral_char(seconds[i - b - 1]));
        }
    }
}

/// The words of a line of a key and one value.
pub proof fn lemma_words_of_two(key: Seq<char>, value: Seq<char>)
    requires
        is_word(key),
        is_word(value),
    ensures
        words(key + " "@ + value) == seq![key, value],
{
    reveal_strlit(" ");
    lemma_words_cons(key, " "@, value);
    lemma_words_one(value);
    assert(seq![key] + seq![value] =~= seq![key, value]);
}

/// The words of a line of a key, a value, whether to fit it, and the
/// uncertainty.
pub proof fn lemma_words_of_four(key: Seq<char>, value: Seq<char>, fit: bool, error: Seq<char>)
    requires
        is_word(key),
        is_word(value),
        is_word(error),
    ensures
        words(key + " "@ + value + " "@ + fit_mark(fit) + " "@ + error) == seq![
            key,
            value,
            fit_mark(fit),
            error,
        ],
{
    reveal_strlit(" ");
    reveal_strlit("1");
    reveal_strlit("0");
    let mark = fit_mark(fit);
    assert(is_word(mark));
    lemma_words_of_two(mark, error);
    lemma_words_cons(value, " "@, mark + " "@ + error);
    lemma_words_cons(key, " "@, value + " "@ + (mark + " "@ + error));
    assert(key + " "@ + value + " "@ + mark + " "@ + error =~= key + " "@ + (value + " "@ + (mark
        + " "@ + error)));
    assert(seq![key] + (seq![value] + seq![mark, error]) =~= seq![key, value, mark, error]);
}

/// Words whose key is left to the tables are no glitch, no jump and no
/// special keyword: they go to the tables.
pub proof fn lemma_table_key_words(par: ParfileView, parts: Seq<Seq<char>>)
    requires
        parts.len() >= 2,
        table_key(parts[0]),
    ensures
        glitch_line(parts, par.glitches) == Ok::<Option<Seq<GlitchView>>, ErrorView>(None),
        jump_line(parts) == Ok::<Option<JumpView>, ErrorView>(None),
        special_line(par, parts) == Ok::<Option<ParfileView>, ErrorView>(None),
{
}

/// Words whose key is the plain name of a number, and whose value reads as
/// a number, add an entry to the numbers.
pub proof fn lemma_number_words_read(
    par: ParfileView,
    parts: Seq<Seq<char>>,
    v: DecimalView,
    value: FittedView<DecimalView>,
)
    requires
        parts.len() >= 2,
        plain_number_name(parts[0]),
        parse_decimal_text(parts[1]) == Some(v),
        fitted_value(v, parts) == Ok::<FittedView<DecimalView>, ErrorView>(value),
    ensures
        parsed_words(par, parts) == Ok::<ParfileView, ErrorView>(
            ParfileView {
                parameters: par.parameters.push(
                    entry(find_row(float_rows(), parts[0])->0, value),
                ),
                ..par
            },
        ),
{
    reveal(parsed_words);
    lemma_table_key_words(par, parts);
}

/// A line of the plain name of a number and a word that reads as a number
/// adds the number, with nothing said of fitting it.
proof fn lemma_number_line_of_two(par: ParfileView, name: Seq<char>, text: Seq<char>, v: DecimalView)
    requires
        plain_number_name(name),
        is_word(text),
        parse_decimal_text(text) == Some(v),
    ensures
        parsed_line(par, name + " "@ + text) == Ok::<ParfileView, ErrorView>(
            ParfileView {
                parameters: par.parameters.push(
                    entry(find_row(float_rows(), name)->0, FittedView::JustValue(v)),
                ),
                ..par
            },
        ),
{
    lemma_words_of_two(name, text);
    let parts = seq![name, text];
    lemma_number_words_read(par, parts, v, FittedView::JustValue(v));
}

/// A line of the plain name of a number, a word that reads as a number,
/// whether to fit it, and a word that reads as the uncertainty, adds the
/// number with its fit information.
proof fn lemma_number_line_of_four(
    par: ParfileView,
    name: Seq<char>,
    text: Seq<char>,
    v: DecimalView,
    fit: bool,
    error_text: Seq<char>,
    error: DecimalView,
)
    requires
        plain_number_name(name),
        is_word(text),
        parse_decimal_text(text) == Some(v),
        is_word(error_text),
        parse_decimal_text(error_text) == Some(error),
    ensures
        parsed_line(par, name + " "@ + text + " "@ + fit_mark(fit) + " "@ + error_text) == Ok::<
            ParfileView,
            ErrorView,
        >(
            ParfileView {
                parameters: par.parameters.push(
                    entry(
                        find_row(float_rows(), name)->0,
                        FittedView::FitInfo { value: v, fit, error },
                    ),
                ),
                ..par
            },
        ),
{
    reveal_strlit("1");
    reveal_strlit("0");
    lemma_words_of_four(name, text, fit, error_text);
    let parts = seq![name, text, fit_mark(fit), error_text];
    assert(parse_bool_text(fit_mark(fit)) == Some(fit));
    lemma_number_words_read(par, parts, v, FittedView::FitInfo { value: v, fit, error });
}

/// The line of a number entry, when read, adds the entry to the numbers.
pub proof fn lemma_number_line_reads(
    par: ParfileView,
    e: ParameterView<FittedView<DecimalView>>,
)
    requires
        plain_number_name(e.name),
        number_ok(e),
    ensures
        parsed_line(par, number_line(e)) == Ok::<ParfileView, ErrorView>(
            ParfileView {
                parameters: par.parameters.push(
                    entry(find_row(float_rows(), e.name)->0, e.value),
                ),
                ..par
            },
        ),
{
    match e.value {
        FittedView::Missing => {},
        FittedView::JustValue(v) => {
            lemma_decimal_text_is_word(v);
            lemma_decimal_text_parses(v);
            lemma_number_line_of_two(par, e.name, v.text(), v);
        },
        FittedView::FitInfo { value, fit, error } => {
            lemma_decimal_text_is_word(value);
            lemma_decimal_text_parses(value);
            lemma_decimal_text_is_word(error);
            lemma_decimal_text_parses(error);
            lemma_number_line_of_four(par, e.name, value.text(), value, fit, error.text(), error);
        },
    }
}

/// The line of a text entry, when read, adds the entry to the texts.
pub proof fn lemma_text_line_reads(par: ParfileView, e: ParameterView<Seq<char>>)
    requires
        plain_text_name(e.name),
        is_word(e.value),
    ensures
        parsed_line(par, text_line(e)) == Ok::<ParfileView, ErrorView>(
            ParfileView {
                texts: par.texts.push(entry(find_row(text_rows(), e.name)->0, e.value)),
                ..par
            },
        ),
{
    reveal(parsed_words);
    lemma_words_of_two(e.name, e.value);
    let parts = seq![e.name, e.value];
    assert(words(text_line(e)) == parts);
    lemma_table_key_words(par, parts);
}

/// The line of a count, when read, adds the entry to the counts.
pub proof fn lemma_count_line_reads(par: ParfileView, e: ParameterView<u32>)
    requires
        plain_count_name(e.name),
    ensures
        parsed_line(par, count_line(e)) == Ok::<ParfileView, ErrorView>(
            ParfileView {
                counts: par.counts.push(entry(find_row(count_rows(), e.name)->0, e.value)),
                ..par
            },
        ),
{
    reveal(parsed_words);
    lemma_nat_text_is_word(e.value as nat);
    lemma_nat_text_parses_unsigned(e.value as nat);
    lemma_words_of_two(e.name, nat_text(e.value as nat));
    let parts = seq![e.name, nat_text(e.value as nat)];
    assert(words(count_line(e)) == parts);
    lemma_table_key_words(par, parts);
}

/// The line of a switch, when read, adds the entry to the switches.
pub proof fn lemma_flag_line_reads(par: ParfileView, e: ParameterView<bool>)
    requires
        plain_flag_name(e.name),
    ensures
        parsed_line(par, flag_line(e)) == Ok::<ParfileView, ErrorView>(
            ParfileView {
                flags: par.flags.push(entry(find_row(flag_rows(), e.name)->0, e.value)),
                ..par
            },
        ),
{
    reveal(parsed_words);
    reveal_strlit("Y");
    reveal_strlit("N");
    let mark = if e.value {
        "Y"@
    } else {
        "N"@
    };
    assert(is_word(mark));
    lemma_words_of_two(e.name, mark);
    let parts = seq![e.name, mark];
    assert(words(flag_line(e)) == parts);
    lemma_table_key_words(par, parts);
}

/// The keys of the coordinates are no keys of a glitch and no jump, and the
/// table of coordinates knows each of the two names as itself.
proof fn lemma_coord_keys()
    ensures
        is_word("RA"@),
        is_word("DEC"@),
        glitch_key("RA"@) is None,
        glitch_key("DEC"@) is None,
        "RA"@ != "JUMP"@,
        "DEC"@ != "JUMP"@,
        "RA"@ != "DEC"@,
        find_row(coord_rows(), "RA"@) matches Some(row) && row.name@ == "RA"@,
        find_row(coord_rows(), "DEC"@) matches Some(row) && row.name@ == "DEC"@,
{
    reveal_strlit("RA");
    reveal_strlit("RAJ");
    reveal_strlit("DEC");
    reveal_strlit("JUMP");
    let rows = coord_rows();
    assert(rows.len() == 4);
    assert(rows[0].key@ == "RA"@);
    assert(rows[1].key@ == "RAJ"@);
    assert(rows[2].key@ == "DEC"@);
    assert(rows[2].name@ == "DEC"@);
    lemma_find_row_at(rows, "RA"@, 0);
    assert forall|i: int| 0 <= i < 2 implies (#[trigger] rows[i]).key@ != "DEC"@ by {
        if i == 0 {
        } else {
        }
    }
    lemma_find_row_at(rows, "DEC"@, 2);
    lemma_span_len("RA"@, '_', 0, 2);
    lemma_span_len("DEC"@, '_', 0, 3);
}

/// Words whose key is `RA`, and whose value reads as a right ascension, set
/// the right ascension of a file that has none.
proof fn lemma_ra_words_read(
    par: ParfileView,
    parts: Seq<Seq<char>>,
    c: CoordView,
    value: FittedView<CoordView>,
)
    requires
        parts.len() >= 2,
        parts[0] == "RA"@,
        par.ra.value.is_missing(),
        parse_ra_text(parts[1]) == Ok::<CoordView, ErrorView>(c),
        fitted_value(c, parts) == Ok::<FittedView<CoordView>, ErrorView>(value),
    ensures
        parsed_words(par, parts) == Ok::<ParfileView, ErrorView>(
            ParfileView { ra: entry(find_row(coord_rows(), "RA"@)->0, value), ..par },
        ),
{
    reveal(parsed_words);
    lemma_coord_keys();
}

/// Words whose key is `DEC`, and whose value reads as a declination, set
/// the declination of a file that has none.
proof fn lemma_dec_words_read(
    par: ParfileView,
    parts: Seq<Seq<char>>,
    c: CoordView,
    value: FittedView<CoordView>,
)
    requires
        parts.len() >= 2,
        parts[0] == "DEC"@,
        par.dec.value.is_missing(),
        parse_dec_text(parts[1]) == Ok::<CoordView, ErrorView>(c),
        fitted_value(c, parts) == Ok::<FittedView<CoordView>, ErrorView>(value),
    ensures
        parsed_words(par, parts) == Ok::<ParfileView, ErrorView>(
            ParfileView { dec: entry(find_row(coord_rows(), "DEC"@)->0, value), ..par },
        ),
{
    reveal(parsed_words);
    lemma_coord_keys();
}

/// What a line of a key and a value, with or without fit information, does
/// to a file is what its words do.
proof fn lemma_fitted_line_words<V>(
    par: ParfileView,
    key: Seq<char>,
    text: Seq<char>,
    value: FittedView<V>,
    v: V,
) -> (parts: Seq<Seq<char>>)
    requires
        is_word(key),
        is_word(text),
        match value {
            FittedView::Missing => false,
            FittedView::JustValue(x) => x == v,
            FittedView::FitInfo { value, fit, error } => value == v && error.wf(),
        },
    ensures
        parts.len() >= 2,
        parts[0] == key,
        parts[1] == text,
        fitted_value(v, parts) == Ok::<FittedView<V>, ErrorView>(value),
        parsed_line(
            par,
            match value {
                FittedView::Missing => key,
                FittedView::JustValue(x) => key + " "@ + text,
                FittedView::FitInfo { value, fit, error } => key + " "@ + text + " "@ + fit_mark(
                    fit,
                ) + " "@ + error.text(),
            },
        ) == parsed_words(par, parts),
{
    match value {
        FittedView::Missing => Seq::empty(),
        FittedView::JustValue(x) => {
            lemma_words_of_two(key, text);
            seq![key, text]
        },
        FittedView::FitInfo { value, fit, error } => {
            reveal_strlit("1");
            reveal_strlit("0");
            lemma_decimal_text_is_word(error);
            lemma_decimal_text_parses(error);
            lemma_words_of_four(key, text, fit, error.text());
            assert(parse_bool_text(fit_mark(fit)) == Some(fit));
            seq![key, text, fit_mark(fit), error.text()]
        },
    }
}

/// The line of a right ascension, when read into a file that has none,
/// sets it.
pub proof fn lemma_ra_line_reads(par: ParfileView, e: ParameterView<FittedView<CoordView>>)
    requires
        par.ra.value.is_missing(),
        e.name == "RA"@,
        !e.value.is_missing(),
        coord_ok(e, |v: CoordView| ra_valid(v)),
    ensures
        parsed_line(par, coord_line(e)) == Ok::<ParfileView, ErrorView>(
            ParfileView { ra: entry(find_row(coord_rows(), "RA"@)->0, e.value), ..par },
        ),
{
    lemma_coord_keys();
    let v = match e.value {
        FittedView::Missing => arbitrary(),
        FittedView::JustValue(v) => v,
        FittedView::FitInfo { value, fit, error } => value,
    };
    lemma_coord_text_is_word(v);
    lemma_coord_text_parses(v);
    let parts = lemma_fitted_line_words(par, e.name, coord_text(v), e.value, v);
    lemma_ra_words_read(par, parts, v, e.value);
}

/// The line of a declination, when read into a file that has none, sets
/// it.
pub proof fn lemma_dec_line_reads(par: ParfileView, e: ParameterView<FittedView<CoordView>>)
    requires
        par.dec.value.is_missing(),
        e.name == "DEC"@,
        !e.value.is_missing(),
        coord_ok(e, |v: CoordView| dec_valid(v)),
    ensures
        parsed_line(par, coord_line(e)) == Ok::<ParfileView, ErrorView>(
            ParfileView { dec: entry(find_row(coord_rows(), "DEC"@)->0, e.value), ..par },
        ),
{
    lemma_coord_keys();
    let v = match e.value {
        FittedView::Missing => arbitrary(),
        FittedView::JustValue(v) => v,
        FittedView::FitInfo { value, fit, error } => value,
    };
    lemma_coord_text_is_word(v);
    lemma_coord_text_parses(v);
    let parts = lemma_fitted_line_words(par, e.name, coord_text(v), e.value, v);
    lemma_dec_words_read(par, parts, v, e.value);
}

/// Lines put end to end are read as the first lines and then, if none of
/// them is reported, the others.
pub proof fn lemma_parsed_lines_append(par: ParfileView, a: Seq<Seq<char>>, b: Seq<Seq<char>>)
    ensures
        parsed_lines(par, a + b) == match parsed_lines(par, a) {
            Ok(p) => parsed_lines(p, b),
            Err(e) => Err(e),
        },
    decreases b.len(),
{
    if b.len() == 0 {
        assert(a + b =~= a);
    } else {
        assert((a + b).drop_last() =~= a + b.drop_last());
        assert((a + b).last() == b.last());
        lemma_parsed_lines_append(par, a, b.drop_last());
    }
}

/// One line is read as that line, if it is not empty.
pub proof fn lemma_parsed_lines_one(par: ParfileView, line: Seq<char>)
    requires
        line.len() > 0,
    ensures
        parsed_lines(par, seq![line]) == parsed_line(par, line),
{
    assert(seq![line].drop_last() =~= Seq::<Seq<char>>::empty());
    assert(seq![line].last() == line);
    assert(parsed_lines(par, Seq::<Seq<char>>::empty()) == Ok::<ParfileView, ErrorView>(par));
}

/// An entry as reading its line gives it: under the name and with the
/// description of the row that spells its name.
pub open spec fn reread<V>(rows: Seq<ParamRow>, e: ParameterView<V>) -> ParameterView<V> {
    entry(find_row(rows, e.name)->0, e.value)
}

/// The entries of a list as reading their lines gives them.
pub open spec fn reread_all<V>(rows: Seq<ParamRow>, entries: Seq<ParameterView<V>>) -> Seq<
    ParameterView<V>,
> {
    Seq::new(entries.len(), |i: int| reread(rows, entries[i]))
}

/// The lines of the number entries, when read, add the entries to the
/// numbers, in their order.
pub proof fn lemma_number_lines_read(
    par: ParfileView,
    entries: Seq<ParameterView<FittedView<DecimalView>>>,
)
    requires
        forall|i: int|
            0 <= i < entries.len() ==> plain_number_name((#[trigger] entries[i]).name)
                && number_ok(entries[i]),
    ensures
        parsed_lines(par, present_number_lines(entries)) == Ok::<ParfileView, ErrorView>(
            ParfileView {
                parameters: par.parameters + reread_all(float_rows(), entries),
                ..par
            },
        ),
    decreases entries.len(),
{
    if entries.len() == 0 {
        assert(par.parameters + reread_all(float_rows(), entries) =~= par.parameters);
    } else {
        let earlier = entries.drop_last();
        let last = entries.last();
        assert forall|i: int| 0 <= i < earlier.len() implies plain_number_name(
            (#[trigger] earlier[i]).name,
        ) && number_ok(earlier[i]) by {
            assert(earlier[i] == entries[i]);
        }
        lemma_number_lines_read(par, earlier);
        let mid = ParfileView {
            parameters: par.parameters + reread_all(float_rows(), earlier),
            ..par
        };
        assert(plain_number_name(entries[entries.len() - 1].name));
        assert(number_ok(last));
        lemma_number_line_reads(mid, last);
        lemma_line_not_empty(last.name, number_line(last));
        lemma_parsed_lines_one(mid, number_line(last));
        lemma_parsed_lines_append(par, present_number_lines(earlier), seq![number_line(last)]);
        assert(mid.parameters.push(reread(float_rows(), last)) =~= par.parameters + reread_all(
            float_rows(),
            entries,
        ));
    }
}

/// A line that starts with a word is not empty.
proof fn lemma_line_not_empty(key: Seq<char>, line: Seq<char>)
    requires
        is_word(key),
        line.len() >= key.len(),
    ensures
        line.len() > 0,
{
}

/// The lines of text entries, when read, add the entries to the texts, in
/// their order.
pub proof fn lemma_text_lines_read(par: ParfileView, entries: Seq<ParameterView<Seq<char>>>)
    requires
        forall|i: int|
            0 <= i < entries.len() ==> plain_text_name((#[trigger] entries[i]).name) && is_word(
                entries[i].value,
            ),
    ensures
        parsed_lines(par, text_lines(entries)) == Ok::<ParfileView, ErrorView>(
            ParfileView { texts: par.texts + reread_all(text_rows(), entries), ..par },
        ),
    decreases entries.len(),
{
    if entries.len() == 0 {
        assert(par.texts + reread_all(text_rows(), entries) =~= par.texts);
        assert(text_lines(entries) =~= Seq::<Seq<char>>::empty());
    } else {
        let earlier = entries.drop_last();
        let last = entries.last();
        assert forall|i: int| 0 <= i < earlier.len() implies plain_text_name(
            (#[trigger] earlier[i]).name,
        ) && is_word(earlier[i].value) by {
            assert(earlier[i] == entries[i]);
        }
        lemma_text_lines_read(par, earlier);
        let mid = ParfileView { texts: par.texts + reread_all(text_rows(), earlier), ..par };
        assert(plain_text_name(entries[entries.len() - 1].name));
        lemma_text_line_reads(mid, last);
        lemma_line_not_empty(last.name, text_line(last));
        lemma_parsed_lines_one(mid, text_line(last));
        assert(text_lines(entries) =~= text_lines(earlier) + seq![text_line(last)]);
        lemma_parsed_lines_append(par, text_lines(earlier), seq![text_line(last)]);
        assert(mid.texts.push(reread(text_rows(), last)) =~= par.texts + reread_all(
            text_rows(),
            entries,
        ));
    }
}

/// The lines of counts, when read, add the entries to the counts, in their
/// order.
pub proof fn lemma_count_lines_read(par: ParfileView, entries: Seq<ParameterView<u32>>)
    requires
        forall|i: int| 0 <= i < entries.len() ==> plain_count_name((#[trigger] entries[i]).name),
    ensures
        parsed_lines(par, count_lines(entries)) == Ok::<ParfileView, ErrorView>(
            ParfileView { counts: par.counts + reread_all(count_rows(), entries), ..par },
        ),
    decreases entries.len(),
{
    if entries.len() == 0 {
        assert(par.counts + reread_all(count_rows(), entries) =~= par.counts);
        assert(count_lines(entries) =~= Seq::<Seq<char>>::empty());
    } else {
        let earlier = entries.drop_last();
        let last = entries.last();
        assert forall|i: int| 0 <= i < earlier.len() implies plain_count_name(
            (#[trigger] earlier[i]).name,
        ) by {
            assert(earlier[i] == entries[i]);
        }
        lemma_count_lines_read(par, earlier);
        let mid = ParfileView { counts: par.counts + reread_all(count_rows(), earlier), ..par };
        assert(plain_count_name(entries[entries.len() - 1].name));
        lemma_count_line_reads(mid, last);
        lemma_line_not_empty(last.name, count_line(last));
        lemma_parsed_lines_one(mid, count_line(last));
        assert(count_lines(entries) =~= count_lines(earlier) + seq![count_line(last)]);
        lemma_parsed_lines_append(par, count_lines(earlier), seq![count_line(last)]);
        assert(mid.counts.push(reread(count_rows(), last)) =~= par.counts + reread_all(
            count_rows(),
            entries,
        ));
    }
}

/// The lines of switches, when read, add the entries to the switches, in
/// their order.
pub proof fn lemma_flag_lines_read(par: ParfileView, entries: Seq<ParameterView<bool>>)
    requires
        forall|i: int| 0 <= i < entries.len() ==> plain_flag_name((#[trigger] entries[i]).name),
    ensures
        parsed_lines(par, flag_lines(entries)) == Ok::<ParfileView, ErrorView>(
            ParfileView { flags: par.flags + reread_all(flag_rows(), entries), ..par },
        ),
    decreases entries.len(),
{
    if entries.len() == 0 {
        assert(par.flags + reread_all(flag_rows(), entries) =~= par.flags);
        assert(flag_lines(entries) =~= Seq::<Seq<char>>::empty());
    } else {
        let earlier = entries.drop_last();
        let last = entries.last();
        assert forall|i: int| 0 <= i < earlier.len() implies plain_flag_name(
            (#[trigger] earlier[i]).name,
        ) by {
            assert(earlier[i] == entries[i]);
        }
        lemma_flag_lines_read(par, earlier);
        let mid = ParfileView { flags: par.flags + reread_all(flag_rows(), earlier), ..par };
        assert(plain_flag_name(entries[entries.len() - 1].name));
        lemma_flag_line_reads(mid, last);
        lemma_line_not_empty(last.name, flag_line(last));
        lemma_parsed_lines_one(mid, flag_line(last));
        assert(flag_lines(entries) =~= flag_lines(earlier) + seq![flag_line(last)]);
        lemma_parsed_lines_append(par, flag_lines(earlier), seq![flag_line(last)]);
        assert(mid.flags.push(reread(flag_rows(), last)) =~= par.flags + reread_all(
            flag_rows(),
            entries,
        ));
    }
}

/// The line of a coordinate that is there, when read into a file that has
/// none, sets it; a coordinate that is missing has no line.
pub proof fn lemma_ra_lines_read(par: ParfileView, e: ParameterView<FittedView<CoordView>>)
    requires
        par.ra.value.is_missing(),
        !e.value.is_missing() ==> e.name == "RA"@,
        coord_ok(e, |v: CoordView| ra_valid(v)),
    ensures
        parsed_lines(par, present_coord_lines(e)) == Ok::<ParfileView, ErrorView>(
            if e.value.is_missing() {
                par
            } else {
                ParfileView { ra: reread(coord_rows(), e), ..par }
            },
        ),
{
    if !e.value.is_missing() {
        lemma_coord_keys();
        lemma_ra_line_reads(par, e);
        lemma_line_not_empty(e.name, coord_line(e));
        lemma_parsed_lines_one(par, coord_line(e));
    }
}

/// The same for a declination.
pub proof fn lemma_dec_lines_read(par: ParfileView, e: ParameterView<FittedView<CoordView>>)
    requires
        par.dec.value.is_missing(),
        !e.value.is_missing() ==> e.name == "DEC"@,
        coord_ok(e, |v: CoordView| dec_valid(v)),
    ensures
        parsed_lines(par, present_coord_lines(e)) == Ok::<ParfileView, ErrorView>(
            if e.value.is_missing() {
                par
            } else {
                ParfileView { dec: reread(coord_rows(), e), ..par }
            },
        ),
{
    if !e.value.is_missing() {
        lemma_coord_keys();
        lemma_dec_line_reads(par, e);
        lemma_line_not_empty(e.name, coord_line(e));
        lemma_parsed_lines_one(par, coord_line(e));
    }
}

/// A file as reading leaves it: the coordinates that are there lie within
/// their bounds and stand under their names, every number is held in the
/// one way, no number entry is without a value, and every text is a word.
pub open spec fn readable(p: ParfileView) -> bool {
    &&& coord_ok(p.ra, |v: CoordView| ra_valid(v))
    &&& !p.ra.value.is_missing() ==> p.ra.name == "RA"@
    &&& coord_ok(p.dec, |v: CoordView| dec_valid(v))
    &&& !p.dec.value.is_missing() ==> p.dec.name == "DEC"@
    &&& forall|i: int|
        0 <= i < p.parameters.len() ==> number_ok(#[trigger] p.parameters[i]) && named_in(
            float_rows(),
            p.parameters[i].name,
        )
    &&& forall|i: int|
        0 <= i < p.counts.len() ==> named_in(count_rows(), (#[trigger] p.counts[i]).name)
    &&& forall|i: int|
        0 <= i < p.texts.len() ==> is_word((#[trigger] p.texts[i]).value) && named_in(
            text_rows(),
            p.texts[i].name,
        )
    &&& forall|i: int|
        0 <= i < p.flags.len() ==> named_in(flag_rows(), (#[trigger] p.flags[i]).name)
    &&& forall|i: int| 0 <= i < p.glitches.len() ==> glitch_ok(#[trigger] p.glitches[i], i)
    &&& forall|i: int| 0 <= i < p.jumps.len() ==> jump_ok(#[trigger] p.jumps[i])
}

/// The name of a row of the table of numbers is a name under which a number
/// is written and read back.
pub proof fn lemma_number_name_plain(name: Seq<char>)
    requires
        named_in(float_rows(), name),
    ensures
        plain_number_name(name),
{
    let rows = float_rows();
    lemma_float_rows_ok();
    let i = choose|i: int| 0 <= i < rows.len() && (#[trigger] rows[i]).name@ == name;
    assert(number_row_ok(rows[i]));
    lemma_free_key(name);
    lemma_flag_keys_found(name);
    lemma_keyed_found(rows, name);
    lemma_find_row_member(rows, name);
    let found = find_row(rows, name)->0;
    let j = choose|j: int| 0 <= j < rows.len() && #[trigger] rows[j] == found;
    assert(number_row_ok(rows[j]));
}

/// The name of a row of the table of counts is a name under which a count
/// is written and read back.
pub proof fn lemma_count_name_plain(name: Seq<char>)
    requires
        named_in(count_rows(), name),
    ensures
        plain_count_name(name),
{
    let rows = count_rows();
    lemma_count_rows_ok();
    let i = choose|i: int| 0 <= i < rows.len() && (#[trigger] rows[i]).name@ == name;
    assert(count_row_ok(rows[i]));
    lemma_free_key(name);
    lemma_flag_keys_found(name);
    lemma_float_keys_found(name);
    lemma_keyed_found(rows, name);
    lemma_find_row_member(rows, name);
    let found = find_row(rows, name)->0;
    let j = choose|j: int| 0 <= j < rows.len() && #[trigger] rows[j] == found;
    assert(count_row_ok(rows[j]));
}

/// The name of a row of the table of texts is a name under which a word of
/// text is written and read back.
pub proof fn lemma_text_name_plain(name: Seq<char>)
    requires
        named_in(text_rows(), name),
    ensures
        plain_text_name(name),
{
    let rows = text_rows();
    lemma_text_rows_ok();
    let i = choose|i: int| 0 <= i < rows.len() && (#[trigger] rows[i]).name@ == name;
    assert(text_row_ok(rows[i]));
    lemma_free_key(name);
    lemma_flag_keys_found(name);
    lemma_float_keys_found(name);
    lemma_count_keys_found(name);
    lemma_keyed_found(rows, name);
    lemma_find_row_member(rows, name);
    let found = find_row(rows, name)->0;
    let j = choose|j: int| 0 <= j < rows.len() && #[trigger] rows[j] == found;
    assert(text_row_ok(rows[j]));
}

/// The name of a row of the table of switches is a name under which a
/// switch is written and read back.
pub proof fn lemma_flag_name_plain(name: Seq<char>)
    requires
        named_in(flag_rows(), name),
    ensures
        plain_flag_name(name),
{
    let rows = flag_rows();
    lemma_flag_rows_ok();
    let i = choose|i: int| 0 <= i < rows.len() && (#[trigger] rows[i]).name@ == name;
    assert(flag_row_ok(rows[i]));
    lemma_free_key(name);
    lemma_keyed_found(rows, name);
    lemma_find_row_member(rows, name);
    let found = find_row(rows, name)->0;
    let j = choose|j: int| 0 <= j < rows.len() && #[trigger] rows[j] == found;
    assert(flag_row_ok(rows[j]));
}

/// The table of coordinates holds the two names `RA` and `DEC`.
proof fn lemma_coord_row_names(key: Seq<char>)
    ensures
        find_row(coord_rows(), key) matches Some(row) ==> row.name@ == "RA"@ || row.name@
            == "DEC"@,
{
    let rows = coord_rows();
    lemma_find_row_member(rows, key);
    assert(rows.len() == 4);
    assert(rows[0].name@ == "RA"@);
    assert(rows[1].name@ == "RA"@);
    assert(rows[2].name@ == "DEC"@);
    assert(rows[3].name@ == "DEC"@);
    if find_row(rows, key) is Some {
        let row = find_row(rows, key)->0;
        let i = choose|i: int| 0 <= i < rows.len() && #[trigger] rows[i] == row;
        if i == 0 {
        } else if i == 1 {
        } else if i == 2 {
        } else {
        }
    }
}

/// The fit information that a line gives is held in the one way.
proof fn lemma_fitted_value_wf<V>(value: V, parts: Seq<Seq<char>>)
    ensures
        match fitted_value(value, parts) {
            Ok(FittedView::Missing) => false,
            Ok(FittedView::JustValue(v)) => v == value,
            Ok(FittedView::FitInfo { value: v, fit, error }) => v == value && error.wf(),
            Err(_) => true,
        },
{
    if parts.len() > 3 {
        lemma_parse_decimal_wf(parts[3]);
    }
}

/// A file as reading leaves it stays so when its glitches are replaced by
/// glitches as reading leaves them.
proof fn lemma_readable_glitches(par: ParfileView, glitches: Seq<GlitchView>)
    requires
        readable(par),
        forall|i: int| 0 <= i < glitches.len() ==> glitch_ok(#[trigger] glitches[i], i),
    ensures
        readable(ParfileView { glitches, ..par }),
{
}

/// A file as reading leaves it stays so when a jump as reading leaves it is
/// added.
proof fn lemma_readable_jump(par: ParfileView, j: JumpView)
    requires
        readable(par),
        jump_ok(j),
    ensures
        readable(ParfileView { jumps: par.jumps.push(j), ..par }),
{
    let p = ParfileView { jumps: par.jumps.push(j), ..par };
    assert forall|i: int| 0 <= i < p.jumps.len() implies jump_ok(#[trigger] p.jumps[i]) by {
        if i < par.jumps.len() {
            assert(jump_ok(par.jumps[i]));
        }
    }
}

/// A file as reading leaves it stays so when a special keyword is read
/// into it.
proof fn lemma_readable_special(par: ParfileView, parts: Seq<Seq<char>>)
    requires
        readable(par),
        parts.len() >= 2,
    ensures
        special_line(par, parts) matches Ok(Some(p)) ==> readable(p),
{
    lemma_coord_row_names(parts[0]);
    lemma_parse_coord_wf(parts[1]);
    if parse_ra_text(parts[1]) is Ok {
        lemma_fitted_value_wf::<CoordView>(parse_ra_text(parts[1])->Ok_0, parts);
    }
    if parse_dec_text(parts[1]) is Ok {
        lemma_fitted_value_wf::<CoordView>(parse_dec_text(parts[1])->Ok_0, parts);
    }
}

/// A file as reading leaves it stays so when a switch of the table is
/// added.
proof fn lemma_readable_flag(par: ParfileView, parts: Seq<Seq<char>>)
    requires
        readable(par),
        parts.len() >= 2,
    ensures
        flag_entry(parts) matches Ok(Some(f)) ==> readable(
            ParfileView { flags: par.flags.push(f), ..par },
        ),
{
    lemma_find_row_member(flag_rows(), parts[0]);
    match flag_entry(parts) {
        Ok(Some(f)) => {
            let p = ParfileView { flags: par.flags.push(f), ..par };
            assert forall|i: int| 0 <= i < p.flags.len() implies named_in(
                flag_rows(),
                (#[trigger] p.flags[i]).name,
            ) by {
                if i < par.flags.len() {
                    assert(named_in(flag_rows(), par.flags[i].name));
                }
            }
        },
        _ => {},
    }
}

/// A file as reading leaves it stays so when a number of the table is
/// added.
proof fn lemma_readable_number(par: ParfileView, parts: Seq<Seq<char>>)
    requires
        readable(par),
        parts.len() >= 2,
    ensures
        fitted_entry(parts) matches Ok(Some(e)) ==> readable(
            ParfileView { parameters: par.parameters.push(e), ..par },
        ),
{
    lemma_find_row_member(float_rows(), parts[0]);
    lemma_parse_decimal_wf(parts[1]);
    lemma_fitted_value_wf::<DecimalView>(parse_decimal_text(parts[1])->0, parts);
    match fitted_entry(parts) {
        Ok(Some(e)) => {
            let p = ParfileView { parameters: par.parameters.push(e), ..par };
            assert forall|i: int| 0 <= i < p.parameters.len() implies number_ok(
                #[trigger] p.parameters[i],
            ) && named_in(float_rows(), p.parameters[i].name) by {
                if i < par.parameters.len() {
                    assert(number_ok(par.parameters[i]));
                }
            }
        },
        _ => {},
    }
}

/// A file as reading leaves it stays so when a count of the table is
/// added.
proof fn lemma_readable_count(par: ParfileView, parts: Seq<Seq<char>>)
    requires
        readable(par),
        parts.len() >= 2,
    ensures
        count_entry(parts) matches Ok(Some(c)) ==> readable(
            ParfileView { counts: par.counts.push(c), ..par },
        ),
{
    lemma_find_row_member(count_rows(), parts[0]);
    match count_entry(parts) {
        Ok(Some(c)) => {
            let p = ParfileView { counts: par.counts.push(c), ..par };
            assert forall|i: int| 0 <= i < p.counts.len() implies named_in(
                count_rows(),
                (#[trigger] p.counts[i]).name,
            ) by {
                if i < par.counts.len() {
                    assert(named_in(count_rows(), par.counts[i].name));
                }
            }
        },
        _ => {},
    }
}

/// A file as reading leaves it stays so when a text of the table is added.
proof fn lemma_readable_text(par: ParfileView, parts: Seq<Seq<char>>)
    requires
        readable(par),
        parts.len() >= 2,
        is_word(parts[1]),
    ensures
        text_entry(parts) matches Ok(Some(t)) ==> readable(
            ParfileView { texts: par.texts.push(t), ..par },
        ),
{
    lemma_find_row_member(text_rows(), parts[0]);
    match text_entry(parts) {
        Ok(Some(t)) => {
            let p = ParfileView { texts: par.texts.push(t), ..par };
            assert forall|i: int| 0 <= i < p.texts.len() implies is_word(
                (#[trigger] p.texts[i]).value,
            ) && named_in(text_rows(), p.texts[i].name) by {
                if i < par.texts.len() {
                    assert(is_word(par.texts[i].value));
                }
            }
        },
        _ => {},
    }
}

/// Words that are read into a file as reading leaves it, leave it so.
proof fn lemma_parsed_words_readable(par: ParfileView, parts: Seq<Seq<char>>)
    requires
        readable(par),
        parts.len() >= 2,
        forall|k: int| 0 <= k < parts.len() ==> is_word(#[trigger] parts[k]),
    ensures
        parsed_words(par, parts) matches Ok(p) ==> readable(p),
{
    reveal(parsed_words);
    assert(is_word(parts[1]));
    match glitch_line(parts, par.glitches) {
        Err(_) => {},
        Ok(Some(glitches)) => {
            lemma_glitch_line_ok(parts, par.glitches);
            lemma_readable_glitches(par, glitches);
        },
        Ok(None) => match jump_line(parts) {
            Err(_) => {},
            Ok(Some(j)) => {
                lemma_jump_line_ok(parts);
                lemma_readable_jump(par, j);
            },
            Ok(None) => match special_line(par, parts) {
                Err(_) => {},
                Ok(Some(p)) => {
                    lemma_readable_special(par, parts);
                },
                Ok(None) => match flag_entry(parts) {
                    Err(_) => {},
                    Ok(Some(f)) => {
                        lemma_readable_flag(par, parts);
                    },
                    Ok(None) => match fitted_entry(parts) {
                        Err(_) => {},
                        Ok(Some(e)) => {
                            lemma_readable_number(par, parts);
                        },
                        Ok(None) => match count_entry(parts) {
                            Err(_) => {},
                            Ok(Some(c)) => {
                                lemma_readable_count(par, parts);
                            },
                            Ok(None) => {
                                lemma_readable_text(par, parts);
                            },
                        },
                    },
                },
            },
        },
    }
}

/// Lines that are read into a file as reading leaves it, leave it so.
pub proof fn lemma_parsed_lines_readable(par: ParfileView, lines: Seq<Seq<char>>)
    requires
        readable(par),
    ensures
        parsed_lines(par, lines) matches Ok(p) ==> readable(p),
    decreases lines.len(),
{
    if lines.len() > 0 {
        lemma_parsed_lines_readable(par, lines.drop_last());
        match parsed_lines(par, lines.drop_last()) {
            Ok(mid) => {
                let line = lines.last();
                if line.len() > 0 && words(line).len() >= 2 {
                    lemma_words_are_words(line, 0);
                    lemma_parsed_words_readable(mid, words(line));
                }
            },
            Err(_) => {},
        }
    }
}

/// A file that reading has left is plain.
pub proof fn lemma_readable_is_plain(p: ParfileView)
    requires
        readable(p),
    ensures
        plain(p),
{
    assert forall|i: int| 0 <= i < p.parameters.len() implies plain_number_name(
        (#[trigger] p.parameters[i]).name,
    ) by {
        lemma_number_name_plain(p.parameters[i].name);
    }
    assert forall|i: int| 0 <= i < p.counts.len() implies plain_count_name(
        (#[trigger] p.counts[i]).name,
    ) by {
        lemma_count_name_plain(p.counts[i].name);
    }
    assert forall|i: int| 0 <= i < p.texts.len() implies plain_text_name(
        (#[trigger] p.texts[i]).name,
    ) by {
        lemma_text_name_plain(p.texts[i].name);
    }
    assert forall|i: int| 0 <= i < p.flags.len() implies plain_flag_name(
        (#[trigger] p.flags[i]).name,
    ) by {
        lemma_flag_name_plain(p.flags[i].name);
    }
}

/// A file in which every name is plain.
pub open spec fn plain(p: ParfileView) -> bool {
    &&& forall|i: int|
        0 <= i < p.parameters.len() ==> plain_number_name((#[trigger] p.parameters[i]).name)
    &&& forall|i: int| 0 <= i < p.counts.len() ==> plain_count_name((#[trigger] p.counts[i]).name)
    &&& forall|i: int| 0 <= i < p.texts.len() ==> plain_text_name((#[trigger] p.texts[i]).name)
    &&& forall|i: int| 0 <= i < p.flags.len() ==> plain_flag_name((#[trigger] p.flags[i]).name)
}

/// A coordinate as reading its line gives it.
pub open spec fn reread_coord(e: ParameterView<FittedView<CoordView>>) -> ParameterView<
    FittedView<CoordView>,
> {
    if e.value.is_missing() {
        ParfileView::empty().ra
    } else {
        reread(coord_rows(), e)
    }
}

/// The file that reading the written lines of `p` gives, where the name of
/// `p` stands at place `name_at` of its texts: the entries of `p`, each as
/// reading its line gives it, with the name at the head of the texts; and
/// the closed vocabularies, the glitches and the jumps of `p`.
pub open spec fn reread_file(p: ParfileView, name_at: int) -> ParfileView {
    ParfileView {
        ra: reread_coord(p.ra),
        dec: reread_coord(p.dec),
        parameters: reread_all(float_rows(), p.parameters),
        counts: reread_all(count_rows(), p.counts),
        texts: seq![reread(text_rows(), p.texts[name_at])] + reread_all(
            text_rows(),
            p.texts.subrange(0, name_at),
        ) + reread_all(text_rows(), p.texts.subrange(name_at + 1, p.texts.len() as int)),
        flags: reread_all(flag_rows(), p.flags),
        ..p
    }
}

/// The lines that a file is written as are read as the file again, each
/// entry as reading its line gives it.
pub proof fn lemma_written_reads(p: ParfileView, name_at: int)
    requires
        readable(p),
        plain(p),
        0 <= name_at < p.texts.len(),
        p.texts[name_at].name == "PSR"@,
    ensures
        parsed_lines(ParfileView::empty(), written(p, name_at)) == Ok::<ParfileView, ErrorView>(
            reread_file(p, name_at),
        ),
{
    let q0 = ParfileView::empty();
    let name = p.texts[name_at];
    let before = p.texts.subrange(0, name_at);
    let after = p.texts.subrange(name_at + 1, p.texts.len() as int);
    // The name.
    let l0 = seq!["PSR "@ + name.value];
    reveal_strlit("PSR ");
    reveal_strlit("PSR");
    reveal_strlit(" ");
    assert("PSR "@ =~= "PSR"@ + " "@);
    assert(l0[0] =~= text_line(name));
    assert(plain_text_name(name.name));
    assert(is_word(name.value));
    lemma_text_line_reads(q0, name);
    lemma_parsed_lines_one(q0, text_line(name));
    let q1 = ParfileView { texts: seq![reread(text_rows(), name)], ..q0 };
    assert(q0.texts.push(reread(text_rows(), name)) =~= q1.texts);
    assert(parsed_lines(q0, l0) == Ok::<ParfileView, ErrorView>(q1));
    // The coordinates.
    let l1 = present_coord_lines(p.ra);
    lemma_ra_lines_read(q1, p.ra);
    let q2 = ParfileView { ra: reread_coord(p.ra), ..q1 };
    lemma_parsed_lines_append(q0, l0, l1);
    assert(parsed_lines(q0, l0 + l1) == Ok::<ParfileView, ErrorView>(q2));
    let l2 = present_coord_lines(p.dec);
    lemma_dec_lines_read(q2, p.dec);
    let q3 = ParfileView { dec: reread_coord(p.dec), ..q2 };
    lemma_parsed_lines_append(q0, l0 + l1, l2);
    assert(parsed_lines(q0, l0 + l1 + l2) == Ok::<ParfileView, ErrorView>(q3));
    // The numbers and the counts.
    let l3 = present_number_lines(p.parameters);
    lemma_number_lines_read(q3, p.parameters);
    let q4 = ParfileView { parameters: reread_all(float_rows(), p.parameters), ..q3 };
    assert(q3.parameters + reread_all(float_rows(), p.parameters) =~= q4.parameters);
    lemma_parsed_lines_append(q0, l0 + l1 + l2, l3);
    assert(parsed_lines(q0, l0 + l1 + l2 + l3) == Ok::<ParfileView, ErrorView>(q4));
    let l4 = count_lines(p.counts);
    lemma_count_lines_read(q4, p.counts);
    let q5 = ParfileView { counts: reread_all(count_rows(), p.counts), ..q4 };
    assert(q4.counts + reread_all(count_rows(), p.counts) =~= q5.counts);
    lemma_parsed_lines_append(q0, l0 + l1 + l2 + l3, l4);
    assert(parsed_lines(q0, l0 + l1 + l2 + l3 + l4) == Ok::<ParfileView, ErrorView>(q5));
    // The other texts.
    let l5 = text_lines(before);
    assert forall|i: int| 0 <= i < before.len() implies plain_text_name(
        (#[trigger] before[i]).name,
    ) && is_word(before[i].value) by {
        assert(before[i] == p.texts[i]);
    }
    lemma_text_lines_read(q5, before);
    let q6 = ParfileView { texts: q5.texts + reread_all(text_rows(), before), ..q5 };
    lemma_parsed_lines_append(q0, l0 + l1 + l2 + l3 + l4, l5);
    assert(parsed_lines(q0, l0 + l1 + l2 + l3 + l4 + l5) == Ok::<ParfileView, ErrorView>(q6));
    let l6 = text_lines(after);
    assert forall|i: int| 0 <= i < after.len() implies plain_text_name(
        (#[trigger] after[i]).name,
    ) && is_word(after[i].value) by {
        assert(after[i] == p.texts[name_at + 1 + i]);
    }
    lemma_text_lines_read(q6, after);
    let q7 = ParfileView { texts: q6.texts + reread_all(text_rows(), after), ..q6 };
    lemma_parsed_lines_append(q0, l0 + l1 + l2 + l3 + l4 + l5, l6);
    assert(parsed_lines(q0, l0 + l1 + l2 + l3 + l4 + l5 + l6) == Ok::<ParfileView, ErrorView>(
        q7,
    ));
    // The switches.
    let l7 = flag_lines(p.flags);
    lemma_flag_lines_read(q7, p.flags);
    let q8 = ParfileView { flags: reread_all(flag_rows(), p.flags), ..q7 };
    assert(q7.flags + reread_all(flag_rows(), p.flags) =~= q8.flags);
    lemma_parsed_lines_append(q0, l0 + l1 + l2 + l3 + l4 + l5 + l6, l7);
    assert(parsed_lines(q0, l0 + l1 + l2 + l3 + l4 + l5 + l6 + l7) == Ok::<
        ParfileView,
        ErrorView,
    >(q8));
    // The closed vocabularies, the glitches and the jumps.
    let l8 = vocabulary_lines(p);
    lemma_vocabulary_lines_read(q8, p);
    let q9 = ParfileView {
        time_eph: p.time_eph,
        binary_model: p.binary_model,
        units: p.units,
        t2c_method: p.t2c_method,
        error_mode: p.error_mode,
        ..q8
    };
    lemma_parsed_lines_append(q0, l0 + l1 + l2 + l3 + l4 + l5 + l6 + l7, l8);
    assert(parsed_lines(q0, l0 + l1 + l2 + l3 + l4 + l5 + l6 + l7 + l8) == Ok::<
        ParfileView,
        ErrorView,
    >(q9));
    let l9 = all_glitch_lines(p.glitches);
    lemma_all_glitch_lines_read(q9, p.glitches);
    let q10 = ParfileView { glitches: p.glitches, ..q9 };
    assert(q9.glitches + p.glitches =~= p.glitches);
    lemma_parsed_lines_append(q0, l0 + l1 + l2 + l3 + l4 + l5 + l6 + l7 + l8, l9);
    assert(parsed_lines(q0, l0 + l1 + l2 + l3 + l4 + l5 + l6 + l7 + l8 + l9) == Ok::<
        ParfileView,
        ErrorView,
    >(q10));
    let l10 = jump_lines(p.jumps);
    lemma_jump_lines_read(q10, p.jumps);
    let q11 = ParfileView { jumps: p.jumps, ..q10 };
    assert(q10.jumps + p.jumps =~= p.jumps);
    lemma_parsed_lines_append(q0, l0 + l1 + l2 + l3 + l4 + l5 + l6 + l7 + l8 + l9, l10);
    assert(written(p, name_at) =~= l0 + l1 + l2 + l3 + l4 + l5 + l6 + l7 + l8 + l9 + l10);
    assert(q11 == reread_file(p, name_at));
}

/// A list in which no name stands twice has no duplicates.
pub proof fn lemma_distinct_names(names: Seq<Seq<char>>, n: int)
    requires
        0 <= n <= names.len(),
        forall|i: int, j: int|
            0 <= i < j < names.len() ==> #[trigger] names[i] != #[trigger] names[j],
    ensures
        duplicates_among(names, n).len() == 0,
    decreases n,
{
    if n > 0 {
        lemma_distinct_names(names, n - 1);
        lemma_first_index(names, names[n - 1], n);
        if first_index(names, names[n - 1], n) is Some {
            let j = first_index(names, names[n - 1], n)->0;
            assert(names[n - 1] != names[j]);
        }
    }
}

/// The lines of number entries do not change when the entries are read
/// from their lines.
proof fn lemma_reread_number_lines(entries: Seq<ParameterView<FittedView<DecimalView>>>)
    requires
        forall|i: int|
            0 <= i < entries.len() ==> plain_number_name((#[trigger] entries[i]).name),
    ensures
        present_number_lines(reread_all(float_rows(), entries)) == present_number_lines(entries),
    decreases entries.len(),
{
    let again = reread_all(float_rows(), entries);
    if entries.len() > 0 {
        let earlier = entries.drop_last();
        assert forall|i: int| 0 <= i < earlier.len() implies plain_number_name(
            (#[trigger] earlier[i]).name,
        ) by {
            assert(earlier[i] == entries[i]);
        }
        lemma_reread_number_lines(earlier);
        assert(again.drop_last() =~= reread_all(float_rows(), earlier));
        assert(plain_number_name(entries[entries.len() - 1].name));
        assert(again.last().name == entries.last().name);
        assert(again.last().value == entries.last().value);
        assert(number_line(again.last()) == number_line(entries.last()));
    }
}

/// The file that is read from the written lines of a file is written as
/// the same lines.
pub proof fn lemma_reread_writes_same(p: ParfileView, name_at: int)
    requires
        readable(p),
        plain(p),
        0 <= name_at < p.texts.len(),
        p.texts[name_at].name == "PSR"@,
    ensures
        written(reread_file(p, name_at), 0) == written(p, name_at),
{
    let q = reread_file(p, name_at);
    let before = p.texts.subrange(0, name_at);
    let after = p.texts.subrange(name_at + 1, p.texts.len() as int);
    lemma_coord_keys();
    assert(plain_text_name(p.texts[name_at].name));
    assert(q.texts[0].value == p.texts[name_at].value);
    assert(present_coord_lines(q.ra) == present_coord_lines(p.ra));
    assert(present_coord_lines(q.dec) == present_coord_lines(p.dec));
    lemma_reread_number_lines(p.parameters);
    assert(count_lines(q.counts) =~= count_lines(p.counts)) by {
        assert forall|i: int| 0 <= i < p.counts.len() implies count_line(
            #[trigger] q.counts[i],
        ) == count_line(p.counts[i]) by {
            assert(plain_count_name(p.counts[i].name));
        }
    }
    assert(flag_lines(q.flags) =~= flag_lines(p.flags)) by {
        assert forall|i: int| 0 <= i < p.flags.len() implies flag_line(#[trigger] q.flags[i])
            == flag_line(p.flags[i]) by {
            assert(plain_flag_name(p.flags[i].name));
        }
    }
    assert(text_lines(q.texts.subrange(0, 0)) =~= Seq::<Seq<char>>::empty());
    let rest = q.texts.subrange(1, q.texts.len() as int);
    assert(text_lines(rest) =~= text_lines(before) + text_lines(after)) by {
        assert(rest.len() == before.len() + after.len());
        assert forall|i: int| 0 <= i < rest.len() implies text_line(#[trigger] rest[i]) == (
        text_lines(before) + text_lines(after))[i] by {
            if i < before.len() {
                assert(rest[i] == reread(text_rows(), before[i]));
                assert(before[i] == p.texts[i]);
                assert(plain_text_name(p.texts[i].name));
            } else {
                assert(rest[i] == reread(text_rows(), after[i - before.len()]));
                assert(after[i - before.len()] == p.texts[name_at + 1 + i - before.len()]);
                assert(plain_text_name(p.texts[name_at + 1 + i - before.len()].name));
            }
        }
    }
    assert(vocabulary_lines(q) == vocabulary_lines(p));
    assert(written(q, 0) =~= written(p, name_at));
}

/// The file that is read from the written lines of a file that passes the
/// check passes the check, and its name leads its texts.
pub proof fn lemma_reread_checks(p: ParfileView, name_at: int)
    requires
        readable(p),
        plain(p),
        check_result(p) is Ok,
        first_index(names_of(p.texts), "PSR"@, 0) == Some(name_at),
    ensures
        check_result(reread_file(p, name_at)) is Ok,
        first_index(names_of(reread_file(p, name_at).texts), "PSR"@, 0) == Some(0int),
{
    let q = reread_file(p, name_at);
    lemma_first_index(names_of(p.texts), "PSR"@, 0);
    assert(plain_text_name(p.texts[name_at].name));
    assert(names_of(q.texts)[0] == "PSR"@);
    // The numbers keep their names and values.
    assert(names_of(q.parameters) =~= names_of(p.parameters)) by {
        assert forall|i: int| 0 <= i < p.parameters.len() implies (#[trigger] q.parameters[i]).name
            == p.parameters[i].name by {
            assert(plain_number_name(p.parameters[i].name));
        }
    }
    lemma_first_index(names_of(p.parameters), "PEPOCH"@, 0);
    lemma_first_index(names_of(p.parameters), "F0"@, 0);
    assert(mandatory(p) is Ok);
    assert(mandatory(q) is Ok);
    // No list gains a duplicate.
    assert(names_of(q.counts) =~= names_of(p.counts)) by {
        assert forall|i: int| 0 <= i < p.counts.len() implies (#[trigger] q.counts[i]).name
            == p.counts[i].name by {
            assert(plain_count_name(p.counts[i].name));
        }
    }
    assert(names_of(q.flags) =~= names_of(p.flags)) by {
        assert forall|i: int| 0 <= i < p.flags.len() implies (#[trigger] q.flags[i]).name
            == p.flags[i].name by {
            assert(plain_flag_name(p.flags[i].name));
        }
    }
    let old_names = names_of(p.texts);
    let new_names = names_of(q.texts);
    assert(duplicate_pairs(old_names).len() == 0);
    lemma_no_duplicates(old_names);
    assert forall|i: int, j: int| 0 <= i < j < new_names.len() implies #[trigger] new_names[i]
        != #[trigger] new_names[j] by {
        let from = |m: int|
            if m == 0 {
                name_at
            } else if m <= name_at {
                m - 1
            } else {
                m
            };
        assert(plain_text_name(p.texts[from(i)].name));
        assert(plain_text_name(p.texts[from(j)].name));
        assert(new_names[i] == old_names[from(i)]);
        assert(new_names[j] == old_names[from(j)]);
        if from(i) < from(j) {
            assert(old_names[from(i)] != old_names[from(j)]);
        } else {
            assert(old_names[from(j)] != old_names[from(i)]);
        }
    }
    lemma_distinct_names(new_names, new_names.len() as int);
    assert(q.glitches == p.glitches);
}

/// A file reads back from its lines: where lines are read as a file, the
/// file is written, what is written is read as a file again, and that file
/// is written as the very same lines.
pub proof fn lemma_round_trip(lines: Seq<Seq<char>>)
    requires
        read_result(lines) is Ok,
    ensures
        ({
            let p = read_result(lines)->Ok_0;
            &&& write_result(p) matches Ok(w) && read_result(w) matches Ok(q) && write_result(q)
                == Ok::<Seq<Seq<char>>, ErrorView>(w)
        }),
{
    let p = read_result(lines)->Ok_0;
    lemma_parsed_lines_readable(ParfileView::empty(), lines);
    assert(readable(p));
    lemma_readable_is_plain(p);
    lemma_first_index(names_of(p.texts), "PSR"@, 0);
    let name_at = first_index(names_of(p.texts), "PSR"@, 0)->0;
    lemma_written_reads(p, name_at);
    lemma_reread_checks(p, name_at);
    lemma_reread_writes_same(p, name_at);
}

/// What the keywords and the words of the closed vocabularies are, as far
/// as the reading of their lines needs it.
proof fn lemma_keywords()
    ensures
        is_word("TIMEEPH"@) && is_word("MODEL"@) && is_word("UNITS"@) && is_word("T2CMETHOD"@)
            && is_word("MODE"@),
        "TIMEEPH "@ == "TIMEEPH"@ + " "@,
        "MODEL "@ == "MODEL"@ + " "@,
        "UNITS "@ == "UNITS"@ + " "@,
        "T2CMETHOD "@ == "T2CMETHOD"@ + " "@,
        "MODE "@ == "MODE"@ + " "@,
        forall|key: Seq<char>| #[trigger]
            is_keyword(key) ==> glitch_key(key) is None && key != "JUMP"@ && find_row(
                coord_rows(),
                key,
            ) is None,
        "MODEL"@ != "TIMEEPH"@,
        "T2CMETHOD"@ != "TIMEEPH"@ && "T2CMETHOD"@ != "MODEL"@,
        "UNITS"@ != "TIMEEPH"@ && "UNITS"@ != "MODEL"@ && "UNITS"@ != "T2CMETHOD"@,
        "MODE"@ != "TIMEEPH"@ && "MODE"@ != "MODEL"@ && "MODE"@ != "T2CMETHOD"@ && "MODE"@
            != "UNITS"@,
{
    reveal_strlit("TIMEEPH");
    reveal_strlit("MODEL");
    reveal_strlit("UNITS");
    reveal_strlit("T2CMETHOD");
    reveal_strlit("MODE");
    reveal_strlit("TIMEEPH ");
    reveal_strlit("MODEL ");
    reveal_strlit("UNITS ");
    reveal_strlit("T2CMETHOD ");
    reveal_strlit("MODE ");
    reveal_strlit(" ");
    reveal_strlit("JUMP");
    reveal_strlit("RA");
    reveal_strlit("RAJ");
    reveal_strlit("DEC");
    reveal_strlit("DECJ");
    assert("TIMEEPH "@ =~= "TIMEEPH"@ + " "@);
    assert("MODEL "@ =~= "MODEL"@ + " "@);
    assert("UNITS "@ =~= "UNITS"@ + " "@);
    assert("T2CMETHOD "@ =~= "T2CMETHOD"@ + " "@);
    assert("MODE "@ =~= "MODE"@ + " "@);
    assert("TIMEEPH"@[0] == 'T' && "TIMEEPH"@[1] == 'I');
    assert("MODEL"@[0] == 'M' && "MODEL"@[1] == 'O' && "MODEL"@[4] == 'L');
    assert("UNITS"@[0] == 'U' && "UNITS"@[1] == 'N' && "UNITS"@[4] == 'S');
    assert("T2CMETHOD"@[0] == 'T' && "T2CMETHOD"@[1] == '2');
    assert("MODE"@[0] == 'M' && "MODE"@[1] == 'O');
    assert("JUMP"@[0] == 'J');
    assert("RA"@[0] == 'R' && "RAJ"@[0] == 'R' && "DEC"@[0] == 'D' && "DECJ"@[0] == 'D');
    assert forall|key: Seq<char>| #[trigger] is_keyword(key) implies glitch_key(key) is None && key
        != "JUMP"@ && find_row(coord_rows(), key) is None by {
        lemma_glitch_key_start(key);
        lemma_coord_keys_found(key);
    }
}

/// The words of the closed vocabularies are words, and each names itself.
proof fn lemma_vocabulary_words()
    ensures
        forall|e: TimeEphemeris|
            e != TimeEphemeris::Unstated ==> is_word(#[trigger] time_ephemeris_text(e))
                && time_ephemeris_of(time_ephemeris_text(e)) == Some(e),
        forall|e: BinaryModel|
            e != BinaryModel::Unstated ==> is_word(#[trigger] binary_model_text(e))
                && binary_model_of(binary_model_text(e)) == Some(e),
        forall|e: Units|
            e != Units::Unstated ==> is_word(#[trigger] units_text(e)) && units_of(units_text(e))
                == Some(e),
        forall|e: T2CMethod|
            e != T2CMethod::Unstated ==> is_word(#[trigger] t2c_method_text(e)) && t2c_method_of(
                t2c_method_text(e),
            ) == Some(e),
        forall|e: ErrorMode|
            e != ErrorMode::Unstated ==> is_word(#[trigger] error_mode_text(e)) && error_mode_of(
                error_mode_text(e),
            ) == Some(e),
{
    reveal_strlit("IF99");
    reveal_strlit("FB90");
    reveal_strlit("BT");
    reveal_strlit("DD");
    reveal_strlit("ELL1");
    reveal_strlit("MSS");
    reveal_strlit("SI");
    reveal_strlit("TCB");
    reveal_strlit("TDB");
    reveal_strlit("TEMPO");
    reveal_strlit("IAU2000B");
    reveal_strlit("0");
    reveal_strlit("1");
    assert("IF99"@[0] == 'I' && "FB90"@[0] == 'F');
    assert("BT"@[0] == 'B' && "DD"@[0] == 'D' && "ELL1"@[0] == 'E' && "MSS"@[0] == 'M');
    assert("SI"@[0] == 'S' && "TCB"@[1] == 'C' && "TDB"@[1] == 'D' && "TCB"@[0] == 'T');
    assert("TEMPO"@[0] == 'T' && "IAU2000B"@[0] == 'I');
    assert("0"@[0] == '0' && "1"@[0] == '1');
    assert forall|e: TimeEphemeris| e != TimeEphemeris::Unstated implies is_word(
        #[trigger] time_ephemeris_text(e),
    ) && time_ephemeris_of(time_ephemeris_text(e)) == Some(e) by {
        match e {
            TimeEphemeris::Unstated => {},
            TimeEphemeris::IF99 => {},
            TimeEphemeris::FB90 => {},
        }
    }
    assert forall|e: BinaryModel| e != BinaryModel::Unstated implies is_word(
        #[trigger] binary_model_text(e),
    ) && binary_model_of(binary_model_text(e)) == Some(e) by {
        match e {
            BinaryModel::Unstated => {},
            BinaryModel::BT => {},
            BinaryModel::ELL1 => {},
            BinaryModel::DD => {},
            BinaryModel::MSS => {},
        }
    }
    assert forall|e: Units| e != Units::Unstated implies is_word(#[trigger] units_text(e))
        && units_of(units_text(e)) == Some(e) by {
        match e {
            Units::Unstated => {},
            Units::SI => {},
            Units::TCB => {},
            Units::TDB => {},
        }
    }
    assert forall|e: T2CMethod| e != T2CMethod::Unstated implies is_word(
        #[trigger] t2c_method_text(e),
    ) && t2c_method_of(t2c_method_text(e)) == Some(e) by {
        match e {
            T2CMethod::Unstated => {},
            T2CMethod::IAU2000B => {},
            T2CMethod::TEMPO => {},
        }
    }
    assert forall|e: ErrorMode| e != ErrorMode::Unstated implies is_word(
        #[trigger] error_mode_text(e),
    ) && error_mode_of(error_mode_text(e)) == Some(e) by {
        match e {
            ErrorMode::Unstated => {},
            ErrorMode::Mode0 => {},
            ErrorMode::Mode1 => {},
        }
    }
}

/// What the words of a keyword and a word of its vocabulary do to a file in
/// which nothing is stated for the keyword.
proof fn lemma_keyword_words_read(par: ParfileView, key: Seq<char>, word: Seq<char>)
    requires
        is_keyword(key),
    ensures
        key == "TIMEEPH"@ && par.time_eph == TimeEphemeris::Unstated && time_ephemeris_of(word)
            is Some ==> parsed_words(par, seq![key, word]) == Ok::<ParfileView, ErrorView>(
            ParfileView { time_eph: time_ephemeris_of(word)->0, ..par },
        ),
        key == "MODEL"@ && par.binary_model == BinaryModel::Unstated && binary_model_of(word)
            is Some ==> parsed_words(par, seq![key, word]) == Ok::<ParfileView, ErrorView>(
            ParfileView { binary_model: binary_model_of(word)->0, ..par },
        ),
        key == "UNITS"@ && par.units == Units::Unstated && units_of(word) is Some
            ==> parsed_words(par, seq![key, word]) == Ok::<ParfileView, ErrorView>(
            ParfileView { units: units_of(word)->0, ..par },
        ),
        key == "T2CMETHOD"@ && par.t2c_method == T2CMethod::Unstated && t2c_method_of(word)
            is Some ==> parsed_words(par, seq![key, word]) == Ok::<ParfileView, ErrorView>(
            ParfileView { t2c_method: t2c_method_of(word)->0, ..par },
        ),
        key == "MODE"@ && par.error_mode == ErrorMode::Unstated && error_mode_of(word) is Some
            ==> parsed_words(par, seq![key, word]) == Ok::<ParfileView, ErrorView>(
            ParfileView { error_mode: error_mode_of(word)->0, ..par },
        ),
{
    reveal(parsed_words);
    lemma_keywords();
}

/// The line of a keyword, when it is read into a file in which nothing is
/// stated for the keyword, is read as its words.
proof fn lemma_keyword_line(par: ParfileView, spaced: Seq<char>, key: Seq<char>, word: Seq<char>)
    requires
        spaced == key + " "@,
        is_word(key),
        is_word(word),
    ensures
        parsed_lines(par, keyword_lines(true, spaced, word)) == parsed_words(
            par,
            seq![key, word],
        ),
{
    lemma_words_of_two(key, word);
    lemma_parsed_lines_one(par, spaced + word);
    assert(keyword_lines(true, spaced, word) =~= seq![spaced + word]);
}

/// The lines of the closed vocabularies, when read into a file in which
/// none of them is stated, state them.
pub proof fn lemma_vocabulary_lines_read(par: ParfileView, p: ParfileView)
    requires
        par.time_eph == TimeEphemeris::Unstated,
        par.binary_model == BinaryModel::Unstated,
        par.units == Units::Unstated,
        par.t2c_method == T2CMethod::Unstated,
        par.error_mode == ErrorMode::Unstated,
    ensures
        parsed_lines(par, vocabulary_lines(p)) == Ok::<ParfileView, ErrorView>(
            ParfileView {
                time_eph: p.time_eph,
                binary_model: p.binary_model,
                units: p.units,
                t2c_method: p.t2c_method,
                error_mode: p.error_mode,
                ..par
            },
        ),
{
    lemma_keywords();
    lemma_vocabulary_words();
    let l1 = keyword_lines(
        p.time_eph != TimeEphemeris::Unstated,
        "TIMEEPH "@,
        time_ephemeris_text(p.time_eph),
    );
    let l2 = keyword_lines(
        p.binary_model != BinaryModel::Unstated,
        "MODEL "@,
        binary_model_text(p.binary_model),
    );
    let l3 = keyword_lines(p.units != Units::Unstated, "UNITS "@, units_text(p.units));
    let l4 = keyword_lines(
        p.t2c_method != T2CMethod::Unstated,
        "T2CMETHOD "@,
        t2c_method_text(p.t2c_method),
    );
    let l5 = keyword_lines(
        p.error_mode != ErrorMode::Unstated,
        "MODE "@,
        error_mode_text(p.error_mode),
    );
    let q1 = ParfileView { time_eph: p.time_eph, ..par };
    let q2 = ParfileView { binary_model: p.binary_model, ..q1 };
    let q3 = ParfileView { units: p.units, ..q2 };
    let q4 = ParfileView { t2c_method: p.t2c_method, ..q3 };
    let q5 = ParfileView { error_mode: p.error_mode, ..q4 };
    if p.time_eph != TimeEphemeris::Unstated {
        lemma_time_line(par, p.time_eph);
    } else {
        assert(parsed_lines(par, Seq::<Seq<char>>::empty()) == Ok::<ParfileView, ErrorView>(par));
    }
    assert(parsed_lines(par, l1) == Ok::<ParfileView, ErrorView>(q1));
    if p.binary_model != BinaryModel::Unstated {
        lemma_model_line(q1, p.binary_model);
    } else {
        assert(parsed_lines(q1, Seq::<Seq<char>>::empty()) == Ok::<ParfileView, ErrorView>(q1));
    }
    assert(parsed_lines(q1, l2) == Ok::<ParfileView, ErrorView>(q2));
    if p.units != Units::Unstated {
        lemma_units_line(q2, p.units);
    } else {
        assert(parsed_lines(q2, Seq::<Seq<char>>::empty()) == Ok::<ParfileView, ErrorView>(q2));
    }
    assert(parsed_lines(q2, l3) == Ok::<ParfileView, ErrorView>(q3));
    if p.t2c_method != T2CMethod::Unstated {
        lemma_method_line(q3, p.t2c_method);
    } else {
        assert(parsed_lines(q3, Seq::<Seq<char>>::empty()) == Ok::<ParfileView, ErrorView>(q3));
    }
    assert(parsed_lines(q3, l4) == Ok::<ParfileView, ErrorView>(q4));
    if p.error_mode != ErrorMode::Unstated {
        lemma_mode_line(q4, p.error_mode);
    } else {
        assert(parsed_lines(q4, Seq::<Seq<char>>::empty()) == Ok::<ParfileView, ErrorView>(q4));
    }
    assert(parsed_lines(q4, l5) == Ok::<ParfileView, ErrorView>(q5));
    lemma_parsed_lines_append(par, l1, l2);
    lemma_parsed_lines_append(par, l1 + l2, l3);
    lemma_parsed_lines_append(par, l1 + l2 + l3, l4);
    lemma_parsed_lines_append(par, l1 + l2 + l3 + l4, l5);
}

/// The line of a time ephemeris, when read, states it.
proof fn lemma_time_line(par: ParfileView, e: TimeEphemeris)
    requires
        par.time_eph == TimeEphemeris::Unstated,
        e != TimeEphemeris::Unstated,
    ensures
        parsed_lines(par, keyword_lines(true, "TIMEEPH "@, time_ephemeris_text(e))) == Ok::<
            ParfileView,
            ErrorView,
        >(ParfileView { time_eph: e, ..par }),
{
    lemma_keywords();
    lemma_vocabulary_words();
    let word = time_ephemeris_text(e);
    lemma_keyword_line(par, "TIMEEPH "@, "TIMEEPH"@, word);
    lemma_keyword_words_read(par, "TIMEEPH"@, word);
}

/// The line of a binary model, when read, states it.
proof fn lemma_model_line(par: ParfileView, e: BinaryModel)
    requires
        par.binary_model == BinaryModel::Unstated,
        e != BinaryModel::Unstated,
    ensures
        parsed_lines(par, keyword_lines(true, "MODEL "@, binary_model_text(e))) == Ok::<
            ParfileView,
            ErrorView,
        >(ParfileView { binary_model: e, ..par }),
{
    lemma_keywords();
    lemma_vocabulary_words();
    let word = binary_model_text(e);
    lemma_keyword_line(par, "MODEL "@, "MODEL"@, word);
    lemma_keyword_words_read(par, "MODEL"@, word);
}

/// The line of the units, when read, states them.
proof fn lemma_units_line(par: ParfileView, e: Units)
    requires
        par.units == Units::Unstated,
        e != Units::Unstated,
    ensures
        parsed_lines(par, keyword_lines(true, "UNITS "@, units_text(e))) == Ok::<
            ParfileView,
            ErrorView,
        >(ParfileView { units: e, ..par }),
{
    lemma_keywords();
    lemma_vocabulary_words();
    let word = units_text(e);
    lemma_keyword_line(par, "UNITS "@, "UNITS"@, word);
    lemma_keyword_words_read(par, "UNITS"@, word);
}

/// The line of a method, when read, states it.
proof fn lemma_method_line(par: ParfileView, e: T2CMethod)
    requires
        par.t2c_method == T2CMethod::Unstated,
        e != T2CMethod::Unstated,
    ensures
        parsed_lines(par, keyword_lines(true, "T2CMETHOD "@, t2c_method_text(e))) == Ok::<
            ParfileView,
            ErrorView,
        >(ParfileView { t2c_method: e, ..par }),
{
    lemma_keywords();
    lemma_vocabulary_words();
    let word = t2c_method_text(e);
    lemma_keyword_line(par, "T2CMETHOD "@, "T2CMETHOD"@, word);
    lemma_keyword_words_read(par, "T2CMETHOD"@, word);
}

/// The line of an error mode, when read, states it.
proof fn lemma_mode_line(par: ParfileView, e: ErrorMode)
    requires
        par.error_mode == ErrorMode::Unstated,
        e != ErrorMode::Unstated,
    ensures
        parsed_lines(par, keyword_lines(true, "MODE "@, error_mode_text(e))) == Ok::<
            ParfileView,
            ErrorView,
        >(ParfileView { error_mode: e, ..par }),
{
    lemma_keywords();
    lemma_vocabulary_words();
    let word = error_mode_text(e);
    lemma_keyword_line(par, "MODE "@, "MODE"@, word);
    lemma_keyword_words_read(par, "MODE"@, word);
}

} // verus!
