//! The lines of a glitch read back as the glitch.

use vstd::prelude::*;
use super::glitch::{
    glitch_field, glitch_key, glitch_line, glitch_lines, glitch_text, grown, with_field,
    GlitchField, GlitchView,
};
use super::round_trip::{
    lemma_decimal_text_is_word, lemma_parsed_lines_append, lemma_parsed_lines_one,
};
use super::{all_glitch_lines, parsed_line, parsed_lines, parsed_words, ParfileView};
use crate::data_types::{
    lemma_decimal_text_parses, lemma_parse_decimal_wf, parse_decimal_text, DecimalView,
};
use crate::error::ErrorView;
use crate::text::{
    is_blank, is_digit, is_whitespace, is_word, lemma_nat_text_parses,
    lemma_nat_text_parses_unsigned, lemma_span_between, lemma_words_cons, lemma_words_one, nat_text,
    upper_text, words,
};

verus! {

/// A glitch as reading leaves it at place `at` of the list: its index is
/// its place, and every number in it is held in the one way.
pub open spec fn glitch_ok(g: GlitchView, at: int) -> bool {
    &&& g.number == at
    &&& g.epoch.wf()
    &&& g.phase.wf()
    &&& g.f0.wf()
    &&& g.f1.wf()
    &&& g.f0d.wf()
    &&& g.td.wf()
}

/// The list in which the glitch at `index` has one of its values set, grown
/// as far as it takes.
pub open spec fn with_value(
    glitches: Seq<GlitchView>,
    index: int,
    field: GlitchField,
    value: DecimalView,
) -> Seq<GlitchView> {
    grown(glitches, index).update(index, with_field(grown(glitches, index)[index], field, value))
}

/// A key without an underscore that names a value of a glitch, an
/// underscore and the numeral of an index are the key of that value at that
/// index.
proof fn lemma_glitch_key_of(prefix: Seq<char>, field: GlitchField, n: nat)
    requires
        forall|k: int| 0 <= k < prefix.len() ==> #[trigger] prefix[k] != '_',
        glitch_field(prefix) == Some(field),
    ensures
        glitch_key(prefix + seq!['_'] + nat_text(n)) == Some((field, nat_text(n))),
{
    let digits = nat_text(n);
    let key = prefix + seq!['_'] + digits;
    let empty = Seq::<char>::empty();
    lemma_nat_text_parses(n);
    assert forall|k: int| 0 <= k < digits.len() implies #[trigger] digits[k] != '_' by {
        assert(is_digit(digits[k]));
    }
    let rest = seq!['_'] + digits;
    assert(key =~= empty + prefix + rest);
    assert(rest[0] == '_');
    lemma_span_between(empty, prefix, rest, '_');
    let p = prefix.len() as int;
    assert(key =~= (prefix + seq!['_']) + digits + empty);
    lemma_span_between(prefix + seq!['_'], digits, empty, '_');
    assert(key.take(p) =~= prefix);
    assert(key.skip(p + 1) =~= digits);
}

/// What the six keys of a glitch are.
proof fn lemma_glitch_literals()
    ensures
        "GLEP_"@ == "GLEP"@ + seq!['_'],
        "GLPH_"@ == "GLPH"@ + seq!['_'],
        "GLF0_"@ == "GLF0"@ + seq!['_'],
        "GLF1_"@ == "GLF1"@ + seq!['_'],
        "GLF0D_"@ == "GLF0D"@ + seq!['_'],
        "GLTD_"@ == "GLTD"@ + seq!['_'],
        glitch_field("GLEP"@) == Some(GlitchField::Epoch),
        glitch_field("GLPH"@) == Some(GlitchField::Phase),
        glitch_field("GLF0"@) == Some(GlitchField::F0),
        glitch_field("GLF1"@) == Some(GlitchField::F1),
        glitch_field("GLF0D"@) == Some(GlitchField::F0d),
        glitch_field("GLTD"@) == Some(GlitchField::Td),
        forall|prefix: Seq<char>| #[trigger]
            glitch_field(prefix) is Some ==> is_word(prefix) && forall|k: int|
                0 <= k < prefix.len() ==> #[trigger] prefix[k] != '_',
        is_blank("  "@) && "  "@.len() > 0,
        is_blank(" "@) && " "@.len() > 0,
{
    reveal_strlit("GLEP");
    reveal_strlit("GLPH");
    reveal_strlit("GLF0");
    reveal_strlit("GLF1");
    reveal_strlit("GLF0D");
    reveal_strlit("GLTD");
    reveal_strlit("GLEP_");
    reveal_strlit("GLPH_");
    reveal_strlit("GLF0_");
    reveal_strlit("GLF1_");
    reveal_strlit("GLF0D_");
    reveal_strlit("GLTD_");
    reveal_strlit("  ");
    reveal_strlit(" ");
    assert("GLEP_"@ =~= "GLEP"@ + seq!['_']);
    assert("GLPH_"@ =~= "GLPH"@ + seq!['_']);
    assert("GLF0_"@ =~= "GLF0"@ + seq!['_']);
    assert("GLF1_"@ =~= "GLF1"@ + seq!['_']);
    assert("GLF0D_"@ =~= "GLF0D"@ + seq!['_']);
    assert("GLTD_"@ =~= "GLTD"@ + seq!['_']);
    assert(upper_text("GLEP"@) =~= "GLEP"@);
    assert(upper_text("GLPH"@) =~= "GLPH"@);
    assert(upper_text("GLF0"@) =~= "GLF0"@);
    assert(upper_text("GLF1"@) =~= "GLF1"@);
    assert(upper_text("GLF0D"@) =~= "GLF0D"@);
    assert(upper_text("GLTD"@) =~= "GLTD"@);
    assert("GLEP"@[2] == 'E' && "GLPH"@[2] == 'P' && "GLF0"@[2] == 'F' && "GLF0"@[3] == '0'
        && "GLF1"@[3] == '1' && "GLTD"@[2] == 'T' && "GLF1"@[2] == 'F');
    assert forall|prefix: Seq<char>| #[trigger] glitch_field(prefix) is Some implies is_word(
        prefix,
    ) && forall|k: int| 0 <= k < prefix.len() ==> #[trigger] prefix[k] != '_' by {
        let upper = upper_text(prefix);
        assert(prefix.len() == upper.len());
        assert forall|k: int| 0 <= k < prefix.len() implies !is_whitespace(#[trigger] prefix[k])
            && prefix[k] != '_' by {
            assert(upper[k] == crate::text::ascii_upper(prefix[k]));
            let c = upper[k];
            assert(c == 'G' || c == 'L' || c == 'E' || c == 'P' || c == 'H' || c == 'F' || c
                == '0' || c == '1' || c == 'D' || c == 'T');
        }
    }
}

/// One line of a glitch, when read, sets its value in the glitch of its
/// index.
proof fn lemma_glitch_line_reads(
    par: ParfileView,
    key: Seq<char>,
    prefix: Seq<char>,
    field: GlitchField,
    gap: Seq<char>,
    number: usize,
    value: DecimalView,
)
    requires
        key == prefix + seq!['_'],
        glitch_field(prefix) == Some(field),
        is_blank(gap),
        gap.len() > 0,
        value.wf(),
    ensures
        parsed_line(par, glitch_text(key, number, gap, value)) == Ok::<ParfileView, ErrorView>(
            ParfileView {
                glitches: with_value(par.glitches, number as int, field, value),
                ..par
            },
        ),
        glitch_text(key, number, gap, value).len() > 0,
{
    reveal(parsed_words);
    lemma_glitch_literals();
    let n = number as nat;
    let digits = nat_text(n);
    let word = key + digits;
    lemma_nat_text_parses(n);
    lemma_nat_text_parses_unsigned(n);
    lemma_glitch_key_of(prefix, field, n);
    assert(glitch_field(prefix) is Some);
    assert(is_word(prefix));
    assert forall|k: int| 0 <= k < word.len() implies !is_whitespace(#[trigger] word[k]) by {
        if k < prefix.len() {
            assert(word[k] == prefix[k]);
        } else if k == prefix.len() {
            assert(word[k] == '_');
        } else {
            assert(word[k] == digits[k - prefix.len() - 1]);
            assert(is_digit(digits[k - prefix.len() - 1]));
        }
    }
    assert(is_word(word));
    lemma_decimal_text_is_word(value);
    lemma_decimal_text_parses(value);
    lemma_words_cons(word, gap, value.text());
    lemma_words_one(value.text());
    let parts = seq![word, value.text()];
    assert(seq![word] + seq![value.text()] =~= parts);
    assert(glitch_text(key, number, gap, value) =~= word + gap + value.text());
    assert(words(glitch_text(key, number, gap, value)) == parts);
    assert(glitch_key(parts[0]) == Some((field, digits)));
}

/// The six lines of a glitch, when read into a file that holds the glitches
/// before it, add the glitch.
pub proof fn lemma_glitch_lines_read(par: ParfileView, g: GlitchView)
    requires
        glitch_ok(g, par.glitches.len() as int),
    ensures
        parsed_lines(par, glitch_lines(g)) == Ok::<ParfileView, ErrorView>(
            ParfileView { glitches: par.glitches.push(g), ..par },
        ),
{
    lemma_glitch_literals();
    let n = g.number;
    let at = n as int;
    let l1 = glitch_text("GLEP_"@, n, "  "@, g.epoch);
    let l2 = glitch_text("GLPH_"@, n, "  "@, g.phase);
    let l3 = glitch_text("GLF0_"@, n, "  "@, g.f0);
    let l4 = glitch_text("GLF1_"@, n, "  "@, g.f1);
    let l5 = glitch_text("GLF0D_"@, n, " "@, g.f0d);
    let l6 = glitch_text("GLTD_"@, n, "  "@, g.td);
    let g0 = par.glitches;
    let g1 = with_value(g0, at, GlitchField::Epoch, g.epoch);
    let g2 = with_value(g1, at, GlitchField::Phase, g.phase);
    let g3 = with_value(g2, at, GlitchField::F0, g.f0);
    let g4 = with_value(g3, at, GlitchField::F1, g.f1);
    let g5 = with_value(g4, at, GlitchField::F0d, g.f0d);
    let g6 = with_value(g5, at, GlitchField::Td, g.td);
    let q1 = ParfileView { glitches: g1, ..par };
    let q2 = ParfileView { glitches: g2, ..par };
    let q3 = ParfileView { glitches: g3, ..par };
    let q4 = ParfileView { glitches: g4, ..par };
    let q5 = ParfileView { glitches: g5, ..par };
    let q6 = ParfileView { glitches: g6, ..par };
    lemma_glitch_line_reads(par, "GLEP_"@, "GLEP"@, GlitchField::Epoch, "  "@, n, g.epoch);
    lemma_glitch_line_reads(q1, "GLPH_"@, "GLPH"@, GlitchField::Phase, "  "@, n, g.phase);
    lemma_glitch_line_reads(q2, "GLF0_"@, "GLF0"@, GlitchField::F0, "  "@, n, g.f0);
    lemma_glitch_line_reads(q3, "GLF1_"@, "GLF1"@, GlitchField::F1, "  "@, n, g.f1);
    lemma_glitch_line_reads(q4, "GLF0D_"@, "GLF0D"@, GlitchField::F0d, " "@, n, g.f0d);
    lemma_glitch_line_reads(q5, "GLTD_"@, "GLTD"@, GlitchField::Td, "  "@, n, g.td);
    lemma_parsed_lines_one(par, l1);
    lemma_parsed_lines_one(q1, l2);
    lemma_parsed_lines_one(q2, l3);
    lemma_parsed_lines_one(q3, l4);
    lemma_parsed_lines_one(q4, l5);
    lemma_parsed_lines_one(q5, l6);
    lemma_parsed_lines_append(par, seq![l1], seq![l2]);
    lemma_parsed_lines_append(par, seq![l1] + seq![l2], seq![l3]);
    lemma_parsed_lines_append(par, seq![l1] + seq![l2] + seq![l3], seq![l4]);
    lemma_parsed_lines_append(par, seq![l1] + seq![l2] + seq![l3] + seq![l4], seq![l5]);
    lemma_parsed_lines_append(
        par,
        seq![l1] + seq![l2] + seq![l3] + seq![l4] + seq![l5],
        seq![l6],
    );
    assert(glitch_lines(g) =~= seq![l1] + seq![l2] + seq![l3] + seq![l4] + seq![l5] + seq![l6]);
    assert(g1.len() == at + 1);
    assert(g2.len() == at + 1);
    assert(g3.len() == at + 1);
    assert(g4.len() == at + 1);
    assert(g5.len() == at + 1);
    assert(g6[at] == g);
    assert(g6 =~= g0.push(g));
}

/// The lines of glitches, when read into a file that holds the glitches
/// before them, add the glitches, in their order.
pub proof fn lemma_all_glitch_lines_read(par: ParfileView, glitches: Seq<GlitchView>)
    requires
        forall|i: int|
            0 <= i < glitches.len() ==> glitch_ok(#[trigger] glitches[i], par.glitches.len() + i),
    ensures
        parsed_lines(par, all_glitch_lines(glitches)) == Ok::<ParfileView, ErrorView>(
            ParfileView { glitches: par.glitches + glitches, ..par },
        ),
    decreases glitches.len(),
{
    if glitches.len() == 0 {
        assert(par.glitches + glitches =~= par.glitches);
    } else {
        let earlier = glitches.drop_last();
        let last = glitches.last();
        assert forall|i: int| 0 <= i < earlier.len() implies glitch_ok(
            #[trigger] earlier[i],
            par.glitches.len() + i,
        ) by {
            assert(earlier[i] == glitches[i]);
        }
        lemma_all_glitch_lines_read(par, earlier);
        let mid = ParfileView { glitches: par.glitches + earlier, ..par };
        assert(glitch_ok(glitches[glitches.len() - 1], par.glitches.len() + glitches.len() - 1));
        lemma_glitch_lines_read(mid, last);
        lemma_parsed_lines_append(par, all_glitch_lines(earlier), glitch_lines(last));
        assert(mid.glitches.push(last) =~= par.glitches + glitches);
    }
}

/// Glitches that a line is read into stay as reading leaves them.
pub proof fn lemma_glitch_line_ok(parts: Seq<Seq<char>>, glitches: Seq<GlitchView>)
    requires
        forall|i: int| 0 <= i < glitches.len() ==> glitch_ok(#[trigger] glitches[i], i),
    ensures
        glitch_line(parts, glitches) matches Ok(Some(all)) ==> forall|i: int|
            0 <= i < all.len() ==> glitch_ok(#[trigger] all[i], i),
{
    match glitch_line(parts, glitches) {
        Ok(Some(all)) => {
            lemma_parse_decimal_wf(parts[1]);
            let value = parse_decimal_text(parts[1])->0;
            assert(DecimalView::zero().wf());
            assert forall|i: int| 0 <= i < all.len() implies glitch_ok(#[trigger] all[i], i) by {
                if i < glitches.len() {
                    assert(glitch_ok(glitches[i], i));
                }
            }
        },
        _ => {},
    }
}

} // verus!
