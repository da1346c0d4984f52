//! The line of a jump reads back as the jump.

use vstd::prelude::*;
use super::glitch::{glitch_line, GlitchView};
use super::jump::{
    fit_text, jump_line, jump_number, jump_range, jump_text, jump_word, selector_len, JumpTypeView,
    JumpView,
};
use super::round_trip::{
    lemma_decimal_text_is_word, lemma_parsed_lines_append, lemma_parsed_lines_one,
};
use super::{jump_lines, parsed_line, parsed_lines, parsed_words, ParfileView};
use crate::data_types::{
    lemma_decimal_text_parses, lemma_parse_decimal_wf, parse_decimal_text, DecimalView,
};
use crate::error::ErrorView;
use crate::parse_tools::parse_bool_text;
use crate::text::{is_word, lemma_words_cons, lemma_words_one, words};

verus! {

/// Whether a word is one of the four selectors that a jump line knows by
/// name.
pub open spec fn is_selector(word: Seq<char>) -> bool {
    word == "MJD"@ || word == "FREQ"@ || word == "TEL"@ || word == "NAME"@
}

/// A jump as reading leaves it: every number in it is held in the one way,
/// every text in it is a word, and the name of a flag is no selector.
pub open spec fn jump_ok(j: JumpView) -> bool {
    &&& j.value.wf()
    &&& match j.jtype {
        JumpTypeView::Mjd(low, high) => low.wf() && high.wf(),
        JumpTypeView::Freq(low, high) => low.wf() && high.wf(),
        JumpTypeView::Tel(id) => is_word(id),
        JumpTypeView::Name(name) => is_word(name),
        JumpTypeView::Flag(flag, value) => is_word(flag) && is_word(value) && !is_selector(flag),
    }
}

/// The words of a jump: `JUMP`, the words of its selector, its size, and
/// whether to fit it.
pub open spec fn jump_words(j: JumpView) -> Seq<Seq<char>> {
    match j.jtype {
        JumpTypeView::Mjd(low, high) => seq![
            "JUMP"@,
            "MJD"@,
            low.text(),
            high.text(),
            j.value.text(),
            fit_text(j.fit),
        ],
        JumpTypeView::Freq(low, high) => seq![
            "JUMP"@,
            "FREQ"@,
            low.text(),
            high.text(),
            j.value.text(),
            fit_text(j.fit),
        ],
        JumpTypeView::Tel(id) => seq!["JUMP"@, "TEL"@, id, j.value.text(), fit_text(j.fit)],
        JumpTypeView::Name(name) => seq!["JUMP"@, "NAME"@, name, j.value.text(), fit_text(j.fit)],
        JumpTypeView::Flag(flag, value) => seq![
            "JUMP"@,
            flag,
            value,
            j.value.text(),
            fit_text(j.fit),
        ],
    }
}

/// What the fixed words of a jump line are.
proof fn lemma_jump_literals()
    ensures
        is_word("JUMP"@) && is_word("MJD"@) && is_word("FREQ"@) && is_word("TEL"@) && is_word(
            "NAME"@,
        ),
        is_word("1"@) && is_word("0"@),
        "JUMP "@ == "JUMP"@ + " "@,
        "MJD "@ == "MJD"@ + " "@,
        "FREQ "@ == "FREQ"@ + " "@,
        "TEL "@ == "TEL"@ + " "@,
        "NAME "@ == "NAME"@ + " "@,
        "FREQ"@ != "MJD"@,
        "TEL"@ != "MJD"@ && "TEL"@ != "FREQ"@,
        "NAME"@ != "MJD"@ && "NAME"@ != "FREQ"@ && "NAME"@ != "TEL"@,
        parse_bool_text("1"@) == Some(true),
        parse_bool_text("0"@) == Some(false),
        " "@.len() == 1 && crate::text::is_whitespace(" "@[0]),
{
    reveal_strlit("JUMP");
    reveal_strlit("MJD");
    reveal_strlit("FREQ");
    reveal_strlit("TEL");
    reveal_strlit("NAME");
    reveal_strlit("JUMP ");
    reveal_strlit("MJD ");
    reveal_strlit("FREQ ");
    reveal_strlit("TEL ");
    reveal_strlit("NAME ");
    reveal_strlit(" ");
    reveal_strlit("1");
    reveal_strlit("0");
    assert("JUMP "@ =~= "JUMP"@ + " "@);
    assert("MJD "@ =~= "MJD"@ + " "@);
    assert("FREQ "@ =~= "FREQ"@ + " "@);
    assert("TEL "@ =~= "TEL"@ + " "@);
    assert("NAME "@ =~= "NAME"@ + " "@);
    assert("MJD"@[0] == 'M' && "FREQ"@[0] == 'F' && "TEL"@[0] == 'T' && "NAME"@[0] == 'N');
}

/// The words of five words with one space between each two.
proof fn lemma_words_of_five(
    a: Seq<char>,
    b: Seq<char>,
    c: Seq<char>,
    d: Seq<char>,
    e: Seq<char>,
)
    requires
        is_word(a),
        is_word(b),
        is_word(c),
        is_word(d),
        is_word(e),
    ensures
        words(a + " "@ + b + " "@ + c + " "@ + d + " "@ + e) == seq![a, b, c, d, e],
{
    lemma_jump_literals();
    let sp = " "@;
    let t4 = e;
    let t3 = d + sp + t4;
    let t2 = c + sp + t3;
    let t1 = b + sp + t2;
    let t0 = a + sp + t1;
    lemma_words_one(e);
    lemma_words_cons(d, sp, t4);
    lemma_words_cons(c, sp, t3);
    lemma_words_cons(b, sp, t2);
    lemma_words_cons(a, sp, t1);
    assert(a + sp + b + sp + c + sp + d + sp + e =~= t0);
    assert(seq![a] + (seq![b] + (seq![c] + (seq![d] + seq![e]))) =~= seq![a, b, c, d, e]);
}

/// The words of six words with one space between each two.
proof fn lemma_words_of_six(
    a: Seq<char>,
    b: Seq<char>,
    c: Seq<char>,
    d: Seq<char>,
    e: Seq<char>,
    f: Seq<char>,
)
    requires
        is_word(a),
        is_word(b),
        is_word(c),
        is_word(d),
        is_word(e),
        is_word(f),
    ensures
        words(a + " "@ + b + " "@ + c + " "@ + d + " "@ + e + " "@ + f) == seq![a, b, c, d, e, f],
{
    lemma_jump_literals();
    let sp = " "@;
    let t1 = b + sp + c + sp + d + sp + e + sp + f;
    lemma_words_of_five(b, c, d, e, f);
    lemma_words_cons(a, sp, t1);
    assert(a + sp + b + sp + c + sp + d + sp + e + sp + f =~= a + sp + t1);
    assert(seq![a] + seq![b, c, d, e, f] =~= seq![a, b, c, d, e, f]);
}

/// The line of a jump is made of its words.
proof fn lemma_jump_text_words(j: JumpView)
    requires
        jump_ok(j),
    ensures
        words(jump_text(j)) == jump_words(j),
        forall|i: int| 0 <= i < jump_words(j).len() ==> is_word(#[trigger] jump_words(j)[i]),
        jump_text(j).len() > 0,
{
    lemma_jump_literals();
    lemma_decimal_text_is_word(j.value);
    let v = j.value.text();
    let f = fit_text(j.fit);
    let sp = " "@;
    match j.jtype {
        JumpTypeView::Mjd(low, high) => {
            lemma_decimal_text_is_word(low);
            lemma_decimal_text_is_word(high);
            lemma_words_of_six("JUMP"@, "MJD"@, low.text(), high.text(), v, f);
            assert(jump_text(j) =~= "JUMP"@ + sp + "MJD"@ + sp + low.text() + sp + high.text()
                + sp + v + sp + f);
        },
        JumpTypeView::Freq(low, high) => {
            lemma_decimal_text_is_word(low);
            lemma_decimal_text_is_word(high);
            lemma_words_of_six("JUMP"@, "FREQ"@, low.text(), high.text(), v, f);
            assert(jump_text(j) =~= "JUMP"@ + sp + "FREQ"@ + sp + low.text() + sp + high.text()
                + sp + v + sp + f);
        },
        JumpTypeView::Tel(id) => {
            lemma_words_of_five("JUMP"@, "TEL"@, id, v, f);
            assert(jump_text(j) =~= "JUMP"@ + sp + "TEL"@ + sp + id + sp + v + sp + f);
        },
        JumpTypeView::Name(name) => {
            lemma_words_of_five("JUMP"@, "NAME"@, name, v, f);
            assert(jump_text(j) =~= "JUMP"@ + sp + "NAME"@ + sp + name + sp + v + sp + f);
        },
        JumpTypeView::Flag(flag, value) => {
            lemma_words_of_five("JUMP"@, flag, value, v, f);
            assert(jump_text(j) =~= "JUMP"@ + sp + flag + sp + value + sp + v + sp + f);
        },
    }
}

/// The words of a jump between two numbers say the jump.
proof fn lemma_range_words_line(
    kind: Seq<char>,
    low_text: Seq<char>,
    high_text: Seq<char>,
    value_text: Seq<char>,
    fit_word: Seq<char>,
    low: DecimalView,
    high: DecimalView,
    value: DecimalView,
    fit: bool,
)
    requires
        kind == "MJD"@ || kind == "FREQ"@,
        parse_decimal_text(low_text) == Some(low),
        parse_decimal_text(high_text) == Some(high),
        parse_decimal_text(value_text) == Some(value),
        parse_bool_text(fit_word) == Some(fit),
    ensures
        jump_line(seq!["JUMP"@, kind, low_text, high_text, value_text, fit_word]) == Ok::<
            Option<JumpView>,
            ErrorView,
        >(
            Some(
                JumpView {
                    jtype: if kind == "MJD"@ {
                        JumpTypeView::Mjd(low, high)
                    } else {
                        JumpTypeView::Freq(low, high)
                    },
                    value,
                    fit,
                },
            ),
        ),
{
    lemma_jump_literals();
    let parts = seq!["JUMP"@, kind, low_text, high_text, value_text, fit_word];
    assert(parts.len() == 6);
    assert(parts[1] == kind);
    assert(jump_number(parts, 2) == Ok::<DecimalView, ErrorView>(low));
    assert(jump_number(parts, 3) == Ok::<DecimalView, ErrorView>(high));
    assert(jump_range(parts) == Ok::<(DecimalView, DecimalView), ErrorView>((low, high)));
    assert(selector_len(parts) == 2);
    assert(jump_number(parts, 4) == Ok::<DecimalView, ErrorView>(value));
    assert(jump_word(parts, 5) == Ok::<Seq<char>, ErrorView>(fit_word));
}

/// The words of a jump chosen by one word say the jump.
proof fn lemma_word_words_line(
    kind: Seq<char>,
    word: Seq<char>,
    value_text: Seq<char>,
    fit_word: Seq<char>,
    value: DecimalView,
    fit: bool,
)
    requires
        kind != "MJD"@,
        kind != "FREQ"@,
        parse_decimal_text(value_text) == Some(value),
        parse_bool_text(fit_word) == Some(fit),
    ensures
        jump_line(seq!["JUMP"@, kind, word, value_text, fit_word]) == Ok::<
            Option<JumpView>,
            ErrorView,
        >(
            Some(
                JumpView {
                    jtype: if kind == "TEL"@ {
                        JumpTypeView::Tel(word)
                    } else if kind == "NAME"@ {
                        JumpTypeView::Name(word)
                    } else {
                        JumpTypeView::Flag(kind, word)
                    },
                    value,
                    fit,
                },
            ),
        ),
{
    let parts = seq!["JUMP"@, kind, word, value_text, fit_word];
    assert(parts.len() == 5);
    assert(parts[1] == kind);
    assert(parts[2] == word);
    assert(selector_len(parts) == 1);
    assert(jump_number(parts, 3) == Ok::<DecimalView, ErrorView>(value));
    assert(jump_word(parts, 4) == Ok::<Seq<char>, ErrorView>(fit_word));
}

/// The words of a jump say the jump.
proof fn lemma_jump_words_line(j: JumpView)
    requires
        jump_ok(j),
    ensures
        jump_line(jump_words(j)) == Ok::<Option<JumpView>, ErrorView>(Some(j)),
{
    lemma_jump_literals();
    lemma_decimal_text_parses(j.value);
    let v = j.value.text();
    let f = fit_text(j.fit);
    assert(parse_bool_text(f) == Some(j.fit));
    match j.jtype {
        JumpTypeView::Mjd(low, high) => {
            lemma_decimal_text_parses(low);
            lemma_decimal_text_parses(high);
            lemma_range_words_line("MJD"@, low.text(), high.text(), v, f, low, high, j.value, j.fit);
        },
        JumpTypeView::Freq(low, high) => {
            lemma_decimal_text_parses(low);
            lemma_decimal_text_parses(high);
            lemma_range_words_line(
                "FREQ"@,
                low.text(),
                high.text(),
                v,
                f,
                low,
                high,
                j.value,
                j.fit,
            );
        },
        JumpTypeView::Tel(id) => {
            lemma_word_words_line("TEL"@, id, v, f, j.value, j.fit);
        },
        JumpTypeView::Name(name) => {
            lemma_word_words_line("NAME"@, name, v, f, j.value, j.fit);
        },
        JumpTypeView::Flag(flag, value) => {
            lemma_word_words_line(flag, value, v, f, j.value, j.fit);
        },
    }
}

/// The line of a jump, when read, adds the jump to the jumps.
pub proof fn lemma_jump_line_reads(par: ParfileView, j: JumpView)
    requires
        jump_ok(j),
    ensures
        parsed_line(par, jump_text(j)) == Ok::<ParfileView, ErrorView>(
            ParfileView { jumps: par.jumps.push(j), ..par },
        ),
        jump_text(j).len() > 0,
{
    reveal(parsed_words);
    lemma_jump_text_words(j);
    lemma_jump_words_line(j);
    let parts = jump_words(j);
    assert(parts.len() >= 5);
    assert(glitch_line(parts, par.glitches) == Ok::<Option<Seq<GlitchView>>, ErrorView>(None));
}

/// The lines of jumps, when read, add the jumps, in their order.
pub proof fn lemma_jump_lines_read(par: ParfileView, jumps: Seq<JumpView>)
    requires
        forall|i: int| 0 <= i < jumps.len() ==> jump_ok(#[trigger] jumps[i]),
    ensures
        parsed_lines(par, jump_lines(jumps)) == Ok::<ParfileView, ErrorView>(
            ParfileView { jumps: par.jumps + jumps, ..par },
        ),
    decreases jumps.len(),
{
    if jumps.len() == 0 {
        assert(par.jumps + jumps =~= par.jumps);
        assert(jump_lines(jumps) =~= Seq::<Seq<char>>::empty());
    } else {
        let earlier = jumps.drop_last();
        let last = jumps.last();
        assert forall|i: int| 0 <= i < earlier.len() implies jump_ok(#[trigger] earlier[i]) by {
            assert(earlier[i] == jumps[i]);
        }
        lemma_jump_lines_read(par, earlier);
        let mid = ParfileView { jumps: par.jumps + earlier, ..par };
        assert(jump_ok(jumps[jumps.len() - 1]));
        lemma_jump_line_reads(mid, last);
        lemma_parsed_lines_one(mid, jump_text(last));
        assert(jump_lines(jumps) =~= jump_lines(earlier) + seq![jump_text(last)]);
        lemma_parsed_lines_append(par, jump_lines(earlier), seq![jump_text(last)]);
        assert(mid.jumps.push(last) =~= par.jumps + jumps);
    }
}

/// A jump that is read from words is as reading leaves it.
pub proof fn lemma_jump_line_ok(parts: Seq<Seq<char>>)
    requires
        forall|i: int| 0 <= i < parts.len() ==> is_word(#[trigger] parts[i]),
    ensures
        jump_line(parts) matches Ok(Some(j)) ==> jump_ok(j),
{
    if parts.len() >= 3 {
        lemma_parse_decimal_wf(parts[2]);
        assert(is_word(parts[1]));
        assert(is_word(parts[2]));
        if parts.len() > 3 {
            lemma_parse_decimal_wf(parts[3]);
        }
        if parts.len() > 4 {
            lemma_parse_decimal_wf(parts[4]);
        }
    }
}

} // verus!
