//! Jumps: constant offsets between chosen times of arrival, one per line.

use vstd::prelude::*;
use crate::data_types::{parse_decimal_text, views, Decimal, DecimalView};
use crate::error::{ErrorView, PsruError};
use crate::parse_tools::{parse_bool, parse_bool_text, parse_f64, unparsable};
use crate::text::{join, join_words, same_text, texts};

verus! {

/// What chooses the times of arrival that a jump applies to.
#[derive(Debug, PartialEq)]
pub enum JumpType {
    /// Those between two dates.
    Mjd(Decimal, Decimal),
    /// Those between two observing frequencies.
    Freq(Decimal, Decimal),
    /// Those of one telescope.
    Tel(String),
    /// Those of one profile name.
    Name(String),
    /// Those that carry a flag with a value.
    Flag(String, String),
}

/// What a [`JumpType`] holds.
pub enum JumpTypeView {
    Mjd(DecimalView, DecimalView),
    Freq(DecimalView, DecimalView),
    Tel(Seq<char>),
    Name(Seq<char>),
    Flag(Seq<char>, Seq<char>),
}

impl View for JumpType {
    type V = JumpTypeView;

    open spec fn view(&self) -> JumpTypeView {
        match *self {
            JumpType::Mjd(a, b) => JumpTypeView::Mjd(a@, b@),
            JumpType::Freq(a, b) => JumpTypeView::Freq(a@, b@),
            JumpType::Tel(t) => JumpTypeView::Tel(t@),
            JumpType::Name(n) => JumpTypeView::Name(n@),
            JumpType::Flag(f, v) => JumpTypeView::Flag(f@, v@),
        }
    }
}

/// A constant offset between chosen times of arrival.
#[derive(Debug, PartialEq)]
pub struct Jump {
    /// What chooses the times of arrival.
    pub jtype: JumpType,
    /// The size of the jump.
    pub value: Decimal,
    /// Whether to fit the size.
    pub fit: bool,
}

/// What a [`Jump`] holds.
pub struct JumpView {
    pub jtype: JumpTypeView,
    pub value: DecimalView,
    pub fit: bool,
}

impl View for Jump {
    type V = JumpView;

    open spec fn view(&self) -> JumpView {
        JumpView { jtype: self.jtype@, value: self.value@, fit: self.fit }
    }
}

/// The word at place `i` of a jump line; a line that ends before it is
/// incomplete.
pub open spec fn jump_word(parts: Seq<Seq<char>>, i: int) -> Result<Seq<char>, ErrorView> {
    if i < parts.len() {
        Ok(parts[i])
    } else {
        Err(ErrorView::IncompleteJump(join_words(parts)))
    }
}

/// The number at place `i` of a jump line.
pub open spec fn jump_number(parts: Seq<Seq<char>>, i: int) -> Result<DecimalView, ErrorView> {
    match jump_word(parts, i) {
        Err(e) => Err(e),
        Ok(word) => match parse_decimal_text(word) {
            Some(v) => Ok(v),
            None => Err(unparsable(word, "double"@)),
        },
    }
}

/// The pair of numbers at places 2 and 3 of a jump line.
pub open spec fn jump_range(parts: Seq<Seq<char>>) -> Result<(DecimalView, DecimalView), ErrorView> {
    match jump_number(parts, 2) {
        Err(e) => Err(e),
        Ok(low) => match jump_number(parts, 3) {
            Err(e) => Err(e),
            Ok(high) => Ok((low, high)),
        },
    }
}

/// How many words the selector of a jump line takes after its keyword.
pub open spec fn selector_len(parts: Seq<Seq<char>>) -> int {
    if parts[1] == "MJD"@ || parts[1] == "FREQ"@ {
        2
    } else {
        1
    }
}

/// The selector of a jump line, which its second word chooses: `MJD` and
/// `FREQ` take two numbers, `TEL` and `NAME` one word, and any other word is
/// itself the name of a flag and takes the flag's value.
pub open spec fn jump_selector(parts: Seq<Seq<char>>) -> Result<JumpTypeView, ErrorView> {
    if parts[1] == "MJD"@ {
        match jump_range(parts) {
            Err(e) => Err(e),
            Ok((low, high)) => Ok(JumpTypeView::Mjd(low, high)),
        }
    } else if parts[1] == "FREQ"@ {
        match jump_range(parts) {
            Err(e) => Err(e),
            Ok((low, high)) => Ok(JumpTypeView::Freq(low, high)),
        }
    } else if parts[1] == "TEL"@ {
        Ok(JumpTypeView::Tel(parts[2]))
    } else if parts[1] == "NAME"@ {
        Ok(JumpTypeView::Name(parts[2]))
    } else {
        Ok(JumpTypeView::Flag(parts[1], parts[2]))
    }
}

/// What the words of a line say as a jump: nothing where the first word is
/// not `JUMP`. After the selector come the size of the jump and whether to
/// fit it; what follows those is not read. A line that ends too early is
/// reported whole.
pub open spec fn jump_line(parts: Seq<Seq<char>>) -> Result<Option<JumpView>, ErrorView> {
    if parts.len() == 0 || parts[0] != "JUMP"@ {
        Ok(None)
    } else if parts.len() < 3 {
        Err(ErrorView::IncompleteJump(join_words(parts)))
    } else {
        match jump_selector(parts) {
            Err(e) => Err(e),
            Ok(jtype) => match jump_number(parts, 2 + selector_len(parts)) {
                Err(e) => Err(e),
                Ok(value) => match jump_word(parts, 3 + selector_len(parts)) {
                    Err(e) => Err(e),
                    Ok(word) => match parse_bool_text(word) {
                        None => Err(unparsable(word, "bool"@)),
                        Some(fit) => Ok(Some(JumpView { jtype, value, fit })),
                    },
                },
            },
        }
    }
}

/// How a selector is written.
pub open spec fn selector_text(jtype: JumpTypeView) -> Seq<char> {
    match jtype {
        JumpTypeView::Mjd(low, high) => "MJD "@ + low.text() + " "@ + high.text(),
        JumpTypeView::Freq(low, high) => "FREQ "@ + low.text() + " "@ + high.text(),
        JumpTypeView::Tel(id) => "TEL "@ + id,
        JumpTypeView::Name(name) => "NAME "@ + name,
        JumpTypeView::Flag(flag, value) => flag + " "@ + value,
    }
}

/// How a switch is written in a jump: `1` or `0`.
pub open spec fn fit_text(fit: bool) -> Seq<char> {
    if fit {
        "1"@
    } else {
        "0"@
    }
}

/// The line of a jump.
pub open spec fn jump_text(j: JumpView) -> Seq<char> {
    "JUMP "@ + selector_text(j.jtype) + " "@ + j.value.text() + " "@ + fit_text(j.fit)
}

/// The word at place `i`, or the report that the line is incomplete.
fn word_at<'a>(parts: &[&'a str], i: usize) -> (r: Result<&'a str, PsruError>)
    ensures
        match jump_word(texts(parts@), i as int) {
            Ok(w) => r is Ok && r->Ok_0@ == w,
            Err(e) => r is Err && r->Err_0@ == e,
        },
{
    if i < parts.len() {
        Ok(parts[i])
    } else {
        Err(PsruError::IncompleteJump(join(parts, " ")))
    }
}

/// The number at place `i`.
fn number_at(parts: &[&str], i: usize) -> (r: Result<Decimal, PsruError>)
    ensures
        match jump_number(texts(parts@), i as int) {
            Ok(v) => r is Ok && r->Ok_0@ == v,
            Err(e) => r is Err && r->Err_0@ == e,
        },
{
    match word_at(parts, i) {
        Ok(word) => parse_f64(word),
        Err(e) => Err(e),
    }
}

/// The numbers at places 2 and 3.
fn range_at(parts: &[&str]) -> (r: Result<(Decimal, Decimal), PsruError>)
    ensures
        match jump_range(texts(parts@)) {
            Ok((low, high)) => r matches Ok((a, b)) && a@ == low && b@ == high,
            Err(e) => r is Err && r->Err_0@ == e,
        },
{
    let low = match number_at(parts, 2) {
        Ok(low) => low,
        Err(e) => {
            return Err(e);
        },
    };
    match number_at(parts, 3) {
        Ok(high) => Ok((low, high)),
        Err(e) => Err(e),
    }
}

/// The selector of a jump line, and how many words it takes.
fn selector_of(parts: &[&str]) -> (r: Result<(JumpType, usize), PsruError>)
    requires
        parts@.len() >= 3,
    ensures
        match jump_selector(texts(parts@)) {
            Ok(jtype) => r matches Ok((t, n)) && t@ == jtype && n == selector_len(texts(parts@)),
            Err(e) => r is Err && r->Err_0@ == e,
        },
{
    if same_text(parts[1], "MJD") {
        match range_at(parts) {
            Ok((low, high)) => Ok((JumpType::Mjd(low, high), 2)),
            Err(e) => Err(e),
        }
    } else if same_text(parts[1], "FREQ") {
        match range_at(parts) {
            Ok((low, high)) => Ok((JumpType::Freq(low, high), 2)),
            Err(e) => Err(e),
        }
    } else if same_text(parts[1], "TEL") {
        Ok((JumpType::Tel(parts[2].to_owned()), 1))
    } else if same_text(parts[1], "NAME") {
        Ok((JumpType::Name(parts[2].to_owned()), 1))
    } else {
        Ok((JumpType::Flag(parts[1].to_owned(), parts[2].to_owned()), 1))
    }
}

impl Jump {
    /// Takes the words of a line as a jump, where its first word says that
    /// it is one, and says whether it was. A jump is written on one line.
    pub fn parse(parts: &[&str], jumps: &mut Vec<Self>) -> (r: Result<bool, PsruError>)
        ensures
            match jump_line(texts(parts@)) {
                Ok(Some(j)) => r matches Ok(true) && views(final(jumps)@) == views(
                    old(jumps)@,
                ).push(j),
                Ok(None) => r matches Ok(false) && views(final(jumps)@) == views(old(jumps)@),
                Err(e) => r is Err && r->Err_0@ == e && views(final(jumps)@) == views(
                    old(jumps)@,
                ),
            },
    {
        if parts.len() == 0 || !same_text(parts[0], "JUMP") {
            return Ok(false);
        }
        if parts.len() < 3 {
            return Err(PsruError::IncompleteJump(join(parts, " ")));
        }
        let (jtype, taken) = match selector_of(parts) {
            Ok(selector) => selector,
            Err(e) => {
                return Err(e);
            },
        };
        let value = match number_at(parts, 2 + taken) {
            Ok(value) => value,
            Err(e) => {
                return Err(e);
            },
        };
        let fit = match word_at(parts, 3 + taken) {
            Ok(word) => match parse_bool(word) {
                Ok(fit) => fit,
                Err(e) => {
                    return Err(e);
                },
            },
            Err(e) => {
                return Err(e);
            },
        };
        let jump = Jump { jtype, value, fit };
        let ghost before = jumps@;
        jumps.push(jump);
        assert(views(jumps@) =~= views(before).push(jump@));
        Ok(true)
    }

    /// The line of the jump, as a parameter file holds it.
    pub fn write(&self) -> (s: String)
        ensures
            s@ == jump_text(self@),
    {
        let mut s = "JUMP ".to_owned();
        match &self.jtype {
            JumpType::Mjd(low, high) => {
                s.append("MJD ");
                s.append(low.to_text().as_str());
                s.append(" ");
                s.append(high.to_text().as_str());
            },
            JumpType::Freq(low, high) => {
                s.append("FREQ ");
                s.append(low.to_text().as_str());
                s.append(" ");
                s.append(high.to_text().as_str());
            },
            JumpType::Tel(id) => {
                s.append("TEL ");
                s.append(id.as_str());
            },
            JumpType::Name(name) => {
                s.append("NAME ");
                s.append(name.as_str());
            },
            JumpType::Flag(flag, value) => {
                s.append(flag.as_str());
                s.append(" ");
                s.append(value.as_str());
            },
        }
        s.append(" ");
        s.append(self.value.to_text().as_str());
        s.append(" ");
        if self.fit {
            s.append("1");
        } else {
            s.append("0");
        }
        assert(s@ =~= jump_text(self@));
        s
    }
}

} // verus!
