//! Glitches: sudden changes of a pulsar's rotation, which a parameter file
//! describes over several lines, each tagged with the glitch's index.

use vstd::prelude::*;
use crate::data_types::{parse_decimal_text, views, Decimal, DecimalView};
use crate::error::{ErrorView, PsruError};
use crate::parse_tools::{parse_f64, unparsable};
use crate::text::{
    chars_of, nat_text, parse_unsigned, parse_unsigned_chars, same_text_in_upper_case, scan_to,
    span_len, texts, u64_text, upper_text,
};

verus! {

/// One glitch. A file gives its values one per line, in any order and at
/// any place, so a glitch starts out blank, with every value zero, and is
/// filled in as the lines come.
#[derive(Debug, PartialEq)]
pub struct Glitch {
    /// The index used in the file.
    pub number: usize,
    /// Glitch epoch (MJD).
    pub epoch: Decimal,
    /// Glitch phase increment.
    pub phase: Decimal,
    /// Glitch permanent pulse frequency increment (Hz).
    pub f0: Decimal,
    /// Glitch permanent frequency derivative increment (s^-2).
    pub f1: Decimal,
    /// Glitch pulse frequency increment (Hz).
    pub f0d: Decimal,
    /// Glitch decay time constant.
    pub td: Decimal,
}

/// What a [`Glitch`] holds.
pub struct GlitchView {
    pub number: usize,
    pub epoch: DecimalView,
    pub phase: DecimalView,
    pub f0: DecimalView,
    pub f1: DecimalView,
    pub f0d: DecimalView,
    pub td: DecimalView,
}

impl View for Glitch {
    type V = GlitchView;

    open spec fn view(&self) -> GlitchView {
        GlitchView {
            number: self.number,
            epoch: self.epoch@,
            phase: self.phase@,
            f0: self.f0@,
            f1: self.f1@,
            f0d: self.f0d@,
            td: self.td@,
        }
    }
}

impl Clone for Glitch {
    fn clone(&self) -> (r: Self)
        ensures
            r@ == self@,
    {
        Glitch {
            number: self.number,
            epoch: self.epoch.clone(),
            phase: self.phase.clone(),
            f0: self.f0.clone(),
            f1: self.f1.clone(),
            f0d: self.f0d.clone(),
            td: self.td.clone(),
        }
    }
}

/// The values of a glitch that a file can give.
#[derive(Debug, Clone, Copy, PartialEq, Eq)]
pub enum GlitchField {
    Epoch,
    Phase,
    F0,
    F1,
    F0d,
    Td,
}

/// The value that a key names, whatever the case of its letters.
pub open spec fn glitch_field(prefix: Seq<char>) -> Option<GlitchField> {
    let key = upper_text(prefix);
    if key == "GLEP"@ {
        Some(GlitchField::Epoch)
    } else if key == "GLPH"@ {
        Some(GlitchField::Phase)
    } else if key == "GLF0"@ {
        Some(GlitchField::F0)
    } else if key == "GLF1"@ {
        Some(GlitchField::F1)
    } else if key == "GLF0D"@ {
        Some(GlitchField::F0d)
    } else if key == "GLTD"@ {
        Some(GlitchField::Td)
    } else {
        None
    }
}

/// The glitch of index `number` of which nothing is known yet.
pub open spec fn blank_glitch(number: usize) -> GlitchView {
    GlitchView {
        number,
        epoch: DecimalView::zero(),
        phase: DecimalView::zero(),
        f0: DecimalView::zero(),
        f1: DecimalView::zero(),
        f0d: DecimalView::zero(),
        td: DecimalView::zero(),
    }
}

/// A glitch with one of its values set.
pub open spec fn with_field(g: GlitchView, field: GlitchField, value: DecimalView) -> GlitchView {
    match field {
        GlitchField::Epoch => GlitchView { epoch: value, ..g },
        GlitchField::Phase => GlitchView { phase: value, ..g },
        GlitchField::F0 => GlitchView { f0: value, ..g },
        GlitchField::F1 => GlitchView { f1: value, ..g },
        GlitchField::F0d => GlitchView { f0d: value, ..g },
        GlitchField::Td => GlitchView { td: value, ..g },
    }
}

/// The list with blank glitches added at its end, as far as it takes to
/// have one at `index`.
pub open spec fn grown(glitches: Seq<GlitchView>, index: int) -> Seq<GlitchView> {
    Seq::new(
        if index < glitches.len() {
            glitches.len()
        } else {
            (index + 1) as nat
        },
        |i: int|
            if i < glitches.len() {
                glitches[i]
            } else {
                blank_glitch(i as usize)
            },
    )
}

/// The value and the index that a key of the shape `<key>_<index>` names:
/// one of the six keys of a glitch, one underscore, and the text of the
/// index. A key of another shape names nothing.
pub open spec fn glitch_key(key: Seq<char>) -> Option<(GlitchField, Seq<char>)> {
    let p = span_len(key, '_', 0) as int;
    let q = p + 1 + span_len(key, '_', p + 1);
    if p >= key.len() || q < key.len() {
        None
    } else {
        match glitch_field(key.take(p)) {
            None => None,
            Some(field) => Some((field, key.skip(p + 1))),
        }
    }
}

/// What the words of a line do to the glitches. A line of two words whose
/// first reads `<key>_<index>`, with one of the six keys of a glitch, sets
/// that value of the glitch at that index; the list grows to hold it. Any
/// other line is no glitch line and yields nothing.
pub open spec fn glitch_line(parts: Seq<Seq<char>>, glitches: Seq<GlitchView>) -> Result<
    Option<Seq<GlitchView>>,
    ErrorView,
> {
    if parts.len() != 2 {
        Ok(None)
    } else {
        match glitch_key(parts[0]) {
            None => Ok(None),
            Some((field, index_text)) => match parse_unsigned(index_text) {
                Some(index) => if index > usize::MAX {
                    Err(unparsable(index_text, "glitch index"@))
                } else {
                    match parse_decimal_text(parts[1]) {
                        None => Err(unparsable(parts[1], "double"@)),
                        Some(value) => {
                            let all = grown(glitches, index as int);
                            Ok(
                                Some(
                                    all.update(
                                        index as int,
                                        with_field(all[index as int], field, value),
                                    ),
                                ),
                            )
                        },
                    }
                },
                None => Err(unparsable(index_text, "glitch index"@)),
            },
        }
    }
}

/// Whether a glitch is described far enough: its epoch and both of its
/// frequency increments are not zero.
pub open spec fn glitch_complete(g: GlitchView) -> bool {
    !g.f0.is_zero() && !g.f0d.is_zero() && !g.epoch.is_zero()
}

/// One line of a glitch: the key, the index, the gap and the value.
pub open spec fn glitch_text(key: Seq<char>, number: usize, gap: Seq<char>, value: DecimalView) -> Seq<
    char,
> {
    key + nat_text(number as nat) + gap + value.text()
}

/// The six lines of a glitch, in the order in which they are written.
pub open spec fn glitch_lines(g: GlitchView) -> Seq<Seq<char>> {
    seq![
        glitch_text("GLEP_"@, g.number, "  "@, g.epoch),
        glitch_text("GLPH_"@, g.number, "  "@, g.phase),
        glitch_text("GLF0_"@, g.number, "  "@, g.f0),
        glitch_text("GLF1_"@, g.number, "  "@, g.f1),
        glitch_text("GLF0D_"@, g.number, " "@, g.f0d),
        glitch_text("GLTD_"@, g.number, "  "@, g.td),
    ]
}

/// The value that a key names.
fn field_of(prefix: &str) -> (r: Option<GlitchField>)
    ensures
        r == glitch_field(prefix@),
{
    if same_text_in_upper_case(prefix, "GLEP") {
        Some(GlitchField::Epoch)
    } else if same_text_in_upper_case(prefix, "GLPH") {
        Some(GlitchField::Phase)
    } else if same_text_in_upper_case(prefix, "GLF0") {
        Some(GlitchField::F0)
    } else if same_text_in_upper_case(prefix, "GLF1") {
        Some(GlitchField::F1)
    } else if same_text_in_upper_case(prefix, "GLF0D") {
        Some(GlitchField::F0d)
    } else if same_text_in_upper_case(prefix, "GLTD") {
        Some(GlitchField::Td)
    } else {
        None
    }
}

/// One line of a glitch.
fn field_line(key: &str, number: usize, gap: &str, value: &Decimal) -> (s: String)
    ensures
        s@ == glitch_text(key@, number, gap@, value@),
{
    let mut s = key.to_owned();
    let n = u64_text(number as u64);
    s.append(n.as_str());
    s.append(gap);
    let v = value.to_text();
    s.append(v.as_str());
    s
}

impl Glitch {
    /// The glitch of index `number` of which nothing is known yet.
    pub fn blank(number: usize) -> (r: Self)
        ensures
            r@ == blank_glitch(number),
    {
        Glitch {
            number,
            epoch: Decimal::zero(),
            phase: Decimal::zero(),
            f0: Decimal::zero(),
            f1: Decimal::zero(),
            f0d: Decimal::zero(),
            td: Decimal::zero(),
        }
    }

    /// Takes the words of a line as one value of a glitch, where they are
    /// one, and says whether they were. The values of a glitch may stand
    /// anywhere in a file, so each line is taken by itself: it sets its value
    /// in the glitch of its index, and a value given twice is overwritten.
    pub fn parse(parts: &[&str], glitches: &mut Vec<Self>) -> (r: Result<bool, PsruError>)
        ensures
            match glitch_line(texts(parts@), views(old(glitches)@)) {
                Ok(Some(all)) => r matches Ok(true) && views(final(glitches)@) == all,
                Ok(None) => r matches Ok(false) && views(final(glitches)@) == views(
                    old(glitches)@,
                ),
                Err(e) => r is Err && r->Err_0@ == e && views(final(glitches)@) == views(
                    old(glitches)@,
                ),
            },
    {
        if parts.len() != 2 {
            return Ok(false);
        }
        let key = parts[0];
        let chars = chars_of(key);
        let n = chars.len();
        let p = scan_to(&chars, '_', 0);
        if p >= n {
            return Ok(false);
        }
        let q = scan_to(&chars, '_', p + 1);
        if q < n {
            return Ok(false);
        }
        proof {
            assert(key@.subrange(0, p as int) =~= key@.take(p as int));
            assert(key@.subrange(p + 1, n as int) =~= key@.skip(p + 1));
        }
        let field = match field_of(key.substring_char(0, p)) {
            Some(field) => field,
            None => {
                return Ok(false);
            },
        };
        let index_text = key.substring_char(p + 1, n);
        let index_chars = chars_of(index_text);
        assert(index_chars@.skip(0) =~= index_text@);
        let index = match parse_unsigned_chars(&index_chars, 0, usize::MAX as u64) {
            Some(index) => index as usize,
            None => {
                return Err(
                    PsruError::Unparsable {
                        value: index_text.to_owned(),
                        to_type: "glitch index",
                    },
                );
            },
        };
        let value = match parse_f64(parts[1]) {
            Ok(value) => value,
            Err(e) => {
                return Err(e);
            },
        };
        let ghost before = views(glitches@);
        while glitches.len() <= index
            invariant
                views(glitches@).len() >= before.len(),
                views(glitches@).len() <= index + 1 || views(glitches@).len() == before.len(),
                forall|i: int|
                    0 <= i < glitches@.len() ==> #[trigger] views(glitches@)[i] == grown(
                        before,
                        index as int,
                    )[i],
            decreases index + 1 - glitches.len(),
        {
            let number = glitches.len();
            let ghost earlier = glitches@;
            glitches.push(Glitch::blank(number));
            assert forall|i: int| 0 <= i < glitches@.len() implies #[trigger] views(
                glitches@,
            )[i] == grown(before, index as int)[i] by {
                if i < earlier.len() {
                    assert(views(earlier)[i] == grown(before, index as int)[i]);
                }
            }
        }
        assert(views(glitches@) =~= grown(before, index as int));
        let mut glitch = glitches[index].clone();
        match field {
            GlitchField::Epoch => {
                glitch.epoch = value;
            },
            GlitchField::Phase => {
                glitch.phase = value;
            },
            GlitchField::F0 => {
                glitch.f0 = value;
            },
            GlitchField::F1 => {
                glitch.f1 = value;
            },
            GlitchField::F0d => {
                glitch.f0d = value;
            },
            GlitchField::Td => {
                glitch.td = value;
            },
        }
        glitches.set(index, glitch);
        assert(views(glitches@) =~= grown(before, index as int).update(
            index as int,
            with_field(grown(before, index as int)[index as int], field, value@),
        ));
        Ok(true)
    }

    /// Whether the glitch is described far enough; if not, the report names
    /// its index.
    pub fn check(&self) -> (r: Result<(), PsruError>)
        ensures
            if glitch_complete(self@) {
                r is Ok
            } else {
                r is Err && r->Err_0@ == ErrorView::BadGlitch(self.number)
            },
    {
        if self.f0.is_zero() || self.f0d.is_zero() || self.epoch.is_zero() {
            return Err(PsruError::BadGlitch(self.number));
        }
        Ok(())
    }

    /// The six lines of the glitch, as a parameter file holds them.
    pub fn write(&self) -> (lines: Vec<String>)
        ensures
            views(lines@) == glitch_lines(self@),
    {
        let mut lines: Vec<String> = Vec::new();
        lines.push(field_line("GLEP_", self.number, "  ", &self.epoch));
        lines.push(field_line("GLPH_", self.number, "  ", &self.phase));
        lines.push(field_line("GLF0_", self.number, "  ", &self.f0));
        lines.push(field_line("GLF1_", self.number, "  ", &self.f1));
        lines.push(field_line("GLF0D_", self.number, " ", &self.f0d));
        lines.push(field_line("GLTD_", self.number, "  ", &self.td));
        assert(views(lines@) =~= glitch_lines(self@));
        lines
    }
}

} // verus!
