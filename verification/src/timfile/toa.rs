//! One time of arrival, as a line of a `.tim` file gives it.

use vstd::prelude::*;
use crate::data_types::{
    parse_decimal, parse_decimal_text, parse_mjd_text, Decimal, DecimalView, Mjd, MjdView,
};
use crate::error::{ErrorView, PsruError};
use crate::parse_tools::{parse_f64, unparsable};
use crate::text::{chars_of, first_index, join, joined, same_text, split_whitespace, texts, words};

verus! {

/// The value of a flag of a time of arrival.
#[derive(Debug, PartialEq)]
pub enum Flag {
    /// A number.
    Double(Decimal),
    /// Anything that does not read as a number.
    String(String),
}

/// What a [`Flag`] holds.
pub enum FlagView {
    Double(DecimalView),
    String(Seq<char>),
}

impl View for Flag {
    type V = FlagView;

    open spec fn view(&self) -> FlagView {
        match *self {
            Flag::Double(d) => FlagView::Double(d@),
            Flag::String(s) => FlagView::String(s@),
        }
    }
}

/// The views of a list of keys and values.
pub open spec fn entry_views(entries: Seq<(String, Flag)>) -> Seq<(Seq<char>, FlagView)> {
    Seq::new(entries.len(), |i: int| (entries[i].0@, entries[i].1@))
}

/// The mapping that a list of keys and values makes when each is inserted
/// in turn.
pub open spec fn map_of(entries: Seq<(Seq<char>, FlagView)>) -> Map<Seq<char>, FlagView>
    decreases entries.len(),
{
    if entries.len() == 0 {
        Map::empty()
    } else {
        map_of(entries.drop_last()).insert(entries.last().0, entries.last().1)
    }
}

/// Whether no key stands twice in the list.
pub open spec fn distinct_keys(entries: Seq<(Seq<char>, FlagView)>) -> bool {
    forall|i: int, j: int|
        0 <= i < j < entries.len() ==> (#[trigger] entries[i]).0 != (#[trigger] entries[j]).0
}

/// A key is in the mapping of a list exactly if it is in the list, and with
/// distinct keys the mapping gives each key the value beside it.
proof fn lemma_map_of(entries: Seq<(Seq<char>, FlagView)>, key: Seq<char>)
    ensures
        map_of(entries).contains_key(key) <==> exists|i: int|
            0 <= i < entries.len() && (#[trigger] entries[i]).0 == key,
        distinct_keys(entries) ==> forall|i: int|
            0 <= i < entries.len() && (#[trigger] entries[i]).0 == key ==> map_of(entries)[key]
                == entries[i].1,
    decreases entries.len(),
{
    if entries.len() > 0 {
        let rest = entries.drop_last();
        lemma_map_of(rest, key);
        if map_of(entries).contains_key(key) {
            if entries.last().0 == key {
                assert(entries[entries.len() - 1].0 == key);
            } else {
                let i = choose|i: int| 0 <= i < rest.len() && (#[trigger] rest[i]).0 == key;
                assert(entries[i].0 == key);
            }
        }
        if exists|i: int| 0 <= i < entries.len() && (#[trigger] entries[i]).0 == key {
            let i = choose|i: int| 0 <= i < entries.len() && (#[trigger] entries[i]).0 == key;
            if i < rest.len() {
                assert(rest[i].0 == key);
            }
        }
        if distinct_keys(entries) {
            assert(distinct_keys(rest)) by {
                assert forall|i: int, j: int| 0 <= i < j < rest.len() implies (#[trigger] rest[i]).0
                    != (#[trigger] rest[j]).0 by {
                    assert(entries[i].0 != entries[j].0);
                }
            }
            assert forall|i: int|
                0 <= i < entries.len() && (#[trigger] entries[i]).0 == key implies map_of(
                entries,
            )[key] == entries[i].1 by {
                if i < rest.len() {
                    assert(entries[i].0 != entries[entries.len() - 1].0);
                    assert(rest[i].0 == key);
                }
            }
        }
    }
}

/// With distinct keys, to replace the value beside a key is to insert the
/// key with that value.
proof fn lemma_map_of_update(entries: Seq<(Seq<char>, FlagView)>, i: int, value: FlagView)
    requires
        0 <= i < entries.len(),
        distinct_keys(entries),
    ensures
        map_of(entries.update(i, (entries[i].0, value))) == map_of(entries).insert(
            entries[i].0,
            value,
        ),
        distinct_keys(entries.update(i, (entries[i].0, value))),
    decreases entries.len(),
{
    let key = entries[i].0;
    let updated = entries.update(i, (key, value));
    let rest = entries.drop_last();
    assert forall|a: int, b: int| 0 <= a < b < updated.len() implies (#[trigger] updated[a]).0 != (
    #[trigger] updated[b]).0 by {
        assert(entries[a].0 != entries[b].0);
    }
    if i == entries.len() - 1 {
        assert(updated.drop_last() =~= rest);
        assert(map_of(updated) =~= map_of(entries).insert(key, value));
    } else {
        assert(distinct_keys(rest)) by {
            assert forall|a: int, b: int| 0 <= a < b < rest.len() implies (#[trigger] rest[a]).0
                != (#[trigger] rest[b]).0 by {
                assert(entries[a].0 != entries[b].0);
            }
        }
        lemma_map_of_update(rest, i, value);
        assert(updated.drop_last() =~= rest.update(i, (key, value)));
        assert(entries[i].0 != entries[entries.len() - 1].0);
        assert(map_of(updated) =~= map_of(entries).insert(key, value));
    }
}

/// The flags of a time of arrival: a mapping from the name of a flag to its
/// value. Each name stands once.
#[derive(Debug, PartialEq)]
pub struct FlagMap {
    entries: Vec<(String, Flag)>,
}

impl View for FlagMap {
    type V = Map<Seq<char>, FlagView>;

    closed spec fn view(&self) -> Map<Seq<char>, FlagView> {
        map_of(entry_views(self.entries@))
    }
}

impl FlagMap {
    #[verifier::type_invariant]
    spec fn well_formed(self) -> bool {
        distinct_keys(entry_views(self.entries@))
    }

    /// The mapping without any flag.
    pub fn new() -> (r: Self)
        ensures
            r@ == Map::<Seq<char>, FlagView>::empty(),
    {
        let r = FlagMap { entries: Vec::new() };
        assert(entry_views(r.entries@) =~= Seq::empty());
        r
    }

    /// The place of `key` in the list, if it is there.
    fn place(&self, key: &str) -> (r: Option<usize>)
        ensures
            match r {
                Some(i) => i < self.entries@.len() && self.entries@[i as int].0@ == key@,
                None => forall|i: int|
                    0 <= i < self.entries@.len() ==> (#[trigger] self.entries@[i]).0@ != key@,
            },
    {
        let mut i: usize = 0;
        while i < self.entries.len()
            invariant
                i <= self.entries.len(),
                forall|k: int| 0 <= k < i ==> (#[trigger] self.entries@[k]).0@ != key@,
            decreases self.entries.len() - i,
        {
            if same_text(self.entries[i].0.as_str(), key) {
                return Some(i);
            }
            i = i + 1;
        }
        None
    }

    /// The mapping in which `key` has the value `value`, in place of any
    /// value that it had, and every other name the value that it has here.
    pub fn with(self, key: String, value: Flag) -> (r: Self)
        ensures
            r@ == self@.insert(key@, value@),
    {
        proof {
            use_type_invariant(&self);
        }
        let ghost before = entry_views(self.entries@);
        let place = self.place(key.as_str());
        let mut entries = self.entries;
        match place {
            Some(i) => {
                proof {
                    lemma_map_of_update(before, i as int, value@);
                }
                entries.set(i, (key, value));
                assert(entry_views(entries@) =~= before.update(
                    i as int,
                    (before[i as int].0, value@),
                ));
            },
            None => {
                let ghost earlier = entries@;
                entries.push((key, value));
                let ghost after = entry_views(entries@);
                assert(after.drop_last() =~= before);
                assert forall|a: int, b: int| 0 <= a < b < after.len() implies (
                #[trigger] after[a]).0 != (#[trigger] after[b]).0 by {
                    if b < before.len() {
                        assert(before[a].0 != before[b].0);
                    } else {
                        assert(earlier[a].0@ != key@);
                    }
                }
            },
        }
        FlagMap { entries }
    }

    /// The value of `key`, if it has one.
    pub fn get(&self, key: &str) -> (r: Option<&Flag>)
        ensures
            match r {
                Some(value) => self@.contains_key(key@) && self@[key@] == value@,
                None => !self@.contains_key(key@),
            },
    {
        proof {
            use_type_invariant(self);
            lemma_map_of(entry_views(self.entries@), key@);
        }
        match self.place(key) {
            Some(i) => {
                assert(entry_views(self.entries@)[i as int].0 == key@);
                Some(&self.entries[i].1)
            },
            None => {
                assert forall|i: int| 0 <= i < self.entries@.len() implies (#[trigger] entry_views(
                    self.entries@,
                )[i]).0 != key@ by {
                    assert(self.entries@[i].0@ != key@);
                }
                None
            },
        }
    }

    /// Whether there is no flag.
    pub fn is_empty(&self) -> (r: bool)
        ensures
            r == (self@ == Map::<Seq<char>, FlagView>::empty()),
    {
        proof {
            if self.entries@.len() > 0 {
                let views = entry_views(self.entries@);
                lemma_map_of(views, views[0].0);
                assert(self@.contains_key(views[0].0));
            } else {
                assert(entry_views(self.entries@) =~= Seq::empty());
            }
        }
        self.entries.len() == 0
    }
}

/// All that a line of a `.tim` file says of one time of arrival.
#[derive(Debug, PartialEq)]
pub struct TOAInfo {
    /// Whether the time of arrival is marked as bad.
    pub is_bad: bool,
    /// The file that the time of arrival was measured from.
    pub file: String,
    /// The observing frequency.
    pub frequency: Decimal,
    /// The date and time.
    pub mjd: Mjd,
    /// The uncertainty of the date.
    pub mjd_error: Decimal,
    /// The identifier of the observing site.
    pub site_id: String,
    /// The comments left in the line.
    pub comment: String,
    /// The flags found. Which flags there are depends on who made the file;
    /// each value is kept as a number where it reads as one, else as text.
    pub flags: FlagMap,
}

/// What a [`TOAInfo`] holds.
pub struct ToaView {
    pub is_bad: bool,
    pub file: Seq<char>,
    pub frequency: DecimalView,
    pub mjd: MjdView,
    pub mjd_error: DecimalView,
    pub site_id: Seq<char>,
    pub comment: Seq<char>,
    pub flags: Map<Seq<char>, FlagView>,
}

impl View for TOAInfo {
    type V = ToaView;

    open spec fn view(&self) -> ToaView {
        ToaView {
            is_bad: self.is_bad,
            file: self.file@,
            frequency: self.frequency@,
            mjd: self.mjd@,
            mjd_error: self.mjd_error@,
            site_id: self.site_id@,
            comment: self.comment@,
            flags: self.flags@,
        }
    }
}

/// Whether a word is a comment by itself: `#` with something behind it.
pub open spec fn is_comment(word: Seq<char>) -> bool {
    word.len() > 1 && word[0] == '#'
}

/// The words of a line that are comments by themselves.
pub open spec fn comments_of(parts: Seq<Seq<char>>) -> Seq<Seq<char>>
    decreases parts.len(),
{
    if parts.len() == 0 {
        Seq::empty()
    } else if is_comment(parts.last()) {
        comments_of(parts.drop_last()).push(parts.last())
    } else {
        comments_of(parts.drop_last())
    }
}

/// The words of a line that are not comments by themselves.
pub open spec fn values_of(parts: Seq<Seq<char>>) -> Seq<Seq<char>>
    decreases parts.len(),
{
    if parts.len() == 0 {
        Seq::empty()
    } else if is_comment(parts.last()) {
        values_of(parts.drop_last())
    } else {
        values_of(parts.drop_last()).push(parts.last())
    }
}

/// The words of a line that hold values. A lone `#` among the words that
/// are not comments ends the values.
pub open spec fn value_words(parts: Seq<Seq<char>>) -> Seq<Seq<char>> {
    match first_index(values_of(parts), "#"@, 0) {
        Some(cut) => values_of(parts).take(cut),
        None => values_of(parts),
    }
}

/// The words of a line that are comment: those that are comments by
/// themselves, and then all that follows a lone `#`.
pub open spec fn comment_words(parts: Seq<Seq<char>>) -> Seq<Seq<char>> {
    match first_index(values_of(parts), "#"@, 0) {
        Some(cut) => comments_of(parts) + values_of(parts).skip(cut + 1),
        None => comments_of(parts),
    }
}

/// Whether a line starts with the mark of a bad observation.
pub open spec fn is_bad_marker(parts: Seq<Seq<char>>) -> bool {
    parts.len() > 0 && (parts[0] == "c"@ || parts[0] == "C"@)
}

/// The name of a flag: its word without the `-` that may lead it.
pub open spec fn flag_key(word: Seq<char>) -> Seq<char> {
    if word.len() > 0 && word[0] == '-' {
        word.skip(1)
    } else {
        word
    }
}

/// The value of a flag: a number where the word reads as one, else the
/// word.
pub open spec fn flag_value(word: Seq<char>) -> FlagView {
    match parse_decimal_text(word) {
        Some(d) => FlagView::Double(d),
        None => FlagView::String(word),
    }
}

/// The flags that pairs of words give, each pair a name and a value. Of a
/// name that comes twice the later value stays.
pub open spec fn flags_of(rest: Seq<Seq<char>>) -> Map<Seq<char>, FlagView>
    decreases rest.len(),
{
    if rest.len() < 2 {
        Map::empty()
    } else {
        flags_of(rest.take(rest.len() - 2)).insert(
            flag_key(rest[rest.len() - 2]),
            flag_value(rest[rest.len() - 1]),
        )
    }
}

/// The time of arrival that the value words of a line give: the file, the
/// frequency, the date, its uncertainty and the site, in that order, and
/// then the flags in pairs. A line that ends before the site is reported
/// as ended too soon, whatever its words are; then the first number that
/// does not read as one is reported; then a flag without a value, by its
/// name.
pub open spec fn toa_fields(v: Seq<Seq<char>>, is_bad: bool, comment: Seq<char>) -> Result<
    ToaView,
    ErrorView,
> {
    if v.len() < 5 {
        Err(ErrorView::TimUnexpectedEOL(None))
    } else {
        match parse_decimal_text(v[1]) {
            None => Err(unparsable(v[1], "double"@)),
            Some(frequency) => match parse_mjd_text(v[2]) {
                None => Err(unparsable(v[2], "MJD"@)),
                Some(mjd) => match parse_decimal_text(v[3]) {
                    None => Err(unparsable(v[3], "double"@)),
                    Some(mjd_error) => if (v.len() - 5) % 2 == 1 {
                        Err(ErrorView::TimUnvaluedFlag(None, v.last()))
                    } else {
                        Ok(
                            ToaView {
                                is_bad,
                                file: v[0],
                                frequency,
                                mjd,
                                mjd_error,
                                site_id: v[4],
                                comment,
                                flags: flags_of(v.skip(5)),
                            },
                        )
                    },
                },
            },
        }
    }
}

/// What the words of a line in the Tempo2 format say. A line that starts
/// with `c` or `C` is marked as bad, and the mark is no value. The comments
/// are joined with ` -- ` between them.
pub open spec fn toa_line(parts: Seq<Seq<char>>) -> Result<ToaView, ErrorView> {
    let bad = is_bad_marker(parts);
    let values = value_words(parts);
    toa_fields(
        if bad && values.len() > 0 {
            values.skip(1)
        } else {
            values
        },
        bad,
        joined(comment_words(parts), " -- "@),
    )
}

/// Whether every character of a line is ASCII.
pub open spec fn all_ascii(line: Seq<char>) -> bool {
    forall|i: int| 0 <= i < line.len() ==> (#[trigger] line[i]) as u32 <= 127
}

/// What a line in the Parkes format says. The format has fixed columns: a
/// blank in the first and a period in column 42. A line that breaks this
/// is reported; the columns of one that keeps it are not read, and this is
/// reported too.
pub open spec fn parkes_line(line: Seq<char>) -> ErrorView {
    if !all_ascii(line) {
        ErrorView::TimNotAscii(None)
    } else if line.len() < 1 || line[0] != ' ' {
        ErrorView::TimParkesMissingBlank(None)
    } else if line.len() < 42 || line[41] != '.' {
        ErrorView::TimParkesMissingPeriod(None)
    } else {
        ErrorView::TimParkesNotImplemented(None)
    }
}

/// Whether a word is a comment by itself.
fn is_comment_word(word: &str) -> (r: bool)
    ensures
        r == is_comment(word@),
{
    let chars = chars_of(word);
    chars.len() > 1 && chars[0] == '#'
}

/// Parts the words of a line into values and comments.
fn part_words<'a>(parts: &[&'a str]) -> (r: (Vec<&'a str>, Vec<&'a str>))
    ensures
        texts(r.0@) == value_words(texts(parts@)),
        texts(r.1@) == comment_words(texts(parts@)),
{
    let mut values: Vec<&'a str> = Vec::new();
    let mut comments: Vec<&'a str> = Vec::new();
    let ghost all = texts(parts@);
    let mut i: usize = 0;
    assert(all.take(0) =~= Seq::empty());
    assert(texts(values@) =~= Seq::empty());
    assert(texts(comments@) =~= Seq::empty());
    while i < parts.len()
        invariant
            i <= parts.len(),
            all == texts(parts@),
            texts(values@) == values_of(all.take(i as int)),
            texts(comments@) == comments_of(all.take(i as int)),
        decreases parts.len() - i,
    {
        proof {
            let next = all.take(i + 1);
            assert(next.drop_last() =~= all.take(i as int));
            assert(next.last() == parts@[i as int]@);
        }
        let ghost old_values = values@;
        let ghost old_comments = comments@;
        if is_comment_word(parts[i]) {
            comments.push(parts[i]);
            assert(texts(comments@) =~= texts(old_comments).push(parts@[i as int]@));
        } else {
            values.push(parts[i]);
            assert(texts(values@) =~= texts(old_values).push(parts@[i as int]@));
        }
        i = i + 1;
    }
    assert(all.take(i as int) =~= all);
    let ghost found = texts(values@);
    let mut cut: usize = 0;
    while cut < values.len() && !same_text(values[cut], "#")
        invariant
            cut <= values.len(),
            found == texts(values@),
            first_index(found, "#"@, 0) == first_index(found, "#"@, cut as int),
        decreases values.len() - cut,
    {
        cut = cut + 1;
    }
    if cut < values.len() {
        assert(first_index(found, "#"@, 0) == Some(cut as int));
        let mut k: usize = cut + 1;
        let ghost own = texts(comments@);
        assert(found.subrange(cut + 1, k as int) =~= Seq::empty());
        assert(own + Seq::<Seq<char>>::empty() =~= own);
        while k < values.len()
            invariant
                cut < k <= values.len(),
                found == texts(values@),
                texts(comments@) == own + found.subrange(cut + 1, k as int),
            decreases values.len() - k,
        {
            let ghost earlier = comments@;
            comments.push(values[k]);
            assert(texts(comments@) =~= texts(earlier).push(values@[k as int]@));
            assert(found.subrange(cut + 1, k + 1) =~= found.subrange(cut + 1, k as int).push(
                found[k as int],
            ));
            k = k + 1;
        }
        assert(found.subrange(cut + 1, k as int) =~= found.skip(cut + 1));
        values.truncate(cut);
        assert(texts(values@) =~= found.take(cut as int));
    }
    (values, comments)
}

/// The name and the value of a flag.
fn parse_flag(key: &str, value: &str) -> (r: (String, Flag))
    ensures
        r.0@ == flag_key(key@),
        r.1@ == flag_value(value@),
{
    let chars = chars_of(key);
    let name = if chars.len() > 0 && chars[0] == '-' {
        assert(key@.subrange(1, chars.len() as int) =~= key@.skip(1));
        key.substring_char(1, chars.len()).to_owned()
    } else {
        key.to_owned()
    };
    let flag = match parse_decimal(value) {
        Some(d) => Flag::Double(d),
        None => Flag::String(value.to_owned()),
    };
    (name, flag)
}

/// Reads the value words of a line.
fn parse_fields(values: &Vec<&str>, start: usize, is_bad: bool, comment: String) -> (r: Result<
    TOAInfo,
    PsruError,
>)
    requires
        start <= values@.len(),
    ensures
        match toa_fields(texts(values@).skip(start as int), is_bad, comment@) {
            Ok(toa) => r is Ok && r->Ok_0@ == toa,
            Err(e) => r is Err && r->Err_0@ == e,
        },
{
    let n = values.len() - start;
    let ghost v = texts(values@).skip(start as int);
    if n < 5 {
        return Err(PsruError::TimUnexpectedEOL(None));
    }
    proof {
        assert(v[0] == values@[start as int]@);
        assert(v[1] == values@[start + 1]@);
        assert(v[2] == values@[start + 2]@);
        assert(v[3] == values@[start + 3]@);
        assert(v[4] == values@[start + 4]@);
    }
    let file = values[start].to_owned();
    let frequency = match parse_f64(values[start + 1]) {
        Ok(frequency) => frequency,
        Err(e) => {
            return Err(e);
        },
    };
    let mjd = match Mjd::from_str(values[start + 2]) {
        Ok(mjd) => mjd,
        Err(e) => {
            return Err(e);
        },
    };
    let mjd_error = match parse_f64(values[start + 3]) {
        Ok(mjd_error) => mjd_error,
        Err(e) => {
            return Err(e);
        },
    };
    let site_id = values[start + 4].to_owned();
    // Flags come in pairs of a name and a value.
    if (n - 5) % 2 == 1 {
        assert(v.last() == values@[values@.len() - 1]@);
        return Err(PsruError::TimUnvaluedFlag(None, values[values.len() - 1].to_owned()));
    }
    let ghost rest = v.skip(5);
    let mut flags = FlagMap::new();
    let mut k: usize = start + 5;
    assert(rest.take(0) =~= Seq::empty());
    while k < values.len()
        invariant
            start + 5 <= k <= values.len(),
            (k - start - 5) % 2 == 0,
            (values.len() - start - 5) % 2 == 0,
            rest == texts(values@).skip(start as int).skip(5),
            flags@ == flags_of(rest.take(k - start - 5)),
        decreases values.len() - k,
    {
        proof {
            let done = rest.take(k - start - 5);
            let next = rest.take(k + 2 - start - 5);
            assert(next.take(next.len() - 2) =~= done);
            assert(next[next.len() - 2] == values@[k as int]@);
            assert(next[next.len() - 1] == values@[k + 1]@);
        }
        let (name, flag) = parse_flag(values[k], values[k + 1]);
        flags = flags.with(name, flag);
        k = k + 2;
    }
    assert(rest.take(k - start - 5) =~= rest);
    Ok(TOAInfo { is_bad, file, frequency, mjd, mjd_error, site_id, comment, flags })
}

impl TOAInfo {
    /// Reads one line of a `.tim` file in the Tempo2 format.
    pub fn from_line_tempo2(line: &str) -> (r: Result<Self, PsruError>)
        ensures
            match toa_line(words(line@)) {
                Ok(toa) => r is Ok && r->Ok_0@ == toa,
                Err(e) => r is Err && r->Err_0@ == e,
            },
    {
        let parts = split_whitespace(line);
        Self::parse_tempo2(parts.as_slice())
    }

    /// Reads the words of a line in the Tempo2 format.
    pub fn parse_tempo2(parts: &[&str]) -> (r: Result<Self, PsruError>)
        ensures
            match toa_line(texts(parts@)) {
                Ok(toa) => r is Ok && r->Ok_0@ == toa,
                Err(e) => r is Err && r->Err_0@ == e,
            },
    {
        let is_bad = parts.len() > 0 && (same_text(parts[0], "c") || same_text(parts[0], "C"));
        let (values, comments) = part_words(parts);
        let comment = join(comments.as_slice(), " -- ");
        let start: usize = if is_bad && values.len() > 0 {
            1
        } else {
            0
        };
        assert(texts(values@).skip(0) =~= texts(values@));
        parse_fields(&values, start, is_bad, comment)
    }

    /// Reads one line of a `.tim` file in the Parkes format. The columns
    /// are not read: a line is looked at as far as it takes to see that it
    /// is malformed, and a line that is not is reported as not read.
    pub fn parse_parkes(line: &str) -> (r: Result<Self, PsruError>)
        ensures
            r is Err && r->Err_0@ == parkes_line(line@),
    {
        let chars = chars_of(line);
        let mut i: usize = 0;
        while i < chars.len()
            invariant
                i <= chars.len(),
                chars@ == line@,
                forall|k: int| 0 <= k < i ==> (#[trigger] line@[k]) as u32 <= 127,
            decreases chars.len() - i,
        {
            if chars[i] as u32 > 127 {
                return Err(PsruError::TimNotAscii(None));
            }
            i = i + 1;
        }
        if chars.len() < 1 || chars[0] != ' ' {
            return Err(PsruError::TimParkesMissingBlank(None));
        }
        if chars.len() < 42 || chars[41] != '.' {
            return Err(PsruError::TimParkesMissingPeriod(None));
        }
        Err(PsruError::TimParkesNotImplemented(None))
    }
}

/// A line with fewer than five value words behind its mark, if it has one,
/// is reported as ended too soon, whatever the words are.
pub proof fn lemma_short_line(parts: Seq<Seq<char>>)
    requires
        value_words(parts).len() < (if is_bad_marker(parts) {
            6int
        } else {
            5int
        }),
    ensures
        toa_line(parts) == Err::<ToaView, ErrorView>(ErrorView::TimUnexpectedEOL(None)),
{
}

} // verus!
