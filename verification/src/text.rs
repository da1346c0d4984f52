//! Characters, words and decimal numerals: the lexical layer below every
//! parser of this crate.

use vstd::prelude::*;

verus! {

/// The characters of `s`, in order.
pub fn chars_of(s: &str) -> (v: Vec<char>)
    ensures
        v@ == s@,
{
    let mut v: Vec<char> = Vec::new();
    for c in it: s.chars()
        invariant
            it.seq() == s@,
            v@ =~= s@.take(it.index() as int),
    {
        v.push(c);
    }
    assert(v@ =~= s@);
    v
}

/// Whether `a` and `b` hold the same characters.
pub fn same_text(a: &str, b: &str) -> (r: bool)
    ensures
        r == (a@ == b@),
{
    let x = a.to_owned();
    let y = b.to_owned();
    x == y
}

/// The views of a sequence of string slices.
pub open spec fn texts(parts: Seq<&str>) -> Seq<Seq<char>> {
    Seq::new(parts.len(), |i: int| parts[i]@)
}

/// White space, as Unicode defines it (the property `White_Space`).
pub open spec fn is_whitespace(c: char) -> bool {
    ||| c == ' '
    ||| ('\u{9}' <= c && c <= '\u{d}')
    ||| c == '\u{85}'
    ||| c == '\u{a0}'
    ||| c == '\u{1680}'
    ||| ('\u{2000}' <= c && c <= '\u{200a}')
    ||| c == '\u{2028}'
    ||| c == '\u{2029}'
    ||| c == '\u{202f}'
    ||| c == '\u{205f}'
    ||| c == '\u{3000}'
}

/// Whether a character is white space.
pub fn is_space(c: char) -> (r: bool)
    ensures
        r == is_whitespace(c),
{
    c == ' ' || ('\u{9}' <= c && c <= '\u{d}') || c == '\u{85}' || c == '\u{a0}' || c
        == '\u{1680}' || ('\u{2000}' <= c && c <= '\u{200a}') || c == '\u{2028}' || c
        == '\u{2029}' || c == '\u{202f}' || c == '\u{205f}' || c == '\u{3000}'
}

/// How many characters from index `i` on stand before the next white space
/// or the end.
pub open spec fn word_len(s: Seq<char>, i: int) -> nat
    decreases s.len() - i,
{
    if 0 <= i < s.len() && !is_whitespace(s[i]) {
        1 + word_len(s, i + 1)
    } else {
        0
    }
}

/// A word never runs past the end of the text.
pub proof fn lemma_word_len_bound(s: Seq<char>, i: int)
    requires
        0 <= i <= s.len(),
    ensures
        i + word_len(s, i) <= s.len(),
    decreases s.len() - i,
{
    if i < s.len() && !is_whitespace(s[i]) {
        lemma_word_len_bound(s, i + 1);
    }
}

/// The words of `s` that start at index `i` or later.
pub open spec fn words_from(s: Seq<char>, i: int) -> Seq<Seq<char>>
    decreases s.len() - i,
{
    if i < 0 || i >= s.len() {
        Seq::empty()
    } else if is_whitespace(s[i]) {
        words_from(s, i + 1)
    } else {
        let end = i + 1 + word_len(s, i + 1);
        proof {
            lemma_word_len_bound(s, i + 1);
        }
        seq![s.subrange(i, end)] + words_from(s, end)
    }
}

/// The words of a line: its maximal runs of characters that are not white
/// space, in order.
pub open spec fn words(s: Seq<char>) -> Seq<Seq<char>> {
    words_from(s, 0)
}

/// Splits a line into its words.
pub fn split_whitespace<'a>(line: &'a str) -> (parts: Vec<&'a str>)
    ensures
        texts(parts@) == words(line@),
{
    let chars = chars_of(line);
    let n = chars.len();
    let mut parts: Vec<&'a str> = Vec::new();
    let mut i: usize = 0;
    assert(texts(parts@) + words_from(line@, 0) =~= words(line@));
    while i < n
        invariant
            i <= n,
            n == chars.len(),
            chars@ == line@,
            texts(parts@) + words_from(line@, i as int) == words(line@),
        decreases n - i,
    {
        if is_space(chars[i]) {
            i = i + 1;
        } else {
            let start = i;
            while i < n && !is_space(chars[i])
                invariant
                    start <= i <= n,
                    n == chars.len(),
                    chars@ == line@,
                    word_len(line@, start as int) == (i - start) + word_len(line@, i as int),
                decreases n - i,
            {
                i = i + 1;
            }
            let word = line.substring_char(start, i);
            let ghost before = parts@;
            parts.push(word);
            assert(texts(parts@) =~= texts(before) + seq![word@]);
            assert(texts(before) + (seq![word@] + words_from(line@, i as int)) =~= texts(
                parts@,
            ) + words_from(line@, i as int));
        }
    }
    assert(texts(parts@) + words_from(line@, n as int) =~= texts(parts@));
    parts
}

/// How many characters stand in `s` from index `i` on, before the next
/// `sep` or the end.
pub open spec fn span_len(s: Seq<char>, sep: char, i: int) -> nat
    decreases s.len() - i,
{
    if 0 <= i < s.len() && s[i] != sep {
        1 + span_len(s, sep, i + 1)
    } else {
        0
    }
}

/// The index of the next `sep` at or after `from`, or the length.
pub fn scan_to(chars: &Vec<char>, sep: char, from: usize) -> (end: usize)
    requires
        from <= chars.len(),
    ensures
        from <= end <= chars.len(),
        end == from + span_len(chars@, sep, from as int),
{
    let mut i = from;
    while i < chars.len() && chars[i] != sep
        invariant
            from <= i <= chars.len(),
            span_len(chars@, sep, from as int) == (i - from) + span_len(chars@, sep, i as int),
        decreases chars.len() - i,
    {
        i = i + 1;
    }
    i
}

/// The first place at or after `from` at which `name` stands in `names`.
pub open spec fn first_index(names: Seq<Seq<char>>, name: Seq<char>, from: int) -> Option<int>
    decreases names.len() - from,
{
    if from < 0 || from >= names.len() {
        None
    } else if names[from] == name {
        Some(from)
    } else {
        first_index(names, name, from + 1)
    }
}

/// The words of `parts`, with `sep` between each two.
pub open spec fn joined(parts: Seq<Seq<char>>, sep: Seq<char>) -> Seq<char>
    decreases parts.len(),
{
    if parts.len() == 0 {
        Seq::empty()
    } else if parts.len() == 1 {
        parts[0]
    } else {
        joined(parts.drop_last(), sep) + sep + parts.last()
    }
}

/// The words of `parts`, with one space between each two.
pub open spec fn join_words(parts: Seq<Seq<char>>) -> Seq<char> {
    joined(parts, " "@)
}

/// Joins words with `sep` between each two.
pub fn join(parts: &[&str], sep: &str) -> (s: String)
    ensures
        s@ == joined(texts(parts@), sep@),
{
    let mut s = String::new();
    let mut i: usize = 0;
    assert(texts(parts@).take(0) =~= Seq::<Seq<char>>::empty());
    while i < parts.len()
        invariant
            i <= parts.len(),
            s@ == joined(texts(parts@).take(i as int), sep@),
        decreases parts.len() - i,
    {
        proof {
            let next = texts(parts@).take(i + 1);
            assert(next.drop_last() =~= texts(parts@).take(i as int));
            assert(next.last() == parts@[i as int]@);
            if i == 0 {
                assert(s@ + parts@[i as int]@ =~= parts@[i as int]@);
                assert(next[0] == parts@[i as int]@);
            }
        }
        if i > 0 {
            s.append(sep);
        }
        s.append(parts[i]);
        i = i + 1;
    }
    assert(texts(parts@).take(i as int) =~= texts(parts@));
    s
}

/// The upper-case form of an ASCII letter; any other character itself.
pub open spec fn ascii_upper(c: char) -> char {
    if 'a' <= c && c <= 'z' {
        ((c as int) - 32) as char
    } else {
        c
    }
}

/// `s` with its ASCII letters in upper case.
pub open spec fn upper_text(s: Seq<char>) -> Seq<char> {
    Seq::new(s.len(), |i: int| ascii_upper(s[i]))
}

/// Whether `a`, with its ASCII letters in upper case, reads `b`.
pub fn same_text_in_upper_case(a: &str, b: &str) -> (r: bool)
    ensures
        r == (upper_text(a@) == b@),
{
    let x = chars_of(a);
    let y = chars_of(b);
    if x.len() != y.len() {
        return false;
    }
    let mut i: usize = 0;
    while i < x.len()
        invariant
            i <= x.len(),
            x.len() == y.len(),
            x@ == a@,
            y@ == b@,
            forall|k: int| 0 <= k < i ==> ascii_upper(#[trigger] x@[k]) == y@[k],
        decreases x.len() - i,
    {
        let c = x[i];
        let upper: char = if c >= 'a' && c <= 'z' {
            ((c as u8) - 32) as char
        } else {
            c
        };
        if upper != y[i] {
            assert(upper_text(a@)[i as int] != b@[i as int]);
            return false;
        }
        i = i + 1;
    }
    assert(upper_text(a@) =~= b@);
    true
}

/// An ASCII decimal digit.
pub open spec fn is_digit(c: char) -> bool {
    '0' <= c && c <= '9'
}

/// What a decimal digit counts for.
pub open spec fn digit_value(c: char) -> nat {
    (c as int - '0' as int) as nat
}

/// The character of a digit below ten.
pub open spec fn digit_char(d: nat) -> char {
    (d + '0' as nat) as char
}

/// Whether every character of `s` is a decimal digit.
pub open spec fn all_digits(s: Seq<char>) -> bool {
    forall|i: int| 0 <= i < s.len() ==> is_digit(#[trigger] s[i])
}

/// The natural number that a run of digits spells; the empty run spells 0.
pub open spec fn digits_value(s: Seq<char>) -> nat
    decreases s.len(),
{
    if s.len() == 0 {
        0
    } else {
        digits_value(s.drop_last()) * 10 + digit_value(s.last())
    }
}

/// The number that `s` spells, where `s` is one decimal digit or more and
/// nothing else.
pub open spec fn parse_nat(s: Seq<char>) -> Option<nat> {
    if s.len() > 0 && all_digits(s) {
        Some(digits_value(s))
    } else {
        None
    }
}

/// A longer run of digits spells no smaller a number than its beginning.
pub proof fn lemma_digits_value_prefix(s: Seq<char>, k: int)
    requires
        0 <= k <= s.len(),
    ensures
        digits_value(s.take(k)) <= digits_value(s),
    decreases s.len(),
{
    if k == s.len() {
        assert(s.take(k) =~= s);
    } else {
        assert(s.drop_last().take(k) =~= s.take(k));
        lemma_digits_value_prefix(s.drop_last(), k);
    }
}

/// What a character counts for as a decimal digit, if it is one.
pub fn digit_of(c: char) -> (d: Option<u8>)
    ensures
        d is Some <==> is_digit(c),
        d is Some ==> d->0 as nat == digit_value(c),
{
    if c >= '0' && c <= '9' {
        Some(((c as u32) - ('0' as u32)) as u8)
    } else {
        None
    }
}

/// Reads `chars[from..]` as a natural number of at most `max`.
pub fn parse_digits(chars: &Vec<char>, from: usize, max: u64) -> (r: Option<u64>)
    requires
        from <= chars.len(),
    ensures
        match parse_nat(chars@.skip(from as int)) {
            Some(n) => if n <= max {
                r == Some(n as u64)
            } else {
                r is None
            },
            None => r is None,
        },
{
    let n = chars.len();
    if from == n {
        return None;
    }
    let ghost s = chars@.skip(from as int);
    let mut acc: u64 = 0;
    let mut i: usize = from;
    while i < n
        invariant
            from <= i <= n,
            n == chars.len(),
            s == chars@.skip(from as int),
            all_digits(s.take(i - from)),
            acc as nat == digits_value(s.take(i - from)),
            acc <= max,
        decreases n - i,
    {
        let ghost prefix = s.take(i - from);
        let ghost next_prefix = s.take(i + 1 - from);
        proof {
            assert(next_prefix.drop_last() =~= prefix);
            assert(next_prefix.last() == chars@[i as int]);
        }
        match digit_of(chars[i]) {
            None => {
                assert(!is_digit(s[i - from]));
                return None;
            },
            Some(d) => {
                let next: u128 = (acc as u128) * 10 + (d as u128);
                if next > max as u128 {
                    proof {
                        if all_digits(s) {
                            lemma_digits_value_prefix(s, i + 1 - from);
                        }
                    }
                    return None;
                }
                acc = next as u64;
                assert forall|j: int| 0 <= j < next_prefix.len() implies is_digit(
                    #[trigger] next_prefix[j],
                ) by {
                    if j < prefix.len() {
                        assert(next_prefix[j] == prefix[j]);
                    }
                }
            },
        }
        i = i + 1;
    }
    assert(s.take(n - from) =~= s);
    Some(acc)
}

/// The number that `s` spells: digits, with `+` allowed before them.
pub open spec fn parse_unsigned(s: Seq<char>) -> Option<nat> {
    if s.len() > 0 && s[0] == '+' {
        parse_nat(s.skip(1))
    } else {
        parse_nat(s)
    }
}

/// The integer that `s` spells: digits, with `+` or `-` allowed before them.
pub open spec fn parse_signed(s: Seq<char>) -> Option<int> {
    if s.len() > 0 && s[0] == '-' {
        match parse_nat(s.skip(1)) {
            Some(n) => Some(-(n as int)),
            None => None,
        }
    } else {
        match parse_unsigned(s) {
            Some(n) => Some(n as int),
            None => None,
        }
    }
}

/// Reads `chars[from..]` as an unsigned number of at most `max`.
pub fn parse_unsigned_chars(chars: &Vec<char>, from: usize, max: u64) -> (r: Option<u64>)
    requires
        from <= chars.len(),
    ensures
        match parse_unsigned(chars@.skip(from as int)) {
            Some(n) => if n <= max {
                r == Some(n as u64)
            } else {
                r is None
            },
            None => r is None,
        },
{
    if from < chars.len() && chars[from] == '+' {
        assert(chars@.skip(from as int).skip(1) =~= chars@.skip(from + 1));
        parse_digits(chars, from + 1, max)
    } else {
        parse_digits(chars, from, max)
    }
}

/// Reads `chars[from..]` as an integer from `min` to `max`.
pub fn parse_signed_chars(chars: &Vec<char>, from: usize, min: i64, max: i64) -> (r: Option<i64>)
    requires
        from <= chars.len(),
        i64::MIN < min <= 0 <= max,
    ensures
        match parse_signed(chars@.skip(from as int)) {
            Some(n) => if min <= n <= max {
                r == Some(n as i64)
            } else {
                r is None
            },
            None => r is None,
        },
{
    if from < chars.len() && chars[from] == '-' {
        assert(chars@.skip(from as int).skip(1) =~= chars@.skip(from + 1));
        match parse_digits(chars, from + 1, (-min) as u64) {
            Some(n) => Some(-(n as i64)),
            None => None,
        }
    } else {
        match parse_unsigned_chars(chars, from, max as u64) {
            Some(n) => Some(n as i64),
            None => None,
        }
    }
}

/// The decimal numeral of a natural number, without leading zeros.
pub open spec fn nat_text(n: nat) -> Seq<char>
    decreases n,
{
    if n < 10 {
        seq![digit_char(n)]
    } else {
        nat_text(n / 10).push(digit_char(n % 10))
    }
}

/// The decimal numeral of an integer: a minus sign before a negative one.
pub open spec fn int_text(i: int) -> Seq<char> {
    if i < 0 {
        seq!['-'] + nat_text((-i) as nat)
    } else {
        nat_text(i as nat)
    }
}

/// The one-character string of a digit.
pub fn digit_str(d: u64) -> (s: &'static str)
    requires
        d < 10,
    ensures
        s@ == seq![digit_char(d as nat)],
{
    proof {
        reveal_strlit("0");
        reveal_strlit("1");
        reveal_strlit("2");
        reveal_strlit("3");
        reveal_strlit("4");
        reveal_strlit("5");
        reveal_strlit("6");
        reveal_strlit("7");
        reveal_strlit("8");
        reveal_strlit("9");
    }
    let s = if d == 0 {
        "0"
    } else if d == 1 {
        "1"
    } else if d == 2 {
        "2"
    } else if d == 3 {
        "3"
    } else if d == 4 {
        "4"
    } else if d == 5 {
        "5"
    } else if d == 6 {
        "6"
    } else if d == 7 {
        "7"
    } else if d == 8 {
        "8"
    } else {
        "9"
    };
    assert(s@ =~= seq![digit_char(d as nat)]);
    s
}

/// Writes a natural number as its decimal numeral.
pub fn u64_text(n: u64) -> (s: String)
    ensures
        s@ == nat_text(n as nat),
    decreases n,
{
    if n < 10 {
        digit_str(n).to_owned()
    } else {
        let mut s = u64_text(n / 10);
        s.append(digit_str(n % 10));
        assert(s@ =~= nat_text(n as nat));
        s
    }
}

/// Writes an integer as its decimal numeral.
pub fn i64_text(i: i64) -> (s: String)
    ensures
        s@ == int_text(i as int),
{
    if i < 0 {
        let magnitude: u64 = if i == i64::MIN {
            9223372036854775808u64
        } else {
            (-i) as u64
        };
        let mut s = "-".to_owned();
        let digits = u64_text(magnitude);
        s.append(digits.as_str());
        proof {
            reveal_strlit("-");
            assert("-"@ =~= seq!['-']);
        }
        s
    } else {
        u64_text(i as u64)
    }
}

/// The numeral of a natural number is made of digits and spells it.
pub proof fn lemma_nat_text_parses(n: nat)
    ensures
        nat_text(n).len() > 0,
        all_digits(nat_text(n)),
        digits_value(nat_text(n)) == n,
        parse_nat(nat_text(n)) == Some(n),
        n > 0 ==> nat_text(n)[0] != '0',
    decreases n,
{
    if n < 10 {
        assert(nat_text(n).drop_last() =~= Seq::<char>::empty());
        assert(digits_value(nat_text(n).drop_last()) == 0);
        assert(digit_value(nat_text(n).last()) == n);
    } else {
        lemma_nat_text_parses(n / 10);
        let t = nat_text(n / 10);
        assert(nat_text(n).drop_last() =~= t);
        assert(digit_value(nat_text(n).last()) == n % 10);
        assert forall|i: int| 0 <= i < nat_text(n).len() implies is_digit(
            #[trigger] nat_text(n)[i],
        ) by {
            if i < t.len() {
                assert(nat_text(n)[i] == t[i]);
            }
        }
    }
}

/// The numeral of an integer spells it.
pub proof fn lemma_int_text_parses(i: int)
    ensures
        parse_signed(int_text(i)) == Some(i),
        int_text(i).len() > 0,
        forall|k: int|
            0 <= k < int_text(i).len() ==> is_digit(#[trigger] int_text(i)[k]) || int_text(i)[k]
                == '-',
{
    if i < 0 {
        let n = (-i) as nat;
        lemma_nat_text_parses(n);
        assert(int_text(i).skip(1) =~= nat_text(n));
        assert(int_text(i)[0] == '-');
        assert forall|k: int| 0 <= k < int_text(i).len() implies is_digit(
            #[trigger] int_text(i)[k],
        ) || int_text(i)[k] == '-' by {
            if k > 0 {
                assert(int_text(i)[k] == nat_text(n)[k - 1]);
            }
        }
    } else {
        lemma_nat_text_parses(i as nat);
        assert(is_digit(nat_text(i as nat)[0]));
    }
}

/// The numeral of a natural number spells it as an unsigned number too.
pub proof fn lemma_nat_text_parses_unsigned(n: nat)
    ensures
        parse_unsigned(nat_text(n)) == Some(n),
        parse_signed(nat_text(n)) == Some(n as int),
{
    lemma_nat_text_parses(n);
    assert(is_digit(nat_text(n)[0]));
}

/// A stretch of characters among which `sep` does not stand, and which ends
/// at a `sep` or at the end of the text, is a whole span.
pub proof fn lemma_span_len(s: Seq<char>, sep: char, i: int, n: nat)
    requires
        0 <= i,
        i + n <= s.len(),
        forall|k: int| i <= k < i + n ==> #[trigger] s[k] != sep,
        i + n == s.len() || s[i + n] == sep,
    ensures
        span_len(s, sep, i) == n,
    decreases n,
{
    if n > 0 {
        lemma_span_len(s, sep, i + 1, (n - 1) as nat);
    }
}

/// A field between two texts, in which `sep` does not stand and after which
/// `sep` or nothing follows, is a whole span.
pub proof fn lemma_span_between(before: Seq<char>, field: Seq<char>, after: Seq<char>, sep: char)
    requires
        forall|k: int| 0 <= k < field.len() ==> #[trigger] field[k] != sep,
        after.len() == 0 || after[0] == sep,
    ensures
        span_len(before + field + after, sep, before.len() as int) == field.len(),
        (before + field + after).subrange(
            before.len() as int,
            (before.len() + field.len()) as int,
        ) == field,
        (before + field + after).skip((before.len() + field.len()) as int) == after,
{
    let s = before + field + after;
    let i = before.len() as int;
    assert forall|k: int| i <= k < i + field.len() implies #[trigger] s[k] != sep by {
        assert(s[k] == field[k - i]);
    }
    if after.len() > 0 {
        assert(s[i + field.len()] == after[0]);
    }
    lemma_span_len(s, sep, i, field.len());
    assert(s.subrange(i, i + field.len()) =~= field);
    assert(s.skip(i + field.len()) =~= after);
}

/// A name that stands at a place at or after `from` is found from `from`,
/// at that place or before it; and a name that is found stands where it is
/// found.
pub proof fn lemma_first_index(names: Seq<Seq<char>>, name: Seq<char>, from: int)
    requires
        0 <= from,
    ensures
        match first_index(names, name, from) {
            Some(i) => from <= i < names.len() && names[i] == name && forall|k: int|
                from <= k < i ==> #[trigger] names[k] != name,
            None => forall|k: int| from <= k < names.len() ==> #[trigger] names[k] != name,
        },
    decreases names.len() - from,
{
    if from < names.len() && names[from] != name {
        lemma_first_index(names, name, from + 1);
    }
}

/// A word: one character or more, none of them white space.
pub open spec fn is_word(w: Seq<char>) -> bool {
    w.len() > 0 && forall|i: int| 0 <= i < w.len() ==> !is_whitespace(#[trigger] w[i])
}

/// White space, and nothing else.
pub open spec fn is_blank(gap: Seq<char>) -> bool {
    forall|i: int| 0 <= i < gap.len() ==> is_whitespace(#[trigger] gap[i])
}

/// The length of a word depends on what follows its start alone.
pub proof fn lemma_word_len_suffix(s: Seq<char>, i: int, j: int)
    requires
        0 <= i <= j <= s.len(),
    ensures
        word_len(s, j) == word_len(s.skip(i), j - i),
    decreases s.len() - j,
{
    if j < s.len() && !is_whitespace(s[j]) {
        lemma_word_len_suffix(s, i, j + 1);
    }
}

/// The words from a place on are the words of the text from that place on.
pub proof fn lemma_words_suffix(s: Seq<char>, i: int, j: int)
    requires
        0 <= i <= j <= s.len(),
    ensures
        words_from(s, j) == words_from(s.skip(i), j - i),
    decreases s.len() - j,
{
    let t = s.skip(i);
    if j < s.len() {
        if is_whitespace(s[j]) {
            lemma_words_suffix(s, i, j + 1);
        } else {
            lemma_word_len_bound(s, j + 1);
            lemma_word_len_suffix(s, i, j + 1);
            let end = j + 1 + word_len(s, j + 1);
            lemma_words_suffix(s, i, end);
            assert(s.subrange(j, end) =~= t.subrange(j - i, end - i));
        }
    }
}

/// White space before a text adds no word.
pub proof fn lemma_words_after_blank(gap: Seq<char>, rest: Seq<char>)
    requires
        is_blank(gap),
    ensures
        words(gap + rest) == words(rest),
    decreases gap.len(),
{
    let s = gap + rest;
    if gap.len() == 0 {
        assert(s =~= rest);
    } else {
        assert(s[0] == gap[0]);
        lemma_words_suffix(s, 1, 1);
        assert(s.skip(1) =~= gap.skip(1) + rest);
        assert(is_blank(gap.skip(1))) by {
            assert forall|i: int| 0 <= i < gap.skip(1).len() implies is_whitespace(
                #[trigger] gap.skip(1)[i],
            ) by {
                assert(gap.skip(1)[i] == gap[i + 1]);
            }
        }
        lemma_words_after_blank(gap.skip(1), rest);
    }
}

/// A word that ends at white space or at the end of the text is as long
/// as it looks.
pub proof fn lemma_word_len_of_word(w: Seq<char>, rest: Seq<char>, i: int)
    requires
        forall|k: int| 0 <= k < w.len() ==> !is_whitespace(#[trigger] w[k]),
        rest.len() == 0 || is_whitespace(rest[0]),
        0 <= i <= w.len(),
    ensures
        word_len(w + rest, i) == w.len() - i,
    decreases w.len() - i,
{
    let s = w + rest;
    if i < w.len() {
        assert(s[i] == w[i]);
        lemma_word_len_of_word(w, rest, i + 1);
    } else if rest.len() > 0 {
        assert(s[i] == rest[0]);
    }
}

/// A word before a text that is empty or starts with white space is the
/// first word, and the words of the text follow it.
pub proof fn lemma_words_after_word(w: Seq<char>, rest: Seq<char>)
    requires
        is_word(w),
        rest.len() == 0 || is_whitespace(rest[0]),
    ensures
        words(w + rest) == seq![w] + words(rest),
{
    let s = w + rest;
    assert(s[0] == w[0]);
    lemma_word_len_of_word(w, rest, 1);
    let end = w.len() as int;
    assert(s.subrange(0, end) =~= w);
    lemma_words_suffix(s, end, end);
    assert(s.skip(end) =~= rest);
}

/// A word, white space and a text: the word, then the words of the text.
pub proof fn lemma_words_cons(w: Seq<char>, gap: Seq<char>, rest: Seq<char>)
    requires
        is_word(w),
        is_blank(gap),
        gap.len() > 0,
    ensures
        words(w + gap + rest) == seq![w] + words(rest),
{
    assert(w + gap + rest =~= w + (gap + rest));
    assert((gap + rest)[0] == gap[0]);
    lemma_words_after_word(w, gap + rest);
    lemma_words_after_blank(gap, rest);
}

/// A word alone is its one word.
pub proof fn lemma_words_one(w: Seq<char>)
    requires
        is_word(w),
    ensures
        words(w) == seq![w],
{
    lemma_words_after_word(w, Seq::empty());
    assert(w + Seq::<char>::empty() =~= w);
    assert(seq![w] + words(Seq::<char>::empty()) =~= seq![w]);
}

/// What the splitting of a line gives are words.
pub proof fn lemma_words_are_words(s: Seq<char>, i: int)
    requires
        0 <= i <= s.len(),
    ensures
        forall|k: int| 0 <= k < words_from(s, i).len() ==> is_word(#[trigger] words_from(s, i)[k]),
    decreases s.len() - i,
{
    if i < s.len() {
        if is_whitespace(s[i]) {
            lemma_words_are_words(s, i + 1);
            assert(words_from(s, i) == words_from(s, i + 1));
        } else {
            lemma_word_len_bound(s, i + 1);
            let end = i + 1 + word_len(s, i + 1);
            lemma_words_are_words(s, end);
            lemma_word_chars(s, i + 1);
            let w = s.subrange(i, end);
            assert forall|k: int| 0 <= k < w.len() implies !is_whitespace(#[trigger] w[k]) by {
                assert(w[k] == s[i + k]);
            }
            assert(w.len() > 0);
            assert(is_word(w));
            assert(words_from(s, i) == seq![w] + words_from(s, end));
            assert forall|k: int| 0 <= k < words_from(s, i).len() implies is_word(
                #[trigger] words_from(s, i)[k],
            ) by {
                if k > 0 {
                    assert(words_from(s, i)[k] == words_from(s, end)[k - 1]);
                } else {
                    assert(words_from(s, i)[0] == w);
                }
            }
        }
    }
}

/// The characters of a word are not white space.
pub proof fn lemma_word_chars(s: Seq<char>, i: int)
    requires
        0 <= i <= s.len(),
    ensures
        forall|k: int| i <= k < i + word_len(s, i) ==> !is_whitespace(#[trigger] s[k]),
    decreases s.len() - i,
{
    if i < s.len() && !is_whitespace(s[i]) {
        lemma_word_chars(s, i + 1);
    }
}

} // verus!
