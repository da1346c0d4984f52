//! Decimal numbers held exactly, as the numerals that spell them.

use vstd::prelude::*;
use vstd::std_specs::cmp::PartialEqSpecImpl;
use crate::text::{
    all_digits, chars_of, digit_of, digits_value, i64_text, int_text, is_digit,
    lemma_digits_value_prefix, lemma_int_text_parses, parse_signed, parse_signed_chars,
};

verus! {

/// A decimal number: a sign, the digits before and after the decimal point,
/// and a power of ten. It stands for
/// `± int_digits.frac_digits × 10^exponent`, exactly.
///
/// The digits are kept as written, but for the zeros that say nothing: none
/// leads the integer digits and none ends the fraction digits. Zero has no
/// digits, no sign and no exponent.
///
/// Two numbers are equal (`==`) where they are the same number, however
/// they are written: `1e3`, `1000` and `0.01e5` are equal.
#[derive(Debug)]
pub struct Decimal {
    negative: bool,
    int_digits: String,
    frac_digits: String,
    exponent: i32,
}

/// What a [`Decimal`] holds.
pub struct DecimalView {
    pub negative: bool,
    pub int_digits: Seq<char>,
    pub frac_digits: Seq<char>,
    pub exponent: int,
}

impl DecimalView {
    /// The number zero.
    pub open spec fn zero() -> DecimalView {
        DecimalView {
            negative: false,
            int_digits: Seq::empty(),
            frac_digits: Seq::empty(),
            exponent: 0,
        }
    }

    /// Whether the number is zero.
    pub open spec fn is_zero(self) -> bool {
        self.int_digits.len() == 0 && self.frac_digits.len() == 0
    }

    /// Whether this is the one way in which a [`Decimal`] holds its number.
    pub open spec fn wf(self) -> bool {
        &&& all_digits(self.int_digits)
        &&& all_digits(self.frac_digits)
        &&& (self.int_digits.len() > 0 ==> self.int_digits[0] != '0')
        &&& (self.frac_digits.len() > 0 ==> self.frac_digits.last() != '0')
        &&& (self.is_zero() ==> !self.negative && self.exponent == 0)
        &&& -i32::MAX <= self.exponent <= i32::MAX
    }

    /// Whether the number is greater than zero.
    pub open spec fn is_positive(self) -> bool {
        !self.negative && !self.is_zero()
    }

    /// Whether the number is less than zero.
    pub open spec fn is_negative(self) -> bool {
        self.negative && !self.is_zero()
    }

    /// All written digits, those before the point and then those after it.
    pub open spec fn digits(self) -> Seq<char> {
        self.int_digits + self.frac_digits
    }

    /// The written digits from the first that is not zero on.
    pub open spec fn digits_from_first(self) -> Seq<char> {
        self.digits().skip(leading_zeros(self.digits()) as int)
    }

    /// The significant digits: the written digits without the zeros that
    /// lead them and the zeros that end them.
    pub open spec fn significant(self) -> Seq<char> {
        self.digits_from_first().take(
            self.digits_from_first().len() - trailing_zeros(self.digits_from_first()),
        )
    }

    /// The power of ten that the last significant digit counts.
    pub open spec fn scale(self) -> int {
        self.exponent - self.frac_digits.len() + trailing_zeros(self.digits_from_first())
    }

    /// Whether two numbers are the same number: they have the same sign and
    /// the same significant digits, and the last of these counts the same
    /// power of ten.
    pub open spec fn same_number(self, other: DecimalView) -> bool {
        &&& self.negative == other.negative
        &&& self.significant() == other.significant()
        &&& (self.significant().len() == 0 || self.scale() == other.scale())
    }

    /// The digit at place `j` of the written digits, counted from the first
    /// integer digit; beyond the last written digit every place holds `0`.
    pub open spec fn digit_at(self, j: int) -> char {
        if 0 <= j < self.int_digits.len() {
            self.int_digits[j]
        } else if self.int_digits.len() <= j < self.int_digits.len() + self.frac_digits.len() {
            self.frac_digits[j - self.int_digits.len()]
        } else {
            '0'
        }
    }

    /// How many digits stand before the decimal point once the power of ten
    /// has moved it.
    pub open spec fn integer_len(self) -> nat {
        let n = self.int_digits.len() + self.exponent;
        if n > 0 {
            n as nat
        } else {
            0
        }
    }

    /// The digits before the decimal point once the power of ten has moved
    /// it.
    pub open spec fn integer_digits(self) -> Seq<char> {
        Seq::new(self.integer_len(), |j: int| self.digit_at(j))
    }

    /// The magnitude of the number, rounded down to a whole number.
    pub open spec fn integer_part(self) -> nat {
        digits_value(self.integer_digits())
    }

    /// The numeral of the number: `-` if negative, the integer digits (`0`
    /// where there are none), a point and the fraction digits where there
    /// are any, and `e` with the exponent where it is not zero.
    #[verifier::opaque]
    pub open spec fn text(self) -> Seq<char> {
        (if self.negative {
            seq!['-']
        } else {
            Seq::empty()
        }) + (if self.int_digits.len() == 0 {
            seq!['0']
        } else {
            self.int_digits
        }) + (if self.frac_digits.len() == 0 {
            Seq::empty()
        } else {
            seq!['.'] + self.frac_digits
        }) + (if self.exponent == 0 {
            Seq::empty()
        } else {
            seq!['e'] + int_text(self.exponent)
        })
    }
}

/// How many `0` characters `s` begins with.
pub open spec fn leading_zeros(s: Seq<char>) -> nat
    decreases s.len(),
{
    if s.len() > 0 && s[0] == '0' {
        1 + leading_zeros(s.skip(1))
    } else {
        0
    }
}

/// How many `0` characters `s` ends with.
pub open spec fn trailing_zeros(s: Seq<char>) -> nat
    decreases s.len(),
{
    if s.len() > 0 && s.last() == '0' {
        1 + trailing_zeros(s.drop_last())
    } else {
        0
    }
}

/// The number that a sign, digits before and after the point, and an
/// exponent spell, held the one way a [`Decimal`] holds it.
pub open spec fn numeral(
    negative: bool,
    int_digits: Seq<char>,
    frac_digits: Seq<char>,
    exponent: int,
) -> DecimalView {
    let i = int_digits.skip(leading_zeros(int_digits) as int);
    let f = frac_digits.take(frac_digits.len() - trailing_zeros(frac_digits));
    if i.len() == 0 && f.len() == 0 {
        DecimalView::zero()
    } else {
        DecimalView { negative, int_digits: i, frac_digits: f, exponent }
    }
}

/// How many decimal digits stand in `s` from index `i` on, before anything
/// else.
pub open spec fn digit_run(s: Seq<char>, i: int) -> nat
    decreases s.len() - i,
{
    if 0 <= i < s.len() && is_digit(s[i]) {
        1 + digit_run(s, i + 1)
    } else {
        0
    }
}

/// The exponent that `s` spells: an integer of at most 31 bits and a sign.
pub open spec fn parse_exponent(s: Seq<char>) -> Option<int> {
    match parse_signed(s) {
        Some(e) => if -i32::MAX <= e <= i32::MAX {
            Some(e)
        } else {
            None
        },
        None => None,
    }
}

/// Where the digits of a numeral start: after its sign, if it has one.
pub open spec fn int_start(s: Seq<char>) -> int {
    if s.len() > 0 && (s[0] == '+' || s[0] == '-') {
        1
    } else {
        0
    }
}

/// Where the digits before the point end.
pub open spec fn int_end(s: Seq<char>) -> int {
    int_start(s) + digit_run(s, int_start(s))
}

/// Whether a point follows the digits before it.
pub open spec fn has_point(s: Seq<char>) -> bool {
    int_end(s) < s.len() && s[int_end(s)] == '.'
}

/// Where the digits after the point start.
pub open spec fn frac_start(s: Seq<char>) -> int {
    if has_point(s) {
        int_end(s) + 1
    } else {
        int_end(s)
    }
}

/// Where the digits after the point end.
pub open spec fn frac_end(s: Seq<char>) -> int {
    if has_point(s) {
        frac_start(s) + digit_run(s, frac_start(s))
    } else {
        frac_start(s)
    }
}

/// The number that a token spells, if it is a decimal numeral: an optional
/// sign; digits, with an optional point among, before or after them, and at
/// least one digit; then optionally `e` or `E`, an optional sign and the
/// digits of an exponent.
pub open spec fn parse_decimal_text(s: Seq<char>) -> Option<DecimalView> {
    let a = int_start(s);
    let b = int_end(s);
    let c = frac_start(s);
    let d = frac_end(s);
    let negative = s.len() > 0 && s[0] == '-';
    if (b - a) + (d - c) == 0 {
        None
    } else if d >= s.len() {
        Some(numeral(negative, s.subrange(a, b), s.subrange(c, d), 0))
    } else if s[d] == 'e' || s[d] == 'E' {
        match parse_exponent(s.skip(d + 1)) {
            Some(e) => Some(numeral(negative, s.subrange(a, b), s.subrange(c, d), e)),
            None => None,
        }
    } else {
        None
    }
}

/// The index after the run of digits that starts at `from`.
pub(crate) fn scan_digits(chars: &Vec<char>, from: usize) -> (end: usize)
    requires
        from <= chars.len(),
    ensures
        from <= end <= chars.len(),
        end == from + digit_run(chars@, from as int),
        all_digits(chars@.subrange(from as int, end as int)),
{
    let mut i = from;
    while i < chars.len() && digit_of(chars[i]).is_some()
        invariant
            from <= i <= chars.len(),
            digit_run(chars@, from as int) == (i - from) + digit_run(chars@, i as int),
            all_digits(chars@.subrange(from as int, i as int)),
        decreases chars.len() - i,
    {
        let ghost before = chars@.subrange(from as int, i as int);
        i = i + 1;
        assert forall|k: int| 0 <= k < i - from implies is_digit(
            #[trigger] chars@.subrange(from as int, i as int)[k],
        ) by {
            if k < i - from - 1 {
                assert(before[k] == chars@[from + k]);
            }
        }
    }
    i
}

/// The index of the first character of `chars[from..to]` that is not `0`,
/// or `to`.
fn skip_zeros(chars: &Vec<char>, from: usize, to: usize) -> (k: usize)
    requires
        from <= to <= chars.len(),
    ensures
        from <= k <= to,
        k == from + leading_zeros(chars@.subrange(from as int, to as int)),
        k < to ==> chars@[k as int] != '0',
{
    let mut k = from;
    while k < to && chars[k] == '0'
        invariant
            from <= k <= to <= chars.len(),
            leading_zeros(chars@.subrange(from as int, to as int)) == (k - from) + leading_zeros(
                chars@.subrange(k as int, to as int),
            ),
        decreases to - k,
    {
        assert(chars@.subrange(k as int, to as int).skip(1) =~= chars@.subrange(
            k + 1,
            to as int,
        ));
        k = k + 1;
    }
    k
}

/// The index after the last character of `chars[from..to]` that is not `0`,
/// or `from`.
fn drop_zeros(chars: &Vec<char>, from: usize, to: usize) -> (k: usize)
    requires
        from <= to <= chars.len(),
    ensures
        from <= k <= to,
        k == to - trailing_zeros(chars@.subrange(from as int, to as int)),
        k > from ==> chars@[k - 1] != '0',
{
    let mut k = to;
    while k > from && chars[k - 1] == '0'
        invariant
            from <= k <= to <= chars.len(),
            trailing_zeros(chars@.subrange(from as int, to as int)) == (to - k) + trailing_zeros(
                chars@.subrange(from as int, k as int),
            ),
        decreases k - from,
    {
        assert(chars@.subrange(from as int, k as int).drop_last() =~= chars@.subrange(
            from as int,
            k - 1,
        ));
        k = k - 1;
    }
    k
}

/// Reads a token as a decimal number.
pub fn parse_decimal(token: &str) -> (r: Option<Decimal>)
    ensures
        match parse_decimal_text(token@) {
            Some(v) => r is Some && r->0@ == v,
            None => r is None,
        },
{
    let chars = chars_of(token);
    let n = chars.len();
    let a: usize = if n > 0 && (chars[0] == '+' || chars[0] == '-') {
        1
    } else {
        0
    };
    let negative = n > 0 && chars[0] == '-';
    let b = scan_digits(&chars, a);
    let has_point = b < n && chars[b] == '.';
    let c = if has_point {
        b + 1
    } else {
        b
    };
    let d = if has_point {
        scan_digits(&chars, c)
    } else {
        c
    };
    if (b - a) + (d - c) == 0 {
        return None;
    }
    let exponent: i32 = if d >= n {
        0
    } else if chars[d] == 'e' || chars[d] == 'E' {
        assert(chars@.skip(d + 1) =~= token@.skip(d + 1));
        match parse_signed_chars(&chars, d + 1, -2147483647, 2147483647) {
            Some(e) => e as i32,
            None => {
                return None;
            },
        }
    } else {
        return None;
    };
    Some(
        Decimal::from_parts(
            negative,
            token.substring_char(a, b),
            token.substring_char(c, d),
            exponent,
        ),
    )
}

impl View for Decimal {
    type V = DecimalView;

    closed spec fn view(&self) -> DecimalView {
        DecimalView {
            negative: self.negative,
            int_digits: self.int_digits@,
            frac_digits: self.frac_digits@,
            exponent: self.exponent as int,
        }
    }
}

impl PartialEq for Decimal {
    fn eq(&self, other: &Self) -> (r: bool) {
        let mine = self.all_digits();
        let theirs = other.all_digits();
        let from_mine = skip_zeros(&mine, 0, mine.len());
        let from_theirs = skip_zeros(&theirs, 0, theirs.len());
        let to_mine = drop_zeros(&mine, from_mine, mine.len());
        let to_theirs = drop_zeros(&theirs, from_theirs, theirs.len());
        proof {
            assert(mine@.subrange(0, mine.len() as int) =~= mine@);
            assert(theirs@.subrange(0, theirs.len() as int) =~= theirs@);
            assert(mine@.subrange(from_mine as int, mine.len() as int)
                =~= self@.digits_from_first());
            assert(theirs@.subrange(from_theirs as int, theirs.len() as int)
                =~= other@.digits_from_first());
            assert(mine@.subrange(from_mine as int, to_mine as int) =~= self@.significant());
            assert(theirs@.subrange(from_theirs as int, to_theirs as int)
                =~= other@.significant());
        }
        if self.negative != other.negative || to_mine - from_mine != to_theirs - from_theirs {
            return false;
        }
        let count = to_mine - from_mine;
        let mut i: usize = 0;
        while i < count
            invariant
                i <= count,
                count == to_mine - from_mine,
                count == to_theirs - from_theirs,
                from_mine <= to_mine <= mine.len(),
                from_theirs <= to_theirs <= theirs.len(),
                mine@.subrange(from_mine as int, to_mine as int) == self@.significant(),
                theirs@.subrange(from_theirs as int, to_theirs as int) == other@.significant(),
                forall|k: int|
                    0 <= k < i ==> #[trigger] self@.significant()[k] == other@.significant()[k],
            decreases count - i,
        {
            proof {
                assert(self@.significant()[i as int] == mine@[from_mine + i]);
                assert(other@.significant()[i as int] == theirs@[from_theirs + i]);
            }
            if mine[from_mine + i] != theirs[from_theirs + i] {
                return false;
            }
            i = i + 1;
        }
        assert(self@.significant() =~= other@.significant());
        if count == 0 {
            return true;
        }
        let my_scale: i128 = self.exponent as i128 - self.frac_len() as i128 + (mine.len()
            - to_mine) as i128;
        let their_scale: i128 = other.exponent as i128 - other.frac_len() as i128 + (
        theirs.len() - to_theirs) as i128;
        my_scale == their_scale
    }
}

impl PartialEqSpecImpl for Decimal {
    open spec fn obeys_eq_spec() -> bool {
        true
    }

    open spec fn eq_spec(&self, other: &Self) -> bool {
        self@.same_number(other@)
    }
}

impl Clone for Decimal {
    fn clone(&self) -> (r: Self)
        ensures
            r@ == self@,
    {
        proof {
            use_type_invariant(self);
        }
        Decimal {
            negative: self.negative,
            int_digits: self.int_digits.clone(),
            frac_digits: self.frac_digits.clone(),
            exponent: self.exponent,
        }
    }
}

impl Decimal {
    #[verifier::type_invariant]
    spec fn well_formed(self) -> bool {
        self@.wf()
    }

    /// The number that a sign, the digits before and after the point, and
    /// an exponent spell.
    pub(crate) fn from_parts(negative: bool, int_digits: &str, frac_digits: &str, exponent: i32) -> (r:
        Self)
        requires
            all_digits(int_digits@),
            all_digits(frac_digits@),
            exponent > i32::MIN,
        ensures
            r@ == numeral(negative, int_digits@, frac_digits@, exponent as int),
    {
        let ints = chars_of(int_digits);
        let fracs = chars_of(frac_digits);
        let i = skip_zeros(&ints, 0, ints.len());
        let f = drop_zeros(&fracs, 0, fracs.len());
        proof {
            assert(ints@.subrange(0, ints.len() as int) =~= ints@);
            assert(fracs@.subrange(0, fracs.len() as int) =~= fracs@);
        }
        if i == ints.len() && f == 0 {
            Decimal::zero()
        } else {
            let kept_ints = int_digits.substring_char(i, ints.len()).to_owned();
            let kept_fracs = frac_digits.substring_char(0, f).to_owned();
            proof {
                assert(kept_ints@ =~= int_digits@.skip(leading_zeros(int_digits@) as int));
                assert(kept_fracs@ =~= frac_digits@.take(
                    frac_digits@.len() - trailing_zeros(frac_digits@),
                ));
            }
            Decimal { negative, int_digits: kept_ints, frac_digits: kept_fracs, exponent }
        }
    }

    /// All written digits, those before the point and then those after it.
    fn all_digits(&self) -> (v: Vec<char>)
        ensures
            v@ == self@.digits(),
    {
        let mut v = chars_of(self.int_digits.as_str());
        let fracs = chars_of(self.frac_digits.as_str());
        let mut i: usize = 0;
        while i < fracs.len()
            invariant
                i <= fracs.len(),
                fracs@ == self@.frac_digits,
                v@ == self@.int_digits + self@.frac_digits.take(i as int),
            decreases fracs.len() - i,
        {
            v.push(fracs[i]);
            assert(v@ =~= self@.int_digits + self@.frac_digits.take(i + 1));
            i = i + 1;
        }
        assert(self@.frac_digits.take(i as int) =~= self@.frac_digits);
        v
    }

    /// How many digits are written after the point.
    fn frac_len(&self) -> (n: usize)
        ensures
            n == self@.frac_digits.len(),
    {
        self.frac_digits.as_str().unicode_len()
    }

    /// The number zero.
    pub fn zero() -> (r: Self)
        ensures
            r@ == DecimalView::zero(),
    {
        Decimal {
            negative: false,
            int_digits: String::new(),
            frac_digits: String::new(),
            exponent: 0,
        }
    }

    /// Whether the number is zero.
    pub fn is_zero(&self) -> (r: bool)
        ensures
            r == self@.is_zero(),
    {
        self.int_digits.as_str().unicode_len() == 0 && self.frac_digits.as_str().unicode_len()
            == 0
    }

    /// Whether the number is greater than zero.
    pub fn is_positive(&self) -> (r: bool)
        ensures
            r == self@.is_positive(),
    {
        !self.negative && !self.is_zero()
    }

    /// Whether the number is less than zero.
    pub fn is_negative(&self) -> (r: bool)
        ensures
            r == self@.is_negative(),
    {
        self.negative && !self.is_zero()
    }

    /// Whether the magnitude of the number, rounded down, is below `bound`.
    pub fn integer_part_below(&self, bound: u64) -> (r: bool)
        ensures
            r == (self@.integer_part() < bound),
    {
        proof {
            use_type_invariant(self);
        }
        if bound == 0 {
            return false;
        }
        let ints = chars_of(self.int_digits.as_str());
        let fracs = chars_of(self.frac_digits.as_str());
        let total: i128 = ints.len() as i128 + self.exponent as i128;
        let ghost digits = self@.integer_digits();
        let mut acc: u64 = 0;
        let mut j: i128 = 0;
        assert(digits.take(0) =~= Seq::<char>::empty());
        while j < total
            invariant
                0 <= j,
                j <= total || total < 0,
                total == ints.len() + self.exponent,
                ints@ == self@.int_digits,
                fracs@ == self@.frac_digits,
                self@.wf(),
                digits == self@.integer_digits(),
                acc as nat == digits_value(digits.take(j as int)),
                acc < bound,
            decreases total - j,
        {
            let c: char = if j < ints.len() as i128 {
                ints[j as usize]
            } else if j - (ints.len() as i128) < fracs.len() as i128 {
                fracs[(j - (ints.len() as i128)) as usize]
            } else {
                '0'
            };
            assert(c == self@.digit_at(j as int));
            assert(is_digit(c));
            let d: u8 = match digit_of(c) {
                Some(d) => d,
                None => 0,
            };
            proof {
                let next = digits.take(j + 1);
                assert(next.drop_last() =~= digits.take(j as int));
                assert(next.last() == c);
            }
            let next: u128 = (acc as u128) * 10 + (d as u128);
            if next >= bound as u128 {
                proof {
                    lemma_digits_value_prefix(digits, j + 1);
                }
                return false;
            }
            acc = next as u64;
            j = j + 1;
        }
        proof {
            if total >= 0 {
                assert(digits.take(j as int) =~= digits);
            } else {
                assert(digits =~= Seq::<char>::empty());
            }
        }
        true
    }

    /// Whether the number is written with fraction digits alone, and those
    /// digits.
    pub fn plain_fraction(&self) -> (r: (bool, String))
        ensures
            r.0 == (self@.int_digits.len() == 0 && self@.exponent == 0),
            r.1@ == self@.frac_digits,
    {
        (
            self.int_digits.as_str().unicode_len() == 0 && self.exponent == 0,
            self.frac_digits.clone(),
        )
    }

    /// The numeral of the number.
    pub fn to_text(&self) -> (s: String)
        ensures
            s@ == self@.text(),
    {
        let mut s = String::new();
        if self.negative {
            s.append("-");
        }
        if self.int_digits.as_str().unicode_len() == 0 {
            s.append("0");
        } else {
            s.append(self.int_digits.as_str());
        }
        if self.frac_digits.as_str().unicode_len() != 0 {
            s.append(".");
            s.append(self.frac_digits.as_str());
        }
        if self.exponent != 0 {
            s.append("e");
            let e = i64_text(self.exponent as i64);
            s.append(e.as_str());
        }
        proof {
            reveal(DecimalView::text);
            reveal_strlit("-");
            reveal_strlit("0");
            reveal_strlit(".");
            reveal_strlit("e");
            assert(s@ =~= self@.text());
        }
        s
    }
}

/// A stretch of digits that ends at something else, or at the end of the
/// text, is a whole run of digits.
pub proof fn lemma_digit_run(s: Seq<char>, i: int, n: nat)
    requires
        0 <= i,
        i + n <= s.len(),
        forall|k: int| i <= k < i + n ==> is_digit(#[trigger] s[k]),
        i + n == s.len() || !is_digit(s[i + n]),
    ensures
        digit_run(s, i) == n,
    decreases n,
{
    if n > 0 {
        lemma_digit_run(s, i + 1, (n - 1) as nat);
    }
}

/// A run of digits holds digits, and ends within the text.
pub proof fn lemma_digit_run_digits(s: Seq<char>, i: int)
    requires
        0 <= i <= s.len(),
    ensures
        i + digit_run(s, i) <= s.len(),
        all_digits(s.subrange(i, i + digit_run(s, i))),
    decreases s.len() - i,
{
    if i < s.len() && is_digit(s[i]) {
        lemma_digit_run_digits(s, i + 1);
        let n = digit_run(s, i);
        assert forall|k: int| 0 <= k < n implies is_digit(#[trigger] s.subrange(i, i + n)[k]) by {
            if k > 0 {
                assert(s.subrange(i + 1, i + n)[k - 1] == s[i + k]);
            }
        }
    }
}

/// Where the zeros at the start of `s` end, something else stands.
pub proof fn lemma_leading_zeros(s: Seq<char>)
    ensures
        leading_zeros(s) <= s.len(),
        leading_zeros(s) < s.len() ==> s[leading_zeros(s) as int] != '0',
    decreases s.len(),
{
    if s.len() > 0 && s[0] == '0' {
        lemma_leading_zeros(s.skip(1));
    }
}

/// Where the zeros at the end of `s` start, something else stands before
/// them.
pub proof fn lemma_trailing_zeros(s: Seq<char>)
    ensures
        trailing_zeros(s) <= s.len(),
        trailing_zeros(s) < s.len() ==> s[s.len() - trailing_zeros(s) - 1] != '0',
    decreases s.len(),
{
    if s.len() > 0 && s.last() == '0' {
        lemma_trailing_zeros(s.drop_last());
    }
}

/// Digits and an exponent of 32 bits spell a number in the one way in
/// which a [`Decimal`] holds it.
pub proof fn lemma_numeral_wf(
    negative: bool,
    int_digits: Seq<char>,
    frac_digits: Seq<char>,
    exponent: int,
)
    requires
        all_digits(int_digits),
        all_digits(frac_digits),
        -i32::MAX <= exponent <= i32::MAX,
    ensures
        numeral(negative, int_digits, frac_digits, exponent).wf(),
{
    lemma_leading_zeros(int_digits);
    lemma_trailing_zeros(frac_digits);
    let i = int_digits.skip(leading_zeros(int_digits) as int);
    let f = frac_digits.take(frac_digits.len() - trailing_zeros(frac_digits));
    assert forall|k: int| 0 <= k < i.len() implies is_digit(#[trigger] i[k]) by {
        assert(i[k] == int_digits[k + leading_zeros(int_digits)]);
    }
    assert forall|k: int| 0 <= k < f.len() implies is_digit(#[trigger] f[k]) by {
        assert(f[k] == frac_digits[k]);
    }
}

/// Whatever reads as a decimal number is held in the one way.
pub proof fn lemma_parse_decimal_wf(s: Seq<char>)
    ensures
        parse_decimal_text(s) matches Some(d) ==> d.wf(),
{
    let a = int_start(s);
    lemma_digit_run_digits(s, a);
    let b = int_end(s);
    if has_point(s) {
        lemma_digit_run_digits(s, b + 1);
    } else {
        assert(s.subrange(b, b) =~= Seq::<char>::empty());
    }
    let c = frac_start(s);
    let d = frac_end(s);
    let negative = s.len() > 0 && s[0] == '-';
    if parse_decimal_text(s) is Some {
        if d >= s.len() {
            lemma_numeral_wf(negative, s.subrange(a, b), s.subrange(c, d), 0);
        } else {
            let e = parse_exponent(s.skip(d + 1))->0;
            lemma_numeral_wf(negative, s.subrange(a, b), s.subrange(c, d), e);
        }
    }
}

/// The characters of the numeral of a number: digits, and a sign, a point
/// and an `e` at most.
pub open spec fn is_numeral_char(c: char) -> bool {
    is_digit(c) || c == '-' || c == '.' || c == 'e'
}

/// The sign of a numeral.
pub open spec fn sign_text(negative: bool) -> Seq<char> {
    if negative {
        seq!['-']
    } else {
        Seq::empty()
    }
}

/// The point and the digits behind it, where there are any.
pub open spec fn fraction_text(frac_digits: Seq<char>) -> Seq<char> {
    if frac_digits.len() == 0 {
        Seq::empty()
    } else {
        seq!['.'] + frac_digits
    }
}

/// The `e` and the exponent, where it is not zero.
pub open spec fn exponent_text(exponent: int) -> Seq<char> {
    if exponent == 0 {
        Seq::empty()
    } else {
        seq!['e'] + int_text(exponent)
    }
}

/// Digits between two texts, of which the second does not start with a
/// digit, are a whole run of digits.
proof fn lemma_digit_run_between(before: Seq<char>, digits: Seq<char>, after: Seq<char>)
    requires
        all_digits(digits),
        after.len() == 0 || !is_digit(after[0]),
    ensures
        digit_run(before + digits + after, before.len() as int) == digits.len(),
        (before + digits + after).subrange(
            before.len() as int,
            (before.len() + digits.len()) as int,
        ) == digits,
        (before + digits + after).skip((before.len() + digits.len()) as int) == after,
{
    let s = before + digits + after;
    let i = before.len() as int;
    assert forall|k: int| i <= k < i + digits.len() implies is_digit(#[trigger] s[k]) by {
        assert(s[k] == digits[k - i]);
    }
    if after.len() > 0 {
        assert(s[i + digits.len()] == after[0]);
    }
    lemma_digit_run(s, i, digits.len());
    assert(s.subrange(i, i + digits.len()) =~= digits);
    assert(s.skip(i + digits.len()) =~= after);
}

/// The tail of a numeral, from the point on, does not start with a digit,
/// and neither does its exponent.
proof fn lemma_numeral_tail(frac_digits: Seq<char>, exponent: int)
    ensures
        ({
            let tail = fraction_text(frac_digits) + exponent_text(exponent);
            &&& tail.len() == 0 <==> frac_digits.len() == 0 && exponent == 0
            &&& tail.len() > 0 ==> tail[0] == (if frac_digits.len() > 0 {
                '.'
            } else {
                'e'
            })
        }),
        exponent_text(exponent).len() > 0 ==> exponent_text(exponent)[0] == 'e',
{
}

/// Where the digits of a numeral start and end, for a numeral put together
/// from its parts.
proof fn lemma_numeral_places(
    negative: bool,
    int_digits: Seq<char>,
    frac_digits: Seq<char>,
    exponent: int,
)
    requires
        int_digits.len() > 0,
        all_digits(int_digits),
        all_digits(frac_digits),
    ensures
        ({
            let s = sign_text(negative) + int_digits + fraction_text(frac_digits) + exponent_text(
                exponent,
            );
            let a = sign_text(negative).len() as int;
            let b = a + int_digits.len();
            let c = if frac_digits.len() > 0 {
                b + 1
            } else {
                b
            };
            let d = c + frac_digits.len();
            &&& int_start(s) == a
            &&& int_end(s) == b
            &&& frac_start(s) == c
            &&& frac_end(s) == d
            &&& s.subrange(a, b) == int_digits
            &&& s.subrange(c, d) == frac_digits
            &&& s.skip(d) == exponent_text(exponent)
            &&& (s.len() > 0 && s[0] == '-') == negative
        }),
{
    let sign = sign_text(negative);
    let tail = fraction_text(frac_digits) + exponent_text(exponent);
    let s = sign + int_digits + fraction_text(frac_digits) + exponent_text(exponent);
    let a = sign.len() as int;
    let b = a + int_digits.len();
    lemma_numeral_tail(frac_digits, exponent);
    assert(s =~= sign + int_digits + tail);
    assert(is_digit(int_digits[0]));
    assert(s[a] == int_digits[0]);
    assert(int_start(s) == a);
    lemma_digit_run_between(sign, int_digits, tail);
    assert(int_end(s) == b);
    if frac_digits.len() > 0 {
        assert(s[b] == tail[0]);
        assert(has_point(s));
        let head = sign + int_digits + seq!['.'];
        assert(s =~= head + frac_digits + exponent_text(exponent));
        lemma_digit_run_between(head, frac_digits, exponent_text(exponent));
    } else {
        if tail.len() > 0 {
            assert(s[b] == tail[0]);
        }
        assert(!has_point(s));
        assert(s.subrange(b, b) =~= frac_digits);
        assert(s.skip(b) =~= exponent_text(exponent));
    }
}

/// A numeral put together from a sign, digits of which at least one stands
/// before the point, and an exponent, spells the number of those parts.
proof fn lemma_numeral_parses(
    negative: bool,
    int_digits: Seq<char>,
    frac_digits: Seq<char>,
    exponent: int,
)
    requires
        int_digits.len() > 0,
        all_digits(int_digits),
        all_digits(frac_digits),
        -i32::MAX <= exponent <= i32::MAX,
    ensures
        parse_decimal_text(
            sign_text(negative) + int_digits + fraction_text(frac_digits) + exponent_text(
                exponent,
            ),
        ) == Some(numeral(negative, int_digits, frac_digits, exponent)),
{
    let s = sign_text(negative) + int_digits + fraction_text(frac_digits) + exponent_text(
        exponent,
    );
    lemma_numeral_places(negative, int_digits, frac_digits, exponent);
    let d = frac_end(s);
    if exponent != 0 {
        lemma_int_text_parses(exponent);
        assert(s.skip(d)[0] == 'e');
        assert(s[d] == 'e');
        assert(s.skip(d + 1) =~= s.skip(d).skip(1));
        assert(exponent_text(exponent).skip(1) =~= int_text(exponent));
    } else {
        assert(s.skip(d).len() == 0);
    }
}

/// A number reads back from its numeral: to write a number and to read what
/// was written gives the number again.
pub proof fn lemma_decimal_text_parses(d: DecimalView)
    requires
        d.wf(),
    ensures
        parse_decimal_text(d.text()) == Some(d),
{
    reveal(DecimalView::text);
    let ints: Seq<char> = if d.int_digits.len() == 0 {
        seq!['0']
    } else {
        d.int_digits
    };
    assert(d.text() =~= sign_text(d.negative) + ints + fraction_text(d.frac_digits)
        + exponent_text(d.exponent));
    lemma_numeral_parses(d.negative, ints, d.frac_digits, d.exponent);
    if d.int_digits.len() == 0 {
        assert(ints.skip(1) =~= Seq::<char>::empty());
        assert(leading_zeros(ints.skip(1)) == 0);
        assert(leading_zeros(ints) == 1);
    } else {
        assert(leading_zeros(ints) == 0);
    }
    assert(trailing_zeros(d.frac_digits) == 0);
    assert(ints.skip(leading_zeros(ints) as int) =~= d.int_digits);
    assert(d.frac_digits.take(d.frac_digits.len() - 0) =~= d.frac_digits);
    let n = numeral(d.negative, ints, d.frac_digits, d.exponent);
    assert(n.int_digits == d.int_digits);
    assert(n.frac_digits == d.frac_digits);
    assert(n.negative == d.negative);
    assert(n.exponent == d.exponent);
    assert(n == d);
}

/// The numeral of a number is made of digits, and a sign, a point and an `e`
/// at most; it is not empty.
pub proof fn lemma_decimal_text_chars(d: DecimalView)
    requires
        d.wf(),
    ensures
        d.text().len() > 0,
        forall|k: int| 0 <= k < d.text().len() ==> is_numeral_char(#[trigger] d.text()[k]),
{
    reveal(DecimalView::text);
    let ints: Seq<char> = if d.int_digits.len() == 0 {
        seq!['0']
    } else {
        d.int_digits
    };
    let s = d.text();
    let head = sign_text(d.negative) + ints;
    let middle = fraction_text(d.frac_digits);
    let tail = exponent_text(d.exponent);
    assert(s =~= head + middle + tail);
    lemma_int_text_parses(d.exponent);
    assert forall|k: int| 0 <= k < s.len() implies is_numeral_char(#[trigger] s[k]) by {
        if k < head.len() {
            assert(s[k] == head[k]);
            if k >= sign_text(d.negative).len() {
                assert(head[k] == ints[k - sign_text(d.negative).len()]);
            }
        } else if k < head.len() + middle.len() {
            assert(s[k] == middle[k - head.len()]);
            if k > head.len() {
                assert(middle[k - head.len()] == d.frac_digits[k - head.len() - 1]);
            }
        } else {
            let j = k - head.len() - middle.len();
            assert(s[k] == tail[j]);
            if j > 0 {
                assert(tail[j] == int_text(d.exponent)[j - 1]);
            }
        }
    }
}

} // verus!
