//! What the digits of a decimal number say in arithmetic.

use vstd::arithmetic::div_mod::{
    lemma_div_by_multiple, lemma_div_multiples_vanish_quotient,
    lemma_fundamental_div_mod_converse,
};
use vstd::prelude::*;
use super::decimal::{
    leading_zeros, lemma_leading_zeros, lemma_trailing_zeros, trailing_zeros, DecimalView,
};
use crate::text::{all_digits, digit_value, digits_value, is_digit};

verus! {

/// Ten to the power of `k`.
pub open spec fn pow10(k: nat) -> nat
    decreases k,
{
    if k == 0 {
        1
    } else {
        10 * pow10((k - 1) as nat)
    }
}

impl DecimalView {
    /// The whole number that the written digits spell when the point and
    /// the exponent are left out.
    pub open spec fn unscaled(self) -> nat {
        digits_value(self.digits())
    }

    /// The power of ten that the last written digit counts. The magnitude
    /// of the number is `unscaled × 10^point`.
    pub open spec fn point(self) -> int {
        self.exponent - self.frac_digits.len()
    }
}

/// A power of ten is positive, and grows with its exponent.
pub proof fn lemma_pow10(a: nat, b: nat)
    requires
        a <= b,
    ensures
        0 < pow10(a) <= pow10(b),
    decreases b,
{
    if a < b {
        lemma_pow10(a, (b - 1) as nat);
    } else if a > 0 {
        lemma_pow10((a - 1) as nat, (b - 1) as nat);
    }
}

/// A run of `k` digits spells a number below ten to the power of `k`.
pub proof fn lemma_digits_value_bound(s: Seq<char>)
    requires
        all_digits(s),
    ensures
        digits_value(s) < pow10(s.len()),
    decreases s.len(),
{
    if s.len() > 0 {
        let earlier = s.drop_last();
        assert forall|i: int| 0 <= i < earlier.len() implies is_digit(#[trigger] earlier[i]) by {
            assert(earlier[i] == s[i]);
        }
        lemma_digits_value_bound(earlier);
        assert(is_digit(s[s.len() - 1]));
        assert(digit_value(s.last()) <= 9);
    }
}

/// A run of digits spells what its beginning spells, moved up by the length
/// of its end, and what its end spells.
pub proof fn lemma_digits_value_split(s: Seq<char>, j: int)
    requires
        0 <= j <= s.len(),
    ensures
        digits_value(s) == digits_value(s.take(j)) * pow10((s.len() - j) as nat) + digits_value(
            s.skip(j),
        ),
    decreases s.len(),
{
    if j == s.len() {
        assert(s.take(j) =~= s);
        assert(s.skip(j) =~= Seq::<char>::empty());
        assert(pow10(0) == 1);
        assert(digits_value(s.skip(j)) == 0);
        assert(digits_value(s) * 1 == digits_value(s)) by (nonlinear_arith);
    } else {
        let earlier = s.drop_last();
        lemma_digits_value_split(earlier, j);
        assert(earlier.take(j) =~= s.take(j));
        assert(s.skip(j).drop_last() =~= earlier.skip(j));
        assert(s.skip(j).last() == s.last());
        let a = digits_value(s.take(j)) as int;
        let p = pow10((earlier.len() - j) as nat) as int;
        let b = digits_value(earlier.skip(j)) as int;
        let c = digit_value(s.last()) as int;
        assert(pow10((s.len() - j) as nat) == 10 * p);
        assert(digits_value(s) == (a * p + b) * 10 + c);
        assert(digits_value(s.skip(j)) == b * 10 + c);
        assert((a * p + b) * 10 + c == a * (10 * p) + (b * 10 + c)) by (nonlinear_arith);
    }
}

/// Zeros after a run of digits move what it spells up by as many powers of
/// ten.
pub proof fn lemma_digits_value_zeros(s: Seq<char>, k: nat)
    ensures
        digits_value(s + Seq::new(k, |i: int| '0')) == digits_value(s) * pow10(k),
    decreases k,
{
    let padded = s + Seq::new(k, |i: int| '0');
    if k == 0 {
        assert(padded =~= s);
        assert(pow10(0) == 1);
        assert(digits_value(s) * 1 == digits_value(s)) by (nonlinear_arith);
    } else {
        let fewer = s + Seq::new((k - 1) as nat, |i: int| '0');
        lemma_digits_value_zeros(s, (k - 1) as nat);
        assert(padded.drop_last() =~= fewer);
        assert(padded.last() == '0');
        let a = digits_value(s) as int;
        let p = pow10((k - 1) as nat) as int;
        assert(digit_value('0') == 0);
        assert(digits_value(padded) == (a * p) * 10 + 0);
        assert(pow10(k) == 10 * p);
        assert((a * p) * 10 + 0 == a * (10 * p)) by (nonlinear_arith);
    }
}

/// The magnitude of a number, rounded down, in arithmetic: the number
/// without point and exponent, times the power of ten of its last digit
/// where that is not negative, and else divided by it, rounding down.
pub proof fn lemma_integer_part(d: DecimalView)
    requires
        d.wf(),
    ensures
        d.point() >= 0 ==> d.integer_part() == d.unscaled() * pow10(d.point() as nat),
        d.point() < 0 ==> d.integer_part() == d.unscaled() / pow10((-d.point()) as nat),
{
    let digits = d.digits();
    let whole = d.integer_digits();
    let len = d.integer_len() as int;
    assert forall|i: int| 0 <= i < digits.len() implies is_digit(#[trigger] digits[i]) by {
        if i < d.int_digits.len() {
            assert(digits[i] == d.int_digits[i]);
        } else {
            assert(digits[i] == d.frac_digits[i - d.int_digits.len()]);
        }
    }
    if d.point() >= 0 {
        let k = d.point() as nat;
        assert(whole =~= digits + Seq::new(k, |i: int| '0'));
        lemma_digits_value_zeros(digits, k);
    } else {
        let k = (-d.point()) as nat;
        lemma_pow10(0, k);
        assert(whole =~= digits.take(len));
        lemma_digits_value_split(digits, len);
        let rest = digits.skip(len);
        assert forall|i: int| 0 <= i < rest.len() implies is_digit(#[trigger] rest[i]) by {
            assert(rest[i] == digits[i + len]);
        }
        lemma_digits_value_bound(rest);
        lemma_pow10(rest.len(), k);
        let q = digits_value(digits.take(len)) as int;
        let r = digits_value(rest) as int;
        if d.int_digits.len() + d.exponent >= 0 {
            assert(rest.len() == k);
            lemma_fundamental_div_mod_converse(d.unscaled() as int, pow10(k) as int, q, r);
        } else {
            assert(len == 0);
            assert(digits.take(0) =~= Seq::<char>::empty());
            assert(rest =~= digits);
            assert(q == 0);
            assert(d.unscaled() == 0 * pow10(k) + r) by (nonlinear_arith)
                requires
                    d.unscaled() == r,
            ;
            lemma_fundamental_div_mod_converse(d.unscaled() as int, pow10(k) as int, 0, r);
        }
    }
}

/// Powers of ten multiply as their exponents add.
pub proof fn lemma_pow10_add(a: nat, b: nat)
    ensures
        pow10(a + b) == pow10(a) * pow10(b),
    decreases a,
{
    if a == 0 {
        assert(pow10(0) == 1);
        assert(1 * pow10(b) == pow10(b)) by (nonlinear_arith);
    } else {
        lemma_pow10_add((a - 1) as nat, b);
        let x = pow10((a - 1) as nat) as int;
        let y = pow10(b) as int;
        assert(pow10(a + b) == 10 * pow10((a - 1 + b) as nat));
        assert(10 * (x * y) == (10 * x) * y) by (nonlinear_arith);
    }
}

/// The zeros that lead a run of digits do not count.
pub proof fn lemma_leading_zeros_value(s: Seq<char>)
    ensures
        leading_zeros(s) <= s.len(),
        digits_value(s.skip(leading_zeros(s) as int)) == digits_value(s),
    decreases s.len(),
{
    if s.len() > 0 && s[0] == '0' {
        let rest = s.skip(1);
        lemma_leading_zeros_value(rest);
        assert(rest.skip(leading_zeros(rest) as int) =~= s.skip(leading_zeros(s) as int));
        lemma_digits_value_split(s, 1);
        assert(s.take(1).drop_last() =~= Seq::<char>::empty());
        assert(digits_value(s.take(1).drop_last()) == 0);
        assert(s.take(1).last() == '0');
        assert(digit_value('0') == 0);
        assert(digits_value(s.take(1)) == 0);
        assert(0 * pow10((s.len() - 1) as nat) == 0) by (nonlinear_arith);
    } else {
        assert(s.skip(0) =~= s);
    }
}

/// The zeros that end a run of digits each count one power of ten.
pub proof fn lemma_trailing_zeros_value(s: Seq<char>)
    ensures
        trailing_zeros(s) <= s.len(),
        digits_value(s) == digits_value(s.take(s.len() - trailing_zeros(s))) * pow10(
            trailing_zeros(s),
        ),
    decreases s.len(),
{
    if s.len() > 0 && s.last() == '0' {
        let earlier = s.drop_last();
        lemma_trailing_zeros_value(earlier);
        let kept = earlier.take(earlier.len() - trailing_zeros(earlier));
        assert(s.take(s.len() - trailing_zeros(s)) =~= kept);
        let a = digits_value(kept) as int;
        let p = pow10(trailing_zeros(earlier)) as int;
        assert(digit_value('0') == 0);
        assert(digits_value(s) == (a * p) * 10 + 0);
        assert(pow10(trailing_zeros(s)) == 10 * p);
        assert((a * p) * 10 + 0 == a * (10 * p)) by (nonlinear_arith);
    } else {
        assert(s.take(s.len() - 0) =~= s);
        assert(pow10(0) == 1);
        assert(digits_value(s) * 1 == digits_value(s)) by (nonlinear_arith);
    }
}

/// What a whole number `v` times ten to the power of `s` is, rounded down.
pub open spec fn scaled_down(v: nat, s: int) -> nat {
    if s >= 0 {
        v * pow10(s as nat)
    } else {
        v / pow10((-s) as nat)
    }
}

/// The magnitude of a number, rounded down, is set by its significant
/// digits and the power of ten that the last of them counts.
pub proof fn lemma_integer_part_of_significant(d: DecimalView)
    requires
        d.wf(),
    ensures
        d.integer_part() == scaled_down(digits_value(d.significant()), d.scale()),
{
    lemma_integer_part(d);
    let digits = d.digits();
    let first = d.digits_from_first();
    lemma_leading_zeros_value(digits);
    lemma_trailing_zeros_value(first);
    let tz = trailing_zeros(first);
    let v = digits_value(d.significant()) as int;
    let t = pow10(tz) as int;
    let p = d.point();
    let s = d.scale();
    assert(d.unscaled() == v * t);
    assert(s == p + tz);
    lemma_pow10(0, tz);
    if p >= 0 {
        lemma_pow10_add(tz, p as nat);
        let q = pow10(p as nat) as int;
        assert((v * t) * q == v * (t * q)) by (nonlinear_arith);
    } else {
        let k = (-p) as nat;
        lemma_pow10(0, k);
        if s >= 0 {
            // The zeros at the end outnumber the places behind the point.
            lemma_pow10_add(s as nat, k);
            let u = pow10(s as nat) as int;
            let d10 = pow10(k) as int;
            assert(t == u * d10);
            assert(v * (u * d10) == (v * u) * d10) by (nonlinear_arith);
            assert(0 <= v * u) by (nonlinear_arith)
                requires
                    0 <= v,
                    0 <= u,
            ;
            lemma_div_by_multiple(v * u, d10);
        } else {
            let j = (-s) as nat;
            lemma_pow10(0, j);
            lemma_pow10_add(tz, j);
            let w = pow10(j) as int;
            assert(pow10(k) == t * w);
            lemma_div_multiples_vanish_quotient(t, v, w);
            assert(v * t == t * v) by (nonlinear_arith);
        }
    }
}

/// Equal numbers are alike in what this crate asks of a number: the same
/// number has one sign, is zero or is not, and has one magnitude rounded
/// down, however it is written.
pub proof fn lemma_same_number(a: DecimalView, b: DecimalView)
    requires
        a.wf(),
        b.wf(),
        a.same_number(b),
    ensures
        a.is_zero() == b.is_zero(),
        a.is_positive() == b.is_positive(),
        a.is_negative() == b.is_negative(),
        a.integer_part() == b.integer_part(),
{
    lemma_significant(a);
    lemma_significant(b);
    lemma_integer_part_of_significant(a);
    lemma_integer_part_of_significant(b);
    if a.significant().len() == 0 {
        assert(digits_value(a.significant()) == 0);
        assert(a.integer_digits() =~= Seq::<char>::empty());
        assert(b.integer_digits() =~= Seq::<char>::empty());
    }
}

/// The zeros that lead a run are zeros.
proof fn lemma_leading_zeros_are_zeros(s: Seq<char>)
    ensures
        leading_zeros(s) <= s.len(),
        forall|i: int| 0 <= i < leading_zeros(s) ==> #[trigger] s[i] == '0',
    decreases s.len(),
{
    if s.len() > 0 && s[0] == '0' {
        let rest = s.skip(1);
        lemma_leading_zeros_are_zeros(rest);
        assert forall|i: int| 0 <= i < leading_zeros(s) implies #[trigger] s[i] == '0' by {
            if i > 0 {
                assert(rest[i - 1] == s[i]);
            }
        }
    }
}

/// The zeros that end a run are zeros.
proof fn lemma_trailing_zeros_are_zeros(s: Seq<char>)
    ensures
        trailing_zeros(s) <= s.len(),
        forall|i: int| s.len() - trailing_zeros(s) <= i < s.len() ==> #[trigger] s[i] == '0',
    decreases s.len(),
{
    if s.len() > 0 && s.last() == '0' {
        let earlier = s.drop_last();
        lemma_trailing_zeros_are_zeros(earlier);
        assert forall|i: int| s.len() - trailing_zeros(s) <= i < s.len() implies #[trigger] s[i]
            == '0' by {
            if i < s.len() - 1 {
                assert(earlier[i] == s[i]);
            }
        }
    }
}

/// A number is zero exactly if it has no significant digit.
pub proof fn lemma_significant(d: DecimalView)
    requires
        d.wf(),
    ensures
        d.is_zero() <==> d.significant().len() == 0,
{
    let digits = d.digits();
    let first = d.digits_from_first();
    lemma_leading_zeros_are_zeros(digits);
    lemma_trailing_zeros_are_zeros(first);
    if !d.is_zero() {
        // Some digit is not zero: the first before the point, or the last
        // behind it.
        let z: int = if d.int_digits.len() > 0 {
            0
        } else {
            digits.len() - 1
        };
        if d.int_digits.len() > 0 {
            assert(digits[0] == d.int_digits[0]);
        } else {
            assert(digits[z] == d.frac_digits.last());
        }
        assert(digits[z] != '0');
        let lz = leading_zeros(digits) as int;
        assert(lz <= z);
        assert(first[z - lz] == digits[z]);
        assert(first.len() - trailing_zeros(first) > z - lz);
    } else {
        assert(digits =~= Seq::<char>::empty());
    }
}

/// Whether two numbers have one value: the same sign, unless they are
/// zero, and the same magnitude, `unscaled × 10^point`, which is compared
/// here with both sides moved up by as many powers of ten as it takes to
/// make them whole.
pub open spec fn same_value(a: DecimalView, b: DecimalView) -> bool {
    let low = if a.point() <= b.point() {
        a.point()
    } else {
        b.point()
    };
    &&& a.unscaled() * pow10((a.point() - low) as nat) == b.unscaled() * pow10(
        (b.point() - low) as nat,
    )
    &&& (a.unscaled() == 0 || a.negative == b.negative)
}

/// A run of digits that does not start with zero spells a number of as
/// many digits.
proof fn lemma_digits_value_low(s: Seq<char>)
    requires
        all_digits(s),
        s.len() > 0,
        s[0] != '0',
    ensures
        pow10((s.len() - 1) as nat) <= digits_value(s),
{
    lemma_digits_value_split(s, 1);
    assert(s.take(1).drop_last() =~= Seq::<char>::empty());
    assert(digits_value(s.take(1).drop_last()) == 0);
    assert(s.take(1).last() == s[0]);
    assert(is_digit(s[0]));
    let lead = digits_value(s.take(1)) as int;
    assert(lead >= 1);
    let p = pow10((s.len() - 1) as nat) as int;
    assert(lead * p >= p) by (nonlinear_arith)
        requires
            lead >= 1,
            p >= 0,
    ;
}

/// Two runs of digits of one length that spell one number are the same.
proof fn lemma_digits_value_same(s: Seq<char>, t: Seq<char>)
    requires
        all_digits(s),
        all_digits(t),
        s.len() == t.len(),
        digits_value(s) == digits_value(t),
    ensures
        s == t,
    decreases s.len(),
{
    if s.len() == 0 {
        assert(s =~= t);
    } else {
        let s0 = s.drop_last();
        let t0 = t.drop_last();
        assert forall|i: int| 0 <= i < s0.len() implies is_digit(#[trigger] s0[i]) by {
            assert(s0[i] == s[i]);
        }
        assert forall|i: int| 0 <= i < t0.len() implies is_digit(#[trigger] t0[i]) by {
            assert(t0[i] == t[i]);
        }
        assert(is_digit(s[s.len() - 1]));
        assert(is_digit(t[t.len() - 1]));
        let a = digits_value(s0) as int;
        let b = digits_value(t0) as int;
        let c = digit_value(s.last()) as int;
        let d = digit_value(t.last()) as int;
        assert(a * 10 + c == b * 10 + d);
        assert(a == b && c == d) by (nonlinear_arith)
            requires
                a * 10 + c == b * 10 + d,
                0 <= c <= 9,
                0 <= d <= 9,
        ;
        lemma_digits_value_same(s0, t0);
        assert(s.last() == t.last());
        assert(s =~= s0.push(s.last()));
        assert(t =~= t0.push(t.last()));
    }
}

/// Two runs of digits without a zero at their start that spell one number
/// are the same.
proof fn lemma_digits_value_one(s: Seq<char>, t: Seq<char>)
    requires
        all_digits(s),
        all_digits(t),
        s.len() > 0 ==> s[0] != '0',
        t.len() > 0 ==> t[0] != '0',
        digits_value(s) == digits_value(t),
    ensures
        s == t,
{
    lemma_digits_value_bound(s);
    lemma_digits_value_bound(t);
    if s.len() > 0 {
        lemma_digits_value_low(s);
    }
    if t.len() > 0 {
        lemma_digits_value_low(t);
    }
    if s.len() < t.len() {
        lemma_pow10(s.len(), (t.len() - 1) as nat);
    }
    if t.len() < s.len() {
        lemma_pow10(t.len(), (s.len() - 1) as nat);
    }
    assert(pow10(0) == 1);
    lemma_digits_value_same(s, t);
}

/// What the significant digits of a number are: digits, none of them zero
/// at either end; and the number without point and exponent is what they
/// spell, moved up by the zeros that were left out at the end.
proof fn lemma_significant_digits(d: DecimalView)
    requires
        d.wf(),
    ensures
        all_digits(d.significant()),
        d.significant().len() > 0 ==> d.significant()[0] != '0' && d.significant().last() != '0',
        d.unscaled() == digits_value(d.significant()) * pow10(
            trailing_zeros(d.digits_from_first()),
        ),
        d.scale() == d.point() + trailing_zeros(d.digits_from_first()),
        d.significant().len() == 0 <==> d.unscaled() == 0,
{
    let digits = d.digits();
    let first = d.digits_from_first();
    let kept = d.significant();
    assert forall|i: int| 0 <= i < digits.len() implies is_digit(#[trigger] digits[i]) by {
        if i < d.int_digits.len() {
            assert(digits[i] == d.int_digits[i]);
        } else {
            assert(digits[i] == d.frac_digits[i - d.int_digits.len()]);
        }
    }
    lemma_leading_zeros(digits);
    lemma_trailing_zeros(first);
    lemma_leading_zeros_value(digits);
    lemma_trailing_zeros_value(first);
    lemma_significant(d);
    let lz = leading_zeros(digits) as int;
    assert forall|i: int| 0 <= i < kept.len() implies is_digit(#[trigger] kept[i]) by {
        assert(kept[i] == digits[i + lz]);
    }
    if kept.len() > 0 {
        assert(kept[0] == first[0]);
        assert(first[0] == digits[lz]);
        assert(kept.last() == first[first.len() - trailing_zeros(first) - 1]);
        lemma_digits_value_low(kept);
        lemma_pow10(0, (kept.len() - 1) as nat);
        lemma_pow10(0, trailing_zeros(first));
        let v = digits_value(kept) as int;
        let t = pow10(trailing_zeros(first)) as int;
        assert(v * t > 0) by (nonlinear_arith)
            requires
                v > 0,
                t > 0,
        ;
    } else {
        assert(digits_value(kept) == 0);
        assert(0 * pow10(trailing_zeros(first)) == 0) by (nonlinear_arith);
    }
}

/// A whole number that ends in a digit that is not zero is no multiple of
/// ten.
proof fn lemma_last_digit(s: Seq<char>)
    requires
        all_digits(s),
        s.len() > 0,
        s.last() != '0',
    ensures
        digits_value(s) % 10 != 0,
{
    assert(is_digit(s[s.len() - 1]));
    let a = digits_value(s.drop_last()) as int;
    let c = digit_value(s.last()) as int;
    assert(1 <= c <= 9);
    lemma_fundamental_div_mod_converse(a * 10 + c, 10, a, c);
}

/// Two whole numbers that are no multiples of ten, and that are equal when
/// each is moved up by some powers of ten, are equal, and are moved up
/// alike.
proof fn lemma_cancel_pow10(v: int, x: nat, w: int, y: nat)
    requires
        v > 0,
        w > 0,
        v % 10 != 0,
        w % 10 != 0,
        v * pow10(x) == w * pow10(y),
    ensures
        v == w,
        x == y,
    decreases x + y,
{
    if x == 0 && y == 0 {
        assert(pow10(0) == 1);
        assert(v * 1 == v && w * 1 == w) by (nonlinear_arith);
    } else if x == 0 {
        assert(pow10(0) == 1);
        let p = pow10((y - 1) as nat) as int;
        assert(pow10(y) == 10 * p);
        assert(v * 1 == v) by (nonlinear_arith);
        assert(w * (10 * p) == (w * p) * 10) by (nonlinear_arith);
        lemma_fundamental_div_mod_converse(v, 10, w * p, 0);
    } else if y == 0 {
        assert(pow10(0) == 1);
        let p = pow10((x - 1) as nat) as int;
        assert(pow10(x) == 10 * p);
        assert(w * 1 == w) by (nonlinear_arith);
        assert(v * (10 * p) == (v * p) * 10) by (nonlinear_arith);
        lemma_fundamental_div_mod_converse(w, 10, v * p, 0);
    } else {
        let p = pow10((x - 1) as nat) as int;
        let q = pow10((y - 1) as nat) as int;
        assert(pow10(x) == 10 * p);
        assert(pow10(y) == 10 * q);
        assert(v * p == w * q) by (nonlinear_arith)
            requires
                v * (10 * p) == w * (10 * q),
        ;
        lemma_cancel_pow10(v, (x - 1) as nat, w, (y - 1) as nat);
    }
}

/// Equality is of values: two numbers are the same number exactly if they
/// have one value.
pub proof fn lemma_same_number_is_same_value(a: DecimalView, b: DecimalView)
    requires
        a.wf(),
        b.wf(),
    ensures
        a.same_number(b) <==> same_value(a, b),
{
    lemma_significant_digits(a);
    lemma_significant_digits(b);
    lemma_significant(a);
    lemma_significant(b);
    let low = if a.point() <= b.point() {
        a.point()
    } else {
        b.point()
    };
    let x = (a.point() - low) as nat;
    let y = (b.point() - low) as nat;
    let ta = trailing_zeros(a.digits_from_first());
    let tb = trailing_zeros(b.digits_from_first());
    let v = digits_value(a.significant()) as int;
    let w = digits_value(b.significant()) as int;
    // Each side, in its significant digits.
    lemma_pow10_add(ta, x);
    lemma_pow10_add(tb, y);
    assert(a.unscaled() * pow10(x) == v * pow10(ta + x)) by (nonlinear_arith)
        requires
            a.unscaled() == v * pow10(ta),
            pow10(ta + x) == pow10(ta) * pow10(x),
    ;
    assert(b.unscaled() * pow10(y) == w * pow10(tb + y)) by (nonlinear_arith)
        requires
            b.unscaled() == w * pow10(tb),
            pow10(tb + y) == pow10(tb) * pow10(y),
    ;
    let left = a.unscaled() * pow10(x);
    let right = b.unscaled() * pow10(y);
    assert(a.scale() - low == ta + x);
    assert(b.scale() - low == tb + y);
    lemma_pow10(0, ta + x);
    lemma_pow10(0, tb + y);
    if a.significant().len() == 0 {
        assert(a.is_zero() && !a.negative);
        assert(left == 0) by (nonlinear_arith)
            requires
                left == v * pow10(ta + x),
                v == 0,
        ;
    } else {
        assert(left > 0) by (nonlinear_arith)
            requires
                left == v * pow10(ta + x),
                v > 0,
                pow10(ta + x) > 0,
        ;
    }
    if b.significant().len() == 0 {
        assert(b.is_zero() && !b.negative);
        assert(right == 0) by (nonlinear_arith)
            requires
                right == w * pow10(tb + y),
                w == 0,
        ;
    } else {
        assert(right > 0) by (nonlinear_arith)
            requires
                right == w * pow10(tb + y),
                w > 0,
                pow10(tb + y) > 0,
        ;
    }
    if a.significant().len() > 0 && b.significant().len() > 0 {
        lemma_last_digit(a.significant());
        lemma_last_digit(b.significant());
        if same_value(a, b) {
            lemma_cancel_pow10(v, ta + x, w, tb + y);
            lemma_digits_value_one(a.significant(), b.significant());
            assert(a.scale() == b.scale());
            assert(a.same_number(b));
        }
        if a.same_number(b) {
            assert(v == w);
            assert(ta + x == tb + y);
            assert(left == right);
            assert(same_value(a, b));
        }
    } else if a.significant().len() == 0 && b.significant().len() == 0 {
        assert(a.significant() =~= b.significant());
        assert(a.same_number(b));
        assert(same_value(a, b));
    } else {
        assert(a.significant().len() != b.significant().len());
        assert(!a.same_number(b));
        assert(left != right);
        assert(!same_value(a, b));
    }
}

/// A number is zero exactly if its digits spell zero.
pub proof fn lemma_is_zero(d: DecimalView)
    requires
        d.wf(),
    ensures
        d.is_zero() <==> d.unscaled() == 0,
{
    lemma_significant_digits(d);
    lemma_significant(d);
}

} // verus!
