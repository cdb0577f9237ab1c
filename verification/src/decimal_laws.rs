//! What decimals are worth, and how they are written.

use vstd::prelude::*;

use crate::decimal::{
    digits, last_digits, magnitude_of, optional, pow10, Decimal, DecimalModel,
};

verus! {

/// A zero after the last digit changes nothing in what a decimal is worth.
pub proof fn trailing_zeros_do_not_count(d: DecimalModel)
    requires
        d.scale < 28,
    ensures
        d.value() == (DecimalModel {
            negative: d.negative,
            magnitude: 10 * d.magnitude,
            scale: d.scale + 1,
        }).value(),
{
    let k = (27 - d.scale) as nat;
    let m = d.magnitude;
    let p = pow10(k);
    assert(pow10(k + 1) == 10 * p);
    assert(m * (10 * p) == (10 * m) * p) by (nonlinear_arith);
}

/// With all twenty-eight digits after the point, a decimal is worth its magnitude, with
/// its sign.
pub proof fn full_scales_count_the_magnitude(magnitude: nat)
    ensures
        (DecimalModel { negative: false, magnitude, scale: 28 }).value() == magnitude,
        (DecimalModel { negative: true, magnitude, scale: 28 }).value() == -(magnitude as int),
{
    assert(pow10(0) == 1);
    assert(magnitude * 1 == magnitude);
}

/// The sign of a decimal tells whether it is worth more or less than nothing.
pub proof fn signs_tell_the_worth(d: DecimalModel)
    requires
        d.scale <= 28,
    ensures
        d.value() == 0 <==> d.magnitude == 0,
        d.value() > 0 <==> d.magnitude > 0 && !d.negative,
        d.value() < 0 <==> d.magnitude > 0 && d.negative,
    decreases 28 - d.scale,
{
    if d.scale == 28 {
        full_scales_count_the_magnitude(d.magnitude);
    } else {
        trailing_zeros_do_not_count(d);
        signs_tell_the_worth(
            DecimalModel {
                negative: d.negative,
                magnitude: 10 * d.magnitude,
                scale: d.scale + 1,
            },
        );
    }
}

/// At the same scale, decimals compare as their magnitudes do, and the greater of two
/// negative ones is worth less.
pub proof fn equal_scales_compare_by_magnitude(a: nat, b: nat, scale: nat)
    requires
        scale <= 28,
        a < b,
    ensures
        (DecimalModel { negative: false, magnitude: a, scale }).value() < (DecimalModel {
            negative: false,
            magnitude: b,
            scale,
        }).value(),
        (DecimalModel { negative: true, magnitude: b, scale }).value() < (DecimalModel {
            negative: true,
            magnitude: a,
            scale,
        }).value(),
    decreases 28 - scale,
{
    if scale == 28 {
        full_scales_count_the_magnitude(a);
        full_scales_count_the_magnitude(b);
    } else {
        trailing_zeros_do_not_count(DecimalModel { negative: false, magnitude: a, scale });
        trailing_zeros_do_not_count(DecimalModel { negative: false, magnitude: b, scale });
        trailing_zeros_do_not_count(DecimalModel { negative: true, magnitude: a, scale });
        trailing_zeros_do_not_count(DecimalModel { negative: true, magnitude: b, scale });
        equal_scales_compare_by_magnitude(10 * a, 10 * b, scale + 1);
    }
}

/// Zero is worth nothing, and has no sign and no digits after the point.
pub proof fn zero_is_nothing()
    ensures
        DecimalModel::zero().value() == 0,
        DecimalModel::zero().magnitude == 0,
        DecimalModel::zero().scale == 0,
        !DecimalModel::zero().negative,
{
}

/// What the parts of a decimal may be.
pub proof fn parts_of_decimals_are_bounded(d: DecimalModel)
    ensures
        d.wf() <==> {
            &&& d.magnitude < 79228162514264337593543950336
            &&& d.scale <= 28
            &&& d.negative ==> d.magnitude > 0
        },
{
}

/// The three words of a magnitude are its digits to the base of two to the power of
/// thirty-two, the lowest first.
pub proof fn words_are_digits(lo: u32, mid: u32, hi: u32)
    ensures
        magnitude_of(lo, mid, hi) % 4294967296 == lo,
        (magnitude_of(lo, mid, hi) / 4294967296) % 4294967296 == mid,
        (magnitude_of(lo, mid, hi) / 4294967296) / 4294967296 == hi,
{
}

/// The number that a row of decimal digits stands for.
pub open spec fn number_of(s: Seq<char>) -> nat
    decreases s.len(),
{
    if s.len() == 0 {
        0
    } else {
        (10 * number_of(s.drop_last()) + (s.last() as u32 - 48)) as nat
    }
}

/// The digits of a number stand for it.
pub proof fn digits_read_back(n: nat)
    ensures
        number_of(digits(n)) == n,
    decreases n,
{
    reveal_with_fuel(number_of, 2);
    if n < 10 {
        assert(digits(n).drop_last() =~= Seq::<char>::empty());
        assert(digits(n).last() as u32 == 48 + n);
    } else {
        digits_read_back(n / 10);
        assert(digits(n).drop_last() =~= digits(n / 10));
        assert(digits(n).last() as u32 == 48 + n % 10);
    }
}

/// The last digits of a number are as many as asked for, and stand for the number less
/// what is before them.
pub proof fn last_digits_read_back(n: nat, k: nat)
    ensures
        last_digits(n, k).len() == k,
        number_of(last_digits(n, k)) == n % pow10(k),
    decreases k,
{
    if k == 0 {
        assert(n % 1 == 0);
    } else {
        let j = (k - 1) as nat;
        last_digits_read_back(n / 10, j);
        assert(last_digits(n, k).drop_last() =~= last_digits(n / 10, j));
        assert(last_digits(n, k).last() as u32 == 48 + n % 10);
        lemma_pow10_positive(j);
        vstd::arithmetic::div_mod::lemma_mod_breakdown(n as int, 10, pow10(j) as int);
    }
}

proof fn lemma_pow10_positive(n: nat)
    ensures
        pow10(n) > 0,
    decreases n,
{
    if n > 0 {
        lemma_pow10_positive((n - 1) as nat);
    }
}

/// A decimal is written as its digits: a sign exactly where it is negative, then the
/// whole part, then, exactly where the scale is not zero, a point and as many digits as
/// the scale says.
pub proof fn texts_are_read_back(d: DecimalModel)
    ensures
        ({
            let t = if d.negative {
                d.text().skip(1)
            } else {
                d.text()
            };
            let point = t.len() - d.scale - 1;
            &&& d.negative ==> d.text()[0] == '-'
            &&& d.scale == 0 ==> number_of(t) == d.magnitude
            &&& d.scale > 0 ==> {
                &&& 0 < point
                &&& t[point] == '.'
                &&& number_of(t.take(point)) == d.magnitude / pow10(d.scale)
                &&& number_of(t.skip(point + 1)) == d.magnitude % pow10(d.scale)
            }
        }),
{
    let whole = digits(d.magnitude / pow10(d.scale));
    let fraction = last_digits(d.magnitude, d.scale);
    digits_read_back(d.magnitude / pow10(d.scale));
    last_digits_read_back(d.magnitude, d.scale);
    let t = if d.negative {
        d.text().skip(1)
    } else {
        d.text()
    };
    assert(whole.len() > 0);
    if d.scale == 0 {
        assert(t =~= whole);
        assert(pow10(0) == 1);
        assert(d.magnitude / 1 == d.magnitude);
    } else {
        assert(t =~= whole + seq!['.'] + fraction);
        assert(t.take(whole.len() as int) =~= whole);
        assert(t.skip(whole.len() as int + 1) =~= fraction);
    }
}

/// The model of an optional decimal shows the decimal, where there is one.
pub proof fn optional_decimals_are_seen_as_they_are(d: Option<Decimal>)
    ensures
        optional(d) is Some <==> d is Some,
        d is Some ==> optional(d)->0 == d->0@,
{
}

} // verus!
