//! Decimal amounts of money.
//!
//! A [`Decimal`] holds the parts of a `rust_decimal::Decimal`: a 96-bit magnitude,
//! a sign and a scale, which is the number of digits after the point. Arithmetic,
//! comparison and formatting are those of `rust_decimal`.

use vstd::prelude::*;

verus! {

/// The largest number of digits after the point.
pub const MAX_SCALE: u32 = 28;

/// The number of magnitudes: two to the power of ninety-six.
pub const MAGNITUDES: u128 = 79228162514264337593543950336;

/// Ten to the power of `n`.
pub open spec fn pow10(n: nat) -> nat
    decreases n,
{
    if n == 0 {
        1
    } else {
        10 * pow10((n - 1) as nat)
    }
}

/// The decimal digit for `n`, where `n` is below ten.
pub open spec fn digit(n: nat) -> char {
    (48 + n) as char
}

/// `n` in decimal, without leading zeros.
pub open spec fn digits(n: nat) -> Seq<char>
    decreases n,
{
    if n < 10 {
        seq![digit(n)]
    } else {
        digits(n / 10).push(digit(n % 10))
    }
}

/// The last `k` decimal digits of `n`, with leading zeros.
pub open spec fn last_digits(n: nat, k: nat) -> Seq<char>
    decreases k,
{
    if k == 0 {
        Seq::empty()
    } else {
        last_digits(n / 10, (k - 1) as nat).push(digit(n % 10))
    }
}

/// A decimal number: `magnitude` divided by ten to the power of `scale`, negated
/// where `negative` is set.
pub struct DecimalModel {
    pub negative: bool,
    pub magnitude: nat,
    pub scale: nat,
}

impl DecimalModel {
    /// Whether the parts fit: magnitudes have ninety-six bits, and zero has no sign.
    pub open spec fn wf(self) -> bool {
        &&& self.magnitude < MAGNITUDES
        &&& self.scale <= MAX_SCALE
        &&& self.magnitude == 0 ==> !self.negative
    }

    /// The number, counted in units of the smallest fraction (twenty-eight digits
    /// after the point).
    pub open spec fn value(self) -> int {
        let units = self.magnitude * pow10((MAX_SCALE - self.scale) as nat);
        if self.negative {
            -units
        } else {
            units as int
        }
    }

    /// The number as text: a sign where it is negative, the whole part, and, where
    /// the scale is not zero, a point and as many digits as the scale says.
    pub open spec fn text(self) -> Seq<char> {
        let sign = if self.negative {
            seq!['-']
        } else {
            Seq::<char>::empty()
        };
        let whole = digits(self.magnitude / pow10(self.scale));
        let fraction = if self.scale == 0 {
            Seq::<char>::empty()
        } else {
            seq!['.'] + last_digits(self.magnitude, self.scale)
        };
        sign + whole + fraction
    }

    /// Zero, without digits after the point.
    pub open spec fn zero() -> DecimalModel {
        DecimalModel { negative: false, magnitude: 0, scale: 0 }
    }
}

/// Whether some decimal has exactly this value.
pub open spec fn is_decimal(value: int) -> bool {
    exists|d: DecimalModel| #[trigger] d.wf() && d.value() == value
}

/// Whether the value lies between the smallest and the largest decimal.
pub open spec fn in_range(value: int) -> bool {
    let limit = (MAGNITUDES - 1) * pow10(MAX_SCALE as nat);
    -limit <= value <= limit
}

/// Whether `d` is a rounding of `exact`: no decimal lies between the two, and so
/// `d` is `exact` itself wherever that is a decimal.
pub open spec fn rounds(exact: int, d: DecimalModel) -> bool {
    &&& d.wf()
    &&& forall|c: DecimalModel| #[trigger]
        c.wf() ==> {
            &&& exact <= c.value() ==> d.value() <= c.value()
            &&& c.value() <= exact ==> c.value() <= d.value()
        }
}

proof fn lemma_pow10_increases(m: nat, n: nat)
    requires
        m <= n,
    ensures
        1 <= pow10(m) <= pow10(n),
    decreases n,
{
    if n > 0 {
        if m < n {
            lemma_pow10_increases(m, (n - 1) as nat);
        } else {
            lemma_pow10_increases((m - 1) as nat, (n - 1) as nat);
        }
    }
}

/// Every decimal lies in the range of decimals.
pub proof fn decimals_are_in_range(d: DecimalModel)
    requires
        d.wf(),
    ensures
        in_range(d.value()),
{
    let m = d.magnitude;
    let unit = pow10((MAX_SCALE - d.scale) as nat);
    let most = pow10(MAX_SCALE as nat);
    lemma_pow10_increases((MAX_SCALE - d.scale) as nat, MAX_SCALE as nat);
    assert(0 <= m * unit <= (MAGNITUDES - 1) * most) by (nonlinear_arith)
        requires
            m <= MAGNITUDES - 1,
            unit <= most,
    ;
}

/// Arithmetic is exact wherever the exact result is a decimal.
pub proof fn rounding_keeps_decimals(exact: int, d: DecimalModel)
    requires
        rounds(exact, d),
        is_decimal(exact),
    ensures
        d.value() == exact,
{
    let c = choose|c: DecimalModel| #[trigger] c.wf() && c.value() == exact;
    assert(c.wf());
}

/// Whether a value needs no more than `scale` digits after the point.
pub open spec fn at_scale(value: int, scale: nat) -> bool {
    value % (pow10((MAX_SCALE - scale) as nat) as int) == 0
}

/// Zero needs no digits after the point.
pub proof fn zero_is_at_every_scale(scale: nat)
    requires
        scale <= MAX_SCALE,
    ensures
        at_scale(0, scale),
{
    lemma_pow10_increases(0, (MAX_SCALE - scale) as nat);
    vstd::arithmetic::div_mod::lemma_small_mod(0, pow10((MAX_SCALE - scale) as nat));
}

/// Where two values need no more digits than `d` has, neither does their sum, nor the
/// difference between `d` and one of them.
pub proof fn scales_add_up(d: DecimalModel, a: int, b: int)
    requires
        d.wf(),
        at_scale(a, d.scale),
        at_scale(b, d.scale),
    ensures
        at_scale(d.value(), d.scale),
        at_scale(a + b, d.scale),
        at_scale(d.value() - a, d.scale),
{
    let u = pow10((MAX_SCALE - d.scale) as nat) as int;
    lemma_pow10_increases(0, (MAX_SCALE - d.scale) as nat);
    let m = if d.negative {
        -(d.magnitude as int)
    } else {
        d.magnitude as int
    };
    assert(d.value() == u * m) by (nonlinear_arith)
        requires
            d.value() == (if d.negative {
                -(d.magnitude * u)
            } else {
                d.magnitude * u
            }),
            m == (if d.negative {
                -(d.magnitude as int)
            } else {
                d.magnitude as int
            }),
    ;
    vstd::arithmetic::div_mod::lemma_fundamental_div_mod(a, u);
    vstd::arithmetic::div_mod::lemma_fundamental_div_mod(b, u);
    lemma_multiple(d.value(), m, u);
    assert(a + b == u * (a / u + b / u)) by (nonlinear_arith)
        requires
            a == u * (a / u),
            b == u * (b / u),
    ;
    lemma_multiple(a + b, a / u + b / u, u);
    assert(d.value() - a == u * (m - a / u)) by (nonlinear_arith)
        requires
            a == u * (a / u),
            d.value() == u * m,
    ;
    lemma_multiple(d.value() - a, m - a / u, u);
}

proof fn lemma_multiple(v: int, k: int, u: int)
    requires
        v == u * k,
        u > 0,
    ensures
        v % u == 0,
{
    vstd::arithmetic::div_mod::lemma_mod_multiples_basic(k, u);
    assert(u * k == k * u) by (nonlinear_arith);
}

/// Between zero and a decimal, every value that needs no more digits than the decimal
/// has is a decimal.
pub proof fn multiples_of_a_unit_are_decimals(d: DecimalModel, value: int)
    requires
        d.wf(),
        at_scale(value, d.scale),
        0 <= value <= d.value(),
    ensures
        is_decimal(value),
{
    let u = pow10((MAX_SCALE - d.scale) as nat) as int;
    lemma_pow10_increases(0, (MAX_SCALE - d.scale) as nat);
    vstd::arithmetic::div_mod::lemma_fundamental_div_mod(value, u);
    let k = value / u;
    assert(d.value() <= d.magnitude * u) by (nonlinear_arith)
        requires
            u > 0,
            d.value() == (if d.negative {
                -(d.magnitude * u)
            } else {
                d.magnitude * u
            }),
    ;
    assert(0 <= k <= d.magnitude) by (nonlinear_arith)
        requires
            u > 0,
            0 <= u * k <= d.magnitude * u,
    ;
    let c = DecimalModel { negative: false, magnitude: k as nat, scale: d.scale };
    assert(u * k == k * u) by (nonlinear_arith);
    assert(c.wf() && c.value() == value);
}

/// What subtracting `b` from `a` gives; nothing where the result is out of range.
pub uninterp spec fn decimal_difference(a: DecimalModel, b: DecimalModel) -> Option<DecimalModel>;

/// What adding `a` and `b` gives; nothing where the result is out of range.
pub uninterp spec fn decimal_sum(a: DecimalModel, b: DecimalModel) -> Option<DecimalModel>;

/// The model of an optional decimal.
pub open spec fn optional(d: Option<Decimal>) -> Option<DecimalModel> {
    match d {
        Some(d) => Some(d@),
        None => None,
    }
}

/// Whether every character is a decimal digit.
spec fn all_digits(s: Seq<char>) -> bool {
    forall|i: int| 0 <= i < s.len() ==> '0' <= #[trigger] s[i] <= '9'
}

proof fn lemma_digit_determines(a: nat, b: nat)
    requires
        a < 10,
        b < 10,
        digit(a) == digit(b),
    ensures
        a == b,
{
    assert(digit(a) as int == 48 + a);
    assert(digit(b) as int == 48 + b);
}

proof fn lemma_digits(n: nat)
    ensures
        digits(n).len() > 0,
        n >= 10 ==> digits(n).len() > 1,
        all_digits(digits(n)),
    decreases n,
{
    if n >= 10 {
        lemma_digits(n / 10);
    }
}

proof fn lemma_digits_determine(a: nat, b: nat)
    requires
        digits(a) == digits(b),
    ensures
        a == b,
    decreases a,
{
    lemma_digits(a);
    lemma_digits(b);
    if a < 10 {
        assert(b < 10) by {
            if b >= 10 {
                assert(digits(a).len() == 1);
            }
        }
        assert(digits(a)[0] == digit(a));
        assert(digits(b)[0] == digit(b));
        lemma_digit_determines(a, b);
    } else {
        assert(b >= 10) by {
            if b < 10 {
                assert(digits(b).len() == 1);
            }
        }
        assert(digits(a).drop_last() =~= digits(a / 10));
        assert(digits(b).drop_last() =~= digits(b / 10));
        assert(digits(a).last() == digit(a % 10));
        assert(digits(b).last() == digit(b % 10));
        lemma_digit_determines(a % 10, b % 10);
        lemma_digits_determine(a / 10, b / 10);
    }
}

proof fn lemma_last_digits(n: nat, k: nat)
    ensures
        last_digits(n, k).len() == k,
        all_digits(last_digits(n, k)),
    decreases k,
{
    if k > 0 {
        lemma_last_digits(n / 10, (k - 1) as nat);
    }
}

proof fn lemma_last_digits_determine(a: nat, b: nat, k: nat)
    requires
        last_digits(a, k) == last_digits(b, k),
    ensures
        a % pow10(k) == b % pow10(k),
    decreases k,
{
    if k > 0 {
        let j = (k - 1) as nat;
        lemma_last_digits(a / 10, j);
        lemma_last_digits(b / 10, j);
        assert(last_digits(a, k).drop_last() =~= last_digits(a / 10, j));
        assert(last_digits(b, k).drop_last() =~= last_digits(b / 10, j));
        assert(last_digits(a, k).last() == digit(a % 10));
        assert(last_digits(b, k).last() == digit(b % 10));
        lemma_digit_determines(a % 10, b % 10);
        lemma_last_digits_determine(a / 10, b / 10, j);
        lemma_pow10_increases(0, j);
        vstd::arithmetic::div_mod::lemma_mod_breakdown(a as int, 10, pow10(j) as int);
        vstd::arithmetic::div_mod::lemma_mod_breakdown(b as int, 10, pow10(j) as int);
    } else {
        assert(a % 1 == 0 && b % 1 == 0);
    }
}

/// The text of a number without its sign.
spec fn unsigned_text(d: DecimalModel) -> Seq<char> {
    DecimalModel { negative: false, ..d }.text()
}

proof fn lemma_unsigned_text(d: DecimalModel)
    ensures
        d.text() == (if d.negative {
            seq!['-'] + unsigned_text(d)
        } else {
            unsigned_text(d)
        }),
        unsigned_text(d).len() > 0,
        '0' <= unsigned_text(d)[0] <= '9',
        d.scale == 0 ==> {
            &&& unsigned_text(d) == digits(d.magnitude / pow10(d.scale))
            &&& all_digits(unsigned_text(d))
        },
        d.scale > 0 ==> {
            let whole = digits(d.magnitude / pow10(d.scale));
            let fraction = last_digits(d.magnitude, d.scale);
            &&& unsigned_text(d).len() == whole.len() + 1 + d.scale
            &&& unsigned_text(d).take(whole.len() as int) == whole
            &&& all_digits(whole)
            &&& unsigned_text(d)[whole.len() as int] == '.'
            &&& unsigned_text(d).skip(whole.len() as int + 1) == fraction
            &&& all_digits(fraction)
        },
{
    let whole = digits(d.magnitude / pow10(d.scale));
    let fraction = last_digits(d.magnitude, d.scale);
    lemma_digits(d.magnitude / pow10(d.scale));
    lemma_last_digits(d.magnitude, d.scale);
    assert(d.text() =~= if d.negative {
        seq!['-'] + unsigned_text(d)
    } else {
        unsigned_text(d)
    });
    assert(unsigned_text(d)[0] == whole[0]);
    if d.scale == 0 {
        assert(unsigned_text(d) =~= whole);
    } else {
        assert(unsigned_text(d) =~= whole + (seq!['.'] + fraction));
        assert(unsigned_text(d).take(whole.len() as int) =~= whole);
        assert(unsigned_text(d).skip(whole.len() as int + 1) =~= fraction);
    }
}

/// The text of a decimal is made of digits, points and signs alone.
pub proof fn texts_hold_digits_points_and_signs(d: DecimalModel)
    ensures
        forall|i: int|
            0 <= i < d.text().len() ==> ({
                ||| '0' <= #[trigger] d.text()[i] <= '9'
                ||| d.text()[i] == '.'
                ||| d.text()[i] == '-'
            }),
{
    lemma_digits(d.magnitude / pow10(d.scale));
    lemma_last_digits(d.magnitude, d.scale);
}

proof fn lemma_same_scale(a: DecimalModel, b: DecimalModel)
    requires
        unsigned_text(a) == unsigned_text(b),
    ensures
        a.scale <= b.scale,
{
    lemma_unsigned_text(a);
    lemma_unsigned_text(b);
    if a.scale > b.scale {
        let s = unsigned_text(a);
        let point = s.len() - 1 - a.scale;
        assert(s[point] == '.');
        if b.scale == 0 {
            assert('0' <= s[point] <= '9');
        } else {
            let whole = digits(b.magnitude / pow10(b.scale));
            assert(point < whole.len());
            assert(s.take(whole.len() as int)[point] == s[point]);
            assert('0' <= whole[point] <= '9');
        }
    }
}

/// Decimals with the same text are the same: they have the same sign, the same
/// magnitude and the same scale.
pub proof fn text_determines_decimal(a: DecimalModel, b: DecimalModel)
    requires
        a.text() == b.text(),
    ensures
        a == b,
{
    lemma_unsigned_text(a);
    lemma_unsigned_text(b);
    assert(a.negative == (a.text()[0] == '-'));
    assert(b.negative == (b.text()[0] == '-'));
    if a.negative {
        assert((seq!['-'] + unsigned_text(a)).skip(1) =~= unsigned_text(a));
        assert((seq!['-'] + unsigned_text(b)).skip(1) =~= unsigned_text(b));
    }
    assert(unsigned_text(a) == unsigned_text(b));
    lemma_same_scale(a, b);
    lemma_same_scale(b, a);
    let unit = pow10(a.scale);
    lemma_pow10_increases(0, a.scale);
    if a.scale > 0 {
        lemma_last_digits_determine(a.magnitude, b.magnitude, a.scale);
    } else {
        assert(a.magnitude % unit == 0 && b.magnitude % unit == 0);
    }
    lemma_digits_determine(a.magnitude / unit, b.magnitude / unit);
    vstd::arithmetic::div_mod::lemma_fundamental_div_mod(a.magnitude as int, unit as int);
    vstd::arithmetic::div_mod::lemma_fundamental_div_mod(b.magnitude as int, unit as int);
}

/// A decimal number with up to twenty-eight digits after the point.
#[derive(Debug, Clone, Copy)]
pub struct Decimal {
    lo: u32,
    mid: u32,
    hi: u32,
    negative: bool,
    scale: u32,
}

impl View for Decimal {
    type V = DecimalModel;

    closed spec fn view(&self) -> DecimalModel {
        DecimalModel {
            negative: self.negative,
            magnitude: magnitude_of(self.lo, self.mid, self.hi),
            scale: self.scale as nat,
        }
    }
}

/// The magnitude that three 32-bit words hold, the lowest word first.
pub open spec fn magnitude_of(lo: u32, mid: u32, hi: u32) -> nat {
    (lo + mid * 0x1_0000_0000 + hi * 0x1_0000_0000_0000_0000) as nat
}

impl Decimal {
    #[verifier::type_invariant]
    pub(crate) open spec fn well_formed(self) -> bool {
        self@.wf()
    }

    /// The decimal with this magnitude, given as three 32-bit words, this sign and
    /// this scale. Zero takes no sign.
    pub fn from_parts(lo: u32, mid: u32, hi: u32, negative: bool, scale: u32) -> (r: Decimal)
        requires
            scale <= MAX_SCALE,
        ensures
            r@ == (DecimalModel {
                negative: negative && magnitude_of(lo, mid, hi) > 0,
                magnitude: magnitude_of(lo, mid, hi),
                scale: scale as nat,
            }),
            r@.wf(),
    {
        let zero = lo == 0 && mid == 0 && hi == 0;
        Decimal { lo, mid, hi, negative: negative && !zero, scale }
    }

    /// The parts of the decimal: the three words of its magnitude, the lowest
    /// first, its sign and its scale.
    pub fn parts(&self) -> (r: (u32, u32, u32, bool, u32))
        ensures
            self@.wf(),
            self@ == (DecimalModel {
                negative: r.3,
                magnitude: magnitude_of(r.0, r.1, r.2),
                scale: r.4 as nat,
            }),
    {
        proof {
            use_type_invariant(self);
        }
        (self.lo, self.mid, self.hi, self.negative, self.scale)
    }

    /// Zero.
    pub fn zero() -> (r: Decimal)
        ensures
            r@ == DecimalModel::zero(),
    {
        Decimal { lo: 0, mid: 0, hi: 0, negative: false, scale: 0 }
    }

    /// `Decimal::checked_sub` of `rust_decimal`, which computes as the operator `-`
    /// does and returns nothing where that panics: the difference, rounded where it
    /// needs more than ninety-six bits, unless it is out of range.
    #[verifier::external_body]
    pub(crate) fn difference(&self, other: &Decimal) -> (r: Option<Decimal>)
        requires
            self@.wf(),
            other@.wf(),
        ensures
            optional(r) == decimal_difference(self@, other@),
            in_range(self@.value() - other@.value()) ==> r is Some,
            r is Some ==> rounds(self@.value() - other@.value(), r->0@),
    {
        let a = rust_decimal::Decimal::from_parts(self.lo, self.mid, self.hi, self.negative, self.scale);
        let b = rust_decimal::Decimal::from_parts(other.lo, other.mid, other.hi, other.negative, other.scale);
        let d = a.checked_sub(b)?.unpack();
        Some(Decimal { lo: d.lo, mid: d.mid, hi: d.hi, negative: d.negative, scale: d.scale })
    }

    /// `Decimal::checked_add` of `rust_decimal`, which computes as the operator `+`
    /// does and returns nothing where that panics: the sum, rounded where it needs
    /// more than ninety-six bits, unless it is out of range.
    #[verifier::external_body]
    pub(crate) fn sum(&self, other: &Decimal) -> (r: Option<Decimal>)
        requires
            self@.wf(),
            other@.wf(),
        ensures
            optional(r) == decimal_sum(self@, other@),
            in_range(self@.value() + other@.value()) ==> r is Some,
            r is Some ==> rounds(self@.value() + other@.value(), r->0@),
    {
        let a = rust_decimal::Decimal::from_parts(self.lo, self.mid, self.hi, self.negative, self.scale);
        let b = rust_decimal::Decimal::from_parts(other.lo, other.mid, other.hi, other.negative, other.scale);
        let d = a.checked_add(b)?.unpack();
        Some(Decimal { lo: d.lo, mid: d.mid, hi: d.hi, negative: d.negative, scale: d.scale })
    }

    /// The operator `<=` of `rust_decimal`: it compares the numbers, whatever their
    /// scales.
    #[verifier::external_body]
    pub(crate) fn at_most(&self, other: &Decimal) -> (r: bool)
        requires
            self@.wf(),
            other@.wf(),
        ensures
            r == (self@.value() <= other@.value()),
    {
        let a = rust_decimal::Decimal::from_parts(self.lo, self.mid, self.hi, self.negative, self.scale);
        let b = rust_decimal::Decimal::from_parts(other.lo, other.mid, other.hi, other.negative, other.scale);
        a <= b
    }

    /// The operator `==` of `rust_decimal`: it compares the numbers, whatever their
    /// scales.
    #[verifier::external_body]
    fn same_value(&self, other: &Decimal) -> (r: bool)
        requires
            self@.wf(),
            other@.wf(),
        ensures
            r == (self@.value() == other@.value()),
    {
        let a = rust_decimal::Decimal::from_parts(self.lo, self.mid, self.hi, self.negative, self.scale);
        let b = rust_decimal::Decimal::from_parts(other.lo, other.mid, other.hi, other.negative, other.scale);
        a == b
    }

    /// The `Display` of `rust_decimal`: the sign, the whole part, and as many digits
    /// after the point as the scale says.
    #[verifier::external_body]
    pub(crate) fn to_text(&self) -> (r: String)
        requires
            self@.wf(),
        ensures
            r@ == self@.text(),
    {
        let d = rust_decimal::Decimal::from_parts(self.lo, self.mid, self.hi, self.negative, self.scale);
        format!("{}", d)
    }
}

/// Decimals are equal when they are the same number, whatever their scales.
impl PartialEq for Decimal {
    fn eq(&self, other: &Decimal) -> (r: bool) {
        proof {
            use_type_invariant(self);
            use_type_invariant(other);
        }
        self.same_value(other)
    }
}

impl vstd::std_specs::cmp::PartialEqSpecImpl for Decimal {
    open spec fn obeys_eq_spec() -> bool {
        true
    }

    open spec fn eq_spec(&self, other: &Decimal) -> bool {
        self@.value() == other@.value()
    }
}

} // verus!
