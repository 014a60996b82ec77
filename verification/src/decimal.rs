//! Decimal amounts: prices, sizes and fills.
//!
//! An amount is held as an integer mantissa and a number of decimal places. The
//! arithmetic, the parser and the printer are those of `rust_decimal`; each function
//! below that hands a value to that crate says in its contract what is relied on.

use vstd::prelude::*;
use rust_decimal::Decimal;
use std::str::FromStr;

verus! {

/// The largest magnitude of a mantissa: 96 bits, all set.
pub const MAX_MANTISSA: i128 = 79228162514264337593543950335;

/// The largest number of decimal places.
pub const MAX_SCALE: u32 = 28;

/// The number `mantissa / 10^scale`.
#[derive(Clone, Copy, Debug, PartialEq, Eq, Structural)]
pub struct Dec {
    pub mantissa: i128,
    pub scale: u32,
}

/// Ten to the power `n`.
pub open spec fn pow10(n: nat) -> int
    decreases n,
{
    if n == 0 { 1 } else { 10 * pow10((n - 1) as nat) }
}

/// The character of one decimal digit.
pub open spec fn digit_char(d: int) -> char {
    (48 + d) as char
}

/// The decimal digits of `n`, without leading zeros.
pub open spec fn digits(n: nat) -> Seq<char>
    decreases n,
{
    if n < 10 {
        seq![digit_char(n as int)]
    } else {
        digits(n / 10).push(digit_char((n % 10) as int))
    }
}

/// `text` with zeros in front of it, up to the length `width`.
pub open spec fn zero_padded(text: Seq<char>, width: nat) -> Seq<char> {
    if text.len() >= width {
        text
    } else {
        Seq::new((width - text.len()) as nat, |i: int| '0') + text
    }
}

/// How an amount is written: an optional minus sign, at least one digit, and, where
/// the amount has decimal places, a point and exactly that many digits.
pub open spec fn decimal_text(d: Dec) -> Seq<char> {
    let magnitude = if d.mantissa < 0 { -d.mantissa } else { d.mantissa as int };
    let all = zero_padded(digits(magnitude as nat), (d.scale + 1) as nat);
    let point = all.len() - d.scale;
    let unsigned = if d.scale == 0 {
        all
    } else {
        all.subrange(0, point) + seq!['.'] + all.subrange(point, all.len() as int)
    };
    if d.mantissa < 0 { seq!['-'] + unsigned } else { unsigned }
}

impl Dec {
    /// Whether the mantissa and the scale are within the limits of an amount.
    pub open spec fn wf(self) -> bool {
        -MAX_MANTISSA <= self.mantissa <= MAX_MANTISSA && self.scale <= MAX_SCALE
    }

    /// Zero, without decimal places.
    pub open spec fn zero_spec() -> Dec {
        Dec { mantissa: 0, scale: 0 }
    }

    /// The numeric order: `self < other`.
    pub open spec fn below(self, other: Dec) -> bool {
        self.mantissa * pow10(other.scale as nat) < other.mantissa * pow10(self.scale as nat)
    }

    /// The amount, or zero where it is negative.
    pub open spec fn floored(self) -> Dec {
        if self.mantissa > 0 { self } else { Dec::zero_spec() }
    }

    /// The amount with at most `places` decimal places, cut off towards zero.
    pub open spec fn truncated(self, places: u32) -> Dec {
        if self.scale <= places {
            self
        } else {
            let unit = pow10((self.scale - places) as nat);
            let magnitude = if self.mantissa < 0 { -self.mantissa } else { self.mantissa as int };
            let kept = magnitude / unit;
            Dec { mantissa: (if self.mantissa < 0 { -kept } else { kept }) as i128, scale: places }
        }
    }

    /// The mantissa that the amount has with `scale` decimal places.
    pub open spec fn aligned(self, scale: u32) -> int {
        self.mantissa * pow10((scale - self.scale) as nat)
    }
}

/// Whether an integer is the mantissa of some amount.
pub open spec fn fits(mantissa: int) -> bool {
    -MAX_MANTISSA <= mantissa <= MAX_MANTISSA
}

/// The larger of two numbers of decimal places.
pub open spec fn wider(a: u32, b: u32) -> u32 {
    if a >= b { a } else { b }
}

/// What `Decimal::from_str` makes of a text: the amount, or its error in words.
pub uninterp spec fn decimal_of_text(text: Seq<char>) -> Result<Dec, Seq<char>>;

/// What was read: the amount, or the error in words.
pub open spec fn reading(r: Result<Dec, String>) -> Result<Dec, Seq<char>> {
    match r {
        Ok(d) => Ok(d),
        Err(why) => Err(why@),
    }
}

/// What `Decimal::checked_add` makes of two amounts.
pub uninterp spec fn decimal_sum(a: Dec, b: Dec) -> Option<Dec>;

/// What `Decimal::checked_sub` makes of two amounts.
pub uninterp spec fn decimal_difference(a: Dec, b: Dec) -> Option<Dec>;

/// What `Decimal::checked_mul` makes of two amounts.
pub uninterp spec fn decimal_product(a: Dec, b: Dec) -> Option<Dec>;

/// What `Decimal::checked_div` makes of two amounts.
pub uninterp spec fn decimal_quotient(a: Dec, b: Dec) -> Option<Dec>;

/// `Decimal::from_str`, with its error in words. The amount that it reads, or the error, depends
/// on the text alone, and the amount is within the limits. The text of an amount reads back as
/// that amount.
#[verifier::external_body]
pub(crate) fn parse_decimal(text: &str) -> (r: Result<Dec, String>)
    ensures
        reading(r) == decimal_of_text(text@),
        r is Ok ==> r->Ok_0.wf(),
        forall|d: Dec|
            d.wf() && text@ == #[trigger] decimal_text(d) ==> r is Ok && r->Ok_0 == d,
{
    match Decimal::from_str(text) {
        Ok(d) => Ok(Dec { mantissa: d.mantissa(), scale: d.scale() }),
        Err(e) => Err(e.to_string()),
    }
}

/// `Decimal`'s `to_string`: the text is `decimal_text` of the amount.
#[verifier::external_body]
pub(crate) fn print_decimal(d: Dec) -> (r: String)
    requires
        d.wf(),
    ensures
        r@ == decimal_text(d),
{
    Decimal::from_i128_with_scale(d.mantissa, d.scale).to_string()
}

/// `Decimal::checked_add`. A zero operand gives the other one. Otherwise the sum is
/// exact, with the larger number of decimal places, where the operands and the sum
/// have mantissas within the limit at that number of places.
#[verifier::external_body]
pub(crate) fn add_decimals(a: Dec, b: Dec) -> (r: Option<Dec>)
    requires
        a.wf(),
        b.wf(),
    ensures
        r == decimal_sum(a, b),
        r is Some ==> r->0.wf(),
        a.mantissa == 0 ==> r == Some(b),
        a.mantissa != 0 && b.mantissa == 0 ==> r == Some(a),
        ({
            let scale = wider(a.scale, b.scale);
            let sum = a.aligned(scale) + b.aligned(scale);
            a.mantissa != 0 && b.mantissa != 0 && fits(a.aligned(scale)) && fits(b.aligned(scale))
                && fits(sum) ==> r == Some(Dec { mantissa: sum as i128, scale: scale })
        }),
{
    let x = Decimal::from_i128_with_scale(a.mantissa, a.scale);
    let y = Decimal::from_i128_with_scale(b.mantissa, b.scale);
    x.checked_add(y).map(|d| Dec { mantissa: d.mantissa(), scale: d.scale() })
}

/// `Decimal::checked_sub`. A zero second operand gives the first one. Otherwise the
/// difference is exact, with the larger number of decimal places, where the operands
/// and the difference have mantissas within the limit at that number of places.
#[verifier::external_body]
pub(crate) fn subtract_decimals(a: Dec, b: Dec) -> (r: Option<Dec>)
    requires
        a.wf(),
        b.wf(),
    ensures
        r == decimal_difference(a, b),
        r is Some ==> r->0.wf(),
        a.mantissa != 0 && b.mantissa == 0 ==> r == Some(a),
        a.mantissa == 0 ==> r is Some && r->0.mantissa == -b.mantissa && r->0.scale == b.scale,
        ({
            let scale = wider(a.scale, b.scale);
            let difference = a.aligned(scale) - b.aligned(scale);
            a.mantissa != 0 && b.mantissa != 0 && fits(a.aligned(scale)) && fits(b.aligned(scale))
                && fits(difference) ==> r == Some(Dec { mantissa: difference as i128, scale: scale })
        }),
{
    let x = Decimal::from_i128_with_scale(a.mantissa, a.scale);
    let y = Decimal::from_i128_with_scale(b.mantissa, b.scale);
    x.checked_sub(y).map(|d| Dec { mantissa: d.mantissa(), scale: d.scale() })
}

/// `Decimal::checked_mul`. A zero operand gives zero. The product is exact where its
/// mantissa and its number of decimal places are within the limits, and there is one
/// where the second operand is below one in magnitude.
#[verifier::external_body]
pub(crate) fn multiply_decimals(a: Dec, b: Dec) -> (r: Option<Dec>)
    requires
        a.wf(),
        b.wf(),
    ensures
        r == decimal_product(a, b),
        r is Some ==> r->0.wf(),
        a.mantissa == 0 || b.mantissa == 0 ==> r == Some(Dec::zero_spec()),
        a.mantissa != 0 && b.mantissa != 0 && fits(a.mantissa * b.mantissa) && a.scale + b.scale
            <= MAX_SCALE ==> r == Some(
            Dec { mantissa: (a.mantissa * b.mantissa) as i128, scale: (a.scale + b.scale) as u32 },
        ),
        -pow10(b.scale as nat) < b.mantissa < pow10(b.scale as nat) ==> r is Some,
{
    let x = Decimal::from_i128_with_scale(a.mantissa, a.scale);
    let y = Decimal::from_i128_with_scale(b.mantissa, b.scale);
    x.checked_mul(y).map(|d| Dec { mantissa: d.mantissa(), scale: d.scale() })
}

/// `Decimal::checked_div`. There is no quotient by zero, and zero divided by anything else is
/// zero. By a whole number of at most 32 bits there always is a quotient, and it is exact,
/// with the places of the dividend, where the mantissas divide without a rest.
#[verifier::external_body]
pub(crate) fn divide_decimals(a: Dec, b: Dec) -> (r: Option<Dec>)
    requires
        a.wf(),
        b.wf(),
    ensures
        r == decimal_quotient(a, b),
        r is Some ==> r->0.wf(),
        b.mantissa == 0 ==> r is None,
        a.mantissa == 0 && b.mantissa != 0 ==> r == Some(Dec::zero_spec()),
        b.scale == 0 && 0 < b.mantissa <= u32::MAX ==> r is Some,
        b.scale == 0 && 0 < b.mantissa <= u32::MAX && a.mantissa > 0 && a.mantissa % b.mantissa == 0
            ==> r == Some(Dec { mantissa: (a.mantissa / b.mantissa) as i128, scale: a.scale }),
{
    let x = Decimal::from_i128_with_scale(a.mantissa, a.scale);
    let y = Decimal::from_i128_with_scale(b.mantissa, b.scale);
    x.checked_div(y).map(|d| Dec { mantissa: d.mantissa(), scale: d.scale() })
}

/// `Decimal`'s `<`: the numeric order.
#[verifier::external_body]
pub(crate) fn decimal_below(a: Dec, b: Dec) -> (r: bool)
    requires
        a.wf(),
        b.wf(),
    ensures
        r == a.below(b),
{
    Decimal::from_i128_with_scale(a.mantissa, a.scale)
        < Decimal::from_i128_with_scale(b.mantissa, b.scale)
}

/// `Decimal::round_dp_with_strategy` with the strategy `ToZero`.
#[verifier::external_body]
pub(crate) fn truncate_decimal(d: Dec, places: u32) -> (r: Dec)
    requires
        d.wf(),
    ensures
        r == d.truncated(places),
        r.wf(),
{
    let x = Decimal::from_i128_with_scale(d.mantissa, d.scale)
        .round_dp_with_strategy(places, rust_decimal::RoundingStrategy::ToZero);
    Dec { mantissa: x.mantissa(), scale: x.scale() }
}

/// The amount that a text stands for; zero where it stands for none.
pub open spec fn amount_of(text: Seq<char>) -> Dec {
    match decimal_of_text(text) {
        Ok(d) => d,
        Err(_) => Dec::zero_spec(),
    }
}

/// Reads an amount; a text that is none counts as zero. The text of an amount reads back
/// as that amount.
pub fn read_amount(text: &str) -> (r: Dec)
    ensures
        r == amount_of(text@),
        r.wf(),
        forall|d: Dec| d.wf() && text@ == #[trigger] decimal_text(d) ==> r == d,
{
    match parse_decimal(text) {
        Ok(d) => d,
        Err(_) => Dec { mantissa: 0, scale: 0 },
    }
}

/// What is left of `whole` once `taken` is gone, and never less than zero; nothing where
/// the subtraction leaves the range of amounts.
pub open spec fn remainder_of(whole: Dec, taken: Dec) -> Option<Dec> {
    match decimal_difference(whole, taken) {
        Some(d) => Some(d.floored()),
        None => None,
    }
}

pub proof fn lemma_pow10_positive(n: nat)
    ensures
        pow10(n) > 0,
    decreases n,
{
    if n > 0 {
        lemma_pow10_positive((n - 1) as nat);
    }
}

/// An amount is above zero exactly where its mantissa is.
pub proof fn lemma_positive(d: Dec)
    ensures
        Dec::zero_spec().below(d) <==> d.mantissa > 0,
        d.below(Dec::zero_spec()) <==> d.mantissa < 0,
{
    lemma_pow10_positive(d.scale as nat);
    assert(pow10(0) == 1);
    assert(0 * pow10(d.scale as nat) == 0) by (nonlinear_arith);
    assert(d.mantissa * 1 == d.mantissa);
}

/// Subtracts, and takes a negative rest for zero.
pub fn remaining_amount(whole: Dec, taken: Dec) -> (r: Option<Dec>)
    requires
        whole.wf(),
        taken.wf(),
    ensures
        r == remainder_of(whole, taken),
        r is Some ==> r->0.wf(),
{
    match subtract_decimals(whole, taken) {
        None => None,
        Some(d) => {
            let zero = Dec { mantissa: 0, scale: 0 };
            proof {
                lemma_positive(d);
            }
            if decimal_below(zero, d) {
                Some(d)
            } else {
                Some(zero)
            }
        },
    }
}

/// A power of ten is the product of its parts.
proof fn lemma_pow10_adds(a: nat, b: nat)
    ensures
        pow10(a + b) == pow10(a) * pow10(b),
    decreases a,
{
    if a > 0 {
        lemma_pow10_adds((a - 1) as nat, b);
        let p = pow10((a - 1) as nat);
        let q = pow10(b);
        assert((10 * p) * q == 10 * (p * q)) by (nonlinear_arith);
    } else {
        assert(1 * pow10(b) == pow10(b));
    }
}

/// Whether `cut` is what is left of an amount that is not negative once all but `places` of its
/// decimal places are gone: it has no more places than that, it is not negative and not above the
/// amount, and it is less than one unit of the last place below it.
pub open spec fn cut_from(cut: Dec, whole: Dec, places: u32) -> bool {
    let a = cut.mantissa * pow10(whole.scale as nat);
    let b = whole.mantissa * pow10(cut.scale as nat);
    let unit = pow10(cut.scale as nat) * pow10(whole.scale as nat);
    cut.wf() && cut.scale <= places && 0 <= a <= b && (b - a) * pow10(places as nat) < unit
}

/// Cutting an amount off takes away less than one unit of the last place that is kept, and
/// nothing from an amount that has no more places.
pub proof fn law_cut_is_close(d: Dec, places: u32)
    requires
        d.wf(),
        d.mantissa >= 0,
    ensures
        cut_from(d.truncated(places), d, places),
        d.scale <= places ==> d.truncated(places) == d,
{
    let c = d.truncated(places);
    lemma_pow10_positive(d.scale as nat);
    lemma_pow10_positive(places as nat);
    if d.scale <= places {
        let p = pow10(d.scale as nat);
        assert(d.mantissa * p >= 0 && p * p > 0) by (nonlinear_arith)
            requires
                p > 0,
                d.mantissa >= 0,
        ;
        assert(0 * pow10(places as nat) == 0);
    } else {
        let m = d.mantissa as int;
        let u = pow10((d.scale - places) as nat);
        let p = pow10(places as nat);
        let k = m / u;
        lemma_pow10_positive((d.scale - places) as nat);
        lemma_pow10_adds((d.scale - places) as nat, places as nat);
        assert(0 <= k <= m && 0 <= m - k * u < u) by (nonlinear_arith)
            requires
                u > 0,
                m >= 0,
                k == m / u,
        ;
        assert(c.mantissa == k && c.scale == places);
        let whole = pow10(d.scale as nat);
        assert(whole == u * p);
        assert(0 <= k * whole && k * whole <= m * p && (m * p - k * whole) * p < p * whole)
            by (nonlinear_arith)
            requires
                whole == u * p,
                u > 0,
                p > 0,
                k >= 0,
                0 <= m - k * u < u,
        {
            let r = m - k * u;
            assert(m * p - k * whole == r * p) by (nonlinear_arith)
                requires
                    whole == u * p,
                    r == m - k * u,
            ;
            assert(r * p < u * p) by (nonlinear_arith)
                requires
                    r < u,
                    p > 0,
            ;
            assert((r * p) * p < (u * p) * p) by (nonlinear_arith)
                requires
                    r * p < u * p,
                    p > 0,
            ;
            assert(p * whole == (u * p) * p) by (nonlinear_arith)
                requires
                    whole == u * p,
            ;
            assert(0 <= r * p) by (nonlinear_arith)
                requires
                    r >= 0,
                    p > 0,
            ;
        }
    }
}

/// Amounts are ordered by their value: with the same number of places by their mantissas, and a
/// zero behind the last place changes nothing.
pub proof fn law_amounts_are_ordered_by_value(a: Dec, b: Dec, longer: Dec)
    requires
        a.scale < u32::MAX,
        longer.scale == a.scale + 1,
        longer.mantissa == 10 * a.mantissa,
    ensures
        a.scale == b.scale ==> (a.below(b) <==> a.mantissa < b.mantissa),
        longer.below(b) <==> a.below(b),
        b.below(longer) <==> b.below(a),
{
    let p = pow10(a.scale as nat);
    let q = pow10(b.scale as nat);
    lemma_pow10_positive(a.scale as nat);
    lemma_pow10_positive(b.scale as nat);
    assert(pow10(longer.scale as nat) == 10 * p);
    let (x, y) = (a.mantissa as int, b.mantissa as int);
    assert((10 * x) * q == 10 * (x * q) && y * (10 * p) == 10 * (y * p)) by (nonlinear_arith);
    if a.scale == b.scale {
        assert(x * p < y * p <==> x < y) by (nonlinear_arith)
            requires
                p > 0,
        ;
    }
}

/// What is left is the difference where that is above zero, and else zero; there is no answer
/// exactly where the difference leaves the range of amounts. A text that is no amount counts as
/// zero.
pub proof fn law_rest_is_the_difference(whole: Dec, taken: Dec, text: Seq<char>)
    ensures
        ({
            let d = decimal_difference(whole, taken);
            &&& remainder_of(whole, taken) is Some <==> d is Some
            &&& d is Some && d->0.mantissa > 0 ==> remainder_of(whole, taken) == d
            &&& d is Some && d->0.mantissa <= 0 ==> remainder_of(whole, taken) == Some(
                Dec { mantissa: 0, scale: 0 },
            )
        }),
        decimal_of_text(text) is Ok ==> amount_of(text) == decimal_of_text(text)->Ok_0,
        decimal_of_text(text) is Err ==> amount_of(text) == (Dec { mantissa: 0, scale: 0 }),
{
}

/// The digits of a number are written from the left: the last one is the rest of the division by
/// ten, those before it are the digits of the quotient, and no zero leads.
pub proof fn law_digits_are_written_from_the_left(n: nat, d: nat)
    requires
        d < 10,
    ensures
        digits(n).len() > 0,
        digits(n).last() as int == '0' as int + n % 10,
        n >= 10 ==> digits(n).drop_last() == digits(n / 10),
        n < 10 ==> digits(n).len() == 1,
        n > 0 ==> digits(10 * n + d) == digits(n).push((48 + d) as char),
        n > 0 ==> digits(n)[0] != '0',
    decreases n,
{
    if n >= 10 {
        law_digits_are_written_from_the_left(n / 10, 0);
        assert(digits(n).drop_last() =~= digits(n / 10));
        assert(digits(n)[0] == digits(n / 10)[0]);
    }
    if n > 0 {
        assert((10 * n + d) / 10 == n && (10 * n + d) % 10 == d);
    }
}

/// Zeros in front fill a text up to a length and leave its end.
pub proof fn law_padding_fills_up(text: Seq<char>, width: nat)
    ensures
        ({
            let r = zero_padded(text, width);
            &&& text.len() >= width ==> r == text
            &&& text.len() < width ==> r.len() == width && r.skip(width - text.len()) == text && forall|
                i: int,
            |
                0 <= i < width - text.len() ==> #[trigger] r[i] == '0'
        }),
{
    if text.len() < width {
        assert(zero_padded(text, width).skip(width - text.len()) =~= text);
    }
}

/// The text of an amount has a point exactly where the amount has decimal places, with exactly that
/// many digits behind it and at least one in front; the digits are those of the mantissa, and a
/// minus sign stands in front of a negative amount.
pub proof fn law_text_shows_the_places(d: Dec)
    requires
        d.mantissa >= 0,
    ensures
        ({
            let text = decimal_text(d);
            let point = text.len() - d.scale - 1;
            let all = zero_padded(digits(d.mantissa as nat), (d.scale + 1) as nat);
            &&& d.scale == 0 ==> text == digits(d.mantissa as nat)
            &&& d.scale > 0 ==> point >= 1 && text[point] == '.' && text.take(point) + text.skip(
                point + 1,
            ) == all
            &&& 0 < d.mantissa <= i128::MAX ==> decimal_text(
                Dec { mantissa: (-d.mantissa) as i128, scale: d.scale },
            ) == seq!['-'] + text
        }),
{
    let text = decimal_text(d);
    let all = zero_padded(digits(d.mantissa as nat), (d.scale + 1) as nat);
    law_padding_fills_up(digits(d.mantissa as nat), (d.scale + 1) as nat);
    law_digits_are_written_from_the_left(d.mantissa as nat, 0);
    if d.scale == 0 {
        assert(text == all);
        assert(all.len() >= 1);
    } else {
        let point = all.len() - d.scale;
        assert(text.take(point) + text.skip(point + 1) =~= all);
    }
}

/// The wider of two numbers of places is one of them, and has room for both. An amount with more
/// places has a zero more in its mantissa for each.
pub proof fn law_alignment_adds_zeros(a: u32, b: u32, d: Dec, scale: u32)
    requires
        d.scale <= scale < u32::MAX,
    ensures
        wider(a, b) == a || wider(a, b) == b,
        wider(a, b) >= a && wider(a, b) >= b,
        d.aligned(d.scale) == d.mantissa,
        d.aligned((scale + 1) as u32) == 10 * d.aligned(scale),
        fits(d.mantissa as int) <==> -79228162514264337593543950335 <= d.mantissa
            <= 79228162514264337593543950335,
        d.wf() <==> fits(d.mantissa as int) && d.scale <= 28,
{
    assert(pow10(0) == 1);
    let p = pow10((scale - d.scale) as nat);
    assert(pow10((scale + 1 - d.scale) as nat) == 10 * p);
    let m = d.mantissa as int;
    assert(m * (10 * p) == 10 * (m * p)) by (nonlinear_arith);
    assert(m * 1 == m);
}

} // verus!
