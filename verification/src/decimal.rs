//! Fixed-point decimal amounts. A `Dec` is the value `mantissa / 10^scale`
//! with the limits of `rust_decimal::Decimal` (a 96-bit mantissa and a scale of
//! at most 28); arithmetic, ordering and formatting are `rust_decimal`'s.

use vstd::prelude::*;

use rust_decimal::Decimal;

verus! {

/// The largest mantissa magnitude a decimal can hold: 2^96 - 1.
pub const MAX_MANTISSA: i128 = 0xFFFF_FFFF_FFFF_FFFF_FFFF_FFFFi128;

/// The largest scale a decimal can have.
pub const MAX_SCALE: u32 = 28;

/// The decimal `mantissa / 10^scale`.
#[derive(Debug, Clone, Copy)]
pub struct Dec {
    pub mantissa: i128,
    pub scale: u32,
}

/// `10^n`.
pub open spec fn pow10(n: nat) -> int
    decreases n,
{
    if n == 0 {
        1
    } else {
        10 * pow10((n - 1) as nat)
    }
}

impl Dec {
    /// Within the limits of `rust_decimal::Decimal`.
    pub open spec fn wf(self) -> bool {
        self.scale <= MAX_SCALE && -MAX_MANTISSA <= self.mantissa <= MAX_MANTISSA
    }

    /// `Decimal::new(num, scale)`: the decimal `num / 10^scale`.
    pub fn new(num: i64, scale: u32) -> (r: Dec)
        requires
            scale <= MAX_SCALE,
        ensures
            r.mantissa == num,
            r.scale == scale,
            r.wf(),
    {
        Dec { mantissa: num as i128, scale }
    }

    /// `Decimal::ZERO`.
    pub fn zero() -> (r: Dec)
        ensures
            r.mantissa == 0,
            r.scale == 0,
            r.wf(),
    {
        Dec { mantissa: 0, scale: 0 }
    }

    /// `self == Decimal::ZERO`: a decimal is zero exactly when its mantissa is.
    pub fn is_zero(&self) -> (r: bool)
        ensures
            r == (self.mantissa == 0),
    {
        self.mantissa == 0
    }

    /// `Decimal::abs`: the same scale, the mantissa's magnitude.
    pub fn abs(&self) -> (r: Dec)
        requires
            self.wf(),
        ensures
            r.scale == self.scale,
            r.mantissa == (if self.mantissa < 0 {
                -self.mantissa
            } else {
                self.mantissa as int
            }),
            r.wf(),
    {
        if self.mantissa < 0 {
            Dec { mantissa: -self.mantissa, scale: self.scale }
        } else {
            *self
        }
    }
}

/// `a < b` as numbers: `a.m / 10^a.s < b.m / 10^b.s`.
pub open spec fn dec_lt_spec(a: Dec, b: Dec) -> bool {
    a.mantissa * pow10(b.scale as nat) < b.mantissa * pow10(a.scale as nat)
}

/// `a <= b` as numbers.
pub open spec fn dec_le_spec(a: Dec, b: Dec) -> bool {
    a.mantissa * pow10(b.scale as nat) <= b.mantissa * pow10(a.scale as nat)
}

/// `a` is a decimal within the limits whose number is the sum of those of `x`
/// and `y`.
pub open spec fn is_exact_sum(a: Dec, x: Dec, y: Dec) -> bool {
    a.mantissa * pow10(x.scale as nat) * pow10(y.scale as nat) == (x.mantissa * pow10(
        y.scale as nat,
    ) + y.mantissa * pow10(x.scale as nat)) * pow10(a.scale as nat)
}

/// `a` is a decimal whose number is `x - y`.
pub open spec fn is_exact_difference(a: Dec, x: Dec, y: Dec) -> bool {
    a.mantissa * pow10(x.scale as nat) * pow10(y.scale as nat) == (x.mantissa * pow10(
        y.scale as nat,
    ) - y.mantissa * pow10(x.scale as nat)) * pow10(a.scale as nat)
}

/// `q` denotes the quotient of the numbers of `x` and `y`:
/// `q.m / 10^q.s == (x.m / 10^x.s) / (y.m / 10^y.s)`.
pub open spec fn is_exact_quotient(q: Dec, x: Dec, y: Dec) -> bool {
    q.mantissa * y.mantissa * pow10(x.scale as nat) == x.mantissa * pow10(y.scale as nat) * pow10(
        q.scale as nat,
    )
}

/// The quotient of the numbers of `x` and `y` can be written exactly as a
/// decimal within the limits.
pub open spec fn quotient_representable(x: Dec, y: Dec) -> bool {
    exists|q: Dec| q.wf() && #[trigger] is_exact_quotient(q, x, y)
}

/// The larger of two scales.
pub open spec fn max_scale(x: Dec, y: Dec) -> nat {
    if x.scale >= y.scale {
        x.scale as nat
    } else {
        y.scale as nat
    }
}

/// `x` and `y`, and the sum or difference `n` of their numbers, written at the
/// larger of their scales, all have mantissas within the 96-bit limit.
pub open spec fn fits_aligned(x: Dec, y: Dec, n_at_scale: int) -> bool {
    let s = max_scale(x, y);
    &&& -MAX_MANTISSA <= x.mantissa * pow10((s - x.scale) as nat) <= MAX_MANTISSA
    &&& -MAX_MANTISSA <= y.mantissa * pow10((s - y.scale) as nat) <= MAX_MANTISSA
    &&& -MAX_MANTISSA <= n_at_scale <= MAX_MANTISSA
}

/// `x + y` at the larger of their scales.
pub open spec fn aligned_sum(x: Dec, y: Dec) -> int {
    let s = max_scale(x, y);
    x.mantissa * pow10((s - x.scale) as nat) + y.mantissa * pow10((s - y.scale) as nat)
}

/// `x - y` at the larger of their scales.
pub open spec fn aligned_difference(x: Dec, y: Dec) -> int {
    let s = max_scale(x, y);
    x.mantissa * pow10((s - x.scale) as nat) - y.mantissa * pow10((s - y.scale) as nat)
}

/// What `Decimal::checked_add` gives for two decimals, as mantissa and scale.
pub uninterp spec fn decimal_checked_add(
    x_mantissa: i128,
    x_scale: u32,
    y_mantissa: i128,
    y_scale: u32,
) -> Option<(i128, u32)>;

/// What `Decimal::checked_sub` gives for two decimals, as mantissa and scale.
pub uninterp spec fn decimal_checked_sub(
    x_mantissa: i128,
    x_scale: u32,
    y_mantissa: i128,
    y_scale: u32,
) -> Option<(i128, u32)>;

/// What `Decimal::checked_mul` gives for two decimals, as mantissa and scale.
pub uninterp spec fn decimal_checked_mul(
    x_mantissa: i128,
    x_scale: u32,
    y_mantissa: i128,
    y_scale: u32,
) -> Option<(i128, u32)>;

/// What `Decimal::checked_div` gives for two decimals, as mantissa and scale.
pub uninterp spec fn decimal_checked_div(
    x_mantissa: i128,
    x_scale: u32,
    y_mantissa: i128,
    y_scale: u32,
) -> Option<(i128, u32)>;

/// What `Decimal`'s `Display` writes for a decimal.
pub uninterp spec fn decimal_text(mantissa: i128, scale: u32) -> Seq<char>;

/// What `format!("{:.2}", d)` gives for a decimal: the number rounded to two
/// decimal places.
pub uninterp spec fn decimal_text_2dp(mantissa: i128, scale: u32) -> Seq<char>;

/// What `format!("{:.0}", d)` gives for a decimal: the number rounded to a
/// whole number.
pub uninterp spec fn decimal_text_0dp(mantissa: i128, scale: u32) -> Seq<char>;

/// The decimal an operation's named result stands for.
pub open spec fn as_dec(r: Option<(i128, u32)>) -> Option<Dec> {
    match r {
        Some((m, s)) => Some(Dec { mantissa: m, scale: s }),
        None => None,
    }
}

pub proof fn lemma_pow10_positive(n: nat)
    ensures
        pow10(n) > 0,
    decreases n,
{
    if n > 0 {
        lemma_pow10_positive((n - 1) as nat);
    }
}

/// `<=` between the numbers decimals denote is transitive.
pub proof fn lemma_dec_le_transitive(a: Dec, b: Dec, c: Dec)
    requires
        dec_le_spec(a, b),
        dec_le_spec(b, c),
    ensures
        dec_le_spec(a, c),
{
    let pa = pow10(a.scale as nat);
    let pb = pow10(b.scale as nat);
    let pc = pow10(c.scale as nat);
    lemma_pow10_positive(a.scale as nat);
    lemma_pow10_positive(b.scale as nat);
    lemma_pow10_positive(c.scale as nat);
    let am = a.mantissa as int;
    let bm = b.mantissa as int;
    let cm = c.mantissa as int;
    assert(am * pc <= cm * pa) by (nonlinear_arith)
        requires
            am * pb <= bm * pa,
            bm * pc <= cm * pb,
            pa > 0,
            pb > 0,
            pc > 0,
    {
        assert(am * pb * pc <= bm * pa * pc);
        assert(bm * pc * pa <= cm * pb * pa);
        assert(am * pc * pb <= cm * pa * pb);
    }
}

/// Any two decimals compare one way or the other.
pub proof fn lemma_dec_le_total(a: Dec, b: Dec)
    ensures
        dec_le_spec(a, b) || dec_le_spec(b, a),
        !dec_le_spec(a, b) ==> dec_lt_spec(b, a),
{
}

/// `Decimal` `<`: compares the numbers the decimals denote.
#[verifier::external_body]
pub fn dec_lt(a: &Dec, b: &Dec) -> (r: bool)
    requires
        a.wf(),
        b.wf(),
    ensures
        r == dec_lt_spec(*a, *b),
{
    Decimal::from_i128_with_scale(a.mantissa, a.scale) < Decimal::from_i128_with_scale(
        b.mantissa,
        b.scale,
    )
}

/// `Decimal` `<=`: compares the numbers the decimals denote.
#[verifier::external_body]
pub fn dec_le(a: &Dec, b: &Dec) -> (r: bool)
    requires
        a.wf(),
        b.wf(),
    ensures
        r == dec_le_spec(*a, *b),
{
    Decimal::from_i128_with_scale(a.mantissa, a.scale) <= Decimal::from_i128_with_scale(
        b.mantissa,
        b.scale,
    )
}

/// `Decimal::checked_add`. The result is named; where both operands and the
/// exact sum fit in 96 bits at the larger scale, it is that exact sum.
#[verifier::external_body]
pub fn dec_checked_add(a: &Dec, b: &Dec) -> (r: Option<Dec>)
    requires
        a.wf(),
        b.wf(),
    ensures
        r == as_dec(decimal_checked_add(a.mantissa, a.scale, b.mantissa, b.scale)),
        r matches Some(d) ==> d.wf(),
        fits_aligned(*a, *b, aligned_sum(*a, *b)) ==> r is Some && is_exact_sum(r->0, *a, *b),
{
    match Decimal::from_i128_with_scale(a.mantissa, a.scale).checked_add(
        Decimal::from_i128_with_scale(b.mantissa, b.scale),
    ) {
        Some(d) => Some(Dec { mantissa: d.mantissa(), scale: d.scale() }),
        None => None,
    }
}

/// `Decimal::checked_sub`. The result is named; where both operands and the
/// exact difference fit in 96 bits at the larger scale, it is that exact
/// difference.
#[verifier::external_body]
pub fn dec_checked_sub(a: &Dec, b: &Dec) -> (r: Option<Dec>)
    requires
        a.wf(),
        b.wf(),
    ensures
        r == as_dec(decimal_checked_sub(a.mantissa, a.scale, b.mantissa, b.scale)),
        r matches Some(d) ==> d.wf(),
        fits_aligned(*a, *b, aligned_difference(*a, *b)) ==> r is Some && is_exact_difference(
            r->0,
            *a,
            *b,
        ),
{
    match Decimal::from_i128_with_scale(a.mantissa, a.scale).checked_sub(
        Decimal::from_i128_with_scale(b.mantissa, b.scale),
    ) {
        Some(d) => Some(Dec { mantissa: d.mantissa(), scale: d.scale() }),
        None => None,
    }
}

/// `Decimal::checked_mul`. The result is named; where the scales add up to at
/// most 28 and the product of the mantissas fits in 96 bits, it denotes the
/// exact product.
#[verifier::external_body]
pub fn dec_checked_mul(a: &Dec, b: &Dec) -> (r: Option<Dec>)
    requires
        a.wf(),
        b.wf(),
    ensures
        r == as_dec(decimal_checked_mul(a.mantissa, a.scale, b.mantissa, b.scale)),
        r matches Some(d) ==> d.wf(),
        a.scale + b.scale <= MAX_SCALE && -MAX_MANTISSA <= a.mantissa * b.mantissa <= MAX_MANTISSA
            ==> r is Some && r->0.mantissa * pow10((a.scale + b.scale) as nat) == a.mantissa
            * b.mantissa * pow10(r->0.scale as nat),
{
    match Decimal::from_i128_with_scale(a.mantissa, a.scale).checked_mul(
        Decimal::from_i128_with_scale(b.mantissa, b.scale),
    ) {
        Some(d) => Some(Dec { mantissa: d.mantissa(), scale: d.scale() }),
        None => None,
    }
}

/// `Decimal::checked_div`. The result is named; dividing by zero gives `None`.
/// The long division scales the quotient up while it fits in 96 bits and a
/// scale of 28 and rounds only when a remainder is left at that point, so
/// where the exact quotient can be written within those limits it is what
/// comes back.
#[verifier::external_body]
pub fn dec_checked_div(a: &Dec, b: &Dec) -> (r: Option<Dec>)
    requires
        a.wf(),
        b.wf(),
    ensures
        r == as_dec(decimal_checked_div(a.mantissa, a.scale, b.mantissa, b.scale)),
        r matches Some(d) ==> d.wf(),
        b.mantissa == 0 ==> r is None,
        b.mantissa != 0 && quotient_representable(*a, *b) ==> r is Some && is_exact_quotient(
            r->0,
            *a,
            *b,
        ),
{
    match Decimal::from_i128_with_scale(a.mantissa, a.scale).checked_div(
        Decimal::from_i128_with_scale(b.mantissa, b.scale),
    ) {
        Some(d) => Some(Dec { mantissa: d.mantissa(), scale: d.scale() }),
        None => None,
    }
}

/// `Decimal::to_string`.
#[verifier::external_body]
pub fn dec_to_string(a: &Dec) -> (r: String)
    requires
        a.wf(),
    ensures
        r@ == decimal_text(a.mantissa, a.scale),
{
    Decimal::from_i128_with_scale(a.mantissa, a.scale).to_string()
}

/// `format!("{:.2}", d)`: the decimal written with two decimal places.
#[verifier::external_body]
pub fn dec_to_string_2dp(a: &Dec) -> (r: String)
    requires
        a.wf(),
    ensures
        r@ == decimal_text_2dp(a.mantissa, a.scale),
{
    format!("{:.2}", Decimal::from_i128_with_scale(a.mantissa, a.scale))
}

/// `format!("{:.0}", d)`: the decimal written without decimal places.
#[verifier::external_body]
pub fn dec_to_string_0dp(a: &Dec) -> (r: String)
    requires
        a.wf(),
    ensures
        r@ == decimal_text_0dp(a.mantissa, a.scale),
{
    format!("{:.0}", Decimal::from_i128_with_scale(a.mantissa, a.scale))
}

/// The smaller of two decimals, as `Ord::min` picks it: the first argument
/// when the two compare equal.
pub fn dec_min(a: Dec, b: Dec) -> (r: Dec)
    requires
        a.wf(),
        b.wf(),
    ensures
        r == (if dec_le_spec(a, b) {
            a
        } else {
            b
        }),
{
    if dec_le(&a, &b) {
        a
    } else {
        b
    }
}

/// The larger of two decimals, as `Ord::max` picks it: the second argument
/// when the two compare equal.
pub fn dec_max(a: Dec, b: Dec) -> (r: Dec)
    requires
        a.wf(),
        b.wf(),
    ensures
        r == (if dec_le_spec(a, b) {
            b
        } else {
            a
        }),
{
    if dec_le(&a, &b) {
        b
    } else {
        a
    }
}

} // verus!
