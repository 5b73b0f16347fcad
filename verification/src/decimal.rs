//! Fixed-point decimal numbers as the strategy reads them.
//!
//! A [`Dec`] holds exactly what a `rust_decimal::Decimal` is made of: a mantissa below
//! 2^96 in magnitude, a scale of at most 28 decimal places and the sign flag. Its value is
//! `mantissa / 10^scale`. Arithmetic that rounds is carried out by `rust_decimal` itself.
use vstd::prelude::*;

verus! {

/// 2^96: every mantissa of a decimal is strictly smaller in magnitude.
pub const MANTISSA_LIMIT: i128 = 79228162514264337593543950336i128;

/// The largest number of decimal places a decimal may carry.
pub const MAX_SCALE: u32 = 28u32;

/// 2^95: sums and products whose magnitude stays below this never overflow.
pub open spec fn safe_magnitude() -> int {
    39614081257132168796771975168
}

pub open spec fn pow10(n: nat) -> int
    decreases n,
{
    if n == 0 {
        1
    } else {
        10 * pow10((n - 1) as nat)
    }
}

pub open spec fn abs(x: int) -> int {
    if x < 0 {
        -x
    } else {
        x
    }
}

pub proof fn lemma_pow10_positive(n: nat)
    ensures
        pow10(n) >= 1,
    decreases n,
{
    if n > 0 {
        lemma_pow10_positive((n - 1) as nat);
    }
}

pub proof fn lemma_pow10_add(a: nat, b: nat)
    ensures
        pow10(a + b) == pow10(a) * pow10(b),
    decreases b,
{
    if b > 0 {
        lemma_pow10_add(a, (b - 1) as nat);
        assert(pow10(a + b) == 10 * pow10((a + b - 1) as nat));
        assert(pow10(a) * pow10(b) == pow10(a) * (10 * pow10((b - 1) as nat)));
        assert(pow10(a) * (10 * pow10((b - 1) as nat)) == 10 * (pow10(a) * pow10(
            (b - 1) as nat,
        ))) by (nonlinear_arith);
    }
}

pub proof fn lemma_pow10_small()
    ensures
        pow10(0) == 1,
        pow10(1) == 10,
        pow10(2) == 100,
        pow10(3) == 1000,
        pow10(4) == 10000,
{
    reveal_with_fuel(pow10, 5);
}

/// `den` is large enough that a numerator of magnitude at most `k` divided by it stays
/// clear of overflow.
pub open spec fn fits_ratio(k: int, den: Dec) -> bool {
    k * pow10(den.s()) <= (safe_magnitude() - 1) * abs(den.m())
}

/// The integer `k` as a decimal of scale zero, as `Decimal::from`.
pub open spec fn int_dec(k: int) -> Dec {
    Dec { mantissa: k as i128, scale: 0, negative: k < 0 }
}

/// `m / 10^s` as a decimal, as `Decimal::new(m, s)`.
pub open spec fn lit_dec(m: int, s: nat) -> Dec {
    Dec { mantissa: m as i128, scale: s as u32, negative: m < 0 }
}

pub proof fn lemma_abs_le_mag(a: Dec)
    ensures
        abs(a.m()) <= a.mag() * pow10(a.s()),
        a.mag() >= 0,
{
    let p = pow10(a.s());
    lemma_pow10_positive(a.s());
    let x = abs(a.m()) + p - 1;
    vstd::arithmetic::div_mod::lemma_fundamental_div_mod(x, p);
    vstd::arithmetic::div_mod::lemma_mod_bound(x, p);
    vstd::arithmetic::div_mod::lemma_div_pos_is_pos(x, p);
    assert(a.mag() == x / p);
    assert(x == p * (x / p) + x % p);
    assert(p * (x / p) == (x / p) * p) by (nonlinear_arith);
}

pub proof fn lemma_quotient_bound(a: Dec, b: Dec, k: int)
    requires
        a.mag() <= k,
        b.mantissa != 0,
        fits_ratio(k, b),
    ensures
        Dec::quotient_bound(a, b) <= safe_magnitude(),
{
    lemma_quotient_bound_by(a, b, k, safe_magnitude() - 1);
}

pub proof fn lemma_quotient_bound_by(a: Dec, b: Dec, k: int, c: int)
    requires
        a.mag() <= k,
        b.mantissa != 0,
        c >= 1,
        k * pow10(b.s()) <= c * abs(b.m()),
    ensures
        Dec::quotient_bound(a, b) <= c + 1,
{
    lemma_abs_le_mag(a);
    lemma_pow10_positive(a.s());
    lemma_pow10_positive(b.s());
    let pa = pow10(a.s());
    let pb = pow10(b.s());
    let n = abs(a.m()) * pb;
    let d = abs(b.m()) * pa;
    assert(d >= 1) by (nonlinear_arith)
        requires
            abs(b.m()) >= 1,
            pa >= 1,
            d == abs(b.m()) * pa,
    ;
    assert(n <= c * d) by (nonlinear_arith)
        requires
            abs(a.m()) <= a.mag() * pa,
            a.mag() <= k,
            k * pb <= c * abs(b.m()),
            pa >= 1,
            pb >= 1,
            abs(a.m()) >= 0,
            n == abs(a.m()) * pb,
            d == abs(b.m()) * pa,
    ;
    vstd::arithmetic::div_mod::lemma_div_is_ordered(n, c * d, d);
    vstd::arithmetic::div_mod::lemma_div_multiples_vanish(c, d);
    assert((c * d) / d == c) by {
        assert(c * d == d * c) by (nonlinear_arith);
    }
}

/// Comparing by value is transitive.
pub proof fn lemma_le_trans(a: Dec, b: Dec, c: Dec)
    requires
        a.le(b),
        b.le(c),
    ensures
        a.le(c),
{
    lemma_pow10_positive(a.s());
    lemma_pow10_positive(b.s());
    lemma_pow10_positive(c.s());
    let pa = pow10(a.s());
    let pb = pow10(b.s());
    let pc = pow10(c.s());
    assert(a.m() * pc <= c.m() * pa) by (nonlinear_arith)
        requires
            a.m() * pb <= b.m() * pa,
            b.m() * pc <= c.m() * pb,
            pa >= 1,
            pb >= 1,
            pc >= 1,
    ;
}

/// `a < b` and `b <= c` give `a < c`.
pub proof fn lemma_lt_le_trans(a: Dec, b: Dec, c: Dec)
    requires
        a.lt(b),
        b.le(c),
    ensures
        a.lt(c),
{
    lemma_pow10_positive(a.s());
    lemma_pow10_positive(b.s());
    lemma_pow10_positive(c.s());
    let pa = pow10(a.s());
    let pb = pow10(b.s());
    let pc = pow10(c.s());
    assert(a.m() * pc < c.m() * pa) by (nonlinear_arith)
        requires
            a.m() * pb < b.m() * pa,
            b.m() * pc <= c.m() * pb,
            pa >= 1,
            pb >= 1,
            pc >= 1,
    ;
}

/// Values are totally ordered: one of two decimals is at most the other.
pub proof fn lemma_le_total(a: Dec, b: Dec)
    ensures
        a.le(b) || b.le(a),
        !a.lt(b) <==> b.le(a),
{
}

/// A decimal number: `mantissa / 10^scale`, with the sign flag of `rust_decimal`.
#[derive(Clone, Copy, Debug)]
pub struct Dec {
    pub mantissa: i128,
    pub scale: u32,
    pub negative: bool,
}

impl View for Dec {
    type V = (int, nat, bool);

    open spec fn view(&self) -> (int, nat, bool) {
        (self.mantissa as int, self.scale as nat, self.negative)
    }
}

/// The decimal that a view stands for.
pub open spec fn dec_of(v: (int, nat, bool)) -> Dec {
    Dec { mantissa: v.0 as i128, scale: v.1 as u32, negative: v.2 }
}

/// What `rust_decimal` returns for `a + b`, on the parts of both operands.
pub uninterp spec fn rust_decimal_add(a: (int, nat, bool), b: (int, nat, bool)) -> (int, nat, bool);

/// What `rust_decimal` returns for `a - b`, on the parts of both operands.
pub uninterp spec fn rust_decimal_sub(a: (int, nat, bool), b: (int, nat, bool)) -> (int, nat, bool);

/// What `rust_decimal` returns for `a * b`, on the parts of both operands.
pub uninterp spec fn rust_decimal_mul(a: (int, nat, bool), b: (int, nat, bool)) -> (int, nat, bool);

/// What `rust_decimal` returns for `a / b`, on the parts of both operands.
pub uninterp spec fn rust_decimal_div(a: (int, nat, bool), b: (int, nat, bool)) -> (int, nat, bool);

/// What `rust_decimal` parses from a text: the parts of the decimal, or nothing where the
/// text is refused.
pub uninterp spec fn rust_decimal_parse(text: Seq<char>) -> Option<(int, nat, bool)>;

/// `d` with the sign of a zero dropped, as `rust_decimal` builds a parsed value.
pub open spec fn without_negative_zero(d: Dec) -> Dec {
    Dec { mantissa: d.mantissa, scale: d.scale, negative: d.negative && d.mantissa != 0 }
}

/// Rounds `n / d` to the nearest integer, ties to the even neighbour.
pub open spec fn round_half_even(n: nat, d: nat) -> nat
    recommends
        d > 0,
{
    let q = n / d;
    let r = n % d;
    if 2 * r > d {
        q + 1
    } else if 2 * r == d && q % 2 == 1 {
        q + 1
    } else {
        q
    }
}

/// The decimal digits of `n`, most significant first; empty for zero.
pub open spec fn digits(n: nat) -> Seq<char>
    decreases n,
{
    if n == 0 {
        Seq::empty()
    } else {
        digits(n / 10).push(digit_char((n % 10) as nat))
    }
}

pub open spec fn digit_char(d: nat) -> char {
    if d == 0 {
        '0'
    } else if d == 1 {
        '1'
    } else if d == 2 {
        '2'
    } else if d == 3 {
        '3'
    } else if d == 4 {
        '4'
    } else if d == 5 {
        '5'
    } else if d == 6 {
        '6'
    } else if d == 7 {
        '7'
    } else if d == 8 {
        '8'
    } else {
        '9'
    }
}

/// `s` preceded by as many `'0'` as it takes to reach length `len`.
pub open spec fn zero_pad(s: Seq<char>, len: nat) -> Seq<char> {
    if s.len() >= len {
        s
    } else {
        Seq::new((len - s.len()) as nat, |i: int| '0') + s
    }
}

/// The text `rust_decimal` prints for a decimal: all `scale` fractional digits, a
/// leading `0` before the point when the whole part is empty, and `-` when the sign
/// flag is set.
pub open spec fn decimal_text(d: Dec) -> Seq<char> {
    let ds = zero_pad(digits(abs(d.mantissa as int) as nat), d.scale as nat);
    let whole = ds.take(ds.len() - d.scale);
    let frac = ds.skip(ds.len() - d.scale);
    let body = if d.scale == 0 {
        if ds.len() == 0 {
            seq!['0']
        } else {
            ds
        }
    } else {
        (if whole.len() == 0 {
            seq!['0']
        } else {
            whole
        }) + seq!['.'] + frac
    };
    if d.negative {
        seq!['-'] + body
    } else {
        body
    }
}

impl Dec {
    /// The invariant of every decimal.
    pub open spec fn wf(self) -> bool {
        &&& -MANTISSA_LIMIT < self.mantissa < MANTISSA_LIMIT
        &&& self.scale <= MAX_SCALE
        &&& self.mantissa < 0 ==> self.negative
        &&& self.mantissa > 0 ==> !self.negative
    }

    pub open spec fn m(self) -> int {
        self.mantissa as int
    }

    pub open spec fn s(self) -> nat {
        self.scale as nat
    }

    /// `self < other` by value.
    pub open spec fn lt(self, other: Dec) -> bool {
        self.m() * pow10(other.s()) < other.m() * pow10(self.s())
    }

    /// `self <= other` by value.
    pub open spec fn le(self, other: Dec) -> bool {
        self.m() * pow10(other.s()) <= other.m() * pow10(self.s())
    }

    /// The value is the integer `k`.
    pub open spec fn is_int(self, k: int) -> bool {
        self.m() == k * pow10(self.s())
    }

    /// The magnitude of the value, rounded up to an integer.
    pub open spec fn mag(self) -> int {
        (abs(self.m()) + pow10(self.s()) - 1) / pow10(self.s())
    }

    /// The value is `(a + b)`, or `(a - b)` when `minus`.
    pub open spec fn is_sum_of(self, a: Dec, b: Dec, minus: bool) -> bool {
        let rhs = if minus {
            a.m() * pow10(b.s()) - b.m() * pow10(a.s())
        } else {
            a.m() * pow10(b.s()) + b.m() * pow10(a.s())
        };
        self.m() * pow10(a.s()) * pow10(b.s()) == rhs * pow10(self.s())
    }

    /// The larger of both scales.
    pub open spec fn larger_scale(a: Dec, b: Dec) -> nat {
        if a.scale >= b.scale {
            a.s()
        } else {
            b.s()
        }
    }

    /// The mantissa of the exact sum (or difference) at the larger of both scales.
    pub open spec fn aligned_sum(a: Dec, b: Dec, minus: bool) -> int {
        let s = Dec::larger_scale(a, b);
        let am = a.m() * pow10((s - a.s()) as nat);
        let bm = b.m() * pow10((s - b.s()) as nat);
        if minus {
            am - bm
        } else {
            am + bm
        }
    }

    /// The result of `rust_decimal`'s `round_dp(dp)`: banker's rounding to `dp` places.
    pub open spec fn rounded(self, dp: nat) -> Dec {
        if self.s() <= dp {
            self
        } else if self.mantissa == 0 {
            Dec { mantissa: 0, scale: dp as u32, negative: self.negative }
        } else {
            let q = round_half_even(abs(self.m()) as nat, pow10((self.s() - dp) as nat) as nat) as int;
            let m = if self.mantissa < 0 {
                -q
            } else {
                q
            };
            Dec { mantissa: m as i128, scale: dp as u32, negative: m < 0 }
        }
    }

    /// Zero, as `Decimal::ZERO`.
    pub fn zero() -> (r: Dec)
        ensures
            r.wf(),
            r == (Dec { mantissa: 0, scale: 0, negative: false }),
    {
        Dec { mantissa: 0, scale: 0, negative: false }
    }

    /// An integer as a decimal, as `Decimal::from(i64)`.
    pub fn from_int(n: i64) -> (r: Dec)
        ensures
            r.wf(),
            r == (Dec { mantissa: n as i128, scale: 0, negative: n < 0 }),
            r.is_int(n as int),
    {
        assert(n < MANTISSA_LIMIT);
        Dec { mantissa: n as i128, scale: 0, negative: n < 0 }
    }

    /// `num / 10^scale`, as `Decimal::new`, which panics for a scale above 28.
    pub fn new(num: i64, scale: u32) -> (r: Dec)
        requires
            scale <= MAX_SCALE,
        ensures
            r.wf(),
            r == (Dec { mantissa: num as i128, scale, negative: num < 0 }),
    {
        Dec { mantissa: num as i128, scale, negative: num < 0 }
    }

    /// A decimal from its parts, refused where the parts are no decimal.
    pub fn from_parts(mantissa: i128, scale: u32, negative: bool) -> (r: Option<Dec>)
        ensures
            r is Some <==> (Dec { mantissa, scale, negative }).wf(),
            r is Some ==> r->0 == (Dec { mantissa, scale, negative }),
    {
        if -MANTISSA_LIMIT < mantissa && mantissa < MANTISSA_LIMIT && scale <= MAX_SCALE && (
        mantissa >= 0 || negative) && (mantissa <= 0 || !negative) {
            Some(Dec { mantissa, scale, negative })
        } else {
            None
        }
    }

    /// Whether the parts form a decimal.
    pub fn is_wf(&self) -> (r: bool)
        ensures
            r == self.wf(),
    {
        -MANTISSA_LIMIT < self.mantissa && self.mantissa < MANTISSA_LIMIT && self.scale <= MAX_SCALE
            && (self.mantissa >= 0 || self.negative) && (self.mantissa <= 0 || !self.negative)
    }

    pub fn is_zero(&self) -> (r: bool)
        ensures
            r == (self.mantissa == 0),
    {
        self.mantissa == 0
    }

    /// `self + other`, computed by `rust_decimal`.
    ///
    /// Trusted: `<rust_decimal::Decimal as Add>::add`. Claimed: the result is a decimal;
    /// it is exact whenever the exact sum fits at the larger scale, and it then has that
    /// scale when both scales agree or neither operand is zero; otherwise it is rounded, by
    /// less than one. A zero operand gives the other operand back as it is (the left one
    /// when both are zero is not claimed).
    #[verifier::external_body]
    pub(crate) fn add(&self, other: &Dec) -> (r: Dec)
        requires
            self.wf(),
            other.wf(),
            self.mag() + other.mag() <= safe_magnitude(),
        ensures
            r@ == rust_decimal_add(self@, other@),
            r.wf(),
            r.mag() <= self.mag() + other.mag() + 1,
            abs(Dec::aligned_sum(*self, *other, false)) < MANTISSA_LIMIT ==> r.is_sum_of(
                *self,
                *other,
                false,
            ),
            self.scale == other.scale && abs(self.m() + other.m()) < MANTISSA_LIMIT ==> r.m()
                == self.m() + other.m() && r.scale == self.scale,
            self.mantissa != 0 && other.mantissa != 0 && abs(Dec::aligned_sum(*self, *other, false))
                < MANTISSA_LIMIT ==> r.m() == Dec::aligned_sum(*self, *other, false) && r.s()
                == Dec::larger_scale(*self, *other),
            self.mantissa == 0 ==> r == *other,
            self.mantissa != 0 && other.mantissa == 0 ==> r == *self,
    {
        let mut a = rust_decimal::Decimal::from_i128_with_scale(self.mantissa, self.scale);
        a.set_sign_negative(self.negative);
        let mut b = rust_decimal::Decimal::from_i128_with_scale(other.mantissa, other.scale);
        b.set_sign_negative(other.negative);
        let r = a + b;
        Dec { mantissa: r.mantissa(), scale: r.scale(), negative: r.is_sign_negative() }
    }

    /// `self - other`, computed by `rust_decimal`.
    ///
    /// Trusted: `<rust_decimal::Decimal as Sub>::sub`. Claimed as for [`Dec::add`], less what a
    /// zero operand gives.
    #[verifier::external_body]
    pub(crate) fn sub(&self, other: &Dec) -> (r: Dec)
        requires
            self.wf(),
            other.wf(),
            self.mag() + other.mag() <= safe_magnitude(),
        ensures
            r@ == rust_decimal_sub(self@, other@),
            r.wf(),
            r.mag() <= self.mag() + other.mag() + 1,
            abs(Dec::aligned_sum(*self, *other, true)) < MANTISSA_LIMIT ==> r.is_sum_of(
                *self,
                *other,
                true,
            ),
            self.scale == other.scale && abs(self.m() - other.m()) < MANTISSA_LIMIT ==> r.m()
                == self.m() - other.m() && r.scale == self.scale,
            self.mantissa != 0 && other.mantissa != 0 && abs(Dec::aligned_sum(*self, *other, true))
                < MANTISSA_LIMIT ==> r.m() == Dec::aligned_sum(*self, *other, true) && r.s()
                == Dec::larger_scale(*self, *other),
    {
        let mut a = rust_decimal::Decimal::from_i128_with_scale(self.mantissa, self.scale);
        a.set_sign_negative(self.negative);
        let mut b = rust_decimal::Decimal::from_i128_with_scale(other.mantissa, other.scale);
        b.set_sign_negative(other.negative);
        let r = a - b;
        Dec { mantissa: r.mantissa(), scale: r.scale(), negative: r.is_sign_negative() }
    }

    /// `self * other`, computed by `rust_decimal`.
    ///
    /// Trusted: `<rust_decimal::Decimal as Mul>::mul`. Claimed: the result is a decimal; a
    /// zero operand gives plain zero; when neither operand is zero, the product of the
    /// mantissas fits and the scales add up to at most 28, the product is exact at that
    /// scale; otherwise it is rounded, by less than one.
    #[verifier::external_body]
    pub(crate) fn mul(&self, other: &Dec) -> (r: Dec)
        requires
            self.wf(),
            other.wf(),
            self.mag() * other.mag() <= safe_magnitude(),
        ensures
            r@ == rust_decimal_mul(self@, other@),
            r.wf(),
            r.mag() <= self.mag() * other.mag() + 1,
            (self.mantissa == 0 || other.mantissa == 0) ==> r == (Dec {
                mantissa: 0,
                scale: 0,
                negative: false,
            }),
            (self.mantissa != 0 && other.mantissa != 0 && self.scale + other.scale <= MAX_SCALE
                && abs(self.m() * other.m()) < MANTISSA_LIMIT) ==> r.m() == self.m() * other.m()
                && r.scale == self.scale + other.scale,
    {
        let mut a = rust_decimal::Decimal::from_i128_with_scale(self.mantissa, self.scale);
        a.set_sign_negative(self.negative);
        let mut b = rust_decimal::Decimal::from_i128_with_scale(other.mantissa, other.scale);
        b.set_sign_negative(other.negative);
        let r = a * b;
        Dec { mantissa: r.mantissa(), scale: r.scale(), negative: r.is_sign_negative() }
    }

    /// `self / other`, computed by `rust_decimal` (up to 28 places, rounded).
    ///
    /// Trusted: `<rust_decimal::Decimal as Div>::div`. Claimed: the result is a decimal
    /// whose magnitude exceeds the integer part of the exact quotient by at most two; a zero
    /// dividend gives plain zero; where the divisor's mantissa divides the dividend's and the
    /// dividend has at least the divisor's scale, the result is that quotient of mantissas at
    /// the difference of the scales. Other quotients are only named.
    #[verifier::external_body]
    pub(crate) fn div(&self, other: &Dec) -> (r: Dec)
        requires
            self.wf(),
            other.wf(),
            other.mantissa != 0,
            Dec::quotient_bound(*self, *other) <= safe_magnitude(),
        ensures
            r@ == rust_decimal_div(self@, other@),
            r.wf(),
            r.mag() <= Dec::quotient_bound(*self, *other) + 1,
            self.mantissa == 0 ==> r == (Dec { mantissa: 0, scale: 0, negative: false }),
            self.mantissa != 0 && self.scale >= other.scale && self.m() % other.m() == 0 ==> r.m()
                == self.m() / other.m() && r.scale == self.scale - other.scale,
    {
        let mut a = rust_decimal::Decimal::from_i128_with_scale(self.mantissa, self.scale);
        a.set_sign_negative(self.negative);
        let mut b = rust_decimal::Decimal::from_i128_with_scale(other.mantissa, other.scale);
        b.set_sign_negative(other.negative);
        let r = a / b;
        Dec { mantissa: r.mantissa(), scale: r.scale(), negative: r.is_sign_negative() }
    }

    /// The integer part of `|a / b|`, plus one.
    pub open spec fn quotient_bound(a: Dec, b: Dec) -> int {
        (abs(a.m()) * pow10(b.s())) / (abs(b.m()) * pow10(a.s())) + 1
    }

    /// `self < other`, compared by `rust_decimal`.
    ///
    /// Trusted: `<rust_decimal::Decimal as PartialOrd>::lt`. Claimed: decimals compare by value.
    #[verifier::external_body]
    pub(crate) fn less(&self, other: &Dec) -> (r: bool)
        requires
            self.wf(),
            other.wf(),
        ensures
            r == self.lt(*other),
    {
        let mut a = rust_decimal::Decimal::from_i128_with_scale(self.mantissa, self.scale);
        a.set_sign_negative(self.negative);
        let mut b = rust_decimal::Decimal::from_i128_with_scale(other.mantissa, other.scale);
        b.set_sign_negative(other.negative);
        a < b
    }

    /// `self.round_dp(dp)` of `rust_decimal`.
    ///
    /// Trusted: `rust_decimal::Decimal::round_dp`. Claimed: a decimal with at most `dp`
    /// places is returned as it is; otherwise the mantissa is rounded half to even to `dp`
    /// places and a zero result carries no sign.
    #[verifier::external_body]
    pub(crate) fn round_dp(&self, dp: u32) -> (r: Dec)
        requires
            self.wf(),
        ensures
            r == self.rounded(dp as nat),
            r.wf(),
    {
        let mut a = rust_decimal::Decimal::from_i128_with_scale(self.mantissa, self.scale);
        a.set_sign_negative(self.negative);
        let r = a.round_dp(dp);
        Dec { mantissa: r.mantissa(), scale: r.scale(), negative: r.is_sign_negative() }
    }

    /// The text of the decimal, as `rust_decimal` displays it.
    ///
    /// Trusted: `<rust_decimal::Decimal as Display>::fmt` through `format!`. Claimed: the
    /// digits of the mantissa with the point `scale` places from the right; and
    /// `Decimal::from_str` reads that text back as the same decimal, but for the sign of a
    /// zero, which it drops.
    #[verifier::external_body]
    pub(crate) fn to_text(&self) -> (r: String)
        requires
            self.wf(),
        ensures
            r@ == decimal_text(*self),
            rust_decimal_parse(r@) == Some(without_negative_zero(*self)@),
    {
        let mut a = rust_decimal::Decimal::from_i128_with_scale(self.mantissa, self.scale);
        a.set_sign_negative(self.negative);
        format!("{}", a)
    }

    /// Parses a decimal as `rust_decimal` does, scientific notation included.
    ///
    /// Trusted: `<rust_decimal::Decimal as FromStr>::from_str`. Claimed: the outcome is a
    /// function of the text, named `rust_decimal_parse`, and a parsed value is a decimal.
    /// Which texts are accepted and how long fractions are rounded is left to that name.
    #[verifier::external_body]
    pub(crate) fn parse(text: &str) -> (r: Option<Dec>)
        ensures
            r is Some <==> rust_decimal_parse(text@) is Some,
            r is Some ==> rust_decimal_parse(text@) == Some(r->0@),
            r is Some ==> r->0.wf(),
    {
        match <rust_decimal::Decimal as core::str::FromStr>::from_str(text) {
            Ok(a) => Some(Dec { mantissa: a.mantissa(), scale: a.scale(), negative: a.is_sign_negative() }),
            Err(_) => None,
        }
    }

}

} // verus!
