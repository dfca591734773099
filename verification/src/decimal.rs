//! Decimal numbers of any size (the `BigDecimal` of the `bigdecimal` crate,
//! held as plain values) and their safe rounding.
use vstd::prelude::*;
use bigdecimal::BigDecimal;
use num_bigint::{BigInt, BigUint, Sign};
use num_traits::ToPrimitive;
use crate::natural::{
    bytes_be_value, digits_value, is_canonical, lemma_div_pow10_step, natural_at_most,
    natural_from_bytes_be, natural_from_u128, natural_div_ten,
    natural_rem_ten, pow10, Natural, lemma_pow10_positive,
};

verus! {

/// A `u128` as a decimal of scale zero (`BigDecimal::new(BigInt::from(i), 0)`).
pub fn u128_to_bigdecimal(i: u128) -> (r: Decimal)
    ensures
        r.canonical(),
        r@ == (i as int, 0int),
{
    Decimal { negative: false, magnitude: natural_from_u128(i), scale: 0 }
}

/// A 256-bit unsigned number, given by its big-endian bytes, as a decimal of
/// scale zero.
pub fn u256_to_bigdecimal(bytes: &[u8]) -> (r: Decimal)
    ensures
        r.canonical(),
        r@ == (bytes_be_value(bytes@) as int, 0int),
{
    Decimal { negative: false, magnitude: natural_from_bytes_be(bytes), scale: 0 }
}

/// `mantissa * 10^(-scale)`, with the mantissa held as a sign and a magnitude.
pub struct Decimal {
    pub negative: bool,
    pub magnitude: Natural,
    pub scale: i64,
}

/// The smallest `i128`.
pub open spec fn i128_min() -> int {
    -0x8000_0000_0000_0000_0000_0000_0000_0000
}

/// The largest `i128`.
pub open spec fn i128_max() -> int {
    0x7fff_ffff_ffff_ffff_ffff_ffff_ffff_ffff
}

impl View for Decimal {
    type V = (int, int);

    /// `(mantissa, scale)`.
    open spec fn view(&self) -> (int, int) {
        (self.mantissa(), self.scale as int)
    }
}

impl Decimal {
    /// Zero with scale zero (`BigDecimal::default`).
    pub fn zero() -> (r: Decimal)
        ensures
            r.canonical(),
            r@ == (0int, 0int),
    {
        let mut digits: Vec<u8> = Vec::new();
        digits.push(0u8);
        proof {
            assert(digits@.drop_last() =~= Seq::<u8>::empty());
            assert(digits_value(digits@.drop_last()) == 0);
        }
        Decimal { negative: false, magnitude: Natural { digits }, scale: 0 }
    }

    pub open spec fn wf(&self) -> bool {
        self.magnitude.wf()
    }

    /// The signed integer whose digits the decimal holds.
    pub open spec fn mantissa(&self) -> int {
        if self.negative {
            -(self.magnitude@ as int)
        } else {
            self.magnitude@ as int
        }
    }

    /// The form in which `bigdecimal` hands a value back: canonical digits,
    /// and no sign on zero.
    pub open spec fn canonical(&self) -> bool {
        &&& self.wf()
        &&& is_canonical(self.magnitude.digits@)
        &&& (self.magnitude@ == 0 ==> !self.negative)
    }

    /// An exact copy.
    pub fn copy(&self) -> (r: Decimal)
        ensures
            r.negative == self.negative,
            r.magnitude.digits@ == self.magnitude.digits@,
            r.scale == self.scale,
    {
        Decimal { negative: self.negative, magnitude: self.magnitude.copy(), scale: self.scale }
    }
}

/// The mantissa of a value of mantissa `m` and scale `e` when it is
/// rewritten with scale `r` (`BigDecimal::with_scale`): multiplied by a power
/// of ten, or divided by one with the quotient rounded toward zero.
pub open spec fn rescaled_mantissa(m: int, e: int, r: int) -> int {
    if r >= e {
        m * pow10((r - e) as nat)
    } else if m >= 0 {
        m / (pow10((e - r) as nat) as int)
    } else {
        -((-m) / (pow10((e - r) as nat) as int))
    }
}

/// `BigDecimal::with_scale`: the same value written with `new_scale` digits
/// after the point; digits that do not fit are dropped (toward zero). It
/// computes `10` to the power of the change of scale, so the change is held
/// to what a machine can hold the digits of.
#[verifier::external_body]
pub(crate) fn decimal_with_scale(d: &Decimal, new_scale: i64) -> (r: Decimal)
    requires
        d.wf(),
        scale_change_fits(d.scale as int, new_scale as int),
    ensures
        r.canonical(),
        r.scale == new_scale,
        r.mantissa() == rescaled_mantissa(d.mantissa(), d.scale as int, new_scale as int),
{
    let sign = if d.negative { Sign::Minus } else { Sign::Plus };
    let int_val = BigInt::from_biguint(sign, BigUint::from_radix_be(&d.magnitude.digits, 10).unwrap());
    let (int_val, scale) = BigDecimal::new(int_val, d.scale).with_scale(new_scale).as_bigint_and_exponent();
    let (sign, magnitude) = int_val.into_parts();
    Decimal { negative: sign == Sign::Minus, magnitude: Natural { digits: magnitude.to_radix_be(10) }, scale }
}

/// A change of scale whose power of ten a machine can compute: at most
/// `u32::MAX` digits either way.
pub open spec fn scale_change_fits(from: int, to: int) -> bool {
    -(u32::MAX as int) <= to - from <= u32::MAX as int
}

/// `BigDecimal + BigDecimal` on two values of the same scale: the mantissas add.
#[verifier::external_body]
pub(crate) fn decimal_add(a: &Decimal, b: &Decimal) -> (r: Decimal)
    requires
        a.wf(),
        b.wf(),
        a.scale == b.scale,
    ensures
        r.canonical(),
        r.scale == a.scale,
        r.mantissa() == a.mantissa() + b.mantissa(),
{
    let sa = if a.negative { Sign::Minus } else { Sign::Plus };
    let sb = if b.negative { Sign::Minus } else { Sign::Plus };
    let x = BigDecimal::new(BigInt::from_biguint(sa, BigUint::from_radix_be(&a.magnitude.digits, 10).unwrap()), a.scale);
    let y = BigDecimal::new(BigInt::from_biguint(sb, BigUint::from_radix_be(&b.magnitude.digits, 10).unwrap()), b.scale);
    let (int_val, scale) = (x + y).as_bigint_and_exponent();
    let (sign, magnitude) = int_val.into_parts();
    Decimal { negative: sign == Sign::Minus, magnitude: Natural { digits: magnitude.to_radix_be(10) }, scale }
}

/// `BigDecimal - BigDecimal` on two values of the same scale: the mantissas subtract.
#[verifier::external_body]
pub(crate) fn decimal_sub(a: &Decimal, b: &Decimal) -> (r: Decimal)
    requires
        a.wf(),
        b.wf(),
        a.scale == b.scale,
    ensures
        r.canonical(),
        r.scale == a.scale,
        r.mantissa() == a.mantissa() - b.mantissa(),
{
    let sa = if a.negative { Sign::Minus } else { Sign::Plus };
    let sb = if b.negative { Sign::Minus } else { Sign::Plus };
    let x = BigDecimal::new(BigInt::from_biguint(sa, BigUint::from_radix_be(&a.magnitude.digits, 10).unwrap()), a.scale);
    let y = BigDecimal::new(BigInt::from_biguint(sb, BigUint::from_radix_be(&b.magnitude.digits, 10).unwrap()), b.scale);
    let (int_val, scale) = (x - y).as_bigint_and_exponent();
    let (sign, magnitude) = int_val.into_parts();
    Decimal { negative: sign == Sign::Minus, magnitude: Natural { digits: magnitude.to_radix_be(10) }, scale }
}

/// `BigInt::to_i128`: the mantissa as an `i128` when it fits.
#[verifier::external_body]
pub(crate) fn mantissa_to_i128(d: &Decimal) -> (r: Option<i128>)
    requires
        d.wf(),
    ensures
        r is Some <==> i128_min() <= d.mantissa() <= i128_max(),
        r matches Some(v) ==> v == d.mantissa(),
{
    let sign = if d.negative { Sign::Minus } else { Sign::Plus };
    BigInt::from_biguint(sign, BigUint::from_radix_be(&d.magnitude.digits, 10).unwrap()).to_i128()
}

/// The digit that decides the rounding of a mantissa `m` of scale `e` to
/// `r` digits after the point: the units digit of `|m|` once `need - 1`
/// digits are dropped, where `need = e - r` (no digit is dropped when
/// `need <= 1`).
pub open spec fn rounding_digit(m: int, e: int, r: int) -> int {
    let need = e - r;
    let k: nat = if need - 1 > 0 { (need - 1) as nat } else { 0 };
    let a: int = if m < 0 { -m } else { m };
    (a / (pow10(k) as int)) % 10
}

/// What `round_safe` gives for mantissa `m` and scale `e`, as
/// `(mantissa, scale)`: the value unchanged when `r >= 0` and it already has
/// at most `r` digits after the point; otherwise the value cut to scale `r`,
/// moved one unit of the last kept place away from zero when the deciding
/// digit is 5 or more.
pub open spec fn round_safe_spec(m: int, e: int, r: int) -> (int, int) {
    let need = e - r;
    if r >= 0 && need <= 0 {
        (m, e)
    } else {
        let t = rescaled_mantissa(m, e, r);
        if rounding_digit(m, e, r) <= 4 {
            (t, r)
        } else if m < 0 {
            (t - 1, r)
        } else {
            (t + 1, r)
        }
    }
}

/// Rounds `d` to `round_digits` digits after the point, half away from
/// zero on the first dropped digit.
///
/// Where digits are to be dropped, the rounding negates the mantissa as an
/// `i128` when it fits one, which overflows for the smallest `i128`; that
/// mantissa is left out there, and so is a change of scale too large for the
/// power of ten that it takes. A value that needs no rounding is taken as it
/// is.
pub fn round_safe(d: &Decimal, round_digits: i64) -> (r: Decimal)
    requires
        d.wf(),
        i64::MIN < d.scale - round_digits <= i64::MAX,
        (round_digits >= 0 && d.scale <= round_digits) || d.mantissa() != i128_min(),
        (round_digits >= 0 && d.scale <= round_digits) || scale_change_fits(d.scale as int, round_digits as int),
    ensures
        r.wf(),
        (r.mantissa(), r.scale as int) == round_safe_spec(d.mantissa(), d.scale as int, round_digits as int),
{
    let decimal_part_digits = d.scale;
    let need_to_round_digits = decimal_part_digits - round_digits;
    if round_digits >= 0 && need_to_round_digits <= 0 {
        return d.copy();
    }
    let ghost k: nat = if need_to_round_digits - 1 > 0 { (need_to_round_digits - 1) as nat } else { 0 };
    let digit_small: bool = match mantissa_to_i128(d) {
        None => {
            let mut number = d.magnitude.copy();
            let mut i: i64 = 0;
            proof {
                assert(pow10(0) == 1);
                vstd::arithmetic::div_mod::lemma_div_basics(d.magnitude@ as int);
                assert(d.magnitude@ / pow10(0int as nat) == d.magnitude@);
                assert(number@ == d.magnitude@);
            }
            while i < need_to_round_digits - 1
                invariant
                    number.wf(),
                    0 <= i,
                    i <= need_to_round_digits - 1 || i == 0,
                    need_to_round_digits == d.scale - round_digits,
                    i64::MIN < need_to_round_digits,
                    d.wf(),
                    number@ == d.magnitude@ / pow10(i as nat),
                decreases need_to_round_digits - 1 - i,
            {
                proof {
                    lemma_div_pow10_step(d.magnitude@, i as nat);
                }
                number = natural_div_ten(&number);
                i = i + 1;
            }
            proof {
                assert(i as nat == k);
            }
            let digit = natural_rem_ten(&number);
            natural_at_most(&digit, 4)
        }
        Some(n) => {
            let mut number: i128 = n;
            if number < 0 {
                number = -number;
            }
            let mut i: i64 = 0;
            proof {
                assert(pow10(0) == 1);
                vstd::arithmetic::div_mod::lemma_div_basics(d.magnitude@ as int);
                assert(d.magnitude@ / pow10(0int as nat) == d.magnitude@);
                assert(number == d.magnitude@);
            }
            while i < need_to_round_digits - 1
                invariant
                    0 <= number,
                    0 <= i,
                    i <= need_to_round_digits - 1 || i == 0,
                    need_to_round_digits == d.scale - round_digits,
                    i64::MIN < need_to_round_digits,
                    d.wf(),
                    number == d.magnitude@ / pow10(i as nat),
                decreases need_to_round_digits - 1 - i,
            {
                proof {
                    lemma_div_pow10_step(d.magnitude@, i as nat);
                }
                number = number / 10;
                i = i + 1;
            }
            proof {
                assert(i as nat == k);
            }
            let digit = number % 10;
            digit <= 4
        }
    };
    let truncated = decimal_with_scale(d, round_digits);
    if digit_small {
        return truncated;
    }
    let one = Decimal { negative: false, magnitude: Natural::one(), scale: round_digits };
    if d.negative && !d.magnitude.is_zero() {
        decimal_sub(&truncated, &one)
    } else {
        decimal_add(&truncated, &one)
    }
}

/// Rounding is idempotent: a value rounded to `r >= 0` digits is left as
/// it is by a second rounding to `r` digits.
pub proof fn lemma_round_safe_idempotent(m: int, e: int, r: int)
    requires
        r >= 0,
    ensures
        round_safe_spec(round_safe_spec(m, e, r).0, round_safe_spec(m, e, r).1, r) == round_safe_spec(m, e, r),
{
}

/// A value that already has at most `r >= 0` digits after the point is left
/// as it is.
pub proof fn lemma_round_safe_short_unchanged(m: int, e: int, r: int)
    requires
        r >= 0,
        e <= r,
    ensures
        round_safe_spec(m, e, r) == (m, e),
{
}

/// The distance between two integers.
pub open spec fn int_distance(a: int, b: int) -> int {
    if a >= b { a - b } else { b - a }
}

/// The first dropped digit, read as `round_safe` reads it, is 4 or less
/// exactly when the dropped part of `a` is below half of `10^need`.
proof fn lemma_first_dropped_digit(a: int, need: nat)
    requires
        a >= 0,
        need >= 1,
    ensures
        pow10(need) == 10 * pow10((need - 1) as nat),
        0 <= a % (pow10(need) as int) < pow10(need),
        a == (pow10(need) as int) * (a / (pow10(need) as int)) + a % (pow10(need) as int),
        ((a / (pow10((need - 1) as nat) as int)) % 10 <= 4) <==> 2 * (a % (pow10(need) as int)) < pow10(need),
{
    let q = pow10((need - 1) as nat) as int;
    let p = pow10(need) as int;
    lemma_pow10_positive((need - 1) as nat);
    assert(p == q * 10);
    vstd::arithmetic::div_mod::lemma_mod_breakdown(a, q, 10);
    vstd::arithmetic::div_mod::lemma_fundamental_div_mod(a, p);
    vstd::arithmetic::div_mod::lemma_mod_pos_bound(a, p);
    vstd::arithmetic::div_mod::lemma_mod_pos_bound(a, q);
    let d = (a / q) % 10;
    vstd::arithmetic::div_mod::lemma_mod_pos_bound(a / q, 10);
    assert(a % p == q * d + a % q);
    if d <= 4 {
        assert(q * d <= q * 4) by (nonlinear_arith)
            requires
                d <= 4,
                q > 0,
        ;
    } else {
        assert(q * d >= q * 5) by (nonlinear_arith)
            requires
                d >= 5,
                q > 0,
        ;
    }
}

/// Rounding moves a value by at most half a unit of the last place kept:
/// where `round_safe` drops digits (`e > r`), the result has scale `r` and
/// differs from the value by at most half of `10^-r` (in units of `10^-e`,
/// by at most half of `10^(e - r)`).
pub proof fn lemma_round_safe_within_half_unit(m: int, e: int, r: int)
    requires
        e > r,
    ensures
        round_safe_spec(m, e, r).1 == r,
        2 * int_distance(round_safe_spec(m, e, r).0 * pow10((e - r) as nat), m) <= pow10((e - r) as nat),
{
    let need = (e - r) as nat;
    let a: int = if m < 0 { -m } else { m };
    let p = pow10(need) as int;
    lemma_first_dropped_digit(a, need);
    let t0 = a / p;
    let rem = a % p;
    let res = round_safe_spec(m, e, r);
    assert(rounding_digit(m, e, r) == (a / (pow10((need - 1) as nat) as int)) % 10);
    if m >= 0 {
        assert(rescaled_mantissa(m, e, r) == t0);
        if 2 * rem < p {
            assert(res.0 == t0);
            assert(t0 * p == m - rem) by (nonlinear_arith)
                requires
                    m == p * t0 + rem,
            ;
        } else {
            assert(res.0 == t0 + 1);
            assert((t0 + 1) * p == m - rem + p) by (nonlinear_arith)
                requires
                    m == p * t0 + rem,
            ;
        }
    } else {
        assert(rescaled_mantissa(m, e, r) == -t0);
        if 2 * rem < p {
            assert(res.0 == -t0);
            assert((-t0) * p == m + rem) by (nonlinear_arith)
                requires
                    -m == p * t0 + rem,
            ;
        } else {
            assert(res.0 == -t0 - 1);
            assert((-t0 - 1) * p == m + rem - p) by (nonlinear_arith)
                requires
                    -m == p * t0 + rem,
            ;
        }
    }
}

} // verus!
