//! Unsigned integers of any size, held as their decimal digits.
//!
//! The arithmetic on them is done by `num-bigint`; the functions here that
//! reach it are thin wrappers whose contracts state, over the value of the
//! digits, what the crate computes.
use vstd::prelude::*;
use num_bigint::BigUint;

verus! {

/// `10` to the power `k`.
pub open spec fn pow10(k: nat) -> nat
    decreases k,
{
    if k == 0 {
        1
    } else {
        10 * pow10((k - 1) as nat)
    }
}

/// The value of a sequence of decimal digits, most significant first.
pub open spec fn digits_value(d: Seq<u8>) -> nat
    decreases d.len(),
{
    if d.len() == 0 {
        0
    } else {
        digits_value(d.drop_last()) * 10 + d.last() as nat
    }
}

/// The value of a sequence of bytes read as a big-endian base-256 number.
pub open spec fn bytes_be_value(b: Seq<u8>) -> nat
    decreases b.len(),
{
    if b.len() == 0 {
        0
    } else {
        bytes_be_value(b.drop_last()) * 256 + b.last() as nat
    }
}

/// Every element is a decimal digit.
pub open spec fn is_digits(d: Seq<u8>) -> bool {
    forall|i: int| 0 <= i < d.len() ==> #[trigger] d[i] < 10
}

/// The form in which `num-bigint` writes a number in base 10: at least one
/// digit, and no leading zero unless the number is zero itself.
pub open spec fn is_canonical(d: Seq<u8>) -> bool {
    &&& is_digits(d)
    &&& d.len() >= 1
    &&& (d.len() == 1 || d[0] != 0)
}

/// An unsigned integer of any size: its decimal digits, most significant first.
pub struct Natural {
    pub digits: Vec<u8>,
}

impl View for Natural {
    type V = nat;

    open spec fn view(&self) -> nat {
        digits_value(self.digits@)
    }
}

impl Natural {
    pub open spec fn wf(&self) -> bool {
        is_digits(self.digits@)
    }

    /// An exact copy.
    pub fn copy(&self) -> (r: Natural)
        ensures
            r.digits@ == self.digits@,
    {
        Natural { digits: self.digits.clone() }
    }

    /// The number one.
    pub fn one() -> (r: Natural)
        ensures
            r.wf(),
            r@ == 1,
            is_canonical(r.digits@),
    {
        let mut digits: Vec<u8> = Vec::new();
        digits.push(1u8);
        proof {
            assert(digits@.drop_last() =~= Seq::<u8>::empty());
            assert(digits_value(digits@.drop_last()) == 0);
        }
        Natural { digits }
    }

    /// Whether the number is zero: every digit is zero.
    pub fn is_zero(&self) -> (b: bool)
        requires
            self.wf(),
        ensures
            b == (self@ == 0),
    {
        let mut i: usize = 0;
        while i < self.digits.len()
            invariant
                self.wf(),
                i <= self.digits.len(),
                digits_value(self.digits@.take(i as int)) == 0,
            decreases self.digits.len() - i,
        {
            if self.digits[i] != 0 {
                proof {
                    lemma_digits_value_prefix_bound(self.digits@, i as int);
                }
                return false;
            }
            proof {
                assert(self.digits@.take(i + 1).drop_last() =~= self.digits@.take(i as int));
            }
            i = i + 1;
        }
        proof {
            assert(self.digits@.take(i as int) =~= self.digits@);
        }
        true
    }
}

/// A nonzero digit at position `i` makes the value at least that of the
/// prefix that ends with it, which is positive.
pub proof fn lemma_digits_value_prefix_bound(d: Seq<u8>, i: int)
    requires
        0 <= i < d.len(),
        d[i] != 0,
    ensures
        digits_value(d) > 0,
    decreases d.len(),
{
    if i == d.len() - 1 {
    } else {
        lemma_digits_value_prefix_bound(d.drop_last(), i);
        assert(digits_value(d.drop_last()) > 0);
    }
}

/// `pow10` is positive.
pub proof fn lemma_pow10_positive(k: nat)
    ensures
        pow10(k) > 0,
    decreases k,
{
    if k > 0 {
        lemma_pow10_positive((k - 1) as nat);
    }
}

/// Dividing by `10^k` and then by `10` divides by `10^(k+1)`.
pub proof fn lemma_div_pow10_step(a: nat, k: nat)
    ensures
        (a / pow10(k)) / 10 == a / pow10(k + 1),
{
    lemma_pow10_positive(k);
    vstd::arithmetic::div_mod::lemma_div_denominator(a as int, pow10(k) as int, 10);
    assert(pow10(k + 1) == 10 * pow10(k));
    vstd::arithmetic::mul::lemma_mul_is_commutative(pow10(k) as int, 10);
}

/// The value of a `u128` as a number of any size (`BigUint::from`), in
/// the base-10 digits of `BigUint::to_radix_be`.
#[verifier::external_body]
pub(crate) fn natural_from_u128(v: u128) -> (r: Natural)
    ensures
        r.wf(),
        is_canonical(r.digits@),
        r@ == v,
{
    Natural { digits: BigUint::from(v).to_radix_be(10) }
}

/// The value of big-endian bytes (`BigUint::from_bytes_be`), in the base-10
/// digits of `BigUint::to_radix_be`.
#[verifier::external_body]
pub(crate) fn natural_from_bytes_be(b: &[u8]) -> (r: Natural)
    ensures
        r.wf(),
        is_canonical(r.digits@),
        r@ == bytes_be_value(b@),
{
    Natural { digits: BigUint::from_bytes_be(b).to_radix_be(10) }
}

/// `n / 10` as `num-bigint` computes it (`BigUint / u32`): the quotient,
/// rounded down.
#[verifier::external_body]
pub(crate) fn natural_div_ten(n: &Natural) -> (r: Natural)
    requires
        n.wf(),
    ensures
        r.wf(),
        is_canonical(r.digits@),
        r@ == n@ / 10,
{
    Natural { digits: (BigUint::from_radix_be(&n.digits, 10).unwrap() / 10u32).to_radix_be(10) }
}

/// `n % 10` as `num-bigint` computes it (`BigUint % u32`).
#[verifier::external_body]
pub(crate) fn natural_rem_ten(n: &Natural) -> (r: Natural)
    requires
        n.wf(),
    ensures
        r.wf(),
        is_canonical(r.digits@),
        r@ == n@ % 10,
{
    Natural { digits: (BigUint::from_radix_be(&n.digits, 10).unwrap() % 10u32).to_radix_be(10) }
}

/// A canonical number with more than one digit is at least ten.
pub proof fn lemma_canonical_lead_bound(d: Seq<u8>)
    requires
        is_canonical(d),
        d.len() > 1,
    ensures
        digits_value(d) >= 10,
{
    lemma_digits_value_prefix_bound(d.drop_last(), 0);
}

/// Compares a canonical number with a single digit `c`.
pub fn natural_at_most(n: &Natural, c: u8) -> (b: bool)
    requires
        is_canonical(n.digits@),
        c < 10,
    ensures
        b == (n@ <= c),
{
    if n.digits.len() == 1 {
        proof {
            assert(n.digits@.drop_last() =~= Seq::<u8>::empty());
            assert(digits_value(n.digits@.drop_last()) == 0);
        }
        n.digits[0] <= c
    } else {
        proof {
            lemma_canonical_lead_bound(n.digits@);
        }
        false
    }
}

} // verus!
