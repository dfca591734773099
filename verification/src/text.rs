//! Text helpers: decimal and hexadecimal renderings of numbers, and the
//! textual form `workchain:hex` of account addresses.
use vstd::prelude::*;

verus! {

/// `String::push` of std: appends one character.
#[verifier::external_body]
pub(crate) fn string_push(s: &mut String, c: char)
    ensures
        final(s)@ == old(s)@.push(c),
{
    s.push(c)
}

/// `str == str` of std: the two hold the same characters.
#[verifier::external_body]
pub(crate) fn str_eq(a: &str, b: &str) -> (r: bool)
    ensures
        r == (a@ == b@),
{
    a == b
}

/// The character of a decimal digit.
pub open spec fn digit_char(n: int) -> char {
    if n == 0 { '0' }
    else if n == 1 { '1' }
    else if n == 2 { '2' }
    else if n == 3 { '3' }
    else if n == 4 { '4' }
    else if n == 5 { '5' }
    else if n == 6 { '6' }
    else if n == 7 { '7' }
    else if n == 8 { '8' }
    else { '9' }
}

/// The lower-case character of a hexadecimal digit.
pub open spec fn hex_char(n: int) -> char {
    if n < 10 { digit_char(n) }
    else if n == 10 { 'a' }
    else if n == 11 { 'b' }
    else if n == 12 { 'c' }
    else if n == 13 { 'd' }
    else if n == 14 { 'e' }
    else { 'f' }
}

/// Lower-case hexadecimal of bytes, two characters per byte.
pub open spec fn hex_text(b: Seq<u8>) -> Seq<char>
    decreases b.len(),
{
    if b.len() == 0 {
        Seq::empty()
    } else {
        hex_text(b.drop_last()).push(hex_char((b.last() / 16) as int)).push(hex_char((b.last() % 16) as int))
    }
}

/// Decimal digits of a natural number, without leading zeros.
pub open spec fn nat_text(n: nat) -> Seq<char>
    decreases n,
{
    if n < 10 {
        seq![digit_char(n as int)]
    } else {
        nat_text(n / 10).push(digit_char((n % 10) as int))
    }
}

/// Decimal text of an integer, as `Display` writes it: a minus sign for
/// negative numbers.
pub open spec fn int_text(i: int) -> Seq<char> {
    if i < 0 {
        seq!['-'] + nat_text((-i) as nat)
    } else {
        nat_text(i as nat)
    }
}

/// The textual address `workchain:hex`.
pub open spec fn address_text(workchain: int, bytes: Seq<u8>) -> Seq<char> {
    int_text(workchain) + seq![':'] + hex_text(bytes)
}

/// The character of a decimal digit.
pub fn digit_to_char(n: u8) -> (c: char)
    requires
        n < 10,
    ensures
        c == digit_char(n as int),
{
    match n {
        0 => '0',
        1 => '1',
        2 => '2',
        3 => '3',
        4 => '4',
        5 => '5',
        6 => '6',
        7 => '7',
        8 => '8',
        _ => '9',
    }
}

/// The lower-case character of a hexadecimal digit.
pub fn hex_to_char(n: u8) -> (c: char)
    requires
        n < 16,
    ensures
        c == hex_char(n as int),
{
    if n < 10 {
        digit_to_char(n)
    } else {
        match n {
            10 => 'a',
            11 => 'b',
            12 => 'c',
            13 => 'd',
            14 => 'e',
            _ => 'f',
        }
    }
}

/// Appends the lower-case hexadecimal of `bytes` to `s`.
pub fn push_hex(s: &mut String, bytes: &[u8])
    ensures
        final(s)@ == old(s)@ + hex_text(bytes@),
{
    let mut i: usize = 0;
    proof {
        assert(bytes@.take(0) =~= Seq::<u8>::empty());
        assert(s@ =~= old(s)@ + hex_text(bytes@.take(0)));
    }
    while i < bytes.len()
        invariant
            i <= bytes.len(),
            s@ == old(s)@ + hex_text(bytes@.take(i as int)),
        decreases bytes.len() - i,
    {
        let b = bytes[i];
        string_push(s, hex_to_char(b / 16));
        string_push(s, hex_to_char(b % 16));
        proof {
            assert(bytes@.take(i + 1).drop_last() =~= bytes@.take(i as int));
            assert(bytes@.take(i + 1).last() == b);
            assert(s@ =~= old(s)@ + hex_text(bytes@.take(i + 1)));
        }
        i = i + 1;
    }
    proof {
        assert(bytes@.take(i as int) =~= bytes@);
    }
}

/// `nat_text` of a number below ten is its one digit, and a larger number
/// adds a digit to the text of its tenth.
proof fn lemma_nat_text_step(n: nat)
    ensures
        n >= 10 ==> nat_text(n) == nat_text(n / 10).push(digit_char((n % 10) as int)),
        n < 10 ==> nat_text(n) == seq![digit_char(n as int)],
{
}

/// Appends the decimal digits of `n` to `s`.
pub fn push_u128(s: &mut String, n: u128)
    ensures
        final(s)@ == old(s)@ + nat_text(n as nat),
    decreases n,
{
    if n < 10 {
        string_push(s, digit_to_char(n as u8));
        proof {
            lemma_nat_text_step(n as nat);
            assert(s@ =~= old(s)@ + nat_text(n as nat));
        }
    } else {
        push_u128(s, n / 10);
        string_push(s, digit_to_char((n % 10) as u8));
        proof {
            lemma_nat_text_step(n as nat);
            assert(s@ =~= old(s)@ + nat_text(n as nat));
        }
    }
}

/// Appends the decimal text of `i` to `s`, with a minus sign when negative.
pub fn push_i64(s: &mut String, i: i64)
    ensures
        final(s)@ == old(s)@ + int_text(i as int),
{
    if i < 0 {
        string_push(s, '-');
        let m: u128 = (0i128 - (i as i128)) as u128;
        push_u128(s, m);
        proof {
            assert(s@ =~= old(s)@ + int_text(i as int));
        }
    } else {
        push_u128(s, i as u128);
    }
}

/// The decimal text of an integer (`i64::to_string`).
pub fn int_to_string(i: i64) -> (r: String)
    ensures
        r@ == int_text(i as int),
{
    let mut s = String::new();
    push_i64(&mut s, i);
    proof {
        assert(s@ =~= int_text(i as int));
    }
    s
}

/// The textual form `workchain:hex` of an address.
pub fn address_to_string(workchain: i32, bytes: &[u8]) -> (r: String)
    ensures
        r@ == address_text(workchain as int, bytes@),
{
    let mut s = String::new();
    push_i64(&mut s, workchain as i64);
    string_push(&mut s, ':');
    push_hex(&mut s, bytes);
    proof {
        assert(s@ =~= address_text(workchain as int, bytes@));
    }
    s
}

/// The textual form `0:hex`, which the indexer writes for accounts whatever
/// their workchain.
pub fn zero_workchain_address(bytes: &[u8]) -> (r: String)
    ensures
        r@ == address_text(0, bytes@),
{
    address_to_string(0, bytes)
}

} // verus!
