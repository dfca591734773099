//! The tokens of an extracted event, and the lookup of a token by its name
//! with the conversion of its value.
use vstd::prelude::*;
use num_bigint::BigUint;
use num_traits::ToPrimitive;
use crate::decimal::Decimal;
use crate::natural::{is_canonical, is_digits, Natural};
use crate::text::{address_text, str_eq, zero_workchain_address};

verus! {

/// The value of a token, with what the indexer reads of it.
pub enum TokenValue {
    /// An unsigned integer of the given bit size.
    Uint(Natural, usize),
    /// An address, by its address bytes.
    Address(Vec<u8>),
    /// A tuple of named tokens.
    Tuple(Vec<Token>),
    /// Any other kind of value.
    Other,
}

/// A named value of an event.
pub struct Token {
    pub name: String,
    pub value: TokenValue,
}

/// An event as the transaction parser extracted it.
pub struct ExtractedEvent {
    pub name: String,
    pub tokens: Vec<Token>,
    /// The account of the transaction that emitted the event.
    pub account_id: Vec<u8>,
    /// The creation time and logical time of the message, when it is an
    /// outbound external message (the message of an event).
    pub ext_out_header: Option<(u32, u64)>,
    /// The hash of the message, as text.
    pub message_hash: String,
}

/// Why a record could not be built from an event: a token is missing, is
/// not of the kind expected, or does not fit; or the message of the event
/// is not an outbound external one.
#[derive(Clone, Copy, PartialEq, Eq, Structural, Debug)]
pub enum BuildError {
    Malformed,
}

/// The index of the first token named `name`, if any.
pub open spec fn find_index(tokens: Seq<Token>, name: Seq<char>) -> Option<int>
    decreases tokens.len(),
{
    if tokens.len() == 0 {
        None
    } else {
        match find_index(tokens.drop_last(), name) {
            Some(i) => Some(i),
            None => if tokens.last().name@ == name {
                Some(tokens.len() - 1)
            } else {
                None
            },
        }
    }
}

/// The first token named `name`, if any.
pub open spec fn find_token(tokens: Seq<Token>, name: Seq<char>) -> Option<Token> {
    match find_index(tokens, name) {
        Some(i) => Some(tokens[i]),
        None => None,
    }
}

/// The first token found among `primary`, or else, for the names listed in
/// `extra_names`, among `secondary`: the lookup in a tuple's tokens to which
/// a few tokens of the event were added.
pub open spec fn source_token(
    primary: Seq<Token>,
    secondary: Seq<Token>,
    extra_names: Seq<Seq<char>>,
    name: Seq<char>,
) -> Option<Token> {
    match find_token(primary, name) {
        Some(t) => Some(t),
        None => if extra_names.contains(name) {
            find_token(secondary, name)
        } else {
            None
        },
    }
}

/// `find_index` is a first match.
proof fn lemma_find_index(tokens: Seq<Token>, name: Seq<char>)
    ensures
        match find_index(tokens, name) {
            Some(i) => 0 <= i < tokens.len() && tokens[i].name@ == name && forall|j: int|
                0 <= j < i ==> tokens[j].name@ != name,
            None => forall|j: int| 0 <= j < tokens.len() ==> tokens[j].name@ != name,
        },
    decreases tokens.len(),
{
    if tokens.len() > 0 {
        lemma_find_index(tokens.drop_last(), name);
        assert(forall|j: int| 0 <= j < tokens.len() - 1 ==> tokens.drop_last()[j] == tokens[j]);
    }
}

/// The first token named `name`, if any.
pub fn find_named<'a>(tokens: &'a Vec<Token>, name: &str) -> (r: Option<&'a Token>)
    ensures
        match find_token(tokens@, name@) {
            Some(t) => r matches Some(x) && *x == t,
            None => r is None,
        },
        all_shallow_wf(tokens@) ==> (r matches Some(x) ==> token_shallow_wf(*x)),
        tokens_wf(tokens@) ==> (r matches Some(x) ==> token_wf(*x)),
{
    let mut i: usize = 0;
    proof {
        lemma_find_index(tokens@, name@);
    }
    while i < tokens.len()
        invariant
            i <= tokens.len(),
            forall|j: int| 0 <= j < i ==> tokens@[j].name@ != name@,
            match find_index(tokens@, name@) {
                Some(k) => 0 <= k < tokens@.len() && tokens@[k].name@ == name@ && forall|j: int|
                    0 <= j < k ==> tokens@[j].name@ != name@,
                None => forall|j: int| 0 <= j < tokens@.len() ==> tokens@[j].name@ != name@,
            },
        decreases tokens.len() - i,
    {
        if str_eq(tokens[i].name.as_str(), name) {
            proof {
                match find_index(tokens@, name@) {
                    Some(k) => {
                        assert(k == i as int);
                    },
                    None => {},
                }
            }
            return Some(&tokens[i]);
        }
        i = i + 1;
    }
    None
}

/// The lookup of `source_token`.
pub fn source_named<'a>(
    primary: &'a Vec<Token>,
    secondary: &'a Vec<Token>,
    extra_names: &Vec<&str>,
    name: &str,
) -> (r: Option<&'a Token>)
    ensures
        match source_token(primary@, secondary@, extra_names@.map_values(|s: &str| s@), name@) {
            Some(t) => r matches Some(x) && *x == t,
            None => r is None,
        },
        all_shallow_wf(primary@) && all_shallow_wf(secondary@) ==> (r matches Some(x) ==> token_shallow_wf(*x)),
{
    match find_named(primary, name) {
        Some(t) => Some(t),
        None => {
            let mut i: usize = 0;
            let ghost names = extra_names@.map_values(|s: &str| s@);
            while i < extra_names.len()
                invariant
                    i <= extra_names.len(),
                    names == extra_names@.map_values(|s: &str| s@),
                    forall|j: int| 0 <= j < i ==> names[j] != name@,
                    find_token(primary@, name@) is None,
                decreases extra_names.len() - i,
            {
                if str_eq(extra_names[i], name) {
                    proof {
                        assert(names[i as int] == name@);
                        assert(names.contains(name@));
                    }
                    return find_named(secondary, name);
                }
                i = i + 1;
            }
            proof {
                if names.contains(name@) {
                    let j = choose|j: int| 0 <= j < names.len() && names[j] == name@;
                    assert(names[j] == name@);
                }
            }
            None
        },
    }
}

/// The textual address of an address token: `0:` and the hex of its
/// address bytes.
pub open spec fn token_addr_view(t: Token) -> Option<Seq<char>> {
    match t.value {
        TokenValue::Address(b) => Some(address_text(0, b@)),
        _ => None,
    }
}

/// The value of an unsigned-integer token as a decimal of scale zero.
pub open spec fn token_decimal_view(t: Token) -> Option<(int, int)> {
    match t.value {
        TokenValue::Uint(n, _) => Some((n@ as int, 0int)),
        _ => None,
    }
}

/// The value of an unsigned-integer token when it is at most `max`.
pub open spec fn token_int_view(t: Token, max: int) -> Option<int> {
    match t.value {
        TokenValue::Uint(n, _) => if n@ <= max {
            Some(n@ as int)
        } else {
            None
        },
        _ => None,
    }
}

/// `BigUint::to_i64`: the number when it is at most `i64::MAX`.
#[verifier::external_body]
pub(crate) fn natural_to_i64(n: &Natural) -> (r: Option<i64>)
    requires
        n.wf(),
    ensures
        r is Some <==> n@ <= i64::MAX,
        r matches Some(v) ==> v == n@,
{
    BigUint::from_radix_be(&n.digits, 10).unwrap().to_i64()
}

/// `BigUint::to_i32`: the number when it is at most `i32::MAX`.
#[verifier::external_body]
pub(crate) fn natural_to_i32(n: &Natural) -> (r: Option<i32>)
    requires
        n.wf(),
    ensures
        r is Some <==> n@ <= i32::MAX,
        r matches Some(v) ==> v == n@,
{
    BigUint::from_radix_be(&n.digits, 10).unwrap().to_i32()
}

/// `BigUint::to_i16`: the number when it is at most `i16::MAX`.
#[verifier::external_body]
pub(crate) fn natural_to_i16(n: &Natural) -> (r: Option<i16>)
    requires
        n.wf(),
    ensures
        r is Some <==> n@ <= i16::MAX,
        r matches Some(v) ==> v == n@,
{
    BigUint::from_radix_be(&n.digits, 10).unwrap().to_i16()
}

/// `BigUint::to_u16`: the number when it is at most `u16::MAX`.
#[verifier::external_body]
pub(crate) fn natural_to_u16(n: &Natural) -> (r: Option<u16>)
    requires
        n.wf(),
    ensures
        r is Some <==> n@ <= u16::MAX,
        r matches Some(v) ==> v == n@,
{
    BigUint::from_radix_be(&n.digits, 10).unwrap().to_u16()
}

/// Whether the number of a token, if it is one, is well formed.
pub open spec fn token_shallow_wf(t: Token) -> bool {
    match t.value {
        TokenValue::Uint(n, _) => n.wf(),
        _ => true,
    }
}

/// Every token of the sequence holds a well-formed number, if any.
pub open spec fn all_shallow_wf(ts: Seq<Token>) -> bool {
    forall|i: int| 0 <= i < ts.len() ==> token_shallow_wf(#[trigger] ts[i])
}

/// Well-formed tokens hold well-formed numbers at the top level.
pub proof fn lemma_tokens_wf_shallow(ts: Seq<Token>)
    requires
        tokens_wf(ts),
    ensures
        all_shallow_wf(ts),
{
    assert forall|i: int| 0 <= i < ts.len() implies token_shallow_wf(#[trigger] ts[i]) by {
        assert(token_wf(ts[i]));
    }
}

/// Whether the numbers of a token, also those directly in its tuple, are
/// well formed.
pub open spec fn token_wf(t: Token) -> bool {
    match t.value {
        TokenValue::Uint(n, _) => n.wf(),
        TokenValue::Tuple(v) => all_shallow_wf(v@),
        _ => true,
    }
}

/// Every token of the sequence is well formed.
pub open spec fn tokens_wf(ts: Seq<Token>) -> bool {
    forall|i: int| 0 <= i < ts.len() ==> token_wf(#[trigger] ts[i])
}

/// Whether every digit of a number is a decimal digit.
pub fn natural_is_wf(n: &Natural) -> (r: bool)
    ensures
        r == n.wf(),
{
    let mut i: usize = 0;
    while i < n.digits.len()
        invariant
            i <= n.digits@.len(),
            forall|j: int| 0 <= j < i ==> #[trigger] n.digits@[j] < 10,
        decreases n.digits.len() - i,
    {
        if n.digits[i] >= 10 {
            assert(!is_digits(n.digits@));
            return false;
        }
        i = i + 1;
    }
    true
}

/// Whether the numbers of a token, if it is one, are well formed.
fn token_is_shallow_wf(t: &Token) -> (r: bool)
    ensures
        r == token_shallow_wf(*t),
{
    match &t.value {
        TokenValue::Uint(n, _) => natural_is_wf(n),
        _ => true,
    }
}

/// Whether the numbers of a token, also those directly in its tuple, are
/// well formed.
pub fn token_is_wf(t: &Token) -> (r: bool)
    ensures
        r == token_wf(*t),
{
    match &t.value {
        TokenValue::Uint(n, _) => natural_is_wf(n),
        TokenValue::Tuple(v) => {
            let mut i: usize = 0;
            while i < v.len()
                invariant
                    i <= v@.len(),
                    forall|j: int| 0 <= j < i ==> token_shallow_wf(#[trigger] v@[j]),
                    t.value == TokenValue::Tuple(*v),
                decreases v.len() - i,
            {
                if !token_is_shallow_wf(&v[i]) {
                    assert(!all_shallow_wf(v@));
                    assert(t.value == TokenValue::Tuple(*v));
                    return false;
                }
                i = i + 1;
            }
            assert(all_shallow_wf(v@));
            assert(t.value == TokenValue::Tuple(*v));
            true
        },
        _ => true,
    }
}

/// Whether every token of a sequence is well formed.
pub fn tokens_are_wf(ts: &Vec<Token>) -> (r: bool)
    ensures
        r == tokens_wf(ts@),
{
    let mut i: usize = 0;
    while i < ts.len()
        invariant
            i <= ts@.len(),
            forall|j: int| 0 <= j < i ==> token_wf(#[trigger] ts@[j]),
        decreases ts.len() - i,
    {
        if !token_is_wf(&ts[i]) {
            assert(!tokens_wf(ts@));
            return false;
        }
        i = i + 1;
    }
    true
}

/// `token_to_addr`: the textual address of an address token.
pub fn token_to_addr(t: &Token) -> (r: Option<String>)
    ensures
        r.deep_view() == token_addr_view(*t),
{
    match &t.value {
        TokenValue::Address(b) => Some(zero_workchain_address(b.as_slice())),
        _ => None,
    }
}

/// `token_to_big_decimal`: the number of an unsigned-integer token as a
/// decimal of scale zero.
pub fn token_to_big_decimal(t: &Token) -> (r: Option<Decimal>)
    ensures
        match token_decimal_view(*t) {
            Some(v) => r matches Some(d) && d@ == v && d.wf() == token_shallow_wf(*t),
            None => r is None,
        },
{
    match &t.value {
        TokenValue::Uint(n, _) => Some(Decimal { negative: false, magnitude: n.copy(), scale: 0 }),
        _ => None,
    }
}

/// `token_to_i64`.
pub fn token_to_i64(t: &Token) -> (r: Option<i64>)
    requires
        token_shallow_wf(*t),
    ensures
        match token_int_view(*t, i64::MAX as int) {
            Some(v) => r matches Some(x) && x == v,
            None => r is None,
        },
{
    match &t.value {
        TokenValue::Uint(n, _) => natural_to_i64(n),
        _ => None,
    }
}

/// `token_to_i32`.
pub fn token_to_i32(t: &Token) -> (r: Option<i32>)
    requires
        token_shallow_wf(*t),
    ensures
        match token_int_view(*t, i32::MAX as int) {
            Some(v) => r matches Some(x) && x == v,
            None => r is None,
        },
{
    match &t.value {
        TokenValue::Uint(n, _) => natural_to_i32(n),
        _ => None,
    }
}

/// `token_to_i16`.
pub fn token_to_i16(t: &Token) -> (r: Option<i16>)
    requires
        token_shallow_wf(*t),
    ensures
        match token_int_view(*t, i16::MAX as int) {
            Some(v) => r matches Some(x) && x == v,
            None => r is None,
        },
{
    match &t.value {
        TokenValue::Uint(n, _) => natural_to_i16(n),
        _ => None,
    }
}

/// `token_to_u16`.
pub fn token_to_u16(t: &Token) -> (r: Option<u16>)
    requires
        token_shallow_wf(*t),
    ensures
        match token_int_view(*t, u16::MAX as int) {
            Some(v) => r matches Some(x) && x == v,
            None => r is None,
        },
{
    match &t.value {
        TokenValue::Uint(n, _) => natural_to_u16(n),
        _ => None,
    }
}

/// The tokens of the tuple token named `name`, if it is one.
pub open spec fn tuple_view(tokens: Seq<Token>, name: Seq<char>) -> Option<Seq<Token>> {
    match find_token(tokens, name) {
        Some(t) => match t.value {
            TokenValue::Tuple(v) => Some(v@),
            _ => None,
        },
        None => None,
    }
}

/// The tokens of the tuple token named `name`; a missing token, or one that
/// is not a tuple, is an error.
pub fn tuple_named<'a>(tokens: &'a Vec<Token>, name: &str) -> (r: Result<&'a Vec<Token>, BuildError>)
    ensures
        match tuple_view(tokens@, name@) {
            Some(v) => r matches Ok(x) && x@ == v,
            None => r is Err,
        },
        tokens_wf(tokens@) ==> (r matches Ok(x) ==> all_shallow_wf(x@)),
{
    match find_named(tokens, name) {
        Some(t) => match &t.value {
            TokenValue::Tuple(v) => Ok(v),
            _ => Err(BuildError::Malformed),
        },
        None => Err(BuildError::Malformed),
    }
}

/// `get_address`: the account of the event as `0:` and the hex of its bytes.
pub fn get_address(event: &ExtractedEvent) -> (r: String)
    ensures
        r@ == address_text(0, event.account_id@),
{
    zero_workchain_address(event.account_id.as_slice())
}

/// `get_created_at`: the creation time of the message of the event, which
/// must be an outbound external message.
pub fn get_created_at(event: &ExtractedEvent) -> (r: Result<i64, BuildError>)
    ensures
        match event.ext_out_header {
            Some((at, _)) => r == Ok::<i64, BuildError>(at as i64),
            None => r is Err,
        },
{
    match event.ext_out_header {
        Some((at, _)) => Ok(at as i64),
        None => Err(BuildError::Malformed),
    }
}

/// `get_created_lt`: the logical time of the message of the event, which
/// must be an outbound external message; it is stored in a signed column
/// (`lt as i64`).
pub fn get_created_lt(event: &ExtractedEvent) -> (r: Result<i64, BuildError>)
    ensures
        match event.ext_out_header {
            Some((_, lt)) => r == Ok::<i64, BuildError>(lt as i64),
            None => r is Err,
        },
{
    match event.ext_out_header {
        Some((_, lt)) => Ok(lt as i64),
        None => Err(BuildError::Malformed),
    }
}


/// The `addr` of the token found by `source_token`.
pub open spec fn src_addr(p: Seq<Token>, s: Seq<Token>, e: Seq<Seq<char>>, name: Seq<char>) -> Option<Seq<char>> {
    match source_token(p, s, e, name) {
        Some(t) => token_addr_view(t),
        None => None,
    }
}

/// Looks a token up by `source_token` and converts it; a missing token or
/// one that does not convert is an error.
pub fn lookup_addr(p: &Vec<Token>, s: &Vec<Token>, e: &Vec<&str>, name: &str) -> (r: Result<String, BuildError>)
    ensures
        match src_addr(p@, s@, e@.map_values(|x: &str| x@), name@) {
            Some(v) => r matches Ok(x) && x@ == v,
            None => r is Err,
        },
{
    match source_named(p, s, e, name) {
        Some(t) => match token_to_addr(t) {
            Some(v) => Ok(v),
            None => Err(BuildError::Malformed),
        },
        None => Err(BuildError::Malformed),
    }
}

/// The `dec` of the token found by `source_token`.
pub open spec fn src_dec(p: Seq<Token>, s: Seq<Token>, e: Seq<Seq<char>>, name: Seq<char>) -> Option<(int, int)> {
    match source_token(p, s, e, name) {
        Some(t) => token_decimal_view(t),
        None => None,
    }
}

/// Looks a token up by `source_token` and converts it; a missing token or
/// one that does not convert is an error.
pub fn lookup_dec(p: &Vec<Token>, s: &Vec<Token>, e: &Vec<&str>, name: &str) -> (r: Result<Decimal, BuildError>)
    requires
        all_shallow_wf(p@),
        all_shallow_wf(s@),
    ensures
        match src_dec(p@, s@, e@.map_values(|x: &str| x@), name@) {
            Some(v) => r matches Ok(x) && x@ == v && x.wf(),
            None => r is Err,
        },
{
    match source_named(p, s, e, name) {
        Some(t) => match token_to_big_decimal(t) {
            Some(v) => Ok(v),
            None => Err(BuildError::Malformed),
        },
        None => Err(BuildError::Malformed),
    }
}

/// The `i64` of the token found by `source_token`.
pub open spec fn src_i64(p: Seq<Token>, s: Seq<Token>, e: Seq<Seq<char>>, name: Seq<char>) -> Option<int> {
    match source_token(p, s, e, name) {
        Some(t) => token_int_view(t, i64::MAX as int),
        None => None,
    }
}

/// Looks a token up by `source_token` and converts it; a missing token or
/// one that does not convert is an error.
pub fn lookup_i64(p: &Vec<Token>, s: &Vec<Token>, e: &Vec<&str>, name: &str) -> (r: Result<i64, BuildError>)
    requires
        all_shallow_wf(p@),
        all_shallow_wf(s@),
    ensures
        match src_i64(p@, s@, e@.map_values(|x: &str| x@), name@) {
            Some(v) => r matches Ok(x) && x == v,
            None => r is Err,
        },
{
    match source_named(p, s, e, name) {
        Some(t) => match token_to_i64(t) {
            Some(v) => Ok(v),
            None => Err(BuildError::Malformed),
        },
        None => Err(BuildError::Malformed),
    }
}

/// The `i32` of the token found by `source_token`.
pub open spec fn src_i32(p: Seq<Token>, s: Seq<Token>, e: Seq<Seq<char>>, name: Seq<char>) -> Option<int> {
    match source_token(p, s, e, name) {
        Some(t) => token_int_view(t, i32::MAX as int),
        None => None,
    }
}

/// Looks a token up by `source_token` and converts it; a missing token or
/// one that does not convert is an error.
pub fn lookup_i32(p: &Vec<Token>, s: &Vec<Token>, e: &Vec<&str>, name: &str) -> (r: Result<i32, BuildError>)
    requires
        all_shallow_wf(p@),
        all_shallow_wf(s@),
    ensures
        match src_i32(p@, s@, e@.map_values(|x: &str| x@), name@) {
            Some(v) => r matches Ok(x) && x == v,
            None => r is Err,
        },
{
    match source_named(p, s, e, name) {
        Some(t) => match token_to_i32(t) {
            Some(v) => Ok(v),
            None => Err(BuildError::Malformed),
        },
        None => Err(BuildError::Malformed),
    }
}

/// The `i16` of the token found by `source_token`.
pub open spec fn src_i16(p: Seq<Token>, s: Seq<Token>, e: Seq<Seq<char>>, name: Seq<char>) -> Option<int> {
    match source_token(p, s, e, name) {
        Some(t) => token_int_view(t, i16::MAX as int),
        None => None,
    }
}

/// Looks a token up by `source_token` and converts it; a missing token or
/// one that does not convert is an error.
pub fn lookup_i16(p: &Vec<Token>, s: &Vec<Token>, e: &Vec<&str>, name: &str) -> (r: Result<i16, BuildError>)
    requires
        all_shallow_wf(p@),
        all_shallow_wf(s@),
    ensures
        match src_i16(p@, s@, e@.map_values(|x: &str| x@), name@) {
            Some(v) => r matches Ok(x) && x == v,
            None => r is Err,
        },
{
    match source_named(p, s, e, name) {
        Some(t) => match token_to_i16(t) {
            Some(v) => Ok(v),
            None => Err(BuildError::Malformed),
        },
        None => Err(BuildError::Malformed),
    }
}

/// The `u16` of the token found by `source_token`.
pub open spec fn src_u16(p: Seq<Token>, s: Seq<Token>, e: Seq<Seq<char>>, name: Seq<char>) -> Option<int> {
    match source_token(p, s, e, name) {
        Some(t) => token_int_view(t, u16::MAX as int),
        None => None,
    }
}

/// Looks a token up by `source_token` and converts it; a missing token or
/// one that does not convert is an error.
pub fn lookup_u16(p: &Vec<Token>, s: &Vec<Token>, e: &Vec<&str>, name: &str) -> (r: Result<u16, BuildError>)
    requires
        all_shallow_wf(p@),
        all_shallow_wf(s@),
    ensures
        match src_u16(p@, s@, e@.map_values(|x: &str| x@), name@) {
            Some(v) => r matches Ok(x) && x == v,
            None => r is Err,
        },
{
    match source_named(p, s, e, name) {
        Some(t) => match token_to_u16(t) {
            Some(v) => Ok(v),
            None => Err(BuildError::Malformed),
        },
        None => Err(BuildError::Malformed),
    }
}

} // verus!
