//! The key a new service authenticates with.

use crate::text::is_alphanumeric;
use rand::RngCore;
use vstd::prelude::*;
use vstd::string::*;

verus! {

/// How many random bytes a key is made from.
pub const API_KEY_BYTES: usize = 32;

/// The digits of base 62, in the order of their values.
pub open spec fn base62_alphabet() -> Seq<char> {
    "0123456789ABCDEFGHIJKLMNOPQRSTUVWXYZabcdefghijklmnopqrstuvwxyz"@
}

/// The number that bytes stand for, the first byte counting most.
pub open spec fn big_endian(bytes: Seq<u8>) -> nat
    decreases bytes.len(),
{
    if bytes.len() == 0 {
        0
    } else {
        big_endian(bytes.drop_last()) * 256 + bytes.last() as nat
    }
}

/// A number in base 62, the digit that counts least first; nothing for zero.
pub open spec fn base62_digits(n: nat) -> Seq<char>
    decreases n,
{
    if n == 0 {
        Seq::empty()
    } else {
        seq![base62_alphabet()[(n % 62) as int]] + base62_digits(n / 62)
    }
}

/// The base 62 text of some bytes: nothing for no bytes; for any other, the
/// bytes with a byte of value one in front, read as one number and written in
/// base 62, the digit that counts least first.
pub open spec fn base62_text(bytes: Seq<u8>) -> Seq<char> {
    if bytes.len() == 0 {
        Seq::empty()
    } else {
        base62_digits(big_endian(seq![1u8] + bytes))
    }
}

/// `RngCore::fill_bytes` on the thread's generator, into a buffer of the
/// given length. The bytes are random: only their number is known.
#[verifier::external_body]
fn random_bytes(length: usize) -> (bytes: Vec<u8>)
    ensures
        bytes@.len() == length,
{
    let mut bytes = vec![0u8; length];
    rand::rng().fill_bytes(&mut bytes);
    bytes
}

/// `base_62::encode`: the bytes, with a one in front, read as a number
/// (`BigUint::from_bytes_be`) and written in base 62 by repeated division,
/// so that the digit that counts least comes first; the empty text for no
/// bytes.
#[verifier::external_body]
fn encode_base62(bytes: &[u8]) -> (text: String)
    ensures
        text@ == base62_text(bytes@),
{
    base_62::encode(bytes)
}

/// `base` to the power of `exponent`.
pub open spec fn raised(base: nat, exponent: nat) -> nat
    decreases exponent,
{
    if exponent == 0 {
        1
    } else {
        base * raised(base, (exponent - 1) as nat)
    }
}

/// Every character of a number written in base 62 is an ASCII letter or
/// digit.
pub proof fn lemma_base62_digits_are_alphanumeric(n: nat)
    ensures
        forall|i: int|
            0 <= i < base62_digits(n).len() ==> is_alphanumeric(#[trigger] base62_digits(n)[i]),
    decreases n,
{
    if n > 0 {
        lemma_base62_digits_are_alphanumeric(n / 62);
        reveal_strlit("0123456789ABCDEFGHIJKLMNOPQRSTUVWXYZabcdefghijklmnopqrstuvwxyz");
        let digit = base62_alphabet()[(n % 62) as int];
        assert(is_alphanumeric(digit));
        assert forall|i: int| 0 <= i < base62_digits(n).len() implies is_alphanumeric(
            #[trigger] base62_digits(n)[i],
        ) by {
            if i > 0 {
                assert(base62_digits(n)[i] == base62_digits(n / 62)[i - 1]);
            }
        }
    }
}

/// A number between two neighbouring powers of 62 takes as many digits as
/// the larger power says.
pub proof fn lemma_base62_digits_len(n: nat, digits: nat)
    requires
        digits >= 1,
        raised(62, (digits - 1) as nat) <= n < raised(62, digits),
    ensures
        base62_digits(n).len() == digits,
    decreases digits,
{
    reveal_with_fuel(raised, 2);
    if digits == 1 {
        assert(n / 62 == 0);
        assert(base62_digits(n / 62).len() == 0);
    } else {
        lemma_base62_digits_len(n / 62, (digits - 1) as nat);
    }
}

/// Bytes with a one in front stand for a number from 256 to the power of
/// their count up to, but not reaching, twice that.
pub proof fn lemma_leading_one(bytes: Seq<u8>)
    ensures
        raised(256, bytes.len()) <= big_endian(seq![1u8] + bytes) < 2 * raised(256, bytes.len()),
    decreases bytes.len(),
{
    let all = seq![1u8] + bytes;
    if bytes.len() == 0 {
        assert(all.drop_last() =~= Seq::<u8>::empty());
        assert(big_endian(all.drop_last()) == 0);
    } else {
        assert(all.drop_last() =~= seq![1u8] + bytes.drop_last());
        lemma_leading_one(bytes.drop_last());
    }
}

/// A key made of 32 bytes has 43 or 44 characters, each of them an ASCII
/// letter or digit.
pub proof fn lemma_key_shape(bytes: Seq<u8>)
    requires
        bytes.len() == API_KEY_BYTES,
    ensures
        base62_text(bytes).len() == 43 || base62_text(bytes).len() == 44,
        forall|i: int|
            0 <= i < base62_text(bytes).len() ==> is_alphanumeric(#[trigger] base62_text(bytes)[i]),
{
    let n = big_endian(seq![1u8] + bytes);
    lemma_leading_one(bytes);
    lemma_base62_digits_are_alphanumeric(n);
    assert(raised(62, 42) <= raised(256, 32) && 2 * raised(256, 32) <= raised(62, 44)) by {
        reveal_with_fuel(raised, 45);
    }
    if n < raised(62, 43) {
        lemma_base62_digits_len(n, 43);
    } else {
        lemma_base62_digits_len(n, 44);
    }
}

/// The key made of the given bytes.
pub fn api_key_from(bytes: &[u8]) -> (key: String)
    ensures
        key@ == base62_text(bytes@),
{
    encode_base62(bytes)
}

/// A fresh key for a new service: 32 random bytes in base 62, which makes 43
/// or 44 letters and digits.
pub fn generate_api_key() -> (key: String)
    ensures
        exists|bytes: Seq<u8>| bytes.len() == API_KEY_BYTES && key@ == #[trigger] base62_text(bytes),
        key@.len() == 43 || key@.len() == 44,
        forall|i: int| 0 <= i < key@.len() ==> is_alphanumeric(#[trigger] key@[i]),
{
    let bytes = random_bytes(API_KEY_BYTES);
    proof {
        lemma_key_shape(bytes@);
    }
    api_key_from(bytes.as_slice())
}

} // verus!
