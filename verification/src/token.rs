//! Session tokens: the digest of the decimal text of a random 128-bit seed.

use crate::hasher::sha512_hex;
use crate::hasher::sha512_hex_of;
use crate::hasher::is_hex_digest;
use rand::Rng;
use vstd::prelude::*;

verus! {

/// The ASCII byte of a decimal digit.
pub open spec fn digit_byte(d: nat) -> u8
    recommends
        d < 10,
{
    (48 + d) as u8
}

/// The decimal text of a number, most significant digit first, without
/// leading zeros, as ASCII bytes.
pub open spec fn decimal_digits(n: nat) -> Seq<u8>
    decreases n,
{
    if n < 10 {
        seq![digit_byte(n)]
    } else {
        decimal_digits(n / 10).push(digit_byte(n % 10))
    }
}

/// The token that is derived from a seed.
pub open spec fn token_of_seed(seed: u128) -> Seq<char> {
    sha512_hex_of(decimal_digits(seed as nat))
}

/// Appends the decimal text of `n` to `out`.
pub fn push_decimal(n: u128, out: &mut Vec<u8>)
    ensures
        final(out)@ == old(out)@ + decimal_digits(n as nat),
    decreases n,
{
    if n >= 10 {
        push_decimal(n / 10, out);
    }
    let digit: u8 = (n % 10) as u8;
    out.push(48 + digit);
    assert(final(out)@ =~= old(out)@ + decimal_digits(n as nat));
}

/// The decimal text of `n` as ASCII bytes.
pub fn decimal_bytes(n: u128) -> (text: Vec<u8>)
    ensures
        text@ == decimal_digits(n as nat),
{
    let mut text: Vec<u8> = Vec::new();
    push_decimal(n, &mut text);
    assert(text@ =~= decimal_digits(n as nat));
    text
}

/// Derives the session token from a seed: the hexadecimal SHA-512 digest of
/// the seed's decimal text.
pub fn token_from_seed(seed: u128) -> (token: String)
    ensures
        token@ == token_of_seed(seed),
        is_hex_digest(token@),
{
    let text = decimal_bytes(seed);
    sha512_hex(text.as_slice())
}

/// Draws 128 bits from `rand::thread_rng()` with `Rng::gen::<u128>()`.
///
/// Trusted: nothing is claimed of the value; every caller is verified for
/// whatever seed comes back.
#[verifier::external_body]
pub(crate) fn random_seed() -> (seed: u128) {
    rand::thread_rng().gen::<u128>()
}

/// Every decimal text has a digit, and two or more from ten on.
pub proof fn lemma_decimal_digits_len(n: nat)
    ensures
        decimal_digits(n).len() >= 1,
        n >= 10 ==> decimal_digits(n).len() >= 2,
    decreases n,
{
    if n >= 10 {
        lemma_decimal_digits_len(n / 10);
    }
}

/// Different seeds are hashed as different texts: the decimal text of a
/// number is its own.
pub proof fn law_seed_texts_differ(a: nat, b: nat)
    requires
        a != b,
    ensures
        decimal_digits(a) != decimal_digits(b),
    decreases a,
{
    lemma_decimal_digits_len(a);
    lemma_decimal_digits_len(b);
    if decimal_digits(a) == decimal_digits(b) {
        if a < 10 && b < 10 {
            assert(decimal_digits(a)[0] == digit_byte(a));
            assert(decimal_digits(b)[0] == digit_byte(b));
        } else if a >= 10 && b >= 10 {
            let x = decimal_digits(a / 10);
            let y = decimal_digits(b / 10);
            assert(x.push(digit_byte(a % 10)).drop_last() =~= x);
            assert(y.push(digit_byte(b % 10)).drop_last() =~= y);
            assert(x.push(digit_byte(a % 10)).last() == digit_byte(a % 10));
            assert(y.push(digit_byte(b % 10)).last() == digit_byte(b % 10));
            if a / 10 != b / 10 {
                law_seed_texts_differ(a / 10, b / 10);
            }
            assert(a % 10 == b % 10);
            assert(a == 10 * (a / 10) + a % 10);
            assert(b == 10 * (b / 10) + b % 10);
        }
    }
}

} // verus!
