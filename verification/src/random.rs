//! Random values: the thread-local generator of `rand` and random UUIDs of
//! `uuid`, and the tokens and keys built from them.

use vstd::prelude::*;
use rand::Rng;
use crate::text::{is_ascii_alnum_byte, push_char};

verus! {

/// `rand::rng().random_range(0..bound)`: a value drawn from `0..bound`. The
/// range must not be empty (the call panics on an empty range); nothing is
/// promised of which value comes back.
#[verifier::external_body]
pub(crate) fn random_below(bound: usize) -> (r: usize)
    requires
        bound > 0,
    ensures
        r < bound,
{
    rand::rng().random_range(0..bound)
}

/// `rand::rng().sample(rand::distr::Alphanumeric)`: one byte drawn from the
/// 62 ASCII letters and digits.
#[verifier::external_body]
pub(crate) fn random_alphanumeric() -> (r: u8)
    ensures
        is_ascii_alnum_byte(r),
{
    rand::rng().sample(rand::distr::Alphanumeric)
}

/// `uuid::Uuid::new_v4()`, as its 128-bit value: random, with the version
/// nibble set to 4 and the variant bits set to `10`.
#[verifier::external_body]
pub(crate) fn new_uuid_v4() -> (r: u128)
    ensures
        (r >> 76u128) & 0xf == 4,
        (r >> 62u128) & 0x3 == 2,
{
    uuid::Uuid::new_v4().as_u128()
}

/// Letters of the charset that device access tokens are drawn from.
pub open spec fn is_token_char(c: char) -> bool {
    ||| ('A' <= c && c <= 'Z')
    ||| ('a' <= c && c <= 'z')
    ||| ('0' <= c && c <= '9')
}

/// The character at `idx` of `ABC…XYZabc…xyz0123456789`.
pub open spec fn token_charset_at(idx: int) -> char {
    if idx < 26 {
        ((65 + idx) as u32) as char
    } else if idx < 52 {
        ((97 + idx - 26) as u32) as char
    } else {
        ((48 + idx - 52) as u32) as char
    }
}

fn charset_char(idx: usize) -> (c: char)
    requires
        idx < 62,
    ensures
        c == token_charset_at(idx as int),
        is_token_char(c),
{
    let b: u8 = if idx < 26 {
        65 + idx as u8
    } else if idx < 52 {
        97 + (idx - 26) as u8
    } else {
        48 + (idx - 52) as u8
    };
    b as char
}

/// A random 20-character access token over `[A-Za-z0-9]`.
pub fn generate_access_token() -> (r: String)
    ensures
        r@.len() == 20,
        forall|i: int| 0 <= i < 20 ==> is_token_char(#[trigger] r@[i]),
{
    let mut r = String::new();
    let mut i: usize = 0;
    while i < 20
        invariant
            i <= 20,
            r@.len() == i,
            forall|k: int| 0 <= k < i ==> is_token_char(#[trigger] r@[k]),
        decreases 20 - i,
    {
        let idx = random_below(62);
        push_char(&mut r, charset_char(idx));
        i = i + 1;
    }
    r
}

/// `n` random characters, each drawn from the ASCII letters and digits.
pub fn random_alphanumeric_string(n: usize) -> (r: String)
    ensures
        r@.len() == n,
        forall|i: int| 0 <= i < n ==> is_token_char(#[trigger] r@[i]),
{
    let mut r = String::new();
    let mut i: usize = 0;
    while i < n
        invariant
            i <= n,
            r@.len() == i,
            forall|k: int| 0 <= k < i ==> is_token_char(#[trigger] r@[k]),
        decreases n - i,
    {
        let b = random_alphanumeric();
        let c = b as char;
        push_char(&mut r, c);
        i = i + 1;
    }
    r
}

} // verus!
