//! Identifiers drawn at random: UUIDs, and the alphanumeric text of mock transaction
//! hashes.

use vstd::prelude::*;
use rand::Rng;

verus! {

/// A lower-case hexadecimal digit.
pub open spec fn is_lower_hex(c: char) -> bool {
    ('0' <= c && c <= '9') || ('a' <= c && c <= 'f')
}

/// The hyphenated lower-case notation of a version 4 UUID: 36 characters, hyphens at
/// 8, 13, 18 and 23, hexadecimal digits elsewhere, the version digit `4` at 14 and a
/// variant digit among `8 9 a b` at 19.
pub open spec fn is_uuid_text(s: Seq<char>) -> bool {
    &&& s.len() == 36
    &&& forall|i: int|
        0 <= i < 36 ==> if i == 8 || i == 13 || i == 18 || i == 23 {
            #[trigger] s[i] == '-'
        } else {
            is_lower_hex(s[i])
        }
    &&& s[14] == '4'
    &&& (s[19] == '8' || s[19] == '9' || s[19] == 'a' || s[19] == 'b')
}

/// An ASCII letter or digit.
pub open spec fn is_alphanumeric(c: char) -> bool {
    ('0' <= c && c <= '9') || ('a' <= c && c <= 'z') || ('A' <= c && c <= 'Z')
}

/// A new random UUID, written as `uuid::Uuid::new_v4().to_string()` writes it.
/// `new_v4` fixes the version and variant bits, and the `Display` of a `Uuid` is the
/// hyphenated lower-case form; the other digits are random, so only the shape is
/// stated.
#[verifier::external_body]
pub(crate) fn fresh_uuid() -> (id: String)
    ensures
        is_uuid_text(id@),
{
    uuid::Uuid::new_v4().to_string()
}

/// `n` characters sampled from `rand::distributions::Alphanumeric` with the thread's
/// generator: each is one of `A-Z`, `a-z`, `0-9`; which ones is left open.
#[verifier::external_body]
pub(crate) fn random_alphanumeric(n: usize) -> (chars: Vec<char>)
    ensures
        chars@.len() == n,
        forall|i: int| 0 <= i < n ==> is_alphanumeric(#[trigger] chars@[i]),
{
    rand::thread_rng().sample_iter(&rand::distributions::Alphanumeric).take(n).map(char::from).collect()
}

} // verus!
