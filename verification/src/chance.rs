//! What is left to chance: the numbers of passcodes and the identifiers
//! of links and stored files.

use vstd::prelude::*;

verus! {

/// Draws a number with `rand::Rng::gen_range` on the thread-local
/// generator of `rand::thread_rng`. The half-open range must not be empty;
/// the number drawn lies in it.
#[verifier::external_body]
pub(crate) fn random_in(low: u32, high: u32) -> (n: u32)
    requires
        low < high,
    ensures
        low <= n < high,
{
    rand::Rng::gen_range(&mut rand::thread_rng(), low..high)
}

/// Whether `c` is a digit or a letter from `a` to `f`.
pub open spec fn is_lower_hex(c: char) -> bool {
    ('0' <= c && c <= '9') || ('a' <= c && c <= 'f')
}

/// The hyphenated form of a random UUID: 36 characters, hyphens after the
/// groups of 8, 4, 4 and 4 lower-case hexadecimal digits, the version digit
/// `4` and a variant digit from `8` to `b`.
pub open spec fn is_uuid_text(token: Seq<char>) -> bool {
    &&& token.len() == 36
    &&& forall|i: int|
        0 <= i < 36 ==> if i == 8 || i == 13 || i == 18 || i == 23 {
            #[trigger] token[i] == '-'
        } else {
            is_lower_hex(token[i])
        }
    &&& token[14] == '4'
    &&& (token[19] == '8' || token[19] == '9' || token[19] == 'a' || token[19] == 'b')
}

/// Makes a random identifier: the text of `uuid::Uuid::new_v4`, which `to_string`
/// writes in the hyphenated lower-case form. Which digits come is left to
/// chance.
#[verifier::external_body]
pub(crate) fn fresh_uuid() -> (token: String)
    ensures
        is_uuid_text(token@),
{
    uuid::Uuid::new_v4().to_string()
}

} // verus!
