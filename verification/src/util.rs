//! Random names.

use rand::Rng;
use vstd::prelude::*;

verus! {

/// Whether `c` is an ASCII letter or digit.
pub open spec fn alphanumeric(c: char) -> bool {
    ('0' <= c && c <= '9') || ('A' <= c && c <= 'Z') || ('a' <= c && c <= 'z')
}

/// Whether `name` is made of ASCII letters and digits only.
pub open spec fn all_alphanumeric(name: Seq<char>) -> bool {
    forall|i: int| 0 <= i < name.len() ==> alphanumeric(#[trigger] name[i])
}

/// Draws `len` characters from `rand::distr::Alphanumeric` with the
/// thread's generator. Each call gives another string; each one has `len`
/// characters, all of them ASCII letters or digits.
#[verifier::external_body]
fn sample_alphanumeric(len: usize) -> (name: String)
    ensures
        name@.len() == len,
        all_alphanumeric(name@),
{
    rand::rng().sample_iter(rand::distr::Alphanumeric).take(len).map(char::from).collect()
}

/// How many characters a random name has.
pub const NAME_LEN: usize = 8;

/// A random name of `NAME_LEN` letters and digits.
pub fn random_alpha_num() -> (name: String)
    ensures
        name@.len() == NAME_LEN,
        all_alphanumeric(name@),
{
    sample_alphanumeric(NAME_LEN)
}

} // verus!
