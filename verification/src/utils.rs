//! Random values for identifiers and for trying things out.

use rand::distributions::Alphanumeric;
use rand::{thread_rng, Rng};
use vstd::prelude::*;

verus! {

/// A letter of the English alphabet, in either case, or a decimal digit.
pub open spec fn is_alphanumeric(c: char) -> bool {
    ||| 'a' as u32 <= c as u32 <= 'z' as u32
    ||| 'A' as u32 <= c as u32 <= 'Z' as u32
    ||| '0' as u32 <= c as u32 <= '9' as u32
}

/// A random token of `size` characters. The characters are what
/// `rand::distributions::Alphanumeric` samples with the generator of the
/// thread: each is one of the 62 letters and digits; which one is left to
/// chance.
#[verifier::external_body]
pub fn generate_random_token(size: usize) -> (token: String)
    ensures
        token@.len() == size,
        forall|i: int| 0 <= i < size ==> is_alphanumeric(#[trigger] token@[i]),
{
    thread_rng().sample_iter(&Alphanumeric).take(size).collect()
}

/// A random number from `min` up to, but not including, `max`, drawn by
/// `rand::Rng::gen_range` from the generator of the thread. An empty range
/// has no number to draw.
#[verifier::external_body]
pub fn generate_random_number(min: usize, max: usize) -> (number: usize)
    requires
        min < max,
    ensures
        min <= number < max,
{
    thread_rng().gen_range(min, max)
}

} // verus!
