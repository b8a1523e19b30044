//! What this library takes on trust from the standard library and from the
//! `rand` crate. Nothing here is proved: each contract restates what the
//! documentation of the function promises.

use rand::rngs::ThreadRng;
use rand::Rng;
use vstd::prelude::*;

verus! {

/// `String::push` appends the given character to the end of the string.
pub assume_specification[ String::push ](s: &mut String, ch: char)
    ensures
        final(s)@ == old(s)@.push(ch),
;

/// `String::push_str` appends the given string slice to the end of the string.
pub assume_specification[ String::push_str ](s: &mut String, string: &str)
    ensures
        final(s)@ == old(s)@ + string@,
;

/// The random number generator of the current thread. Nothing is known of
/// what is inside.
#[verifier::external_type_specification]
#[verifier::external_body]
pub struct ExThreadRng(ThreadRng);

/// `rand::thread_rng` hands out the generator of the current thread. Nothing
/// is claimed of it.
pub assume_specification[ rand::thread_rng ]() -> (rng: ThreadRng)
;

/// `Rng::gen_range` on the range from `low` to `high`, both included: the
/// number that comes back lies in that range. Which one it is depends on
/// chance, so nothing more is claimed. On an empty range the call panics;
/// the precondition leaves that out.
#[verifier::external_body]
pub(crate) fn draw_between(rng: &mut ThreadRng, low: i32, high: i32) -> (number: i32)
    requires
        low <= high,
    ensures
        low <= number <= high,
{
    rng.gen_range(low..=high)
}

} // verus!
