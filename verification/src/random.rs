//! Unpredictable bytes from the operating system.

use vstd::prelude::*;

verus! {

/// The failure value of the `getrandom` crate, carried through unread.
#[verifier::external_type_specification]
#[verifier::external_body]
pub struct ExSourceError(getrandom::Error);

/// The entropy source gave no bytes.
#[derive(Clone, Copy, Debug, PartialEq, Eq, Structural)]
pub struct RandomError {}

/// Calls `getrandom::fill` on the whole buffer.
///
/// Trusted: the call keeps the buffer's length, since it writes through a
/// slice, and an empty buffer always succeeds, since the crate then returns
/// before it asks the operating system. Nothing is claimed of the bytes.
#[verifier::external_body]
fn system_fill(dest: &mut Vec<u8>) -> (outcome: Result<(), getrandom::Error>)
    ensures
        final(dest)@.len() == old(dest)@.len(),
        old(dest)@.len() == 0 ==> outcome is Ok,
{
    getrandom::fill(dest.as_mut_slice())
}

/// What the caller is told for an outcome of the entropy source.
pub fn settle(outcome: Result<(), getrandom::Error>) -> (told: Result<(), RandomError>)
    ensures
        told is Ok <==> outcome is Ok,
{
    match outcome {
        Ok(()) => Ok(()),
        Err(_) => Err(RandomError {}),
    }
}

/// Replaces every byte of the buffer with output of the system's entropy
/// source. The length stays; an empty buffer cannot fail. After a failure the
/// bytes must not be used.
pub fn fill(buffer: &mut Vec<u8>) -> (told: Result<(), RandomError>)
    ensures
        final(buffer)@.len() == old(buffer)@.len(),
        old(buffer)@.len() == 0 ==> told is Ok,
{
    let outcome = system_fill(buffer);
    settle(outcome)
}

} // verus!
