//! The source of random bytes.

use vstd::prelude::*;

verus! {

/// A byte from `rand::random`, which draws it from the thread's generator.
/// Nothing is claimed of its value, and nothing was proved of the call: the
/// generator stops the process where the system gives it no seed.
#[verifier::external_body]
pub(crate) fn random_byte() -> u8 {
    rand::random::<u8>()
}

} // verus!
