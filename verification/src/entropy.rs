//! The single source of fresh randomness of this crate.

use vstd::prelude::*;

verus! {

/// Relies on rand::random::<u64>(): a fresh value from the thread-local
/// cryptographically secure generator. Nothing is promised of its value;
/// every caller states what holds of any outcome.
#[verifier::external_body]
pub(crate) fn sample_entropy() -> u64 {
    rand::random::<u64>()
}

} // verus!
