//! Error kinds reported by record construction, recovery, serialization,
//! and serial-number derivation. Every failure aborts the operation and
//! surfaces one of these kinds; no partial record is ever returned.

use vstd::prelude::*;

verus! {

/// The error kinds of this crate.
#[derive(Debug, Clone, Copy, PartialEq, Eq, Structural)]
pub enum RecordError {
    /// The decoded owner does not match the viewing key's address
    /// (account-view recovery), or the derived record view key cannot
    /// open this ciphertext.
    IncorrectOwner,
    /// The compute key's derived address does not match the record's owner
    /// (serial-number derivation).
    IncorrectComputeKey,
    /// The commitment embedded in a human-readable record disagrees with the
    /// freshly recomputed one; carries `(embedded, recomputed)`.
    InvalidCommitment(u64, u64),
    /// The encoded dummy flag disagrees with the dummy predicate recomputed
    /// from the decoded fields.
    MalformedDummyFlag,
    /// The encoded plaintext would exceed the protocol-wide byte ceiling.
    PlaintextTooLarge,
    /// A byte input does not have the fixed width the network parameters
    /// prescribe.
    InvalidLength,
    /// A human-readable record does not follow the canonical text form.
    MalformedText,
}

impl RecordError {
    /// A short stable description of the error kind.
    pub fn description(&self) -> (r: &'static str)
        ensures
            r@.len() > 0,
    {
        proof {
            reveal_strlit("incorrect record owner");
            reveal_strlit("incorrect compute key");
            reveal_strlit("invalid record commitment");
            reveal_strlit("malformed dummy flag");
            reveal_strlit("record plaintext too large");
            reveal_strlit("invalid input length");
            reveal_strlit("malformed record text");
        }
        match self {
            RecordError::IncorrectOwner => "incorrect record owner",
            RecordError::IncorrectComputeKey => "incorrect compute key",
            RecordError::InvalidCommitment(_, _) => "invalid record commitment",
            RecordError::MalformedDummyFlag => "malformed dummy flag",
            RecordError::PlaintextTooLarge => "record plaintext too large",
            RecordError::InvalidLength => "invalid input length",
            RecordError::MalformedText => "malformed record text",
        }
    }
}

} // verus!
