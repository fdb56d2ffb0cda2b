//! Explicit per-network configuration: the fixed field widths, the
//! distinguished noop program identifier, and the selected primitive
//! instantiations. Every construction and decoding call receives the
//! configuration explicitly; there is no ambient global parameter set.

use vstd::prelude::*;
use crate::ports::{CommitmentScheme, EncryptionScheme, SerialNumberPrf};
use crate::schemes::{FoldCommitment, MixPrf, StreamEncryption};
use crate::bytes::zero_bytes;

verus! {

/// The protocol-wide ceiling on an encoded record plaintext, in bytes.
pub const PLAINTEXT_BYTE_CEILING: u64 = 65535;

/// The fixed widths and distinguished identifiers of one network.
pub struct NetworkParameters {
    /// Width of an owner address in bytes; at least one full word, so the
    /// leading word of a decrypted owner field witnesses the key used.
    pub address_size: usize,
    /// Width of a record payload in bytes.
    pub payload_size: usize,
    /// Width of a program identifier in bytes.
    pub program_id_size: usize,
    /// The distinguished identifier marking non-programmatic records.
    pub noop_program_id: Vec<u8>,
}

impl NetworkParameters {
    /// Parameter-set validity: the noop identifier has the configured
    /// program-identifier width and addresses span at least one word.
    pub open spec fn wf(&self) -> bool {
        &&& self.noop_program_id@.len() == self.program_id_size
        &&& self.address_size >= 8
    }

    /// The width of an encoded record plaintext:
    /// owner, dummy flag, value, payload, program identifier.
    pub open spec fn spec_plaintext_len(&self) -> int {
        self.address_size + 1 + 8 + self.payload_size + self.program_id_size
    }

    /// The width of the binary record form: owner, value, payload, program
    /// identifier, randomizer, record view key.
    pub open spec fn spec_record_byte_len(&self) -> int {
        self.address_size + 8 + self.payload_size + self.program_id_size + 8 + 8
    }

    /// The width of a record ciphertext: the public randomizer followed by
    /// the encrypted plaintext.
    pub open spec fn spec_ciphertext_len(&self) -> int {
        8 + self.spec_plaintext_len()
    }

    /// Whether the encoded plaintext stays within the protocol ceiling.
    pub open spec fn spec_plaintext_fits(&self) -> bool {
        self.spec_plaintext_len() <= PLAINTEXT_BYTE_CEILING
    }

    /// The width of the binary record form, for serialization-length
    /// validation by callers.
    pub fn record_size_in_bytes(&self) -> (r: u128)
        ensures
            r == self.spec_record_byte_len(),
    {
        self.address_size as u128 + 8 + self.payload_size as u128 + self.program_id_size as u128
            + 16
    }

    /// Checks the plaintext ceiling executably.
    pub fn plaintext_fits(&self) -> (r: bool)
        ensures
            r == self.spec_plaintext_fits(),
    {
        let total: u128 = self.address_size as u128 + 1 + 8 + self.payload_size as u128
            + self.program_id_size as u128;
        total <= PLAINTEXT_BYTE_CEILING as u128
    }
}

/// One network: its parameters together with the primitive instantiations
/// the records of that network are built from.
pub struct Network<E: EncryptionScheme, C: CommitmentScheme, P: SerialNumberPrf> {
    /// Fixed widths and distinguished identifiers.
    pub parameters: NetworkParameters,
    /// The asymmetric/hybrid encryption scheme.
    pub encryption: E,
    /// The binding commitment scheme.
    pub commitment: C,
    /// The serial-number pseudorandom function.
    pub serial_number_prf: P,
}

impl<E: EncryptionScheme, C: CommitmentScheme, P: SerialNumberPrf> Network<E, C, P> {
    /// Network validity: valid parameters whose address width matches the
    /// encryption scheme's public-key width.
    pub open spec fn wf(&self) -> bool {
        &&& self.parameters.wf()
        &&& self.encryption.spec_public_key_len() == self.parameters.address_size
    }
}

/// A ready-made reference network over the verified schemes: 32-byte
/// addresses, 128-byte payloads, 48-byte program identifiers, and the
/// all-zero noop program identifier.
pub fn reference_network() -> (r: Network<StreamEncryption, FoldCommitment, MixPrf>)
    ensures
        r.wf(),
        r.parameters.address_size == 32,
        r.parameters.payload_size == 128,
        r.parameters.program_id_size == 48,
        forall|j: int| 0 <= j < 48 ==> r.parameters.noop_program_id@[j] == 0u8,
        r.encryption == (StreamEncryption { public_key_len: 32 }),
        r.commitment == (FoldCommitment {  }),
        r.serial_number_prf == (MixPrf {  }),
{
    Network {
        parameters: NetworkParameters {
            address_size: 32,
            payload_size: 128,
            program_id_size: 48,
            noop_program_id: zero_bytes(48),
        },
        encryption: StreamEncryption { public_key_len: 32 },
        commitment: FoldCommitment {  },
        serial_number_prf: MixPrf {  },
    }
}

} // verus!
