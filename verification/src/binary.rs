//! The compact binary record form: `owner ∥ value ∥ payload ∥ program
//! identifier ∥ randomizer ∥ record view key` at fixed total width. The
//! commitment is not stored; decoding rebuilds the record through
//! [`Record::from`], which re-derives it, so a decoded record is consistent
//! by construction.

use vstd::prelude::*;
use vstd::bytes::{spec_u64_from_le_bytes, spec_u64_to_le_bytes, u64_from_le_bytes, u64_to_le_bytes};
use crate::account::Address;
use crate::bytes::{push_bytes, sub_bytes};
use crate::errors::RecordError;
use crate::network::{Network, NetworkParameters};
use crate::payload::Payload;
use crate::ports::{CommitmentScheme, EncryptionScheme, SerialNumberPrf};
use crate::record::Record;

verus! {

/// The binary encoding of the given record fields.
pub open spec fn spec_record_bytes(
    owner: Seq<u8>,
    value: u64,
    payload: Seq<u8>,
    program_id: Seq<u8>,
    randomizer: u64,
    record_view_key: u64,
) -> Seq<u8> {
    owner + spec_u64_to_le_bytes(value) + payload + program_id + spec_u64_to_le_bytes(randomizer)
        + spec_u64_to_le_bytes(record_view_key)
}

/// The owner field of a binary record form.
pub open spec fn spec_binary_owner(parameters: NetworkParameters, s: Seq<u8>) -> Seq<u8> {
    s.subrange(0, parameters.address_size as int)
}

/// The value field of a binary record form.
pub open spec fn spec_binary_value(parameters: NetworkParameters, s: Seq<u8>) -> u64 {
    spec_u64_from_le_bytes(s.subrange(parameters.address_size as int, parameters.address_size + 8))
}

/// The payload field of a binary record form.
pub open spec fn spec_binary_payload(parameters: NetworkParameters, s: Seq<u8>) -> Seq<u8> {
    s.subrange(
        parameters.address_size + 8,
        parameters.address_size + 8 + parameters.payload_size,
    )
}

/// The program-identifier field of a binary record form.
pub open spec fn spec_binary_program_id(parameters: NetworkParameters, s: Seq<u8>) -> Seq<u8> {
    s.subrange(
        parameters.address_size + 8 + parameters.payload_size,
        parameters.address_size + 8 + parameters.payload_size + parameters.program_id_size,
    )
}

/// The randomizer field of a binary record form.
pub open spec fn spec_binary_randomizer(parameters: NetworkParameters, s: Seq<u8>) -> u64 {
    spec_u64_from_le_bytes(
        s.subrange(
            parameters.address_size + 8 + parameters.payload_size + parameters.program_id_size,
            parameters.address_size + 8 + parameters.payload_size + parameters.program_id_size
                + 8,
        ),
    )
}

/// The record-view-key field of a binary record form.
pub open spec fn spec_binary_record_view_key(parameters: NetworkParameters, s: Seq<u8>) -> u64 {
    spec_u64_from_le_bytes(
        s.subrange(
            parameters.address_size + 8 + parameters.payload_size + parameters.program_id_size
                + 8,
            parameters.address_size + 8 + parameters.payload_size + parameters.program_id_size
                + 16,
        ),
    )
}

impl Record {
    /// Encodes this record into its fixed-width binary form.
    pub fn to_bytes_le(&self) -> (r: Vec<u8>)
        ensures
            r@ == spec_record_bytes(
                self.owner@,
                self.value,
                self.payload@,
                self.program_id@,
                self.randomizer,
                self.record_view_key,
            ),
    {
        let mut out: Vec<u8> = Vec::new();
        push_bytes(&mut out, self.owner.as_bytes());
        let value_bytes = u64_to_le_bytes(self.value);
        push_bytes(&mut out, &value_bytes);
        push_bytes(&mut out, self.payload.as_bytes());
        push_bytes(&mut out, &self.program_id);
        let randomizer_bytes = u64_to_le_bytes(self.randomizer);
        push_bytes(&mut out, &randomizer_bytes);
        let key_bytes = u64_to_le_bytes(self.record_view_key);
        push_bytes(&mut out, &key_bytes);
        proof {
            assert(out@ =~= spec_record_bytes(self.owner@, self.value, self.payload@,
                self.program_id@, self.randomizer, self.record_view_key));
        }
        out
    }

    /// Decodes the fixed-width binary form and rebuilds the record, letting
    /// [`Record::from`] re-derive the commitment.
    ///
    /// Fails with `InvalidLength` exactly when the input does not have the
    /// configured total width.
    pub fn read_le<E: EncryptionScheme, C: CommitmentScheme, P: SerialNumberPrf>(
        network: &Network<E, C, P>,
        bytes: &Vec<u8>,
    ) -> (r: Result<Record, RecordError>)
        requires
            network.wf(),
        ensures
            bytes@.len() != network.parameters.spec_record_byte_len() ==> r == Err::<
                Record,
                RecordError,
            >(RecordError::InvalidLength),
            bytes@.len() == network.parameters.spec_record_byte_len()
                && !network.parameters.spec_plaintext_fits() ==> r == Err::<
                Record,
                RecordError,
            >(RecordError::PlaintextTooLarge),
            bytes@.len() == network.parameters.spec_record_byte_len()
                && network.parameters.spec_plaintext_fits() ==> (r matches Ok(rec) && {
                &&& rec.owner@ == spec_binary_owner(network.parameters, bytes@)
                &&& rec.value == spec_binary_value(network.parameters, bytes@)
                &&& rec.payload@ == spec_binary_payload(network.parameters, bytes@)
                &&& rec.program_id@ == spec_binary_program_id(network.parameters, bytes@)
                &&& rec.randomizer == spec_binary_randomizer(network.parameters, bytes@)
                &&& rec.record_view_key == spec_binary_record_view_key(network.parameters, bytes@)
                &&& rec.valid(network)
            }),
    {
        let expected: u128 = network.parameters.address_size as u128 + 8
            + network.parameters.payload_size as u128 + network.parameters.program_id_size
            as u128 + 16;
        if bytes.len() as u128 != expected {
            return Err(RecordError::InvalidLength);
        }
        let a = network.parameters.address_size;
        let p = network.parameters.payload_size;
        let g = network.parameters.program_id_size;
        let owner_bytes = sub_bytes(bytes, 0, a);
        let value_bytes = sub_bytes(bytes, a, 8);
        let value = u64_from_le_bytes(value_bytes.as_slice());
        let payload_bytes = sub_bytes(bytes, a + 8, p);
        let program_id = sub_bytes(bytes, a + 8 + p, g);
        let randomizer_bytes = sub_bytes(bytes, a + 8 + p + g, 8);
        let randomizer = u64_from_le_bytes(randomizer_bytes.as_slice());
        let key_bytes = sub_bytes(bytes, a + 8 + p + g + 8, 8);
        let record_view_key = u64_from_le_bytes(key_bytes.as_slice());
        Self::from(
            network,
            Address { bytes: owner_bytes },
            value,
            Payload { bytes: payload_bytes },
            program_id,
            randomizer,
            record_view_key,
        )
    }
}

} // verus!
