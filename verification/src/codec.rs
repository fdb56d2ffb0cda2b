//! The fixed-layout byte codec between record fields and a flat plaintext.
//!
//! Layout: `owner ∥ dummy flag ∥ value (little-endian) ∥ payload ∥
//! program identifier`, every width fixed by the network parameters and
//! independent of content. Decoding recomputes the dummy predicate from the
//! decoded fields and never trusts the encoded flag byte.

use vstd::prelude::*;
use vstd::bytes::{
    lemma_auto_spec_u64_to_from_le_bytes,
    spec_u64_from_le_bytes,
    spec_u64_to_le_bytes,
    u64_from_le_bytes,
    u64_to_le_bytes,
};
use crate::account::Address;
use crate::bytes::{bytes_eq, push_bytes, sub_bytes};
use crate::errors::RecordError;
use crate::network::NetworkParameters;
use crate::payload::{spec_payload_is_empty, Payload};

verus! {

/// The dummy predicate: a record is a dummy exactly when its value is zero,
/// its payload is empty, and its program identifier is the noop identifier.
pub open spec fn spec_is_dummy(
    value: u64,
    payload: Seq<u8>,
    program_id: Seq<u8>,
    noop_program_id: Seq<u8>,
) -> bool {
    value == 0 && spec_payload_is_empty(payload) && program_id == noop_program_id
}

/// The flag byte encoding the dummy predicate.
pub open spec fn spec_dummy_flag(
    value: u64,
    payload: Seq<u8>,
    program_id: Seq<u8>,
    noop_program_id: Seq<u8>,
) -> u8 {
    if spec_is_dummy(value, payload, program_id, noop_program_id) {
        1u8
    } else {
        0u8
    }
}

/// The fixed-layout plaintext encoding of the record fields.
pub open spec fn spec_plaintext(
    owner: Seq<u8>,
    value: u64,
    payload: Seq<u8>,
    program_id: Seq<u8>,
    noop_program_id: Seq<u8>,
) -> Seq<u8> {
    owner + seq![spec_dummy_flag(value, payload, program_id, noop_program_id)]
        + spec_u64_to_le_bytes(value) + payload + program_id
}

/// The owner field of an encoded plaintext.
pub open spec fn spec_plaintext_owner(parameters: NetworkParameters, pt: Seq<u8>) -> Seq<u8> {
    pt.subrange(0, parameters.address_size as int)
}

/// The flag byte of an encoded plaintext.
pub open spec fn spec_plaintext_flag(parameters: NetworkParameters, pt: Seq<u8>) -> u8 {
    pt[parameters.address_size as int]
}

/// The value field of an encoded plaintext.
pub open spec fn spec_plaintext_value(parameters: NetworkParameters, pt: Seq<u8>) -> u64 {
    spec_u64_from_le_bytes(
        pt.subrange(parameters.address_size + 1, parameters.address_size + 9),
    )
}

/// The payload field of an encoded plaintext.
pub open spec fn spec_plaintext_payload(parameters: NetworkParameters, pt: Seq<u8>) -> Seq<u8> {
    pt.subrange(
        parameters.address_size + 9,
        parameters.address_size + 9 + parameters.payload_size,
    )
}

/// The program-identifier field of an encoded plaintext.
pub open spec fn spec_plaintext_program_id(
    parameters: NetworkParameters,
    pt: Seq<u8>,
) -> Seq<u8> {
    pt.subrange(
        parameters.address_size + 9 + parameters.payload_size,
        parameters.address_size + 9 + parameters.payload_size + parameters.program_id_size,
    )
}

/// Whether the flag byte of an encoded plaintext agrees with the dummy
/// predicate recomputed from its decoded fields.
pub open spec fn spec_plaintext_flag_consistent(
    parameters: NetworkParameters,
    pt: Seq<u8>,
) -> bool {
    spec_plaintext_flag(parameters, pt) == spec_dummy_flag(
        spec_plaintext_value(parameters, pt),
        spec_plaintext_payload(parameters, pt),
        spec_plaintext_program_id(parameters, pt),
        parameters.noop_program_id@,
    )
}

/// Encoding then extracting returns the original fields, and the encoded
/// flag byte is consistent with them.
pub proof fn lemma_plaintext_round_trip(
    parameters: NetworkParameters,
    owner: Seq<u8>,
    value: u64,
    payload: Seq<u8>,
    program_id: Seq<u8>,
)
    requires
        parameters.wf(),
        owner.len() == parameters.address_size,
        payload.len() == parameters.payload_size,
        program_id.len() == parameters.program_id_size,
    ensures
        ({
            let pt = spec_plaintext(owner, value, payload, program_id,
                parameters.noop_program_id@);
            &&& pt.len() == parameters.spec_plaintext_len()
            &&& spec_plaintext_owner(parameters, pt) == owner
            &&& spec_plaintext_value(parameters, pt) == value
            &&& spec_plaintext_payload(parameters, pt) == payload
            &&& spec_plaintext_program_id(parameters, pt) == program_id
            &&& spec_plaintext_flag_consistent(parameters, pt)
        }),
{
    lemma_auto_spec_u64_to_from_le_bytes();
    let pt = spec_plaintext(owner, value, payload, program_id, parameters.noop_program_id@);
    assert(spec_plaintext_owner(parameters, pt) =~= owner);
    assert(pt.subrange(parameters.address_size + 1, parameters.address_size + 9)
        =~= spec_u64_to_le_bytes(value));
    assert(spec_plaintext_payload(parameters, pt) =~= payload);
    assert(spec_plaintext_program_id(parameters, pt) =~= program_id);
    assert(spec_plaintext_flag(parameters, pt) == spec_dummy_flag(value, payload, program_id,
        parameters.noop_program_id@));
}

/// Computes the dummy predicate executably.
pub fn is_dummy_fields(
    parameters: &NetworkParameters,
    value: u64,
    payload: &Payload,
    program_id: &Vec<u8>,
) -> (r: bool)
    ensures
        r == spec_is_dummy(value, payload@, program_id@, parameters.noop_program_id@),
{
    value == 0 && payload.is_empty() && bytes_eq(program_id, &parameters.noop_program_id)
}

/// Encodes the record fields into the fixed-layout plaintext.
///
/// Fails with `PlaintextTooLarge` exactly when the configured widths push
/// the encoding past the protocol ceiling.
pub fn encode_plaintext(
    parameters: &NetworkParameters,
    owner: &Address,
    value: u64,
    payload: &Payload,
    program_id: &Vec<u8>,
) -> (r: Result<Vec<u8>, RecordError>)
    requires
        parameters.wf(),
        owner@.len() == parameters.address_size,
        payload@.len() == parameters.payload_size,
        program_id@.len() == parameters.program_id_size,
    ensures
        parameters.spec_plaintext_fits() ==> (r matches Ok(pt) && pt@ == spec_plaintext(
            owner@,
            value,
            payload@,
            program_id@,
            parameters.noop_program_id@,
        )),
        !parameters.spec_plaintext_fits() ==> r == Err::<
            Vec<u8>,
            RecordError,
        >(RecordError::PlaintextTooLarge),
{
    if !parameters.plaintext_fits() {
        return Err(RecordError::PlaintextTooLarge);
    }
    let dummy = is_dummy_fields(parameters, value, payload, program_id);
    let mut out: Vec<u8> = Vec::new();
    push_bytes(&mut out, owner.as_bytes());
    if dummy {
        out.push(1);
    } else {
        out.push(0);
    }
    let value_bytes = u64_to_le_bytes(value);
    push_bytes(&mut out, &value_bytes);
    push_bytes(&mut out, payload.as_bytes());
    push_bytes(&mut out, program_id);
    proof {
        assert(out@ =~= spec_plaintext(owner@, value, payload@, program_id@,
            parameters.noop_program_id@));
    }
    Ok(out)
}

/// Splits a plaintext into its raw fields without judging the flag byte.
///
/// Fails with `InvalidLength` exactly when the input does not have the
/// fixed width the parameters prescribe.
pub fn decode_fields(
    parameters: &NetworkParameters,
    plaintext: &Vec<u8>,
) -> (r: Result<(Address, u8, u64, Payload, Vec<u8>), RecordError>)
    requires
        parameters.wf(),
    ensures
        plaintext@.len() != parameters.spec_plaintext_len() ==> r == Err::<
            (Address, u8, u64, Payload, Vec<u8>),
            RecordError,
        >(RecordError::InvalidLength),
        plaintext@.len() == parameters.spec_plaintext_len() ==> (r matches Ok(fields) && {
            &&& fields.0@ == spec_plaintext_owner(*parameters, plaintext@)
            &&& fields.1 == spec_plaintext_flag(*parameters, plaintext@)
            &&& fields.2 == spec_plaintext_value(*parameters, plaintext@)
            &&& fields.3@ == spec_plaintext_payload(*parameters, plaintext@)
            &&& fields.4@ == spec_plaintext_program_id(*parameters, plaintext@)
        }),
{
    let expected: u128 = parameters.address_size as u128 + 1 + 8 + parameters.payload_size
        as u128 + parameters.program_id_size as u128;
    if plaintext.len() as u128 != expected {
        return Err(RecordError::InvalidLength);
    }
    let owner_bytes = sub_bytes(plaintext, 0, parameters.address_size);
    let flag = plaintext[parameters.address_size];
    let value_bytes = sub_bytes(plaintext, parameters.address_size + 1, 8);
    let value = u64_from_le_bytes(value_bytes.as_slice());
    let payload_bytes = sub_bytes(plaintext, parameters.address_size + 9,
        parameters.payload_size);
    let program_id = sub_bytes(plaintext, parameters.address_size + 9 + parameters.payload_size,
        parameters.program_id_size);
    Ok((
        Address { bytes: owner_bytes },
        flag,
        value,
        Payload { bytes: payload_bytes },
        program_id,
    ))
}

/// Decodes a plaintext into the record fields, enforcing that the encoded
/// flag byte agrees with the recomputed dummy predicate.
pub fn decode_plaintext(
    parameters: &NetworkParameters,
    plaintext: &Vec<u8>,
) -> (r: Result<(Address, u64, Payload, Vec<u8>), RecordError>)
    requires
        parameters.wf(),
    ensures
        plaintext@.len() != parameters.spec_plaintext_len() ==> r == Err::<
            (Address, u64, Payload, Vec<u8>),
            RecordError,
        >(RecordError::InvalidLength),
        plaintext@.len() == parameters.spec_plaintext_len()
            && !spec_plaintext_flag_consistent(*parameters, plaintext@) ==> r == Err::<
            (Address, u64, Payload, Vec<u8>),
            RecordError,
        >(RecordError::MalformedDummyFlag),
        plaintext@.len() == parameters.spec_plaintext_len()
            && spec_plaintext_flag_consistent(*parameters, plaintext@) ==> (r matches Ok(fields)
            && {
            &&& fields.0@ == spec_plaintext_owner(*parameters, plaintext@)
            &&& fields.1 == spec_plaintext_value(*parameters, plaintext@)
            &&& fields.2@ == spec_plaintext_payload(*parameters, plaintext@)
            &&& fields.3@ == spec_plaintext_program_id(*parameters, plaintext@)
        }),
{
    let (owner, flag, value, payload, program_id) = match decode_fields(parameters, plaintext) {
        Ok(fields) => fields,
        Err(e) => {
            return Err(e);
        },
    };
    let expected_flag: u8 = if is_dummy_fields(parameters, value, &payload, &program_id) {
        1
    } else {
        0
    };
    if flag != expected_flag {
        return Err(RecordError::MalformedDummyFlag);
    }
    Ok((owner, value, payload, program_id))
}

} // verus!
