//! The record aggregate: an immutable note binding an owner, a value, an
//! opaque payload and a program identifier into a binding commitment and a
//! ciphertext only the owner (or a delegated viewer) can open, plus the
//! owner-authorized serial number marking a record as spent.

use vstd::prelude::*;
use vstd::bytes::{spec_u64_from_le_bytes, spec_u64_to_le_bytes, u64_from_le_bytes, u64_to_le_bytes};
use vstd::slice::slice_subrange;
use vstd::wrapping::u64_specs;
use crate::account::{Address, ComputeKey, ViewKey};
use crate::bytes::{bytes_eq, copy_bytes, push_bytes, sub_bytes};
use crate::codec::{
    decode_fields,
    decode_plaintext,
    encode_plaintext,
    is_dummy_fields,
    spec_is_dummy,
    spec_plaintext,
    spec_plaintext_flag_consistent,
    spec_plaintext_owner,
    spec_plaintext_payload,
    spec_plaintext_program_id,
    spec_plaintext_value,
};
use crate::entropy::sample_entropy;
use crate::errors::RecordError;
use crate::network::{Network, NetworkParameters};
use crate::payload::Payload;
use crate::ports::{CommitmentScheme, EncryptionScheme, SerialNumberPrf};

verus! {

/// Odd multiplier of the fixed hash-to-field deriving commitment randomness
/// from a record view key.
pub const COMMITMENT_RANDOMNESS_MULTIPLIER: u64 = 0x8cb92ba72f3d8dd7;

/// Mask XOR-ed into a record view key before the hash-to-field.
pub const COMMITMENT_RANDOMNESS_SALT: u64 = 0x52dce729dd0d4c33;

/// The commitment randomness derived deterministically from a record view
/// key.
pub open spec fn spec_commitment_randomness(record_view_key: u64) -> u64 {
    u64_specs::wrapping_mul(
        record_view_key ^ COMMITMENT_RANDOMNESS_SALT,
        COMMITMENT_RANDOMNESS_MULTIPLIER,
    )
}

/// The ciphertext of one record: the public randomizer followed by the
/// encrypted plaintext.
#[derive(Debug)]
pub struct RecordCiphertext {
    /// The ciphertext bytes.
    pub bytes: Vec<u8>,
}

impl View for RecordCiphertext {
    type V = Seq<u8>;

    open spec fn view(&self) -> Seq<u8> {
        self.bytes@
    }
}

impl RecordCiphertext {
    /// Wraps raw ciphertext bytes.
    pub fn from_bytes(bytes: Vec<u8>) -> (r: RecordCiphertext)
        ensures
            r@ == bytes@,
    {
        RecordCiphertext { bytes }
    }

    /// The ciphertext bytes.
    pub fn as_bytes(&self) -> (r: &Vec<u8>)
        ensures
            r@ == self@,
    {
        &self.bytes
    }

    /// The public randomizer published in the leading ciphertext word.
    pub fn ciphertext_randomizer(&self) -> (r: u64)
        requires
            self@.len() >= 8,
        ensures
            r == spec_u64_from_le_bytes(self@.subrange(0, 8)),
    {
        u64_from_le_bytes(slice_subrange(self.bytes.as_slice(), 0, 8))
    }
}

impl<E: EncryptionScheme, C: CommitmentScheme, P: SerialNumberPrf> Network<E, C, P> {
    /// The plaintext encoding of the given record fields on this network.
    pub open spec fn spec_record_plaintext(
        &self,
        owner: Seq<u8>,
        value: u64,
        payload: Seq<u8>,
        program_id: Seq<u8>,
    ) -> Seq<u8> {
        spec_plaintext(owner, value, payload, program_id, self.parameters.noop_program_id@)
    }

    /// The encrypted plaintext of the given record fields.
    pub open spec fn spec_ciphertext_body(
        &self,
        owner: Seq<u8>,
        value: u64,
        payload: Seq<u8>,
        program_id: Seq<u8>,
        record_view_key: u64,
    ) -> Seq<u8> {
        self.encryption.spec_encrypt(
            record_view_key,
            self.spec_record_plaintext(owner, value, payload, program_id),
        )
    }

    /// The published record ciphertext: randomizer, then encrypted plaintext.
    pub open spec fn spec_record_ciphertext(
        &self,
        owner: Seq<u8>,
        value: u64,
        payload: Seq<u8>,
        program_id: Seq<u8>,
        randomizer: u64,
        record_view_key: u64,
    ) -> Seq<u8> {
        spec_u64_to_le_bytes(randomizer) + self.spec_ciphertext_body(
            owner,
            value,
            payload,
            program_id,
            record_view_key,
        )
    }

    /// The commitment input: the tagged ciphertext (randomizer, key
    /// commitment, encrypted plaintext) followed by the owner bytes.
    pub open spec fn spec_commitment_input(
        &self,
        owner: Seq<u8>,
        value: u64,
        payload: Seq<u8>,
        program_id: Seq<u8>,
        randomizer: u64,
        record_view_key: u64,
    ) -> Seq<u8> {
        spec_u64_to_le_bytes(randomizer) + spec_u64_to_le_bytes(
            self.encryption.spec_key_commitment(record_view_key),
        ) + self.spec_ciphertext_body(owner, value, payload, program_id, record_view_key) + owner
    }

    /// The binding commitment of the given record fields.
    pub open spec fn spec_record_commitment(
        &self,
        owner: Seq<u8>,
        value: u64,
        payload: Seq<u8>,
        program_id: Seq<u8>,
        randomizer: u64,
        record_view_key: u64,
    ) -> u64 {
        self.commitment.spec_commit(
            self.spec_commitment_input(owner, value, payload, program_id, randomizer,
                record_view_key),
            spec_commitment_randomness(record_view_key),
        )
    }

    /// The record view key a viewer derives from a viewing key and the
    /// randomizer published in a ciphertext.
    pub open spec fn spec_recovered_key(&self, view_key: u64, ciphertext: Seq<u8>) -> u64 {
        self.encryption.spec_shared_key(
            self.encryption.spec_address(view_key),
            spec_u64_from_le_bytes(ciphertext.subrange(0, 8)),
        )
    }

    /// The plaintext a key opens a ciphertext to.
    pub open spec fn spec_opened_plaintext(&self, key: u64, ciphertext: Seq<u8>) -> Seq<u8> {
        self.encryption.spec_decrypt(key, ciphertext.subrange(8, ciphertext.len() as int))
    }
}

/// A confidential record. Immutable once constructed; every construction or
/// recovery path re-derives the commitment and the dummy predicate rather
/// than trusting them from input.
#[derive(Debug)]
pub struct Record {
    /// The record owner's address.
    pub owner: Address,
    /// The record value; zero is the sentinel for "no value".
    pub value: u64,
    /// The opaque application payload.
    pub payload: Payload,
    /// The identifier of the program governing this record.
    pub program_id: Vec<u8>,
    /// The public per-record nonce published inside the ciphertext.
    pub randomizer: u64,
    /// The symmetric key unique to this record.
    pub record_view_key: u64,
    /// The binding commitment over the tagged ciphertext and the owner.
    pub commitment: u64,
}

impl Record {
    /// Record validity on a network: every field has its configured width,
    /// the encoding fits the protocol ceiling, and the commitment equals the
    /// one re-derived from the fields.
    pub open spec fn valid<E: EncryptionScheme, C: CommitmentScheme, P: SerialNumberPrf>(
        &self,
        network: &Network<E, C, P>,
    ) -> bool {
        &&& self.owner@.len() == network.parameters.address_size
        &&& self.payload@.len() == network.parameters.payload_size
        &&& self.program_id@.len() == network.parameters.program_id_size
        &&& network.parameters.spec_plaintext_fits()
        &&& self.commitment == network.spec_record_commitment(
            self.owner@,
            self.value,
            self.payload@,
            self.program_id@,
            self.randomizer,
            self.record_view_key,
        )
    }

    /// The fixed hash-to-field deriving commitment randomness from a record
    /// view key.
    pub fn record_view_key_to_comm_randomness(record_view_key: u64) -> (r: u64)
        ensures
            r == spec_commitment_randomness(record_view_key),
    {
        (record_view_key ^ COMMITMENT_RANDOMNESS_SALT).wrapping_mul(
            COMMITMENT_RANDOMNESS_MULTIPLIER,
        )
    }

    /// Builds a record from explicit key material: encodes the plaintext,
    /// encrypts it, and derives the binding commitment over the tagged
    /// ciphertext and the owner.
    ///
    /// Fails with `PlaintextTooLarge` exactly when the configured widths
    /// push the encoding past the protocol ceiling.
    pub fn from<E: EncryptionScheme, C: CommitmentScheme, P: SerialNumberPrf>(
        network: &Network<E, C, P>,
        owner: Address,
        value: u64,
        payload: Payload,
        program_id: Vec<u8>,
        randomizer: u64,
        record_view_key: u64,
    ) -> (r: Result<Record, RecordError>)
        requires
            network.wf(),
            owner@.len() == network.parameters.address_size,
            payload@.len() == network.parameters.payload_size,
            program_id@.len() == network.parameters.program_id_size,
        ensures
            network.parameters.spec_plaintext_fits() ==> (r matches Ok(rec) && {
                &&& rec.owner@ == owner@
                &&& rec.value == value
                &&& rec.payload@ == payload@
                &&& rec.program_id@ == program_id@
                &&& rec.randomizer == randomizer
                &&& rec.record_view_key == record_view_key
                &&& rec.valid(network)
            }),
            !network.parameters.spec_plaintext_fits() ==> r == Err::<
                Record,
                RecordError,
            >(RecordError::PlaintextTooLarge),
    {
        let plaintext = match encode_plaintext(&network.parameters, &owner, value, &payload,
            &program_id) {
            Ok(plaintext) => plaintext,
            Err(e) => {
                return Err(e);
            },
        };
        let body = network.encryption.encrypt(record_view_key, &plaintext);
        let tag = network.encryption.generate_key_commitment(record_view_key);
        let randomizer_bytes = u64_to_le_bytes(randomizer);
        let tag_bytes = u64_to_le_bytes(tag);
        let mut commitment_input: Vec<u8> = Vec::new();
        push_bytes(&mut commitment_input, &randomizer_bytes);
        push_bytes(&mut commitment_input, &tag_bytes);
        push_bytes(&mut commitment_input, &body);
        push_bytes(&mut commitment_input, owner.as_bytes());
        proof {
            assert(commitment_input@ =~= network.spec_commitment_input(owner@, value, payload@,
                program_id@, randomizer, record_view_key));
        }
        let commitment_randomness = Self::record_view_key_to_comm_randomness(record_view_key);
        let commitment = network.commitment.commit(&commitment_input, commitment_randomness);
        Ok(
            Record {
                owner,
                value,
                payload,
                program_id,
                randomizer,
                record_view_key,
                commitment,
            },
        )
    }

    /// Constructs a fresh record for `owner`: samples fresh entropy, runs the
    /// asymmetric key agreement against the owner's address, and builds the
    /// record from the derived key material. Whatever entropy was drawn, the
    /// record view key is the shared key of the owner address and the
    /// published randomizer.
    pub fn new<E: EncryptionScheme, C: CommitmentScheme, P: SerialNumberPrf>(
        network: &Network<E, C, P>,
        owner: Address,
        value: u64,
        payload: Payload,
        program_id: Vec<u8>,
    ) -> (r: Result<Record, RecordError>)
        requires
            network.wf(),
            owner@.len() == network.parameters.address_size,
            payload@.len() == network.parameters.payload_size,
            program_id@.len() == network.parameters.program_id_size,
        ensures
            network.parameters.spec_plaintext_fits() ==> (r matches Ok(rec) && {
                &&& rec.owner@ == owner@
                &&& rec.value == value
                &&& rec.payload@ == payload@
                &&& rec.program_id@ == program_id@
                &&& rec.record_view_key == network.encryption.spec_shared_key(
                    owner@,
                    rec.randomizer,
                )
                &&& rec.valid(network)
            }),
            !network.parameters.spec_plaintext_fits() ==> r == Err::<
                Record,
                RecordError,
            >(RecordError::PlaintextTooLarge),
    {
        let entropy = sample_entropy();
        let (randomizer, record_view_key) = network.encryption.generate_asymmetric_key(
            owner.as_bytes(),
            entropy,
        );
        Self::from(network, owner, value, payload, program_id, randomizer, record_view_key)
    }

    /// Constructs a fresh noop record for `owner`: zero value, empty payload,
    /// the noop program identifier.
    pub fn new_noop<E: EncryptionScheme, C: CommitmentScheme, P: SerialNumberPrf>(
        network: &Network<E, C, P>,
        owner: Address,
    ) -> (r: Result<Record, RecordError>)
        requires
            network.wf(),
            owner@.len() == network.parameters.address_size,
        ensures
            network.parameters.spec_plaintext_fits() ==> (r matches Ok(rec) && {
                &&& rec.owner@ == owner@
                &&& rec.value == 0
                &&& rec.payload@.len() == network.parameters.payload_size
                &&& rec.program_id@ == network.parameters.noop_program_id@
                &&& spec_is_dummy(rec.value, rec.payload@, rec.program_id@,
                    network.parameters.noop_program_id@)
                &&& rec.record_view_key == network.encryption.spec_shared_key(
                    owner@,
                    rec.randomizer,
                )
                &&& rec.valid(network)
            }),
            !network.parameters.spec_plaintext_fits() ==> r == Err::<
                Record,
                RecordError,
            >(RecordError::PlaintextTooLarge),
    {
        let payload = Payload::empty(network.parameters.payload_size);
        let program_id = copy_bytes(&network.parameters.noop_program_id);
        Self::new(network, owner, 0, payload, program_id)
    }

    /// Re-derives this record's published ciphertext from its own randomizer
    /// and record view key: the randomizer word followed by the freshly
    /// computed encryption of the plaintext. A pure re-derivation; no
    /// randomness is consumed.
    pub fn encrypt<E: EncryptionScheme, C: CommitmentScheme, P: SerialNumberPrf>(
        &self,
        network: &Network<E, C, P>,
    ) -> (r: Result<RecordCiphertext, RecordError>)
        requires
            network.wf(),
            self.owner@.len() == network.parameters.address_size,
            self.payload@.len() == network.parameters.payload_size,
            self.program_id@.len() == network.parameters.program_id_size,
        ensures
            network.parameters.spec_plaintext_fits() ==> (r matches Ok(ct) && ct@
                == network.spec_record_ciphertext(
                self.owner@,
                self.value,
                self.payload@,
                self.program_id@,
                self.randomizer,
                self.record_view_key,
            )),
            !network.parameters.spec_plaintext_fits() ==> r == Err::<
                RecordCiphertext,
                RecordError,
            >(RecordError::PlaintextTooLarge),
    {
        let plaintext = match encode_plaintext(&network.parameters, &self.owner, self.value,
            &self.payload, &self.program_id) {
            Ok(plaintext) => plaintext,
            Err(e) => {
                return Err(e);
            },
        };
        let body = network.encryption.encrypt(self.record_view_key, &plaintext);
        let mut bytes = u64_to_le_bytes(self.randomizer);
        push_bytes(&mut bytes, &body);
        proof {
            assert(bytes@ =~= network.spec_record_ciphertext(self.owner@, self.value,
                self.payload@, self.program_id@, self.randomizer, self.record_view_key));
        }
        Ok(RecordCiphertext { bytes })
    }

    /// Recovers a record from an account-level viewing key and a ciphertext:
    /// re-derives the record view key from the published randomizer,
    /// decrypts, decodes, checks that the decoded owner is the viewing key's
    /// address, re-checks the dummy flag, and re-derives the commitment.
    ///
    /// Fails with `IncorrectOwner` when the opened owner field is not the
    /// viewing key's address — the caller's key does not own this record.
    pub fn from_account_view_key<E: EncryptionScheme, C: CommitmentScheme, P: SerialNumberPrf>(
        network: &Network<E, C, P>,
        account_view_key: &ViewKey,
        ciphertext: &RecordCiphertext,
    ) -> (r: Result<Record, RecordError>)
        requires
            network.wf(),
        ensures
            ({
                let key = network.spec_recovered_key(account_view_key.key, ciphertext@);
                let pt = network.spec_opened_plaintext(key, ciphertext@);
                let expected_owner = network.encryption.spec_address(account_view_key.key);
                &&& ciphertext@.len() != network.parameters.spec_ciphertext_len() ==> r == Err::<
                    Record,
                    RecordError,
                >(RecordError::InvalidLength)
                &&& ciphertext@.len() == network.parameters.spec_ciphertext_len() ==> {
                    &&& spec_plaintext_owner(network.parameters, pt) != expected_owner ==> r
                        == Err::<Record, RecordError>(RecordError::IncorrectOwner)
                    &&& spec_plaintext_owner(network.parameters, pt) == expected_owner
                        && !spec_plaintext_flag_consistent(network.parameters, pt) ==> r == Err::<
                        Record,
                        RecordError,
                    >(RecordError::MalformedDummyFlag)
                    &&& spec_plaintext_owner(network.parameters, pt) == expected_owner
                        && spec_plaintext_flag_consistent(network.parameters, pt)
                        && !network.parameters.spec_plaintext_fits() ==> r == Err::<
                        Record,
                        RecordError,
                    >(RecordError::PlaintextTooLarge)
                    &&& spec_plaintext_owner(network.parameters, pt) == expected_owner
                        && spec_plaintext_flag_consistent(network.parameters, pt)
                        && network.parameters.spec_plaintext_fits() ==> (r matches Ok(rec) && {
                        &&& rec.owner@ == expected_owner
                        &&& rec.value == spec_plaintext_value(network.parameters, pt)
                        &&& rec.payload@ == spec_plaintext_payload(network.parameters, pt)
                        &&& rec.program_id@ == spec_plaintext_program_id(network.parameters, pt)
                        &&& rec.randomizer == spec_u64_from_le_bytes(ciphertext@.subrange(0, 8))
                        &&& rec.record_view_key == key
                        &&& rec.valid(network)
                    })
                }
            }),
    {
        let expected: u128 = 8 + network.parameters.address_size as u128 + 1 + 8
            + network.parameters.payload_size as u128 + network.parameters.program_id_size
            as u128;
        if ciphertext.bytes.len() as u128 != expected {
            return Err(RecordError::InvalidLength);
        }
        let randomizer = ciphertext.ciphertext_randomizer();
        let record_view_key = network.encryption.generate_symmetric_key(
            account_view_key.key,
            randomizer,
        );
        let body = sub_bytes(&ciphertext.bytes, 8, ciphertext.bytes.len() - 8);
        let plaintext = network.encryption.decrypt(record_view_key, &body);
        proof {
            network.encryption.lemma_decrypt_len(record_view_key, body@);
            assert(body@ =~= ciphertext@.subrange(8, ciphertext@.len() as int));
        }
        let (owner, flag, value, payload, program_id) = match decode_fields(&network.parameters,
            &plaintext) {
            Ok(fields) => fields,
            Err(e) => {
                return Err(e);
            },
        };
        let expected_owner = Address::from_view_key(&network.encryption, account_view_key);
        if !bytes_eq(&owner.bytes, &expected_owner.bytes) {
            return Err(RecordError::IncorrectOwner);
        }
        let expected_flag: u8 = if is_dummy_fields(&network.parameters, value, &payload,
            &program_id) {
            1
        } else {
            0
        };
        if flag != expected_flag {
            return Err(RecordError::MalformedDummyFlag);
        }
        Self::from(network, owner, value, payload, program_id, randomizer, record_view_key)
    }

    /// Recovers a record from its exact record view key and a ciphertext:
    /// decrypts, decodes with the dummy-flag re-check, and re-derives the
    /// commitment. No ownership check is performed; possession of the record
    /// view key is the authorization.
    pub fn from_record_view_key<E: EncryptionScheme, C: CommitmentScheme, P: SerialNumberPrf>(
        network: &Network<E, C, P>,
        record_view_key: u64,
        ciphertext: &RecordCiphertext,
    ) -> (r: Result<Record, RecordError>)
        requires
            network.wf(),
        ensures
            ({
                let pt = network.spec_opened_plaintext(record_view_key, ciphertext@);
                &&& ciphertext@.len() != network.parameters.spec_ciphertext_len() ==> r == Err::<
                    Record,
                    RecordError,
                >(RecordError::InvalidLength)
                &&& ciphertext@.len() == network.parameters.spec_ciphertext_len() ==> {
                    &&& !spec_plaintext_flag_consistent(network.parameters, pt) ==> r == Err::<
                        Record,
                        RecordError,
                    >(RecordError::MalformedDummyFlag)
                    &&& spec_plaintext_flag_consistent(network.parameters, pt)
                        && !network.parameters.spec_plaintext_fits() ==> r == Err::<
                        Record,
                        RecordError,
                    >(RecordError::PlaintextTooLarge)
                    &&& spec_plaintext_flag_consistent(network.parameters, pt)
                        && network.parameters.spec_plaintext_fits() ==> (r matches Ok(rec) && {
                        &&& rec.owner@ == spec_plaintext_owner(network.parameters, pt)
                        &&& rec.value == spec_plaintext_value(network.parameters, pt)
                        &&& rec.payload@ == spec_plaintext_payload(network.parameters, pt)
                        &&& rec.program_id@ == spec_plaintext_program_id(network.parameters, pt)
                        &&& rec.randomizer == spec_u64_from_le_bytes(ciphertext@.subrange(0, 8))
                        &&& rec.record_view_key == record_view_key
                        &&& rec.valid(network)
                    })
                }
            }),
    {
        let expected: u128 = 8 + network.parameters.address_size as u128 + 1 + 8
            + network.parameters.payload_size as u128 + network.parameters.program_id_size
            as u128;
        if ciphertext.bytes.len() as u128 != expected {
            return Err(RecordError::InvalidLength);
        }
        let randomizer = ciphertext.ciphertext_randomizer();
        let body = sub_bytes(&ciphertext.bytes, 8, ciphertext.bytes.len() - 8);
        let plaintext = network.encryption.decrypt(record_view_key, &body);
        proof {
            network.encryption.lemma_decrypt_len(record_view_key, body@);
            assert(body@ =~= ciphertext@.subrange(8, ciphertext@.len() as int));
        }
        let (owner, value, payload, program_id) = match decode_plaintext(&network.parameters,
            &plaintext) {
            Ok(fields) => fields,
            Err(e) => {
                return Err(e);
            },
        };
        Self::from(network, owner, value, payload, program_id, randomizer, record_view_key)
    }

    /// Derives the serial number of this record under `compute_key`.
    ///
    /// Fails with `IncorrectComputeKey` exactly when the compute key's
    /// derived address is not the record owner; on success the serial number
    /// is the PRF of the record commitment under the compute key's secret,
    /// so identical `(compute key, record)` pairs always yield the identical
    /// serial number.
    pub fn to_serial_number<E: EncryptionScheme, C: CommitmentScheme, P: SerialNumberPrf>(
        &self,
        network: &Network<E, C, P>,
        compute_key: &ComputeKey,
    ) -> (r: Result<u64, RecordError>)
        ensures
            self.owner@ != network.encryption.spec_address(compute_key.scalar) ==> r == Err::<
                u64,
                RecordError,
            >(RecordError::IncorrectComputeKey),
            self.owner@ == network.encryption.spec_address(compute_key.scalar) ==> r == Ok::<
                u64,
                RecordError,
            >(network.serial_number_prf.spec_evaluate(compute_key.sk_prf, self.commitment)),
    {
        let expected_owner = Address::from_compute_key(&network.encryption, compute_key);
        if !bytes_eq(&self.owner.bytes, &expected_owner.bytes) {
            return Err(RecordError::IncorrectComputeKey);
        }
        let seed = compute_key.sk_prf();
        Ok(network.serial_number_prf.evaluate(seed, self.commitment))
    }

    /// Whether this record is a dummy: zero value, empty payload, the noop
    /// program identifier. Recomputed from the fields, never stored.
    pub fn is_dummy(&self, parameters: &NetworkParameters) -> (r: bool)
        ensures
            r == spec_is_dummy(self.value, self.payload@, self.program_id@,
                parameters.noop_program_id@),
    {
        is_dummy_fields(parameters, self.value, &self.payload, &self.program_id)
    }

    /// The record owner.
    pub fn owner(&self) -> (r: Address)
        ensures
            r@ == self.owner@,
    {
        self.owner.clone()
    }

    /// The record value.
    pub fn value(&self) -> (r: u64)
        ensures
            r == self.value,
    {
        self.value
    }

    /// The record payload.
    pub fn payload(&self) -> (r: &Payload)
        ensures
            r@ == self.payload@,
    {
        &self.payload
    }

    /// The identifier of the program governing this record.
    pub fn program_id(&self) -> (r: Vec<u8>)
        ensures
            r@ == self.program_id@,
    {
        copy_bytes(&self.program_id)
    }

    /// The randomizer used for the ciphertext.
    pub fn randomizer(&self) -> (r: u64)
        ensures
            r == self.randomizer,
    {
        self.randomizer
    }

    /// The view key of this record.
    pub fn record_view_key(&self) -> (r: u64)
        ensures
            r == self.record_view_key,
    {
        self.record_view_key
    }

    /// The commitment of this record.
    pub fn commitment(&self) -> (r: u64)
        ensures
            r == self.commitment,
    {
        self.commitment
    }
}

impl Clone for Record {
    /// Clones the record, preserving every field.
    fn clone(&self) -> (r: Record)
        ensures
            r.owner@ == self.owner@,
            r.value == self.value,
            r.payload@ == self.payload@,
            r.program_id@ == self.program_id@,
            r.randomizer == self.randomizer,
            r.record_view_key == self.record_view_key,
            r.commitment == self.commitment,
    {
        Record {
            owner: self.owner.clone(),
            value: self.value,
            payload: self.payload.clone(),
            program_id: copy_bytes(&self.program_id),
            randomizer: self.randomizer,
            record_view_key: self.record_view_key,
            commitment: self.commitment,
        }
    }
}

impl PartialEq for Record {
    fn eq(&self, other: &Record) -> (r: bool) {
        bytes_eq(&self.owner.bytes, &other.owner.bytes) && self.value == other.value && bytes_eq(
            &self.payload.bytes,
            &other.payload.bytes,
        ) && bytes_eq(&self.program_id, &other.program_id) && self.randomizer == other.randomizer
            && self.record_view_key == other.record_view_key && self.commitment
            == other.commitment
    }
}

impl vstd::std_specs::cmp::PartialEqSpecImpl for Record {
    open spec fn obeys_eq_spec() -> bool {
        true
    }

    open spec fn eq_spec(&self, other: &Record) -> bool {
        &&& self.owner@ == other.owner@
        &&& self.value == other.value
        &&& self.payload@ == other.payload@
        &&& self.program_id@ == other.program_id@
        &&& self.randomizer == other.randomizer
        &&& self.record_view_key == other.record_view_key
        &&& self.commitment == other.commitment
    }
}

impl Eq for Record {

}

} // verus!
