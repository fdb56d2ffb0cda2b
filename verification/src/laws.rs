//! The laws of the record core, stated over the same spec functions the
//! executable contracts use: the dummy predicate, both serialization round
//! trips, recovery correctness and ownership, and serial-number
//! authorization.

use vstd::prelude::*;
use vstd::bytes::{
    lemma_auto_spec_u64_to_from_le_bytes,
    spec_u64_from_le_bytes,
    spec_u64_to_le_bytes,
};
use crate::binary::{
    spec_binary_owner,
    spec_binary_payload,
    spec_binary_program_id,
    spec_binary_randomizer,
    spec_binary_record_view_key,
    spec_binary_value,
    spec_record_bytes,
};
use crate::codec::{
    lemma_plaintext_round_trip,
    spec_is_dummy,
    spec_plaintext_flag_consistent,
    spec_plaintext_owner,
    spec_plaintext_payload,
    spec_plaintext_program_id,
    spec_plaintext_value,
};
use crate::network::{Network, NetworkParameters};
use crate::payload::spec_payload_is_empty;
use crate::ports::{CommitmentScheme, EncryptionScheme, SerialNumberPrf};
use crate::record::Record;
use crate::schemes::{lemma_mix_prf_injective, FoldCommitment, MixPrf, StreamEncryption};
use crate::text::{lemma_text_round_trip, spec_record_text, spec_text_fields};

verus! {

/// The dummy predicate holds of exactly the zero-value, empty-payload,
/// noop records: a record constructed from `(0, empty payload, noop)` is a
/// dummy, and one with a nonzero value, a nonempty payload, or a non-noop
/// program identifier is not.
pub proof fn lemma_dummy_predicate(
    value: u64,
    payload: Seq<u8>,
    program_id: Seq<u8>,
    noop_program_id: Seq<u8>,
)
    ensures
        value == 0 && spec_payload_is_empty(payload) && program_id == noop_program_id
            ==> spec_is_dummy(value, payload, program_id, noop_program_id),
        value != 0 ==> !spec_is_dummy(value, payload, program_id, noop_program_id),
        !spec_payload_is_empty(payload) ==> !spec_is_dummy(value, payload, program_id,
            noop_program_id),
        program_id != noop_program_id ==> !spec_is_dummy(value, payload, program_id,
            noop_program_id),
{
}

/// Binary round trip: the binary form of a valid record decodes to the very
/// same fields, and the commitment re-derived from them is the record's own.
/// Together with the contracts of `to_bytes_le` and `read_le` this gives
/// `read_le(network, to_bytes_le(r)) == Ok(r)` for every valid record.
pub proof fn lemma_binary_round_trip<
    E: EncryptionScheme,
    C: CommitmentScheme,
    P: SerialNumberPrf,
>(network: &Network<E, C, P>, rec: Record)
    requires
        network.wf(),
        rec.valid(network),
    ensures
        ({
            let s = spec_record_bytes(rec.owner@, rec.value, rec.payload@, rec.program_id@,
                rec.randomizer, rec.record_view_key);
            &&& s.len() == network.parameters.spec_record_byte_len()
            &&& spec_binary_owner(network.parameters, s) == rec.owner@
            &&& spec_binary_value(network.parameters, s) == rec.value
            &&& spec_binary_payload(network.parameters, s) == rec.payload@
            &&& spec_binary_program_id(network.parameters, s) == rec.program_id@
            &&& spec_binary_randomizer(network.parameters, s) == rec.randomizer
            &&& spec_binary_record_view_key(network.parameters, s) == rec.record_view_key
            &&& network.spec_record_commitment(rec.owner@, rec.value, rec.payload@,
                rec.program_id@, rec.randomizer, rec.record_view_key) == rec.commitment
        }),
{
    lemma_auto_spec_u64_to_from_le_bytes();
    let s = spec_record_bytes(rec.owner@, rec.value, rec.payload@, rec.program_id@,
        rec.randomizer, rec.record_view_key);
    let a = rec.owner@.len() as int;
    let p = rec.payload@.len() as int;
    let g = rec.program_id@.len() as int;
    assert(spec_binary_owner(network.parameters, s) =~= rec.owner@);
    assert(s.subrange(a, a + 8) =~= spec_u64_to_le_bytes(rec.value));
    assert(spec_binary_payload(network.parameters, s) =~= rec.payload@);
    assert(spec_binary_program_id(network.parameters, s) =~= rec.program_id@);
    assert(s.subrange(a + 8 + p + g, a + 8 + p + g + 8) =~= spec_u64_to_le_bytes(
        rec.randomizer,
    ));
    assert(s.subrange(a + 8 + p + g + 8, a + 8 + p + g + 16) =~= spec_u64_to_le_bytes(
        rec.record_view_key,
    ));
}

/// Human-readable round trip: the canonical text of a valid record parses
/// back to the record's own fields, and the embedded commitment equals the
/// re-derived one. Together with the contracts of `encode_text` and
/// `decode_text` this gives `decode_text(network, encode_text(r)) == Ok(r)`.
pub proof fn lemma_text_encode_decode<
    E: EncryptionScheme,
    C: CommitmentScheme,
    P: SerialNumberPrf,
>(network: &Network<E, C, P>, rec: Record)
    requires
        network.wf(),
        rec.valid(network),
    ensures
        spec_text_fields(
            network.parameters,
            spec_record_text(rec.owner@, rec.value, rec.payload@, rec.program_id@,
                rec.randomizer, rec.record_view_key, rec.commitment),
        ) == Some(
            (rec.owner@, rec.value, rec.payload@, rec.program_id@, rec.randomizer,
            rec.record_view_key, rec.commitment),
        ),
        network.spec_record_commitment(rec.owner@, rec.value, rec.payload@, rec.program_id@,
            rec.randomizer, rec.record_view_key) == rec.commitment,
{
    lemma_text_round_trip(network.parameters, rec.owner@, rec.value, rec.payload@,
        rec.program_id@, rec.randomizer, rec.record_view_key, rec.commitment);
}

/// Human-readable tamper detection: text carrying any embedded commitment
/// other than the re-derived one still parses to those fields, so by the
/// contract of `decode_text` the decode fails with
/// `InvalidCommitment(embedded, recomputed)`.
pub proof fn lemma_text_commitment_mismatch<
    E: EncryptionScheme,
    C: CommitmentScheme,
    P: SerialNumberPrf,
>(
    network: &Network<E, C, P>,
    owner: Seq<u8>,
    value: u64,
    payload: Seq<u8>,
    program_id: Seq<u8>,
    randomizer: u64,
    record_view_key: u64,
    embedded: u64,
)
    requires
        network.wf(),
        owner.len() == network.parameters.address_size,
        payload.len() == network.parameters.payload_size,
        program_id.len() == network.parameters.program_id_size,
    ensures
        spec_text_fields(
            network.parameters,
            spec_record_text(owner, value, payload, program_id, randomizer, record_view_key,
                embedded),
        ) == Some((owner, value, payload, program_id, randomizer, record_view_key, embedded)),
{
    lemma_text_round_trip(network.parameters, owner, value, payload, program_id, randomizer,
        record_view_key, embedded);
}

/// Recovery correctness with the record's own view key: the published
/// ciphertext of a valid record opens back to exactly the record's
/// plaintext, and every decoded field is the original. Together with the
/// contract of `from_record_view_key` this gives
/// `from_record_view_key(network, r.record_view_key(), r.encrypt(network))
/// == Ok(r)`.
pub proof fn lemma_ciphertext_opens<
    E: EncryptionScheme,
    C: CommitmentScheme,
    P: SerialNumberPrf,
>(network: &Network<E, C, P>, rec: Record)
    requires
        network.wf(),
        rec.valid(network),
    ensures
        ({
            let ct = network.spec_record_ciphertext(rec.owner@, rec.value, rec.payload@,
                rec.program_id@, rec.randomizer, rec.record_view_key);
            let pt = network.spec_opened_plaintext(rec.record_view_key, ct);
            &&& ct.len() == network.parameters.spec_ciphertext_len()
            &&& spec_u64_from_le_bytes(ct.subrange(0, 8)) == rec.randomizer
            &&& pt == network.spec_record_plaintext(rec.owner@, rec.value, rec.payload@,
                rec.program_id@)
            &&& spec_plaintext_owner(network.parameters, pt) == rec.owner@
            &&& spec_plaintext_value(network.parameters, pt) == rec.value
            &&& spec_plaintext_payload(network.parameters, pt) == rec.payload@
            &&& spec_plaintext_program_id(network.parameters, pt) == rec.program_id@
            &&& spec_plaintext_flag_consistent(network.parameters, pt)
            &&& network.spec_record_commitment(rec.owner@, rec.value, rec.payload@,
                rec.program_id@, rec.randomizer, rec.record_view_key) == rec.commitment
        }),
{
    lemma_auto_spec_u64_to_from_le_bytes();
    let plaintext = network.spec_record_plaintext(rec.owner@, rec.value, rec.payload@,
        rec.program_id@);
    let body = network.encryption.spec_encrypt(rec.record_view_key, plaintext);
    let ct = network.spec_record_ciphertext(rec.owner@, rec.value, rec.payload@,
        rec.program_id@, rec.randomizer, rec.record_view_key);
    network.encryption.lemma_encrypt_len(rec.record_view_key, plaintext);
    assert(ct.subrange(0, 8) =~= spec_u64_to_le_bytes(rec.randomizer));
    assert(ct.subrange(8, ct.len() as int) =~= body);
    network.encryption.lemma_decrypt_encrypt(rec.record_view_key, plaintext);
    lemma_plaintext_round_trip(network.parameters, rec.owner@, rec.value, rec.payload@,
        rec.program_id@);
}

/// Recovery correctness with an account viewing key: for a valid record
/// whose owner is the viewing key's address and whose record view key is the
/// shared key of owner and randomizer — which `new` guarantees — the key
/// agreement re-derives exactly the record's own view key, and the
/// ciphertext opens back to the record's fields. Together with the contract
/// of `from_account_view_key` this gives
/// `from_account_view_key(network, view_key, r.encrypt(network)) == Ok(r)`.
pub proof fn lemma_recovery_correct<
    E: EncryptionScheme,
    C: CommitmentScheme,
    P: SerialNumberPrf,
>(network: &Network<E, C, P>, view_key: u64, rec: Record)
    requires
        network.wf(),
        rec.valid(network),
        rec.owner@ == network.encryption.spec_address(view_key),
        rec.record_view_key == network.encryption.spec_shared_key(rec.owner@, rec.randomizer),
    ensures
        ({
            let ct = network.spec_record_ciphertext(rec.owner@, rec.value, rec.payload@,
                rec.program_id@, rec.randomizer, rec.record_view_key);
            let pt = network.spec_opened_plaintext(rec.record_view_key, ct);
            &&& ct.len() == network.parameters.spec_ciphertext_len()
            &&& network.spec_recovered_key(view_key, ct) == rec.record_view_key
            &&& pt == network.spec_record_plaintext(rec.owner@, rec.value, rec.payload@,
                rec.program_id@)
            &&& spec_plaintext_owner(network.parameters, pt) == rec.owner@
            &&& spec_plaintext_value(network.parameters, pt) == rec.value
            &&& spec_plaintext_payload(network.parameters, pt) == rec.payload@
            &&& spec_plaintext_program_id(network.parameters, pt) == rec.program_id@
            &&& spec_plaintext_flag_consistent(network.parameters, pt)
            &&& network.spec_record_commitment(rec.owner@, rec.value, rec.payload@,
                rec.program_id@, rec.randomizer, rec.record_view_key) == rec.commitment
        }),
{
    lemma_ciphertext_opens(network, rec);
    lemma_auto_spec_u64_to_from_le_bytes();
    let ct = network.spec_record_ciphertext(rec.owner@, rec.value, rec.payload@,
        rec.program_id@, rec.randomizer, rec.record_view_key);
    assert(ct.subrange(0, 8) =~= spec_u64_to_le_bytes(rec.randomizer));
}

/// Recovery authorization: opening an honestly built ciphertext with any key
/// other than the record's own view key corrupts the decoded owner field, so
/// the ownership check of `from_account_view_key` cannot pass for the
/// record's owner: a viewer holding the wrong key never recovers this
/// record, and by the contract of `from_account_view_key` a successful
/// recovery always belongs to the caller's own address.
pub proof fn lemma_recovery_wrong_key<
    E: EncryptionScheme,
    C: CommitmentScheme,
    P: SerialNumberPrf,
>(network: &Network<E, C, P>, other_view_key: u64, rec: Record)
    requires
        network.wf(),
        rec.valid(network),
        rec.record_view_key == network.encryption.spec_shared_key(rec.owner@, rec.randomizer),
        ({
            let ct = network.spec_record_ciphertext(rec.owner@, rec.value, rec.payload@,
                rec.program_id@, rec.randomizer, rec.record_view_key);
            network.spec_recovered_key(other_view_key, ct) != rec.record_view_key
        }),
    ensures
        ({
            let ct = network.spec_record_ciphertext(rec.owner@, rec.value, rec.payload@,
                rec.program_id@, rec.randomizer, rec.record_view_key);
            let key = network.spec_recovered_key(other_view_key, ct);
            let pt = network.spec_opened_plaintext(key, ct);
            spec_plaintext_owner(network.parameters, pt) != rec.owner@
        }),
{
    lemma_auto_spec_u64_to_from_le_bytes();
    let plaintext = network.spec_record_plaintext(rec.owner@, rec.value, rec.payload@,
        rec.program_id@);
    let body = network.encryption.spec_encrypt(rec.record_view_key, plaintext);
    let ct = network.spec_record_ciphertext(rec.owner@, rec.value, rec.payload@,
        rec.program_id@, rec.randomizer, rec.record_view_key);
    let key = network.spec_recovered_key(other_view_key, ct);
    let pt = network.spec_opened_plaintext(key, ct);
    network.encryption.lemma_encrypt_len(rec.record_view_key, plaintext);
    assert(ct.subrange(8, ct.len() as int) =~= body);
    assert(plaintext.len() >= 8);
    network.encryption.lemma_wrong_key_corrupts(rec.record_view_key, key, plaintext);
    network.encryption.lemma_decrypt_len(key, body);
    let garbled = network.encryption.spec_decrypt(key, body);
    assert(pt == garbled);
    lemma_plaintext_round_trip(network.parameters, rec.owner@, rec.value, rec.payload@,
        rec.program_id@);
    let a = network.parameters.address_size as int;
    if spec_plaintext_owner(network.parameters, pt) == rec.owner@ {
        assert(forall|m: int| 0 <= m < a ==> pt[m] == rec.owner@[m]) by {
            assert(forall|m: int|
                0 <= m < a ==> pt[m] == #[trigger] pt.subrange(0, a)[m]);
        }
        assert(forall|m: int| 0 <= m < a ==> plaintext[m] == rec.owner@[m]) by {
            assert(forall|m: int|
                0 <= m < a ==> plaintext[m] == #[trigger] plaintext.subrange(0, a)[m]);
        }
        assert(pt.subrange(0, 8) =~= plaintext.subrange(0, 8));
        assert(false);
    }
}

/// Serial-number distinctness on the reference network: under one compute
/// key, two records with distinct commitments always get distinct serial
/// numbers, so a ledger recognizes a replayed spend as a duplicate serial
/// number. (Authorization and determinism are the contract of
/// `to_serial_number` itself: a compute key whose address is not the record
/// owner is rejected with `IncorrectComputeKey`, and on success the serial
/// number is a pure function of the compute key's PRF secret and the record
/// commitment.)
pub proof fn lemma_serial_numbers_distinct(
    network: &Network<StreamEncryption, FoldCommitment, MixPrf>,
    sk_prf: u64,
    rec1: Record,
    rec2: Record,
)
    requires
        rec1.commitment != rec2.commitment,
    ensures
        network.serial_number_prf.spec_evaluate(sk_prf, rec1.commitment)
            != network.serial_number_prf.spec_evaluate(sk_prf, rec2.commitment),
{
    lemma_mix_prf_injective(network.serial_number_prf, sk_prf, rec1.commitment, rec2.commitment);
}

/// Size ceiling: a parameter set whose fixed widths push the encoded
/// plaintext past the protocol ceiling never fits, so by the contracts of
/// `encode_plaintext`, `from`, `new` and `new_noop` every construction on
/// such a network fails with `PlaintextTooLarge`.
pub proof fn lemma_size_ceiling(parameters: NetworkParameters)
    ensures
        parameters.spec_plaintext_fits() <==> parameters.address_size + 1 + 8
            + parameters.payload_size + parameters.program_id_size <= 65535,
{
}

} // verus!
