use rand::Rng;
use record_core::account::{Address, PrivateKey};
use record_core::codec::{decode_plaintext, encode_plaintext};
use record_core::errors::RecordError;
use record_core::network::{reference_network, Network, NetworkParameters};
use record_core::payload::Payload;
use record_core::record::{Record, RecordCiphertext};
use record_core::schemes::{FoldCommitment, MixPrf, StreamEncryption};

fn fresh_account(
    network: &Network<StreamEncryption, FoldCommitment, MixPrf>,
    seed: u64,
) -> (PrivateKey, Address) {
    let private_key = PrivateKey::from_seed(seed);
    let address = private_key.to_address(&network.encryption);
    (private_key, address)
}

fn random_payload(network: &Network<StreamEncryption, FoldCommitment, MixPrf>) -> Payload {
    let mut rng = rand::thread_rng();
    let mut bytes = vec![0u8; network.parameters.payload_size];
    rng.fill(&mut bytes[..]);
    Payload::from_bytes_le(&bytes)
}

fn noop_id(network: &Network<StreamEncryption, FoldCommitment, MixPrf>) -> Vec<u8> {
    network.parameters.noop_program_id.clone()
}

#[test]
fn test_serde_json_noop() {
    let network = reference_network();
    let (_, address) = fresh_account(&network, rand::random());

    // Noop record
    let expected_record = Record::new_noop(&network, address).unwrap();

    // Serialize
    let expected_text = expected_record.encode_text();
    let candidate_text = expected_record.encode_text();
    assert_eq!(expected_text, candidate_text);

    // Deserialize
    assert!(expected_record == Record::decode_text(&network, &expected_text).unwrap());
    assert!(expected_record == Record::decode_text(&network, &candidate_text).unwrap());
}

#[test]
fn test_serde_json() {
    let network = reference_network();
    let (_, address) = fresh_account(&network, rand::random());

    // Output record
    let payload = random_payload(&network);
    let expected_record =
        Record::new(&network, address, 1234, payload, noop_id(&network)).unwrap();

    // Serialize
    let expected_text = expected_record.encode_text();
    let candidate_text = expected_record.encode_text();
    assert_eq!(expected_text, candidate_text);

    // Deserialize
    assert!(expected_record == Record::decode_text(&network, &expected_text).unwrap());
    assert!(expected_record == Record::decode_text(&network, &candidate_text).unwrap());
}

#[test]
fn test_bincode_noop() {
    let network = reference_network();
    let (_, address) = fresh_account(&network, rand::random());

    // Noop record
    let expected_record = Record::new_noop(&network, address).unwrap();

    // Serialize
    let expected_bytes = expected_record.to_bytes_le();
    assert_eq!(&expected_bytes[..], &expected_record.to_bytes_le()[..]);

    // Deserialize
    assert!(expected_record == Record::read_le(&network, &expected_bytes).unwrap());
}

#[test]
fn test_bincode() {
    let network = reference_network();
    let (_, address) = fresh_account(&network, rand::random());

    // Output record
    let payload = random_payload(&network);
    let expected_record =
        Record::new(&network, address, 1234, payload, noop_id(&network)).unwrap();

    // Serialize
    let expected_bytes = expected_record.to_bytes_le();
    assert_eq!(&expected_bytes[..], &expected_record.to_bytes_le()[..]);

    // Deserialize
    assert!(expected_record == Record::read_le(&network, &expected_bytes).unwrap());
}

#[test]
fn dummy_predicate() {
    let network = reference_network();
    let (_, address) = fresh_account(&network, 7);

    let noop = Record::new_noop(&network, address.clone()).unwrap();
    assert!(noop.is_dummy(&network.parameters));
    assert_eq!(noop.value(), 0);

    // Nonzero value is never a dummy.
    let empty = Payload::empty(network.parameters.payload_size);
    let valued =
        Record::new(&network, address.clone(), 5, empty.clone(), noop_id(&network)).unwrap();
    assert!(!valued.is_dummy(&network.parameters));

    // A nonempty payload is never a dummy.
    let mut bytes = vec![0u8; network.parameters.payload_size];
    bytes[17] = 9;
    let nonempty = Payload::from_bytes_le(&bytes);
    let with_payload =
        Record::new(&network, address.clone(), 0, nonempty, noop_id(&network)).unwrap();
    assert!(!with_payload.is_dummy(&network.parameters));

    // A non-noop program identifier is never a dummy.
    let mut other_id = noop_id(&network);
    other_id[0] = 1;
    let programmatic = Record::new(&network, address, 0, empty, other_id).unwrap();
    assert!(!programmatic.is_dummy(&network.parameters));
}

#[test]
fn binary_round_trip_rejects_bad_length() {
    let network = reference_network();
    let (_, address) = fresh_account(&network, 11);
    let record = Record::new_noop(&network, address).unwrap();

    let mut bytes = record.to_bytes_le();
    bytes.pop();
    assert_eq!(
        Record::read_le(&network, &bytes).unwrap_err(),
        RecordError::InvalidLength
    );
}

#[test]
fn text_round_trip_detects_commitment_mutation() {
    let network = reference_network();
    let (_, address) = fresh_account(&network, 13);
    let payload = random_payload(&network);
    let record = Record::new(&network, address, 77, payload, noop_id(&network)).unwrap();

    let text = record.encode_text();
    // The text ends with `...,"commitment":"<16 hex digits>"}`; flip one
    // digit of the embedded commitment to another hex digit.
    let position = text.len() - 4;
    let mut mutated = text.clone();
    mutated[position] = if mutated[position] == b'0' { b'1' } else { b'0' };
    assert_ne!(text, mutated);

    match Record::decode_text(&network, &mutated).unwrap_err() {
        RecordError::InvalidCommitment(embedded, recomputed) => {
            assert_ne!(embedded, recomputed);
            assert_eq!(recomputed, record.commitment());
        }
        other => panic!("expected InvalidCommitment, got {:?}", other),
    }
}

#[test]
fn text_rejects_malformed_input() {
    let network = reference_network();
    let text = b"{\"owner\":\"zz".to_vec();
    assert_eq!(
        Record::decode_text(&network, &text).unwrap_err(),
        RecordError::MalformedText
    );
}

#[test]
fn recovery_with_account_view_key() {
    let network = reference_network();
    let (private_key, address) = fresh_account(&network, 101);
    let view_key = private_key.to_view_key();
    let payload = random_payload(&network);
    let record = Record::new(&network, address, 42, payload, noop_id(&network)).unwrap();

    let ciphertext = record.encrypt(&network).unwrap();
    let recovered = Record::from_account_view_key(&network, &view_key, &ciphertext).unwrap();
    assert!(record == recovered);
    assert_eq!(record.commitment(), recovered.commitment());
}

#[test]
fn recovery_with_wrong_view_key_is_rejected() {
    let network = reference_network();
    let (_, address) = fresh_account(&network, 103);
    let (other_key, _) = fresh_account(&network, 104);
    let payload = random_payload(&network);
    let record = Record::new(&network, address, 42, payload, noop_id(&network)).unwrap();

    let ciphertext = record.encrypt(&network).unwrap();
    let wrong_view_key = other_key.to_view_key();
    assert_eq!(
        Record::from_account_view_key(&network, &wrong_view_key, &ciphertext).unwrap_err(),
        RecordError::IncorrectOwner
    );
}

#[test]
fn recovery_with_record_view_key() {
    let network = reference_network();
    let (_, address) = fresh_account(&network, 107);
    let payload = random_payload(&network);
    let record = Record::new(&network, address, 9000, payload, noop_id(&network)).unwrap();

    let ciphertext = record.encrypt(&network).unwrap();
    let recovered =
        Record::from_record_view_key(&network, record.record_view_key(), &ciphertext).unwrap();
    assert!(record == recovered);
}

#[test]
fn recovery_rejects_bad_ciphertext_length() {
    let network = reference_network();
    let (private_key, _) = fresh_account(&network, 109);
    let view_key = private_key.to_view_key();
    let ciphertext = RecordCiphertext::from_bytes(vec![0u8; 5]);
    assert_eq!(
        Record::from_account_view_key(&network, &view_key, &ciphertext).unwrap_err(),
        RecordError::InvalidLength
    );
}

#[test]
fn serial_number_deterministic_and_authorized() {
    let network = reference_network();
    let (private_key, address) = fresh_account(&network, 211);
    let (other_key, _) = fresh_account(&network, 212);
    let payload = random_payload(&network);
    let record =
        Record::new(&network, address.clone(), 3, payload, noop_id(&network)).unwrap();

    let compute_key = private_key.to_compute_key();
    let first = record.to_serial_number(&network, &compute_key).unwrap();
    let second = record.to_serial_number(&network, &compute_key).unwrap();
    assert_eq!(first, second);

    let wrong_compute_key = other_key.to_compute_key();
    assert_eq!(
        record.to_serial_number(&network, &wrong_compute_key).unwrap_err(),
        RecordError::IncorrectComputeKey
    );

    // Distinct records produce distinct serial numbers under one key.
    let other_payload = random_payload(&network);
    let other_record =
        Record::new(&network, address, 3, other_payload, noop_id(&network)).unwrap();
    assert_ne!(record.commitment(), other_record.commitment());
    let third = other_record.to_serial_number(&network, &compute_key).unwrap();
    assert_ne!(first, third);
}

#[test]
fn size_ceiling_is_enforced() {
    let oversized = Network {
        parameters: NetworkParameters {
            address_size: 32,
            payload_size: 70000,
            program_id_size: 48,
            noop_program_id: vec![0u8; 48],
        },
        encryption: StreamEncryption { public_key_len: 32 },
        commitment: FoldCommitment {},
        serial_number_prf: MixPrf {},
    };
    let (_, address) = fresh_account(&oversized, 301);
    let payload = Payload::empty(70000);
    assert_eq!(
        Record::new(&oversized, address, 1, payload, vec![0u8; 48]).unwrap_err(),
        RecordError::PlaintextTooLarge
    );
}

#[test]
fn plaintext_codec_checks_flag_and_length() {
    let network = reference_network();
    let (_, address) = fresh_account(&network, 401);
    let payload = Payload::empty(network.parameters.payload_size);
    let plaintext =
        encode_plaintext(&network.parameters, &address, 0, &payload, &noop_id(&network)).unwrap();

    // The encoded record decodes back to the same fields.
    let (owner, value, decoded_payload, program_id) =
        decode_plaintext(&network.parameters, &plaintext).unwrap();
    assert!(owner == address);
    assert_eq!(value, 0);
    assert!(decoded_payload == payload);
    assert_eq!(program_id, noop_id(&network));

    // Tampering with the dummy flag byte is detected.
    let mut tampered = plaintext.clone();
    let flag_index = network.parameters.address_size;
    tampered[flag_index] = 1 - tampered[flag_index];
    assert_eq!(
        decode_plaintext(&network.parameters, &tampered).unwrap_err(),
        RecordError::MalformedDummyFlag
    );

    // A truncated plaintext is rejected.
    let mut truncated = plaintext.clone();
    truncated.pop();
    assert_eq!(
        decode_plaintext(&network.parameters, &truncated).unwrap_err(),
        RecordError::InvalidLength
    );
}

#[test]
fn concrete_scenario() {
    let network = reference_network();
    let (private_key, address) = fresh_account(&network, 501);

    // 128 bytes of a fixed test pattern.
    let mut pattern = vec![0u8; network.parameters.payload_size];
    for (index, byte) in pattern.iter_mut().enumerate() {
        *byte = (index as u8).wrapping_mul(31).wrapping_add(7);
    }
    let payload = Payload::from_bytes_le(&pattern);
    let record =
        Record::new(&network, address.clone(), 1234, payload, noop_id(&network)).unwrap();
    assert!(!record.is_dummy(&network.parameters));
    assert_eq!(record.value(), 1234);

    // Encrypt, then recover with the owner's view key.
    let ciphertext = record.encrypt(&network).unwrap();
    let view_key = private_key.to_view_key();
    let recovered = Record::from_account_view_key(&network, &view_key, &ciphertext).unwrap();
    assert!(recovered.owner() == record.owner());
    assert_eq!(recovered.value(), record.value());
    assert!(recovered.payload() == record.payload());
    assert_eq!(recovered.program_id(), record.program_id());

    // The serial number is reproducible across separate invocations.
    let compute_key = private_key.to_compute_key();
    let first = record.to_serial_number(&network, &compute_key).unwrap();
    let second = recovered.to_serial_number(&network, &compute_key).unwrap();
    assert_eq!(first, second);
}

#[test]
fn canonical_forms_exact() {
    // A small network with every field chosen by hand, so the encodings can
    // be written out exactly.
    let network = Network {
        parameters: NetworkParameters {
            address_size: 8,
            payload_size: 2,
            program_id_size: 1,
            noop_program_id: vec![0u8],
        },
        encryption: StreamEncryption { public_key_len: 8 },
        commitment: FoldCommitment {},
        serial_number_prf: MixPrf {},
    };
    let owner = Address { bytes: vec![1, 2, 3, 4, 5, 6, 7, 8] };
    let payload = Payload::from_bytes_le(&vec![0xab, 0x00]);
    let record = Record::from(&network, owner, 9, payload, vec![0u8], 0x1122334455667788, 0x99)
        .unwrap();

    // Plaintext: owner, flag (not a dummy: nonzero value), value LE,
    // payload, program identifier.
    let plaintext = encode_plaintext(
        &network.parameters,
        &record.owner(),
        record.value(),
        record.payload(),
        &record.program_id(),
    )
    .unwrap();
    let expected_plaintext =
        vec![1, 2, 3, 4, 5, 6, 7, 8, 0, 9, 0, 0, 0, 0, 0, 0, 0, 0xab, 0x00, 0];
    assert_eq!(plaintext, expected_plaintext);

    // Binary form: owner, value LE, payload, program identifier,
    // randomizer LE, record view key LE.
    let mut expected_binary = vec![1, 2, 3, 4, 5, 6, 7, 8, 9, 0, 0, 0, 0, 0, 0, 0, 0xab, 0x00, 0];
    expected_binary.extend_from_slice(&[0x88, 0x77, 0x66, 0x55, 0x44, 0x33, 0x22, 0x11]);
    expected_binary.extend_from_slice(&[0x99, 0, 0, 0, 0, 0, 0, 0]);
    assert_eq!(record.to_bytes_le(), expected_binary);

    // Text form: every field but the computed commitment is written by hand.
    let text = record.encode_text();
    let expected_prefix = b"{\"owner\":\"0102030405060708\",\"value\":9,\"payload\":\"ab00\",\
\"program_id\":\"00\",\"randomizer\":\"8877665544332211\",\
\"record_view_key\":\"9900000000000000\",\"commitment\":\"";
    assert_eq!(&text[..expected_prefix.len()], &expected_prefix[..]);
    assert_eq!(text.len(), expected_prefix.len() + 18);
    assert_eq!(&text[text.len() - 2..], b"\"}");
    assert!(Record::decode_text(&network, &text).unwrap() == record);
}
