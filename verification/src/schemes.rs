//! Verified reference instantiations of the primitive ports.
//!
//! These schemes are deterministic mixing constructions over 64-bit words:
//! they satisfy every algebraic law the record core relies on (fixed widths,
//! length preservation, decryption inverting encryption, wrong-key
//! corruption) and are suitable for tests and reference networks. They make
//! no cryptographic hardness claim; a production network would select
//! hardened instantiations behind the same interfaces.

use vstd::prelude::*;
use vstd::bytes::{spec_u64_from_le_bytes, u64_from_le_bytes};
use vstd::slice::slice_subrange;
use vstd::wrapping::u64_specs;
use crate::ports::{CommitmentScheme, EncryptionScheme, SerialNumberPrf};

verus! {

/// Odd multiplier used to spread an account private key into an address.
pub const ADDR_MULTIPLIER: u64 = 0x9e3779b97f4a7c15;

/// Mask XOR-ed into an address word.
pub const ADDR_SALT: u64 = 0x243f6a8885a308d3;

/// Odd multiplier applied to the recipient part of a shared key.
pub const SHARED_RECIPIENT_MULTIPLIER: u64 = 0xff51afd7ed558ccd;

/// Odd multiplier applied to the randomizer part of a shared key.
pub const SHARED_RANDOMIZER_MULTIPLIER: u64 = 0xc4ceb9fe1a85ec53;

/// Odd multiplier deriving the public randomizer from fresh entropy.
pub const RANDOMIZER_MULTIPLIER: u64 = 0xd6e8feb86659fd93;

/// Odd multiplier deriving a key-commitment tag from a symmetric key.
pub const KEY_COMMITMENT_MULTIPLIER: u64 = 0xa24baed4963ee407;

/// Mask XOR-ed into a key before tagging it.
pub const KEY_COMMITMENT_SALT: u64 = 0x9fb21c651e98df25;

/// Odd multiplier stepping the keystream from one block to the next.
pub const STREAM_BLOCK_MULTIPLIER: u64 = 0x2545f4914f6cdd1d;

/// Offset basis of the commitment fold.
pub const FOLD_OFFSET: u64 = 0xcbf29ce484222325;

/// Odd multiplier of the commitment fold.
pub const FOLD_MULTIPLIER: u64 = 0x00000100000001b3;

/// Odd multiplier mixing the PRF input.
pub const PRF_INPUT_MULTIPLIER: u64 = 0x9ddfea08eb382d69;

/// Odd multiplier mixing the PRF seed.
pub const PRF_SEED_MULTIPLIER: u64 = 0xc6a4a7935bd1e995;

/// The low 64 bits of a byte string, read little-endian; zero when the
/// string is shorter than eight bytes.
pub open spec fn spec_prefix_word(s: Seq<u8>) -> u64 {
    if s.len() >= 8 {
        spec_u64_from_le_bytes(s.subrange(0, 8))
    } else {
        0
    }
}

/// Reads the low 64 bits of a byte string, little-endian.
pub fn prefix_word(s: &Vec<u8>) -> (r: u64)
    ensures
        r == spec_prefix_word(s@),
{
    if s.len() >= 8 {
        u64_from_le_bytes(slice_subrange(s.as_slice(), 0, 8))
    } else {
        0
    }
}

/// A word-mixing encryption scheme: addresses are a mixed private key padded
/// to a fixed width, key agreement mixes the recipient address with the
/// public randomizer, and encryption XORs a key-derived stream into the
/// plaintext.
pub struct StreamEncryption {
    /// The fixed address width in bytes; at least eight, so an address
    /// determines its leading word.
    pub public_key_len: usize,
}

/// The word an account private key is spread into.
pub open spec fn spec_address_word(private_key: u64) -> u64 {
    u64_specs::wrapping_mul(private_key, ADDR_MULTIPLIER) ^ ADDR_SALT
}

/// Byte `i` of an address: the address word little-endian, zero-padded.
pub open spec fn spec_address_byte(private_key: u64, i: int) -> u8 {
    if 0 <= i < 8 {
        ((spec_address_word(private_key) >> ((i * 8) as u64)) & 0xff) as u8
    } else {
        0
    }
}

/// The keystream word of block `block` under `key`; block zero is the key
/// itself, so two distinct keys always disagree within their first block.
pub open spec fn spec_stream_word(key: u64, block: u64) -> u64 {
    key ^ u64_specs::wrapping_mul(block, STREAM_BLOCK_MULTIPLIER)
}

/// Byte `i` of the keystream under `key`.
pub open spec fn spec_stream_byte(key: u64, i: int) -> u8
    recommends
        0 <= i,
{
    ((spec_stream_word(key, (i / 8) as u64) >> (((i % 8) * 8) as u64)) & 0xff) as u8
}

/// Byte `i` of the keystream under `key`.
fn stream_byte(key: u64, i: usize) -> (r: u8)
    ensures
        r == spec_stream_byte(key, i as int),
{
    let block: u64 = (i / 8) as u64;
    let shift: u64 = ((i % 8) * 8) as u64;
    let word: u64 = key ^ block.wrapping_mul(STREAM_BLOCK_MULTIPLIER);
    ((word >> shift) & 0xff) as u8
}

/// The XOR of `data` with the keystream under `key`.
pub open spec fn spec_stream_xor(key: u64, data: Seq<u8>) -> Seq<u8> {
    Seq::new(data.len(), |i: int| data[i] ^ spec_stream_byte(key, i))
}

/// XORs `data` with the keystream under `key`.
fn stream_xor(key: u64, data: &Vec<u8>) -> (r: Vec<u8>)
    ensures
        r@ == spec_stream_xor(key, data@),
{
    let mut out: Vec<u8> = Vec::new();
    let mut i: usize = 0;
    while i < data.len()
        invariant
            i <= data.len(),
            out@.len() == i as int,
            forall|j: int| 0 <= j < i ==> out@[j] == spec_stream_xor(key, data@)[j],
        decreases data.len() - i,
    {
        out.push(data[i] ^ stream_byte(key, i));
        i = i + 1;
    }
    assert(out@ =~= spec_stream_xor(key, data@));
    out
}

/// XOR-ing the same value twice restores a byte.
proof fn lemma_xor_involution()
    by (bit_vector)
    ensures
        forall|x: u8, y: u8| #[trigger] (x ^ y) == ((x ^ y) ^ y) ^ y,
        forall|x: u8, y: u8| ((#[trigger] (x ^ y)) ^ y) == x,
{
}

/// Two distinct words disagree in at least one of their eight bytes.
proof fn lemma_distinct_words_distinct_byte(a: u64, b: u64)
    requires
        a != b,
    ensures
        exists|i: int|
            0 <= i < 8 && #[trigger] ((a >> ((i * 8) as u64)) & 0xff) != ((b >> ((i * 8) as u64))
                & 0xff),
{
    assert(
        (a >> 0u64) & 0xff == (b >> 0u64) & 0xff
        && (a >> 8u64) & 0xff == (b >> 8u64) & 0xff
        && (a >> 16u64) & 0xff == (b >> 16u64) & 0xff
        && (a >> 24u64) & 0xff == (b >> 24u64) & 0xff
        && (a >> 32u64) & 0xff == (b >> 32u64) & 0xff
        && (a >> 40u64) & 0xff == (b >> 40u64) & 0xff
        && (a >> 48u64) & 0xff == (b >> 48u64) & 0xff
        && (a >> 56u64) & 0xff == (b >> 56u64) & 0xff
        ==> a == b
    ) by (bit_vector);
    if (a >> 0u64) & 0xff != (b >> 0u64) & 0xff {
        assert(((a >> ((0 * 8) as u64)) & 0xff) != ((b >> ((0 * 8) as u64)) & 0xff));
    } else if (a >> 8u64) & 0xff != (b >> 8u64) & 0xff {
        assert(((a >> ((1 * 8) as u64)) & 0xff) != ((b >> ((1 * 8) as u64)) & 0xff));
    } else if (a >> 16u64) & 0xff != (b >> 16u64) & 0xff {
        assert(((a >> ((2 * 8) as u64)) & 0xff) != ((b >> ((2 * 8) as u64)) & 0xff));
    } else if (a >> 24u64) & 0xff != (b >> 24u64) & 0xff {
        assert(((a >> ((3 * 8) as u64)) & 0xff) != ((b >> ((3 * 8) as u64)) & 0xff));
    } else if (a >> 32u64) & 0xff != (b >> 32u64) & 0xff {
        assert(((a >> ((4 * 8) as u64)) & 0xff) != ((b >> ((4 * 8) as u64)) & 0xff));
    } else if (a >> 40u64) & 0xff != (b >> 40u64) & 0xff {
        assert(((a >> ((5 * 8) as u64)) & 0xff) != ((b >> ((5 * 8) as u64)) & 0xff));
    } else if (a >> 48u64) & 0xff != (b >> 48u64) & 0xff {
        assert(((a >> ((6 * 8) as u64)) & 0xff) != ((b >> ((6 * 8) as u64)) & 0xff));
    } else {
        assert((a >> 56u64) & 0xff != (b >> 56u64) & 0xff) by (bit_vector)
            requires
                a != b,
                (a >> 0u64) & 0xff == (b >> 0u64) & 0xff,
                (a >> 8u64) & 0xff == (b >> 8u64) & 0xff,
                (a >> 16u64) & 0xff == (b >> 16u64) & 0xff,
                (a >> 24u64) & 0xff == (b >> 24u64) & 0xff,
                (a >> 32u64) & 0xff == (b >> 32u64) & 0xff,
                (a >> 40u64) & 0xff == (b >> 40u64) & 0xff,
                (a >> 48u64) & 0xff == (b >> 48u64) & 0xff,
        ;
        assert(((a >> ((7 * 8) as u64)) & 0xff) != ((b >> ((7 * 8) as u64)) & 0xff));
    }
}

impl EncryptionScheme for StreamEncryption {
    open spec fn spec_public_key_len(&self) -> usize {
        self.public_key_len
    }

    open spec fn spec_address(&self, private_key: u64) -> Seq<u8> {
        Seq::new(self.public_key_len as nat, |i: int| spec_address_byte(private_key, i))
    }

    open spec fn spec_randomizer(&self, recipient: Seq<u8>, entropy: u64) -> u64 {
        u64_specs::wrapping_mul(entropy, RANDOMIZER_MULTIPLIER)
    }

    open spec fn spec_shared_key(&self, recipient: Seq<u8>, randomizer: u64) -> u64 {
        u64_specs::wrapping_mul(spec_prefix_word(recipient), SHARED_RECIPIENT_MULTIPLIER)
            ^ u64_specs::wrapping_mul(randomizer, SHARED_RANDOMIZER_MULTIPLIER)
    }

    open spec fn spec_key_commitment(&self, symmetric_key: u64) -> u64 {
        u64_specs::wrapping_mul(symmetric_key ^ KEY_COMMITMENT_SALT, KEY_COMMITMENT_MULTIPLIER)
    }

    open spec fn spec_encrypt(&self, symmetric_key: u64, plaintext: Seq<u8>) -> Seq<u8> {
        spec_stream_xor(symmetric_key, plaintext)
    }

    open spec fn spec_decrypt(&self, symmetric_key: u64, ciphertext: Seq<u8>) -> Seq<u8> {
        spec_stream_xor(symmetric_key, ciphertext)
    }

    proof fn lemma_address_len(&self, private_key: u64) {
    }

    proof fn lemma_encrypt_len(&self, symmetric_key: u64, plaintext: Seq<u8>) {
    }

    proof fn lemma_decrypt_len(&self, symmetric_key: u64, ciphertext: Seq<u8>) {
    }

    proof fn lemma_decrypt_encrypt(&self, symmetric_key: u64, plaintext: Seq<u8>) {
        lemma_xor_involution();
        assert(self.spec_decrypt(symmetric_key, self.spec_encrypt(symmetric_key, plaintext))
            =~= plaintext);
    }

    proof fn lemma_wrong_key_corrupts(&self, key: u64, other: u64, plaintext: Seq<u8>) {
        let encrypted = self.spec_encrypt(key, plaintext);
        let garbled = self.spec_decrypt(other, encrypted);
        lemma_distinct_words_distinct_byte(key, other);
        let i = choose|i: int|
            0 <= i < 8 && #[trigger] ((key >> ((i * 8) as u64)) & 0xff) != ((other >> ((i * 8)
                as u64)) & 0xff);
        assert(u64_specs::wrapping_mul(0, STREAM_BLOCK_MULTIPLIER) == 0);
        assert(key ^ 0u64 == key && other ^ 0u64 == other) by (bit_vector);
        assert(i / 8 == 0 && i % 8 == i);
        assert(spec_stream_byte(key, i) != spec_stream_byte(other, i)) by {
            assert(forall|x: u64| #[trigger] (x & 0xff) <= 0xff) by (bit_vector);
            let ka = ((key >> ((i * 8) as u64)) & 0xff);
            let kb = ((other >> ((i * 8) as u64)) & 0xff);
            assert(spec_stream_byte(key, i) == ka as u8);
            assert(spec_stream_byte(other, i) == kb as u8);
            assert(ka != kb && ka <= 0xff && kb <= 0xff);
        };
        let a = spec_stream_byte(key, i);
        let b = spec_stream_byte(other, i);
        assert(garbled[i] == (plaintext[i] ^ a) ^ b);
        assert(forall|x: u8, ya: u8, yb: u8| ya != yb ==> ((x ^ ya) ^ yb) != x) by (bit_vector);
        assert(garbled[i] != plaintext[i]);
        assert(garbled.subrange(0, 8) != plaintext.subrange(0, 8)) by {
            if garbled.subrange(0, 8) == plaintext.subrange(0, 8) {
                assert(garbled.subrange(0, 8)[i] == plaintext.subrange(0, 8)[i]);
                assert(false);
            }
        };
    }

    fn address(&self, private_key: u64) -> (r: Vec<u8>) {
        let word: u64 = private_key.wrapping_mul(ADDR_MULTIPLIER) ^ ADDR_SALT;
        let mut out: Vec<u8> = Vec::new();
        let mut i: usize = 0;
        while i < self.public_key_len
            invariant
                i <= self.public_key_len,
                word == spec_address_word(private_key),
                out@.len() == i as int,
                forall|j: int| 0 <= j < i ==> out@[j] == spec_address_byte(private_key, j),
            decreases self.public_key_len - i,
        {
            if i < 8 {
                let shift: u64 = (i * 8) as u64;
                out.push(((word >> shift) & 0xff) as u8);
            } else {
                out.push(0);
            }
            i = i + 1;
        }
        assert(out@ =~= self.spec_address(private_key));
        out
    }

    fn generate_asymmetric_key(&self, recipient: &Vec<u8>, entropy: u64) -> (r: (u64, u64)) {
        let randomizer = entropy.wrapping_mul(RANDOMIZER_MULTIPLIER);
        let key = prefix_word(recipient).wrapping_mul(SHARED_RECIPIENT_MULTIPLIER)
            ^ randomizer.wrapping_mul(SHARED_RANDOMIZER_MULTIPLIER);
        (randomizer, key)
    }

    fn generate_symmetric_key(&self, private_key: u64, randomizer: u64) -> (r: u64) {
        let addr = self.address(private_key);
        prefix_word(&addr).wrapping_mul(SHARED_RECIPIENT_MULTIPLIER)
            ^ randomizer.wrapping_mul(SHARED_RANDOMIZER_MULTIPLIER)
    }

    fn generate_key_commitment(&self, symmetric_key: u64) -> (r: u64) {
        (symmetric_key ^ KEY_COMMITMENT_SALT).wrapping_mul(KEY_COMMITMENT_MULTIPLIER)
    }

    fn encrypt(&self, symmetric_key: u64, plaintext: &Vec<u8>) -> (r: Vec<u8>) {
        stream_xor(symmetric_key, plaintext)
    }

    fn decrypt(&self, symmetric_key: u64, ciphertext: &Vec<u8>) -> (r: Vec<u8>) {
        stream_xor(symmetric_key, ciphertext)
    }
}

/// One absorption step of the commitment fold.
pub open spec fn spec_fold_step(acc: u64, byte: u8) -> u64 {
    u64_specs::wrapping_mul(acc ^ (byte as u64), FOLD_MULTIPLIER)
}

/// Folds a byte string into an accumulator, front to back.
pub open spec fn spec_fold(acc: u64, s: Seq<u8>) -> u64
    decreases s.len(),
{
    if s.len() == 0 {
        acc
    } else {
        spec_fold(spec_fold_step(acc, s[0]), s.subrange(1, s.len() as int))
    }
}

/// A fold-based commitment: the message is absorbed byte by byte into an
/// accumulator seeded with the commitment randomness.
pub struct FoldCommitment {
}

impl CommitmentScheme for FoldCommitment {
    open spec fn spec_commit(&self, message: Seq<u8>, randomness: u64) -> u64 {
        spec_fold(randomness ^ FOLD_OFFSET, message)
    }

    fn commit(&self, message: &Vec<u8>, randomness: u64) -> (r: u64) {
        let mut acc: u64 = randomness ^ FOLD_OFFSET;
        let mut i: usize = 0;
        proof {
            assert(message@.subrange(0, message@.len() as int) =~= message@);
        }
        while i < message.len()
            invariant
                i <= message.len(),
                self.spec_commit(message@, randomness) == spec_fold(
                    acc,
                    message@.subrange(i as int, message@.len() as int),
                ),
            decreases message.len() - i,
        {
            proof {
                let rest = message@.subrange(i as int, message@.len() as int);
                assert(rest[0] == message@[i as int]);
                assert(rest.subrange(1, rest.len() as int) =~= message@.subrange(
                    i + 1,
                    message@.len() as int,
                ));
            }
            acc = (acc ^ (message[i] as u64)).wrapping_mul(FOLD_MULTIPLIER);
            i = i + 1;
        }
        proof {
            assert(message@.subrange(i as int, message@.len() as int) =~= Seq::<u8>::empty());
        }
        acc
    }
}

/// A word-mixing pseudorandom function for serial numbers. For a fixed seed
/// it is injective in its input, so two records with distinct commitments
/// always get distinct serial numbers under one compute key.
pub struct MixPrf {
}

impl SerialNumberPrf for MixPrf {
    open spec fn spec_evaluate(&self, seed: u64, input: u64) -> u64 {
        input ^ u64_specs::wrapping_mul(seed ^ PRF_INPUT_MULTIPLIER, PRF_SEED_MULTIPLIER)
    }

    fn evaluate(&self, seed: u64, input: u64) -> (r: u64) {
        input ^ (seed ^ PRF_INPUT_MULTIPLIER).wrapping_mul(PRF_SEED_MULTIPLIER)
    }
}

/// Under one seed, distinct inputs give distinct values of [`MixPrf`].
pub proof fn lemma_mix_prf_injective(prf: MixPrf, seed: u64, input1: u64, input2: u64)
    requires
        input1 != input2,
    ensures
        prf.spec_evaluate(seed, input1) != prf.spec_evaluate(seed, input2),
{
    let mask = u64_specs::wrapping_mul(seed ^ PRF_INPUT_MULTIPLIER, PRF_SEED_MULTIPLIER);
    assert(input1 ^ mask != input2 ^ mask) by (bit_vector)
        requires
            input1 != input2,
    ;
}

} // verus!
