//! Capability interfaces for the three cryptographic primitives a record
//! composes: a binding commitment scheme, an asymmetric/hybrid encryption
//! scheme, and a pseudorandom function for serial numbers.
//!
//! The record core is generic over these ports; a network configuration
//! selects concrete instantiations (see [`crate::schemes`] for verified
//! reference instantiations). Every executable method is pinned to a spec
//! function, and the proof obligations (`lemma_*`) state the algebraic laws
//! the record logic relies on: key agreement is definitional (a symmetric key
//! is always a function of the recipient address and the public randomizer),
//! decryption inverts encryption, and decrypting with a wrong key visibly
//! corrupts the leading bytes of the plaintext.

use vstd::prelude::*;

verus! {

/// A binding, computationally hiding commitment scheme.
///
/// `commit` is a pure function of the message and the randomness; binding and
/// hiding are computational properties outside the reach of the interface.
pub trait CommitmentScheme: Sized {
    /// The commitment to `message` under `randomness`.
    spec fn spec_commit(&self, message: Seq<u8>, randomness: u64) -> u64;

    /// Commits to `message` under `randomness`.
    fn commit(&self, message: &Vec<u8>, randomness: u64) -> (r: u64)
        ensures
            r == self.spec_commit(message@, randomness),
    ;
}

/// An asymmetric key-agreement plus symmetric encryption scheme.
///
/// Addresses (public keys) are byte strings of a fixed, scheme-chosen width;
/// private keys, symmetric keys, randomizers and key commitments are plain
/// 64-bit values.
pub trait EncryptionScheme: Sized {
    /// The fixed width of a public key (address) in bytes.
    spec fn spec_public_key_len(&self) -> usize;

    /// The address (public key) belonging to `private_key`.
    spec fn spec_address(&self, private_key: u64) -> Seq<u8>;

    /// The public randomizer that a fresh construction derives from
    /// `entropy` for `recipient`.
    spec fn spec_randomizer(&self, recipient: Seq<u8>, entropy: u64) -> u64;

    /// The symmetric key agreed between the holder of `recipient`'s private
    /// key and anyone who knows the public `randomizer`.
    spec fn spec_shared_key(&self, recipient: Seq<u8>, randomizer: u64) -> u64;

    /// A commitment tag for a symmetric key, letting a recipient detect
    /// wrong-key decryption before trusting a plaintext.
    spec fn spec_key_commitment(&self, symmetric_key: u64) -> u64;

    /// The ciphertext of `plaintext` under `symmetric_key`.
    spec fn spec_encrypt(&self, symmetric_key: u64, plaintext: Seq<u8>) -> Seq<u8>;

    /// The plaintext of `ciphertext` under `symmetric_key`.
    spec fn spec_decrypt(&self, symmetric_key: u64, ciphertext: Seq<u8>) -> Seq<u8>;

    /// Every address has the scheme's fixed public-key width.
    proof fn lemma_address_len(&self, private_key: u64)
        ensures
            self.spec_address(private_key).len() == self.spec_public_key_len(),
    ;

    /// Encryption preserves length.
    proof fn lemma_encrypt_len(&self, symmetric_key: u64, plaintext: Seq<u8>)
        ensures
            self.spec_encrypt(symmetric_key, plaintext).len() == plaintext.len(),
    ;

    /// Decryption preserves length.
    proof fn lemma_decrypt_len(&self, symmetric_key: u64, ciphertext: Seq<u8>)
        ensures
            self.spec_decrypt(symmetric_key, ciphertext).len() == ciphertext.len(),
    ;

    /// Decryption under the agreed key inverts encryption.
    proof fn lemma_decrypt_encrypt(&self, symmetric_key: u64, plaintext: Seq<u8>)
        ensures
            self.spec_decrypt(symmetric_key, self.spec_encrypt(symmetric_key, plaintext))
                == plaintext,
    ;

    /// Decrypting under a wrong key visibly corrupts the first eight bytes
    /// of the plaintext, so a record's leading owner field never survives a
    /// wrong-key decryption intact.
    proof fn lemma_wrong_key_corrupts(&self, key: u64, other: u64, plaintext: Seq<u8>)
        requires
            key != other,
            plaintext.len() >= 8,
        ensures
            self.spec_decrypt(other, self.spec_encrypt(key, plaintext)).subrange(0, 8)
                != plaintext.subrange(0, 8),
    ;

    /// Returns the address (public key) of `private_key`.
    fn address(&self, private_key: u64) -> (r: Vec<u8>)
        ensures
            r@ == self.spec_address(private_key),
    ;

    /// Derives `(public_randomizer, symmetric_key)` for `recipient` from
    /// fresh `entropy`; the transient secret randomness of the key agreement
    /// is consumed internally and never exposed.
    fn generate_asymmetric_key(&self, recipient: &Vec<u8>, entropy: u64) -> (r: (u64, u64))
        ensures
            r.0 == self.spec_randomizer(recipient@, entropy),
            r.1 == self.spec_shared_key(recipient@, r.0),
    ;

    /// Re-derives the symmetric key from the recipient's private key and the
    /// public randomizer; agrees with `generate_asymmetric_key` by
    /// construction.
    fn generate_symmetric_key(&self, private_key: u64, randomizer: u64) -> (r: u64)
        ensures
            r == self.spec_shared_key(self.spec_address(private_key), randomizer),
    ;

    /// Returns the commitment tag of a symmetric key.
    fn generate_key_commitment(&self, symmetric_key: u64) -> (r: u64)
        ensures
            r == self.spec_key_commitment(symmetric_key),
    ;

    /// Encrypts `plaintext` under `symmetric_key`.
    fn encrypt(&self, symmetric_key: u64, plaintext: &Vec<u8>) -> (r: Vec<u8>)
        ensures
            r@ == self.spec_encrypt(symmetric_key, plaintext@),
    ;

    /// Decrypts `ciphertext` under `symmetric_key`.
    fn decrypt(&self, symmetric_key: u64, ciphertext: &Vec<u8>) -> (r: Vec<u8>)
        ensures
            r@ == self.spec_decrypt(symmetric_key, ciphertext@),
    ;
}

/// A deterministic pseudorandom function used to derive serial numbers.
pub trait SerialNumberPrf: Sized {
    /// The PRF value at `input` under `seed`.
    spec fn spec_evaluate(&self, seed: u64, input: u64) -> u64;

    /// Evaluates the PRF; deterministic in `(seed, input)`.
    fn evaluate(&self, seed: u64, input: u64) -> (r: u64)
        ensures
            r == self.spec_evaluate(seed, input),
    ;
}

} // verus!
