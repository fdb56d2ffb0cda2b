//! A minimal account-key hierarchy: a private seed derives a viewing key and
//! a compute key, and both derive the same address through the network's
//! encryption scheme.
//!
//! Key-hierarchy cryptography is a collaborator of the record core, not its
//! subject: these derivations are simple deterministic word mixes whose only
//! load-bearing property is that the viewing key, the compute key, and the
//! address of one account agree.

use vstd::prelude::*;
use vstd::wrapping::u64_specs;
use crate::bytes::{bytes_eq, copy_bytes};
use crate::ports::EncryptionScheme;

verus! {

/// Odd multiplier deriving the view scalar from an account seed.
pub const VIEW_KEY_MULTIPLIER: u64 = 0xbf58476d1ce4e5b9;

/// Mask XOR-ed into the seed before deriving the view scalar.
pub const VIEW_KEY_SALT: u64 = 0x94d049bb133111eb;

/// Odd multiplier deriving the serial-number PRF secret from a seed.
pub const SK_PRF_MULTIPLIER: u64 = 0xd1b54a32d192ed03;

/// Mask XOR-ed into the seed before deriving the PRF secret.
pub const SK_PRF_SALT: u64 = 0x2bd6a0f9d6f6b2c9;

/// The decryption scalar of the account with seed `seed`; doubles as the
/// private key of the encryption scheme.
pub open spec fn spec_view_scalar(seed: u64) -> u64 {
    u64_specs::wrapping_mul(seed ^ VIEW_KEY_SALT, VIEW_KEY_MULTIPLIER)
}

/// The serial-number PRF secret of the account with seed `seed`.
pub open spec fn spec_sk_prf(seed: u64) -> u64 {
    u64_specs::wrapping_mul(seed ^ SK_PRF_SALT, SK_PRF_MULTIPLIER)
}

/// An account's root secret.
pub struct PrivateKey {
    /// The account seed every other key is derived from.
    pub seed: u64,
}

/// An account-level viewing key: opens every record addressed to the account.
pub struct ViewKey {
    /// The decryption scalar; the encryption scheme's private key.
    pub key: u64,
}

/// An account's spend-authorization key: derives serial numbers.
pub struct ComputeKey {
    /// The scalar that ties the compute key to the account's address.
    pub scalar: u64,
    /// The secret seeding the serial-number PRF.
    pub sk_prf: u64,
}

/// A public record owner: the fixed-width public key of the encryption
/// scheme.
#[derive(Debug)]
pub struct Address {
    /// The address bytes.
    pub bytes: Vec<u8>,
}

impl View for Address {
    type V = Seq<u8>;

    open spec fn view(&self) -> Seq<u8> {
        self.bytes@
    }
}

impl PrivateKey {
    /// The account rooted at `seed`.
    pub fn from_seed(seed: u64) -> (r: PrivateKey)
        ensures
            r.seed == seed,
    {
        PrivateKey { seed }
    }

    /// Derives the account's viewing key.
    pub fn to_view_key(&self) -> (r: ViewKey)
        ensures
            r.key == spec_view_scalar(self.seed),
    {
        ViewKey { key: (self.seed ^ VIEW_KEY_SALT).wrapping_mul(VIEW_KEY_MULTIPLIER) }
    }

    /// Derives the account's compute key; its scalar agrees with the viewing
    /// key, so both derive the same address.
    pub fn to_compute_key(&self) -> (r: ComputeKey)
        ensures
            r.scalar == spec_view_scalar(self.seed),
            r.sk_prf == spec_sk_prf(self.seed),
    {
        ComputeKey {
            scalar: (self.seed ^ VIEW_KEY_SALT).wrapping_mul(VIEW_KEY_MULTIPLIER),
            sk_prf: (self.seed ^ SK_PRF_SALT).wrapping_mul(SK_PRF_MULTIPLIER),
        }
    }

    /// Derives the account's address under `encryption`.
    pub fn to_address<E: EncryptionScheme>(&self, encryption: &E) -> (r: Address)
        ensures
            r@ == encryption.spec_address(spec_view_scalar(self.seed)),
            r@.len() == encryption.spec_public_key_len(),
    {
        Address::from_view_key(encryption, &self.to_view_key())
    }
}

impl ComputeKey {
    /// The secret seeding the serial-number PRF.
    pub fn sk_prf(&self) -> (r: u64)
        ensures
            r == self.sk_prf,
    {
        self.sk_prf
    }
}

impl Address {
    /// The address bytes.
    pub fn as_bytes(&self) -> (r: &Vec<u8>)
        ensures
            r@ == self@,
    {
        &self.bytes
    }

    /// The address a viewing key opens records for.
    pub fn from_view_key<E: EncryptionScheme>(encryption: &E, view_key: &ViewKey) -> (r: Address)
        ensures
            r@ == encryption.spec_address(view_key.key),
            r@.len() == encryption.spec_public_key_len(),
    {
        proof {
            encryption.lemma_address_len(view_key.key);
        }
        Address { bytes: encryption.address(view_key.key) }
    }

    /// The address a compute key authorizes spends for.
    pub fn from_compute_key<E: EncryptionScheme>(
        encryption: &E,
        compute_key: &ComputeKey,
    ) -> (r: Address)
        ensures
            r@ == encryption.spec_address(compute_key.scalar),
            r@.len() == encryption.spec_public_key_len(),
    {
        proof {
            encryption.lemma_address_len(compute_key.scalar);
        }
        Address { bytes: encryption.address(compute_key.scalar) }
    }
}

impl Clone for Address {
    /// Clones the address, preserving its bytes.
    fn clone(&self) -> (r: Address)
        ensures
            r@ == self@,
    {
        Address { bytes: copy_bytes(&self.bytes) }
    }
}

impl PartialEq for Address {
    fn eq(&self, other: &Address) -> (r: bool) {
        bytes_eq(&self.bytes, &other.bytes)
    }
}

impl vstd::std_specs::cmp::PartialEqSpecImpl for Address {
    open spec fn obeys_eq_spec() -> bool {
        true
    }

    open spec fn eq_spec(&self, other: &Address) -> bool {
        self@ == other@
    }
}

impl Eq for Address {

}

} // verus!
