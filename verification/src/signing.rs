//! Hashing and signing: Keccak-256 from `tiny_keccak`, secp256k1 keys and
//! signatures from `ethsign`.
//!
//! Verus sees nothing inside an `ethsign::SecretKey`. The contracts speak of
//! a key through the 32 bytes that it holds; the address that belongs to
//! those bytes and the signature that they give over a message are named,
//! not spelled out.

use vstd::prelude::*;
use crate::error::SigningError;
use crate::numeric::be_value;
use crate::types::Address;

verus! {

/// `ethsign::SecretKey`, carried through as it is.
#[verifier::external_type_specification]
#[verifier::external_body]
pub struct ExSecretKey(ethsign::SecretKey);

/// The Keccak-256 digest of a byte string.
pub uninterp spec fn keccak256_digest(data: Seq<u8>) -> Seq<u8>;

/// The secret bytes that a key holds.
pub uninterp spec fn secret_bytes(key: ethsign::SecretKey) -> Seq<u8>;

/// The address of the account that a secret controls: the last twenty
/// bytes of the Keccak-256 digest of its public key.
pub uninterp spec fn secret_address_of(secret: Seq<u8>) -> Seq<u8>;

/// The signature that a secret gives over a message: ECDSA over secp256k1
/// with the nonce of RFC 6979, together with the id by which the public key
/// is recovered from it.
pub uninterp spec fn ecdsa_signature(secret: Seq<u8>, message: Seq<u8>) -> Signature;

/// The order of the secp256k1 group.
pub open spec fn curve_order() -> nat {
    0xfffffffffffffffffffffffffffffffebaaedce6af48a03bbfd25e8cd0364141nat
}

/// The byte strings that are secret keys: 32 bytes that, read as a
/// big-endian integer, give a number that is not zero and below the order of
/// the group.
pub open spec fn valid_secret(raw: Seq<u8>) -> bool {
    raw.len() == 32 && 0 < be_value(raw) < curve_order()
}

/// A recoverable signature: the recovery id `v` and the two 32-byte halves.
#[derive(Clone, Copy, Debug, PartialEq, Eq)]
pub struct Signature {
    pub v: u8,
    pub r: [u8; 32],
    pub s: [u8; 32],
}

/// A secret key together with the address derived from it.
#[derive(Debug)]
pub struct SigningKey {
    key: ethsign::SecretKey,
    address: Address,
}

impl SigningKey {
    /// The secret bytes of the key.
    pub closed spec fn secret(&self) -> Seq<u8> {
        secret_bytes(self.key)
    }

    /// The address that was derived from the key when it was made.
    pub closed spec fn address_spec(&self) -> Address {
        self.address
    }

    /// Makes a key from its raw bytes and derives its address. The bytes are
    /// taken exactly when they are a valid secret; the key then holds them,
    /// and its address is the one that belongs to them.
    pub fn from_raw(raw: &[u8]) -> (r: Result<SigningKey, SigningError>)
        ensures
            match r {
                Ok(key) => {
                    &&& valid_secret(raw@)
                    &&& key.secret() == raw@
                    &&& key.address()@ == secret_address_of(raw@)
                },
                Err(e) => !valid_secret(raw@) && e == SigningError::InvalidKey,
            },
    {
        match secret_from_raw(raw) {
            Ok(key) => {
                let address = secret_address(&key);
                Ok(SigningKey { key, address })
            },
            Err(_) => Err(SigningError::InvalidKey),
        }
    }

    /// Signs a 32-byte hash. A key is valid from the moment it is made and
    /// a hash has the length that the backend asks for, so a signature is
    /// always made: the one that the key's secret gives over the hash, with
    /// a nonce derived from both as RFC 6979 lays down.
    pub fn sign(&self, hash: &[u8; 32]) -> (r: Result<Signature, SigningError>)
        ensures
            r == Ok::<Signature, SigningError>(ecdsa_signature(self.secret(), hash@)),
    {
        match secret_sign(&self.key, hash.as_slice()) {
            Ok(signature) => Ok(signature),
            Err(_) => Err(SigningError::Backend),
        }
    }

    /// The address of the account that the key controls: the one that
    /// belongs to the key's secret.
    #[verifier::when_used_as_spec(address_spec)]
    pub fn address(&self) -> (r: Address)
        ensures
            r == self.address_spec(),
            r@ == secret_address_of(self.secret()),
    {
        proof {
            use_type_invariant(self);
        }
        self.address
    }

    /// The address of a key is the one that belongs to its secret.
    #[verifier::type_invariant]
    spec fn address_is_derived(&self) -> bool {
        self.address@ == secret_address_of(secret_bytes(self.key))
    }
}

/// `tiny_keccak::keccak256`: the 32-byte digest of the data.
#[verifier::external_body]
pub(crate) fn keccak256(data: &[u8]) -> (hash: [u8; 32])
    ensures
        hash@ == keccak256_digest(data@),
{
    tiny_keccak::keccak256(data)
}

/// `ethsign::SecretKey::from_raw`: a key that holds the bytes. It checks the
/// bytes with `secp256k1::SecretKey::from_slice`, which takes 32 bytes that
/// `secp256k1_ec_seckey_verify` accepts: not zero and below the curve order,
/// most significant byte first. Every other input is `InvalidKey`.
#[verifier::external_body]
fn secret_from_raw(raw: &[u8]) -> (r: Result<ethsign::SecretKey, SigningError>)
    ensures
        r is Ok <==> valid_secret(raw@),
        r matches Ok(key) ==> secret_bytes(key) == raw@,
        r matches Err(e) ==> e == SigningError::InvalidKey,
{
    match ethsign::SecretKey::from_raw(raw) {
        Ok(key) => Ok(key),
        Err(_) => Err(SigningError::InvalidKey),
    }
}

/// `ethsign::SecretKey::public` and `ethsign::PublicKey::address`: the
/// address of the account that the key controls, which depends on the key's
/// bytes alone.
#[verifier::external_body]
fn secret_address(key: &ethsign::SecretKey) -> (address: Address)
    ensures
        address@ == secret_address_of(secret_bytes(*key)),
{
    Address(*key.public().address())
}

/// `ethsign::SecretKey::sign`: the signature of the key over the message.
/// The two errors it can return are a key that `from_slice` rejects, which
/// no `ethsign::SecretKey` holds, and a message that is not 32 bytes long.
/// The nonce is that of RFC 6979 without added entropy, so the signature
/// depends on the key's bytes and the message alone.
#[verifier::external_body]
fn secret_sign(key: &ethsign::SecretKey, message: &[u8]) -> (r: Result<Signature, SigningError>)
    ensures
        r is Ok <==> message@.len() == 32,
        r matches Ok(sig) ==> sig == ecdsa_signature(secret_bytes(*key), message@),
        r matches Err(e) ==> e == SigningError::Backend,
{
    match key.sign(message) {
        Ok(sig) => Ok(Signature { v: sig.v, r: sig.r, s: sig.s }),
        Err(_) => Err(SigningError::Backend),
    }
}

} // verus!
