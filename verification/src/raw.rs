//! A transaction with every field resolved, and its two list encodings: the
//! unsigned one, which is also what gets hashed for signing, and the signed
//! one, which is what gets broadcast.

use vstd::prelude::*;
use crate::encoding::{
    rlp_encodable, rlp_encoding, rlp_list, stream_append_address, stream_append_bytes, stream_append_uint, stream_begin_list,
    stream_complete, stream_declared, stream_items, uint_payload,
};
use crate::error::SigningError;
use crate::numeric::{be_value, u256_from_big_endian, U256};
use crate::signing::{ecdsa_signature, keccak256, keccak256_digest, Signature, SigningKey};
use crate::types::{zero_address, Address};

verus! {

/// The recovery value that is transmitted for recovery id `v`: with a chain
/// id `n` it is `v + 35 + 2n`, which binds the signature to that chain;
/// without one it is `v + 27`.
pub open spec fn replay_protected(v: nat, chain_id: Option<u64>) -> nat {
    match chain_id {
        Some(n) => v + 35 + 2 * (n as nat),
        None => v + 27,
    }
}

/// A transaction ready to be encoded.
#[derive(Debug, PartialEq, Eq)]
pub struct RawTransaction {
    pub nonce: U256,
    pub to: Option<Address>,
    pub value: U256,
    pub gas_price: U256,
    pub gas: U256,
    pub data: Vec<u8>,
}

/// What a [`RawTransaction`] holds, as mathematical values.
pub ghost struct RawTransactionView {
    pub nonce: nat,
    pub to: Option<Seq<u8>>,
    pub value: nat,
    pub gas_price: nat,
    pub gas: nat,
    pub data: Seq<u8>,
}

impl View for RawTransaction {
    type V = RawTransactionView;

    open spec fn view(&self) -> RawTransactionView {
        RawTransactionView {
            nonce: self.nonce@,
            to: self.to.deep_view(),
            value: self.value@,
            gas_price: self.gas_price@,
            gas: self.gas@,
            data: self.data@,
        }
    }
}

impl RawTransactionView {
    /// The payload of the recipient item: the recipient's bytes, or twenty
    /// zero bytes where there is none.
    pub open spec fn to_payload(self) -> Seq<u8> {
        match self.to {
            Some(a) => a,
            None => zero_address(),
        }
    }

    /// The six items that every encoding starts with: nonce, gas price, gas
    /// limit, recipient, value, payload.
    pub open spec fn base_items(self) -> Seq<Seq<u8>> {
        seq![
            uint_payload(self.nonce),
            uint_payload(self.gas_price),
            uint_payload(self.gas),
            self.to_payload(),
            uint_payload(self.value),
            self.data,
        ]
    }

    /// The items of the unsigned encoding: the six base items, and with a
    /// chain id three more: the chain id and two zeros.
    pub open spec fn unsigned_items(self, chain_id: Option<u64>) -> Seq<Seq<u8>> {
        match chain_id {
            Some(n) => self.base_items() + seq![
                uint_payload(n as nat),
                uint_payload(0),
                uint_payload(0),
            ],
            None => self.base_items(),
        }
    }

    /// The items of the signed encoding: the six base items, the recovery
    /// value with replay protection, and the two halves of the signature as
    /// integers.
    pub open spec fn signed_items(self, signature: Signature, chain_id: Option<u64>) -> Seq<
        Seq<u8>,
    > {
        self.base_items() + seq![
            uint_payload(replay_protected(signature.v as nat, chain_id)),
            uint_payload(be_value(signature.r@)),
            uint_payload(be_value(signature.s@)),
        ]
    }

    /// The hash that is signed: the Keccak-256 digest of the unsigned
    /// encoding.
    pub open spec fn signing_hash(self, chain_id: Option<u64>) -> Seq<u8> {
        keccak256_digest(rlp_list(self.unsigned_items(chain_id)))
    }

    /// The signature of a secret over the hash that is signed.
    pub open spec fn signature(self, secret: Seq<u8>, chain_id: Option<u64>) -> Signature {
        ecdsa_signature(secret, self.signing_hash(chain_id))
    }
}

/// The unsigned list has six items without a chain id and nine with one, and
/// of the nine the last two are empty: the integer zero.
pub proof fn lemma_unsigned_shape(tx: RawTransactionView, chain_id: Option<u64>)
    ensures
        chain_id is None ==> tx.unsigned_items(chain_id).len() == 6,
        chain_id is Some ==> tx.unsigned_items(chain_id).len() == 9,
        chain_id is Some ==> tx.unsigned_items(chain_id)[7].len() == 0,
        chain_id is Some ==> tx.unsigned_items(chain_id)[8].len() == 0,
        tx.unsigned_items(chain_id).subrange(0, 6) == tx.base_items(),
{
    assert(tx.unsigned_items(chain_id).subrange(0, 6) =~= tx.base_items());
}

/// The signed list has nine items whether or not there is a chain id; the
/// first six are those of the unsigned list, and the seventh is the recovery
/// id plus 27, or with a chain id `n` plus `35 + 2n`.
pub proof fn lemma_signed_shape(tx: RawTransactionView, signature: Signature, chain_id: Option<u64>)
    ensures
        tx.signed_items(signature, chain_id).len() == 9,
        tx.signed_items(signature, chain_id).subrange(0, 6) == tx.base_items(),
        chain_id is None ==> tx.signed_items(signature, chain_id)[6] == uint_payload(
            signature.v as nat + 27,
        ),
        chain_id matches Some(n) ==> tx.signed_items(signature, chain_id)[6] == uint_payload(
            signature.v as nat + 35 + 2 * (n as nat),
        ),
{
    assert(tx.signed_items(signature, chain_id).subrange(0, 6) =~= tx.base_items());
}

impl RawTransaction {
    /// Adds replay protection to a recovery id.
    pub fn add_chain_replay_protection(v: u64, chain_id: Option<u64>) -> (r: u64)
        requires
            replay_protected(v as nat, chain_id) <= u64::MAX,
        ensures
            r as nat == replay_protected(v as nat, chain_id),
    {
        match chain_id {
            Some(n) => v + (35 + n * 2),
            None => v + 27,
        }
    }

    fn append_base(&self, s: &mut rlp::RlpStream)
        requires
            stream_declared(*old(s)) matches Some(n) && n >= 6,
            stream_items(*old(s)).len() == 0,
        ensures
            stream_declared(*final(s)) == stream_declared(*old(s)),
            stream_items(*final(s)) == self@.base_items(),
    {
        stream_append_uint(s, &self.nonce);
        stream_append_uint(s, &self.gas_price);
        stream_append_uint(s, &self.gas);
        let to = match self.to {
            Some(a) => a,
            None => Address::zero(),
        };
        stream_append_address(s, &to);
        stream_append_uint(s, &self.value);
        stream_append_bytes(s, &self.data);
        assert(stream_items(*s) =~= self@.base_items());
    }

    /// Writes the unsigned list into a fresh stream: six items, or nine with
    /// a chain id.
    pub fn rlp_append_unsigned(&self, s: &mut rlp::RlpStream, chain_id: Option<u64>)
        requires
            stream_declared(*old(s)) is None,
            stream_items(*old(s)).len() == 0,
        ensures
            stream_complete(*final(s)),
            stream_items(*final(s)) == self@.unsigned_items(chain_id),
    {
        stream_begin_list(
            s,
            if chain_id.is_some() {
                9
            } else {
                6
            },
        );
        self.append_base(s);
        if let Some(n) = chain_id {
            stream_append_uint(s, &U256::from_u64(n));
            stream_append_uint(s, &U256::zero());
            stream_append_uint(s, &U256::zero());
        }
        assert(stream_items(*s) =~= self@.unsigned_items(chain_id));
    }

    /// Writes the signed list of nine items into a fresh stream.
    pub fn rlp_append_signed(&self, s: &mut rlp::RlpStream, sig: &Signature, chain_id: Option<u64>)
        requires
            stream_declared(*old(s)) is None,
            stream_items(*old(s)).len() == 0,
            replay_protected(sig.v as nat, chain_id) <= u64::MAX,
        ensures
            stream_complete(*final(s)),
            stream_items(*final(s)) == self@.signed_items(*sig, chain_id),
    {
        let v = RawTransaction::add_chain_replay_protection(sig.v as u64, chain_id);
        stream_begin_list(s, 9);
        self.append_base(s);
        stream_append_uint(s, &U256::from_u64(v));
        stream_append_uint(s, &u256_from_big_endian(&sig.r));
        stream_append_uint(s, &u256_from_big_endian(&sig.s));
        assert(stream_items(*s) =~= self@.signed_items(*sig, chain_id));
    }

    /// The unsigned encoding: the list of [`RawTransactionView::unsigned_items`].
    pub fn into_raw(&self, chain_id: Option<u64>) -> (bytes: Vec<u8>)
        ensures
            bytes@ == rlp_list(self@.unsigned_items(chain_id)),
            rlp_encodable(self@.unsigned_items(chain_id)) ==> bytes@ == rlp_encoding(
                self@.unsigned_items(chain_id),
            ),
    {
        let mut rlp = rlp::RlpStream::new();
        self.rlp_append_unsigned(&mut rlp, chain_id);
        rlp.out()
    }

    /// The signed encoding for a given signature: the list of
    /// [`RawTransactionView::signed_items`].
    pub fn encode_signed(&self, sig: &Signature, chain_id: Option<u64>) -> (bytes: Vec<u8>)
        requires
            replay_protected(sig.v as nat, chain_id) <= u64::MAX,
        ensures
            bytes@ == rlp_list(self@.signed_items(*sig, chain_id)),
            rlp_encodable(self@.signed_items(*sig, chain_id)) ==> bytes@ == rlp_encoding(
                self@.signed_items(*sig, chain_id),
            ),
    {
        let mut rlp = rlp::RlpStream::new();
        self.rlp_append_signed(&mut rlp, sig, chain_id);
        rlp.out()
    }

    /// The hash that is signed: the Keccak-256 digest of the unsigned
    /// encoding.
    pub fn signing_hash(&self, chain_id: Option<u64>) -> (hash: [u8; 32])
        ensures
            hash@ == self@.signing_hash(chain_id),
    {
        let unsigned = self.into_raw(chain_id);
        keccak256(unsigned.as_slice())
    }

    /// Whether the recovery value for recovery id `v` fits in 64 bits.
    pub fn replay_protection_fits(v: u8, chain_id: Option<u64>) -> (r: bool)
        ensures
            r == (replay_protected(v as nat, chain_id) <= u64::MAX),
    {
        match chain_id {
            Some(n) => n <= (u64::MAX - 35 - v as u64) / 2,
            None => true,
        }
    }

    /// Signs the transaction and gives the signed encoding: that of the
    /// signature which the key's secret gives over the digest of the
    /// unsigned encoding. It fails in one case only, a chain id so large
    /// that the recovery value leaves 64 bits; no chain id below 2^63 - 145
    /// is that large.
    pub fn sign(&self, key: &SigningKey, chain_id: Option<u64>) -> (r: Result<
        Vec<u8>,
        SigningError,
    >)
        ensures
            match r {
                Ok(bytes) => {
                    let sig = self@.signature(key.secret(), chain_id);
                    &&& replay_protected(sig.v as nat, chain_id) <= u64::MAX
                    &&& bytes@ == rlp_list(self@.signed_items(sig, chain_id))
                    &&& rlp_encodable(self@.signed_items(sig, chain_id)) ==> bytes@
                        == rlp_encoding(self@.signed_items(sig, chain_id))
                },
                Err(e) => {
                    let sig = self@.signature(key.secret(), chain_id);
                    &&& e == SigningError::ChainIdTooLarge
                    &&& replay_protected(sig.v as nat, chain_id) > u64::MAX
                },
            },
    {
        let hash = self.signing_hash(chain_id);
        match key.sign(&hash) {
            Ok(sig) => {
                if RawTransaction::replay_protection_fits(sig.v, chain_id) {
                    let bytes = self.encode_signed(&sig, chain_id);
                    Ok(bytes)
                } else {
                    Err(SigningError::ChainIdTooLarge)
                }
            },
            Err(_) => Err(SigningError::Backend),
        }
    }
}

} // verus!
