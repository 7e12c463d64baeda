//! The plain values that requests are made of: addresses, block selectors,
//! and the two request records handed to a node.

use vstd::prelude::*;
use crate::numeric::U256;

verus! {

impl DeepView for U256 {
    type V = nat;

    open spec fn deep_view(&self) -> nat {
        self@
    }
}

/// A 20-byte account or contract address.
#[derive(Clone, Copy, Debug, PartialEq, Eq)]
pub struct Address(pub [u8; 20]);

impl View for Address {
    type V = Seq<u8>;

    open spec fn view(&self) -> Seq<u8> {
        self.0@
    }
}

impl DeepView for Address {
    type V = Seq<u8>;

    open spec fn deep_view(&self) -> Seq<u8> {
        self@
    }
}

/// Twenty zero bytes: the view of the unset address.
pub open spec fn zero_address() -> Seq<u8> {
    Seq::new(20, |i: int| 0u8)
}

impl Address {
    /// The address of twenty zero bytes, which stands for "no sender set".
    pub fn zero() -> (r: Address)
        ensures
            r@ == zero_address(),
    {
        let r = Address([0u8; 20]);
        assert(r@ =~= zero_address());
        r
    }
}

/// The bytes of an optional byte vector.
pub open spec fn opt_bytes(bytes: Option<Vec<u8>>) -> Option<Seq<u8>> {
    match bytes {
        Some(b) => Some(b@),
        None => None,
    }
}

/// The block against which a read-only call is executed.
#[derive(Clone, Copy, Debug, PartialEq, Eq, Structural)]
pub enum BlockNumber {
    /// The most recent block.
    Latest,
    /// The genesis block.
    Earliest,
    /// The block being assembled.
    Pending,
    /// The block with this number.
    Number(u64),
}

/// The earliest point at which a transaction may be included.
#[derive(Clone, Copy, Debug, PartialEq, Eq, Structural)]
pub enum TransactionCondition {
    /// Not before the block with this number.
    Block(u64),
    /// Not before this unix time.
    Timestamp(u64),
}

/// A read-only call, or the request whose gas is to be estimated.
#[derive(Clone, Debug, PartialEq, Eq)]
pub struct CallRequest {
    pub from: Option<Address>,
    pub to: Address,
    pub gas: Option<U256>,
    pub gas_price: Option<U256>,
    pub value: Option<U256>,
    pub data: Option<Vec<u8>>,
}

/// What a [`CallRequest`] holds, as mathematical values.
pub ghost struct CallRequestView {
    pub from: Option<Seq<u8>>,
    pub to: Seq<u8>,
    pub gas: Option<nat>,
    pub gas_price: Option<nat>,
    pub value: Option<nat>,
    pub data: Option<Seq<u8>>,
}

impl View for CallRequest {
    type V = CallRequestView;

    open spec fn view(&self) -> CallRequestView {
        CallRequestView {
            from: self.from.deep_view(),
            to: self.to@,
            gas: self.gas.deep_view(),
            gas_price: self.gas_price.deep_view(),
            value: self.value.deep_view(),
            data: opt_bytes(self.data),
        }
    }
}

/// A transaction as it is accumulated before it is sent.
#[derive(Clone, Debug, PartialEq, Eq)]
pub struct TransactionRequest {
    pub from: Address,
    pub to: Option<Address>,
    pub gas: Option<U256>,
    pub gas_price: Option<U256>,
    pub value: Option<U256>,
    pub data: Option<Vec<u8>>,
    pub nonce: Option<U256>,
    pub condition: Option<TransactionCondition>,
}

/// What a [`TransactionRequest`] holds, as mathematical values.
pub ghost struct TransactionRequestView {
    pub from: Seq<u8>,
    pub to: Option<Seq<u8>>,
    pub gas: Option<nat>,
    pub gas_price: Option<nat>,
    pub value: Option<nat>,
    pub data: Option<Seq<u8>>,
    pub nonce: Option<nat>,
    pub condition: Option<TransactionCondition>,
}

impl View for TransactionRequest {
    type V = TransactionRequestView;

    open spec fn view(&self) -> TransactionRequestView {
        TransactionRequestView {
            from: self.from@,
            to: self.to.deep_view(),
            gas: self.gas.deep_view(),
            gas_price: self.gas_price.deep_view(),
            value: self.value.deep_view(),
            data: opt_bytes(self.data),
            nonce: self.nonce.deep_view(),
            condition: self.condition,
        }
    }
}

} // verus!
