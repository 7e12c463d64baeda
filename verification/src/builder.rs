//! The transaction builder: it accumulates the parameters of one method
//! invocation and ends in a read-only call or in a send.
//!
//! Neither end talks to a node. Each says what is to be asked of the node,
//! and [`ContractTransactionBuilder::build_raw_transaction`] takes the node's
//! answers and gives the bytes to broadcast.

use vstd::prelude::*;
use crate::encoding::{rlp_encodable, rlp_encoding, rlp_list};
use crate::error::{ConfigurationError, Parameter, SendError, SigningError};
use crate::numeric::U256;
use crate::raw::{replay_protected, RawTransaction, RawTransactionView};
use crate::signing::SigningKey;
use crate::types::{
    zero_address, Address, BlockNumber, CallRequest, CallRequestView, TransactionCondition,
    TransactionRequest, TransactionRequestView,
};

verus! {

/// The parameters of one method invocation, as they accumulate.
#[derive(Debug)]
pub struct ContractTransactionBuilder {
    function: ethabi::Function,
    tx: TransactionRequest,
    block: Option<BlockNumber>,
    secret: Option<SigningKey>,
    chain_id: Option<u64>,
}

/// What a [`ContractTransactionBuilder`] holds.
pub ghost struct BuilderView {
    pub function: ethabi::Function,
    pub tx: TransactionRequestView,
    pub block: Option<BlockNumber>,
    pub secret: Option<SigningKey>,
    pub chain_id: Option<u64>,
}

impl View for ContractTransactionBuilder {
    type V = BuilderView;

    closed spec fn view(&self) -> BuilderView {
        BuilderView {
            function: self.function,
            tx: self.tx@,
            block: self.block,
            secret: self.secret,
            chain_id: self.chain_id,
        }
    }
}

/// A read-only call that is ready to be executed.
#[derive(Debug)]
pub struct PendingCall {
    /// The request to execute.
    pub request: CallRequest,
    /// The block to execute it against.
    pub block: BlockNumber,
    /// The method whose outputs the returned bytes are decoded by.
    pub function: ethabi::Function,
}

/// What is to be asked of the node before a transaction can be signed. The
/// three questions do not depend on one another.
#[derive(Debug, PartialEq, Eq)]
pub struct Queries {
    /// The account whose transaction count is the nonce, where no nonce is
    /// set.
    pub nonce: Option<Address>,
    /// The request whose gas is to be estimated, where no gas limit is set.
    pub gas: Option<CallRequest>,
    /// Whether the current gas price is to be asked for.
    pub gas_price: bool,
}

/// The node's answers to [`Queries`].
#[derive(Clone, Copy, Debug, PartialEq, Eq)]
pub struct Answers {
    pub nonce: Option<U256>,
    pub gas: Option<U256>,
    pub gas_price: Option<U256>,
}

/// What is left to do for a send.
#[derive(Debug)]
pub enum PendingSend {
    /// Hand the request to the node, which signs it.
    Transaction(TransactionRequest),
    /// Ask the node what `queries` lists, then build the raw transaction
    /// from `builder` and broadcast it.
    Raw { builder: ContractTransactionBuilder, queries: Queries },
}

/// The first thing that a request lacks for a terminal operation, if any.
pub open spec fn missing(tx: TransactionRequestView) -> Option<ConfigurationError> {
    if tx.to is None {
        Some(ConfigurationError::MissingRecipient)
    } else if tx.data is None {
        Some(ConfigurationError::MissingPayload)
    } else {
        None
    }
}

/// The call request that a transaction request stands for.
pub open spec fn call_request_of(tx: TransactionRequestView) -> CallRequestView {
    CallRequestView {
        from: Some(tx.from),
        to: tx.to.unwrap(),
        gas: tx.gas,
        gas_price: tx.gas_price,
        value: tx.value,
        data: tx.data,
    }
}

/// A value that is set, or else the node's answer.
pub open spec fn resolved(set: Option<nat>, answer: Option<U256>) -> Option<nat> {
    match set {
        Some(v) => Some(v),
        None => answer.deep_view(),
    }
}

/// The first parameter that is neither set nor answered, if any.
pub open spec fn unresolved(tx: TransactionRequestView, answers: Answers) -> Option<Parameter> {
    if resolved(tx.nonce, answers.nonce) is None {
        Some(Parameter::Nonce)
    } else if resolved(tx.gas, answers.gas) is None {
        Some(Parameter::Gas)
    } else if resolved(tx.gas_price, answers.gas_price) is None {
        Some(Parameter::GasPrice)
    } else {
        None
    }
}

/// The transaction that is encoded once every parameter is resolved. An
/// unset value is zero.
pub open spec fn raw_transaction_of(tx: TransactionRequestView, answers: Answers)
    -> RawTransactionView {
    RawTransactionView {
        nonce: resolved(tx.nonce, answers.nonce).unwrap(),
        to: tx.to,
        value: match tx.value {
            Some(v) => v,
            None => 0,
        },
        gas_price: resolved(tx.gas_price, answers.gas_price).unwrap(),
        gas: resolved(tx.gas, answers.gas).unwrap(),
        data: tx.data.unwrap(),
    }
}

impl TransactionRequest {
    /// The read-only call with the fields of this request, or what the
    /// request lacks.
    pub fn call_request(&self) -> (r: Result<CallRequest, ConfigurationError>)
        ensures
            match r {
                Ok(call) => missing(self@) is None && call@ == call_request_of(self@),
                Err(e) => missing(self@) == Some(e),
            },
    {
        match self.to {
            None => Err(ConfigurationError::MissingRecipient),
            Some(to) => match &self.data {
                None => Err(ConfigurationError::MissingPayload),
                Some(data) => Ok(
                    CallRequest {
                        from: Some(self.from),
                        to,
                        gas: self.gas,
                        gas_price: self.gas_price,
                        value: self.value,
                        data: Some(data.clone()),
                    },
                ),
            },
        }
    }
}

impl ContractTransactionBuilder {
    /// A builder for a call of `function` on the contract at `contract` with
    /// the payload `data`: no sender, no gas, no value, no nonce, no key.
    pub fn new(function: ethabi::Function, contract: Address, data: Vec<u8>) -> (r: Self)
        ensures
            r@ == (BuilderView {
                function,
                tx: TransactionRequestView {
                    from: zero_address(),
                    to: Some(contract@),
                    gas: None,
                    gas_price: None,
                    value: None,
                    data: Some(data@),
                    nonce: None,
                    condition: None,
                },
                block: None,
                secret: None,
                chain_id: None,
            }),
    {
        ContractTransactionBuilder {
            function,
            tx: TransactionRequest {
                from: Address::zero(),
                to: Some(contract),
                gas: None,
                gas_price: None,
                value: None,
                data: Some(data),
                nonce: None,
                condition: None,
            },
            block: None,
            secret: None,
            chain_id: None,
        }
    }

    /// Sets the sender.
    pub fn from(self, from: Address) -> (r: Self)
        ensures
            r@ == (BuilderView { tx: TransactionRequestView { from: from@, ..self@.tx }, ..self@ }),
    {
        let mut b = self;
        b.tx.from = from;
        b
    }

    /// Sets or clears the gas limit.
    pub fn gas(self, gas: Option<U256>) -> (r: Self)
        ensures
            r@ == (BuilderView {
                tx: TransactionRequestView { gas: gas.deep_view(), ..self@.tx },
                ..self@
            }),
    {
        let mut b = self;
        b.tx.gas = gas;
        b
    }

    /// Sets or clears the gas price.
    pub fn gas_price(self, gas_price: Option<U256>) -> (r: Self)
        ensures
            r@ == (BuilderView {
                tx: TransactionRequestView { gas_price: gas_price.deep_view(), ..self@.tx },
                ..self@
            }),
    {
        let mut b = self;
        b.tx.gas_price = gas_price;
        b
    }

    /// Sets or clears the value to transfer.
    pub fn value(self, value: Option<U256>) -> (r: Self)
        ensures
            r@ == (BuilderView {
                tx: TransactionRequestView { value: value.deep_view(), ..self@.tx },
                ..self@
            }),
    {
        let mut b = self;
        b.tx.value = value;
        b
    }

    /// Sets or clears the nonce.
    pub fn nonce(self, nonce: Option<U256>) -> (r: Self)
        ensures
            r@ == (BuilderView {
                tx: TransactionRequestView { nonce: nonce.deep_view(), ..self@.tx },
                ..self@
            }),
    {
        let mut b = self;
        b.tx.nonce = nonce;
        b
    }

    /// Sets or clears the condition on inclusion.
    pub fn condition(self, condition: Option<TransactionCondition>) -> (r: Self)
        ensures
            r@ == (BuilderView { tx: TransactionRequestView { condition, ..self@.tx }, ..self@ }),
    {
        let mut b = self;
        b.tx.condition = condition;
        b
    }

    /// Sets or clears the block that a read-only call is executed against.
    pub fn block(self, block: Option<BlockNumber>) -> (r: Self)
        ensures
            r@ == (BuilderView { block, ..self@ }),
    {
        let mut b = self;
        b.block = block;
        b
    }

    /// Sets or clears the signing key and the chain id. With a key the
    /// sender becomes the key's address, whatever it was before.
    pub fn sign(self, secret: Option<SigningKey>, chain_id: Option<u64>) -> (r: Self)
        ensures
            r@ == (BuilderView {
                tx: TransactionRequestView {
                    from: match secret {
                        Some(key) => key.address()@,
                        None => self@.tx.from,
                    },
                    ..self@.tx
                },
                secret,
                chain_id,
                ..self@
            }),
    {
        let mut b = self;
        if let Some(key) = &secret {
            b.tx.from = key.address();
        }
        b.secret = secret;
        b.chain_id = chain_id;
        b
    }

    /// Ends the builder in a read-only call: the request carries the sender,
    /// the recipient, the gas fields, the value and the payload, and runs
    /// against the block that was set, or the latest one. No key is used.
    pub fn call(self) -> (r: Result<PendingCall, ConfigurationError>)
        ensures
            match r {
                Ok(call) => {
                    &&& missing(self@.tx) is None
                    &&& call.request@ == call_request_of(self@.tx)
                    &&& call.block == match self@.block {
                        Some(block) => block,
                        None => BlockNumber::Latest,
                    }
                    &&& call.function == self@.function
                },
                Err(e) => missing(self@.tx) == Some(e),
            },
    {
        let request = match self.tx.call_request() {
            Ok(request) => request,
            Err(e) => {
                return Err(e);
            },
        };
        let block = match self.block {
            Some(block) => block,
            None => BlockNumber::Latest,
        };
        Ok(PendingCall { request, block, function: self.function })
    }

    /// What a signed send has to ask of the node: each of nonce, gas limit
    /// and gas price exactly when it is not set.
    fn queries(&self) -> (r: Queries)
        requires
            missing(self@.tx) is None,
        ensures
            r.nonce.deep_view() == (if self@.tx.nonce is None {
                Some(self@.tx.from)
            } else {
                None
            }),
            r.gas is Some <==> self@.tx.gas is None,
            r.gas matches Some(request) ==> request@ == call_request_of(self@.tx),
            r.gas_price <==> self@.tx.gas_price is None,
    {
        let nonce = match self.tx.nonce {
            Some(_) => None,
            None => Some(self.tx.from),
        };
        let gas = match self.tx.gas {
            Some(_) => None,
            None => match self.tx.call_request() {
                Ok(request) => Some(request),
                Err(_) => None,
            },
        };
        Queries { nonce, gas, gas_price: self.tx.gas_price.is_none() }
    }

    /// Ends the builder in a send. Without a key the accumulated request
    /// goes to the node as it is and nothing is signed here. With a key the
    /// result lists what has to be asked of the node first: nothing that is
    /// already set.
    pub fn send(self) -> (r: Result<PendingSend, ConfigurationError>)
        ensures
            match r {
                Ok(PendingSend::Transaction(tx)) => {
                    &&& missing(self@.tx) is None
                    &&& self@.secret is None
                    &&& tx@ == self@.tx
                },
                Ok(PendingSend::Raw { builder, queries }) => {
                    &&& missing(self@.tx) is None
                    &&& self@.secret is Some
                    &&& builder@ == self@
                    &&& queries.nonce.deep_view() == (if self@.tx.nonce is None {
                        Some(self@.tx.from)
                    } else {
                        None
                    })
                    &&& queries.gas is Some <==> self@.tx.gas is None
                    &&& queries.gas matches Some(request) ==> request@ == call_request_of(
                        self@.tx,
                    )
                    &&& queries.gas_price <==> self@.tx.gas_price is None
                },
                Err(e) => missing(self@.tx) == Some(e),
            },
    {
        if self.tx.to.is_none() {
            return Err(ConfigurationError::MissingRecipient);
        }
        if self.tx.data.is_none() {
            return Err(ConfigurationError::MissingPayload);
        }
        if self.secret.is_some() {
            let queries = self.queries();
            Ok(PendingSend::Raw { builder: self, queries })
        } else {
            Ok(PendingSend::Transaction(self.tx))
        }
    }

    /// Builds the bytes to broadcast from the builder and the node's
    /// answers. A value that is set on the builder is used and the answer
    /// for it ignored. With a key the transaction is signed, which fails for
    /// a chain id beyond 64 bits of recovery value only; without one the
    /// unsigned encoding is given.
    pub fn build_raw_transaction(self, answers: Answers) -> (r: Result<Vec<u8>, SendError>)
        ensures
            match r {
                Ok(bytes) => {
                    let raw = raw_transaction_of(self@.tx, answers);
                    &&& missing(self@.tx) is None
                    &&& unresolved(self@.tx, answers) is None
                    &&& self@.secret is None ==> {
                        let items = raw.unsigned_items(self@.chain_id);
                        &&& bytes@ == rlp_list(items)
                        &&& rlp_encodable(items) ==> bytes@ == rlp_encoding(items)
                    }
                    &&& self@.secret matches Some(key) ==> {
                        let sig = raw.signature(key.secret(), self@.chain_id);
                        let items = raw.signed_items(sig, self@.chain_id);
                        &&& replay_protected(sig.v as nat, self@.chain_id) <= u64::MAX
                        &&& bytes@ == rlp_list(items)
                        &&& rlp_encodable(items) ==> bytes@ == rlp_encoding(items)
                    }
                },
                Err(SendError::Configuration(e)) => missing(self@.tx) == Some(e),
                Err(SendError::Unresolved(p)) => {
                    &&& missing(self@.tx) is None
                    &&& unresolved(self@.tx, answers) == Some(p)
                },
                Err(SendError::Signing(e)) => {
                    &&& missing(self@.tx) is None
                    &&& unresolved(self@.tx, answers) is None
                    &&& e == SigningError::ChainIdTooLarge
                    &&& self@.secret matches Some(key) && replay_protected(
                        raw_transaction_of(self@.tx, answers).signature(
                            key.secret(),
                            self@.chain_id,
                        ).v as nat,
                        self@.chain_id,
                    ) > u64::MAX
                },
            },
    {
        let to = match self.tx.to {
            Some(to) => to,
            None => {
                return Err(SendError::Configuration(ConfigurationError::MissingRecipient));
            },
        };
        let data = match self.tx.data {
            Some(data) => data,
            None => {
                return Err(SendError::Configuration(ConfigurationError::MissingPayload));
            },
        };
        let nonce = match self.tx.nonce {
            Some(nonce) => nonce,
            None => match answers.nonce {
                Some(nonce) => nonce,
                None => {
                    return Err(SendError::Unresolved(Parameter::Nonce));
                },
            },
        };
        let gas = match self.tx.gas {
            Some(gas) => gas,
            None => match answers.gas {
                Some(gas) => gas,
                None => {
                    return Err(SendError::Unresolved(Parameter::Gas));
                },
            },
        };
        let gas_price = match self.tx.gas_price {
            Some(gas_price) => gas_price,
            None => match answers.gas_price {
                Some(gas_price) => gas_price,
                None => {
                    return Err(SendError::Unresolved(Parameter::GasPrice));
                },
            },
        };
        let value = match self.tx.value {
            Some(value) => value,
            None => U256::zero(),
        };
        let tx = RawTransaction { nonce, gas_price, gas, to: Some(to), value, data };
        assert(tx@ == raw_transaction_of(self@.tx, answers));
        match self.secret {
            Some(key) => match tx.sign(&key, self.chain_id) {
                Ok(bytes) => Ok(bytes),
                Err(e) => Err(SendError::Signing(e)),
            },
            None => Ok(tx.into_raw(self.chain_id)),
        }
    }
}

} // verus!
