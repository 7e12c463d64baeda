//! A contract bound to an address: the interface and the deployment records
//! that a build artifact holds, and the entry point that turns a method name
//! and arguments into a transaction builder.

use vstd::prelude::*;
use crate::builder::{
    call_request_of, BuilderView, ContractTransactionBuilder, PendingCall, PendingSend,
};
use crate::error::{SchemaError, UnknownNetwork};
use crate::schema::{abi_call_data, abi_function, abi_function_of, function_encode_input};
use crate::types::{zero_address, Address, BlockNumber, TransactionRequestView};

verus! {

/// One deployment of a contract.
#[derive(Clone, Copy, Debug, PartialEq, Eq)]
pub struct Network {
    pub address: Address,
}

/// What a compiler left behind for one contract: its interface, and where it
/// is deployed on which network. The deployments are listed in the order in
/// which they were recorded; of two records for one network the later one
/// counts.
#[derive(Debug)]
pub struct Artifact {
    pub abi: ethabi::Contract,
    pub networks: Vec<(String, Network)>,
}

/// The deployments as a map from network id to address, later records
/// replacing earlier ones.
pub open spec fn deployments(records: Seq<(String, Network)>) -> Map<Seq<char>, Seq<u8>>
    decreases records.len(),
{
    if records.len() == 0 {
        Map::empty()
    } else {
        deployments(records.drop_last()).insert(records.last().0@, records.last().1.address@)
    }
}

impl Artifact {
    /// The address of the deployment on the network, if one is recorded.
    pub fn deployed_address(&self, network_id: &String) -> (r: Option<Address>)
        ensures
            r is Some <==> deployments(self.networks@).contains_key(network_id@),
            r matches Some(a) ==> a@ == deployments(self.networks@)[network_id@],
    {
        let mut i: usize = self.networks.len();
        assert(self.networks@.take(i as int) =~= self.networks@);
        while i > 0
            invariant
                i <= self.networks.len(),
                deployments(self.networks@).contains_key(network_id@) <==> deployments(
                    self.networks@.take(i as int),
                ).contains_key(network_id@),
                deployments(self.networks@).contains_key(network_id@) ==> deployments(
                    self.networks@,
                )[network_id@] == deployments(self.networks@.take(i as int))[network_id@],
            decreases i,
        {
            i = i - 1;
            let ghost prefix = self.networks@.take(i as int + 1);
            assert(prefix.drop_last() =~= self.networks@.take(i as int));
            assert(prefix.last() == self.networks@[i as int]);
            if self.networks[i].0 == *network_id {
                return Some(self.networks[i].1.address);
            }
        }
        assert(self.networks@.take(0).len() == 0);
        None
    }
}

/// A contract at an address.
#[derive(Debug)]
pub struct BoundContract {
    abi: ethabi::Contract,
    address: Address,
}

impl BoundContract {
    /// The interface of the contract.
    pub closed spec fn abi_spec(&self) -> ethabi::Contract {
        self.abi
    }

    /// The address that the contract is bound to.
    pub closed spec fn address_spec(&self) -> Address {
        self.address
    }

    /// Binds the artifact's interface to the address where the artifact
    /// records a deployment on the given network.
    pub fn new(network_id: &String, artifact: Artifact) -> (r: Result<BoundContract, UnknownNetwork>)
        ensures
            match r {
                Ok(contract) => {
                    &&& deployments(artifact.networks@).contains_key(network_id@)
                    &&& contract.address()@ == deployments(artifact.networks@)[network_id@]
                    &&& contract.abi_spec() == artifact.abi
                },
                Err(e) => {
                    &&& !deployments(artifact.networks@).contains_key(network_id@)
                    &&& e.0@ == network_id@
                },
            },
    {
        match artifact.deployed_address(network_id) {
            Some(address) => Ok(BoundContract::at(address, artifact)),
            None => Err(UnknownNetwork(network_id.clone())),
        }
    }

    /// Binds the artifact's interface to an explicit address.
    pub fn at(address: Address, artifact: Artifact) -> (r: BoundContract)
        ensures
            r.address() == address,
            r.abi_spec() == artifact.abi,
    {
        BoundContract { abi: artifact.abi, address }
    }

    /// The address that the contract is bound to.
    #[verifier::when_used_as_spec(address_spec)]
    pub fn address(&self) -> (r: Address)
        ensures
            r == self.address_spec(),
    {
        self.address
    }

    /// The builder that a looked-up method and its encoded arguments give:
    /// a call of that method on this contract, with nothing else set.
    pub fn builder_for(
        &self,
        name: &str,
        function: Option<ethabi::Function>,
        data: Option<Vec<u8>>,
    ) -> (r: Result<ContractTransactionBuilder, SchemaError>)
        ensures
            match r {
                Ok(builder) => {
                    &&& function is Some
                    &&& data is Some
                    &&& builder@ == fresh_builder(
                        function.unwrap(),
                        self.address()@,
                        data.unwrap()@,
                    )
                },
                Err(SchemaError::UnknownMethod(n)) => function is None && n@ == name@,
                Err(SchemaError::Encoding) => function is Some && data is None,
            },
    {
        match function {
            None => Err(SchemaError::UnknownMethod(name.to_owned())),
            Some(function) => match data {
                None => Err(SchemaError::Encoding),
                Some(data) => Ok(ContractTransactionBuilder::new(function, self.address, data)),
            },
        }
    }

    /// Starts a call of the method `name` with the arguments `params`: the
    /// method is looked up in the interface and the arguments are encoded
    /// against its parameters. A name that the interface does not hold is an
    /// unknown method; arguments that do not fit are an encoding error; else
    /// the builder is that of the method found, this contract's address and
    /// the payload.
    pub fn try_function(&self, name: &str, params: &Vec<ethabi::Token>) -> (r: Result<
        ContractTransactionBuilder,
        SchemaError,
    >)
        ensures
            match abi_function_of(self.abi_spec(), name@) {
                None => r matches Err(SchemaError::UnknownMethod(n)) && n@ == name@,
                Some(function) => match abi_call_data(function, params@) {
                    None => r matches Err(SchemaError::Encoding),
                    Some(data) => r matches Ok(builder) && builder@ == fresh_builder(
                        function,
                        self.address()@,
                        data,
                    ),
                },
            },
    {
        let function = abi_function(&self.abi, name);
        let data = match &function {
            Some(f) => function_encode_input(f, params),
            None => None,
        };
        self.builder_for(name, function, data)
    }

    /// A read-only call of the method `name` with the arguments `params`,
    /// against the latest block and with nothing but recipient and payload
    /// set. It fails where [`Self::try_function`] does.
    pub fn call(&self, name: &str, params: &Vec<ethabi::Token>) -> (r: Result<
        PendingCall,
        SchemaError,
    >)
        ensures
            match abi_function_of(self.abi_spec(), name@) {
                None => r matches Err(SchemaError::UnknownMethod(n)) && n@ == name@,
                Some(function) => match abi_call_data(function, params@) {
                    None => r matches Err(SchemaError::Encoding),
                    Some(data) => {
                        &&& r matches Ok(call)
                        &&& call.request@ == call_request_of(
                            fresh_builder(function, self.address()@, data).tx,
                        )
                        &&& call.block == BlockNumber::Latest
                        &&& call.function == function
                    },
                },
            },
    {
        match self.try_function(name, params) {
            Ok(builder) => match builder.call() {
                Ok(call) => Ok(call),
                Err(_) => unreached(),
            },
            Err(e) => Err(e),
        }
    }

    /// A send of the method `name` with the arguments `params`, with nothing
    /// but recipient and payload set: the request goes to the node as it is,
    /// for the node to sign. It fails where [`Self::try_function`] does.
    pub fn send(&self, name: &str, params: &Vec<ethabi::Token>) -> (r: Result<
        PendingSend,
        SchemaError,
    >)
        ensures
            match abi_function_of(self.abi_spec(), name@) {
                None => r matches Err(SchemaError::UnknownMethod(n)) && n@ == name@,
                Some(function) => match abi_call_data(function, params@) {
                    None => r matches Err(SchemaError::Encoding),
                    Some(data) => {
                        &&& r matches Ok(PendingSend::Transaction(tx))
                        &&& tx@ == fresh_builder(function, self.address()@, data).tx
                    },
                },
            },
    {
        match self.try_function(name, params) {
            Ok(builder) => match builder.send() {
                Ok(pending) => Ok(pending),
                Err(_) => unreached(),
            },
            Err(e) => Err(e),
        }
    }
}

/// The view of a builder on which nothing but method, recipient and payload
/// is set.
pub open spec fn fresh_builder(function: ethabi::Function, contract: Seq<u8>, data: Seq<u8>)
    -> BuilderView {
    BuilderView {
        function,
        tx: TransactionRequestView {
            from: zero_address(),
            to: Some(contract),
            gas: None,
            gas_price: None,
            value: None,
            data: Some(data),
            nonce: None,
            condition: None,
        },
        block: None,
        secret: None,
        chain_id: None,
    }
}

} // verus!
