//! The errors of the pipeline, one type per boundary.

use vstd::prelude::*;

verus! {

/// A method call that does not fit the contract's interface.
#[derive(Clone, Debug, PartialEq, Eq)]
pub enum SchemaError {
    /// The interface has no method of this name.
    UnknownMethod(String),
    /// The arguments do not match the method's parameters.
    Encoding,
}

/// A request that lacks what a terminal operation needs.
#[derive(Clone, Copy, Debug, PartialEq, Eq, Structural)]
pub enum ConfigurationError {
    /// No recipient address is set.
    MissingRecipient,
    /// No call payload is set.
    MissingPayload,
}

/// A failure of the signing backend.
#[derive(Clone, Copy, Debug, PartialEq, Eq, Structural)]
pub enum SigningError {
    /// The bytes are not a valid secret key.
    InvalidKey,
    /// The backend refused to sign the hash.
    Backend,
    /// The chain id is so large that the recovery value does not fit in 64
    /// bits.
    ChainIdTooLarge,
}

/// A value that a signed send needs from the node.
#[derive(Clone, Copy, Debug, PartialEq, Eq, Structural)]
pub enum Parameter {
    Nonce,
    Gas,
    GasPrice,
}

/// Why no raw transaction could be built.
#[derive(Clone, Copy, Debug, PartialEq, Eq, Structural)]
pub enum SendError {
    /// The request lacks a recipient or a payload.
    Configuration(ConfigurationError),
    /// A parameter was neither set on the builder nor supplied by the node.
    Unresolved(Parameter),
    /// Signing failed.
    Signing(SigningError),
}

/// The network has no recorded deployment of the contract.
#[derive(Clone, Debug, PartialEq, Eq)]
pub struct UnknownNetwork(pub String);

} // verus!
