//! A contract's interface, as `ethabi` holds it: the methods it has, and the
//! call payload of one of them for given arguments.
//!
//! The three `ethabi` types are carried through as they are. What a lookup
//! finds and what an encoding gives are named, not spelled out.

use vstd::prelude::*;
use crate::types::opt_bytes;

verus! {

/// `ethabi::Contract`: the interface of a contract.
#[verifier::external_type_specification]
#[verifier::external_body]
pub struct ExAbiContract(ethabi::Contract);

/// `ethabi::Function`: one method of an interface.
#[verifier::external_type_specification]
#[verifier::external_body]
pub struct ExAbiFunction(ethabi::Function);

/// `ethabi::Token`: one argument or result of a method.
#[verifier::external_type_specification]
#[verifier::external_body]
pub struct ExAbiToken(ethabi::Token);

/// The method that the interface holds under a name, if it holds one.
pub uninterp spec fn abi_function_of(abi: ethabi::Contract, name: Seq<char>) -> Option<
    ethabi::Function,
>;

/// The call payload of a method for given arguments: the selector of the
/// method and the encoded arguments, or nothing where the arguments do not
/// match the method's parameters.
pub uninterp spec fn abi_call_data(function: ethabi::Function, tokens: Seq<ethabi::Token>)
    -> Option<Seq<u8>>;

/// `ethabi::Contract::function`: a copy of the method that the interface
/// holds under the name, or nothing where it holds none.
#[verifier::external_body]
pub(crate) fn abi_function(abi: &ethabi::Contract, name: &str) -> (r: Option<ethabi::Function>)
    ensures
        r == abi_function_of(*abi, name@),
{
    abi.function(name).ok().cloned()
}

/// `ethabi::Function::encode_input`: the call payload for the arguments, or
/// nothing where they do not match the method's parameters.
#[verifier::external_body]
pub(crate) fn function_encode_input(function: &ethabi::Function, tokens: &Vec<ethabi::Token>) -> (r:
    Option<Vec<u8>>)
    ensures
        opt_bytes(r) == abi_call_data(*function, tokens@),
{
    function.encode_input(tokens).ok()
}

} // verus!
