use scam_ico::builder::PendingSend;
use scam_ico::contract::{Artifact, BoundContract, Network};
use scam_ico::error::{SchemaError, UnknownNetwork};
use scam_ico::types::Address;

const ERC20: &str = r#"[
  {"constant": true, "inputs": [{"name": "owner", "type": "address"}], "name": "balanceOf",
   "outputs": [{"name": "", "type": "uint256"}], "type": "function"},
  {"constant": true, "inputs": [], "name": "decimals",
   "outputs": [{"name": "", "type": "uint256"}], "type": "function"},
  {"constant": false, "inputs": [{"name": "to", "type": "address"}, {"name": "amount", "type": "uint256"}],
   "name": "magicallyCreate", "outputs": [], "type": "function"},
  {"constant": false, "inputs": [], "name": "deposit", "outputs": [], "payable": true, "type": "function"}
]"#;

fn artifact(networks: Vec<(&str, u8)>) -> Artifact {
    Artifact {
        abi: ethabi::Contract::load(ERC20.as_bytes()).unwrap(),
        networks: networks
            .into_iter()
            .map(|(id, byte)| (id.to_owned(), Network { address: Address([byte; 20]) }))
            .collect(),
    }
}

fn token() -> BoundContract {
    BoundContract::at(Address([0x77; 20]), artifact(Vec::new()))
}

fn payload_of(contract: &BoundContract, name: &str, params: Vec<ethabi::Token>) -> Vec<u8> {
    match contract.try_function(name, &params).unwrap().send() {
        Ok(PendingSend::Transaction(tx)) => tx.data.unwrap(),
        other => panic!("expected a plain transaction, got {:?}", other),
    }
}

#[test]
fn deployment_is_found_by_network_id() {
    let a = artifact(vec![("1", 0x01), ("5777", 0x02)]);
    assert_eq!(a.deployed_address(&"5777".to_owned()), Some(Address([0x02; 20])));
    assert_eq!(a.deployed_address(&"1".to_owned()), Some(Address([0x01; 20])));
    assert_eq!(a.deployed_address(&"3".to_owned()), None);
    assert_eq!(a.deployed_address(&"".to_owned()), None);
}

#[test]
fn later_deployment_record_replaces_an_earlier_one() {
    let a = artifact(vec![("1", 0x01), ("2", 0x02), ("1", 0x03)]);
    assert_eq!(a.deployed_address(&"1".to_owned()), Some(Address([0x03; 20])));
}

#[test]
fn artifact_without_deployments_knows_no_network() {
    assert_eq!(artifact(Vec::new()).deployed_address(&"1".to_owned()), None);
}

#[test]
fn contract_is_bound_to_the_deployment_on_the_network() {
    let contract = BoundContract::new(&"5777".to_owned(), artifact(vec![("5777", 0x02)])).unwrap();
    assert_eq!(contract.address(), Address([0x02; 20]));
}

#[test]
fn contract_on_an_unknown_network_is_an_error() {
    let r = BoundContract::new(&"4".to_owned(), artifact(vec![("5777", 0x02)]));
    assert_eq!(r.err(), Some(UnknownNetwork("4".to_owned())));
}

#[test]
fn contract_is_bound_to_an_explicit_address() {
    assert_eq!(token().address(), Address([0x77; 20]));
}

#[test]
fn balance_of_payload_is_selector_and_padded_address() {
    let owner = [0xab; 20];
    let data = payload_of(&token(), "balanceOf", vec![ethabi::Token::Address(owner.into())]);
    assert_eq!(data.len(), 36);
    let selector = tiny_keccak::keccak256(b"balanceOf(address)");
    assert_eq!(&data[..4], &selector[..4]);
    assert_eq!(&data[..4], &[0x70, 0xa0, 0x82, 0x31]);
    assert_eq!(&data[4..16], &[0u8; 12]);
    assert_eq!(&data[16..], &owner);
}

#[test]
fn balance_round_trips_through_the_output_schema() {
    let call = token()
        .try_function("balanceOf", &vec![ethabi::Token::Address([0xab; 20].into())])
        .unwrap()
        .call()
        .unwrap();
    let balance = web3::types::U256::from_dec_str("123456789012345678901234567890").unwrap();
    let mut returned = [0u8; 32];
    balance.to_big_endian(&mut returned);
    let tokens = call.function.decode_output(&returned).unwrap();
    assert_eq!(tokens, vec![ethabi::Token::Uint(balance)]);
}

#[test]
fn method_call_goes_to_the_bound_address() {
    let call = token().try_function("decimals", &Vec::new()).unwrap().call().unwrap();
    assert_eq!(call.request.to, Address([0x77; 20]));
    assert_eq!(call.request.from, Some(Address([0; 20])));
    assert_eq!(call.request.gas, None);
    assert_eq!(call.request.gas_price, None);
    assert_eq!(call.request.value, None);
    assert_eq!(call.function.name, "decimals");
}

#[test]
fn payload_without_arguments_is_the_selector() {
    let data = payload_of(&token(), "deposit", Vec::new());
    assert_eq!(data, tiny_keccak::keccak256(b"deposit()")[..4].to_vec());
}

#[test]
fn payload_of_two_arguments() {
    let data = payload_of(
        &token(),
        "magicallyCreate",
        vec![ethabi::Token::Address([0x01; 20].into()), ethabi::Token::Uint(258.into())],
    );
    assert_eq!(data.len(), 4 + 64);
    assert_eq!(&data[..4], &tiny_keccak::keccak256(b"magicallyCreate(address,uint256)")[..4]);
    assert_eq!(&data[16..36], &[0x01; 20]);
    assert_eq!(&data[36..66], &[0u8; 30]);
    assert_eq!(&data[66..], &[1, 2]);
}

#[test]
fn unknown_method_is_an_error() {
    let r = token().try_function("transfer", &Vec::new());
    assert_eq!(r.err(), Some(SchemaError::UnknownMethod("transfer".to_owned())));
}

#[test]
fn wrong_number_of_arguments_is_an_error() {
    let r = token().try_function("balanceOf", &Vec::new());
    assert_eq!(r.err(), Some(SchemaError::Encoding));
}

#[test]
fn wrong_type_of_argument_is_an_error() {
    let r = token().try_function("balanceOf", &vec![ethabi::Token::Bool(true)]);
    assert_eq!(r.err(), Some(SchemaError::Encoding));
}

#[test]
fn outcome_of_lookup_and_encoding_decides_the_builder() {
    let abi = ethabi::Contract::load(ERC20.as_bytes()).unwrap();
    let function = abi.function("deposit").unwrap().clone();
    let contract = token();
    assert_eq!(
        contract.builder_for("deposit", None, None).err(),
        Some(SchemaError::UnknownMethod("deposit".to_owned()))
    );
    assert_eq!(
        contract.builder_for("deposit", None, Some(vec![1])).err(),
        Some(SchemaError::UnknownMethod("deposit".to_owned()))
    );
    assert_eq!(
        contract.builder_for("deposit", Some(function.clone()), None).err(),
        Some(SchemaError::Encoding)
    );
    let call = contract
        .builder_for("deposit", Some(function.clone()), Some(vec![1, 2, 3]))
        .unwrap()
        .call()
        .unwrap();
    assert_eq!(call.request.data, Some(vec![1, 2, 3]));
    assert_eq!(call.request.to, Address([0x77; 20]));
    assert_eq!(call.function, function);
}

#[test]
fn call_by_name_is_a_read_only_call_of_the_method() {
    let call = token().call("balanceOf", &vec![ethabi::Token::Address([0xab; 20].into())]).unwrap();
    assert_eq!(call.request.to, Address([0x77; 20]));
    assert_eq!(call.request.from, Some(Address([0; 20])));
    assert_eq!(call.request.gas, None);
    assert_eq!(call.request.gas_price, None);
    assert_eq!(call.request.value, None);
    assert_eq!(
        call.request.data,
        Some(payload_of(&token(), "balanceOf", vec![ethabi::Token::Address([0xab; 20].into())]))
    );
    assert_eq!(call.block, scam_ico::types::BlockNumber::Latest);
    assert_eq!(call.function.name, "balanceOf");
}

#[test]
fn send_by_name_hands_the_request_to_the_node() {
    let params = vec![ethabi::Token::Address([0x01; 20].into()), ethabi::Token::Uint(258.into())];
    match token().send("magicallyCreate", &params).unwrap() {
        PendingSend::Transaction(tx) => {
            assert_eq!(tx.to, Some(Address([0x77; 20])));
            assert_eq!(tx.from, Address([0; 20]));
            assert_eq!(tx.data, Some(payload_of(&token(), "magicallyCreate", params)));
            assert_eq!(tx.gas, None);
            assert_eq!(tx.gas_price, None);
            assert_eq!(tx.value, None);
            assert_eq!(tx.nonce, None);
            assert_eq!(tx.condition, None);
        }
        other => panic!("expected a plain transaction, got {:?}", other),
    }
}

#[test]
fn call_and_send_by_name_report_an_unknown_method() {
    assert_eq!(
        token().call("transfer", &Vec::new()).err(),
        Some(SchemaError::UnknownMethod("transfer".to_owned()))
    );
    assert_eq!(
        token().send("transfer", &Vec::new()).err(),
        Some(SchemaError::UnknownMethod("transfer".to_owned()))
    );
}

#[test]
fn call_and_send_by_name_report_arguments_that_do_not_fit() {
    assert_eq!(token().call("balanceOf", &Vec::new()).err(), Some(SchemaError::Encoding));
    assert_eq!(
        token().send("deposit", &vec![ethabi::Token::Bool(true)]).err(),
        Some(SchemaError::Encoding)
    );
}

#[test]
fn method_names_are_told_apart_exactly() {
    assert!(token().try_function("decimals", &Vec::new()).is_ok());
    assert!(token().try_function("Decimals", &Vec::new()).is_err());
    assert!(token().try_function("decimals ", &Vec::new()).is_err());
    assert!(token().try_function("", &Vec::new()).is_err());
}
