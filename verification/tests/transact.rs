use graux_sdk::config::GrauxConfig;
use graux_sdk::error::GrauxError;
use graux_sdk::json::{duplicate_values, JsonNumber, JsonValue};
use graux_sdk::provider::GrauxProvider;
use graux_sdk::rpc::RpcCall;
use graux_sdk::transact::Graux;
use graux_sdk::types::{BlockIdentifier, DebugTransaction, SendPrivateTransactionOptions};

fn graux() -> Graux {
    Graux::new(GrauxProvider::new(&GrauxConfig::new(None).unwrap()))
}

fn text(s: &str) -> JsonValue {
    JsonValue::Text(s.to_string())
}

fn number(n: u64) -> JsonValue {
    JsonValue::Number(JsonNumber::PosInt(n))
}

fn object(members: Vec<(&str, JsonValue)>) -> JsonValue {
    JsonValue::Object(members.into_iter().map(|(k, v)| (k.to_string(), v)).collect())
}

fn transaction(to: &str) -> DebugTransaction {
    DebugTransaction {
        to: Some(to.to_string()),
        from: Some("0xfrom".to_string()),
        gas: None,
        gas_price: None,
        value: Some("0x10".to_string()),
        data: None,
    }
}

fn transaction_json(to: &str) -> JsonValue {
    object(vec![("to", text(to)), ("from", text("0xfrom")), ("value", text("0x10"))])
}

fn block() -> BlockIdentifier {
    BlockIdentifier { block_hash: None, block_number: Some("0x5".to_string()) }
}

fn block_json() -> JsonValue {
    object(vec![("block_hash", JsonValue::Null), ("block_number", text("0x5"))])
}

#[test]
fn send_private_transaction_with_everything() {
    let options = SendPrivateTransactionOptions {
        gas: Some(21000),
        gas_price: None,
        value: Some(0),
        max_priority_fee_per_gas: Some(2),
        max_fee_per_gas: None,
    };
    let call = graux().send_private_transaction("0xsigned".to_string(), Some(255), Some(options));
    assert_eq!(
        call,
        RpcCall {
            method: "eth_sendPrivateTransaction".to_string(),
            params: vec![object(vec![
                ("tx", text("0xsigned")),
                ("maxBlockNumber", text("0xff")),
                (
                    "preferences",
                    object(vec![
                        ("gas", number(21000)),
                        ("gas_price", JsonValue::Null),
                        ("value", number(0)),
                        ("max_priority_fee_per_gas", number(2)),
                        ("max_fee_per_gas", JsonValue::Null),
                    ]),
                ),
            ])],
        }
    );
}

#[test]
fn send_private_transaction_with_nothing_optional() {
    let call = graux().send_private_transaction("0xsigned".to_string(), None, None);
    assert_eq!(
        call.params,
        vec![object(vec![
            ("tx", text("0xsigned")),
            ("maxBlockNumber", JsonValue::Null),
            ("preferences", JsonValue::Null),
        ])]
    );
    let zero = graux().send_private_transaction("0xsigned".to_string(), Some(0), None);
    assert_eq!(
        zero.params,
        vec![object(vec![
            ("tx", text("0xsigned")),
            ("maxBlockNumber", text("0x0")),
            ("preferences", JsonValue::Null),
        ])]
    );
}

#[test]
fn the_transaction_hash_is_read_from_a_text() {
    assert_eq!(Graux::private_transaction_hash(&text("0xabc")), Ok("0xabc".to_string()));
    for other in [JsonValue::Null, JsonValue::Bool(true), number(1), object(vec![])] {
        assert_eq!(
            Graux::private_transaction_hash(&other),
            Err(GrauxError::Decode("expected a string".to_string()))
        );
    }
}

#[test]
fn cancel_private_transaction_names_the_hash() {
    assert_eq!(
        graux().cancel_private_transaction("0xabc".to_string()),
        RpcCall {
            method: "eth_cancelPrivateTransaction".to_string(),
            params: vec![object(vec![("txHash", text("0xabc"))])],
        }
    );
    assert_eq!(Graux::private_transaction_cancelled(&JsonValue::Bool(true)), Ok(true));
    assert_eq!(Graux::private_transaction_cancelled(&JsonValue::Bool(false)), Ok(false));
    assert_eq!(
        Graux::private_transaction_cancelled(&text("true")),
        Err(GrauxError::Decode("expected a boolean".to_string()))
    );
}

#[test]
fn receipt_lookup_names_the_hash() {
    assert_eq!(
        graux().get_private_transaction_receipt("0xabc".to_string()),
        RpcCall {
            method: "eth_getPrivateTransactionReceipt".to_string(),
            params: vec![object(vec![("txHash", text("0xabc"))])],
        }
    );
}

#[test]
fn an_empty_object_is_no_receipt() {
    assert_eq!(Graux::private_transaction_receipt(object(vec![])), None);
    assert_eq!(Graux::private_transaction_receipt(JsonValue::Null), None);
    assert_eq!(Graux::private_transaction_receipt(text("0x")), None);
    assert_eq!(Graux::private_transaction_receipt(JsonValue::Array(vec![])), None);
}

#[test]
fn a_populated_object_is_the_receipt() {
    let response = object(vec![
        ("transactionHash", text("0xabc")),
        ("status", text("0x1")),
        ("logs", JsonValue::Array(vec![])),
    ]);
    assert_eq!(
        Graux::private_transaction_receipt(response),
        Some(vec![
            ("transactionHash".to_string(), text("0xabc")),
            ("status".to_string(), text("0x1")),
            ("logs".to_string(), JsonValue::Array(vec![])),
        ])
    );
}

#[test]
fn simulation_without_a_block_has_one_parameter() {
    let call = graux().simulate_asset_changes(transaction("0xto"), None);
    assert_eq!(call.method, "graux_simulateAssetChanges");
    assert_eq!(call.params, vec![transaction_json("0xto")]);
    let call = graux().simulate_execution(transaction("0xto"), None);
    assert_eq!(call.method, "graux_simulateExecution");
    assert_eq!(call.params.len(), 1);
    assert_eq!(call.params, vec![transaction_json("0xto")]);
}

#[test]
fn simulation_with_a_block_has_two_parameters() {
    let call = graux().simulate_asset_changes(transaction("0xto"), Some(block()));
    assert_eq!(call.params, vec![transaction_json("0xto"), block_json()]);
    let call = graux().simulate_execution(transaction("0xto"), Some(block()));
    assert_eq!(call.method, "graux_simulateExecution");
    assert_eq!(call.params.len(), 2);
    assert_eq!(call.params, vec![transaction_json("0xto"), block_json()]);
}

#[test]
fn bundles_go_out_as_one_array() {
    let bundle = || vec![transaction("0xa"), transaction("0xb")];
    let array = JsonValue::Array(vec![transaction_json("0xa"), transaction_json("0xb")]);
    let call = graux().simulate_asset_changes_bundle(bundle(), None);
    assert_eq!(call.method, "graux_simulateAssetChangesBundle");
    assert_eq!(call.params, vec![duplicate_values(&vec![array.clone()]).remove(0)]);
    let call = graux().simulate_execution_bundle(bundle(), Some(block()));
    assert_eq!(call.method, "graux_simulateExecutionBundle");
    assert_eq!(call.params, vec![array.clone(), block_json()]);
    let call = graux().simulate_execution_bundle(Vec::new(), None);
    assert_eq!(call.params, vec![JsonValue::Array(vec![])]);
    let by_hash = BlockIdentifier { block_hash: Some("0xh".to_string()), block_number: None };
    let call = graux().simulate_asset_changes_bundle(bundle(), Some(by_hash));
    assert_eq!(
        call.params,
        vec![array, object(vec![("block_hash", text("0xh")), ("block_number", JsonValue::Null)])]
    );
}

#[test]
fn bundle_results_come_back_in_order() {
    let response = JsonValue::Array(vec![text("one"), object(vec![("k", number(2))])]);
    assert_eq!(
        Graux::simulation_results(response),
        Ok(vec![text("one"), object(vec![("k", number(2))])])
    );
    assert_eq!(Graux::simulation_results(JsonValue::Array(vec![])), Ok(vec![]));
    assert_eq!(
        Graux::simulation_results(object(vec![])),
        Err(GrauxError::Decode("expected an array".to_string()))
    );
}

#[test]
fn the_namespace_keeps_its_provider() {
    let g = graux();
    assert_eq!(g.provider().api_key(), "demo");
    assert_eq!(g.provider().max_retries(), 5);
    assert!(!g.provider().batch_requests());
}
