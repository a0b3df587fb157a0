//! The transact namespace: private transactions and simulation.

use crate::error::{ErrorView, GrauxError};
use crate::hex::{hexlify, quantity};
use crate::json::{members_view, values_view, Json, JsonValue};
use crate::provider::{GrauxProvider, ProviderView};
use crate::rpc::{CallView, RpcCall};
use crate::types::{
    nullable_options, nullable_text, push_member, transactions_json, BlockIdentifier, BlockView,
    DebugTransaction, SendPrivateTransactionOptions,
};
use vstd::prelude::*;

verus! {

/// The parameters of a simulation: what is simulated and, only where a
/// block is given, the block. Without a block there is one parameter, not
/// two with a null.
pub open spec fn simulation_params(subject: Json, block: Option<BlockView>) -> Seq<Json> {
    match block {
        Some(b) => seq![subject, b.json()],
        None => seq![subject],
    }
}

/// A simulation without a block has one parameter and one with a block has
/// two: the number of parameters differs, not only their values.
pub proof fn lemma_simulation_arity(subject: Json, block: Option<BlockView>)
    ensures
        simulation_params(subject, block).len() == if block is Some {
            2nat
        } else {
            1nat
        },
        simulation_params(subject, block)[0] == subject,
        block matches Some(b) ==> simulation_params(subject, block)[1] == b.json(),
{
}

/// The value of an optional block identifier.
pub open spec fn optional_block_view(block: Option<BlockIdentifier>) -> Option<BlockView> {
    match block {
        Some(b) => Some(b@),
        None => None,
    }
}

/// The object that names a transaction by its hash.
pub open spec fn hash_object(transaction_hash: Seq<char>) -> Json {
    Json::Object(seq![("txHash"@, Json::Text(transaction_hash))])
}

/// The object that submits a private transaction: the signed payload, the
/// last block it may be included in as a quantity (null where there is
/// none), and the sender's preferences (null where there are none).
pub open spec fn private_transaction_object(
    signed_transaction: Seq<char>,
    max_block_number: Option<u64>,
    options: Option<SendPrivateTransactionOptions>,
) -> Json {
    Json::Object(
        seq![
            ("tx"@, Json::Text(signed_transaction)),
            (
                "maxBlockNumber"@,
                nullable_text(
                    match max_block_number {
                        Some(n) => Some(quantity(n as nat)),
                        None => None,
                    },
                ),
            ),
            ("preferences"@, nullable_options(options)),
        ],
    )
}

/// The text of the failure for a response that is not a text.
pub open spec fn expected_text() -> Seq<char> {
    "expected a string"@
}

/// The text of the failure for a response that is not a truth value.
pub open spec fn expected_bool() -> Seq<char> {
    "expected a boolean"@
}

/// The text of the failure for a response that is not an array.
pub open spec fn expected_array() -> Seq<char> {
    "expected an array"@
}

/// The members of the receipt in a response: those of a populated object.
/// An empty object, like any value that is no object, says that there is no
/// receipt.
pub open spec fn receipt_in(response: Json) -> Option<Seq<(Seq<char>, Json)>> {
    match response {
        Json::Object(members) => if members.len() == 0 {
            None
        } else {
            Some(members)
        },
        _ => None,
    }
}

/// The value of optional members.
pub open spec fn optional_members_view(m: Option<Vec<(String, JsonValue)>>) -> Option<
    Seq<(Seq<char>, Json)>,
> {
    match m {
        Some(members) => Some(members_view(members@)),
        None => None,
    }
}

/// The object that names `transaction_hash`.
fn hash_params(transaction_hash: String) -> (r: Vec<JsonValue>)
    ensures
        values_view(r@) == seq![hash_object(transaction_hash@)],
{
    let mut members: Vec<(String, JsonValue)> = Vec::new();
    assert(members_view(members@) =~= Seq::empty());
    push_member(&mut members, "txHash", JsonValue::Text(transaction_hash));
    assert(members_view(members@) =~= hash_object(transaction_hash@)->Object_0);
    let mut params: Vec<JsonValue> = Vec::new();
    params.push(JsonValue::object(members));
    assert(values_view(params@) =~= seq![hash_object(transaction_hash@)]);
    params
}

/// `subject` and, where there is one, the block.
fn with_block(subject: JsonValue, block_identifier: Option<BlockIdentifier>) -> (r: Vec<JsonValue>)
    ensures
        values_view(r@) == simulation_params(subject@, optional_block_view(block_identifier)),
{
    let mut params: Vec<JsonValue> = Vec::new();
    params.push(subject);
    match block_identifier {
        Some(block) => {
            params.push(block.to_json());
        },
        None => {},
    }
    assert(values_view(params@) =~= simulation_params(
        subject@,
        optional_block_view(block_identifier),
    ));
    params
}

/// The JSON array of the transactions, in order.
fn bundle_json(transactions: &Vec<DebugTransaction>) -> (r: JsonValue)
    ensures
        r@ == Json::Array(transactions_json(transactions@)),
{
    let mut items: Vec<JsonValue> = Vec::new();
    let mut i: usize = 0;
    while i < transactions.len()
        invariant
            i <= transactions.len(),
            items.len() == i,
            forall|j: int| 0 <= j < i ==> items@[j]@ == transactions@[j]@.json(),
        decreases transactions.len() - i,
    {
        items.push(transactions[i].to_json());
        i += 1;
    }
    assert(values_view(items@) =~= transactions_json(transactions@));
    JsonValue::array(items)
}

/// The methods that submit private transactions and simulate transactions.
#[derive(Debug)]
pub struct Graux {
    provider: GrauxProvider,
}

impl Graux {
    /// The value of the provider that the calls go through.
    pub closed spec fn provider_view(&self) -> ProviderView {
        self.provider@
    }

    /// The namespace on top of `provider`.
    pub fn new(provider: GrauxProvider) -> (r: Graux)
        ensures
            r.provider_view() == provider@,
    {
        Self { provider }
    }

    /// The provider that the calls go through.
    pub fn provider(&self) -> (r: &GrauxProvider)
        ensures
            r@ == self.provider_view(),
    {
        &self.provider
    }

    /// The call that submits a signed transaction to the private relay.
    pub fn send_private_transaction(
        &self,
        signed_transaction: String,
        max_block_number: Option<u64>,
        options: Option<SendPrivateTransactionOptions>,
    ) -> (r: RpcCall)
        ensures
            r@ == (CallView {
                method: "eth_sendPrivateTransaction"@,
                params: seq![
                    private_transaction_object(signed_transaction@, max_block_number, options),
                ],
            }),
    {
        let hex_block_number = match max_block_number {
            Some(n) => JsonValue::Text(hexlify(n)),
            None => JsonValue::Null,
        };
        let preferences = match &options {
            Some(o) => o.to_json(),
            None => JsonValue::Null,
        };
        let mut members: Vec<(String, JsonValue)> = Vec::new();
        assert(members_view(members@) =~= Seq::empty());
        push_member(&mut members, "tx", JsonValue::Text(signed_transaction));
        push_member(&mut members, "maxBlockNumber", hex_block_number);
        push_member(&mut members, "preferences", preferences);
        assert(members_view(members@) =~= private_transaction_object(
            signed_transaction@,
            max_block_number,
            options,
        )->Object_0);
        let mut params: Vec<JsonValue> = Vec::new();
        params.push(JsonValue::object(members));
        let r = RpcCall::new("eth_sendPrivateTransaction", params);
        assert(r@.params =~= seq![
            private_transaction_object(signed_transaction@, max_block_number, options),
        ]);
        r
    }

    /// The hash of the submitted transaction in the node's response, or
    /// `Decode` where the response is not a text.
    pub fn private_transaction_hash(response: &JsonValue) -> (r: Result<String, GrauxError>)
        ensures
            match response@ {
                Json::Text(hash) => r is Ok && r->Ok_0@ == hash,
                _ => r is Err && r->Err_0@ == ErrorView::Decode(expected_text()),
            },
    {
        match response.as_str() {
            Some(hash) => Ok(hash.to_owned()),
            None => Err(GrauxError::Decode("expected a string".to_owned())),
        }
    }

    /// The call that withdraws a private transaction.
    pub fn cancel_private_transaction(&self, transaction_hash: String) -> (r: RpcCall)
        ensures
            r@ == (CallView {
                method: "eth_cancelPrivateTransaction"@,
                params: seq![hash_object(transaction_hash@)],
            }),
    {
        RpcCall::new("eth_cancelPrivateTransaction", hash_params(transaction_hash))
    }

    /// Whether the node withdrew the transaction, or `Decode` where the
    /// response is not a truth value.
    pub fn private_transaction_cancelled(response: &JsonValue) -> (r: Result<bool, GrauxError>)
        ensures
            match response@ {
                Json::Bool(b) => r == Ok::<bool, GrauxError>(b),
                _ => r is Err && r->Err_0@ == ErrorView::Decode(expected_bool()),
            },
    {
        match response.as_bool() {
            Some(b) => Ok(b),
            None => Err(GrauxError::Decode("expected a boolean".to_owned())),
        }
    }

    /// The call that simulates a bundle of transactions and reports how
    /// assets change.
    pub fn simulate_asset_changes_bundle(
        &self,
        transactions: Vec<DebugTransaction>,
        block_identifier: Option<BlockIdentifier>,
    ) -> (r: RpcCall)
        ensures
            r@ == (CallView {
                method: "graux_simulateAssetChangesBundle"@,
                params: simulation_params(
                    Json::Array(transactions_json(transactions@)),
                    optional_block_view(block_identifier),
                ),
            }),
    {
        RpcCall::new(
            "graux_simulateAssetChangesBundle",
            with_block(bundle_json(&transactions), block_identifier),
        )
    }

    /// The call that simulates one transaction and reports how assets
    /// change.
    pub fn simulate_asset_changes(
        &self,
        transaction: DebugTransaction,
        block_identifier: Option<BlockIdentifier>,
    ) -> (r: RpcCall)
        ensures
            r@ == (CallView {
                method: "graux_simulateAssetChanges"@,
                params: simulation_params(
                    transaction@.json(),
                    optional_block_view(block_identifier),
                ),
            }),
    {
        RpcCall::new(
            "graux_simulateAssetChanges",
            with_block(transaction.to_json(), block_identifier),
        )
    }

    /// The call that simulates a bundle of transactions and reports what
    /// they execute.
    pub fn simulate_execution_bundle(
        &self,
        transactions: Vec<DebugTransaction>,
        block_identifier: Option<BlockIdentifier>,
    ) -> (r: RpcCall)
        ensures
            r@ == (CallView {
                method: "graux_simulateExecutionBundle"@,
                params: simulation_params(
                    Json::Array(transactions_json(transactions@)),
                    optional_block_view(block_identifier),
                ),
            }),
    {
        RpcCall::new(
            "graux_simulateExecutionBundle",
            with_block(bundle_json(&transactions), block_identifier),
        )
    }

    /// The call that simulates one transaction and reports what it
    /// executes.
    pub fn simulate_execution(
        &self,
        transaction: DebugTransaction,
        block_identifier: Option<BlockIdentifier>,
    ) -> (r: RpcCall)
        ensures
            r@ == (CallView {
                method: "graux_simulateExecution"@,
                params: simulation_params(
                    transaction@.json(),
                    optional_block_view(block_identifier),
                ),
            }),
    {
        RpcCall::new(
            "graux_simulateExecution",
            with_block(transaction.to_json(), block_identifier),
        )
    }

    /// The results of a simulated bundle, one per transaction and in their
    /// order, or `Decode` where the response is not an array.
    pub fn simulation_results(response: JsonValue) -> (r: Result<Vec<JsonValue>, GrauxError>)
        ensures
            match response@ {
                Json::Array(items) => r is Ok && values_view(r->Ok_0@) == items,
                _ => r is Err && r->Err_0@ == ErrorView::Decode(expected_array()),
            },
    {
        match response {
            JsonValue::Array(items) => {
                proof {
                    crate::json::lemma_array_view(items);
                }
                Ok(items)
            },
            _ => Err(GrauxError::Decode("expected an array".to_owned())),
        }
    }

    /// The call that looks up the receipt of a private transaction.
    pub fn get_private_transaction_receipt(&self, transaction_hash: String) -> (r: RpcCall)
        ensures
            r@ == (CallView {
                method: "eth_getPrivateTransactionReceipt"@,
                params: seq![hash_object(transaction_hash@)],
            }),
    {
        RpcCall::new("eth_getPrivateTransactionReceipt", hash_params(transaction_hash))
    }

    /// The receipt in the node's response: the members of a populated
    /// object. An empty object, like any value that is no object, is the
    /// absence of a receipt, never a failure.
    pub fn private_transaction_receipt(response: JsonValue) -> (r: Option<
        Vec<(String, JsonValue)>,
    >)
        ensures
            optional_members_view(r) == receipt_in(response@),
    {
        match response {
            JsonValue::Object(members) => {
                proof {
                    crate::json::lemma_object_view(members);
                }
                if members.len() == 0 {
                    None
                } else {
                    Some(members)
                }
            },
            _ => None,
        }
    }
}

} // verus!
