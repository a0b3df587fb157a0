//! The core namespace: the standard queries about accounts, blocks and
//! transactions.

use crate::config::{ConfigView, GrauxConfig};
use crate::error::{ErrorView, GrauxError};
use crate::hex::{
    hex_prefix, hexlify, is_hex_string, is_hex_text, is_hex_text_of, lower_digits, quantity,
    to_lower_digit,
};
use crate::json::{values_view, Json, JsonValue};
use crate::quantity::{expected_quantity, Quantity};
use crate::rpc::{CallView, RpcCall};
use crate::text::{chars_of, text_of};
use crate::types::DebugTransaction;
use vstd::prelude::*;
use vstd::string::StringExecFns;

verus! {

/// The block that a query is about.
#[derive(Clone, Copy, Debug, PartialEq, Eq, Structural)]
pub enum BlockTag {
    Latest,
    Earliest,
    Pending,
    Number(u64),
}

/// The text that names a block: the tag's word, or the quantity encoding of
/// the block's number.
pub open spec fn block_tag_text(tag: BlockTag) -> Seq<char> {
    match tag {
        BlockTag::Latest => "latest"@,
        BlockTag::Earliest => "earliest"@,
        BlockTag::Pending => "pending"@,
        BlockTag::Number(n) => quantity(n as nat),
    }
}

/// The block that a query is about where none is named: the latest.
pub open spec fn tag_or_latest(tag: Option<BlockTag>) -> BlockTag {
    match tag {
        Some(t) => t,
        None => BlockTag::Latest,
    }
}

/// An address: `0x` and forty hexadecimal digits.
pub open spec fn is_address_text(s: Seq<char>) -> bool {
    is_hex_text_of(s, Some(20usize))
}

/// The form in which an address goes to the node: all digits in lower case.
pub open spec fn normalized_address(s: Seq<char>) -> Seq<char> {
    hex_prefix() + lower_digits(s.skip(2))
}

/// The call of `method` about an account, or the failure for text that is
/// no address.
pub open spec fn account_call(method: Seq<char>, address: Seq<char>, tag: Option<BlockTag>) -> Result<
    CallView,
    ErrorView,
> {
    if is_address_text(address) {
        Ok(
            CallView {
                method,
                params: seq![
                    Json::Text(normalized_address(address)),
                    Json::Text(block_tag_text(tag_or_latest(tag))),
                ],
            },
        )
    } else {
        Err(ErrorView::InvalidAddress(address))
    }
}

/// The text of the failure for a number that no `u64` holds.
pub open spec fn expected_count() -> Seq<char> {
    "quantity does not fit in 64 bits"@
}

impl BlockTag {
    /// The text that names the block.
    pub fn to_text(&self) -> (r: String)
        ensures
            r@ == block_tag_text(*self),
    {
        match self {
            BlockTag::Latest => String::from_str("latest"),
            BlockTag::Earliest => String::from_str("earliest"),
            BlockTag::Pending => String::from_str("pending"),
            BlockTag::Number(n) => hexlify(*n),
        }
    }
}

/// The JSON text that names the block of a query.
fn tag_json(tag: Option<BlockTag>) -> (r: JsonValue)
    ensures
        r@ == Json::Text(block_tag_text(tag_or_latest(tag))),
{
    match tag {
        Some(t) => JsonValue::Text(t.to_text()),
        None => JsonValue::Text(BlockTag::Latest.to_text()),
    }
}

/// The form in which `address` goes to the node: `0x` and its forty digits
/// in lower case. Text that is no address is refused with the text.
pub fn normalize_address(address: &str) -> (r: Result<String, GrauxError>)
    ensures
        is_address_text(address@) ==> r is Ok && r->Ok_0@ == normalized_address(address@),
        !is_address_text(address@) ==> r is Err && r->Err_0@ == ErrorView::InvalidAddress(
            address@,
        ),
{
    if !is_hex_string(address, Some(20)) {
        return Err(GrauxError::InvalidAddress(address.to_owned()));
    }
    let v = chars_of(address);
    let mut out: Vec<char> = Vec::new();
    out.push('0');
    out.push('x');
    let mut i: usize = 2;
    while i < v.len()
        invariant
            2 <= i <= v.len(),
            out@ == hex_prefix() + lower_digits(v@.subrange(2, i as int)),
        decreases v.len() - i,
    {
        out.push(to_lower_digit(v[i]));
        assert(lower_digits(v@.subrange(2, i + 1)) == lower_digits(v@.subrange(2, i as int)).push(
            crate::hex::lower_digit(v@[i as int]),
        ));
        i += 1;
    }
    assert(v@.subrange(2, v.len() as int) == v@.skip(2));
    Ok(text_of(&out))
}

/// The call of `method` about the account at `address`.
fn account_query(method: &str, address: &str, tag: Option<BlockTag>) -> (r: Result<
    RpcCall,
    GrauxError,
>)
    ensures
        match account_call(method@, address@, tag) {
            Ok(call) => r is Ok && r->Ok_0@ == call,
            Err(e) => r is Err && r->Err_0@ == e,
        },
{
    let normalized = match normalize_address(address) {
        Ok(a) => a,
        Err(e) => {
            return Err(e);
        },
    };
    let mut params: Vec<JsonValue> = Vec::new();
    params.push(JsonValue::Text(normalized));
    params.push(tag_json(tag));
    let call = RpcCall::new(method, params);
    assert(call@.params =~= seq![
        Json::Text(normalized_address(address@)),
        Json::Text(block_tag_text(tag_or_latest(tag))),
    ]);
    Ok(call)
}

/// The call of `method` with the single parameter `param`.
fn unary_call(method: &str, param: JsonValue) -> (r: RpcCall)
    ensures
        r@ == (CallView { method: method@, params: seq![param@] }),
{
    let mut params: Vec<JsonValue> = Vec::new();
    params.push(param);
    let call = RpcCall::new(method, params);
    assert(call@.params =~= seq![param@]);
    call
}

/// The call of `method` with the parameters `first` and `second`.
fn binary_call(method: &str, first: JsonValue, second: JsonValue) -> (r: RpcCall)
    ensures
        r@ == (CallView { method: method@, params: seq![first@, second@] }),
{
    let mut params: Vec<JsonValue> = Vec::new();
    params.push(first);
    params.push(second);
    let call = RpcCall::new(method, params);
    assert(call@.params =~= seq![first@, second@]);
    call
}

/// The call of `method` without parameters.
fn nullary_call(method: &str) -> (r: RpcCall)
    ensures
        r@ == (CallView { method: method@, params: Seq::<Json>::empty() }),
{
    let call = RpcCall::new(method, Vec::new());
    assert(call@.params =~= Seq::<Json>::empty());
    call
}

/// The standard queries. Each is one method with its parameters in a fixed
/// order; addresses go out in lower case and block numbers as quantities.
#[derive(Debug)]
pub struct GrauxCoreNamespace {
    config: GrauxConfig,
}

impl GrauxCoreNamespace {
    /// The settings of the client.
    pub closed spec fn config_view(&self) -> ConfigView {
        self.config@
    }

    /// The namespace of the client with these settings.
    pub fn new(config: GrauxConfig) -> (r: GrauxCoreNamespace)
        ensures
            r.config_view() == config@,
    {
        Self { config }
    }

    /// The settings of the client.
    pub fn config(&self) -> (r: &GrauxConfig)
        ensures
            r@ == self.config_view(),
    {
        &self.config
    }

    /// The call for the balance of an account.
    pub fn get_balance(&self, address_or_name: &str, block_tag: Option<BlockTag>) -> (r: Result<
        RpcCall,
        GrauxError,
    >)
        ensures
            match account_call("eth_getBalance"@, address_or_name@, block_tag) {
                Ok(call) => r is Ok && r->Ok_0@ == call,
                Err(e) => r is Err && r->Err_0@ == e,
            },
    {
        account_query("eth_getBalance", address_or_name, block_tag)
    }

    /// The call for the code of a contract.
    pub fn get_code(&self, address_or_name: &str, block_tag: Option<BlockTag>) -> (r: Result<
        RpcCall,
        GrauxError,
    >)
        ensures
            match account_call("eth_getCode"@, address_or_name@, block_tag) {
                Ok(call) => r is Ok && r->Ok_0@ == call,
                Err(e) => r is Err && r->Err_0@ == e,
            },
    {
        account_query("eth_getCode", address_or_name, block_tag)
    }

    /// The call for the number of transactions an account has sent.
    pub fn get_transaction_count(&self, address_or_name: &str, block_tag: Option<BlockTag>) -> (r:
        Result<RpcCall, GrauxError>)
        ensures
            match account_call("eth_getTransactionCount"@, address_or_name@, block_tag) {
                Ok(call) => r is Ok && r->Ok_0@ == call,
                Err(e) => r is Err && r->Err_0@ == e,
            },
    {
        account_query("eth_getTransactionCount", address_or_name, block_tag)
    }

    /// The call for one slot of a contract's storage: the address, the
    /// position as a quantity, the block.
    pub fn get_storage_at(
        &self,
        address_or_name: &str,
        position: &Quantity,
        block_tag: Option<BlockTag>,
    ) -> (r: Result<RpcCall, GrauxError>)
        ensures
            is_address_text(address_or_name@) ==> r is Ok && r->Ok_0@ == (CallView {
                method: "eth_getStorageAt"@,
                params: seq![
                    Json::Text(normalized_address(address_or_name@)),
                    Json::Text(quantity(position@)),
                    Json::Text(block_tag_text(tag_or_latest(block_tag))),
                ],
            }),
            !is_address_text(address_or_name@) ==> r is Err && r->Err_0@
                == ErrorView::InvalidAddress(address_or_name@),
    {
        let normalized = match normalize_address(address_or_name) {
            Ok(a) => a,
            Err(e) => {
                return Err(e);
            },
        };
        let mut params: Vec<JsonValue> = Vec::new();
        params.push(JsonValue::Text(normalized));
        params.push(JsonValue::Text(position.to_hex()));
        params.push(tag_json(block_tag));
        let call = RpcCall::new("eth_getStorageAt", params);
        assert(call@.params =~= seq![
            Json::Text(normalized_address(address_or_name@)),
            Json::Text(quantity(position@)),
            Json::Text(block_tag_text(tag_or_latest(block_tag))),
        ]);
        Ok(call)
    }

    /// The call for a block with the hashes of its transactions.
    pub fn get_block(&self, block_tag: BlockTag) -> (r: RpcCall)
        ensures
            r@ == (CallView {
                method: "eth_getBlockByNumber"@,
                params: seq![Json::Text(block_tag_text(block_tag)), Json::Bool(false)],
            }),
    {
        binary_call(
            "eth_getBlockByNumber",
            JsonValue::Text(block_tag.to_text()),
            JsonValue::Bool(false),
        )
    }

    /// The call for a block with its transactions in full.
    pub fn get_block_with_transactions(&self, block_tag: BlockTag) -> (r: RpcCall)
        ensures
            r@ == (CallView {
                method: "eth_getBlockByNumber"@,
                params: seq![Json::Text(block_tag_text(block_tag)), Json::Bool(true)],
            }),
    {
        binary_call(
            "eth_getBlockByNumber",
            JsonValue::Text(block_tag.to_text()),
            JsonValue::Bool(true),
        )
    }

    /// The call for the id of the chain the node serves.
    pub fn get_network(&self) -> (r: RpcCall)
        ensures
            r@ == (CallView { method: "eth_chainId"@, params: Seq::<Json>::empty() }),
    {
        nullary_call("eth_chainId")
    }

    /// The call for the number of the latest block.
    pub fn get_block_number(&self) -> (r: RpcCall)
        ensures
            r@ == (CallView { method: "eth_blockNumber"@, params: Seq::<Json>::empty() }),
    {
        nullary_call("eth_blockNumber")
    }

    /// The call for the current price of gas.
    pub fn get_gas_price(&self) -> (r: RpcCall)
        ensures
            r@ == (CallView { method: "eth_gasPrice"@, params: Seq::<Json>::empty() }),
    {
        nullary_call("eth_gasPrice")
    }

    /// The call that runs a transaction without sending it.
    pub fn call(&self, tx: &DebugTransaction, block_tag: Option<BlockTag>) -> (r: RpcCall)
        ensures
            r@ == (CallView {
                method: "eth_call"@,
                params: seq![tx@.json(), Json::Text(block_tag_text(tag_or_latest(block_tag)))],
            }),
    {
        binary_call("eth_call", tx.to_json(), tag_json(block_tag))
    }

    /// The call that estimates the gas a transaction needs.
    pub fn estimate_gas(&self, tx: &DebugTransaction) -> (r: RpcCall)
        ensures
            r@ == (CallView { method: "eth_estimateGas"@, params: seq![tx@.json()] }),
    {
        unary_call("eth_estimateGas", tx.to_json())
    }

    /// The call that looks a transaction up by its hash.
    pub fn get_transaction(&self, transaction_hash: &str) -> (r: RpcCall)
        ensures
            r@ == (CallView {
                method: "eth_getTransactionByHash"@,
                params: seq![Json::Text(transaction_hash@)],
            }),
    {
        unary_call("eth_getTransactionByHash", JsonValue::text(transaction_hash))
    }

    /// The call that looks the receipt of a transaction up by its hash.
    pub fn get_transaction_receipt(&self, transaction_hash: &str) -> (r: RpcCall)
        ensures
            r@ == (CallView {
                method: "eth_getTransactionReceipt"@,
                params: seq![Json::Text(transaction_hash@)],
            }),
    {
        unary_call("eth_getTransactionReceipt", JsonValue::text(transaction_hash))
    }

    /// The call that submits a transaction for the node to sign and send.
    pub fn send_transaction(&self, tx: &DebugTransaction) -> (r: RpcCall)
        ensures
            r@ == (CallView { method: "eth_sendTransaction"@, params: seq![tx@.json()] }),
    {
        unary_call("eth_sendTransaction", tx.to_json())
    }

    /// The call for the logs that match a filter; the filter goes out as it
    /// is.
    pub fn get_logs(&self, filter: JsonValue) -> (r: RpcCall)
        ensures
            r@ == (CallView { method: "eth_getLogs"@, params: seq![filter@] }),
    {
        unary_call("eth_getLogs", filter)
    }

    /// The call of any method with any parameters.
    pub fn send(&self, method: &str, params: Vec<JsonValue>) -> (r: RpcCall)
        ensures
            r@ == (CallView { method: method@, params: values_view(params@) }),
    {
        RpcCall::new(method, params)
    }

    /// The quantity in a response, at its full size. A response that is not
    /// hexadecimal text is of the wrong shape.
    pub fn quantity_in(response: &JsonValue) -> (r: Result<Quantity, GrauxError>)
        ensures
            match response@ {
                Json::Text(s) => if is_hex_text(s) {
                    r is Ok && r->Ok_0@ == crate::hex::hex_nat(s.skip(2))
                } else {
                    r is Err && r->Err_0@ == ErrorView::Decode(expected_quantity())
                },
                _ => r is Err && r->Err_0@ == ErrorView::Decode(expected_quantity()),
            },
    {
        match response.as_str() {
            Some(s) => Quantity::from_hex(s),
            None => Err(GrauxError::Decode("expected a hexadecimal quantity".to_owned())),
        }
    }

    /// The count in a response, where a `u64` holds it. A count that does
    /// not fit is a failure, never a smaller number.
    pub fn count_in(response: &JsonValue) -> (r: Result<u64, GrauxError>)
        ensures
            match response@ {
                Json::Text(s) => if !is_hex_text(s) {
                    r is Err && r->Err_0@ == ErrorView::Decode(expected_quantity())
                } else if crate::hex::hex_nat(s.skip(2)) <= u64::MAX {
                    r is Ok && r->Ok_0 == crate::hex::hex_nat(s.skip(2))
                } else {
                    r is Err && r->Err_0@ == ErrorView::Decode(expected_count())
                },
                _ => r is Err && r->Err_0@ == ErrorView::Decode(expected_quantity()),
            },
    {
        let q = match GrauxCoreNamespace::quantity_in(response) {
            Ok(q) => q,
            Err(e) => {
                return Err(e);
            },
        };
        match q.to_u64() {
            Some(n) => Ok(n),
            None => Err(GrauxError::Decode("quantity does not fit in 64 bits".to_owned())),
        }
    }
}

} // verus!
