//! The typed requests of the namespaces and their JSON form.

use crate::json::{members_view, Json, JsonNumber, JsonValue, NumberView};
use vstd::prelude::*;

verus! {

/// The characters of an optional text.
pub open spec fn text_of_option(s: Option<String>) -> Option<Seq<char>> {
    match s {
        Some(t) => Some(t@),
        None => None,
    }
}

/// The member `key` holding a text, or no member where the text is absent.
pub open spec fn text_member(key: Seq<char>, value: Option<Seq<char>>) -> Seq<(Seq<char>, Json)> {
    match value {
        Some(v) => seq![(key, Json::Text(v))],
        None => Seq::empty(),
    }
}

/// The member `key` holding a truth value, or no member where it is absent.
pub open spec fn bool_member(key: Seq<char>, value: Option<bool>) -> Seq<(Seq<char>, Json)> {
    match value {
        Some(b) => seq![(key, Json::Bool(b))],
        None => Seq::empty(),
    }
}

/// A text, or null where it is absent.
pub open spec fn nullable_text(value: Option<Seq<char>>) -> Json {
    match value {
        Some(v) => Json::Text(v),
        None => Json::Null,
    }
}

/// A number, or null where it is absent.
pub open spec fn nullable_number(value: Option<u64>) -> Json {
    match value {
        Some(n) => Json::Number(NumberView::PosInt(n)),
        None => Json::Null,
    }
}

/// Appends the member `key` with the text of `value`, if there is one.
pub fn push_text_member(members: &mut Vec<(String, JsonValue)>, key: &str, value: &Option<String>)
    ensures
        members_view(final(members)@) == members_view(old(members)@) + text_member(
            key@,
            text_of_option(*value),
        ),
{
    let ghost before = members_view(members@);
    match value {
        Some(v) => {
            members.push((key.to_owned(), JsonValue::Text(v.clone())));
            assert(members_view(members@) =~= before + text_member(key@, Some(v@)));
        },
        None => {
            assert(members_view(members@) =~= before + text_member(key@, None));
        },
    }
}

/// Appends the member `key` with the truth value `value`, if there is one.
pub fn push_bool_member(members: &mut Vec<(String, JsonValue)>, key: &str, value: Option<bool>)
    ensures
        members_view(final(members)@) == members_view(old(members)@) + bool_member(key@, value),
{
    let ghost before = members_view(members@);
    match value {
        Some(b) => {
            members.push((key.to_owned(), JsonValue::Bool(b)));
            assert(members_view(members@) =~= before + bool_member(key@, Some(b)));
        },
        None => {
            assert(members_view(members@) =~= before + bool_member(key@, None));
        },
    }
}

/// Appends the member `key` with `value`.
pub fn push_member(members: &mut Vec<(String, JsonValue)>, key: &str, value: JsonValue)
    ensures
        members_view(final(members)@) == members_view(old(members)@).push((key@, value@)),
{
    let ghost before = members_view(members@);
    members.push((key.to_owned(), value));
    assert(members_view(members@) =~= before.push((key@, value@)));
}

/// The JSON text of `value`, or null where it is absent.
pub fn text_or_null(value: &Option<String>) -> (r: JsonValue)
    ensures
        r@ == nullable_text(text_of_option(*value)),
{
    match value {
        Some(v) => JsonValue::Text(v.clone()),
        None => JsonValue::Null,
    }
}

/// The JSON number `value`, or null where it is absent.
pub fn number_or_null(value: Option<u64>) -> (r: JsonValue)
    ensures
        r@ == nullable_number(value),
{
    match value {
        Some(n) => JsonValue::Number(JsonNumber::PosInt(n)),
        None => JsonValue::Null,
    }
}

/// A transaction to trace or to simulate. Every field is optional and holds
/// the text that goes to the node as it is.
#[derive(Debug, PartialEq, Eq)]
pub struct DebugTransaction {
    pub to: Option<String>,
    pub from: Option<String>,
    pub gas: Option<String>,
    pub gas_price: Option<String>,
    pub value: Option<String>,
    pub data: Option<String>,
}

/// The mathematical value of a [`DebugTransaction`].
pub struct TransactionView {
    pub to: Option<Seq<char>>,
    pub from: Option<Seq<char>>,
    pub gas: Option<Seq<char>>,
    pub gas_price: Option<Seq<char>>,
    pub value: Option<Seq<char>>,
    pub data: Option<Seq<char>>,
}

impl View for DebugTransaction {
    type V = TransactionView;

    open spec fn view(&self) -> TransactionView {
        TransactionView {
            to: text_of_option(self.to),
            from: text_of_option(self.from),
            gas: text_of_option(self.gas),
            gas_price: text_of_option(self.gas_price),
            value: text_of_option(self.value),
            data: text_of_option(self.data),
        }
    }
}

impl TransactionView {
    /// The object that stands for the transaction: one member for each
    /// field that is present, in the order of the fields.
    pub open spec fn json(self) -> Json {
        Json::Object(
            text_member("to"@, self.to) + text_member("from"@, self.from) + text_member(
                "gas"@,
                self.gas,
            ) + text_member("gasPrice"@, self.gas_price) + text_member("value"@, self.value)
                + text_member("data"@, self.data),
        )
    }
}

impl DebugTransaction {
    /// The JSON form of the transaction.
    pub fn to_json(&self) -> (r: JsonValue)
        ensures
            r@ == self@.json(),
    {
        let mut members: Vec<(String, JsonValue)> = Vec::new();
        assert(members_view(members@) =~= Seq::empty());
        push_text_member(&mut members, "to", &self.to);
        push_text_member(&mut members, "from", &self.from);
        push_text_member(&mut members, "gas", &self.gas);
        push_text_member(&mut members, "gasPrice", &self.gas_price);
        push_text_member(&mut members, "value", &self.value);
        push_text_member(&mut members, "data", &self.data);
        assert(members_view(members@) =~= self@.json()->Object_0);
        JsonValue::object(members)
    }
}

/// The values of a sequence of transactions, element by element.
pub open spec fn transactions_json(transactions: Seq<DebugTransaction>) -> Seq<Json> {
    Seq::new(transactions.len(), |i: int| transactions[i]@.json())
}

/// A block given by its hash or by its number.
#[derive(Debug, PartialEq, Eq)]
pub struct BlockIdentifier {
    pub block_hash: Option<String>,
    pub block_number: Option<String>,
}

/// The mathematical value of a [`BlockIdentifier`].
pub struct BlockView {
    pub block_hash: Option<Seq<char>>,
    pub block_number: Option<Seq<char>>,
}

impl View for BlockIdentifier {
    type V = BlockView;

    open spec fn view(&self) -> BlockView {
        BlockView {
            block_hash: text_of_option(self.block_hash),
            block_number: text_of_option(self.block_number),
        }
    }
}

impl BlockView {
    /// The object that stands for the block: both members, null where the
    /// field is absent.
    pub open spec fn json(self) -> Json {
        Json::Object(
            seq![
                ("block_hash"@, nullable_text(self.block_hash)),
                ("block_number"@, nullable_text(self.block_number)),
            ],
        )
    }
}

impl BlockIdentifier {
    /// The JSON form of the block identifier.
    pub fn to_json(&self) -> (r: JsonValue)
        ensures
            r@ == self@.json(),
    {
        let mut members: Vec<(String, JsonValue)> = Vec::new();
        assert(members_view(members@) =~= Seq::empty());
        push_member(&mut members, "block_hash", text_or_null(&self.block_hash));
        push_member(&mut members, "block_number", text_or_null(&self.block_number));
        assert(members_view(members@) =~= self@.json()->Object_0);
        JsonValue::object(members)
    }
}

/// What the sender of a private transaction prefers; every field is
/// optional.
#[derive(Debug, PartialEq, Eq)]
pub struct SendPrivateTransactionOptions {
    pub gas: Option<u64>,
    pub gas_price: Option<u64>,
    pub value: Option<u64>,
    pub max_priority_fee_per_gas: Option<u64>,
    pub max_fee_per_gas: Option<u64>,
}

impl SendPrivateTransactionOptions {
    /// The object that stands for the options: every member, null where the
    /// field is absent.
    pub open spec fn json(self) -> Json {
        Json::Object(
            seq![
                ("gas"@, nullable_number(self.gas)),
                ("gas_price"@, nullable_number(self.gas_price)),
                ("value"@, nullable_number(self.value)),
                ("max_priority_fee_per_gas"@, nullable_number(self.max_priority_fee_per_gas)),
                ("max_fee_per_gas"@, nullable_number(self.max_fee_per_gas)),
            ],
        )
    }

    /// The JSON form of the options.
    pub fn to_json(&self) -> (r: JsonValue)
        ensures
            r@ == self.json(),
    {
        let mut members: Vec<(String, JsonValue)> = Vec::new();
        assert(members_view(members@) =~= Seq::empty());
        push_member(&mut members, "gas", number_or_null(self.gas));
        push_member(&mut members, "gas_price", number_or_null(self.gas_price));
        push_member(&mut members, "value", number_or_null(self.value));
        push_member(
            &mut members,
            "max_priority_fee_per_gas",
            number_or_null(self.max_priority_fee_per_gas),
        );
        push_member(&mut members, "max_fee_per_gas", number_or_null(self.max_fee_per_gas));
        assert(members_view(members@) =~= self.json()->Object_0);
        JsonValue::object(members)
    }
}

/// The options as JSON, or null where there are none.
pub open spec fn nullable_options(options: Option<SendPrivateTransactionOptions>) -> Json {
    match options {
        Some(o) => o.json(),
        None => Json::Null,
    }
}

} // verus!
