//! The debug namespace: the calls that trace a transaction or a block.

use crate::config::GrauxConfig;
use crate::error::{ErrorView, GrauxError};
use crate::hex::{
    hex_strip_zeros, hex_value, is_hex_string, is_hex_text, is_hex_text_of, lemma_quantity_text,
    quantity_text,
};
use crate::json::{members_view, Json, JsonValue};
use crate::rpc::{CallView, RpcCall};
use crate::types::{
    bool_member, push_bool_member, push_member, push_text_member, text_member, text_of_option,
    DebugTransaction,
};
use vstd::prelude::*;

verus! {

/// Asks for the trace of the calls of a transaction.
#[derive(Debug, PartialEq, Eq)]
pub struct DebugCallTracer {
    pub only_top_call: Option<bool>,
}

/// Asks for the state that a transaction reads before it runs.
#[derive(Debug, PartialEq, Eq)]
pub struct DebugPrestateTracer {
    pub only_top_call: Option<bool>,
}

/// The options of a tracer.
#[derive(Debug, PartialEq, Eq)]
pub struct TracerConfig {
    pub only_top_call: Option<bool>,
    pub timeout: Option<String>,
}

/// A tracer as the node takes it: the kind of tracer and its options.
#[derive(Debug, PartialEq, Eq)]
pub struct RawTracer {
    pub tracer: String,
    pub tracer_config: Option<TracerConfig>,
}

/// The mathematical value of a [`TracerConfig`].
pub struct TracerConfigView {
    pub only_top_call: Option<bool>,
    pub timeout: Option<Seq<char>>,
}

/// The mathematical value of a [`RawTracer`].
pub struct RawTracerView {
    pub tracer: Seq<char>,
    pub tracer_config: Option<TracerConfigView>,
}

impl View for TracerConfig {
    type V = TracerConfigView;

    open spec fn view(&self) -> TracerConfigView {
        TracerConfigView {
            only_top_call: self.only_top_call,
            timeout: text_of_option(self.timeout),
        }
    }
}

impl View for RawTracer {
    type V = RawTracerView;

    open spec fn view(&self) -> RawTracerView {
        RawTracerView {
            tracer: self.tracer@,
            tracer_config: match self.tracer_config {
                Some(c) => Some(c@),
                None => None,
            },
        }
    }
}

impl TracerConfigView {
    /// The object that stands for the options: one member for each option
    /// that is present.
    pub open spec fn json(self) -> Json {
        Json::Object(
            bool_member("onlyTopCall"@, self.only_top_call) + text_member("timeout"@, self.timeout),
        )
    }
}

impl RawTracerView {
    /// The object that stands for the tracer: its kind and, where there are
    /// options, the options.
    pub open spec fn json(self) -> Json {
        Json::Object(
            seq![("tracer"@, Json::Text(self.tracer))] + (match self.tracer_config {
                Some(c) => seq![("tracerConfig"@, c.json())],
                None => Seq::empty(),
            }),
        )
    }
}

/// The tracer of kind `kind` with the given options.
pub open spec fn raw_tracer(kind: Seq<char>, only_top_call: Option<bool>, timeout: Option<
    Seq<char>,
>) -> RawTracerView {
    RawTracerView {
        tracer: kind,
        tracer_config: Some(TracerConfigView { only_top_call, timeout }),
    }
}

impl TracerConfig {
    /// The JSON form of the options.
    pub fn to_json(&self) -> (r: JsonValue)
        ensures
            r@ == self@.json(),
    {
        let mut members: Vec<(String, JsonValue)> = Vec::new();
        assert(members_view(members@) =~= Seq::empty());
        push_bool_member(&mut members, "onlyTopCall", self.only_top_call);
        push_text_member(&mut members, "timeout", &self.timeout);
        assert(members_view(members@) =~= self@.json()->Object_0);
        JsonValue::object(members)
    }
}

impl RawTracer {
    /// The JSON form of the tracer.
    pub fn to_json(&self) -> (r: JsonValue)
        ensures
            r@ == self@.json(),
    {
        let mut members: Vec<(String, JsonValue)> = Vec::new();
        assert(members_view(members@) =~= Seq::empty());
        push_member(&mut members, "tracer", JsonValue::text(self.tracer.as_str()));
        match &self.tracer_config {
            Some(c) => {
                push_member(&mut members, "tracerConfig", c.to_json());
            },
            None => {},
        }
        assert(members_view(members@) =~= self@.json()->Object_0);
        JsonValue::object(members)
    }
}

/// The call tracer as the node takes it, with the given timeout.
pub fn parse_tracer_params(tracer: DebugCallTracer, timeout: Option<String>) -> (r: RawTracer)
    ensures
        r@ == raw_tracer("callTracer"@, tracer.only_top_call, text_of_option(timeout)),
{
    let tracer_config = TracerConfig { only_top_call: tracer.only_top_call, timeout };
    RawTracer { tracer: "callTracer".to_owned(), tracer_config: Some(tracer_config) }
}

/// The prestate tracer as the node takes it, with the given timeout.
pub fn parse_prestate_tracer_params(tracer: DebugPrestateTracer, timeout: Option<String>) -> (r:
    RawTracer)
    ensures
        r@ == raw_tracer("prestateTracer"@, tracer.only_top_call, text_of_option(timeout)),
{
    let tracer_config = TracerConfig { only_top_call: tracer.only_top_call, timeout };
    RawTracer { tracer: "prestateTracer".to_owned(), tracer_config: Some(tracer_config) }
}

/// The call that traces a block. A block given by a hash, which is
/// hexadecimal text of exactly 32 bytes, is traced by hash and the hash
/// goes out as it is. Any other hexadecimal text is a block number and goes
/// out in quantity form. Text that is not hexadecimal gives no call.
pub open spec fn trace_block_call(block_identifier: Seq<char>, tracer: Json) -> Result<
    CallView,
    ErrorView,
> {
    if is_hex_text_of(block_identifier, Some(32usize)) {
        Ok(
            CallView {
                method: "debug_traceBlockByHash"@,
                params: seq![Json::Text(block_identifier), tracer],
            },
        )
    } else if is_hex_text(block_identifier) {
        Ok(
            CallView {
                method: "debug_traceBlockByNumber"@,
                params: seq![Json::Text(quantity_text(block_identifier)), tracer],
            },
        )
    } else {
        Err(ErrorView::InvalidHex(block_identifier))
    }
}

/// The methods that inspect how a transaction or a block runs.
#[derive(Debug)]
pub struct DebugNamespace {
    config: GrauxConfig,
}

impl DebugNamespace {
    /// The namespace of the client with these settings.
    pub fn new(config: GrauxConfig) -> (r: DebugNamespace)
        ensures
            r.config_view() == config@,
    {
        DebugNamespace { config }
    }

    /// The settings of the client.
    pub closed spec fn config_view(&self) -> crate::config::ConfigView {
        self.config@
    }

    /// The settings of the client.
    pub fn config(&self) -> (r: &GrauxConfig)
        ensures
            r@ == self.config_view(),
    {
        &self.config
    }

    /// The call that runs `transaction` on top of a block and traces its
    /// calls.
    pub fn trace_call(
        &self,
        transaction: DebugTransaction,
        block_identifier: String,
        tracer: DebugCallTracer,
    ) -> (r: RpcCall)
        ensures
            r@ == (CallView {
                method: "debug_traceCall"@,
                params: seq![
                    transaction@.json(),
                    Json::Text(block_identifier@),
                    raw_tracer("callTracer"@, tracer.only_top_call, None).json(),
                ],
            }),
    {
        let mut params: Vec<JsonValue> = Vec::new();
        params.push(transaction.to_json());
        params.push(JsonValue::Text(block_identifier));
        params.push(parse_tracer_params(tracer, None).to_json());
        let r = RpcCall::new("debug_traceCall", params);
        assert(r@.params =~= seq![
            transaction@.json(),
            Json::Text(block_identifier@),
            raw_tracer("callTracer"@, tracer.only_top_call, None).json(),
        ]);
        r
    }

    /// The call that runs `transaction` on top of a block and reports the
    /// state it reads. It is the method of [`Self::trace_call`] with the
    /// other kind of tracer.
    pub fn trace_prestate(
        &self,
        transaction: DebugTransaction,
        block_identifier: String,
        tracer: DebugPrestateTracer,
    ) -> (r: RpcCall)
        ensures
            r@ == (CallView {
                method: "debug_traceCall"@,
                params: seq![
                    transaction@.json(),
                    Json::Text(block_identifier@),
                    raw_tracer("prestateTracer"@, tracer.only_top_call, None).json(),
                ],
            }),
    {
        let mut params: Vec<JsonValue> = Vec::new();
        params.push(transaction.to_json());
        params.push(JsonValue::Text(block_identifier));
        params.push(parse_prestate_tracer_params(tracer, None).to_json());
        let r = RpcCall::new("debug_traceCall", params);
        assert(r@.params =~= seq![
            transaction@.json(),
            Json::Text(block_identifier@),
            raw_tracer("prestateTracer"@, tracer.only_top_call, None).json(),
        ]);
        r
    }

    /// The call that traces a transaction that has been mined.
    pub fn trace_transaction(
        &self,
        transaction_hash: String,
        tracer: DebugCallTracer,
        timeout: Option<String>,
    ) -> (r: RpcCall)
        ensures
            r@ == (CallView {
                method: "debug_traceTransaction"@,
                params: seq![
                    Json::Text(transaction_hash@),
                    raw_tracer(
                        "callTracer"@,
                        tracer.only_top_call,
                        text_of_option(timeout),
                    ).json(),
                ],
            }),
    {
        let mut params: Vec<JsonValue> = Vec::new();
        params.push(JsonValue::Text(transaction_hash));
        params.push(parse_tracer_params(tracer, timeout).to_json());
        let r = RpcCall::new("debug_traceTransaction", params);
        assert(r@.params =~= seq![
            Json::Text(transaction_hash@),
            raw_tracer("callTracer"@, tracer.only_top_call, text_of_option(timeout)).json(),
        ]);
        r
    }

    /// The call that replays a block that has been mined: by hash for a
    /// 32-byte hash, by number for any other hexadecimal text, and
    /// `InvalidHex` with the identifier for text that is not hexadecimal.
    pub fn trace_block(&self, block_identifier: String, tracer: DebugCallTracer) -> (r: Result<
        RpcCall,
        GrauxError,
    >)
        ensures
            match trace_block_call(
                block_identifier@,
                raw_tracer("callTracer"@, tracer.only_top_call, None).json(),
            ) {
                Ok(call) => r is Ok && r->Ok_0@ == call,
                Err(e) => r is Err && r->Err_0@ == e,
            },
    {
        let ghost tracer_json = raw_tracer("callTracer"@, tracer.only_top_call, None).json();
        if is_hex_string(block_identifier.as_str(), Some(32)) {
            let mut params: Vec<JsonValue> = Vec::new();
            params.push(JsonValue::Text(block_identifier));
            params.push(parse_tracer_params(tracer, None).to_json());
            let call = RpcCall::new("debug_traceBlockByHash", params);
            assert(call@.params =~= seq![Json::Text(block_identifier@), tracer_json]);
            Ok(call)
        } else {
            let number = match hex_value(block_identifier.as_str()) {
                Ok(value) => value,
                Err(e) => {
                    return Err(e);
                },
            };
            proof {
                lemma_quantity_text(block_identifier@);
            }
            let number = hex_strip_zeros(number.as_str());
            let mut params: Vec<JsonValue> = Vec::new();
            params.push(JsonValue::Text(number));
            params.push(parse_tracer_params(tracer, None).to_json());
            let call = RpcCall::new("debug_traceBlockByNumber", params);
            assert(call@.params =~= seq![
                Json::Text(quantity_text(block_identifier@)),
                tracer_json,
            ]);
            Ok(call)
        }
    }
}

} // verus!
