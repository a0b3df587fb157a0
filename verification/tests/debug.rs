use graux_sdk::config::GrauxConfig;
use graux_sdk::debug::{
    parse_prestate_tracer_params, parse_tracer_params, DebugCallTracer, DebugNamespace,
    DebugPrestateTracer, RawTracer, TracerConfig,
};
use graux_sdk::error::GrauxError;
use graux_sdk::json::JsonValue;
use graux_sdk::rpc::RpcCall;
use graux_sdk::types::DebugTransaction;

fn namespace() -> DebugNamespace {
    DebugNamespace::new(GrauxConfig::new(None).unwrap())
}

fn text(s: &str) -> JsonValue {
    JsonValue::Text(s.to_string())
}

fn object(members: Vec<(&str, JsonValue)>) -> JsonValue {
    JsonValue::Object(members.into_iter().map(|(k, v)| (k.to_string(), v)).collect())
}

fn call_tracer_json(only_top_call: Option<bool>, timeout: Option<&str>) -> JsonValue {
    let mut config = Vec::new();
    if let Some(b) = only_top_call {
        config.push(("onlyTopCall", JsonValue::Bool(b)));
    }
    if let Some(t) = timeout {
        config.push(("timeout", text(t)));
    }
    object(vec![("tracer", text("callTracer")), ("tracerConfig", object(config))])
}

fn transaction() -> DebugTransaction {
    DebugTransaction {
        to: Some("0x6b175474e89094c44da98b954eedeac495271d0f".to_string()),
        from: None,
        gas: None,
        gas_price: Some("0x1".to_string()),
        value: None,
        data: Some("0x".to_string()),
    }
}

fn transaction_json() -> JsonValue {
    object(vec![
        ("to", text("0x6b175474e89094c44da98b954eedeac495271d0f")),
        ("gasPrice", text("0x1")),
        ("data", text("0x")),
    ])
}

const HASH: &str = "0x88df016429689c079f3b2f6ad39fa052532c56795b733da78a91ebe6a713944b";

#[test]
fn tracer_params_for_a_call_tracer() {
    assert_eq!(
        parse_tracer_params(DebugCallTracer { only_top_call: Some(true) }, None),
        RawTracer {
            tracer: "callTracer".to_string(),
            tracer_config: Some(TracerConfig { only_top_call: Some(true), timeout: None }),
        }
    );
    assert_eq!(
        parse_tracer_params(DebugCallTracer { only_top_call: None }, Some("10s".to_string())),
        RawTracer {
            tracer: "callTracer".to_string(),
            tracer_config: Some(TracerConfig {
                only_top_call: None,
                timeout: Some("10s".to_string()),
            }),
        }
    );
}

#[test]
fn tracer_params_for_a_prestate_tracer() {
    assert_eq!(
        parse_prestate_tracer_params(DebugPrestateTracer { only_top_call: Some(false) }, None),
        RawTracer {
            tracer: "prestateTracer".to_string(),
            tracer_config: Some(TracerConfig { only_top_call: Some(false), timeout: None }),
        }
    );
}

#[test]
fn raw_tracer_as_json() {
    let raw = parse_tracer_params(
        DebugCallTracer { only_top_call: Some(true) },
        Some("5s".to_string()),
    );
    assert_eq!(raw.to_json(), call_tracer_json(Some(true), Some("5s")));
    let bare = RawTracer { tracer: "callTracer".to_string(), tracer_config: None };
    assert_eq!(bare.to_json(), object(vec![("tracer", text("callTracer"))]));
    let empty = TracerConfig { only_top_call: None, timeout: None };
    assert_eq!(empty.to_json(), object(vec![]));
}

#[test]
fn trace_block_by_hash_keeps_the_hash() {
    let call = namespace()
        .trace_block(HASH.to_string(), DebugCallTracer { only_top_call: Some(true) })
        .unwrap();
    assert_eq!(
        call,
        RpcCall {
            method: "debug_traceBlockByHash".to_string(),
            params: vec![text(HASH), call_tracer_json(Some(true), None)],
        }
    );
}

#[test]
fn trace_block_by_number_strips_zeros() {
    let call = namespace()
        .trace_block("0x05".to_string(), DebugCallTracer { only_top_call: None })
        .unwrap();
    assert_eq!(
        call,
        RpcCall {
            method: "debug_traceBlockByNumber".to_string(),
            params: vec![text("0x5"), call_tracer_json(None, None)],
        }
    );
}

#[test]
fn trace_block_takes_anything_but_a_hash_as_a_number() {
    let ns = namespace();
    let tracer = || DebugCallTracer { only_top_call: None };
    let short = &HASH[..64];
    let call = ns.trace_block(short.to_string(), tracer()).unwrap();
    assert_eq!(call.method, "debug_traceBlockByNumber");
    assert_eq!(call.params[0], text(short));
    let long = format!("{}00", HASH);
    let call = ns.trace_block(long.clone(), tracer()).unwrap();
    assert_eq!(call.method, "debug_traceBlockByNumber");
    assert_eq!(call.params[0], text(&long));
    let upper = HASH.to_uppercase().replace("0X", "0x");
    let call = ns.trace_block(upper.clone(), tracer()).unwrap();
    assert_eq!(call.method, "debug_traceBlockByHash");
    assert_eq!(call.params[0], text(&upper));
    let call = ns.trace_block("0x0".to_string(), tracer()).unwrap();
    assert_eq!(call.params[0], text("0x0"));
    let call = ns.trace_block("0x00A0".to_string(), tracer()).unwrap();
    assert_eq!(call.params[0], text("0xa0"));
}

#[test]
fn trace_block_refuses_text_that_is_not_hexadecimal() {
    let ns = namespace();
    for id in ["latest", "", "12", "0xg", "0x88df01642968 "] {
        assert_eq!(
            ns.trace_block(id.to_string(), DebugCallTracer { only_top_call: None }),
            Err(GrauxError::InvalidHex(id.to_string()))
        );
    }
    let almost = format!("{}g", &HASH[..65]);
    assert_eq!(
        ns.trace_block(almost.clone(), DebugCallTracer { only_top_call: None }),
        Err(GrauxError::InvalidHex(almost))
    );
}

#[test]
fn trace_call_and_trace_prestate_differ_in_the_tracer() {
    let ns = namespace();
    let call = ns.trace_call(
        transaction(),
        "latest".to_string(),
        DebugCallTracer { only_top_call: Some(false) },
    );
    assert_eq!(
        call,
        RpcCall {
            method: "debug_traceCall".to_string(),
            params: vec![transaction_json(), text("latest"), call_tracer_json(Some(false), None)],
        }
    );
    let prestate = ns.trace_prestate(
        transaction(),
        "latest".to_string(),
        DebugPrestateTracer { only_top_call: Some(false) },
    );
    assert_eq!(prestate.method, "debug_traceCall");
    assert_eq!(prestate.params[0], transaction_json());
    assert_eq!(prestate.params[1], text("latest"));
    assert_eq!(
        prestate.params[2],
        object(vec![
            ("tracer", text("prestateTracer")),
            ("tracerConfig", object(vec![("onlyTopCall", JsonValue::Bool(false))])),
        ])
    );
}

#[test]
fn trace_transaction_carries_the_timeout() {
    let call = namespace().trace_transaction(
        HASH.to_string(),
        DebugCallTracer { only_top_call: Some(true) },
        Some("30s".to_string()),
    );
    assert_eq!(
        call,
        RpcCall {
            method: "debug_traceTransaction".to_string(),
            params: vec![text(HASH), call_tracer_json(Some(true), Some("30s"))],
        }
    );
}

#[test]
fn namespace_keeps_its_settings() {
    let ns = namespace();
    assert_eq!(ns.config().api_key(), "demo");
    assert_eq!(ns.config().max_retries(), 5);
}
