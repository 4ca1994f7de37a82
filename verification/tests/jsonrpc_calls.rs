use jsonrpc::{
    finish_call, finish_decode, finish_transport, grpc_connect_error, prepare_call, start_call,
    BdevSetQosLimitRequest, JsonRpcMethod, JsonRpcRequest, SvcError,
};

fn qos(name: &str, rw_ios: Option<u32>, rw_mb: Option<u32>, r_mb: Option<u32>, w_mb: Option<u32>) -> BdevSetQosLimitRequest {
    BdevSetQosLimitRequest {
        name: name.to_string(),
        rw_ios_per_sec: rw_ios,
        rw_mbytes_per_sec: rw_mb,
        r_mbytes_per_sec: r_mb,
        w_mbytes_per_sec: w_mb,
    }
}

fn sent(method: &str, params: &str) -> JsonRpcRequest {
    JsonRpcRequest { method: method.to_string(), params: params.to_string() }
}

fn rpc_error(method: &str, params: &str, error: &str) -> SvcError {
    SvcError::JsonRpc {
        method: method.to_string(),
        params: params.to_string(),
        error: error.to_string(),
    }
}

#[test]
fn qos_method_name() {
    let request = qos("nexus0", Some(1000), None, None, None);
    assert_eq!(request.method(), "bdev_set_qos_limit");
}

#[test]
fn qos_params_are_the_request() {
    let request = qos("nexus0", Some(1000), Some(10), None, Some(5));
    assert_eq!(request.params(), &request);
}

#[test]
fn qos_params_json_one_limit() {
    let request = qos("nexus0", Some(1000), None, None, None);
    assert_eq!(request.params_json(), "{\"name\":\"nexus0\",\"rw_ios_per_sec\":1000}");
}

#[test]
fn qos_params_json_no_limit() {
    let request = qos("bdev1", None, None, None, None);
    assert_eq!(request.params_json(), "{\"name\":\"bdev1\"}");
}

#[test]
fn qos_params_json_all_limits_in_field_order() {
    let request = qos("nexus0", Some(2000), Some(10), Some(20), Some(30));
    assert_eq!(
        request.params_json(),
        "{\"name\":\"nexus0\",\"rw_ios_per_sec\":2000,\"rw_mbytes_per_sec\":10,\"r_mbytes_per_sec\":20,\"w_mbytes_per_sec\":30}"
    );
}

#[test]
fn qos_params_json_skips_only_unset_limits() {
    let request = qos("n", None, Some(0), None, Some(4294967295));
    assert_eq!(
        request.params_json(),
        "{\"name\":\"n\",\"rw_mbytes_per_sec\":0,\"w_mbytes_per_sec\":4294967295}"
    );
}

#[test]
fn qos_params_json_escapes_the_name() {
    let request = qos("a\"b\\c\nd", None, None, Some(7), None);
    assert_eq!(
        request.params_json(),
        "{\"name\":\"a\\\"b\\\\c\\nd\",\"r_mbytes_per_sec\":7}"
    );
}

#[test]
fn qos_params_json_is_valid_json_with_the_same_fields() {
    let request = qos("nexus-7", Some(1234), None, Some(99), None);
    let value: serde_json::Value = serde_json::from_str(&request.params_json()).unwrap();
    assert_eq!(value["name"], "nexus-7");
    assert_eq!(value["rw_ios_per_sec"], 1234);
    assert_eq!(value["r_mbytes_per_sec"], 99);
    assert!(value.get("rw_mbytes_per_sec").is_none());
    assert!(value.get("w_mbytes_per_sec").is_none());
}

#[test]
fn start_call_sends_method_and_params() {
    let started = start_call("bdev_get_bdevs", Ok("{}".to_string()));
    assert_eq!(started, Ok(sent("bdev_get_bdevs", "{}")));
}

#[test]
fn start_call_reports_serialization_failure() {
    let started = start_call("bdev_get_bdevs", Err("key must be a string".to_string()));
    assert_eq!(
        started,
        Err(rpc_error("bdev_get_bdevs", "serialization failed", "key must be a string"))
    );
}

#[test]
fn start_call_with_serde_json_value_params() {
    let value: serde_json::Value =
        serde_json::from_str("{\"name\": \"nexus0\", \"rw_ios_per_sec\": 1000}").unwrap();
    let serialized = serde_json::to_string(&value).map_err(|e| e.to_string());
    let started = start_call("bdev_set_qos_limit", serialized).unwrap();
    assert_eq!(started.method, "bdev_set_qos_limit");
    let back: serde_json::Value = serde_json::from_str(&started.params).unwrap();
    assert_eq!(back, value);
}

#[test]
fn finish_transport_passes_the_reply_on() {
    let request = sent("m", "{\"a\":1}");
    assert_eq!(finish_transport(&request, Ok("true".to_string())), Ok("true".to_string()));
}

#[test]
fn finish_transport_keeps_the_sent_params() {
    let request = sent("m", "{\"a\":1}");
    assert_eq!(
        finish_transport(&request, Err("status: Unavailable".to_string())),
        Err(rpc_error("m", "{\"a\":1}", "status: Unavailable"))
    );
}

#[test]
fn finish_decode_passes_the_value_on() {
    assert_eq!(finish_decode::<u32>("m", Ok(42)), Ok(42));
}

#[test]
fn finish_decode_reports_deserialization_failure() {
    assert_eq!(
        finish_decode::<u32>("m", Err("expected u32".to_string())),
        Err(rpc_error("m", "response deserialization failed", "expected u32"))
    );
}

#[test]
fn prepare_call_is_start_call_of_method_and_params() {
    let request = qos("nexus0", Some(1000), None, None, None);
    let prepared = prepare_call(&request);
    let started = start_call(request.method(), Ok(request.params_json())).unwrap();
    assert_eq!(prepared, started);
    assert_eq!(
        prepared,
        sent("bdev_set_qos_limit", "{\"name\":\"nexus0\",\"rw_ios_per_sec\":1000}")
    );
}

#[test]
fn finish_call_accepts_null() {
    let request = sent("bdev_set_qos_limit", "{\"name\":\"x\"}");
    assert_eq!(finish_call::<BdevSetQosLimitRequest>(&request, Ok("null".to_string())), Ok(()));
}

#[test]
fn finish_call_accepts_null_with_white_space() {
    let request = sent("bdev_set_qos_limit", "{\"name\":\"x\"}");
    assert_eq!(
        finish_call::<BdevSetQosLimitRequest>(&request, Ok(" \t\r\nnull \n".to_string())),
        Ok(())
    );
}

fn assert_decoding_error(reply: &str) {
    let request = sent("bdev_set_qos_limit", "{\"name\":\"x\"}");
    match finish_call::<BdevSetQosLimitRequest>(&request, Ok(reply.to_string())) {
        Err(SvcError::JsonRpc { method, params, error }) => {
            assert_eq!(method, "bdev_set_qos_limit");
            assert_eq!(params, "response deserialization failed");
            assert!(!error.is_empty());
        }
        other => panic!("expected a decoding error, got {:?}", other),
    }
}

#[test]
fn finish_call_refuses_other_replies() {
    assert_decoding_error("true");
    assert_decoding_error("{}");
    assert_decoding_error("nul");
    assert_decoding_error("null x");
    assert_decoding_error("");
    assert_decoding_error("Null");
}

#[test]
fn finish_call_reports_failed_exchange() {
    let request = sent("bdev_set_qos_limit", "{\"name\":\"x\"}");
    assert_eq!(
        finish_call::<BdevSetQosLimitRequest>(&request, Err("transport error".to_string())),
        Err(rpc_error("bdev_set_qos_limit", "{\"name\":\"x\"}", "transport error"))
    );
}

#[test]
fn every_failure_names_the_method() {
    let method = "bdev_get_iostat";
    let failures = vec![
        start_call(method, Err("e1".to_string())).map(|_| ()),
        finish_transport(&sent(method, "{}"), Err("e2".to_string())).map(|_| ()),
        finish_decode::<()>(method, Err("e3".to_string())),
    ];
    for failure in failures {
        match failure {
            Err(SvcError::JsonRpc { method: named, .. }) => assert_eq!(named, method),
            other => panic!("unexpected {:?}", other),
        }
    }
}

#[test]
fn finish_call_decoding_error_is_serde_json_message() {
    let request = sent("bdev_set_qos_limit", "{\"name\":\"x\"}");
    for reply in ["true", "{}", "nul", "null x", "", " [1]"] {
        let expected = serde_json::from_str::<()>(reply).unwrap_err().to_string();
        assert_eq!(
            finish_call::<BdevSetQosLimitRequest>(&request, Ok(reply.to_string())),
            Err(rpc_error("bdev_set_qos_limit", "response deserialization failed", &expected))
        );
    }
}

#[test]
fn decode_response_error_is_serde_json_message() {
    let expected = serde_json::from_str::<()>("false").unwrap_err().to_string();
    assert_eq!(BdevSetQosLimitRequest::decode_response("false"), Err(expected));
    assert_eq!(BdevSetQosLimitRequest::decode_response("\nnull\t"), Ok(()));
}

#[test]
fn qos_params_json_escapes_control_characters() {
    let request = qos("\u{1}\u{8}\t\u{c}\r\u{1f}\u{7f}é/", None, None, None, None);
    assert_eq!(
        request.params_json(),
        "{\"name\":\"\\u0001\\b\\t\\f\\r\\u001f\u{7f}é/\"}"
    );
}

#[test]
fn qos_name_matches_serde_json_string() {
    let name = "disk \"0\"\u{0}\\";
    let request = qos(name, None, None, None, None);
    let expected = format!("{{\"name\":{}}}", serde_json::to_string(name).unwrap());
    assert_eq!(request.params_json(), expected);
}

#[test]
fn grpc_connect_error_holds_its_parts() {
    assert_eq!(
        grpc_connect_error("node-1", "http://10.0.0.1:10124/", "connection refused".to_string()),
        SvcError::GrpcConnect {
            node_id: "node-1".to_string(),
            endpoint: "http://10.0.0.1:10124/".to_string(),
            source: "connection refused".to_string(),
        }
    );
}
