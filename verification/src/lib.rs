//! Building, sending and answering JSON-RPC calls that an io-engine carries
//! over its gRPC `JsonRpc` service to SPDK.
//!
//! The library frames the JSON text of a request, turns each step of a call
//! (serialising the parameters, the gRPC exchange, decoding the reply) into a
//! result or a `SvcError`, and states what a whole call gives back.

mod error;
mod json;
mod method;
mod exchange;
mod laws;

pub use error::{grpc_connect_error, SvcError, SvcErrorView};
pub use json::{
    append_decimal, decimal, digit_char, hex_digit, is_json_null, is_json_ws, json_escape_char,
    json_escaped, json_null_error_message, hex_value, read_json_escape, read_json_string, json_string_literal, skip_json_ws,
};
pub use method::{optional_field, qos_params_text, BdevSetQosLimitRequest, JsonRpcMethod};
pub use exchange::{
    call_outcome, decode_outcome, deserialization_failed_note, finish_call, finish_decode,
    finish_transport, json_rpc_error, outcome_view, typed_call_outcome, typed_decoding, prepare_call, serialization_failed_note,
    start_call, start_outcome, texts_view, transport_outcome, JsonRpcRequest, JsonRpcRequestView,
};
pub use laws::{
    digits_value, law_call_decodes_the_reply_text, law_call_is_its_steps, law_decimal_reads_back,
    law_exchange_success_hands_on_the_reply, law_json_string_reads_back,
    law_params_carry_the_whole_name, law_exchange_failure_keeps_the_sent_params,
    law_failure_names_the_method, law_success_needs_every_step, law_typed_call_is_call_method,
};
