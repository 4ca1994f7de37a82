use vstd::prelude::*;

use crate::error::{SvcError, SvcErrorView};
use crate::method::JsonRpcMethod;

verus! {

/// The message that goes to the io-engine's `JsonRpc` gRPC service: the
/// method's name and its parameters as JSON text.
#[derive(Debug, Clone, PartialEq, Eq)]
pub struct JsonRpcRequest {
    pub method: String,
    pub params: String,
}

/// The value of a `JsonRpcRequest`.
pub struct JsonRpcRequestView {
    pub method: Seq<char>,
    pub params: Seq<char>,
}

impl View for JsonRpcRequest {
    type V = JsonRpcRequestView;

    open spec fn view(&self) -> JsonRpcRequestView {
        JsonRpcRequestView { method: self.method@, params: self.params@ }
    }
}

/// What `params` holds in the error of a call whose parameters could not be
/// serialised.
pub open spec fn serialization_failed_note() -> Seq<char> {
    "serialization failed"@
}

/// What `params` holds in the error of a call whose reply could not be
/// decoded.
pub open spec fn deserialization_failed_note() -> Seq<char> {
    "response deserialization failed"@
}

/// The error of a failed JSON-RPC call.
pub open spec fn json_rpc_error(method: Seq<char>, params: Seq<char>, error: Seq<char>) -> SvcErrorView {
    SvcErrorView::JsonRpc { method, params, error }
}

/// A `Result` of texts, each taken as its characters.
pub open spec fn texts_view(r: Result<String, String>) -> Result<Seq<char>, Seq<char>> {
    match r {
        Ok(t) => Ok(t@),
        Err(e) => Err(e@),
    }
}

/// A `Result` whose error is a `SvcError`, with the error by its view.
pub open spec fn outcome_view<T>(r: Result<T, SvcError>) -> Result<T, SvcErrorView> {
    match r {
        Ok(v) => Ok(v),
        Err(e) => Err(e@),
    }
}

/// What the first step of a call gives: the request to send, or the error
/// of parameters that could not be serialised.
pub open spec fn start_outcome(
    method: Seq<char>,
    serialized: Result<Seq<char>, Seq<char>>,
) -> Result<JsonRpcRequestView, SvcErrorView> {
    match serialized {
        Ok(params) => Ok(JsonRpcRequestView { method, params }),
        Err(error) => Err(json_rpc_error(method, serialization_failed_note(), error)),
    }
}

/// What the second step gives: the reply's text, or the error of a failed
/// exchange, which holds the parameters that were sent.
pub open spec fn transport_outcome(
    request: JsonRpcRequestView,
    reply: Result<Seq<char>, Seq<char>>,
) -> Result<Seq<char>, SvcErrorView> {
    match reply {
        Ok(text) => Ok(text),
        Err(error) => Err(json_rpc_error(request.method, request.params, error)),
    }
}

/// What the last step gives: the decoded answer, or the error of a reply
/// that could not be decoded.
pub open spec fn decode_outcome<R>(method: Seq<char>, decoded: Result<R, Seq<char>>) -> Result<
    R,
    SvcErrorView,
> {
    match decoded {
        Ok(value) => Ok(value),
        Err(error) => Err(json_rpc_error(method, deserialization_failed_note(), error)),
    }
}

/// What a whole call of `method` answers, given the outcome of serialising
/// its parameters, of the gRPC exchange, and of decoding the reply.
pub open spec fn call_outcome<R>(
    method: Seq<char>,
    serialized: Result<Seq<char>, Seq<char>>,
    reply: Result<Seq<char>, Seq<char>>,
    decoded: Result<R, Seq<char>>,
) -> Result<R, SvcErrorView> {
    match serialized {
        Err(error) => Err(json_rpc_error(method, serialization_failed_note(), error)),
        Ok(params) => match reply {
            Err(error) => Err(json_rpc_error(method, params, error)),
            Ok(_) => match decoded {
                Ok(value) => Ok(value),
                Err(error) => Err(json_rpc_error(method, deserialization_failed_note(), error)),
            },
        },
    }
}

/// First step of a call of `method`: takes the outcome of serialising the
/// parameters and gives the request to send, or the error to answer with.
pub fn start_call(method: &str, serialized: Result<String, String>) -> (started: Result<
    JsonRpcRequest,
    SvcError,
>)
    ensures
        match started {
            Ok(request) => start_outcome(method@, texts_view(serialized)) == Ok::<
                JsonRpcRequestView,
                SvcErrorView,
            >(request@),
            Err(error) => start_outcome(method@, texts_view(serialized)) == Err::<
                JsonRpcRequestView,
                SvcErrorView,
            >(error@),
        },
{
    match serialized {
        Ok(params) => Ok(JsonRpcRequest { method: method.to_owned(), params }),
        Err(error) => Err(
            SvcError::JsonRpc {
                method: method.to_owned(),
                params: "serialization failed".to_owned(),
                error,
            },
        ),
    }
}

/// Second step: takes the outcome of the gRPC exchange of `request` (the
/// reply's text, or the failure's message) and gives the text to decode,
/// or the error to answer with.
pub fn finish_transport(request: &JsonRpcRequest, reply: Result<String, String>) -> (text: Result<
    String,
    SvcError,
>)
    ensures
        reply matches Ok(t) ==> (text matches Ok(u) && u@ == t@),
        match text {
            Ok(t) => transport_outcome(request@, texts_view(reply)) == Ok::<
                Seq<char>,
                SvcErrorView,
            >(t@),
            Err(error) => transport_outcome(request@, texts_view(reply)) == Err::<
                Seq<char>,
                SvcErrorView,
            >(error@),
        },
{
    match reply {
        Ok(t) => Ok(t),
        Err(error) => Err(
            SvcError::JsonRpc {
                method: request.method.clone(),
                params: request.params.clone(),
                error,
            },
        ),
    }
}

/// Last step: takes the outcome of decoding the reply and gives the answer
/// of the call of `method`.
pub fn finish_decode<R>(method: &str, decoded: Result<R, String>) -> (answer: Result<R, SvcError>)
    ensures
        outcome_view(answer) == decode_outcome(
            method@,
            match decoded {
                Ok(v) => Ok::<R, Seq<char>>(v),
                Err(e) => Err::<R, Seq<char>>(e@),
            },
        ),
{
    match decoded {
        Ok(value) => Ok(value),
        Err(error) => Err(
            SvcError::JsonRpc {
                method: method.to_owned(),
                params: "response deserialization failed".to_owned(),
                error,
            },
        ),
    }
}

/// The request to send for a call of a typed JSON-RPC method: its name and
/// its parameters as JSON text. Serialising the parameters of a
/// `JsonRpcMethod` cannot fail, so this is the request that `start_call`
/// gives for them.
pub fn prepare_call<T: JsonRpcMethod>(request: &T) -> (prepared: JsonRpcRequest)
    ensures
        prepared@ == (JsonRpcRequestView {
            method: request.method_name(),
            params: request.params_text(),
        }),
        start_outcome(request.method_name(), Ok(request.params_text())) == Ok::<
            JsonRpcRequestView,
            SvcErrorView,
        >(prepared@),
{
    let method = request.method().to_owned();
    let params = request.params_json();
    JsonRpcRequest { method, params }
}

/// `T`'s decoding of the text of a reply: the decoded value where `T`
/// accepts the text, else the message of the decoding error.
pub open spec fn typed_decoding<T: JsonRpcMethod>(text: Seq<char>) -> Result<T::Response, Seq<char>> {
    if T::accepts_response(text) {
        Ok(T::response_value(text))
    } else {
        Err(T::response_error(text))
    }
}

/// What a typed call of `T` that sent `request` answers, given the outcome
/// of the gRPC exchange.
pub open spec fn typed_call_outcome<T: JsonRpcMethod>(
    request: JsonRpcRequestView,
    reply: Result<Seq<char>, Seq<char>>,
) -> Result<T::Response, SvcErrorView> {
    match reply {
        Err(error) => Err(json_rpc_error(request.method, request.params, error)),
        Ok(text) => decode_outcome(request.method, typed_decoding::<T>(text)),
    }
}

/// The answer of a typed call of `T` that sent `request`, given the outcome
/// of the gRPC exchange: a failed exchange gives its error, with the
/// parameters that were sent; a reply that `T` decodes gives the decoded
/// value; any other reply gives a decoding error with `T`'s message.
pub fn finish_call<T: JsonRpcMethod>(request: &JsonRpcRequest, reply: Result<String, String>) -> (answer: Result<
    T::Response,
    SvcError,
>)
    ensures
        outcome_view(answer) == typed_call_outcome::<T>(request@, texts_view(reply)),
{
    match reply {
        Err(error) => Err(
            SvcError::JsonRpc {
                method: request.method.clone(),
                params: request.params.clone(),
                error,
            },
        ),
        Ok(text) => {
            let decoded = T::decode_response(text.as_str());
            finish_decode(request.method.as_str(), decoded)
        },
    }
}

} // verus!
