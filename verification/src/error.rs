use vstd::prelude::*;

verus! {

/// Errors that a JSON-RPC call through the io-engine can end in.
#[derive(Debug, Clone, PartialEq, Eq)]
pub enum SvcError {
    /// The gRPC channel to the io-engine could not be opened.
    GrpcConnect { node_id: String, endpoint: String, source: String },
    /// A JSON-RPC call failed: `params` holds the parameters that were sent,
    /// or a note on the step that failed, and `error` the reason.
    JsonRpc { method: String, params: String, error: String },
}

/// The value of a `SvcError`, with each text as its characters.
pub enum SvcErrorView {
    GrpcConnect { node_id: Seq<char>, endpoint: Seq<char>, source: Seq<char> },
    JsonRpc { method: Seq<char>, params: Seq<char>, error: Seq<char> },
}

impl View for SvcError {
    type V = SvcErrorView;

    open spec fn view(&self) -> SvcErrorView {
        match self {
            SvcError::GrpcConnect { node_id, endpoint, source } => SvcErrorView::GrpcConnect {
                node_id: node_id@,
                endpoint: endpoint@,
                source: source@,
            },
            SvcError::JsonRpc { method, params, error } => SvcErrorView::JsonRpc {
                method: method@,
                params: params@,
                error: error@,
            },
        }
    }
}

/// The error of a gRPC channel to the io-engine of `node_id` at `endpoint`
/// that could not be opened, with the connection's message.
pub fn grpc_connect_error(node_id: &str, endpoint: &str, source: String) -> (error: SvcError)
    ensures
        error@ == (SvcErrorView::GrpcConnect { node_id: node_id@, endpoint: endpoint@, source: source@ }),
{
    SvcError::GrpcConnect { node_id: node_id.to_owned(), endpoint: endpoint.to_owned(), source }
}

} // verus!
