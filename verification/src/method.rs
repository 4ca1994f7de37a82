use vstd::prelude::*;
use vstd::string::*;

use crate::json::{
    append_decimal, decimal, decode_unit, is_json_null, json_null_error_message, json_string_literal,
    quote_json,
};

verus! {

/// A JSON-RPC method of SPDK, with its parameters and the type of its answer.
pub trait JsonRpcMethod {
    /// What the parameters are held in.
    type Params;
    /// What a successful call answers.
    type Response;

    /// The name of the method.
    spec fn method_name(&self) -> Seq<char>;

    /// The JSON text of the parameters.
    spec fn params_text(&self) -> Seq<char>;

    /// Whether the text of a reply decodes to a `Response`.
    spec fn accepts_response(text: Seq<char>) -> bool;

    /// The `Response` that an accepted reply decodes to.
    spec fn response_value(text: Seq<char>) -> Self::Response;

    /// The message of the decoding error of a reply that is not accepted.
    spec fn response_error(text: Seq<char>) -> Seq<char>;

    /// The name of the method.
    fn method(&self) -> (name: &str)
        ensures
            name@ == self.method_name(),
    ;

    /// The parameters of the call.
    fn params(&self) -> (params: &Self::Params);

    /// The parameters written as JSON text.
    fn params_json(&self) -> (text: String)
        ensures
            text@ == self.params_text(),
    ;

    /// Decodes the text of a reply.
    fn decode_response(text: &str) -> (decoded: Result<Self::Response, String>)
        ensures
            decoded is Ok <==> Self::accepts_response(text@),
            decoded matches Ok(value) ==> value == Self::response_value(text@),
            decoded matches Err(message) ==> message@ == Self::response_error(text@),
    ;
}

/// Request parameters for the SPDK `bdev_set_qos_limit` JSON-RPC method.
/// A limit that is `None` is left out of the JSON text.
#[derive(Debug, Clone, PartialEq, Eq)]
pub struct BdevSetQosLimitRequest {
    /// Name of the block device to set QoS limits for
    pub name: String,
    /// Read/Write IOPS limit (minimum 1000)
    pub rw_ios_per_sec: Option<u32>,
    /// Read/Write bandwidth limit in MB/s (minimum 10)
    pub rw_mbytes_per_sec: Option<u32>,
    /// Read-only bandwidth limit in MB/s
    pub r_mbytes_per_sec: Option<u32>,
    /// Write-only bandwidth limit in MB/s
    pub w_mbytes_per_sec: Option<u32>,
}

/// A field of a JSON object after the first: `key` (a comma, the quoted
/// name and a colon) and the number, or nothing where there is no value.
pub open spec fn optional_field(key: Seq<char>, value: Option<u32>) -> Seq<char> {
    match value {
        Some(n) => key + decimal(n as nat),
        None => Seq::empty(),
    }
}

/// The JSON object that serde_json writes for a `bdev_set_qos_limit`
/// request: the fields in their order, each limit only where it is set.
pub open spec fn qos_params_text(request: BdevSetQosLimitRequest) -> Seq<char> {
    "{\"name\":"@ + json_string_literal(request.name@)
        + optional_field(",\"rw_ios_per_sec\":"@, request.rw_ios_per_sec)
        + optional_field(",\"rw_mbytes_per_sec\":"@, request.rw_mbytes_per_sec)
        + optional_field(",\"r_mbytes_per_sec\":"@, request.r_mbytes_per_sec)
        + optional_field(",\"w_mbytes_per_sec\":"@, request.w_mbytes_per_sec)
        + "}"@
}

/// Appends `key` and the number where there is a value.
fn append_optional_field(out: &mut String, key: &str, value: Option<u32>)
    ensures
        final(out)@ == old(out)@ + optional_field(key@, value),
{
    match value {
        Some(n) => {
            out.append(key);
            append_decimal(out, n);
            proof {
                assert(final(out)@ =~= old(out)@ + optional_field(key@, value));
            }
        },
        None => {
            proof {
                assert(old(out)@ =~= old(out)@ + optional_field(key@, value));
            }
        },
    }
}

impl JsonRpcMethod for BdevSetQosLimitRequest {
    type Params = BdevSetQosLimitRequest;
    type Response = ();

    open spec fn method_name(&self) -> Seq<char> {
        "bdev_set_qos_limit"@
    }

    open spec fn params_text(&self) -> Seq<char> {
        qos_params_text(*self)
    }

    open spec fn accepts_response(text: Seq<char>) -> bool {
        is_json_null(text)
    }

    open spec fn response_value(text: Seq<char>) -> () {
        ()
    }

    open spec fn response_error(text: Seq<char>) -> Seq<char> {
        json_null_error_message(text)
    }

    fn method(&self) -> (name: &str) {
        "bdev_set_qos_limit"
    }

    fn params(&self) -> (params: &BdevSetQosLimitRequest)
        ensures
            *params == *self,
    {
        self
    }

    fn params_json(&self) -> (text: String) {
        let mut text = String::new();
        text.append("{\"name\":");
        match quote_json(self.name.as_str()) {
            Ok(quoted) => text.append(quoted.as_str()),
            Err(_) => {},
        }
        append_optional_field(&mut text, ",\"rw_ios_per_sec\":", self.rw_ios_per_sec);
        append_optional_field(&mut text, ",\"rw_mbytes_per_sec\":", self.rw_mbytes_per_sec);
        append_optional_field(&mut text, ",\"r_mbytes_per_sec\":", self.r_mbytes_per_sec);
        append_optional_field(&mut text, ",\"w_mbytes_per_sec\":", self.w_mbytes_per_sec);
        text.append("}");
        proof {
            assert(text@ =~= qos_params_text(*self));
        }
        text
    }

    fn decode_response(text: &str) -> (decoded: Result<(), String>) {
        decode_unit(text)
    }
}

} // verus!
