use vstd::prelude::*;

use crate::error::SvcErrorView;
use crate::exchange::{
    call_outcome, decode_outcome, json_rpc_error, start_outcome, transport_outcome,
    typed_call_outcome, typed_decoding, JsonRpcRequestView,
};
use crate::json::{
    decimal, digit_char, hex_digit, hex_value, json_escape_char, json_escaped, json_string_literal,
    read_json_escape, read_json_string,
};
use crate::method::{qos_params_text, BdevSetQosLimitRequest, JsonRpcMethod};

verus! {

/// A call is its three steps in turn: starting it, exchanging the request
/// over gRPC, and decoding the reply; the first step that fails gives the
/// answer.
pub proof fn law_call_is_its_steps<R>(
    method: Seq<char>,
    serialized: Result<Seq<char>, Seq<char>>,
    reply: Result<Seq<char>, Seq<char>>,
    decoded: Result<R, Seq<char>>,
)
    ensures
        call_outcome(method, serialized, reply, decoded) == match start_outcome(
            method,
            serialized,
        ) {
            Err(error) => Err(error),
            Ok(request) => match transport_outcome(request, reply) {
                Err(error) => Err(error),
                Ok(_) => decode_outcome(method, decoded),
            },
        },
{
}

/// Every failed call answers with a JSON-RPC error that names the method
/// that was called.
pub proof fn law_failure_names_the_method<R>(
    method: Seq<char>,
    serialized: Result<Seq<char>, Seq<char>>,
    reply: Result<Seq<char>, Seq<char>>,
    decoded: Result<R, Seq<char>>,
)
    ensures
        call_outcome(method, serialized, reply, decoded) matches Err(error) ==> (
        error matches SvcErrorView::JsonRpc { method: named, .. } && named == method),
{
}

/// A call succeeds exactly when serialising, the exchange and decoding all
/// succeed, and then it answers with the decoded value.
pub proof fn law_success_needs_every_step<R>(
    method: Seq<char>,
    serialized: Result<Seq<char>, Seq<char>>,
    reply: Result<Seq<char>, Seq<char>>,
    decoded: Result<R, Seq<char>>,
)
    ensures
        call_outcome(method, serialized, reply, decoded) is Ok <==> (serialized is Ok
            && reply is Ok && decoded is Ok),
        serialized is Ok && reply is Ok ==> match decoded {
            Ok(value) => call_outcome(method, serialized, reply, decoded) == Ok::<
                R,
                SvcErrorView,
            >(value),
            Err(_) => true,
        },
{
}

/// When the gRPC exchange fails, the error holds the parameters that were
/// sent and the exchange's own message.
pub proof fn law_exchange_failure_keeps_the_sent_params<R>(
    method: Seq<char>,
    params: Seq<char>,
    message: Seq<char>,
    decoded: Result<R, Seq<char>>,
)
    ensures
        call_outcome(method, Ok(params), Err(message), decoded) == Err::<R, SvcErrorView>(
            json_rpc_error(method, params, message),
        ),
{
}

/// A typed call of a request is the call of the request's method with the
/// request's parameters: it starts with the request of that name and JSON
/// text, and answers what `call_outcome` answers for that method, those
/// parameters, the same reply, and `T`'s decoding of the reply.
pub proof fn law_typed_call_is_call_method<T: JsonRpcMethod>(
    request: T,
    reply: Result<Seq<char>, Seq<char>>,
    decoded: Result<T::Response, Seq<char>>,
)
    requires
        reply matches Ok(text) ==> decoded == typed_decoding::<T>(text),
    ensures
        start_outcome(request.method_name(), Ok(request.params_text())) == Ok::<
            JsonRpcRequestView,
            SvcErrorView,
        >(JsonRpcRequestView { method: request.method_name(), params: request.params_text() }),
        typed_call_outcome::<T>(
            JsonRpcRequestView { method: request.method_name(), params: request.params_text() },
            reply,
        ) == call_outcome(request.method_name(), Ok(request.params_text()), reply, decoded),
{
}

/// A successful exchange hands on the reply's own text, unchanged, to be
/// decoded.
pub proof fn law_exchange_success_hands_on_the_reply(
    request: JsonRpcRequestView,
    text: Seq<char>,
)
    ensures
        transport_outcome(request, Ok(text)) == Ok::<Seq<char>, SvcErrorView>(text),
{
}

/// Whatever decoder a call uses, what a call of `method` with serialised
/// parameters decodes is the text of the reply that the exchange gave.
pub proof fn law_call_decodes_the_reply_text<R>(
    method: Seq<char>,
    params: Seq<char>,
    text: Seq<char>,
    decode: spec_fn(Seq<char>) -> Result<R, Seq<char>>,
)
    ensures
        match start_outcome(method, Ok(params)) {
            Err(error) => Err(error),
            Ok(request) => match transport_outcome(request, Ok(text)) {
                Err(error) => Err(error),
                Ok(received) => decode_outcome(method, decode(received)),
            },
        } == decode_outcome(method, decode(text)),
        call_outcome(method, Ok(params), Ok(text), decode(text)) == decode_outcome(
            method,
            decode(text),
        ),
{
}

/// The number that a text of decimal digits stands for, read from the left.
pub open spec fn digits_value(digits: Seq<char>) -> int
    decreases digits.len(),
{
    if digits.len() == 0 {
        0
    } else {
        digits_value(digits.drop_last()) * 10 + (digits.last() as int - '0' as int)
    }
}

/// The character of a digit is the ASCII digit of that value.
proof fn lemma_digit_char_code(d: nat)
    requires
        d < 10,
    ensures
        digit_char(d) as int == '0' as int + d,
{
}

/// `decimal(n)` is the base-ten writing of `n`: a non-empty run of ASCII
/// digits, with no leading zero unless `n` is zero, that reads back as `n`.
pub proof fn law_decimal_reads_back(n: nat)
    ensures
        decimal(n).len() > 0,
        decimal(n).len() > 1 <==> n >= 10,
        forall|i: int| 0 <= i < decimal(n).len() ==> '0' <= #[trigger] decimal(n)[i] <= '9',
        decimal(n).len() > 1 ==> decimal(n)[0] != '0',
        digits_value(decimal(n)) == n,
    decreases n,
{
    lemma_digit_char_code(n % 10);
    if n >= 10 {
        law_decimal_reads_back(n / 10);
        let high = decimal(n / 10);
        let whole = high + seq![digit_char(n % 10)];
        assert(decimal(n) == whole);
        assert(whole.drop_last() =~= high);
        assert(whole.last() == digit_char(n % 10));
        assert(digits_value(whole) == digits_value(high) * 10 + (digit_char(n % 10) as int
            - '0' as int));
        assert(decimal(n)[0] == high[0]);
        assert(digits_value(high) == n / 10);
        assert(digits_value(whole) == n);
        if n / 10 < 10 {
            lemma_digit_char_code(n / 10);
            assert(high == seq![digit_char(n / 10)]);
        }
    } else {
        assert(decimal(n) == seq![digit_char(n)]);
        assert(seq![digit_char(n)].drop_last() =~= Seq::<char>::empty());
        assert(digits_value(Seq::<char>::empty()) == 0);
        assert(digits_value(seq![digit_char(n)]) == digit_char(n) as int - '0' as int);
    }
}

/// A hexadecimal digit reads back as its value.
proof fn lemma_hex_digit_value(d: nat)
    requires
        d < 16,
    ensures
        hex_value(hex_digit(d)) == d,
{
}

/// Reading one escaped character and then the rest of a string.
proof fn lemma_read_escaped_char(c: char, tail: Seq<char>)
    ensures
        read_json_string(json_escape_char(c) + tail) == match read_json_string(tail) {
            Some((rest, k)) => Some((seq![c] + rest, json_escape_char(c).len() + k)),
            None => None::<(Seq<char>, nat)>,
        },
{
    let text = json_escape_char(c) + tail;
    let n = json_escape_char(c).len();
    assert(text.skip(n as int) =~= tail);
    let code = c as nat;
    if c == '"' || c == '\\' || code == 8 || code == 9 || code == 10 || code == 12 || code == 13 {
        assert(read_json_escape(text) == Some((c, 2nat)));
    } else if code < 0x20 {
        lemma_hex_digit_value(code / 16);
        lemma_hex_digit_value(code % 16);
        assert(text[2] == '0' && text[3] == '0');
        assert(hex_value(text[4]) == code / 16);
        assert(hex_value(text[5]) == code % 16);
        assert(((code as u32) as char) == c);
        assert(read_json_escape(text) == Some((c, 6nat)));
    } else {
        assert(text.drop_first() =~= tail);
    }
}

/// Reading back the escaped characters of `text` and a closing quote gives
/// `text` itself, whatever follows.
proof fn lemma_read_escaped(text: Seq<char>, rest: Seq<char>)
    ensures
        read_json_string(json_escaped(text) + seq!['"'] + rest) == Some(
            (text, json_escaped(text).len() + 1),
        ),
    decreases text.len(),
{
    if text.len() == 0 {
        assert(json_escaped(text) + seq!['"'] + rest =~= seq!['"'] + rest);
    } else {
        let tail = json_escaped(text.drop_first()) + seq!['"'] + rest;
        lemma_read_escaped(text.drop_first(), rest);
        lemma_read_escaped_char(text[0], tail);
        assert(json_escaped(text) + seq!['"'] + rest =~= json_escape_char(text[0]) + tail);
        assert(seq![text[0]] + text.drop_first() =~= text);
    }
}

/// A JSON string literal reads back as the text it was written for, whatever
/// text, and whatever follows it.
pub proof fn law_json_string_reads_back(text: Seq<char>, rest: Seq<char>)
    ensures
        json_string_literal(text)[0] == '"',
        read_json_string((json_string_literal(text) + rest).drop_first()) == Some(
            (text, (json_string_literal(text).len() - 1) as nat),
        ),
{
    lemma_read_escaped(text, rest);
    assert((json_string_literal(text) + rest).drop_first() =~= json_escaped(text) + seq!['"']
        + rest);
}

/// The JSON text of a `bdev_set_qos_limit` request opens with the field
/// `"name"` whose string reads back as the request's whole name.
pub proof fn law_params_carry_the_whole_name(request: BdevSetQosLimitRequest)
    ensures
        qos_params_text(request).take(8) == "{\"name\":"@,
        read_json_string(qos_params_text(request).skip(9)) is Some,
        read_json_string(qos_params_text(request).skip(9)).unwrap().0 == request.name@,
{
    reveal_strlit("{\"name\":");
    let prefix = "{\"name\":"@;
    let literal = json_string_literal(request.name@);
    let text = qos_params_text(request);
    let after = text.skip(8 + literal.len() as int);
    assert(text =~= prefix + (literal + after));
    law_json_string_reads_back(request.name@, after);
    assert(text.take(8) =~= prefix);
    assert(text.skip(9) =~= (literal + after).drop_first());
}

} // verus!
