use vstd::prelude::*;
use crate::http::{ascii_seq, bytes_of_str, ct_view, extend_bytes, Response};
use crate::logging::{LogEntry, LogSink, LogView};

verus! {

/// Whether a byte sequence is one syntactically valid JSON document.
/// Decided at run time by `json_valid`; nothing else is assumed of it.
pub uninterp spec fn json_ok(b: Seq<u8>) -> bool;

/// Relies on serde_json::from_slice deserializing a serde_json::Value: it
/// returns Ok exactly when its input is one syntactically valid JSON
/// document with nothing trailing, and acceptance depends on the input
/// bytes alone.
#[verifier::external_body]
fn json_valid(b: &Vec<u8>) -> (r: bool)
    ensures
        r == json_ok(b@),
{
    serde_json::from_slice::<serde_json::Value>(b.as_slice()).is_ok()
}

/// The body of every health answer.
pub open spec fn health_body() -> Seq<u8> {
    ascii_seq("{\"status\":\"healthy\",\"service\":\"rust-backend\",\"version\":\"0.1.0\"}"@)
}

/// The body of every metrics answer: fixed illustrative numbers, not real
/// measurements.
pub open spec fn metrics_body() -> Seq<u8> {
    ascii_seq("{\"cpu_usage\":45.2,\"memory_usage\":512.0,\"request_count\":12345}"@)
}

/// The body answering a valid JSON payload: the payload echoed verbatim
/// inside a fixed envelope.
pub open spec fn process_ok_body(input: Seq<u8>) -> Seq<u8> {
    ascii_seq("{\"status\":\"processed\",\"data\":"@) + input + ascii_seq("}"@)
}

/// The body answering a malformed JSON payload.
pub open spec fn process_err_body() -> Seq<u8> {
    ascii_seq("{\"error\":\"malformed JSON body\"}"@)
}

/// The health probe: always succeeds, always the same three fields.
pub fn health() -> (r: Response)
    ensures
        r.status == 200,
        ct_view(r.content_type) == Some("application/json"@),
        r.headers@.len() == 0,
        r.body@ == health_body(),
{
    proof {
        reveal_strlit("{\"status\":\"healthy\",\"service\":\"rust-backend\",\"version\":\"0.1.0\"}");
        assert("{\"status\":\"healthy\",\"service\":\"rust-backend\",\"version\":\"0.1.0\"}".is_ascii());
    }
    Response {
        status: 200,
        content_type: Some("application/json".to_owned()),
        headers: Vec::new(),
        body: bytes_of_str(
            "{\"status\":\"healthy\",\"service\":\"rust-backend\",\"version\":\"0.1.0\"}",
        ),
    }
}

/// The metrics snapshot: always succeeds, fixed placeholder values.
pub fn metrics() -> (r: Response)
    ensures
        r.status == 200,
        ct_view(r.content_type) == Some("application/json"@),
        r.headers@.len() == 0,
        r.body@ == metrics_body(),
{
    proof {
        reveal_strlit("{\"cpu_usage\":45.2,\"memory_usage\":512.0,\"request_count\":12345}");
        assert("{\"cpu_usage\":45.2,\"memory_usage\":512.0,\"request_count\":12345}".is_ascii());
    }
    Response {
        status: 200,
        content_type: Some("application/json".to_owned()),
        headers: Vec::new(),
        body: bytes_of_str(
            "{\"cpu_usage\":45.2,\"memory_usage\":512.0,\"request_count\":12345}",
        ),
    }
}

/// The JSON processing endpoint. A valid payload is echoed back verbatim
/// inside the `processed` envelope, and one diagnostic record naming the
/// payload is logged; a malformed payload is answered with 400 and the
/// error body, and nothing is logged.
pub fn process_data(body: &Vec<u8>, log: &mut LogSink) -> (r: Response)
    ensures
        r.headers@.len() == 0,
        ct_view(r.content_type) == Some("application/json"@),
        json_ok(body@) ==> {
            &&& r.status == 200
            &&& r.body@ == process_ok_body(body@)
            &&& final(log)@ == old(log)@.push(LogView::ProcessDiag { payload: body@ })
        },
        !json_ok(body@) ==> {
            &&& r.status == 400
            &&& r.body@ == process_err_body()
            &&& final(log)@ == old(log)@
        },
{
    if json_valid(body) {
        let mut diag: Vec<u8> = Vec::new();
        extend_bytes(&mut diag, body);
        proof {
            assert(diag@ =~= body@);
        }
        log.record(LogEntry::ProcessDiag { payload: diag });
        proof {
            reveal_strlit("{\"status\":\"processed\",\"data\":");
            assert("{\"status\":\"processed\",\"data\":".is_ascii());
            reveal_strlit("}");
            assert("}".is_ascii());
        }
        let mut out = bytes_of_str("{\"status\":\"processed\",\"data\":");
        extend_bytes(&mut out, body);
        let close = bytes_of_str("}");
        extend_bytes(&mut out, &close);
        proof {
            assert(out@ =~= process_ok_body(body@));
        }
        Response {
            status: 200,
            content_type: Some("application/json".to_owned()),
            headers: Vec::new(),
            body: out,
        }
    } else {
        proof {
            reveal_strlit("{\"error\":\"malformed JSON body\"}");
            assert("{\"error\":\"malformed JSON body\"}".is_ascii());
        }
        Response {
            status: 400,
            content_type: Some("application/json".to_owned()),
            headers: Vec::new(),
            body: bytes_of_str("{\"error\":\"malformed JSON body\"}"),
        }
    }
}

/// The passthrough endpoint: answers any payload, empty included, with the
/// identical bytes, and logs the payload's length.
pub fn grpc_handler(body: &Vec<u8>, log: &mut LogSink) -> (r: Response)
    ensures
        r.status == 200,
        ct_view(r.content_type) == Some("application/octet-stream"@),
        r.headers@.len() == 0,
        r.body@ == body@,
        final(log)@ == old(log)@.push(LogView::GrpcPayload { len: body@.len() }),
{
    log.record(LogEntry::GrpcPayload { len: body.len() });
    let mut out: Vec<u8> = Vec::new();
    extend_bytes(&mut out, body);
    proof {
        assert(out@ =~= body@);
    }
    Response {
        status: 200,
        content_type: Some("application/octet-stream".to_owned()),
        headers: Vec::new(),
        body: out,
    }
}

/// The answer to every unmatched method/path pair.
pub fn not_found() -> (r: Response)
    ensures
        r.status == 404,
        r.content_type is None,
        r.headers@.len() == 0,
        r.body@ == Seq::<u8>::empty(),
{
    let r = Response { status: 404, content_type: None, headers: Vec::new(), body: Vec::new() };
    proof {
        assert(r.body@ =~= Seq::<u8>::empty());
    }
    r
}

} // verus!
