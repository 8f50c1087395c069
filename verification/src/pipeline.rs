use vstd::prelude::*;
use crate::cors::{cors_header_views, CorsPolicy};
use crate::handlers::{
    grpc_handler, health, health_body, json_ok, metrics, metrics_body, not_found, process_data,
    process_err_body, process_ok_body,
};
use crate::http::{ascii_seq, ct_view, header_views, Method, Request, Response};
use crate::logging::{LogEntry, LogSink, LogView};
use crate::router::{dispatch, spec_dispatch, HandlerKind};

verus! {

/// The status every request is answered with: 204 for preflight, the
/// handler's status for a matched route, 404 otherwise.
pub open spec fn spec_status(m: Method, path: Seq<char>, body: Seq<u8>) -> u16 {
    if m == Method::Options {
        204
    } else {
        match spec_dispatch(m, path) {
            Some(HandlerKind::Health) => 200,
            Some(HandlerKind::Metrics) => 200,
            Some(HandlerKind::ProcessData) => if json_ok(body) {
                200
            } else {
                400
            },
            Some(HandlerKind::GrpcPassthrough) => 200,
            None => 404,
        }
    }
}

/// The body every request is answered with.
pub open spec fn spec_body(m: Method, path: Seq<char>, body: Seq<u8>) -> Seq<u8> {
    if m == Method::Options {
        Seq::<u8>::empty()
    } else {
        match spec_dispatch(m, path) {
            Some(HandlerKind::Health) => health_body(),
            Some(HandlerKind::Metrics) => metrics_body(),
            Some(HandlerKind::ProcessData) => if json_ok(body) {
                process_ok_body(body)
            } else {
                process_err_body()
            },
            Some(HandlerKind::GrpcPassthrough) => body,
            None => Seq::<u8>::empty(),
        }
    }
}

/// The content type every request is answered with; `None` stands for a
/// response without one (preflight, not found).
pub open spec fn spec_content_type(m: Method, path: Seq<char>, body: Seq<u8>) -> Option<
    Seq<char>,
> {
    if m == Method::Options {
        None
    } else {
        match spec_dispatch(m, path) {
            Some(HandlerKind::Health) => Some("application/json"@),
            Some(HandlerKind::Metrics) => Some("application/json"@),
            Some(HandlerKind::ProcessData) => Some("application/json"@),
            Some(HandlerKind::GrpcPassthrough) => Some("application/octet-stream"@),
            None => None,
        }
    }
}

/// The records a handler itself adds to the log. A preflight request
/// reaches no handler, so it adds none; neither do the two static handlers
/// nor an unmatched route.
pub open spec fn handler_log(m: Method, path: Seq<char>, body: Seq<u8>) -> Seq<LogView> {
    if m == Method::Options {
        Seq::<LogView>::empty()
    } else {
        match spec_dispatch(m, path) {
            Some(HandlerKind::ProcessData) => if json_ok(body) {
                seq![LogView::ProcessDiag { payload: body }]
            } else {
                Seq::<LogView>::empty()
            },
            Some(HandlerKind::GrpcPassthrough) => seq![LogView::GrpcPayload { len: body.len() }],
            _ => Seq::<LogView>::empty(),
        }
    }
}

/// Everything one request adds to the log: the access record, then whatever
/// the handler records, then the completion record with the final status.
pub open spec fn request_log(m: Method, path: Seq<char>, body: Seq<u8>) -> Seq<LogView> {
    seq![LogView::Access { method: m, path }] + handler_log(m, path, body)
        + seq![LogView::Completed { status: spec_status(m, path, body) }]
}

/// Drives one request through the whole pipeline: the access-logging stage
/// wraps everything, the CORS stage answers preflight itself and wraps the
/// router and handlers, and every response leaves with exactly the policy's
/// Allow-* headers.
pub fn handle_request(policy: &CorsPolicy, req: &Request, log: &mut LogSink) -> (r: Response)
    ensures
        r.status == spec_status(req.method, req.path@, req.body@),
        r.body@ == spec_body(req.method, req.path@, req.body@),
        ct_view(r.content_type) == spec_content_type(req.method, req.path@, req.body@),
        header_views(r.headers@) == cors_header_views(*policy),
        final(log)@ == old(log)@ + request_log(req.method, req.path@, req.body@),
{
    log.record(LogEntry::Access { method: req.method, path: req.path.clone() });
    let resp = if req.method == Method::Options {
        policy.preflight_response()
    } else {
        let mut inner = match dispatch(req.method, &req.path) {
            Some(HandlerKind::Health) => health(),
            Some(HandlerKind::Metrics) => metrics(),
            Some(HandlerKind::ProcessData) => process_data(&req.body, log),
            Some(HandlerKind::GrpcPassthrough) => grpc_handler(&req.body, log),
            None => not_found(),
        };
        proof {
            assert(header_views(inner.headers@) =~= Seq::<(Seq<char>, Seq<char>)>::empty());
        }
        policy.attach(&mut inner);
        proof {
            assert(header_views(inner.headers@) =~= cors_header_views(*policy));
        }
        inner
    };
    log.record(LogEntry::Completed { status: resp.status });
    proof {
        assert(log@ =~= old(log)@ + request_log(req.method, req.path@, req.body@));
    }
    resp
}

/// The prefix of every successful processing answer, up to the echoed
/// payload.
pub open spec fn process_prefix() -> Seq<u8> {
    ascii_seq("{\"status\":\"processed\",\"data\":"@)
}

/// A health probe is answered 200 with the fixed body, whatever the request
/// body held.
pub proof fn lemma_health_always_healthy(body: Seq<u8>)
    ensures
        spec_status(Method::Get, "/health"@, body) == 200,
        spec_body(Method::Get, "/health"@, body) == health_body(),
        spec_content_type(Method::Get, "/health"@, body) == Some("application/json"@),
{
}

/// A metrics probe is answered 200 with the fixed snapshot body, whatever
/// the request body held.
pub proof fn lemma_metrics_always_snapshot(body: Seq<u8>)
    ensures
        spec_status(Method::Get, "/metrics"@, body) == 200,
        spec_body(Method::Get, "/metrics"@, body) == metrics_body(),
        spec_content_type(Method::Get, "/metrics"@, body) == Some("application/json"@),
{
    reveal_strlit("/health");
    reveal_strlit("/metrics");
    assert("/health"@.len() == 7);
    assert("/metrics"@.len() == 8);
}

/// A valid JSON payload posted for processing is answered 200, and the
/// answer's body carries the payload byte for byte: stripping the fixed
/// envelope gives the payload back.
pub proof fn lemma_process_echo(body: Seq<u8>)
    requires
        json_ok(body),
    ensures
        spec_status(Method::Post, "/api/process"@, body) == 200,
        spec_body(Method::Post, "/api/process"@, body) == process_ok_body(body),
        process_ok_body(body).len() == process_prefix().len() + body.len() + 1,
        process_ok_body(body).subrange(
            process_prefix().len() as int,
            process_ok_body(body).len() - 1,
        ) == body,
{
    reveal_strlit("}");
    assert(process_ok_body(body).subrange(
        process_prefix().len() as int,
        process_ok_body(body).len() - 1,
    ) =~= body);
}

/// A malformed payload posted for processing is answered 400 with the error
/// body, never 200.
pub proof fn lemma_process_malformed(body: Seq<u8>)
    requires
        !json_ok(body),
    ensures
        spec_status(Method::Post, "/api/process"@, body) == 400,
        spec_body(Method::Post, "/api/process"@, body) == process_err_body(),
{
}

/// Any payload posted to the passthrough route, empty included, is answered
/// 200 with the identical bytes, as an octet stream.
pub proof fn lemma_grpc_identity(body: Seq<u8>)
    ensures
        spec_status(Method::Post, "/api/grpc"@, body) == 200,
        spec_body(Method::Post, "/api/grpc"@, body) == body,
        spec_content_type(Method::Post, "/api/grpc"@, body) == Some(
            "application/octet-stream"@,
        ),
{
    reveal_strlit("/api/process");
    reveal_strlit("/api/grpc");
    assert("/api/process"@.len() == 12);
    assert("/api/grpc"@.len() == 9);
}

/// A preflight request to any path is answered with a success status before
/// any handler runs: the log holds only the access and completion records,
/// no handler diagnostic.
pub proof fn lemma_options_short_circuits(path: Seq<char>, body: Seq<u8>)
    ensures
        200 <= spec_status(Method::Options, path, body) < 300,
        handler_log(Method::Options, path, body) == Seq::<LogView>::empty(),
        request_log(Method::Options, path, body) == seq![
            LogView::Access { method: Method::Options, path },
            LogView::Completed { status: 204 },
        ],
{
    assert(request_log(Method::Options, path, body) =~= seq![
        LogView::Access { method: Method::Options, path },
        LogView::Completed { status: 204 },
    ]);
}

/// Every policy attaches its four headers to every response, the three
/// Allow-* headers first; `handle_request` promises the attached headers
/// are exactly these, on 400 and 404 answers as much as on 200s.
pub proof fn lemma_every_response_carries_cors(p: CorsPolicy)
    ensures
        cors_header_views(p).len() == 4,
        cors_header_views(p)[0].0 == "Access-Control-Allow-Origin"@,
        cors_header_views(p)[1].0 == "Access-Control-Allow-Methods"@,
        cors_header_views(p)[2].0 == "Access-Control-Allow-Headers"@,
        cors_header_views(p)[3].0 == "Access-Control-Max-Age"@,
{
}

/// Processing answers never mix payloads up: each valid payload's answer
/// embeds that payload, and two answers agree only when the payloads did.
pub proof fn lemma_process_responses_independent(b1: Seq<u8>, b2: Seq<u8>)
    requires
        json_ok(b1),
        json_ok(b2),
    ensures
        spec_body(Method::Post, "/api/process"@, b1) == process_ok_body(b1),
        spec_body(Method::Post, "/api/process"@, b2) == process_ok_body(b2),
        process_ok_body(b1) == process_ok_body(b2) ==> b1 == b2,
{
    lemma_process_echo(b1);
    lemma_process_echo(b2);
    if process_ok_body(b1) == process_ok_body(b2) {
        assert(b1 =~= b2);
    }
}

} // verus!
