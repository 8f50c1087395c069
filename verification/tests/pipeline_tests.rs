use rust_backend::cors::CorsPolicy;
use rust_backend::http::{Method, Request, Response};
use rust_backend::logging::{LogEntry, LogSink};
use rust_backend::pipeline::handle_request;

fn run(method: Method, path: &str, body: Vec<u8>) -> (Response, LogSink) {
    let policy = CorsPolicy::permissive();
    let req = Request { method, path: path.to_string(), body };
    let mut log = LogSink::new();
    let resp = handle_request(&policy, &req, &mut log);
    (resp, log)
}

fn assert_cors_headers(resp: &Response) {
    let h = &resp.headers;
    assert_eq!(h.len(), 4);
    assert_eq!(h[0].0, "Access-Control-Allow-Origin");
    assert_eq!(h[0].1, "*");
    assert_eq!(h[1].0, "Access-Control-Allow-Methods");
    assert_eq!(h[1].1, "*");
    assert_eq!(h[2].0, "Access-Control-Allow-Headers");
    assert_eq!(h[2].1, "*");
    assert_eq!(h[3].0, "Access-Control-Max-Age");
    assert_eq!(h[3].1, "3600");
}

#[test]
fn health_returns_200_and_healthy_status() {
    let (resp, _) = run(Method::Get, "/health", Vec::new());
    assert_eq!(resp.status, 200);
    assert_eq!(resp.content_type.as_deref(), Some("application/json"));
    let v: serde_json::Value = serde_json::from_slice(&resp.body).unwrap();
    assert_eq!(v.get("status").and_then(|s| s.as_str()), Some("healthy"));
    assert_eq!(v.get("service").and_then(|s| s.as_str()), Some("rust-backend"));
    assert_eq!(v.get("version").and_then(|s| s.as_str()), Some("0.1.0"));
}

#[test]
fn metrics_returns_200_and_numeric_fields() {
    let (resp, _) = run(Method::Get, "/metrics", Vec::new());
    assert_eq!(resp.status, 200);
    assert_eq!(resp.content_type.as_deref(), Some("application/json"));
    let v: serde_json::Value = serde_json::from_slice(&resp.body).unwrap();
    assert_eq!(v.get("cpu_usage").and_then(|n| n.as_f64()), Some(45.2));
    assert_eq!(v.get("memory_usage").and_then(|n| n.as_f64()), Some(512.0));
    assert_eq!(v.get("request_count").and_then(|n| n.as_u64()), Some(12345));
}

#[test]
fn process_echoes_valid_json_object() {
    let input = br#"{"a":1,"b":[true,null,"x"]}"#.to_vec();
    let (resp, _) = run(Method::Post, "/api/process", input.clone());
    assert_eq!(resp.status, 200);
    assert_eq!(resp.content_type.as_deref(), Some("application/json"));
    let v: serde_json::Value = serde_json::from_slice(&resp.body).unwrap();
    assert_eq!(v.get("status").and_then(|s| s.as_str()), Some("processed"));
    let expected: serde_json::Value = serde_json::from_slice(&input).unwrap();
    assert_eq!(v.get("data"), Some(&expected));
}

#[test]
fn process_echoes_valid_json_scalar() {
    let (resp, _) = run(Method::Post, "/api/process", b"42".to_vec());
    assert_eq!(resp.status, 200);
    assert_eq!(resp.body, b"{\"status\":\"processed\",\"data\":42}".to_vec());
}

#[test]
fn process_rejects_malformed_json_with_400() {
    let (resp, _) = run(Method::Post, "/api/process", b"{not json".to_vec());
    assert_eq!(resp.status, 400);
    assert_ne!(resp.status, 200);
    assert_eq!(resp.body, b"{\"error\":\"malformed JSON body\"}".to_vec());
    let v: serde_json::Value = serde_json::from_slice(&resp.body).unwrap();
    assert!(v.get("error").is_some());
}

#[test]
fn process_rejects_empty_body_with_400() {
    let (resp, _) = run(Method::Post, "/api/process", Vec::new());
    assert_eq!(resp.status, 400);
}

#[test]
fn process_rejects_trailing_garbage_with_400() {
    let (resp, _) = run(Method::Post, "/api/process", b"42 xx".to_vec());
    assert_eq!(resp.status, 400);
}

#[test]
fn grpc_echoes_bytes_exactly() {
    let input = vec![0u8, 159, 146, 150, 255, 1];
    let (resp, _) = run(Method::Post, "/api/grpc", input.clone());
    assert_eq!(resp.status, 200);
    assert_eq!(resp.content_type.as_deref(), Some("application/octet-stream"));
    assert_eq!(resp.body, input);
}

#[test]
fn grpc_accepts_empty_body() {
    let (resp, _) = run(Method::Post, "/api/grpc", Vec::new());
    assert_eq!(resp.status, 200);
    assert_eq!(resp.body, Vec::<u8>::new());
    assert_eq!(resp.content_type.as_deref(), Some("application/octet-stream"));
}

#[test]
fn unmatched_route_returns_404_with_empty_body() {
    let (resp, _) = run(Method::Get, "/nope", Vec::new());
    assert_eq!(resp.status, 404);
    assert!(resp.body.is_empty());
    assert!(resp.content_type.is_none());
}

#[test]
fn wrong_method_on_known_path_returns_404() {
    let (resp, _) = run(Method::Post, "/health", Vec::new());
    assert_eq!(resp.status, 404);
    let (resp, _) = run(Method::Get, "/api/process", Vec::new());
    assert_eq!(resp.status, 404);
    let (resp, _) = run(Method::Other, "/health", Vec::new());
    assert_eq!(resp.status, 404);
}

#[test]
fn every_response_carries_cors_headers() {
    let (ok, _) = run(Method::Get, "/health", Vec::new());
    assert_cors_headers(&ok);
    let (not_found, _) = run(Method::Get, "/nope", Vec::new());
    assert_eq!(not_found.status, 404);
    assert_cors_headers(&not_found);
    let (bad, _) = run(Method::Post, "/api/process", b"oops{".to_vec());
    assert_eq!(bad.status, 400);
    assert_cors_headers(&bad);
    let (preflight, _) = run(Method::Options, "/api/process", Vec::new());
    assert_cors_headers(&preflight);
}

#[test]
fn options_short_circuits_without_handler_log() {
    let (resp, log) = run(Method::Options, "/api/process", b"{\"a\":1}".to_vec());
    assert!(resp.status >= 200 && resp.status < 300);
    assert_eq!(resp.status, 204);
    assert!(resp.body.is_empty());
    assert_eq!(log.entries.len(), 2);
    assert!(matches!(&log.entries[0], LogEntry::Access { method: Method::Options, .. }));
    assert!(matches!(&log.entries[1], LogEntry::Completed { status: 204 }));
    for e in &log.entries {
        assert!(!matches!(e, LogEntry::ProcessDiag { .. }));
        assert!(!matches!(e, LogEntry::GrpcPayload { .. }));
    }
    let (resp, log) = run(Method::Options, "/no/such/path", Vec::new());
    assert_eq!(resp.status, 204);
    assert_eq!(log.entries.len(), 2);
}

#[test]
fn process_logs_one_diagnostic_on_success_only() {
    let input = b"[1,2,3]".to_vec();
    let (_, log) = run(Method::Post, "/api/process", input.clone());
    let diags: Vec<&LogEntry> = log
        .entries
        .iter()
        .filter(|e| matches!(e, LogEntry::ProcessDiag { .. }))
        .collect();
    assert_eq!(diags.len(), 1);
    match diags[0] {
        LogEntry::ProcessDiag { payload } => assert_eq!(payload, &input),
        _ => unreachable!(),
    }
    let (_, log) = run(Method::Post, "/api/process", b"not json".to_vec());
    assert!(log.entries.iter().all(|e| !matches!(e, LogEntry::ProcessDiag { .. })));
}

#[test]
fn grpc_logs_payload_byte_count() {
    let (_, log) = run(Method::Post, "/api/grpc", vec![9u8; 17]);
    let counts: Vec<usize> = log
        .entries
        .iter()
        .filter_map(|e| match e {
            LogEntry::GrpcPayload { len } => Some(*len),
            _ => None,
        })
        .collect();
    assert_eq!(counts, vec![17]);
}

#[test]
fn access_log_wraps_every_request() {
    let (resp, log) = run(Method::Get, "/missing", Vec::new());
    assert_eq!(log.entries.len(), 2);
    match &log.entries[0] {
        LogEntry::Access { method, path } => {
            assert!(matches!(method, Method::Get));
            assert_eq!(path, "/missing");
        }
        _ => panic!("first record must be the access record"),
    }
    match &log.entries[1] {
        LogEntry::Completed { status } => assert_eq!(*status, resp.status),
        _ => panic!("last record must be the completion record"),
    }
}

#[test]
fn distinct_payloads_get_distinct_echoes() {
    let payloads: Vec<Vec<u8>> = (0..8).map(|i| format!("{{\"n\":{}}}", i).into_bytes()).collect();
    let mut bodies = Vec::new();
    for p in &payloads {
        let (resp, _) = run(Method::Post, "/api/process", p.clone());
        assert_eq!(resp.status, 200);
        bodies.push(resp.body);
    }
    for (i, body) in bodies.iter().enumerate() {
        let v: serde_json::Value = serde_json::from_slice(body).unwrap();
        let echoed = v.get("data").and_then(|d| d.get("n")).and_then(|n| n.as_u64());
        assert_eq!(echoed, Some(i as u64));
        for (j, other) in bodies.iter().enumerate() {
            if i != j {
                assert_ne!(body, other);
            }
        }
    }
}
