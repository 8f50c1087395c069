use vstd::prelude::*;
use crate::http::Method;

verus! {

/// The four handlers a request can be dispatched to.
#[derive(Clone, Copy, Debug, PartialEq, Eq, Structural)]
pub enum HandlerKind {
    Health,
    Metrics,
    ProcessData,
    GrpcPassthrough,
}

/// The routing table: exact match on method and path, no parameters, no
/// wildcards. Everything unmatched is left to the not-found response.
pub open spec fn spec_dispatch(m: Method, path: Seq<char>) -> Option<HandlerKind> {
    if m == Method::Get && path == "/health"@ {
        Some(HandlerKind::Health)
    } else if m == Method::Get && path == "/metrics"@ {
        Some(HandlerKind::Metrics)
    } else if m == Method::Post && path == "/api/process"@ {
        Some(HandlerKind::ProcessData)
    } else if m == Method::Post && path == "/api/grpc"@ {
        Some(HandlerKind::GrpcPassthrough)
    } else {
        None
    }
}

/// Picks the handler for a method/path pair, exactly as the routing table
/// says; `None` stands for "not found".
pub fn dispatch(m: Method, path: &String) -> (r: Option<HandlerKind>)
    ensures
        r == spec_dispatch(m, path@),
{
    let get = m == Method::Get;
    let post = m == Method::Post;
    if get && *path == "/health".to_owned() {
        Some(HandlerKind::Health)
    } else if get && *path == "/metrics".to_owned() {
        Some(HandlerKind::Metrics)
    } else if post && *path == "/api/process".to_owned() {
        Some(HandlerKind::ProcessData)
    } else if post && *path == "/api/grpc".to_owned() {
        Some(HandlerKind::GrpcPassthrough)
    } else {
        None
    }
}

} // verus!
