use vstd::prelude::*;
use crate::digits::{dec_digits, render_u32};
use crate::http::{header_views, Response};

verus! {

/// The process-wide CORS configuration: which origins, methods and headers a
/// cross-origin caller is allowed, and how long a preflight answer may be
/// cached. Read-only after construction.
pub struct CorsPolicy {
    pub allow_origin: String,
    pub allow_methods: String,
    pub allow_headers: String,
    pub max_age: u32,
}

/// The four headers a policy attaches to every response, in the order they
/// are attached.
pub open spec fn cors_header_views(p: CorsPolicy) -> Seq<(Seq<char>, Seq<char>)> {
    seq![
        ("Access-Control-Allow-Origin"@, p.allow_origin@),
        ("Access-Control-Allow-Methods"@, p.allow_methods@),
        ("Access-Control-Allow-Headers"@, p.allow_headers@),
        ("Access-Control-Max-Age"@, dec_digits(p.max_age as nat)),
    ]
}

impl CorsPolicy {
    /// The policy the server runs with: any origin, any method, any header,
    /// preflight answers cacheable for an hour.
    pub fn permissive() -> (p: Self)
        ensures
            p.allow_origin@ == "*"@,
            p.allow_methods@ == "*"@,
            p.allow_headers@ == "*"@,
            p.max_age == 3600,
    {
        CorsPolicy {
            allow_origin: "*".to_owned(),
            allow_methods: "*".to_owned(),
            allow_headers: "*".to_owned(),
            max_age: 3600,
        }
    }

    /// The answer to an OPTIONS preflight: no content, no body, only the
    /// Allow-* headers. The handler behind the route is never consulted.
    pub fn preflight_response(&self) -> (r: Response)
        ensures
            r.status == 204,
            r.content_type is None,
            r.body@ == Seq::<u8>::empty(),
            header_views(r.headers@) == cors_header_views(*self),
    {
        let mut r = Response {
            status: 204,
            content_type: None,
            headers: Vec::new(),
            body: Vec::new(),
        };
        self.attach(&mut r);
        proof {
            assert(r.body@ =~= Seq::<u8>::empty());
        }
        r
    }

    /// Appends the four Allow-* headers to a response, touching nothing else.
    pub fn attach(&self, r: &mut Response)
        ensures
            final(r).status == old(r).status,
            final(r).content_type == old(r).content_type,
            final(r).body == old(r).body,
            header_views(final(r).headers@) == header_views(old(r).headers@)
                + cors_header_views(*self),
    {
        r.headers.push(("Access-Control-Allow-Origin".to_owned(), self.allow_origin.clone()));
        r.headers.push(("Access-Control-Allow-Methods".to_owned(), self.allow_methods.clone()));
        r.headers.push(("Access-Control-Allow-Headers".to_owned(), self.allow_headers.clone()));
        r.headers.push(("Access-Control-Max-Age".to_owned(), render_u32(self.max_age)));
        proof {
            assert(header_views(r.headers@) =~= header_views(old(r).headers@)
                + cors_header_views(*self));
        }
    }
}

} // verus!
