use vstd::prelude::*;

verus! {

/// The HTTP methods the router distinguishes. Everything beyond the three
/// meaningful ones is collapsed into `Other`, which never matches a route.
#[derive(Clone, Copy, Debug, PartialEq, Eq, Structural)]
pub enum Method {
    Get,
    Post,
    Options,
    Other,
}

/// One inbound request, as the server loop hands it to the dispatch pipeline:
/// the method, the request path, and the raw body bytes.
pub struct Request {
    pub method: Method,
    pub path: String,
    pub body: Vec<u8>,
}

/// One outbound response: a status code, an optional content type, the
/// response headers, and the raw body bytes.
pub struct Response {
    pub status: u16,
    pub content_type: Option<String>,
    pub headers: Vec<(String, String)>,
    pub body: Vec<u8>,
}

/// The content type of a response, as a character sequence.
pub open spec fn ct_view(o: Option<String>) -> Option<Seq<char>> {
    match o {
        Some(s) => Some(s@),
        None => None,
    }
}

/// The headers of a response, as name/value character sequences.
pub open spec fn header_views(h: Seq<(String, String)>) -> Seq<(Seq<char>, Seq<char>)> {
    h.map(|i: int, kv: (String, String)| (kv.0@, kv.1@))
}

/// Bytes of an ASCII character sequence, one byte per character.
pub open spec fn ascii_seq(s: Seq<char>) -> Seq<u8> {
    Seq::new(s.len(), |i: int| s[i] as u8)
}

/// Turns an ASCII string into its bytes, one byte per character.
pub fn bytes_of_str(s: &str) -> (r: Vec<u8>)
    requires
        s.is_ascii(),
    ensures
        r@ == ascii_seq(s@),
{
    proof {
        vstd::string::is_ascii_spec_bytes(s);
    }
    let b: &[u8] = s.as_bytes();
    let mut r: Vec<u8> = Vec::new();
    let mut i: usize = 0;
    while i < b.len()
        invariant
            0 <= i <= b@.len(),
            b@.len() == s@.len(),
            forall|j: int| 0 <= j < b@.len() ==> b@[j] == s@[j] as u8,
            r@ == ascii_seq(s@).take(i as int),
        decreases b@.len() - i,
    {
        r.push(b[i]);
        proof {
            assert(r@ =~= ascii_seq(s@).take(i + 1));
        }
        i = i + 1;
    }
    proof {
        assert(r@ =~= ascii_seq(s@));
    }
    r
}

/// Appends every byte of `src` to `dst`, leaving `src` as it was.
pub fn extend_bytes(dst: &mut Vec<u8>, src: &Vec<u8>)
    ensures
        final(dst)@ == old(dst)@ + src@,
{
    let mut i: usize = 0;
    while i < src.len()
        invariant
            0 <= i <= src@.len(),
            dst@ == old(dst)@ + src@.take(i as int),
        decreases src@.len() - i,
    {
        dst.push(src[i]);
        proof {
            assert(dst@ =~= old(dst)@ + src@.take(i + 1));
        }
        i = i + 1;
    }
    proof {
        assert(dst@ =~= old(dst)@ + src@);
    }
}

} // verus!
