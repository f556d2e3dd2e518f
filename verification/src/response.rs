//! The connection handler's decision: every parsed request gets the same
//! fixed answer — status 204, a `Server` header, an empty body — and the
//! fixed settings one connection is served with.

use vstd::prelude::*;

verus! {

/// What a handler is shown of one parsed request. The handler never reads
/// any of it: the fields exist so that the contracts can say so.
#[derive(Clone, PartialEq, Eq, Debug)]
pub struct RequestSummary {
    /// The request method, as bytes.
    pub method: Vec<u8>,
    /// The request target (path), as bytes.
    pub target: Vec<u8>,
    /// How many body bytes the request carried.
    pub body_len: usize,
}

/// The one response the service ever sends.
#[derive(Clone, PartialEq, Eq, Debug)]
pub struct HttpResponse {
    /// The status code.
    pub status: u16,
    /// The value of the `Server` header.
    pub server: Vec<u8>,
    /// The response body.
    pub body: Vec<u8>,
}

/// The product token that opens the `Server` header value: `hokay/`.
pub open spec fn product_token() -> Seq<u8> {
    seq![104u8, 111u8, 107u8, 97u8, 121u8, 47u8]
}

/// The response for any request, as a mathematical value: status, `Server`
/// header value, body. It does not depend on the request at all.
pub open spec fn response_model(req: RequestSummary, version: Seq<u8>) -> (u16, Seq<u8>, Seq<u8>) {
    (204u16, product_token() + version, Seq::<u8>::empty())
}

/// Build the `Server` header value `hokay/<version>` from the version text.
pub fn server_header_value(version: &Vec<u8>) -> (v: Vec<u8>)
    ensures
        v@ == product_token() + version@,
{
    let mut v: Vec<u8> = Vec::new();
    v.push(104u8);
    v.push(111u8);
    v.push(107u8);
    v.push(97u8);
    v.push(121u8);
    v.push(47u8);
    let mut i: usize = 0;
    while i < version.len()
        invariant
            i <= version.len(),
            v@ == product_token() + version@.take(i as int),
        decreases version.len() - i,
    {
        v.push(version[i]);
        proof {
            assert(v@ == product_token() + version@.take(i + 1 as int));
        }
        i = i + 1;
    }
    proof {
        assert(version@.take(version.len() as int) == version@);
    }
    v
}

/// Answer one request: always the fixed response, whatever the request held.
pub fn handle_request(req: &RequestSummary, version: &Vec<u8>) -> (r: HttpResponse)
    ensures
        (r.status, r.server@, r.body@) == response_model(*req, version@),
        r.status == 204,
        r.server@ == product_token() + version@,
        r.body@.len() == 0,
{
    let server = server_header_value(version);
    let body: Vec<u8> = Vec::new();
    HttpResponse { status: 204, server, body }
}

/// Law: the response is the same for every request — it depends on nothing
/// the client sent.
pub proof fn lemma_response_uniform(a: RequestSummary, b: RequestSummary, version: Seq<u8>)
    ensures
        response_model(a, version) == response_model(b, version),
{
}

/// How one accepted connection is to be served: tolerate a client that
/// half-closes after sending, disconnect a silent client after the header
/// read timeout, keep the read buffer small, send without coalescing delay.
#[derive(Clone, Copy, PartialEq, Eq, Structural, Debug)]
pub struct ConnSettings {
    /// Serve a request even when the client has closed its write side.
    pub half_close: bool,
    /// Milliseconds a connection may stay silent before its headers arrive.
    pub header_read_timeout_ms: u64,
    /// Upper bound on the header read buffer, in bytes.
    pub max_buf_size: usize,
    /// Send response bytes immediately, without coalescing.
    pub nodelay: bool,
}

/// The fixed settings for every connection.
pub fn conn_settings() -> (c: ConnSettings)
    ensures
        c.half_close,
        c.header_read_timeout_ms == 2000,
        c.max_buf_size == 8192,
        c.nodelay,
{
    ConnSettings { half_close: true, header_read_timeout_ms: 2000, max_buf_size: 8192, nodelay: true }
}

} // verus!
