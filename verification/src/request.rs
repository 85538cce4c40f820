//! Plain-value model of one HTTP exchange: the request as it is handed to
//! the transport, the answer as it comes back, and its classification.

use crate::api::Method;
use vstd::prelude::*;
use vstd::string::StringExecFns;

verus! {

/// The name of the one header every request carries.
pub const CONTENT_TYPE: &'static str = "Content-Type";

/// The value of the one header every request carries.
pub const APPLICATION_JSON: &'static str = "application/json";

/// A request, ready for the transport. `path` is the path with its query;
/// `body` is empty or a JSON text.
#[derive(Debug, Clone, PartialEq)]
pub struct OutboundRequest {
    pub socket: String,
    pub method: Method,
    pub path: String,
    pub headers: Vec<(String, String)>,
    pub body: String,
}

/// An answer as read off the wire: the status code and the whole body.
#[derive(Debug, Clone, PartialEq)]
pub struct SimpleResponse {
    pub status: u16,
    pub body: Vec<u8>,
}

impl Default for SimpleResponse {
    fn default() -> (r: Self)
        ensures
            r.status == 0,
            r.body@ == Seq::<u8>::empty(),
    {
        SimpleResponse { status: 0, body: Vec::new() }
    }
}

/// The headers of every request: the JSON content type, also where the
/// body is empty.
pub open spec fn fixed_headers() -> Seq<(Seq<char>, Seq<char>)> {
    seq![(CONTENT_TYPE@, APPLICATION_JSON@)]
}

/// Builds the request for `url` on the server behind `socket`.
pub fn request(socket: String, url: String, method: Method, body: String) -> (r: OutboundRequest)
    ensures
        r.socket@ == socket@,
        r.path@ == url@,
        r.method == method,
        r.body@ == body@,
        r.headers.deep_view() == fixed_headers(),
{
    let mut headers: Vec<(String, String)> = Vec::new();
    headers.push((String::from_str(CONTENT_TYPE), String::from_str(APPLICATION_JSON)));
    assert(headers.deep_view() =~= fixed_headers());
    OutboundRequest { socket, method, path: url, headers, body }
}

/// The chunks of a body, one after the other.
pub open spec fn joined(chunks: Seq<Vec<u8>>) -> Seq<u8>
    decreases chunks.len(),
{
    if chunks.len() == 0 {
        Seq::empty()
    } else {
        joined(chunks.drop_last()) + chunks.last()@
    }
}

impl SimpleResponse {
    /// The answer with the given status whose body arrived in `chunks`.
    pub fn from_chunks(status: u16, chunks: &Vec<Vec<u8>>) -> (r: SimpleResponse)
        ensures
            r.status == status,
            r.body@ == joined(chunks@),
    {
        let mut body: Vec<u8> = Vec::new();
        let mut i: usize = 0;
        assert(chunks@.take(0) =~= Seq::empty());
        while i < chunks.len()
            invariant
                i <= chunks.len(),
                body@ == joined(chunks@.take(i as int)),
            decreases chunks.len() - i,
        {
            body.extend_from_slice(chunks[i].as_slice());
            proof {
                let next = chunks@.take(i as int + 1);
                assert(next.drop_last() =~= chunks@.take(i as int));
                assert(next.last() == chunks@[i as int]);
            }
            i = i + 1;
        }
        assert(chunks@.take(chunks@.len() as int) =~= chunks@);
        SimpleResponse { status, body }
    }
}

/// An answer after the status check: the body of a success, or the body of
/// a failure, which is yet to be mapped to an error.
#[derive(Debug, Clone, Copy, PartialEq)]
pub enum Classified<'a> {
    Success(&'a [u8]),
    ServerError(&'a [u8]),
}

/// Sorts an answer by its status: a success where the status is exactly
/// `expected`, a server error for every other status.
pub fn classify<'a>(response: &'a SimpleResponse, expected: u16) -> (c: Classified<'a>)
    ensures
        match c {
            Classified::Success(body) => response.status == expected && body@ == response.body@,
            Classified::ServerError(body) => response.status != expected && body@
                == response.body@,
        },
{
    if response.status == expected {
        Classified::Success(response.body.as_slice())
    } else {
        Classified::ServerError(response.body.as_slice())
    }
}

} // verus!
