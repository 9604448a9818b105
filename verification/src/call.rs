//! The call of a requester that a request turns into.
//!
//! A call is made of a request, which it takes up, and it cannot be copied. What is handed to a
//! requester are the parts of a call, and to get at them takes the call apart. So a request is
//! handed over once: whoever has no call left has no parts to hand over.

use vstd::prelude::*;

use crate::body;
use crate::body::buffer_into_vec;
use crate::headers;
use crate::headers::header_lines;
use crate::request::Request;
use crate::requester;
use crate::requester::into_boxed_slice;
use crate::requester::SendError;

verus! {

/// The request that a call was made of. There is one for each request that was taken up.
pub struct Origin {
    request: Ghost<Request>,
}

impl Origin {
    pub closed spec fn request(self) -> Request {
        self.request@
    }
}

/// What is handed to a requester for a request.
pub struct RequesterCall {
    pub request_id: u64,
    pub method: String,
    pub path: String,
    pub headers: Box<[String]>,
    pub body: Vec<u8>,
    pub origin: Origin,
}

/// The text and the bytes that are handed over for `request`.
pub open spec fn carries(
    request: Request,
    method: Seq<char>,
    path: Seq<char>,
    lines: Seq<Seq<char>>,
    bytes: Seq<u8>,
) -> bool {
    &&& method == request.method@
    &&& path == request.path@
    &&& lines == headers::lines_of(headers::flat(headers::header_groups(request.headers)))
    &&& bytes == body::body_bytes(request.body)
}

/// These are the parts that some call was taken apart into. Nothing else makes them known as such,
/// and what is equal to them to the eye is not.
pub closed spec fn are_parts(
    request_id: u64,
    method: String,
    path: String,
    headers: Box<[String]>,
    body: Vec<u8>,
) -> bool {
    exists|call: RequesterCall| #[trigger]
        call.has_parts(request_id, method, path, headers, body)
}

impl RequesterCall {
    /// The request that the call was made of.
    pub open spec fn spec_origin(self) -> Request {
        self.origin.request()
    }

    spec fn has_parts(
        self,
        request_id: u64,
        method: String,
        path: String,
        headers: Box<[String]>,
        body: Vec<u8>,
    ) -> bool {
        &&& self.request_id == request_id
        &&& self.method == method
        &&& self.path == path
        &&& self.headers == headers
        &&& self.body == body
    }

    /// `self` is what is handed over for `request`.
    pub open spec fn is_for(self, request: Request, request_id: u64) -> bool {
        &&& self.request_id == request_id
        &&& carries(
            request,
            self.method@,
            self.path@,
            headers::texts(self.headers@),
            self.body@,
        )
    }

    /// `self` is as it was made.
    pub open spec fn is_sound(self) -> bool {
        &&& requester::has_text_headers(self.spec_origin())
        &&& self.is_for(self.spec_origin(), self.request_id)
    }

    /// Prepares the call for a request, unless one of its headers is not text.
    pub fn new(request: Request, request_id: u64) -> (call: Result<RequesterCall, SendError>)
        ensures
            call is Ok <==> requester::has_text_headers(request),
            call matches Ok(c) ==> c.is_for(request, request_id) && c.spec_origin() == request
                && c.is_sound(),
            call matches Err(e) ==> e is RequestHasInvalidHeader,
    {
        let ghost origin = request;
        let Request { method, path, headers, body } = request;
        let lines: Vec<String> = match header_lines(&headers) {
            Some(lines) => lines,
            None => return Err(SendError::RequestHasInvalidHeader),
        };
        let body: Vec<u8> = match body {
            Some(buffer) => buffer_into_vec(buffer),
            None => Vec::new(),
        };
        assert(body@ == body::body_bytes(origin.body));
        Ok(
            RequesterCall {
                request_id,
                method: method.into_string(),
                path: path.into_string(),
                headers: into_boxed_slice(lines),
                body,
                origin: Origin { request: Ghost(origin) },
            },
        )
    }

    /// Takes the call apart, to hand the parts over.
    pub fn into_parts(self) -> (parts: (u64, String, String, Box<[String]>, Vec<u8>))
        ensures
            parts.0 == self.request_id,
            parts.1 == self.method,
            parts.2 == self.path,
            parts.3 == self.headers,
            parts.4 == self.body,
            are_parts(parts.0, parts.1, parts.2, parts.3, parts.4),
    {
        let ghost call = self;
        assert(call.has_parts(call.request_id, call.method, call.path, call.headers, call.body));
        (self.request_id, self.method, self.path, self.headers, self.body)
    }
}

/// What is handed over for a request is its number, its method and path, its body or no bytes where
/// it has none, and one line for each of its headers, in their order: the name, a colon, a space
/// and the value.
pub proof fn law_call_carries_the_request(
    call: RequesterCall,
    request: Request,
    request_id: u64,
    k: int,
)
    requires
        call.is_for(request, request_id),
    ensures
        call.request_id == request_id,
        call.method@ == request.method@,
        call.path@ == request.path@,
        request.body is None ==> call.body@.len() == 0,
        request.body matches Some(buffer) ==> call.body@ == body::buffer_bytes(buffer),
        call.headers@.len() == headers::flat(headers::header_groups(request.headers)).len(),
        0 <= k < call.headers@.len() ==> {
            let (name, value) = headers::flat(headers::header_groups(request.headers))[k];
            call.headers@[k]@ == name + seq![':', ' '] + value.map_values(|b: u8| b as char)
        },
{
    let entries = headers::flat(headers::header_groups(request.headers));
    assert(headers::texts(call.headers@).len() == headers::lines_of(entries).len());
    if 0 <= k < call.headers@.len() {
        assert(headers::texts(call.headers@)[k] == headers::lines_of(entries)[k]);
    }
}

/// Two requests that are handed over alike have the same method, path, headers and bytes.
pub proof fn law_calls_tell_requests_apart(
    call: RequesterCall,
    one: Request,
    other: Request,
    request_id: u64,
)
    requires
        call.is_for(one, request_id),
        call.is_for(other, request_id),
    ensures
        one.method@ == other.method@,
        one.path@ == other.path@,
        body::body_bytes(one.body) == body::body_bytes(other.body),
        headers::lines_of(headers::flat(headers::header_groups(one.headers)))
            == headers::lines_of(headers::flat(headers::header_groups(other.headers))),
{
}

} // verus!
