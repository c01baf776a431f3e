//! Responses as plain values: a status code, headers and a body.

use vstd::prelude::*;

verus! {

/// An HTTP status code: a number from 100 to 999.
#[derive(Debug, Clone, Copy, PartialEq, Eq)]
pub struct StatusCode {
    code: u16,
}

impl StatusCode {
    #[verifier::type_invariant]
    spec fn in_range(self) -> bool {
        100 <= self.code < 1000
    }

    /// Whether `code` can be a status code.
    pub open spec fn spec_valid(code: u16) -> bool {
        100 <= code < 1000
    }

    /// The number of the status code.
    pub closed spec fn spec_as_u16(self) -> u16 {
        self.code
    }

    /// The status code with number `code`; `None` unless `code` is at least
    /// 100 and below 1000.
    pub fn from_u16(code: u16) -> (status: Option<StatusCode>)
        ensures
            status is Some <==> Self::spec_valid(code),
            status matches Some(s) ==> s.spec_as_u16() == code,
    {
        if 100 <= code && code < 1000 {
            Some(StatusCode { code })
        } else {
            None
        }
    }

    /// The number of the status code.
    #[verifier::when_used_as_spec(spec_as_u16)]
    pub fn as_u16(self) -> (code: u16)
        ensures
            code == self.spec_as_u16(),
            Self::spec_valid(code),
    {
        proof {
            use_type_invariant(self);
        }
        self.code
    }

    /// 200 OK.
    pub fn ok() -> (status: StatusCode)
        ensures
            status.spec_as_u16() == 200,
    {
        StatusCode { code: 200 }
    }

    /// 400 Bad Request.
    pub fn bad_request() -> (status: StatusCode)
        ensures
            status.spec_as_u16() == 400,
    {
        StatusCode { code: 400 }
    }

    /// 404 Not Found.
    pub fn not_found() -> (status: StatusCode)
        ensures
            status.spec_as_u16() == 404,
    {
        StatusCode { code: 404 }
    }

    /// 500 Internal Server Error.
    pub fn internal_server_error() -> (status: StatusCode)
        ensures
            status.spec_as_u16() == 500,
    {
        StatusCode { code: 500 }
    }
}

/// One header line of a response.
#[derive(Debug, Clone, PartialEq, Eq)]
pub struct Header {
    pub name: String,
    pub value: String,
}

impl DeepView for Header {
    type V = (Seq<char>, Seq<char>);

    open spec fn deep_view(&self) -> (Seq<char>, Seq<char>) {
        (self.name@, self.value@)
    }
}

/// A response: what the transport sends back for a request.
#[derive(Debug, Clone, PartialEq, Eq)]
pub struct Response {
    pub status: StatusCode,
    pub headers: Vec<Header>,
    pub body: Vec<u8>,
}

/// A response as a mathematical value.
pub struct ResponseView {
    pub status: u16,
    pub headers: Seq<(Seq<char>, Seq<char>)>,
    pub body: Seq<u8>,
}

impl DeepView for Response {
    type V = ResponseView;

    open spec fn deep_view(&self) -> ResponseView {
        ResponseView {
            status: self.status.spec_as_u16(),
            headers: self.headers.deep_view(),
            body: self.body@,
        }
    }
}

/// A response without headers whose body is the text `message`.
pub open spec fn spec_error_response(status: u16, message: Seq<char>) -> ResponseView {
    ResponseView { status, headers: Seq::empty(), body: vstd::utf8::encode_utf8(message) }
}

/// The response to a request that matched no route: 404, plain text.
pub open spec fn spec_not_found_response() -> ResponseView {
    spec_error_response(404, "Not Found"@)
}

/// The response given when a response could not be put together: 500, plain
/// text.
pub open spec fn spec_internal_error_response() -> ResponseView {
    spec_error_response(500, "Internal Server Error"@)
}

/// A response with the given status, no headers, and `message` as its body,
/// in UTF-8.
pub fn error_response(status: StatusCode, message: &str) -> (response: Response)
    ensures
        response.deep_view() == spec_error_response(status.spec_as_u16(), message@),
{
    let response = Response { status, headers: Vec::new(), body: message.as_bytes_vec() };
    assert(response.headers.deep_view() =~= Seq::empty());
    response
}

/// The response to a request that matched no route.
pub fn not_found_response() -> (response: Response)
    ensures
        response.deep_view() == spec_not_found_response(),
{
    error_response(StatusCode::not_found(), "Not Found")
}

/// The response given when a response could not be put together.
pub fn internal_error_response() -> (response: Response)
    ensures
        response.deep_view() == spec_internal_error_response(),
{
    error_response(StatusCode::internal_server_error(), "Internal Server Error")
}

} // verus!
