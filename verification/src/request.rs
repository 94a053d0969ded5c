//! The request that a call issues, as a plain value.

use vstd::prelude::*;
use crate::query::{optional_pair, Pairs};

verus! {

/// The HTTP method of a request.
#[derive(Debug, Clone, Copy, PartialEq, Eq, Structural)]
pub enum Method {
    Get,
    Post,
    Delete,
}

/// How the body of a success response is to be read.
#[derive(Debug, Clone, Copy, PartialEq, Eq, Structural)]
pub enum Expect {
    /// As text that holds a JSON document.
    Json,
    /// As raw bytes.
    Bytes,
    /// As a stream of server-sent events.
    EventStream,
}

/// One request, ready for the transport: everything that is sent, and how
/// the answer is to be read.
#[derive(Debug, PartialEq, Eq)]
pub struct PreparedRequest {
    pub method: Method,
    /// The base URL with the path put behind it.
    pub url: String,
    /// The headers, in the order in which they are attached.
    pub headers: Vec<(String, String)>,
    /// The query parameters, if the call has any.
    pub query: Option<Vec<(String, String)>>,
    /// The JSON payload, if the call has one.
    pub body: Option<String>,
    pub expect: Expect,
}

/// The mathematical content of a [`PreparedRequest`].
pub struct RequestView {
    pub method: Method,
    pub url: Seq<char>,
    pub headers: Pairs,
    pub query: Option<Pairs>,
    pub body: Option<Seq<char>>,
    pub expect: Expect,
}

impl View for PreparedRequest {
    type V = RequestView;

    open spec fn view(&self) -> RequestView {
        RequestView {
            method: self.method,
            url: self.url@,
            headers: self.headers.deep_view(),
            query: self.query.deep_view(),
            body: self.body.deep_view(),
            expect: self.expect,
        }
    }
}

/// The headers of a request: the credential, the protocol version, and the
/// feature flag where one is given. Nothing else is attached.
pub open spec fn headers_of(key: Seq<char>, version: Seq<char>, beta: Option<Seq<char>>) -> Pairs {
    seq![("x-api-key"@, key), ("anthropic-version"@, version)] + optional_pair(
        "anthropic-beta"@,
        beta,
    )
}

/// Every request carries the two mandatory headers in front; one with a
/// feature flag carries exactly three, the third holding the flag as it
/// was given, and one without carries exactly two.
pub proof fn lemma_header_count(key: Seq<char>, version: Seq<char>, beta: Option<Seq<char>>)
    ensures
        headers_of(key, version, beta)[0] == ("x-api-key"@, key),
        headers_of(key, version, beta)[1] == ("anthropic-version"@, version),
        beta is None ==> headers_of(key, version, beta).len() == 2,
        beta matches Some(flag) ==> headers_of(key, version, beta).len() == 3 && headers_of(
            key,
            version,
            beta,
        )[2] == ("anthropic-beta"@, flag),
{
}

} // verus!
