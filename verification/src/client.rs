//! The client: who is calling, and the request that each call issues.
//!
//! A client is a credential, a protocol version, a base URL and a transport
//! handle, fixed when it is built. Every call turns its method, path, query
//! and body into exactly one [`PreparedRequest`]; nothing is sent from here.

use vstd::prelude::*;
use vstd::string::StringExecFns;
use crate::error::{DispatchError, DispatchErrorView};
use crate::query::{push_pair, Pairs};
use crate::request::{headers_of, Expect, Method, PreparedRequest, RequestView};

verus! {

/// The `Client` of reqwest: the transport handle, carried through unopened.
#[verifier::external_type_specification]
#[verifier::external_body]
pub struct ExHttpClient(reqwest::Client);

/// The `Error` of reqwest, of which only the text is used.
#[verifier::external_type_specification]
#[verifier::external_body]
pub struct ExHttpError(reqwest::Error);

/// The user agent that a transport handle of reqwest was built to send.
pub uninterp spec fn agent_of(client: reqwest::Client) -> Seq<char>;

/// `ClientBuilder::user_agent` and `ClientBuilder::build` of reqwest: a
/// transport handle that sends `user_agent` with every request. Whether
/// one is made rests on the machine's TLS and resolver setup and is not
/// claimed; one that is made holds the user agent it was given.
#[verifier::external_body]
fn new_http_client(user_agent: &str) -> (out: Result<reqwest::Client, reqwest::Error>)
    ensures
        out matches Ok(client) ==> agent_of(client) == user_agent@,
{
    reqwest::Client::builder().user_agent(user_agent).build()
}

/// `Clone::clone` of a reqwest `Client`: a second handle on the same
/// shared state, and so one that sends the same user agent.
#[verifier::external_body]
fn clone_http_client(client: &reqwest::Client) -> (out: reqwest::Client)
    ensures
        agent_of(out) == agent_of(*client),
{
    client.clone()
}

/// The `Display` text of a reqwest `Error`. Nothing is claimed of it.
#[verifier::external_body]
fn http_error_text(error: &reqwest::Error) -> (out: String) {
    format!("{}", error)
}

/// The base URL of the API.
pub const DEFAULT_API_BASE_URL: &'static str = "https://api.anthropic.com/v1";

/// The protocol version that the API documents as current.
pub const DEFAULT_API_VERSION: &'static str = "2023-06-01";

/// The user agent of a transport that the client builds for itself.
pub const DEFAULT_USER_AGENT: &'static str = "anthropic-ai-sdk-0.2.0";

/// What a client is, but for its transport handle.
pub struct IdentityView {
    pub api_key: Seq<char>,
    pub api_version: Seq<char>,
    pub api_base_url: Seq<char>,
}

/// The client of the API. It does not change once it is built, so any
/// number of calls may share it.
#[derive(Debug)]
pub struct AnthropicClient {
    client: reqwest::Client,
    api_key: String,
    api_version: String,
    api_base_url: String,
}

/// Gathers what a client is made of.
pub struct AnthropicClientBuilder {
    api_key: String,
    api_version: String,
    api_base_url: String,
    client: Option<reqwest::Client>,
}

impl View for AnthropicClientBuilder {
    type V = IdentityView;

    closed spec fn view(&self) -> IdentityView {
        IdentityView {
            api_key: self.api_key@,
            api_version: self.api_version@,
            api_base_url: self.api_base_url@,
        }
    }
}

impl AnthropicClientBuilder {
    /// The transport handle that was supplied, if one was.
    pub closed spec fn supplied(&self) -> Option<reqwest::Client> {
        self.client
    }

    /// Whether a transport handle was supplied.
    pub open spec fn has_client(&self) -> bool {
        self.supplied() is Some
    }

    /// A builder for the given credential and protocol version, with the
    /// default base URL and no transport handle.
    pub fn new(api_key: &str, api_version: &str) -> (out: Self)
        ensures
            out@ == (IdentityView {
                api_key: api_key@,
                api_version: api_version@,
                api_base_url: DEFAULT_API_BASE_URL@,
            }),
            !out.has_client(),
    {
        AnthropicClientBuilder {
            api_key: api_key.to_string(),
            api_version: api_version.to_string(),
            api_base_url: DEFAULT_API_BASE_URL.to_string(),
            client: None,
        }
    }

    /// Sets the base URL.
    pub fn with_api_base_url(self, api_base_url: &str) -> (out: Self)
        ensures
            out@ == (IdentityView { api_base_url: api_base_url@, ..self@ }),
            out.supplied() == self.supplied(),
    {
        AnthropicClientBuilder {
            api_key: self.api_key,
            api_version: self.api_version,
            api_base_url: api_base_url.to_string(),
            client: self.client,
        }
    }

    /// Supplies the transport handle.
    pub fn with_http_client(self, client: reqwest::Client) -> (out: Self)
        ensures
            out@ == self@,
            out.supplied() == Some(client),
    {
        AnthropicClientBuilder {
            api_key: self.api_key,
            api_version: self.api_version,
            api_base_url: self.api_base_url,
            client: Some(client),
        }
    }

    /// Sets the protocol version.
    pub fn with_api_version(self, api_version: &str) -> (out: Self)
        ensures
            out@ == (IdentityView { api_version: api_version@, ..self@ }),
            out.supplied() == self.supplied(),
    {
        AnthropicClientBuilder {
            api_key: self.api_key,
            api_version: api_version.to_string(),
            api_base_url: self.api_base_url,
            client: self.client,
        }
    }

    /// Makes the client from a transport handle made for it: `made` is the
    /// handle, or the message of the failure to make one. A handle that
    /// was supplied to the builder is used in its place, and then `made`
    /// does not matter.
    pub fn assemble(self, made: Result<reqwest::Client, String>) -> (out: Result<
        AnthropicClient,
        DispatchError,
    >)
        ensures
            match (self.supplied(), made) {
                (Some(handle), _) => out matches Ok(client) && client@ == self@
                    && client.transport() == handle,
                (None, Ok(handle)) => out matches Ok(client) && client@ == self@
                    && client.transport() == handle,
                (None, Err(detail)) => out matches Err(error) && error@ == (
                DispatchErrorView::Transport { detail: detail@ }),
            },
    {
        let client = match self.client {
            Some(client) => client,
            None => match made {
                Ok(client) => client,
                Err(detail) => {
                    return Err(DispatchError::Transport { detail });
                },
            },
        };
        Ok(
            AnthropicClient {
                client,
                api_key: self.api_key,
                api_version: self.api_version,
                api_base_url: self.api_base_url,
            },
        )
    }

    /// Builds the client. With a transport handle supplied this cannot
    /// fail; without one a handle with the default user agent is made, and
    /// a failure to make it is the only error.
    pub fn build(self) -> (out: Result<AnthropicClient, DispatchError>)
        ensures
            self.supplied() matches Some(handle) ==> out matches Ok(client) && client.transport()
                == handle,
            out matches Ok(client) ==> client@ == self@,
            out matches Ok(client) ==> self.has_client() || agent_of(client.transport())
                == DEFAULT_USER_AGENT@,
            out matches Err(error) ==> error@ is Transport && !self.has_client(),
    {
        if self.client.is_some() {
            self.assemble(Err(String::new()))
        } else {
            let made = match new_http_client(DEFAULT_USER_AGENT) {
                Ok(client) => Ok(client),
                Err(error) => Err(http_error_text(&error)),
            };
            self.assemble(made)
        }
    }
}

impl View for AnthropicClient {
    type V = IdentityView;

    closed spec fn view(&self) -> IdentityView {
        IdentityView {
            api_key: self.api_key@,
            api_version: self.api_version@,
            api_base_url: self.api_base_url@,
        }
    }
}

impl Clone for AnthropicClient {
    fn clone(&self) -> (out: Self)
        ensures
            out@ == self@,
            agent_of(out.transport()) == agent_of(self.transport()),
    {
        AnthropicClient {
            client: clone_http_client(&self.client),
            api_key: self.api_key.clone(),
            api_version: self.api_version.clone(),
            api_base_url: self.api_base_url.clone(),
        }
    }
}

/// The request that a call issues: the path behind the base URL, the two
/// mandatory headers and the feature flag where one is given, the query and
/// the payload as they were handed in.
pub open spec fn issued(
    who: IdentityView,
    method: Method,
    path: Seq<char>,
    query: Option<Pairs>,
    body: Option<Seq<char>>,
    beta: Option<Seq<char>>,
    expect: Expect,
) -> RequestView {
    RequestView {
        method,
        url: who.api_base_url + path,
        headers: headers_of(who.api_key, who.api_version, beta),
        query,
        body,
        expect,
    }
}

/// What a call with a body that may have failed to encode ends in: the
/// error of the encoder, and then nothing is issued, or the one request.
pub open spec fn dispatched(
    who: IdentityView,
    method: Method,
    path: Seq<char>,
    query: Option<Pairs>,
    body: Option<Result<Seq<char>, Seq<char>>>,
    beta: Option<Seq<char>>,
    expect: Expect,
) -> Result<RequestView, DispatchErrorView> {
    match body {
        Some(Err(detail)) => Err(DispatchErrorView::Serialization { detail }),
        Some(Ok(text)) => Ok(issued(who, method, path, query, Some(text), beta, expect)),
        None => Ok(issued(who, method, path, query, None, beta, expect)),
    }
}

/// The content of a body that may have failed to encode.
pub open spec fn encoded_view(body: Option<Result<String, String>>) -> Option<
    Result<Seq<char>, Seq<char>>,
> {
    match body {
        Some(Ok(text)) => Some(Ok(text@)),
        Some(Err(detail)) => Some(Err(detail@)),
        None => None,
    }
}

/// Whether `out` is the outcome `wanted`.
pub open spec fn is_outcome(
    out: Result<PreparedRequest, DispatchError>,
    wanted: Result<RequestView, DispatchErrorView>,
) -> bool {
    match wanted {
        Ok(request) => out matches Ok(got) && got@ == request,
        Err(error) => out matches Err(got) && got@ == error,
    }
}

impl AnthropicClient {
    /// The transport handle of the client.
    pub closed spec fn transport(&self) -> reqwest::Client {
        self.client
    }

    /// The transport handle.
    pub fn get_client(&self) -> (out: &reqwest::Client)
        ensures
            *out == self.transport(),
    {
        &self.client
    }

    /// The credential.
    pub fn get_api_key(&self) -> (out: &str)
        ensures
            out@ == self@.api_key,
    {
        self.api_key.as_str()
    }

    /// The protocol version.
    pub fn get_api_version(&self) -> (out: &str)
        ensures
            out@ == self@.api_version,
    {
        self.api_version.as_str()
    }

    /// The base URL.
    pub fn get_api_base_url(&self) -> (out: &str)
        ensures
            out@ == self@.api_base_url,
    {
        self.api_base_url.as_str()
    }

    /// A builder for the given credential and protocol version.
    pub fn builder(api_key: &str, api_version: &str) -> (out: AnthropicClientBuilder)
        ensures
            out@ == (IdentityView {
                api_key: api_key@,
                api_version: api_version@,
                api_base_url: DEFAULT_API_BASE_URL@,
            }),
            !out.has_client(),
    {
        AnthropicClientBuilder::new(api_key, api_version)
    }

    /// A client with the default base URL and a transport of its own.
    pub fn new(api_key: &str, api_version: &str) -> (out: Result<Self, DispatchError>)
        ensures
            out matches Ok(client) ==> client@ == (IdentityView {
                api_key: api_key@,
                api_version: api_version@,
                api_base_url: DEFAULT_API_BASE_URL@,
            }) && agent_of(client.transport()) == DEFAULT_USER_AGENT@,
            out matches Err(error) ==> error@ is Transport,
    {
        Self::builder(api_key, api_version).build()
    }

    /// A client that presents an administrative credential. It differs from
    /// [`new`](Self::new) in nothing but the secret it is given.
    pub fn new_admin(admin_api_key: &str, api_version: &str) -> (out: Result<Self, DispatchError>)
        ensures
            out matches Ok(client) ==> client@ == (IdentityView {
                api_key: admin_api_key@,
                api_version: api_version@,
                api_base_url: DEFAULT_API_BASE_URL@,
            }) && agent_of(client.transport()) == DEFAULT_USER_AGENT@,
            out matches Err(error) ==> error@ is Transport,
    {
        Self::builder(admin_api_key, api_version).build()
    }

    /// Prepares the one request of a call.
    fn prepare(
        &self,
        method: Method,
        path: &str,
        query: Option<Vec<(String, String)>>,
        body: Option<String>,
        beta: Option<&str>,
        expect: Expect,
    ) -> (out: PreparedRequest)
        ensures
            out@ == issued(
                self@,
                method,
                path@,
                query.deep_view(),
                body.deep_view(),
                match beta {
                    Some(flag) => Some(flag@),
                    None => None,
                },
                expect,
            ),
    {
        let mut url = self.api_base_url.clone();
        url.append(path);
        let mut headers: Vec<(String, String)> = Vec::new();
        assert(headers.deep_view() =~= Seq::<(Seq<char>, Seq<char>)>::empty());
        push_pair(&mut headers, "x-api-key", self.api_key.clone());
        push_pair(&mut headers, "anthropic-version", self.api_version.clone());
        match beta {
            Some(flag) => {
                push_pair(&mut headers, "anthropic-beta", flag.to_string());
                assert(headers.deep_view() =~= headers_of(
                    self@.api_key,
                    self@.api_version,
                    Some(flag@),
                ));
            },
            None => {
                assert(headers.deep_view() =~= headers_of(self@.api_key, self@.api_version, None));
            },
        }
        PreparedRequest { method, url, headers, query, body, expect }
    }

    /// Prepares a call that expects a JSON answer. `body` is the JSON text
    /// of the payload, or the encoder's message where the payload could not
    /// be encoded; in that case the call ends here and nothing is issued.
    pub fn send_request(
        &self,
        method: Method,
        path: &str,
        query: Option<Vec<(String, String)>>,
        body: Option<Result<String, String>>,
    ) -> (out: Result<PreparedRequest, DispatchError>)
        ensures
            is_outcome(
                out,
                dispatched(
                    self@,
                    method,
                    path@,
                    query.deep_view(),
                    encoded_view(body),
                    None,
                    Expect::Json,
                ),
            ),
    {
        match body {
            Some(Err(detail)) => Err(DispatchError::Serialization { detail }),
            Some(Ok(text)) => Ok(
                self.prepare(method, path, query, Some(text), None, Expect::Json),
            ),
            None => Ok(self.prepare(method, path, query, None, None, Expect::Json)),
        }
    }

    /// Prepares a GET.
    pub fn get(&self, path: &str, query: Option<Vec<(String, String)>>) -> (out: PreparedRequest)
        ensures
            out@ == issued(
                self@,
                Method::Get,
                path@,
                query.deep_view(),
                None,
                None,
                Expect::Json,
            ),
    {
        self.prepare(Method::Get, path, query, None, None, Expect::Json)
    }

    /// Prepares a POST.
    pub fn post(&self, path: &str, body: Option<Result<String, String>>) -> (out: Result<
        PreparedRequest,
        DispatchError,
    >)
        ensures
            is_outcome(
                out,
                dispatched(
                    self@,
                    Method::Post,
                    path@,
                    None,
                    encoded_view(body),
                    None,
                    Expect::Json,
                ),
            ),
    {
        self.send_request(Method::Post, path, None, body)
    }

    /// Prepares a DELETE.
    pub fn delete(&self, path: &str, query: Option<Vec<(String, String)>>) -> (out:
        PreparedRequest)
        ensures
            out@ == issued(
                self@,
                Method::Delete,
                path@,
                query.deep_view(),
                None,
                None,
                Expect::Json,
            ),
    {
        self.prepare(Method::Delete, path, query, None, None, Expect::Json)
    }

    /// Prepares a call to an endpoint that is still experimental: the
    /// request carries `beta_header` as its third header.
    pub fn send_request_with_beta(
        &self,
        method: Method,
        path: &str,
        query: Option<Vec<(String, String)>>,
        body: Option<Result<String, String>>,
        beta_header: &str,
    ) -> (out: Result<PreparedRequest, DispatchError>)
        ensures
            is_outcome(
                out,
                dispatched(
                    self@,
                    method,
                    path@,
                    query.deep_view(),
                    encoded_view(body),
                    Some(beta_header@),
                    Expect::Json,
                ),
            ),
    {
        match body {
            Some(Err(detail)) => Err(DispatchError::Serialization { detail }),
            Some(Ok(text)) => Ok(
                self.prepare(method, path, query, Some(text), Some(beta_header), Expect::Json),
            ),
            None => Ok(self.prepare(method, path, query, None, Some(beta_header), Expect::Json)),
        }
    }

    /// Prepares a GET to an experimental endpoint.
    pub fn get_with_beta(
        &self,
        path: &str,
        query: Option<Vec<(String, String)>>,
        beta_header: &str,
    ) -> (out: PreparedRequest)
        ensures
            out@ == issued(
                self@,
                Method::Get,
                path@,
                query.deep_view(),
                None,
                Some(beta_header@),
                Expect::Json,
            ),
    {
        self.prepare(Method::Get, path, query, None, Some(beta_header), Expect::Json)
    }

    /// Prepares a call to an experimental endpoint whose answer is read as
    /// raw bytes.
    pub fn send_request_with_beta_bytes(
        &self,
        method: Method,
        path: &str,
        query: Option<Vec<(String, String)>>,
        beta_header: &str,
    ) -> (out: PreparedRequest)
        ensures
            out@ == issued(
                self@,
                method,
                path@,
                query.deep_view(),
                None,
                Some(beta_header@),
                Expect::Bytes,
            ),
    {
        self.prepare(method, path, query, None, Some(beta_header), Expect::Bytes)
    }

    /// Prepares a POST whose answer is read as a stream of events.
    pub fn send_stream_request(&self, path: &str, body: String) -> (out: PreparedRequest)
        ensures
            out@ == issued(
                self@,
                Method::Post,
                path@,
                None,
                Some(body@),
                None,
                Expect::EventStream,
            ),
    {
        self.prepare(Method::Post, path, None, Some(body), None, Expect::EventStream)
    }

    /// Prepares a download from an experimental endpoint.
    pub fn download_with_beta(&self, path: &str, beta_header: &str) -> (out: PreparedRequest)
        ensures
            out@ == issued(
                self@,
                Method::Get,
                path@,
                None,
                None,
                Some(beta_header@),
                Expect::Bytes,
            ),
    {
        self.send_request_with_beta_bytes(Method::Get, path, None, beta_header)
    }
}

/// Puts `b` behind `a`.
pub fn join2(a: &str, b: &str) -> (out: String)
    ensures
        out@ == a@ + b@,
{
    let mut out = a.to_string();
    out.append(b);
    out
}

/// Puts `a`, `b` and `c` one behind the other.
pub fn join3(a: &str, b: &str, c: &str) -> (out: String)
    ensures
        out@ == a@ + b@ + c@,
{
    let mut out = a.to_string();
    out.append(b);
    out.append(c);
    out
}

/// Puts `a`, `b`, `c` and `d` one behind the other.
pub fn join4(a: &str, b: &str, c: &str, d: &str) -> (out: String)
    ensures
        out@ == a@ + b@ + c@ + d@,
{
    let mut out = a.to_string();
    out.append(b);
    out.append(c);
    out.append(d);
    out
}

} // verus!
