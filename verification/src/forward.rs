//! The plan of the outbound request and the answer to the client: what the
//! proxy decides between reading a request and relaying the response.

use vstd::prelude::*;
use crate::errors::AppError;
use crate::headers::{header_views, select, selected, Header};
use crate::registry::ProviderTable;
use crate::resolver::{get_upstream_url, resolved_url, upstream_of};

verus! {

/// An HTTP method. `Other` stands for every method without a name here.
#[derive(Debug, Clone, Copy, PartialEq, Eq, Structural)]
pub enum Method {
    Get,
    Post,
    Put,
    Delete,
    Head,
    Options,
    Connect,
    Patch,
    Trace,
    Other,
}

impl Method {
    /// Whether the proxy sends this method upstream as it is.
    pub open spec fn is_supported(self) -> bool {
        self == Method::Get || self == Method::Post || self == Method::Put || self
            == Method::Delete
    }

    /// The method of the outbound request: the inbound method where it is
    /// supported, `Get` in place of any other.
    pub open spec fn outbound(self) -> Method {
        if self.is_supported() {
            self
        } else {
            Method::Get
        }
    }
}

/// Maps the method of the inbound request to that of the outbound one:
/// `Get`, `Post`, `Put` and `Delete` stay, every other method becomes `Get`.
pub fn outbound_method(method: Method) -> (mapped: Method)
    ensures
        mapped == method.outbound(),
{
    match method {
        Method::Get => Method::Get,
        Method::Post => Method::Post,
        Method::Put => Method::Put,
        Method::Delete => Method::Delete,
        _ => Method::Get,
    }
}

/// The outbound method is always a supported one, and mapping it again
/// changes nothing.
pub proof fn lemma_outbound_method_is_supported(method: Method)
    ensures
        method.outbound().is_supported(),
        method.outbound().outbound() == method.outbound(),
        method.is_supported() <==> method.outbound() == method,
{
}

/// The text that answers a request for the root path.
pub fn index() -> (greeting: &'static str)
    ensures
        greeting@ == "Hello, llmproxify!"@,
{
    "Hello, llmproxify!"
}

/// Everything that the upstream call needs: method, target, headers, body
/// and the egress proxy to route through, if one is configured.
#[derive(Debug, Clone, PartialEq, Eq)]
pub struct OutboundRequest {
    pub method: Method,
    pub url: String,
    pub headers: Vec<Header>,
    pub body: Vec<u8>,
    pub proxy: Option<String>,
}

/// Plans the outbound request for a resolved URL: maps the method, selects
/// the headers, and passes body and egress proxy on as they are.
pub fn plan_request(
    method: Method,
    url: String,
    headers: &Vec<Header>,
    body: Vec<u8>,
    proxy: Option<String>,
) -> (request: OutboundRequest)
    ensures
        request.method == method.outbound(),
        request.url == url,
        header_views(request.headers@) == selected(header_views(headers@)),
        request.body == body,
        request.proxy == proxy,
{
    OutboundRequest {
        method: outbound_method(method),
        url,
        headers: select(headers),
        body,
        proxy,
    }
}

/// Resolves an inbound request into the outbound one, or into the error that
/// ends it before any upstream call is made.
pub fn prepare(
    table: &ProviderTable,
    provider: &str,
    rest: &str,
    query: Option<&str>,
    method: Method,
    headers: &Vec<Header>,
    body: Vec<u8>,
    proxy: Option<String>,
) -> (outcome: Result<OutboundRequest, AppError>)
    requires
        table.wf(),
    ensures
        match outcome {
            Ok(request) => {
                &&& upstream_of(
                    table@,
                    provider@,
                    rest@,
                    match query {
                        Some(q) => Some(q@),
                        None => None,
                    },
                ) == Some(Ok::<Seq<char>, url::ParseError>(request.url@))
                &&& request.method == method.outbound()
                &&& header_views(request.headers@) == selected(header_views(headers@))
                &&& request.body == body
                &&& request.proxy == proxy
            },
            Err(AppError::ProviderNotFound(missing)) => !table@.contains_key(provider@)
                && missing@ == provider@,
            Err(AppError::UrlParseError(error)) => table@.contains_key(provider@) && resolved_url(
                table@[provider@],
                rest@,
            ) == Err::<Seq<char>, url::ParseError>(error),
            Err(_) => false,
        },
{
    match get_upstream_url(table, provider, rest, query) {
        Ok(url) => Ok(plan_request(method, url, headers, body, proxy)),
        Err(error) => Err(error),
    }
}

/// Status and headers of a response.
#[derive(Debug, Clone, PartialEq, Eq)]
pub struct ResponseHead {
    pub status: u16,
    pub headers: Vec<Header>,
}

/// What the client gets: the upstream response relayed, its body streamed
/// behind the head, or the report of an error.
#[derive(Debug, Clone, PartialEq, Eq)]
pub enum ClientResponse {
    Relay(ResponseHead),
    Failure { status: u16, message: String },
}

/// Decides the answer to the client from the outcome of the upstream call:
/// status and headers of the upstream response are passed on unchanged, an
/// error is reported with its status and message.
pub fn relay(outcome: Result<ResponseHead, AppError>) -> (response: ClientResponse)
    ensures
        match outcome {
            Ok(head) => response == ClientResponse::Relay(head),
            Err(error) => response matches ClientResponse::Failure { status, message }
                && status == error.status_code() && message@ == error.message_text(),
        },
{
    match outcome {
        Ok(head) => ClientResponse::Relay(head),
        Err(error) => {
            let (status, message) = error.error_response();
            ClientResponse::Failure { status, message }
        },
    }
}

} // verus!
