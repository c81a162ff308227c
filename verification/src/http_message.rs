//! Requests to an endpoint, and what came of them.
use vstd::prelude::*;

use crate::json::{Json, JsonView};
use crate::serde_values;

verus! {

/// How a request is made.
#[derive(Clone, Copy, Debug, PartialEq, Eq, Structural)]
pub enum HttpMethod {
    Get,
    Post,
}

/// A request: its headers in the order in which they are added, and a JSON body
/// where it has one.
#[derive(Debug, PartialEq)]
pub struct HttpRequest {
    pub method: HttpMethod,
    pub url: String,
    pub headers: Vec<(String, String)>,
    pub body: Option<Json>,
}

/// What an [`HttpRequest`] is.
pub struct HttpRequestView {
    pub method: HttpMethod,
    pub url: Seq<char>,
    pub headers: Seq<(Seq<char>, Seq<char>)>,
    pub body: Option<JsonView>,
}

impl View for HttpRequest {
    type V = HttpRequestView;

    open spec fn view(&self) -> HttpRequestView {
        HttpRequestView {
            method: self.method,
            url: self.url@,
            headers: serde_values::pair_views(self.headers@),
            body: self.body.deep_view(),
        }
    }
}

/// What came of a request that is answered in one piece.
#[derive(Debug, PartialEq)]
pub enum HttpReply {
    /// No answer came.
    TransportFailure { is_timeout: bool, detail: String },
    /// The answer reports an error.
    ErrorStatus { status: u16, body: String },
    /// The answer reports success, but its body is no JSON text.
    Undecodable { detail: String },
    /// The answer reports success.
    Body(Json),
}

/// What an [`HttpReply`] is.
pub enum HttpReplyView {
    TransportFailure { is_timeout: bool, detail: Seq<char> },
    ErrorStatus { status: u16, body: Seq<char> },
    Undecodable { detail: Seq<char> },
    Body(JsonView),
}

impl View for HttpReply {
    type V = HttpReplyView;

    open spec fn view(&self) -> HttpReplyView {
        match self {
            HttpReply::TransportFailure { is_timeout, detail } => HttpReplyView::TransportFailure {
                is_timeout: *is_timeout,
                detail: detail@,
            },
            HttpReply::ErrorStatus { status, body } => HttpReplyView::ErrorStatus { status: *status, body: body@ },
            HttpReply::Undecodable { detail } => HttpReplyView::Undecodable { detail: detail@ },
            HttpReply::Body(value) => HttpReplyView::Body(value@),
        }
    }
}

/// Puts a header behind the others.
pub fn push_header(headers: &mut Vec<(String, String)>, name: &str, value: &str)
    ensures
        serde_values::pair_views(final(headers)@) == serde_values::pair_views(old(headers)@).push((name@, value@)),
{
    headers.push((name.to_string(), value.to_string()));
    proof {
        assert(serde_values::pair_views(headers@) =~= serde_values::pair_views(old(headers)@).push((name@, value@)));
    }
}

} // verus!
