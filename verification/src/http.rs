//! Plain descriptions of HTTP exchanges. The library says what is to be
//! sent and reads what came back; sending is the caller's work.

use crate::text::opt_text;
use vstd::prelude::*;

verus! {

/// The method of a request.
#[derive(Debug, Clone, Copy, PartialEq, Eq, Structural)]
pub enum HttpMethod {
    Get,
    Post,
    Put,
    Delete,
}

/// A request to send.
#[derive(Debug, Clone, PartialEq)]
pub struct HttpRequest {
    pub method: HttpMethod,
    pub url: String,
    /// The header fields, as names and values, in order.
    pub headers: Vec<(String, String)>,
    pub body: Option<String>,
}

/// The model of an [`HttpRequest`].
pub struct HttpRequestView {
    pub method: HttpMethod,
    pub url: Seq<char>,
    pub headers: Seq<(Seq<char>, Seq<char>)>,
    pub body: Option<Seq<char>>,
}

/// The models of header fields.
pub open spec fn headers_view(headers: Seq<(String, String)>) -> Seq<(Seq<char>, Seq<char>)> {
    Seq::new(headers.len(), |i: int| (headers[i].0@, headers[i].1@))
}

impl View for HttpRequest {
    type V = HttpRequestView;

    open spec fn view(&self) -> HttpRequestView {
        HttpRequestView {
            method: self.method,
            url: self.url@,
            headers: headers_view(self.headers@),
            body: opt_text(self.body),
        }
    }
}

/// Adds a header field.
pub fn add_header(headers: &mut Vec<(String, String)>, name: &str, value: &str)
    ensures
        headers_view(final(headers)@) == headers_view(old(headers)@).push((name@, value@)),
{
    headers.push((name.to_owned(), value.to_owned()));
    assert(headers_view(headers@) =~= headers_view(old(headers)@).push((name@, value@)));
}

/// What came back for a request.
#[derive(Debug, Clone, PartialEq)]
pub struct HttpReply {
    /// The status code.
    pub status: u16,
    /// The status in words, such as `404 Not Found`.
    pub status_text: String,
    /// The body, as text.
    pub body: String,
}

/// The model of an [`HttpReply`].
pub struct HttpReplyView {
    pub status: u16,
    pub status_text: Seq<char>,
    pub body: Seq<char>,
}

impl View for HttpReply {
    type V = HttpReplyView;

    open spec fn view(&self) -> HttpReplyView {
        HttpReplyView { status: self.status, status_text: self.status_text@, body: self.body@ }
    }
}

impl HttpReplyView {
    /// Whether the status is one of success, 200 to 299.
    pub open spec fn success(self) -> bool {
        200 <= self.status <= 299
    }
}

impl HttpReply {
    /// Whether the status is one of success, 200 to 299.
    pub fn is_success(&self) -> (r: bool)
        ensures
            r == self@.success(),
    {
        200 <= self.status && self.status <= 299
    }
}

} // verus!
