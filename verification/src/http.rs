//! One HTTP exchange as plain values: what is to be sent, and what came back.
//!
//! Nothing here touches the network. A request is a description that the
//! host carries out; a response is what the host reports of the answer.

use crate::credentials::Service;
use crate::error::{ApiError, ApiErrorView};
use crate::json::{document, Json, JsonView};
use crate::views::{result_view, views_of};
use vstd::prelude::*;
use vstd::string::*;

verus! {

/// The request methods that the clients use.
#[derive(Clone, Copy, Debug, PartialEq, Eq, Structural)]
pub enum Method {
    Get,
    Post,
}

/// A named text: one query parameter or one header.
#[derive(Clone, Debug, PartialEq, Eq)]
pub struct Field {
    pub name: String,
    pub value: String,
}

impl View for Field {
    type V = (Seq<char>, Seq<char>);

    open spec fn view(&self) -> (Seq<char>, Seq<char>) {
        (self.name@, self.value@)
    }
}

/// A request that the host is to send.
#[derive(Debug, PartialEq, Eq)]
pub struct HttpRequest {
    pub method: Method,
    /// The address, without a query string.
    pub url: String,
    /// The query parameters, not yet encoded.
    pub query: Vec<Field>,
    pub headers: Vec<Field>,
    /// The document to send as a JSON body, if any.
    pub body: Option<Json>,
}

/// The mathematical value of an [`HttpRequest`].
pub struct HttpRequestView {
    pub method: Method,
    pub url: Seq<char>,
    pub query: Seq<(Seq<char>, Seq<char>)>,
    pub headers: Seq<(Seq<char>, Seq<char>)>,
    pub body: Option<JsonView>,
}

impl View for HttpRequest {
    type V = HttpRequestView;

    open spec fn view(&self) -> HttpRequestView {
        HttpRequestView {
            method: self.method,
            url: self.url@,
            query: views_of(self.query@),
            headers: views_of(self.headers@),
            body: match self.body {
                Some(json) => Some(json@),
                None => None,
            },
        }
    }
}

/// The body of a response, as far as the host could read it.
#[derive(Clone, Debug, PartialEq, Eq)]
pub enum Body {
    /// The bytes of the whole body.
    Bytes(Vec<u8>),
    /// The body could not be read; the text says why.
    Unreadable(String),
}

/// The mathematical value of a [`Body`].
pub enum BodyView {
    Bytes(Seq<u8>),
    Unreadable(Seq<char>),
}

impl View for Body {
    type V = BodyView;

    open spec fn view(&self) -> BodyView {
        match self {
            Body::Bytes(bytes) => BodyView::Bytes(bytes@),
            Body::Unreadable(reason) => BodyView::Unreadable(reason@),
        }
    }
}

/// A response that the host received.
#[derive(Clone, Debug, PartialEq, Eq)]
pub struct HttpResponse {
    pub status: u16,
    pub body: Body,
}

/// The mathematical value of an [`HttpResponse`].
pub struct HttpResponseView {
    pub status: u16,
    pub body: BodyView,
}

impl View for HttpResponse {
    type V = HttpResponseView;

    open spec fn view(&self) -> HttpResponseView {
        HttpResponseView { status: self.status, body: self.body@ }
    }
}

/// Whether a status code lies in the success class, 200 to 299.
pub open spec fn status_is_success(status: u16) -> bool {
    200 <= status < 300
}

/// Tells whether `status` lies in the success class.
pub fn is_success(status: u16) -> (ok: bool)
    ensures
        ok == status_is_success(status),
{
    200 <= status && status < 300
}

/// The document in a body: a body that could not be read is a transport
/// failure, and bytes that are no JSON text a decoding failure.
pub open spec fn body_document(body: BodyView) -> Result<JsonView, ApiErrorView> {
    match body {
        BodyView::Unreadable(reason) => Err(ApiErrorView::Transport { reason }),
        BodyView::Bytes(bytes) => match document(bytes) {
            Some(doc) => Ok(doc),
            None => Err(ApiErrorView::Decode),
        },
    }
}

/// The document that `service` answered with: a status outside the success
/// class is a failure of its own, whatever the body holds.
pub open spec fn answer_document(service: Service, response: HttpResponseView) -> Result<
    JsonView,
    ApiErrorView,
> {
    if status_is_success(response.status) {
        body_document(response.body)
    } else {
        Err(ApiErrorView::Http { service, status: response.status })
    }
}

impl Body {
    /// Reads the body as a JSON document.
    pub fn document(&self) -> (r: Result<Json, ApiError>)
        ensures
            result_view(r) == body_document(self@),
    {
        match self {
            Body::Unreadable(reason) => Err(ApiError::Transport { reason: reason.clone() }),
            Body::Bytes(bytes) => match Json::parse(bytes.as_slice()) {
                Some(doc) => Ok(doc),
                None => Err(ApiError::Decode),
            },
        }
    }
}

impl HttpResponse {
    /// Reads the JSON document that `service` answered with.
    pub fn document(&self, service: Service) -> (r: Result<Json, ApiError>)
        ensures
            result_view(r) == answer_document(service, self@),
    {
        if is_success(self.status) {
            self.body.document()
        } else {
            Err(ApiError::Http { service, status: self.status })
        }
    }
}

/// The value of the `Authorization` header that carries `token`.
pub open spec fn bearer(token: Seq<char>) -> Seq<char> {
    "Bearer "@ + token
}

/// Builds the `Authorization` header for `token`.
pub fn authorization(token: &str) -> (field: Field)
    ensures
        field@ == ("Authorization"@, bearer(token@)),
{
    Field {
        name: String::from_str("Authorization"),
        value: String::from_str("Bearer ").concat(token),
    }
}

/// What `http::StatusCode` prints for the number `status`: the number and its
/// canonical reason phrase where the number is a status code, and the text of
/// the refusal where it is none.
pub uninterp spec fn status_text(status: u16) -> Seq<char>;

/// `reqwest::StatusCode::from_u16`, followed by the `Display` text of what it
/// returns, the status code or the error. The contract claims only that the
/// text is a function of the number.
#[verifier::external_body]
pub(crate) fn status_line(status: u16) -> (line: String)
    ensures
        line@ == status_text(status),
{
    match reqwest::StatusCode::from_u16(status) {
        Ok(code) => code.to_string(),
        Err(refusal) => refusal.to_string(),
    }
}

} // verus!
