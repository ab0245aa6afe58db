//! HTTP responses as plain values.

use crate::misc::app_error::{not_found, AppError, AppErrorView};
use vstd::prelude::*;

verus! {

/// HTTP status of a request that was served.
pub const OK: u16 = 200;

/// HTTP status that sends the caller elsewhere.
pub const FOUND: u16 = 302;

/// What is sent back for an HTTP request.
#[derive(Debug, PartialEq, Eq)]
pub struct HttpResponse {
    pub status: u16,
    /// The `Content-Type` header, if it is sent.
    pub content_type: Option<String>,
    /// The `Location` header, if it is sent.
    pub location: Option<String>,
    pub body: String,
}

/// A response as plain values.
pub struct HttpResponseView {
    pub status: u16,
    pub content_type: Option<Seq<char>>,
    pub location: Option<Seq<char>>,
    pub body: Seq<char>,
}

impl View for HttpResponse {
    type V = HttpResponseView;

    open spec fn view(&self) -> HttpResponseView {
        HttpResponseView {
            status: self.status,
            content_type: self.content_type.deep_view(),
            location: self.location.deep_view(),
            body: self.body@,
        }
    }
}

impl HttpResponseView {
    /// Success without content.
    pub open spec fn ok() -> HttpResponseView {
        HttpResponseView { status: OK, content_type: None, location: None, body: Seq::empty() }
    }

    /// `body` as JSON, under `status`.
    pub open spec fn json(status: u16, body: Seq<char>) -> HttpResponseView {
        HttpResponseView {
            status,
            content_type: Some("application/json"@),
            location: None,
            body,
        }
    }

    /// A redirection to `url`.
    pub open spec fn found(url: Seq<char>) -> HttpResponseView {
        HttpResponseView {
            status: FOUND,
            content_type: None,
            location: Some(url),
            body: Seq::empty(),
        }
    }
}

/// Success without content.
pub fn ok_response() -> (response: HttpResponse)
    ensures
        response@ == HttpResponseView::ok(),
{
    HttpResponse { status: OK, content_type: None, location: None, body: String::new() }
}

/// Success with `json` as the body.
pub fn json_response(json: String) -> (response: HttpResponse)
    ensures
        response@ == HttpResponseView::json(OK, json@),
{
    HttpResponse {
        status: OK,
        content_type: Some("application/json".to_owned()),
        location: None,
        body: json,
    }
}

/// The report of `error`, whose encoding as JSON is `json`.
pub fn error_response(error: &AppError, json: String) -> (response: HttpResponse)
    ensures
        response@ == HttpResponseView::json(error.code, json@),
{
    HttpResponse {
        status: error.code,
        content_type: Some("application/json".to_owned()),
        location: None,
        body: json,
    }
}

/// The answer to a request for a portrait: a redirection to it, or the
/// report that there is none.
pub fn photo_response(photo: Option<String>) -> (response: Result<HttpResponse, AppError>)
    ensures
        match photo {
            Some(url) => response is Ok && response->Ok_0@ == HttpResponseView::found(url@),
            None => response is Err && response->Err_0@ == AppErrorView::not_found("Not found"@),
        },
{
    match photo {
        None => not_found(),
        Some(url) => Ok(
            HttpResponse {
                status: FOUND,
                content_type: None,
                location: Some(url),
                body: String::new(),
            },
        ),
    }
}

} // verus!
