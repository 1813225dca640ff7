//! The request description received from the caller and the response
//! description handed back.

use vstd::prelude::*;
use crate::headers::Headers;

verus! {

/// What the caller asks to have forwarded.
#[derive(Debug)]
pub struct HttpRequest {
    /// The target, handed to the transport as it is.
    pub url: String,
    /// Headers to send, if any.
    pub headers: Option<Headers>,
    /// The payload, if any.
    pub body: Option<String>,
    /// The method token; letter case does not matter.
    pub method: String,
}

/// The texts of an `HttpRequest`.
pub struct HttpRequestView {
    pub url: Seq<char>,
    pub headers: Option<Seq<(Seq<char>, Seq<char>)>>,
    pub body: Option<Seq<char>>,
    pub method: Seq<char>,
}

impl View for HttpRequest {
    type V = HttpRequestView;

    open spec fn view(&self) -> HttpRequestView {
        HttpRequestView {
            url: self.url@,
            headers: match self.headers {
                Some(h) => Some(h@),
                None => None,
            },
            body: match self.body {
                Some(b) => Some(b@),
                None => None,
            },
            method: self.method@,
        }
    }
}

impl Clone for HttpRequest {
    /// A copy with the same texts.
    fn clone(&self) -> (copy: HttpRequest)
        ensures
            copy@ == self@,
    {
        HttpRequest {
            url: self.url.clone(),
            headers: match &self.headers {
                Some(h) => Some(h.clone()),
                None => None,
            },
            body: match &self.body {
                Some(b) => Some(b.clone()),
                None => None,
            },
            method: self.method.clone(),
        }
    }
}

/// What the remote host answered.
#[derive(Debug)]
pub struct HttpResponse {
    /// Always `true` in a response that is handed back.
    pub success: bool,
    /// The numeric status code.
    pub status: u16,
    /// The decoded body.
    pub body: String,
    /// The response headers, one value per name.
    pub headers: Headers,
}

/// The texts of an `HttpResponse`.
pub struct HttpResponseView {
    pub success: bool,
    pub status: u16,
    pub body: Seq<char>,
    pub headers: Seq<(Seq<char>, Seq<char>)>,
}

impl View for HttpResponse {
    type V = HttpResponseView;

    open spec fn view(&self) -> HttpResponseView {
        HttpResponseView {
            success: self.success,
            status: self.status,
            body: self.body@,
            headers: self.headers@,
        }
    }
}

impl Clone for HttpResponse {
    /// A copy with the same status and texts.
    fn clone(&self) -> (copy: HttpResponse)
        ensures
            copy@ == self@,
    {
        HttpResponse {
            success: self.success,
            status: self.status,
            body: self.body.clone(),
            headers: self.headers.clone(),
        }
    }
}

} // verus!
