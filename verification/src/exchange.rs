//! The two halves of forwarding a request: the plan that is handed to the
//! transport, and the response assembled from what the transport reports.

use vstd::prelude::*;
use vstd::utf8::*;
use crate::error::ErrorKind;
use crate::headers::{upsert, Headers};
use crate::message::{HttpRequest, HttpRequestView, HttpResponse, HttpResponseView};
use crate::text::{all_visible_ascii, ascii_text, decode_body, decode_header_value};
use crate::verb::{recognized_verb, resolve, Verb};

verus! {

/// A validated request, ready for the transport.
#[derive(Debug)]
pub struct OutboundRequest {
    /// The verb that the method token stands for.
    pub verb: Verb,
    /// The target, unchanged.
    pub url: String,
    /// The headers to apply, in this order.
    pub headers: Headers,
    /// The payload; `None` attaches no payload.
    pub body: Option<String>,
}

/// The texts of an `OutboundRequest`.
pub struct OutboundRequestView {
    pub verb: Verb,
    pub url: Seq<char>,
    pub headers: Seq<(Seq<char>, Seq<char>)>,
    pub body: Option<Seq<char>>,
}

impl View for OutboundRequest {
    type V = OutboundRequestView;

    open spec fn view(&self) -> OutboundRequestView {
        OutboundRequestView {
            verb: self.verb,
            url: self.url@,
            headers: self.headers@,
            body: match self.body {
                Some(b) => Some(b@),
                None => None,
            },
        }
    }
}

/// A response header as the transport yields it.
#[derive(Debug)]
pub struct RawHeader {
    pub name: String,
    pub value: Vec<u8>,
}

/// A complete response as the transport yields it, before any decoding.
#[derive(Debug)]
pub struct RawResponse {
    pub status: u16,
    /// The headers in the order in which the transport yields them; a name
    /// may occur more than once.
    pub headers: Vec<RawHeader>,
    /// The whole body.
    pub body: Vec<u8>,
}

/// The contents of a `RawResponse`.
pub struct RawResponseView {
    pub status: u16,
    pub headers: Seq<(Seq<char>, Seq<u8>)>,
    pub body: Seq<u8>,
}

/// The names and value bytes of a list of raw headers.
pub open spec fn raw_headers_view(headers: Seq<RawHeader>) -> Seq<(Seq<char>, Seq<u8>)> {
    Seq::new(headers.len(), |i: int| (headers[i].name@, headers[i].value@))
}

impl View for RawResponse {
    type V = RawResponseView;

    open spec fn view(&self) -> RawResponseView {
        RawResponseView {
            status: self.status,
            headers: raw_headers_view(self.headers@),
            body: self.body@,
        }
    }
}

/// How the transport's attempt at one exchange ended.
#[derive(Debug)]
pub enum TransportOutcome {
    /// No response arrived: the connection, the request or the reading of
    /// the response failed.
    Failed,
    /// The round trip completed with this response.
    Received(RawResponse),
}

/// The contents of a `TransportOutcome`.
pub enum TransportOutcomeView {
    Failed,
    Received(RawResponseView),
}

impl View for TransportOutcome {
    type V = TransportOutcomeView;

    open spec fn view(&self) -> TransportOutcomeView {
        match self {
            TransportOutcome::Failed => TransportOutcomeView::Failed,
            TransportOutcome::Received(raw) => TransportOutcomeView::Received(raw@),
        }
    }
}

/// The plan for a request: its method token resolved to a verb, everything
/// else carried over. A request without headers plans an empty list. A token
/// that stands for no verb gives `InvalidMethod` and no plan.
pub open spec fn planned(request: HttpRequestView) -> Result<OutboundRequestView, ErrorKind> {
    match recognized_verb(request.method) {
        Some(verb) => Ok(
            OutboundRequestView {
                verb,
                url: request.url,
                headers: match request.headers {
                    Some(h) => h,
                    None => Seq::empty(),
                },
                body: request.body,
            },
        ),
        None => Err(ErrorKind::InvalidMethod),
    }
}

/// The header mapping collected from raw headers: each value is written
/// under its name in the order of the list, so the last value of a name is
/// the one that stays.
pub open spec fn collected(raw: Seq<(Seq<char>, Seq<u8>)>) -> Seq<(Seq<char>, Seq<char>)>
    decreases raw.len(),
{
    if raw.len() == 0 {
        Seq::empty()
    } else {
        upsert(collected(raw.drop_last()), raw.last().0, ascii_text(raw.last().1))
    }
}

/// Every raw header value is visible ASCII.
pub open spec fn all_values_visible(raw: Seq<(Seq<char>, Seq<u8>)>) -> bool {
    forall|i: int| 0 <= i < raw.len() ==> all_visible_ascii((#[trigger] raw[i]).1)
}

/// A raw response can be turned into text: its header values are visible
/// ASCII and its body is valid UTF-8.
pub open spec fn decodable(raw: RawResponseView) -> bool {
    all_values_visible(raw.headers) && valid_utf8(raw.body)
}

/// The response description assembled from a raw response.
pub open spec fn assembled(raw: RawResponseView) -> Result<HttpResponseView, ErrorKind> {
    if decodable(raw) {
        Ok(
            HttpResponseView {
                success: true,
                status: raw.status,
                body: decode_utf8(raw.body),
                headers: collected(raw.headers),
            },
        )
    } else {
        Err(ErrorKind::DecodeFailed)
    }
}

/// What is handed back to the caller for each way the exchange can end.
pub open spec fn concluded(outcome: TransportOutcomeView) -> Result<HttpResponseView, ErrorKind> {
    match outcome {
        TransportOutcomeView::Failed => Err(ErrorKind::TransportFailed),
        TransportOutcomeView::Received(raw) => assembled(raw),
    }
}

/// The result of forwarding `request` when the transport, if it is asked at
/// all, reports `outcome`.
pub open spec fn forwarded(request: HttpRequestView, outcome: TransportOutcomeView) -> Result<
    HttpResponseView,
    ErrorKind,
> {
    match planned(request) {
        Ok(_) => concluded(outcome),
        Err(e) => Err(e),
    }
}

/// Validates a request and plans the outbound request. Nothing is sent.
pub fn prepare(request: HttpRequest) -> (plan: Result<OutboundRequest, ErrorKind>)
    ensures
        match planned(request@) {
            Ok(p) => plan matches Ok(out) && out@ == p,
            Err(e) => plan matches Err(f) && f == e,
        },
{
    match resolve(request.method.as_str()) {
        Some(verb) => {
            let headers = match request.headers {
                Some(h) => h,
                None => Headers::new(),
            };
            Ok(OutboundRequest { verb, url: request.url, headers, body: request.body })
        },
        None => Err(ErrorKind::InvalidMethod),
    }
}

/// Collects raw response headers into a mapping, decoding each value.
fn collect_headers(raw: &Vec<RawHeader>) -> (headers: Result<Headers, ErrorKind>)
    ensures
        all_values_visible(raw_headers_view(raw@)) ==> (headers matches Ok(h) && h@ == collected(
            raw_headers_view(raw@),
        )),
        !all_values_visible(raw_headers_view(raw@)) ==> (headers matches Err(e) && e
            == ErrorKind::DecodeFailed),
{
    let ghost all = raw_headers_view(raw@);
    let mut headers = Headers::new();
    let mut i: usize = 0;
    while i < raw.len()
        invariant
            i <= raw.len(),
            all == raw_headers_view(raw@),
            forall|j: int| 0 <= j < i ==> all_visible_ascii((#[trigger] all[j]).1),
            headers@ == collected(all.take(i as int)),
        decreases raw.len() - i,
    {
        let value = match decode_header_value(raw[i].value.as_slice()) {
            Ok(v) => v,
            Err(e) => {
                assert(!all_visible_ascii(all[i as int].1));
                return Err(e);
            },
        };
        headers.insert(raw[i].name.clone(), value);
        proof {
            assert(all.take(i + 1).drop_last() =~= all.take(i as int));
        }
        i += 1;
    }
    proof {
        assert(all.take(raw.len() as int) =~= all);
    }
    Ok(headers)
}

/// Turns the transport's report into what the caller receives.
pub fn conclude(outcome: TransportOutcome) -> (response: Result<HttpResponse, ErrorKind>)
    ensures
        match concluded(outcome@) {
            Ok(r) => response matches Ok(out) && out@ == r,
            Err(e) => response matches Err(f) && f == e,
        },
{
    match outcome {
        TransportOutcome::Failed => Err(ErrorKind::TransportFailed),
        TransportOutcome::Received(raw) => {
            let headers = match collect_headers(&raw.headers) {
                Ok(h) => h,
                Err(e) => {
                    return Err(e);
                },
            };
            let body = match decode_body(raw.body.as_slice()) {
                Ok(b) => b,
                Err(e) => {
                    return Err(e);
                },
            };
            Ok(HttpResponse { success: true, status: raw.status, body, headers })
        },
    }
}

/// Forwards a request through `transport`: plans it, hands the plan to the
/// transport, and turns the report into the response. The transport is asked
/// at most once, and only with the plan of the request: it need not accept
/// anything else, and nothing at all where the method token stands for no
/// verb.
pub fn forward<T: FnOnce(OutboundRequest) -> TransportOutcome>(
    request: HttpRequest,
    transport: T,
) -> (response: Result<HttpResponse, ErrorKind>)
    requires
        forall|plan: OutboundRequest|
            planned(request@) == Ok::<OutboundRequestView, ErrorKind>(plan@) ==> call_requires(
                transport,
                (plan,),
            ),
    ensures
        planned(request@) matches Err(e) ==> (response matches Err(f) && f == e),
        planned(request@) matches Ok(p) ==> exists|plan: OutboundRequest, outcome: TransportOutcome|
            plan@ == p && call_ensures(transport, (plan,), outcome) && match concluded(outcome@) {
                Ok(r) => response matches Ok(out) && out@ == r,
                Err(e) => response matches Err(f) && f == e,
            },
{
    let plan = match prepare(request) {
        Ok(p) => p,
        Err(e) => {
            return Err(e);
        },
    };
    let ghost sent = plan;
    let outcome = transport(plan);
    let ghost got = outcome;
    let response = conclude(outcome);
    proof {
        assert(sent@ == planned(request@)->Ok_0 && call_ensures(transport, (sent,), got));
    }
    response
}

} // verus!
