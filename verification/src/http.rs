//! Plain descriptions of the HTTP exchanges with the gateway. The adapter
//! prepares requests and interprets outcomes; sending is left to the
//! caller's transport.

use crate::canonical::Method;
use crate::merchant::{
    WaveAggregatedMerchantRequest, WaveAggregatedMerchantRequestView,
    WaveAggregatedMerchantUpdateRequest, WaveAggregatedMerchantUpdateRequestView,
};
use crate::requests::{
    WaveCheckoutSessionRequest, WaveCheckoutSessionRequestView, WavePaymentsCancelRequest,
    WavePaymentsCancelRequestView, WaveRefundRequest, WaveRefundRequestView,
};
use crate::text::concat2;
use vstd::prelude::*;

verus! {

/// The payload of a request, to be sent as JSON.
#[derive(Debug, Clone, PartialEq, Eq)]
pub enum RequestContent {
    CheckoutSession(WaveCheckoutSessionRequest),
    Cancel(WavePaymentsCancelRequest),
    Refund(WaveRefundRequest),
    CreateMerchant(WaveAggregatedMerchantRequest),
    UpdateMerchant(WaveAggregatedMerchantUpdateRequest),
}

/// Mathematical content of a [`RequestContent`].
pub enum RequestContentView {
    CheckoutSession(WaveCheckoutSessionRequestView),
    Cancel(WavePaymentsCancelRequestView),
    Refund(WaveRefundRequestView),
    CreateMerchant(WaveAggregatedMerchantRequestView),
    UpdateMerchant(WaveAggregatedMerchantUpdateRequestView),
}

impl DeepView for RequestContent {
    type V = RequestContentView;

    open spec fn deep_view(&self) -> RequestContentView {
        match *self {
            RequestContent::CheckoutSession(r) => RequestContentView::CheckoutSession(r@),
            RequestContent::Cancel(r) => RequestContentView::Cancel(r@),
            RequestContent::Refund(r) => RequestContentView::Refund(r@),
            RequestContent::CreateMerchant(r) => RequestContentView::CreateMerchant(r@),
            RequestContent::UpdateMerchant(r) => RequestContentView::UpdateMerchant(r@),
        }
    }
}

impl View for RequestContent {
    type V = RequestContentView;

    open spec fn view(&self) -> RequestContentView {
        self.deep_view()
    }
}

/// A request to the gateway.
#[derive(Debug, Clone, PartialEq, Eq)]
pub struct Request {
    pub method: Method,
    pub url: String,
    pub headers: Vec<(String, String)>,
    pub body: Option<RequestContent>,
}

/// Mathematical content of a [`Request`].
pub struct RequestView {
    pub method: Method,
    pub url: Seq<char>,
    pub headers: Seq<(Seq<char>, Seq<char>)>,
    pub body: Option<RequestContentView>,
}

impl DeepView for Request {
    type V = RequestView;

    open spec fn deep_view(&self) -> RequestView {
        RequestView {
            method: self.method,
            url: self.url@,
            headers: self.headers.deep_view(),
            body: self.body.deep_view(),
        }
    }
}

impl View for Request {
    type V = RequestView;

    open spec fn view(&self) -> RequestView {
        self.deep_view()
    }
}

/// An answer of the gateway: the status code and the text of the body.
#[derive(Debug, Clone, PartialEq, Eq)]
pub struct Response {
    pub status_code: u16,
    pub response: String,
}

/// How the transport fared with a request.
#[derive(Debug, Clone, PartialEq, Eq)]
pub enum TransportOutcome {
    /// The request could not be sent.
    SendFailed,
    /// An answer came, but its body could not be read.
    BodyUnreadable,
    /// An answer came.
    Received(Response),
}

/// Status codes of success: 200 to 299.
pub open spec fn is_success_status(status_code: u16) -> bool {
    200 <= status_code < 300
}

/// Whether a status code is one of success.
pub fn is_success(status_code: u16) -> (r: bool)
    ensures
        r == is_success_status(status_code),
{
    200 <= status_code && status_code < 300
}

/// The header that authenticates a request with the API key.
pub open spec fn authorization_header(api_key: Seq<char>) -> (Seq<char>, Seq<char>) {
    ("Authorization"@, "Bearer "@ + api_key)
}

/// The header that announces a JSON payload.
pub open spec fn json_content_type_header() -> (Seq<char>, Seq<char>) {
    ("Content-Type"@, "application/json"@)
}

/// The header that asks for a JSON answer.
pub open spec fn accept_json_header() -> (Seq<char>, Seq<char>) {
    ("Accept"@, "application/json"@)
}

/// Builds the header that authenticates a request with the API key.
pub fn bearer_header(api_key: &str) -> (r: (String, String))
    ensures
        r.deep_view() == authorization_header(api_key@),
{
    ("Authorization".to_owned(), concat2("Bearer ", api_key))
}

/// Builds a list of headers: an optional first header, then the
/// authentication with the API key.
pub fn headers_with_auth(first: Option<(&str, &str)>, api_key: &str) -> (r: Vec<(String, String)>)
    ensures
        r.deep_view() == match first {
            Some(h) => seq![(h.0@, h.1@), authorization_header(api_key@)],
            None => seq![authorization_header(api_key@)],
        },
{
    let mut headers: Vec<(String, String)> = Vec::new();
    match first {
        Some(h) => {
            headers.push((h.0.to_owned(), h.1.to_owned()));
        },
        None => {},
    }
    headers.push(bearer_header(api_key));
    headers
}

} // verus!
