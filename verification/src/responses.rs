//! The response transformers: from the gateway's answer and the canonical
//! request that it answers to the canonical response.

use crate::canonical::{
    Method, PaymentsResponseData, PaymentsResponseDataView, RedirectForm, RedirectFormView,
    RefundsResponseData, RefundsResponseDataView, ResponseId, ResponseIdView, ResponseRouterData,
    RouterData,
};
use crate::decode::{
    optional_text, read_optional_text, read_required_text, required_member, required_text,
};
use crate::errors::ConnectorError;
use crate::json::{json_member, json_model, JsonModel};
use crate::status::{
    attempt_status_of, refund_status_of, AttemptStatus, RefundStatus, WavePaymentStatus,
    WaveRefundStatus,
};
use crate::text::opt_text;
use vstd::prelude::*;

verus! {

/// What `url::Url::parse` makes of a text: the serialization of the
/// absolute URL that it holds, or `None` where it holds none.
pub uninterp spec fn url_serialization(input: Seq<char>) -> Option<Seq<char>>;

/// Calls `url::Url::parse` and takes the serialization of the URL. Assumed:
/// the outcome is a function of the text alone, named
/// [`url_serialization`]; a text that is no absolute URL gives `None`.
#[verifier::external_body]
pub(crate) fn parse_url(input: &str) -> (r: Option<String>)
    ensures
        r.deep_view() == url_serialization(input@),
{
    match url::Url::parse(input) {
        Ok(parsed) => Some(String::from(parsed)),
        Err(_) => None,
    }
}

/// The gateway's answer to the creation of a checkout session.
#[derive(Debug, Clone, PartialEq, Eq)]
pub struct WaveCheckoutSessionResponse {
    pub id: String,
    pub launch_url: Option<String>,
    pub status: WavePaymentStatus,
    pub amount: String,
    pub currency: String,
    pub reference: Option<String>,
}

/// The gateway's answer to a status request for a checkout session.
#[derive(Debug, Clone, PartialEq, Eq)]
pub struct WavePaymentStatusResponse {
    pub id: String,
    pub status: WavePaymentStatus,
    pub amount: String,
    pub currency: String,
    pub reference: Option<String>,
    pub launch_url: Option<String>,
}

/// Mathematical content of a [`WaveCheckoutSessionResponse`] and of a
/// [`WavePaymentStatusResponse`], which hold the same members.
pub struct WaveSessionView {
    pub id: Seq<char>,
    pub launch_url: Option<Seq<char>>,
    pub status: WavePaymentStatus,
    pub amount: Seq<char>,
    pub currency: Seq<char>,
    pub reference: Option<Seq<char>>,
}

impl DeepView for WaveCheckoutSessionResponse {
    type V = WaveSessionView;

    open spec fn deep_view(&self) -> WaveSessionView {
        WaveSessionView {
            id: self.id@,
            launch_url: opt_text(self.launch_url),
            status: self.status,
            amount: self.amount@,
            currency: self.currency@,
            reference: opt_text(self.reference),
        }
    }
}

impl View for WaveCheckoutSessionResponse {
    type V = WaveSessionView;

    open spec fn view(&self) -> WaveSessionView {
        self.deep_view()
    }
}

impl DeepView for WavePaymentStatusResponse {
    type V = WaveSessionView;

    open spec fn deep_view(&self) -> WaveSessionView {
        WaveSessionView {
            id: self.id@,
            launch_url: opt_text(self.launch_url),
            status: self.status,
            amount: self.amount@,
            currency: self.currency@,
            reference: opt_text(self.reference),
        }
    }
}

impl View for WavePaymentStatusResponse {
    type V = WaveSessionView;

    open spec fn view(&self) -> WaveSessionView {
        self.deep_view()
    }
}

impl WaveSessionView {
    /// The session that a JSON value describes: an object with the members
    /// `id`, `status`, `amount` and `currency` and the optional members
    /// `launch_url` and `reference`. A status that is no payment status of
    /// the gateway makes the whole value unreadable.
    pub open spec fn decode(m: JsonModel) -> Option<WaveSessionView> {
        let id = required_text(m, "id"@);
        let launch_url = optional_text(m, "launch_url"@);
        let status = required_member(m, "status"@, |x: JsonModel| WavePaymentStatus::decode(x));
        let amount = required_text(m, "amount"@);
        let currency = required_text(m, "currency"@);
        let reference = optional_text(m, "reference"@);
        if id is Some && launch_url is Some && status is Some && amount is Some && currency is Some
            && reference is Some {
            Some(
                WaveSessionView {
                    id: id->0,
                    launch_url: launch_url->0,
                    status: status->0,
                    amount: amount->0,
                    currency: currency->0,
                    reference: reference->0,
                },
            )
        } else {
            None
        }
    }
}

impl WaveCheckoutSessionResponse {
    /// Reads the answer from a JSON value.
    pub fn from_json(v: &serde_json::Value) -> (r: Option<WaveCheckoutSessionResponse>)
        ensures
            r.deep_view() == WaveSessionView::decode(json_model(*v)),
    {
        let id = match read_required_text(v, "id") {
            Some(x) => x,
            None => return None,
        };
        let launch_url = match read_optional_text(v, "launch_url") {
            Some(x) => x,
            None => return None,
        };
        let status = match WavePaymentStatus::read_member(v, "status") {
            Some(x) => x,
            None => return None,
        };
        let amount = match read_required_text(v, "amount") {
            Some(x) => x,
            None => return None,
        };
        let currency = match read_required_text(v, "currency") {
            Some(x) => x,
            None => return None,
        };
        let reference = match read_optional_text(v, "reference") {
            Some(x) => x,
            None => return None,
        };
        Some(WaveCheckoutSessionResponse { id, launch_url, status, amount, currency, reference })
    }
}

impl WavePaymentStatusResponse {
    /// Reads the answer from a JSON value.
    pub fn from_json(v: &serde_json::Value) -> (r: Option<WavePaymentStatusResponse>)
        ensures
            r.deep_view() == WaveSessionView::decode(json_model(*v)),
    {
        match WaveCheckoutSessionResponse::from_json(v) {
            Some(session) => Some(
                WavePaymentStatusResponse {
                    id: session.id,
                    status: session.status,
                    amount: session.amount,
                    currency: session.currency,
                    reference: session.reference,
                    launch_url: session.launch_url,
                },
            ),
            None => None,
        }
    }
}

/// The gateway's answer to a cancellation.
#[derive(Debug, Clone, PartialEq, Eq)]
pub struct WavePaymentsCancelResponse {
    pub id: String,
    pub status: WavePaymentStatus,
}

/// Mathematical content of a [`WavePaymentsCancelResponse`].
pub struct WavePaymentsCancelResponseView {
    pub id: Seq<char>,
    pub status: WavePaymentStatus,
}

impl DeepView for WavePaymentsCancelResponse {
    type V = WavePaymentsCancelResponseView;

    open spec fn deep_view(&self) -> WavePaymentsCancelResponseView {
        WavePaymentsCancelResponseView { id: self.id@, status: self.status }
    }
}

impl View for WavePaymentsCancelResponse {
    type V = WavePaymentsCancelResponseView;

    open spec fn view(&self) -> WavePaymentsCancelResponseView {
        self.deep_view()
    }
}

impl WavePaymentsCancelResponse {
    /// The answer that a JSON value describes: an object with the members
    /// `id` and `status`.
    pub open spec fn decode(m: JsonModel) -> Option<WavePaymentsCancelResponseView> {
        let id = required_text(m, "id"@);
        let status = required_member(m, "status"@, |x: JsonModel| WavePaymentStatus::decode(x));
        if id is Some && status is Some {
            Some(WavePaymentsCancelResponseView { id: id->0, status: status->0 })
        } else {
            None
        }
    }

    /// Reads the answer from a JSON value.
    pub fn from_json(v: &serde_json::Value) -> (r: Option<WavePaymentsCancelResponse>)
        ensures
            r.deep_view() == Self::decode(json_model(*v)),
    {
        let id = match read_required_text(v, "id") {
            Some(x) => x,
            None => return None,
        };
        let status = match WavePaymentStatus::read_member(v, "status") {
            Some(x) => x,
            None => return None,
        };
        Some(WavePaymentsCancelResponse { id, status })
    }
}

/// The gateway's answer to a refund and to a status request for one.
#[derive(Debug, Clone, PartialEq, Eq)]
pub struct WaveRefundResponse {
    pub id: String,
    pub status: WaveRefundStatus,
    pub amount: String,
    pub currency: String,
    pub transaction_id: Option<String>,
}

/// Mathematical content of a [`WaveRefundResponse`].
pub struct WaveRefundResponseView {
    pub id: Seq<char>,
    pub status: WaveRefundStatus,
    pub amount: Seq<char>,
    pub currency: Seq<char>,
    pub transaction_id: Option<Seq<char>>,
}

impl DeepView for WaveRefundResponse {
    type V = WaveRefundResponseView;

    open spec fn deep_view(&self) -> WaveRefundResponseView {
        WaveRefundResponseView {
            id: self.id@,
            status: self.status,
            amount: self.amount@,
            currency: self.currency@,
            transaction_id: opt_text(self.transaction_id),
        }
    }
}

impl View for WaveRefundResponse {
    type V = WaveRefundResponseView;

    open spec fn view(&self) -> WaveRefundResponseView {
        self.deep_view()
    }
}

impl WaveRefundResponse {
    /// The answer that a JSON value describes: an object with the members
    /// `id`, `status`, `amount` and `currency` and the optional member
    /// `transaction_id`.
    pub open spec fn decode(m: JsonModel) -> Option<WaveRefundResponseView> {
        let id = required_text(m, "id"@);
        let status = required_member(m, "status"@, |x: JsonModel| WaveRefundStatus::decode(x));
        let amount = required_text(m, "amount"@);
        let currency = required_text(m, "currency"@);
        let transaction_id = optional_text(m, "transaction_id"@);
        if id is Some && status is Some && amount is Some && currency is Some
            && transaction_id is Some {
            Some(
                WaveRefundResponseView {
                    id: id->0,
                    status: status->0,
                    amount: amount->0,
                    currency: currency->0,
                    transaction_id: transaction_id->0,
                },
            )
        } else {
            None
        }
    }

    /// Reads the answer from a JSON value.
    pub fn from_json(v: &serde_json::Value) -> (r: Option<WaveRefundResponse>)
        ensures
            r.deep_view() == Self::decode(json_model(*v)),
    {
        let id = match read_required_text(v, "id") {
            Some(x) => x,
            None => return None,
        };
        let status = match WaveRefundStatus::read_member(v, "status") {
            Some(x) => x,
            None => return None,
        };
        let amount = match read_required_text(v, "amount") {
            Some(x) => x,
            None => return None,
        };
        let currency = match read_required_text(v, "currency") {
            Some(x) => x,
            None => return None,
        };
        let transaction_id = match read_optional_text(v, "transaction_id") {
            Some(x) => x,
            None => return None,
        };
        Some(WaveRefundResponse { id, status, amount, currency, transaction_id })
    }
}

/// A status that is none of the gateway's statuses makes the answer that
/// holds it unreadable: no canonical status is made up for it.
pub proof fn lemma_unknown_status_is_unreadable(m: JsonModel)
    requires
        json_member(m, "status"@) is Some,
    ensures
        WavePaymentStatus::decode(json_member(m, "status"@)->0) is None ==> WaveSessionView::decode(
            m,
        ) is None && WavePaymentsCancelResponse::decode(m) is None,
        WaveRefundStatus::decode(json_member(m, "status"@)->0) is None
            ==> WaveRefundResponse::decode(m) is None,
{
}

/// Where the customer is sent for a launch address, given what the address
/// parses to: to the parsed address, by `GET`. An address that does not
/// parse gives no redirection; it is no failure.
pub open spec fn redirection_of(parsed_launch_url: Option<Seq<char>>) -> Option<RedirectFormView> {
    match parsed_launch_url {
        Some(endpoint) => Some(RedirectFormView { endpoint, method: Method::Get }),
        None => None,
    }
}

/// What an optional launch address parses to.
pub open spec fn parsed_launch_url(launch_url: Option<Seq<char>>) -> Option<Seq<char>> {
    match launch_url {
        Some(url) => url_serialization(url),
        None => None,
    }
}

/// The canonical response for a session of the gateway.
pub open spec fn transaction_response_view(
    id: Seq<char>,
    redirect: Option<Seq<char>>,
    reference: Option<Seq<char>>,
) -> PaymentsResponseDataView {
    PaymentsResponseDataView::TransactionResponse {
        resource_id: ResponseIdView::ConnectorTransactionId(id),
        redirection_data: redirection_of(redirect),
        connector_response_reference_id: reference,
    }
}

/// Builds the canonical response for a session of the gateway: its id, the
/// redirection to the parsed launch address where there is one, and the
/// reference that the gateway echoed.
pub fn transaction_response(id: String, redirect: Option<String>, reference: Option<String>) -> (r:
    PaymentsResponseData)
    ensures
        r@ == transaction_response_view(id@, opt_text(redirect), opt_text(reference)),
{
    let redirection_data = match redirect {
        Some(endpoint) => Some(RedirectForm { endpoint, method: Method::Get }),
        None => None,
    };
    PaymentsResponseData::TransactionResponse {
        resource_id: ResponseId::ConnectorTransactionId(id),
        redirection_data,
        connector_response_reference_id: reference,
    }
}

/// Parses an optional launch address.
pub fn parse_launch_url(launch_url: &Option<String>) -> (r: Option<String>)
    ensures
        opt_text(r) == parsed_launch_url(opt_text(*launch_url)),
{
    match launch_url {
        Some(url) => parse_url(url.as_str()),
        None => None,
    }
}

impl<Request> RouterData<Request, PaymentsResponseData> {
    /// Whether `self` is `data` with the outcome that the gateway reported:
    /// the canonical status of `status`, and a response with the id, the
    /// redirection and the reference given.
    pub open spec fn is_outcome_of(
        self,
        data: RouterData<Request, PaymentsResponseData>,
        status: WavePaymentStatus,
        id: Seq<char>,
        redirect: Option<Seq<char>>,
        reference: Option<Seq<char>>,
    ) -> bool {
        &&& self.same_request_as(data)
        &&& self.status == attempt_status_of(status)
        &&& self.response matches Ok(response) && response@ == transaction_response_view(
            id,
            redirect,
            reference,
        )
    }

    /// Transforms the answer to the creation of a checkout session; this
    /// never fails.
    pub fn from_checkout_session(
        item: ResponseRouterData<WaveCheckoutSessionResponse, Request, PaymentsResponseData>,
    ) -> (r: Result<RouterData<Request, PaymentsResponseData>, ConnectorError>)
        ensures
            r matches Ok(data) && data.is_outcome_of(
                item.data,
                item.response.status,
                item.response.id@,
                parsed_launch_url(opt_text(item.response.launch_url)),
                opt_text(item.response.reference),
            ),
    {
        let status = AttemptStatus::from(item.response.status);
        let redirect = parse_launch_url(&item.response.launch_url);
        let response = transaction_response(item.response.id, redirect, item.response.reference);
        let data = item.data;
        Ok(
            RouterData {
                merchant_id: data.merchant_id,
                connector_request_reference_id: data.connector_request_reference_id,
                connector_auth_type: data.connector_auth_type,
                connector_meta_data: data.connector_meta_data,
                billing_full_name: data.billing_full_name,
                status,
                request: data.request,
                response: Ok(response),
            },
        )
    }

    /// Transforms the answer to a status request; this never fails.
    pub fn from_payment_status(
        item: ResponseRouterData<WavePaymentStatusResponse, Request, PaymentsResponseData>,
    ) -> (r: Result<RouterData<Request, PaymentsResponseData>, ConnectorError>)
        ensures
            r matches Ok(data) && data.is_outcome_of(
                item.data,
                item.response.status,
                item.response.id@,
                parsed_launch_url(opt_text(item.response.launch_url)),
                opt_text(item.response.reference),
            ),
    {
        let status = AttemptStatus::from(item.response.status);
        let redirect = parse_launch_url(&item.response.launch_url);
        let response = transaction_response(item.response.id, redirect, item.response.reference);
        let data = item.data;
        Ok(
            RouterData {
                merchant_id: data.merchant_id,
                connector_request_reference_id: data.connector_request_reference_id,
                connector_auth_type: data.connector_auth_type,
                connector_meta_data: data.connector_meta_data,
                billing_full_name: data.billing_full_name,
                status,
                request: data.request,
                response: Ok(response),
            },
        )
    }

    /// Transforms the answer to a cancellation, which carries neither a
    /// redirection nor a reference; this never fails.
    pub fn from_cancellation(
        item: ResponseRouterData<WavePaymentsCancelResponse, Request, PaymentsResponseData>,
    ) -> (r: Result<RouterData<Request, PaymentsResponseData>, ConnectorError>)
        ensures
            r matches Ok(data) && data.is_outcome_of(
                item.data,
                item.response.status,
                item.response.id@,
                None,
                None,
            ),
    {
        let status = AttemptStatus::from(item.response.status);
        let response = transaction_response(item.response.id, None, None);
        let data = item.data;
        Ok(
            RouterData {
                merchant_id: data.merchant_id,
                connector_request_reference_id: data.connector_request_reference_id,
                connector_auth_type: data.connector_auth_type,
                connector_meta_data: data.connector_meta_data,
                billing_full_name: data.billing_full_name,
                status,
                request: data.request,
                response: Ok(response),
            },
        )
    }
}

impl<Request> RouterData<Request, RefundsResponseData> {
    /// Transforms the answer to a refund or to a status request for one:
    /// the response holds the id of the refund and the canonical status;
    /// the request and the status of the payment stay. This never fails.
    pub fn from_refund(item: ResponseRouterData<WaveRefundResponse, Request, RefundsResponseData>) -> (r:
        Result<RouterData<Request, RefundsResponseData>, ConnectorError>)
        ensures
            r matches Ok(data) && data.same_request_as(item.data) && data.status == item.data.status
                && (data.response matches Ok(response) && response@ == (RefundsResponseDataView {
                connector_refund_id: item.response.id@,
                refund_status: refund_status_of(item.response.status),
            })),
    {
        let refund_status = RefundStatus::from(item.response.status);
        let data = item.data;
        Ok(
            RouterData {
                merchant_id: data.merchant_id,
                connector_request_reference_id: data.connector_request_reference_id,
                connector_auth_type: data.connector_auth_type,
                connector_meta_data: data.connector_meta_data,
                billing_full_name: data.billing_full_name,
                status: data.status,
                request: data.request,
                response: Ok(
                    RefundsResponseData { connector_refund_id: item.response.id, refund_status },
                ),
            },
        )
    }
}

} // verus!
