//! The canonical, gateway-independent requests and responses that the
//! orchestration platform hands to the adapter and takes back from it. Only
//! what the adapter reads or writes is held here.

use crate::errors::ErrorResponse;
use crate::status::{AttemptStatus, RefundStatus};
use crate::text::opt_text;
use vstd::prelude::*;

verus! {

/// The unit in which a connector wants amounts.
#[derive(Debug, Clone, Copy, PartialEq, Eq, Structural)]
pub enum CurrencyUnit {
    Base,
    Minor,
}

/// HTTP methods that the adapter uses.
#[derive(Debug, Clone, Copy, PartialEq, Eq, Structural)]
pub enum Method {
    Get,
    Post,
    Put,
    Delete,
}

/// Authentication data of a merchant-connector account.
#[derive(Debug, Clone, PartialEq, Eq)]
pub enum ConnectorAuthType {
    /// A key alone.
    HeaderKey { api_key: String },
    /// A key and a second value.
    BodyKey { api_key: String, key1: String },
    /// A key, a second value and a secret.
    SignatureKey { api_key: String, key1: String, api_secret: String },
    /// No authentication data.
    NoKey,
}

/// The id under which the gateway knows a payment.
#[derive(Debug, Clone, PartialEq, Eq)]
pub enum ResponseId {
    ConnectorTransactionId(String),
    EncodedData(String),
    NoResponseId,
}

/// Mathematical content of a [`ResponseId`].
pub enum ResponseIdView {
    ConnectorTransactionId(Seq<char>),
    EncodedData(Seq<char>),
    NoResponseId,
}

impl View for ResponseId {
    type V = ResponseIdView;

    open spec fn view(&self) -> ResponseIdView {
        match *self {
            ResponseId::ConnectorTransactionId(id) => ResponseIdView::ConnectorTransactionId(id@),
            ResponseId::EncodedData(data) => ResponseIdView::EncodedData(data@),
            ResponseId::NoResponseId => ResponseIdView::NoResponseId,
        }
    }
}

/// Where the customer is sent to complete a payment.
#[derive(Debug, Clone, PartialEq, Eq)]
pub struct RedirectForm {
    pub endpoint: String,
    pub method: Method,
}

/// Mathematical content of a [`RedirectForm`].
pub struct RedirectFormView {
    pub endpoint: Seq<char>,
    pub method: Method,
}

impl View for RedirectForm {
    type V = RedirectFormView;

    open spec fn view(&self) -> RedirectFormView {
        RedirectFormView { endpoint: self.endpoint@, method: self.method }
    }
}

/// The canonical response to a payment operation.
#[derive(Debug, Clone, PartialEq, Eq)]
pub enum PaymentsResponseData {
    TransactionResponse {
        resource_id: ResponseId,
        redirection_data: Option<RedirectForm>,
        connector_response_reference_id: Option<String>,
    },
}

/// Mathematical content of a [`PaymentsResponseData`].
pub enum PaymentsResponseDataView {
    TransactionResponse {
        resource_id: ResponseIdView,
        redirection_data: Option<RedirectFormView>,
        connector_response_reference_id: Option<Seq<char>>,
    },
}

impl View for PaymentsResponseData {
    type V = PaymentsResponseDataView;

    open spec fn view(&self) -> PaymentsResponseDataView {
        match *self {
            PaymentsResponseData::TransactionResponse {
                resource_id,
                redirection_data,
                connector_response_reference_id,
            } => PaymentsResponseDataView::TransactionResponse {
                resource_id: resource_id@,
                redirection_data: match redirection_data {
                    Some(form) => Some(form@),
                    None => None,
                },
                connector_response_reference_id: opt_text(connector_response_reference_id),
            },
        }
    }
}

/// The canonical response to a refund operation.
#[derive(Debug, Clone, PartialEq, Eq)]
pub struct RefundsResponseData {
    pub connector_refund_id: String,
    pub refund_status: RefundStatus,
}

/// Mathematical content of a [`RefundsResponseData`].
pub struct RefundsResponseDataView {
    pub connector_refund_id: Seq<char>,
    pub refund_status: RefundStatus,
}

impl View for RefundsResponseData {
    type V = RefundsResponseDataView;

    open spec fn view(&self) -> RefundsResponseDataView {
        RefundsResponseDataView {
            connector_refund_id: self.connector_refund_id@,
            refund_status: self.refund_status,
        }
    }
}

/// What an authorization asks for.
#[derive(Debug, Clone, PartialEq, Eq)]
pub struct PaymentsAuthorizeData {
    /// Amount in minor units.
    pub minor_amount: i64,
    /// ISO code of the currency.
    pub currency: String,
    pub router_return_url: Option<String>,
    pub email: Option<String>,
}

impl PaymentsAuthorizeData {
    /// An amount to authorize is not negative.
    pub open spec fn well_formed(self) -> bool {
        self.minor_amount >= 0
    }

    /// Whether the amount to authorize is not negative.
    pub fn is_well_formed(&self) -> (r: bool)
        ensures
            r == self.well_formed(),
    {
        self.minor_amount >= 0
    }
}

/// What a status synchronization asks for.
#[derive(Debug, Clone, PartialEq, Eq)]
pub struct PaymentsSyncData {
    pub connector_transaction_id: ResponseId,
}

/// What a capture asks for.
#[derive(Debug, Clone, PartialEq, Eq)]
pub struct PaymentsCaptureData {
    pub connector_transaction_id: String,
    pub minor_amount_to_capture: i64,
}

/// What a cancellation asks for.
#[derive(Debug, Clone, PartialEq, Eq)]
pub struct PaymentsCancelData {
    pub connector_transaction_id: String,
    pub cancellation_reason: Option<String>,
    pub minor_amount: Option<i64>,
    pub currency: Option<String>,
}

/// What a refund or a refund synchronization asks for.
#[derive(Debug, Clone, PartialEq, Eq)]
pub struct RefundsData {
    pub connector_transaction_id: String,
    pub connector_refund_id: Option<String>,
    /// Refund amount in minor units.
    pub minor_refund_amount: i64,
    /// ISO code of the currency.
    pub currency: String,
    pub reason: Option<String>,
}

/// A canonical request together with its context and, once the gateway
/// has answered, its outcome.
#[derive(Debug, PartialEq, Eq)]
pub struct RouterData<Request, Response> {
    pub merchant_id: String,
    pub connector_request_reference_id: String,
    pub connector_auth_type: ConnectorAuthType,
    /// Metadata of the merchant-connector configuration, as opaque JSON.
    pub connector_meta_data: Option<serde_json::Value>,
    /// Full name of the billing address, where there is one.
    pub billing_full_name: Option<String>,
    pub status: AttemptStatus,
    pub request: Request,
    pub response: Result<Response, ErrorResponse>,
}

impl<Request, Response> RouterData<Request, Response> {
    /// Whether `self` holds the request and the context of `other`; status
    /// and response may differ.
    pub open spec fn same_request_as(self, other: RouterData<Request, Response>) -> bool {
        &&& self.merchant_id == other.merchant_id
        &&& self.connector_request_reference_id == other.connector_request_reference_id
        &&& self.connector_auth_type == other.connector_auth_type
        &&& self.connector_meta_data == other.connector_meta_data
        &&& self.billing_full_name == other.billing_full_name
        &&& self.request == other.request
    }
}

pub type PaymentsAuthorizeRouterData = RouterData<PaymentsAuthorizeData, PaymentsResponseData>;

pub type PaymentsSyncRouterData = RouterData<PaymentsSyncData, PaymentsResponseData>;

pub type PaymentsCaptureRouterData = RouterData<PaymentsCaptureData, PaymentsResponseData>;

pub type PaymentsCancelRouterData = RouterData<PaymentsCancelData, PaymentsResponseData>;

pub type RefundsRouterData = RouterData<RefundsData, RefundsResponseData>;

/// A gateway response together with the canonical request that it answers.
#[derive(Debug, PartialEq, Eq)]
pub struct ResponseRouterData<GatewayResponse, Request, Response> {
    pub response: GatewayResponse,
    pub data: RouterData<Request, Response>,
    pub http_code: u16,
}

} // verus!
