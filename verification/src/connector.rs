//! The connector: what the orchestration platform asks of the adapter for
//! each operation of the payment lifecycle.

use crate::auth::{auth_of, parsed_blob_of, WaveAuthType, WaveAuthTypeView};
use crate::canonical::{
    ConnectorAuthType, CurrencyUnit, Method, PaymentsAuthorizeRouterData, PaymentsCancelRouterData,
    PaymentsCaptureRouterData, PaymentsSyncRouterData, RefundsResponseDataView, RefundsRouterData,
    ResponseId,
    ResponseRouterData, RouterData,
};
use crate::classifier::{error_response_for, error_response_of, WaveErrorResponse};
use crate::errors::{
    ConnectorError, ConnectorErrorView, ErrorResponse, WaveAggregatedMerchantErrorView,
};
use crate::http::{
    accept_json_header, authorization_header, headers_with_auth, json_content_type_header, Request,
    RequestContent, RequestContentView, RequestView, Response,
};
use crate::json::{json_from_str, json_text_model, JsonModel};
use crate::merchant::{WaveConnectorMetadata, WaveConnectorMetadataView};
use crate::requests::{
    checkout_session_request, extract_aggregated_merchant_id, WaveCheckoutSessionRequest,
    WaveCheckoutSessionRequestView, WavePaymentsCancelRequest,
    WavePaymentsCancelRequestView, WaveRefundRequest, WaveRefundRequestView, WaveRouterData,
};
use crate::resolver::{
    context_of, validation_lookup, AggregatedMerchantFallbackStrategy, Resolution,
    ResolutionEvent, WaveAggregatedMerchantResolver, MAX_VALIDATION_ATTEMPTS,
};
use crate::responses::{
    parsed_launch_url, WaveCheckoutSessionResponse, WavePaymentStatusResponse,
    WavePaymentsCancelResponse, WaveRefundResponse, WaveSessionView,
};
use crate::status::refund_status_of;
use crate::text::{concat2, concat3, opt_text, signed_decimal};
use crate::validation::{metadata_violation, validate_wave_connector_metadata};
use vstd::prelude::*;

verus! {

/// Address of the gateway.
pub const WAVE_BASE_URL: &'static str = "https://api.wave.com/";

/// Path of the checkout sessions.
pub const WAVE_CHECKOUT_SESSIONS: &'static str = "checkout/sessions";

/// Address of the checkout sessions.
pub open spec fn checkout_sessions_url() -> Seq<char> {
    "https://api.wave.com/"@ + "checkout/sessions"@
}

/// Address of one checkout session.
pub open spec fn checkout_session_url(session_id: Seq<char>) -> Seq<char> {
    "https://api.wave.com/"@ + "checkout/sessions/"@ + session_id
}

/// Address of the cancellation of a transaction.
pub open spec fn cancel_url(transaction_id: Seq<char>) -> Seq<char> {
    "https://api.wave.com/"@ + "v1/transactions/"@ + transaction_id + "/cancel"@
}

/// Address of the refunds of a transaction.
pub open spec fn refunds_url(transaction_id: Seq<char>) -> Seq<char> {
    "https://api.wave.com/"@ + "v1/transactions/"@ + transaction_id + "/refunds"@
}

/// Address of one refund.
pub open spec fn refund_url(refund_id: Seq<char>) -> Seq<char> {
    "https://api.wave.com/"@ + "v1/refunds/"@ + refund_id
}

/// The API key of the authentication data, for the forms that the adapter
/// accepts.
pub open spec fn api_key_of(auth_type: ConnectorAuthType) -> Option<Seq<char>> {
    match auth_of(auth_type, None) {
        Some(auth) => Some(auth.api_key),
        None => None,
    }
}

/// The request of an operation that carries a payload: not to be had
/// without an API key, and then `POST`ed as JSON.
pub open spec fn payload_call(
    api_key: Option<Seq<char>>,
    url: Seq<char>,
    body: Result<RequestContentView, ConnectorErrorView>,
) -> Result<RequestView, ConnectorErrorView> {
    match api_key {
        None => Err(ConnectorErrorView::FailedToObtainAuthType),
        Some(key) => match body {
            Err(e) => Err(e),
            Ok(content) => Ok(
                RequestView {
                    method: Method::Post,
                    url,
                    headers: seq![json_content_type_header(), authorization_header(key)],
                    body: Some(content),
                },
            ),
        },
    }
}

/// The request of an operation that asks for a status: not to be had
/// without the id that its address needs, nor without an API key, and then
/// a `GET` that accepts JSON.
pub open spec fn status_call(
    api_key: Option<Seq<char>>,
    url: Result<Seq<char>, ConnectorErrorView>,
) -> Result<RequestView, ConnectorErrorView> {
    match url {
        Err(e) => Err(e),
        Ok(address) => match api_key {
            None => Err(ConnectorErrorView::FailedToObtainAuthType),
            Some(key) => Ok(
                RequestView {
                    method: Method::Get,
                    url: address,
                    headers: seq![accept_json_header(), authorization_header(key)],
                    body: None,
                },
            ),
        },
    }
}

/// The payload of an authorization.
pub open spec fn authorize_body(data: PaymentsAuthorizeRouterData) -> Result<
    RequestContentView,
    ConnectorErrorView,
> {
    match data.request.router_return_url {
        None => Err(ConnectorErrorView::InvalidConnectorConfig { config: "return_url"@ }),
        Some(return_url) => {
            let request = checkout_session_request(data.request.minor_amount, data, return_url@);
            if request.aggregated_merchant_id is None && api_key_of(data.connector_auth_type)
                is None {
                Err(ConnectorErrorView::FailedToObtainAuthType)
            } else {
                Ok(RequestContentView::CheckoutSession(request))
            }
        },
    }
}

/// The payload of an authorization under the aggregated merchant that
/// resolution has yielded: the resolved merchant takes the place of the
/// configured one; without a resolved merchant the payload stays as it is.
pub open spec fn with_resolved_merchant(
    body: Result<RequestContentView, ConnectorErrorView>,
    resolved: Option<Seq<char>>,
) -> Result<RequestContentView, ConnectorErrorView> {
    match (body, resolved) {
        (Ok(RequestContentView::CheckoutSession(request)), Some(id)) => Ok(
            RequestContentView::CheckoutSession(
                WaveCheckoutSessionRequestView { aggregated_merchant_id: Some(id), ..request },
            ),
        ),
        _ => body,
    }
}

/// The address of a status request for a payment.
pub open spec fn sync_url(id: ResponseId) -> Result<Seq<char>, ConnectorErrorView> {
    match id {
        ResponseId::ConnectorTransactionId(session_id) => Ok(checkout_session_url(session_id@)),
        _ => Err(ConnectorErrorView::MissingConnectorTransactionID),
    }
}

/// The address of a status request for a refund.
pub open spec fn refund_sync_url(refund_id: Option<Seq<char>>) -> Result<Seq<char>, ConnectorErrorView> {
    match refund_id {
        Some(id) => Ok(refund_url(id)),
        None => Err(ConnectorErrorView::MissingConnectorRefundID),
    }
}

/// What the text of a body describes when it is read by `read`.
pub open spec fn body_of<T>(body: Seq<char>, read: spec_fn(JsonModel) -> Option<T>) -> Option<T> {
    match json_text_model(body) {
        Some(m) => read(m),
        None => None,
    }
}

/// How the validation of a configuration stands.
#[derive(Debug)]
pub enum ValidationEvent {
    /// Validation begins.
    Start,
    /// The lookup that the last step asked for, after `failed_attempts`
    /// lookups that failed, has found the merchant or has failed.
    Reply { failed_attempts: u8, found: bool },
}

/// What the validation of a configuration asks of its caller.
#[derive(Debug, Clone, PartialEq, Eq)]
pub enum ValidationStep {
    /// Send `request`, and come back with the reply.
    Send { request: Request, failed_attempts: u8 },
    /// The configuration is valid.
    Valid,
}

/// Mathematical content of a [`ValidationStep`].
pub enum ValidationStepView {
    Send { request: RequestView, failed_attempts: u8 },
    Valid,
}

impl View for ValidationStep {
    type V = ValidationStepView;

    open spec fn view(&self) -> ValidationStepView {
        match *self {
            ValidationStep::Send { request, failed_attempts } => ValidationStepView::Send {
                request: request@,
                failed_attempts,
            },
            ValidationStep::Valid => ValidationStepView::Valid,
        }
    }
}

/// The failure for a configured merchant that the gateway does not know.
pub open spec fn merchant_not_accessible(merchant_id: Seq<char>) -> ConnectorErrorView {
    ConnectorErrorView::ProcessingStepFailed(
        Some("Aggregated merchant "@ + merchant_id + " not found or not accessible"@),
    )
}

/// The lookup of the configured merchant after `failed_attempts` lookups
/// that failed, or the failure where none is left.
pub open spec fn existence_step(
    auth: WaveAuthTypeView,
    merchant_id: Seq<char>,
    failed_attempts: int,
) -> Result<ValidationStepView, ConnectorErrorView> {
    match validation_lookup(auth.api_key, "https://api.wave.com/"@, merchant_id, failed_attempts) {
        Some(request) => Ok(
            ValidationStepView::Send { request, failed_attempts: failed_attempts as u8 },
        ),
        None => Err(merchant_not_accessible(merchant_id)),
    }
}

/// The step of the validation of a configuration.
///
/// With the feature disabled, and without metadata, every configuration is
/// valid. Metadata that violates a rule fails at once, before anything is
/// sent. Metadata that names a merchant is valid when a lookup finds it;
/// after three lookups that failed it is not.
pub open spec fn config_validation_step(
    auth: WaveAuthTypeView,
    metadata: Option<WaveConnectorMetadataView>,
    event: ValidationEvent,
) -> Result<ValidationStepView, ConnectorErrorView> {
    if !auth.aggregated_merchants_enabled {
        Ok(ValidationStepView::Valid)
    } else {
        match metadata {
            None => Ok(ValidationStepView::Valid),
            Some(m) => match metadata_violation(m) {
                Some(details) => Err(
                    ConnectorErrorView::ProcessingStepFailed(
                        Some(
                            (WaveAggregatedMerchantErrorView::InvalidConfiguration {
                                details,
                            }).message(),
                        ),
                    ),
                ),
                None => match m.aggregated_merchant_id {
                    None => Ok(ValidationStepView::Valid),
                    Some(id) => match event {
                        ValidationEvent::Start => existence_step(auth, id, 0),
                        ValidationEvent::Reply { failed_attempts, found } => if found {
                            Ok(ValidationStepView::Valid)
                        } else {
                            existence_step(auth, id, failed_attempts + 1)
                        },
                    },
                },
            },
        }
    }
}

/// The connector for the Wave gateway.
#[derive(Debug, Clone, Copy, PartialEq, Eq, Structural)]
pub struct Wave;

impl Wave {
    /// The connector.
    pub fn new() -> (r: &'static Wave)
        ensures
            *r == Wave,
    {
        &Wave
    }

    /// The name of the connector.
    pub fn id(&self) -> (r: &'static str)
        ensures
            r@ == "wave"@,
    {
        "wave"
    }

    /// The gateway takes amounts in minor units.
    pub fn get_currency_unit(&self) -> (r: CurrencyUnit)
        ensures
            r == CurrencyUnit::Minor,
    {
        CurrencyUnit::Minor
    }

    /// The address of the gateway.
    pub fn base_url(&self) -> (r: &'static str)
        ensures
            r@ == "https://api.wave.com/"@,
    {
        WAVE_BASE_URL
    }

    /// The header that authenticates a request. It fails with
    /// `FailedToObtainAuthType` exactly where the authentication data has a
    /// form that the adapter does not accept.
    pub fn get_auth_header(&self, auth_type: &ConnectorAuthType) -> (r: Result<
        Vec<(String, String)>,
        ConnectorError,
    >)
        ensures
            match r {
                Ok(headers) => api_key_of(*auth_type) is Some && headers.deep_view() == seq![
                    authorization_header(api_key_of(*auth_type)->0),
                ],
                Err(e) => api_key_of(*auth_type) is None && e@
                    == ConnectorErrorView::FailedToObtainAuthType,
            },
    {
        match WaveAuthType::try_from(auth_type) {
            Ok(auth) => Ok(headers_with_auth(None, auth.api_key.as_str())),
            Err(e) => Err(e),
        }
    }

    fn headers(&self, first: (&str, &str), auth_type: &ConnectorAuthType) -> (r:
        Result<Vec<(String, String)>, ConnectorError>)
        ensures
            match r {
                Ok(headers) => api_key_of(*auth_type) is Some && headers.deep_view() == seq![
                    (first.0@, first.1@),
                    authorization_header(api_key_of(*auth_type)->0),
                ],
                Err(e) => api_key_of(*auth_type) is None && e@
                    == ConnectorErrorView::FailedToObtainAuthType,
            },
    {
        match WaveAuthType::try_from(auth_type) {
            Ok(auth) => Ok(headers_with_auth(Some(first), auth.api_key.as_str())),
            Err(e) => Err(e),
        }
    }

    fn payload_request(
        &self,
        url: String,
        auth_type: &ConnectorAuthType,
        body: Result<RequestContent, ConnectorError>,
    ) -> (r: Result<Option<Request>, ConnectorError>)
        ensures
            match r {
                Ok(Some(request)) => payload_call(
                    api_key_of(*auth_type),
                    url@,
                    match body {
                        Ok(content) => Ok(content@),
                        Err(e) => Err(e@),
                    },
                ) == Ok::<RequestView, ConnectorErrorView>(request@),
                Ok(None) => false,
                Err(e) => payload_call(
                    api_key_of(*auth_type),
                    url@,
                    match body {
                        Ok(content) => Ok(content@),
                        Err(e) => Err(e@),
                    },
                ) == Err::<RequestView, ConnectorErrorView>(e@),
            },
    {
        let headers = match self.headers(("Content-Type", "application/json"), auth_type) {
            Ok(headers) => headers,
            Err(e) => {
                return Err(e);
            },
        };
        match body {
            Ok(content) => Ok(Some(Request { method: Method::Post, url, headers, body: Some(content) })),
            Err(e) => Err(e),
        }
    }

    fn status_request(
        &self,
        url: Result<String, ConnectorError>,
        auth_type: &ConnectorAuthType,
    ) -> (r: Result<Option<Request>, ConnectorError>)
        ensures
            match r {
                Ok(Some(request)) => status_call(
                    api_key_of(*auth_type),
                    match url {
                        Ok(address) => Ok(address@),
                        Err(e) => Err(e@),
                    },
                ) == Ok::<RequestView, ConnectorErrorView>(request@),
                Ok(None) => false,
                Err(e) => status_call(
                    api_key_of(*auth_type),
                    match url {
                        Ok(address) => Ok(address@),
                        Err(e) => Err(e@),
                    },
                ) == Err::<RequestView, ConnectorErrorView>(e@),
            },
    {
        let address = match url {
            Ok(address) => address,
            Err(e) => {
                return Err(e);
            },
        };
        match self.headers(("Accept", "application/json"), auth_type) {
            Ok(headers) => Ok(Some(Request { method: Method::Get, url: address, headers, body: None })),
            Err(e) => Err(e),
        }
    }

    /// The payload of an authorization: the checkout session for the
    /// request. It fails where the request has no return address and, for a
    /// request without a configured aggregated merchant, where the
    /// authentication data has a form that the adapter does not accept.
    pub fn get_request_body(&self, req: &PaymentsAuthorizeRouterData) -> (r: Result<
        RequestContent,
        ConnectorError,
    >)
        ensures
            match r {
                Ok(content) => authorize_body(*req) == Ok::<RequestContentView, ConnectorErrorView>(
                    content@,
                ),
                Err(e) => authorize_body(*req) == Err::<RequestContentView, ConnectorErrorView>(e@),
            },
    {
        let connector_router_data = match WaveRouterData::try_from(
            (&self.get_currency_unit(), req.request.currency.as_str(), req.request.minor_amount, req),
        ) {
            Ok(data) => data,
            Err(e) => {
                return Err(e);
            },
        };
        let mut connector_req = match WaveCheckoutSessionRequest::try_from(&connector_router_data) {
            Ok(request) => request,
            Err(e) => {
                return Err(e);
            },
        };
        if connector_req.aggregated_merchant_id.is_none() {
            let auth = match WaveAuthType::try_from(&req.connector_auth_type) {
                Ok(auth) => auth,
                Err(e) => {
                    return Err(e);
                },
            };
            if auth.aggregated_merchants_enabled {
                match extract_aggregated_merchant_id(req) {
                    Ok(Some(merchant_id)) => {
                        connector_req.aggregated_merchant_id = Some(merchant_id);
                    },
                    _ => {},
                }
            }
        }
        Ok(RequestContent::CheckoutSession(connector_req))
    }

    /// The request that authorizes a payment: the creation of a checkout
    /// session.
    pub fn build_authorize_request(&self, req: &PaymentsAuthorizeRouterData) -> (r: Result<
        Option<Request>,
        ConnectorError,
    >)
        ensures
            match r {
                Ok(Some(request)) => payload_call(
                    api_key_of(req.connector_auth_type),
                    checkout_sessions_url(),
                    authorize_body(*req),
                ) == Ok::<RequestView, ConnectorErrorView>(request@),
                Ok(None) => false,
                Err(e) => payload_call(
                    api_key_of(req.connector_auth_type),
                    checkout_sessions_url(),
                    authorize_body(*req),
                ) == Err::<RequestView, ConnectorErrorView>(e@),
            },
    {
        let url = concat2(self.base_url(), WAVE_CHECKOUT_SESSIONS);
        let body = self.get_request_body(req);
        self.payload_request(url, &req.connector_auth_type, body)
    }

    /// The request that authorizes a payment under the aggregated merchant
    /// that resolution has yielded, if it has yielded one.
    pub fn build_authorize_request_with_merchant(
        &self,
        req: &PaymentsAuthorizeRouterData,
        resolved: Option<String>,
    ) -> (r: Result<Option<Request>, ConnectorError>)
        ensures
            match r {
                Ok(Some(request)) => payload_call(
                    api_key_of(req.connector_auth_type),
                    checkout_sessions_url(),
                    with_resolved_merchant(authorize_body(*req), opt_text(resolved)),
                ) == Ok::<RequestView, ConnectorErrorView>(request@),
                Ok(None) => false,
                Err(e) => payload_call(
                    api_key_of(req.connector_auth_type),
                    checkout_sessions_url(),
                    with_resolved_merchant(authorize_body(*req), opt_text(resolved)),
                ) == Err::<RequestView, ConnectorErrorView>(e@),
            },
    {
        let url = concat2(self.base_url(), WAVE_CHECKOUT_SESSIONS);
        let body = match self.get_request_body(req) {
            Ok(RequestContent::CheckoutSession(mut request)) => {
                match resolved {
                    Some(id) => {
                        request.aggregated_merchant_id = Some(id);
                    },
                    None => {},
                }
                Ok(RequestContent::CheckoutSession(request))
            },
            other => other,
        };
        self.payload_request(url, &req.connector_auth_type, body)
    }

    /// The request that asks for the status of a payment. It fails with
    /// `MissingConnectorTransactionID` where the request names no
    /// transaction of the gateway.
    pub fn build_sync_request(&self, req: &PaymentsSyncRouterData) -> (r: Result<
        Option<Request>,
        ConnectorError,
    >)
        ensures
            match r {
                Ok(Some(request)) => status_call(
                    api_key_of(req.connector_auth_type),
                    sync_url(req.request.connector_transaction_id),
                ) == Ok::<RequestView, ConnectorErrorView>(request@),
                Ok(None) => false,
                Err(e) => status_call(
                    api_key_of(req.connector_auth_type),
                    sync_url(req.request.connector_transaction_id),
                ) == Err::<RequestView, ConnectorErrorView>(e@),
            },
    {
        let url = match &req.request.connector_transaction_id {
            ResponseId::ConnectorTransactionId(session_id) => Ok(
                concat3(self.base_url(), "checkout/sessions/", session_id.as_str()),
            ),
            _ => Err(ConnectorError::MissingConnectorTransactionID),
        };
        self.status_request(url, &req.connector_auth_type)
    }

    /// Capture is not offered: the gateway captures by itself.
    pub fn build_capture_request(&self, _req: &PaymentsCaptureRouterData) -> (r: Result<
        Option<Request>,
        ConnectorError,
    >)
        ensures
            r matches Err(e) && e@ == ConnectorErrorView::NotImplemented("Payment Capture"@),
    {
        Err(ConnectorError::NotImplemented("Payment Capture".to_owned()))
    }

    /// The request that cancels a payment; its payload is the reason of the
    /// cancellation.
    pub fn build_void_request(&self, req: &PaymentsCancelRouterData) -> (r: Result<
        Option<Request>,
        ConnectorError,
    >)
        ensures
            match r {
                Ok(Some(request)) => payload_call(
                    api_key_of(req.connector_auth_type),
                    cancel_url(req.request.connector_transaction_id@),
                    Ok(
                        RequestContentView::Cancel(
                            WavePaymentsCancelRequestView {
                                reason: opt_text(req.request.cancellation_reason),
                            },
                        ),
                    ),
                ) == Ok::<RequestView, ConnectorErrorView>(request@),
                Ok(None) => false,
                Err(e) => api_key_of(req.connector_auth_type) is None && e@
                    == ConnectorErrorView::FailedToObtainAuthType,
            },
    {
        let url = concat3(self.base_url(), "v1/transactions/", req.request.connector_transaction_id.as_str()).concat(
            "/cancel",
        );
        let amount = match req.request.minor_amount {
            Some(amount) => amount,
            None => 0,
        };
        let body = match WaveRouterData::try_from((&self.get_currency_unit(), "", amount, req)) {
            Ok(data) => match WavePaymentsCancelRequest::try_from(&data) {
                Ok(request) => Ok(RequestContent::Cancel(request)),
                Err(e) => Err(e),
            },
            Err(e) => Err(e),
        };
        self.payload_request(url, &req.connector_auth_type, body)
    }

    /// The request that refunds a payment; its payload is the amount of the
    /// refund and the reason.
    pub fn build_refund_request(&self, req: &RefundsRouterData) -> (r: Result<
        Option<Request>,
        ConnectorError,
    >)
        ensures
            match r {
                Ok(Some(request)) => payload_call(
                    api_key_of(req.connector_auth_type),
                    refunds_url(req.request.connector_transaction_id@),
                    Ok(
                        RequestContentView::Refund(
                            WaveRefundRequestView {
                                amount: signed_decimal(req.request.minor_refund_amount as int),
                                reason: opt_text(req.request.reason),
                            },
                        ),
                    ),
                ) == Ok::<RequestView, ConnectorErrorView>(request@),
                Ok(None) => false,
                Err(e) => api_key_of(req.connector_auth_type) is None && e@
                    == ConnectorErrorView::FailedToObtainAuthType,
            },
    {
        let url = concat3(self.base_url(), "v1/transactions/", req.request.connector_transaction_id.as_str()).concat(
            "/refunds",
        );
        let body = match WaveRouterData::try_from(
            (
                &self.get_currency_unit(),
                req.request.currency.as_str(),
                req.request.minor_refund_amount,
                req,
            ),
        ) {
            Ok(data) => match WaveRefundRequest::try_from(&data) {
                Ok(request) => Ok(RequestContent::Refund(request)),
                Err(e) => Err(e),
            },
            Err(e) => Err(e),
        };
        self.payload_request(url, &req.connector_auth_type, body)
    }

    /// The request that asks for the status of a refund. It fails with
    /// `MissingConnectorRefundID` where the request names no refund of the
    /// gateway.
    pub fn build_refund_sync_request(&self, req: &RefundsRouterData) -> (r: Result<
        Option<Request>,
        ConnectorError,
    >)
        ensures
            match r {
                Ok(Some(request)) => status_call(
                    api_key_of(req.connector_auth_type),
                    refund_sync_url(opt_text(req.request.connector_refund_id)),
                ) == Ok::<RequestView, ConnectorErrorView>(request@),
                Ok(None) => false,
                Err(e) => status_call(
                    api_key_of(req.connector_auth_type),
                    refund_sync_url(opt_text(req.request.connector_refund_id)),
                ) == Err::<RequestView, ConnectorErrorView>(e@),
            },
    {
        let url = match &req.request.connector_refund_id {
            Some(refund_id) => Ok(concat3(self.base_url(), "v1/refunds/", refund_id.as_str())),
            None => Err(ConnectorError::MissingConnectorRefundID),
        };
        self.status_request(url, &req.connector_auth_type)
    }

    /// Interprets the answer to an authorization. A body that is not the
    /// JSON of a checkout session, a status that is none of the gateway's
    /// among it, is a deserialization failure.
    pub fn handle_authorize_response(&self, data: PaymentsAuthorizeRouterData, res: &Response) -> (r:
        Result<PaymentsAuthorizeRouterData, ConnectorError>)
        ensures
            match body_of(res.response@, |m: JsonModel| WaveSessionView::decode(m)) {
                Some(session) => r matches Ok(outcome) && outcome.is_outcome_of(
                    data,
                    session.status,
                    session.id,
                    parsed_launch_url(session.launch_url),
                    session.reference,
                ),
                None => r matches Err(e) && e@ == ConnectorErrorView::ResponseDeserializationFailed,
            },
    {
        let parsed = match json_from_str(res.response.as_str()) {
            Some(v) => WaveCheckoutSessionResponse::from_json(&v),
            None => None,
        };
        match parsed {
            Some(response) => RouterData::from_checkout_session(
                ResponseRouterData { response, data, http_code: res.status_code },
            ),
            None => Err(ConnectorError::ResponseDeserializationFailed),
        }
    }

    /// Interprets the answer to a status request for a payment.
    pub fn handle_sync_response(&self, data: PaymentsSyncRouterData, res: &Response) -> (r: Result<
        PaymentsSyncRouterData,
        ConnectorError,
    >)
        ensures
            match body_of(res.response@, |m: JsonModel| WaveSessionView::decode(m)) {
                Some(session) => r matches Ok(outcome) && outcome.is_outcome_of(
                    data,
                    session.status,
                    session.id,
                    parsed_launch_url(session.launch_url),
                    session.reference,
                ),
                None => r matches Err(e) && e@ == ConnectorErrorView::ResponseDeserializationFailed,
            },
    {
        let parsed = match json_from_str(res.response.as_str()) {
            Some(v) => WavePaymentStatusResponse::from_json(&v),
            None => None,
        };
        match parsed {
            Some(response) => RouterData::from_payment_status(
                ResponseRouterData { response, data, http_code: res.status_code },
            ),
            None => Err(ConnectorError::ResponseDeserializationFailed),
        }
    }

    /// Capture is not offered: the gateway captures by itself.
    pub fn handle_capture_response(&self, _data: PaymentsCaptureRouterData, _res: &Response) -> (r:
        Result<PaymentsCaptureRouterData, ConnectorError>)
        ensures
            r matches Err(e) && e@ == ConnectorErrorView::NotImplemented("Payment Capture"@),
    {
        Err(ConnectorError::NotImplemented("Payment Capture".to_owned()))
    }

    /// Interprets the answer to a cancellation.
    pub fn handle_void_response(&self, data: PaymentsCancelRouterData, res: &Response) -> (r: Result<
        PaymentsCancelRouterData,
        ConnectorError,
    >)
        ensures
            match body_of(res.response@, |m: JsonModel| WavePaymentsCancelResponse::decode(m)) {
                Some(answer) => r matches Ok(outcome) && outcome.is_outcome_of(
                    data,
                    answer.status,
                    answer.id,
                    None,
                    None,
                ),
                None => r matches Err(e) && e@ == ConnectorErrorView::ResponseDeserializationFailed,
            },
    {
        let parsed = match json_from_str(res.response.as_str()) {
            Some(v) => WavePaymentsCancelResponse::from_json(&v),
            None => None,
        };
        match parsed {
            Some(response) => RouterData::from_cancellation(
                ResponseRouterData { response, data, http_code: res.status_code },
            ),
            None => Err(ConnectorError::ResponseDeserializationFailed),
        }
    }

    /// Interprets the answer to a refund and to a status request for one.
    pub fn handle_refund_response(&self, data: RefundsRouterData, res: &Response) -> (r: Result<
        RefundsRouterData,
        ConnectorError,
    >)
        ensures
            match body_of(res.response@, |m: JsonModel| WaveRefundResponse::decode(m)) {
                Some(answer) => r matches Ok(outcome) && outcome.same_request_as(data)
                    && outcome.status == data.status && (outcome.response matches Ok(response)
                    && response@ == (RefundsResponseDataView {
                    connector_refund_id: answer.id,
                    refund_status: refund_status_of(answer.status),
                })),
                None => r matches Err(e) && e@ == ConnectorErrorView::ResponseDeserializationFailed,
            },
    {
        let parsed = match json_from_str(res.response.as_str()) {
            Some(v) => WaveRefundResponse::from_json(&v),
            None => None,
        };
        match parsed {
            Some(response) => RouterData::from_refund(
                ResponseRouterData { response, data, http_code: res.status_code },
            ),
            None => Err(ConnectorError::ResponseDeserializationFailed),
        }
    }

    /// The canonical error for a failed call; this never fails.
    pub fn build_error_response(&self, res: &Response) -> (r: Result<ErrorResponse, ConnectorError>)
        ensures
            r matches Ok(error) && error@ == error_response_of(
                res.status_code,
                WaveErrorResponse::of_parsed(json_text_model(res.response@)),
            ),
    {
        Ok(error_response_for(res.status_code, res.response.as_str()))
    }

    /// The canonical error for a failed call.
    pub fn get_error_response(&self, res: &Response) -> (r: Result<ErrorResponse, ConnectorError>)
        ensures
            r matches Ok(error) && error@ == error_response_of(
                res.status_code,
                WaveErrorResponse::of_parsed(json_text_model(res.response@)),
            ),
    {
        self.build_error_response(res)
    }

    /// The canonical error for a call that failed on the gateway's side.
    pub fn get_5xx_error_response(&self, res: &Response) -> (r: Result<ErrorResponse, ConnectorError>)
        ensures
            r matches Ok(error) && error@ == error_response_of(
                res.status_code,
                WaveErrorResponse::of_parsed(json_text_model(res.response@)),
            ),
    {
        self.build_error_response(res)
    }

    /// Webhooks are not offered.
    pub fn get_webhook_object_reference_id(&self, _body: &str) -> (r: Result<String, ConnectorError>)
        ensures
            r matches Err(e) && e@ == ConnectorErrorView::WebhooksNotImplemented,
    {
        Err(ConnectorError::WebhooksNotImplemented)
    }

    /// Webhooks are not offered.
    pub fn get_webhook_event_type(&self, _body: &str) -> (r: Result<String, ConnectorError>)
        ensures
            r matches Err(e) && e@ == ConnectorErrorView::WebhooksNotImplemented,
    {
        Err(ConnectorError::WebhooksNotImplemented)
    }

    /// Webhooks are not offered.
    pub fn get_webhook_resource_object(&self, _body: &str) -> (r: Result<String, ConnectorError>)
        ensures
            r matches Err(e) && e@ == ConnectorErrorView::WebhooksNotImplemented,
    {
        Err(ConnectorError::WebhooksNotImplemented)
    }

    /// Answers an event of the resolution of the aggregated merchant of a
    /// payment, without fallback strategies. It fails with
    /// `FailedToObtainAuthType` exactly where the authentication data has a
    /// form that the adapter does not accept; with the feature disabled
    /// resolution is over at once, without a merchant and without a request.
    pub fn resolve_aggregated_merchant_for_payment(
        &self,
        req: &PaymentsAuthorizeRouterData,
        event: ResolutionEvent,
    ) -> (r: Result<Resolution, ConnectorError>)
        ensures
            match auth_of(req.connector_auth_type, parsed_blob_of(req.connector_auth_type)) {
                Some(auth) => r matches Ok(resolution) && resolution.step@ == context_of(
                    auth,
                    "https://api.wave.com/"@,
                    *req,
                    Seq::<AggregatedMerchantFallbackStrategy>::empty(),
                ).primary_step(event@) && resolution.notes.deep_view() == context_of(
                    auth,
                    "https://api.wave.com/"@,
                    *req,
                    Seq::<AggregatedMerchantFallbackStrategy>::empty(),
                ).primary_notes(event@),
                None => r matches Err(e) && e@ == ConnectorErrorView::FailedToObtainAuthType,
            },
    {
        let auth = match WaveAuthType::try_from(&req.connector_auth_type) {
            Ok(auth) => auth,
            Err(e) => {
                return Err(e);
            },
        };
        WaveAggregatedMerchantResolver::resolve_aggregated_merchant(&auth, self.base_url(), req, event)
    }

    /// Answers an event of the validation of the aggregated-merchant
    /// configuration of an account; see [`config_validation_step`].
    pub fn validate_aggregated_merchant_config(
        &self,
        auth: &WaveAuthType,
        metadata: &Option<WaveConnectorMetadata>,
        event: ValidationEvent,
    ) -> (r: Result<ValidationStep, ConnectorError>)
        ensures
            match r {
                Ok(step) => config_validation_step(auth@, metadata.deep_view(), event) == Ok::<
                    ValidationStepView,
                    ConnectorErrorView,
                >(step@),
                Err(e) => config_validation_step(auth@, metadata.deep_view(), event) == Err::<
                    ValidationStepView,
                    ConnectorErrorView,
                >(e@),
            },
    {
        if !auth.aggregated_merchants_enabled {
            return Ok(ValidationStep::Valid);
        }
        let meta = match metadata {
            Some(meta) => meta,
            None => {
                return Ok(ValidationStep::Valid);
            },
        };
        match validate_wave_connector_metadata(meta) {
            Err(e) => {
                return Err(ConnectorError::ProcessingStepFailed(Some(e.to_string())));
            },
            Ok(_) => {},
        }
        let merchant_id = match &meta.aggregated_merchant_id {
            Some(id) => id,
            None => {
                return Ok(ValidationStep::Valid);
            },
        };
        let failed_attempts: u8 = match event {
            ValidationEvent::Start => 0,
            ValidationEvent::Reply { failed_attempts, found } => {
                if found {
                    return Ok(ValidationStep::Valid);
                }
                if failed_attempts >= MAX_VALIDATION_ATTEMPTS {
                    MAX_VALIDATION_ATTEMPTS
                } else {
                    failed_attempts + 1
                }
            },
        };
        match WaveAggregatedMerchantResolver::validate_aggregated_merchant(
            auth,
            self.base_url(),
            merchant_id.as_str(),
            failed_attempts,
        ) {
            Some(request) => Ok(ValidationStep::Send { request, failed_attempts }),
            None => Err(
                ConnectorError::ProcessingStepFailed(
                    Some(
                        concat3(
                            "Aggregated merchant ",
                            merchant_id.as_str(),
                            " not found or not accessible",
                        ),
                    ),
                ),
            ),
        }
    }
}

} // verus!
