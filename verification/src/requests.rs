//! The request builders: from a canonical request to the payload that the
//! gateway expects for the operation.

use crate::canonical::{
    CurrencyUnit, PaymentsAuthorizeRouterData, PaymentsCancelRouterData, RefundsRouterData,
};
use crate::errors::{ConnectorError, ConnectorErrorView};
use crate::json::json_model;
use crate::merchant::{WaveConnectorMetadata, WaveConnectorMetadataView};
use crate::text::{clone_opt_text, decimal, i64_to_string, opt_text, signed_decimal};
use vstd::prelude::*;

verus! {

/// A canonical request with the amount in the unit that the gateway wants.
#[derive(Debug)]
pub struct WaveRouterData<T> {
    /// Amount in minor units.
    pub amount: i64,
    pub router_data: T,
}

impl<T> WaveRouterData<T> {
    /// Pairs a request with its amount. The gateway takes amounts in minor
    /// units whatever the unit of the connector, so the amount is kept as
    /// it is; this never fails.
    pub fn try_from(input: (&CurrencyUnit, &str, i64, T)) -> (r: Result<WaveRouterData<T>, ConnectorError>)
        ensures
            r matches Ok(data) && data.amount == input.2 && data.router_data == input.3,
    {
        let (_currency_unit, _currency, amount, item) = input;
        Ok(WaveRouterData { amount, router_data: item })
    }
}

/// The customer of a checkout session.
#[derive(Debug, Clone, PartialEq, Eq)]
pub struct WaveCustomer {
    pub name: Option<String>,
    pub email: Option<String>,
}

/// Mathematical content of a [`WaveCustomer`].
pub struct WaveCustomerView {
    pub name: Option<Seq<char>>,
    pub email: Option<Seq<char>>,
}

impl DeepView for WaveCustomer {
    type V = WaveCustomerView;

    open spec fn deep_view(&self) -> WaveCustomerView {
        WaveCustomerView { name: opt_text(self.name), email: opt_text(self.email) }
    }
}

impl View for WaveCustomer {
    type V = WaveCustomerView;

    open spec fn view(&self) -> WaveCustomerView {
        self.deep_view()
    }
}

/// The payload that creates a checkout session.
#[derive(Debug, Clone, PartialEq, Eq)]
pub struct WaveCheckoutSessionRequest {
    pub amount: String,
    pub currency: String,
    pub error_url: Option<String>,
    pub success_url: Option<String>,
    pub reference: Option<String>,
    pub aggregated_merchant_id: Option<String>,
    pub customer: Option<WaveCustomer>,
}

/// Mathematical content of a [`WaveCheckoutSessionRequest`].
pub struct WaveCheckoutSessionRequestView {
    pub amount: Seq<char>,
    pub currency: Seq<char>,
    pub error_url: Option<Seq<char>>,
    pub success_url: Option<Seq<char>>,
    pub reference: Option<Seq<char>>,
    pub aggregated_merchant_id: Option<Seq<char>>,
    pub customer: Option<WaveCustomerView>,
}

impl DeepView for WaveCheckoutSessionRequest {
    type V = WaveCheckoutSessionRequestView;

    open spec fn deep_view(&self) -> WaveCheckoutSessionRequestView {
        WaveCheckoutSessionRequestView {
            amount: self.amount@,
            currency: self.currency@,
            error_url: opt_text(self.error_url),
            success_url: opt_text(self.success_url),
            reference: opt_text(self.reference),
            aggregated_merchant_id: opt_text(self.aggregated_merchant_id),
            customer: self.customer.deep_view(),
        }
    }
}

impl View for WaveCheckoutSessionRequest {
    type V = WaveCheckoutSessionRequestView;

    open spec fn view(&self) -> WaveCheckoutSessionRequestView {
        self.deep_view()
    }
}

/// The payload that cancels a payment.
#[derive(Debug, Clone, PartialEq, Eq)]
pub struct WavePaymentsCancelRequest {
    pub reason: Option<String>,
}

/// Mathematical content of a [`WavePaymentsCancelRequest`].
pub struct WavePaymentsCancelRequestView {
    pub reason: Option<Seq<char>>,
}

impl DeepView for WavePaymentsCancelRequest {
    type V = WavePaymentsCancelRequestView;

    open spec fn deep_view(&self) -> WavePaymentsCancelRequestView {
        WavePaymentsCancelRequestView { reason: opt_text(self.reason) }
    }
}

impl View for WavePaymentsCancelRequest {
    type V = WavePaymentsCancelRequestView;

    open spec fn view(&self) -> WavePaymentsCancelRequestView {
        self.deep_view()
    }
}

/// The payload that refunds a payment.
#[derive(Debug, Clone, PartialEq, Eq)]
pub struct WaveRefundRequest {
    pub amount: String,
    pub reason: Option<String>,
}

/// Mathematical content of a [`WaveRefundRequest`].
pub struct WaveRefundRequestView {
    pub amount: Seq<char>,
    pub reason: Option<Seq<char>>,
}

impl DeepView for WaveRefundRequest {
    type V = WaveRefundRequestView;

    open spec fn deep_view(&self) -> WaveRefundRequestView {
        WaveRefundRequestView { amount: self.amount@, reason: opt_text(self.reason) }
    }
}

impl View for WaveRefundRequest {
    type V = WaveRefundRequestView;

    open spec fn view(&self) -> WaveRefundRequestView {
        self.deep_view()
    }
}

/// The metadata that a configuration carries: what its JSON describes, and
/// none where there is no JSON or where it describes no metadata.
pub open spec fn configured_metadata(meta: Option<serde_json::Value>) -> Option<WaveConnectorMetadataView> {
    match meta {
        Some(v) => WaveConnectorMetadata::decode(json_model(v)),
        None => None,
    }
}

/// The aggregated-merchant id that a configuration names, if any.
pub open spec fn configured_merchant_id(meta: Option<serde_json::Value>) -> Option<Seq<char>> {
    match configured_metadata(meta) {
        Some(m) => m.aggregated_merchant_id,
        None => None,
    }
}

/// The customer of a checkout session: present where the request has an
/// e-mail address, with the full name of the billing address if there is
/// one.
pub open spec fn checkout_customer(data: PaymentsAuthorizeRouterData) -> Option<WaveCustomerView> {
    match data.request.email {
        Some(email) => Some(
            WaveCustomerView { name: opt_text(data.billing_full_name), email: Some(email@) },
        ),
        None => None,
    }
}

/// The payload that creates the checkout session for an authorization of
/// `amount` minor units that returns to `return_url`: the amount as a
/// decimal numeral, the currency code, the return address for failure and
/// for success alike, the reference of the request, the
/// aggregated-merchant id of the configuration and the customer.
pub open spec fn checkout_session_request(
    amount: i64,
    data: PaymentsAuthorizeRouterData,
    return_url: Seq<char>,
) -> WaveCheckoutSessionRequestView {
    WaveCheckoutSessionRequestView {
        amount: signed_decimal(amount as int),
        currency: data.request.currency@,
        error_url: Some(return_url),
        success_url: Some(return_url),
        reference: Some(data.connector_request_reference_id@),
        aggregated_merchant_id: configured_merchant_id(data.connector_meta_data),
        customer: checkout_customer(data),
    }
}

/// The amount of a well-formed authorization is written without a sign, and
/// failure and success lead to the same address.
pub proof fn lemma_checkout_session_of_well_formed_request(
    data: PaymentsAuthorizeRouterData,
    return_url: Seq<char>,
)
    requires
        data.request.well_formed(),
    ensures
        checkout_session_request(data.request.minor_amount, data, return_url).amount == decimal(
            data.request.minor_amount as nat,
        ),
        checkout_session_request(data.request.minor_amount, data, return_url).error_url
            == checkout_session_request(data.request.minor_amount, data, return_url).success_url,
{
}

/// Reads the metadata of the configuration. Metadata that cannot be read
/// counts as none; this never fails.
pub fn extract_wave_connector_metadata(router_data: &PaymentsAuthorizeRouterData) -> (r: Result<
    Option<WaveConnectorMetadata>,
    ConnectorError,
>)
    ensures
        r matches Ok(metadata) && metadata.deep_view() == configured_metadata(
            router_data.connector_meta_data,
        ),
{
    match &router_data.connector_meta_data {
        Some(v) => Ok(WaveConnectorMetadata::from_json(v)),
        None => Ok(None),
    }
}

/// Reads the aggregated-merchant id that the configuration names.
/// Metadata that cannot be read counts as none; this never fails.
pub fn extract_aggregated_merchant_id(router_data: &PaymentsAuthorizeRouterData) -> (r: Result<
    Option<String>,
    ConnectorError,
>)
    ensures
        r matches Ok(id) && opt_text(id) == configured_merchant_id(router_data.connector_meta_data),
{
    match &router_data.connector_meta_data {
        Some(v) => match WaveConnectorMetadata::from_json(v) {
            Some(metadata) => Ok(metadata.aggregated_merchant_id),
            None => Ok(None),
        },
        None => Ok(None),
    }
}

impl WaveCheckoutSessionRequest {
    /// Builds the payload that creates a checkout session. It fails, with a
    /// configuration error that names `return_url`, exactly where the
    /// request has no return address.
    pub fn try_from(item: &WaveRouterData<&PaymentsAuthorizeRouterData>) -> (r: Result<
        WaveCheckoutSessionRequest,
        ConnectorError,
    >)
        ensures
            match item.router_data.request.router_return_url {
                Some(return_url) => r matches Ok(request) && request@ == checkout_session_request(
                    item.amount,
                    *item.router_data,
                    return_url@,
                ),
                None => r matches Err(e) && e@ == (ConnectorErrorView::InvalidConnectorConfig {
                    config: "return_url"@,
                }),
            },
    {
        let router_data = item.router_data;
        let amount = i64_to_string(item.amount);
        let currency = router_data.request.currency.clone();
        let return_url = match &router_data.request.router_return_url {
            Some(url) => url,
            None => {
                return Err(ConnectorError::InvalidConnectorConfig { config: "return_url".to_owned() });
            },
        };
        let aggregated_merchant_id = match extract_aggregated_merchant_id(router_data) {
            Ok(id) => id,
            Err(_) => None,
        };
        let customer = match &router_data.request.email {
            Some(email) => Some(
                WaveCustomer {
                    name: clone_opt_text(&router_data.billing_full_name),
                    email: Some(email.clone()),
                },
            ),
            None => None,
        };
        Ok(
            WaveCheckoutSessionRequest {
                amount,
                currency,
                error_url: Some(return_url.clone()),
                success_url: Some(return_url.clone()),
                reference: Some(router_data.connector_request_reference_id.clone()),
                aggregated_merchant_id,
                customer,
            },
        )
    }
}

impl WavePaymentsCancelRequest {
    /// Builds the payload that cancels a payment: the reason of the
    /// cancellation, as it is. No amount is needed; this never fails.
    pub fn try_from(item: &WaveRouterData<&PaymentsCancelRouterData>) -> (r: Result<
        WavePaymentsCancelRequest,
        ConnectorError,
    >)
        ensures
            r matches Ok(request) && request@ == (WavePaymentsCancelRequestView {
                reason: opt_text(item.router_data.request.cancellation_reason),
            }),
    {
        Ok(
            WavePaymentsCancelRequest {
                reason: clone_opt_text(&item.router_data.request.cancellation_reason),
            },
        )
    }
}

impl WaveRefundRequest {
    /// Builds the payload that refunds a payment: the refund amount as a
    /// decimal numeral and the reason, as it is; this never fails.
    pub fn try_from(item: &WaveRouterData<&RefundsRouterData>) -> (r: Result<
        WaveRefundRequest,
        ConnectorError,
    >)
        ensures
            r matches Ok(request) && request@ == (WaveRefundRequestView {
                amount: signed_decimal(item.amount as int),
                reason: opt_text(item.router_data.request.reason),
            }),
    {
        Ok(
            WaveRefundRequest {
                amount: i64_to_string(item.amount),
                reason: clone_opt_text(&item.router_data.request.reason),
            },
        )
    }
}

} // verus!
