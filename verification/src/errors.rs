//! The error taxonomy of the adapter.

use crate::text::{concat2, opt_text};
use vstd::prelude::*;

verus! {

/// Code reported where the gateway names none.
pub const NO_ERROR_CODE: &'static str = "No error code";

/// Message reported where the gateway's error body cannot be read.
pub const NO_ERROR_MESSAGE: &'static str = "No error message";

/// Failures that the adapter reports to the orchestration platform.
#[derive(Debug, Clone, PartialEq, Eq)]
pub enum ConnectorError {
    /// Building or sending the outbound request failed.
    RequestEncodingFailed,
    /// The gateway's body did not match the expected schema.
    ResponseDeserializationFailed,
    /// A malformed identifier or configuration value.
    InvalidConnectorConfig { config: String },
    /// A remote call failed, with a description where one is known.
    ProcessingStepFailed(Option<String>),
    /// The request carries no gateway transaction id.
    MissingConnectorTransactionID,
    /// The request carries no gateway refund id.
    MissingConnectorRefundID,
    /// The authentication data has an unexpected form.
    FailedToObtainAuthType,
    /// The operation is not offered by this gateway.
    NotImplemented(String),
    /// Webhook ingestion is not offered by this gateway.
    WebhooksNotImplemented,
}

/// Mathematical content of a [`ConnectorError`].
pub enum ConnectorErrorView {
    RequestEncodingFailed,
    ResponseDeserializationFailed,
    InvalidConnectorConfig { config: Seq<char> },
    ProcessingStepFailed(Option<Seq<char>>),
    MissingConnectorTransactionID,
    MissingConnectorRefundID,
    FailedToObtainAuthType,
    NotImplemented(Seq<char>),
    WebhooksNotImplemented,
}

impl View for ConnectorError {
    type V = ConnectorErrorView;

    open spec fn view(&self) -> ConnectorErrorView {
        match *self {
            ConnectorError::RequestEncodingFailed => ConnectorErrorView::RequestEncodingFailed,
            ConnectorError::ResponseDeserializationFailed => ConnectorErrorView::ResponseDeserializationFailed,
            ConnectorError::InvalidConnectorConfig { config } => ConnectorErrorView::InvalidConnectorConfig {
                config: config@,
            },
            ConnectorError::ProcessingStepFailed(Some(detail)) => ConnectorErrorView::ProcessingStepFailed(
                Some(detail@),
            ),
            ConnectorError::ProcessingStepFailed(None) => ConnectorErrorView::ProcessingStepFailed(None),
            ConnectorError::MissingConnectorTransactionID => ConnectorErrorView::MissingConnectorTransactionID,
            ConnectorError::MissingConnectorRefundID => ConnectorErrorView::MissingConnectorRefundID,
            ConnectorError::FailedToObtainAuthType => ConnectorErrorView::FailedToObtainAuthType,
            ConnectorError::NotImplemented(operation) => ConnectorErrorView::NotImplemented(operation@),
            ConnectorError::WebhooksNotImplemented => ConnectorErrorView::WebhooksNotImplemented,
        }
    }
}

/// Failures of the aggregated-merchant subsystem.
#[derive(Debug, Clone, PartialEq, Eq)]
pub enum WaveAggregatedMerchantError {
    MerchantNotFound { merchant_id: String },
    CreationFailed { reason: String },
    InvalidConfiguration { details: String },
    ValidationFailed { merchant_id: String },
    AutoCreationDisabled,
    RateLimitExceeded,
    AuthenticationFailed,
}

/// Mathematical content of a [`WaveAggregatedMerchantError`].
pub enum WaveAggregatedMerchantErrorView {
    MerchantNotFound { merchant_id: Seq<char> },
    CreationFailed { reason: Seq<char> },
    InvalidConfiguration { details: Seq<char> },
    ValidationFailed { merchant_id: Seq<char> },
    AutoCreationDisabled,
    RateLimitExceeded,
    AuthenticationFailed,
}

impl WaveAggregatedMerchantErrorView {
    /// The message that describes the failure.
    pub open spec fn message(self) -> Seq<char> {
        match self {
            WaveAggregatedMerchantErrorView::MerchantNotFound { merchant_id } => {
                "Aggregated merchant not found: "@ + merchant_id
            },
            WaveAggregatedMerchantErrorView::CreationFailed { reason } => {
                "Aggregated merchant creation failed: "@ + reason
            },
            WaveAggregatedMerchantErrorView::InvalidConfiguration { details } => {
                "Invalid aggregated merchant configuration: "@ + details
            },
            WaveAggregatedMerchantErrorView::ValidationFailed { merchant_id } => {
                "Aggregated merchant validation failed: "@ + merchant_id
            },
            WaveAggregatedMerchantErrorView::AutoCreationDisabled => {
                "Auto-creation disabled for aggregated merchants"@
            },
            WaveAggregatedMerchantErrorView::RateLimitExceeded => {
                "Aggregated merchant API limit exceeded"@
            },
            WaveAggregatedMerchantErrorView::AuthenticationFailed => {
                "Authentication failed for aggregated merchant operations"@
            },
        }
    }

    /// The platform error that stands for the failure: an authentication
    /// failure is reported as such, every other one as a failed processing
    /// step that carries the message.
    pub open spec fn connector_error(self) -> ConnectorErrorView {
        match self {
            WaveAggregatedMerchantErrorView::AuthenticationFailed => ConnectorErrorView::FailedToObtainAuthType,
            _ => ConnectorErrorView::ProcessingStepFailed(Some(self.message())),
        }
    }
}

impl View for WaveAggregatedMerchantError {
    type V = WaveAggregatedMerchantErrorView;

    open spec fn view(&self) -> WaveAggregatedMerchantErrorView {
        match *self {
            WaveAggregatedMerchantError::MerchantNotFound { merchant_id } => {
                WaveAggregatedMerchantErrorView::MerchantNotFound { merchant_id: merchant_id@ }
            },
            WaveAggregatedMerchantError::CreationFailed { reason } => {
                WaveAggregatedMerchantErrorView::CreationFailed { reason: reason@ }
            },
            WaveAggregatedMerchantError::InvalidConfiguration { details } => {
                WaveAggregatedMerchantErrorView::InvalidConfiguration { details: details@ }
            },
            WaveAggregatedMerchantError::ValidationFailed { merchant_id } => {
                WaveAggregatedMerchantErrorView::ValidationFailed { merchant_id: merchant_id@ }
            },
            WaveAggregatedMerchantError::AutoCreationDisabled => {
                WaveAggregatedMerchantErrorView::AutoCreationDisabled
            },
            WaveAggregatedMerchantError::RateLimitExceeded => WaveAggregatedMerchantErrorView::RateLimitExceeded,
            WaveAggregatedMerchantError::AuthenticationFailed => {
                WaveAggregatedMerchantErrorView::AuthenticationFailed
            },
        }
    }
}

impl WaveAggregatedMerchantError {
    /// The message that describes the failure.
    pub fn to_string(&self) -> (r: String)
        ensures
            r@ == self@.message(),
    {
        match self {
            WaveAggregatedMerchantError::MerchantNotFound { merchant_id } => {
                concat2("Aggregated merchant not found: ", merchant_id.as_str())
            },
            WaveAggregatedMerchantError::CreationFailed { reason } => {
                concat2("Aggregated merchant creation failed: ", reason.as_str())
            },
            WaveAggregatedMerchantError::InvalidConfiguration { details } => {
                concat2("Invalid aggregated merchant configuration: ", details.as_str())
            },
            WaveAggregatedMerchantError::ValidationFailed { merchant_id } => {
                concat2("Aggregated merchant validation failed: ", merchant_id.as_str())
            },
            WaveAggregatedMerchantError::AutoCreationDisabled => {
                "Auto-creation disabled for aggregated merchants".to_owned()
            },
            WaveAggregatedMerchantError::RateLimitExceeded => {
                "Aggregated merchant API limit exceeded".to_owned()
            },
            WaveAggregatedMerchantError::AuthenticationFailed => {
                "Authentication failed for aggregated merchant operations".to_owned()
            },
        }
    }

    /// The platform error that stands for the failure: an authentication
    /// failure is reported as such, every other one as a failed processing
    /// step that carries the message.
    pub fn into_connector_error(self) -> (r: ConnectorError)
        ensures
            r@ == self@.connector_error(),
    {
        match self {
            WaveAggregatedMerchantError::AuthenticationFailed => ConnectorError::FailedToObtainAuthType,
            _ => ConnectorError::ProcessingStepFailed(Some(self.to_string())),
        }
    }

    /// An `InvalidConfiguration` failure with the given description.
    pub fn invalid_configuration(details: &str) -> (r: WaveAggregatedMerchantError)
        ensures
            r@ == (WaveAggregatedMerchantErrorView::InvalidConfiguration { details: details@ }),
    {
        WaveAggregatedMerchantError::InvalidConfiguration { details: details.to_owned() }
    }
}

/// The canonical description of a failed gateway call.
#[derive(Debug, Clone, PartialEq, Eq)]
pub struct ErrorResponse {
    pub code: String,
    pub message: String,
    pub reason: Option<String>,
    pub status_code: u16,
}

/// Mathematical content of an [`ErrorResponse`].
pub struct ErrorResponseView {
    pub code: Seq<char>,
    pub message: Seq<char>,
    pub reason: Option<Seq<char>>,
    pub status_code: u16,
}

impl View for ErrorResponse {
    type V = ErrorResponseView;

    open spec fn view(&self) -> ErrorResponseView {
        ErrorResponseView {
            code: self.code@,
            message: self.message@,
            reason: opt_text(self.reason),
            status_code: self.status_code,
        }
    }
}

} // verus!
