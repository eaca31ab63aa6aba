use wave_connector::canonical::{
    ConnectorAuthType, CurrencyUnit, Method, PaymentsAuthorizeData, PaymentsAuthorizeRouterData,
    PaymentsCancelData, PaymentsCancelRouterData, PaymentsCaptureData, PaymentsCaptureRouterData,
    PaymentsSyncData, PaymentsSyncRouterData, RefundsData, RefundsRouterData, ResponseId,
    RouterData,
};
use wave_connector::connector::{ValidationEvent, ValidationStep, Wave};
use wave_connector::auth::WaveAuthType;
use wave_connector::errors::{ConnectorError, ErrorResponse};
use wave_connector::http::{Request, RequestContent, Response};
use wave_connector::merchant::{WaveBusinessType, WaveConnectorMetadata};
use wave_connector::requests::{
    WaveCheckoutSessionRequest, WavePaymentsCancelRequest, WaveRefundRequest,
};
use wave_connector::status::AttemptStatus;

fn no_response() -> ErrorResponse {
    ErrorResponse { code: String::new(), message: String::new(), reason: None, status_code: 0 }
}

fn router_data<Req, Resp>(auth: ConnectorAuthType, request: Req) -> RouterData<Req, Resp> {
    RouterData {
        merchant_id: "m1".to_string(),
        connector_request_reference_id: "ref-1".to_string(),
        connector_auth_type: auth,
        connector_meta_data: None,
        billing_full_name: None,
        status: AttemptStatus::Pending,
        request,
        response: Err(no_response()),
    }
}

fn key() -> ConnectorAuthType {
    ConnectorAuthType::HeaderKey { api_key: "sk_test".to_string() }
}

fn header(name: &str, value: &str) -> (String, String) {
    (name.to_string(), value.to_string())
}

fn authorize(auth: ConnectorAuthType) -> PaymentsAuthorizeRouterData {
    router_data(
        auth,
        PaymentsAuthorizeData {
            minor_amount: 1000,
            currency: "XOF".to_string(),
            router_return_url: Some("https://r".to_string()),
            email: None,
        },
    )
}

#[test]
fn connector_identity() {
    let wave = Wave::new();
    assert_eq!(wave.id(), "wave");
    assert_eq!(wave.get_currency_unit(), CurrencyUnit::Minor);
    assert_eq!(wave.base_url(), "https://api.wave.com/");
}

#[test]
fn authentication_header() {
    let wave = Wave::new();
    assert_eq!(wave.get_auth_header(&key()), Ok(vec![header("Authorization", "Bearer sk_test")]));
    assert_eq!(
        wave.get_auth_header(&ConnectorAuthType::BodyKey {
            api_key: "k2".to_string(),
            key1: "garbage".to_string()
        }),
        Ok(vec![header("Authorization", "Bearer k2")])
    );
    assert_eq!(
        wave.get_auth_header(&ConnectorAuthType::NoKey),
        Err(ConnectorError::FailedToObtainAuthType)
    );
}

#[test]
fn authorize_request() {
    let request = Wave::new().build_authorize_request(&authorize(key())).unwrap().unwrap();
    assert_eq!(
        request,
        Request {
            method: Method::Post,
            url: "https://api.wave.com/checkout/sessions".to_string(),
            headers: vec![
                header("Content-Type", "application/json"),
                header("Authorization", "Bearer sk_test")
            ],
            body: Some(RequestContent::CheckoutSession(WaveCheckoutSessionRequest {
                amount: "1000".to_string(),
                currency: "XOF".to_string(),
                error_url: Some("https://r".to_string()),
                success_url: Some("https://r".to_string()),
                reference: Some("ref-1".to_string()),
                aggregated_merchant_id: None,
                customer: None,
            })),
        }
    );
}

#[test]
fn authorize_request_failures() {
    let wave = Wave::new();
    let mut data = authorize(key());
    data.request.router_return_url = None;
    assert_eq!(
        wave.build_authorize_request(&data),
        Err(ConnectorError::InvalidConnectorConfig { config: "return_url".to_string() })
    );
    assert_eq!(
        wave.get_request_body(&data),
        Err(ConnectorError::InvalidConnectorConfig { config: "return_url".to_string() })
    );
    // without authentication the headers fail first
    data.connector_auth_type = ConnectorAuthType::NoKey;
    assert_eq!(wave.build_authorize_request(&data), Err(ConnectorError::FailedToObtainAuthType));
    assert_eq!(
        wave.build_authorize_request(&authorize(ConnectorAuthType::NoKey)),
        Err(ConnectorError::FailedToObtainAuthType)
    );
    assert_eq!(
        wave.get_request_body(&authorize(ConnectorAuthType::NoKey)),
        Err(ConnectorError::FailedToObtainAuthType)
    );
}

#[test]
fn authorize_body_with_configured_merchant() {
    let mut data = authorize(ConnectorAuthType::NoKey);
    data.connector_meta_data =
        Some(serde_json::from_str("{\"aggregated_merchant_id\":\"am-5\"}").unwrap());
    match Wave::new().get_request_body(&data) {
        Ok(RequestContent::CheckoutSession(request)) => {
            assert_eq!(request.aggregated_merchant_id, Some("am-5".to_string()));
        }
        other => panic!("unexpected {:?}", other),
    }
}

#[test]
fn sync_request() {
    let data: PaymentsSyncRouterData = router_data(
        key(),
        PaymentsSyncData {
            connector_transaction_id: ResponseId::ConnectorTransactionId("cos-123".to_string()),
        },
    );
    assert_eq!(
        Wave::new().build_sync_request(&data),
        Ok(Some(Request {
            method: Method::Get,
            url: "https://api.wave.com/checkout/sessions/cos-123".to_string(),
            headers: vec![
                header("Accept", "application/json"),
                header("Authorization", "Bearer sk_test")
            ],
            body: None,
        }))
    );
    for id in [ResponseId::NoResponseId, ResponseId::EncodedData("x".to_string())] {
        let data: PaymentsSyncRouterData =
            router_data(key(), PaymentsSyncData { connector_transaction_id: id });
        assert_eq!(
            Wave::new().build_sync_request(&data),
            Err(ConnectorError::MissingConnectorTransactionID)
        );
    }
    let data: PaymentsSyncRouterData = router_data(
        ConnectorAuthType::NoKey,
        PaymentsSyncData {
            connector_transaction_id: ResponseId::ConnectorTransactionId("cos-123".to_string()),
        },
    );
    assert_eq!(Wave::new().build_sync_request(&data), Err(ConnectorError::FailedToObtainAuthType));
}

#[test]
fn capture_is_not_implemented() {
    let data: PaymentsCaptureRouterData = router_data(
        key(),
        PaymentsCaptureData {
            connector_transaction_id: "txn".to_string(),
            minor_amount_to_capture: 10,
        },
    );
    assert_eq!(
        Wave::new().build_capture_request(&data),
        Err(ConnectorError::NotImplemented("Payment Capture".to_string()))
    );
    assert_eq!(
        Wave::new().handle_capture_response(
            data,
            &Response { status_code: 200, response: "{}".to_string() }
        ),
        Err(ConnectorError::NotImplemented("Payment Capture".to_string()))
    );
}

#[test]
fn void_request() {
    let data: PaymentsCancelRouterData = router_data(
        key(),
        PaymentsCancelData {
            connector_transaction_id: "txn-7".to_string(),
            cancellation_reason: Some("merchant_timeout".to_string()),
            minor_amount: Some(1000),
            currency: Some("XOF".to_string()),
        },
    );
    assert_eq!(
        Wave::new().build_void_request(&data),
        Ok(Some(Request {
            method: Method::Post,
            url: "https://api.wave.com/v1/transactions/txn-7/cancel".to_string(),
            headers: vec![
                header("Content-Type", "application/json"),
                header("Authorization", "Bearer sk_test")
            ],
            body: Some(RequestContent::Cancel(WavePaymentsCancelRequest {
                reason: Some("merchant_timeout".to_string())
            })),
        }))
    );
}

fn refund(refund_id: Option<&str>) -> RefundsRouterData {
    router_data(
        key(),
        RefundsData {
            connector_transaction_id: "txn-7".to_string(),
            connector_refund_id: refund_id.map(str::to_string),
            minor_refund_amount: 500,
            currency: "XOF".to_string(),
            reason: Some("order_cancelled".to_string()),
        },
    )
}

#[test]
fn refund_request() {
    assert_eq!(
        Wave::new().build_refund_request(&refund(None)),
        Ok(Some(Request {
            method: Method::Post,
            url: "https://api.wave.com/v1/transactions/txn-7/refunds".to_string(),
            headers: vec![
                header("Content-Type", "application/json"),
                header("Authorization", "Bearer sk_test")
            ],
            body: Some(RequestContent::Refund(WaveRefundRequest {
                amount: "500".to_string(),
                reason: Some("order_cancelled".to_string())
            })),
        }))
    );
}

#[test]
fn refund_sync_request() {
    assert_eq!(
        Wave::new().build_refund_sync_request(&refund(Some("rf-3"))),
        Ok(Some(Request {
            method: Method::Get,
            url: "https://api.wave.com/v1/refunds/rf-3".to_string(),
            headers: vec![
                header("Accept", "application/json"),
                header("Authorization", "Bearer sk_test")
            ],
            body: None,
        }))
    );
    assert_eq!(
        Wave::new().build_refund_sync_request(&refund(None)),
        Err(ConnectorError::MissingConnectorRefundID)
    );
}

#[test]
fn webhooks_are_not_implemented() {
    let wave = Wave::new();
    assert_eq!(wave.get_webhook_object_reference_id("{}"), Err(ConnectorError::WebhooksNotImplemented));
    assert_eq!(wave.get_webhook_event_type("{}"), Err(ConnectorError::WebhooksNotImplemented));
    assert_eq!(wave.get_webhook_resource_object("{}"), Err(ConnectorError::WebhooksNotImplemented));
}

#[test]
fn error_responses() {
    let wave = Wave::new();
    let res = Response {
        status_code: 400,
        response: "{\"code\":\"E1\",\"message\":\"bad\",\"details\":[{\"msg\":\"why\"}]}".to_string(),
    };
    let expected = ErrorResponse {
        code: "E1".to_string(),
        message: "bad".to_string(),
        reason: Some("why".to_string()),
        status_code: 400,
    };
    assert_eq!(wave.build_error_response(&res), Ok(expected.clone()));
    assert_eq!(wave.get_error_response(&res), Ok(expected.clone()));
    assert_eq!(wave.get_5xx_error_response(&res), Ok(expected));
}

fn auth(enabled: bool) -> WaveAuthType {
    WaveAuthType {
        api_key: "sk_test".to_string(),
        aggregated_merchants_enabled: enabled,
        auto_create_aggregated_merchant: false,
        default_business_type: WaveBusinessType::Ecommerce,
        cache_ttl_seconds: 3600,
    }
}

fn metadata(id: Option<&str>) -> WaveConnectorMetadata {
    WaveConnectorMetadata {
        aggregated_merchant_id: id.map(str::to_string),
        aggregated_merchant_name: None,
        auto_create_aggregated_merchant: None,
        business_type: None,
        business_description: None,
        manager_name: None,
        business_registration_identifier: None,
        business_sector: None,
        website_url: None,
        cache_enabled: None,
        cache_ttl_seconds: None,
    }
}

fn lookup(failed_attempts: u8) -> ValidationStep {
    ValidationStep::Send {
        request: Request {
            method: Method::Get,
            url: "https://api.wave.com/v1/aggregated_merchants/am-1".to_string(),
            headers: vec![header("Authorization", "Bearer sk_test")],
            body: None,
        },
        failed_attempts,
    }
}

#[test]
fn configuration_is_valid_without_the_feature_or_without_metadata() {
    let wave = Wave::new();
    let mut broken = metadata(Some("bad"));
    broken.cache_ttl_seconds = Some(1);
    assert_eq!(
        wave.validate_aggregated_merchant_config(&auth(false), &Some(broken), ValidationEvent::Start),
        Ok(ValidationStep::Valid)
    );
    assert_eq!(
        wave.validate_aggregated_merchant_config(&auth(true), &None, ValidationEvent::Start),
        Ok(ValidationStep::Valid)
    );
    assert_eq!(
        wave.validate_aggregated_merchant_config(&auth(true), &Some(metadata(None)), ValidationEvent::Start),
        Ok(ValidationStep::Valid)
    );
}

#[test]
fn configuration_with_a_violation_fails_before_any_call() {
    assert_eq!(
        Wave::new().validate_aggregated_merchant_config(
            &auth(true),
            &Some(metadata(Some("bad-id"))),
            ValidationEvent::Start
        ),
        Err(ConnectorError::ProcessingStepFailed(Some(
            "Invalid aggregated merchant configuration: Aggregated merchant ID must start with 'am-' and be properly formatted"
                .to_string()
        )))
    );
}

#[test]
fn configured_merchant_is_looked_up_three_times() {
    let wave = Wave::new();
    let meta = Some(metadata(Some("am-1")));
    assert_eq!(
        wave.validate_aggregated_merchant_config(&auth(true), &meta, ValidationEvent::Start),
        Ok(lookup(0))
    );
    assert_eq!(
        wave.validate_aggregated_merchant_config(
            &auth(true),
            &meta,
            ValidationEvent::Reply { failed_attempts: 0, found: false }
        ),
        Ok(lookup(1))
    );
    assert_eq!(
        wave.validate_aggregated_merchant_config(
            &auth(true),
            &meta,
            ValidationEvent::Reply { failed_attempts: 1, found: false }
        ),
        Ok(lookup(2))
    );
    for failed_attempts in [2u8, 3, 200, 255] {
        assert_eq!(
            wave.validate_aggregated_merchant_config(
                &auth(true),
                &meta,
                ValidationEvent::Reply { failed_attempts, found: false }
            ),
            Err(ConnectorError::ProcessingStepFailed(Some(
                "Aggregated merchant am-1 not found or not accessible".to_string()
            )))
        );
    }
    for failed_attempts in [0u8, 1, 2] {
        assert_eq!(
            wave.validate_aggregated_merchant_config(
                &auth(true),
                &meta,
                ValidationEvent::Reply { failed_attempts, found: true }
            ),
            Ok(ValidationStep::Valid)
        );
    }
}

#[test]
fn authorize_request_under_a_resolved_merchant() {
    let wave = Wave::new();
    let mut data = authorize(key());
    data.connector_meta_data =
        Some(serde_json::from_str("{\"aggregated_merchant_id\":\"am-configured\"}").unwrap());
    let resolved = wave
        .build_authorize_request_with_merchant(&data, Some("am-created".to_string()))
        .unwrap()
        .unwrap();
    match resolved.body {
        Some(RequestContent::CheckoutSession(request)) => {
            assert_eq!(request.aggregated_merchant_id, Some("am-created".to_string()));
            assert_eq!(request.amount, "1000");
        }
        other => panic!("unexpected {:?}", other),
    }
    assert_eq!(
        wave.build_authorize_request_with_merchant(&data, None),
        wave.build_authorize_request(&data)
    );
    data.request.router_return_url = None;
    assert_eq!(
        wave.build_authorize_request_with_merchant(&data, Some("am-created".to_string())),
        Err(ConnectorError::InvalidConnectorConfig { config: "return_url".to_string() })
    );
}
