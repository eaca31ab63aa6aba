use wave_connector::canonical::Method;
use wave_connector::classifier::WaveErrorResponse;
use wave_connector::errors::ConnectorError;
use wave_connector::http::{Request, RequestContent, Response, TransportOutcome};
use wave_connector::merchant::{
    WaveAggregatedMerchant, WaveAggregatedMerchantListResponse, WaveAggregatedMerchantRequest,
    WaveAggregatedMerchantUpdateRequest, WaveBusinessType,
};
use wave_connector::service::WaveAggregatedMerchantService;

const BASE: &str = "https://api.wave.com/";

fn header(name: &str, value: &str) -> (String, String) {
    (name.to_string(), value.to_string())
}

fn creation() -> WaveAggregatedMerchantRequest {
    WaveAggregatedMerchantRequest {
        name: "Shop".to_string(),
        business_type: WaveBusinessType::Pos,
        business_registration_identifier: None,
        business_sector: None,
        website_url: None,
        business_description: "Sells things".to_string(),
        manager_name: None,
    }
}

fn update() -> WaveAggregatedMerchantUpdateRequest {
    WaveAggregatedMerchantUpdateRequest {
        name: Some("New name".to_string()),
        business_type: None,
        business_registration_identifier: None,
        business_sector: None,
        website_url: None,
        business_description: None,
        manager_name: None,
    }
}

fn malformed() -> ConnectorError {
    ConnectorError::InvalidConnectorConfig {
        config: "Invalid aggregated merchant ID format".to_string(),
    }
}

fn received(status_code: u16, body: &str) -> TransportOutcome {
    TransportOutcome::Received(Response { status_code, response: body.to_string() })
}

fn merchant_json(id: &str) -> String {
    format!(
        "{{\"id\":\"{}\",\"name\":\"Shop\",\"business_type\":\"pos\",\"business_description\":\"d\",\"status\":\"active\"}}",
        id
    )
}

fn merchant(id: &str) -> WaveAggregatedMerchant {
    WaveAggregatedMerchant {
        id: id.to_string(),
        name: "Shop".to_string(),
        business_type: WaveBusinessType::Pos,
        business_registration_identifier: None,
        business_sector: None,
        website_url: None,
        business_description: "d".to_string(),
        manager_name: None,
        status: "active".to_string(),
        created_at: None,
        updated_at: None,
    }
}

#[test]
fn creation_call() {
    assert_eq!(
        WaveAggregatedMerchantService::create_aggregated_merchant("sk", BASE, creation()),
        Ok(Request {
            method: Method::Post,
            url: "https://api.wave.com/v1/aggregated_merchants".to_string(),
            headers: vec![
                header("Authorization", "Bearer sk"),
                header("Content-Type", "application/json")
            ],
            body: Some(RequestContent::CreateMerchant(creation())),
        })
    );
}

#[test]
fn creation_is_checked_before_anything_is_sent() {
    let mut request = creation();
    request.name = String::new();
    assert_eq!(
        WaveAggregatedMerchantService::create_aggregated_merchant("sk", BASE, request),
        Err(ConnectorError::ProcessingStepFailed(Some(
            "Invalid aggregated merchant configuration: Merchant name must be between 1 and 255 characters"
                .to_string()
        )))
    );
    let mut request = creation();
    request.business_description = "d".repeat(501);
    assert_eq!(
        WaveAggregatedMerchantService::create_aggregated_merchant("sk", BASE, request),
        Err(ConnectorError::ProcessingStepFailed(Some(
            "Invalid aggregated merchant configuration: Business description cannot exceed 500 characters"
                .to_string()
        )))
    );
}

#[test]
fn list_calls() {
    let cases = [
        (None, None, "https://api.wave.com/v1/aggregated_merchants"),
        (Some(10u32), None, "https://api.wave.com/v1/aggregated_merchants?limit=10"),
        (None, Some("abc"), "https://api.wave.com/v1/aggregated_merchants?cursor=abc"),
        (Some(0), Some("abc"), "https://api.wave.com/v1/aggregated_merchants?limit=0&cursor=abc"),
        (
            Some(u32::MAX),
            Some(""),
            "https://api.wave.com/v1/aggregated_merchants?limit=4294967295&cursor=",
        ),
    ];
    for (limit, cursor, url) in cases {
        assert_eq!(
            WaveAggregatedMerchantService::list_aggregated_merchants(
                "sk",
                BASE,
                limit,
                cursor.map(str::to_string)
            ),
            Ok(Request {
                method: Method::Get,
                url: url.to_string(),
                headers: vec![header("Authorization", "Bearer sk")],
                body: None,
            })
        );
    }
}

#[test]
fn lookup_call() {
    assert_eq!(
        WaveAggregatedMerchantService::get_aggregated_merchant("sk", BASE, "am-42"),
        Ok(Request {
            method: Method::Get,
            url: "https://api.wave.com/v1/aggregated_merchants/am-42".to_string(),
            headers: vec![header("Authorization", "Bearer sk")],
            body: None,
        })
    );
    for id in ["", "42", "bad-id", "am-", "xam-1"] {
        assert_eq!(
            WaveAggregatedMerchantService::get_aggregated_merchant("sk", BASE, id),
            Err(malformed()),
            "{:?}",
            id
        );
    }
}

#[test]
fn update_call() {
    assert_eq!(
        WaveAggregatedMerchantService::update_aggregated_merchant("sk", BASE, "am-42", update()),
        Ok(Request {
            method: Method::Put,
            url: "https://api.wave.com/v1/aggregated_merchants/am-42".to_string(),
            headers: vec![
                header("Authorization", "Bearer sk"),
                header("Content-Type", "application/json")
            ],
            body: Some(RequestContent::UpdateMerchant(update())),
        })
    );
    assert_eq!(
        WaveAggregatedMerchantService::update_aggregated_merchant("sk", BASE, "nope", update()),
        Err(malformed())
    );
    let mut request = update();
    request.name = Some("n".repeat(256));
    assert_eq!(
        WaveAggregatedMerchantService::update_aggregated_merchant("sk", BASE, "am-42", request),
        Err(ConnectorError::InvalidConnectorConfig {
            config: "Merchant name must be between 1 and 255 characters".to_string()
        })
    );
    let mut request = update();
    request.business_description = Some(String::new());
    assert_eq!(
        WaveAggregatedMerchantService::update_aggregated_merchant("sk", BASE, "am-42", request),
        Err(ConnectorError::InvalidConnectorConfig {
            config: "Business description must be between 1 and 500 characters".to_string()
        })
    );
    // the id is checked first
    let mut request = update();
    request.name = Some(String::new());
    assert_eq!(
        WaveAggregatedMerchantService::update_aggregated_merchant("sk", BASE, "", request),
        Err(malformed())
    );
}

#[test]
fn deletion_call() {
    assert_eq!(
        WaveAggregatedMerchantService::delete_aggregated_merchant("sk", BASE, "am-42"),
        Ok(Request {
            method: Method::Delete,
            url: "https://api.wave.com/v1/aggregated_merchants/am-42".to_string(),
            headers: vec![header("Authorization", "Bearer sk")],
            body: None,
        })
    );
    assert_eq!(
        WaveAggregatedMerchantService::delete_aggregated_merchant("sk", BASE, "am"),
        Err(malformed())
    );
}

#[test]
fn lookups_of_several_merchants_are_independent() {
    let ids = vec!["am-1".to_string(), "bad".to_string(), "am-3".to_string()];
    let lookups =
        WaveAggregatedMerchantService::get_multiple_aggregated_merchants("sk", BASE, &ids).unwrap();
    assert_eq!(lookups.len(), 3);
    assert_eq!(lookups[0].0, "am-1");
    assert_eq!(
        lookups[0].1,
        WaveAggregatedMerchantService::get_aggregated_merchant("sk", BASE, "am-1")
    );
    assert!(lookups[0].1.is_ok());
    assert_eq!(lookups[1], ("bad".to_string(), Err(malformed())));
    assert_eq!(lookups[2].0, "am-3");
    assert_eq!(
        lookups[2].1.as_ref().unwrap().url,
        "https://api.wave.com/v1/aggregated_merchants/am-3"
    );
    assert_eq!(
        WaveAggregatedMerchantService::get_multiple_aggregated_merchants("sk", BASE, &[]),
        Ok(vec![])
    );
}

#[test]
fn reading_a_merchant() {
    assert_eq!(
        WaveAggregatedMerchantService::read_merchant(&received(200, &merchant_json("am-1"))),
        Ok(merchant("am-1"))
    );
    assert_eq!(
        WaveAggregatedMerchantService::read_merchant(&received(201, &merchant_json("am-2"))),
        Ok(merchant("am-2"))
    );
    assert_eq!(
        WaveAggregatedMerchantService::read_merchant(&received(299, &merchant_json("am-2"))),
        Ok(merchant("am-2"))
    );
    // success with a body that is no merchant
    for body in ["", "{}", "[]", "{\"id\":\"am-1\"}"] {
        assert_eq!(
            WaveAggregatedMerchantService::read_merchant(&received(200, body)),
            Err(ConnectorError::ResponseDeserializationFailed)
        );
    }
    assert_eq!(
        WaveAggregatedMerchantService::read_merchant(&TransportOutcome::SendFailed),
        Err(ConnectorError::RequestEncodingFailed)
    );
    assert_eq!(
        WaveAggregatedMerchantService::read_merchant(&TransportOutcome::BodyUnreadable),
        Err(ConnectorError::ResponseDeserializationFailed)
    );
}

#[test]
fn failed_calls_are_classified() {
    assert_eq!(
        WaveAggregatedMerchantService::read_merchant(&received(
            404,
            "{\"code\":\"AGGREGATED_MERCHANT_NOT_FOUND\",\"message\":\"x\"}"
        )),
        Err(ConnectorError::ProcessingStepFailed(Some(
            "Aggregated merchant not found: unknown".to_string()
        )))
    );
    // a failed authentication is a failed processing step like every other
    // answer of failure
    for status in [401u16, 403] {
        let lookup =
            WaveAggregatedMerchantService::read_merchant(&received(status, "{\"message\":\"x\"}"));
        assert_eq!(
            lookup,
            Err(ConnectorError::ProcessingStepFailed(Some(
                "Authentication failed for aggregated merchant operations".to_string()
            )))
        );
        assert_eq!(WaveAggregatedMerchantService::merchant_exists(lookup), Ok(false));
    }
    assert_eq!(
        WaveAggregatedMerchantService::read_merchant(&received(500, "oops")),
        Err(ConnectorError::ProcessingStepFailed(Some("Wave API error 500: oops".to_string())))
    );
    // a merchant in the body of a failed call is not a merchant
    for status in [199u16, 300, 302, 400] {
        assert_eq!(
            WaveAggregatedMerchantService::read_merchant(&received(status, &merchant_json("am-1"))),
            Err(ConnectorError::ProcessingStepFailed(Some(format!(
                "Wave API error {}: {}",
                status,
                merchant_json("am-1")
            )))),
        );
    }
}

#[test]
fn reading_a_list() {
    let body = format!("{{\"aggregated_merchants\":[{}],\"total_count\":1}}", merchant_json("am-1"));
    assert_eq!(
        WaveAggregatedMerchantService::read_merchant_list(&received(200, &body)),
        Ok(WaveAggregatedMerchantListResponse {
            aggregated_merchants: vec![merchant("am-1")],
            total_count: Some(1),
            next_cursor: None,
        })
    );
    assert_eq!(
        WaveAggregatedMerchantService::read_merchant_list(&received(200, "{}")),
        Err(ConnectorError::ResponseDeserializationFailed)
    );
    assert_eq!(
        WaveAggregatedMerchantService::read_merchant_list(&received(429, "{\"message\":\"slow\"}")),
        Err(ConnectorError::ProcessingStepFailed(Some(
            "Aggregated merchant API limit exceeded".to_string()
        )))
    );
    assert_eq!(
        WaveAggregatedMerchantService::read_merchant_list(&TransportOutcome::SendFailed),
        Err(ConnectorError::RequestEncodingFailed)
    );
}

#[test]
fn reading_a_deletion() {
    assert_eq!(WaveAggregatedMerchantService::read_deletion(&received(204, "")), Ok(()));
    assert_eq!(WaveAggregatedMerchantService::read_deletion(&received(200, "whatever")), Ok(()));
    assert_eq!(
        WaveAggregatedMerchantService::read_deletion(&received(404, "gone")),
        Err(ConnectorError::ProcessingStepFailed(Some("Wave API error 404: gone".to_string())))
    );
    assert_eq!(
        WaveAggregatedMerchantService::read_deletion(&TransportOutcome::SendFailed),
        Err(ConnectorError::RequestEncodingFailed)
    );
    assert_eq!(
        WaveAggregatedMerchantService::read_deletion(&TransportOutcome::BodyUnreadable),
        Err(ConnectorError::ResponseDeserializationFailed)
    );
}

#[test]
fn concluding_from_plain_values() {
    assert_eq!(WaveAggregatedMerchantService::conclude(200, "b", Some(7u8), None), Ok(7u8));
    assert_eq!(
        WaveAggregatedMerchantService::conclude::<u8>(200, "b", None, None),
        Err(ConnectorError::ResponseDeserializationFailed)
    );
    assert_eq!(
        WaveAggregatedMerchantService::conclude(503, "b", Some(7u8), None),
        Err(ConnectorError::ProcessingStepFailed(Some("Wave API error 503: b".to_string())))
    );
    let error = WaveErrorResponse { code: None, message: "m".to_string(), details: None };
    assert_eq!(
        WaveAggregatedMerchantService::conclude(503, "b", Some(7u8), Some(error)),
        Err(ConnectorError::ProcessingStepFailed(Some("Wave API error: 503 - m".to_string())))
    );
}

#[test]
fn existence_of_a_merchant() {
    assert_eq!(WaveAggregatedMerchantService::merchant_exists(Ok(merchant("am-1"))), Ok(true));
    assert_eq!(
        WaveAggregatedMerchantService::merchant_exists(Err(ConnectorError::ProcessingStepFailed(None))),
        Ok(false)
    );
    assert_eq!(
        WaveAggregatedMerchantService::merchant_exists(Err(ConnectorError::ProcessingStepFailed(
            Some("Aggregated merchant not found: unknown".to_string())
        ))),
        Ok(false)
    );
    for error in [
        malformed(),
        ConnectorError::RequestEncodingFailed,
        ConnectorError::ResponseDeserializationFailed,
        ConnectorError::FailedToObtainAuthType,
    ] {
        assert_eq!(
            WaveAggregatedMerchantService::merchant_exists(Err(error.clone())),
            Err(error)
        );
    }
}

#[test]
fn every_answer_of_failure_says_that_the_merchant_does_not_exist() {
    let bodies = [
        "",
        "oops",
        "{\"message\":\"x\"}",
        "{\"code\":\"AGGREGATED_MERCHANT_NOT_FOUND\",\"message\":\"x\"}",
        "{\"code\":\"INVALID_BUSINESS_TYPE\",\"message\":\"x\"}",
    ];
    for status in [100u16, 199, 300, 301, 400, 401, 403, 404, 429, 500, 503, 599] {
        for body in bodies {
            let lookup = WaveAggregatedMerchantService::read_merchant(&received(status, body));
            assert!(
                matches!(lookup, Err(ConnectorError::ProcessingStepFailed(Some(_)))),
                "{} {}",
                status,
                body
            );
            assert_eq!(WaveAggregatedMerchantService::merchant_exists(lookup), Ok(false));
        }
    }
    // what is no answer leaves the question open
    assert_eq!(
        WaveAggregatedMerchantService::merchant_exists(
            WaveAggregatedMerchantService::read_merchant(&TransportOutcome::SendFailed)
        ),
        Err(ConnectorError::RequestEncodingFailed)
    );
    assert_eq!(
        WaveAggregatedMerchantService::merchant_exists(
            WaveAggregatedMerchantService::read_merchant(&received(200, "{}"))
        ),
        Err(ConnectorError::ResponseDeserializationFailed)
    );
}
