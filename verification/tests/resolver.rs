use wave_connector::auth::WaveAuthType;
use wave_connector::canonical::{
    ConnectorAuthType, Method, PaymentsAuthorizeData, PaymentsAuthorizeRouterData, RouterData,
};
use wave_connector::connector::Wave;
use wave_connector::errors::{ConnectorError, ErrorResponse};
use wave_connector::http::{Request, RequestContent, Response, TransportOutcome};
use wave_connector::merchant::{WaveAggregatedMerchantRequest, WaveBusinessType};
use wave_connector::resolver::{
    AggregatedMerchantFallbackStrategy, PendingCall, Resolution, ResolutionEvent, ResolutionNote,
    ResolutionStep, WaveAggregatedMerchantResolver,
};
use wave_connector::service::WaveAggregatedMerchantService;
use wave_connector::status::AttemptStatus;

const BASE: &str = "https://api.wave.com/";

fn auth(enabled: bool, auto_create: bool) -> WaveAuthType {
    WaveAuthType {
        api_key: "sk".to_string(),
        aggregated_merchants_enabled: enabled,
        auto_create_aggregated_merchant: auto_create,
        default_business_type: WaveBusinessType::Ecommerce,
        cache_ttl_seconds: 3600,
    }
}

fn payment(metadata: Option<&str>) -> PaymentsAuthorizeRouterData {
    RouterData {
        merchant_id: "m1".to_string(),
        connector_request_reference_id: "ref-1".to_string(),
        connector_auth_type: ConnectorAuthType::HeaderKey { api_key: "sk".to_string() },
        connector_meta_data: metadata.map(|text| serde_json::from_str(text).unwrap()),
        billing_full_name: None,
        status: AttemptStatus::Pending,
        request: PaymentsAuthorizeData {
            minor_amount: 1000,
            currency: "XOF".to_string(),
            router_return_url: Some("https://r".to_string()),
            email: None,
        },
        response: Err(ErrorResponse {
            code: String::new(),
            message: String::new(),
            reason: None,
            status_code: 0,
        }),
    }
}

fn received(status_code: u16, body: &str) -> TransportOutcome {
    TransportOutcome::Received(Response { status_code, response: body.to_string() })
}

fn merchant_json(id: &str) -> String {
    format!(
        "{{\"id\":\"{}\",\"name\":\"Shop\",\"business_type\":\"pos\",\"business_description\":\"d\",\"status\":\"suspended\"}}",
        id
    )
}

/// Runs a resolution against a transport that answers the n-th request
/// with `answers[n]`, and with a failure to send once they are used up.
/// Returns the outcome, the requests that were sent and what was noted.
fn run_noting(
    auth: &WaveAuthType,
    payment: &PaymentsAuthorizeRouterData,
    strategies: &[AggregatedMerchantFallbackStrategy],
    answers: &[TransportOutcome],
) -> (Option<String>, Vec<Request>, Vec<ResolutionNote>) {
    let mut sent: Vec<Request> = Vec::new();
    let mut noted: Vec<ResolutionNote> = Vec::new();
    let mut event = ResolutionEvent::Start;
    loop {
        let resolution = WaveAggregatedMerchantResolver::resolve_with_fallback(
            auth, BASE, payment, strategies, event,
        )
        .unwrap();
        noted.extend(resolution.notes);
        match resolution.step {
            ResolutionStep::Finished(id) => return (id, sent, noted),
            ResolutionStep::Send { request, call } => {
                let outcome =
                    answers.get(sent.len()).cloned().unwrap_or(TransportOutcome::SendFailed);
                sent.push(request);
                assert!(sent.len() < 100, "resolution does not end");
                let reply = WaveAggregatedMerchantService::read_merchant(&outcome);
                event = ResolutionEvent::Reply { call, reply };
            }
        }
    }
}

fn run(
    auth: &WaveAuthType,
    payment: &PaymentsAuthorizeRouterData,
    strategies: &[AggregatedMerchantFallbackStrategy],
    answers: &[TransportOutcome],
) -> (Option<String>, Vec<Request>) {
    let (id, sent, _) = run_noting(auth, payment, strategies, answers);
    (id, sent)
}

fn finished(id: Option<&str>) -> Result<Resolution, ConnectorError> {
    Ok(Resolution { step: ResolutionStep::Finished(id.map(str::to_string)), notes: vec![] })
}

fn send(request: Request, call: PendingCall) -> Result<Resolution, ConnectorError> {
    Ok(Resolution { step: ResolutionStep::Send { request, call }, notes: vec![] })
}

fn refused(call: PendingCall, details: &str) -> ResolutionNote {
    ResolutionNote::CreationRefused {
        call,
        error: ConnectorError::ProcessingStepFailed(Some(format!(
            "Invalid aggregated merchant configuration: {}",
            details
        ))),
    }
}

fn lookup(id: &str) -> Request {
    Request {
        method: Method::Get,
        url: format!("https://api.wave.com/v1/aggregated_merchants/{}", id),
        headers: vec![("Authorization".to_string(), "Bearer sk".to_string())],
        body: None,
    }
}

fn creation() -> Request {
    Request {
        method: Method::Post,
        url: "https://api.wave.com/v1/aggregated_merchants".to_string(),
        headers: vec![
            ("Authorization".to_string(), "Bearer sk".to_string()),
            ("Content-Type".to_string(), "application/json".to_string()),
        ],
        body: Some(RequestContent::CreateMerchant(WaveAggregatedMerchantRequest {
            name: "Profile_m1".to_string(),
            business_type: WaveBusinessType::Ecommerce,
            business_registration_identifier: None,
            business_sector: None,
            website_url: None,
            business_description: "Payment processing for Profile_m1".to_string(),
            manager_name: None,
        })),
    }
}

use AggregatedMerchantFallbackStrategy::{CreateTemporary, Skip, UseDefault};

#[test]
fn disabled_feature_issues_no_call() {
    let payments = [
        payment(None),
        payment(Some("{\"aggregated_merchant_id\":\"am-1\"}")),
        payment(Some("{\"auto_create_aggregated_merchant\":true,\"business_type\":\"pos\"}")),
    ];
    for payment in &payments {
        for auto_create in [false, true] {
            for strategies in [vec![], vec![UseDefault], vec![UseDefault, Skip, CreateTemporary]] {
                let (id, sent) = run(
                    &auth(false, auto_create),
                    payment,
                    &strategies,
                    &[received(200, &merchant_json("am-1"))],
                );
                assert_eq!(id, None);
                assert_eq!(sent.len(), 0);
            }
            // without fallback strategies every event ends the resolution
            let events = [
                ResolutionEvent::Start,
                ResolutionEvent::Reply {
                    call: PendingCall::Validation { failed_attempts: 0 },
                    reply: Err(ConnectorError::RequestEncodingFailed),
                },
                ResolutionEvent::Reply {
                    call: PendingCall::Creation,
                    reply: Err(ConnectorError::RequestEncodingFailed),
                },
                ResolutionEvent::Reply {
                    call: PendingCall::TemporaryCreation { index: 0 },
                    reply: Err(ConnectorError::RequestEncodingFailed),
                },
            ];
            for event in events {
                assert_eq!(
                    WaveAggregatedMerchantResolver::resolve_aggregated_merchant(
                        &auth(false, auto_create),
                        BASE,
                        payment,
                        event
                    ),
                    finished(None)
                );
            }
        }
    }
}

#[test]
fn disabled_feature_ends_only_the_primary_resolution() {
    // neither the configured merchant nor auto-creation is tried, but the
    // fallback strategies are
    let configured = payment(Some(
        "{\"aggregated_merchant_id\":\"am-1\",\"business_type\":\"pos\"}",
    ));
    for auto_create in [false, true] {
        let (id, sent, noted) = run_noting(
            &auth(false, auto_create),
            &configured,
            &[UseDefault, CreateTemporary],
            &[received(201, &merchant_json("am-tmp"))],
        );
        assert_eq!(id, Some("am-tmp".to_string()));
        assert_eq!(sent, vec![creation()]);
        assert_eq!(noted, vec![ResolutionNote::StrategyNotSupported { index: 0 }]);
    }
    assert_eq!(
        WaveAggregatedMerchantResolver::resolve_with_fallback(
            &auth(false, true),
            BASE,
            &configured,
            &[UseDefault, CreateTemporary],
            ResolutionEvent::Start
        ),
        Ok(Resolution {
            step: ResolutionStep::Send {
                request: creation(),
                call: PendingCall::TemporaryCreation { index: 1 }
            },
            notes: vec![ResolutionNote::StrategyNotSupported { index: 0 }],
        })
    );
    // a temporary creation that fails leads on in the list
    let (id, sent) = run(
        &auth(false, false),
        &configured,
        &[CreateTemporary, CreateTemporary],
        &[received(500, "a"), received(201, &merchant_json("am-2"))],
    );
    assert_eq!(id, Some("am-2".to_string()));
    assert_eq!(sent.len(), 2);
    // replies of the primary resolution, which was never begun, lead into
    // the fallback
    for call in [PendingCall::Validation { failed_attempts: 0 }, PendingCall::Creation] {
        assert_eq!(
            WaveAggregatedMerchantResolver::resolve_with_fallback(
                &auth(false, true),
                BASE,
                &configured,
                &[Skip, CreateTemporary],
                ResolutionEvent::Reply { call, reply: Err(ConnectorError::RequestEncodingFailed) }
            ),
            finished(None)
        );
    }
}

#[test]
fn configured_merchant_that_exists_is_used() {
    let (id, sent) = run(
        &auth(true, false),
        &payment(Some("{\"aggregated_merchant_id\":\"am-1\"}")),
        &[],
        &[received(200, &merchant_json("am-1"))],
    );
    assert_eq!(id, Some("am-1".to_string()));
    assert_eq!(sent, vec![lookup("am-1")]);
}

#[test]
fn status_of_the_merchant_does_not_matter() {
    // the merchant is reported as suspended, and under another id: a lookup
    // that succeeds confirms the configured id
    let (id, sent) = run(
        &auth(true, false),
        &payment(Some("{\"aggregated_merchant_id\":\"am-1\"}")),
        &[],
        &[received(200, &merchant_json("am-other"))],
    );
    assert_eq!(id, Some("am-1".to_string()));
    assert_eq!(sent.len(), 1);
}

#[test]
fn validation_gives_up_after_three_lookups() {
    let not_found = received(404, "{\"code\":\"AGGREGATED_MERCHANT_NOT_FOUND\",\"message\":\"x\"}");
    let (id, sent) = run(
        &auth(true, false),
        &payment(Some("{\"aggregated_merchant_id\":\"am-1\"}")),
        &[],
        &[not_found.clone(), not_found.clone(), not_found.clone(), received(200, &merchant_json("am-1"))],
    );
    assert_eq!(id, None);
    assert_eq!(sent, vec![lookup("am-1"), lookup("am-1"), lookup("am-1")]);
}

#[test]
fn validation_retries_after_a_failure() {
    let (id, sent) = run(
        &auth(true, false),
        &payment(Some("{\"aggregated_merchant_id\":\"am-1\"}")),
        &[],
        &[TransportOutcome::SendFailed, received(500, "oops"), received(200, &merchant_json("am-1"))],
    );
    assert_eq!(id, Some("am-1".to_string()));
    assert_eq!(sent.len(), 3);

    let (id, sent) = run(
        &auth(true, false),
        &payment(Some("{\"aggregated_merchant_id\":\"am-1\"}")),
        &[],
        &[received(200, "not a merchant"), received(200, &merchant_json("am-1"))],
    );
    assert_eq!(id, Some("am-1".to_string()));
    assert_eq!(sent.len(), 2);
}

#[test]
fn malformed_configured_id_is_never_looked_up() {
    let (id, sent) = run(
        &auth(true, false),
        &payment(Some("{\"aggregated_merchant_id\":\"bad-id\"}")),
        &[],
        &[received(200, &merchant_json("bad-id"))],
    );
    assert_eq!(id, None);
    assert_eq!(sent.len(), 0);
}

#[test]
fn merchant_is_created_where_none_is_configured() {
    let (id, sent) =
        run(&auth(true, true), &payment(None), &[], &[received(201, &merchant_json("am-new"))]);
    assert_eq!(id, Some("am-new".to_string()));
    assert_eq!(sent, vec![creation()]);
}

#[test]
fn metadata_decides_on_auto_creation_before_the_configuration() {
    let (id, sent) = run(
        &auth(true, true),
        &payment(Some("{\"auto_create_aggregated_merchant\":false}")),
        &[],
        &[received(201, &merchant_json("am-new"))],
    );
    assert_eq!(id, None);
    assert_eq!(sent.len(), 0);

    let (id, sent) = run(
        &auth(true, false),
        &payment(Some(
            "{\"auto_create_aggregated_merchant\":true,\"business_type\":\"marketplace\",\"business_description\":\"Crafts\",\"manager_name\":\"Awa\"}",
        )),
        &[],
        &[received(201, &merchant_json("am-new"))],
    );
    assert_eq!(id, Some("am-new".to_string()));
    assert_eq!(sent.len(), 1);
    assert_eq!(
        sent[0].body,
        Some(RequestContent::CreateMerchant(WaveAggregatedMerchantRequest {
            name: "Profile_m1".to_string(),
            business_type: WaveBusinessType::Marketplace,
            business_registration_identifier: None,
            business_sector: None,
            website_url: None,
            business_description: "Crafts".to_string(),
            manager_name: Some("Awa".to_string()),
        }))
    );
}

#[test]
fn creation_follows_a_failed_validation() {
    let (id, sent) = run(
        &auth(true, true),
        &payment(Some("{\"aggregated_merchant_id\":\"am-1\"}")),
        &[],
        &[
            received(404, "x"),
            received(404, "x"),
            received(404, "x"),
            received(201, &merchant_json("am-new")),
        ],
    );
    assert_eq!(id, Some("am-new".to_string()));
    assert_eq!(sent.len(), 4);
    assert_eq!(sent[3].method, Method::Post);
}

#[test]
fn failed_creation_is_not_fatal_and_not_retried() {
    for answer in [
        received(500, "oops"),
        received(400, "{\"code\":\"INVALID_BUSINESS_TYPE\",\"message\":\"x\"}"),
        received(201, "not a merchant"),
        TransportOutcome::SendFailed,
        TransportOutcome::BodyUnreadable,
    ] {
        let (id, sent) = run(
            &auth(true, true),
            &payment(None),
            &[],
            &[answer, received(201, &merchant_json("am-new"))],
        );
        assert_eq!(id, None);
        assert_eq!(sent.len(), 1);
    }
}

#[test]
fn creation_with_invalid_metadata_sends_nothing() {
    for metadata in [
        "{\"auto_create_aggregated_merchant\":true}",
        "{\"auto_create_aggregated_merchant\":true,\"business_type\":\"pos\",\"website_url\":\"nowhere\"}",
        "{\"auto_create_aggregated_merchant\":true,\"business_type\":\"pos\",\"aggregated_merchant_id\":\"bad\"}",
        "{\"auto_create_aggregated_merchant\":true,\"business_type\":\"pos\",\"cache_ttl_seconds\":5}",
    ] {
        let (id, sent) = run(
            &auth(true, false),
            &payment(Some(metadata)),
            &[],
            &[received(201, &merchant_json("am-new"))],
        );
        assert_eq!(id, None, "{}", metadata);
        assert_eq!(sent.len(), 0, "{}", metadata);
    }
}

#[test]
fn auto_create_with_an_explicit_id_is_a_configuration_error() {
    // the configured merchant is validated first; when it is not found,
    // creation is refused by the exclusion rule without a call
    let metadata =
        "{\"auto_create_aggregated_merchant\":true,\"business_type\":\"pos\",\"aggregated_merchant_id\":\"am-x\"}";
    let (id, sent) = run(&auth(true, false), &payment(Some(metadata)), &[], &[]);
    assert_eq!(id, None);
    assert_eq!(sent, vec![lookup("am-x"), lookup("am-x"), lookup("am-x")]);
}

#[test]
fn skip_ends_resolution_without_a_temporary_merchant() {
    // primary resolution fails at creation
    let (id, sent) = run(
        &auth(true, true),
        &payment(None),
        &[Skip],
        &[received(500, "oops"), received(201, &merchant_json("am-tmp"))],
    );
    assert_eq!(id, None);
    assert_eq!(sent, vec![creation()]);

    // primary resolution yields nothing without any call
    let (id, sent) = run(
        &auth(true, false),
        &payment(None),
        &[Skip],
        &[received(201, &merchant_json("am-tmp"))],
    );
    assert_eq!(id, None);
    assert_eq!(sent.len(), 0);

    // whatever follows Skip is not tried
    let (id, sent) = run(
        &auth(true, false),
        &payment(None),
        &[UseDefault, Skip, CreateTemporary],
        &[received(201, &merchant_json("am-tmp"))],
    );
    assert_eq!(id, None);
    assert_eq!(sent.len(), 0);
}

#[test]
fn temporary_merchant_is_created_by_the_fallback() {
    let (id, sent) = run(
        &auth(true, false),
        &payment(None),
        &[UseDefault, CreateTemporary, Skip],
        &[received(201, &merchant_json("am-tmp"))],
    );
    assert_eq!(id, Some("am-tmp".to_string()));
    assert_eq!(sent, vec![creation()]);
}

#[test]
fn temporary_creation_ignores_the_metadata() {
    let metadata = "{\"auto_create_aggregated_merchant\":false,\"business_type\":\"pos\",\"business_description\":\"Crafts\",\"website_url\":\"nowhere\"}";
    let (id, sent) = run(
        &auth(true, false),
        &payment(Some(metadata)),
        &[CreateTemporary],
        &[received(201, &merchant_json("am-tmp"))],
    );
    assert_eq!(id, Some("am-tmp".to_string()));
    assert_eq!(sent, vec![creation()]);
}

#[test]
fn fallback_strategies_are_tried_in_order() {
    let (id, sent) = run(
        &auth(true, true),
        &payment(None),
        &[CreateTemporary, UseDefault, CreateTemporary, CreateTemporary],
        &[received(500, "a"), received(500, "b"), received(201, &merchant_json("am-3"))],
    );
    assert_eq!(id, Some("am-3".to_string()));
    assert_eq!(sent.len(), 3);

    let (id, sent) = run(
        &auth(true, true),
        &payment(None),
        &[CreateTemporary, CreateTemporary],
        &[received(500, "a"), received(500, "b"), received(500, "c"), received(201, "{}")],
    );
    assert_eq!(id, None);
    assert_eq!(sent.len(), 3);

    let (id, sent) = run(&auth(true, false), &payment(None), &[UseDefault, UseDefault], &[]);
    assert_eq!(id, None);
    assert_eq!(sent.len(), 0);
}

#[test]
fn resolution_without_fallback() {
    let payment = payment(Some("{\"aggregated_merchant_id\":\"am-1\"}"));
    let step = WaveAggregatedMerchantResolver::resolve_aggregated_merchant(
        &auth(true, false),
        BASE,
        &payment,
        ResolutionEvent::Start,
    );
    assert_eq!(step, send(lookup("am-1"), PendingCall::Validation { failed_attempts: 0 }));
    let step = WaveAggregatedMerchantResolver::get_or_create_aggregated_merchant(
        &auth(true, false),
        BASE,
        &payment,
        ResolutionEvent::Reply {
            call: PendingCall::Validation { failed_attempts: 0 },
            reply: Err(ConnectorError::ProcessingStepFailed(None)),
        },
    );
    assert_eq!(step, send(lookup("am-1"), PendingCall::Validation { failed_attempts: 1 }));
    for failed_attempts in [2u8, 3, 100, 255] {
        let step = WaveAggregatedMerchantResolver::resolve_aggregated_merchant(
            &auth(true, false),
            BASE,
            &payment,
            ResolutionEvent::Reply {
                call: PendingCall::Validation { failed_attempts },
                reply: Err(ConnectorError::ProcessingStepFailed(None)),
            },
        );
        assert_eq!(
            step,
            Ok(Resolution {
                step: ResolutionStep::Finished(None),
                notes: vec![ResolutionNote::MerchantNotAccessible {
                    merchant_id: "am-1".to_string()
                }],
            })
        );
    }
}

#[test]
fn replies_that_no_step_asked_for_end_resolution() {
    let step = WaveAggregatedMerchantResolver::resolve_with_fallback(
        &auth(true, false),
        BASE,
        &payment(None),
        &[CreateTemporary],
        ResolutionEvent::Reply {
            call: PendingCall::TemporaryCreation { index: usize::MAX },
            reply: Err(ConnectorError::RequestEncodingFailed),
        },
    );
    assert_eq!(step, finished(None));
}

#[test]
fn lookups_for_validation() {
    assert_eq!(
        WaveAggregatedMerchantResolver::validate_aggregated_merchant(&auth(true, false), BASE, "am-1", 0),
        Some(lookup("am-1"))
    );
    assert_eq!(
        WaveAggregatedMerchantResolver::validate_aggregated_merchant(&auth(true, false), BASE, "am-1", 2),
        Some(lookup("am-1"))
    );
    assert_eq!(
        WaveAggregatedMerchantResolver::validate_aggregated_merchant(&auth(true, false), BASE, "am-1", 3),
        None
    );
    assert_eq!(
        WaveAggregatedMerchantResolver::validate_aggregated_merchant(&auth(true, false), BASE, "x", 0),
        None
    );
}

#[test]
fn resolution_for_a_payment() {
    let wave = Wave::new();
    let mut data = payment(Some("{\"aggregated_merchant_id\":\"am-1\"}"));
    // a key alone has the feature disabled
    assert_eq!(
        wave.resolve_aggregated_merchant_for_payment(&data, ResolutionEvent::Start),
        finished(None)
    );
    data.connector_auth_type = ConnectorAuthType::BodyKey {
        api_key: "sk".to_string(),
        key1: "{\"enabled\":true,\"auto_create_on_profile_creation\":false,\"default_business_type\":\"pos\",\"cache_ttl_seconds\":60}".to_string(),
    };
    assert_eq!(
        wave.resolve_aggregated_merchant_for_payment(&data, ResolutionEvent::Start),
        send(lookup("am-1"), PendingCall::Validation { failed_attempts: 0 })
    );
    data.connector_auth_type = ConnectorAuthType::NoKey;
    assert_eq!(
        wave.resolve_aggregated_merchant_for_payment(&data, ResolutionEvent::Start),
        Err(ConnectorError::FailedToObtainAuthType)
    );
}

#[test]
fn what_is_passed_over_is_noted() {
    // a malformed id is not looked up
    let (id, sent, noted) = run_noting(
        &auth(true, false),
        &payment(Some("{\"aggregated_merchant_id\":\"bad-id\"}")),
        &[],
        &[],
    );
    assert_eq!((id, sent.len()), (None, 0));
    assert_eq!(
        noted,
        vec![ResolutionNote::MerchantNotAccessible { merchant_id: "bad-id".to_string() }]
    );

    // three lookups have failed
    let (id, sent, noted) = run_noting(
        &auth(true, false),
        &payment(Some("{\"aggregated_merchant_id\":\"am-1\"}")),
        &[],
        &[],
    );
    assert_eq!((id, sent.len()), (None, 3));
    assert_eq!(
        noted,
        vec![ResolutionNote::MerchantNotAccessible { merchant_id: "am-1".to_string() }]
    );

    // a creation that violates a rule is refused, in the primary resolution
    // and, for a profile that cannot be named, at each temporary creation
    let (id, sent, noted) = run_noting(
        &auth(true, false),
        &payment(Some(
            "{\"auto_create_aggregated_merchant\":true,\"business_type\":\"pos\",\"website_url\":\"nowhere\"}",
        )),
        &[UseDefault, Skip, UseDefault],
        &[],
    );
    assert_eq!((id, sent.len()), (None, 0));
    assert_eq!(
        noted,
        vec![
            refused(PendingCall::Creation, "Website URL must start with 'http://' or 'https://'"),
            ResolutionNote::StrategyNotSupported { index: 0 },
        ]
    );

    let mut unnamed = payment(None);
    unnamed.merchant_id = "m".repeat(300);
    let (id, sent, noted) = run_noting(
        &auth(true, true),
        &unnamed,
        &[CreateTemporary, UseDefault, CreateTemporary],
        &[received(201, &merchant_json("am-new"))],
    );
    assert_eq!((id, sent.len()), (None, 0));
    let too_long = "Merchant name must be between 1 and 255 characters";
    assert_eq!(
        noted,
        vec![
            refused(PendingCall::Creation, too_long),
            refused(PendingCall::TemporaryCreation { index: 0 }, too_long),
            ResolutionNote::StrategyNotSupported { index: 1 },
            refused(PendingCall::TemporaryCreation { index: 2 }, too_long),
        ]
    );

    // nothing is noted where nothing is passed over
    let (id, _, noted) = run_noting(
        &auth(true, true),
        &payment(None),
        &[CreateTemporary],
        &[received(500, "a"), received(201, &merchant_json("am-tmp"))],
    );
    assert_eq!(id, Some("am-tmp".to_string()));
    assert_eq!(noted, vec![]);
}
