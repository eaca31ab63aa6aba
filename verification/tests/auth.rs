use wave_connector::auth::{WaveAggregatedMerchantConfig, WaveAuthType};
use wave_connector::canonical::ConnectorAuthType;
use wave_connector::errors::ConnectorError;
use wave_connector::merchant::WaveBusinessType;

fn body_key(blob: &str) -> ConnectorAuthType {
    ConnectorAuthType::BodyKey { api_key: "key".to_string(), key1: blob.to_string() }
}

fn defaults() -> WaveAuthType {
    WaveAuthType {
        api_key: "key".to_string(),
        aggregated_merchants_enabled: false,
        auto_create_aggregated_merchant: false,
        default_business_type: WaveBusinessType::Ecommerce,
        cache_ttl_seconds: 3600,
    }
}

#[test]
fn default_configuration() {
    let config = WaveAggregatedMerchantConfig::default();
    assert!(!config.enabled);
    assert!(!config.auto_create_on_profile_creation);
    assert_eq!(config.default_business_type, WaveBusinessType::Ecommerce);
    assert_eq!(config.cache_ttl_seconds, 3600);
}

#[test]
fn malformed_blob_gives_defaults() {
    for blob in ["", "not json", "{", "{\"enabled\":tru", "[1,2", "\u{0}"] {
        assert_eq!(WaveAuthType::try_from(&body_key(blob)), Ok(defaults()), "{:?}", blob);
        assert_eq!(
            WaveAggregatedMerchantConfig::parse_or_default(blob),
            WaveAggregatedMerchantConfig::default()
        );
    }
}

#[test]
fn blob_that_describes_no_configuration_gives_defaults() {
    let blobs = [
        "null",
        "5",
        "\"enabled\"",
        "[]",
        "{}",
        // a member is missing
        "{\"enabled\":true,\"auto_create_on_profile_creation\":true,\"default_business_type\":\"pos\"}",
        // a member is of the wrong kind
        "{\"enabled\":\"yes\",\"auto_create_on_profile_creation\":true,\"default_business_type\":\"pos\",\"cache_ttl_seconds\":60}",
        "{\"enabled\":true,\"auto_create_on_profile_creation\":true,\"default_business_type\":\"kiosk\",\"cache_ttl_seconds\":60}",
        "{\"enabled\":true,\"auto_create_on_profile_creation\":true,\"default_business_type\":\"pos\",\"cache_ttl_seconds\":-60}",
        "{\"enabled\":true,\"auto_create_on_profile_creation\":true,\"default_business_type\":\"pos\",\"cache_ttl_seconds\":60.5}",
        "{\"enabled\":true,\"auto_create_on_profile_creation\":null,\"default_business_type\":\"pos\",\"cache_ttl_seconds\":60}",
    ];
    for blob in blobs {
        assert_eq!(WaveAuthType::try_from(&body_key(blob)), Ok(defaults()), "{}", blob);
    }
}

#[test]
fn blob_with_a_configuration_is_used() {
    let blob = "{\"enabled\":true,\"auto_create_on_profile_creation\":false,\"default_business_type\":\"subscription\",\"cache_ttl_seconds\":60,\"unknown\":[1]}";
    assert_eq!(
        WaveAuthType::try_from(&body_key(blob)),
        Ok(WaveAuthType {
            api_key: "key".to_string(),
            aggregated_merchants_enabled: true,
            auto_create_aggregated_merchant: false,
            default_business_type: WaveBusinessType::Subscription,
            cache_ttl_seconds: 60,
        })
    );
}

#[test]
fn configuration_from_parsed_json() {
    let value: serde_json::Value = serde_json::from_str(
        "{\"enabled\":false,\"auto_create_on_profile_creation\":true,\"default_business_type\":\"mobile\",\"cache_ttl_seconds\":18446744073709551615}",
    )
    .unwrap();
    let expected = WaveAggregatedMerchantConfig {
        enabled: false,
        auto_create_on_profile_creation: true,
        default_business_type: WaveBusinessType::Mobile,
        cache_ttl_seconds: u64::MAX,
    };
    assert_eq!(WaveAggregatedMerchantConfig::from_json(&value), Some(expected));
    assert_eq!(WaveAggregatedMerchantConfig::from_parsed(Some(&value)), expected);
    assert_eq!(
        WaveAggregatedMerchantConfig::from_parsed(None),
        WaveAggregatedMerchantConfig::default()
    );
    assert_eq!(
        WaveAuthType::from_config("k", expected),
        WaveAuthType {
            api_key: "k".to_string(),
            aggregated_merchants_enabled: false,
            auto_create_aggregated_merchant: true,
            default_business_type: WaveBusinessType::Mobile,
            cache_ttl_seconds: u64::MAX,
        }
    );
}

#[test]
fn other_forms_of_authentication_are_refused() {
    let signature = ConnectorAuthType::SignatureKey {
        api_key: "k".to_string(),
        key1: "a".to_string(),
        api_secret: "s".to_string(),
    };
    assert_eq!(WaveAuthType::try_from(&signature), Err(ConnectorError::FailedToObtainAuthType));
    assert_eq!(
        WaveAuthType::try_from(&ConnectorAuthType::NoKey),
        Err(ConnectorError::FailedToObtainAuthType)
    );
}
