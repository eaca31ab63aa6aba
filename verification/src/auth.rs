//! The authentication configuration of the adapter: the gateway API key and
//! the feature flags for aggregated merchants.

use crate::canonical::ConnectorAuthType;
use crate::decode::{
    read_required_boolean, read_required_unsigned, required_boolean, required_unsigned,
};
use crate::errors::{ConnectorError, ConnectorErrorView};
use crate::json::{json_from_str, json_model, json_text_model, JsonModel};
use crate::merchant::{read_required_business_type, required_business_type, WaveBusinessType};
use vstd::prelude::*;

verus! {

/// The feature flags for aggregated merchants.
#[derive(Debug, Clone, Copy, PartialEq, Eq, Structural)]
pub struct WaveAggregatedMerchantConfig {
    pub enabled: bool,
    pub auto_create_on_profile_creation: bool,
    pub default_business_type: WaveBusinessType,
    pub cache_ttl_seconds: u64,
}

impl Default for WaveAggregatedMerchantConfig {
    fn default() -> (r: Self)
        ensures
            r == Self::default_value(),
    {
        WaveAggregatedMerchantConfig {
            enabled: false,
            auto_create_on_profile_creation: false,
            default_business_type: WaveBusinessType::Ecommerce,
            cache_ttl_seconds: 3600,
        }
    }
}

impl WaveAggregatedMerchantConfig {
    /// The configuration without aggregated merchants: nothing enabled,
    /// the default business type, a cache lifetime of one hour.
    pub open spec fn default_value() -> WaveAggregatedMerchantConfig {
        WaveAggregatedMerchantConfig {
            enabled: false,
            auto_create_on_profile_creation: false,
            default_business_type: WaveBusinessType::Ecommerce,
            cache_ttl_seconds: 3600,
        }
    }

    /// The configuration that a JSON value describes: an object with the
    /// members `enabled`, `auto_create_on_profile_creation`,
    /// `default_business_type` and `cache_ttl_seconds`.
    pub open spec fn decode(m: JsonModel) -> Option<WaveAggregatedMerchantConfig> {
        let enabled = required_boolean(m, "enabled"@);
        let auto_create = required_boolean(m, "auto_create_on_profile_creation"@);
        let business_type = required_business_type(m, "default_business_type"@);
        let cache_ttl = required_unsigned(m, "cache_ttl_seconds"@);
        if enabled is Some && auto_create is Some && business_type is Some && cache_ttl is Some {
            Some(
                WaveAggregatedMerchantConfig {
                    enabled: enabled->0,
                    auto_create_on_profile_creation: auto_create->0,
                    default_business_type: business_type->0,
                    cache_ttl_seconds: cache_ttl->0,
                },
            )
        } else {
            None
        }
    }

    /// The configuration that a parsed blob stands for: the one it
    /// describes, and the default one where it is not JSON or describes
    /// none.
    pub open spec fn of_parsed(parsed: Option<JsonModel>) -> WaveAggregatedMerchantConfig {
        match parsed {
            Some(m) => match Self::decode(m) {
                Some(config) => config,
                None => Self::default_value(),
            },
            None => Self::default_value(),
        }
    }

    /// Reads a configuration from a JSON value.
    pub fn from_json(v: &serde_json::Value) -> (r: Option<WaveAggregatedMerchantConfig>)
        ensures
            r == Self::decode(json_model(*v)),
    {
        let enabled = match read_required_boolean(v, "enabled") {
            Some(x) => x,
            None => return None,
        };
        let auto_create_on_profile_creation = match read_required_boolean(
            v,
            "auto_create_on_profile_creation",
        ) {
            Some(x) => x,
            None => return None,
        };
        let default_business_type = match read_required_business_type(v, "default_business_type") {
            Some(x) => x,
            None => return None,
        };
        let cache_ttl_seconds = match read_required_unsigned(v, "cache_ttl_seconds") {
            Some(x) => x,
            None => return None,
        };
        Some(
            WaveAggregatedMerchantConfig {
                enabled,
                auto_create_on_profile_creation,
                default_business_type,
                cache_ttl_seconds,
            },
        )
    }

    /// The configuration that a parsed blob stands for; see
    /// [`Self::of_parsed`].
    pub fn from_parsed(parsed: Option<&serde_json::Value>) -> (r: WaveAggregatedMerchantConfig)
        ensures
            r == Self::of_parsed(
                match parsed {
                    Some(v) => Some(json_model(*v)),
                    None => None,
                },
            ),
    {
        match parsed {
            Some(v) => match Self::from_json(v) {
                Some(config) => config,
                None => WaveAggregatedMerchantConfig::default(),
            },
            None => WaveAggregatedMerchantConfig::default(),
        }
    }

    /// Reads the configuration blob of an account. A blob that is not JSON,
    /// or that describes no configuration, silently gives the default
    /// configuration.
    pub fn parse_or_default(blob: &str) -> (r: WaveAggregatedMerchantConfig)
        ensures
            r == Self::of_parsed(json_text_model(blob@)),
    {
        let parsed = json_from_str(blob);
        Self::from_parsed(parsed.as_ref())
    }

    /// A blob that cannot be read gives the configuration without
    /// aggregated merchants and with a cache lifetime of one hour.
    pub proof fn lemma_unreadable_blob_gives_defaults(parsed: Option<JsonModel>)
        requires
            parsed is None || Self::decode(parsed->0) is None,
        ensures
            Self::of_parsed(parsed) == Self::default_value(),
            !Self::of_parsed(parsed).enabled,
            Self::of_parsed(parsed).cache_ttl_seconds == 3600,
    {
    }
}

/// The authentication configuration of the adapter.
#[derive(Debug, Clone, PartialEq, Eq)]
pub struct WaveAuthType {
    pub api_key: String,
    pub aggregated_merchants_enabled: bool,
    pub auto_create_aggregated_merchant: bool,
    pub default_business_type: WaveBusinessType,
    pub cache_ttl_seconds: u64,
}

/// Mathematical content of a [`WaveAuthType`].
pub struct WaveAuthTypeView {
    pub api_key: Seq<char>,
    pub aggregated_merchants_enabled: bool,
    pub auto_create_aggregated_merchant: bool,
    pub default_business_type: WaveBusinessType,
    pub cache_ttl_seconds: u64,
}

impl View for WaveAuthType {
    type V = WaveAuthTypeView;

    open spec fn view(&self) -> WaveAuthTypeView {
        WaveAuthTypeView {
            api_key: self.api_key@,
            aggregated_merchants_enabled: self.aggregated_merchants_enabled,
            auto_create_aggregated_merchant: self.auto_create_aggregated_merchant,
            default_business_type: self.default_business_type,
            cache_ttl_seconds: self.cache_ttl_seconds,
        }
    }
}

impl WaveAuthTypeView {
    /// The configuration of a key with the given feature flags.
    pub open spec fn of_config(api_key: Seq<char>, config: WaveAggregatedMerchantConfig) -> WaveAuthTypeView {
        WaveAuthTypeView {
            api_key,
            aggregated_merchants_enabled: config.enabled,
            auto_create_aggregated_merchant: config.auto_create_on_profile_creation,
            default_business_type: config.default_business_type,
            cache_ttl_seconds: config.cache_ttl_seconds,
        }
    }
}

/// The configuration that the authentication data of an account stands
/// for, given what its blob parses to: a key alone has the default flags, a
/// key with a blob has the flags of the blob, anything else has none.
pub open spec fn auth_of(auth_type: ConnectorAuthType, parsed_blob: Option<JsonModel>) -> Option<
    WaveAuthTypeView,
> {
    match auth_type {
        ConnectorAuthType::HeaderKey { api_key } => Some(
            WaveAuthTypeView::of_config(api_key@, WaveAggregatedMerchantConfig::default_value()),
        ),
        ConnectorAuthType::BodyKey { api_key, key1 } => Some(
            WaveAuthTypeView::of_config(api_key@, WaveAggregatedMerchantConfig::of_parsed(parsed_blob)),
        ),
        _ => None,
    }
}

/// What the blob of the authentication data parses to; `None` where it has
/// no blob.
pub open spec fn parsed_blob_of(auth_type: ConnectorAuthType) -> Option<JsonModel> {
    match auth_type {
        ConnectorAuthType::BodyKey { api_key, key1 } => json_text_model(key1@),
        _ => None,
    }
}

impl WaveAuthType {
    /// The configuration of a key with the given feature flags.
    pub fn from_config(api_key: &str, config: WaveAggregatedMerchantConfig) -> (r: WaveAuthType)
        ensures
            r@ == WaveAuthTypeView::of_config(api_key@, config),
    {
        WaveAuthType {
            api_key: api_key.to_owned(),
            aggregated_merchants_enabled: config.enabled,
            auto_create_aggregated_merchant: config.auto_create_on_profile_creation,
            default_business_type: config.default_business_type,
            cache_ttl_seconds: config.cache_ttl_seconds,
        }
    }

    /// Reads the authentication data of an account. It succeeds exactly for
    /// a key alone and for a key with a blob, and fails with
    /// `FailedToObtainAuthType` for every other form. A blob that cannot be
    /// read is no failure: it gives the default flags.
    pub fn try_from(auth_type: &ConnectorAuthType) -> (r: Result<WaveAuthType, ConnectorError>)
        ensures
            match r {
                Ok(auth) => auth_of(*auth_type, parsed_blob_of(*auth_type)) == Some(auth@),
                Err(e) => auth_of(*auth_type, parsed_blob_of(*auth_type)) is None && e@
                    == ConnectorErrorView::FailedToObtainAuthType,
            },
    {
        match auth_type {
            ConnectorAuthType::HeaderKey { api_key } => Ok(
                Self::from_config(api_key.as_str(), WaveAggregatedMerchantConfig::default()),
            ),
            ConnectorAuthType::BodyKey { api_key, key1 } => Ok(
                Self::from_config(
                    api_key.as_str(),
                    WaveAggregatedMerchantConfig::parse_or_default(key1.as_str()),
                ),
            ),
            _ => Err(ConnectorError::FailedToObtainAuthType),
        }
    }
}

} // verus!
