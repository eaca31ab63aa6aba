//! Aggregated merchants: the sub-merchant identities registered with the
//! gateway, the requests that create and change them, and the metadata that
//! a merchant-connector configuration may carry for them.

use crate::decode::{
    optional_boolean, optional_i32, optional_member, optional_text, optional_unsigned, read_all,
    read_optional_boolean, read_optional_i32, read_optional_text, read_optional_unsigned,
    read_required_text, required_member, required_text,
};
use crate::json::{
    json_as_array, json_as_str, json_elements, json_get, json_is_null, json_is_object, json_model, json_text, JsonModel,
};
use crate::text::{opt_text, str_equal};
use vstd::prelude::*;

verus! {

/// Business types that the gateway knows for aggregated merchants.
#[derive(Debug, Clone, Copy, PartialEq, Eq, Structural)]
pub enum WaveBusinessType {
    Ecommerce,
    Mobile,
    Pos,
    Marketplace,
    Subscription,
    Other,
}

impl Default for WaveBusinessType {
    fn default() -> (r: Self)
        ensures
            r == WaveBusinessType::Ecommerce,
    {
        WaveBusinessType::Ecommerce
    }
}

impl WaveBusinessType {
    /// The name of the business type on the wire.
    pub open spec fn wire_name(self) -> Seq<char> {
        match self {
            WaveBusinessType::Ecommerce => "ecommerce"@,
            WaveBusinessType::Mobile => "mobile"@,
            WaveBusinessType::Pos => "pos"@,
            WaveBusinessType::Marketplace => "marketplace"@,
            WaveBusinessType::Subscription => "subscription"@,
            WaveBusinessType::Other => "other"@,
        }
    }

    /// The business type that a wire name stands for.
    pub open spec fn from_wire_name(name: Seq<char>) -> Option<WaveBusinessType> {
        if name == "ecommerce"@ {
            Some(WaveBusinessType::Ecommerce)
        } else if name == "mobile"@ {
            Some(WaveBusinessType::Mobile)
        } else if name == "pos"@ {
            Some(WaveBusinessType::Pos)
        } else if name == "marketplace"@ {
            Some(WaveBusinessType::Marketplace)
        } else if name == "subscription"@ {
            Some(WaveBusinessType::Subscription)
        } else if name == "other"@ {
            Some(WaveBusinessType::Other)
        } else {
            None
        }
    }

    /// The business type that a JSON value stands for: a string that holds
    /// a wire name.
    pub open spec fn decode(m: JsonModel) -> Option<WaveBusinessType> {
        match json_text(m) {
            Some(name) => Self::from_wire_name(name),
            None => None,
        }
    }

    /// The name of the business type on the wire.
    pub fn as_str(&self) -> (r: &'static str)
        ensures
            r@ == self.wire_name(),
    {
        match self {
            WaveBusinessType::Ecommerce => "ecommerce",
            WaveBusinessType::Mobile => "mobile",
            WaveBusinessType::Pos => "pos",
            WaveBusinessType::Marketplace => "marketplace",
            WaveBusinessType::Subscription => "subscription",
            WaveBusinessType::Other => "other",
        }
    }

    /// Reads a wire name.
    pub fn from_str(name: &str) -> (r: Option<WaveBusinessType>)
        ensures
            r == Self::from_wire_name(name@),
    {
        if str_equal(name, "ecommerce") {
            Some(WaveBusinessType::Ecommerce)
        } else if str_equal(name, "mobile") {
            Some(WaveBusinessType::Mobile)
        } else if str_equal(name, "pos") {
            Some(WaveBusinessType::Pos)
        } else if str_equal(name, "marketplace") {
            Some(WaveBusinessType::Marketplace)
        } else if str_equal(name, "subscription") {
            Some(WaveBusinessType::Subscription)
        } else if str_equal(name, "other") {
            Some(WaveBusinessType::Other)
        } else {
            None
        }
    }

    /// Reads a business type from a JSON value.
    pub fn from_json(v: &serde_json::Value) -> (r: Option<WaveBusinessType>)
        ensures
            r == Self::decode(json_model(*v)),
    {
        match json_as_str(v) {
            Some(name) => Self::from_str(name),
            None => None,
        }
    }

    /// Every business type is read back from its own wire name.
    pub proof fn lemma_wire_name_round_trip(self)
        ensures
            Self::from_wire_name(self.wire_name()) == Some(self),
    {
        reveal_strlit("ecommerce");
        reveal_strlit("mobile");
        reveal_strlit("pos");
        reveal_strlit("marketplace");
        reveal_strlit("subscription");
        reveal_strlit("other");
        assert("mobile"@.len() == 6);
        assert("pos"@.len() == 3);
        assert("marketplace"@.len() == 11);
        assert("subscription"@.len() == 12);
        assert("other"@.len() == 5);
    }
}

/// The optional member `key`, a business type.
pub open spec fn optional_business_type(m: JsonModel, key: Seq<char>) -> Option<Option<WaveBusinessType>> {
    optional_member(m, key, |x: JsonModel| WaveBusinessType::decode(x))
}

/// The required member `key`, a business type.
pub open spec fn required_business_type(m: JsonModel, key: Seq<char>) -> Option<WaveBusinessType> {
    required_member(m, key, |x: JsonModel| WaveBusinessType::decode(x))
}

/// Reads the optional member `key`, a business type.
pub fn read_optional_business_type(v: &serde_json::Value, key: &str) -> (r: Option<
    Option<WaveBusinessType>,
>)
    ensures
        r == optional_business_type(json_model(*v), key@),
{
    match json_get(v, key) {
        None => Some(None),
        Some(member) => if json_is_null(member) {
            Some(None)
        } else {
            match WaveBusinessType::from_json(member) {
                Some(business_type) => Some(Some(business_type)),
                None => None,
            }
        },
    }
}

/// Reads the required member `key`, a business type.
pub fn read_required_business_type(v: &serde_json::Value, key: &str) -> (r: Option<WaveBusinessType>)
    ensures
        r == required_business_type(json_model(*v), key@),
{
    match json_get(v, key) {
        None => None,
        Some(member) => WaveBusinessType::from_json(member),
    }
}

/// An aggregated merchant as the gateway reports it.
#[derive(Debug, Clone, PartialEq, Eq)]
pub struct WaveAggregatedMerchant {
    pub id: String,
    pub name: String,
    pub business_type: WaveBusinessType,
    pub business_registration_identifier: Option<String>,
    pub business_sector: Option<String>,
    pub website_url: Option<String>,
    pub business_description: String,
    pub manager_name: Option<String>,
    pub status: String,
    pub created_at: Option<String>,
    pub updated_at: Option<String>,
}

/// Mathematical content of a [`WaveAggregatedMerchant`].
pub struct WaveAggregatedMerchantView {
    pub id: Seq<char>,
    pub name: Seq<char>,
    pub business_type: WaveBusinessType,
    pub business_registration_identifier: Option<Seq<char>>,
    pub business_sector: Option<Seq<char>>,
    pub website_url: Option<Seq<char>>,
    pub business_description: Seq<char>,
    pub manager_name: Option<Seq<char>>,
    pub status: Seq<char>,
    pub created_at: Option<Seq<char>>,
    pub updated_at: Option<Seq<char>>,
}

impl DeepView for WaveAggregatedMerchant {
    type V = WaveAggregatedMerchantView;

    open spec fn deep_view(&self) -> WaveAggregatedMerchantView {
        WaveAggregatedMerchantView {
            id: self.id@,
            name: self.name@,
            business_type: self.business_type,
            business_registration_identifier: opt_text(self.business_registration_identifier),
            business_sector: opt_text(self.business_sector),
            website_url: opt_text(self.website_url),
            business_description: self.business_description@,
            manager_name: opt_text(self.manager_name),
            status: self.status@,
            created_at: opt_text(self.created_at),
            updated_at: opt_text(self.updated_at),
        }
    }
}

impl View for WaveAggregatedMerchant {
    type V = WaveAggregatedMerchantView;

    open spec fn view(&self) -> WaveAggregatedMerchantView {
        self.deep_view()
    }
}

impl WaveAggregatedMerchant {
    /// The merchant that a JSON value describes: an object with the
    /// members `id`, `name`, `business_type`, `business_description` and
    /// `status`, and the optional members of the schema.
    pub open spec fn decode(m: JsonModel) -> Option<WaveAggregatedMerchantView> {
        let id = required_text(m, "id"@);
        let name = required_text(m, "name"@);
        let business_type = required_business_type(m, "business_type"@);
        let identifier = optional_text(m, "business_registration_identifier"@);
        let sector = optional_text(m, "business_sector"@);
        let website = optional_text(m, "website_url"@);
        let description = required_text(m, "business_description"@);
        let manager = optional_text(m, "manager_name"@);
        let status = required_text(m, "status"@);
        let created = optional_text(m, "created_at"@);
        let updated = optional_text(m, "updated_at"@);
        if id is Some && name is Some && business_type is Some && identifier is Some && sector is Some
            && website is Some && description is Some && manager is Some && status is Some
            && created is Some && updated is Some {
            Some(
                WaveAggregatedMerchantView {
                    id: id->0,
                    name: name->0,
                    business_type: business_type->0,
                    business_registration_identifier: identifier->0,
                    business_sector: sector->0,
                    website_url: website->0,
                    business_description: description->0,
                    manager_name: manager->0,
                    status: status->0,
                    created_at: created->0,
                    updated_at: updated->0,
                },
            )
        } else {
            None
        }
    }

    /// Reads a merchant from a JSON value.
    pub fn from_json(v: &serde_json::Value) -> (r: Option<WaveAggregatedMerchant>)
        ensures
            r.deep_view() == Self::decode(json_model(*v)),
    {
        let id = match read_required_text(v, "id") {
            Some(x) => x,
            None => return None,
        };
        let name = match read_required_text(v, "name") {
            Some(x) => x,
            None => return None,
        };
        let business_type = match read_required_business_type(v, "business_type") {
            Some(x) => x,
            None => return None,
        };
        let business_registration_identifier = match read_optional_text(
            v,
            "business_registration_identifier",
        ) {
            Some(x) => x,
            None => return None,
        };
        let business_sector = match read_optional_text(v, "business_sector") {
            Some(x) => x,
            None => return None,
        };
        let website_url = match read_optional_text(v, "website_url") {
            Some(x) => x,
            None => return None,
        };
        let business_description = match read_required_text(v, "business_description") {
            Some(x) => x,
            None => return None,
        };
        let manager_name = match read_optional_text(v, "manager_name") {
            Some(x) => x,
            None => return None,
        };
        let status = match read_required_text(v, "status") {
            Some(x) => x,
            None => return None,
        };
        let created_at = match read_optional_text(v, "created_at") {
            Some(x) => x,
            None => return None,
        };
        let updated_at = match read_optional_text(v, "updated_at") {
            Some(x) => x,
            None => return None,
        };
        Some(
            WaveAggregatedMerchant {
                id,
                name,
                business_type,
                business_registration_identifier,
                business_sector,
                website_url,
                business_description,
                manager_name,
                status,
                created_at,
                updated_at,
            },
        )
    }
}

/// The request that creates an aggregated merchant.
#[derive(Debug, Clone, PartialEq, Eq)]
pub struct WaveAggregatedMerchantRequest {
    pub name: String,
    pub business_type: WaveBusinessType,
    pub business_registration_identifier: Option<String>,
    pub business_sector: Option<String>,
    pub website_url: Option<String>,
    pub business_description: String,
    pub manager_name: Option<String>,
}

/// Mathematical content of a [`WaveAggregatedMerchantRequest`].
pub struct WaveAggregatedMerchantRequestView {
    pub name: Seq<char>,
    pub business_type: WaveBusinessType,
    pub business_registration_identifier: Option<Seq<char>>,
    pub business_sector: Option<Seq<char>>,
    pub website_url: Option<Seq<char>>,
    pub business_description: Seq<char>,
    pub manager_name: Option<Seq<char>>,
}

impl DeepView for WaveAggregatedMerchantRequest {
    type V = WaveAggregatedMerchantRequestView;

    open spec fn deep_view(&self) -> WaveAggregatedMerchantRequestView {
        WaveAggregatedMerchantRequestView {
            name: self.name@,
            business_type: self.business_type,
            business_registration_identifier: opt_text(self.business_registration_identifier),
            business_sector: opt_text(self.business_sector),
            website_url: opt_text(self.website_url),
            business_description: self.business_description@,
            manager_name: opt_text(self.manager_name),
        }
    }
}

impl View for WaveAggregatedMerchantRequest {
    type V = WaveAggregatedMerchantRequestView;

    open spec fn view(&self) -> WaveAggregatedMerchantRequestView {
        self.deep_view()
    }
}

/// The request that changes an aggregated merchant: only the members that
/// are present are changed.
#[derive(Debug, Clone, PartialEq, Eq)]
pub struct WaveAggregatedMerchantUpdateRequest {
    pub name: Option<String>,
    pub business_type: Option<WaveBusinessType>,
    pub business_registration_identifier: Option<String>,
    pub business_sector: Option<String>,
    pub website_url: Option<String>,
    pub business_description: Option<String>,
    pub manager_name: Option<String>,
}

/// Mathematical content of a [`WaveAggregatedMerchantUpdateRequest`].
pub struct WaveAggregatedMerchantUpdateRequestView {
    pub name: Option<Seq<char>>,
    pub business_type: Option<WaveBusinessType>,
    pub business_registration_identifier: Option<Seq<char>>,
    pub business_sector: Option<Seq<char>>,
    pub website_url: Option<Seq<char>>,
    pub business_description: Option<Seq<char>>,
    pub manager_name: Option<Seq<char>>,
}

impl DeepView for WaveAggregatedMerchantUpdateRequest {
    type V = WaveAggregatedMerchantUpdateRequestView;

    open spec fn deep_view(&self) -> WaveAggregatedMerchantUpdateRequestView {
        WaveAggregatedMerchantUpdateRequestView {
            name: opt_text(self.name),
            business_type: self.business_type,
            business_registration_identifier: opt_text(self.business_registration_identifier),
            business_sector: opt_text(self.business_sector),
            website_url: opt_text(self.website_url),
            business_description: opt_text(self.business_description),
            manager_name: opt_text(self.manager_name),
        }
    }
}

impl View for WaveAggregatedMerchantUpdateRequest {
    type V = WaveAggregatedMerchantUpdateRequestView;

    open spec fn view(&self) -> WaveAggregatedMerchantUpdateRequestView {
        self.deep_view()
    }
}

/// One page of the gateway's list of aggregated merchants.
#[derive(Debug, Clone, PartialEq, Eq)]
pub struct WaveAggregatedMerchantListResponse {
    pub aggregated_merchants: Vec<WaveAggregatedMerchant>,
    pub total_count: Option<i32>,
    pub next_cursor: Option<String>,
}

/// Mathematical content of a [`WaveAggregatedMerchantListResponse`].
pub struct WaveAggregatedMerchantListResponseView {
    pub aggregated_merchants: Seq<WaveAggregatedMerchantView>,
    pub total_count: Option<i32>,
    pub next_cursor: Option<Seq<char>>,
}

impl DeepView for WaveAggregatedMerchantListResponse {
    type V = WaveAggregatedMerchantListResponseView;

    open spec fn deep_view(&self) -> WaveAggregatedMerchantListResponseView {
        WaveAggregatedMerchantListResponseView {
            aggregated_merchants: self.aggregated_merchants.deep_view(),
            total_count: self.total_count,
            next_cursor: opt_text(self.next_cursor),
        }
    }
}

impl View for WaveAggregatedMerchantListResponse {
    type V = WaveAggregatedMerchantListResponseView;

    open spec fn view(&self) -> WaveAggregatedMerchantListResponseView {
        self.deep_view()
    }
}

impl WaveAggregatedMerchantListResponse {
    /// The merchants that a JSON value lists: an array of merchants.
    pub open spec fn decode_merchants(m: JsonModel) -> Option<Seq<WaveAggregatedMerchantView>> {
        match json_elements(m) {
            Some(items) => read_all(items, |x: JsonModel| WaveAggregatedMerchant::decode(x)),
            None => None,
        }
    }

    /// The page that a JSON value describes: an object with the member
    /// `aggregated_merchants` and the optional members `total_count` and
    /// `next_cursor`.
    pub open spec fn decode(m: JsonModel) -> Option<WaveAggregatedMerchantListResponseView> {
        let merchants = required_member(
            m,
            "aggregated_merchants"@,
            |x: JsonModel| Self::decode_merchants(x),
        );
        let total_count = optional_i32(m, "total_count"@);
        let next_cursor = optional_text(m, "next_cursor"@);
        if merchants is Some && total_count is Some && next_cursor is Some {
            Some(
                WaveAggregatedMerchantListResponseView {
                    aggregated_merchants: merchants->0,
                    total_count: total_count->0,
                    next_cursor: next_cursor->0,
                },
            )
        } else {
            None
        }
    }

    /// Reads an array of merchants.
    pub fn merchants_from_json(v: &serde_json::Value) -> (r: Option<Vec<WaveAggregatedMerchant>>)
        ensures
            r.deep_view() == Self::decode_merchants(json_model(*v)),
    {
        match json_as_array(v) {
            None => None,
            Some(items) => {
                let ghost models = items@.map_values(|item: serde_json::Value| json_model(item));
                let ghost read = |x: JsonModel| WaveAggregatedMerchant::decode(x);
                let mut out: Vec<WaveAggregatedMerchant> = Vec::new();
                let mut i: usize = 0;
                while i < items.len()
                    invariant
                        i <= items.len(),
                        models == items@.map_values(|item: serde_json::Value| json_model(item)),
                        json_elements(json_model(*v)) == Some(models),
                        read == |x: JsonModel| WaveAggregatedMerchant::decode(x),
                        out@.len() == i,
                        forall|j: int| 0 <= j < i ==> read(#[trigger] models[j]) is Some,
                        forall|j: int|
                            0 <= j < i ==> (#[trigger] out@[j]).deep_view() == read(models[j])->0,
                    decreases items.len() - i,
                {
                    match WaveAggregatedMerchant::from_json(&items[i]) {
                        Some(merchant) => {
                            out.push(merchant);
                        },
                        None => {
                            assert(read(models[i as int]) is None);
                            return None;
                        },
                    }
                    i = i + 1;
                }
                Some(out)
            },
        }
    }

    /// Reads a page from a JSON value.
    pub fn from_json(v: &serde_json::Value) -> (r: Option<WaveAggregatedMerchantListResponse>)
        ensures
            r.deep_view() == Self::decode(json_model(*v)),
    {
        let aggregated_merchants = match json_get(v, "aggregated_merchants") {
            None => return None,
            Some(member) => match Self::merchants_from_json(member) {
                Some(x) => x,
                None => return None,
            },
        };
        let total_count = match read_optional_i32(v, "total_count") {
            Some(x) => x,
            None => return None,
        };
        let next_cursor = match read_optional_text(v, "next_cursor") {
            Some(x) => x,
            None => return None,
        };
        Some(WaveAggregatedMerchantListResponse { aggregated_merchants, total_count, next_cursor })
    }
}

/// What a merchant-connector configuration may say about aggregated
/// merchants. Every member is optional.
#[derive(Debug, Clone, PartialEq, Eq)]
pub struct WaveConnectorMetadata {
    pub aggregated_merchant_id: Option<String>,
    pub aggregated_merchant_name: Option<String>,
    pub auto_create_aggregated_merchant: Option<bool>,
    pub business_type: Option<WaveBusinessType>,
    pub business_description: Option<String>,
    pub manager_name: Option<String>,
    pub business_registration_identifier: Option<String>,
    pub business_sector: Option<String>,
    pub website_url: Option<String>,
    pub cache_enabled: Option<bool>,
    pub cache_ttl_seconds: Option<u64>,
}

/// Mathematical content of a [`WaveConnectorMetadata`].
pub struct WaveConnectorMetadataView {
    pub aggregated_merchant_id: Option<Seq<char>>,
    pub aggregated_merchant_name: Option<Seq<char>>,
    pub auto_create_aggregated_merchant: Option<bool>,
    pub business_type: Option<WaveBusinessType>,
    pub business_description: Option<Seq<char>>,
    pub manager_name: Option<Seq<char>>,
    pub business_registration_identifier: Option<Seq<char>>,
    pub business_sector: Option<Seq<char>>,
    pub website_url: Option<Seq<char>>,
    pub cache_enabled: Option<bool>,
    pub cache_ttl_seconds: Option<u64>,
}

impl DeepView for WaveConnectorMetadata {
    type V = WaveConnectorMetadataView;

    open spec fn deep_view(&self) -> WaveConnectorMetadataView {
        WaveConnectorMetadataView {
            aggregated_merchant_id: opt_text(self.aggregated_merchant_id),
            aggregated_merchant_name: opt_text(self.aggregated_merchant_name),
            auto_create_aggregated_merchant: self.auto_create_aggregated_merchant,
            business_type: self.business_type,
            business_description: opt_text(self.business_description),
            manager_name: opt_text(self.manager_name),
            business_registration_identifier: opt_text(self.business_registration_identifier),
            business_sector: opt_text(self.business_sector),
            website_url: opt_text(self.website_url),
            cache_enabled: self.cache_enabled,
            cache_ttl_seconds: self.cache_ttl_seconds,
        }
    }
}

impl View for WaveConnectorMetadata {
    type V = WaveConnectorMetadataView;

    open spec fn view(&self) -> WaveConnectorMetadataView {
        self.deep_view()
    }
}

impl WaveConnectorMetadataView {
    /// The metadata of a configuration that says nothing of its own:
    /// no auto-creation, the default business type, caching for one hour.
    pub open spec fn default_value() -> WaveConnectorMetadataView {
        WaveConnectorMetadataView {
            aggregated_merchant_id: None,
            aggregated_merchant_name: None,
            auto_create_aggregated_merchant: Some(false),
            business_type: Some(WaveBusinessType::Ecommerce),
            business_description: None,
            manager_name: None,
            business_registration_identifier: None,
            business_sector: None,
            website_url: None,
            cache_enabled: Some(true),
            cache_ttl_seconds: Some(3600),
        }
    }
}

impl Default for WaveConnectorMetadata {
    fn default() -> (r: Self)
        ensures
            r@ == WaveConnectorMetadataView::default_value(),
    {
        WaveConnectorMetadata {
            aggregated_merchant_id: None,
            aggregated_merchant_name: None,
            auto_create_aggregated_merchant: Some(false),
            business_type: Some(WaveBusinessType::Ecommerce),
            business_description: None,
            manager_name: None,
            business_registration_identifier: None,
            business_sector: None,
            website_url: None,
            cache_enabled: Some(true),
            cache_ttl_seconds: Some(3600),
        }
    }
}

impl WaveConnectorMetadata {
    /// The metadata that a JSON value describes: an object in which every
    /// member of the schema that is present is of the right kind.
    pub open spec fn decode(m: JsonModel) -> Option<WaveConnectorMetadataView> {
        let id = optional_text(m, "aggregated_merchant_id"@);
        let name = optional_text(m, "aggregated_merchant_name"@);
        let auto_create = optional_boolean(m, "auto_create_aggregated_merchant"@);
        let business_type = optional_business_type(m, "business_type"@);
        let description = optional_text(m, "business_description"@);
        let manager = optional_text(m, "manager_name"@);
        let identifier = optional_text(m, "business_registration_identifier"@);
        let sector = optional_text(m, "business_sector"@);
        let website = optional_text(m, "website_url"@);
        let cache_enabled = optional_boolean(m, "cache_enabled"@);
        let cache_ttl = optional_unsigned(m, "cache_ttl_seconds"@);
        if m is Object && id is Some && name is Some && auto_create is Some && business_type is Some
            && description is Some && manager is Some && identifier is Some && sector is Some
            && website is Some && cache_enabled is Some && cache_ttl is Some {
            Some(
                WaveConnectorMetadataView {
                    aggregated_merchant_id: id->0,
                    aggregated_merchant_name: name->0,
                    auto_create_aggregated_merchant: auto_create->0,
                    business_type: business_type->0,
                    business_description: description->0,
                    manager_name: manager->0,
                    business_registration_identifier: identifier->0,
                    business_sector: sector->0,
                    website_url: website->0,
                    cache_enabled: cache_enabled->0,
                    cache_ttl_seconds: cache_ttl->0,
                },
            )
        } else {
            None
        }
    }

    /// Reads metadata from a JSON value.
    pub fn from_json(v: &serde_json::Value) -> (r: Option<WaveConnectorMetadata>)
        ensures
            r.deep_view() == Self::decode(json_model(*v)),
    {
        if !json_is_object(v) {
            return None;
        }
        let aggregated_merchant_id = match read_optional_text(v, "aggregated_merchant_id") {
            Some(x) => x,
            None => return None,
        };
        let aggregated_merchant_name = match read_optional_text(v, "aggregated_merchant_name") {
            Some(x) => x,
            None => return None,
        };
        let auto_create_aggregated_merchant = match read_optional_boolean(
            v,
            "auto_create_aggregated_merchant",
        ) {
            Some(x) => x,
            None => return None,
        };
        let business_type = match read_optional_business_type(v, "business_type") {
            Some(x) => x,
            None => return None,
        };
        let business_description = match read_optional_text(v, "business_description") {
            Some(x) => x,
            None => return None,
        };
        let manager_name = match read_optional_text(v, "manager_name") {
            Some(x) => x,
            None => return None,
        };
        let business_registration_identifier = match read_optional_text(
            v,
            "business_registration_identifier",
        ) {
            Some(x) => x,
            None => return None,
        };
        let business_sector = match read_optional_text(v, "business_sector") {
            Some(x) => x,
            None => return None,
        };
        let website_url = match read_optional_text(v, "website_url") {
            Some(x) => x,
            None => return None,
        };
        let cache_enabled = match read_optional_boolean(v, "cache_enabled") {
            Some(x) => x,
            None => return None,
        };
        let cache_ttl_seconds = match read_optional_unsigned(v, "cache_ttl_seconds") {
            Some(x) => x,
            None => return None,
        };
        Some(
            WaveConnectorMetadata {
                aggregated_merchant_id,
                aggregated_merchant_name,
                auto_create_aggregated_merchant,
                business_type,
                business_description,
                manager_name,
                business_registration_identifier,
                business_sector,
                website_url,
                cache_enabled,
                cache_ttl_seconds,
            },
        )
    }
}

} // verus!
