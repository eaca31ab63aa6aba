//! The validation rules for aggregated-merchant metadata and requests.
//!
//! The rules are pure: they are checked before any call to the gateway is
//! prepared. Each rule that is violated is reported by a description that
//! names the field and the constraint; where several are violated, the first
//! in the order of the rules is reported.

use crate::errors::{WaveAggregatedMerchantError, WaveAggregatedMerchantErrorView};
use crate::merchant::{
    WaveAggregatedMerchantRequest, WaveAggregatedMerchantRequestView,
    WaveAggregatedMerchantUpdateRequest, WaveAggregatedMerchantUpdateRequestView, WaveBusinessType,
    WaveConnectorMetadata, WaveConnectorMetadataView,
};
use crate::text::{
    char_len, clone_opt_text, concat2, is_blank, opt_text, str_is_blank, str_starts_with,
};
use vstd::prelude::*;

verus! {

/// Most characters in the name of a merchant or of a profile.
pub const MAX_NAME_CHARS: usize = 255;

/// Most characters in a business description.
pub const MAX_DESCRIPTION_CHARS: usize = 500;

/// Most characters in the name of a manager.
pub const MAX_MANAGER_NAME_CHARS: usize = 100;

/// Most characters in a website address.
pub const MAX_WEBSITE_URL_CHARS: usize = 2083;

/// Most characters in a business registration identifier.
pub const MAX_REGISTRATION_IDENTIFIER_CHARS: usize = 50;

/// Most characters in a business sector.
pub const MAX_BUSINESS_SECTOR_CHARS: usize = 100;

/// Shortest cache lifetime: one minute.
pub const MIN_CACHE_TTL_SECONDS: u64 = 60;

/// Longest cache lifetime: 24 hours.
pub const MAX_CACHE_TTL_SECONDS: u64 = 86400;

/// Cache lifetime where the metadata names none: one hour.
pub const DEFAULT_CACHE_TTL_SECONDS: u64 = 3600;

/// The format of an aggregated-merchant id: `am-` and at least one more
/// character. Whether such a merchant exists is for the gateway to say.
pub open spec fn valid_merchant_id(id: Seq<char>) -> bool {
    "am-"@.is_prefix_of(id) && id.len() >= 4
}

/// A website address begins with `http://` or `https://`.
pub open spec fn has_web_scheme(url: Seq<char>) -> bool {
    "http://"@.is_prefix_of(url) || "https://"@.is_prefix_of(url)
}

/// The first rule that an optional website address violates.
pub open spec fn website_violation(url: Option<Seq<char>>) -> Option<Seq<char>> {
    match url {
        Some(u) => if u.len() > MAX_WEBSITE_URL_CHARS {
            Some("Website URL cannot exceed 2083 characters"@)
        } else if !has_web_scheme(u) {
            Some("Website URL must start with 'http://' or 'https://'"@)
        } else {
            None
        },
        None => None,
    }
}

/// The rule that an optional registration identifier may violate.
pub open spec fn identifier_violation(identifier: Option<Seq<char>>) -> Option<Seq<char>> {
    match identifier {
        Some(i) => if i.len() > MAX_REGISTRATION_IDENTIFIER_CHARS {
            Some("Business registration identifier cannot exceed 50 characters"@)
        } else {
            None
        },
        None => None,
    }
}

/// The rule that an optional business sector may violate.
pub open spec fn sector_violation(sector: Option<Seq<char>>) -> Option<Seq<char>> {
    match sector {
        Some(s) => if s.len() > MAX_BUSINESS_SECTOR_CHARS {
            Some("Business sector cannot exceed 100 characters"@)
        } else {
            None
        },
        None => None,
    }
}

/// The first rule that an optional manager name violates.
pub open spec fn manager_violation(manager: Option<Seq<char>>) -> Option<Seq<char>> {
    match manager {
        Some(n) => if n.len() > MAX_MANAGER_NAME_CHARS {
            Some("Manager name cannot exceed 100 characters"@)
        } else if is_blank(n) {
            Some("Manager name cannot be empty or only whitespace"@)
        } else {
            None
        },
        None => None,
    }
}

/// The first rule that an optional aggregated-merchant id violates.
pub open spec fn merchant_id_violation(id: Option<Seq<char>>) -> Option<Seq<char>> {
    match id {
        Some(i) => if i.len() == 0 {
            Some("Aggregated merchant ID cannot be empty"@)
        } else if !valid_merchant_id(i) {
            Some("Aggregated merchant ID must start with 'am-' and be properly formatted"@)
        } else {
            None
        },
        None => None,
    }
}

/// The first rule that an optional business description violates.
pub open spec fn description_violation(description: Option<Seq<char>>) -> Option<Seq<char>> {
    match description {
        Some(d) => if d.len() > MAX_DESCRIPTION_CHARS {
            Some("Business description cannot exceed 500 characters"@)
        } else if is_blank(d) {
            Some("Business description cannot be empty or only whitespace"@)
        } else {
            None
        },
        None => None,
    }
}

/// Auto-creation and an explicit aggregated-merchant id exclude each other.
pub open spec fn exclusion_violation(m: WaveConnectorMetadataView) -> Option<Seq<char>> {
    if m.auto_create_aggregated_merchant == Some(true) && m.aggregated_merchant_id is Some {
        Some("Cannot enable auto-create when aggregated merchant ID is already specified"@)
    } else {
        None
    }
}

/// The rule that an optional cache lifetime may violate.
pub open spec fn cache_ttl_violation(ttl: Option<u64>) -> Option<Seq<char>> {
    match ttl {
        Some(t) => if t < MIN_CACHE_TTL_SECONDS || t > MAX_CACHE_TTL_SECONDS {
            Some("Cache TTL must be between 60 seconds and 24 hours"@)
        } else {
            None
        },
        None => None,
    }
}

/// The first of two violations: the second counts only where there is no first.
pub open spec fn or_else(first: Option<Seq<char>>, second: Option<Seq<char>>) -> Option<Seq<char>> {
    if first is Some {
        first
    } else {
        second
    }
}

/// The description of the first rule that the metadata violates, in this
/// order: merchant id, business description, manager name, website,
/// registration identifier, business sector, the exclusion of auto-creation
/// and explicit id, cache lifetime. `None` where the metadata is valid.
pub open spec fn metadata_violation(m: WaveConnectorMetadataView) -> Option<Seq<char>> {
    or_else(
        merchant_id_violation(m.aggregated_merchant_id),
        or_else(
            description_violation(m.business_description),
            or_else(
                manager_violation(m.manager_name),
                or_else(
                    website_violation(m.website_url),
                    or_else(
                        identifier_violation(m.business_registration_identifier),
                        or_else(
                            sector_violation(m.business_sector),
                            or_else(exclusion_violation(m), cache_ttl_violation(m.cache_ttl_seconds)),
                        ),
                    ),
                ),
            ),
        ),
    )
}

/// What auto-creation asks of the metadata and the profile beyond the
/// basic rules: a business type, and a profile name of 1 to 255 characters.
pub open spec fn auto_creation_violation(m: WaveConnectorMetadataView, profile_name: Seq<char>) -> Option<
    Seq<char>,
> {
    if m.auto_create_aggregated_merchant == Some(true) {
        if m.business_type is None {
            Some("Business type is required for auto-creation of aggregated merchants"@)
        } else if profile_name.len() == 0 || profile_name.len() > MAX_NAME_CHARS {
            Some("Profile name must be between 1 and 255 characters for auto-creation"@)
        } else {
            None
        }
    } else {
        None
    }
}

/// The first rule that the metadata violates for the given profile: the
/// basic rules first, then those of auto-creation.
pub open spec fn enhanced_metadata_violation(
    m: WaveConnectorMetadataView,
    profile_name: Seq<char>,
) -> Option<Seq<char>> {
    or_else(metadata_violation(m), auto_creation_violation(m, profile_name))
}

/// The first rule that the name of a merchant violates.
pub open spec fn name_violation(name: Seq<char>) -> Option<Seq<char>> {
    if name.len() == 0 || name.len() > MAX_NAME_CHARS {
        Some("Merchant name must be between 1 and 255 characters"@)
    } else {
        None
    }
}

/// The first rule that the business description of a request violates.
pub open spec fn required_description_violation(description: Seq<char>) -> Option<Seq<char>> {
    if description.len() == 0 {
        Some("Business description is required"@)
    } else {
        description_violation(Some(description))
    }
}

/// The description of the first rule that a creation request violates, in
/// this order: name, business description, website, registration
/// identifier, business sector, manager name. `None` where it is valid.
pub open spec fn request_violation(r: WaveAggregatedMerchantRequestView) -> Option<Seq<char>> {
    or_else(
        name_violation(r.name),
        or_else(
            required_description_violation(r.business_description),
            or_else(
                website_violation(r.website_url),
                or_else(
                    identifier_violation(r.business_registration_identifier),
                    or_else(sector_violation(r.business_sector), manager_violation(r.manager_name)),
                ),
            ),
        ),
    )
}

/// The description of the first rule that an update request violates: the
/// name and the business description, where they are present, then the
/// website, the registration identifier, the business sector and the
/// manager name. `None` where it is valid.
pub open spec fn update_violation(r: WaveAggregatedMerchantUpdateRequestView) -> Option<Seq<char>> {
    or_else(
        match r.name {
            Some(name) => name_violation(name),
            None => None,
        },
        or_else(
            match r.business_description {
                Some(d) => if d.len() == 0 || d.len() > MAX_DESCRIPTION_CHARS {
                    Some("Business description must be between 1 and 500 characters"@)
                } else if is_blank(d) {
                    Some("Business description cannot be empty or only whitespace"@)
                } else {
                    None
                },
                None => None,
            },
            or_else(
                website_violation(r.website_url),
                or_else(
                    identifier_violation(r.business_registration_identifier),
                    or_else(sector_violation(r.business_sector), manager_violation(r.manager_name)),
                ),
            ),
        ),
    )
}

/// The outcome of a validation that found `violation`.
pub open spec fn validation_outcome(
    r: Result<(), WaveAggregatedMerchantError>,
    violation: Option<Seq<char>>,
) -> bool {
    match r {
        Ok(_) => violation is None,
        Err(e) => violation is Some && e@ == (WaveAggregatedMerchantErrorView::InvalidConfiguration {
            details: violation->0,
        }),
    }
}

/// The description used where the metadata gives none.
pub open spec fn default_description(profile_name: Seq<char>) -> Seq<char> {
    "Payment processing for "@ + profile_name
}

/// The business description under which a merchant is created for a
/// profile: that of the metadata, else the default one.
pub open spec fn effective_description(
    profile_name: Seq<char>,
    metadata: Option<WaveConnectorMetadataView>,
) -> Seq<char> {
    match metadata {
        Some(WaveConnectorMetadataView { business_description: Some(d), .. }) => d,
        _ => default_description(profile_name),
    }
}

/// The creation request for a profile: the name of the profile, and from
/// the metadata whatever it says, with the default business type and the
/// default description where it is silent.
pub open spec fn profile_request(
    profile_name: Seq<char>,
    metadata: Option<WaveConnectorMetadataView>,
) -> WaveAggregatedMerchantRequestView {
    match metadata {
        Some(m) => WaveAggregatedMerchantRequestView {
            name: profile_name,
            business_type: match m.business_type {
                Some(t) => t,
                None => WaveBusinessType::Ecommerce,
            },
            business_registration_identifier: m.business_registration_identifier,
            business_sector: m.business_sector,
            website_url: m.website_url,
            business_description: effective_description(profile_name, metadata),
            manager_name: m.manager_name,
        },
        None => WaveAggregatedMerchantRequestView {
            name: profile_name,
            business_type: WaveBusinessType::Ecommerce,
            business_registration_identifier: None,
            business_sector: None,
            website_url: None,
            business_description: default_description(profile_name),
            manager_name: None,
        },
    }
}

/// The first rule violated when a creation request is built for a profile:
/// those of the metadata, where there is any, then those of the request.
pub open spec fn profile_request_violation(
    profile_name: Seq<char>,
    metadata: Option<WaveConnectorMetadataView>,
) -> Option<Seq<char>> {
    let of_request = request_violation(profile_request(profile_name, metadata));
    match metadata {
        Some(m) => or_else(enhanced_metadata_violation(m, profile_name), of_request),
        None => of_request,
    }
}

/// Whether `id` has the format of an aggregated-merchant id.
pub fn is_valid_merchant_id(id: &str) -> (r: bool)
    ensures
        r == valid_merchant_id(id@),
{
    str_starts_with(id, "am-") && char_len(id) >= 4
}

fn check_merchant_id(id: &Option<String>) -> (r: Option<&'static str>)
    ensures
        r.deep_view() == merchant_id_violation(opt_text(*id)),
{
    match id {
        Some(i) => if char_len(i.as_str()) == 0 {
            Some("Aggregated merchant ID cannot be empty")
        } else if !is_valid_merchant_id(i.as_str()) {
            Some("Aggregated merchant ID must start with 'am-' and be properly formatted")
        } else {
            None
        },
        None => None,
    }
}

fn check_description(description: &Option<String>) -> (r: Option<&'static str>)
    ensures
        r.deep_view() == description_violation(opt_text(*description)),
{
    match description {
        Some(d) => if char_len(d.as_str()) > MAX_DESCRIPTION_CHARS {
            Some("Business description cannot exceed 500 characters")
        } else if str_is_blank(d.as_str()) {
            Some("Business description cannot be empty or only whitespace")
        } else {
            None
        },
        None => None,
    }
}

fn check_manager(manager: &Option<String>) -> (r: Option<&'static str>)
    ensures
        r.deep_view() == manager_violation(opt_text(*manager)),
{
    match manager {
        Some(n) => if char_len(n.as_str()) > MAX_MANAGER_NAME_CHARS {
            Some("Manager name cannot exceed 100 characters")
        } else if str_is_blank(n.as_str()) {
            Some("Manager name cannot be empty or only whitespace")
        } else {
            None
        },
        None => None,
    }
}

fn check_website(url: &Option<String>) -> (r: Option<&'static str>)
    ensures
        r.deep_view() == website_violation(opt_text(*url)),
{
    match url {
        Some(u) => if char_len(u.as_str()) > MAX_WEBSITE_URL_CHARS {
            Some("Website URL cannot exceed 2083 characters")
        } else if !str_starts_with(u.as_str(), "http://") && !str_starts_with(u.as_str(), "https://") {
            Some("Website URL must start with 'http://' or 'https://'")
        } else {
            None
        },
        None => None,
    }
}

fn check_identifier(identifier: &Option<String>) -> (r: Option<&'static str>)
    ensures
        r.deep_view() == identifier_violation(opt_text(*identifier)),
{
    match identifier {
        Some(i) => if char_len(i.as_str()) > MAX_REGISTRATION_IDENTIFIER_CHARS {
            Some("Business registration identifier cannot exceed 50 characters")
        } else {
            None
        },
        None => None,
    }
}

fn check_sector(sector: &Option<String>) -> (r: Option<&'static str>)
    ensures
        r.deep_view() == sector_violation(opt_text(*sector)),
{
    match sector {
        Some(s) => if char_len(s.as_str()) > MAX_BUSINESS_SECTOR_CHARS {
            Some("Business sector cannot exceed 100 characters")
        } else {
            None
        },
        None => None,
    }
}

/// Finds the first rule that the website, the registration identifier, the
/// business sector or the manager name violates, in this order.
pub fn check_optional_fields(
    website_url: &Option<String>,
    identifier: &Option<String>,
    sector: &Option<String>,
    manager: &Option<String>,
) -> (r: Option<&'static str>)
    ensures
        r.deep_view() == or_else(
            website_violation(opt_text(*website_url)),
            or_else(
                identifier_violation(opt_text(*identifier)),
                or_else(
                    sector_violation(opt_text(*sector)),
                    manager_violation(opt_text(*manager)),
                ),
            ),
        ),
{
    let website = check_website(website_url);
    if website.is_some() {
        return website;
    }
    let of_identifier = check_identifier(identifier);
    if of_identifier.is_some() {
        return of_identifier;
    }
    let of_sector = check_sector(sector);
    if of_sector.is_some() {
        return of_sector;
    }
    check_manager(manager)
}

/// Finds the first rule that the metadata violates.
pub fn find_metadata_violation(metadata: &WaveConnectorMetadata) -> (r: Option<&'static str>)
    ensures
        r.deep_view() == metadata_violation(metadata@),
{
    let of_id = check_merchant_id(&metadata.aggregated_merchant_id);
    if of_id.is_some() {
        return of_id;
    }
    let of_description = check_description(&metadata.business_description);
    if of_description.is_some() {
        return of_description;
    }
    let of_manager = check_manager(&metadata.manager_name);
    if of_manager.is_some() {
        return of_manager;
    }
    let of_website = check_website(&metadata.website_url);
    if of_website.is_some() {
        return of_website;
    }
    let of_identifier = check_identifier(&metadata.business_registration_identifier);
    if of_identifier.is_some() {
        return of_identifier;
    }
    let of_sector = check_sector(&metadata.business_sector);
    if of_sector.is_some() {
        return of_sector;
    }
    if metadata.auto_create_aggregated_merchant == Some(true)
        && metadata.aggregated_merchant_id.is_some() {
        return Some("Cannot enable auto-create when aggregated merchant ID is already specified");
    }
    match metadata.cache_ttl_seconds {
        Some(ttl) => if ttl < MIN_CACHE_TTL_SECONDS || ttl > MAX_CACHE_TTL_SECONDS {
            Some("Cache TTL must be between 60 seconds and 24 hours")
        } else {
            None
        },
        None => None,
    }
}

/// Finds the first rule that a creation request violates.
pub fn find_request_violation(request: &WaveAggregatedMerchantRequest) -> (r: Option<&'static str>)
    ensures
        r.deep_view() == request_violation(request@),
{
    let name_chars = char_len(request.name.as_str());
    if name_chars == 0 || name_chars > MAX_NAME_CHARS {
        return Some("Merchant name must be between 1 and 255 characters");
    }
    let description_chars = char_len(request.business_description.as_str());
    if description_chars == 0 {
        return Some("Business description is required");
    }
    if description_chars > MAX_DESCRIPTION_CHARS {
        return Some("Business description cannot exceed 500 characters");
    }
    if str_is_blank(request.business_description.as_str()) {
        return Some("Business description cannot be empty or only whitespace");
    }
    check_optional_fields(
        &request.website_url,
        &request.business_registration_identifier,
        &request.business_sector,
        &request.manager_name,
    )
}

/// Finds the first rule that an update request violates.
pub fn find_update_violation(request: &WaveAggregatedMerchantUpdateRequest) -> (r: Option<
    &'static str,
>)
    ensures
        r.deep_view() == update_violation(request@),
{
    match &request.name {
        Some(name) => {
            let name_chars = char_len(name.as_str());
            if name_chars == 0 || name_chars > MAX_NAME_CHARS {
                return Some("Merchant name must be between 1 and 255 characters");
            }
        },
        None => {},
    }
    match &request.business_description {
        Some(d) => {
            let description_chars = char_len(d.as_str());
            if description_chars == 0 || description_chars > MAX_DESCRIPTION_CHARS {
                return Some("Business description must be between 1 and 500 characters");
            }
            if str_is_blank(d.as_str()) {
                return Some("Business description cannot be empty or only whitespace");
            }
        },
        None => {},
    }
    check_optional_fields(
        &request.website_url,
        &request.business_registration_identifier,
        &request.business_sector,
        &request.manager_name,
    )
}

fn outcome_of(violation: Option<&'static str>) -> (r: Result<(), WaveAggregatedMerchantError>)
    ensures
        validation_outcome(r, violation.deep_view()),
{
    match violation {
        Some(details) => Err(WaveAggregatedMerchantError::invalid_configuration(details)),
        None => Ok(()),
    }
}

/// Checks the metadata against the basic rules. It fails, with the
/// description of the first rule violated, exactly where one is violated.
pub fn validate_wave_connector_metadata(metadata: &WaveConnectorMetadata) -> (r: Result<
    (),
    WaveAggregatedMerchantError,
>)
    ensures
        validation_outcome(r, metadata_violation(metadata@)),
{
    outcome_of(find_metadata_violation(metadata))
}

/// Checks the metadata against the basic rules and, where it asks for
/// auto-creation, against those of auto-creation for the given profile.
pub fn validate_enhanced_wave_connector_metadata(
    metadata: &WaveConnectorMetadata,
    profile_name: &str,
) -> (r: Result<(), WaveAggregatedMerchantError>)
    ensures
        validation_outcome(r, enhanced_metadata_violation(metadata@, profile_name@)),
{
    let basic = find_metadata_violation(metadata);
    if basic.is_some() {
        return outcome_of(basic);
    }
    if metadata.auto_create_aggregated_merchant == Some(true) {
        if metadata.business_type.is_none() {
            return outcome_of(
                Some("Business type is required for auto-creation of aggregated merchants"),
            );
        }
        let name_chars = char_len(profile_name);
        if name_chars == 0 || name_chars > MAX_NAME_CHARS {
            return outcome_of(
                Some("Profile name must be between 1 and 255 characters for auto-creation"),
            );
        }
    }
    Ok(())
}

/// Checks a creation request before it is sent. It fails, with the
/// description of the first rule violated, exactly where one is violated.
pub fn validate_wave_aggregated_merchant_request(request: &WaveAggregatedMerchantRequest) -> (r:
    Result<(), WaveAggregatedMerchantError>)
    ensures
        validation_outcome(r, request_violation(request@)),
{
    outcome_of(find_request_violation(request))
}

/// The business description under which a merchant is created for a
/// profile.
pub fn get_effective_business_description(
    profile_name: &str,
    metadata: Option<&WaveConnectorMetadata>,
) -> (r: String)
    ensures
        r@ == effective_description(profile_name@, metadata.deep_view()),
{
    match metadata {
        Some(m) => match &m.business_description {
            Some(d) => d.clone(),
            None => concat2("Payment processing for ", profile_name),
        },
        None => concat2("Payment processing for ", profile_name),
    }
}

/// Builds the creation request for a profile. It fails exactly where the
/// metadata or the request built from it violates a rule, with the
/// description of the first rule violated.
pub fn build_aggregated_merchant_request_from_profile(
    profile_name: &str,
    metadata: Option<&WaveConnectorMetadata>,
) -> (r: Result<WaveAggregatedMerchantRequest, WaveAggregatedMerchantError>)
    ensures
        match r {
            Ok(request) => {
                &&& profile_request_violation(profile_name@, metadata.deep_view()) is None
                &&& request@ == profile_request(profile_name@, metadata.deep_view())
            },
            Err(e) => {
                &&& profile_request_violation(profile_name@, metadata.deep_view()) is Some
                &&& e@ == (WaveAggregatedMerchantErrorView::InvalidConfiguration {
                    details: profile_request_violation(profile_name@, metadata.deep_view())->0,
                })
            },
        },
{
    let request = match metadata {
        Some(m) => {
            match validate_enhanced_wave_connector_metadata(m, profile_name) {
                Err(e) => {
                    return Err(e);
                },
                Ok(_) => {},
            }
            WaveAggregatedMerchantRequest {
                name: profile_name.to_owned(),
                business_type: match m.business_type {
                    Some(t) => t,
                    None => WaveBusinessType::default(),
                },
                business_registration_identifier: clone_opt_text(&m.business_registration_identifier),
                business_sector: clone_opt_text(&m.business_sector),
                website_url: clone_opt_text(&m.website_url),
                business_description: get_effective_business_description(profile_name, metadata),
                manager_name: clone_opt_text(&m.manager_name),
            }
        },
        None => WaveAggregatedMerchantRequest {
            name: profile_name.to_owned(),
            business_type: WaveBusinessType::default(),
            business_registration_identifier: None,
            business_sector: None,
            website_url: None,
            business_description: get_effective_business_description(profile_name, metadata),
            manager_name: None,
        },
    };
    match validate_wave_aggregated_merchant_request(&request) {
        Err(e) => Err(e),
        Ok(_) => Ok(request),
    }
}

/// Whether the configuration is ready for auto-creation: it asks for it,
/// names no merchant of its own, and gives a business type.
pub fn is_auto_creation_ready(metadata: &Option<WaveConnectorMetadata>) -> (r: bool)
    ensures
        r == match *metadata {
            Some(m) => m.auto_create_aggregated_merchant == Some(true)
                && m.aggregated_merchant_id is None && m.business_type is Some,
            None => false,
        },
{
    match metadata {
        Some(m) => {
            let wanted = match m.auto_create_aggregated_merchant {
                Some(flag) => flag,
                None => false,
            };
            wanted && m.aggregated_merchant_id.is_none() && m.business_type.is_some()
        },
        None => false,
    }
}

/// Whether aggregated-merchant data may be cached: as the metadata says,
/// and yes where it is silent.
pub fn is_caching_enabled(metadata: &Option<WaveConnectorMetadata>) -> (r: bool)
    ensures
        r == match *metadata {
            Some(WaveConnectorMetadata { cache_enabled: Some(flag), .. }) => flag,
            _ => true,
        },
{
    match metadata {
        Some(m) => match m.cache_enabled {
            Some(flag) => flag,
            None => true,
        },
        None => true,
    }
}

/// For how many seconds aggregated-merchant data may be cached: as the
/// metadata says, and one hour where it is silent.
pub fn get_cache_ttl_seconds(metadata: &Option<WaveConnectorMetadata>) -> (r: u64)
    ensures
        r == match *metadata {
            Some(WaveConnectorMetadata { cache_ttl_seconds: Some(ttl), .. }) => ttl,
            _ => DEFAULT_CACHE_TTL_SECONDS,
        },
{
    match metadata {
        Some(m) => match m.cache_ttl_seconds {
            Some(ttl) => ttl,
            None => DEFAULT_CACHE_TTL_SECONDS,
        },
        None => DEFAULT_CACHE_TTL_SECONDS,
    }
}

/// Metadata with an id that lacks the format of an aggregated-merchant id
/// is never valid.
pub proof fn lemma_malformed_merchant_id_is_rejected(m: WaveConnectorMetadataView)
    requires
        m.aggregated_merchant_id is Some,
        !valid_merchant_id(m.aggregated_merchant_id->0),
    ensures
        metadata_violation(m) is Some,
{
}

/// An id with the format of an aggregated-merchant id violates no rule:
/// metadata that is valid without an id, and does not ask for auto-creation,
/// is valid with it. Whether the merchant exists plays no part.
pub proof fn lemma_well_formed_merchant_id_is_accepted(m: WaveConnectorMetadataView, id: Seq<char>)
    requires
        valid_merchant_id(id),
        m.auto_create_aggregated_merchant != Some(true),
        metadata_violation(WaveConnectorMetadataView { aggregated_merchant_id: None, ..m }) is None,
    ensures
        merchant_id_violation(Some(id)) is None,
        metadata_violation(WaveConnectorMetadataView { aggregated_merchant_id: Some(id), ..m })
            is None,
{
}

/// Metadata that asks for auto-creation and names a merchant of its own is
/// never valid, whatever else it holds.
pub proof fn lemma_auto_create_excludes_explicit_id(m: WaveConnectorMetadataView)
    requires
        m.auto_create_aggregated_merchant == Some(true),
        m.aggregated_merchant_id is Some,
    ensures
        metadata_violation(m) is Some,
{
}

/// A business description of more than 500 characters is never valid, in
/// metadata or in a request.
pub proof fn lemma_long_description_is_rejected(
    m: WaveConnectorMetadataView,
    r: WaveAggregatedMerchantRequestView,
)
    ensures
        m.business_description is Some && m.business_description->0.len() > 500
            ==> metadata_violation(m) is Some,
        r.business_description.len() > 500 ==> request_violation(r) is Some,
{
}

/// A business description of 1 to 500 characters that is not blank
/// violates no rule: metadata and requests that are valid otherwise are
/// valid with it.
pub proof fn lemma_description_within_limit_is_accepted(
    m: WaveConnectorMetadataView,
    r: WaveAggregatedMerchantRequestView,
    description: Seq<char>,
)
    requires
        1 <= description.len() <= 500,
        !is_blank(description),
    ensures
        description_violation(Some(description)) is None,
        metadata_violation(WaveConnectorMetadataView { business_description: None, ..m }) is None
            ==> metadata_violation(
            WaveConnectorMetadataView { business_description: Some(description), ..m },
        ) is None,
        request_violation(r) is None ==> request_violation(
            WaveAggregatedMerchantRequestView { business_description: description, ..r },
        ) is None,
{
}

} // verus!
