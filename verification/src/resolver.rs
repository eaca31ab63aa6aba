//! The resolution engine for aggregated merchants.
//!
//! Resolution decides which aggregated merchant, if any, a payment runs
//! under. It needs calls to the gateway, which the engine does not make: it
//! is a step function. The caller starts it, sends each request that a step
//! asks for, reads the outcome with the remote service and hands it back,
//! until a step says that resolution is finished.
//!
//! No failure on the way fails the payment. What a step passes over in
//! silence (a configured merchant that counts as not found, a creation that
//! a rule refuses, a strategy without support) it hands back as notes, for
//! the caller to log.

use crate::auth::{WaveAuthType, WaveAuthTypeView};
use crate::canonical::PaymentsAuthorizeRouterData;
use crate::errors::{ConnectorError, ConnectorErrorView, WaveAggregatedMerchantErrorView};
use crate::http::{Request, RequestView};
use crate::merchant::{WaveAggregatedMerchant, WaveConnectorMetadata, WaveConnectorMetadataView};
use crate::requests::{configured_metadata, extract_wave_connector_metadata};
use crate::service::{creation_call, lookup_call, WaveAggregatedMerchantService};
use crate::text::{clone_opt_text, concat2, opt_text};
use crate::validation::{
    build_aggregated_merchant_request_from_profile, profile_request, profile_request_violation,
};
use vstd::prelude::*;

verus! {

/// How often the existence of a configured merchant is looked up before it
/// counts as not found.
pub const MAX_VALIDATION_ATTEMPTS: u8 = 3;

/// What to try where the primary resolution yields no merchant.
#[derive(Debug, Clone, Copy, PartialEq, Eq, Structural)]
pub enum AggregatedMerchantFallbackStrategy {
    /// Reserved for a default merchant; not yet supported, so the next
    /// strategy is tried.
    UseDefault,
    /// Create a merchant for this payment, without metadata.
    CreateTemporary,
    /// Go on without a merchant.
    Skip,
}

/// The call to the gateway that a step is waiting for.
#[derive(Debug, Clone, Copy, PartialEq, Eq, Structural)]
pub enum PendingCall {
    /// A lookup of the configured merchant, after `failed_attempts` lookups
    /// that failed.
    Validation { failed_attempts: u8 },
    /// The creation of a merchant by the primary resolution.
    Creation,
    /// The creation of a merchant for the fallback strategy at `index`.
    TemporaryCreation { index: usize },
}

/// What the engine is told.
#[derive(Debug)]
pub enum ResolutionEvent {
    /// Resolution begins.
    Start,
    /// The call that the last step asked for has ended in `reply`.
    Reply { call: PendingCall, reply: Result<WaveAggregatedMerchant, ConnectorError> },
}

/// Mathematical content of a [`ResolutionEvent`]: of a reply only the id of
/// the merchant matters, and whether there is one.
pub enum ResolutionEventView {
    Start,
    Reply { call: PendingCall, merchant_id: Option<Seq<char>> },
}

impl View for ResolutionEvent {
    type V = ResolutionEventView;

    open spec fn view(&self) -> ResolutionEventView {
        match *self {
            ResolutionEvent::Start => ResolutionEventView::Start,
            ResolutionEvent::Reply { call, reply } => ResolutionEventView::Reply {
                call,
                merchant_id: match reply {
                    Ok(merchant) => Some(merchant.id@),
                    Err(_) => None,
                },
            },
        }
    }
}

/// What the engine asks of its caller.
#[derive(Debug, Clone, PartialEq, Eq)]
pub enum ResolutionStep {
    /// Send `request`, and come back with the reply to `call`.
    Send { request: Request, call: PendingCall },
    /// Resolution is over: the payment runs under this merchant, or under
    /// none.
    Finished(Option<String>),
}

/// Mathematical content of a [`ResolutionStep`].
pub enum ResolutionStepView {
    Send { request: RequestView, call: PendingCall },
    Finished(Option<Seq<char>>),
}

impl View for ResolutionStep {
    type V = ResolutionStepView;

    open spec fn view(&self) -> ResolutionStepView {
        match *self {
            ResolutionStep::Send { request, call } => ResolutionStepView::Send { request: request@, call },
            ResolutionStep::Finished(id) => ResolutionStepView::Finished(opt_text(id)),
        }
    }
}

/// What a step has passed over in silence. Nothing of it changes the
/// outcome; it is there to be logged.
#[derive(Debug, Clone, PartialEq, Eq)]
pub enum ResolutionNote {
    /// The configured merchant counts as not found and no lookup is sent:
    /// its id is malformed, or three lookups have failed.
    MerchantNotAccessible { merchant_id: String },
    /// No merchant is created for `call`: the request violates a rule,
    /// which `error` describes.
    CreationRefused { call: PendingCall, error: ConnectorError },
    /// The strategy at `index` is not yet supported and is passed over.
    StrategyNotSupported { index: usize },
}

/// Mathematical content of a [`ResolutionNote`].
pub enum ResolutionNoteView {
    MerchantNotAccessible { merchant_id: Seq<char> },
    CreationRefused { call: PendingCall, error: ConnectorErrorView },
    StrategyNotSupported { index: usize },
}

impl DeepView for ResolutionNote {
    type V = ResolutionNoteView;

    open spec fn deep_view(&self) -> ResolutionNoteView {
        match *self {
            ResolutionNote::MerchantNotAccessible { merchant_id } => {
                ResolutionNoteView::MerchantNotAccessible { merchant_id: merchant_id@ }
            },
            ResolutionNote::CreationRefused { call, error } => ResolutionNoteView::CreationRefused {
                call,
                error: error@,
            },
            ResolutionNote::StrategyNotSupported { index } => ResolutionNoteView::StrategyNotSupported {
                index,
            },
        }
    }
}

impl View for ResolutionNote {
    type V = ResolutionNoteView;

    open spec fn view(&self) -> ResolutionNoteView {
        self.deep_view()
    }
}

/// The answer of the engine to an event: what it asks of its caller, and
/// what it has passed over in silence on the way.
#[derive(Debug, Clone, PartialEq, Eq)]
pub struct Resolution {
    pub step: ResolutionStep,
    pub notes: Vec<ResolutionNote>,
}

/// What a resolution works on.
pub struct ResolutionContext {
    pub auth: WaveAuthTypeView,
    pub base_url: Seq<char>,
    /// Id of the platform's merchant, from which the profile is named.
    pub merchant_id: Seq<char>,
    pub metadata: Option<WaveConnectorMetadataView>,
    pub strategies: Seq<AggregatedMerchantFallbackStrategy>,
}

/// The context of a resolution for a payment.
pub open spec fn context_of(
    auth: WaveAuthTypeView,
    base_url: Seq<char>,
    router_data: PaymentsAuthorizeRouterData,
    strategies: Seq<AggregatedMerchantFallbackStrategy>,
) -> ResolutionContext {
    ResolutionContext {
        auth,
        base_url,
        merchant_id: router_data.merchant_id@,
        metadata: configured_metadata(router_data.connector_meta_data),
        strategies,
    }
}

/// The step that creates a merchant for a profile from `metadata`: the
/// request is built for the profile and checked; `None` where it violates a
/// rule, in which case nothing is sent.
pub open spec fn creation_step_for(
    api_key: Seq<char>,
    base_url: Seq<char>,
    profile_name: Seq<char>,
    metadata: Option<WaveConnectorMetadataView>,
    call: PendingCall,
) -> Option<ResolutionStepView> {
    if profile_request_violation(profile_name, metadata) is Some {
        None
    } else {
        match creation_call(api_key, base_url, profile_request(profile_name, metadata)) {
            Ok(request) => Some(ResolutionStepView::Send { request, call }),
            Err(_) => None,
        }
    }
}

/// What is noted where a merchant is to be created for a profile from
/// `metadata`: the refusal, where the request violates a rule.
pub open spec fn creation_notes_for(
    profile_name: Seq<char>,
    metadata: Option<WaveConnectorMetadataView>,
    call: PendingCall,
) -> Seq<ResolutionNoteView> {
    match profile_request_violation(profile_name, metadata) {
        Some(details) => seq![
            ResolutionNoteView::CreationRefused {
                call,
                error: (WaveAggregatedMerchantErrorView::InvalidConfiguration {
                    details,
                }).connector_error(),
            },
        ],
        None => Seq::<ResolutionNoteView>::empty(),
    }
}

/// The lookup that validates the merchant `id` after `failed_attempts`
/// lookups that failed: none after three, and none for an id that is
/// malformed, which no lookup can find.
pub open spec fn validation_lookup(
    api_key: Seq<char>,
    base_url: Seq<char>,
    id: Seq<char>,
    failed_attempts: int,
) -> Option<RequestView> {
    if failed_attempts < MAX_VALIDATION_ATTEMPTS {
        match lookup_call(api_key, base_url, id) {
            Ok(request) => Some(request),
            Err(_) => None,
        }
    } else {
        None
    }
}

impl ResolutionContext {
    /// The name of the profile under which merchants are created.
    pub open spec fn profile_name(self) -> Seq<char> {
        "Profile_"@ + self.merchant_id
    }

    /// The aggregated-merchant id that the metadata names, if any.
    pub open spec fn configured_id(self) -> Option<Seq<char>> {
        match self.metadata {
            Some(m) => m.aggregated_merchant_id,
            None => None,
        }
    }

    /// Whether merchants are created automatically: as the metadata says,
    /// and as the authentication configuration says where it is silent.
    pub open spec fn auto_create(self) -> bool {
        match self.metadata {
            Some(WaveConnectorMetadataView { auto_create_aggregated_merchant: Some(flag), .. }) => flag,
            _ => self.auth.auto_create_aggregated_merchant,
        }
    }

    /// The step that creates a merchant from `metadata`; see
    /// [`creation_step_for`].
    pub open spec fn creation_step(
        self,
        metadata: Option<WaveConnectorMetadataView>,
        call: PendingCall,
    ) -> Option<ResolutionStepView> {
        creation_step_for(self.auth.api_key, self.base_url, self.profile_name(), metadata, call)
    }

    /// What is noted where a merchant is to be created from `metadata`; see
    /// [`creation_notes_for`].
    pub open spec fn creation_notes(
        self,
        metadata: Option<WaveConnectorMetadataView>,
        call: PendingCall,
    ) -> Seq<ResolutionNoteView> {
        creation_notes_for(self.profile_name(), metadata, call)
    }

    /// The step of the fallback from the strategy at `index` on: a
    /// strategy without support is passed over, `Skip` ends resolution
    /// without a merchant, `CreateTemporary` creates a merchant without
    /// metadata and is passed over where that request violates a rule. An
    /// exhausted list ends resolution without a merchant.
    pub open spec fn fallback_step(self, index: int) -> ResolutionStepView
        decreases self.strategies.len() - index,
    {
        if index < 0 || index >= self.strategies.len() {
            ResolutionStepView::Finished(None)
        } else {
            match self.strategies[index] {
                AggregatedMerchantFallbackStrategy::UseDefault => self.fallback_step(index + 1),
                AggregatedMerchantFallbackStrategy::Skip => ResolutionStepView::Finished(None),
                AggregatedMerchantFallbackStrategy::CreateTemporary => match self.creation_step(
                    None,
                    PendingCall::TemporaryCreation { index: index as usize },
                ) {
                    Some(step) => step,
                    None => self.fallback_step(index + 1),
                },
            }
        }
    }

    /// What the fallback notes from the strategy at `index` on: each
    /// strategy without support and each temporary creation that is refused,
    /// in the order of the list, up to the strategy that ends the step.
    pub open spec fn fallback_notes(self, index: int) -> Seq<ResolutionNoteView>
        decreases self.strategies.len() - index,
    {
        if index < 0 || index >= self.strategies.len() {
            Seq::<ResolutionNoteView>::empty()
        } else {
            match self.strategies[index] {
                AggregatedMerchantFallbackStrategy::UseDefault => seq![
                    ResolutionNoteView::StrategyNotSupported { index: index as usize },
                ] + self.fallback_notes(index + 1),
                AggregatedMerchantFallbackStrategy::Skip => Seq::<ResolutionNoteView>::empty(),
                AggregatedMerchantFallbackStrategy::CreateTemporary => match self.creation_step(
                    None,
                    PendingCall::TemporaryCreation { index: index as usize },
                ) {
                    Some(_) => Seq::<ResolutionNoteView>::empty(),
                    None => self.creation_notes(
                        None,
                        PendingCall::TemporaryCreation { index: index as usize },
                    ) + self.fallback_notes(index + 1),
                },
            }
        }
    }

    /// The step after the validation of the configured merchant has
    /// failed or was not needed: with auto-creation a merchant is created
    /// from the metadata; without it, and where that request violates a
    /// rule, the primary resolution has yielded no merchant and the
    /// fallback begins.
    pub open spec fn primary_creation_step(self) -> ResolutionStepView {
        if self.auto_create() {
            match self.creation_step(self.metadata, PendingCall::Creation) {
                Some(step) => step,
                None => self.fallback_step(0),
            }
        } else {
            self.fallback_step(0)
        }
    }

    /// What is noted after validation: the refusal of the creation, where
    /// it is refused, and what the fallback notes.
    pub open spec fn primary_creation_notes(self) -> Seq<ResolutionNoteView> {
        if self.auto_create() {
            match self.creation_step(self.metadata, PendingCall::Creation) {
                Some(_) => Seq::<ResolutionNoteView>::empty(),
                None => self.creation_notes(self.metadata, PendingCall::Creation)
                    + self.fallback_notes(0),
            }
        } else {
            self.fallback_notes(0)
        }
    }

    /// The lookup that validates the configured merchant after
    /// `failed_attempts` lookups that failed; see [`validation_lookup`].
    pub open spec fn validation_lookup(self, id: Seq<char>, failed_attempts: int) -> Option<RequestView> {
        validation_lookup(self.auth.api_key, self.base_url, id, failed_attempts)
    }

    /// The step of the validation after `failed_attempts` lookups that
    /// failed: the next lookup, or, where there is none, the step after
    /// validation.
    pub open spec fn validation_step(self, failed_attempts: int) -> ResolutionStepView {
        match self.configured_id() {
            Some(id) => match self.validation_lookup(id, failed_attempts) {
                Some(request) => ResolutionStepView::Send {
                    request,
                    call: PendingCall::Validation { failed_attempts: failed_attempts as u8 },
                },
                None => self.primary_creation_step(),
            },
            None => self.primary_creation_step(),
        }
    }

    /// What the validation notes after `failed_attempts` lookups that
    /// failed: that the configured merchant counts as not found, where no
    /// lookup is left, and what is noted after validation.
    pub open spec fn validation_notes(self, failed_attempts: int) -> Seq<ResolutionNoteView> {
        match self.configured_id() {
            Some(id) => match self.validation_lookup(id, failed_attempts) {
                Some(_) => Seq::<ResolutionNoteView>::empty(),
                None => seq![ResolutionNoteView::MerchantNotAccessible { merchant_id: id }]
                    + self.primary_creation_notes(),
            },
            None => self.primary_creation_notes(),
        }
    }

    /// The step that answers an event.
    ///
    /// The primary resolution begins with the validation of the configured
    /// merchant. A lookup that succeeds ends resolution with the configured
    /// id; one that fails leads to the next lookup or past validation. A
    /// creation that succeeds ends resolution with the id of the new
    /// merchant; one that fails leads into the fallback, or on in it.
    ///
    /// With the feature disabled the primary resolution yields no merchant
    /// at once, and without a request. The fallback runs all the same.
    pub open spec fn step(self, event: ResolutionEventView) -> ResolutionStepView {
        match event {
            ResolutionEventView::Reply { call: PendingCall::TemporaryCreation { index }, merchant_id } => {
                match merchant_id {
                    Some(id) => ResolutionStepView::Finished(Some(id)),
                    None => self.fallback_step(index + 1),
                }
            },
            ResolutionEventView::Start => if self.auth.aggregated_merchants_enabled {
                self.validation_step(0)
            } else {
                self.fallback_step(0)
            },
            ResolutionEventView::Reply { call: PendingCall::Validation { failed_attempts }, merchant_id } => {
                if !self.auth.aggregated_merchants_enabled {
                    self.fallback_step(0)
                } else if merchant_id is Some && self.configured_id() is Some {
                    ResolutionStepView::Finished(self.configured_id())
                } else {
                    self.validation_step(failed_attempts + 1)
                }
            },
            ResolutionEventView::Reply { call: PendingCall::Creation, merchant_id } => {
                if self.auth.aggregated_merchants_enabled && merchant_id is Some {
                    ResolutionStepView::Finished(merchant_id)
                } else {
                    self.fallback_step(0)
                }
            },
        }
    }

    /// What the step that answers an event passes over in silence.
    pub open spec fn notes(self, event: ResolutionEventView) -> Seq<ResolutionNoteView> {
        match event {
            ResolutionEventView::Reply { call: PendingCall::TemporaryCreation { index }, merchant_id } => {
                match merchant_id {
                    Some(_) => Seq::<ResolutionNoteView>::empty(),
                    None => self.fallback_notes(index + 1),
                }
            },
            ResolutionEventView::Start => if self.auth.aggregated_merchants_enabled {
                self.validation_notes(0)
            } else {
                self.fallback_notes(0)
            },
            ResolutionEventView::Reply { call: PendingCall::Validation { failed_attempts }, merchant_id } => {
                if !self.auth.aggregated_merchants_enabled {
                    self.fallback_notes(0)
                } else if merchant_id is Some && self.configured_id() is Some {
                    Seq::<ResolutionNoteView>::empty()
                } else {
                    self.validation_notes(failed_attempts + 1)
                }
            },
            ResolutionEventView::Reply { call: PendingCall::Creation, merchant_id } => {
                if self.auth.aggregated_merchants_enabled && merchant_id is Some {
                    Seq::<ResolutionNoteView>::empty()
                } else {
                    self.fallback_notes(0)
                }
            },
        }
    }

    /// The step of a resolution without fallback: with the feature
    /// disabled it is over at once, without a merchant, whatever the event.
    pub open spec fn primary_step(self, event: ResolutionEventView) -> ResolutionStepView {
        if self.auth.aggregated_merchants_enabled {
            self.step(event)
        } else {
            ResolutionStepView::Finished(None)
        }
    }

    /// What the step of a resolution without fallback passes over in
    /// silence.
    pub open spec fn primary_notes(self, event: ResolutionEventView) -> Seq<ResolutionNoteView> {
        if self.auth.aggregated_merchants_enabled {
            self.notes(event)
        } else {
            Seq::<ResolutionNoteView>::empty()
        }
    }

    /// How far a pending call is from the end of resolution: every step
    /// that answers the reply to a call asks, if for anything, for a call of
    /// a smaller rank.
    pub open spec fn rank(self, call: PendingCall) -> int {
        match call {
            PendingCall::Validation { failed_attempts } => self.strategies.len() + 2int
                + MAX_VALIDATION_ATTEMPTS - failed_attempts,
            PendingCall::Creation => self.strategies.len() + 1int,
            PendingCall::TemporaryCreation { index } => self.strategies.len() - index,
        }
    }
}

fn with_note(notes: Vec<ResolutionNote>, note: ResolutionNote) -> (r: Vec<ResolutionNote>)
    ensures
        r.deep_view() == notes.deep_view().push(note@),
{
    let mut notes = notes;
    notes.push(note);
    notes
}

/// The engine that resolves the aggregated merchant of a payment.
#[derive(Debug, Clone, Copy)]
pub struct WaveAggregatedMerchantResolver;

impl WaveAggregatedMerchantResolver {
    /// Prepares the lookup that validates the merchant `aggregated_merchant_id`
    /// after `failed_attempts` lookups that failed. `None` says that the
    /// merchant counts as not found: after three failed lookups, and for an
    /// id that is malformed.
    pub fn validate_aggregated_merchant(
        auth: &WaveAuthType,
        base_url: &str,
        aggregated_merchant_id: &str,
        failed_attempts: u8,
    ) -> (r: Option<Request>)
        ensures
            r.deep_view() == validation_lookup(
                auth.api_key@,
                base_url@,
                aggregated_merchant_id@,
                failed_attempts as int,
            ),
    {
        if failed_attempts >= MAX_VALIDATION_ATTEMPTS {
            return None;
        }
        match WaveAggregatedMerchantService::get_aggregated_merchant(
            auth.api_key.as_str(),
            base_url,
            aggregated_merchant_id,
        ) {
            Ok(request) => Some(request),
            Err(_) => None,
        }
    }

    /// Prepares the creation of a merchant for the profile of the payment
    /// from `metadata`. Where the request violates a rule nothing is to be
    /// sent, and the refusal is handed back to be noted.
    fn auto_create_aggregated_merchant(
        auth: &WaveAuthType,
        base_url: &str,
        router_data: &PaymentsAuthorizeRouterData,
        metadata: Option<&WaveConnectorMetadata>,
        call: PendingCall,
    ) -> (r: Result<ResolutionStep, ResolutionNote>)
        ensures
            match r {
                Ok(step) => creation_step_for(
                    auth.api_key@,
                    base_url@,
                    "Profile_"@ + router_data.merchant_id@,
                    metadata.deep_view(),
                    call,
                ) == Some(step@),
                Err(note) => creation_step_for(
                    auth.api_key@,
                    base_url@,
                    "Profile_"@ + router_data.merchant_id@,
                    metadata.deep_view(),
                    call,
                ) is None && creation_notes_for(
                    "Profile_"@ + router_data.merchant_id@,
                    metadata.deep_view(),
                    call,
                ) == seq![note@],
            },
    {
        let profile_name = concat2("Profile_", router_data.merchant_id.as_str());
        let request = match build_aggregated_merchant_request_from_profile(
            profile_name.as_str(),
            metadata,
        ) {
            Ok(request) => request,
            Err(e) => {
                return Err(ResolutionNote::CreationRefused { call, error: e.into_connector_error() });
            },
        };
        match WaveAggregatedMerchantService::create_aggregated_merchant(
            auth.api_key.as_str(),
            base_url,
            request,
        ) {
            Ok(request) => Ok(ResolutionStep::Send { request, call }),
            Err(error) => Err(ResolutionNote::CreationRefused { call, error }),
        }
    }

    fn fallback(
        auth: &WaveAuthType,
        base_url: &str,
        router_data: &PaymentsAuthorizeRouterData,
        fallback_strategies: &[AggregatedMerchantFallbackStrategy],
        from: usize,
        noted: Vec<ResolutionNote>,
    ) -> (r: Resolution)
        ensures
            r.step@ == context_of(auth@, base_url@, *router_data, fallback_strategies@).fallback_step(
                from as int,
            ),
            r.notes.deep_view() == noted.deep_view() + context_of(
                auth@,
                base_url@,
                *router_data,
                fallback_strategies@,
            ).fallback_notes(from as int),
    {
        let ghost ctx = context_of(auth@, base_url@, *router_data, fallback_strategies@);
        let ghost all = noted.deep_view() + ctx.fallback_notes(from as int);
        let mut notes = noted;
        let mut index: usize = from;
        while index < fallback_strategies.len()
            invariant
                ctx == context_of(auth@, base_url@, *router_data, fallback_strategies@),
                ctx.fallback_step(index as int) == ctx.fallback_step(from as int),
                notes.deep_view() + ctx.fallback_notes(index as int) == all,
                all == noted.deep_view() + ctx.fallback_notes(from as int),
            decreases fallback_strategies@.len() - index,
        {
            match fallback_strategies[index] {
                AggregatedMerchantFallbackStrategy::UseDefault => {
                    notes = with_note(notes, ResolutionNote::StrategyNotSupported { index });
                },
                AggregatedMerchantFallbackStrategy::Skip => {
                    return Resolution { step: ResolutionStep::Finished(None), notes };
                },
                AggregatedMerchantFallbackStrategy::CreateTemporary => {
                    match Self::auto_create_aggregated_merchant(
                        auth,
                        base_url,
                        router_data,
                        None,
                        PendingCall::TemporaryCreation { index },
                    ) {
                        Ok(step) => {
                            return Resolution { step, notes };
                        },
                        Err(note) => {
                            notes = with_note(notes, note);
                        },
                    }
                },
            }
            index = index + 1;
        }
        Resolution { step: ResolutionStep::Finished(None), notes }
    }

    fn primary_creation(
        auth: &WaveAuthType,
        base_url: &str,
        router_data: &PaymentsAuthorizeRouterData,
        fallback_strategies: &[AggregatedMerchantFallbackStrategy],
        metadata: &Option<WaveConnectorMetadata>,
        noted: Vec<ResolutionNote>,
    ) -> (r: Resolution)
        requires
            metadata.deep_view() == configured_metadata(router_data.connector_meta_data),
        ensures
            r.step@ == context_of(
                auth@,
                base_url@,
                *router_data,
                fallback_strategies@,
            ).primary_creation_step(),
            r.notes.deep_view() == noted.deep_view() + context_of(
                auth@,
                base_url@,
                *router_data,
                fallback_strategies@,
            ).primary_creation_notes(),
    {
        let flag = match metadata {
            Some(m) => m.auto_create_aggregated_merchant,
            None => None,
        };
        let auto_create = match flag {
            Some(flag) => flag,
            None => auth.auto_create_aggregated_merchant,
        };
        let mut notes = noted;
        if auto_create {
            match Self::auto_create_aggregated_merchant(
                auth,
                base_url,
                router_data,
                metadata.as_ref(),
                PendingCall::Creation,
            ) {
                Ok(step) => {
                    return Resolution { step, notes };
                },
                Err(note) => {
                    notes = with_note(notes, note);
                },
            }
        }
        Self::fallback(auth, base_url, router_data, fallback_strategies, 0, notes)
    }

    fn validation(
        auth: &WaveAuthType,
        base_url: &str,
        router_data: &PaymentsAuthorizeRouterData,
        fallback_strategies: &[AggregatedMerchantFallbackStrategy],
        metadata: &Option<WaveConnectorMetadata>,
        failed_attempts: u8,
    ) -> (r: Resolution)
        requires
            metadata.deep_view() == configured_metadata(router_data.connector_meta_data),
        ensures
            r.step@ == context_of(auth@, base_url@, *router_data, fallback_strategies@).validation_step(
                failed_attempts as int,
            ),
            r.notes.deep_view() == context_of(
                auth@,
                base_url@,
                *router_data,
                fallback_strategies@,
            ).validation_notes(failed_attempts as int),
    {
        let mut notes: Vec<ResolutionNote> = Vec::new();
        match metadata {
            Some(m) => match &m.aggregated_merchant_id {
                Some(id) => match Self::validate_aggregated_merchant(
                    auth,
                    base_url,
                    id.as_str(),
                    failed_attempts,
                ) {
                    Some(request) => {
                        return Resolution {
                            step: ResolutionStep::Send {
                                request,
                                call: PendingCall::Validation { failed_attempts },
                            },
                            notes,
                        };
                    },
                    None => {
                        notes = with_note(
                            notes,
                            ResolutionNote::MerchantNotAccessible { merchant_id: id.clone() },
                        );
                    },
                },
                None => {},
            },
            None => {},
        }
        Self::primary_creation(auth, base_url, router_data, fallback_strategies, metadata, notes)
    }

    /// Answers an event of a resolution with fallback strategies; see
    /// [`ResolutionContext::step`] and [`ResolutionContext::notes`]. With the
    /// feature disabled the primary resolution yields no merchant and sends
    /// nothing; the fallback strategies are tried all the same.
    pub fn resolve_with_fallback(
        auth: &WaveAuthType,
        base_url: &str,
        router_data: &PaymentsAuthorizeRouterData,
        fallback_strategies: &[AggregatedMerchantFallbackStrategy],
        event: ResolutionEvent,
    ) -> (r: Result<Resolution, ConnectorError>)
        ensures
            r matches Ok(resolution) && resolution.step@ == context_of(
                auth@,
                base_url@,
                *router_data,
                fallback_strategies@,
            ).step(event@) && resolution.notes.deep_view() == context_of(
                auth@,
                base_url@,
                *router_data,
                fallback_strategies@,
            ).notes(event@),
    {
        let enabled = auth.aggregated_merchants_enabled;
        let nothing: Vec<ResolutionNote> = Vec::new();
        match event {
            ResolutionEvent::Reply { call: PendingCall::TemporaryCreation { index }, reply } => match reply {
                Ok(merchant) => Ok(
                    Resolution { step: ResolutionStep::Finished(Some(merchant.id)), notes: nothing },
                ),
                Err(_) => if index < fallback_strategies.len() {
                    Ok(
                        Self::fallback(
                            auth,
                            base_url,
                            router_data,
                            fallback_strategies,
                            index + 1,
                            nothing,
                        ),
                    )
                } else {
                    Ok(Resolution { step: ResolutionStep::Finished(None), notes: nothing })
                },
            },
            ResolutionEvent::Start => if enabled {
                let metadata = match extract_wave_connector_metadata(router_data) {
                    Ok(metadata) => metadata,
                    Err(_) => None,
                };
                Ok(Self::validation(auth, base_url, router_data, fallback_strategies, &metadata, 0))
            } else {
                Ok(Self::fallback(auth, base_url, router_data, fallback_strategies, 0, nothing))
            },
            ResolutionEvent::Reply { call: PendingCall::Validation { failed_attempts }, reply } => {
                if !enabled {
                    return Ok(
                        Self::fallback(auth, base_url, router_data, fallback_strategies, 0, nothing),
                    );
                }
                let metadata = match extract_wave_connector_metadata(router_data) {
                    Ok(metadata) => metadata,
                    Err(_) => None,
                };
                let configured = match &metadata {
                    Some(m) => clone_opt_text(&m.aggregated_merchant_id),
                    None => None,
                };
                if reply.is_ok() && configured.is_some() {
                    Ok(Resolution { step: ResolutionStep::Finished(configured), notes: nothing })
                } else if failed_attempts >= MAX_VALIDATION_ATTEMPTS {
                    let notes = match configured {
                        Some(merchant_id) => with_note(
                            nothing,
                            ResolutionNote::MerchantNotAccessible { merchant_id },
                        ),
                        None => nothing,
                    };
                    Ok(
                        Self::primary_creation(
                            auth,
                            base_url,
                            router_data,
                            fallback_strategies,
                            &metadata,
                            notes,
                        ),
                    )
                } else {
                    Ok(
                        Self::validation(
                            auth,
                            base_url,
                            router_data,
                            fallback_strategies,
                            &metadata,
                            failed_attempts + 1,
                        ),
                    )
                }
            },
            ResolutionEvent::Reply { call: PendingCall::Creation, reply } => match reply {
                Ok(merchant) => if enabled {
                    Ok(
                        Resolution {
                            step: ResolutionStep::Finished(Some(merchant.id)),
                            notes: nothing,
                        },
                    )
                } else {
                    Ok(Self::fallback(auth, base_url, router_data, fallback_strategies, 0, nothing))
                },
                Err(_) => Ok(
                    Self::fallback(auth, base_url, router_data, fallback_strategies, 0, nothing),
                ),
            },
        }
    }

    /// Answers an event of a resolution without fallback strategies: the
    /// validation of the configured merchant, then auto-creation. With the
    /// feature disabled it is over at once: no merchant, no request.
    pub fn resolve_aggregated_merchant(
        auth: &WaveAuthType,
        base_url: &str,
        router_data: &PaymentsAuthorizeRouterData,
        event: ResolutionEvent,
    ) -> (r: Result<Resolution, ConnectorError>)
        ensures
            r matches Ok(resolution) && resolution.step@ == context_of(
                auth@,
                base_url@,
                *router_data,
                Seq::<AggregatedMerchantFallbackStrategy>::empty(),
            ).primary_step(event@) && resolution.notes.deep_view() == context_of(
                auth@,
                base_url@,
                *router_data,
                Seq::<AggregatedMerchantFallbackStrategy>::empty(),
            ).primary_notes(event@),
    {
        if !auth.aggregated_merchants_enabled {
            return Ok(Resolution { step: ResolutionStep::Finished(None), notes: Vec::new() });
        }
        let none: Vec<AggregatedMerchantFallbackStrategy> = Vec::new();
        Self::resolve_with_fallback(auth, base_url, router_data, none.as_slice(), event)
    }

    /// Answers an event of a resolution that uses the configured merchant
    /// or creates one: the same as [`Self::resolve_aggregated_merchant`].
    pub fn get_or_create_aggregated_merchant(
        auth: &WaveAuthType,
        base_url: &str,
        router_data: &PaymentsAuthorizeRouterData,
        event: ResolutionEvent,
    ) -> (r: Result<Resolution, ConnectorError>)
        ensures
            r matches Ok(resolution) && resolution.step@ == context_of(
                auth@,
                base_url@,
                *router_data,
                Seq::<AggregatedMerchantFallbackStrategy>::empty(),
            ).primary_step(event@) && resolution.notes.deep_view() == context_of(
                auth@,
                base_url@,
                *router_data,
                Seq::<AggregatedMerchantFallbackStrategy>::empty(),
            ).primary_notes(event@),
    {
        Self::resolve_aggregated_merchant(auth, base_url, router_data, event)
    }
}

/// With the feature disabled a resolution without fallback strategies
/// never asks for a request and yields no merchant: its first step ends it,
/// and so does its step for any other event.
pub proof fn lemma_disabled_feature_never_calls(ctx: ResolutionContext, event: ResolutionEventView)
    requires
        !ctx.auth.aggregated_merchants_enabled,
        ctx.strategies.len() == 0,
    ensures
        ctx.primary_step(event) == ResolutionStepView::Finished(None),
        ctx.step(ResolutionEventView::Start) == ResolutionStepView::Finished(None),
        ctx.step(event) is Finished,
        !(event matches ResolutionEventView::Reply { call: PendingCall::TemporaryCreation { .. }, .. })
            ==> ctx.step(event) == ResolutionStepView::Finished(None),
{
}

/// With the feature disabled the primary resolution asks for nothing: the
/// first step is that of the fallback, which runs as with the feature
/// enabled.
pub proof fn lemma_disabled_feature_leaves_the_fallback(ctx: ResolutionContext)
    requires
        !ctx.auth.aggregated_merchants_enabled,
    ensures
        ctx.step(ResolutionEventView::Start) == ctx.fallback_step(0),
        !(ctx.step(ResolutionEventView::Start) matches ResolutionStepView::Send {
            call: PendingCall::Validation { .. },
            ..
        }),
        !(ctx.step(ResolutionEventView::Start) matches ResolutionStepView::Send {
            call: PendingCall::Creation,
            ..
        }),
        forall|index: usize, merchant_id: Option<Seq<char>>|
            #![trigger ctx.step(ResolutionEventView::Reply { call: PendingCall::TemporaryCreation { index }, merchant_id })]
            ctx.step(
                ResolutionEventView::Reply { call: PendingCall::TemporaryCreation { index }, merchant_id },
            ) == (ResolutionContext {
                auth: WaveAuthTypeView { aggregated_merchants_enabled: true, ..ctx.auth },
                ..ctx
            }).step(
                ResolutionEventView::Reply { call: PendingCall::TemporaryCreation { index }, merchant_id },
            ),
{
    lemma_fallback_moves_forward_unbounded(ctx, 0);
    let on = ResolutionContext {
        auth: WaveAuthTypeView { aggregated_merchants_enabled: true, ..ctx.auth },
        ..ctx
    };
    assert forall|index: int| ctx.fallback_step(index) == on.fallback_step(index) by {
        lemma_fallback_ignores_the_feature(ctx, on, index);
    }
}

/// The fallback does not look at the feature flag, nor at the metadata.
pub proof fn lemma_fallback_ignores_the_feature(
    ctx: ResolutionContext,
    other: ResolutionContext,
    index: int,
)
    requires
        ctx.auth.api_key == other.auth.api_key,
        ctx.base_url == other.base_url,
        ctx.merchant_id == other.merchant_id,
        ctx.strategies == other.strategies,
    ensures
        ctx.fallback_step(index) == other.fallback_step(index),
    decreases ctx.strategies.len() - index,
{
    if 0 <= index < ctx.strategies.len() {
        lemma_fallback_ignores_the_feature(ctx, other, index + 1);
    }
}

/// A strategy without support does not stop the fallback: the step is that
/// of the strategies behind it.
pub proof fn lemma_use_default_is_passed_over(ctx: ResolutionContext, index: int)
    requires
        0 <= index < ctx.strategies.len(),
        ctx.strategies[index] == AggregatedMerchantFallbackStrategy::UseDefault,
    ensures
        ctx.fallback_step(index) == ctx.fallback_step(index + 1),
{
}

/// A list that is empty, or holds nothing but strategies without support,
/// ends resolution without a merchant and asks for no request.
pub proof fn lemma_unsupported_strategies_yield_nothing(ctx: ResolutionContext, index: int)
    requires
        forall|i: int|
            0 <= i < ctx.strategies.len() ==> ctx.strategies[i]
                == AggregatedMerchantFallbackStrategy::UseDefault,
    ensures
        ctx.fallback_step(index) == ResolutionStepView::Finished(None),
    decreases ctx.strategies.len() - index,
{
    if 0 <= index < ctx.strategies.len() {
        lemma_unsupported_strategies_yield_nothing(ctx, index + 1);
    }
}

/// A temporary creation that is not refused is asked for: where the
/// strategy at `index` is `CreateTemporary` and the request for the profile
/// violates no rule, the fallback that reaches it sends that request.
pub proof fn lemma_temporary_creation_is_attempted(ctx: ResolutionContext, index: int)
    requires
        0 <= index < ctx.strategies.len(),
        ctx.strategies.len() <= usize::MAX,
        ctx.strategies[index] == AggregatedMerchantFallbackStrategy::CreateTemporary,
        profile_request_violation(ctx.profile_name(), None) is None,
    ensures
        ctx.fallback_step(index) matches ResolutionStepView::Send {
            call: PendingCall::TemporaryCreation { index: at },
            ..
        } && at == index,
{
}

/// A creation is refused by a rule and by nothing else: the request is sent
/// exactly where the request for the profile violates no rule, and the
/// refusal is noted exactly where it violates one.
pub proof fn lemma_creation_is_refused_only_by_a_rule(
    api_key: Seq<char>,
    base_url: Seq<char>,
    profile_name: Seq<char>,
    metadata: Option<WaveConnectorMetadataView>,
    call: PendingCall,
)
    ensures
        creation_step_for(api_key, base_url, profile_name, metadata, call) is Some
            <==> profile_request_violation(profile_name, metadata) is None,
        creation_notes_for(profile_name, metadata, call).len() == (if creation_step_for(
            api_key,
            base_url,
            profile_name,
            metadata,
            call,
        ) is Some {
            0nat
        } else {
            1nat
        }),
{
}

/// A fallback that reaches `Skip` ends resolution without a merchant and
/// asks for no request, whatever follows in the list.
pub proof fn lemma_skip_ends_resolution(ctx: ResolutionContext, index: int)
    requires
        0 <= index < ctx.strategies.len(),
        ctx.strategies[index] == AggregatedMerchantFallbackStrategy::Skip,
    ensures
        ctx.fallback_step(index) == ResolutionStepView::Finished(None),
{
}

/// Where the list of strategies begins with `Skip`, a primary resolution
/// that yields no merchant ends resolution without one, and no step ever
/// asks for a temporary merchant.
pub proof fn lemma_skip_first_prevents_temporary_creation(
    ctx: ResolutionContext,
    event: ResolutionEventView,
)
    requires
        ctx.strategies.len() > 0,
        ctx.strategies[0] == AggregatedMerchantFallbackStrategy::Skip,
        !(event matches ResolutionEventView::Reply { call: PendingCall::TemporaryCreation { .. }, .. }),
    ensures
        ctx.fallback_step(0) == ResolutionStepView::Finished(None),
        !(ctx.step(event) matches ResolutionStepView::Send {
            call: PendingCall::TemporaryCreation { .. },
            ..
        }),
        event == (ResolutionEventView::Reply { call: PendingCall::Creation, merchant_id: None })
            ==> ctx.step(event) == ResolutionStepView::Finished(None),
{
}

/// The fallback asks only for temporary creations, at or behind the place
/// where it begins.
pub proof fn lemma_fallback_moves_forward(ctx: ResolutionContext, index: int)
    requires
        0 <= index,
        ctx.strategies.len() <= usize::MAX,
    ensures
        match ctx.fallback_step(index) {
            ResolutionStepView::Send { call: PendingCall::TemporaryCreation { index: next }, .. } => {
                index <= next < ctx.strategies.len()
            },
            ResolutionStepView::Send { .. } => false,
            ResolutionStepView::Finished(id) => id is None,
        },
    decreases ctx.strategies.len() - index,
{
    if index < ctx.strategies.len() {
        lemma_fallback_moves_forward(ctx, index + 1);
    }
}

/// The fallback asks for nothing but temporary creations.
pub proof fn lemma_fallback_moves_forward_unbounded(ctx: ResolutionContext, index: int)
    ensures
        match ctx.fallback_step(index) {
            ResolutionStepView::Send { call: PendingCall::TemporaryCreation { .. }, .. } => true,
            ResolutionStepView::Send { .. } => false,
            ResolutionStepView::Finished(id) => id is None,
        },
    decreases ctx.strategies.len() - index,
{
    if 0 <= index < ctx.strategies.len() {
        lemma_fallback_moves_forward_unbounded(ctx, index + 1);
    }
}

/// Resolution makes progress: the step that answers the reply to a call
/// that the engine asked for asks, if for anything, for a call of a smaller
/// rank, and a lookup is asked for only while fewer than three have failed.
/// So a resolution asks for at most three lookups, one creation and one
/// temporary creation for each strategy.
pub proof fn lemma_resolution_makes_progress(
    ctx: ResolutionContext,
    call: PendingCall,
    merchant_id: Option<Seq<char>>,
)
    requires
        ctx.strategies.len() <= usize::MAX,
        call matches PendingCall::Validation { failed_attempts } ==> failed_attempts
            < MAX_VALIDATION_ATTEMPTS,
        call matches PendingCall::TemporaryCreation { index } ==> index < ctx.strategies.len(),
    ensures
        match ctx.step(ResolutionEventView::Reply { call, merchant_id }) {
            ResolutionStepView::Send { call: next, .. } => {
                &&& ctx.rank(next) < ctx.rank(call)
                &&& next matches PendingCall::Validation { failed_attempts } ==> failed_attempts
                    < MAX_VALIDATION_ATTEMPTS
                &&& next matches PendingCall::TemporaryCreation { index } ==> index
                    < ctx.strategies.len()
            },
            ResolutionStepView::Finished(_) => true,
        },
        match ctx.step(ResolutionEventView::Start) {
            ResolutionStepView::Send { call: first, .. } => {
                &&& first matches PendingCall::Validation { failed_attempts } ==> failed_attempts == 0
                &&& first matches PendingCall::TemporaryCreation { index } ==> index
                    < ctx.strategies.len()
            },
            ResolutionStepView::Finished(_) => true,
        },
{
    lemma_fallback_moves_forward(ctx, 0);
    match call {
        PendingCall::TemporaryCreation { index } => {
            lemma_fallback_moves_forward(ctx, index + 1);
        },
        _ => {},
    }
}

} // verus!
