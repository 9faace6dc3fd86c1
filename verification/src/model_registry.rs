//! Static model registry and listing contracts for the headless core.
//!
//! The registry describes configured model entries, aliases, provider-native
//! targets, provider/account applicability, and listing state. It does not query
//! providers, validate credentials, inspect quotas, perform routing selection, or
//! execute provider requests.

use vstd::prelude::*;

use crate::configuration::file::{FileRoutingDefaultGroupView, ValidatedFileConfiguration};
use crate::provider::{
    reasons_view, AccountSummary, AccountSummaryView, AuthMethodCategory, DegradedReason,
    DegradedReasonView, ProtocolFamily, ProviderCapability, ProviderSummary, ProviderSummaryView,
};
use crate::reasoning::ReasoningIntent;
use crate::routing::{
    state_of, ModelAlias, ModelRoute, RoutingAvailabilitySnapshot, RoutingAvailabilityState,
    RoutingCandidate, RoutingPolicy, RoutingTarget, RoutingTargetAvailability,
};
use crate::text::{concat2, concat3, opt_text, owned, str_equal};

verus! {

// ---------------------------------------------------------------------------
// Candidate metadata
// ---------------------------------------------------------------------------

/// Provider-native model target for one routing candidate.
#[derive(Debug, PartialEq, Eq)]
pub struct ProviderNativeModelTarget {
    /// Provider-native model identifier.
    pub provider_native_model_id: String,
    /// Provider/account target associated with this native model.
    pub target: RoutingTarget,
}

impl Clone for ProviderNativeModelTarget {
    fn clone(&self) -> (r: Self)
        ensures
            r == *self,
    {
        ProviderNativeModelTarget {
            provider_native_model_id: self.provider_native_model_id.clone(),
            target: self.target.clone(),
        }
    }
}

impl ProviderNativeModelTarget {
    /// Creates provider-native model target metadata.
    pub fn new(provider_native_model_id: &str, target: RoutingTarget) -> (r: Self)
        ensures
            r.provider_native_model_id@ == provider_native_model_id@,
            r.target == target,
    {
        ProviderNativeModelTarget { provider_native_model_id: owned(provider_native_model_id), target }
    }
}

/// Alias metadata preserving requested and resolved model identifiers.
#[derive(Clone, Debug, PartialEq, Eq)]
pub struct ModelAliasMetadata {
    /// User-facing requested model identifier.
    pub requested_model_id: String,
    /// Resolved model identifier used by routing policy metadata.
    pub resolved_model_id: String,
    /// Reasoning intent that the alias implies, when any.
    pub reasoning: Option<ReasoningIntent>,
}

impl ModelAliasMetadata {
    /// Creates alias metadata for a requested-to-resolved model mapping.
    pub fn new(requested_model_id: &str, resolved_model_id: &str) -> (r: Self)
        ensures
            r.requested_model_id@ == requested_model_id@,
            r.resolved_model_id@ == resolved_model_id@,
            r.reasoning is None,
    {
        ModelAliasMetadata {
            requested_model_id: owned(requested_model_id),
            resolved_model_id: owned(resolved_model_id),
            reasoning: None,
        }
    }
}

/// Metadata describing whether a listed model has multiple candidate targets.
#[derive(Clone, Copy, Debug, PartialEq, Eq, Structural)]
pub struct ModelForkMetadata {
    /// Whether this listed model has more than one configured candidate target.
    pub forked: bool,
    /// Number of configured candidate targets under this listed model.
    pub candidate_count: usize,
}

impl ModelForkMetadata {
    /// Creates fork metadata from a candidate count.
    pub fn from_candidate_count(candidate_count: usize) -> (r: Self)
        ensures
            r == (ModelForkMetadata { forked: candidate_count > 1, candidate_count }),
    {
        ModelForkMetadata { forked: candidate_count > 1, candidate_count }
    }
}

/// Candidate order, route label, and fallback metadata supplied by routing configuration.
#[derive(Debug, PartialEq, Eq)]
pub struct RoutingCandidateMetadata {
    /// Zero-based deterministic candidate order within the listed model.
    pub candidate_order: usize,
    /// Optional routing default or group name associated with this candidate.
    pub route_name: Option<String>,
    /// Optional fallback flag from routing policy or file-backed routing defaults.
    pub fallback_enabled: Option<bool>,
}

impl Clone for RoutingCandidateMetadata {
    fn clone(&self) -> (r: Self)
        ensures
            r == *self,
    {
        RoutingCandidateMetadata {
            candidate_order: self.candidate_order,
            route_name: match &self.route_name {
                Some(n) => Some(n.clone()),
                None => None,
            },
            fallback_enabled: self.fallback_enabled,
        }
    }
}

impl RoutingCandidateMetadata {
    /// Creates routing candidate metadata.
    pub fn new(candidate_order: usize, route_name: Option<String>, fallback_enabled: Option<bool>) -> (r:
        Self)
        ensures
            r == (RoutingCandidateMetadata { candidate_order, route_name, fallback_enabled }),
    {
        RoutingCandidateMetadata { candidate_order, route_name, fallback_enabled }
    }
}

/// Provider/account applicability metadata for one model candidate.
#[derive(Debug, PartialEq, Eq)]
pub struct ProviderAccountApplicability {
    /// Provider identifier from routing target metadata.
    pub provider_id: String,
    /// Optional account identifier from routing target metadata.
    pub account_id: Option<String>,
    /// Whether provider metadata was supplied for this target.
    pub provider_known: bool,
    /// Whether account metadata was supplied or no account was requested.
    pub account_known: bool,
}

impl Clone for ProviderAccountApplicability {
    fn clone(&self) -> (r: Self)
        ensures
            r == *self,
    {
        ProviderAccountApplicability {
            provider_id: self.provider_id.clone(),
            account_id: match &self.account_id {
                Some(a) => Some(a.clone()),
                None => None,
            },
            provider_known: self.provider_known,
            account_known: self.account_known,
        }
    }
}

impl ProviderAccountApplicability {
    /// Creates provider/account applicability metadata.
    pub fn new(provider_id: &str, account_id: Option<String>, provider_known: bool, account_known: bool) -> (r:
        Self)
        ensures
            r.provider_id@ == provider_id@,
            r.account_id == account_id,
            r.provider_known == provider_known,
            r.account_known == account_known,
    {
        ProviderAccountApplicability {
            provider_id: owned(provider_id),
            account_id,
            provider_known,
            account_known,
        }
    }
}

/// Protocol, auth, streaming, and routing eligibility metadata for one candidate.
#[derive(Clone, Copy, Debug, PartialEq, Eq, Structural)]
pub struct ModelCapabilityMetadata {
    /// Protocol family associated with the provider capability, when known.
    pub protocol_family: Option<ProtocolFamily>,
    /// Whether the provider advertises streaming support.
    pub supports_streaming: bool,
    /// Authentication method category advertised by the provider, when known.
    pub auth_method: Option<AuthMethodCategory>,
    /// Whether routing may select this provider according to static metadata.
    pub routing_eligible: bool,
}

impl ModelCapabilityMetadata {
    /// Metadata of one provider capability.
    pub open spec fn of_capability(c: ProviderCapability) -> ModelCapabilityMetadata {
        ModelCapabilityMetadata {
            protocol_family: Some(c.protocol_family),
            supports_streaming: c.supports_streaming,
            auth_method: Some(c.auth_method),
            routing_eligible: c.routing_eligible,
        }
    }

    /// Metadata when no provider state is known.
    pub open spec fn unknown_spec() -> ModelCapabilityMetadata {
        ModelCapabilityMetadata {
            protocol_family: None,
            supports_streaming: false,
            auth_method: None,
            routing_eligible: false,
        }
    }

    /// Creates capability metadata from explicit values.
    pub fn new(
        protocol_family: Option<ProtocolFamily>,
        supports_streaming: bool,
        auth_method: Option<AuthMethodCategory>,
        routing_eligible: bool,
    ) -> (r: Self)
        ensures
            r == (ModelCapabilityMetadata { protocol_family, supports_streaming, auth_method, routing_eligible }),
    {
        ModelCapabilityMetadata { protocol_family, supports_streaming, auth_method, routing_eligible }
    }

    /// Creates unknown capability metadata for missing provider state.
    pub fn unknown() -> (r: Self)
        ensures
            r == ModelCapabilityMetadata::unknown_spec(),
    {
        ModelCapabilityMetadata::new(None, false, None, false)
    }

    fn from_capability(capability: &ProviderCapability) -> (r: Self)
        ensures
            r == ModelCapabilityMetadata::of_capability(*capability),
    {
        ModelCapabilityMetadata::new(
            Some(capability.protocol_family),
            capability.supports_streaming,
            Some(capability.auth_method),
            capability.routing_eligible,
        )
    }
}

/// Listing state for one model candidate.
#[derive(Debug, PartialEq, Eq)]
pub enum ModelListingState {
    /// Candidate is statically configured and routable.
    Available,
    /// Candidate is statically configured but disabled or unavailable.
    Disabled {
        /// Human-readable reason for disabled state.
        reason: String,
    },
    /// Candidate provider is known but marked ineligible for routing.
    RoutingIneligible {
        /// Human-readable reason for routing-ineligible state.
        reason: String,
    },
    /// Candidate is statically configured but degraded.
    Degraded {
        /// Reasons explaining degraded state.
        reasons: Vec<DegradedReason>,
    },
    /// Candidate references an unknown provider.
    UnknownProvider {
        /// Human-readable reason for unknown provider state.
        reason: String,
    },
    /// Candidate references an unknown account for a known provider.
    UnknownAccount {
        /// Human-readable reason for unknown account state.
        reason: String,
    },
}

/// Model of a listing state.
pub enum ListingStateView {
    /// Routable.
    Available,
    /// Disabled, with its reason.
    Disabled(Seq<char>),
    /// Not eligible for routing, with its reason.
    RoutingIneligible(Seq<char>),
    /// Degraded, with its reasons.
    Degraded(Seq<DegradedReasonView>),
    /// Unknown provider, with its reason.
    UnknownProvider(Seq<char>),
    /// Unknown account, with its reason.
    UnknownAccount(Seq<char>),
}

impl View for ModelListingState {
    type V = ListingStateView;

    open spec fn view(&self) -> ListingStateView {
        match self {
            ModelListingState::Available => ListingStateView::Available,
            ModelListingState::Disabled { reason } => ListingStateView::Disabled(reason@),
            ModelListingState::RoutingIneligible { reason } => ListingStateView::RoutingIneligible(reason@),
            ModelListingState::Degraded { reasons } => ListingStateView::Degraded(reasons_view(reasons@)),
            ModelListingState::UnknownProvider { reason } => ListingStateView::UnknownProvider(reason@),
            ModelListingState::UnknownAccount { reason } => ListingStateView::UnknownAccount(reason@),
        }
    }
}

impl Clone for ModelListingState {
    fn clone(&self) -> (r: Self)
        ensures
            r@ == self@,
    {
        match self {
            ModelListingState::Available => ModelListingState::Available,
            ModelListingState::Disabled { reason } => ModelListingState::Disabled { reason: reason.clone() },
            ModelListingState::RoutingIneligible { reason } => ModelListingState::RoutingIneligible {
                reason: reason.clone(),
            },
            ModelListingState::Degraded { reasons } => {
                let mut copy: Vec<DegradedReason> = Vec::new();
                assert(reasons_view(copy@) =~= Seq::<DegradedReasonView>::empty());
                append_reasons(&mut copy, reasons);
                assert(reasons_view(copy@) =~= reasons_view(reasons@));
                ModelListingState::Degraded { reasons: copy }
            },
            ModelListingState::UnknownProvider { reason } => ModelListingState::UnknownProvider {
                reason: reason.clone(),
            },
            ModelListingState::UnknownAccount { reason } => ModelListingState::UnknownAccount {
                reason: reason.clone(),
            },
        }
    }
}

/// One degraded reason rendered as `component: message`.
pub open spec fn reason_text(r: DegradedReasonView) -> Seq<char> {
    r.component + ": "@ + r.message
}

/// Degraded reasons rendered and joined by `; `.
pub open spec fn reasons_text(reasons: Seq<DegradedReasonView>) -> Seq<char>
    decreases reasons.len(),
{
    if reasons.len() == 0 {
        Seq::empty()
    } else if reasons.len() == 1 {
        reason_text(reasons[0])
    } else {
        reasons_text(reasons.drop_last()) + "; "@ + reason_text(reasons.last())
    }
}

impl ModelListingState {
    /// Returns a human-readable reason for non-available listing states.
    pub fn reason(&self) -> (r: Option<String>)
        ensures
            match self@ {
                ListingStateView::Available => r is None,
                ListingStateView::Degraded(reasons) => r is Some && r.unwrap()@ == reasons_text(reasons),
                ListingStateView::Disabled(m) => r is Some && r.unwrap()@ == m,
                ListingStateView::RoutingIneligible(m) => r is Some && r.unwrap()@ == m,
                ListingStateView::UnknownProvider(m) => r is Some && r.unwrap()@ == m,
                ListingStateView::UnknownAccount(m) => r is Some && r.unwrap()@ == m,
            },
    {
        match self {
            ModelListingState::Available => None,
            ModelListingState::Disabled { reason } => Some(reason.clone()),
            ModelListingState::RoutingIneligible { reason } => Some(reason.clone()),
            ModelListingState::UnknownProvider { reason } => Some(reason.clone()),
            ModelListingState::UnknownAccount { reason } => Some(reason.clone()),
            ModelListingState::Degraded { reasons } => {
                let ghost views = reasons_view(reasons@);
                let mut text = String::new();
                let mut i: usize = 0;
                while i < reasons.len()
                    invariant
                        i <= reasons@.len(),
                        views == reasons_view(reasons@),
                        text@ == reasons_text(views.subrange(0, i as int)),
                    decreases reasons.len() - i,
                {
                    if i > 0 {
                        text.append("; ");
                    }
                    let part = concat3(reasons[i].component.as_str(), ": ", reasons[i].message.as_str());
                    text.append(part.as_str());
                    let ghost next = views.subrange(0, i + 1);
                    assert(next.drop_last() =~= views.subrange(0, i as int));
                    i = i + 1;
                }
                assert(views.subrange(0, views.len() as int) =~= views);
                Some(text)
            },
        }
    }
}

/// One ordered provider/account candidate for a registry entry.
#[derive(Debug, PartialEq, Eq)]
pub struct ModelRegistryCandidate {
    /// Provider-native model target metadata.
    pub native_target: ProviderNativeModelTarget,
    /// Candidate ordering and file-routing default metadata.
    pub candidate: RoutingCandidateMetadata,
    /// Provider/account applicability metadata.
    pub applicability: ProviderAccountApplicability,
    /// Capability metadata derived from provider declarations or summaries.
    pub capabilities: ModelCapabilityMetadata,
    /// Listing state for disabled, degraded, unknown, or visible candidates.
    pub listing_state: ModelListingState,
}

/// Model of a registry candidate.
pub struct CandidateView {
    /// Provider-native model identifier.
    pub native_model_id: Seq<char>,
    /// Target.
    pub target: RoutingTarget,
    /// Order within the listed model.
    pub order: usize,
    /// Route name, when any.
    pub route_name: Option<Seq<char>>,
    /// Fallback flag, when known.
    pub fallback_enabled: Option<bool>,
    /// Provider identifier of the target.
    pub provider_id: Seq<char>,
    /// Account identifier of the target.
    pub account_id: Option<Seq<char>>,
    /// Whether the provider is known.
    pub provider_known: bool,
    /// Whether the account is known, or none was requested.
    pub account_known: bool,
    /// Capability metadata.
    pub capabilities: ModelCapabilityMetadata,
    /// Listing state.
    pub listing_state: ListingStateView,
}

impl View for ModelRegistryCandidate {
    type V = CandidateView;

    open spec fn view(&self) -> CandidateView {
        CandidateView {
            native_model_id: self.native_target.provider_native_model_id@,
            target: self.native_target.target,
            order: self.candidate.candidate_order,
            route_name: opt_text(self.candidate.route_name),
            fallback_enabled: self.candidate.fallback_enabled,
            provider_id: self.applicability.provider_id@,
            account_id: opt_text(self.applicability.account_id),
            provider_known: self.applicability.provider_known,
            account_known: self.applicability.account_known,
            capabilities: self.capabilities,
            listing_state: self.listing_state@,
        }
    }
}

impl Clone for ModelRegistryCandidate {
    fn clone(&self) -> (r: Self)
        ensures
            r@ == self@,
    {
        ModelRegistryCandidate {
            native_target: self.native_target.clone(),
            candidate: self.candidate.clone(),
            applicability: self.applicability.clone(),
            capabilities: self.capabilities,
            listing_state: self.listing_state.clone(),
        }
    }
}

/// Visible listing states: available or degraded.
pub open spec fn is_visible_state(s: ListingStateView) -> bool {
    s is Available || s is Degraded
}

/// Disabled listing states: disabled, ineligible, unknown provider or account.
pub open spec fn is_disabled_state(s: ListingStateView) -> bool {
    s is Disabled || s is RoutingIneligible || s is UnknownProvider || s is UnknownAccount
}

impl ModelRegistryCandidate {
    /// Creates one model registry candidate from explicit typed metadata.
    pub fn new(
        native_target: ProviderNativeModelTarget,
        candidate: RoutingCandidateMetadata,
        applicability: ProviderAccountApplicability,
        capabilities: ModelCapabilityMetadata,
        listing_state: ModelListingState,
    ) -> (r: Self)
        ensures
            r == (ModelRegistryCandidate { native_target, candidate, applicability, capabilities, listing_state }),
    {
        ModelRegistryCandidate { native_target, candidate, applicability, capabilities, listing_state }
    }

    /// Returns true when this candidate should be visible as routable configured catalog data.
    pub fn is_visible(&self) -> (r: bool)
        ensures
            r == is_visible_state(self.listing_state@),
    {
        match &self.listing_state {
            ModelListingState::Available => true,
            ModelListingState::Degraded { .. } => true,
            _ => false,
        }
    }

    /// Returns true when this candidate is disabled, ineligible, unavailable, exhausted, or unknown.
    pub fn is_disabled(&self) -> (r: bool)
        ensures
            r == is_disabled_state(self.listing_state@),
    {
        match &self.listing_state {
            ModelListingState::Disabled { .. } => true,
            ModelListingState::RoutingIneligible { .. } => true,
            ModelListingState::UnknownProvider { .. } => true,
            ModelListingState::UnknownAccount { .. } => true,
            _ => false,
        }
    }

    /// Returns true when this candidate has degraded metadata.
    pub fn is_degraded(&self) -> (r: bool)
        ensures
            r == (self.listing_state@ is Degraded),
    {
        match &self.listing_state {
            ModelListingState::Degraded { .. } => true,
            _ => false,
        }
    }
}

// ---------------------------------------------------------------------------
// Candidate derivation
// ---------------------------------------------------------------------------

/// Models of provider summaries.
pub open spec fn providers_view(ps: Seq<ProviderSummary>) -> Seq<ProviderSummaryView> {
    ps.map_values(|p: ProviderSummary| p@)
}

/// Index of the first provider at or after `i` with identifier `id`, or the count.
pub open spec fn provider_from(ps: Seq<ProviderSummaryView>, id: Seq<char>, i: int) -> int
    decreases ps.len() - i,
{
    if i < 0 || i >= ps.len() {
        ps.len() as int
    } else if ps[i].provider_id == id {
        i
    } else {
        provider_from(ps, id, i + 1)
    }
}

/// The first provider with identifier `id`, if any.
pub open spec fn provider_named(ps: Seq<ProviderSummaryView>, id: Seq<char>) -> Option<ProviderSummaryView> {
    let k = provider_from(ps, id, 0);
    if 0 <= k < ps.len() {
        Some(ps[k])
    } else {
        None
    }
}

/// Whether a provider declares the account: none when no account is requested.
pub open spec fn account_known_of(p: Option<ProviderSummaryView>, account: Option<Seq<char>>) -> Option<bool> {
    match (p, account) {
        (Some(p), Some(a)) => Some(exists|j: int| 0 <= j < p.accounts.len() && (#[trigger] p.accounts[j]).account_id == a),
        _ => None,
    }
}

/// Capability metadata of the provider's first capability, or unknown metadata.
pub open spec fn capabilities_of(p: Option<ProviderSummaryView>) -> ModelCapabilityMetadata {
    match p {
        Some(p) => if p.capabilities.len() > 0 {
            ModelCapabilityMetadata::of_capability(p.capabilities[0])
        } else {
            ModelCapabilityMetadata::unknown_spec()
        },
        None => ModelCapabilityMetadata::unknown_spec(),
    }
}

/// Index of the first account at or after `i` with identifier `id`, or the count.
pub open spec fn account_from(accounts: Seq<AccountSummaryView>, id: Seq<char>, i: int) -> int
    decreases accounts.len() - i,
{
    if i < 0 || i >= accounts.len() {
        accounts.len() as int
    } else if accounts[i].account_id == id {
        i
    } else {
        account_from(accounts, id, i + 1)
    }
}

/// Degraded reasons of a provider and of the target's first matching account.
pub open spec fn target_reasons(p: ProviderSummaryView, target: RoutingTarget) -> Seq<DegradedReasonView> {
    match target.account_id {
        Some(a) => {
            let k = account_from(p.accounts, a@, 0);
            if 0 <= k < p.accounts.len() {
                p.degraded_reasons + p.accounts[k].degraded_reasons
            } else {
                p.degraded_reasons
            }
        },
        None => p.degraded_reasons,
    }
}

/// Available when no reason is recorded, degraded otherwise.
pub open spec fn degraded_or_available_spec(p: ProviderSummaryView, target: RoutingTarget) -> ListingStateView {
    let reasons = target_reasons(p, target);
    if reasons.len() == 0 {
        ListingStateView::Available
    } else {
        ListingStateView::Degraded(reasons)
    }
}

/// Listing state of a candidate: an unknown provider, an unknown account, an ineligible
/// provider, then the target's availability, then the provider's and account's reasons.
pub open spec fn listing_state_spec(
    p: Option<ProviderSummaryView>,
    account_known: Option<bool>,
    capabilities: ModelCapabilityMetadata,
    target: RoutingTarget,
    availability: Option<Seq<RoutingTargetAvailability>>,
) -> ListingStateView {
    match p {
        None => ListingStateView::UnknownProvider("provider "@ + target.provider_id@ + " is not declared"@),
        Some(p) => if account_known == Some(false) {
            ListingStateView::UnknownAccount(
                "account "@ + match target.account_id {
                    Some(a) => a@,
                    None => "<none>"@,
                } + " is not declared for provider "@ + target.provider_id@,
            )
        } else if !capabilities.routing_eligible {
            ListingStateView::RoutingIneligible("provider "@ + target.provider_id@ + " is not routing eligible"@)
        } else {
            match availability {
                Some(entries) => match state_of(entries, target) {
                    Some(RoutingAvailabilityState::Available) => degraded_or_available_spec(p, target),
                    Some(RoutingAvailabilityState::Degraded { reason }) => ListingStateView::Degraded(
                        seq![DegradedReasonView { component: target.label_spec(), message: reason@ }],
                    ),
                    Some(RoutingAvailabilityState::Unavailable { reason }) => ListingStateView::Disabled(reason@),
                    Some(RoutingAvailabilityState::Exhausted { reason }) => ListingStateView::Disabled(reason@),
                    None => degraded_or_available_spec(p, target),
                },
                None => degraded_or_available_spec(p, target),
            }
        },
    }
}

/// Registry candidate for a target of a listed model.
pub open spec fn candidate_spec(
    model: Seq<char>,
    target: RoutingTarget,
    order: usize,
    route_name: Option<Seq<char>>,
    fallback_enabled: Option<bool>,
    providers: Seq<ProviderSummaryView>,
    availability: Option<Seq<RoutingTargetAvailability>>,
) -> CandidateView {
    let p = provider_named(providers, target.provider_id@);
    let account = account_known_of(p, opt_text(target.account_id));
    let capabilities = capabilities_of(p);
    CandidateView {
        native_model_id: model,
        target,
        order,
        route_name,
        fallback_enabled,
        provider_id: target.provider_id@,
        account_id: opt_text(target.account_id),
        provider_known: p is Some,
        account_known: match account {
            Some(b) => b,
            None => target.account_id is None,
        },
        capabilities,
        listing_state: listing_state_spec(p, account, capabilities, target, availability),
    }
}

/// Model of an optional availability snapshot.
pub open spec fn entries_of(availability: Option<&RoutingAvailabilitySnapshot>) -> Option<Seq<RoutingTargetAvailability>> {
    match availability {
        Some(a) => Some(a.targets@),
        None => None,
    }
}

fn find_provider<'a>(providers: &'a [ProviderSummary], id: &str) -> (r: Option<&'a ProviderSummary>)
    ensures
        match provider_named(providers_view(providers@), id@) {
            Some(p) => r is Some && r.unwrap()@ == p,
            None => r is None,
        },
{
    let ghost pv = providers_view(providers@);
    let mut i: usize = 0;
    while i < providers.len()
        invariant
            i <= providers@.len(),
            pv == providers_view(providers@),
            provider_from(pv, id@, 0) == provider_from(pv, id@, i as int),
        decreases providers.len() - i,
    {
        if str_equal(providers[i].provider_id.as_str(), id) {
            return Some(&providers[i]);
        }
        i = i + 1;
    }
    None
}

fn find_account<'a>(provider: &'a ProviderSummary, id: &str) -> (r: Option<&'a AccountSummary>)
    ensures
        ({
            let accounts = provider@.accounts;
            let k = account_from(accounts, id@, 0);
            match r {
                Some(a) => 0 <= k < accounts.len() && a@ == accounts[k],
                None => !(0 <= k < accounts.len()),
            }
        }),
{
    let ghost accounts = provider@.accounts;
    let mut i: usize = 0;
    while i < provider.accounts.len()
        invariant
            i <= provider.accounts@.len(),
            accounts == provider@.accounts,
            account_from(accounts, id@, 0) == account_from(accounts, id@, i as int),
        decreases provider.accounts.len() - i,
    {
        if str_equal(provider.accounts[i].account_id.as_str(), id) {
            return Some(&provider.accounts[i]);
        }
        i = i + 1;
    }
    None
}

fn append_reasons(out: &mut Vec<DegradedReason>, more: &Vec<DegradedReason>)
    ensures
        reasons_view(final(out)@) == reasons_view(old(out)@) + reasons_view(more@),
{
    let ghost start = out@;
    let mut i: usize = 0;
    while i < more.len()
        invariant
            i <= more@.len(),
            reasons_view(out@) == reasons_view(start) + reasons_view(more@.subrange(0, i as int)),
        decreases more.len() - i,
    {
        let ghost before = out@;
        out.push(more[i].clone());
        assert(reasons_view(out@) =~= reasons_view(before).push(more@[i as int]@));
        assert(reasons_view(more@.subrange(0, i + 1)) =~= reasons_view(more@.subrange(0, i as int)).push(
            more@[i as int]@,
        ));
        i = i + 1;
    }
    assert(more@.subrange(0, more@.len() as int) =~= more@);
}

fn degraded_or_available(provider: &ProviderSummary, target: &RoutingTarget) -> (r: ModelListingState)
    ensures
        r@ == degraded_or_available_spec(provider@, *target),
{
    let mut reasons: Vec<DegradedReason> = Vec::new();
    assert(reasons_view(reasons@) =~= Seq::<DegradedReasonView>::empty());
    append_reasons(&mut reasons, &provider.degraded_reasons);
    match &target.account_id {
        Some(account_id) => match find_account(provider, account_id.as_str()) {
            Some(account) => append_reasons(&mut reasons, &account.degraded_reasons),
            None => {},
        },
        None => {},
    }
    assert(reasons_view(reasons@) =~= target_reasons(provider@, *target));
    if reasons.len() == 0 {
        ModelListingState::Available
    } else {
        ModelListingState::Degraded { reasons }
    }
}

/// A registry candidate is visible only when its provider is declared, its account is
/// known, its provider is routing eligible, and the availability snapshot, where one is
/// given, marks its target neither unavailable nor exhausted. A candidate of a declared,
/// routing-eligible provider with a known account whose target the snapshot marks
/// unavailable or exhausted is disabled with the snapshot's reason.
pub proof fn law_candidate_visibility_follows_availability(
    model: Seq<char>,
    target: RoutingTarget,
    order: usize,
    route_name: Option<Seq<char>>,
    fallback_enabled: Option<bool>,
    providers: Seq<ProviderSummaryView>,
    availability: Option<Seq<RoutingTargetAvailability>>,
)
    ensures
        ({
            let c = candidate_spec(model, target, order, route_name, fallback_enabled, providers, availability);
            is_visible_state(c.listing_state) ==> {
                &&& c.provider_known
                &&& c.account_known
                &&& c.capabilities.routing_eligible
                &&& !(availability matches Some(entries) && state_of(entries, target) matches Some(state) && (
                state is Unavailable || state is Exhausted))
            }
        }),
        ({
            let c = candidate_spec(model, target, order, route_name, fallback_enabled, providers, availability);
            c.provider_known && c.account_known && c.capabilities.routing_eligible ==> match availability {
                Some(entries) => match state_of(entries, target) {
                    Some(RoutingAvailabilityState::Unavailable { reason }) => c.listing_state
                        == ListingStateView::Disabled(reason@),
                    Some(RoutingAvailabilityState::Exhausted { reason }) => c.listing_state
                        == ListingStateView::Disabled(reason@),
                    _ => true,
                },
                None => true,
            }
        }),
{
}

fn listing_state_for(
    provider: Option<&ProviderSummary>,
    account_known: Option<bool>,
    capabilities: &ModelCapabilityMetadata,
    target: &RoutingTarget,
    availability: Option<&RoutingAvailabilitySnapshot>,
) -> (r: ModelListingState)
    ensures
        r@ == listing_state_spec(
            match provider {
                Some(p) => Some(p@),
                None => None,
            },
            account_known,
            *capabilities,
            *target,
            entries_of(availability),
        ),
{
    let provider = match provider {
        Some(p) => p,
        None => {
            return ModelListingState::UnknownProvider {
                reason: concat3("provider ", target.provider_id.as_str(), " is not declared"),
            };
        },
    };
    if account_known == Some(false) {
        let account_id = match &target.account_id {
            Some(a) => a.as_str(),
            None => "<none>",
        };
        let mut reason = concat3("account ", account_id, " is not declared for provider ");
        reason.append(target.provider_id.as_str());
        return ModelListingState::UnknownAccount { reason };
    }
    if !capabilities.routing_eligible {
        return ModelListingState::RoutingIneligible {
            reason: concat3("provider ", target.provider_id.as_str(), " is not routing eligible"),
        };
    }
    match availability {
        Some(snapshot) => match snapshot.state_for(target) {
            Some(RoutingAvailabilityState::Available) => degraded_or_available(provider, target),
            Some(RoutingAvailabilityState::Degraded { reason }) => {
                let r = vec![DegradedReason { component: target.label(), message: reason.clone() }];
                assert(reasons_view(r@) =~= seq![
                    DegradedReasonView { component: target.label_spec(), message: reason@ },
                ]);
                ModelListingState::Degraded { reasons: r }
            },
            Some(RoutingAvailabilityState::Unavailable { reason }) => ModelListingState::Disabled {
                reason: reason.clone(),
            },
            Some(RoutingAvailabilityState::Exhausted { reason }) => ModelListingState::Disabled {
                reason: reason.clone(),
            },
            None => degraded_or_available(provider, target),
        },
        None => degraded_or_available(provider, target),
    }
}

impl ModelRegistryCandidate {
    fn from_target(
        provider_native_model_id: &str,
        target: &RoutingTarget,
        candidate_order: usize,
        route_name: Option<&str>,
        fallback_enabled: Option<bool>,
        providers: &[ProviderSummary],
        availability: Option<&RoutingAvailabilitySnapshot>,
    ) -> (r: Self)
        ensures
            r@ == candidate_spec(
                provider_native_model_id@,
                *target,
                candidate_order,
                match route_name {
                    Some(n) => Some(n@),
                    None => None,
                },
                fallback_enabled,
                providers_view(providers@),
                entries_of(availability),
            ),
    {
        let provider = find_provider(providers, target.provider_id.as_str());
        let account: Option<bool> = match (provider, &target.account_id) {
            (Some(p), Some(account_id)) => {
                let found = find_account(p, account_id.as_str());
                proof {
                    let accounts = p@.accounts;
                    let k = account_from(accounts, account_id@, 0);
                    lemma_account_from(accounts, account_id@, 0);
                }
                Some(found.is_some())
            },
            _ => None,
        };
        let capabilities = match provider {
            Some(p) => {
                if p.capabilities.len() > 0 {
                    ModelCapabilityMetadata::from_capability(&p.capabilities[0])
                } else {
                    ModelCapabilityMetadata::unknown()
                }
            },
            None => ModelCapabilityMetadata::unknown(),
        };
        let applicability = ProviderAccountApplicability::new(
            target.provider_id.as_str(),
            match &target.account_id {
                Some(a) => Some(a.clone()),
                None => None,
            },
            provider.is_some(),
            match account {
                Some(b) => b,
                None => target.account_id.is_none(),
            },
        );
        let listing_state = listing_state_for(provider, account, &capabilities, target, availability);
        ModelRegistryCandidate::new(
            ProviderNativeModelTarget::new(provider_native_model_id, target.clone()),
            RoutingCandidateMetadata::new(
                candidate_order,
                match route_name {
                    Some(n) => Some(owned(n)),
                    None => None,
                },
                fallback_enabled,
            ),
            applicability,
            capabilities,
            listing_state,
        )
    }
}

proof fn lemma_account_from(accounts: Seq<AccountSummaryView>, id: Seq<char>, i: int)
    requires
        0 <= i <= accounts.len(),
    ensures
        i <= account_from(accounts, id, i) <= accounts.len(),
        account_from(accounts, id, i) < accounts.len() ==> accounts[account_from(accounts, id, i)].account_id
            == id,
        forall|j: int| i <= j < account_from(accounts, id, i) ==> accounts[j].account_id != id,
    decreases accounts.len() - i,
{
    if i < accounts.len() {
        lemma_account_from(accounts, id, i + 1);
    }
}

// ---------------------------------------------------------------------------
// Entries and the registry
// ---------------------------------------------------------------------------

/// Listed model identity with user-facing and resolved model identifiers kept separate.
#[derive(Clone, Debug, PartialEq, Eq)]
pub struct ListedModelIdentity {
    /// Model identifier exposed to callers and listing consumers.
    pub listed_model_id: String,
    /// Model identifier after applying core alias metadata.
    pub resolved_model_id: String,
}

impl ListedModelIdentity {
    /// Creates listed model identity metadata.
    pub fn new(listed_model_id: &str, resolved_model_id: &str) -> (r: Self)
        ensures
            r.listed_model_id@ == listed_model_id@,
            r.resolved_model_id@ == resolved_model_id@,
    {
        ListedModelIdentity { listed_model_id: owned(listed_model_id), resolved_model_id: owned(resolved_model_id) }
    }
}

/// One listed model and its configured provider/account candidates.
#[derive(Clone, Debug, PartialEq, Eq)]
pub struct ModelRegistryEntry {
    /// Listed and resolved model identity metadata.
    pub identity: ListedModelIdentity,
    /// Alias metadata when this entry was created from a requested alias.
    pub alias: Option<ModelAliasMetadata>,
    /// Fork metadata describing whether this listed model fans out to multiple targets.
    pub fork: ModelForkMetadata,
    /// Ordered provider/account candidates for this listed model.
    pub candidates: Vec<ModelRegistryCandidate>,
}

/// Model of a registry entry.
pub struct EntryView {
    /// Listed model identifier.
    pub listed: Seq<char>,
    /// Resolved model identifier.
    pub resolved: Seq<char>,
    /// Alias requested and resolved identifiers and reasoning, when an alias.
    pub alias: Option<(Seq<char>, Seq<char>, Option<ReasoningIntent>)>,
    /// Fork metadata.
    pub fork: ModelForkMetadata,
    /// Models of the candidates.
    pub candidates: Seq<CandidateView>,
}

/// Models of candidates.
pub open spec fn candidates_view(cs: Seq<ModelRegistryCandidate>) -> Seq<CandidateView> {
    cs.map_values(|c: ModelRegistryCandidate| c@)
}

impl View for ModelRegistryEntry {
    type V = EntryView;

    open spec fn view(&self) -> EntryView {
        EntryView {
            listed: self.identity.listed_model_id@,
            resolved: self.identity.resolved_model_id@,
            alias: match self.alias {
                Some(a) => Some((a.requested_model_id@, a.resolved_model_id@, a.reasoning)),
                None => None,
            },
            fork: self.fork,
            candidates: candidates_view(self.candidates@),
        }
    }
}

impl ModelRegistryEntry {
    /// Creates one registry entry from typed identity, alias, fork, and candidate metadata.
    pub fn new(
        identity: ListedModelIdentity,
        alias: Option<ModelAliasMetadata>,
        fork: ModelForkMetadata,
        candidates: Vec<ModelRegistryCandidate>,
    ) -> (r: Self)
        ensures
            r == (ModelRegistryEntry { identity, alias, fork, candidates }),
    {
        ModelRegistryEntry { identity, alias, fork, candidates }
    }

    /// Whether some candidate of the entry satisfies a listing predicate.
    pub open spec fn any_candidate(self, pred: spec_fn(ListingStateView) -> bool) -> bool {
        exists|i: int| 0 <= i < self.candidates@.len() && pred((#[trigger] self.candidates@[i])@.listing_state)
    }
}

/// Candidates of a route in a policy: its targets in order, all with the policy's fallback.
pub open spec fn route_candidates(
    model: Seq<char>,
    targets: Seq<RoutingCandidate>,
    fallback_enabled: bool,
    providers: Seq<ProviderSummaryView>,
    availability: Option<Seq<RoutingTargetAvailability>>,
) -> Seq<CandidateView> {
    Seq::new(
        targets.len(),
        |i: int| candidate_spec(model, targets[i].target, i as usize, None, Some(fallback_enabled), providers, availability),
    )
}

/// Entry of a listed model.
pub open spec fn entry_spec(
    listed: Seq<char>,
    resolved: Seq<char>,
    alias: Option<(Seq<char>, Seq<char>, Option<ReasoningIntent>)>,
    candidates: Seq<CandidateView>,
) -> EntryView {
    EntryView {
        listed,
        resolved,
        alias,
        fork: ModelForkMetadata { forked: candidates.len() > 1, candidate_count: candidates.len() as usize },
        candidates,
    }
}

/// Aliases that resolve to model `m`.
pub open spec fn resolves_to(m: Seq<char>) -> spec_fn(ModelAlias) -> bool {
    |a: ModelAlias| a.resolved_model@ == m
}

/// The entry of an alias of model `m` with these candidates.
pub open spec fn alias_entry_of(m: Seq<char>, candidates: Seq<CandidateView>) -> spec_fn(ModelAlias) -> EntryView {
    |a: ModelAlias|
        entry_spec(a.requested_model@, m, Some((a.requested_model@, a.resolved_model@, a.reasoning)), candidates)
}

/// Entries of one route: the resolved model, then each alias that resolves to it.
pub open spec fn route_entries(
    route: ModelRoute,
    aliases: Seq<ModelAlias>,
    candidates: Seq<CandidateView>,
) -> Seq<EntryView> {
    let m = route.resolved_model@;
    seq![entry_spec(m, m, None, candidates)] + aliases.filter(resolves_to(m)).map_values(alias_entry_of(m, candidates))
}

/// Entries of the first `n` routes of a policy.
pub open spec fn policy_entries(
    policy: RoutingPolicy,
    n: int,
    providers: Seq<ProviderSummaryView>,
    availability: Option<Seq<RoutingTargetAvailability>>,
) -> Seq<EntryView>
    decreases n,
{
    if n <= 0 || n > policy.routes@.len() {
        Seq::empty()
    } else {
        let route = policy.routes@[n - 1];
        policy_entries(policy, n - 1, providers, availability) + route_entries(
            route,
            policy.model_aliases@,
            route_candidates(
                route.resolved_model@,
                route.candidates@,
                policy.fallback.fallback_enabled,
                providers,
                availability,
            ),
        )
    }
}

/// Entries of the first `n` routing default groups of a file configuration.
pub open spec fn group_entries(
    groups: Seq<FileRoutingDefaultGroupView>,
    n: int,
    providers: Seq<ProviderSummaryView>,
    availability: Option<Seq<RoutingTargetAvailability>>,
) -> Seq<EntryView>
    decreases n,
{
    if n <= 0 || n > groups.len() {
        Seq::empty()
    } else {
        let g = groups[n - 1];
        group_entries(groups, n - 1, providers, availability).push(
            entry_spec(g.model@, g.model@, None, group_candidates(g, providers, availability)),
        )
    }
}

/// Candidates of a routing default group: each default's target, named by the group.
pub open spec fn group_candidates(
    g: FileRoutingDefaultGroupView,
    providers: Seq<ProviderSummaryView>,
    availability: Option<Seq<RoutingTargetAvailability>>,
) -> Seq<CandidateView> {
    Seq::new(
        g.candidates.len(),
        |i: int|
            candidate_spec(
                g.candidates[i].model@,
                g.candidates[i].target,
                i as usize,
                Some(g.candidates[i].name@),
                Some(g.candidates[i].fallback_enabled),
                providers,
                availability,
            ),
    )
}

/// Deterministic model registry built from static core configuration inputs.
#[derive(Clone, Debug, PartialEq, Eq)]
pub struct ModelRegistry {
    /// Ordered configured model entries.
    pub entries: Vec<ModelRegistryEntry>,
}

/// Models of entries.
pub open spec fn entries_view(es: Seq<ModelRegistryEntry>) -> Seq<EntryView> {
    es.map_values(|e: ModelRegistryEntry| e@)
}

fn copy_candidates(v: &Vec<ModelRegistryCandidate>) -> (r: Vec<ModelRegistryCandidate>)
    ensures
        candidates_view(r@) == candidates_view(v@),
{
    let mut out: Vec<ModelRegistryCandidate> = Vec::new();
    let mut i: usize = 0;
    while i < v.len()
        invariant
            i <= v@.len(),
            out@.len() == i,
            forall|j: int| 0 <= j < i ==> (#[trigger] out@[j])@ == v@[j]@,
        decreases v.len() - i,
    {
        out.push(v[i].clone());
        i = i + 1;
    }
    assert(candidates_view(out@) =~= candidates_view(v@));
    out
}

fn route_candidate_list(
    route: &ModelRoute,
    fallback_enabled: bool,
    providers: &[ProviderSummary],
    availability: Option<&RoutingAvailabilitySnapshot>,
) -> (r: Vec<ModelRegistryCandidate>)
    ensures
        candidates_view(r@) == route_candidates(
            route.resolved_model@,
            route.candidates@,
            fallback_enabled,
            providers_view(providers@),
            entries_of(availability),
        ),
{
    let mut out: Vec<ModelRegistryCandidate> = Vec::new();
    let mut i: usize = 0;
    while i < route.candidates.len()
        invariant
            i <= route.candidates@.len(),
            out@.len() == i,
            forall|j: int|
                0 <= j < i ==> (#[trigger] out@[j])@ == candidate_spec(
                    route.resolved_model@,
                    route.candidates@[j].target,
                    j as usize,
                    None,
                    Some(fallback_enabled),
                    providers_view(providers@),
                    entries_of(availability),
                ),
        decreases route.candidates.len() - i,
    {
        out.push(
            ModelRegistryCandidate::from_target(
                route.resolved_model.as_str(),
                &route.candidates[i].target,
                i,
                None,
                Some(fallback_enabled),
                providers,
                availability,
            ),
        );
        i = i + 1;
    }
    assert(candidates_view(out@) =~= route_candidates(
        route.resolved_model@,
        route.candidates@,
        fallback_enabled,
        providers_view(providers@),
        entries_of(availability),
    ));
    out
}

fn alias_entry(alias: &ModelAlias, route: &ModelRoute, candidates: &Vec<ModelRegistryCandidate>) -> (r:
    ModelRegistryEntry)
    ensures
        r@ == entry_spec(
            alias.requested_model@,
            route.resolved_model@,
            Some((alias.requested_model@, alias.resolved_model@, alias.reasoning)),
            candidates_view(candidates@),
        ),
{
    let mut metadata = ModelAliasMetadata::new(alias.requested_model.as_str(), alias.resolved_model.as_str());
    metadata.reasoning = match &alias.reasoning {
        Some(intent) => Some(intent.clone()),
        None => None,
    };
    ModelRegistryEntry::new(
        ListedModelIdentity::new(alias.requested_model.as_str(), route.resolved_model.as_str()),
        Some(metadata),
        ModelForkMetadata::from_candidate_count(candidates.len()),
        copy_candidates(candidates),
    )
}

impl ModelRegistry {
    /// Builds a registry from routing policy and provider summaries without availability metadata.
    pub fn from_policy(policy: &RoutingPolicy, providers: &[ProviderSummary]) -> (r: Self)
        ensures
            entries_view(r.entries@) == policy_entries(
                *policy,
                policy.routes@.len() as int,
                providers_view(providers@),
                None,
            ),
    {
        ModelRegistry::from_policy_with_availability(policy, providers, None)
    }

    /// Builds a registry from a routing policy: for each route, its resolved model, then each
    /// alias that resolves to it, all with the route's candidates.
    pub fn from_policy_with_availability(
        policy: &RoutingPolicy,
        providers: &[ProviderSummary],
        availability: Option<&RoutingAvailabilitySnapshot>,
    ) -> (r: Self)
        ensures
            entries_view(r.entries@) == policy_entries(
                *policy,
                policy.routes@.len() as int,
                providers_view(providers@),
                entries_of(availability),
            ),
    {
        let ghost pv = providers_view(providers@);
        let ghost av = entries_of(availability);
        let mut entries: Vec<ModelRegistryEntry> = Vec::new();
        let mut r: usize = 0;
        assert(entries_view(entries@) =~= Seq::<EntryView>::empty());
        while r < policy.routes.len()
            invariant
                r <= policy.routes@.len(),
                pv == providers_view(providers@),
                av == entries_of(availability),
                entries_view(entries@) == policy_entries(*policy, r as int, pv, av),
            decreases policy.routes.len() - r,
        {
            let route = &policy.routes[r];
            let candidates = route_candidate_list(route, policy.fallback.fallback_enabled, providers, availability);
            let ghost cv = candidates_view(candidates@);
            let ghost before = entries_view(entries@);
            entries.push(
                ModelRegistryEntry::new(
                    ListedModelIdentity::new(route.resolved_model.as_str(), route.resolved_model.as_str()),
                    None,
                    ModelForkMetadata::from_candidate_count(candidates.len()),
                    copy_candidates(&candidates),
                ),
            );
            assert(entries_view(entries@) =~= before.push(
                entry_spec(route.resolved_model@, route.resolved_model@, None, cv),
            ));
            let ghost aliases = policy.model_aliases@;
            let ghost keep = resolves_to(route.resolved_model@);
            let ghost make = alias_entry_of(route.resolved_model@, cv);
            let mut a: usize = 0;
            while a < policy.model_aliases.len()
                invariant
                    a <= aliases.len(),
                    aliases == policy.model_aliases@,
                    route == &policy.routes@[r as int],
                    cv == candidates_view(candidates@),
                    keep == resolves_to(route.resolved_model@),
                    make == alias_entry_of(route.resolved_model@, cv),
                    entries_view(entries@) == before + seq![
                        entry_spec(route.resolved_model@, route.resolved_model@, None, cv),
                    ] + aliases.subrange(0, a as int).filter(keep).map_values(make),
                decreases policy.model_aliases.len() - a,
            {
                let ghost prev = aliases.subrange(0, a as int);
                let ghost next = aliases.subrange(0, a + 1);
                assert(next.drop_last() =~= prev);
                assert(next.last() == aliases[a as int]);
                reveal(Seq::filter);
                assert(next.filter(keep) == if keep(next.last()) {
                    prev.filter(keep).push(next.last())
                } else {
                    prev.filter(keep)
                });
                let alias = &policy.model_aliases[a];
                if str_equal(alias.resolved_model.as_str(), route.resolved_model.as_str()) {
                    let ghost old_entries = entries_view(entries@);
                    entries.push(alias_entry(alias, route, &candidates));
                    assert(entries_view(entries@) =~= old_entries.push(make(*alias)));
                    assert(next.filter(keep).map_values(make) =~= prev.filter(keep).map_values(make).push(
                        make(*alias),
                    ));
                } else {
                    assert(next.filter(keep) == prev.filter(keep));
                }
                a = a + 1;
            }
            assert(aliases.subrange(0, aliases.len() as int) =~= aliases);
            assert(entries_view(entries@) =~= policy_entries(*policy, r + 1, pv, av));
            r = r + 1;
        }
        ModelRegistry { entries }
    }

    /// Builds a registry from validated file-backed configuration.
    pub fn from_file_configuration(configuration: &ValidatedFileConfiguration) -> (r: Self)
        ensures
            r.entries@.len() == configuration.routing_default_groups@.len(),
    {
        let providers = configuration.provider_summaries();
        ModelRegistry::from_file_configuration_with_availability(configuration, providers.as_slice(), None)
    }

    /// Builds a registry from validated file-backed configuration: one entry per routing
    /// default group, its candidates carrying the group's name and each default's fallback flag.
    pub fn from_file_configuration_with_availability(
        configuration: &ValidatedFileConfiguration,
        providers: &[ProviderSummary],
        availability: Option<&RoutingAvailabilitySnapshot>,
    ) -> (r: Self)
        ensures
            entries_view(r.entries@) == group_entries(
                configuration.routing_default_groups@.map_values(
                    |g: crate::configuration::file::FileRoutingDefaultGroup| g@,
                ),
                configuration.routing_default_groups@.len() as int,
                providers_view(providers@),
                entries_of(availability),
            ),
            r.entries@.len() == configuration.routing_default_groups@.len(),
    {
        let ghost groups = configuration.routing_default_groups@.map_values(
            |g: crate::configuration::file::FileRoutingDefaultGroup| g@,
        );
        let ghost pv = providers_view(providers@);
        let ghost av = entries_of(availability);
        let mut entries: Vec<ModelRegistryEntry> = Vec::new();
        let mut g: usize = 0;
        assert(entries_view(entries@) =~= Seq::<EntryView>::empty());
        while g < configuration.routing_default_groups.len()
            invariant
                g <= groups.len(),
                groups == configuration.routing_default_groups@.map_values(
                    |g: crate::configuration::file::FileRoutingDefaultGroup| g@,
                ),
                pv == providers_view(providers@),
                av == entries_of(availability),
                entries_view(entries@) == group_entries(groups, g as int, pv, av),
                entries@.len() == g,
            decreases configuration.routing_default_groups.len() - g,
        {
            let group = &configuration.routing_default_groups[g];
            let ghost gv = groups[g as int];
            assert(gv == group@);
            let mut candidates: Vec<ModelRegistryCandidate> = Vec::new();
            let mut i: usize = 0;
            while i < group.candidates.len()
                invariant
                    i <= group.candidates@.len(),
                    gv == group@,
                    pv == providers_view(providers@),
                    av == entries_of(availability),
                    candidates@.len() == i,
                    forall|j: int|
                        0 <= j < i ==> (#[trigger] candidates@[j])@ == candidate_spec(
                            gv.candidates[j].model@,
                            gv.candidates[j].target,
                            j as usize,
                            Some(gv.candidates[j].name@),
                            Some(gv.candidates[j].fallback_enabled),
                            pv,
                            av,
                        ),
                decreases group.candidates.len() - i,
            {
                let candidate = &group.candidates[i];
                candidates.push(
                    ModelRegistryCandidate::from_target(
                        candidate.model.as_str(),
                        &candidate.target,
                        i,
                        Some(candidate.name.as_str()),
                        Some(candidate.fallback_enabled),
                        providers,
                        availability,
                    ),
                );
                i = i + 1;
            }
            let ghost before = entries_view(entries@);
            assert(candidates_view(candidates@) =~= group_candidates(gv, pv, av));
            let count = candidates.len();
            entries.push(
                ModelRegistryEntry::new(
                    ListedModelIdentity::new(group.model.as_str(), group.model.as_str()),
                    None,
                    ModelForkMetadata::from_candidate_count(count),
                    candidates,
                ),
            );
            assert(entries_view(entries@) =~= group_entries(groups, g + 1, pv, av));
            g = g + 1;
        }
        ModelRegistry { entries }
    }

    /// Returns all configured entries in deterministic registry order.
    pub fn all_entries(&self) -> (r: &[ModelRegistryEntry])
        ensures
            r@ == self.entries@,
    {
        self.entries.as_slice()
    }

    /// Entries, in order, of which some candidate satisfies a listing predicate.
    pub open spec fn entries_where(self, pred: spec_fn(ListingStateView) -> bool) -> Seq<ModelRegistryEntry> {
        self.entries@.filter(has_candidate(pred))
    }

    fn entries_with(&self, filter: ModelListingFilter) -> (r: Vec<&ModelRegistryEntry>)
        requires
            !(filter is AllConfigured),
        ensures
            r@.map_values(|e: &ModelRegistryEntry| *e) == self.entries_where(filter.predicate()),
    {
        let ghost pred = filter.predicate();
        let ghost keep = has_candidate(pred);
        let mut out: Vec<&ModelRegistryEntry> = Vec::new();
        let mut i: usize = 0;
        while i < self.entries.len()
            invariant
                i <= self.entries@.len(),
                pred == filter.predicate(),
                keep == has_candidate(pred),
                !(filter is AllConfigured),
                out@.map_values(|e: &ModelRegistryEntry| *e) == self.entries@.subrange(0, i as int).filter(keep),
            decreases self.entries.len() - i,
        {
            let entry = &self.entries[i];
            let mut found = false;
            let mut j: usize = 0;
            while j < entry.candidates.len()
                invariant
                    j <= entry.candidates@.len(),
                    pred == filter.predicate(),
                    !(filter is AllConfigured),
                    found == exists|k: int| 0 <= k < j && pred((#[trigger] entry.candidates@[k])@.listing_state),
                decreases entry.candidates.len() - j,
            {
                let candidate = &entry.candidates[j];
                let hit = match filter {
                    ModelListingFilter::Visible => candidate.is_visible(),
                    ModelListingFilter::Disabled => candidate.is_disabled(),
                    _ => candidate.is_degraded(),
                };
                if hit {
                    found = true;
                }
                j = j + 1;
            }
            let ghost prev = self.entries@.subrange(0, i as int);
            let ghost next = self.entries@.subrange(0, i + 1);
            assert(next.drop_last() =~= prev);
            assert(next.last() == self.entries@[i as int]);
            reveal(Seq::filter);
            let ghost before = out@;
            if found {
                out.push(entry);
                assert(out@.map_values(|e: &ModelRegistryEntry| *e) =~= before.map_values(
                    |e: &ModelRegistryEntry| *e,
                ).push(*entry));
            }
            i = i + 1;
        }
        assert(self.entries@.subrange(0, self.entries@.len() as int) =~= self.entries@);
        out
    }

    /// Returns entries with at least one visible and routable candidate.
    pub fn visible_entries(&self) -> (r: Vec<&ModelRegistryEntry>)
        ensures
            r@.map_values(|e: &ModelRegistryEntry| *e) == self.entries_where(
                ModelListingFilter::Visible.predicate(),
            ),
    {
        self.entries_with(ModelListingFilter::Visible)
    }

    /// Returns entries with at least one disabled or routing-ineligible candidate.
    pub fn disabled_entries(&self) -> (r: Vec<&ModelRegistryEntry>)
        ensures
            r@.map_values(|e: &ModelRegistryEntry| *e) == self.entries_where(
                ModelListingFilter::Disabled.predicate(),
            ),
    {
        self.entries_with(ModelListingFilter::Disabled)
    }

    /// Returns entries with at least one degraded candidate.
    pub fn degraded_entries(&self) -> (r: Vec<&ModelRegistryEntry>)
        ensures
            r@.map_values(|e: &ModelRegistryEntry| *e) == self.entries_where(
                ModelListingFilter::Degraded.predicate(),
            ),
    {
        self.entries_with(ModelListingFilter::Degraded)
    }

    /// Returns entries matching one deterministic listing filter.
    pub fn entries_matching(&self, filter: ModelListingFilter) -> (r: Vec<&ModelRegistryEntry>)
        ensures
            filter is AllConfigured ==> r@.map_values(|e: &ModelRegistryEntry| *e) == self.entries@,
            !(filter is AllConfigured) ==> r@.map_values(|e: &ModelRegistryEntry| *e) == self.entries_where(
                filter.predicate(),
            ),
    {
        match filter {
            ModelListingFilter::AllConfigured => {
                let mut out: Vec<&ModelRegistryEntry> = Vec::new();
                let mut i: usize = 0;
                while i < self.entries.len()
                    invariant
                        i <= self.entries@.len(),
                        out@.map_values(|e: &ModelRegistryEntry| *e) == self.entries@.subrange(0, i as int),
                    decreases self.entries.len() - i,
                {
                    let ghost before = out@;
                    out.push(&self.entries[i]);
                    assert(out@.map_values(|e: &ModelRegistryEntry| *e) =~= before.map_values(
                        |e: &ModelRegistryEntry| *e,
                    ).push(self.entries@[i as int]));
                    assert(self.entries@.subrange(0, i + 1) =~= self.entries@.subrange(0, i as int).push(
                        self.entries@[i as int],
                    ));
                    i = i + 1;
                }
                assert(self.entries@.subrange(0, self.entries@.len() as int) =~= self.entries@);
                out
            },
            _ => self.entries_with(filter),
        }
    }

    /// Projects visible entries into the minimal OpenAI-compatible model list shape.
    pub fn open_ai_model_list(&self) -> (r: OpenAiModelListProjection)
        ensures
            r.object@ == "list"@,
            r.data@.len() == self.entries_where(ModelListingFilter::Visible.predicate()).len(),
            forall|i: int|
                0 <= i < r.data@.len() ==> is_projection_of(
                    #[trigger] r.data@[i],
                    self.entries_where(ModelListingFilter::Visible.predicate())[i],
                ),
    {
        OpenAiModelListProjection::from_entries(self.visible_entries())
    }
}

/// Entries of which some candidate satisfies a listing predicate.
pub open spec fn has_candidate(pred: spec_fn(ListingStateView) -> bool) -> spec_fn(ModelRegistryEntry) -> bool {
    |e: ModelRegistryEntry| e.any_candidate(pred)
}

/// Filter modes supported by deterministic model registry listing APIs.
#[derive(Clone, Copy, Debug, PartialEq, Eq, Structural)]
pub enum ModelListingFilter {
    /// Include all configured registry entries.
    AllConfigured,
    /// Include entries with at least one visible/routable candidate.
    Visible,
    /// Include entries with at least one disabled candidate.
    Disabled,
    /// Include entries with at least one degraded candidate.
    Degraded,
}

impl ModelListingFilter {
    /// The candidate listing states a filter selects.
    pub open spec fn predicate(self) -> spec_fn(ListingStateView) -> bool {
        match self {
            ModelListingFilter::Visible => |s: ListingStateView| is_visible_state(s),
            ModelListingFilter::Disabled => |s: ListingStateView| is_disabled_state(s),
            ModelListingFilter::Degraded => |s: ListingStateView| s is Degraded,
            ModelListingFilter::AllConfigured => |s: ListingStateView| true,
        }
    }
}

/// Minimal OpenAI-compatible model list projection derived from registry entries.
#[derive(Clone, Debug, PartialEq, Eq)]
pub struct OpenAiModelListProjection {
    /// OpenAI-compatible object kind for list responses.
    pub object: String,
    /// Projected model entries.
    pub data: Vec<OpenAiModelProjection>,
}

/// The projection of an entry: its listed identifier, owned by the provider of its first
/// visible candidate, or by `oxmux`.
pub open spec fn is_projection_of(p: OpenAiModelProjection, e: ModelRegistryEntry) -> bool {
    let cs = candidates_view(e.candidates@);
    &&& p.id@ == e.identity.listed_model_id@
    &&& p.object@ == "model"@
    &&& p.created == 0
    &&& p.owned_by@ == if exists|i: int| 0 <= i < cs.len() && is_visible_state((#[trigger] cs[i]).listing_state) {
        cs[first_visible_from(cs, 0)].provider_id
    } else {
        "oxmux"@
    }
}

/// Index of the first visible candidate at or after `i`, or the count.
pub open spec fn first_visible_from(cs: Seq<CandidateView>, i: int) -> int
    decreases cs.len() - i,
{
    if i < 0 || i >= cs.len() {
        cs.len() as int
    } else if is_visible_state(cs[i].listing_state) {
        i
    } else {
        first_visible_from(cs, i + 1)
    }
}

impl OpenAiModelListProjection {
    /// Creates an OpenAI-compatible projection from visible registry entries.
    pub fn from_entries(entries: Vec<&ModelRegistryEntry>) -> (r: Self)
        ensures
            r.object@ == "list"@,
            r.data@.len() == entries@.len(),
            forall|i: int| 0 <= i < r.data@.len() ==> is_projection_of(#[trigger] r.data@[i], *entries@[i]),
    {
        let mut data: Vec<OpenAiModelProjection> = Vec::new();
        let mut i: usize = 0;
        while i < entries.len()
            invariant
                i <= entries@.len(),
                data@.len() == i,
                forall|j: int| 0 <= j < i ==> is_projection_of(#[trigger] data@[j], *entries@[j]),
            decreases entries.len() - i,
        {
            data.push(OpenAiModelProjection::from_registry_entry(entries[i]));
            i = i + 1;
        }
        OpenAiModelListProjection { object: owned("list"), data }
    }
}

/// Minimal OpenAI-compatible model projection for one registry entry.
#[derive(Clone, Debug, PartialEq, Eq)]
pub struct OpenAiModelProjection {
    /// OpenAI-compatible model identifier.
    pub id: String,
    /// OpenAI-compatible object kind for model entries.
    pub object: String,
    /// Deterministic static timestamp placeholder for configured catalog data.
    pub created: u64,
    /// Provider ownership label derived from first visible candidate metadata.
    pub owned_by: String,
}

impl OpenAiModelProjection {
    /// Creates an OpenAI-compatible projection from one registry entry.
    pub fn from_registry_entry(entry: &ModelRegistryEntry) -> (r: Self)
        ensures
            is_projection_of(r, *entry),
    {
        let ghost cs = candidates_view(entry.candidates@);
        let mut i: usize = 0;
        while i < entry.candidates.len()
            invariant
                i <= entry.candidates@.len(),
                cs == candidates_view(entry.candidates@),
                first_visible_from(cs, 0) == first_visible_from(cs, i as int),
                forall|j: int| 0 <= j < i ==> !is_visible_state((#[trigger] cs[j]).listing_state),
            decreases entry.candidates.len() - i,
        {
            if entry.candidates[i].is_visible() {
                let owned_by = entry.candidates[i].applicability.provider_id.clone();
                return OpenAiModelProjection {
                    id: entry.identity.listed_model_id.clone(),
                    object: owned("model"),
                    created: 0,
                    owned_by,
                };
            }
            i = i + 1;
        }
        OpenAiModelProjection {
            id: entry.identity.listed_model_id.clone(),
            object: owned("model"),
            created: 0,
            owned_by: owned("oxmux"),
        }
    }
}

} // verus!
