//! Subscription-aware routing policy and selection contracts.
//!
//! Routing state resolves requested models, evaluates provider/account targets,
//! records skipped candidates, and reports fallback or degraded-selection reasons
//! for consumers of the headless core.

use vstd::prelude::*;

use crate::errors::CoreError;
use crate::reasoning::ReasoningIntent;
use crate::text::{concat2, concat3, decimal, decimal_string, is_blank, is_blank_text, opt_text, owned, str_equal};

verus! {

/// Facade for selecting routing targets from policy and availability state.
#[derive(Clone, Copy, Debug, PartialEq, Eq, Structural)]
pub struct RoutingBoundary;

impl RoutingBoundary {
    /// Selects a routing target from policy, request, and availability state.
    pub fn select(
        policy: &RoutingPolicy,
        request: &RoutingSelectionRequest,
        availability: &RoutingAvailabilitySnapshot,
    ) -> (r: Result<RoutingSelectionResult, CoreError>)
        ensures
            routing_result_matches(r, selection_spec(*policy, *request, *availability)),
    {
        policy.select(request, availability)
    }
}

// ---------------------------------------------------------------------------
// Targets and their lookup
// ---------------------------------------------------------------------------

/// Two targets name the same provider and account.
pub open spec fn same_target(a: RoutingTarget, b: RoutingTarget) -> bool {
    a.provider_id@ == b.provider_id@ && opt_text(a.account_id) == opt_text(b.account_id)
}

/// Availability state of the first entry at or after `i` whose target is `t`.
pub open spec fn state_from(entries: Seq<RoutingTargetAvailability>, t: RoutingTarget, i: int) -> Option<
    RoutingAvailabilityState,
>
    decreases entries.len() - i,
{
    if i < 0 || i >= entries.len() {
        None
    } else if same_target(entries[i].target, t) {
        Some(entries[i].state)
    } else {
        state_from(entries, t, i + 1)
    }
}

/// Availability state recorded for a target: that of its first entry.
pub open spec fn state_of(entries: Seq<RoutingTargetAvailability>, t: RoutingTarget) -> Option<
    RoutingAvailabilityState,
> {
    state_from(entries, t, 0)
}

/// Resolved model of the first alias at or after `i` for a requested model.
pub open spec fn alias_from(aliases: Seq<ModelAlias>, requested: Seq<char>, i: int) -> Option<Seq<char>>
    decreases aliases.len() - i,
{
    if i < 0 || i >= aliases.len() {
        None
    } else if aliases[i].requested_model@ == requested {
        Some(aliases[i].resolved_model@)
    } else {
        alias_from(aliases, requested, i + 1)
    }
}

/// The model a request resolves to: the first matching alias, or the requested model itself.
pub open spec fn resolve(aliases: Seq<ModelAlias>, requested: Seq<char>) -> Seq<char> {
    match alias_from(aliases, requested, 0) {
        Some(m) => m,
        None => requested,
    }
}

/// Index of the first route at or after `i` for a resolved model, or the route count.
pub open spec fn route_from(routes: Seq<ModelRoute>, resolved: Seq<char>, i: int) -> int
    decreases routes.len() - i,
{
    if i < 0 || i >= routes.len() {
        routes.len() as int
    } else if routes[i].resolved_model@ == resolved {
        i
    } else {
        route_from(routes, resolved, i + 1)
    }
}

// ---------------------------------------------------------------------------
// Candidate evaluation
// ---------------------------------------------------------------------------

/// Why a candidate in the given state is skipped.
pub open spec fn skip_reason(state: Option<RoutingAvailabilityState>, allow_degraded: bool) -> RoutingSkipReason {
    match state {
        Some(RoutingAvailabilityState::Unavailable { reason }) => RoutingSkipReason::Unavailable { reason },
        Some(RoutingAvailabilityState::Exhausted { reason }) => RoutingSkipReason::Exhausted { reason },
        Some(RoutingAvailabilityState::Degraded { reason }) => if allow_degraded {
            RoutingSkipReason::DegradedDeferred { reason }
        } else {
            RoutingSkipReason::DegradedDisallowed { reason }
        },
        _ => RoutingSkipReason::MissingAvailability,
    }
}

/// The skip record of candidate `i`.
pub open spec fn skipped_at(
    candidates: Seq<RoutingCandidate>,
    entries: Seq<RoutingTargetAvailability>,
    allow_degraded: bool,
    i: int,
) -> SkippedRoutingCandidate {
    SkippedRoutingCandidate {
        target: candidates[i].target,
        reason: skip_reason(state_of(entries, candidates[i].target), allow_degraded),
    }
}

/// Skip records of the first `n` candidates, in order.
pub open spec fn skipped_upto(
    candidates: Seq<RoutingCandidate>,
    entries: Seq<RoutingTargetAvailability>,
    allow_degraded: bool,
    n: int,
) -> Seq<SkippedRoutingCandidate> {
    Seq::new(n as nat, |i: int| skipped_at(candidates, entries, allow_degraded, i))
}

/// Index of the first candidate at or after `i` that is available, or the candidate count.
pub open spec fn first_available_from(
    candidates: Seq<RoutingCandidate>,
    entries: Seq<RoutingTargetAvailability>,
    i: int,
) -> int
    decreases candidates.len() - i,
{
    if i < 0 || i >= candidates.len() {
        candidates.len() as int
    } else if state_of(entries, candidates[i].target) == Some(RoutingAvailabilityState::Available) {
        i
    } else {
        first_available_from(candidates, entries, i + 1)
    }
}

/// Index of the first candidate at or after `i` that is degraded, or the candidate count.
pub open spec fn first_degraded_from(
    candidates: Seq<RoutingCandidate>,
    entries: Seq<RoutingTargetAvailability>,
    i: int,
) -> int
    decreases candidates.len() - i,
{
    if i < 0 || i >= candidates.len() {
        candidates.len() as int
    } else if state_of(entries, candidates[i].target) matches Some(RoutingAvailabilityState::Degraded { .. }) {
        i
    } else {
        first_degraded_from(candidates, entries, i + 1)
    }
}

/// The first available index at or after `i` lies between `i` and the candidate count.
pub proof fn lemma_first_available_bounds(
    candidates: Seq<RoutingCandidate>,
    entries: Seq<RoutingTargetAvailability>,
    i: int,
)
    requires
        0 <= i <= candidates.len(),
    ensures
        i <= first_available_from(candidates, entries, i) <= candidates.len(),
        first_available_from(candidates, entries, i) < candidates.len() ==> state_of(
            entries,
            candidates[first_available_from(candidates, entries, i)].target,
        ) == Some(RoutingAvailabilityState::Available),
    decreases candidates.len() - i,
{
    if i < candidates.len() {
        lemma_first_available_bounds(candidates, entries, i + 1);
    }
}

/// The first degraded index at or after `i` lies between `i` and the candidate count.
pub proof fn lemma_first_degraded_bounds(
    candidates: Seq<RoutingCandidate>,
    entries: Seq<RoutingTargetAvailability>,
    i: int,
)
    requires
        0 <= i <= candidates.len(),
    ensures
        i <= first_degraded_from(candidates, entries, i) <= candidates.len(),
        first_degraded_from(candidates, entries, i) < candidates.len() ==> state_of(
            entries,
            candidates[first_degraded_from(candidates, entries, i)].target,
        ) matches Some(RoutingAvailabilityState::Degraded { .. }),
    decreases candidates.len() - i,
{
    if i < candidates.len() {
        lemma_first_degraded_bounds(candidates, entries, i + 1);
    }
}

/// Decision mode of the candidate at index `i`.
pub open spec fn mode_at(i: int) -> RoutingDecisionMode {
    if i == 0 {
        RoutingDecisionMode::Priority
    } else {
        RoutingDecisionMode::Fallback
    }
}

/// The selection of a target.
pub open spec fn selected(
    requested: Seq<char>,
    resolved: Seq<char>,
    target: RoutingTarget,
    state: RoutingAvailabilityState,
    mode: RoutingDecisionMode,
    skipped: Seq<SkippedRoutingCandidate>,
) -> Result<RoutingSelectionView, RoutingFailureView> {
    Ok(
        RoutingSelectionView {
            requested_model: requested,
            resolved_model: resolved,
            selected_target: target,
            selected_state: state,
            decision_mode: mode,
            skipped_candidates: skipped,
        },
    )
}

/// A skip reason for a degraded candidate.
pub open spec fn is_degraded_skip(c: SkippedRoutingCandidate) -> bool {
    c.reason is DegradedDeferred || c.reason is DegradedDisallowed
}

/// The failure once every candidate was skipped: degraded-only, exhausted, or no available candidate.
pub open spec fn exhausted_failure(
    requested: Seq<char>,
    resolved: Seq<char>,
    skipped: Seq<SkippedRoutingCandidate>,
) -> RoutingFailureView {
    if forall|i: int| 0 <= i < skipped.len() ==> is_degraded_skip(#[trigger] skipped[i]) {
        RoutingFailureView::DegradedOnlyCandidates { requested_model: requested, resolved_model: resolved, skipped }
    } else if forall|i: int| 0 <= i < skipped.len() ==> (#[trigger] skipped[i]).reason is Exhausted {
        RoutingFailureView::ExhaustedCandidates { requested_model: requested, resolved_model: resolved, skipped }
    } else {
        RoutingFailureView::NoAvailableCandidates { requested_model: requested, resolved_model: resolved, skipped }
    }
}

/// Result of evaluating ordered candidates.
///
/// Without fallback only the first candidate is considered: it is selected when available,
/// or degraded with degraded selection allowed; otherwise selection fails naming it. With
/// fallback the first available candidate wins, after the candidates skipped before it.
/// When none is available and degraded selection is allowed, the first degraded candidate
/// is selected, and every other skipped candidate is reported. Otherwise the failure
/// depends on why the candidates were skipped.
pub open spec fn evaluation(
    requested: Seq<char>,
    resolved: Seq<char>,
    candidates: Seq<RoutingCandidate>,
    fallback_enabled: bool,
    allow_degraded: bool,
    entries: Seq<RoutingTargetAvailability>,
) -> Result<RoutingSelectionView, RoutingFailureView> {
    let n = candidates.len() as int;
    if !fallback_enabled && n > 0 {
        let t = candidates[0].target;
        let s = state_of(entries, t);
        match s {
            Some(RoutingAvailabilityState::Available) => selected(
                requested,
                resolved,
                t,
                RoutingAvailabilityState::Available,
                RoutingDecisionMode::Priority,
                Seq::empty(),
            ),
            Some(RoutingAvailabilityState::Degraded { reason }) if allow_degraded => selected(
                requested,
                resolved,
                t,
                RoutingAvailabilityState::Degraded { reason },
                RoutingDecisionMode::Priority,
                Seq::empty(),
            ),
            _ => Err(RoutingFailureView::FallbackDisabled { target: t, reason: skip_reason(s, allow_degraded) }),
        }
    } else {
        let k = first_available_from(candidates, entries, 0);
        let d = first_degraded_from(candidates, entries, 0);
        let all = skipped_upto(candidates, entries, allow_degraded, n);
        if k < n {
            selected(
                requested,
                resolved,
                candidates[k].target,
                RoutingAvailabilityState::Available,
                mode_at(k),
                skipped_upto(candidates, entries, allow_degraded, k),
            )
        } else if allow_degraded && d < n {
            let t = candidates[d].target;
            selected(
                requested,
                resolved,
                t,
                state_of(entries, t).unwrap(),
                mode_at(d),
                all.filter(|c: SkippedRoutingCandidate| !same_target(c.target, t)),
            )
        } else {
            Err(exhausted_failure(requested, resolved, all))
        }
    }
}

/// Result of selecting an explicit or default target.
pub open spec fn explicit_selection(
    t: RoutingTarget,
    requested: Seq<char>,
    resolved: Seq<char>,
    allow_degraded: bool,
    entries: Seq<RoutingTargetAvailability>,
) -> Result<RoutingSelectionView, RoutingFailureView> {
    let mode = RoutingDecisionMode::ExplicitTarget;
    match state_of(entries, t) {
        None => Err(RoutingFailureView::MissingExplicitTarget { target: t }),
        Some(RoutingAvailabilityState::Available) => selected(
            requested,
            resolved,
            t,
            RoutingAvailabilityState::Available,
            mode,
            Seq::empty(),
        ),
        Some(RoutingAvailabilityState::Degraded { reason }) => if allow_degraded {
            selected(requested, resolved, t, RoutingAvailabilityState::Degraded { reason }, mode, Seq::empty())
        } else {
            Err(
                RoutingFailureView::DegradedOnlyCandidates {
                    requested_model: requested,
                    resolved_model: resolved,
                    skipped: seq![
                        SkippedRoutingCandidate {
                            target: t,
                            reason: RoutingSkipReason::DegradedDisallowed { reason },
                        },
                    ],
                },
            )
        },
        Some(RoutingAvailabilityState::Exhausted { reason }) => Err(
            RoutingFailureView::ExhaustedCandidates {
                requested_model: requested,
                resolved_model: resolved,
                skipped: seq![
                    SkippedRoutingCandidate { target: t, reason: RoutingSkipReason::Exhausted { reason } },
                ],
            },
        ),
        Some(RoutingAvailabilityState::Unavailable { reason }) => Err(
            RoutingFailureView::NoAvailableCandidates {
                requested_model: requested,
                resolved_model: resolved,
                skipped: seq![
                    SkippedRoutingCandidate { target: t, reason: RoutingSkipReason::Unavailable { reason } },
                ],
            },
        ),
    }
}

/// Result of a whole selection: validation of policy, request and availability first.
pub open spec fn selection_spec(
    policy: RoutingPolicy,
    request: RoutingSelectionRequest,
    availability: RoutingAvailabilitySnapshot,
) -> Result<RoutingSelectionView, RoutingFailureView> {
    selection_of(
        policy,
        request.requested_model@,
        request.explicit_target,
        request.fallback_enabled,
        request.allow_degraded,
        availability,
    )
}

/// Result of selecting for a requested model with optional explicit target and overrides.
pub open spec fn selection_of(
    policy: RoutingPolicy,
    requested: Seq<char>,
    explicit_target: Option<RoutingTarget>,
    fallback_override: Option<bool>,
    degraded_override: Option<bool>,
    availability: RoutingAvailabilitySnapshot,
) -> Result<RoutingSelectionView, RoutingFailureView> {
    if policy.problem() is Some {
        Err(invalid_policy_view(policy.problem().unwrap()))
    } else if request_problem(requested, explicit_target) is Some {
        Err(invalid_request_view(request_problem(requested, explicit_target).unwrap()))
    } else if availability.problem() is Some {
        Err(invalid_policy_view(availability.problem().unwrap()))
    } else {
        let resolved = resolve(policy.model_aliases@, requested);
        let allow_degraded = match degraded_override {
            Some(b) => b,
            None => policy.fallback.allow_degraded,
        };
        let fallback_enabled = match fallback_override {
            Some(b) => b,
            None => policy.fallback.fallback_enabled,
        };
        let explicit = if explicit_target is Some {
            explicit_target
        } else {
            policy.default_target
        };
        match explicit {
            Some(t) => explicit_selection(t, requested, resolved, allow_degraded, availability.targets@),
            None => {
                let k = route_from(policy.routes@, resolved, 0);
                if k >= policy.routes@.len() || policy.routes@[k].candidates@.len() == 0 {
                    Err(RoutingFailureView::NoRoute { requested_model: requested, resolved_model: resolved })
                } else {
                    evaluation(
                        requested,
                        resolved,
                        policy.routes@[k].candidates@,
                        fallback_enabled,
                        allow_degraded,
                        availability.targets@,
                    )
                }
            },
        }
    }
}

/// Problem of a request: a blank requested model, then an invalid explicit target.
pub open spec fn request_problem(requested: Seq<char>, explicit_target: Option<RoutingTarget>) -> Option<
    RoutingProblem,
> {
    either(
        required_problem("requested_model"@, requested),
        match explicit_target {
            Some(t) => target_problem(t, "explicit_target"@),
            None => None,
        },
    )
}

/// A selection result agrees with its specification: the selection's model, or the routing failure.
pub open spec fn routing_result_matches(
    r: Result<RoutingSelectionResult, CoreError>,
    s: Result<RoutingSelectionView, RoutingFailureView>,
) -> bool {
    match r {
        Ok(sel) => s == Ok::<RoutingSelectionView, RoutingFailureView>(sel@),
        Err(e) => match e {
            CoreError::Routing { failure } => s == Err::<RoutingSelectionView, RoutingFailureView>(
                failure@,
            ),
            _ => false,
        },
    }
}

// ---------------------------------------------------------------------------
// Validation
// ---------------------------------------------------------------------------

/// A routing diagnostic: field and message.
pub type RoutingProblem = (Seq<char>, Seq<char>);

/// The failure reported for an invalid policy or availability field.
pub open spec fn invalid_policy_view(p: RoutingProblem) -> RoutingFailureView {
    RoutingFailureView::InvalidPolicy { field: p.0, message: p.1 }
}

/// The failure reported for an invalid request field.
pub open spec fn invalid_request_view(p: RoutingProblem) -> RoutingFailureView {
    RoutingFailureView::InvalidRequest { field: p.0, message: p.1 }
}

/// Message reported for a blank routing field.
pub open spec fn empty_message(field: Seq<char>) -> Seq<char> {
    field + " must not be empty"@
}

/// Problem of a required routing text, if it is blank.
pub open spec fn required_problem(field: Seq<char>, value: Seq<char>) -> Option<RoutingProblem> {
    if is_blank_text(value) {
        Some((field, empty_message(field)))
    } else {
        None
    }
}

/// Problem of a target: a blank provider id, then a blank account id.
pub open spec fn target_problem(t: RoutingTarget, field: Seq<char>) -> Option<RoutingProblem> {
    if required_problem(field, t.provider_id@) is Some {
        required_problem(field, t.provider_id@)
    } else {
        match t.account_id {
            Some(a) => required_problem(field, a@),
            None => None,
        }
    }
}

/// First of two problems found in order.
pub open spec fn either(a: Option<RoutingProblem>, b: Option<RoutingProblem>) -> Option<RoutingProblem> {
    if a is Some {
        a
    } else {
        b
    }
}

/// First problem of the aliases at or after `i`.
pub open spec fn aliases_problem_from(aliases: Seq<ModelAlias>, i: int) -> Option<RoutingProblem>
    decreases aliases.len() - i,
{
    if i < 0 || i >= aliases.len() {
        None
    } else {
        either(aliases[i].problem(), aliases_problem_from(aliases, i + 1))
    }
}

/// First problem of the candidates at or after `i`.
pub open spec fn candidates_problem_from(candidates: Seq<RoutingCandidate>, i: int) -> Option<RoutingProblem>
    decreases candidates.len() - i,
{
    if i < 0 || i >= candidates.len() {
        None
    } else {
        either(
            target_problem(candidates[i].target, "routes.candidates.target"@),
            candidates_problem_from(candidates, i + 1),
        )
    }
}

/// First problem of the routes at or after `i`.
pub open spec fn routes_problem_from(routes: Seq<ModelRoute>, i: int) -> Option<RoutingProblem>
    decreases routes.len() - i,
{
    if i < 0 || i >= routes.len() {
        None
    } else {
        either(routes[i].problem(), routes_problem_from(routes, i + 1))
    }
}

/// First problem of the availability entries at or after `i`.
pub open spec fn entries_problem_from(entries: Seq<RoutingTargetAvailability>, i: int) -> Option<
    RoutingProblem,
>
    decreases entries.len() - i,
{
    if i < 0 || i >= entries.len() {
        None
    } else {
        either(entries[i].problem(), entries_problem_from(entries, i + 1))
    }
}

/// Requested model of the first alias at or after `i` that a later alias repeats.
pub open spec fn duplicate_alias_from(aliases: Seq<ModelAlias>, i: int) -> Option<Seq<char>>
    decreases aliases.len() - i,
{
    if i < 0 || i >= aliases.len() {
        None
    } else if exists|j: int|
        i < j < aliases.len() && (#[trigger] aliases[j]).requested_model@ == aliases[i].requested_model@ {
        Some(aliases[i].requested_model@)
    } else {
        duplicate_alias_from(aliases, i + 1)
    }
}

/// Resolved model of the first route at or after `i` that a later route repeats.
pub open spec fn duplicate_route_from(routes: Seq<ModelRoute>, i: int) -> Option<Seq<char>>
    decreases routes.len() - i,
{
    if i < 0 || i >= routes.len() {
        None
    } else if exists|j: int|
        i < j < routes.len() && (#[trigger] routes[j]).resolved_model@ == routes[i].resolved_model@ {
        Some(routes[i].resolved_model@)
    } else {
        duplicate_route_from(routes, i + 1)
    }
}

/// Provider id of the first entry at or after `i` whose target a later entry repeats.
pub open spec fn duplicate_entry_from(entries: Seq<RoutingTargetAvailability>, i: int) -> Option<Seq<char>>
    decreases entries.len() - i,
{
    if i < 0 || i >= entries.len() {
        None
    } else if exists|j: int| i < j < entries.len() && same_target((#[trigger] entries[j]).target, entries[i].target) {
        Some(entries[i].target.provider_id@)
    } else {
        duplicate_entry_from(entries, i + 1)
    }
}

/// Problem reported for a duplicate, if any.
pub open spec fn duplicate_problem(field: Seq<char>, prefix: Seq<char>, name: Option<Seq<char>>) -> Option<
    RoutingProblem,
> {
    match name {
        Some(n) => Some((field, prefix + n + " is defined more than once"@)),
        None => None,
    }
}

/// The error is the routing failure with this model.
pub open spec fn is_routing_failure(e: CoreError, f: RoutingFailureView) -> bool {
    e matches CoreError::Routing { failure } && failure@ == f
}

/// A policy or availability validation result agrees with the problem found, if any.
pub open spec fn reports_policy_problem(r: Result<(), CoreError>, p: Option<RoutingProblem>) -> bool {
    match r {
        Ok(()) => p is None,
        Err(e) => p is Some && is_routing_failure(e, invalid_policy_view(p.unwrap())),
    }
}

/// A request validation result agrees with the problem found, if any.
pub open spec fn reports_request_problem(r: Result<(), CoreError>, p: Option<RoutingProblem>) -> bool {
    match r {
        Ok(()) => p is None,
        Err(e) => p is Some && is_routing_failure(e, invalid_request_view(p.unwrap())),
    }
}

fn invalid_policy(field: &'static str, message: String) -> (r: CoreError)
    ensures
        is_routing_failure(r, invalid_policy_view((field@, message@))),
{
    CoreError::Routing { failure: RoutingFailure::InvalidPolicy { field, message } }
}

fn invalid_request(field: &'static str, message: String) -> (r: CoreError)
    ensures
        is_routing_failure(r, invalid_request_view((field@, message@))),
{
    CoreError::Routing { failure: RoutingFailure::InvalidRequest { field, message } }
}

fn validate_required_text(field: &'static str, value: &str) -> (r: Result<(), CoreError>)
    ensures
        reports_policy_problem(r, required_problem(field@, value@)),
{
    if is_blank(value) {
        return Err(invalid_policy(field, concat2(field, " must not be empty")));
    }
    Ok(())
}

fn validate_required_request_text(field: &'static str, value: &str) -> (r: Result<(), CoreError>)
    ensures
        reports_request_problem(r, required_problem(field@, value@)),
{
    if is_blank(value) {
        return Err(invalid_request(field, concat2(field, " must not be empty")));
    }
    Ok(())
}

fn target_eq(a: &RoutingTarget, b: &RoutingTarget) -> (r: bool)
    ensures
        r == same_target(*a, *b),
{
    if !str_equal(a.provider_id.as_str(), b.provider_id.as_str()) {
        return false;
    }
    match (&a.account_id, &b.account_id) {
        (Some(x), Some(y)) => str_equal(x.as_str(), y.as_str()),
        (None, None) => true,
        _ => false,
    }
}

// ---------------------------------------------------------------------------
// Policy
// ---------------------------------------------------------------------------

/// Model alias, route, fallback, and default-target policy for core selection.
#[derive(Clone, Debug, PartialEq, Eq)]
pub struct RoutingPolicy {
    /// Aliases used to resolve requested model names.
    pub model_aliases: Vec<ModelAlias>,
    /// Configured model routes in this policy.
    pub routes: Vec<ModelRoute>,
    /// Default fallback behavior for the policy.
    pub fallback: FallbackBehavior,
    /// Optional explicit target used when requests omit one.
    pub default_target: Option<RoutingTarget>,
}

impl RoutingPolicy {
    /// First validation problem: default target, aliases, duplicate aliases, routes, duplicate routes.
    pub open spec fn problem(self) -> Option<RoutingProblem> {
        let default_problem = match self.default_target {
            Some(t) => target_problem(t, "default_target"@),
            None => None,
        };
        either(
            default_problem,
            either(
                aliases_problem_from(self.model_aliases@, 0),
                either(
                    duplicate_problem(
                        "model_aliases"@,
                        "model alias "@,
                        duplicate_alias_from(self.model_aliases@, 0),
                    ),
                    either(
                        routes_problem_from(self.routes@, 0),
                        duplicate_problem(
                            "routes"@,
                            "route for model "@,
                            duplicate_route_from(self.routes@, 0),
                        ),
                    ),
                ),
            ),
        )
    }

    /// Creates a routing policy with the supplied model routes and default fallback behavior.
    pub fn new(routes: Vec<ModelRoute>) -> (r: Self)
        ensures
            r.model_aliases@.len() == 0,
            r.routes == routes,
            r.fallback == (FallbackBehavior { fallback_enabled: true, allow_degraded: false }),
            r.default_target is None,
    {
        RoutingPolicy {
            model_aliases: Vec::new(),
            routes,
            fallback: FallbackBehavior::default(),
            default_target: None,
        }
    }

    /// Adds one model alias to this routing policy.
    pub fn with_model_alias(self, alias: ModelAlias) -> (r: Self)
        ensures
            r.model_aliases@ == self.model_aliases@.push(alias),
            r.routes == self.routes,
            r.fallback == self.fallback,
            r.default_target == self.default_target,
    {
        let mut policy = self;
        policy.model_aliases.push(alias);
        policy
    }

    /// Replaces the default fallback behavior for this routing policy.
    pub fn with_fallback(self, fallback: FallbackBehavior) -> (r: Self)
        ensures
            r == (RoutingPolicy { fallback, ..self }),
    {
        RoutingPolicy { fallback, ..self }
    }

    /// Sets the target used when no model route matches the request.
    pub fn with_default_target(self, target: RoutingTarget) -> (r: Self)
        ensures
            r == (RoutingPolicy { default_target: Some(target), ..self }),
    {
        RoutingPolicy { default_target: Some(target), ..self }
    }

    /// Validates this value and returns a structured core error on failure.
    #[verifier::loop_isolation(false)]
    pub fn validate(&self) -> (r: Result<(), CoreError>)
        ensures
            reports_policy_problem(r, self.problem()),
    {
        match &self.default_target {
            Some(target) => target.validate("default_target")?,
            None => {},
        }
        let aliases = &self.model_aliases;
        let mut i: usize = 0;
        while i < aliases.len()
            invariant
                i <= aliases@.len(),
                aliases_problem_from(aliases@, 0) == aliases_problem_from(aliases@, i as int),
            decreases aliases.len() - i,
        {
            aliases[i].validate()?;
            i = i + 1;
        }
        let mut i: usize = 0;
        while i < aliases.len()
            invariant
                i <= aliases@.len(),
                duplicate_alias_from(aliases@, 0) == duplicate_alias_from(aliases@, i as int),
            decreases aliases.len() - i,
        {
            let mut j: usize = i + 1;
            while j < aliases.len()
                invariant
                    i < aliases@.len(),
                    i + 1 <= j <= aliases@.len(),
                    forall|k: int|
                        i < k < j ==> (#[trigger] aliases@[k]).requested_model@
                            != aliases@[i as int].requested_model@,
                decreases aliases.len() - j,
            {
                if str_equal(aliases[j].requested_model.as_str(), aliases[i].requested_model.as_str()) {
                    return Err(
                        invalid_policy(
                            "model_aliases",
                            concat3(
                                "model alias ",
                                aliases[i].requested_model.as_str(),
                                " is defined more than once",
                            ),
                        ),
                    );
                }
                j = j + 1;
            }
            i = i + 1;
        }
        let routes = &self.routes;
        let mut i: usize = 0;
        while i < routes.len()
            invariant
                i <= routes@.len(),
                routes_problem_from(routes@, 0) == routes_problem_from(routes@, i as int),
            decreases routes.len() - i,
        {
            routes[i].validate()?;
            i = i + 1;
        }
        let mut i: usize = 0;
        while i < routes.len()
            invariant
                i <= routes@.len(),
                duplicate_route_from(routes@, 0) == duplicate_route_from(routes@, i as int),
            decreases routes.len() - i,
        {
            let mut j: usize = i + 1;
            while j < routes.len()
                invariant
                    i < routes@.len(),
                    i + 1 <= j <= routes@.len(),
                    forall|k: int|
                        i < k < j ==> (#[trigger] routes@[k]).resolved_model@
                            != routes@[i as int].resolved_model@,
                decreases routes.len() - j,
            {
                if str_equal(routes[j].resolved_model.as_str(), routes[i].resolved_model.as_str()) {
                    return Err(
                        invalid_policy(
                            "routes",
                            concat3(
                                "route for model ",
                                routes[i].resolved_model.as_str(),
                                " is defined more than once",
                            ),
                        ),
                    );
                }
                j = j + 1;
            }
            i = i + 1;
        }
        Ok(())
    }

    /// Selects a routing target from policy, request, and availability state.
    #[verifier::loop_isolation(false)]
    pub fn select(
        &self,
        request: &RoutingSelectionRequest,
        availability: &RoutingAvailabilitySnapshot,
    ) -> (r: Result<RoutingSelectionResult, CoreError>)
        ensures
            routing_result_matches(r, selection_spec(*self, *request, *availability)),
    {
        self.validate()?;
        request.validate()?;
        availability.validate()?;
        let requested_model = request.requested_model.as_str();
        let resolved_model = self.resolve_model(requested_model);
        let allow_degraded = match request.allow_degraded {
            Some(b) => b,
            None => self.fallback.allow_degraded,
        };
        let fallback_enabled = match request.fallback_enabled {
            Some(b) => b,
            None => self.fallback.fallback_enabled,
        };
        let explicit = match &request.explicit_target {
            Some(t) => Some(t),
            None => self.default_target.as_ref(),
        };
        match explicit {
            Some(target) => {
                return self.select_explicit_target(
                    target,
                    requested_model,
                    resolved_model.as_str(),
                    allow_degraded,
                    availability,
                );
            },
            None => {},
        }
        let routes = &self.routes;
        let mut k: usize = 0;
        while k < routes.len()
            invariant
                k <= routes@.len(),
                route_from(routes@, resolved_model@, 0) == route_from(routes@, resolved_model@, k as int),
            decreases routes.len() - k,
        {
            if str_equal(routes[k].resolved_model.as_str(), resolved_model.as_str()) {
                break;
            }
            k = k + 1;
        }
        if k >= routes.len() || routes[k].candidates.len() == 0 {
            return Err(
                CoreError::Routing {
                    failure: RoutingFailure::NoRoute {
                        requested_model: owned(requested_model),
                        resolved_model,
                    },
                },
            );
        }
        evaluate_candidates(
            requested_model,
            resolved_model.as_str(),
            &routes[k].candidates,
            fallback_enabled,
            allow_degraded,
            availability,
        )
    }

    #[verifier::loop_isolation(false)]
    fn resolve_model(&self, requested_model: &str) -> (r: String)
        ensures
            r@ == resolve(self.model_aliases@, requested_model@),
    {
        let aliases = &self.model_aliases;
        let mut i: usize = 0;
        while i < aliases.len()
            invariant
                i <= aliases@.len(),
                alias_from(aliases@, requested_model@, 0) == alias_from(
                    aliases@,
                    requested_model@,
                    i as int,
                ),
            decreases aliases.len() - i,
        {
            if str_equal(aliases[i].requested_model.as_str(), requested_model) {
                return aliases[i].resolved_model.clone();
            }
            i = i + 1;
        }
        owned(requested_model)
    }

    fn select_explicit_target(
        &self,
        target: &RoutingTarget,
        requested_model: &str,
        resolved_model: &str,
        allow_degraded: bool,
        availability: &RoutingAvailabilitySnapshot,
    ) -> (r: Result<RoutingSelectionResult, CoreError>)
        ensures
            routing_result_matches(
                r,
                explicit_selection(
                    *target,
                    requested_model@,
                    resolved_model@,
                    allow_degraded,
                    availability.targets@,
                ),
            ),
    {
        let state = match availability.state_for(target) {
            Some(state) => state,
            None => {
                return Err(
                    CoreError::Routing {
                        failure: RoutingFailure::MissingExplicitTarget { target: target.clone() },
                    },
                );
            },
        };
        match state {
            RoutingAvailabilityState::Available => Ok(
                selection(
                    requested_model,
                    resolved_model,
                    target,
                    state,
                    RoutingDecisionMode::ExplicitTarget,
                    Vec::new(),
                ),
            ),
            RoutingAvailabilityState::Degraded { reason } => {
                if allow_degraded {
                    Ok(
                        selection(
                            requested_model,
                            resolved_model,
                            target,
                            state,
                            RoutingDecisionMode::ExplicitTarget,
                            Vec::new(),
                        ),
                    )
                } else {
                    let skipped = vec![
                        SkippedRoutingCandidate {
                            target: target.clone(),
                            reason: RoutingSkipReason::DegradedDisallowed { reason: reason.clone() },
                        },
                    ];
                    assert(skipped@ =~= seq![skipped@[0]]);
                    Err(
                        CoreError::Routing {
                            failure: RoutingFailure::DegradedOnlyCandidates {
                                requested_model: owned(requested_model),
                                resolved_model: owned(resolved_model),
                                skipped,
                            },
                        },
                    )
                }
            },
            RoutingAvailabilityState::Exhausted { reason } => {
                let skipped = vec![
                    SkippedRoutingCandidate {
                        target: target.clone(),
                        reason: RoutingSkipReason::Exhausted { reason: reason.clone() },
                    },
                ];
                assert(skipped@ =~= seq![skipped@[0]]);
                Err(
                    CoreError::Routing {
                        failure: RoutingFailure::ExhaustedCandidates {
                            requested_model: owned(requested_model),
                            resolved_model: owned(resolved_model),
                            skipped,
                        },
                    },
                )
            },
            RoutingAvailabilityState::Unavailable { reason } => {
                let skipped = vec![
                    SkippedRoutingCandidate {
                        target: target.clone(),
                        reason: RoutingSkipReason::Unavailable { reason: reason.clone() },
                    },
                ];
                assert(skipped@ =~= seq![skipped@[0]]);
                Err(
                    CoreError::Routing {
                        failure: RoutingFailure::NoAvailableCandidates {
                            requested_model: owned(requested_model),
                            resolved_model: owned(resolved_model),
                            skipped,
                        },
                    },
                )
            },
        }
    }
}

fn selection(
    requested_model: &str,
    resolved_model: &str,
    target: &RoutingTarget,
    state: &RoutingAvailabilityState,
    decision_mode: RoutingDecisionMode,
    skipped_candidates: Vec<SkippedRoutingCandidate>,
) -> (r: RoutingSelectionResult)
    ensures
        r@ == (RoutingSelectionView {
            requested_model: requested_model@,
            resolved_model: resolved_model@,
            selected_target: *target,
            selected_state: *state,
            decision_mode,
            skipped_candidates: skipped_candidates@,
        }),
{
    RoutingSelectionResult {
        requested_model: owned(requested_model),
        resolved_model: owned(resolved_model),
        selected_target: target.clone(),
        selected_state: state.clone(),
        decision_mode,
        skipped_candidates,
    }
}

#[verifier::loop_isolation(false)]
fn evaluate_candidates(
    requested_model: &str,
    resolved_model: &str,
    candidates: &Vec<RoutingCandidate>,
    fallback_enabled: bool,
    allow_degraded: bool,
    availability: &RoutingAvailabilitySnapshot,
) -> (r: Result<RoutingSelectionResult, CoreError>)
    ensures
        routing_result_matches(
            r,
            evaluation(
                requested_model@,
                resolved_model@,
                candidates@,
                fallback_enabled,
                allow_degraded,
                availability.targets@,
            ),
        ),
{
    let ghost cands = candidates@;
    let ghost entries = availability.targets@;
    let ghost n = cands.len() as int;
    proof {
        lemma_first_available_bounds(cands, entries, 0);
        lemma_first_degraded_bounds(cands, entries, 0);
    }
    let mut skipped: Vec<SkippedRoutingCandidate> = Vec::new();
    let mut deferred: Option<(usize, String)> = None;
    let mut index: usize = 0;
    while index < candidates.len()
        invariant
            cands == candidates@,
            entries == availability.targets@,
            n == cands.len(),
            index <= n,
            fallback_enabled || index == 0,
            skipped@ =~= skipped_upto(cands, entries, allow_degraded, index as int),
            index == 0 ==> skipped@ =~= Seq::<SkippedRoutingCandidate>::empty(),
            first_available_from(cands, entries, 0) == first_available_from(cands, entries, index as int),
            first_degraded_from(cands, entries, 0) < index ==> allow_degraded ==> (deferred matches Some(
                (d, reason),
            ) && d == first_degraded_from(cands, entries, 0) && state_of(entries, cands[d as int].target)
                == Some(RoutingAvailabilityState::Degraded { reason })),
            first_degraded_from(cands, entries, 0) >= index ==> first_degraded_from(cands, entries, 0)
                == first_degraded_from(cands, entries, index as int) && deferred is None,
            !allow_degraded ==> deferred is None,
        decreases candidates.len() - index,
    {
        let target = &candidates[index].target;
        let decision_mode = if index == 0 {
            RoutingDecisionMode::Priority
        } else {
            RoutingDecisionMode::Fallback
        };
        let skip_reason = match availability.state_for(target) {
            Some(RoutingAvailabilityState::Available) => {
                return Ok(
                    selection(
                        requested_model,
                        resolved_model,
                        target,
                        &RoutingAvailabilityState::Available,
                        decision_mode,
                        skipped,
                    ),
                );
            },
            Some(RoutingAvailabilityState::Degraded { reason }) => {
                if allow_degraded && !fallback_enabled {
                    return Ok(
                        selection(
                            requested_model,
                            resolved_model,
                            target,
                            &RoutingAvailabilityState::Degraded { reason: reason.clone() },
                            decision_mode,
                            skipped,
                        ),
                    );
                }
                if allow_degraded && deferred.is_none() {
                    deferred = Some((index, reason.clone()));
                }
                SkippedRoutingCandidate {
                    target: target.clone(),
                    reason: if allow_degraded {
                        RoutingSkipReason::DegradedDeferred { reason: reason.clone() }
                    } else {
                        RoutingSkipReason::DegradedDisallowed { reason: reason.clone() }
                    },
                }
            },
            Some(RoutingAvailabilityState::Unavailable { reason }) => SkippedRoutingCandidate {
                target: target.clone(),
                reason: RoutingSkipReason::Unavailable { reason: reason.clone() },
            },
            Some(RoutingAvailabilityState::Exhausted { reason }) => SkippedRoutingCandidate {
                target: target.clone(),
                reason: RoutingSkipReason::Exhausted { reason: reason.clone() },
            },
            None => SkippedRoutingCandidate {
                target: target.clone(),
                reason: RoutingSkipReason::MissingAvailability,
            },
        };
        if !fallback_enabled {
            return Err(
                CoreError::Routing {
                    failure: RoutingFailure::FallbackDisabled {
                        target: target.clone(),
                        reason: skip_reason.reason,
                    },
                },
            );
        }
        skipped.push(skip_reason);
        index = index + 1;
    }
    let ghost all = skipped_upto(cands, entries, allow_degraded, n);
    assert(skipped@ =~= all);
    if allow_degraded {
        match deferred {
            Some((d, reason)) => {
                let chosen = &candidates[d].target;
                let ghost keep = |c: SkippedRoutingCandidate| !same_target(c.target, *chosen);
                let mut kept: Vec<SkippedRoutingCandidate> = Vec::new();
                let mut j: usize = 0;
                while j < skipped.len()
                    invariant
                        j <= skipped@.len(),
                        kept@ == skipped@.subrange(0, j as int).filter(keep),
                    decreases skipped.len() - j,
                {
                    let ghost prev = skipped@.subrange(0, j as int);
                    let ghost next = skipped@.subrange(0, j + 1);
                    assert(next.drop_last() =~= prev);
                    assert(next.last() == skipped@[j as int]);
                    reveal(Seq::filter);
                    assert(next.filter(keep) == if keep(next.last()) {
                        prev.filter(keep).push(next.last())
                    } else {
                        prev.filter(keep)
                    });
                    if !target_eq(&skipped[j].target, chosen) {
                        kept.push(skipped[j].clone());
                    }
                    j = j + 1;
                }
                assert(skipped@.subrange(0, skipped@.len() as int) =~= skipped@);
                let mode = if d == 0 {
                    RoutingDecisionMode::Priority
                } else {
                    RoutingDecisionMode::Fallback
                };
                return Ok(
                    selection(
                        requested_model,
                        resolved_model,
                        chosen,
                        &RoutingAvailabilityState::Degraded { reason },
                        mode,
                        kept,
                    ),
                );
            },
            None => {},
        }
    }
    let mut all_degraded = true;
    let mut all_exhausted = true;
    let mut j: usize = 0;
    while j < skipped.len()
        invariant
            j <= skipped@.len(),
            all_degraded == forall|i: int| 0 <= i < j ==> is_degraded_skip(#[trigger] skipped@[i]),
            all_exhausted == forall|i: int| 0 <= i < j ==> (#[trigger] skipped@[i]).reason is Exhausted,
        decreases skipped.len() - j,
    {
        let degraded = match &skipped[j].reason {
            RoutingSkipReason::DegradedDeferred { .. } => true,
            RoutingSkipReason::DegradedDisallowed { .. } => true,
            _ => false,
        };
        let exhausted = match &skipped[j].reason {
            RoutingSkipReason::Exhausted { .. } => true,
            _ => false,
        };
        all_degraded = all_degraded && degraded;
        all_exhausted = all_exhausted && exhausted;
        j = j + 1;
    }
    let requested = owned(requested_model);
    let resolved = owned(resolved_model);
    if all_degraded {
        return Err(
            CoreError::Routing {
                failure: RoutingFailure::DegradedOnlyCandidates {
                    requested_model: requested,
                    resolved_model: resolved,
                    skipped,
                },
            },
        );
    }
    if all_exhausted {
        return Err(
            CoreError::Routing {
                failure: RoutingFailure::ExhaustedCandidates {
                    requested_model: requested,
                    resolved_model: resolved,
                    skipped,
                },
            },
        );
    }
    Err(
        CoreError::Routing {
            failure: RoutingFailure::NoAvailableCandidates {
                requested_model: requested,
                resolved_model: resolved,
                skipped,
            },
        },
    )
}

// ---------------------------------------------------------------------------
// Policy parts
// ---------------------------------------------------------------------------

/// Mapping from requested model name to the configured resolved model.
#[derive(Debug, PartialEq, Eq)]
pub struct ModelAlias {
    /// Model name requested by the caller before alias resolution.
    pub requested_model: String,
    /// Model name after applying configured aliases.
    pub resolved_model: String,
    /// Reasoning intent that the alias implies, when any.
    pub reasoning: Option<ReasoningIntent>,
}

impl Clone for ModelAlias {
    fn clone(&self) -> (r: Self)
        ensures
            r == *self,
    {
        ModelAlias {
            requested_model: self.requested_model.clone(),
            resolved_model: self.resolved_model.clone(),
            reasoning: match &self.reasoning {
                Some(intent) => Some(intent.clone()),
                None => None,
            },
        }
    }
}

impl ModelAlias {
    /// Problem of this alias: a blank requested model, then a blank resolved model.
    pub open spec fn problem(self) -> Option<RoutingProblem> {
        either(
            required_problem("model_aliases.requested_model"@, self.requested_model@),
            required_problem("model_aliases.resolved_model"@, self.resolved_model@),
        )
    }

    /// Creates a model alias from a requested model name to the resolved model name.
    pub fn new(requested_model: &str, resolved_model: &str) -> (r: Self)
        ensures
            r.requested_model@ == requested_model@,
            r.resolved_model@ == resolved_model@,
            r.reasoning is None,
    {
        ModelAlias {
            requested_model: owned(requested_model),
            resolved_model: owned(resolved_model),
            reasoning: None,
        }
    }

    /// Attaches the reasoning intent that this alias implies.
    pub fn with_reasoning(self, reasoning: ReasoningIntent) -> (r: Self)
        ensures
            r == (ModelAlias { reasoning: Some(reasoning), ..self }),
    {
        ModelAlias { reasoning: Some(reasoning), ..self }
    }

    fn validate(&self) -> (r: Result<(), CoreError>)
        ensures
            reports_policy_problem(r, self.problem()),
    {
        validate_required_text("model_aliases.requested_model", self.requested_model.as_str())?;
        validate_required_text("model_aliases.resolved_model", self.resolved_model.as_str())
    }
}

/// Ordered candidate list for one resolved model.
#[derive(Clone, Debug, PartialEq, Eq)]
pub struct ModelRoute {
    /// Model name after applying configured aliases.
    pub resolved_model: String,
    /// Ordered routing candidates for this model or group.
    pub candidates: Vec<RoutingCandidate>,
}

impl ModelRoute {
    /// Problem of this route: a blank resolved model, then its first invalid candidate.
    pub open spec fn problem(self) -> Option<RoutingProblem> {
        either(
            required_problem("routes.resolved_model"@, self.resolved_model@),
            candidates_problem_from(self.candidates@, 0),
        )
    }

    /// Creates a model route for a resolved model and its ordered target candidates.
    pub fn new(resolved_model: &str, candidates: Vec<RoutingCandidate>) -> (r: Self)
        ensures
            r.resolved_model@ == resolved_model@,
            r.candidates == candidates,
    {
        ModelRoute { resolved_model: owned(resolved_model), candidates }
    }

    #[verifier::loop_isolation(false)]
    fn validate(&self) -> (r: Result<(), CoreError>)
        ensures
            reports_policy_problem(r, self.problem()),
    {
        validate_required_text("routes.resolved_model", self.resolved_model.as_str())?;
        let candidates = &self.candidates;
        let mut i: usize = 0;
        while i < candidates.len()
            invariant
                i <= candidates@.len(),
                candidates_problem_from(candidates@, 0) == candidates_problem_from(candidates@, i as int),
            decreases candidates.len() - i,
        {
            candidates[i].validate()?;
            i = i + 1;
        }
        Ok(())
    }
}

/// Candidate provider/account target in a route.
#[derive(Debug, PartialEq, Eq)]
pub struct RoutingCandidate {
    /// Provider/account target associated with routing.
    pub target: RoutingTarget,
}

impl Clone for RoutingCandidate {
    fn clone(&self) -> (r: Self)
        ensures
            r == *self,
    {
        RoutingCandidate { target: self.target.clone() }
    }
}

impl RoutingCandidate {
    /// Creates a routing candidate for a provider or provider account target.
    pub fn new(target: RoutingTarget) -> (r: Self)
        ensures
            r.target == target,
    {
        RoutingCandidate { target }
    }

    fn validate(&self) -> (r: Result<(), CoreError>)
        ensures
            reports_policy_problem(r, target_problem(self.target, "routes.candidates.target"@)),
    {
        self.target.validate("routes.candidates.target")
    }
}

/// Provider and optional account selected by routing policy.
#[derive(Debug, PartialEq, Eq)]
pub struct RoutingTarget {
    /// Provider identifier used by routing, execution, and management state.
    pub provider_id: String,
    /// Optional account identifier scoped to the provider.
    pub account_id: Option<String>,
}

impl Clone for RoutingTarget {
    fn clone(&self) -> (r: Self)
        ensures
            r == *self,
    {
        RoutingTarget {
            provider_id: self.provider_id.clone(),
            account_id: match &self.account_id {
                Some(a) => Some(a.clone()),
                None => None,
            },
        }
    }
}

impl RoutingTarget {
    /// Label of a target: the provider id, then `/` and the account id when there is one.
    pub open spec fn label_spec(self) -> Seq<char> {
        match self.account_id {
            Some(a) => self.provider_id@ + "/"@ + a@,
            None => self.provider_id@,
        }
    }

    /// Creates a routing target for an entire provider.
    pub fn provider(provider_id: &str) -> (r: Self)
        ensures
            r.provider_id@ == provider_id@,
            r.account_id is None,
    {
        RoutingTarget { provider_id: owned(provider_id), account_id: None }
    }

    /// Creates a routing target for a specific provider account.
    pub fn provider_account(provider_id: &str, account_id: &str) -> (r: Self)
        ensures
            r.provider_id@ == provider_id@,
            r.account_id is Some && r.account_id.unwrap()@ == account_id@,
    {
        RoutingTarget { provider_id: owned(provider_id), account_id: Some(owned(account_id)) }
    }

    fn validate(&self, field: &'static str) -> (r: Result<(), CoreError>)
        ensures
            reports_policy_problem(r, target_problem(*self, field@)),
    {
        validate_required_text(field, self.provider_id.as_str())?;
        match &self.account_id {
            Some(account_id) => validate_required_text(field, account_id.as_str()),
            None => Ok(()),
        }
    }

    fn validate_request(&self, field: &'static str) -> (r: Result<(), CoreError>)
        ensures
            reports_request_problem(r, target_problem(*self, field@)),
    {
        validate_required_request_text(field, self.provider_id.as_str())?;
        match &self.account_id {
            Some(account_id) => validate_required_request_text(field, account_id.as_str()),
            None => Ok(()),
        }
    }

    /// Returns the display label of this target.
    pub fn label(&self) -> (r: String)
        ensures
            r@ == self.label_spec(),
    {
        match &self.account_id {
            Some(account_id) => concat3(self.provider_id.as_str(), "/", account_id.as_str()),
            None => self.provider_id.clone(),
        }
    }
}

/// Default fallback and degraded-candidate behavior for routing decisions.
#[derive(Clone, Copy, Debug, PartialEq, Eq, Structural)]
pub struct FallbackBehavior {
    /// Whether routing may continue after a skipped candidate.
    pub fallback_enabled: bool,
    /// Whether degraded targets may be selected.
    pub allow_degraded: bool,
}

impl FallbackBehavior {
    /// Creates explicit fallback behavior for routing candidate evaluation.
    pub fn new(fallback_enabled: bool, allow_degraded: bool) -> (r: Self)
        ensures
            r == (FallbackBehavior { fallback_enabled, allow_degraded }),
    {
        FallbackBehavior { fallback_enabled, allow_degraded }
    }

    /// Returns fallback behavior that stops after the first skipped candidate.
    pub fn disabled() -> (r: Self)
        ensures
            r == (FallbackBehavior { fallback_enabled: false, allow_degraded: false }),
    {
        FallbackBehavior::new(false, false)
    }
}

impl Default for FallbackBehavior {
    fn default() -> (r: Self)
        ensures
            r == (FallbackBehavior { fallback_enabled: true, allow_degraded: false }),
    {
        FallbackBehavior::new(true, false)
    }
}

// ---------------------------------------------------------------------------
// Availability
// ---------------------------------------------------------------------------

/// Point-in-time availability states for routing targets.
#[derive(Clone, Debug, PartialEq, Eq)]
pub struct RoutingAvailabilitySnapshot {
    /// Availability entries keyed by routing target.
    pub targets: Vec<RoutingTargetAvailability>,
}

impl RoutingAvailabilitySnapshot {
    /// First validation problem: an invalid entry, then a repeated target.
    pub open spec fn problem(self) -> Option<RoutingProblem> {
        either(
            entries_problem_from(self.targets@, 0),
            duplicate_problem(
                "availability.targets"@,
                "availability for provider "@,
                duplicate_entry_from(self.targets@, 0),
            ),
        )
    }

    /// Creates an availability snapshot for the targets known to routing.
    pub fn new(targets: Vec<RoutingTargetAvailability>) -> (r: Self)
        ensures
            r.targets == targets,
    {
        RoutingAvailabilitySnapshot { targets }
    }

    /// Returns the availability state for a routing target, when present.
    #[verifier::loop_isolation(false)]
    pub fn state_for(&self, target: &RoutingTarget) -> (r: Option<&RoutingAvailabilityState>)
        ensures
            match r {
                Some(s) => state_of(self.targets@, *target) == Some(*s),
                None => state_of(self.targets@, *target) is None,
            },
    {
        let entries = &self.targets;
        let mut i: usize = 0;
        while i < entries.len()
            invariant
                i <= entries@.len(),
                state_from(entries@, *target, 0) == state_from(entries@, *target, i as int),
            decreases entries.len() - i,
        {
            if target_eq(&entries[i].target, target) {
                return Some(&entries[i].state);
            }
            i = i + 1;
        }
        None
    }

    /// Validates this value and returns a structured core error on failure.
    #[verifier::loop_isolation(false)]
    pub fn validate(&self) -> (r: Result<(), CoreError>)
        ensures
            reports_policy_problem(r, self.problem()),
    {
        let entries = &self.targets;
        let mut i: usize = 0;
        while i < entries.len()
            invariant
                i <= entries@.len(),
                entries_problem_from(entries@, 0) == entries_problem_from(entries@, i as int),
            decreases entries.len() - i,
        {
            entries[i].validate()?;
            i = i + 1;
        }
        let mut i: usize = 0;
        while i < entries.len()
            invariant
                i <= entries@.len(),
                duplicate_entry_from(entries@, 0) == duplicate_entry_from(entries@, i as int),
            decreases entries.len() - i,
        {
            let mut j: usize = i + 1;
            while j < entries.len()
                invariant
                    i < entries@.len(),
                    i + 1 <= j <= entries@.len(),
                    forall|k: int|
                        i < k < j ==> !same_target((#[trigger] entries@[k]).target, entries@[i as int].target),
                decreases entries.len() - j,
            {
                if target_eq(&entries[j].target, &entries[i].target) {
                    return Err(
                        invalid_policy(
                            "availability.targets",
                            concat3(
                                "availability for provider ",
                                entries[i].target.provider_id.as_str(),
                                " is defined more than once",
                            ),
                        ),
                    );
                }
                j = j + 1;
            }
            i = i + 1;
        }
        Ok(())
    }
}

/// Availability state for one provider/account target.
#[derive(Clone, Debug, PartialEq, Eq)]
pub struct RoutingTargetAvailability {
    /// Provider/account target associated with routing.
    pub target: RoutingTarget,
    /// Availability state for this target.
    pub state: RoutingAvailabilityState,
}

impl RoutingTargetAvailability {
    /// Problem of an entry: its target, then a blank state reason.
    pub open spec fn problem(self) -> Option<RoutingProblem> {
        either(target_problem(self.target, "availability.targets.target"@), self.state.problem())
    }

    /// Creates a routing target availability entry for one provider or account target.
    pub fn new(target: RoutingTarget, state: RoutingAvailabilityState) -> (r: Self)
        ensures
            r == (RoutingTargetAvailability { target, state }),
    {
        RoutingTargetAvailability { target, state }
    }

    fn validate(&self) -> (r: Result<(), CoreError>)
        ensures
            reports_policy_problem(r, self.problem()),
    {
        self.target.validate("availability.targets.target")?;
        self.state.validate()
    }
}

/// Operational state used when selecting a routing target.
#[derive(Debug, PartialEq, Eq)]
pub enum RoutingAvailabilityState {
    /// Target is available for selection.
    Available,
    /// Target cannot currently be used.
    Unavailable {
        /// Human-readable reason for this state.
        reason: String,
    },
    /// Target quota or capacity is exhausted.
    Exhausted {
        /// Human-readable reason for this state.
        reason: String,
    },
    /// Target is usable only as a degraded routing candidate.
    Degraded {
        /// Human-readable reason for this state.
        reason: String,
    },
}

impl Clone for RoutingAvailabilityState {
    fn clone(&self) -> (r: Self)
        ensures
            r == *self,
    {
        match self {
            RoutingAvailabilityState::Available => RoutingAvailabilityState::Available,
            RoutingAvailabilityState::Unavailable { reason } => RoutingAvailabilityState::Unavailable {
                reason: reason.clone(),
            },
            RoutingAvailabilityState::Exhausted { reason } => RoutingAvailabilityState::Exhausted {
                reason: reason.clone(),
            },
            RoutingAvailabilityState::Degraded { reason } => RoutingAvailabilityState::Degraded {
                reason: reason.clone(),
            },
        }
    }
}

impl RoutingAvailabilityState {
    /// Problem of a state: a blank reason.
    pub open spec fn problem(self) -> Option<RoutingProblem> {
        match self {
            RoutingAvailabilityState::Available => None,
            RoutingAvailabilityState::Unavailable { reason } => required_problem("availability.reason"@, reason@),
            RoutingAvailabilityState::Exhausted { reason } => required_problem("availability.reason"@, reason@),
            RoutingAvailabilityState::Degraded { reason } => required_problem("availability.reason"@, reason@),
        }
    }

    fn validate(&self) -> (r: Result<(), CoreError>)
        ensures
            reports_policy_problem(r, self.problem()),
    {
        match self {
            RoutingAvailabilityState::Available => Ok(()),
            RoutingAvailabilityState::Unavailable { reason } => validate_required_text(
                "availability.reason",
                reason.as_str(),
            ),
            RoutingAvailabilityState::Exhausted { reason } => validate_required_text(
                "availability.reason",
                reason.as_str(),
            ),
            RoutingAvailabilityState::Degraded { reason } => validate_required_text(
                "availability.reason",
                reason.as_str(),
            ),
        }
    }
}

// ---------------------------------------------------------------------------
// Requests and results
// ---------------------------------------------------------------------------

/// Model routing request with optional explicit target and fallback overrides.
#[derive(Clone, Debug, PartialEq, Eq)]
pub struct RoutingSelectionRequest {
    /// Model name requested by the caller before alias resolution.
    pub requested_model: String,
    /// Provider/account target requested by the caller instead of policy selection.
    pub explicit_target: Option<RoutingTarget>,
    /// Whether routing may continue after a skipped candidate.
    pub fallback_enabled: Option<bool>,
    /// Whether degraded targets may be selected.
    pub allow_degraded: Option<bool>,
}

impl RoutingSelectionRequest {
    /// Problem of a request: a blank requested model, then an invalid explicit target.
    pub open spec fn problem(self) -> Option<RoutingProblem> {
        request_problem(self.requested_model@, self.explicit_target)
    }

    /// Creates a selection request for a model before aliases and policy defaults are applied.
    pub fn new(requested_model: &str) -> (r: Self)
        ensures
            r.requested_model@ == requested_model@,
            r.explicit_target is None,
            r.fallback_enabled is None,
            r.allow_degraded is None,
    {
        RoutingSelectionRequest {
            requested_model: owned(requested_model),
            explicit_target: None,
            fallback_enabled: None,
            allow_degraded: None,
        }
    }

    /// Sets the provider/account target that should bypass policy selection.
    pub fn with_explicit_target(self, target: RoutingTarget) -> (r: Self)
        ensures
            r == (RoutingSelectionRequest { explicit_target: Some(target), ..self }),
    {
        RoutingSelectionRequest { explicit_target: Some(target), ..self }
    }

    /// Overrides whether routing may continue after a skipped candidate.
    pub fn with_fallback_enabled(self, fallback_enabled: bool) -> (r: Self)
        ensures
            r == (RoutingSelectionRequest { fallback_enabled: Some(fallback_enabled), ..self }),
    {
        RoutingSelectionRequest { fallback_enabled: Some(fallback_enabled), ..self }
    }

    /// Overrides whether degraded routing candidates may be selected.
    pub fn with_degraded_allowed(self, allow_degraded: bool) -> (r: Self)
        ensures
            r == (RoutingSelectionRequest { allow_degraded: Some(allow_degraded), ..self }),
    {
        RoutingSelectionRequest { allow_degraded: Some(allow_degraded), ..self }
    }

    fn validate(&self) -> (r: Result<(), CoreError>)
        ensures
            reports_request_problem(r, self.problem()),
    {
        validate_required_request_text("requested_model", self.requested_model.as_str())?;
        match &self.explicit_target {
            Some(target) => target.validate_request("explicit_target"),
            None => Ok(()),
        }
    }
}

/// Selected routing target plus resolved model and skipped candidates.
#[derive(Clone, Debug, PartialEq, Eq)]
pub struct RoutingSelectionResult {
    /// Model name requested by the caller before alias resolution.
    pub requested_model: String,
    /// Model name after applying configured aliases.
    pub resolved_model: String,
    /// Provider/account target selected by routing.
    pub selected_target: RoutingTarget,
    /// Availability state observed for the selected target.
    pub selected_state: RoutingAvailabilityState,
    /// Selection mode that explains why this route was chosen.
    pub decision_mode: RoutingDecisionMode,
    /// Candidates skipped while choosing the selected target.
    pub skipped_candidates: Vec<SkippedRoutingCandidate>,
}

/// Model of a selection result.
pub struct RoutingSelectionView {
    /// Requested model.
    pub requested_model: Seq<char>,
    /// Resolved model.
    pub resolved_model: Seq<char>,
    /// Selected target.
    pub selected_target: RoutingTarget,
    /// State of the selected target.
    pub selected_state: RoutingAvailabilityState,
    /// Why the target was chosen.
    pub decision_mode: RoutingDecisionMode,
    /// Candidates skipped before it.
    pub skipped_candidates: Seq<SkippedRoutingCandidate>,
}

impl View for RoutingSelectionResult {
    type V = RoutingSelectionView;

    open spec fn view(&self) -> RoutingSelectionView {
        RoutingSelectionView {
            requested_model: self.requested_model@,
            resolved_model: self.resolved_model@,
            selected_target: self.selected_target,
            selected_state: self.selected_state,
            decision_mode: self.decision_mode,
            skipped_candidates: self.skipped_candidates@,
        }
    }
}

/// Mode that explains why a target was selected.
#[derive(Clone, Copy, Debug, PartialEq, Eq, Structural)]
pub enum RoutingDecisionMode {
    /// Selection used an explicit or default target.
    ExplicitTarget,
    /// Selection used the first available route candidate.
    Priority,
    /// Selection used a later fallback candidate.
    Fallback,
}

/// Candidate skipped during route evaluation and its reason.
#[derive(Debug, PartialEq, Eq)]
pub struct SkippedRoutingCandidate {
    /// Provider/account target associated with routing.
    pub target: RoutingTarget,
    /// Why the candidate was skipped.
    pub reason: RoutingSkipReason,
}

impl Clone for SkippedRoutingCandidate {
    fn clone(&self) -> (r: Self)
        ensures
            r == *self,
    {
        SkippedRoutingCandidate { target: self.target.clone(), reason: self.reason.clone() }
    }
}

/// Reason a routing candidate was not selected.
#[derive(Debug, PartialEq, Eq)]
pub enum RoutingSkipReason {
    /// No availability entry existed for the candidate.
    MissingAvailability,
    /// Target cannot currently be used.
    Unavailable {
        /// Human-readable reason for this state.
        reason: String,
    },
    /// Target quota or capacity is exhausted.
    Exhausted {
        /// Human-readable reason for this state.
        reason: String,
    },
    /// Degraded candidate was skipped because degraded routing is disabled.
    DegradedDisallowed {
        /// Human-readable reason for this state.
        reason: String,
    },
    /// Degraded candidate was held while healthier fallbacks were evaluated.
    DegradedDeferred {
        /// Human-readable reason for this state.
        reason: String,
    },
}

impl Clone for RoutingSkipReason {
    fn clone(&self) -> (r: Self)
        ensures
            r == *self,
    {
        match self {
            RoutingSkipReason::MissingAvailability => RoutingSkipReason::MissingAvailability,
            RoutingSkipReason::Unavailable { reason } => RoutingSkipReason::Unavailable { reason: reason.clone() },
            RoutingSkipReason::Exhausted { reason } => RoutingSkipReason::Exhausted { reason: reason.clone() },
            RoutingSkipReason::DegradedDisallowed { reason } => RoutingSkipReason::DegradedDisallowed {
                reason: reason.clone(),
            },
            RoutingSkipReason::DegradedDeferred { reason } => RoutingSkipReason::DegradedDeferred {
                reason: reason.clone(),
            },
        }
    }
}

impl RoutingSkipReason {
    /// The human-readable message of a skip reason.
    pub open spec fn message_spec(self) -> Seq<char> {
        match self {
            RoutingSkipReason::MissingAvailability => "availability was not supplied"@,
            RoutingSkipReason::Unavailable { reason } => "unavailable: "@ + reason@,
            RoutingSkipReason::Exhausted { reason } => "exhausted: "@ + reason@,
            RoutingSkipReason::DegradedDisallowed { reason } => "degraded routing is not allowed: "@ + reason@,
            RoutingSkipReason::DegradedDeferred { reason } => {
                "degraded candidate deferred while checking for a healthier route: "@ + reason@
            },
        }
    }

    /// Returns a human-readable message for this diagnostic.
    pub fn message(&self) -> (r: String)
        ensures
            r@ == self.message_spec(),
    {
        match self {
            RoutingSkipReason::MissingAvailability => owned("availability was not supplied"),
            RoutingSkipReason::Unavailable { reason } => concat2("unavailable: ", reason.as_str()),
            RoutingSkipReason::Exhausted { reason } => concat2("exhausted: ", reason.as_str()),
            RoutingSkipReason::DegradedDisallowed { reason } => concat2(
                "degraded routing is not allowed: ",
                reason.as_str(),
            ),
            RoutingSkipReason::DegradedDeferred { reason } => concat2(
                "degraded candidate deferred while checking for a healthier route: ",
                reason.as_str(),
            ),
        }
    }
}

/// Matchable failure for invalid policy, invalid request, or unavailable routes.
#[derive(Clone, Debug, PartialEq, Eq)]
pub enum RoutingFailure {
    /// Routing policy validation failed.
    InvalidPolicy {
        /// Field path associated with this validation diagnostic.
        field: &'static str,
        /// Human-readable diagnostic message.
        message: String,
    },
    /// Routing request validation failed.
    InvalidRequest {
        /// Field path associated with this validation diagnostic.
        field: &'static str,
        /// Human-readable diagnostic message.
        message: String,
    },
    /// No route exists for the resolved model.
    NoRoute {
        /// Model name requested by the caller before alias resolution.
        requested_model: String,
        /// Model name after applying configured aliases.
        resolved_model: String,
    },
    /// Explicit target was absent from availability state.
    MissingExplicitTarget {
        /// Provider/account target associated with routing.
        target: RoutingTarget,
    },
    /// Fallback was disabled after a candidate was skipped.
    FallbackDisabled {
        /// Provider/account target associated with routing.
        target: RoutingTarget,
        /// Human-readable reason for this state.
        reason: RoutingSkipReason,
    },
    /// All candidates were exhausted.
    ExhaustedCandidates {
        /// Model name requested by the caller before alias resolution.
        requested_model: String,
        /// Model name after applying configured aliases.
        resolved_model: String,
        /// Candidates skipped while evaluating this failure.
        skipped: Vec<SkippedRoutingCandidate>,
    },
    /// Only degraded candidates remained and could not be selected.
    DegradedOnlyCandidates {
        /// Model name requested by the caller before alias resolution.
        requested_model: String,
        /// Model name after applying configured aliases.
        resolved_model: String,
        /// Candidates skipped while evaluating this failure.
        skipped: Vec<SkippedRoutingCandidate>,
    },
    /// No available candidate remained.
    NoAvailableCandidates {
        /// Model name requested by the caller before alias resolution.
        requested_model: String,
        /// Model name after applying configured aliases.
        resolved_model: String,
        /// Candidates skipped while evaluating this failure.
        skipped: Vec<SkippedRoutingCandidate>,
    },
}

/// Model of a routing failure.
pub enum RoutingFailureView {
    /// Invalid policy field.
    InvalidPolicy { field: Seq<char>, message: Seq<char> },
    /// Invalid request field.
    InvalidRequest { field: Seq<char>, message: Seq<char> },
    /// No route for the resolved model.
    NoRoute { requested_model: Seq<char>, resolved_model: Seq<char> },
    /// Explicit target missing from availability.
    MissingExplicitTarget { target: RoutingTarget },
    /// First candidate skipped with fallback disabled.
    FallbackDisabled { target: RoutingTarget, reason: RoutingSkipReason },
    /// Every candidate exhausted.
    ExhaustedCandidates {
        requested_model: Seq<char>,
        resolved_model: Seq<char>,
        skipped: Seq<SkippedRoutingCandidate>,
    },
    /// Only degraded candidates remained.
    DegradedOnlyCandidates {
        requested_model: Seq<char>,
        resolved_model: Seq<char>,
        skipped: Seq<SkippedRoutingCandidate>,
    },
    /// No available candidate remained.
    NoAvailableCandidates {
        requested_model: Seq<char>,
        resolved_model: Seq<char>,
        skipped: Seq<SkippedRoutingCandidate>,
    },
}

impl View for RoutingFailure {
    type V = RoutingFailureView;

    open spec fn view(&self) -> RoutingFailureView {
        match self {
            RoutingFailure::InvalidPolicy { field, message } => RoutingFailureView::InvalidPolicy {
                field: field@,
                message: message@,
            },
            RoutingFailure::InvalidRequest { field, message } => RoutingFailureView::InvalidRequest {
                field: field@,
                message: message@,
            },
            RoutingFailure::NoRoute { requested_model, resolved_model } => RoutingFailureView::NoRoute {
                requested_model: requested_model@,
                resolved_model: resolved_model@,
            },
            RoutingFailure::MissingExplicitTarget { target } => {
                RoutingFailureView::MissingExplicitTarget { target: *target }
            },
            RoutingFailure::FallbackDisabled { target, reason } => RoutingFailureView::FallbackDisabled {
                target: *target,
                reason: *reason,
            },
            RoutingFailure::ExhaustedCandidates { requested_model, resolved_model, skipped } => {
                RoutingFailureView::ExhaustedCandidates {
                    requested_model: requested_model@,
                    resolved_model: resolved_model@,
                    skipped: skipped@,
                }
            },
            RoutingFailure::DegradedOnlyCandidates { requested_model, resolved_model, skipped } => {
                RoutingFailureView::DegradedOnlyCandidates {
                    requested_model: requested_model@,
                    resolved_model: resolved_model@,
                    skipped: skipped@,
                }
            },
            RoutingFailure::NoAvailableCandidates { requested_model, resolved_model, skipped } => {
                RoutingFailureView::NoAvailableCandidates {
                    requested_model: requested_model@,
                    resolved_model: resolved_model@,
                    skipped: skipped@,
                }
            },
        }
    }
}

impl RoutingFailure {
    /// The human-readable message of a failure.
    pub open spec fn message_spec(self) -> Seq<char> {
        match self {
            RoutingFailure::InvalidPolicy { field, message } => "routing policy field "@ + field@
                + " is invalid: "@ + message@,
            RoutingFailure::InvalidRequest { field, message } => "routing request field "@ + field@
                + " is invalid: "@ + message@,
            RoutingFailure::NoRoute { requested_model, resolved_model } => "no route is configured for requested model "@
                + requested_model@ + " resolved as "@ + resolved_model@,
            RoutingFailure::MissingExplicitTarget { target } => "explicit target "@ + target.label_spec()
                + " is missing from availability"@,
            RoutingFailure::FallbackDisabled { target, reason } => "fallback is disabled after target "@
                + target.label_spec() + " failed selection: "@ + reason.message_spec(),
            RoutingFailure::ExhaustedCandidates { resolved_model, skipped, .. } => "all routing candidates for model "@
                + resolved_model@ + " are exhausted ("@ + decimal(skipped@.len()) + " skipped)"@,
            RoutingFailure::DegradedOnlyCandidates { resolved_model, skipped, .. } => "only degraded routing candidates remain for model "@
                + resolved_model@ + " ("@ + decimal(skipped@.len()) + " skipped)"@,
            RoutingFailure::NoAvailableCandidates { resolved_model, skipped, .. } => "no available routing candidates remain for model "@
                + resolved_model@ + " ("@ + decimal(skipped@.len()) + " skipped)"@,
        }
    }

    /// Returns a human-readable message for this diagnostic.
    pub fn message(&self) -> (r: String)
        ensures
            r@ == self.message_spec(),
    {
        match self {
            RoutingFailure::InvalidPolicy { field, message } => {
                let mut s = concat3("routing policy field ", field, " is invalid: ");
                s.append(message.as_str());
                s
            },
            RoutingFailure::InvalidRequest { field, message } => {
                let mut s = concat3("routing request field ", field, " is invalid: ");
                s.append(message.as_str());
                s
            },
            RoutingFailure::NoRoute { requested_model, resolved_model } => {
                let mut s = concat3(
                    "no route is configured for requested model ",
                    requested_model.as_str(),
                    " resolved as ",
                );
                s.append(resolved_model.as_str());
                s
            },
            RoutingFailure::MissingExplicitTarget { target } => {
                let label = target.label();
                concat3("explicit target ", label.as_str(), " is missing from availability")
            },
            RoutingFailure::FallbackDisabled { target, reason } => {
                let label = target.label();
                let mut s = concat3("fallback is disabled after target ", label.as_str(), " failed selection: ");
                let m = reason.message();
                s.append(m.as_str());
                s
            },
            RoutingFailure::ExhaustedCandidates { resolved_model, skipped, .. } => {
                let mut s = concat3("all routing candidates for model ", resolved_model.as_str(), " are exhausted (");
                let count = decimal_string(skipped.len() as u64);
                s.append(count.as_str());
                s.append(" skipped)");
                s
            },
            RoutingFailure::DegradedOnlyCandidates { resolved_model, skipped, .. } => {
                let mut s = concat3(
                    "only degraded routing candidates remain for model ",
                    resolved_model.as_str(),
                    " (",
                );
                let count = decimal_string(skipped.len() as u64);
                s.append(count.as_str());
                s.append(" skipped)");
                s
            },
            RoutingFailure::NoAvailableCandidates { resolved_model, skipped, .. } => {
                let mut s = concat3(
                    "no available routing candidates remain for model ",
                    resolved_model.as_str(),
                    " (",
                );
                let count = decimal_string(skipped.len() as u64);
                s.append(count.as_str());
                s.append(" skipped)");
                s
            },
        }
    }
}

// ---------------------------------------------------------------------------
// Laws
// ---------------------------------------------------------------------------

/// A target whose provider identifier, and account identifier when present, are not blank.
pub open spec fn is_valid_target(t: RoutingTarget) -> bool {
    &&& !is_blank_text(t.provider_id@)
    &&& (t.account_id is Some ==> !is_blank_text(t.account_id.unwrap()@))
}

proof fn lemma_target_problem_none(t: RoutingTarget, field: Seq<char>)
    ensures
        target_problem(t, field) is None <==> is_valid_target(t),
{
}

proof fn lemma_routes_valid(routes: Seq<ModelRoute>, i: int, j: int)
    requires
        routes_problem_from(routes, i) is None,
        0 <= i <= j < routes.len(),
    ensures
        routes[j].problem() is None,
    decreases j - i,
{
    if i < j {
        lemma_routes_valid(routes, i + 1, j);
    }
}

proof fn lemma_candidates_valid(candidates: Seq<RoutingCandidate>, i: int, j: int)
    requires
        candidates_problem_from(candidates, i) is None,
        0 <= i <= j < candidates.len(),
    ensures
        is_valid_target(candidates[j].target),
    decreases j - i,
{
    if i < j {
        lemma_candidates_valid(candidates, i + 1, j);
    } else {
        lemma_target_problem_none(candidates[j].target, "routes.candidates.target"@);
    }
}

/// Every target that selection picks is valid: its provider identifier, and its account
/// identifier when present, are not blank.
pub proof fn lemma_selected_target_is_valid(
    policy: RoutingPolicy,
    requested: Seq<char>,
    explicit_target: Option<RoutingTarget>,
    fallback_override: Option<bool>,
    degraded_override: Option<bool>,
    availability: RoutingAvailabilitySnapshot,
)
    requires
        selection_of(policy, requested, explicit_target, fallback_override, degraded_override, availability) is Ok,
    ensures
        is_valid_target(
            selection_of(policy, requested, explicit_target, fallback_override, degraded_override, availability)->Ok_0.selected_target,
        ),
{
    let resolved = resolve(policy.model_aliases@, requested);
    match explicit_target {
        Some(t) => {
            lemma_target_problem_none(t, "explicit_target"@);
        },
        None => match policy.default_target {
            Some(t) => {
                lemma_target_problem_none(t, "default_target"@);
            },
            None => {
                let k = route_from(policy.routes@, resolved, 0);
                lemma_route_from_bounds(policy.routes@, resolved, 0);
                let route = policy.routes@[k];
                lemma_routes_valid(policy.routes@, 0, k);
                let candidates = route.candidates@;
                let entries = availability.targets@;
                lemma_first_available_bounds(candidates, entries, 0);
                lemma_first_degraded_bounds(candidates, entries, 0);
                let fa = first_available_from(candidates, entries, 0);
                let fd = first_degraded_from(candidates, entries, 0);
                if candidates.len() > 0 {
                    lemma_candidates_valid(candidates, 0, 0);
                    if fa < candidates.len() {
                        lemma_candidates_valid(candidates, 0, fa);
                    }
                    if fd < candidates.len() {
                        lemma_candidates_valid(candidates, 0, fd);
                    }
                }
            },
        },
    }
}

/// A selection picks its target in the state that the availability snapshot gives that
/// target, and that state is available, or degraded where degraded selection is allowed: by
/// the request's override when it has one, else by the policy's fallback behavior.
pub proof fn law_selected_state_is_allowed(
    policy: RoutingPolicy,
    requested: Seq<char>,
    explicit_target: Option<RoutingTarget>,
    fallback_override: Option<bool>,
    degraded_override: Option<bool>,
    availability: RoutingAvailabilitySnapshot,
)
    ensures
        selection_of(policy, requested, explicit_target, fallback_override, degraded_override, availability) matches Ok(
            s,
        ) ==> state_of(availability.targets@, s.selected_target) == Some(s.selected_state),
        selection_of(policy, requested, explicit_target, fallback_override, degraded_override, availability) matches Ok(
            s,
        ) ==> s.selected_state is Available || (s.selected_state is Degraded && match degraded_override {
            Some(allowed) => allowed,
            None => policy.fallback.allow_degraded,
        }),
{
    let resolved = resolve(policy.model_aliases@, requested);
    if explicit_target is None && policy.default_target is None {
        let k = route_from(policy.routes@, resolved, 0);
        lemma_route_from_bounds(policy.routes@, resolved, 0);
        if k < policy.routes@.len() {
            let candidates = policy.routes@[k].candidates@;
            let entries = availability.targets@;
            lemma_first_available_bounds(candidates, entries, 0);
            lemma_first_degraded_bounds(candidates, entries, 0);
        }
    }
}

proof fn lemma_route_from_bounds(routes: Seq<ModelRoute>, resolved: Seq<char>, i: int)
    requires
        0 <= i <= routes.len(),
    ensures
        i <= route_from(routes, resolved, i) <= routes.len(),
    decreases routes.len() - i,
{
    if i < routes.len() {
        lemma_route_from_bounds(routes, resolved, i + 1);
    }
}

proof fn lemma_state_respects_same_target(
    entries: Seq<RoutingTargetAvailability>,
    a: RoutingTarget,
    b: RoutingTarget,
    i: int,
)
    requires
        same_target(a, b),
    ensures
        state_from(entries, a, i) == state_from(entries, b, i),
    decreases entries.len() - i,
{
    if 0 <= i < entries.len() {
        lemma_state_respects_same_target(entries, a, b, i + 1);
    }
}

proof fn lemma_first_available_before(
    candidates: Seq<RoutingCandidate>,
    entries: Seq<RoutingTargetAvailability>,
    i: int,
    j: int,
)
    requires
        0 <= i <= j < first_available_from(candidates, entries, i),
        first_available_from(candidates, entries, i) <= candidates.len(),
    ensures
        state_of(entries, candidates[j].target) != Some(RoutingAvailabilityState::Available),
    decreases j - i,
{
    if i < j {
        lemma_first_available_before(candidates, entries, i + 1, j);
    }
}

/// A selection never reports its selected target among the candidates it skipped.
pub proof fn lemma_selected_target_not_skipped(
    requested: Seq<char>,
    resolved: Seq<char>,
    candidates: Seq<RoutingCandidate>,
    fallback_enabled: bool,
    allow_degraded: bool,
    entries: Seq<RoutingTargetAvailability>,
)
    requires
        evaluation(requested, resolved, candidates, fallback_enabled, allow_degraded, entries) is Ok,
    ensures
        ({
            let sel = evaluation(requested, resolved, candidates, fallback_enabled, allow_degraded, entries)->Ok_0;
            forall|i: int|
                0 <= i < sel.skipped_candidates.len() ==> !same_target(
                    #[trigger] sel.skipped_candidates[i].target,
                    sel.selected_target,
                )
        }),
{
    let n = candidates.len() as int;
    let sel = evaluation(requested, resolved, candidates, fallback_enabled, allow_degraded, entries)->Ok_0;
    if !fallback_enabled && n > 0 {
        assert(sel.skipped_candidates.len() == 0);
    } else {
        lemma_first_available_bounds(candidates, entries, 0);
        lemma_first_degraded_bounds(candidates, entries, 0);
        let k = first_available_from(candidates, entries, 0);
        if k < n {
            assert forall|i: int|
                0 <= i < sel.skipped_candidates.len() implies !same_target(
                    #[trigger] sel.skipped_candidates[i].target,
                    sel.selected_target,
                ) by {
                lemma_first_available_before(candidates, entries, 0, i);
                if same_target(candidates[i].target, candidates[k].target) {
                    lemma_state_respects_same_target(entries, candidates[i].target, candidates[k].target, 0);
                }
            }
        } else {
            let d = first_degraded_from(candidates, entries, 0);
            let t = candidates[d].target;
            let all = skipped_upto(candidates, entries, allow_degraded, n);
            let keep = |c: SkippedRoutingCandidate| !same_target(c.target, t);
            assert forall|i: int|
                0 <= i < sel.skipped_candidates.len() implies !same_target(
                    #[trigger] sel.skipped_candidates[i].target,
                    sel.selected_target,
                ) by {
                all.lemma_filter_pred(keep, i);
            }
        }
    }
}

} // verus!
