//! Provider-neutral reasoning and thinking control contracts.
//!
//! This module owns typed reasoning intent, validation, capability metadata, and
//! compatibility outcomes without provider-specific payload rewrites or live
//! discovery.

use vstd::prelude::*;

use crate::errors::CoreError;
use crate::text::{is_blank, is_blank_text, is_present_and_blank, owned};

verus! {

/// Lowest accepted provider-neutral reasoning token budget.
pub const MIN_REASONING_TOKEN_BUDGET: u32 = 1;

/// Highest accepted provider-neutral reasoning token budget.
pub const MAX_REASONING_TOKEN_BUDGET: u32 = 200_000;

/// A reasoning validation diagnostic: code, field and message.
pub type ReasoningProblem = (ReasoningFailureCode, Seq<char>, Seq<char>);

/// The error is the structured reasoning validation error for this problem.
pub open spec fn is_reasoning_error(e: CoreError, p: ReasoningProblem) -> bool {
    &&& e matches CoreError::ReasoningValidation { failure }
    &&& failure.code == p.0
    &&& failure.field@ == p.1
    &&& failure.message@ == p.2
}

/// A validation result agrees with the first problem found by the specification.
pub open spec fn reports_reasoning_problem(r: Result<(), CoreError>, p: Option<ReasoningProblem>) -> bool {
    match r {
        Ok(()) => p is None,
        Err(e) => p is Some && is_reasoning_error(e, p.unwrap()),
    }
}

/// First of two problems checked in order.
pub open spec fn first_reasoning_problem(a: Option<ReasoningProblem>, b: Option<ReasoningProblem>) -> Option<
    ReasoningProblem,
> {
    if a is Some {
        a
    } else {
        b
    }
}

/// Problem of a required reasoning text, if any.
pub open spec fn required_reasoning_text_problem(field: Seq<char>, value: Seq<char>) -> Option<
    ReasoningProblem,
> {
    if is_blank_text(value) {
        Some((ReasoningFailureCode::BlankField, field, "value must not be blank"@))
    } else {
        None
    }
}

/// Problem of an optional reasoning text, if any.
pub open spec fn optional_reasoning_text_problem(field: Seq<char>, value: Option<String>) -> Option<
    ReasoningProblem,
> {
    match value {
        Some(v) => if is_blank_text(v@) {
            Some((ReasoningFailureCode::BlankField, field, "value must not be blank when present"@))
        } else {
            None
        },
        None => None,
    }
}

fn reasoning_validation_error(code: ReasoningFailureCode, field: &'static str, message: &str) -> (r:
    CoreError)
    ensures
        is_reasoning_error(r, (code, field@, message@)),
{
    CoreError::ReasoningValidation {
        failure: Box::new(ReasoningValidationFailure { code, field, message: owned(message) }),
    }
}

fn validate_required_reasoning_text(field: &'static str, value: &str) -> (r: Result<(), CoreError>)
    ensures
        reports_reasoning_problem(r, required_reasoning_text_problem(field@, value@)),
{
    if is_blank(value) {
        return Err(
            reasoning_validation_error(
                ReasoningFailureCode::BlankField,
                field,
                "value must not be blank",
            ),
        );
    }
    Ok(())
}

fn validate_optional_reasoning_text(field: &'static str, value: &Option<String>) -> (r: Result<
    (),
    CoreError,
>)
    ensures
        reports_reasoning_problem(r, optional_reasoning_text_problem(field@, *value)),
{
    if is_present_and_blank(value) {
        return Err(
            reasoning_validation_error(
                ReasoningFailureCode::BlankField,
                field,
                "value must not be blank when present",
            ),
        );
    }
    Ok(())
}

/// Optional reasoning intent carried through core request boundaries.
#[derive(Debug, PartialEq, Eq, Default)]
pub enum ReasoningRequest {
    /// No reasoning or thinking behavior was requested.
    #[default]
    Absent,
    /// A normalized reasoning or thinking behavior was requested.
    Intent(ReasoningIntent),
}

impl Clone for ReasoningRequest {
    fn clone(&self) -> (r: Self)
        ensures
            r == *self,
    {
        match self {
            ReasoningRequest::Absent => ReasoningRequest::Absent,
            ReasoningRequest::Intent(intent) => ReasoningRequest::Intent(clone_intent(intent)),
        }
    }
}

impl ReasoningRequest {
    /// Validation problem of this request, if any.
    pub open spec fn problem(self) -> Option<ReasoningProblem> {
        match self {
            ReasoningRequest::Absent => None,
            ReasoningRequest::Intent(intent) => intent.problem(),
        }
    }

    /// Creates an absent reasoning request marker.
    pub fn absent() -> (r: Self)
        ensures
            r is Absent,
    {
        ReasoningRequest::Absent
    }

    /// Creates a reasoning request with normalized intent.
    pub fn intent(intent: ReasoningIntent) -> (r: Result<Self, CoreError>)
        ensures
            match r {
                Ok(req) => req == ReasoningRequest::Intent(intent) && intent.problem() is None,
                Err(e) => intent.problem() is Some && is_reasoning_error(e, intent.problem().unwrap()),
            },
    {
        intent.validate()?;
        Ok(ReasoningRequest::Intent(intent))
    }

    /// Returns normalized intent when one exists.
    pub fn as_intent(&self) -> (r: Option<&ReasoningIntent>)
        ensures
            match self {
                ReasoningRequest::Absent => r is None,
                ReasoningRequest::Intent(i) => r == Some(i),
            },
    {
        match self {
            ReasoningRequest::Absent => None,
            ReasoningRequest::Intent(intent) => Some(intent),
        }
    }

    /// Validates this value and returns structured core errors.
    pub fn validate(&self) -> (r: Result<(), CoreError>)
        ensures
            reports_reasoning_problem(r, self.problem()),
    {
        match self {
            ReasoningRequest::Absent => Ok(()),
            ReasoningRequest::Intent(intent) => intent.validate(),
        }
    }
}

/// Provider-neutral reasoning or thinking intent.
#[derive(Debug, PartialEq, Eq)]
pub struct ReasoningIntent {
    /// Source of the normalized reasoning controls.
    pub source: ReasoningSource,
    /// Requested reasoning mode.
    pub mode: ReasoningMode,
    /// Requested effort level or token budget.
    pub control: ReasoningControl,
    /// Handling policy for unsupported or unknown capabilities.
    pub handling: ReasoningHandlingPolicy,
    /// Diagnostics preserving model identity and source precedence.
    pub diagnostics: ReasoningDiagnostics,
}

fn clone_intent(intent: &ReasoningIntent) -> (r: ReasoningIntent)
    ensures
        r == *intent,
    decreases intent, 1int,
{
    ReasoningIntent {
        source: intent.source.clone(),
        mode: intent.mode,
        control: intent.control,
        handling: intent.handling,
        diagnostics: clone_diagnostics(&intent.diagnostics),
    }
}

fn clone_diagnostics(d: &ReasoningDiagnostics) -> (r: ReasoningDiagnostics)
    ensures
        r == *d,
    decreases d, 0int,
{
    let ignored_alias = match &d.ignored_alias {
        Some(alias) => Some(Box::new(clone_intent(&**alias))),
        None => None,
    };
    ReasoningDiagnostics {
        requested_model: d.requested_model.clone(),
        resolved_model: d.resolved_model.clone(),
        provider_native_model: d.provider_native_model.clone(),
        selected_provider_id: d.selected_provider_id.clone(),
        selected_account_id: d.selected_account_id.clone(),
        ignored_alias,
    }
}

impl Clone for ReasoningIntent {
    fn clone(&self) -> (r: Self)
        ensures
            r == *self,
    {
        clone_intent(self)
    }
}

/// Validation problem of a mode and control combination, if any.
pub open spec fn mode_control_problem(mode: ReasoningMode, control: ReasoningControl) -> Option<
    ReasoningProblem,
> {
    if mode is Disabled && !(control is Unspecified) {
        Some(
            (
                ReasoningFailureCode::InvalidModeControlCombination,
                "mode"@,
                "disabled reasoning mode cannot carry effort or budget controls"@,
            ),
        )
    } else {
        None
    }
}

impl ReasoningIntent {
    /// First validation problem: source texts, handling for explicit sources, mode and
    /// control, then diagnostics (including any ignored alias intent).
    pub open spec fn problem(self) -> Option<ReasoningProblem>
        decreases self, 1int,
    {
        first_reasoning_problem(
            self.source.problem(),
            first_reasoning_problem(
                if self.source is Explicit && self.handling is Permissive {
                    Some(
                        (
                            ReasoningFailureCode::InvalidHandlingPolicy,
                            "handling"@,
                            "explicit reasoning intent must use strict handling"@,
                        ),
                    )
                } else {
                    None
                },
                first_reasoning_problem(
                    mode_control_problem(self.mode, self.control),
                    diagnostics_problem(self.diagnostics),
                ),
            ),
        )
    }

    /// Creates normalized intent and validates it.
    pub fn new(
        source: ReasoningSource,
        mode: ReasoningMode,
        control: ReasoningControl,
        handling: ReasoningHandlingPolicy,
        diagnostics: ReasoningDiagnostics,
    ) -> (r: Result<Self, CoreError>)
        ensures
            ({
                let candidate = ReasoningIntent { source, mode, control, handling, diagnostics };
                match r {
                    Ok(i) => i == candidate && candidate.problem() is None,
                    Err(e) => candidate.problem() is Some && is_reasoning_error(
                        e,
                        candidate.problem().unwrap(),
                    ),
                }
            }),
    {
        let intent = ReasoningIntent { source, mode, control, handling, diagnostics };
        intent.validate()?;
        Ok(intent)
    }

    /// Creates explicit request metadata.
    pub fn explicit(mode: ReasoningMode, control: ReasoningControl) -> (r: Result<Self, CoreError>)
        ensures
            match r {
                Ok(i) => i.source is Explicit && i.mode == mode && i.control == control
                    && i.handling is Strict && i.diagnostics == ReasoningDiagnostics::empty(),
                Err(e) => mode_control_problem(mode, control) is Some && is_reasoning_error(
                    e,
                    mode_control_problem(mode, control).unwrap(),
                ),
            },
            r is Ok <==> mode_control_problem(mode, control) is None,
    {
        ReasoningIntent::new(
            ReasoningSource::Explicit,
            mode,
            control,
            ReasoningHandlingPolicy::Strict,
            ReasoningDiagnostics::default(),
        )
    }

    /// Validates this intent and returns structured reasoning errors.
    pub fn validate(&self) -> (r: Result<(), CoreError>)
        ensures
            reports_reasoning_problem(r, self.problem()),
        decreases self, 1int,
    {
        self.source.validate()?;
        if self.source.is_explicit() && matches!(self.handling, ReasoningHandlingPolicy::Permissive) {
            return Err(
                reasoning_validation_error(
                    ReasoningFailureCode::InvalidHandlingPolicy,
                    "handling",
                    "explicit reasoning intent must use strict handling",
                ),
            );
        }
        self.mode.validate(&self.control)?;
        validate_diagnostics(&self.diagnostics)?;
        Ok(())
    }
}

/// Raw typed reasoning metadata that may contain mutually exclusive fields before validation.
#[derive(Clone, Debug, PartialEq, Eq)]
pub struct ReasoningMetadataInput {
    /// Source of the metadata.
    pub source: ReasoningSource,
    /// Requested reasoning mode.
    pub mode: ReasoningMode,
    /// Optional effort level.
    pub effort: Option<ReasoningEffort>,
    /// Optional provider-neutral token budget.
    pub budget: Option<u32>,
    /// Handling policy.
    pub handling: ReasoningHandlingPolicy,
    /// Diagnostics preserving model identity.
    pub diagnostics: ReasoningDiagnostics,
}

/// Problem of a token budget outside the provider-neutral range, if any.
pub open spec fn budget_problem(tokens: u32) -> Option<ReasoningProblem> {
    if MIN_REASONING_TOKEN_BUDGET <= tokens && tokens <= MAX_REASONING_TOKEN_BUDGET {
        None
    } else {
        Some(
            (
                ReasoningFailureCode::BudgetOutOfRange,
                "budget"@,
                "reasoning token budget must be in the 1..=200000 range"@,
            ),
        )
    }
}

impl ReasoningMetadataInput {
    /// The single control these raw fields describe, when they are not in conflict.
    pub open spec fn control_spec(self) -> Option<ReasoningControl> {
        match (self.effort, self.budget) {
            (Some(_), Some(_)) => None,
            (Some(effort), None) => Some(ReasoningControl::Effort(effort)),
            (None, Some(tokens)) => Some(ReasoningControl::Budget(ReasoningTokenBudget { tokens })),
            (None, None) => Some(ReasoningControl::Unspecified),
        }
    }

    /// First normalization problem: conflicting controls, then an out-of-range budget,
    /// then validation of the resulting intent.
    pub open spec fn normalize_problem(self) -> Option<ReasoningProblem> {
        if self.effort is Some && self.budget is Some {
            Some(
                (
                    ReasoningFailureCode::MutuallyExclusiveControls,
                    "control"@,
                    "reasoning effort and token budget are mutually exclusive"@,
                ),
            )
        } else if self.budget is Some && budget_problem(self.budget.unwrap()) is Some {
            budget_problem(self.budget.unwrap())
        } else {
            (ReasoningIntent {
                source: self.source,
                mode: self.mode,
                control: self.control_spec().unwrap(),
                handling: self.handling,
                diagnostics: self.diagnostics,
            }).problem()
        }
    }

    /// Normalizes typed metadata into a single provider-neutral intent.
    pub fn normalize(self) -> (r: Result<ReasoningIntent, CoreError>)
        ensures
            match r {
                Ok(i) => self.normalize_problem() is None && i == (ReasoningIntent {
                    source: self.source,
                    mode: self.mode,
                    control: self.control_spec().unwrap(),
                    handling: self.handling,
                    diagnostics: self.diagnostics,
                }),
                Err(e) => self.normalize_problem() is Some && is_reasoning_error(
                    e,
                    self.normalize_problem().unwrap(),
                ),
            },
    {
        let control = match (self.effort, self.budget) {
            (Some(_), Some(_)) => {
                return Err(
                    reasoning_validation_error(
                        ReasoningFailureCode::MutuallyExclusiveControls,
                        "control",
                        "reasoning effort and token budget are mutually exclusive",
                    ),
                );
            },
            (Some(effort), None) => ReasoningControl::Effort(effort),
            (None, Some(budget)) => ReasoningControl::Budget(ReasoningTokenBudget::new(budget)?),
            (None, None) => ReasoningControl::Unspecified,
        };
        ReasoningIntent::new(self.source, self.mode, control, self.handling, self.diagnostics)
    }
}

/// Source of normalized reasoning controls.
#[derive(Debug, PartialEq, Eq)]
pub enum ReasoningSource {
    /// Explicit typed Rust request metadata.
    Explicit,
    /// Typed in-memory alias metadata.
    Alias {
        /// Requested model alias.
        requested_model: String,
        /// Resolved model identifier.
        resolved_model: String,
    },
    /// Core default metadata supplied by a caller.
    Default,
}

impl Clone for ReasoningSource {
    fn clone(&self) -> (r: Self)
        ensures
            r == *self,
    {
        match self {
            ReasoningSource::Explicit => ReasoningSource::Explicit,
            ReasoningSource::Alias { requested_model, resolved_model } => ReasoningSource::Alias {
                requested_model: requested_model.clone(),
                resolved_model: resolved_model.clone(),
            },
            ReasoningSource::Default => ReasoningSource::Default,
        }
    }
}

impl ReasoningSource {
    /// Validation problem of this source, if any.
    pub open spec fn problem(self) -> Option<ReasoningProblem> {
        match self {
            ReasoningSource::Alias { requested_model, resolved_model } => first_reasoning_problem(
                required_reasoning_text_problem("source.requested_model"@, requested_model@),
                required_reasoning_text_problem("source.resolved_model"@, resolved_model@),
            ),
            _ => None,
        }
    }

    fn validate(&self) -> (r: Result<(), CoreError>)
        ensures
            reports_reasoning_problem(r, self.problem()),
    {
        match self {
            ReasoningSource::Explicit | ReasoningSource::Default => Ok(()),
            ReasoningSource::Alias { requested_model, resolved_model } => {
                validate_required_reasoning_text(
                    "source.requested_model",
                    requested_model.as_str(),
                )?;
                validate_required_reasoning_text("source.resolved_model", resolved_model.as_str())
            },
        }
    }

    /// Returns true when this source should be treated as explicit caller intent.
    pub fn is_explicit(&self) -> (r: bool)
        ensures
            r == self is Explicit,
    {
        matches!(self, ReasoningSource::Explicit)
    }
}

/// Provider-neutral reasoning mode.
#[derive(Clone, Copy, Debug, PartialEq, Eq, Structural)]
pub enum ReasoningMode {
    /// General reasoning behavior.
    Reasoning,
    /// Extended thinking behavior.
    Thinking,
    /// Reasoning behavior is intentionally disabled.
    Disabled,
}

impl ReasoningMode {
    fn validate(&self, control: &ReasoningControl) -> (r: Result<(), CoreError>)
        ensures
            reports_reasoning_problem(r, mode_control_problem(*self, *control)),
    {
        if matches!(self, ReasoningMode::Disabled) && !matches!(control, ReasoningControl::Unspecified) {
            return Err(
                reasoning_validation_error(
                    ReasoningFailureCode::InvalidModeControlCombination,
                    "mode",
                    "disabled reasoning mode cannot carry effort or budget controls",
                ),
            );
        }
        Ok(())
    }
}

/// Provider-neutral effort levels.
#[derive(Clone, Copy, Debug, PartialEq, Eq, Structural)]
pub enum ReasoningEffort {
    /// Low reasoning effort.
    Low,
    /// Medium reasoning effort.
    Medium,
    /// High reasoning effort.
    High,
}

/// Provider-neutral token budget validated to the core range.
#[derive(Clone, Copy, Debug, PartialEq, Eq, Structural)]
pub struct ReasoningTokenBudget {
    /// Token budget value in the inclusive core range.
    pub tokens: u32,
}

impl ReasoningTokenBudget {
    /// Creates a validated provider-neutral token budget.
    pub fn new(tokens: u32) -> (r: Result<Self, CoreError>)
        ensures
            match r {
                Ok(b) => b.tokens == tokens && budget_problem(tokens) is None,
                Err(e) => budget_problem(tokens) is Some && is_reasoning_error(
                    e,
                    budget_problem(tokens).unwrap(),
                ),
            },
    {
        if !(MIN_REASONING_TOKEN_BUDGET <= tokens && tokens <= MAX_REASONING_TOKEN_BUDGET) {
            return Err(
                reasoning_validation_error(
                    ReasoningFailureCode::BudgetOutOfRange,
                    "budget",
                    "reasoning token budget must be in the 1..=200000 range",
                ),
            );
        }
        Ok(ReasoningTokenBudget { tokens })
    }
}

/// Mutually exclusive provider-neutral reasoning control.
#[derive(Clone, Copy, Debug, PartialEq, Eq, Structural)]
pub enum ReasoningControl {
    /// No effort or token budget was supplied.
    Unspecified,
    /// Provider-neutral effort level.
    Effort(ReasoningEffort),
    /// Provider-neutral token budget.
    Budget(ReasoningTokenBudget),
}

/// Handling policy for unsupported or unknown reasoning capabilities.
#[derive(Clone, Copy, Debug, PartialEq, Eq, Structural)]
pub enum ReasoningHandlingPolicy {
    /// Unsupported or unknown capability is a structured error.
    Strict,
    /// Unsupported or unknown capability can become ignored outcome metadata.
    Permissive,
}

/// Diagnostics preserving model identity and source precedence.
#[derive(Debug, PartialEq, Eq)]
pub struct ReasoningDiagnostics {
    /// Requested model alias or model identifier when known.
    pub requested_model: Option<String>,
    /// Resolved model identifier when known.
    pub resolved_model: Option<String>,
    /// Provider-native model identifier when known.
    pub provider_native_model: Option<String>,
    /// Selected provider identifier when known.
    pub selected_provider_id: Option<String>,
    /// Selected account identifier when known.
    pub selected_account_id: Option<String>,
    /// Ignored alias metadata when explicit intent wins precedence.
    pub ignored_alias: Option<Box<ReasoningIntent>>,
}

impl Default for ReasoningDiagnostics {
    fn default() -> (r: Self)
        ensures
            r == ReasoningDiagnostics::empty(),
    {
        ReasoningDiagnostics {
            requested_model: None,
            resolved_model: None,
            provider_native_model: None,
            selected_provider_id: None,
            selected_account_id: None,
            ignored_alias: None,
        }
    }
}

impl Clone for ReasoningDiagnostics {
    fn clone(&self) -> (r: Self)
        ensures
            r == *self,
    {
        clone_diagnostics(self)
    }
}

impl ReasoningDiagnostics {
    /// Diagnostics with every field absent.
    pub open spec fn empty() -> ReasoningDiagnostics {
        ReasoningDiagnostics {
            requested_model: None,
            resolved_model: None,
            provider_native_model: None,
            selected_provider_id: None,
            selected_account_id: None,
            ignored_alias: None,
        }
    }
}

/// First validation problem of diagnostics: the five optional texts in order, then
/// the ignored alias intent.
pub open spec fn diagnostics_problem(d: ReasoningDiagnostics) -> Option<ReasoningProblem>
    decreases d, 0int,
{
    first_reasoning_problem(
        optional_reasoning_text_problem("diagnostics.requested_model"@, d.requested_model),
        first_reasoning_problem(
            optional_reasoning_text_problem("diagnostics.resolved_model"@, d.resolved_model),
            first_reasoning_problem(
                optional_reasoning_text_problem(
                    "diagnostics.provider_native_model"@,
                    d.provider_native_model,
                ),
                first_reasoning_problem(
                    optional_reasoning_text_problem(
                        "diagnostics.selected_provider_id"@,
                        d.selected_provider_id,
                    ),
                    first_reasoning_problem(
                        optional_reasoning_text_problem(
                            "diagnostics.selected_account_id"@,
                            d.selected_account_id,
                        ),
                        match d.ignored_alias {
                            Some(alias) => (*alias).problem(),
                            None => None,
                        },
                    ),
                ),
            ),
        ),
    )
}

fn validate_diagnostics(d: &ReasoningDiagnostics) -> (r: Result<(), CoreError>)
    ensures
        reports_reasoning_problem(r, diagnostics_problem(*d)),
    decreases d, 0int,
{
    validate_optional_reasoning_text("diagnostics.requested_model", &d.requested_model)?;
    validate_optional_reasoning_text("diagnostics.resolved_model", &d.resolved_model)?;
    validate_optional_reasoning_text(
        "diagnostics.provider_native_model",
        &d.provider_native_model,
    )?;
    validate_optional_reasoning_text("diagnostics.selected_provider_id", &d.selected_provider_id)?;
    validate_optional_reasoning_text("diagnostics.selected_account_id", &d.selected_account_id)?;
    match &d.ignored_alias {
        Some(alias) => (&**alias).validate(),
        None => Ok(()),
    }
}

/// Reasoning capability metadata declared by a provider, account, model, or registry candidate.
#[derive(Debug, PartialEq, Eq, Default)]
pub enum ReasoningCapability {
    /// Capability support is not known.
    #[default]
    Unknown,
    /// Target does not support reasoning controls.
    Unsupported {
        /// Typed reason for unsupported state.
        reason: String,
    },
    /// Target supports reasoning controls with optional limits.
    Supported(ReasoningCapabilitySupport),
    /// Target can only partially honor reasoning controls.
    Degraded {
        /// Supported subset and limits.
        support: ReasoningCapabilitySupport,
        /// Typed degradation reasons.
        reasons: Vec<String>,
    },
}

fn clone_strings(v: &Vec<String>) -> (r: Vec<String>)
    ensures
        r@ == v@,
{
    let mut out: Vec<String> = Vec::new();
    let mut i: usize = 0;
    while i < v.len()
        invariant
            i <= v.len(),
            out@ == v@.subrange(0, i as int),
        decreases v.len() - i,
    {
        out.push(v[i].clone());
        i = i + 1;
        assert(out@ =~= v@.subrange(0, i as int));
    }
    assert(v@.subrange(0, v.len() as int) =~= v@);
    out
}

/// Model of a capability: strings by their characters, lists by their elements.
pub enum ReasoningCapabilityView {
    /// Unknown capability.
    Unknown,
    /// Unsupported, with its reason.
    Unsupported { reason: Seq<char> },
    /// Supported with these limits.
    Supported(ReasoningSupportView),
    /// Partially supported with these limits and reasons.
    Degraded { support: ReasoningSupportView, reasons: Seq<Seq<char>> },
}

/// The characters of each text in a list.
pub open spec fn texts_view(v: Seq<String>) -> Seq<Seq<char>> {
    v.map_values(|s: String| s@)
}

impl View for ReasoningCapability {
    type V = ReasoningCapabilityView;

    open spec fn view(&self) -> ReasoningCapabilityView {
        match self {
            ReasoningCapability::Unknown => ReasoningCapabilityView::Unknown,
            ReasoningCapability::Unsupported { reason } => ReasoningCapabilityView::Unsupported {
                reason: reason@,
            },
            ReasoningCapability::Supported(support) => ReasoningCapabilityView::Supported(support@),
            ReasoningCapability::Degraded { support, reasons } => ReasoningCapabilityView::Degraded {
                support: support@,
                reasons: texts_view(reasons@),
            },
        }
    }
}

impl Clone for ReasoningCapability {
    fn clone(&self) -> (r: Self)
        ensures
            r@ == self@,
    {
        match self {
            ReasoningCapability::Unknown => ReasoningCapability::Unknown,
            ReasoningCapability::Unsupported { reason } => ReasoningCapability::Unsupported {
                reason: reason.clone(),
            },
            ReasoningCapability::Supported(support) => ReasoningCapability::Supported(
                support.clone(),
            ),
            ReasoningCapability::Degraded { support, reasons } => ReasoningCapability::Degraded {
                support: support.clone(),
                reasons: clone_strings(reasons),
            },
        }
    }
}

/// The reasons the evaluation reports for capabilities that cannot honor the intent.
pub open spec fn limits_reason() -> Seq<char> {
    "capability limits do not support requested reasoning controls"@
}

/// Reason reported when a degraded capability cannot honor the intent.
pub open spec fn degraded_limits_reason() -> Seq<char> {
    "degraded capability cannot support requested reasoning controls"@
}

/// Reason reported for an unsupported capability.
pub open spec fn unsupported_reason() -> Seq<char> {
    "target does not support reasoning controls"@
}

/// Reason reported for an unknown capability.
pub open spec fn unknown_reason() -> Seq<char> {
    "target reasoning capability is unknown"@
}

/// What evaluating an intent against a capability yields.
pub enum ReasoningVerdict {
    /// The intent failed validation.
    Invalid(ReasoningProblem),
    /// A compatibility outcome.
    Outcome(ReasoningOutcomeView),
    /// A structured capability failure.
    Refused(ReasoningCapabilityFailureView),
}

impl ReasoningVerdict {
    /// The same verdict attributed to another capability layer.
    pub open spec fn layered(self, layer: ReasoningCapabilityLayer) -> ReasoningVerdict {
        match self {
            ReasoningVerdict::Invalid(p) => ReasoningVerdict::Invalid(p),
            ReasoningVerdict::Outcome(o) => ReasoningVerdict::Outcome(o.layered(layer)),
            ReasoningVerdict::Refused(f) => ReasoningVerdict::Refused(
                ReasoningCapabilityFailureView { layer, ..f },
            ),
        }
    }
}

/// An evaluation result agrees with a verdict.
pub open spec fn verdict_matches(
    r: Result<ReasoningCompatibilityOutcome, CoreError>,
    v: ReasoningVerdict,
) -> bool {
    match v {
        ReasoningVerdict::Invalid(p) => r is Err && is_reasoning_error(r->Err_0, p),
        ReasoningVerdict::Outcome(o) => r is Ok && r->Ok_0@ == o,
        ReasoningVerdict::Refused(f) => r is Err && (r->Err_0 matches CoreError::ReasoningUnsupportedCapability {
            failure,
        } && (*failure)@ == f),
    }
}

/// Verdict for a capability that cannot honor an intent: ignored under permissive handling
/// of a non-explicit source, otherwise a structured capability failure.
pub open spec fn refusal(
    intent: ReasoningIntent,
    capability: ReasoningCapabilityView,
    code: ReasoningFailureCode,
    reason: Seq<char>,
) -> ReasoningVerdict {
    if intent.handling is Permissive && !(intent.source is Explicit) {
        ReasoningVerdict::Outcome(
            ReasoningOutcomeView::Ignored {
                intent,
                capability,
                layer: ReasoningCapabilityLayer::Unknown,
                reason,
            },
        )
    } else {
        ReasoningVerdict::Refused(
            ReasoningCapabilityFailureView {
                code,
                intent,
                capability,
                layer: ReasoningCapabilityLayer::Unknown,
                message: reason,
            },
        )
    }
}

/// Verdict of evaluating an intent against a capability.
pub open spec fn evaluation(capability: ReasoningCapabilityView, intent: ReasoningIntent) -> ReasoningVerdict {
    if intent.problem() is Some {
        ReasoningVerdict::Invalid(intent.problem().unwrap())
    } else {
        match capability {
            ReasoningCapabilityView::Supported(support) => if support.supports(intent) {
                ReasoningVerdict::Outcome(
                    ReasoningOutcomeView::Supported {
                        intent,
                        capability,
                        layer: ReasoningCapabilityLayer::Unknown,
                    },
                )
            } else {
                refusal(intent, capability, ReasoningFailureCode::UnsupportedCapability, limits_reason())
            },
            ReasoningCapabilityView::Degraded { support, reasons } => if support.supports(intent) {
                ReasoningVerdict::Outcome(
                    ReasoningOutcomeView::Degraded {
                        intent,
                        capability,
                        layer: ReasoningCapabilityLayer::Unknown,
                        reasons,
                    },
                )
            } else {
                refusal(
                    intent,
                    capability,
                    ReasoningFailureCode::UnsupportedCapability,
                    degraded_limits_reason(),
                )
            },
            ReasoningCapabilityView::Unsupported { .. } => refusal(
                intent,
                capability,
                ReasoningFailureCode::UnsupportedCapability,
                unsupported_reason(),
            ),
            ReasoningCapabilityView::Unknown => refusal(
                intent,
                capability,
                ReasoningFailureCode::UnknownCapability,
                unknown_reason(),
            ),
        }
    }
}

fn unsupported_or_ignored(
    intent: &ReasoningIntent,
    capability: ReasoningCapability,
    code: ReasoningFailureCode,
    reason: &str,
) -> (r: Result<ReasoningCompatibilityOutcome, CoreError>)
    ensures
        verdict_matches(r, refusal(*intent, capability@, code, reason@)),
{
    if matches!(intent.handling, ReasoningHandlingPolicy::Permissive) && !intent.source.is_explicit() {
        Ok(
            ReasoningCompatibilityOutcome::Ignored {
                intent: intent.clone(),
                capability,
                layer: ReasoningCapabilityLayer::Unknown,
                reason: owned(reason),
            },
        )
    } else {
        Err(
            CoreError::ReasoningUnsupportedCapability {
                failure: Box::new(
                    ReasoningCapabilityFailure {
                        code,
                        intent: intent.clone(),
                        capability,
                        layer: ReasoningCapabilityLayer::Unknown,
                        message: owned(reason),
                    },
                ),
            },
        )
    }
}

impl ReasoningCapability {
    /// Returns supported reasoning capability with no extra limits.
    pub fn supported() -> (r: Self)
        ensures
            r@ matches ReasoningCapabilityView::Supported(support) && support.is_full(),
    {
        ReasoningCapability::Supported(ReasoningCapabilitySupport::all())
    }

    /// Evaluates one normalized intent against this capability.
    pub fn evaluate(&self, intent: &ReasoningIntent) -> (r: Result<
        ReasoningCompatibilityOutcome,
        CoreError,
    >)
        ensures
            verdict_matches(r, evaluation(self@, *intent)),
    {
        intent.validate()?;
        match self {
            ReasoningCapability::Supported(support) => {
                if support.supports_intent(intent) {
                    Ok(
                        ReasoningCompatibilityOutcome::Supported {
                            intent: intent.clone(),
                            capability: self.clone(),
                            layer: ReasoningCapabilityLayer::Unknown,
                        },
                    )
                } else {
                    unsupported_or_ignored(
                        intent,
                        self.clone(),
                        ReasoningFailureCode::UnsupportedCapability,
                        "capability limits do not support requested reasoning controls",
                    )
                }
            },
            ReasoningCapability::Degraded { support, reasons } => {
                if support.supports_intent(intent) {
                    Ok(
                        ReasoningCompatibilityOutcome::Degraded {
                            intent: intent.clone(),
                            capability: self.clone(),
                            layer: ReasoningCapabilityLayer::Unknown,
                            reasons: clone_strings(reasons),
                        },
                    )
                } else {
                    unsupported_or_ignored(
                        intent,
                        self.clone(),
                        ReasoningFailureCode::UnsupportedCapability,
                        "degraded capability cannot support requested reasoning controls",
                    )
                }
            },
            ReasoningCapability::Unsupported { .. } => unsupported_or_ignored(
                intent,
                self.clone(),
                ReasoningFailureCode::UnsupportedCapability,
                "target does not support reasoning controls",
            ),
            ReasoningCapability::Unknown => unsupported_or_ignored(
                intent,
                self.clone(),
                ReasoningFailureCode::UnknownCapability,
                "target reasoning capability is unknown",
            ),
        }
    }
}

/// Supported reasoning modes, effort levels, and token-budget range.
#[derive(Debug, PartialEq, Eq)]
pub struct ReasoningCapabilitySupport {
    /// Supported modes.
    pub modes: Vec<ReasoningMode>,
    /// Supported effort levels.
    pub efforts: Vec<ReasoningEffort>,
    /// Optional supported token-budget range.
    pub budget_range: Option<ReasoningBudgetRange>,
}

/// Model of capability limits.
pub struct ReasoningSupportView {
    /// Supported modes.
    pub modes: Seq<ReasoningMode>,
    /// Supported effort levels.
    pub efforts: Seq<ReasoningEffort>,
    /// Supported budget range, when any.
    pub budget_range: Option<ReasoningBudgetRange>,
}

impl View for ReasoningCapabilitySupport {
    type V = ReasoningSupportView;

    open spec fn view(&self) -> ReasoningSupportView {
        ReasoningSupportView {
            modes: self.modes@,
            efforts: self.efforts@,
            budget_range: self.budget_range,
        }
    }
}

impl ReasoningSupportView {
    /// Support for every mode, every effort and the full core budget range.
    pub open spec fn is_full(self) -> bool {
        &&& self.modes == seq![ReasoningMode::Reasoning, ReasoningMode::Thinking, ReasoningMode::Disabled]
        &&& self.efforts == seq![ReasoningEffort::Low, ReasoningEffort::Medium, ReasoningEffort::High]
        &&& self.budget_range == Some(
            ReasoningBudgetRange { min: MIN_REASONING_TOKEN_BUDGET, max: MAX_REASONING_TOKEN_BUDGET },
        )
    }

    /// Whether these limits accept the mode and control of an intent.
    pub open spec fn supports(self, intent: ReasoningIntent) -> bool {
        &&& self.modes.contains(intent.mode)
        &&& match intent.control {
            ReasoningControl::Unspecified => true,
            ReasoningControl::Effort(effort) => self.efforts.contains(effort),
            ReasoningControl::Budget(budget) => match self.budget_range {
                Some(range) => range.min <= budget.tokens && budget.tokens <= range.max,
                None => false,
            },
        }
    }
}

impl Clone for ReasoningCapabilitySupport {
    fn clone(&self) -> (r: Self)
        ensures
            r@ == self@,
    {
        let modes = self.modes.clone();
        let efforts = self.efforts.clone();
        assert(modes@ =~= self.modes@);
        assert(efforts@ =~= self.efforts@);
        ReasoningCapabilitySupport { modes, efforts, budget_range: self.budget_range }
    }
}

impl ReasoningCapabilitySupport {
    /// Creates capability support accepting all provider-neutral controls.
    pub fn all() -> (r: Self)
        ensures
            r@.is_full(),
    {
        let modes = vec![ReasoningMode::Reasoning, ReasoningMode::Thinking, ReasoningMode::Disabled];
        let efforts = vec![ReasoningEffort::Low, ReasoningEffort::Medium, ReasoningEffort::High];
        ReasoningCapabilitySupport {
            modes,
            efforts,
            budget_range: Some(
                ReasoningBudgetRange { min: MIN_REASONING_TOKEN_BUDGET, max: MAX_REASONING_TOKEN_BUDGET },
            ),
        }
    }

    fn supports_intent(&self, intent: &ReasoningIntent) -> (r: bool)
        ensures
            r == self@.supports(*intent),
    {
        let mut mode_found = false;
        let mut i: usize = 0;
        while i < self.modes.len()
            invariant
                i <= self.modes.len(),
                mode_found == (exists|k: int| 0 <= k < i && self.modes@[k] == intent.mode),
            decreases self.modes.len() - i,
        {
            if self.modes[i] == intent.mode {
                mode_found = true;
            }
            i = i + 1;
        }
        if !mode_found {
            return false;
        }
        match intent.control {
            ReasoningControl::Unspecified => true,
            ReasoningControl::Effort(effort) => {
                let mut found = false;
                let mut j: usize = 0;
                while j < self.efforts.len()
                    invariant
                        j <= self.efforts.len(),
                        found == (exists|k: int| 0 <= k < j && self.efforts@[k] == effort),
                    decreases self.efforts.len() - j,
                {
                    if self.efforts[j] == effort {
                        found = true;
                    }
                    j = j + 1;
                }
                found
            },
            ReasoningControl::Budget(budget) => match self.budget_range {
                Some(range) => range.min <= budget.tokens && budget.tokens <= range.max,
                None => false,
            },
        }
    }
}

/// Inclusive token-budget support range.
#[derive(Clone, Copy, Debug, PartialEq, Eq, Structural)]
pub struct ReasoningBudgetRange {
    /// Minimum supported token budget.
    pub min: u32,
    /// Maximum supported token budget.
    pub max: u32,
}

/// Capability metadata resolved from provider/account/model layers.
#[derive(Clone, Debug, PartialEq, Eq)]
pub struct ReasoningCapabilityLayers {
    /// Provider-level capability metadata.
    pub provider: Option<ReasoningCapability>,
    /// Account-level capability metadata.
    pub account: Option<ReasoningCapability>,
    /// Model-candidate capability metadata.
    pub model: Option<ReasoningCapability>,
}

impl ReasoningCapabilityLayers {
    /// The most specific layer with capability metadata and that metadata.
    pub open spec fn effective_spec(self) -> (ReasoningCapabilityLayer, ReasoningCapability) {
        if self.model is Some {
            (ReasoningCapabilityLayer::Model, self.model.unwrap())
        } else if self.account is Some {
            (ReasoningCapabilityLayer::Account, self.account.unwrap())
        } else if self.provider is Some {
            (ReasoningCapabilityLayer::Provider, self.provider.unwrap())
        } else {
            (ReasoningCapabilityLayer::Unknown, ReasoningCapability::Unknown)
        }
    }

    /// Returns the most specific capability and the layer it came from.
    pub fn effective(&self) -> (r: (ReasoningCapabilityLayer, ReasoningCapability))
        ensures
            r.0 == self.effective_spec().0,
            r.1@ == self.effective_spec().1@,
    {
        if let Some(capability) = &self.model {
            (ReasoningCapabilityLayer::Model, capability.clone())
        } else if let Some(capability) = &self.account {
            (ReasoningCapabilityLayer::Account, capability.clone())
        } else if let Some(capability) = &self.provider {
            (ReasoningCapabilityLayer::Provider, capability.clone())
        } else {
            (ReasoningCapabilityLayer::Unknown, ReasoningCapability::Unknown)
        }
    }

    /// Evaluates the effective capability against an intent and attributes the result to
    /// the layer that supplied it.
    pub fn evaluate(&self, intent: &ReasoningIntent) -> (r: Result<
        ReasoningCompatibilityOutcome,
        CoreError,
    >)
        ensures
            verdict_matches(
                r,
                evaluation(self.effective_spec().1@, *intent).layered(self.effective_spec().0),
            ),
    {
        let (layer, capability) = self.effective();
        let base = capability.evaluate(intent);
        match base {
            Ok(outcome) => Ok(outcome.with_layer(layer)),
            Err(error) => Err(error.with_reasoning_layer(layer)),
        }
    }
}

/// Layer that supplied effective reasoning capability metadata.
#[derive(Clone, Copy, Debug, PartialEq, Eq, Structural)]
pub enum ReasoningCapabilityLayer {
    /// No layer supplied metadata.
    Unknown,
    /// Provider-level metadata was used.
    Provider,
    /// Account-level metadata was used.
    Account,
    /// Model-level metadata was used.
    Model,
}

/// Compatibility result for one selected route and normalized intent.
#[derive(Debug, PartialEq, Eq)]
pub enum ReasoningCompatibilityOutcome {
    /// No reasoning intent was present, so no capability lookup was needed.
    Absent,
    /// Target supports the normalized intent.
    Supported {
        /// Normalized intent.
        intent: ReasoningIntent,
        /// Capability metadata used for evaluation.
        capability: ReasoningCapability,
        /// Layer that supplied the capability metadata.
        layer: ReasoningCapabilityLayer,
    },
    /// Intent was ignored under permissive handling.
    Ignored {
        /// Normalized intent.
        intent: ReasoningIntent,
        /// Capability metadata used for evaluation.
        capability: ReasoningCapability,
        /// Layer that supplied the capability metadata.
        layer: ReasoningCapabilityLayer,
        /// Reason the intent was ignored.
        reason: String,
    },
    /// Target can only partially honor the intent.
    Degraded {
        /// Normalized intent.
        intent: ReasoningIntent,
        /// Capability metadata used for evaluation.
        capability: ReasoningCapability,
        /// Layer that supplied the capability metadata.
        layer: ReasoningCapabilityLayer,
        /// Degradation reasons.
        reasons: Vec<String>,
    },
}

/// Model of a compatibility outcome.
pub enum ReasoningOutcomeView {
    /// No intent.
    Absent,
    /// Supported intent.
    Supported { intent: ReasoningIntent, capability: ReasoningCapabilityView, layer: ReasoningCapabilityLayer },
    /// Ignored intent with its reason.
    Ignored {
        intent: ReasoningIntent,
        capability: ReasoningCapabilityView,
        layer: ReasoningCapabilityLayer,
        reason: Seq<char>,
    },
    /// Partially honored intent with its reasons.
    Degraded {
        intent: ReasoningIntent,
        capability: ReasoningCapabilityView,
        layer: ReasoningCapabilityLayer,
        reasons: Seq<Seq<char>>,
    },
}

impl ReasoningOutcomeView {
    /// The same outcome attributed to another capability layer.
    pub open spec fn layered(self, layer: ReasoningCapabilityLayer) -> ReasoningOutcomeView {
        match self {
            ReasoningOutcomeView::Absent => ReasoningOutcomeView::Absent,
            ReasoningOutcomeView::Supported { intent, capability, .. } => {
                ReasoningOutcomeView::Supported { intent, capability, layer }
            },
            ReasoningOutcomeView::Ignored { intent, capability, reason, .. } => {
                ReasoningOutcomeView::Ignored { intent, capability, layer, reason }
            },
            ReasoningOutcomeView::Degraded { intent, capability, reasons, .. } => {
                ReasoningOutcomeView::Degraded { intent, capability, layer, reasons }
            },
        }
    }
}

impl View for ReasoningCompatibilityOutcome {
    type V = ReasoningOutcomeView;

    open spec fn view(&self) -> ReasoningOutcomeView {
        match self {
            ReasoningCompatibilityOutcome::Absent => ReasoningOutcomeView::Absent,
            ReasoningCompatibilityOutcome::Supported { intent, capability, layer } => {
                ReasoningOutcomeView::Supported { intent: *intent, capability: capability@, layer: *layer }
            },
            ReasoningCompatibilityOutcome::Ignored { intent, capability, layer, reason } => {
                ReasoningOutcomeView::Ignored {
                    intent: *intent,
                    capability: capability@,
                    layer: *layer,
                    reason: reason@,
                }
            },
            ReasoningCompatibilityOutcome::Degraded { intent, capability, layer, reasons } => {
                ReasoningOutcomeView::Degraded {
                    intent: *intent,
                    capability: capability@,
                    layer: *layer,
                    reasons: texts_view(reasons@),
                }
            },
        }
    }
}

impl Clone for ReasoningCompatibilityOutcome {
    fn clone(&self) -> (r: Self)
        ensures
            r@ == self@,
            r.problem() == self.problem(),
    {
        match self {
            ReasoningCompatibilityOutcome::Absent => ReasoningCompatibilityOutcome::Absent,
            ReasoningCompatibilityOutcome::Supported { intent, capability, layer } => {
                ReasoningCompatibilityOutcome::Supported {
                    intent: intent.clone(),
                    capability: capability.clone(),
                    layer: *layer,
                }
            },
            ReasoningCompatibilityOutcome::Ignored { intent, capability, layer, reason } => {
                ReasoningCompatibilityOutcome::Ignored {
                    intent: intent.clone(),
                    capability: capability.clone(),
                    layer: *layer,
                    reason: reason.clone(),
                }
            },
            ReasoningCompatibilityOutcome::Degraded { intent, capability, layer, reasons } => {
                ReasoningCompatibilityOutcome::Degraded {
                    intent: intent.clone(),
                    capability: capability.clone(),
                    layer: *layer,
                    reasons: clone_strings(reasons),
                }
            },
        }
    }
}

impl ReasoningCompatibilityOutcome {
    /// The same outcome attributed to another capability layer.
    pub open spec fn layered(self, layer: ReasoningCapabilityLayer) -> ReasoningCompatibilityOutcome {
        match self {
            ReasoningCompatibilityOutcome::Absent => ReasoningCompatibilityOutcome::Absent,
            ReasoningCompatibilityOutcome::Supported { intent, capability, .. } => {
                ReasoningCompatibilityOutcome::Supported { intent, capability, layer }
            },
            ReasoningCompatibilityOutcome::Ignored { intent, capability, reason, .. } => {
                ReasoningCompatibilityOutcome::Ignored { intent, capability, layer, reason }
            },
            ReasoningCompatibilityOutcome::Degraded { intent, capability, reasons, .. } => {
                ReasoningCompatibilityOutcome::Degraded { intent, capability, layer, reasons }
            },
        }
    }

    /// Intent carried by this outcome, when one was evaluated.
    pub open spec fn intent_of(self) -> Option<ReasoningIntent> {
        match self {
            ReasoningCompatibilityOutcome::Absent => None,
            ReasoningCompatibilityOutcome::Supported { intent, .. } => Some(intent),
            ReasoningCompatibilityOutcome::Ignored { intent, .. } => Some(intent),
            ReasoningCompatibilityOutcome::Degraded { intent, .. } => Some(intent),
        }
    }

    /// Validation problem of the intent carried by this outcome, if any.
    pub open spec fn problem(self) -> Option<ReasoningProblem> {
        match self.intent_of() {
            Some(intent) => intent.problem(),
            None => None,
        }
    }

    /// Validates the intent carried by this outcome.
    pub fn validate(&self) -> (r: Result<(), CoreError>)
        ensures
            reports_reasoning_problem(r, self.problem()),
    {
        match self {
            ReasoningCompatibilityOutcome::Absent => Ok(()),
            ReasoningCompatibilityOutcome::Supported { intent, .. } => intent.validate(),
            ReasoningCompatibilityOutcome::Ignored { intent, .. } => intent.validate(),
            ReasoningCompatibilityOutcome::Degraded { intent, .. } => intent.validate(),
        }
    }

    fn with_layer(self, layer: ReasoningCapabilityLayer) -> (r: Self)
        ensures
            r == self.layered(layer),
    {
        match self {
            ReasoningCompatibilityOutcome::Absent => ReasoningCompatibilityOutcome::Absent,
            ReasoningCompatibilityOutcome::Supported { intent, capability, layer: _ } => {
                ReasoningCompatibilityOutcome::Supported { intent, capability, layer }
            },
            ReasoningCompatibilityOutcome::Ignored { intent, capability, layer: _, reason } => {
                ReasoningCompatibilityOutcome::Ignored { intent, capability, layer, reason }
            },
            ReasoningCompatibilityOutcome::Degraded { intent, capability, layer: _, reasons } => {
                ReasoningCompatibilityOutcome::Degraded { intent, capability, layer, reasons }
            },
        }
    }
}

/// Structured reasoning validation failure.
#[derive(Clone, Debug, PartialEq, Eq)]
pub struct ReasoningValidationFailure {
    /// Stable failure code.
    pub code: ReasoningFailureCode,
    /// Field path associated with the failure.
    pub field: &'static str,
    /// Human-readable diagnostic message.
    pub message: String,
}

/// Structured unsupported or unknown capability failure.
#[derive(Debug, PartialEq, Eq)]
pub struct ReasoningCapabilityFailure {
    /// Stable failure code.
    pub code: ReasoningFailureCode,
    /// Requested reasoning intent.
    pub intent: ReasoningIntent,
    /// Capability metadata used for evaluation.
    pub capability: ReasoningCapability,
    /// Layer that supplied the capability metadata.
    pub layer: ReasoningCapabilityLayer,
    /// Human-readable diagnostic message.
    pub message: String,
}

/// Model of a capability failure.
pub struct ReasoningCapabilityFailureView {
    /// Stable failure code.
    pub code: ReasoningFailureCode,
    /// Requested intent.
    pub intent: ReasoningIntent,
    /// Model of the capability used.
    pub capability: ReasoningCapabilityView,
    /// Layer that supplied the capability.
    pub layer: ReasoningCapabilityLayer,
    /// Diagnostic message.
    pub message: Seq<char>,
}

impl View for ReasoningCapabilityFailure {
    type V = ReasoningCapabilityFailureView;

    open spec fn view(&self) -> ReasoningCapabilityFailureView {
        ReasoningCapabilityFailureView {
            code: self.code,
            intent: self.intent,
            capability: self.capability@,
            layer: self.layer,
            message: self.message@,
        }
    }
}

impl Clone for ReasoningCapabilityFailure {
    fn clone(&self) -> (r: Self)
        ensures
            r@ == self@,
    {
        ReasoningCapabilityFailure {
            code: self.code,
            intent: self.intent.clone(),
            capability: self.capability.clone(),
            layer: self.layer,
            message: self.message.clone(),
        }
    }
}

impl ReasoningCapabilityFailure {
    /// Returns this failure attributed to another capability layer.
    pub fn with_layer(self, layer: ReasoningCapabilityLayer) -> (r: Self)
        ensures
            r == (ReasoningCapabilityFailure { layer, ..self }),
    {
        ReasoningCapabilityFailure { layer, ..self }
    }
}

/// Stable machine-matchable reasoning failure code.
#[derive(Clone, Copy, Debug, PartialEq, Eq, Structural)]
pub enum ReasoningFailureCode {
    /// Token budget is outside the provider-neutral range.
    BudgetOutOfRange,
    /// Effort and budget were supplied together.
    MutuallyExclusiveControls,
    /// Mode and control combination is invalid.
    InvalidModeControlCombination,
    /// Handling policy is invalid for the reasoning source.
    InvalidHandlingPolicy,
    /// Required reasoning field is blank.
    BlankField,
    /// Requested capability is unsupported.
    UnsupportedCapability,
    /// Requested capability is unknown.
    UnknownCapability,
}

/// The limits a capability states, when it states any: those of a supported or degraded
/// capability.
pub open spec fn stated_limits(capability: ReasoningCapabilityView) -> Option<ReasoningSupportView> {
    match capability {
        ReasoningCapabilityView::Supported(support) => Some(support),
        ReasoningCapabilityView::Degraded { support, .. } => Some(support),
        _ => None,
    }
}

/// Whether a verdict accepts the intent: a supported or degraded outcome.
pub open spec fn accepts_intent(v: ReasoningVerdict) -> bool {
    v matches ReasoningVerdict::Outcome(o) && (o is Supported || o is Degraded)
}

/// An intent is accepted only within the limits the capability states. A capability that
/// states no limits (unknown or unsupported) accepts no intent. One that states limits
/// accepts no intent whose mode it does not list, no effort control whose effort it does
/// not list, and no budget control without a budget range that holds the budget.
pub proof fn law_accepted_intents_lie_within_limits(capability: ReasoningCapabilityView, intent: ReasoningIntent)
    ensures
        stated_limits(capability) is None ==> !accepts_intent(evaluation(capability, intent)),
        stated_limits(capability) matches Some(limits) && !limits.modes.contains(intent.mode)
            ==> !accepts_intent(evaluation(capability, intent)),
        stated_limits(capability) matches Some(limits) && intent.control matches ReasoningControl::Effort(effort)
            && !limits.efforts.contains(effort) ==> !accepts_intent(evaluation(capability, intent)),
        stated_limits(capability) matches Some(limits) && intent.control matches ReasoningControl::Budget(budget)
            && !(limits.budget_range matches Some(range) && range.min <= budget.tokens && budget.tokens
            <= range.max) ==> !accepts_intent(evaluation(capability, intent)),
{
}

} // verus!
