//! Provider and account execution contracts for the headless core.
//!
//! The types here describe provider capabilities, account health, auth state,
//! quota references, deterministic mock execution, and execution failures without
//! implementing provider SDKs or OAuth flows.

use vstd::prelude::*;

use crate::errors::CoreError;
use crate::protocol::{
    is_protocol_error, CanonicalProtocolRequest, CanonicalProtocolResponse, ProtocolProblem,
};
use crate::reasoning::{is_reasoning_error, ReasoningCompatibilityOutcome};
use crate::streaming::{sequence_problem, ResponseMode, ResponseModeView, StreamingFailure, StreamingResponse};
use crate::text::{concat2, is_blank, is_blank_text, is_present_and_blank, opt_text, owned, str_equal};
use crate::usage::QuotaState;

verus! {

/// Marker for provider authentication ownership in the headless core boundary.
#[derive(Clone, Copy, Debug, PartialEq, Eq, Structural)]
pub struct ProviderAuthBoundary;

/// Message reported for a blank required provider field.
pub open spec fn provider_blank_message(field: Seq<char>) -> Seq<char> {
    field + " must not be blank"@
}

/// Message reported for a present but blank optional provider field.
pub open spec fn provider_blank_optional_message(field: Seq<char>) -> Seq<char> {
    field + " must not be blank when present"@
}

/// Message reported when a request names another provider than the mock's.
pub open spec fn provider_mismatch_message() -> Seq<char> {
    "request provider does not match mock provider"@
}

/// Message reported when a request names another account than the mock's.
pub open spec fn account_mismatch_message() -> Seq<char> {
    "request account does not match mock provider account"@
}

/// The error is an invalid-selection provider error with these identifiers and message.
pub open spec fn is_selection_error(
    e: CoreError,
    provider_id: Seq<char>,
    account_id: Option<Seq<char>>,
    message: Seq<char>,
) -> bool {
    &&& e matches CoreError::ProviderExecution { provider_id: p, account_id: a, failure }
    &&& p@ == provider_id
    &&& opt_text(a) == account_id
    &&& failure matches ProviderExecutionFailure::InvalidSelection { message: m }
    &&& m@ == message
}

/// Problem of a required provider text, as its message.
pub open spec fn required_problem(field: Seq<char>, value: Seq<char>) -> Option<Seq<char>> {
    if is_blank_text(value) {
        Some(provider_blank_message(field))
    } else {
        None
    }
}

/// Problem of an optional provider text, as its message.
pub open spec fn optional_problem(field: Seq<char>, value: Option<String>) -> Option<Seq<char>> {
    match value {
        Some(v) => if is_blank_text(v@) {
            Some(provider_blank_optional_message(field))
        } else {
            None
        },
        None => None,
    }
}

/// A validation result agrees with the provider field problem found, if any.
pub open spec fn reports_provider_problem(r: Result<(), CoreError>, p: Option<Seq<char>>) -> bool {
    match r {
        Ok(()) => p is None,
        Err(e) => p is Some && is_selection_error(e, Seq::empty(), None, p.unwrap()),
    }
}

fn validate_required_text(field: &'static str, value: &str) -> (r: Result<(), CoreError>)
    ensures
        reports_provider_problem(r, required_problem(field@, value@)),
{
    if is_blank(value) {
        return Err(
            CoreError::ProviderExecution {
                provider_id: String::new(),
                account_id: None,
                failure: ProviderExecutionFailure::InvalidSelection {
                    message: concat2(field, " must not be blank"),
                },
            },
        );
    }
    Ok(())
}

fn validate_optional_text(field: &'static str, value: &Option<String>) -> (r: Result<(), CoreError>)
    ensures
        reports_provider_problem(r, optional_problem(field@, *value)),
{
    if is_present_and_blank(value) {
        return Err(
            CoreError::ProviderExecution {
                provider_id: String::new(),
                account_id: None,
                failure: ProviderExecutionFailure::InvalidSelection {
                    message: concat2(field, " must not be blank when present"),
                },
            },
        );
    }
    Ok(())
}

/// Why an execution request is invalid: a provider field, a protocol field, or its reasoning.
pub enum RequestProblem {
    /// A provider or account identifier is blank; the message says which.
    Selection(Seq<char>),
    /// The canonical protocol request is invalid.
    Protocol(ProtocolProblem),
}

/// A validation result agrees with the request problem found, if any.
pub open spec fn reports_request_problem(r: Result<(), CoreError>, p: Option<RequestProblem>) -> bool {
    match r {
        Ok(()) => p is None,
        Err(e) => match p {
            Some(RequestProblem::Selection(m)) => is_selection_error(e, Seq::empty(), None, m),
            Some(RequestProblem::Protocol(pp)) => is_protocol_error(e, pp),
            None => false,
        },
    }
}

/// Canonical request addressed to a selected provider and optional account.
#[derive(Clone, Debug, PartialEq, Eq)]
pub struct ProviderExecutionRequest {
    /// Provider identifier used by routing, execution, and management state.
    pub provider_id: String,
    /// Optional account identifier scoped to the provider.
    pub account_id: Option<String>,
    /// Canonical protocol request to execute.
    pub request: CanonicalProtocolRequest,
    /// Reasoning compatibility outcome evaluated for the selected target.
    pub reasoning_outcome: ReasoningCompatibilityOutcome,
}

/// First validation problem of request parts: provider id, then account id, then the canonical request.
pub open spec fn request_parts_problem(
    provider_id: Seq<char>,
    account_id: Option<String>,
    request: CanonicalProtocolRequest,
) -> Option<RequestProblem> {
    if required_problem("provider_id"@, provider_id) is Some {
        Some(RequestProblem::Selection(required_problem("provider_id"@, provider_id).unwrap()))
    } else if optional_problem("account_id"@, account_id) is Some {
        Some(RequestProblem::Selection(optional_problem("account_id"@, account_id).unwrap()))
    } else if request.problem() is Some {
        Some(RequestProblem::Protocol(request.problem().unwrap()))
    } else {
        None
    }
}

impl ProviderExecutionRequest {
    /// First validation problem: provider id, then account id, then the canonical request.
    pub open spec fn problem(self) -> Option<RequestProblem> {
        request_parts_problem(self.provider_id@, self.account_id, self.request)
    }

    /// Creates a provider execution request for a provider, optional account, and canonical request.
    pub fn new(provider_id: &str, account_id: Option<String>, request: CanonicalProtocolRequest) -> (r:
        Result<Self, CoreError>)
        ensures
            match r {
                Ok(v) => v.provider_id@ == provider_id@ && v.account_id == account_id && v.request
                    == request && v.reasoning_outcome is Absent,
                Err(e) => reports_request_problem(
                    Err(e),
                    request_parts_problem(provider_id@, account_id, request),
                ),
            },
            r is Ok <==> request_parts_problem(provider_id@, account_id, request) is None,
    {
        let value = ProviderExecutionRequest {
            provider_id: owned(provider_id),
            account_id,
            request,
            reasoning_outcome: ReasoningCompatibilityOutcome::Absent,
        };
        value.validate()?;
        Ok(value)
    }

    /// Attaches a validated reasoning compatibility outcome to this request.
    pub fn with_reasoning_outcome(self, outcome: ReasoningCompatibilityOutcome) -> (r: Result<
        Self,
        CoreError,
    >)
        ensures
            match r {
                Ok(v) => v == (ProviderExecutionRequest { reasoning_outcome: outcome, ..self })
                    && outcome.problem() is None,
                Err(e) => outcome.problem() is Some && is_reasoning_error(
                    e,
                    outcome.problem().unwrap(),
                ),
            },
    {
        outcome.validate()?;
        Ok(ProviderExecutionRequest { reasoning_outcome: outcome, ..self })
    }

    /// Validates this value and returns a structured core error on failure.
    pub fn validate(&self) -> (r: Result<(), CoreError>)
        ensures
            reports_request_problem(r, self.problem()),
    {
        validate_required_text("provider_id", self.provider_id.as_str())?;
        validate_optional_text("account_id", &self.account_id)?;
        self.request.validate()
    }
}

/// Provider execution outcome together with provider/account metadata.
#[derive(Clone, Debug, PartialEq, Eq)]
pub struct ProviderExecutionResult {
    /// Execution outcome returned by the provider boundary.
    pub outcome: ProviderExecutionOutcome,
    /// Provider and account metadata observed during execution.
    pub metadata: ProviderExecutionMetadata,
}

/// Model of an execution result.
pub struct ProviderExecutionResultView {
    /// Model of the outcome.
    pub outcome: ProviderOutcomeView,
    /// Model of the metadata.
    pub metadata: ProviderExecutionMetadataView,
}

impl View for ProviderExecutionResult {
    type V = ProviderExecutionResultView;

    open spec fn view(&self) -> ProviderExecutionResultView {
        ProviderExecutionResultView { outcome: self.outcome@, metadata: self.metadata@ }
    }
}

/// Successful, degraded, or quota-limited provider execution state.
#[derive(Clone, Debug, PartialEq, Eq)]
pub enum ProviderExecutionOutcome {
    /// Provider execution completed successfully.
    Success(ResponseMode),
    /// Provider execution completed with reduced quality or capability.
    Degraded {
        /// Complete or streaming response mode for this outcome.
        response_mode: ResponseMode,
        /// Reasons explaining degraded state.
        reasons: Vec<DegradedReason>,
    },
    /// Provider execution is limited by quota state.
    QuotaLimited {
        /// Complete or streaming response mode for this outcome.
        response_mode: ResponseMode,
        /// Quota state associated with this account or outcome.
        quota_state: QuotaState,
    },
    /// Provider execution completed and the provider advertises streaming support.
    StreamingCapable {
        /// Complete or streaming response mode for this outcome.
        response_mode: ResponseMode,
    },
}

/// Model of a provider execution outcome.
pub enum ProviderOutcomeView {
    /// Successful execution.
    Success(ResponseModeView),
    /// Degraded execution with its reasons.
    Degraded { response_mode: ResponseModeView, reasons: Seq<DegradedReasonView> },
    /// Quota-limited execution.
    QuotaLimited { response_mode: ResponseModeView, quota_state: QuotaState },
    /// Successful execution by a streaming-capable provider.
    StreamingCapable { response_mode: ResponseModeView },
}

/// Models of a sequence of degraded reasons.
pub open spec fn reasons_view(reasons: Seq<DegradedReason>) -> Seq<DegradedReasonView> {
    reasons.map_values(|d: DegradedReason| d@)
}

impl View for ProviderExecutionOutcome {
    type V = ProviderOutcomeView;

    open spec fn view(&self) -> ProviderOutcomeView {
        match self {
            ProviderExecutionOutcome::Success(m) => ProviderOutcomeView::Success(m@),
            ProviderExecutionOutcome::Degraded { response_mode, reasons } => {
                ProviderOutcomeView::Degraded {
                    response_mode: response_mode@,
                    reasons: reasons_view(reasons@),
                }
            },
            ProviderExecutionOutcome::QuotaLimited { response_mode, quota_state } => {
                ProviderOutcomeView::QuotaLimited { response_mode: response_mode@, quota_state: *quota_state }
            },
            ProviderExecutionOutcome::StreamingCapable { response_mode } => {
                ProviderOutcomeView::StreamingCapable { response_mode: response_mode@ }
            },
        }
    }
}

impl ProviderExecutionOutcome {
    /// The response mode carried by every outcome.
    pub open spec fn mode_of(self) -> ResponseMode {
        match self {
            ProviderExecutionOutcome::Success(m) => m,
            ProviderExecutionOutcome::Degraded { response_mode, .. } => response_mode,
            ProviderExecutionOutcome::QuotaLimited { response_mode, .. } => response_mode,
            ProviderExecutionOutcome::StreamingCapable { response_mode } => response_mode,
        }
    }

    /// Returns the response mode carried by this provider execution outcome.
    pub fn response_mode(&self) -> (r: &ResponseMode)
        ensures
            *r == self.mode_of(),
    {
        match self {
            ProviderExecutionOutcome::Success(m) => m,
            ProviderExecutionOutcome::Degraded { response_mode, .. } => response_mode,
            ProviderExecutionOutcome::QuotaLimited { response_mode, .. } => response_mode,
            ProviderExecutionOutcome::StreamingCapable { response_mode } => response_mode,
        }
    }

    /// Returns the complete response when this mode is complete.
    pub fn complete_response(&self) -> (r: Option<&CanonicalProtocolResponse>)
        ensures
            match self.mode_of() {
                ResponseMode::Complete(response) => r == Some(&response),
                ResponseMode::Streaming(_) => r is None,
            },
    {
        self.response_mode().complete_response()
    }

    /// Returns the complete response of an outcome whose mode is complete.
    pub fn response(&self) -> (r: &CanonicalProtocolResponse)
        requires
            self.mode_of() is Complete,
        ensures
            ResponseMode::Complete(*r) == self.mode_of(),
    {
        match self.response_mode() {
            ResponseMode::Complete(response) => response,
            ResponseMode::Streaming(_) => vstd::pervasive::unreached(),
        }
    }
}

/// Provider and account summary attached to an execution result.
#[derive(Clone, Debug, PartialEq, Eq)]
pub struct ProviderExecutionMetadata {
    /// Provider summary associated with this value.
    pub provider: ProviderSummary,
    /// Optional account summary associated with this value.
    pub account: Option<AccountSummary>,
    /// Reasoning compatibility outcome carried from the request.
    pub reasoning_outcome: ReasoningCompatibilityOutcome,
}

/// Model of execution metadata.
pub struct ProviderExecutionMetadataView {
    /// Model of the provider summary.
    pub provider: ProviderSummaryView,
    /// Model of the account summary, when any.
    pub account: Option<AccountSummaryView>,
    /// Reasoning outcome carried from the request.
    pub reasoning_outcome: ReasoningCompatibilityOutcome,
}

impl View for ProviderExecutionMetadata {
    type V = ProviderExecutionMetadataView;

    open spec fn view(&self) -> ProviderExecutionMetadataView {
        ProviderExecutionMetadataView {
            provider: self.provider@,
            account: match self.account {
                Some(a) => Some(a@),
                None => None,
            },
            reasoning_outcome: self.reasoning_outcome,
        }
    }
}

/// Matchable failure returned by provider selection or execution.
#[derive(Debug, PartialEq, Eq)]
pub enum ProviderExecutionFailure {
    /// Requested provider or account did not match execution state.
    InvalidSelection {
        /// Human-readable diagnostic message.
        message: String,
    },
    /// Provider execution failed with a stable code and message.
    FailedOutcome {
        /// Stable code for this failure or response.
        code: String,
        /// Human-readable diagnostic message.
        message: String,
    },
}

impl Clone for ProviderExecutionFailure {
    fn clone(&self) -> (r: Self)
        ensures
            r == *self,
    {
        match self {
            ProviderExecutionFailure::InvalidSelection { message } => {
                ProviderExecutionFailure::InvalidSelection { message: message.clone() }
            },
            ProviderExecutionFailure::FailedOutcome { code, message } => {
                ProviderExecutionFailure::FailedOutcome { code: code.clone(), message: message.clone() }
            },
        }
    }
}

impl ProviderExecutionFailure {
    /// The human-readable message of this failure.
    pub open spec fn message_spec(self) -> Seq<char> {
        match self {
            ProviderExecutionFailure::InvalidSelection { message } => message@,
            ProviderExecutionFailure::FailedOutcome { message, .. } => message@,
        }
    }

    /// Creates a failed provider execution outcome.
    pub fn failed_outcome(code: &str, message: &str) -> (r: Self)
        ensures
            r matches ProviderExecutionFailure::FailedOutcome { code: c, message: m } && c@ == code@
                && m@ == message@,
    {
        ProviderExecutionFailure::FailedOutcome { code: owned(code), message: owned(message) }
    }

    /// Returns a human-readable message for this diagnostic.
    pub fn message(&self) -> (r: &str)
        ensures
            r@ == self.message_spec(),
    {
        match self {
            ProviderExecutionFailure::InvalidSelection { message } => message.as_str(),
            ProviderExecutionFailure::FailedOutcome { message, .. } => message.as_str(),
        }
    }
}

/// Provider execution backend used by routing and proxy code.
pub trait ProviderExecutor {
    /// Whether `r` is an answer this executor may give to `request`; an executor that does
    /// not say so promises nothing of its answers.
    open spec fn outcome_for(
        &self,
        request: ProviderExecutionRequest,
        r: Result<ProviderExecutionResult, CoreError>,
    ) -> bool {
        true
    }

    /// Executes this boundary operation and returns structured core errors on failure.
    fn execute(&self, request: ProviderExecutionRequest) -> (r: Result<ProviderExecutionResult, CoreError>)
        ensures
            self.outcome_for(request, r),
    ;
}

/// Deterministic provider executor for tests and headless examples.
#[derive(Clone, Debug, PartialEq, Eq)]
pub struct MockProviderHarness {
    provider_id: String,
    display_name: String,
    protocol_family: ProtocolFamily,
    auth_method: AuthMethodCategory,
    routing_eligible: bool,
    account: Option<MockProviderAccount>,
    outcome: MockProviderOutcome,
}

/// Model of a mock provider harness.
pub struct MockProviderHarnessView {
    /// Provider identifier.
    pub provider_id: Seq<char>,
    /// Display name.
    pub display_name: Seq<char>,
    /// Advertised protocol family.
    pub protocol_family: ProtocolFamily,
    /// Advertised auth method.
    pub auth_method: AuthMethodCategory,
    /// Whether routing may select this provider.
    pub routing_eligible: bool,
    /// Configured account, when any.
    pub account: Option<MockProviderAccount>,
    /// Deterministic outcome.
    pub outcome: MockProviderOutcome,
}

impl View for MockProviderHarness {
    type V = MockProviderHarnessView;

    closed spec fn view(&self) -> MockProviderHarnessView {
        MockProviderHarnessView {
            provider_id: self.provider_id@,
            display_name: self.display_name@,
            protocol_family: self.protocol_family,
            auth_method: self.auth_method,
            routing_eligible: self.routing_eligible,
            account: self.account,
            outcome: self.outcome,
        }
    }
}

/// Validation problem of a harness: provider id, display name, account, then outcome.
pub open spec fn harness_problem(h: MockProviderHarnessView) -> Option<Seq<char>> {
    if required_problem("provider_id"@, h.provider_id) is Some {
        required_problem("provider_id"@, h.provider_id)
    } else if required_problem("display_name"@, h.display_name) is Some {
        required_problem("display_name"@, h.display_name)
    } else if h.account is Some && h.account.unwrap().problem() is Some {
        h.account.unwrap().problem()
    } else {
        None
    }
}

/// A harness validation result: a provider field problem, or else the outcome's stream problem.
pub open spec fn reports_harness_problem(r: Result<(), CoreError>, h: MockProviderHarnessView) -> bool {
    if harness_problem(h) is Some {
        r is Err && is_selection_error(r->Err_0, Seq::empty(), None, harness_problem(h).unwrap())
    } else {
        match h.outcome.stream_problem() {
            Some(p) => r == Err::<(), CoreError>(
                CoreError::Streaming { failure: StreamingFailure::InvalidSequence { reason: p } },
            ),
            None => r is Ok,
        }
    }
}

/// Account summary a harness reports for its account under its outcome.
pub open spec fn account_summary_of(
    account: MockProviderAccount,
    outcome: MockProviderOutcome,
) -> AccountSummaryView {
    AccountSummaryView {
        account_id: account.account_id@,
        display_name: account.display_name@,
        auth_state: account.auth_state,
        quota_state: match outcome.quota_state_spec() {
            Some(q) => q,
            None => account.quota_state,
        },
        last_checked: account.last_checked,
        degraded_reasons: reasons_view(account.degraded_reasons@) + outcome.degraded_reasons_spec(),
    }
}

impl MockProviderHarnessView {
    /// Account summary of this harness, when it has an account.
    pub open spec fn account_summary(self) -> Option<AccountSummaryView> {
        match self.account {
            Some(a) => Some(account_summary_of(a, self.outcome)),
            None => None,
        }
    }

    /// Provider summary of this harness.
    pub open spec fn provider_summary(self) -> ProviderSummaryView {
        ProviderSummaryView {
            provider_id: self.provider_id,
            display_name: self.display_name,
            capabilities: seq![
                ProviderCapability {
                    protocol_family: self.protocol_family,
                    supports_streaming: self.outcome.supports_streaming_spec(),
                    auth_method: self.auth_method,
                    routing_eligible: self.routing_eligible,
                },
            ],
            accounts: match self.account_summary() {
                Some(a) => seq![a],
                None => Seq::empty(),
            },
            degraded_reasons: self.outcome.degraded_reasons_spec(),
        }
    }

    /// Whether a request names this harness's provider.
    pub open spec fn provider_matches(self, request: ProviderExecutionRequest) -> bool {
        request.provider_id@ == self.provider_id
    }

    /// Whether a request names this harness's account, or no account where it has none.
    pub open spec fn account_matches(self, request: ProviderExecutionRequest) -> bool {
        opt_text(request.account_id) == match self.account {
            Some(a) => Some(a.account_id@),
            None => None::<Seq<char>>,
        }
    }
}

impl MockProviderHarness {
    /// Creates a mock provider harness for deterministic provider execution tests.
    pub fn new(
        provider_id: &str,
        display_name: &str,
        protocol_family: ProtocolFamily,
        auth_method: AuthMethodCategory,
        outcome: MockProviderOutcome,
    ) -> (r: Result<Self, CoreError>)
        ensures
            ({
                let h = MockProviderHarnessView {
                    provider_id: provider_id@,
                    display_name: display_name@,
                    protocol_family,
                    auth_method,
                    routing_eligible: true,
                    account: None,
                    outcome,
                };
                &&& reports_harness_problem(
                    match r {
                        Ok(_) => Ok(()),
                        Err(e) => Err(e),
                    },
                    h,
                )
                &&& r is Ok ==> r->Ok_0@ == h
            }),
    {
        let harness = MockProviderHarness {
            provider_id: owned(provider_id),
            display_name: owned(display_name),
            protocol_family,
            auth_method,
            routing_eligible: true,
            account: None,
            outcome,
        };
        harness.validate()?;
        Ok(harness)
    }

    /// Attaches an account to the mock provider harness.
    pub fn with_account(self, account: MockProviderAccount) -> (r: Self)
        ensures
            r@ == (MockProviderHarnessView { account: Some(account), ..self@ }),
    {
        MockProviderHarness { account: Some(account), ..self }
    }

    /// Sets whether the mock provider is eligible for routing.
    pub fn with_routing_eligible(self, routing_eligible: bool) -> (r: Self)
        ensures
            r@ == (MockProviderHarnessView { routing_eligible, ..self@ }),
    {
        MockProviderHarness { routing_eligible, ..self }
    }

    /// Returns provider summary state for this mock provider.
    pub fn provider_summary(&self) -> (r: ProviderSummary)
        ensures
            r@ == self@.provider_summary(),
    {
        let account = self.account_summary();
        let mut accounts: Vec<AccountSummary> = Vec::new();
        match account {
            Some(a) => accounts.push(a),
            None => {},
        }
        let capabilities = vec![
            ProviderCapability {
                protocol_family: self.protocol_family,
                supports_streaming: self.outcome.supports_streaming(),
                auth_method: self.auth_method,
                routing_eligible: self.routing_eligible,
            },
        ];
        let r = ProviderSummary {
            provider_id: self.provider_id.clone(),
            display_name: self.display_name.clone(),
            capabilities,
            accounts,
            degraded_reasons: self.outcome.degraded_reasons(),
        };
        assert(r@.capabilities =~= self@.provider_summary().capabilities);
        assert(r@.accounts =~= self@.provider_summary().accounts);
        r
    }

    /// Returns account summary state for this mock provider, when configured.
    pub fn account_summary(&self) -> (r: Option<AccountSummary>)
        ensures
            match r {
                Some(a) => self@.account_summary() == Some(a@),
                None => self@.account_summary() is None,
            },
    {
        match &self.account {
            Some(account) => Some(account.summary(&self.outcome)),
            None => None,
        }
    }

    fn validate(&self) -> (r: Result<(), CoreError>)
        ensures
            reports_harness_problem(r, self@),
    {
        validate_required_text("provider_id", self.provider_id.as_str())?;
        validate_required_text("display_name", self.display_name.as_str())?;
        match &self.account {
            Some(account) => account.validate()?,
            None => {},
        }
        self.outcome.validate()
    }

    /// Executes a request against the deterministic outcome: the request must be valid and
    /// name this provider and its account; a failed outcome is reported as an error.
    pub fn execute(&self, request: ProviderExecutionRequest) -> (r: Result<
        ProviderExecutionResult,
        CoreError,
    >)
        ensures
            self.outcome_for(request, r),
    {
        request.validate()?;
        if !str_equal(request.provider_id.as_str(), self.provider_id.as_str()) {
            return Err(
                CoreError::ProviderExecution {
                    provider_id: request.provider_id,
                    account_id: request.account_id,
                    failure: ProviderExecutionFailure::InvalidSelection {
                        message: owned("request provider does not match mock provider"),
                    },
                },
            );
        }
        let account_matches = match (&request.account_id, &self.account) {
            (Some(requested), Some(account)) => str_equal(requested.as_str(), account.account_id.as_str()),
            (None, None) => true,
            _ => false,
        };
        if !account_matches {
            return Err(
                CoreError::ProviderExecution {
                    provider_id: request.provider_id,
                    account_id: request.account_id,
                    failure: ProviderExecutionFailure::InvalidSelection {
                        message: owned("request account does not match mock provider account"),
                    },
                },
            );
        }
        let outcome = match &self.outcome {
            MockProviderOutcome::Success(response) => ProviderExecutionOutcome::Success(
                ResponseMode::complete(response.clone()),
            ),
            MockProviderOutcome::SuccessWithMode { response_mode, .. } => {
                ProviderExecutionOutcome::Success(response_mode.clone())
            },
            MockProviderOutcome::Degraded { response, reasons } => ProviderExecutionOutcome::Degraded {
                response_mode: ResponseMode::complete(response.clone()),
                reasons: clone_reasons(reasons),
            },
            MockProviderOutcome::DegradedWithMode { response_mode, reasons, .. } => {
                ProviderExecutionOutcome::Degraded {
                    response_mode: response_mode.clone(),
                    reasons: clone_reasons(reasons),
                }
            },
            MockProviderOutcome::QuotaLimited { response, quota_state } => {
                ProviderExecutionOutcome::QuotaLimited {
                    response_mode: ResponseMode::complete(response.clone()),
                    quota_state: quota_state.clone(),
                }
            },
            MockProviderOutcome::QuotaLimitedWithMode { response_mode, quota_state, .. } => {
                ProviderExecutionOutcome::QuotaLimited {
                    response_mode: response_mode.clone(),
                    quota_state: quota_state.clone(),
                }
            },
            MockProviderOutcome::Streaming(response) => ProviderExecutionOutcome::Success(
                ResponseMode::Streaming(response.clone()),
            ),
            MockProviderOutcome::StreamingCapable { response } => {
                ProviderExecutionOutcome::StreamingCapable {
                    response_mode: ResponseMode::complete(response.clone()),
                }
            },
            MockProviderOutcome::Failed(failure) => {
                return Err(
                    CoreError::ProviderExecution {
                        provider_id: request.provider_id,
                        account_id: request.account_id,
                        failure: failure.clone(),
                    },
                );
            },
        };
        Ok(
            ProviderExecutionResult {
                outcome,
                metadata: ProviderExecutionMetadata {
                    provider: self.provider_summary(),
                    account: self.account_summary(),
                    reasoning_outcome: request.reasoning_outcome,
                },
            },
        )
    }
}

impl ProviderExecutor for MockProviderHarness {
    /// The request must be valid and name this provider and its account; then a failed
    /// outcome is its execution error, and any other outcome is returned with this
    /// harness's provider and account summaries.
    open spec fn outcome_for(
        &self,
        request: ProviderExecutionRequest,
        r: Result<ProviderExecutionResult, CoreError>,
    ) -> bool {
        if request.problem() is Some {
            reports_request_problem(
                match r {
                    Ok(_) => Ok(()),
                    Err(e) => Err(e),
                },
                request.problem(),
            )
        } else if !self@.provider_matches(request) {
            r is Err && is_selection_error(
                r->Err_0,
                request.provider_id@,
                opt_text(request.account_id),
                provider_mismatch_message(),
            )
        } else if !self@.account_matches(request) {
            r is Err && is_selection_error(
                r->Err_0,
                request.provider_id@,
                opt_text(request.account_id),
                account_mismatch_message(),
            )
        } else {
            match self@.outcome {
                MockProviderOutcome::Failed(failure) => r == Err::<ProviderExecutionResult, CoreError>(
                    CoreError::ProviderExecution {
                        provider_id: request.provider_id,
                        account_id: request.account_id,
                        failure,
                    },
                ),
                _ => r is Ok && r->Ok_0@ == (ProviderExecutionResultView {
                    outcome: self@.outcome.execution_view(),
                    metadata: ProviderExecutionMetadataView {
                        provider: self@.provider_summary(),
                        account: self@.account_summary(),
                        reasoning_outcome: request.reasoning_outcome,
                    },
                }),
            }
        }
    }

    fn execute(&self, request: ProviderExecutionRequest) -> (r: Result<ProviderExecutionResult, CoreError>) {
        MockProviderHarness::execute(self, request)
    }
}

/// The mock provider answers a request with a result only when the request names its
/// provider and the same account that it holds: no account on either side, or accounts with
/// the same identifier. A valid request for its provider that names another account, names
/// none while it holds one, or names one while it holds none, fails with the
/// account-mismatch selection error.
pub proof fn law_mock_executes_only_for_its_account(
    harness: MockProviderHarness,
    request: ProviderExecutionRequest,
    r: Result<ProviderExecutionResult, CoreError>,
)
    requires
        harness.outcome_for(request, r),
    ensures
        r is Ok ==> request.provider_id@ == harness@.provider_id && match (
            request.account_id,
            harness@.account,
        ) {
            (Some(requested), Some(account)) => requested@ == account.account_id@,
            (None, None) => true,
            _ => false,
        },
        request.problem() is None && request.provider_id@ == harness@.provider_id && !match (
            request.account_id,
            harness@.account,
        ) {
            (Some(requested), Some(account)) => requested@ == account.account_id@,
            (None, None) => true,
            _ => false,
        } ==> r is Err && is_selection_error(
            r->Err_0,
            request.provider_id@,
            opt_text(request.account_id),
            account_mismatch_message(),
        ),
{
}

fn clone_reasons(reasons: &Vec<DegradedReason>) -> (r: Vec<DegradedReason>)
    ensures
        r@ == reasons@,
{
    let mut out: Vec<DegradedReason> = Vec::new();
    let mut i: usize = 0;
    while i < reasons.len()
        invariant
            i <= reasons.len(),
            out@ == reasons@.subrange(0, i as int),
        decreases reasons.len() - i,
    {
        out.push(reasons[i].clone());
        i = i + 1;
        assert(out@ =~= reasons@.subrange(0, i as int));
    }
    assert(reasons@.subrange(0, reasons.len() as int) =~= reasons@);
    out
}

/// Configurable mock account state used by the mock provider harness.
#[derive(Clone, Debug, PartialEq, Eq)]
pub struct MockProviderAccount {
    /// Account identifier scoped to the provider.
    pub account_id: String,
    /// Human-readable name for provider or account display.
    pub display_name: String,
    /// Current authentication state for this account.
    pub auth_state: AuthState,
    /// Quota state associated with this account or outcome.
    pub quota_state: QuotaState,
    /// Optional freshness metadata for account health.
    pub last_checked: Option<LastCheckedMetadata>,
    /// Reasons this provider or account is degraded.
    pub degraded_reasons: Vec<DegradedReason>,
}

impl MockProviderAccount {
    /// Validation problem of this account: its identifier, then its display name.
    pub open spec fn problem(self) -> Option<Seq<char>> {
        if required_problem("account_id"@, self.account_id@) is Some {
            required_problem("account_id"@, self.account_id@)
        } else {
            required_problem("account_display_name"@, self.display_name@)
        }
    }

    /// Creates a mock provider account with authenticated, unknown-quota defaults.
    pub fn new(account_id: &str, display_name: &str) -> (r: Self)
        ensures
            r.account_id@ == account_id@,
            r.display_name@ == display_name@,
            r.auth_state == AuthState::Authenticated,
            r.quota_state == QuotaState::Unknown,
            r.last_checked is None,
            r.degraded_reasons@ == Seq::<DegradedReason>::empty(),
    {
        MockProviderAccount {
            account_id: owned(account_id),
            display_name: owned(display_name),
            auth_state: AuthState::Authenticated,
            quota_state: QuotaState::Unknown,
            last_checked: None,
            degraded_reasons: Vec::new(),
        }
    }

    /// Sets mock account quota state.
    pub fn with_quota_state(self, quota_state: QuotaState) -> (r: Self)
        ensures
            r == (MockProviderAccount { quota_state, ..self }),
    {
        MockProviderAccount { quota_state, ..self }
    }

    /// Sets mock account authentication state.
    pub fn with_auth_state(self, auth_state: AuthState) -> (r: Self)
        ensures
            r == (MockProviderAccount { auth_state, ..self }),
    {
        MockProviderAccount { auth_state, ..self }
    }

    /// Sets mock account health-check freshness metadata.
    pub fn with_last_checked(self, last_checked: LastCheckedMetadata) -> (r: Self)
        ensures
            r == (MockProviderAccount { last_checked: Some(last_checked), ..self }),
    {
        MockProviderAccount { last_checked: Some(last_checked), ..self }
    }

    /// Adds a degraded reason to the mock account.
    pub fn with_degraded_reason(self, degraded_reason: DegradedReason) -> (r: Self)
        ensures
            r.account_id == self.account_id,
            r.display_name == self.display_name,
            r.auth_state == self.auth_state,
            r.quota_state == self.quota_state,
            r.last_checked == self.last_checked,
            r.degraded_reasons@ == self.degraded_reasons@.push(degraded_reason),
    {
        let mut account = self;
        account.degraded_reasons.push(degraded_reason);
        account
    }

    fn summary(&self, outcome: &MockProviderOutcome) -> (r: AccountSummary)
        ensures
            r@ == account_summary_of(*self, *outcome),
    {
        let mut degraded_reasons = clone_reasons(&self.degraded_reasons);
        let mut extra = outcome.degraded_reasons();
        let ghost own = degraded_reasons@;
        let ghost more = extra@;
        degraded_reasons.append(&mut extra);
        assert(reasons_view(degraded_reasons@) =~= reasons_view(own) + reasons_view(more));
        let quota_state = match outcome.quota_state() {
            Some(q) => q,
            None => self.quota_state.clone(),
        };
        AccountSummary {
            account_id: self.account_id.clone(),
            display_name: self.display_name.clone(),
            auth_state: self.auth_state.clone(),
            quota_state,
            last_checked: self.last_checked,
            degraded_reasons,
        }
    }

    fn validate(&self) -> (r: Result<(), CoreError>)
        ensures
            reports_provider_problem(r, self.problem()),
    {
        validate_required_text("account_id", self.account_id.as_str())?;
        validate_required_text("account_display_name", self.display_name.as_str())
    }
}

/// Deterministic outcome emitted by a mock provider harness.
#[derive(Clone, Debug, PartialEq, Eq)]
pub enum MockProviderOutcome {
    /// Provider execution completed successfully.
    Success(CanonicalProtocolResponse),
    /// Mock outcome succeeds with an explicit response mode.
    SuccessWithMode {
        /// Complete or streaming response mode for this outcome.
        response_mode: ResponseMode,
        /// Whether this capability or outcome supports streaming responses.
        supports_streaming: bool,
    },
    /// Mock provider returns a degraded response with explicit reasons.
    Degraded {
        /// Canonical response associated with this outcome.
        response: CanonicalProtocolResponse,
        /// Reasons explaining degraded state.
        reasons: Vec<DegradedReason>,
    },
    /// Mock outcome is degraded with an explicit response mode.
    DegradedWithMode {
        /// Complete or streaming response mode for this outcome.
        response_mode: ResponseMode,
        /// Whether this outcome advertises streaming support.
        supports_streaming: bool,
        /// Reasons explaining degraded state.
        reasons: Vec<DegradedReason>,
    },
    /// Provider execution is limited by quota state.
    QuotaLimited {
        /// Canonical response associated with this outcome.
        response: CanonicalProtocolResponse,
        /// Quota state associated with this account or outcome.
        quota_state: QuotaState,
    },
    /// Mock outcome is quota-limited with an explicit response mode.
    QuotaLimitedWithMode {
        /// Complete or streaming response mode for this outcome.
        response_mode: ResponseMode,
        /// Whether this outcome advertises streaming support.
        supports_streaming: bool,
        /// Quota state associated with this account or outcome.
        quota_state: QuotaState,
    },
    /// Provider execution returns a streaming response.
    Streaming(StreamingResponse),
    /// Provider returns a complete response and advertises streaming support.
    StreamingCapable {
        /// Canonical response associated with this outcome.
        response: CanonicalProtocolResponse,
    },
    /// Operation or account state failed with a reason.
    Failed(ProviderExecutionFailure),
}

/// The degraded reason a failed mock outcome reports.
pub open spec fn failure_reason(failure: ProviderExecutionFailure) -> DegradedReasonView {
    DegradedReasonView { component: "provider_execution"@, message: failure.message_spec() }
}

/// The stream sequence problem of a response mode, if it is streaming.
pub open spec fn mode_stream_problem(mode: ResponseMode) -> Option<crate::streaming::InvalidStreamSequence> {
    match mode {
        ResponseMode::Streaming(s) => sequence_problem(s.events_spec()),
        ResponseMode::Complete(_) => None,
    }
}

impl MockProviderOutcome {
    /// Whether the provider capability built from this outcome advertises streaming.
    pub open spec fn supports_streaming_spec(self) -> bool {
        match self {
            MockProviderOutcome::SuccessWithMode { response_mode, supports_streaming } => supports_streaming
                || response_mode is Streaming,
            MockProviderOutcome::DegradedWithMode { response_mode, supports_streaming, .. } => supports_streaming
                || response_mode is Streaming,
            MockProviderOutcome::QuotaLimitedWithMode { response_mode, supports_streaming, .. } => supports_streaming
                || response_mode is Streaming,
            MockProviderOutcome::Streaming(_) => true,
            MockProviderOutcome::StreamingCapable { .. } => true,
            _ => false,
        }
    }

    /// The degraded reasons this outcome reports.
    pub open spec fn degraded_reasons_spec(self) -> Seq<DegradedReasonView> {
        match self {
            MockProviderOutcome::Degraded { reasons, .. } => reasons_view(reasons@),
            MockProviderOutcome::DegradedWithMode { reasons, .. } => reasons_view(reasons@),
            MockProviderOutcome::Failed(failure) => seq![failure_reason(failure)],
            _ => Seq::empty(),
        }
    }

    /// The quota state this outcome imposes on the account, if any.
    pub open spec fn quota_state_spec(self) -> Option<QuotaState> {
        match self {
            MockProviderOutcome::QuotaLimited { quota_state, .. } => Some(quota_state),
            MockProviderOutcome::QuotaLimitedWithMode { quota_state, .. } => Some(quota_state),
            _ => None,
        }
    }

    /// The stream sequence problem of a streaming response carried by this outcome, if any.
    pub open spec fn stream_problem(self) -> Option<crate::streaming::InvalidStreamSequence> {
        match self {
            MockProviderOutcome::SuccessWithMode { response_mode, .. } => mode_stream_problem(response_mode),
            MockProviderOutcome::DegradedWithMode { response_mode, .. } => mode_stream_problem(response_mode),
            MockProviderOutcome::QuotaLimitedWithMode { response_mode, .. } => mode_stream_problem(
                response_mode,
            ),
            MockProviderOutcome::Streaming(s) => sequence_problem(s.events_spec()),
            _ => None,
        }
    }

    /// The execution outcome this mock outcome produces (failed outcomes produce none).
    pub open spec fn execution_view(self) -> ProviderOutcomeView {
        match self {
            MockProviderOutcome::Success(response) => ProviderOutcomeView::Success(
                ResponseModeView::Complete(response@),
            ),
            MockProviderOutcome::SuccessWithMode { response_mode, .. } => ProviderOutcomeView::Success(
                response_mode@,
            ),
            MockProviderOutcome::Degraded { response, reasons } => ProviderOutcomeView::Degraded {
                response_mode: ResponseModeView::Complete(response@),
                reasons: reasons_view(reasons@),
            },
            MockProviderOutcome::DegradedWithMode { response_mode, reasons, .. } => {
                ProviderOutcomeView::Degraded {
                    response_mode: response_mode@,
                    reasons: reasons_view(reasons@),
                }
            },
            MockProviderOutcome::QuotaLimited { response, quota_state } => {
                ProviderOutcomeView::QuotaLimited {
                    response_mode: ResponseModeView::Complete(response@),
                    quota_state,
                }
            },
            MockProviderOutcome::QuotaLimitedWithMode { response_mode, quota_state, .. } => {
                ProviderOutcomeView::QuotaLimited { response_mode: response_mode@, quota_state }
            },
            MockProviderOutcome::Streaming(s) => ProviderOutcomeView::Success(
                ResponseModeView::Streaming(s@),
            ),
            MockProviderOutcome::StreamingCapable { response } => {
                ProviderOutcomeView::StreamingCapable {
                    response_mode: ResponseModeView::Complete(response@),
                }
            },
            MockProviderOutcome::Failed(_) => ProviderOutcomeView::Success(
                ResponseModeView::Streaming(Seq::empty()),
            ),
        }
    }

    /// Creates a complete mock outcome that advertises streaming capability.
    pub fn complete_streaming_capable(response: CanonicalProtocolResponse) -> (r: Self)
        ensures
            r == (MockProviderOutcome::SuccessWithMode {
                response_mode: ResponseMode::Complete(response),
                supports_streaming: true,
            }),
    {
        MockProviderOutcome::SuccessWithMode {
            response_mode: ResponseMode::complete(response),
            supports_streaming: true,
        }
    }

    /// Creates a streaming mock outcome.
    pub fn streaming(response: StreamingResponse) -> (r: Self)
        ensures
            r == MockProviderOutcome::Streaming(response),
    {
        MockProviderOutcome::Streaming(response)
    }

    fn supports_streaming(&self) -> (r: bool)
        ensures
            r == self.supports_streaming_spec(),
    {
        match self {
            MockProviderOutcome::SuccessWithMode { supports_streaming, response_mode } => {
                *supports_streaming || response_mode.streaming_response().is_some()
            },
            MockProviderOutcome::DegradedWithMode { response_mode, supports_streaming, .. } => {
                *supports_streaming || response_mode.streaming_response().is_some()
            },
            MockProviderOutcome::QuotaLimitedWithMode { response_mode, supports_streaming, .. } => {
                *supports_streaming || response_mode.streaming_response().is_some()
            },
            MockProviderOutcome::Streaming(_) => true,
            MockProviderOutcome::StreamingCapable { .. } => true,
            _ => false,
        }
    }

    fn degraded_reasons(&self) -> (r: Vec<DegradedReason>)
        ensures
            reasons_view(r@) == self.degraded_reasons_spec(),
    {
        match self {
            MockProviderOutcome::Degraded { reasons, .. } => clone_reasons(reasons),
            MockProviderOutcome::DegradedWithMode { reasons, .. } => clone_reasons(reasons),
            MockProviderOutcome::Failed(failure) => {
                let r = vec![
                    DegradedReason {
                        component: owned("provider_execution"),
                        message: owned(failure.message()),
                    },
                ];
                assert(reasons_view(r@) =~= self.degraded_reasons_spec());
                r
            },
            _ => {
                let r: Vec<DegradedReason> = Vec::new();
                assert(reasons_view(r@) =~= self.degraded_reasons_spec());
                r
            },
        }
    }

    fn quota_state(&self) -> (r: Option<QuotaState>)
        ensures
            r == self.quota_state_spec(),
    {
        match self {
            MockProviderOutcome::QuotaLimited { quota_state, .. } => Some(quota_state.clone()),
            MockProviderOutcome::QuotaLimitedWithMode { quota_state, .. } => Some(quota_state.clone()),
            _ => None,
        }
    }

    fn validate(&self) -> (r: Result<(), CoreError>)
        ensures
            match self.stream_problem() {
                Some(p) => r == Err::<(), CoreError>(
                    CoreError::Streaming { failure: StreamingFailure::InvalidSequence { reason: p } },
                ),
                None => r is Ok,
            },
    {
        match self {
            MockProviderOutcome::SuccessWithMode { response_mode, .. } => validate_mode(response_mode),
            MockProviderOutcome::DegradedWithMode { response_mode, .. } => validate_mode(response_mode),
            MockProviderOutcome::QuotaLimitedWithMode { response_mode, .. } => validate_mode(response_mode),
            MockProviderOutcome::Streaming(response) => response.validate(),
            _ => Ok(()),
        }
    }
}

fn validate_mode(mode: &ResponseMode) -> (r: Result<(), CoreError>)
    ensures
        match mode_stream_problem(*mode) {
            Some(p) => r == Err::<(), CoreError>(
                CoreError::Streaming { failure: StreamingFailure::InvalidSequence { reason: p } },
            ),
            None => r is Ok,
        },
{
    match mode {
        ResponseMode::Streaming(response) => response.validate(),
        ResponseMode::Complete(_) => Ok(()),
    }
}

/// Management-visible provider capability and account summary.
#[derive(Clone, Debug, PartialEq, Eq)]
pub struct ProviderSummary {
    /// Provider identifier used by routing, execution, and management state.
    pub provider_id: String,
    /// Human-readable name for provider or account display.
    pub display_name: String,
    /// Capabilities advertised by this provider.
    pub capabilities: Vec<ProviderCapability>,
    /// Account summaries or declarations for this provider.
    pub accounts: Vec<AccountSummary>,
    /// Reasons this provider or account is degraded.
    pub degraded_reasons: Vec<DegradedReason>,
}

/// Model of a provider summary.
pub struct ProviderSummaryView {
    /// Provider identifier.
    pub provider_id: Seq<char>,
    /// Display name.
    pub display_name: Seq<char>,
    /// Advertised capabilities.
    pub capabilities: Seq<ProviderCapability>,
    /// Models of the account summaries.
    pub accounts: Seq<AccountSummaryView>,
    /// Models of the degraded reasons.
    pub degraded_reasons: Seq<DegradedReasonView>,
}

impl View for ProviderSummary {
    type V = ProviderSummaryView;

    open spec fn view(&self) -> ProviderSummaryView {
        ProviderSummaryView {
            provider_id: self.provider_id@,
            display_name: self.display_name@,
            capabilities: self.capabilities@,
            accounts: self.accounts@.map_values(|a: AccountSummary| a@),
            degraded_reasons: reasons_view(self.degraded_reasons@),
        }
    }
}

/// One protocol/auth/routing capability advertised by a provider.
#[derive(Clone, Copy, Debug, PartialEq, Eq, Structural)]
pub struct ProviderCapability {
    /// Protocol family supported by this capability.
    pub protocol_family: ProtocolFamily,
    /// Whether this capability or outcome supports streaming responses.
    pub supports_streaming: bool,
    /// Authentication method category for this capability.
    pub auth_method: AuthMethodCategory,
    /// Whether routing may select this provider.
    pub routing_eligible: bool,
}

/// Protocol family understood by core protocol and provider metadata.
#[derive(Clone, Copy, Debug, PartialEq, Eq, Structural)]
pub enum ProtocolFamily {
    /// OpenAI-compatible protocol family or metadata.
    OpenAi,
    /// Gemini-compatible protocol family or metadata.
    Gemini,
    /// Anthropic-compatible protocol family or metadata.
    Anthropic,
    /// Codex-compatible protocol family or metadata.
    Codex,
    /// Provider-specific protocol family or metadata.
    ProviderSpecific,
}

/// High-level credential method category for provider/account summaries.
#[derive(Clone, Copy, Debug, PartialEq, Eq, Structural)]
pub enum AuthMethodCategory {
    /// API-key based authentication category.
    ApiKey,
    /// OAuth-based authentication category marker; no OAuth flow is implemented here.
    OAuth,
    /// Credential reference managed outside the core.
    ExternalReference,
    /// No authentication category is required or known.
    NoAuthentication,
}

/// Management-visible provider account health and quota summary.
#[derive(Clone, Debug, PartialEq, Eq)]
pub struct AccountSummary {
    /// Account identifier scoped to the provider.
    pub account_id: String,
    /// Human-readable name for provider or account display.
    pub display_name: String,
    /// Current authentication state for this account.
    pub auth_state: AuthState,
    /// Quota state associated with this account or outcome.
    pub quota_state: QuotaState,
    /// Optional freshness metadata for account health.
    pub last_checked: Option<LastCheckedMetadata>,
    /// Reasons this provider or account is degraded.
    pub degraded_reasons: Vec<DegradedReason>,
}

/// Model of an account summary.
pub struct AccountSummaryView {
    /// Account identifier.
    pub account_id: Seq<char>,
    /// Display name.
    pub display_name: Seq<char>,
    /// Authentication state.
    pub auth_state: AuthState,
    /// Quota state.
    pub quota_state: QuotaState,
    /// Freshness metadata.
    pub last_checked: Option<LastCheckedMetadata>,
    /// Models of the degraded reasons.
    pub degraded_reasons: Seq<DegradedReasonView>,
}

impl View for AccountSummary {
    type V = AccountSummaryView;

    open spec fn view(&self) -> AccountSummaryView {
        AccountSummaryView {
            account_id: self.account_id@,
            display_name: self.display_name@,
            auth_state: self.auth_state,
            quota_state: self.quota_state,
            last_checked: self.last_checked,
            degraded_reasons: reasons_view(self.degraded_reasons@),
        }
    }
}

/// Current credential or session state known for an account.
#[derive(Debug, PartialEq, Eq)]
pub enum AuthState {
    /// State is not known to the core.
    Unknown,
    /// No credential or account configuration is present.
    Unconfigured,
    /// Credentials are represented by an external reference name.
    CredentialReference {
        /// External credential reference name.
        reference_name: String,
    },
    /// Account is considered authenticated by supplied state.
    Authenticated,
    /// Account credentials or session are expired.
    Expired,
    /// Operation or account state failed with a reason.
    Failed {
        /// Human-readable reason for this state.
        reason: String,
    },
}

impl Clone for AuthState {
    fn clone(&self) -> (r: Self)
        ensures
            r == *self,
    {
        match self {
            AuthState::Unknown => AuthState::Unknown,
            AuthState::Unconfigured => AuthState::Unconfigured,
            AuthState::CredentialReference { reference_name } => AuthState::CredentialReference {
                reference_name: reference_name.clone(),
            },
            AuthState::Authenticated => AuthState::Authenticated,
            AuthState::Expired => AuthState::Expired,
            AuthState::Failed { reason } => AuthState::Failed { reason: reason.clone() },
        }
    }
}

/// Timestamp and age metadata for a provider/account health check.
#[derive(Clone, Copy, Debug, PartialEq, Eq, Structural)]
pub struct LastCheckedMetadata {
    /// Unix timestamp for the last check.
    pub unix_timestamp_seconds: u64,
    /// Age in seconds since the last check.
    pub age_seconds: u64,
}

/// Human-readable reason that a provider, account, route, or stream is degraded.
#[derive(Debug, PartialEq, Eq)]
pub struct DegradedReason {
    /// Component reporting the degraded reason.
    pub component: String,
    /// Human-readable diagnostic message.
    pub message: String,
}

/// Model of a degraded reason.
pub struct DegradedReasonView {
    /// Reporting component.
    pub component: Seq<char>,
    /// Diagnostic message.
    pub message: Seq<char>,
}

impl View for DegradedReason {
    type V = DegradedReasonView;

    open spec fn view(&self) -> DegradedReasonView {
        DegradedReasonView { component: self.component@, message: self.message@ }
    }
}

impl Clone for DegradedReason {
    fn clone(&self) -> (r: Self)
        ensures
            r == *self,
    {
        DegradedReason { component: self.component.clone(), message: self.message.clone() }
    }
}

} // verus!
