//! Headless core for a subscription-aware local AI proxy: routing policy,
//! provider/account state, protocol metadata, streaming state, reasoning
//! compatibility, model listing, local client authorization, configuration
//! validation, and structured errors, each stated and proved against its contract.

use vstd::prelude::*;

pub mod configuration;
pub mod errors;
pub mod json;
pub mod local_client_auth;
pub mod local_runtime;
pub mod management;
pub mod minimal_proxy;
pub mod model_registry;
pub mod protocol;
pub mod provider;
pub mod reasoning;
pub mod routing;
pub mod streaming;
pub mod text;
pub mod usage;

pub use configuration::address::IpAddress;
pub use configuration::file::{
    AutoStartIntent, ConfigurationBoundary, ConfigurationLoadFailure, ConfigurationSnapshot,
    ConfigurationUpdateIntent, FileAccountConfiguration, FileBackedManagementConfiguration,
    FileConfigurationState, FileProviderConfiguration, FileProxyConfiguration,
    FileRoutingDefaultConfiguration, FileRoutingDefaultGroup, LoggingSetting, RoutingDefault,
    ValidatedConfigurationUpdate, ValidatedFileConfiguration,
};
pub use configuration::raw::{
    RawAccountConfiguration, RawConfiguration, RawLifecycleConfiguration,
    RawObservabilityConfiguration, RawProviderConfiguration, RawProxyConfiguration,
    RawRoutingConfiguration, RawRoutingDefaultConfiguration, RawSettingValue,
};
pub use configuration::validation::validate_raw_configuration;
pub use errors::{
    ConfigurationError, ConfigurationErrorKind, ConfigurationSourceMetadata, CoreError,
    InvalidConfigurationValue,
};
pub use local_client_auth::{
    LocalClientAuthorizationAttempt, LocalClientAuthorizationFailure,
    LocalClientAuthorizationFailureReason, LocalClientAuthorizationOutcome,
    LocalClientAuthorizationPolicy, LocalClientAuthorizationPolicyMetadata, LocalClientCredential,
    LocalClientCredentialError, LocalClientRouteScope, LocalRouteProtection,
    LocalRouteProtectionMetadata, RedactedLocalClientCredentialMetadata,
};
pub use local_runtime::{
    LocalHealthRuntimeConfig, LocalHealthRuntimeStatus, LocalHttpRequest, LocalHttpResponse,
    LOCAL_HEALTH_PATH, LOCAL_HEALTH_RESPONSE_BODY,
};
pub use management::{
    BoundEndpoint, CoreHealthState, LifecycleControlIntent, ManagementBoundary,
    ManagementSnapshot, ProxyLifecycleState, SocketAddress, UptimeMetadata,
};
pub use minimal_proxy::{
    MinimalProxyEngine, MinimalProxyEngineConfig, MinimalProxyErrorCode, MinimalProxyRequest,
    MinimalProxyResponse, MAX_MINIMAL_PROXY_BODY_BYTES, MINIMAL_CHAT_COMPLETIONS_PATH,
    MINIMAL_PROXY_JSON_CONTENT_TYPE,
};
pub use model_registry::{
    ListedModelIdentity, ModelAliasMetadata, ModelCapabilityMetadata, ModelForkMetadata,
    ModelListingFilter, ModelListingState, ModelRegistry, ModelRegistryCandidate,
    ModelRegistryEntry, OpenAiModelListProjection, OpenAiModelProjection,
    ProviderAccountApplicability, ProviderNativeModelTarget, RoutingCandidateMetadata,
};
pub use protocol::{
    CanonicalProtocolRequest, CanonicalProtocolResponse, AnthropicProtocolMetadata,
    CodexProtocolMetadata, DeferredProtocolTranslation, GeminiProtocolMetadata,
    OpenAiProtocolMetadata, ProtocolBoundary, ProtocolMetadata, ProtocolPayload,
    ProtocolPayloadBody, ProtocolResponseStatus, ProtocolTranslationDirection,
    ProtocolTranslationOutcome, ProtocolTranslator, ProviderSpecificProtocolMetadata,
};
pub use provider::{
    AccountSummary, AuthMethodCategory, AuthState, DegradedReason, LastCheckedMetadata,
    MockProviderAccount, MockProviderHarness, MockProviderOutcome, ProtocolFamily,
    ProviderAuthBoundary, ProviderCapability, ProviderExecutionFailure, ProviderExecutionMetadata,
    ProviderExecutionOutcome, ProviderExecutionRequest, ProviderExecutionResult, ProviderExecutor,
    ProviderSummary,
};
pub use reasoning::{
    ReasoningBudgetRange, ReasoningCapability, ReasoningCapabilityFailure,
    ReasoningCapabilityLayer, ReasoningCapabilityLayers, ReasoningCapabilitySupport,
    ReasoningCompatibilityOutcome, ReasoningControl, ReasoningDiagnostics, ReasoningEffort,
    ReasoningFailureCode, ReasoningHandlingPolicy, ReasoningIntent, ReasoningMetadataInput,
    ReasoningMode, ReasoningRequest, ReasoningSource, ReasoningTokenBudget,
    ReasoningValidationFailure, MAX_REASONING_TOKEN_BUDGET, MIN_REASONING_TOKEN_BUDGET,
};
pub use routing::{
    FallbackBehavior, ModelAlias, ModelRoute, RoutingAvailabilitySnapshot,
    RoutingAvailabilityState, RoutingBoundary, RoutingCandidate, RoutingDecisionMode,
    RoutingFailure, RoutingPolicy, RoutingSelectionRequest, RoutingSelectionResult,
    RoutingSkipReason, RoutingTarget, RoutingTargetAvailability, SkippedRoutingCandidate,
};
pub use streaming::{
    CancellationReason, InvalidStreamSequence, ResponseMode, StreamContent, StreamEvent,
    StreamFailure, StreamMetadata, StreamTerminalState, StreamingBoundary,
    StreamingCancellationPolicy, StreamingFailure, StreamingResponse, StreamingRobustnessOutcome,
    StreamingRobustnessOutcomeKind, StreamingRobustnessPolicy, MAX_STREAMING_BOOTSTRAP_RETRY_COUNT,
    MAX_STREAMING_CONTROL_DURATION_MS, MIN_STREAMING_CONTROL_DURATION_MS,
    OXMUX_KEEPALIVE_METADATA_KEY, OXMUX_RETRY_EXHAUSTED_METADATA_KEY,
    OXMUX_RETRY_SUMMARY_METADATA_KEY, OXMUX_TIMEOUT_METADATA_KEY,
};
pub use usage::{MeteredValue, QuotaState, QuotaSummary, UsageBoundary, UsageSummary};

verus! {

/// Static identity metadata for the reusable core crate.
#[derive(Clone, Copy, Debug, PartialEq, Eq)]
pub struct CoreIdentity {
    /// Package name of the core crate.
    pub crate_name: &'static str,
    /// Package version of the core crate.
    pub version: &'static str,
}

impl CoreIdentity {
    /// The identity of this crate: name `oxmux`, version `0.1.0`.
    pub open spec fn spec() -> CoreIdentity {
        CoreIdentity { crate_name: "oxmux", version: "0.1.0" }
    }
}

/// Returns the identity of the reusable core crate.
pub fn core_identity() -> (r: CoreIdentity)
    ensures
        r == CoreIdentity::spec(),
        r.crate_name@ == "oxmux"@,
        r.version@ == "0.1.0"@,
{
    CoreIdentity { crate_name: "oxmux", version: "0.1.0" }
}

} // verus!
