//! Structured error types shared by the headless core boundaries.

use vstd::prelude::*;

use crate::local_client_auth::LocalClientAuthorizationFailure;
use crate::minimal_proxy::MinimalProxyErrorCode;
use crate::protocol::ProtocolTranslationDirection;
use crate::provider::{ProtocolFamily, ProviderExecutionFailure};
use crate::reasoning::{
    ReasoningCapabilityFailure, ReasoningCapabilityLayer, ReasoningValidationFailure,
};
use crate::routing::RoutingFailure;
use crate::streaming::StreamingFailure;
use crate::text::{concat2, concat3, decimal, decimal_string, opt_text, owned};

verus! {

/// Filesystem path type used for configuration source metadata.
#[verifier::external_type_specification]
#[verifier::external_body]
pub struct ExPathBuf(std::path::PathBuf);

/// Text that a filesystem path holds.
pub uninterp spec fn path_text(path: std::path::PathBuf) -> Seq<char>;

/// Builds a filesystem path from its text (`PathBuf::from`, which copies the text into a
/// new path): the path holds that text.
#[verifier::external_body]
fn path_from_text(path: &str) -> (r: std::path::PathBuf)
    ensures
        path_text(r) == path@,
{
    std::path::PathBuf::from(path)
}

/// One structured configuration diagnostic.
#[derive(Debug, PartialEq, Eq)]
pub struct ConfigurationError {
    /// Category of the failure.
    pub kind: ConfigurationErrorKind,
    /// Dotted and indexed path of the offending field.
    pub field_path: String,
    /// How the offending value is invalid.
    pub invalid_value: InvalidConfigurationValue,
    /// Where the configuration came from, when known.
    pub source: Option<ConfigurationSourceMetadata>,
    /// Optional human-readable detail.
    pub message: Option<String>,
}

/// Model of a configuration diagnostic: the source by its description.
pub struct ConfigurationIssue {
    /// Category of the failure.
    pub kind: ConfigurationErrorKind,
    /// Path of the offending field.
    pub field_path: Seq<char>,
    /// How the value is invalid.
    pub invalid_value: InvalidConfigurationValue,
    /// The source, when known.
    pub source: Option<SourceView>,
    /// Detail message, when any.
    pub message: Option<Seq<char>>,
}

impl View for ConfigurationError {
    type V = ConfigurationIssue;

    open spec fn view(&self) -> ConfigurationIssue {
        ConfigurationIssue {
            kind: self.kind,
            field_path: self.field_path@,
            invalid_value: self.invalid_value,
            source: match self.source {
                Some(s) => Some(s@),
                None => None,
            },
            message: opt_text(self.message),
        }
    }
}

impl Clone for ConfigurationError {
    fn clone(&self) -> (r: Self)
        ensures
            r@ == self@,
    {
        ConfigurationError {
            kind: self.kind,
            field_path: self.field_path.clone(),
            invalid_value: self.invalid_value,
            source: match &self.source {
                Some(s) => Some(s.clone()),
                None => None,
            },
            message: self.message.clone(),
        }
    }
}

impl ConfigurationError {
    /// Creates a diagnostic without a message.
    pub fn new(
        kind: ConfigurationErrorKind,
        field_path: &str,
        invalid_value: InvalidConfigurationValue,
        source: Option<ConfigurationSourceMetadata>,
    ) -> (r: Self)
        ensures
            r.kind == kind,
            r.field_path@ == field_path@,
            r.invalid_value == invalid_value,
            r.source == source,
            r.message is None,
    {
        ConfigurationError {
            kind,
            field_path: owned(field_path),
            invalid_value,
            source,
            message: None,
        }
    }

    /// Creates a diagnostic with a message.
    pub fn with_message(
        kind: ConfigurationErrorKind,
        field_path: &str,
        invalid_value: InvalidConfigurationValue,
        source: Option<ConfigurationSourceMetadata>,
        message: &str,
    ) -> (r: Self)
        ensures
            r.kind == kind,
            r.field_path@ == field_path@,
            r.invalid_value == invalid_value,
            r.source == source,
            r.message is Some && r.message.unwrap()@ == message@,
    {
        ConfigurationError {
            kind,
            field_path: owned(field_path),
            invalid_value,
            source,
            message: Some(owned(message)),
        }
    }
}

/// Category of a configuration failure.
#[derive(Clone, Copy, Debug, PartialEq, Eq, Structural)]
pub enum ConfigurationErrorKind {
    /// The source could not be read.
    ReadFailed,
    /// The source is not well-formed TOML.
    ParseFailed,
    /// The source format is not supported.
    UnsupportedFormat,
    /// A required field is absent.
    MissingRequiredField,
    /// A field is not part of the schema.
    UnknownField,
    /// The schema version is not supported.
    InvalidVersion,
    /// The listen address is malformed or not loopback.
    InvalidListenAddress,
    /// The port is out of range.
    InvalidPort,
    /// Two providers share an identifier.
    DuplicateProviderId,
    /// Two accounts of a provider share an identifier.
    DuplicateAccountId,
    /// The provider protocol family is unknown.
    InvalidProviderProtocolFamily,
    /// The credential reference is malformed or looks like a secret.
    InvalidCredentialReference,
    /// A routing default names an undeclared provider.
    UnknownProviderReference,
    /// A routing default names an undeclared account.
    UnknownAccountReference,
    /// A routing default is malformed.
    InvalidRoutingDefault,
    /// The logging setting is unknown.
    InvalidLoggingSetting,
    /// The usage collection setting is not a boolean.
    InvalidUsageCollectionSetting,
    /// The auto-start intent is unknown.
    InvalidAutoStartIntent,
}

/// How an offending configuration value is invalid.
#[derive(Clone, Copy, Debug, PartialEq, Eq, Structural)]
pub enum InvalidConfigurationValue {
    /// The value is absent.
    Missing,
    /// The value is malformed.
    Malformed,
    /// The value is well-formed but unsupported.
    Unsupported,
    /// The value repeats an earlier one.
    Duplicate,
    /// The value references something undeclared.
    UnknownReference,
    /// The value looks like a raw secret.
    SecretLike,
    /// The value is outside its range.
    OutOfRange,
}

/// Where a configuration came from.
#[derive(Debug, PartialEq, Eq)]
pub struct ConfigurationSourceMetadata {
    /// Filesystem path, when the configuration came from a file.
    pub path: Option<std::path::PathBuf>,
    /// Human-readable description of the source.
    pub description: String,
}

/// Model of a configuration source: the text of its path, when it has one, and its
/// description.
pub struct SourceView {
    /// Text of the filesystem path.
    pub path: Option<Seq<char>>,
    /// Human-readable description.
    pub description: Seq<char>,
}

impl View for ConfigurationSourceMetadata {
    type V = SourceView;

    open spec fn view(&self) -> SourceView {
        SourceView {
            path: match self.path {
                Some(p) => Some(path_text(p)),
                None => None,
            },
            description: self.description@,
        }
    }
}

/// Copies a filesystem path (`PathBuf::clone`, which copies its text): the copy holds the
/// same text.
#[verifier::external_body]
fn copy_path(path: &std::path::PathBuf) -> (r: std::path::PathBuf)
    ensures
        path_text(r) == path_text(*path),
{
    path.clone()
}

impl Clone for ConfigurationSourceMetadata {
    fn clone(&self) -> (r: Self)
        ensures
            r.description == self.description,
            r@ == self@,
    {
        ConfigurationSourceMetadata {
            path: match &self.path {
                Some(p) => Some(copy_path(p)),
                None => None,
            },
            description: self.description.clone(),
        }
    }
}

impl ConfigurationSourceMetadata {
    /// Metadata for configuration contents held in memory.
    pub fn memory() -> (r: Self)
        ensures
            r.path is None,
            r.description@ == "in-memory TOML contents"@,
            r@ == (SourceView { path: None, description: "in-memory TOML contents"@ }),
    {
        ConfigurationSourceMetadata { path: None, description: owned("in-memory TOML contents") }
    }

    /// Metadata for configuration read from the file at `path`.
    pub fn for_path(path: &str) -> (r: Self)
        ensures
            r.path is Some,
            r.description@ == path@,
            r@ == (SourceView { path: Some(path@), description: path@ }),
    {
        ConfigurationSourceMetadata { path: Some(path_from_text(path)), description: owned(path) }
    }
}

/// Structured core failure reported by every headless boundary.
#[derive(Clone, Debug, PartialEq, Eq)]
pub enum CoreError {
    /// The boundary has no behavior yet.
    NotImplemented {
        /// Boundary name.
        boundary: &'static str,
    },
    /// A management snapshot could not be produced.
    ManagementSnapshot {
        /// Human-readable diagnostic message.
        message: String,
    },
    /// A lifecycle intent failed.
    LifecycleIntent {
        /// Human-readable diagnostic message.
        message: String,
    },
    /// A configuration update field is invalid.
    ConfigurationValidation {
        /// Offending field.
        field: &'static str,
        /// Human-readable diagnostic message.
        message: String,
    },
    /// Loading configuration failed with structured diagnostics.
    Configuration {
        /// Every diagnostic found.
        errors: Vec<ConfigurationError>,
    },
    /// Local runtime configuration is invalid.
    LocalRuntimeConfiguration {
        /// Offending field.
        field: &'static str,
        /// Human-readable diagnostic message.
        message: String,
    },
    /// The local runtime could not bind its endpoint.
    LocalRuntimeBind {
        /// Requested endpoint.
        endpoint: String,
        /// Human-readable diagnostic message.
        message: String,
    },
    /// The local runtime failed while serving.
    LocalRuntimeHealthServing {
        /// Human-readable diagnostic message.
        message: String,
    },
    /// The local runtime failed while shutting down.
    LocalRuntimeShutdown {
        /// Human-readable diagnostic message.
        message: String,
    },
    /// A provider account summary could not be produced.
    ProviderAccountSummary {
        /// Human-readable diagnostic message.
        message: String,
    },
    /// Provider selection or execution failed.
    ProviderExecution {
        /// Provider identifier of the request.
        provider_id: String,
        /// Account identifier of the request, when any.
        account_id: Option<String>,
        /// Structured failure.
        failure: ProviderExecutionFailure,
    },
    /// A usage or quota summary could not be produced.
    UsageQuotaSummary {
        /// Human-readable diagnostic message.
        message: String,
    },
    /// A protocol value failed validation.
    ProtocolValidation {
        /// Offending field.
        field: &'static str,
        /// Human-readable diagnostic message.
        message: String,
    },
    /// Protocol translation is deferred.
    ProtocolTranslationDeferred {
        /// Request or response translation.
        direction: ProtocolTranslationDirection,
        /// Source family.
        source_family: ProtocolFamily,
        /// Target family.
        target_family: ProtocolFamily,
        /// Human-readable diagnostic message.
        message: String,
    },
    /// Routing selection failed.
    Routing {
        /// Structured failure.
        failure: RoutingFailure,
    },
    /// Streaming failed.
    Streaming {
        /// Structured failure.
        failure: StreamingFailure,
    },
    /// Reasoning metadata failed validation.
    ReasoningValidation {
        /// Structured failure.
        failure: Box<ReasoningValidationFailure>,
    },
    /// The selected target cannot honor the reasoning intent.
    ReasoningUnsupportedCapability {
        /// Structured failure.
        failure: Box<ReasoningCapabilityFailure>,
    },
    /// Local client authorization denied the request.
    LocalClientAuthorization {
        /// Structured failure.
        failure: LocalClientAuthorizationFailure,
    },
    /// A minimal proxy request failed validation.
    MinimalProxyRequestValidation {
        /// Offending field.
        field: &'static str,
        /// Stable error code.
        code: MinimalProxyErrorCode,
        /// Human-readable diagnostic message.
        message: String,
    },
    /// The provider response mode cannot be served by the minimal proxy.
    MinimalProxyUnsupportedResponseMode {
        /// Human-readable diagnostic message.
        message: String,
    },
    /// The minimal proxy could not serialize a response.
    MinimalProxyResponseSerialization {
        /// Human-readable diagnostic message.
        message: String,
    },
}

impl CoreError {
    /// The same error with a reasoning capability failure moved to another layer.
    pub open spec fn reasoning_layered(self, layer: ReasoningCapabilityLayer) -> CoreError {
        match self {
            CoreError::ReasoningUnsupportedCapability { failure } => {
                CoreError::ReasoningUnsupportedCapability {
                    failure: Box::new(ReasoningCapabilityFailure { layer, ..*failure }),
                }
            },
            other => other,
        }
    }

    /// Attributes a reasoning capability failure to the layer that supplied the capability.
    pub fn with_reasoning_layer(self, layer: ReasoningCapabilityLayer) -> (r: Self)
        ensures
            r == self.reasoning_layered(layer),
    {
        match self {
            CoreError::ReasoningUnsupportedCapability { failure } => {
                CoreError::ReasoningUnsupportedCapability {
                    failure: Box::new((*failure).with_layer(layer)),
                }
            },
            other => other,
        }
    }
}

/// Debug name of a protocol family.
pub open spec fn family_name(f: ProtocolFamily) -> Seq<char> {
    match f {
        ProtocolFamily::OpenAi => "OpenAi"@,
        ProtocolFamily::Gemini => "Gemini"@,
        ProtocolFamily::Anthropic => "Anthropic"@,
        ProtocolFamily::Codex => "Codex"@,
        ProtocolFamily::ProviderSpecific => "ProviderSpecific"@,
    }
}

fn family_name_str(f: ProtocolFamily) -> (r: &'static str)
    ensures
        r@ == family_name(f),
{
    match f {
        ProtocolFamily::OpenAi => "OpenAi",
        ProtocolFamily::Gemini => "Gemini",
        ProtocolFamily::Anthropic => "Anthropic",
        ProtocolFamily::Codex => "Codex",
        ProtocolFamily::ProviderSpecific => "ProviderSpecific",
    }
}

/// Debug name of a translation direction.
pub open spec fn direction_name(d: ProtocolTranslationDirection) -> Seq<char> {
    match d {
        ProtocolTranslationDirection::Request => "Request"@,
        ProtocolTranslationDirection::Response => "Response"@,
    }
}

fn direction_name_str(d: ProtocolTranslationDirection) -> (r: &'static str)
    ensures
        r@ == direction_name(d),
{
    match d {
        ProtocolTranslationDirection::Request => "Request",
        ProtocolTranslationDirection::Response => "Response",
    }
}

impl CoreError {
    /// The human-readable description of an error.
    pub open spec fn message_spec(self) -> Seq<char> {
        match self {
            CoreError::NotImplemented { boundary } => boundary@ + " core behavior is not implemented yet"@,
            CoreError::ManagementSnapshot { message } => "management snapshot failed: "@ + message@,
            CoreError::LifecycleIntent { message } => "lifecycle intent failed: "@ + message@,
            CoreError::ConfigurationValidation { field, message } => "configuration field "@ + field@
                + " is invalid: "@ + message@,
            CoreError::Configuration { errors } => "configuration load failed with "@ + decimal(
                errors@.len(),
            ) + " error(s)"@,
            CoreError::LocalRuntimeConfiguration { field, message } => "local runtime configuration field "@
                + field@ + " is invalid: "@ + message@,
            CoreError::LocalRuntimeBind { endpoint, message } => "local runtime failed to bind "@ + endpoint@
                + ": "@ + message@,
            CoreError::LocalRuntimeHealthServing { message } => "local runtime health serving failed: "@
                + message@,
            CoreError::LocalRuntimeShutdown { message } => "local runtime shutdown failed: "@ + message@,
            CoreError::ProviderAccountSummary { message } => "provider account summary failed: "@ + message@,
            CoreError::ProviderExecution { provider_id, account_id, failure } => "provider execution failed for "@
                + provider_id@ + match account_id {
                Some(a) => "/"@ + a@,
                None => Seq::empty(),
            } + ": "@ + failure.message_spec(),
            CoreError::UsageQuotaSummary { message } => "usage quota summary failed: "@ + message@,
            CoreError::ProtocolValidation { field, message } => "protocol field "@ + field@ + " is invalid: "@
                + message@,
            CoreError::ProtocolTranslationDeferred { direction, source_family, target_family, message } => {
                "protocol "@ + direction_name(direction) + " translation, "@ + family_name(source_family)
                    + " to "@ + family_name(target_family) + ", is deferred: "@ + message@
            },
            CoreError::Routing { failure } => "routing failed: "@ + failure.message_spec(),
            CoreError::Streaming { failure } => "streaming failed: "@ + failure.message_spec(),
            CoreError::ReasoningValidation { failure } => "reasoning field "@ + failure.field@ + " is invalid: "@
                + failure.message@,
            CoreError::ReasoningUnsupportedCapability { failure } => "reasoning capability is unsupported: "@
                + failure.message@,
            CoreError::LocalClientAuthorization { failure } => failure.message_spec(),
            CoreError::MinimalProxyRequestValidation { field, message, .. } => "minimal proxy request field "@
                + field@ + " is invalid: "@ + message@,
            CoreError::MinimalProxyUnsupportedResponseMode { message } => "minimal proxy response mode is unsupported: "@
                + message@,
            CoreError::MinimalProxyResponseSerialization { message } => "minimal proxy response serialization failed: "@
                + message@,
        }
    }

    /// Returns the human-readable description of this error.
    pub fn to_string(&self) -> (r: String)
        ensures
            r@ == self.message_spec(),
    {
        match self {
            CoreError::NotImplemented { boundary } => concat2(boundary, " core behavior is not implemented yet"),
            CoreError::ManagementSnapshot { message } => concat2("management snapshot failed: ", message.as_str()),
            CoreError::LifecycleIntent { message } => concat2("lifecycle intent failed: ", message.as_str()),
            CoreError::ConfigurationValidation { field, message } => {
                let mut s = concat3("configuration field ", field, " is invalid: ");
                s.append(message.as_str());
                s
            },
            CoreError::Configuration { errors } => {
                let count = decimal_string(errors.len() as u64);
                concat3("configuration load failed with ", count.as_str(), " error(s)")
            },
            CoreError::LocalRuntimeConfiguration { field, message } => {
                let mut s = concat3("local runtime configuration field ", field, " is invalid: ");
                s.append(message.as_str());
                s
            },
            CoreError::LocalRuntimeBind { endpoint, message } => {
                let mut s = concat3("local runtime failed to bind ", endpoint.as_str(), ": ");
                s.append(message.as_str());
                s
            },
            CoreError::LocalRuntimeHealthServing { message } => concat2(
                "local runtime health serving failed: ",
                message.as_str(),
            ),
            CoreError::LocalRuntimeShutdown { message } => concat2(
                "local runtime shutdown failed: ",
                message.as_str(),
            ),
            CoreError::ProviderAccountSummary { message } => concat2(
                "provider account summary failed: ",
                message.as_str(),
            ),
            CoreError::ProviderExecution { provider_id, account_id, failure } => {
                let mut s = concat2("provider execution failed for ", provider_id.as_str());
                match account_id {
                    Some(a) => {
                        s.append("/");
                        s.append(a.as_str());
                    },
                    None => {},
                }
                s.append(": ");
                s.append(failure.message());
                s
            },
            CoreError::UsageQuotaSummary { message } => concat2("usage quota summary failed: ", message.as_str()),
            CoreError::ProtocolValidation { field, message } => {
                let mut s = concat3("protocol field ", field, " is invalid: ");
                s.append(message.as_str());
                s
            },
            CoreError::ProtocolTranslationDeferred { direction, source_family, target_family, message } => {
                let mut s = concat3("protocol ", direction_name_str(*direction), " translation, ");
                s.append(family_name_str(*source_family));
                s.append(" to ");
                s.append(family_name_str(*target_family));
                s.append(", is deferred: ");
                s.append(message.as_str());
                s
            },
            CoreError::Routing { failure } => {
                let m = failure.message();
                concat2("routing failed: ", m.as_str())
            },
            CoreError::Streaming { failure } => {
                let m = failure.message();
                concat2("streaming failed: ", m.as_str())
            },
            CoreError::ReasoningValidation { failure } => {
                let mut s = concat3("reasoning field ", failure.field, " is invalid: ");
                s.append(failure.message.as_str());
                s
            },
            CoreError::ReasoningUnsupportedCapability { failure } => concat2(
                "reasoning capability is unsupported: ",
                failure.message.as_str(),
            ),
            CoreError::LocalClientAuthorization { failure } => failure.message(),
            CoreError::MinimalProxyRequestValidation { field, message, .. } => {
                let mut s = concat3("minimal proxy request field ", field, " is invalid: ");
                s.append(message.as_str());
                s
            },
            CoreError::MinimalProxyUnsupportedResponseMode { message } => concat2(
                "minimal proxy response mode is unsupported: ",
                message.as_str(),
            ),
            CoreError::MinimalProxyResponseSerialization { message } => concat2(
                "minimal proxy response serialization failed: ",
                message.as_str(),
            ),
        }
    }
}

} // verus!
