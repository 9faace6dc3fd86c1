//! Protocol compatibility and translation boundary contracts.
//!
//! Protocol values carry canonical request/response metadata and opaque payloads
//! while current translation functions validate inputs and return deferred
//! outcomes instead of promising provider-specific conversion behavior.

use vstd::prelude::*;

use crate::errors::CoreError;
use crate::provider::ProtocolFamily;
use crate::reasoning::ReasoningRequest;
use crate::text::{is_blank, is_blank_text, is_present_and_blank, opt_text, owned};

verus! {

/// A protocol diagnostic: the field that failed and the message reported for it.
pub type ProtocolProblem = (Seq<char>, Seq<char>);

/// The message reported for a blank required protocol text.
pub open spec fn blank_required_message() -> Seq<char> {
    "value must not be blank"@
}

/// The message reported for a present but blank optional protocol text.
pub open spec fn blank_optional_message() -> Seq<char> {
    "value must not be blank when present"@
}

/// Problem found in a required protocol text, if any.
pub open spec fn required_text_problem(field: Seq<char>, value: Seq<char>) -> Option<ProtocolProblem> {
    if is_blank_text(value) {
        Some((field, blank_required_message()))
    } else {
        None
    }
}

/// Problem found in an optional protocol text, if any.
pub open spec fn optional_text_problem(field: Seq<char>, value: Option<String>) -> Option<ProtocolProblem> {
    match value {
        Some(v) => if is_blank_text(v@) {
            Some((field, blank_optional_message()))
        } else {
            None
        },
        None => None,
    }
}

/// First problem of two checks made in order.
pub open spec fn first_problem<P>(a: Option<P>, b: Option<P>) -> Option<P> {
    if a is Some {
        a
    } else {
        b
    }
}

/// The error is the structured protocol validation error for this problem.
pub open spec fn is_protocol_error(e: CoreError, problem: ProtocolProblem) -> bool {
    &&& e matches CoreError::ProtocolValidation { field, message }
    &&& field@ == problem.0
    &&& message@ == problem.1
}

/// A validation result agrees with the first problem found by the specification.
pub open spec fn reports_problem(r: Result<(), CoreError>, problem: Option<ProtocolProblem>) -> bool {
    match r {
        Ok(()) => problem is None,
        Err(e) => problem is Some && is_protocol_error(e, problem.unwrap()),
    }
}

fn validate_required_text(field: &'static str, value: &str) -> (r: Result<(), CoreError>)
    ensures
        reports_problem(r, required_text_problem(field@, value@)),
{
    if is_blank(value) {
        return Err(
            CoreError::ProtocolValidation { field, message: owned("value must not be blank") },
        );
    }
    Ok(())
}

fn validate_optional_text(field: &'static str, value: &Option<String>) -> (r: Result<(), CoreError>)
    ensures
        reports_problem(r, optional_text_problem(field@, *value)),
{
    if is_present_and_blank(value) {
        return Err(
            CoreError::ProtocolValidation {
                field,
                message: owned("value must not be blank when present"),
            },
        );
    }
    Ok(())
}

/// Facade for protocol request and response translation boundaries.
#[derive(Clone, Copy, Debug, PartialEq, Eq, Structural)]
pub struct ProtocolBoundary;

/// The deferred outcome that translation of a valid value produces.
pub open spec fn is_deferred_outcome<T>(
    outcome: ProtocolTranslationOutcome<T>,
    direction: ProtocolTranslationDirection,
    source: ProtocolFamily,
    target: ProtocolFamily,
    preserved: bool,
) -> bool {
    &&& outcome matches ProtocolTranslationOutcome::Deferred(d)
    &&& d.direction == direction
    &&& d.source_family == source
    &&& d.target_family == target
    &&& d.reason@ == deferred_reason()
    &&& d.preserved_reasoning_metadata == preserved
}

impl ProtocolBoundary {
    /// Validates and translates, or defers translation of, a canonical request.
    pub fn translate_request(
        request: CanonicalProtocolRequest,
        target_protocol: ProtocolMetadata,
    ) -> (r: Result<ProtocolTranslationOutcome<CanonicalProtocolRequest>, CoreError>)
        ensures
            request.problem() is Some ==> r is Err && is_protocol_error(
                r->Err_0,
                request.problem().unwrap(),
            ),
            request.problem() is None && target_protocol.problem() is Some ==> r is Err
                && is_protocol_error(r->Err_0, target_protocol.problem().unwrap()),
            request.problem() is None && target_protocol.problem() is None ==> r is Ok
                && is_deferred_outcome(
                r->Ok_0,
                ProtocolTranslationDirection::Request,
                request.protocol.family_of(),
                target_protocol.family_of(),
                request.reasoning is Intent,
            ),
    {
        request.validate()?;
        target_protocol.validate()?;
        let preserved = match &request.reasoning {
            ReasoningRequest::Absent => false,
            ReasoningRequest::Intent(_) => true,
        };
        let outcome = ProtocolTranslationOutcome::deferred(
            ProtocolTranslationDirection::Request,
            request.protocol.family(),
            target_protocol.family(),
        );
        match outcome {
            ProtocolTranslationOutcome::Deferred(mut deferred) => {
                deferred.preserved_reasoning_metadata = preserved;
                Ok(ProtocolTranslationOutcome::Deferred(deferred))
            },
            ProtocolTranslationOutcome::Translated(t) => Ok(ProtocolTranslationOutcome::Translated(t)),
        }
    }

    /// Validates and translates, or defers translation of, a canonical response.
    pub fn translate_response(
        response: CanonicalProtocolResponse,
        target_protocol: ProtocolMetadata,
    ) -> (r: Result<ProtocolTranslationOutcome<CanonicalProtocolResponse>, CoreError>)
        ensures
            response.problem() is Some ==> r is Err && is_protocol_error(
                r->Err_0,
                response.problem().unwrap(),
            ),
            response.problem() is None && target_protocol.problem() is Some ==> r is Err
                && is_protocol_error(r->Err_0, target_protocol.problem().unwrap()),
            response.problem() is None && target_protocol.problem() is None ==> r is Ok
                && is_deferred_outcome(
                r->Ok_0,
                ProtocolTranslationDirection::Response,
                response.protocol.family_of(),
                target_protocol.family_of(),
                false,
            ),
    {
        response.validate()?;
        target_protocol.validate()?;
        Ok(
            ProtocolTranslationOutcome::deferred(
                ProtocolTranslationDirection::Response,
                response.protocol.family(),
                target_protocol.family(),
            ),
        )
    }
}

/// Trait for protocol translation implementations.
pub trait ProtocolTranslator {
    /// Validates and translates, or defers translation of, a canonical request.
    fn translate_request(
        &self,
        request: CanonicalProtocolRequest,
        target_protocol: ProtocolMetadata,
    ) -> Result<ProtocolTranslationOutcome<CanonicalProtocolRequest>, CoreError>;

    /// Validates and translates, or defers translation of, a canonical response.
    fn translate_response(
        &self,
        response: CanonicalProtocolResponse,
        target_protocol: ProtocolMetadata,
    ) -> Result<ProtocolTranslationOutcome<CanonicalProtocolResponse>, CoreError>;
}

impl ProtocolTranslator for ProtocolBoundary {
    fn translate_request(
        &self,
        request: CanonicalProtocolRequest,
        target_protocol: ProtocolMetadata,
    ) -> (r: Result<ProtocolTranslationOutcome<CanonicalProtocolRequest>, CoreError>)
        ensures
            request.problem() is Some ==> r is Err && is_protocol_error(
                r->Err_0,
                request.problem().unwrap(),
            ),
            request.problem() is None && target_protocol.problem() is Some ==> r is Err
                && is_protocol_error(r->Err_0, target_protocol.problem().unwrap()),
            request.problem() is None && target_protocol.problem() is None ==> r is Ok
                && is_deferred_outcome(
                r->Ok_0,
                ProtocolTranslationDirection::Request,
                request.protocol.family_of(),
                target_protocol.family_of(),
                request.reasoning is Intent,
            ),
    {
        ProtocolBoundary::translate_request(request, target_protocol)
    }

    fn translate_response(
        &self,
        response: CanonicalProtocolResponse,
        target_protocol: ProtocolMetadata,
    ) -> (r: Result<ProtocolTranslationOutcome<CanonicalProtocolResponse>, CoreError>)
        ensures
            response.problem() is Some ==> r is Err && is_protocol_error(
                r->Err_0,
                response.problem().unwrap(),
            ),
            response.problem() is None && target_protocol.problem() is Some ==> r is Err
                && is_protocol_error(r->Err_0, target_protocol.problem().unwrap()),
            response.problem() is None && target_protocol.problem() is None ==> r is Ok
                && is_deferred_outcome(
                r->Ok_0,
                ProtocolTranslationDirection::Response,
                response.protocol.family_of(),
                target_protocol.family_of(),
                false,
            ),
    {
        ProtocolBoundary::translate_response(response, target_protocol)
    }
}

/// Protocol-family-tagged request payload used by core routing and providers.
#[derive(Debug, PartialEq, Eq)]
pub struct CanonicalProtocolRequest {
    /// Protocol metadata attached to this payload.
    pub protocol: ProtocolMetadata,
    /// Model associated with this protocol request or route.
    pub model: String,
    /// Opaque protocol payload for this request, response, or stream event.
    pub payload: ProtocolPayload,
    /// Provider-neutral reasoning intent carried alongside the opaque payload.
    pub reasoning: ReasoningRequest,
}

/// Model of a canonical request.
pub struct CanonicalRequestView {
    /// Protocol metadata.
    pub protocol: ProtocolMetadata,
    /// Requested model.
    pub model: Seq<char>,
    /// Model of the payload.
    pub payload: ProtocolPayloadView,
    /// Reasoning intent.
    pub reasoning: ReasoningRequest,
}

impl View for CanonicalProtocolRequest {
    type V = CanonicalRequestView;

    open spec fn view(&self) -> CanonicalRequestView {
        CanonicalRequestView {
            protocol: self.protocol,
            model: self.model@,
            payload: self.payload@,
            reasoning: self.reasoning,
        }
    }
}

impl Clone for CanonicalProtocolRequest {
    fn clone(&self) -> (r: Self)
        ensures
            r@ == self@,
            r.problem() == self.problem(),
    {
        CanonicalProtocolRequest {
            protocol: self.protocol.clone(),
            model: self.model.clone(),
            payload: self.payload.clone(),
            reasoning: self.reasoning.clone(),
        }
    }
}

/// Problem of a request built from these parts, if any.
pub open spec fn new_request_problem(
    protocol: ProtocolMetadata,
    model: Seq<char>,
    payload: ProtocolPayload,
) -> Option<ProtocolProblem> {
    first_problem(
        protocol.problem(),
        first_problem(required_text_problem("model"@, model), payload.problem()),
    )
}

impl CanonicalProtocolRequest {
    /// First validation problem of this request: protocol, then model, then payload, then reasoning.
    pub open spec fn problem(self) -> Option<ProtocolProblem> {
        new_request_problem(self.protocol, self.model@, self.payload)
    }

    /// Creates a validated value for this public contract.
    pub fn new(protocol: ProtocolMetadata, model: &str, payload: ProtocolPayload) -> (r: Result<
        Self,
        CoreError,
    >)
        ensures
            match r {
                Ok(req) => req.protocol == protocol && req.model@ == model@ && req.payload
                    == payload && req.reasoning is Absent && req.problem() is None,
                Err(e) => new_request_problem(protocol, model@, payload) is Some
                    && is_protocol_error(e, new_request_problem(protocol, model@, payload).unwrap()),
            },
            r is Ok <==> new_request_problem(protocol, model@, payload) is None,
    {
        let request = CanonicalProtocolRequest {
            protocol,
            model: owned(model),
            payload,
            reasoning: ReasoningRequest::Absent,
        };
        request.validate()?;
        Ok(request)
    }

    /// Attaches validated reasoning intent to this request.
    pub fn with_reasoning(self, reasoning: ReasoningRequest) -> (r: Result<Self, CoreError>)
        ensures
            match r {
                Ok(req) => req == (CanonicalProtocolRequest { reasoning, ..self })
                    && reasoning.problem() is None,
                Err(e) => reasoning.problem() is Some && crate::reasoning::is_reasoning_error(
                    e,
                    reasoning.problem().unwrap(),
                ),
            },
    {
        reasoning.validate()?;
        Ok(CanonicalProtocolRequest { reasoning, ..self })
    }

    /// Validates this value and returns a structured core error on failure.
    pub fn validate(&self) -> (r: Result<(), CoreError>)
        ensures
            reports_problem(r, self.problem()),
    {
        self.protocol.validate()?;
        validate_required_text("model", self.model.as_str())?;
        self.payload.validate()
    }
}

/// Protocol-family-tagged response payload returned by providers.
#[derive(Debug, PartialEq, Eq)]
pub struct CanonicalProtocolResponse {
    /// Protocol metadata attached to this payload.
    pub protocol: ProtocolMetadata,
    /// Response status associated with the canonical response.
    pub status: ProtocolResponseStatus,
    /// Opaque protocol payload for this request, response, or stream event.
    pub payload: ProtocolPayload,
}

/// Model of a canonical response.
pub struct CanonicalResponseView {
    /// Protocol metadata.
    pub protocol: ProtocolMetadata,
    /// Response status.
    pub status: ProtocolResponseStatus,
    /// Model of the payload.
    pub payload: ProtocolPayloadView,
}

impl View for CanonicalProtocolResponse {
    type V = CanonicalResponseView;

    open spec fn view(&self) -> CanonicalResponseView {
        CanonicalResponseView { protocol: self.protocol, status: self.status, payload: self.payload@ }
    }
}

impl Clone for CanonicalProtocolResponse {
    fn clone(&self) -> (r: Self)
        ensures
            r@ == self@,
            r.problem() == self.problem(),
    {
        CanonicalProtocolResponse {
            protocol: self.protocol.clone(),
            status: self.status.clone(),
            payload: self.payload.clone(),
        }
    }
}

impl CanonicalProtocolResponse {
    /// First validation problem: protocol, then status, then payload.
    pub open spec fn problem(self) -> Option<ProtocolProblem> {
        first_problem(
            self.protocol.problem(),
            first_problem(self.status.problem(), self.payload.problem()),
        )
    }

    /// Creates a validated value for this public contract.
    pub fn new(
        protocol: ProtocolMetadata,
        status: ProtocolResponseStatus,
        payload: ProtocolPayload,
    ) -> (r: Result<Self, CoreError>)
        ensures
            match r {
                Ok(v) => v == (CanonicalProtocolResponse { protocol, status, payload })
                    && v.problem() is None,
                Err(e) => (CanonicalProtocolResponse { protocol, status, payload }).problem() is Some
                    && is_protocol_error(
                    e,
                    (CanonicalProtocolResponse { protocol, status, payload }).problem().unwrap(),
                ),
            },
    {
        let response = CanonicalProtocolResponse { protocol, status, payload };
        response.validate()?;
        Ok(response)
    }

    /// Validates this value and returns a structured core error on failure.
    pub fn validate(&self) -> (r: Result<(), CoreError>)
        ensures
            reports_problem(r, self.problem()),
    {
        self.protocol.validate()?;
        self.status.validate()?;
        self.payload.validate()
    }
}

/// Protocol family metadata attached to canonical requests and responses.
#[derive(Debug, PartialEq, Eq)]
pub enum ProtocolMetadata {
    /// OpenAI-compatible protocol family or metadata.
    OpenAi(OpenAiProtocolMetadata),
    /// Gemini-compatible protocol family or metadata.
    Gemini(GeminiProtocolMetadata),
    /// Anthropic-compatible protocol family or metadata.
    Anthropic(AnthropicProtocolMetadata),
    /// Codex-compatible protocol family or metadata.
    Codex(CodexProtocolMetadata),
    /// Provider-specific protocol family or metadata.
    ProviderSpecific(ProviderSpecificProtocolMetadata),
}

impl Clone for ProtocolMetadata {
    fn clone(&self) -> (r: Self)
        ensures
            r == *self,
    {
        match self {
            ProtocolMetadata::OpenAi(m) => ProtocolMetadata::OpenAi(
                OpenAiProtocolMetadata { api_version: m.api_version.clone() },
            ),
            ProtocolMetadata::Gemini(m) => ProtocolMetadata::Gemini(
                GeminiProtocolMetadata { api_version: m.api_version.clone() },
            ),
            ProtocolMetadata::Anthropic(m) => ProtocolMetadata::Anthropic(
                AnthropicProtocolMetadata { api_version: m.api_version.clone() },
            ),
            ProtocolMetadata::Codex(m) => ProtocolMetadata::Codex(
                CodexProtocolMetadata { api_version: m.api_version.clone() },
            ),
            ProtocolMetadata::ProviderSpecific(m) => ProtocolMetadata::ProviderSpecific(
                ProviderSpecificProtocolMetadata {
                    provider_id: m.provider_id.clone(),
                    format_name: m.format_name.clone(),
                },
            ),
        }
    }
}

impl ProtocolMetadata {
    /// The protocol family this metadata is tagged with.
    pub open spec fn family_of(self) -> ProtocolFamily {
        match self {
            ProtocolMetadata::OpenAi(_) => ProtocolFamily::OpenAi,
            ProtocolMetadata::Gemini(_) => ProtocolFamily::Gemini,
            ProtocolMetadata::Anthropic(_) => ProtocolFamily::Anthropic,
            ProtocolMetadata::Codex(_) => ProtocolFamily::Codex,
            ProtocolMetadata::ProviderSpecific(_) => ProtocolFamily::ProviderSpecific,
        }
    }

    /// Validation problem of this metadata, if any.
    pub open spec fn problem(self) -> Option<ProtocolProblem> {
        match self {
            ProtocolMetadata::OpenAi(m) => optional_text_problem("openai.api_version"@, m.api_version),
            ProtocolMetadata::Gemini(m) => optional_text_problem("gemini.api_version"@, m.api_version),
            ProtocolMetadata::Anthropic(m) => optional_text_problem("anthropic.api_version"@, m.api_version),
            ProtocolMetadata::Codex(m) => optional_text_problem("codex.api_version"@, m.api_version),
            ProtocolMetadata::ProviderSpecific(m) => m.problem(),
        }
    }

    /// Creates default OpenAI-compatible protocol metadata.
    pub fn open_ai() -> (r: Self)
        ensures
            r == ProtocolMetadata::OpenAi(OpenAiProtocolMetadata { api_version: None }),
    {
        ProtocolMetadata::OpenAi(OpenAiProtocolMetadata { api_version: None })
    }

    /// Creates default Gemini-compatible protocol metadata.
    pub fn gemini() -> (r: Self)
        ensures
            r == ProtocolMetadata::Gemini(GeminiProtocolMetadata { api_version: None }),
    {
        ProtocolMetadata::Gemini(GeminiProtocolMetadata { api_version: None })
    }

    /// Creates default Anthropic-compatible protocol metadata.
    pub fn anthropic() -> (r: Self)
        ensures
            r == ProtocolMetadata::Anthropic(AnthropicProtocolMetadata { api_version: None }),
    {
        ProtocolMetadata::Anthropic(AnthropicProtocolMetadata { api_version: None })
    }

    /// Creates default Codex-compatible protocol metadata.
    pub fn codex() -> (r: Self)
        ensures
            r == ProtocolMetadata::Codex(CodexProtocolMetadata { api_version: None }),
    {
        ProtocolMetadata::Codex(CodexProtocolMetadata { api_version: None })
    }

    /// Creates provider-specific protocol metadata.
    pub fn provider_specific(provider_id: &str, format_name: &str) -> (r: Result<Self, CoreError>)
        ensures
            match r {
                Ok(m) => m matches ProtocolMetadata::ProviderSpecific(p) && p.provider_id@
                    == provider_id@ && p.format_name@ == format_name@,
                Err(e) => provider_specific_problem(provider_id@, format_name@) is Some
                    && is_protocol_error(e, provider_specific_problem(provider_id@, format_name@).unwrap()),
            },
            r is Ok <==> provider_specific_problem(provider_id@, format_name@) is None,
    {
        let metadata = ProviderSpecificProtocolMetadata::new(provider_id, format_name)?;
        Ok(ProtocolMetadata::ProviderSpecific(metadata))
    }

    /// Returns the protocol family represented by this metadata.
    pub fn family(&self) -> (r: ProtocolFamily)
        ensures
            r == self.family_of(),
    {
        match self {
            ProtocolMetadata::OpenAi(_) => ProtocolFamily::OpenAi,
            ProtocolMetadata::Gemini(_) => ProtocolFamily::Gemini,
            ProtocolMetadata::Anthropic(_) => ProtocolFamily::Anthropic,
            ProtocolMetadata::Codex(_) => ProtocolFamily::Codex,
            ProtocolMetadata::ProviderSpecific(_) => ProtocolFamily::ProviderSpecific,
        }
    }

    /// Validates this value and returns a structured core error on failure.
    pub fn validate(&self) -> (r: Result<(), CoreError>)
        ensures
            reports_problem(r, self.problem()),
    {
        match self {
            ProtocolMetadata::OpenAi(m) => validate_optional_text("openai.api_version", &m.api_version),
            ProtocolMetadata::Gemini(m) => validate_optional_text("gemini.api_version", &m.api_version),
            ProtocolMetadata::Anthropic(m) => validate_optional_text("anthropic.api_version", &m.api_version),
            ProtocolMetadata::Codex(m) => validate_optional_text("codex.api_version", &m.api_version),
            ProtocolMetadata::ProviderSpecific(m) => m.validate(),
        }
    }
}

/// OpenAI-compatible protocol metadata currently limited to optional version data.
#[derive(Clone, Debug, Default, PartialEq, Eq)]
pub struct OpenAiProtocolMetadata {
    /// Optional API version label for this protocol family.
    pub api_version: Option<String>,
}

/// Gemini-compatible protocol metadata currently limited to optional version data.
#[derive(Clone, Debug, Default, PartialEq, Eq)]
pub struct GeminiProtocolMetadata {
    /// Optional API version label for this protocol family.
    pub api_version: Option<String>,
}

/// Anthropic-compatible protocol metadata currently limited to optional version data.
#[derive(Clone, Debug, Default, PartialEq, Eq)]
pub struct AnthropicProtocolMetadata {
    /// Optional API version label for this protocol family.
    pub api_version: Option<String>,
}

/// Codex-compatible protocol metadata currently limited to optional version data.
#[derive(Clone, Debug, Default, PartialEq, Eq)]
pub struct CodexProtocolMetadata {
    /// Optional API version label for this protocol family.
    pub api_version: Option<String>,
}

/// Provider-specific protocol metadata for formats outside built-in families.
#[derive(Clone, Debug, PartialEq, Eq)]
pub struct ProviderSpecificProtocolMetadata {
    /// Provider identifier used by routing, execution, and management state.
    pub provider_id: String,
    /// Provider-specific protocol format name.
    pub format_name: String,
}

/// Problem of provider-specific metadata built from these texts, if any.
pub open spec fn provider_specific_problem(provider_id: Seq<char>, format_name: Seq<char>) -> Option<
    ProtocolProblem,
> {
    first_problem(
        required_text_problem("provider_specific.provider_id"@, provider_id),
        required_text_problem("provider_specific.format_name"@, format_name),
    )
}

impl ProviderSpecificProtocolMetadata {
    /// Validation problem of this metadata, if any.
    pub open spec fn problem(self) -> Option<ProtocolProblem> {
        provider_specific_problem(self.provider_id@, self.format_name@)
    }

    /// Creates a validated value for this public contract.
    pub fn new(provider_id: &str, format_name: &str) -> (r: Result<Self, CoreError>)
        ensures
            match r {
                Ok(m) => m.provider_id@ == provider_id@ && m.format_name@ == format_name@,
                Err(e) => provider_specific_problem(provider_id@, format_name@) is Some
                    && is_protocol_error(e, provider_specific_problem(provider_id@, format_name@).unwrap()),
            },
            r is Ok <==> provider_specific_problem(provider_id@, format_name@) is None,
    {
        let metadata = ProviderSpecificProtocolMetadata {
            provider_id: owned(provider_id),
            format_name: owned(format_name),
        };
        metadata.validate()?;
        Ok(metadata)
    }

    fn validate(&self) -> (r: Result<(), CoreError>)
        ensures
            reports_problem(r, self.problem()),
    {
        validate_required_text("provider_specific.provider_id", self.provider_id.as_str())?;
        validate_required_text("provider_specific.format_name", self.format_name.as_str())
    }
}

/// Opaque protocol payload plus optional content type.
#[derive(Debug, PartialEq, Eq)]
pub struct ProtocolPayload {
    /// Optional MIME-like content type for the payload.
    pub content_type: Option<String>,
    /// Opaque body bytes or serialized response body.
    pub body: ProtocolPayloadBody,
}

/// Model of a payload: its content type and the bytes of its body.
pub struct ProtocolPayloadView {
    /// Content type, when any.
    pub content_type: Option<Seq<char>>,
    /// Body bytes, none for an empty body.
    pub body: Option<Seq<u8>>,
}

impl View for ProtocolPayload {
    type V = ProtocolPayloadView;

    open spec fn view(&self) -> ProtocolPayloadView {
        ProtocolPayloadView { content_type: opt_text(self.content_type), body: self.body@ }
    }
}

impl Clone for ProtocolPayload {
    fn clone(&self) -> (r: Self)
        ensures
            r@ == self@,
            r.content_type == self.content_type,
    {
        ProtocolPayload { content_type: self.content_type.clone(), body: self.body.clone() }
    }
}

impl ProtocolPayload {
    /// Validation problem of this payload, if any.
    pub open spec fn problem(self) -> Option<ProtocolProblem> {
        optional_text_problem("payload.content_type"@, self.content_type)
    }

    /// Creates an empty protocol payload.
    pub fn empty() -> (r: Self)
        ensures
            r.content_type is None,
            r.body is Empty,
    {
        ProtocolPayload { content_type: None, body: ProtocolPayloadBody::Empty }
    }

    /// Creates an opaque protocol payload with a content type.
    pub fn opaque(content_type: &str, bytes: Vec<u8>) -> (r: Self)
        ensures
            r.content_type is Some && r.content_type.unwrap()@ == content_type@,
            r.body == ProtocolPayloadBody::Opaque(bytes),
    {
        ProtocolPayload {
            content_type: Some(owned(content_type)),
            body: ProtocolPayloadBody::Opaque(bytes),
        }
    }

    fn validate(&self) -> (r: Result<(), CoreError>)
        ensures
            reports_problem(r, self.problem()),
    {
        validate_optional_text("payload.content_type", &self.content_type)
    }
}

/// Body storage for canonical protocol payloads.
#[derive(Debug, PartialEq, Eq)]
pub enum ProtocolPayloadBody {
    /// Payload body is empty.
    Empty,
    /// Payload body is stored as opaque bytes.
    Opaque(Vec<u8>),
}

impl View for ProtocolPayloadBody {
    type V = Option<Seq<u8>>;

    /// No bytes for an empty body, the bytes of an opaque one.
    open spec fn view(&self) -> Option<Seq<u8>> {
        match self {
            ProtocolPayloadBody::Empty => None,
            ProtocolPayloadBody::Opaque(bytes) => Some(bytes@),
        }
    }
}

impl Clone for ProtocolPayloadBody {
    fn clone(&self) -> (r: Self)
        ensures
            r@ == self@,
    {
        match self {
            ProtocolPayloadBody::Empty => ProtocolPayloadBody::Empty,
            ProtocolPayloadBody::Opaque(bytes) => {
                let copy = bytes.clone();
                assert(copy@ =~= bytes@);
                ProtocolPayloadBody::Opaque(copy)
            },
        }
    }
}

/// HTTP-like status attached to a canonical protocol response.
#[derive(Debug, PartialEq, Eq)]
pub struct ProtocolResponseStatus {
    /// Stable code or numeric status for this value.
    pub code: u16,
    /// Human-readable reason for this state.
    pub reason: Option<String>,
}

impl Clone for ProtocolResponseStatus {
    fn clone(&self) -> (r: Self)
        ensures
            r == *self,
    {
        ProtocolResponseStatus { code: self.code, reason: self.reason.clone() }
    }
}

impl ProtocolResponseStatus {
    /// Validation problem of this status: code range first, then reason.
    pub open spec fn problem(self) -> Option<ProtocolProblem> {
        if !(100 <= self.code && self.code <= 599) {
            Some(("status.code"@, "status code must be in the 100..=599 range"@))
        } else {
            optional_text_problem("status.reason"@, self.reason)
        }
    }

    /// Creates a validated value for this public contract.
    pub fn new(code: u16, reason: Option<String>) -> (r: Result<Self, CoreError>)
        ensures
            match r {
                Ok(v) => v == (ProtocolResponseStatus { code, reason }) && v.problem() is None,
                Err(e) => (ProtocolResponseStatus { code, reason }).problem() is Some
                    && is_protocol_error(e, (ProtocolResponseStatus { code, reason }).problem().unwrap()),
            },
    {
        let status = ProtocolResponseStatus { code, reason };
        status.validate()?;
        Ok(status)
    }

    /// Creates a successful response value.
    pub fn success() -> (r: Self)
        ensures
            r.code == 200,
            r.reason is Some && r.reason.unwrap()@ == "OK"@,
    {
        ProtocolResponseStatus { code: 200, reason: Some(owned("OK")) }
    }

    fn validate(&self) -> (r: Result<(), CoreError>)
        ensures
            reports_problem(r, self.problem()),
    {
        if !(100 <= self.code && self.code <= 599) {
            return Err(
                CoreError::ProtocolValidation {
                    field: "status.code",
                    message: owned("status code must be in the 100..=599 range"),
                },
            );
        }
        validate_optional_text("status.reason", &self.reason)
    }
}

/// Result of a translation attempt or deferred translation marker.
#[derive(Clone, Debug, PartialEq, Eq)]
pub enum ProtocolTranslationOutcome<T> {
    /// Translation produced a converted value.
    Translated(T),
    /// Translation was validated but deliberately deferred.
    Deferred(DeferredProtocolTranslation),
}

/// The reason recorded on every deferred translation.
pub open spec fn deferred_reason() -> Seq<char> {
    "protocol translation behavior is intentionally deferred"@
}

impl<T> ProtocolTranslationOutcome<T> {
    /// Creates a deferred protocol translation outcome.
    pub fn deferred(
        direction: ProtocolTranslationDirection,
        source_family: ProtocolFamily,
        target_family: ProtocolFamily,
    ) -> (r: Self)
        ensures
            is_deferred_outcome(r, direction, source_family, target_family, false),
    {
        ProtocolTranslationOutcome::Deferred(
            DeferredProtocolTranslation {
                direction,
                source_family,
                target_family,
                reason: owned("protocol translation behavior is intentionally deferred"),
                preserved_reasoning_metadata: false,
            },
        )
    }
}

/// Deferred protocol translation details that can be converted into a core error.
#[derive(Clone, Debug, PartialEq, Eq)]
pub struct DeferredProtocolTranslation {
    /// Request or response translation direction.
    pub direction: ProtocolTranslationDirection,
    /// Original protocol family for translation.
    pub source_family: ProtocolFamily,
    /// Desired protocol family for translation.
    pub target_family: ProtocolFamily,
    /// Human-readable reason for this state.
    pub reason: String,
    /// Whether provider-neutral reasoning metadata travelled with the deferred value.
    pub preserved_reasoning_metadata: bool,
}

impl DeferredProtocolTranslation {
    /// Converts deferred translation details into a structured core error.
    pub fn into_error(self) -> (r: CoreError)
        ensures
            r == (CoreError::ProtocolTranslationDeferred {
                direction: self.direction,
                source_family: self.source_family,
                target_family: self.target_family,
                message: self.reason,
            }),
    {
        CoreError::ProtocolTranslationDeferred {
            direction: self.direction,
            source_family: self.source_family,
            target_family: self.target_family,
            message: self.reason,
        }
    }
}

/// Direction of a request or response protocol translation.
#[derive(Clone, Copy, Debug, PartialEq, Eq, Structural)]
pub enum ProtocolTranslationDirection {
    /// Translation applies to a request.
    Request,
    /// Translation applies to a response.
    Response,
}

} // verus!
