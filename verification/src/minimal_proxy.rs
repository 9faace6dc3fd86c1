//! Minimal local proxy smoke-route contracts.
//!
//! This module validates a small OpenAI-compatible chat-completions request shape,
//! routes it through core policy and provider execution, and serializes basic JSON
//! responses for local runtime tests and bootstrap behavior.

use vstd::prelude::*;

use crate::errors::CoreError;
use crate::json::{json_member, json_object, json_quote, json_string, member, object, array, json_array};
use crate::local_client_auth::LocalClientAuthorizationFailure;
use crate::local_runtime::{skip_space, skip_space_exec, trim_end, trim_end_exec};
use crate::protocol::{
    CanonicalProtocolRequest, CanonicalProtocolResponse, CanonicalRequestView, ProtocolMetadata,
    ProtocolPayload, ProtocolPayloadBody, ProtocolPayloadView,
};
use crate::provider::{ProviderExecutionRequest, ProviderExecutionResult, ProviderExecutor};
use crate::reasoning::ReasoningCompatibilityOutcome;
use crate::routing::{
    is_routing_failure, selection_of, RoutingAvailabilitySnapshot, RoutingBoundary, RoutingPolicy,
    RoutingSelectionRequest,
};
use crate::streaming::ResponseMode;
use crate::text::{concat2, is_blank_text, is_whitespace_char, char_is_whitespace, opt_text, owned};

verus! {

/// OpenAI-compatible chat completions path served by the minimal proxy engine.
pub const MINIMAL_CHAT_COMPLETIONS_PATH: &'static str = "/v1/chat/completions";

/// JSON content type returned by deterministic minimal proxy responses.
pub const MINIMAL_PROXY_JSON_CONTENT_TYPE: &'static str = "application/json";

/// Maximum request body size accepted by the minimal proxy parser.
pub const MAX_MINIMAL_PROXY_BODY_BYTES: usize = 65536;

/// Stable error code serialized by minimal proxy responses.
#[derive(Clone, Copy, Debug, PartialEq, Eq, Structural)]
pub enum MinimalProxyErrorCode {
    /// Request body was not valid JSON.
    InvalidJson,
    /// Request body omitted the model field.
    MissingModel,
    /// Request model was blank.
    BlankModel,
    /// Request shape is outside the minimal route contract.
    UnsupportedRequestShape,
    /// Request body exceeded the minimal proxy size limit.
    RequestTooLarge,
    /// Routing selection failed.
    RoutingFailed,
    /// Provider execution failed.
    ProviderExecutionFailed,
    /// Provider response mode cannot be serialized by this route.
    UnsupportedResponseMode,
    /// Minimal proxy response serialization failed.
    ResponseSerializationFailed,
    /// Local request path is not supported by the minimal runtime.
    UnsupportedPath,
    /// Local client authorization failed for a protected route.
    LocalClientUnauthorized,
}

impl MinimalProxyErrorCode {
    /// The stable serialized code.
    pub open spec fn code(self) -> Seq<char> {
        match self {
            MinimalProxyErrorCode::InvalidJson => "invalid_json"@,
            MinimalProxyErrorCode::MissingModel => "missing_model"@,
            MinimalProxyErrorCode::BlankModel => "blank_model"@,
            MinimalProxyErrorCode::UnsupportedRequestShape => "unsupported_request_shape"@,
            MinimalProxyErrorCode::RequestTooLarge => "request_too_large"@,
            MinimalProxyErrorCode::RoutingFailed => "routing_failed"@,
            MinimalProxyErrorCode::ProviderExecutionFailed => "provider_execution_failed"@,
            MinimalProxyErrorCode::UnsupportedResponseMode => "unsupported_response_mode"@,
            MinimalProxyErrorCode::ResponseSerializationFailed => "response_serialization_failed"@,
            MinimalProxyErrorCode::UnsupportedPath => "unsupported_path"@,
            MinimalProxyErrorCode::LocalClientUnauthorized => "local_client_unauthorized"@,
        }
    }

    /// Returns the stable serialized error code string.
    pub fn as_str(self) -> (r: &'static str)
        ensures
            r@ == self.code(),
    {
        match self {
            MinimalProxyErrorCode::InvalidJson => "invalid_json",
            MinimalProxyErrorCode::MissingModel => "missing_model",
            MinimalProxyErrorCode::BlankModel => "blank_model",
            MinimalProxyErrorCode::UnsupportedRequestShape => "unsupported_request_shape",
            MinimalProxyErrorCode::RequestTooLarge => "request_too_large",
            MinimalProxyErrorCode::RoutingFailed => "routing_failed",
            MinimalProxyErrorCode::ProviderExecutionFailed => "provider_execution_failed",
            MinimalProxyErrorCode::UnsupportedResponseMode => "unsupported_response_mode",
            MinimalProxyErrorCode::ResponseSerializationFailed => "response_serialization_failed",
            MinimalProxyErrorCode::UnsupportedPath => "unsupported_path",
            MinimalProxyErrorCode::LocalClientUnauthorized => "local_client_unauthorized",
        }
    }

    /// Stable code that a proxy response reports for an error.
    pub open spec fn of_error(error: CoreError) -> MinimalProxyErrorCode {
        match error {
            CoreError::MinimalProxyRequestValidation { code, .. } => code,
            CoreError::LocalClientAuthorization { .. } => MinimalProxyErrorCode::LocalClientUnauthorized,
            CoreError::Routing { .. } => MinimalProxyErrorCode::RoutingFailed,
            CoreError::ProviderExecution { .. } => MinimalProxyErrorCode::ProviderExecutionFailed,
            CoreError::MinimalProxyUnsupportedResponseMode { .. } => MinimalProxyErrorCode::UnsupportedResponseMode,
            CoreError::MinimalProxyResponseSerialization { .. } => {
                MinimalProxyErrorCode::ResponseSerializationFailed
            },
            _ => MinimalProxyErrorCode::ProviderExecutionFailed,
        }
    }

    fn from_core_error(error: &CoreError) -> (r: Self)
        ensures
            r == MinimalProxyErrorCode::of_error(*error),
    {
        match error {
            CoreError::MinimalProxyRequestValidation { code, .. } => *code,
            CoreError::LocalClientAuthorization { .. } => MinimalProxyErrorCode::LocalClientUnauthorized,
            CoreError::Routing { .. } => MinimalProxyErrorCode::RoutingFailed,
            CoreError::ProviderExecution { .. } => MinimalProxyErrorCode::ProviderExecutionFailed,
            CoreError::MinimalProxyUnsupportedResponseMode { .. } => MinimalProxyErrorCode::UnsupportedResponseMode,
            CoreError::MinimalProxyResponseSerialization { .. } => {
                MinimalProxyErrorCode::ResponseSerializationFailed
            },
            _ => MinimalProxyErrorCode::ProviderExecutionFailed,
        }
    }
}

// ---------------------------------------------------------------------------
// Requests
// ---------------------------------------------------------------------------

/// A minimal proxy request diagnostic: field, stable code and message.
pub type MinimalProblem = (Seq<char>, MinimalProxyErrorCode, Seq<char>);

/// The error is the minimal proxy request validation error for this diagnostic.
pub open spec fn is_minimal_error(e: CoreError, p: MinimalProblem) -> bool {
    e matches CoreError::MinimalProxyRequestValidation { field, code, message } && field@ == p.0 && code
        == p.1 && message@ == p.2
}

fn invalid_request(field: &'static str, code: MinimalProxyErrorCode, message: &str) -> (r: CoreError)
    ensures
        is_minimal_error(r, (field@, code, message@)),
{
    CoreError::MinimalProxyRequestValidation { field, code, message: owned(message) }
}

/// Validated request body for the minimal local chat-completions route.
#[derive(Clone, Debug, PartialEq, Eq)]
pub struct MinimalProxyRequest {
    /// Request body bytes.
    pub body: Vec<u8>,
}

/// Diagnostic of a request body above the size limit.
pub open spec fn too_large_problem() -> MinimalProblem {
    ("body"@, MinimalProxyErrorCode::RequestTooLarge, "request body exceeds minimal proxy body limit"@)
}

impl MinimalProxyRequest {
    /// Creates a minimal OpenAI chat-completions request body; bodies above the size limit are refused.
    pub fn open_ai_chat_completions(body: Vec<u8>) -> (r: Result<Self, CoreError>)
        ensures
            body@.len() <= MAX_MINIMAL_PROXY_BODY_BYTES ==> r is Ok && r->Ok_0.body@ == body@,
            r is Ok ==> r->Ok_0 == (MinimalProxyRequest { body }),
            body@.len() > MAX_MINIMAL_PROXY_BODY_BYTES ==> r is Err && is_minimal_error(
                r->Err_0,
                too_large_problem(),
            ),
    {
        let request = MinimalProxyRequest { body };
        request.validate()?;
        Ok(request)
    }

    /// Validates this value and returns a structured core error on failure.
    pub fn validate(&self) -> (r: Result<(), CoreError>)
        ensures
            self.body@.len() <= MAX_MINIMAL_PROXY_BODY_BYTES ==> r is Ok,
            self.body@.len() > MAX_MINIMAL_PROXY_BODY_BYTES ==> r is Err && is_minimal_error(
                r->Err_0,
                too_large_problem(),
            ),
    {
        if self.body.len() > MAX_MINIMAL_PROXY_BODY_BYTES {
            return Err(
                invalid_request(
                    "body",
                    MinimalProxyErrorCode::RequestTooLarge,
                    "request body exceeds minimal proxy body limit",
                ),
            );
        }
        Ok(())
    }
}

/// What a JSON document holds under one key of its top-level object.
#[derive(Clone, Debug, PartialEq, Eq)]
pub enum JsonFieldShape {
    /// The key is absent.
    Missing,
    /// A string.
    Text(String),
    /// An array of this many elements.
    Array(usize),
    /// Any other value.
    Other,
}

/// What a chat-completions body holds, as far as the minimal route reads it.
#[derive(Clone, Debug, PartialEq, Eq)]
pub enum ChatJsonShape {
    /// The body is not valid JSON.
    Invalid,
    /// The body is JSON but not an object.
    NotObject,
    /// The body is an object with these `model` and `messages` members.
    Object {
        /// The `model` member.
        model: JsonFieldShape,
        /// The `messages` member.
        messages: JsonFieldShape,
    },
}

/// Model of a field shape.
pub enum JsonFieldView {
    /// Absent.
    Missing,
    /// A string by its characters.
    Text(Seq<char>),
    /// An array by its length.
    Array(nat),
    /// Anything else.
    Other,
}

/// Model of a body shape.
pub enum ChatJsonView {
    /// Not JSON.
    Invalid,
    /// Not an object.
    NotObject,
    /// An object.
    Object { model: JsonFieldView, messages: JsonFieldView },
}

impl View for JsonFieldShape {
    type V = JsonFieldView;

    open spec fn view(&self) -> JsonFieldView {
        match self {
            JsonFieldShape::Missing => JsonFieldView::Missing,
            JsonFieldShape::Text(t) => JsonFieldView::Text(t@),
            JsonFieldShape::Array(n) => JsonFieldView::Array(*n as nat),
            JsonFieldShape::Other => JsonFieldView::Other,
        }
    }
}

impl View for ChatJsonShape {
    type V = ChatJsonView;

    open spec fn view(&self) -> ChatJsonView {
        match self {
            ChatJsonShape::Invalid => ChatJsonView::Invalid,
            ChatJsonShape::NotObject => ChatJsonView::NotObject,
            ChatJsonShape::Object { model, messages } => ChatJsonView::Object {
                model: model@,
                messages: messages@,
            },
        }
    }
}

/// What `serde_json` reads from a body: whether it is JSON, whether it is an object, and
/// its `model` and `messages` members.
pub uninterp spec fn chat_json_shape(body: Seq<u8>) -> ChatJsonView;

/// Parses a body with `serde_json::from_slice` into a `serde_json::Value` and reports the
/// shape of its `model` and `messages` members.
#[verifier::external_body]
fn read_chat_json(body: &[u8]) -> (r: ChatJsonShape)
    ensures
        r@ == chat_json_shape(body@),
{
    let value: serde_json::Value = match serde_json::from_slice(body) {
        Ok(value) => value,
        Err(_) => return ChatJsonShape::Invalid,
    };
    let object = match value.as_object() {
        Some(object) => object,
        None => return ChatJsonShape::NotObject,
    };
    let shape = |key: &str| match object.get(key) {
        None => JsonFieldShape::Missing,
        Some(serde_json::Value::String(text)) => JsonFieldShape::Text(text.clone()),
        Some(serde_json::Value::Array(items)) => JsonFieldShape::Array(items.len()),
        Some(_) => JsonFieldShape::Other,
    };
    ChatJsonShape::Object { model: shape("model"), messages: shape("messages") }
}

/// A text without its leading and trailing whitespace (`str::trim`).
pub open spec fn trimmed(s: Seq<char>) -> Seq<char> {
    let a = skip_space(s, 0, s.len() as int);
    s.subrange(a, trim_end(s, a, s.len() as int))
}

/// Shape diagnostic of the minimal route.
pub open spec fn shape_problem(field: Seq<char>, message: Seq<char>) -> MinimalProblem {
    (field, MinimalProxyErrorCode::UnsupportedRequestShape, message)
}

/// The model a chat body names, trimmed, or its problem: the body must be a JSON object
/// whose `model` is a non-blank string and whose `messages` is a nonempty array.
pub open spec fn decoded_model(shape: ChatJsonView) -> Result<Seq<char>, MinimalProblem> {
    match shape {
        ChatJsonView::Invalid => Err(
            ("body"@, MinimalProxyErrorCode::InvalidJson, "request body must be valid JSON"@),
        ),
        ChatJsonView::NotObject => Err(shape_problem("body"@, "request body must be a JSON object"@)),
        ChatJsonView::Object { model, messages } => match model {
            JsonFieldView::Missing => Err(("model"@, MinimalProxyErrorCode::MissingModel, "model is required"@)),
            JsonFieldView::Text(m) => if trimmed(m).len() == 0 {
                Err(("model"@, MinimalProxyErrorCode::BlankModel, "model must not be blank"@))
            } else {
                match messages {
                    JsonFieldView::Array(n) => if n == 0 {
                        Err(
                            shape_problem(
                                "messages"@,
                                "messages must not be empty for the minimal smoke route"@,
                            ),
                        )
                    } else {
                        Ok(trimmed(m))
                    },
                    _ => Err(
                        shape_problem("messages"@, "messages must be an array for the minimal smoke route"@),
                    ),
                }
            },
            _ => Err(shape_problem("model"@, "model must be a string"@)),
        },
    }
}

/// Decides the requested model of a parsed chat body.
pub fn decode_chat_completion_shape(shape: &ChatJsonShape) -> (r: Result<String, CoreError>)
    ensures
        match decoded_model(shape@) {
            Ok(m) => r is Ok && r->Ok_0@ == m,
            Err(p) => r is Err && is_minimal_error(r->Err_0, p),
        },
{
    match shape {
        ChatJsonShape::Invalid => Err(
            invalid_request("body", MinimalProxyErrorCode::InvalidJson, "request body must be valid JSON"),
        ),
        ChatJsonShape::NotObject => Err(
            invalid_request(
                "body",
                MinimalProxyErrorCode::UnsupportedRequestShape,
                "request body must be a JSON object",
            ),
        ),
        ChatJsonShape::Object { model, messages } => {
            let text = match model {
                JsonFieldShape::Missing => {
                    return Err(
                        invalid_request("model", MinimalProxyErrorCode::MissingModel, "model is required"),
                    );
                },
                JsonFieldShape::Text(t) => t,
                _ => {
                    return Err(
                        invalid_request(
                            "model",
                            MinimalProxyErrorCode::UnsupportedRequestShape,
                            "model must be a string",
                        ),
                    );
                },
            };
            let trimmed_model = trim_text(text.as_str());
            if trimmed_model.unicode_len() == 0 {
                return Err(
                    invalid_request("model", MinimalProxyErrorCode::BlankModel, "model must not be blank"),
                );
            }
            match messages {
                JsonFieldShape::Array(n) => {
                    if *n == 0 {
                        return Err(
                            invalid_request(
                                "messages",
                                MinimalProxyErrorCode::UnsupportedRequestShape,
                                "messages must not be empty for the minimal smoke route",
                            ),
                        );
                    }
                },
                _ => {
                    return Err(
                        invalid_request(
                            "messages",
                            MinimalProxyErrorCode::UnsupportedRequestShape,
                            "messages must be an array for the minimal smoke route",
                        ),
                    );
                },
            }
            Ok(trimmed_model)
        },
    }
}

/// A trimmed text is empty or starts and ends with non-whitespace.
proof fn lemma_trimmed_not_blank(s: Seq<char>)
    ensures
        trimmed(s).len() > 0 ==> !is_blank_text(trimmed(s)),
{
    let m = trimmed(s);
    let a = skip_space(s, 0, s.len() as int);
    crate::local_runtime::lemma_skip_space(s, 0, s.len() as int);
    crate::local_runtime::lemma_trim_end_bounds(s, a, s.len() as int);
    if m.len() > 0 {
        assert(m[0] == s[a]);
    }
}

fn trim_text(s: &str) -> (r: String)
    ensures
        r@ == trimmed(s@),
{
    let n = s.unicode_len();
    proof {
        crate::local_runtime::lemma_skip_space(s@, 0, n as int);
    }
    let a = skip_space_exec(s, 0, n);
    proof {
        crate::local_runtime::lemma_trim_end_bounds(s@, a as int, n as int);
    }
    let b = trim_end_exec(s, a, n);
    owned(s.substring_char(a, b))
}

/// Reads a chat-completions body and decides its requested model.
fn decode_chat_completion_request(body: &[u8]) -> (r: Result<String, CoreError>)
    ensures
        match decoded_model(chat_json_shape(body@)) {
            Ok(m) => r is Ok && r->Ok_0@ == m,
            Err(p) => r is Err && is_minimal_error(r->Err_0, p),
        },
{
    let shape = read_chat_json(body);
    decode_chat_completion_shape(&shape)
}

// ---------------------------------------------------------------------------
// Responses
// ---------------------------------------------------------------------------

/// JSON body of a proxy error.
pub open spec fn error_body(code: Seq<char>, message: Seq<char>) -> Seq<char> {
    object(
        seq![
            member(
                "error"@,
                object(
                    seq![
                        member("code"@, json_string(code)),
                        member("message"@, json_string(message)),
                        member("type"@, json_string("oxmux_proxy_error"@)),
                    ],
                ),
            ),
        ],
    )
}

/// JSON body of a local client authorization failure.
pub open spec fn unauthorized_body(failure: LocalClientAuthorizationFailure) -> Seq<char> {
    object(
        seq![
            member(
                "error"@,
                object(
                    seq![
                        member("code"@, json_string("local_client_unauthorized"@)),
                        member("message"@, json_string(failure.message_spec())),
                        member("reason"@, json_string(failure.reason.code())),
                        member("scope"@, json_string(failure.scope.label())),
                        member("type"@, json_string("oxmux_proxy_error"@)),
                    ],
                ),
            ),
        ],
    )
}

/// JSON body of the management boundary.
pub open spec fn management_body() -> Seq<char> {
    object(
        seq![
            member("message"@, json_string("local management boundary reserved"@)),
            member("object"@, json_string("oxmux.management.boundary"@)),
            member("status"@, json_string("authorized"@)),
        ],
    )
}

/// JSON body of a chat completion answering `model` with `content`.
pub open spec fn chat_body(model: Seq<char>, content: Seq<char>) -> Seq<char> {
    object(
        seq![
            member(
                "choices"@,
                array(
                    seq![
                        object(
                            seq![
                                member("finish_reason"@, json_string("stop"@)),
                                member("index"@, "0"@),
                                member(
                                    "message"@,
                                    object(
                                        seq![
                                            member("content"@, json_string(content)),
                                            member("role"@, json_string("assistant"@)),
                                        ],
                                    ),
                                ),
                            ],
                        ),
                    ],
                ),
            ),
            member("created"@, "0"@),
            member("id"@, json_string("chatcmpl-oxmux-smoke"@)),
            member("model"@, json_string(model)),
            member("object"@, json_string("chat.completion"@)),
        ],
    )
}

fn object_of(members: Vec<String>) -> (r: String)
    ensures
        r@ == object(members@.map_values(|m: String| m@)),
{
    json_object(&members)
}

/// Writes the JSON body of a proxy error.
pub fn error_body_text(code: &str, message: &str) -> (r: String)
    ensures
        r@ == error_body(code@, message@),
{
    let inner = vec![
        json_member("code", json_quote(code).as_str()),
        json_member("message", json_quote(message).as_str()),
        json_member("type", json_quote("oxmux_proxy_error").as_str()),
    ];
    let ghost iv = inner@.map_values(|m: String| m@);
    assert(iv =~= seq![
        member("code"@, json_string(code@)),
        member("message"@, json_string(message@)),
        member("type"@, json_string("oxmux_proxy_error"@)),
    ]);
    let inner_text = object_of(inner);
    let outer = vec![json_member("error", inner_text.as_str())];
    assert(outer@.map_values(|m: String| m@) =~= seq![member("error"@, inner_text@)]);
    object_of(outer)
}

/// HTTP-style response emitted by the minimal proxy engine.
#[derive(Clone, Debug, PartialEq, Eq)]
pub struct MinimalProxyResponse {
    /// HTTP status code returned to the local client.
    pub status_code: u16,
    /// MIME-like content type of the body.
    pub content_type: &'static str,
    /// Serialized response body.
    pub body: String,
}

impl MinimalProxyResponse {
    /// The response to an error: 400 for request validation errors, the authorization body
    /// with 401 for local client authorization failures, else 502.
    pub open spec fn for_error(error: CoreError, r: MinimalProxyResponse) -> bool {
        &&& r.content_type@ == "application/json"@
        &&& match error {
            CoreError::MinimalProxyRequestValidation { code, .. } => r.status_code == 400 && r.body@
                == error_body(code.code(), error.message_spec()),
            CoreError::LocalClientAuthorization { failure } => r.status_code == 401 && r.body@
                == unauthorized_body(failure),
            _ => r.status_code == 502 && r.body@ == error_body(
                MinimalProxyErrorCode::of_error(error).code(),
                error.message_spec(),
            ),
        }
    }

    /// Creates a successful response value.
    pub fn success(body: String) -> (r: Self)
        ensures
            r.status_code == 200,
            r.content_type@ == "application/json"@,
            r.body == body,
    {
        MinimalProxyResponse { status_code: 200, content_type: MINIMAL_PROXY_JSON_CONTENT_TYPE, body }
    }

    /// Creates a minimal proxy response for a client request error.
    pub fn invalid_request(error: &CoreError) -> (r: Self)
        ensures
            r.status_code == 400,
            r.content_type@ == "application/json"@,
            r.body@ == error_body(MinimalProxyErrorCode::of_error(*error).code(), error.message_spec()),
    {
        MinimalProxyResponse::error(400, MinimalProxyErrorCode::from_core_error(error), error)
    }

    /// Creates a minimal proxy response for an upstream core failure.
    pub fn proxy_failure(error: &CoreError) -> (r: Self)
        ensures
            r.status_code == 502,
            r.content_type@ == "application/json"@,
            r.body@ == error_body(MinimalProxyErrorCode::of_error(*error).code(), error.message_spec()),
    {
        MinimalProxyResponse::error(502, MinimalProxyErrorCode::from_core_error(error), error)
    }

    /// Creates a minimal proxy response for unsupported local paths.
    pub fn unsupported_path() -> (r: Self)
        ensures
            r.status_code == 404,
            r.content_type@ == "application/json"@,
            r.body@ == error_body("unsupported_path"@, "unsupported local proxy path"@),
    {
        MinimalProxyResponse::error_body(404, MinimalProxyErrorCode::UnsupportedPath, "unsupported local proxy path")
    }

    /// Creates a minimal proxy response for local client authorization failures.
    pub fn local_client_unauthorized(failure: &LocalClientAuthorizationFailure) -> (r: Self)
        ensures
            r.status_code == 401,
            r.content_type@ == "application/json"@,
            r.body@ == unauthorized_body(*failure),
    {
        let message = failure.message();
        let inner = vec![
            json_member("code", json_quote(MinimalProxyErrorCode::LocalClientUnauthorized.as_str()).as_str()),
            json_member("message", json_quote(message.as_str()).as_str()),
            json_member("reason", json_quote(failure.reason.as_str()).as_str()),
            json_member("scope", json_quote(failure.scope.as_str()).as_str()),
            json_member("type", json_quote("oxmux_proxy_error").as_str()),
        ];
        assert(inner@.map_values(|m: String| m@) =~= seq![
            member("code"@, json_string("local_client_unauthorized"@)),
            member("message"@, json_string(failure.message_spec())),
            member("reason"@, json_string(failure.reason.code())),
            member("scope"@, json_string(failure.scope.label())),
            member("type"@, json_string("oxmux_proxy_error"@)),
        ]);
        let inner_text = object_of(inner);
        let outer = vec![json_member("error", inner_text.as_str())];
        assert(outer@.map_values(|m: String| m@) =~= seq![member("error"@, inner_text@)]);
        MinimalProxyResponse {
            status_code: 401,
            content_type: MINIMAL_PROXY_JSON_CONTENT_TYPE,
            body: object_of(outer),
        }
    }

    /// Creates a deterministic protected management boundary response.
    pub fn management_boundary() -> (r: Self)
        ensures
            r.status_code == 200,
            r.content_type@ == "application/json"@,
            r.body@ == management_body(),
    {
        let members = vec![
            json_member("message", json_quote("local management boundary reserved").as_str()),
            json_member("object", json_quote("oxmux.management.boundary").as_str()),
            json_member("status", json_quote("authorized").as_str()),
        ];
        assert(members@.map_values(|m: String| m@) =~= seq![
            member("message"@, json_string("local management boundary reserved"@)),
            member("object"@, json_string("oxmux.management.boundary"@)),
            member("status"@, json_string("authorized"@)),
        ]);
        MinimalProxyResponse::success(object_of(members))
    }

    /// Maps a core error into a minimal proxy response.
    pub fn from_core_error(error: &CoreError) -> (r: Self)
        ensures
            MinimalProxyResponse::for_error(*error, r),
    {
        match error {
            CoreError::MinimalProxyRequestValidation { .. } => MinimalProxyResponse::invalid_request(error),
            CoreError::LocalClientAuthorization { failure } => {
                MinimalProxyResponse::local_client_unauthorized(failure)
            },
            _ => MinimalProxyResponse::proxy_failure(error),
        }
    }

    fn error(status_code: u16, code: MinimalProxyErrorCode, error: &CoreError) -> (r: Self)
        ensures
            r.status_code == status_code,
            r.content_type@ == "application/json"@,
            r.body@ == error_body(code.code(), error.message_spec()),
    {
        let message = error.to_string();
        MinimalProxyResponse::error_body(status_code, code, message.as_str())
    }

    fn error_body(status_code: u16, code: MinimalProxyErrorCode, message: &str) -> (r: Self)
        ensures
            r.status_code == status_code,
            r.content_type@ == "application/json"@,
            r.body@ == error_body(code.code(), message@),
    {
        MinimalProxyResponse {
            status_code,
            content_type: MINIMAL_PROXY_JSON_CONTENT_TYPE,
            body: error_body_text(code.as_str(), message),
        }
    }
}

// ---------------------------------------------------------------------------
// Engine
// ---------------------------------------------------------------------------

/// Text of a UTF-8 decoding error of these bytes, as `FromUtf8Error` displays it.
pub uninterp spec fn utf8_error_text(bytes: Seq<u8>) -> Seq<char>;

/// Decodes bytes as UTF-8 (`String::from_utf8`); on failure returns the error's text.
#[verifier::external_body]
fn text_from_utf8(bytes: Vec<u8>) -> (r: Result<String, String>)
    ensures
        match r {
            Ok(text) => vstd::utf8::valid_utf8(bytes@) && text@ == vstd::utf8::decode_utf8(bytes@),
            Err(message) => !vstd::utf8::valid_utf8(bytes@) && message@ == utf8_error_text(bytes@),
        },
{
    match String::from_utf8(bytes) {
        Ok(text) => Ok(text),
        Err(error) => Err(error.to_string()),
    }
}

/// Synchronous engine for the minimal local chat-completions smoke route.
#[derive(Clone, Copy, Debug, PartialEq, Eq, Structural)]
pub struct MinimalProxyEngine;

/// Borrowed routing, availability, and provider executor inputs for minimal proxy execution.
pub struct MinimalProxyEngineConfig<'a, E: ProviderExecutor> {
    /// Routing policy used by the minimal proxy route.
    pub routing_policy: &'a RoutingPolicy,
    /// Target availability used by the minimal proxy route.
    pub availability: &'a RoutingAvailabilitySnapshot,
    /// Provider executor used by the minimal proxy route.
    pub provider_executor: &'a E,
}

impl<'a, E: ProviderExecutor> MinimalProxyEngineConfig<'a, E> {
    /// Creates engine configuration from routing, availability, and provider execution inputs.
    pub fn new(
        routing_policy: &'a RoutingPolicy,
        availability: &'a RoutingAvailabilitySnapshot,
        provider_executor: &'a E,
    ) -> (r: Self)
        ensures
            r.routing_policy == routing_policy,
            r.availability == availability,
            r.provider_executor == provider_executor,
    {
        MinimalProxyEngineConfig { routing_policy, availability, provider_executor }
    }
}

/// The canonical request a chat body becomes: OpenAI protocol, the decoded model, the body
/// as an opaque JSON payload, no reasoning intent.
pub open spec fn canonical_chat_request(model: Seq<char>, body: Seq<u8>) -> CanonicalRequestView {
    CanonicalRequestView {
        protocol: ProtocolMetadata::OpenAi(crate::protocol::OpenAiProtocolMetadata { api_version: None }),
        model,
        payload: ProtocolPayloadView { content_type: Some("application/json"@), body: Some(body) },
        reasoning: crate::reasoning::ReasoningRequest::Absent,
    }
}

/// What preparing a chat request leads to: its problem, the routing failure, or the
/// provider request for the selected target.
pub open spec fn prepared_request(
    request: MinimalProxyRequest,
    policy: RoutingPolicy,
    availability: RoutingAvailabilitySnapshot,
    r: Result<(String, ProviderExecutionRequest), CoreError>,
) -> bool {
    if request.body@.len() > MAX_MINIMAL_PROXY_BODY_BYTES {
        r is Err && is_minimal_error(r->Err_0, too_large_problem())
    } else {
        match decoded_model(chat_json_shape(request.body@)) {
            Err(p) => r is Err && is_minimal_error(r->Err_0, p),
            Ok(model) => match selection_of(policy, model, None, None, None, availability) {
                Err(f) => r is Err && is_routing_failure(r->Err_0, f),
                Ok(selection) => r is Ok && ({
                    let (m, provider_request) = r->Ok_0;
                    &&& m@ == model
                    &&& provider_request.provider_id@ == selection.selected_target.provider_id@
                    &&& opt_text(provider_request.account_id) == opt_text(selection.selected_target.account_id)
                    &&& provider_request.request@ == canonical_chat_request(model, request.body@)
                    &&& provider_request.reasoning_outcome is Absent
                }),
            },
        }
    }
}

/// Whether preparing the provider request fails: the body is too large, carries no usable
/// model, or the model has no routable target.
pub open spec fn preparation_fails(
    request: MinimalProxyRequest,
    policy: RoutingPolicy,
    availability: RoutingAvailabilitySnapshot,
) -> bool {
    ||| request.body@.len() > MAX_MINIMAL_PROXY_BODY_BYTES
    ||| decoded_model(chat_json_shape(request.body@)) is Err
    ||| selection_of(
        policy,
        decoded_model(chat_json_shape(request.body@))->Ok_0,
        None,
        None,
        None,
        availability,
    ) is Err
}

/// What the chat route answers: a request that fails preparation fails with the prepared
/// error; otherwise the prepared provider request goes to the executor, whose error is
/// returned as it is and whose result is completed for the decoded model.
pub open spec fn chat_route_result<E: ProviderExecutor>(
    executor: E,
    request: MinimalProxyRequest,
    policy: RoutingPolicy,
    availability: RoutingAvailabilitySnapshot,
    r: Result<MinimalProxyResponse, CoreError>,
) -> bool {
    if preparation_fails(request, policy, availability) {
        r is Err && prepared_request(
            request,
            policy,
            availability,
            Err::<(String, ProviderExecutionRequest), CoreError>(r->Err_0),
        )
    } else {
        exists|
            model: String,
            provider_request: ProviderExecutionRequest,
            executed: Result<ProviderExecutionResult, CoreError>,
        |
            #[trigger] prepared_request(request, policy, availability, Ok((model, provider_request)))
                && #[trigger] executor.outcome_for(provider_request, executed) && match executed {
                Err(e) => r == Err::<MinimalProxyResponse, CoreError>(e),
                Ok(result) => completed_response(model@, result.outcome.mode_of(), r),
            }
    }
}

/// The response that stands for a chat route result: the response itself, or the error
/// response of the error.
pub open spec fn answers_with(result: Result<MinimalProxyResponse, CoreError>, r: MinimalProxyResponse) -> bool {
    match result {
        Ok(response) => r == response,
        Err(error) => MinimalProxyResponse::for_error(error, r),
    }
}

/// The responses that stand for what the chat route answers.
pub open spec fn chat_route_response<E: ProviderExecutor>(
    executor: E,
    request: MinimalProxyRequest,
    policy: RoutingPolicy,
    availability: RoutingAvailabilitySnapshot,
    r: MinimalProxyResponse,
) -> bool {
    exists|result: Result<MinimalProxyResponse, CoreError>|
        #[trigger] chat_route_result(executor, request, policy, availability, result) && answers_with(result, r)
}

/// JSON error body of a request diagnostic.
pub open spec fn problem_body(p: MinimalProblem) -> Seq<char> {
    error_body(p.1.code(), "minimal proxy request field "@ + p.0 + " is invalid: "@ + p.2)
}

/// What a provider result becomes: a chat completion of its complete response, or a
/// failure for a streaming response or a body that is not UTF-8 text.
pub open spec fn completed_response(
    model: Seq<char>,
    mode: ResponseMode,
    r: Result<MinimalProxyResponse, CoreError>,
) -> bool {
    match mode {
        ResponseMode::Streaming(_) => r is Err && (r->Err_0 matches CoreError::MinimalProxyUnsupportedResponseMode {
            message,
        } && message@ == "minimal chat-completion route only supports complete responses"@),
        ResponseMode::Complete(response) => match response.payload.body {
            ProtocolPayloadBody::Empty => r is Ok && r->Ok_0.status_code == 200 && r->Ok_0.body@ == chat_body(
                model,
                Seq::empty(),
            ),
            ProtocolPayloadBody::Opaque(bytes) => if vstd::utf8::valid_utf8(bytes@) {
                r is Ok && r->Ok_0.status_code == 200 && r->Ok_0.body@ == chat_body(
                    model,
                    vstd::utf8::decode_utf8(bytes@),
                )
            } else {
                r is Err && (r->Err_0 matches CoreError::MinimalProxyResponseSerialization { message }
                    && message@ == "provider response payload is not valid UTF-8: "@ + utf8_error_text(
                    bytes@,
                ))
            },
        },
    }
}

fn chat_body_text(model: &str, content: &str) -> (r: String)
    ensures
        r@ == chat_body(model@, content@),
{
    let message_members = vec![
        json_member("content", json_quote(content).as_str()),
        json_member("role", json_quote("assistant").as_str()),
    ];
    assert(message_members@.map_values(|m: String| m@) =~= seq![
        member("content"@, json_string(content@)),
        member("role"@, json_string("assistant"@)),
    ]);
    let message = object_of(message_members);
    let choice_members = vec![
        json_member("finish_reason", json_quote("stop").as_str()),
        json_member("index", "0"),
        json_member("message", message.as_str()),
    ];
    assert(choice_members@.map_values(|m: String| m@) =~= seq![
        member("finish_reason"@, json_string("stop"@)),
        member("index"@, "0"@),
        member("message"@, message@),
    ]);
    let choice = object_of(choice_members);
    let choices_list = vec![choice];
    let ghost choice_view = choices_list@[0]@;
    assert(choices_list@.map_values(|m: String| m@) =~= seq![choice_view]);
    let choices = json_array(&choices_list);
    let members = vec![
        json_member("choices", choices.as_str()),
        json_member("created", "0"),
        json_member("id", json_quote("chatcmpl-oxmux-smoke").as_str()),
        json_member("model", json_quote(model).as_str()),
        json_member("object", json_quote("chat.completion").as_str()),
    ];
    assert(members@.map_values(|m: String| m@) =~= seq![
        member("choices"@, choices@),
        member("created"@, "0"@),
        member("id"@, json_string("chatcmpl-oxmux-smoke"@)),
        member("model"@, json_string(model@)),
        member("object"@, json_string("chat.completion"@)),
    ]);
    object_of(members)
}

/// Writes the chat completion body answering `requested_model` with a complete response's
/// payload as assistant text; a payload that is not UTF-8 text cannot be written.
fn encode_chat_completion_response(requested_model: &str, response: &CanonicalProtocolResponse) -> (r: Result<
    MinimalProxyResponse,
    CoreError,
>)
    ensures
        completed_response(requested_model@, ResponseMode::Complete(*response), r),
        r is Ok ==> r->Ok_0.status_code == 200 && r->Ok_0.content_type@ == "application/json"@,
{
    let content = match &response.payload.body {
        ProtocolPayloadBody::Empty => String::new(),
        ProtocolPayloadBody::Opaque(bytes) => match text_from_utf8(bytes.clone()) {
            Ok(text) => text,
            Err(message) => {
                return Err(
                    CoreError::MinimalProxyResponseSerialization {
                        message: concat2("provider response payload is not valid UTF-8: ", message.as_str()),
                    },
                );
            },
        },
    };
    Ok(MinimalProxyResponse::success(chat_body_text(requested_model, content.as_str())))
}

impl MinimalProxyEngine {
    /// Validates and decodes a chat request, routes its model, and builds the provider request.
    pub fn prepare_provider_request(
        request: MinimalProxyRequest,
        routing_policy: &RoutingPolicy,
        availability: &RoutingAvailabilitySnapshot,
    ) -> (r: Result<(String, ProviderExecutionRequest), CoreError>)
        ensures
            prepared_request(request, *routing_policy, *availability, r),
    {
        request.validate()?;
        let requested_model = decode_chat_completion_request(request.body.as_slice())?;
        proof {
            match chat_json_shape(request.body@) {
                ChatJsonView::Object { model: JsonFieldView::Text(t), .. } => lemma_trimmed_not_blank(t),
                _ => {},
            }
            reveal_strlit("application/json");
            assert(!crate::text::is_whitespace_char("application/json"@[0]));
        }
        let canonical_request = CanonicalProtocolRequest::new(
            ProtocolMetadata::open_ai(),
            requested_model.as_str(),
            ProtocolPayload::opaque(MINIMAL_PROXY_JSON_CONTENT_TYPE, request.body),
        )?;
        let selection_request = RoutingSelectionRequest::new(requested_model.as_str());
        assert(crate::routing::selection_spec(*routing_policy, selection_request, *availability) == selection_of(
            *routing_policy,
            requested_model@,
            None,
            None,
            None,
            *availability,
        ));
        let selection = match RoutingBoundary::select(routing_policy, &selection_request, availability) {
            Ok(selection) => selection,
            Err(error) => {
                return Err(error);
            },
        };
        proof {
            crate::routing::lemma_selected_target_is_valid(
                *routing_policy,
                requested_model@,
                None,
                None,
                None,
                *availability,
            );
        }
        let provider_request = ProviderExecutionRequest::new(
            selection.selected_target.provider_id.as_str(),
            selection.selected_target.account_id,
            canonical_request,
        )?;
        Ok((requested_model, provider_request))
    }

    /// Turns the provider's result for `requested_model` into the chat completion response.
    pub fn complete_provider_response(requested_model: &str, result: ProviderExecutionResult) -> (r:
        Result<MinimalProxyResponse, CoreError>)
        ensures
            completed_response(requested_model@, result.outcome.mode_of(), r),
            r is Ok ==> r->Ok_0.status_code == 200 && r->Ok_0.content_type@ == "application/json"@,
    {
        let response = match result.outcome.response_mode() {
            ResponseMode::Complete(response) => response,
            ResponseMode::Streaming(_) => {
                return Err(
                    CoreError::MinimalProxyUnsupportedResponseMode {
                        message: owned("minimal chat-completion route only supports complete responses"),
                    },
                );
            },
        };
        encode_chat_completion_response(requested_model, response)
    }

    /// Executes the minimal chat route: prepares the provider request, hands it to the
    /// executor, and completes the response from the executor's result. A request that
    /// fails preparation fails; a response is the chat completion, for the decoded model,
    /// of the response mode the executor returned.
    pub fn execute<E: ProviderExecutor>(request: MinimalProxyRequest, config: MinimalProxyEngineConfig<'_, E>) -> (r:
        Result<MinimalProxyResponse, CoreError>)
        ensures
            chat_route_result(*config.provider_executor, request, *config.routing_policy, *config.availability, r),
            preparation_fails(request, *config.routing_policy, *config.availability) ==> r is Err
                && prepared_request(
                request,
                *config.routing_policy,
                *config.availability,
                Err::<(String, ProviderExecutionRequest), CoreError>(r->Err_0),
            ),
            r is Ok ==> r->Ok_0.status_code == 200 && r->Ok_0.content_type@ == "application/json"@,
            r is Ok ==> decoded_model(chat_json_shape(request.body@)) is Ok && exists|mode: ResponseMode|
                #[trigger] completed_response(decoded_model(chat_json_shape(request.body@))->Ok_0, mode, r),
    {
        let ghost body = request.body@;
        let ghost original = request;
        let prepared = MinimalProxyEngine::prepare_provider_request(
            request,
            config.routing_policy,
            config.availability,
        );
        let ghost prepared_value = prepared;
        let (requested_model, provider_request) = match prepared {
            Ok(p) => p,
            Err(e) => {
                return Err(e);
            },
        };
        let ghost sent = provider_request;
        let executed = config.provider_executor.execute(provider_request);
        let ghost executed_value = executed;
        let provider_result = match executed {
            Ok(result) => result,
            Err(e) => {
                assert(prepared_request(
                    original,
                    *config.routing_policy,
                    *config.availability,
                    Ok((requested_model, sent)),
                ));
                return Err(e);
            },
        };
        let ghost mode = provider_result.outcome.mode_of();
        let r = MinimalProxyEngine::complete_provider_response(requested_model.as_str(), provider_result);
        assert(completed_response(decoded_model(chat_json_shape(body))->Ok_0, mode, r));
        assert(prepared_request(original, *config.routing_policy, *config.availability, Ok((requested_model, sent))));
        assert(config.provider_executor.outcome_for(sent, executed_value));
        r
    }

    /// Executes a minimal proxy request and maps failures into proxy responses.
    pub fn execute_to_response<E: ProviderExecutor>(
        request: MinimalProxyRequest,
        config: MinimalProxyEngineConfig<'_, E>,
    ) -> (r: MinimalProxyResponse)
        ensures
            r.content_type@ == "application/json"@,
            r.status_code == 200 || exists|e: CoreError| #[trigger] MinimalProxyResponse::for_error(e, r),
            chat_route_response(*config.provider_executor, request, *config.routing_policy, *config.availability, r),
            preparation_fails(request, *config.routing_policy, *config.availability) ==> exists|e: CoreError|
                #[trigger] prepared_request(
                    request,
                    *config.routing_policy,
                    *config.availability,
                    Err::<(String, ProviderExecutionRequest), CoreError>(e),
                ) && MinimalProxyResponse::for_error(e, r),
            r.status_code == 200 ==> exists|mode: ResponseMode|
                #[trigger] completed_response(
                    decoded_model(chat_json_shape(request.body@))->Ok_0,
                    mode,
                    Ok::<MinimalProxyResponse, CoreError>(r),
                ),
    {
        let ghost original = request;
        let result = MinimalProxyEngine::execute(request, config);
        let ghost result_value = result;
        match result {
            Ok(response) => {
                assert(answers_with(result_value, response));
                response
            },
            Err(error) => {
                let r = MinimalProxyResponse::from_core_error(&error);
                assert(MinimalProxyResponse::for_error(error, r));
                assert(answers_with(result_value, r));
                r
            },
        }
    }
}

} // verus!
