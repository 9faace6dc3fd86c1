use oxmux::{
    AuthMethodCategory, CanonicalProtocolResponse, MinimalProxyEngine, MinimalProxyEngineConfig,
    MinimalProxyRequest, MockProviderAccount, MockProviderHarness, MockProviderOutcome, ModelRoute,
    ProtocolMetadata, ProtocolPayload, ProtocolResponseStatus, RoutingAvailabilitySnapshot,
    RoutingAvailabilityState, RoutingCandidate, RoutingPolicy, RoutingTarget,
    RoutingTargetAvailability,
    CoreError, LocalClientAuthorizationFailure, LocalClientAuthorizationFailureReason,
    LocalClientRouteScope, MinimalProxyErrorCode, MinimalProxyResponse, ProtocolFamily,
    ProtocolTranslationDirection, RoutingFailure,
};

#[test]
fn error_bodies_are_compact_json_with_sorted_keys() {
    let response = MinimalProxyResponse::unsupported_path();
    assert_eq!(response.status_code, 404);
    assert_eq!(
        response.body,
        r#"{"error":{"code":"unsupported_path","message":"unsupported local proxy path","type":"oxmux_proxy_error"}}"#
    );
    let invalid = CoreError::MinimalProxyRequestValidation {
        field: "model",
        code: MinimalProxyErrorCode::BlankModel,
        message: "model must not be \"blank\"".to_string(),
    };
    let response = MinimalProxyResponse::from_core_error(&invalid);
    assert_eq!(response.status_code, 400);
    assert_eq!(
        response.body,
        r#"{"error":{"code":"blank_model","message":"minimal proxy request field model is invalid: model must not be \"blank\"","type":"oxmux_proxy_error"}}"#
    );
}

#[test]
fn unauthorized_and_management_bodies_are_deterministic() {
    let failure = LocalClientAuthorizationFailure::new(
        LocalClientRouteScope::Inference,
        LocalClientAuthorizationFailureReason::MissingCredential,
    );
    let response = MinimalProxyResponse::local_client_unauthorized(&failure);
    assert_eq!(response.status_code, 401);
    assert_eq!(
        response.body,
        r#"{"error":{"code":"local_client_unauthorized","message":"local client authorization failed for inference: missing_credential","reason":"missing_credential","scope":"inference","type":"oxmux_proxy_error"}}"#
    );
    let boundary = MinimalProxyResponse::management_boundary();
    assert_eq!(
        boundary.body,
        r#"{"message":"local management boundary reserved","object":"oxmux.management.boundary","status":"authorized"}"#
    );
    let routing = CoreError::Routing {
        failure: RoutingFailure::NoRoute { requested_model: "a".to_string(), resolved_model: "b".to_string() },
    };
    let response = MinimalProxyResponse::from_core_error(&routing);
    assert_eq!(response.status_code, 502);
    assert!(response.body.contains(r#""code":"routing_failed""#));
}

#[test]
fn core_error_descriptions_name_their_parts() {
    let deferred = CoreError::ProtocolTranslationDeferred {
        direction: ProtocolTranslationDirection::Request,
        source_family: ProtocolFamily::OpenAi,
        target_family: ProtocolFamily::Anthropic,
        message: "later".to_string(),
    };
    assert_eq!(deferred.to_string(), "protocol Request translation, OpenAi to Anthropic, is deferred: later");
    let routing = CoreError::Routing {
        failure: RoutingFailure::NoRoute {
            requested_model: "smart".to_string(),
            resolved_model: "gpt-4o".to_string(),
        },
    };
    assert_eq!(
        routing.to_string(),
        "routing failed: no route is configured for requested model smart resolved as gpt-4o"
    );
    assert_eq!(
        CoreError::Configuration { errors: Vec::new() }.to_string(),
        "configuration load failed with 0 error(s)"
    );
}

#[test]
fn non_text_provider_payload_cannot_be_written_as_chat_content() {
    let executor = MockProviderHarness::new(
        "mock-openai",
        "Mock OpenAI",
        ProtocolFamily::OpenAi,
        AuthMethodCategory::ApiKey,
        MockProviderOutcome::Success(
            CanonicalProtocolResponse::new(
                ProtocolMetadata::open_ai(),
                ProtocolResponseStatus::success(),
                ProtocolPayload::opaque("application/octet-stream", vec![0xff, 0xfe]),
            )
            .expect("response"),
        ),
    )
    .expect("harness")
    .with_account(MockProviderAccount::new("acct", "Account"));
    let target = RoutingTarget::provider_account("mock-openai", "acct");
    let policy = RoutingPolicy::new(vec![ModelRoute::new("m", vec![RoutingCandidate::new(target.clone())])]);
    let availability = RoutingAvailabilitySnapshot::new(vec![RoutingTargetAvailability::new(
        target,
        RoutingAvailabilityState::Available,
    )]);
    let error = MinimalProxyEngine::execute(
        MinimalProxyRequest::open_ai_chat_completions(br#"{"model":" m ","messages":[1]}"#.to_vec())
            .expect("request"),
        MinimalProxyEngineConfig::new(&policy, &availability, &executor),
    )
    .expect_err("payload is not text");
    match error {
        CoreError::MinimalProxyResponseSerialization { message } => {
            assert!(message.starts_with("provider response payload is not valid UTF-8: "));
            assert!(message.len() > "provider response payload is not valid UTF-8: ".len());
        }
        other => panic!("unexpected {other:?}"),
    }
}

#[test]
fn json_strings_escape_quotes_backslashes_and_control_characters() {
    assert_eq!(oxmux::json::json_quote("plain"), "\"plain\"");
    assert_eq!(oxmux::json::json_quote("a\"b\\c"), "\"a\\\"b\\\\c\"");
    assert_eq!(oxmux::json::json_quote("\u{8}\t\n\u{c}\r"), "\"\\b\\t\\n\\f\\r\"");
    assert_eq!(oxmux::json::json_quote("\u{1}\u{1f}"), "\"\\u0001\\u001f\"");
    assert_eq!(oxmux::json::json_quote("é/~"), "\"é/~\"");
    assert_eq!(
        oxmux::minimal_proxy::error_body_text("c", "line\nnext"),
        r#"{"error":{"code":"c","message":"line\nnext","type":"oxmux_proxy_error"}}"#
    );
}
