use oxmux::local_client_auth::fixed_secret_time_eq;
use oxmux::{
    LocalClientAuthorizationAttempt, LocalClientAuthorizationFailure,
    LocalClientAuthorizationFailureReason, LocalClientAuthorizationOutcome,
    LocalClientAuthorizationPolicy, LocalClientAuthorizationPolicyMetadata, LocalClientCredential,
    LocalClientCredentialError, LocalClientRouteScope, LocalRouteProtection,
    LocalRouteProtectionMetadata,
};

#[test]
fn local_client_credential_matches_exact_secret_only() {
    let credential = LocalClientCredential::new("expected-token").expect("valid credential");

    assert!(credential.matches("expected-token"));
    assert!(!credential.matches("wrong-token"));
    assert!(!credential.matches("expected-token-extra"));
    assert!(!credential.matches("expected"));
}

#[test]
fn fixed_secret_time_comparison_rejects_length_mismatches() {
    assert!(fixed_secret_time_eq(b"secret", b"secret"));
    assert!(!fixed_secret_time_eq(b"secret", b"secret-extra"));
    assert!(!fixed_secret_time_eq(b"secret", b"sec"));
    assert!(!fixed_secret_time_eq(b"secret", b"secreu"));
}

#[test]
fn blank_credential_secret_is_refused() {
    assert!(matches!(
        LocalClientCredential::new("   "),
        Err(LocalClientCredentialError::EmptySecret)
    ));
    assert_eq!(
        LocalClientCredentialError::EmptySecret.message(),
        "local client credential secret is empty"
    );
}

#[test]
fn required_policy_authorizes_only_the_matching_bearer_token() {
    let credential = LocalClientCredential::new("local-secret").expect("valid credential");
    let policy = LocalClientAuthorizationPolicy::required(credential);
    let scope = LocalClientRouteScope::Inference;

    assert_eq!(
        policy.authorize(scope, &LocalClientAuthorizationAttempt::bearer("local-secret")),
        LocalClientAuthorizationOutcome::Authorized { scope }
    );
    assert_eq!(
        policy.authorize(scope, &LocalClientAuthorizationAttempt::bearer("other")),
        LocalClientAuthorizationOutcome::Denied(LocalClientAuthorizationFailure::new(
            scope,
            LocalClientAuthorizationFailureReason::InvalidCredential,
        ))
    );
    assert_eq!(
        policy.authorize(scope, &LocalClientAuthorizationAttempt::Missing),
        LocalClientAuthorizationOutcome::Denied(LocalClientAuthorizationFailure::new(
            scope,
            LocalClientAuthorizationFailureReason::MissingCredential,
        ))
    );
    assert_eq!(
        policy.authorize(scope, &LocalClientAuthorizationAttempt::Malformed),
        LocalClientAuthorizationOutcome::Denied(LocalClientAuthorizationFailure::new(
            scope,
            LocalClientAuthorizationFailureReason::MalformedCredential,
        ))
    );
    assert_eq!(
        policy.authorize(scope, &LocalClientAuthorizationAttempt::UnsupportedScheme),
        LocalClientAuthorizationOutcome::Denied(LocalClientAuthorizationFailure::new(
            scope,
            LocalClientAuthorizationFailureReason::UnsupportedScheme,
        ))
    );
}

#[test]
fn required_policy_without_credential_fails_closed_and_disabled_policy_passes() {
    let scope = LocalClientRouteScope::Management;
    let failed = LocalClientAuthorizationPolicy::required_without_credential()
        .authorize(scope, &LocalClientAuthorizationAttempt::bearer("anything"));
    assert_eq!(
        failed,
        LocalClientAuthorizationOutcome::Denied(LocalClientAuthorizationFailure::new(
            scope,
            LocalClientAuthorizationFailureReason::MissingConfiguredCredential,
        ))
    );
    assert_eq!(
        failed.into_result(),
        Err(LocalClientAuthorizationFailure::new(
            scope,
            LocalClientAuthorizationFailureReason::MissingConfiguredCredential,
        ))
    );
    let open = LocalClientAuthorizationPolicy::disabled()
        .authorize(scope, &LocalClientAuthorizationAttempt::Missing);
    assert_eq!(open, LocalClientAuthorizationOutcome::Disabled { scope });
    assert_eq!(open.into_result(), Ok(()));
}

#[test]
fn authorization_failure_message_names_scope_and_reason() {
    let failure = LocalClientAuthorizationFailure::new(
        LocalClientRouteScope::Management,
        LocalClientAuthorizationFailureReason::InvalidCredential,
    );
    assert_eq!(
        failure.message(),
        "local client authorization failed for management: invalid_credential"
    );
    assert_eq!(LocalClientRouteScope::Inference.as_str(), "inference");
}

#[test]
fn route_protection_metadata_never_shows_the_secret() {
    let credential = LocalClientCredential::new("top-value").expect("valid credential");
    let protection = LocalRouteProtection {
        inference: LocalClientAuthorizationPolicy::required(credential),
        management: LocalClientAuthorizationPolicy::required_without_credential(),
    };
    let metadata = protection.metadata();
    match metadata.inference {
        LocalClientAuthorizationPolicyMetadata::Required { credential } => {
            assert!(credential.configured);
            assert_eq!(credential.display, "<redacted local client credential>");
        }
        LocalClientAuthorizationPolicyMetadata::Disabled => panic!("inference must be required"),
    }
    match metadata.management {
        LocalClientAuthorizationPolicyMetadata::Required { credential } => {
            assert!(!credential.configured);
            assert_eq!(credential.display, "<missing local client credential>");
        }
        LocalClientAuthorizationPolicyMetadata::Disabled => panic!("management must be required"),
    }
    assert_eq!(
        LocalRouteProtectionMetadata::disabled().inference,
        LocalClientAuthorizationPolicyMetadata::Disabled
    );
}
