//! Local client authorization contracts for loopback proxy access.
//!
//! These values describe caller-owned authorization to the local proxy. They do
//! not represent provider credentials, OAuth tokens, desktop credential storage,
//! or upstream provider account state. Types that hold a secret have no `Debug`,
//! so that a secret never reaches debug output.

use vstd::prelude::*;

use crate::text::{concat3, is_blank, is_blank_text, owned};

verus! {

/// Route scope protected by local client authorization.
#[derive(Clone, Copy, Debug, PartialEq, Eq, Structural)]
pub enum LocalClientRouteScope {
    /// OpenAI-compatible inference route access.
    Inference,
    /// Local management, status, and control route access.
    Management,
}

impl LocalClientRouteScope {
    /// The stable label of a scope.
    pub open spec fn label(self) -> Seq<char> {
        match self {
            LocalClientRouteScope::Inference => "inference"@,
            LocalClientRouteScope::Management => "management"@,
        }
    }

    /// Returns a stable machine-readable scope label.
    pub fn as_str(self) -> (r: &'static str)
        ensures
            r@ == self.label(),
    {
        match self {
            LocalClientRouteScope::Inference => "inference",
            LocalClientRouteScope::Management => "management",
        }
    }
}

/// Secret-bearing local client credential.
#[derive(Clone, PartialEq, Eq)]
pub struct LocalClientCredential {
    secret: String,
}

impl LocalClientCredential {
    /// The secret characters of this credential.
    pub closed spec fn secret_spec(self) -> Seq<char> {
        self.secret@
    }

    /// Creates a local client credential used only for loopback proxy authorization.
    pub fn new(secret: &str) -> (r: Result<Self, LocalClientCredentialError>)
        ensures
            r is Err <==> is_blank_text(secret@),
            r is Ok ==> r->Ok_0.secret_spec() == secret@,
    {
        if is_blank(secret) {
            return Err(LocalClientCredentialError::EmptySecret);
        }
        Ok(LocalClientCredential { secret: owned(secret) })
    }

    /// Returns redacted metadata safe for status and management surfaces.
    pub fn redacted_metadata(&self) -> (r: RedactedLocalClientCredentialMetadata)
        ensures
            r.configured,
            r.display@ == configured_display(),
    {
        RedactedLocalClientCredentialMetadata {
            configured: true,
            display: "<redacted local client credential>",
        }
    }

    /// Compares a presented secret with this credential in time that depends only on lengths.
    pub fn matches(&self, presented: &str) -> (r: bool)
        ensures
            r == (presented@ == self.secret_spec()),
    {
        let r = fixed_secret_time_eq(self.secret.as_str().as_bytes(), presented.as_bytes());
        proof {
            vstd::utf8::encode_utf8_decode_utf8(self.secret@);
            vstd::utf8::encode_utf8_decode_utf8(presented@);
        }
        r
    }
}

/// Compares two byte strings without stopping at the first difference.
pub fn fixed_secret_time_eq(expected: &[u8], presented: &[u8]) -> (r: bool)
    ensures
        r == (expected@ == presented@),
{
    let elen = expected.len();
    let plen = presented.len();
    let mut difference: usize = elen ^ plen;
    assert((difference == 0) == (elen == plen)) by (bit_vector)
        requires
            difference == elen ^ plen,
    ;
    let mut index: usize = 0;
    while index < elen
        invariant
            elen == expected@.len(),
            plen == presented@.len(),
            index <= elen,
            (difference == 0) == (elen == plen && forall|j: int|
                0 <= j < index ==> expected@[j] == presented@[j]),
        decreases elen - index,
    {
        let expected_byte = expected[index];
        let presented_byte: u8 = if index < plen {
            presented[index]
        } else {
            0
        };
        let x: u8 = expected_byte ^ presented_byte;
        assert((x == 0) == (expected_byte == presented_byte)) by (bit_vector)
            requires
                x == expected_byte ^ presented_byte,
        ;
        let wide: usize = x as usize;
        assert((wide == 0) == (x == 0));
        let before = difference;
        difference = difference | wide;
        assert((difference == 0) == (before == 0 && wide == 0)) by (bit_vector)
            requires
                difference == before | wide,
        ;
        index = index + 1;
    }
    if difference == 0 {
        assert(expected@ =~= presented@);
    }
    difference == 0
}

/// Local client credential construction error.
#[derive(Clone, Copy, Debug, PartialEq, Eq, Structural)]
pub enum LocalClientCredentialError {
    /// Credential secret was empty or whitespace-only.
    EmptySecret,
}

impl LocalClientCredentialError {
    /// Returns the human-readable description of this error.
    pub fn message(&self) -> (r: String)
        ensures
            r@ == "local client credential secret is empty"@,
    {
        owned("local client credential secret is empty")
    }
}

/// Display label of configured credential metadata.
pub open spec fn configured_display() -> Seq<char> {
    "<redacted local client credential>"@
}

/// Display label of missing credential metadata.
pub open spec fn missing_display() -> Seq<char> {
    "<missing local client credential>"@
}

/// Redacted credential metadata safe for logs, debug output, and management snapshots.
#[derive(Clone, Copy, Debug, PartialEq, Eq)]
pub struct RedactedLocalClientCredentialMetadata {
    /// Whether a local client credential is configured.
    pub configured: bool,
    /// Stable redacted display label that never contains the raw credential.
    pub display: &'static str,
}

impl RedactedLocalClientCredentialMetadata {
    /// Metadata for a required credential that is not configured.
    pub fn missing() -> (r: Self)
        ensures
            !r.configured,
            r.display@ == missing_display(),
    {
        RedactedLocalClientCredentialMetadata {
            configured: false,
            display: "<missing local client credential>",
        }
    }
}

/// Local client authorization protection policy for a route scope.
#[derive(Clone, PartialEq, Eq)]
pub enum LocalClientAuthorizationPolicy {
    /// Route scope is classified but does not require local client authorization.
    Disabled,
    /// Route scope requires a matching configured local client credential.
    Required {
        /// Expected local client credential, when configured.
        credential: Option<LocalClientCredential>,
    },
}

/// Metadata that a policy reports: disabled, or required with a configured or missing credential.
pub open spec fn policy_metadata_is(
    policy: LocalClientAuthorizationPolicy,
    m: LocalClientAuthorizationPolicyMetadata,
) -> bool {
    match policy {
        LocalClientAuthorizationPolicy::Disabled => m is Disabled,
        LocalClientAuthorizationPolicy::Required { credential } => {
            &&& m matches LocalClientAuthorizationPolicyMetadata::Required { credential: c }
            &&& c.configured == credential is Some
            &&& c.display@ == if credential is Some {
                configured_display()
            } else {
                missing_display()
            }
        },
    }
}

/// The outcome of an authorization attempt under a policy.
pub open spec fn authorization(
    policy: LocalClientAuthorizationPolicy,
    scope: LocalClientRouteScope,
    attempt: LocalClientAuthorizationAttempt,
) -> LocalClientAuthorizationOutcome {
    let deny = |reason: LocalClientAuthorizationFailureReason|
        LocalClientAuthorizationOutcome::Denied(LocalClientAuthorizationFailure { scope, reason });
    match policy {
        LocalClientAuthorizationPolicy::Disabled => LocalClientAuthorizationOutcome::Disabled { scope },
        LocalClientAuthorizationPolicy::Required { credential: None } => deny(
            LocalClientAuthorizationFailureReason::MissingConfiguredCredential,
        ),
        LocalClientAuthorizationPolicy::Required { credential: Some(c) } => match attempt {
            LocalClientAuthorizationAttempt::Missing => deny(
                LocalClientAuthorizationFailureReason::MissingCredential,
            ),
            LocalClientAuthorizationAttempt::Malformed => deny(
                LocalClientAuthorizationFailureReason::MalformedCredential,
            ),
            LocalClientAuthorizationAttempt::UnsupportedScheme => deny(
                LocalClientAuthorizationFailureReason::UnsupportedScheme,
            ),
            LocalClientAuthorizationAttempt::Bearer { token } => if token@ == c.secret_spec() {
                LocalClientAuthorizationOutcome::Authorized { scope }
            } else {
                deny(LocalClientAuthorizationFailureReason::InvalidCredential)
            },
        },
    }
}

impl LocalClientAuthorizationPolicy {
    /// Creates a disabled local client authorization policy.
    pub fn disabled() -> (r: Self)
        ensures
            r is Disabled,
    {
        LocalClientAuthorizationPolicy::Disabled
    }

    /// Creates a required policy with a configured local client credential.
    pub fn required(credential: LocalClientCredential) -> (r: Self)
        ensures
            r == (LocalClientAuthorizationPolicy::Required { credential: Some(credential) }),
    {
        LocalClientAuthorizationPolicy::Required { credential: Some(credential) }
    }

    /// Creates a required policy with no configured credential, which fails closed.
    pub fn required_without_credential() -> (r: Self)
        ensures
            r == (LocalClientAuthorizationPolicy::Required { credential: None }),
    {
        LocalClientAuthorizationPolicy::Required { credential: None }
    }

    /// Returns redacted status metadata for this policy.
    pub fn metadata(&self) -> (r: LocalClientAuthorizationPolicyMetadata)
        ensures
            policy_metadata_is(*self, r),
    {
        match self {
            LocalClientAuthorizationPolicy::Disabled => LocalClientAuthorizationPolicyMetadata::Disabled,
            LocalClientAuthorizationPolicy::Required { credential } => {
                let c = match credential {
                    Some(credential) => credential.redacted_metadata(),
                    None => RedactedLocalClientCredentialMetadata::missing(),
                };
                LocalClientAuthorizationPolicyMetadata::Required { credential: c }
            },
        }
    }

    /// Authorizes a local client attempt for a route scope.
    pub fn authorize(
        &self,
        scope: LocalClientRouteScope,
        attempt: &LocalClientAuthorizationAttempt,
    ) -> (r: LocalClientAuthorizationOutcome)
        ensures
            r == authorization(*self, scope, *attempt),
    {
        match self {
            LocalClientAuthorizationPolicy::Disabled => LocalClientAuthorizationOutcome::Disabled {
                scope,
            },
            LocalClientAuthorizationPolicy::Required { credential: None } => {
                LocalClientAuthorizationOutcome::Denied(
                    LocalClientAuthorizationFailure::new(
                        scope,
                        LocalClientAuthorizationFailureReason::MissingConfiguredCredential,
                    ),
                )
            },
            LocalClientAuthorizationPolicy::Required { credential: Some(credential) } => {
                match attempt {
                    LocalClientAuthorizationAttempt::Missing => {
                        LocalClientAuthorizationOutcome::Denied(
                            LocalClientAuthorizationFailure::new(
                                scope,
                                LocalClientAuthorizationFailureReason::MissingCredential,
                            ),
                        )
                    },
                    LocalClientAuthorizationAttempt::Malformed => {
                        LocalClientAuthorizationOutcome::Denied(
                            LocalClientAuthorizationFailure::new(
                                scope,
                                LocalClientAuthorizationFailureReason::MalformedCredential,
                            ),
                        )
                    },
                    LocalClientAuthorizationAttempt::UnsupportedScheme => {
                        LocalClientAuthorizationOutcome::Denied(
                            LocalClientAuthorizationFailure::new(
                                scope,
                                LocalClientAuthorizationFailureReason::UnsupportedScheme,
                            ),
                        )
                    },
                    LocalClientAuthorizationAttempt::Bearer { token } => {
                        if credential.matches(token.as_str()) {
                            LocalClientAuthorizationOutcome::Authorized { scope }
                        } else {
                            LocalClientAuthorizationOutcome::Denied(
                                LocalClientAuthorizationFailure::new(
                                    scope,
                                    LocalClientAuthorizationFailureReason::InvalidCredential,
                                ),
                            )
                        }
                    },
                }
            },
        }
    }
}

/// Management-safe metadata for a local client authorization policy.
#[derive(Clone, Copy, Debug, PartialEq, Eq)]
pub enum LocalClientAuthorizationPolicyMetadata {
    /// Protection is disabled for the route scope.
    Disabled,
    /// Protection is required for the route scope.
    Required {
        /// Redacted credential metadata for the required policy.
        credential: RedactedLocalClientCredentialMetadata,
    },
}

/// Independent protection policies for local route categories.
#[derive(Clone, PartialEq, Eq)]
pub struct LocalRouteProtection {
    /// Inference route protection policy.
    pub inference: LocalClientAuthorizationPolicy,
    /// Management/status/control route protection policy.
    pub management: LocalClientAuthorizationPolicy,
}

impl LocalRouteProtection {
    /// Creates route protection with all scopes disabled.
    pub fn disabled() -> (r: Self)
        ensures
            r.inference is Disabled,
            r.management is Disabled,
    {
        LocalRouteProtection {
            inference: LocalClientAuthorizationPolicy::Disabled,
            management: LocalClientAuthorizationPolicy::Disabled,
        }
    }

    /// Returns management-safe metadata for both route scopes.
    pub fn metadata(&self) -> (r: LocalRouteProtectionMetadata)
        ensures
            policy_metadata_is(self.inference, r.inference),
            policy_metadata_is(self.management, r.management),
    {
        LocalRouteProtectionMetadata {
            inference: self.inference.metadata(),
            management: self.management.metadata(),
        }
    }
}

impl Default for LocalRouteProtection {
    fn default() -> (r: Self)
        ensures
            r.inference is Disabled,
            r.management is Disabled,
    {
        LocalRouteProtection::disabled()
    }
}

/// Management-safe route protection metadata.
#[derive(Clone, Copy, Debug, PartialEq, Eq)]
pub struct LocalRouteProtectionMetadata {
    /// Inference route authorization metadata.
    pub inference: LocalClientAuthorizationPolicyMetadata,
    /// Management/status/control route authorization metadata.
    pub management: LocalClientAuthorizationPolicyMetadata,
}

impl LocalRouteProtectionMetadata {
    /// Metadata for route protection with all scopes disabled.
    pub fn disabled() -> (r: Self)
        ensures
            r.inference is Disabled,
            r.management is Disabled,
    {
        LocalRouteProtection::disabled().metadata()
    }
}

/// Local client authorization presented by a request adapter.
#[derive(Clone, PartialEq, Eq)]
pub enum LocalClientAuthorizationAttempt {
    /// No local client authorization credential was presented.
    Missing,
    /// A bearer token was presented.
    Bearer {
        /// Presented bearer token.
        token: String,
    },
    /// Authorization shape was malformed.
    Malformed,
    /// Authorization scheme was unsupported.
    UnsupportedScheme,
}

impl LocalClientAuthorizationAttempt {
    /// Creates a bearer-token authorization attempt.
    pub fn bearer(token: &str) -> (r: Self)
        ensures
            r matches LocalClientAuthorizationAttempt::Bearer { token: t } && t@ == token@,
    {
        LocalClientAuthorizationAttempt::Bearer { token: owned(token) }
    }
}

/// Structured local client authorization outcome.
#[derive(Clone, Copy, Debug, PartialEq, Eq, Structural)]
pub enum LocalClientAuthorizationOutcome {
    /// Route scope authorized the presented local client credential.
    Authorized {
        /// Authorized route scope.
        scope: LocalClientRouteScope,
    },
    /// Route scope did not require authorization.
    Disabled {
        /// Unprotected route scope.
        scope: LocalClientRouteScope,
    },
    /// Route scope denied the request.
    Denied(LocalClientAuthorizationFailure),
}

impl LocalClientAuthorizationOutcome {
    /// Converts the outcome into a result suitable for route dispatch.
    pub fn into_result(self) -> (r: Result<(), LocalClientAuthorizationFailure>)
        ensures
            match self {
                LocalClientAuthorizationOutcome::Denied(f) => r == Err::<(), LocalClientAuthorizationFailure>(f),
                _ => r is Ok,
            },
    {
        match self {
            LocalClientAuthorizationOutcome::Authorized { .. } => Ok(()),
            LocalClientAuthorizationOutcome::Disabled { .. } => Ok(()),
            LocalClientAuthorizationOutcome::Denied(failure) => Err(failure),
        }
    }
}

/// Structured local client authorization failure.
#[derive(Clone, Copy, Debug, PartialEq, Eq, Structural)]
pub struct LocalClientAuthorizationFailure {
    /// Route scope that rejected the request.
    pub scope: LocalClientRouteScope,
    /// Stable failure reason.
    pub reason: LocalClientAuthorizationFailureReason,
}

impl LocalClientAuthorizationFailure {
    /// The human-readable description of a failure.
    pub open spec fn message_spec(self) -> Seq<char> {
        "local client authorization failed for "@ + self.scope.label() + ": "@ + self.reason.code()
    }

    /// Creates a local client authorization failure.
    pub fn new(scope: LocalClientRouteScope, reason: LocalClientAuthorizationFailureReason) -> (r: Self)
        ensures
            r == (LocalClientAuthorizationFailure { scope, reason }),
    {
        LocalClientAuthorizationFailure { scope, reason }
    }

    /// Returns the human-readable description of this failure.
    pub fn message(&self) -> (r: String)
        ensures
            r@ == self.message_spec(),
    {
        let mut s = concat3("local client authorization failed for ", self.scope.as_str(), ": ");
        s.append(self.reason.as_str());
        s
    }
}

/// Stable local client authorization failure reason.
#[derive(Clone, Copy, Debug, PartialEq, Eq, Structural)]
pub enum LocalClientAuthorizationFailureReason {
    /// Request omitted required local client authorization.
    MissingCredential,
    /// Request authorization header was malformed.
    MalformedCredential,
    /// Request used an unsupported authorization scheme.
    UnsupportedScheme,
    /// Request credential did not match the configured credential.
    InvalidCredential,
    /// Route required authorization but no credential was configured.
    MissingConfiguredCredential,
}

impl LocalClientAuthorizationFailureReason {
    /// The stable serialized code of a reason.
    pub open spec fn code(self) -> Seq<char> {
        match self {
            LocalClientAuthorizationFailureReason::MissingCredential => "missing_credential"@,
            LocalClientAuthorizationFailureReason::MalformedCredential => "malformed_credential"@,
            LocalClientAuthorizationFailureReason::UnsupportedScheme => "unsupported_scheme"@,
            LocalClientAuthorizationFailureReason::InvalidCredential => "invalid_credential"@,
            LocalClientAuthorizationFailureReason::MissingConfiguredCredential => {
                "missing_configured_credential"@
            },
        }
    }

    /// Returns a stable serialized failure code.
    pub fn as_str(self) -> (r: &'static str)
        ensures
            r@ == self.code(),
    {
        match self {
            LocalClientAuthorizationFailureReason::MissingCredential => "missing_credential",
            LocalClientAuthorizationFailureReason::MalformedCredential => "malformed_credential",
            LocalClientAuthorizationFailureReason::UnsupportedScheme => "unsupported_scheme",
            LocalClientAuthorizationFailureReason::InvalidCredential => "invalid_credential",
            LocalClientAuthorizationFailureReason::MissingConfiguredCredential => {
                "missing_configured_credential"
            },
        }
    }
}

} // verus!
