//! Validation of raw configuration values into a validated configuration.
//!
//! Every problem is reported, in document order, as a structured diagnostic; a
//! configuration is produced only when there is none.

use vstd::prelude::*;

use crate::configuration::address::{ip_text, parse_ip_address, IpAddress};
use crate::configuration::file::{
    AutoStartIntent, FileAccountConfiguration, FileProviderConfiguration, FileProviderView,
    FileProxyConfiguration, FileRoutingDefaultConfiguration, FileRoutingDefaultGroup,
    FileRoutingDefaultGroupView, LoggingSetting, ValidatedFileConfiguration,
};
use crate::configuration::raw::{
    RawAccountConfiguration, RawConfiguration, RawProviderConfiguration, RawProxyConfiguration,
    RawRoutingDefaultConfiguration, RawSettingValue,
};
use crate::errors::{
    ConfigurationError, ConfigurationErrorKind, ConfigurationIssue, ConfigurationSourceMetadata,
    CoreError, InvalidConfigurationValue, SourceView,
};
use crate::provider::ProtocolFamily;
use crate::routing::{ModelRoute, RoutingCandidate, RoutingPolicy, RoutingTarget};
use crate::text::{
    concat2, concat3, decimal, decimal_string, has_prefix, is_blank, is_blank_text,
    is_whitespace_char, char_is_whitespace, opt_text, owned, str_equal,
};

verus! {

// ---------------------------------------------------------------------------
// Diagnostics
// ---------------------------------------------------------------------------

/// A diagnostic without a message, attributed to a source.
pub open spec fn issue(
    kind: ConfigurationErrorKind,
    path: Seq<char>,
    value: InvalidConfigurationValue,
    source: SourceView,
) -> ConfigurationIssue {
    ConfigurationIssue { kind, field_path: path, invalid_value: value, source: Some(source), message: None }
}

/// Models of a list of diagnostics.
pub open spec fn issues_of(errors: Seq<ConfigurationError>) -> Seq<ConfigurationIssue> {
    errors.map_values(|e: ConfigurationError| e@)
}

/// Path of a field of an indexed table: `prefix[index].field`.
pub open spec fn indexed(prefix: Seq<char>, index: nat, field: Seq<char>) -> Seq<char> {
    prefix + "["@ + decimal(index) + "]."@ + field
}

/// Path of a field of a nested indexed table: `prefix[outer].nested[inner].field`.
pub open spec fn indexed_nested(
    prefix: Seq<char>,
    outer: nat,
    nested: Seq<char>,
    inner: nat,
    field: Seq<char>,
) -> Seq<char> {
    prefix + "["@ + decimal(outer) + "]."@ + nested + "["@ + decimal(inner) + "]."@ + field
}

fn indexed_path(prefix: &str, index: usize, field: &str) -> (r: String)
    ensures
        r@ == indexed(prefix@, index as nat, field@),
{
    let number = decimal_string(index as u64);
    let mut s = concat3(prefix, "[", number.as_str());
    s.append("].");
    s.append(field);
    s
}

fn indexed_nested_path(prefix: &str, outer: usize, nested: &str, inner: usize, field: &str) -> (r:
    String)
    ensures
        r@ == indexed_nested(prefix@, outer as nat, nested@, inner as nat, field@),
{
    let mut s = indexed_path(prefix, outer, nested);
    let number = decimal_string(inner as u64);
    s.append("[");
    s.append(number.as_str());
    s.append("].");
    s.append(field);
    s
}

fn error(
    kind: ConfigurationErrorKind,
    field_path: &str,
    invalid_value: InvalidConfigurationValue,
    source: &ConfigurationSourceMetadata,
) -> (r: ConfigurationError)
    ensures
        r@ == issue(kind, field_path@, invalid_value, source@),
{
    ConfigurationError::new(kind, field_path, invalid_value, Some(source.clone()))
}

fn push_error(errors: &mut Vec<ConfigurationError>, e: ConfigurationError)
    ensures
        issues_of(final(errors)@) == issues_of(old(errors)@).push(e@),
{
    let ghost before = errors@;
    errors.push(e);
    assert(issues_of(errors@) =~= issues_of(before).push(e@));
}

/// A diagnostic list of at most one element.
pub open spec fn optional_issue(
    found: Option<(ConfigurationErrorKind, InvalidConfigurationValue)>,
    path: Seq<char>,
    source: SourceView,
) -> Seq<ConfigurationIssue> {
    match found {
        Some((kind, value)) => seq![issue(kind, path, value, source)],
        None => Seq::empty(),
    }
}

/// A required text: present and not blank.
pub open spec fn required_value(value: Option<String>) -> Option<String> {
    match value {
        Some(v) => if is_blank_text(v@) {
            None
        } else {
            Some(v)
        },
        None => None,
    }
}

/// Problem of a required text: missing, or blank and so malformed.
pub open spec fn required_problem(value: Option<String>, kind: ConfigurationErrorKind) -> Option<
    (ConfigurationErrorKind, InvalidConfigurationValue),
> {
    match value {
        Some(v) => if is_blank_text(v@) {
            Some((kind, InvalidConfigurationValue::Malformed))
        } else {
            None
        },
        None => Some((kind, InvalidConfigurationValue::Missing)),
    }
}

fn validate_required_string(
    value: &Option<String>,
    field: &str,
    missing_kind: ConfigurationErrorKind,
    source: &ConfigurationSourceMetadata,
    errors: &mut Vec<ConfigurationError>,
) -> (r: Option<String>)
    ensures
        r == required_value(*value),
        issues_of(final(errors)@) == issues_of(old(errors)@) + optional_issue(
            required_problem(*value, missing_kind),
            field@,
            source@,
        ),
{
    let ghost before = errors@;
    match value {
        Some(v) => {
            if is_blank(v.as_str()) {
                push_error(errors, error(missing_kind, field, InvalidConfigurationValue::Malformed, source));
                assert(issues_of(errors@) =~= issues_of(before) + optional_issue(
                    required_problem(*value, missing_kind),
                    field@,
                    source@,
                ));
                None
            } else {
                assert(issues_of(errors@) =~= issues_of(before) + Seq::<ConfigurationIssue>::empty());
                Some(v.clone())
            }
        },
        None => {
            push_error(errors, error(missing_kind, field, InvalidConfigurationValue::Missing, source));
            assert(issues_of(errors@) =~= issues_of(before) + optional_issue(
                required_problem(*value, missing_kind),
                field@,
                source@,
            ));
            None
        },
    }
}

// ---------------------------------------------------------------------------
// Version and proxy
// ---------------------------------------------------------------------------

/// Problem of the schema version: it must be present and equal to one.
pub open spec fn version_problem(version: Option<i64>) -> Option<
    (ConfigurationErrorKind, InvalidConfigurationValue),
> {
    match version {
        Some(v) => if v == 1 {
            None
        } else {
            Some((ConfigurationErrorKind::InvalidVersion, InvalidConfigurationValue::Unsupported))
        },
        None => Some((ConfigurationErrorKind::MissingRequiredField, InvalidConfigurationValue::Missing)),
    }
}

/// Listen address of the proxy table and its problem: it must be a loopback IP address.
pub open spec fn listen_check(value: Option<String>) -> (
    Option<IpAddress>,
    Option<(ConfigurationErrorKind, InvalidConfigurationValue)>,
) {
    match value {
        None => (
            None,
            Some((ConfigurationErrorKind::MissingRequiredField, InvalidConfigurationValue::Missing)),
        ),
        Some(v) => if is_blank_text(v@) {
            (
                None,
                Some((ConfigurationErrorKind::InvalidListenAddress, InvalidConfigurationValue::Malformed)),
            )
        } else {
            match ip_text(v@) {
                Some(a) => if a.is_loopback_spec() {
                    (Some(a), None)
                } else {
                    (
                        None,
                        Some(
                            (
                                ConfigurationErrorKind::InvalidListenAddress,
                                InvalidConfigurationValue::Unsupported,
                            ),
                        ),
                    )
                },
                None => (
                    None,
                    Some(
                        (ConfigurationErrorKind::InvalidListenAddress, InvalidConfigurationValue::Malformed),
                    ),
                ),
            }
        },
    }
}

/// Port of the proxy table and its problem: it must be in `1..=65535`.
pub open spec fn port_check(value: Option<i64>) -> (
    Option<u16>,
    Option<(ConfigurationErrorKind, InvalidConfigurationValue)>,
) {
    match value {
        Some(v) => if 1 <= v <= 65535 {
            (Some(v as u16), None)
        } else {
            (None, Some((ConfigurationErrorKind::InvalidPort, InvalidConfigurationValue::OutOfRange)))
        },
        None => (
            None,
            Some((ConfigurationErrorKind::MissingRequiredField, InvalidConfigurationValue::Missing)),
        ),
    }
}

/// Diagnostics of the proxy table.
pub open spec fn proxy_issues(raw: Option<RawProxyConfiguration>, source: SourceView) -> Seq<
    ConfigurationIssue,
> {
    match raw {
        None => seq![
            issue(
                ConfigurationErrorKind::MissingRequiredField,
                "proxy"@,
                InvalidConfigurationValue::Missing,
                source,
            ),
        ],
        Some(p) => optional_issue(listen_check(p.listen_address).1, "proxy.listen-address"@, source)
            + optional_issue(port_check(p.port).1, "proxy.port"@, source),
    }
}

/// Validated proxy table, when valid.
pub open spec fn proxy_value(raw: Option<RawProxyConfiguration>) -> Option<FileProxyConfiguration> {
    match raw {
        None => None,
        Some(p) => match (listen_check(p.listen_address).0, port_check(p.port).0) {
            (Some(a), Some(port)) => Some(FileProxyConfiguration { listen_address: a, port }),
            _ => None,
        },
    }
}

fn validate_proxy(
    raw: &Option<RawProxyConfiguration>,
    source: &ConfigurationSourceMetadata,
    errors: &mut Vec<ConfigurationError>,
) -> (r: Option<FileProxyConfiguration>)
    ensures
        r == proxy_value(*raw),
        issues_of(final(errors)@) == issues_of(old(errors)@) + proxy_issues(*raw, source@),
{
    let ghost before = errors@;
    let ghost src = source@;
    let raw = match raw {
        Some(raw) => raw,
        None => {
            push_error(
                errors,
                error(
                    ConfigurationErrorKind::MissingRequiredField,
                    "proxy",
                    InvalidConfigurationValue::Missing,
                    source,
                ),
            );
            assert(issues_of(errors@) =~= issues_of(before) + proxy_issues(None, src));
            return None;
        },
    };
    let listen_address = match &raw.listen_address {
        Some(value) => {
            if is_blank(value.as_str()) {
                push_error(
                    errors,
                    error(
                        ConfigurationErrorKind::InvalidListenAddress,
                        "proxy.listen-address",
                        InvalidConfigurationValue::Malformed,
                        source,
                    ),
                );
                None
            } else {
                match parse_ip_address(value.as_str()) {
                    Some(address) => {
                        if address.is_loopback() {
                            Some(address)
                        } else {
                            push_error(
                                errors,
                                error(
                                    ConfigurationErrorKind::InvalidListenAddress,
                                    "proxy.listen-address",
                                    InvalidConfigurationValue::Unsupported,
                                    source,
                                ),
                            );
                            None
                        }
                    },
                    None => {
                        push_error(
                            errors,
                            error(
                                ConfigurationErrorKind::InvalidListenAddress,
                                "proxy.listen-address",
                                InvalidConfigurationValue::Malformed,
                                source,
                            ),
                        );
                        None
                    },
                }
            }
        },
        None => {
            push_error(
                errors,
                error(
                    ConfigurationErrorKind::MissingRequiredField,
                    "proxy.listen-address",
                    InvalidConfigurationValue::Missing,
                    source,
                ),
            );
            None
        },
    };
    let ghost mid = errors@;
    assert(issues_of(mid) =~= issues_of(before) + optional_issue(
        listen_check(raw.listen_address).1,
        "proxy.listen-address"@,
        src,
    ));
    let port: Option<u16> = match raw.port {
        Some(value) => {
            if 1 <= value && value <= 65535 {
                Some(value as u16)
            } else {
                push_error(
                    errors,
                    error(
                        ConfigurationErrorKind::InvalidPort,
                        "proxy.port",
                        InvalidConfigurationValue::OutOfRange,
                        source,
                    ),
                );
                None
            }
        },
        None => {
            push_error(
                errors,
                error(
                    ConfigurationErrorKind::MissingRequiredField,
                    "proxy.port",
                    InvalidConfigurationValue::Missing,
                    source,
                ),
            );
            None
        },
    };
    assert(issues_of(errors@) =~= issues_of(mid) + optional_issue(port_check(raw.port).1, "proxy.port"@, src));
    assert(issues_of(errors@) =~= issues_of(before) + proxy_issues(Some(*raw), src));
    match (listen_address, port) {
        (Some(listen_address), Some(port)) => Some(FileProxyConfiguration { listen_address, port }),
        _ => None,
    }
}

// ---------------------------------------------------------------------------
// Providers and accounts
// ---------------------------------------------------------------------------

/// Protocol family named in configuration.
pub open spec fn family_named(name: Seq<char>) -> Option<ProtocolFamily> {
    if name == "openai"@ {
        Some(ProtocolFamily::OpenAi)
    } else if name == "gemini"@ {
        Some(ProtocolFamily::Gemini)
    } else if name == "anthropic"@ {
        Some(ProtocolFamily::Anthropic)
    } else if name == "codex"@ {
        Some(ProtocolFamily::Codex)
    } else if name == "provider-specific"@ {
        Some(ProtocolFamily::ProviderSpecific)
    } else {
        None
    }
}

fn protocol_family_from_str(value: &str) -> (r: Option<ProtocolFamily>)
    ensures
        r == family_named(value@),
{
    proof {
        reveal_strlit("openai");
        reveal_strlit("gemini");
        reveal_strlit("anthropic");
        reveal_strlit("codex");
        reveal_strlit("provider-specific");
    }
    if str_equal(value, "openai") {
        Some(ProtocolFamily::OpenAi)
    } else if str_equal(value, "gemini") {
        Some(ProtocolFamily::Gemini)
    } else if str_equal(value, "anthropic") {
        Some(ProtocolFamily::Anthropic)
    } else if str_equal(value, "codex") {
        Some(ProtocolFamily::Codex)
    } else if str_equal(value, "provider-specific") {
        Some(ProtocolFamily::ProviderSpecific)
    } else {
        None
    }
}

/// Classification of a credential reference.
#[derive(Clone, Copy, Debug, PartialEq, Eq, Structural)]
pub enum CredentialReferenceValidation {
    /// A well-formed reference name.
    Valid,
    /// Blank, padded, or holding characters outside the reference alphabet.
    Malformed,
    /// Looks like a raw secret rather than a reference to one.
    SecretLike,
}

/// ASCII lowercase of one character.
pub open spec fn lower_char(c: char) -> char {
    if 65 <= (c as u32) && (c as u32) <= 90 {
        ((c as u32) + 32) as char
    } else {
        c
    }
}

/// Whether `needle` occurs at index `i` of the ASCII-lowercased text.
pub open spec fn lower_matches_at(s: Seq<char>, needle: Seq<char>, i: int) -> bool {
    0 <= i && i + needle.len() <= s.len() && forall|k: int|
        0 <= k < needle.len() ==> lower_char(#[trigger] s[i + k]) == needle[k]
}

/// Whether `needle` occurs in the ASCII-lowercased text.
pub open spec fn lower_contains(s: Seq<char>, needle: Seq<char>) -> bool {
    exists|i: int| lower_matches_at(s, needle, i)
}

/// Whether the ASCII-lowercased text begins with `prefix`.
pub open spec fn lower_starts_with(s: Seq<char>, prefix: Seq<char>) -> bool {
    prefix.len() <= s.len() && forall|k: int| 0 <= k < prefix.len() ==> lower_char(#[trigger] s[k]) == prefix[k]
}

/// Characters allowed in a credential reference.
pub open spec fn reference_char(c: char) -> bool {
    let v = c as u32;
    (48 <= v <= 57) || (65 <= v <= 90) || (97 <= v <= 122) || c == '/' || c == '-' || c == '_' || c
        == '.'
}

/// Classification of a credential reference: padded or blank references are malformed;
/// references mentioning a secret, a token or an API key, or starting with `sk-`, look like
/// secrets; other references must use only ASCII letters, digits, `/`, `-`, `_` and `.`.
pub open spec fn credential_check(v: Seq<char>) -> CredentialReferenceValidation {
    if v.len() == 0 || is_whitespace_char(v[0]) || is_whitespace_char(v.last()) {
        CredentialReferenceValidation::Malformed
    } else if lower_contains(v, "secret"@) || lower_contains(v, "token"@) || lower_contains(v, "api-key"@)
        || lower_contains(v, "api_key"@) || lower_starts_with(v, "sk-"@) {
        CredentialReferenceValidation::SecretLike
    } else if forall|i: int| 0 <= i < v.len() ==> reference_char(#[trigger] v[i]) {
        CredentialReferenceValidation::Valid
    } else {
        CredentialReferenceValidation::Malformed
    }
}

/// Lowercases one ASCII letter; other characters are returned as they are.
pub fn lower_char_exec(c: char) -> (r: char)
    ensures
        r == lower_char(c),
{
    let v = c as u32;
    if 65 <= v && v <= 90 {
        ((v + 32) as u8) as char
    } else {
        c
    }
}

fn contains_lower(s: &str, needle: &str) -> (r: bool)
    ensures
        r == lower_contains(s@, needle@),
{
    let n = s.unicode_len();
    let m = needle.unicode_len();
    if m > n {
        return false;
    }
    let mut i: usize = 0;
    while i <= n - m
        invariant
            n == s@.len(),
            m == needle@.len(),
            m <= n,
            i <= n - m + 1,
            forall|j: int| 0 <= j < i ==> !lower_matches_at(s@, needle@, j),
        decreases n - i,
    {
        let mut k: usize = 0;
        let mut all = true;
        while k < m
            invariant
                n == s@.len(),
                m == needle@.len(),
                i + m <= n,
                k <= m,
                all == forall|q: int| 0 <= q < k ==> lower_char(#[trigger] s@[i + q]) == needle@[q],
            decreases m - k,
        {
            if lower_char_exec(s.get_char(i + k)) != needle.get_char(k) {
                all = false;
            }
            k = k + 1;
        }
        if all {
            assert(lower_matches_at(s@, needle@, i as int));
            return true;
        }
        i = i + 1;
    }
    assert forall|j: int| !lower_matches_at(s@, needle@, j) by {
        if 0 <= j < i {
        }
    }
    false
}

fn starts_with_lower(s: &str, prefix: &str) -> (r: bool)
    ensures
        r == lower_starts_with(s@, prefix@),
{
    let n = s.unicode_len();
    let m = prefix.unicode_len();
    if m > n {
        return false;
    }
    let mut k: usize = 0;
    while k < m
        invariant
            n == s@.len(),
            m == prefix@.len(),
            m <= n,
            k <= m,
            forall|q: int| 0 <= q < k ==> lower_char(#[trigger] s@[q]) == prefix@[q],
        decreases m - k,
    {
        if lower_char_exec(s.get_char(k)) != prefix.get_char(k) {
            return false;
        }
        k = k + 1;
    }
    true
}

#[verifier::loop_isolation(false)]
fn validate_credential_reference(value: &str) -> (r: CredentialReferenceValidation)
    ensures
        r == credential_check(value@),
{
    let n = value.unicode_len();
    if n == 0 || char_is_whitespace(value.get_char(0)) || char_is_whitespace(value.get_char(n - 1)) {
        return CredentialReferenceValidation::Malformed;
    }
    if contains_lower(value, "secret") || contains_lower(value, "token") || contains_lower(
        value,
        "api-key",
    ) || contains_lower(value, "api_key") || starts_with_lower(value, "sk-") {
        proof {
            reveal_strlit("secret");
            reveal_strlit("token");
            reveal_strlit("api-key");
            reveal_strlit("api_key");
            reveal_strlit("sk-");
        }
        return CredentialReferenceValidation::SecretLike;
    }
    proof {
        reveal_strlit("secret");
        reveal_strlit("token");
        reveal_strlit("api-key");
        reveal_strlit("api_key");
        reveal_strlit("sk-");
    }
    let mut i: usize = 0;
    while i < n
        invariant
            n == value@.len(),
            i <= n,
            forall|j: int| 0 <= j < i ==> reference_char(#[trigger] value@[j]),
        decreases n - i,
    {
        let c = value.get_char(i);
        let v = c as u32;
        if !((48 <= v && v <= 57) || (65 <= v && v <= 90) || (97 <= v && v <= 122) || c == '/' || c
            == '-' || c == '_' || c == '.') {
            assert(!reference_char(value@[i as int]));
            return CredentialReferenceValidation::Malformed;
        }
        i = i + 1;
    }
    CredentialReferenceValidation::Valid
}

/// Accounts of one provider validated so far: diagnostics, accounts, identifiers seen.
pub struct AccountsProgress {
    /// Diagnostics so far.
    pub issues: Seq<ConfigurationIssue>,
    /// Accounts kept so far.
    pub accounts: Seq<FileAccountConfiguration>,
    /// Identifiers of the accounts kept so far.
    pub ids: Seq<Seq<char>>,
}

/// Problem of an account's credential reference, and whether a valid one is present.
pub open spec fn credential_problem(value: Option<String>) -> (
    bool,
    Option<(ConfigurationErrorKind, InvalidConfigurationValue)>,
) {
    match value {
        Some(v) => match credential_check(v@) {
            CredentialReferenceValidation::Valid => (true, None),
            CredentialReferenceValidation::Malformed => (
                false,
                Some(
                    (
                        ConfigurationErrorKind::InvalidCredentialReference,
                        InvalidConfigurationValue::Malformed,
                    ),
                ),
            ),
            CredentialReferenceValidation::SecretLike => (
                false,
                Some(
                    (
                        ConfigurationErrorKind::InvalidCredentialReference,
                        InvalidConfigurationValue::SecretLike,
                    ),
                ),
            ),
        },
        None => (
            false,
            Some((ConfigurationErrorKind::MissingRequiredField, InvalidConfigurationValue::Missing)),
        ),
    }
}

/// Diagnostic of an identifier already seen.
pub open spec fn duplicate_issue(
    seen: Seq<Seq<char>>,
    id: Seq<char>,
    kind: ConfigurationErrorKind,
    path: Seq<char>,
    source: SourceView,
) -> Seq<ConfigurationIssue> {
    if seen.contains(id) {
        seq![issue(kind, path, InvalidConfigurationValue::Duplicate, source)]
    } else {
        Seq::empty()
    }
}

/// Validates account `j` of provider `p` after the accounts before it.
pub open spec fn account_step(
    st: AccountsProgress,
    raw: RawAccountConfiguration,
    p: nat,
    j: nat,
    source: SourceView,
) -> AccountsProgress {
    let id_field = indexed_nested("providers"@, p, "accounts"@, j, "id"@);
    let credential_field = indexed_nested("providers"@, p, "accounts"@, j, "credential-reference"@);
    let id_issues = optional_issue(
        required_problem(raw.id, ConfigurationErrorKind::MissingRequiredField),
        id_field,
        source,
    );
    match required_value(raw.id) {
        None => AccountsProgress { issues: st.issues + id_issues, ..st },
        Some(id) => {
            let (present, problem) = credential_problem(raw.credential_reference);
            AccountsProgress {
                issues: st.issues + duplicate_issue(
                    st.ids,
                    id@,
                    ConfigurationErrorKind::DuplicateAccountId,
                    id_field,
                    source,
                ) + optional_issue(problem, credential_field, source),
                accounts: st.accounts.push(FileAccountConfiguration { id, credential_reference_present: present }),
                ids: st.ids.push(id@),
            }
        },
    }
}

/// Accounts of provider `p` validated up to index `n`.
pub open spec fn accounts_upto(raws: Seq<RawAccountConfiguration>, p: nat, n: int, source: SourceView) -> AccountsProgress
    decreases n,
{
    if n <= 0 || n > raws.len() {
        AccountsProgress { issues: Seq::empty(), accounts: Seq::empty(), ids: Seq::empty() }
    } else {
        account_step(accounts_upto(raws, p, n - 1, source), raws[n - 1], p, (n - 1) as nat, source)
    }
}

fn contains_text(seen: &Vec<String>, id: &str) -> (r: bool)
    ensures
        r == seen@.map_values(|s: String| s@).contains(id@),
{
    let mut i: usize = 0;
    while i < seen.len()
        invariant
            i <= seen@.len(),
            forall|j: int| 0 <= j < i ==> seen@[j]@ != id@,
        decreases seen.len() - i,
    {
        if str_equal(seen[i].as_str(), id) {
            assert(seen@.map_values(|s: String| s@)[i as int] == id@);
            return true;
        }
        i = i + 1;
    }
    false
}

#[verifier::loop_isolation(false)]
fn validate_accounts(
    provider_index: usize,
    raw_accounts: &Vec<RawAccountConfiguration>,
    source: &ConfigurationSourceMetadata,
    errors: &mut Vec<ConfigurationError>,
) -> (r: Vec<FileAccountConfiguration>)
    ensures
        ({
            let st = accounts_upto(raw_accounts@, provider_index as nat, raw_accounts@.len() as int, source@);
            &&& r@ == st.accounts
            &&& issues_of(final(errors)@) == issues_of(old(errors)@) + st.issues
        }),
{
    let ghost src = source@;
    let ghost before = errors@;
    let mut accounts: Vec<FileAccountConfiguration> = Vec::new();
    let mut ids: Vec<String> = Vec::new();
    let mut j: usize = 0;
    assert(issues_of(errors@) =~= issues_of(before) + Seq::<ConfigurationIssue>::empty());
    while j < raw_accounts.len()
        invariant
            j <= raw_accounts@.len(),
            ({
                let st = accounts_upto(raw_accounts@, provider_index as nat, j as int, src);
                &&& accounts@ == st.accounts
                &&& ids@.map_values(|s: String| s@) == st.ids
                &&& issues_of(errors@) == issues_of(before) + st.issues
            }),
        decreases raw_accounts.len() - j,
    {
        let raw = &raw_accounts[j];
        let ghost st = accounts_upto(raw_accounts@, provider_index as nat, j as int, src);
        let ghost at_start = errors@;
        let id_field = indexed_nested_path("providers", provider_index, "accounts", j, "id");
        let credential_field = indexed_nested_path(
            "providers",
            provider_index,
            "accounts",
            j,
            "credential-reference",
        );
        let id = validate_required_string(
            &raw.id,
            id_field.as_str(),
            ConfigurationErrorKind::MissingRequiredField,
            source,
            errors,
        );
        match id {
            None => {
                assert(issues_of(errors@) =~= issues_of(before) + accounts_upto(
                    raw_accounts@,
                    provider_index as nat,
                    j + 1,
                    src,
                ).issues);
            },
            Some(id) => {
                let ghost after_id = errors@;
                assert(issues_of(after_id) =~= issues_of(at_start));
                if contains_text(&ids, id.as_str()) {
                    push_error(
                        errors,
                        error(
                            ConfigurationErrorKind::DuplicateAccountId,
                            id_field.as_str(),
                            InvalidConfigurationValue::Duplicate,
                            source,
                        ),
                    );
                }
                let ghost after_dup = errors@;
                assert(issues_of(after_dup) =~= issues_of(at_start) + duplicate_issue(
                    st.ids,
                    id@,
                    ConfigurationErrorKind::DuplicateAccountId,
                    id_field@,
                    src,
                ));
                let present = match &raw.credential_reference {
                    Some(value) => match validate_credential_reference(value.as_str()) {
                        CredentialReferenceValidation::Valid => true,
                        CredentialReferenceValidation::Malformed => {
                            push_error(
                                errors,
                                error(
                                    ConfigurationErrorKind::InvalidCredentialReference,
                                    credential_field.as_str(),
                                    InvalidConfigurationValue::Malformed,
                                    source,
                                ),
                            );
                            false
                        },
                        CredentialReferenceValidation::SecretLike => {
                            push_error(
                                errors,
                                error(
                                    ConfigurationErrorKind::InvalidCredentialReference,
                                    credential_field.as_str(),
                                    InvalidConfigurationValue::SecretLike,
                                    source,
                                ),
                            );
                            false
                        },
                    },
                    None => {
                        push_error(
                            errors,
                            error(
                                ConfigurationErrorKind::MissingRequiredField,
                                credential_field.as_str(),
                                InvalidConfigurationValue::Missing,
                                source,
                            ),
                        );
                        false
                    },
                };
                assert(issues_of(errors@) =~= issues_of(after_dup) + optional_issue(
                    credential_problem(raw.credential_reference).1,
                    credential_field@,
                    src,
                ));
                let ghost old_ids = ids@;
                ids.push(id.clone());
                assert(ids@.map_values(|s: String| s@) =~= old_ids.map_values(|s: String| s@).push(id@));
                accounts.push(FileAccountConfiguration { id, credential_reference_present: present });
                assert(issues_of(errors@) =~= issues_of(before) + accounts_upto(
                    raw_accounts@,
                    provider_index as nat,
                    j + 1,
                    src,
                ).issues);
            },
        }
        j = j + 1;
    }
    accounts
}

/// Providers validated so far: diagnostics, providers kept, identifiers seen.
pub struct ProvidersProgress {
    /// Diagnostics so far.
    pub issues: Seq<ConfigurationIssue>,
    /// Providers kept so far.
    pub providers: Seq<FileProviderView>,
    /// Identifiers of every provider with a valid identifier so far.
    pub ids: Seq<Seq<char>>,
}

/// Protocol family of a provider table and its problem.
pub open spec fn family_check(value: Option<String>) -> (
    Option<ProtocolFamily>,
    Option<(ConfigurationErrorKind, InvalidConfigurationValue)>,
) {
    match value {
        Some(v) => match family_named(v@) {
            Some(f) => (Some(f), None),
            None => (
                None,
                Some(
                    (
                        ConfigurationErrorKind::InvalidProviderProtocolFamily,
                        InvalidConfigurationValue::Unsupported,
                    ),
                ),
            ),
        },
        None => (
            None,
            Some((ConfigurationErrorKind::MissingRequiredField, InvalidConfigurationValue::Missing)),
        ),
    }
}

/// Problem of a missing flag.
pub open spec fn flag_problem(value: Option<bool>, kind: ConfigurationErrorKind) -> Option<
    (ConfigurationErrorKind, InvalidConfigurationValue),
> {
    match value {
        Some(_) => None,
        None => Some((kind, InvalidConfigurationValue::Missing)),
    }
}

/// Diagnostics of provider `i`, given the identifiers seen before it.
pub open spec fn provider_issues(
    ids: Seq<Seq<char>>,
    raw: RawProviderConfiguration,
    i: nat,
    source: SourceView,
) -> Seq<ConfigurationIssue> {
    let id_field = indexed("providers"@, i, "id"@);
    match required_value(raw.id) {
        None => optional_issue(
            required_problem(raw.id, ConfigurationErrorKind::MissingRequiredField),
            id_field,
            source,
        ),
        Some(id) => duplicate_issue(ids, id@, ConfigurationErrorKind::DuplicateProviderId, id_field, source)
            + optional_issue(family_check(raw.protocol_family).1, indexed("providers"@, i, "protocol-family"@), source)
            + optional_issue(
            flag_problem(raw.routing_eligible, ConfigurationErrorKind::MissingRequiredField),
            indexed("providers"@, i, "routing-eligible"@),
            source,
        ) + accounts_upto(raw.accounts@, i, raw.accounts@.len() as int, source).issues,
    }
}

/// Providers kept after provider `i`: it is kept when its identifier, family and routing
/// flag are all valid.
pub open spec fn provider_kept(
    providers: Seq<FileProviderView>,
    raw: RawProviderConfiguration,
    i: nat,
    source: SourceView,
) -> Seq<FileProviderView> {
    match (required_value(raw.id), family_check(raw.protocol_family).0, raw.routing_eligible) {
        (Some(id), Some(family), Some(routing_eligible)) => providers.push(
            FileProviderView {
                id,
                protocol_family: family,
                routing_eligible,
                accounts: accounts_upto(raw.accounts@, i, raw.accounts@.len() as int, source).accounts,
            },
        ),
        _ => providers,
    }
}

/// Identifiers seen after provider `i`.
pub open spec fn provider_ids(ids: Seq<Seq<char>>, raw: RawProviderConfiguration) -> Seq<Seq<char>> {
    match required_value(raw.id) {
        Some(id) => ids.push(id@),
        None => ids,
    }
}

/// Validates provider `i` after the providers before it: a provider without a valid
/// identifier is skipped; one without a valid family or routing flag is reported and dropped.
pub open spec fn provider_step(
    st: ProvidersProgress,
    raw: RawProviderConfiguration,
    i: nat,
    source: SourceView,
) -> ProvidersProgress {
    ProvidersProgress {
        issues: st.issues + provider_issues(st.ids, raw, i, source),
        providers: provider_kept(st.providers, raw, i, source),
        ids: provider_ids(st.ids, raw),
    }
}

/// Providers validated up to index `n`.
pub open spec fn providers_upto(raws: Seq<RawProviderConfiguration>, n: int, source: SourceView) -> ProvidersProgress
    decreases n,
{
    if n <= 0 || n > raws.len() {
        ProvidersProgress { issues: Seq::empty(), providers: Seq::empty(), ids: Seq::empty() }
    } else {
        provider_step(providers_upto(raws, n - 1, source), raws[n - 1], (n - 1) as nat, source)
    }
}

/// Models of a list of providers.
pub open spec fn providers_view(v: Seq<FileProviderConfiguration>) -> Seq<FileProviderView> {
    v.map_values(|p: FileProviderConfiguration| p@)
}

/// Characters of each text in a list.
pub open spec fn texts(v: Seq<String>) -> Seq<Seq<char>> {
    v.map_values(|s: String| s@)
}

fn provider_family_and_flag(
    raw: &RawProviderConfiguration,
    protocol_field: &str,
    routing_field: &str,
    source: &ConfigurationSourceMetadata,
    errors: &mut Vec<ConfigurationError>,
) -> (r: (Option<ProtocolFamily>, Option<bool>))
    ensures
        r.0 == family_check(raw.protocol_family).0,
        r.1 == raw.routing_eligible,
        issues_of(final(errors)@) == issues_of(old(errors)@) + optional_issue(
            family_check(raw.protocol_family).1,
            protocol_field@,
            source@,
        ) + optional_issue(
            flag_problem(raw.routing_eligible, ConfigurationErrorKind::MissingRequiredField),
            routing_field@,
            source@,
        ),
{
    let ghost src = source@;
    let ghost at_start = errors@;
    let protocol_family = match &raw.protocol_family {
        Some(value) => match protocol_family_from_str(value.as_str()) {
            Some(f) => Some(f),
            None => {
                push_error(
                    errors,
                    error(
                        ConfigurationErrorKind::InvalidProviderProtocolFamily,
                        protocol_field,
                        InvalidConfigurationValue::Unsupported,
                        source,
                    ),
                );
                None
            },
        },
        None => {
            push_error(
                errors,
                error(
                    ConfigurationErrorKind::MissingRequiredField,
                    protocol_field,
                    InvalidConfigurationValue::Missing,
                    source,
                ),
            );
            None
        },
    };
    let ghost after_family = errors@;
    assert(issues_of(after_family) =~= issues_of(at_start) + optional_issue(
        family_check(raw.protocol_family).1,
        protocol_field@,
        src,
    ));
    let routing_eligible = match raw.routing_eligible {
        Some(value) => Some(value),
        None => {
            push_error(
                errors,
                error(
                    ConfigurationErrorKind::MissingRequiredField,
                    routing_field,
                    InvalidConfigurationValue::Missing,
                    source,
                ),
            );
            None
        },
    };
    assert(issues_of(errors@) =~= issues_of(after_family) + optional_issue(
        flag_problem(raw.routing_eligible, ConfigurationErrorKind::MissingRequiredField),
        routing_field@,
        src,
    ));
    (protocol_family, routing_eligible)
}

fn validate_provider_entry(
    raw: &RawProviderConfiguration,
    i: usize,
    source: &ConfigurationSourceMetadata,
    ids: &mut Vec<String>,
    providers: &mut Vec<FileProviderConfiguration>,
    errors: &mut Vec<ConfigurationError>,
)
    ensures
        issues_of(final(errors)@) == issues_of(old(errors)@) + provider_issues(
            texts(old(ids)@),
            *raw,
            i as nat,
            source@,
        ),
        providers_view(final(providers)@) == provider_kept(
            providers_view(old(providers)@),
            *raw,
            i as nat,
            source@,
        ),
        texts(final(ids)@) == provider_ids(texts(old(ids)@), *raw),
{
    let ghost src = source@;
    let ghost at_start = errors@;
    let id_field = indexed_path("providers", i, "id");
    let protocol_field = indexed_path("providers", i, "protocol-family");
    let routing_field = indexed_path("providers", i, "routing-eligible");
    let id = validate_required_string(
        &raw.id,
        id_field.as_str(),
        ConfigurationErrorKind::MissingRequiredField,
        source,
        errors,
    );
    let id = match id {
        None => {
            return;
        },
        Some(id) => id,
    };
    assert(issues_of(errors@) =~= issues_of(at_start));
    if contains_text(ids, id.as_str()) {
        push_error(
            errors,
            error(
                ConfigurationErrorKind::DuplicateProviderId,
                id_field.as_str(),
                InvalidConfigurationValue::Duplicate,
                source,
            ),
        );
    }
    let ghost after_dup = errors@;
    assert(issues_of(after_dup) =~= issues_of(at_start) + duplicate_issue(
        texts(old(ids)@),
        id@,
        ConfigurationErrorKind::DuplicateProviderId,
        id_field@,
        src,
    ));
    let (protocol_family, routing_eligible) = provider_family_and_flag(
        raw,
        protocol_field.as_str(),
        routing_field.as_str(),
        source,
        errors,
    );
    let accounts = validate_accounts(i, &raw.accounts, source, errors);
    assert(issues_of(errors@) =~= issues_of(at_start) + provider_issues(
        texts(old(ids)@),
        *raw,
        i as nat,
        src,
    ));
    let ghost old_ids = ids@;
    ids.push(id.clone());
    assert(texts(ids@) =~= texts(old_ids).push(id@));
    let ghost old_providers = providers@;
    match (protocol_family, routing_eligible) {
        (Some(protocol_family), Some(routing_eligible)) => {
            providers.push(FileProviderConfiguration { id, protocol_family, routing_eligible, accounts });
            assert(providers_view(providers@) =~= providers_view(old_providers).push(providers@.last()@));
        },
        _ => {},
    }
}

fn validate_providers(
    raw_providers: &Vec<RawProviderConfiguration>,
    source: &ConfigurationSourceMetadata,
    errors: &mut Vec<ConfigurationError>,
) -> (r: Vec<FileProviderConfiguration>)
    ensures
        ({
            let st = providers_upto(raw_providers@, raw_providers@.len() as int, source@);
            &&& providers_view(r@) == st.providers
            &&& issues_of(final(errors)@) == issues_of(old(errors)@) + st.issues
        }),
{
    let ghost src = source@;
    let ghost before = errors@;
    let mut providers: Vec<FileProviderConfiguration> = Vec::new();
    let mut ids: Vec<String> = Vec::new();
    let mut i: usize = 0;
    assert(issues_of(errors@) =~= issues_of(before) + Seq::<ConfigurationIssue>::empty());
    assert(providers_view(providers@) =~= Seq::<FileProviderView>::empty());
    assert(texts(ids@) =~= Seq::<Seq<char>>::empty());
    while i < raw_providers.len()
        invariant
            i <= raw_providers@.len(),
            src == source@,
            ({
                let st = providers_upto(raw_providers@, i as int, src);
                &&& providers_view(providers@) == st.providers
                &&& texts(ids@) == st.ids
                &&& issues_of(errors@) == issues_of(before) + st.issues
            }),
        decreases raw_providers.len() - i,
    {
        let ghost prev = errors@;
        validate_provider_entry(&raw_providers[i], i, source, &mut ids, &mut providers, errors);
        assert(issues_of(errors@) =~= issues_of(before) + providers_upto(raw_providers@, i + 1, src).issues);
        i = i + 1;
    }
    providers
}

// ---------------------------------------------------------------------------
// Routing defaults
// ---------------------------------------------------------------------------

/// The provider with identifier `id` among the first `n` providers: the last such one.
pub open spec fn provider_lookup(providers: Seq<FileProviderView>, id: Seq<char>, n: int) -> Option<
    FileProviderView,
>
    decreases n,
{
    if n <= 0 || n > providers.len() {
        None
    } else if providers[n - 1].id@ == id {
        Some(providers[n - 1])
    } else {
        provider_lookup(providers, id, n - 1)
    }
}

/// Whether a provider declares an account.
pub open spec fn declares_account(p: FileProviderView, account: Seq<char>) -> bool {
    exists|j: int| 0 <= j < p.accounts.len() && (#[trigger] p.accounts[j]).id@ == account
}

/// Account of a routing default: absent, or present and not blank.
pub open spec fn account_value(value: Option<String>) -> Option<String> {
    required_value(value)
}

/// Problem of a routing default's account: blank.
pub open spec fn account_problem(value: Option<String>) -> Option<
    (ConfigurationErrorKind, InvalidConfigurationValue),
> {
    match value {
        Some(v) => if is_blank_text(v@) {
            Some((ConfigurationErrorKind::InvalidRoutingDefault, InvalidConfigurationValue::Malformed))
        } else {
            None
        },
        None => None,
    }
}

/// Diagnostics of the provider and account a routing default names.
pub open spec fn reference_issues(
    provider_id: Option<String>,
    account_id: Option<String>,
    providers: Seq<FileProviderView>,
    provider_field: Seq<char>,
    account_field: Seq<char>,
    source: SourceView,
) -> Seq<ConfigurationIssue> {
    match provider_id {
        None => Seq::empty(),
        Some(p) => match provider_lookup(providers, p@, providers.len() as int) {
            None => seq![
                issue(
                    ConfigurationErrorKind::UnknownProviderReference,
                    provider_field,
                    InvalidConfigurationValue::UnknownReference,
                    source,
                ),
            ],
            Some(r) => (if r.routing_eligible {
                Seq::empty()
            } else {
                seq![
                    issue(
                        ConfigurationErrorKind::InvalidRoutingDefault,
                        provider_field,
                        InvalidConfigurationValue::Unsupported,
                        source,
                    ),
                ]
            }) + match account_id {
                Some(a) => if declares_account(r, a@) {
                    Seq::empty()
                } else {
                    seq![
                        issue(
                            ConfigurationErrorKind::UnknownAccountReference,
                            account_field,
                            InvalidConfigurationValue::UnknownReference,
                            source,
                        ),
                    ]
                },
                None => Seq::empty(),
            },
        },
    }
}

/// Identity of a routing default: name, model, provider and account.
pub type DefaultKey = (Seq<char>, Seq<char>, Seq<char>, Option<Seq<char>>);

/// Whether a later routing default has the same name and model.
pub open spec fn later_same_group(
    raws: Seq<RawRoutingDefaultConfiguration>,
    i: int,
    name: Seq<char>,
    model: Seq<char>,
) -> bool {
    exists|j: int|
        i < j < raws.len() && (#[trigger] raws[j]).name is Some && raws[j].name.unwrap()@ == name
            && raws[j].model is Some && raws[j].model.unwrap()@ == model
}

/// Diagnostics of the fields of routing default `i`: name, model, provider, flag, account.
pub open spec fn default_field_issues(d: RawRoutingDefaultConfiguration, i: nat, source: SourceView) -> Seq<
    ConfigurationIssue,
> {
    let k = ConfigurationErrorKind::InvalidRoutingDefault;
    optional_issue(required_problem(d.name, k), indexed("routing.defaults"@, i, "name"@), source)
        + optional_issue(required_problem(d.model, k), indexed("routing.defaults"@, i, "model"@), source)
        + optional_issue(
        required_problem(d.provider_id, k),
        indexed("routing.defaults"@, i, "provider-id"@),
        source,
    ) + optional_issue(
        flag_problem(d.fallback_enabled, k),
        indexed("routing.defaults"@, i, "fallback-enabled"@),
        source,
    ) + optional_issue(account_problem(d.account_id), indexed("routing.defaults"@, i, "account-id"@), source)
}

/// Diagnostics of a complete routing default: a repeated key, or a disabled fallback
/// followed by another default of the same name and model.
pub open spec fn default_key_issues(
    keys: Seq<DefaultKey>,
    raws: Seq<RawRoutingDefaultConfiguration>,
    i: int,
    source: SourceView,
) -> Seq<ConfigurationIssue> {
    let d = raws[i];
    let k = ConfigurationErrorKind::InvalidRoutingDefault;
    match default_value(d) {
        Some(v) => (if keys.contains(default_key(v)) {
            seq![
                issue(
                    k,
                    indexed("routing.defaults"@, i as nat, "provider-id"@),
                    InvalidConfigurationValue::Duplicate,
                    source,
                ),
            ]
        } else {
            Seq::empty()
        }) + (if !v.fallback_enabled && later_same_group(raws, i, v.name@, v.model@) {
            seq![
                issue(
                    k,
                    indexed("routing.defaults"@, i as nat, "fallback-enabled"@),
                    InvalidConfigurationValue::Unsupported,
                    source,
                ),
            ]
        } else {
            Seq::empty()
        }),
        None => Seq::empty(),
    }
}

/// Diagnostics of routing default `i`, given the keys of the defaults kept before it.
pub open spec fn default_issues(
    keys: Seq<DefaultKey>,
    raws: Seq<RawRoutingDefaultConfiguration>,
    i: int,
    providers: Seq<FileProviderView>,
    source: SourceView,
) -> Seq<ConfigurationIssue> {
    let d = raws[i];
    default_field_issues(d, i as nat, source) + reference_issues(
        required_value(d.provider_id),
        account_value(d.account_id),
        providers,
        indexed("routing.defaults"@, i as nat, "provider-id"@),
        indexed("routing.defaults"@, i as nat, "account-id"@),
        source,
    ) + default_key_issues(keys, raws, i, source)
}

/// The routing default kept for entry `d`, when its name, model, provider and flag are valid.
pub open spec fn default_value(d: RawRoutingDefaultConfiguration) -> Option<FileRoutingDefaultConfiguration> {
    match (required_value(d.name), required_value(d.model), required_value(d.provider_id), d.fallback_enabled) {
        (Some(name), Some(model), Some(provider_id), Some(fallback_enabled)) => Some(
            FileRoutingDefaultConfiguration {
                name,
                model,
                target: RoutingTarget { provider_id, account_id: account_value(d.account_id) },
                fallback_enabled,
            },
        ),
        _ => None,
    }
}

/// Key of a kept routing default.
pub open spec fn default_key(d: FileRoutingDefaultConfiguration) -> DefaultKey {
    (d.name@, d.model@, d.target.provider_id@, opt_text(d.target.account_id))
}

/// Routing defaults validated so far.
pub struct DefaultsProgress {
    /// Diagnostics so far.
    pub issues: Seq<ConfigurationIssue>,
    /// Defaults kept so far.
    pub defaults: Seq<FileRoutingDefaultConfiguration>,
}

/// Routing defaults validated up to index `n`.
pub open spec fn defaults_upto(
    raws: Seq<RawRoutingDefaultConfiguration>,
    n: int,
    providers: Seq<FileProviderView>,
    source: SourceView,
) -> DefaultsProgress
    decreases n,
{
    if n <= 0 || n > raws.len() {
        DefaultsProgress { issues: Seq::empty(), defaults: Seq::empty() }
    } else {
        let st = defaults_upto(raws, n - 1, providers, source);
        DefaultsProgress {
            issues: st.issues + default_issues(
                st.defaults.map_values(|d: FileRoutingDefaultConfiguration| default_key(d)),
                raws,
                n - 1,
                providers,
                source,
            ),
            defaults: match default_value(raws[n - 1]) {
                Some(d) => st.defaults.push(d),
                None => st.defaults,
            },
        }
    }
}

fn find_provider<'a>(providers: &'a Vec<FileProviderConfiguration>, id: &str) -> (r: Option<
    &'a FileProviderConfiguration,
>)
    ensures
        match r {
            Some(p) => provider_lookup(providers_view(providers@), id@, providers@.len() as int) == Some(
                p@,
            ),
            None => provider_lookup(providers_view(providers@), id@, providers@.len() as int) is None,
        },
{
    let ghost pv = providers_view(providers@);
    let mut n: usize = providers.len();
    while n > 0
        invariant
            n <= providers@.len(),
            pv == providers_view(providers@),
            provider_lookup(pv, id@, providers@.len() as int) == provider_lookup(pv, id@, n as int),
        decreases n,
    {
        if str_equal(providers[n - 1].id.as_str(), id) {
            return Some(&providers[n - 1]);
        }
        n = n - 1;
    }
    None
}

fn provider_has_account(p: &FileProviderConfiguration, account: &str) -> (r: bool)
    ensures
        r == declares_account(p@, account@),
{
    let mut j: usize = 0;
    while j < p.accounts.len()
        invariant
            j <= p.accounts@.len(),
            forall|q: int| 0 <= q < j ==> p.accounts@[q].id@ != account@,
        decreases p.accounts.len() - j,
    {
        if str_equal(p.accounts[j].id.as_str(), account) {
            assert(p@.accounts[j as int].id@ == account@);
            return true;
        }
        j = j + 1;
    }
    false
}

fn has_later_same_group(raws: &Vec<RawRoutingDefaultConfiguration>, i: usize, name: &str, model: &str) -> (r:
    bool)
    requires
        i < raws.len(),
    ensures
        r == later_same_group(raws@, i as int, name@, model@),
{
    let mut j: usize = i + 1;
    while j < raws.len()
        invariant
            i + 1 <= j <= raws@.len(),
            forall|q: int|
                i < q < j ==> !((#[trigger] raws@[q]).name is Some && raws@[q].name.unwrap()@
                    == name@ && raws@[q].model is Some && raws@[q].model.unwrap()@ == model@),
        decreases raws.len() - j,
    {
        let same_name = match &raws[j].name {
            Some(n) => str_equal(n.as_str(), name),
            None => false,
        };
        let same_model = match &raws[j].model {
            Some(m) => str_equal(m.as_str(), model),
            None => false,
        };
        if same_name && same_model {
            assert(raws@[j as int].name is Some && raws@[j as int].name.unwrap()@ == name@);
            return true;
        }
        j = j + 1;
    }
    false
}

fn same_key(a: &FileRoutingDefaultConfiguration, name: &str, model: &str, provider_id: &str, account_id: &Option<String>) -> (r: bool)
    ensures
        r == (default_key(*a) == (name@, model@, provider_id@, opt_text(*account_id))),
{
    if !str_equal(a.name.as_str(), name) || !str_equal(a.model.as_str(), model) || !str_equal(
        a.target.provider_id.as_str(),
        provider_id,
    ) {
        return false;
    }
    match (&a.target.account_id, account_id) {
        (Some(x), Some(y)) => str_equal(x.as_str(), y.as_str()),
        (None, None) => true,
        _ => false,
    }
}

fn key_seen(
    defaults: &Vec<FileRoutingDefaultConfiguration>,
    name: &str,
    model: &str,
    provider_id: &str,
    account_id: &Option<String>,
) -> (r: bool)
    ensures
        r == defaults@.map_values(|d: FileRoutingDefaultConfiguration| default_key(d)).contains(
            (name@, model@, provider_id@, opt_text(*account_id)),
        ),
{
    let ghost keys = defaults@.map_values(|d: FileRoutingDefaultConfiguration| default_key(d));
    let mut j: usize = 0;
    while j < defaults.len()
        invariant
            j <= defaults@.len(),
            keys == defaults@.map_values(|d: FileRoutingDefaultConfiguration| default_key(d)),
            forall|q: int| 0 <= q < j ==> keys[q] != (name@, model@, provider_id@, opt_text(*account_id)),
        decreases defaults.len() - j,
    {
        if same_key(&defaults[j], name, model, provider_id, account_id) {
            assert(keys[j as int] == (name@, model@, provider_id@, opt_text(*account_id)));
            return true;
        }
        j = j + 1;
    }
    false
}

/// Keys of a list of kept routing defaults.
pub open spec fn keys_of(defaults: Seq<FileRoutingDefaultConfiguration>) -> Seq<DefaultKey> {
    defaults.map_values(|d: FileRoutingDefaultConfiguration| default_key(d))
}

fn default_fields(
    raw: &RawRoutingDefaultConfiguration,
    i: usize,
    source: &ConfigurationSourceMetadata,
    errors: &mut Vec<ConfigurationError>,
) -> (r: (Option<String>, Option<String>, Option<String>, Option<String>))
    ensures
        r.0 == required_value(raw.name),
        r.1 == required_value(raw.model),
        r.2 == required_value(raw.provider_id),
        r.3 == account_value(raw.account_id),
        issues_of(final(errors)@) == issues_of(old(errors)@) + default_field_issues(
            *raw,
            i as nat,
            source@,
        ),
{
    let ghost src = source@;
    let ghost at_start = errors@;
    let k = ConfigurationErrorKind::InvalidRoutingDefault;
    let name_field = indexed_path("routing.defaults", i, "name");
    let model_field = indexed_path("routing.defaults", i, "model");
    let provider_field = indexed_path("routing.defaults", i, "provider-id");
    let account_field = indexed_path("routing.defaults", i, "account-id");
    let fallback_field = indexed_path("routing.defaults", i, "fallback-enabled");
    let name = validate_required_string(&raw.name, name_field.as_str(), k, source, errors);
    let model = validate_required_string(&raw.model, model_field.as_str(), k, source, errors);
    let provider_id = validate_required_string(&raw.provider_id, provider_field.as_str(), k, source, errors);
    let ghost mid = errors@;
    match raw.fallback_enabled {
        Some(_) => {},
        None => {
            push_error(errors, error(k, fallback_field.as_str(), InvalidConfigurationValue::Missing, source));
        },
    }
    let ghost mid2 = errors@;
    assert(issues_of(mid2) =~= issues_of(mid) + optional_issue(
        flag_problem(raw.fallback_enabled, k),
        fallback_field@,
        src,
    ));
    let account_id = match &raw.account_id {
        Some(value) => {
            if is_blank(value.as_str()) {
                push_error(errors, error(k, account_field.as_str(), InvalidConfigurationValue::Malformed, source));
                None
            } else {
                Some(value.clone())
            }
        },
        None => None,
    };
    assert(issues_of(errors@) =~= issues_of(mid2) + optional_issue(
        account_problem(raw.account_id),
        account_field@,
        src,
    ));
    assert(issues_of(errors@) =~= issues_of(at_start) + default_field_issues(*raw, i as nat, src));
    (name, model, provider_id, account_id)
}

fn check_references(
    provider_id: &Option<String>,
    account_id: &Option<String>,
    providers: &Vec<FileProviderConfiguration>,
    provider_field: &str,
    account_field: &str,
    source: &ConfigurationSourceMetadata,
    errors: &mut Vec<ConfigurationError>,
)
    ensures
        issues_of(final(errors)@) == issues_of(old(errors)@) + reference_issues(
            *provider_id,
            *account_id,
            providers_view(providers@),
            provider_field@,
            account_field@,
            source@,
        ),
{
    let ghost at_start = errors@;
    let k = ConfigurationErrorKind::InvalidRoutingDefault;
    match provider_id {
        Some(pid) => match find_provider(providers, pid.as_str()) {
            Some(reference) => {
                if !reference.routing_eligible {
                    push_error(errors, error(k, provider_field, InvalidConfigurationValue::Unsupported, source));
                }
                let ghost mid = errors@;
                match account_id {
                    Some(a) => {
                        if !provider_has_account(reference, a.as_str()) {
                            push_error(
                                errors,
                                error(
                                    ConfigurationErrorKind::UnknownAccountReference,
                                    account_field,
                                    InvalidConfigurationValue::UnknownReference,
                                    source,
                                ),
                            );
                        }
                    },
                    None => {},
                }
                assert(issues_of(errors@) =~= issues_of(at_start) + reference_issues(
                    *provider_id,
                    *account_id,
                    providers_view(providers@),
                    provider_field@,
                    account_field@,
                    source@,
                ));
            },
            None => {
                push_error(
                    errors,
                    error(
                        ConfigurationErrorKind::UnknownProviderReference,
                        provider_field,
                        InvalidConfigurationValue::UnknownReference,
                        source,
                    ),
                );
            },
        },
        None => {
            assert(issues_of(errors@) =~= issues_of(at_start) + Seq::<ConfigurationIssue>::empty());
        },
    }
}

fn validate_default_entry(
    raws: &Vec<RawRoutingDefaultConfiguration>,
    i: usize,
    providers: &Vec<FileProviderConfiguration>,
    source: &ConfigurationSourceMetadata,
    defaults: &mut Vec<FileRoutingDefaultConfiguration>,
    errors: &mut Vec<ConfigurationError>,
)
    requires
        i < raws.len(),
    ensures
        issues_of(final(errors)@) == issues_of(old(errors)@) + default_issues(
            keys_of(old(defaults)@),
            raws@,
            i as int,
            providers_view(providers@),
            source@,
        ),
        final(defaults)@ == match default_value(raws@[i as int]) {
            Some(d) => old(defaults)@.push(d),
            None => old(defaults)@,
        },
{
    let ghost src = source@;
    let ghost at_start = errors@;
    let raw = &raws[i];
    let k = ConfigurationErrorKind::InvalidRoutingDefault;
    let provider_field = indexed_path("routing.defaults", i, "provider-id");
    let account_field = indexed_path("routing.defaults", i, "account-id");
    let fallback_field = indexed_path("routing.defaults", i, "fallback-enabled");
    let (name, model, provider_id, account_id) = default_fields(raw, i, source, errors);
    check_references(
        &provider_id,
        &account_id,
        providers,
        provider_field.as_str(),
        account_field.as_str(),
        source,
        errors,
    );
    let ghost after_refs = errors@;
    match (name, model, provider_id, raw.fallback_enabled) {
        (Some(name), Some(model), Some(provider_id), Some(fallback_enabled)) => {
            if key_seen(defaults, name.as_str(), model.as_str(), provider_id.as_str(), &account_id) {
                push_error(
                    errors,
                    error(k, provider_field.as_str(), InvalidConfigurationValue::Duplicate, source),
                );
            }
            if !fallback_enabled && has_later_same_group(raws, i, name.as_str(), model.as_str()) {
                push_error(
                    errors,
                    error(k, fallback_field.as_str(), InvalidConfigurationValue::Unsupported, source),
                );
            }
            assert(issues_of(errors@) =~= issues_of(after_refs) + default_key_issues(
                keys_of(old(defaults)@),
                raws@,
                i as int,
                src,
            ));
            defaults.push(
                FileRoutingDefaultConfiguration {
                    name,
                    model,
                    target: RoutingTarget { provider_id, account_id },
                    fallback_enabled,
                },
            );
        },
        _ => {
            assert(issues_of(errors@) =~= issues_of(after_refs) + Seq::<ConfigurationIssue>::empty());
        },
    }
    assert(issues_of(errors@) =~= issues_of(at_start) + default_issues(
        keys_of(old(defaults)@),
        raws@,
        i as int,
        providers_view(providers@),
        src,
    ));
}

fn validate_routing_defaults(
    raw_defaults: &Vec<RawRoutingDefaultConfiguration>,
    providers: &Vec<FileProviderConfiguration>,
    source: &ConfigurationSourceMetadata,
    errors: &mut Vec<ConfigurationError>,
) -> (r: Vec<FileRoutingDefaultConfiguration>)
    ensures
        ({
            let st = defaults_upto(
                raw_defaults@,
                raw_defaults@.len() as int,
                providers_view(providers@),
                source@,
            );
            &&& r@ == st.defaults
            &&& issues_of(final(errors)@) == issues_of(old(errors)@) + st.issues
        }),
{
    let ghost src = source@;
    let ghost pv = providers_view(providers@);
    let ghost before = errors@;
    let mut defaults: Vec<FileRoutingDefaultConfiguration> = Vec::new();
    let mut i: usize = 0;
    assert(issues_of(errors@) =~= issues_of(before) + Seq::<ConfigurationIssue>::empty());
    while i < raw_defaults.len()
        invariant
            i <= raw_defaults@.len(),
            src == source@,
            pv == providers_view(providers@),
            ({
                let st = defaults_upto(raw_defaults@, i as int, pv, src);
                &&& defaults@ == st.defaults
                &&& issues_of(errors@) == issues_of(before) + st.issues
            }),
        decreases raw_defaults.len() - i,
    {
        validate_default_entry(raw_defaults, i, providers, source, &mut defaults, errors);
        assert(issues_of(errors@) =~= issues_of(before) + defaults_upto(raw_defaults@, i + 1, pv, src).issues);
        i = i + 1;
    }
    defaults
}

// ---------------------------------------------------------------------------
// Groups and routing policy
// ---------------------------------------------------------------------------

/// Models of a list of groups.
pub open spec fn groups_view(v: Seq<FileRoutingDefaultGroup>) -> Seq<FileRoutingDefaultGroupView> {
    v.map_values(|g: FileRoutingDefaultGroup| g@)
}

/// Index of the first group at or after `i` with the name and model of `d`, or the count.
pub open spec fn group_from(groups: Seq<FileRoutingDefaultGroupView>, d: FileRoutingDefaultConfiguration, i: int) -> int
    decreases groups.len() - i,
{
    if i < 0 || i >= groups.len() {
        groups.len() as int
    } else if groups[i].name@ == d.name@ && groups[i].model@ == d.model@ {
        i
    } else {
        group_from(groups, d, i + 1)
    }
}

/// Groups after adding one default: to the first group of its name and model, or a new one.
pub open spec fn group_step(groups: Seq<FileRoutingDefaultGroupView>, d: FileRoutingDefaultConfiguration) -> Seq<
    FileRoutingDefaultGroupView,
> {
    let k = group_from(groups, d, 0);
    if k < groups.len() {
        groups.update(
            k,
            FileRoutingDefaultGroupView { candidates: groups[k].candidates.push(d), ..groups[k] },
        )
    } else {
        groups.push(FileRoutingDefaultGroupView { name: d.name, model: d.model, candidates: seq![d] })
    }
}

/// Groups of the first `n` defaults.
pub open spec fn groups_upto(defaults: Seq<FileRoutingDefaultConfiguration>, n: int) -> Seq<
    FileRoutingDefaultGroupView,
>
    decreases n,
{
    if n <= 0 || n > defaults.len() {
        Seq::empty()
    } else {
        group_step(groups_upto(defaults, n - 1), defaults[n - 1])
    }
}

fn find_group(groups: &Vec<FileRoutingDefaultGroup>, d: &FileRoutingDefaultConfiguration) -> (r: usize)
    ensures
        r == group_from(groups_view(groups@), *d, 0),
{
    let ghost gv = groups_view(groups@);
    let mut k: usize = 0;
    while k < groups.len()
        invariant
            k <= groups@.len(),
            gv == groups_view(groups@),
            group_from(gv, *d, 0) == group_from(gv, *d, k as int),
        decreases groups.len() - k,
    {
        if str_equal(groups[k].name.as_str(), d.name.as_str()) && str_equal(
            groups[k].model.as_str(),
            d.model.as_str(),
        ) {
            return k;
        }
        k = k + 1;
    }
    k
}

fn group_routing_defaults(defaults: &Vec<FileRoutingDefaultConfiguration>) -> (r: Vec<FileRoutingDefaultGroup>)
    ensures
        groups_view(r@) == groups_upto(defaults@, defaults@.len() as int),
{
    let mut groups: Vec<FileRoutingDefaultGroup> = Vec::new();
    let mut i: usize = 0;
    assert(groups_view(groups@) =~= Seq::<FileRoutingDefaultGroupView>::empty());
    while i < defaults.len()
        invariant
            i <= defaults@.len(),
            groups_view(groups@) == groups_upto(defaults@, i as int),
        decreases defaults.len() - i,
    {
        let d = &defaults[i];
        let ghost gv = groups_view(groups@);
        let k = find_group(&groups, d);
        if k < groups.len() {
            let mut g = groups[k].clone();
            g.candidates.push(d.clone());
            let ghost gk = g@;
            assert(gk == FileRoutingDefaultGroupView { candidates: gv[k as int].candidates.push(*d), ..gv[k as int] });
            groups.set(k, g);
            assert(groups_view(groups@) =~= gv.update(k as int, gk));
            assert(groups_view(groups@) =~= group_step(gv, *d));
        } else {
            let mut first: Vec<FileRoutingDefaultConfiguration> = Vec::new();
            first.push(d.clone());
            assert(first@ =~= seq![*d]);
            groups.push(
                FileRoutingDefaultGroup { name: d.name.clone(), model: d.model.clone(), candidates: first },
            );
            assert(groups_view(groups@) =~= group_step(gv, *d));
        }
        i = i + 1;
    }
    groups
}

/// Lexicographic order on code points, from index `i`.
pub open spec fn less_from(a: Seq<char>, b: Seq<char>, i: int) -> bool
    decreases a.len() - i,
{
    if i < 0 {
        false
    } else if i >= a.len() {
        i < b.len()
    } else if i >= b.len() {
        false
    } else if a[i] != b[i] {
        (a[i] as int) < (b[i] as int)
    } else {
        less_from(a, b, i + 1)
    }
}

/// Lexicographic order on code points, the order of `String`.
pub open spec fn text_less(a: Seq<char>, b: Seq<char>) -> bool {
    less_from(a, b, 0)
}

fn str_less(a: &str, b: &str) -> (r: bool)
    ensures
        r == text_less(a@, b@),
{
    let n = a.unicode_len();
    let m = b.unicode_len();
    let mut i: usize = 0;
    while i < n && i < m
        invariant
            n == a@.len(),
            m == b@.len(),
            i <= n,
            i <= m,
            less_from(a@, b@, 0) == less_from(a@, b@, i as int),
        decreases n - i,
    {
        let x = a.get_char(i);
        let y = b.get_char(i);
        if x != y {
            return (x as u32) < (y as u32);
        }
        i = i + 1;
    }
    i < m && i >= n
}

/// A route by its model and candidates.
pub type RouteEntry = (Seq<char>, Seq<RoutingCandidate>);

/// Index of the route for model `m` at or after `i`, or the count.
pub open spec fn route_find(routes: Seq<RouteEntry>, m: Seq<char>, i: int) -> int
    decreases routes.len() - i,
{
    if i < 0 || i >= routes.len() {
        routes.len() as int
    } else if routes[i].0 == m {
        i
    } else {
        route_find(routes, m, i + 1)
    }
}

/// Index of the first route at or after `i` whose model does not sort before `m`, or the count.
pub open spec fn insert_position(routes: Seq<RouteEntry>, m: Seq<char>, i: int) -> int
    decreases routes.len() - i,
{
    if i < 0 || i >= routes.len() {
        routes.len() as int
    } else if !text_less(routes[i].0, m) {
        i
    } else {
        insert_position(routes, m, i + 1)
    }
}

/// Routes after adding a candidate for model `m`: appended to its route, or a new route at
/// its place in model order.
pub open spec fn route_insert(routes: Seq<RouteEntry>, m: Seq<char>, c: RoutingCandidate) -> Seq<RouteEntry> {
    let k = route_find(routes, m, 0);
    if k < routes.len() {
        routes.update(k, (m, routes[k].1.push(c)))
    } else {
        routes.insert(insert_position(routes, m, 0), (m, seq![c]))
    }
}

/// Routes after adding the first `n` candidates of a group.
pub open spec fn routes_with_group(routes: Seq<RouteEntry>, g: FileRoutingDefaultGroupView, n: int) -> Seq<RouteEntry>
    decreases n,
{
    if n <= 0 || n > g.candidates.len() {
        routes
    } else {
        route_insert(
            routes_with_group(routes, g, n - 1),
            g.model@,
            RoutingCandidate { target: g.candidates[n - 1].target },
        )
    }
}

/// Routes built from the first `n` groups.
pub open spec fn routes_upto(groups: Seq<FileRoutingDefaultGroupView>, n: int) -> Seq<RouteEntry>
    decreases n,
{
    if n <= 0 || n > groups.len() {
        Seq::empty()
    } else {
        let g = groups[n - 1];
        routes_with_group(routes_upto(groups, n - 1), g, g.candidates.len() as int)
    }
}

/// Routes held as parallel lists of models and candidates.
pub open spec fn entries(models: Seq<String>, cands: Seq<Vec<RoutingCandidate>>) -> Seq<RouteEntry> {
    Seq::new(models.len(), |i: int| (models[i]@, cands[i]@))
}

/// Model of a route.
pub open spec fn route_entry(r: ModelRoute) -> RouteEntry {
    (r.resolved_model@, r.candidates@)
}

fn copy_candidates(v: &Vec<RoutingCandidate>) -> (r: Vec<RoutingCandidate>)
    ensures
        r@ == v@,
{
    let mut out: Vec<RoutingCandidate> = Vec::new();
    let mut i: usize = 0;
    while i < v.len()
        invariant
            i <= v@.len(),
            out@ == v@.subrange(0, i as int),
        decreases v.len() - i,
    {
        out.push(v[i].clone());
        i = i + 1;
        assert(out@ =~= v@.subrange(0, i as int));
    }
    assert(v@.subrange(0, v@.len() as int) =~= v@);
    out
}

fn find_insert_position(models: &Vec<String>, model: &String) -> (r: usize)
    ensures
        r <= models@.len(),
        forall|cands: Seq<Vec<RoutingCandidate>>|
            cands.len() == models@.len() ==> #[trigger] insert_position(entries(models@, cands), model@, 0) == r,
{
    let mut p: usize = 0;
    while p < models.len()
        invariant
            p <= models@.len(),
            forall|cands: Seq<Vec<RoutingCandidate>>|
                cands.len() == models@.len() ==> #[trigger] insert_position(entries(models@, cands), model@, 0)
                    == insert_position(entries(models@, cands), model@, p as int),
        decreases models.len() - p,
    {
        if !str_less(models[p].as_str(), model.as_str()) {
            assert forall|cands: Seq<Vec<RoutingCandidate>>|
                cands.len() == models@.len() implies #[trigger] insert_position(entries(models@, cands), model@, 0)
                    == p by {
                assert(entries(models@, cands)[p as int].0 == models@[p as int]@);
            }
            return p;
        }
        assert forall|cands: Seq<Vec<RoutingCandidate>>|
            cands.len() == models@.len() implies #[trigger] insert_position(entries(models@, cands), model@, 0)
                == insert_position(entries(models@, cands), model@, p + 1) by {
            assert(entries(models@, cands)[p as int].0 == models@[p as int]@);
        }
        p = p + 1;
    }
    p
}

fn insert_candidate(
    models: &mut Vec<String>,
    candidates: &mut Vec<Vec<RoutingCandidate>>,
    model: &String,
    candidate: RoutingCandidate,
)
    requires
        old(models)@.len() == old(candidates)@.len(),
    ensures
        final(models)@.len() == final(candidates)@.len(),
        ({
            let before = entries(old(models)@, old(candidates)@);
            let after = entries(final(models)@, final(candidates)@);
            after == route_insert(before, model@, candidate)
        }),
{
    let ghost before = entries(models@, candidates@);
    let mut k: usize = 0;
    while k < models.len()
        invariant
            k <= models@.len(),
            models@.len() == candidates@.len(),
            before == entries(models@, candidates@),
            models@ == old(models)@,
            candidates@ == old(candidates)@,
            route_find(before, model@, 0) == route_find(before, model@, k as int),
        decreases models.len() - k,
    {
        if str_equal(models[k].as_str(), model.as_str()) {
            let mut c = copy_candidates(&candidates[k]);
            c.push(candidate);
            candidates.set(k, c);
            assert(entries(models@, candidates@) =~= route_insert(before, model@, candidate));
            return;
        }
        k = k + 1;
    }
    let p = find_insert_position(models, model);
    models.insert(p, model.clone());
    let mut first: Vec<RoutingCandidate> = Vec::new();
    first.push(candidate);
    assert(first@ =~= seq![candidate]);
    candidates.insert(p, first);
    assert(entries(models@, candidates@) =~= route_insert(before, model@, candidate));
}

fn build_routing_policy(groups: &Vec<FileRoutingDefaultGroup>) -> (r: RoutingPolicy)
    ensures
        r.routes@.map_values(|route: ModelRoute| route_entry(route)) == routes_upto(
            groups_view(groups@),
            groups@.len() as int,
        ),
        routes_ordered(r.routes@.map_values(|route: ModelRoute| route_entry(route))),
        r.model_aliases@.len() == 0,
        r.fallback.fallback_enabled,
        !r.fallback.allow_degraded,
        r.default_target is None,
{
    let ghost gv = groups_view(groups@);
    proof {
        lemma_built_routes_ordered(gv, gv.len() as int);
    }
    let mut models: Vec<String> = Vec::new();
    let mut candidates: Vec<Vec<RoutingCandidate>> = Vec::new();
    let mut g: usize = 0;
    assert(entries(models@, candidates@) =~= Seq::<RouteEntry>::empty());
    while g < groups.len()
        invariant
            g <= groups@.len(),
            gv == groups_view(groups@),
            models@.len() == candidates@.len(),
            entries(models@, candidates@) == routes_upto(gv, g as int),
        decreases groups.len() - g,
    {
        let group = &groups[g];
        let ghost start = routes_upto(gv, g as int);
        let mut c: usize = 0;
        while c < group.candidates.len()
            invariant
                g < groups@.len(),
                c <= group.candidates@.len(),
                gv == groups_view(groups@),
                group == &groups@[g as int],
                models@.len() == candidates@.len(),
                entries(models@, candidates@) == routes_with_group(
                    start,
                    gv[g as int],
                    c as int,
                ),
            decreases group.candidates.len() - c,
        {
            insert_candidate(
                &mut models,
                &mut candidates,
                &group.model,
                RoutingCandidate::new(group.candidates[c].target.clone()),
            );
            c = c + 1;
        }
        g = g + 1;
    }
    let ghost built = entries(models@, candidates@);
    let mut routes: Vec<ModelRoute> = Vec::new();
    let mut i: usize = 0;
    while i < models.len()
        invariant
            i <= models@.len(),
            models@.len() == candidates@.len(),
            built == entries(models@, candidates@),
            routes@.len() == i,
            routes@.map_values(|route: ModelRoute| route_entry(route)) == built.subrange(0, i as int),
        decreases models.len() - i,
    {
        let ghost prev = routes@;
        routes.push(ModelRoute::new(models[i].as_str(), copy_candidates(&candidates[i])));
        assert(route_entry(routes@[i as int]) == built[i as int]);
        assert(routes@.map_values(|route: ModelRoute| route_entry(route)) =~= prev.map_values(
            |route: ModelRoute| route_entry(route),
        ).push(built[i as int]));
        i = i + 1;
        assert(built.subrange(0, i as int) =~= built.subrange(0, i - 1).push(built[i - 1]));
    }
    assert(built.subrange(0, built.len() as int) =~= built);
    RoutingPolicy::new(routes)
}

// ---------------------------------------------------------------------------
// Observability, lifecycle, and the whole document
// ---------------------------------------------------------------------------

/// Logging setting named in configuration, or its problem.
pub open spec fn logging_check(value: Option<String>) -> (
    Option<LoggingSetting>,
    Option<(ConfigurationErrorKind, InvalidConfigurationValue)>,
) {
    match value {
        None => (Some(LoggingSetting::Standard), None),
        Some(v) => if v@ == "off"@ {
            (Some(LoggingSetting::Off), None)
        } else if v@ == "standard"@ {
            (Some(LoggingSetting::Standard), None)
        } else if v@ == "verbose"@ {
            (Some(LoggingSetting::Verbose), None)
        } else {
            (
                None,
                Some(
                    (ConfigurationErrorKind::InvalidLoggingSetting, InvalidConfigurationValue::Unsupported),
                ),
            )
        },
    }
}

/// Usage collection setting, or its problem: it must be a boolean.
pub open spec fn usage_check(value: Option<RawSettingValue>) -> (
    Option<bool>,
    Option<(ConfigurationErrorKind, InvalidConfigurationValue)>,
) {
    match value {
        None => (Some(true), None),
        Some(RawSettingValue::Boolean(b)) => (Some(b), None),
        Some(RawSettingValue::Other) => (
            None,
            Some(
                (
                    ConfigurationErrorKind::InvalidUsageCollectionSetting,
                    InvalidConfigurationValue::Malformed,
                ),
            ),
        ),
    }
}

/// Auto-start intent named in configuration, or its problem.
pub open spec fn auto_start_check(value: Option<String>) -> (
    Option<AutoStartIntent>,
    Option<(ConfigurationErrorKind, InvalidConfigurationValue)>,
) {
    match value {
        None => (Some(AutoStartIntent::Disabled), None),
        Some(v) => if v@ == "disabled"@ {
            (Some(AutoStartIntent::Disabled), None)
        } else if v@ == "enabled"@ {
            (Some(AutoStartIntent::Enabled), None)
        } else {
            (
                None,
                Some(
                    (ConfigurationErrorKind::InvalidAutoStartIntent, InvalidConfigurationValue::Unsupported),
                ),
            )
        },
    }
}

fn validate_logging(
    raw_logging: &Option<String>,
    source: &ConfigurationSourceMetadata,
    errors: &mut Vec<ConfigurationError>,
) -> (r: Option<LoggingSetting>)
    ensures
        r == logging_check(*raw_logging).0,
        issues_of(final(errors)@) == issues_of(old(errors)@) + optional_issue(
            logging_check(*raw_logging).1,
            "observability.logging"@,
            source@,
        ),
{
    let ghost before = errors@;
    proof {
        reveal_strlit("off");
        reveal_strlit("standard");
        reveal_strlit("verbose");
    }
    let r = match raw_logging {
        None => Some(LoggingSetting::Standard),
        Some(v) => {
            if str_equal(v.as_str(), "off") {
                Some(LoggingSetting::Off)
            } else if str_equal(v.as_str(), "standard") {
                Some(LoggingSetting::Standard)
            } else if str_equal(v.as_str(), "verbose") {
                Some(LoggingSetting::Verbose)
            } else {
                push_error(
                    errors,
                    error(
                        ConfigurationErrorKind::InvalidLoggingSetting,
                        "observability.logging",
                        InvalidConfigurationValue::Unsupported,
                        source,
                    ),
                );
                None
            }
        },
    };
    assert(issues_of(errors@) =~= issues_of(before) + optional_issue(
        logging_check(*raw_logging).1,
        "observability.logging"@,
        source@,
    ));
    r
}

fn validate_usage_collection(
    usage_collection: Option<RawSettingValue>,
    source: &ConfigurationSourceMetadata,
    errors: &mut Vec<ConfigurationError>,
) -> (r: Option<bool>)
    ensures
        r == usage_check(usage_collection).0,
        issues_of(final(errors)@) == issues_of(old(errors)@) + optional_issue(
            usage_check(usage_collection).1,
            "observability.usage-collection"@,
            source@,
        ),
{
    let ghost before = errors@;
    let r = match usage_collection {
        None => Some(true),
        Some(RawSettingValue::Boolean(b)) => Some(b),
        Some(RawSettingValue::Other) => {
            push_error(
                errors,
                error(
                    ConfigurationErrorKind::InvalidUsageCollectionSetting,
                    "observability.usage-collection",
                    InvalidConfigurationValue::Malformed,
                    source,
                ),
            );
            None
        },
    };
    assert(issues_of(errors@) =~= issues_of(before) + optional_issue(
        usage_check(usage_collection).1,
        "observability.usage-collection"@,
        source@,
    ));
    r
}

fn validate_auto_start(
    raw_auto_start: &Option<String>,
    source: &ConfigurationSourceMetadata,
    errors: &mut Vec<ConfigurationError>,
) -> (r: Option<AutoStartIntent>)
    ensures
        r == auto_start_check(*raw_auto_start).0,
        issues_of(final(errors)@) == issues_of(old(errors)@) + optional_issue(
            auto_start_check(*raw_auto_start).1,
            "lifecycle.auto-start"@,
            source@,
        ),
{
    let ghost before = errors@;
    proof {
        reveal_strlit("disabled");
        reveal_strlit("enabled");
    }
    let r = match raw_auto_start {
        None => Some(AutoStartIntent::Disabled),
        Some(v) => {
            if str_equal(v.as_str(), "disabled") {
                Some(AutoStartIntent::Disabled)
            } else if str_equal(v.as_str(), "enabled") {
                Some(AutoStartIntent::Enabled)
            } else {
                push_error(
                    errors,
                    error(
                        ConfigurationErrorKind::InvalidAutoStartIntent,
                        "lifecycle.auto-start",
                        InvalidConfigurationValue::Unsupported,
                        source,
                    ),
                );
                None
            }
        },
    };
    assert(issues_of(errors@) =~= issues_of(before) + optional_issue(
        auto_start_check(*raw_auto_start).1,
        "lifecycle.auto-start"@,
        source@,
    ));
    r
}

/// Every diagnostic of a raw configuration, in the order they are reported: version,
/// proxy, providers, routing defaults, logging, usage collection, auto-start.
pub open spec fn configuration_issues(raw: RawConfiguration, source: SourceView) -> Seq<ConfigurationIssue> {
    let providers = providers_upto(raw.providers@, raw.providers@.len() as int, source);
    optional_issue(version_problem(raw.version), "version"@, source) + proxy_issues(raw.proxy, source)
        + providers.issues + defaults_upto(
        raw.routing.defaults@,
        raw.routing.defaults@.len() as int,
        providers.providers,
        source,
    ).issues + optional_issue(logging_check(raw.observability.logging).1, "observability.logging"@, source)
        + optional_issue(
        usage_check(raw.observability.usage_collection).1,
        "observability.usage-collection"@,
        source,
    ) + optional_issue(auto_start_check(raw.lifecycle.auto_start).1, "lifecycle.auto-start"@, source)
}

/// The validated configuration of a raw configuration without diagnostics.
pub open spec fn is_validated_configuration(
    v: ValidatedFileConfiguration,
    raw: RawConfiguration,
    source: ConfigurationSourceMetadata,
) -> bool {
    let src = source@;
    let providers = providers_upto(raw.providers@, raw.providers@.len() as int, src);
    let defaults = defaults_upto(
        raw.routing.defaults@,
        raw.routing.defaults@.len() as int,
        providers.providers,
        src,
    ).defaults;
    let groups = groups_upto(defaults, defaults.len() as int);
    &&& v.source == source
    &&& Some(v.proxy) == proxy_value(raw.proxy)
    &&& providers_view(v.providers@) == providers.providers
    &&& v.routing_defaults@ == defaults
    &&& groups_view(v.routing_default_groups@) == groups
    &&& v.routing_policy.routes@.map_values(|route: ModelRoute| route_entry(route)) == routes_upto(
        groups,
        groups.len() as int,
    )
    &&& v.routing_policy.model_aliases@.len() == 0
    &&& v.routing_policy.fallback.fallback_enabled && !v.routing_policy.fallback.allow_degraded
    &&& v.routing_policy.default_target is None
    &&& Some(v.logging) == logging_check(raw.observability.logging).0
    &&& Some(v.usage_collection_enabled) == usage_check(raw.observability.usage_collection).0
    &&& Some(v.auto_start) == auto_start_check(raw.lifecycle.auto_start).0
    &&& v.warnings@.len() == 0
}

/// Validates a raw configuration: every problem is reported in one configuration error,
/// in document order; a configuration is produced only when there is none.
pub fn validate_raw_configuration(raw: RawConfiguration, source: ConfigurationSourceMetadata) -> (r: Result<
    ValidatedFileConfiguration,
    CoreError,
>)
    ensures
        configuration_issues(raw, source@).len() == 0 ==> r is Ok
            && is_validated_configuration(r->Ok_0, raw, source),
        configuration_issues(raw, source@).len() > 0 ==> r is Err && (r->Err_0 matches CoreError::Configuration {
            errors,
        } && issues_of(errors@) == configuration_issues(raw, source@)),
{
    let ghost src = source@;
    let mut errors: Vec<ConfigurationError> = Vec::new();
    match raw.version {
        Some(v) => {
            if v != 1 {
                push_error(
                    &mut errors,
                    error(
                        ConfigurationErrorKind::InvalidVersion,
                        "version",
                        InvalidConfigurationValue::Unsupported,
                        &source,
                    ),
                );
            }
        },
        None => {
            push_error(
                &mut errors,
                error(
                    ConfigurationErrorKind::MissingRequiredField,
                    "version",
                    InvalidConfigurationValue::Missing,
                    &source,
                ),
            );
        },
    }
    assert(issues_of(errors@) =~= optional_issue(version_problem(raw.version), "version"@, src));
    let proxy = validate_proxy(&raw.proxy, &source, &mut errors);
    let providers = validate_providers(&raw.providers, &source, &mut errors);
    let routing_defaults = validate_routing_defaults(&raw.routing.defaults, &providers, &source, &mut errors);
    let routing_default_groups = group_routing_defaults(&routing_defaults);
    let logging = validate_logging(&raw.observability.logging, &source, &mut errors);
    let usage_collection_enabled = validate_usage_collection(
        raw.observability.usage_collection,
        &source,
        &mut errors,
    );
    let auto_start = validate_auto_start(&raw.lifecycle.auto_start, &source, &mut errors);
    assert(issues_of(errors@) =~= configuration_issues(raw, src));
    if errors.len() > 0 {
        return Err(CoreError::Configuration { errors });
    }
    let proxy = match proxy {
        Some(proxy) => proxy,
        None => {
            let mut missing: Vec<ConfigurationError> = Vec::new();
            missing.push(
                error(
                    ConfigurationErrorKind::MissingRequiredField,
                    "proxy",
                    InvalidConfigurationValue::Missing,
                    &source,
                ),
            );
            return Err(CoreError::Configuration { errors: missing });
        },
    };
    let logging = match logging {
        Some(l) => l,
        None => LoggingSetting::Standard,
    };
    let usage_collection_enabled = match usage_collection_enabled {
        Some(b) => b,
        None => true,
    };
    let auto_start = match auto_start {
        Some(a) => a,
        None => AutoStartIntent::Disabled,
    };
    let routing_policy = build_routing_policy(&routing_default_groups);
    Ok(
        ValidatedFileConfiguration {
            source,
            proxy,
            providers,
            routing_defaults,
            routing_default_groups,
            routing_policy,
            logging,
            usage_collection_enabled,
            auto_start,
            warnings: Vec::new(),
        },
    )
}

// ---------------------------------------------------------------------------
// Order of built routes
// ---------------------------------------------------------------------------

proof fn lemma_less_irreflexive(a: Seq<char>, i: int)
    requires
        0 <= i,
    ensures
        !less_from(a, a, i),
    decreases a.len() - i,
{
    if i < a.len() {
        lemma_less_irreflexive(a, i + 1);
    }
}

proof fn lemma_less_total(a: Seq<char>, b: Seq<char>, i: int)
    requires
        0 <= i <= a.len(),
        i <= b.len(),
        forall|k: int| 0 <= k < i ==> a[k] == b[k],
        a != b,
    ensures
        less_from(a, b, i) || less_from(b, a, i),
    decreases a.len() - i,
{
    if i == a.len() {
        if i == b.len() {
            assert(a =~= b);
        }
    } else if i == b.len() {
    } else if a[i] != b[i] {
        assert((a[i] as int) != (b[i] as int));
    } else {
        lemma_less_total(a, b, i + 1);
    }
}

proof fn lemma_less_transitive(a: Seq<char>, b: Seq<char>, c: Seq<char>, i: int)
    requires
        0 <= i,
        less_from(a, b, i),
        less_from(b, c, i),
    ensures
        less_from(a, c, i),
    decreases a.len() - i,
{
    if i < a.len() && i < b.len() && i < c.len() && a[i] == b[i] && b[i] == c[i] {
        lemma_less_transitive(a, b, c, i + 1);
    }
}

proof fn lemma_less_asymmetric(a: Seq<char>, b: Seq<char>, i: int)
    requires
        0 <= i,
        less_from(a, b, i),
    ensures
        !less_from(b, a, i),
    decreases a.len() - i,
{
    if i < a.len() && i < b.len() && a[i] == b[i] {
        lemma_less_asymmetric(a, b, i + 1);
    }
}

/// Routes strictly ordered by model: each model once, in ascending order.
pub open spec fn routes_ordered(routes: Seq<RouteEntry>) -> bool {
    forall|i: int, j: int| 0 <= i < j < routes.len() ==> text_less(#[trigger] routes[i].0, #[trigger] routes[j].0)
}

proof fn lemma_find_bounds(routes: Seq<RouteEntry>, m: Seq<char>, i: int)
    requires
        0 <= i <= routes.len(),
    ensures
        i <= route_find(routes, m, i) <= routes.len(),
        route_find(routes, m, i) < routes.len() ==> routes[route_find(routes, m, i)].0 == m,
        forall|k: int| i <= k < route_find(routes, m, i) ==> routes[k].0 != m,
    decreases routes.len() - i,
{
    if i < routes.len() {
        lemma_find_bounds(routes, m, i + 1);
    }
}

proof fn lemma_position_bounds(routes: Seq<RouteEntry>, m: Seq<char>, i: int)
    requires
        0 <= i <= routes.len(),
    ensures
        i <= insert_position(routes, m, i) <= routes.len(),
        insert_position(routes, m, i) < routes.len() ==> !text_less(routes[insert_position(routes, m, i)].0, m),
        forall|k: int| i <= k < insert_position(routes, m, i) ==> text_less(routes[k].0, m),
    decreases routes.len() - i,
{
    if i < routes.len() {
        lemma_position_bounds(routes, m, i + 1);
    }
}

proof fn lemma_insert_keeps_order(routes: Seq<RouteEntry>, m: Seq<char>, c: RoutingCandidate)
    requires
        routes_ordered(routes),
    ensures
        routes_ordered(route_insert(routes, m, c)),
{
    lemma_find_bounds(routes, m, 0);
    let k = route_find(routes, m, 0);
    if k < routes.len() {
        let out = route_insert(routes, m, c);
        assert forall|i: int, j: int| 0 <= i < j < out.len() implies text_less(
            #[trigger] out[i].0,
            #[trigger] out[j].0,
        ) by {
            assert(out[i].0 == routes[i].0);
            assert(out[j].0 == routes[j].0);
        }
    } else {
        lemma_position_bounds(routes, m, 0);
        let p = insert_position(routes, m, 0);
        let out = route_insert(routes, m, c);
        assert(out == routes.insert(p, (m, seq![c])));
        assert forall|i: int| 0 <= i < routes.len() && p <= i implies text_less(m, #[trigger] routes[i].0) by {
            assert(routes[p].0 != m);
            lemma_less_total(routes[p].0, m, 0);
            if p < i {
                lemma_less_transitive(m, routes[p].0, routes[i].0, 0);
            }
        }
        assert forall|i: int, j: int| 0 <= i < j < out.len() implies text_less(
            #[trigger] out[i].0,
            #[trigger] out[j].0,
        ) by {
            if j < p {
                assert(out[i] == routes[i] && out[j] == routes[j]);
            } else if j == p {
                assert(out[j].0 == m);
                assert(out[i] == routes[i]);
            } else if i < p {
                assert(out[i] == routes[i] && out[j] == routes[j - 1]);
                if p < routes.len() {
                    assert(text_less(routes[i].0, m));
                    assert(text_less(m, routes[j - 1].0));
                    lemma_less_transitive(routes[i].0, m, routes[j - 1].0, 0);
                }
            } else if i == p {
                assert(out[i].0 == m && out[j] == routes[j - 1]);
            } else {
                assert(out[i] == routes[i - 1] && out[j] == routes[j - 1]);
            }
        }
    }
}

proof fn lemma_group_keeps_order(routes: Seq<RouteEntry>, g: FileRoutingDefaultGroupView, n: int)
    requires
        routes_ordered(routes),
    ensures
        routes_ordered(routes_with_group(routes, g, n)),
    decreases n,
{
    if 0 < n <= g.candidates.len() {
        lemma_group_keeps_order(routes, g, n - 1);
        lemma_insert_keeps_order(
            routes_with_group(routes, g, n - 1),
            g.model@,
            RoutingCandidate { target: g.candidates[n - 1].target },
        );
    }
}

/// Routes built from routing default groups are ordered by model, each model once, as a
/// sorted map orders its keys.
pub proof fn lemma_built_routes_ordered(groups: Seq<FileRoutingDefaultGroupView>, n: int)
    ensures
        routes_ordered(routes_upto(groups, n)),
    decreases n,
{
    if 0 < n <= groups.len() {
        lemma_built_routes_ordered(groups, n - 1);
        let g = groups[n - 1];
        lemma_group_keeps_order(routes_upto(groups, n - 1), g, g.candidates.len() as int);
    }
}

/// Route candidates of a routing default group's entries, in the group's order.
pub open spec fn group_targets(g: FileRoutingDefaultGroupView) -> Seq<RoutingCandidate> {
    g.candidates.map_values(|d: FileRoutingDefaultConfiguration| RoutingCandidate { target: d.target })
}

/// Candidates that the first `n` groups give model `m`: the entries of each of its groups,
/// group after group, each group's entries in their order.
pub open spec fn model_candidates(groups: Seq<FileRoutingDefaultGroupView>, m: Seq<char>, n: int) -> Seq<
    RoutingCandidate,
>
    decreases n,
{
    if n <= 0 || n > groups.len() {
        Seq::empty()
    } else {
        model_candidates(groups, m, n - 1) + if groups[n - 1].model@ == m {
            group_targets(groups[n - 1])
        } else {
            Seq::empty()
        }
    }
}

proof fn lemma_ordered_keys_distinct(routes: Seq<RouteEntry>, i: int, j: int)
    requires
        routes_ordered(routes),
        0 <= i < routes.len(),
        0 <= j < routes.len(),
        i != j,
    ensures
        routes[i].0 != routes[j].0,
{
    if i < j {
        assert(text_less(routes[i].0, routes[j].0));
        if routes[i].0 == routes[j].0 {
            lemma_less_asymmetric(routes[i].0, routes[j].0, 0);
        }
    } else {
        assert(text_less(routes[j].0, routes[i].0));
        if routes[i].0 == routes[j].0 {
            lemma_less_asymmetric(routes[j].0, routes[i].0, 0);
        }
    }
}

proof fn lemma_insert_tracks(
    routes: Seq<RouteEntry>,
    m0: Seq<char>,
    c: RoutingCandidate,
    before: spec_fn(Seq<char>) -> Seq<RoutingCandidate>,
)
    requires
        routes_ordered(routes),
        forall|i: int| 0 <= i < routes.len() ==> (#[trigger] routes[i]).1 == before(routes[i].0),
        forall|m: Seq<char>| #[trigger] before(m).len() > 0 ==> exists|i: int|
            0 <= i < routes.len() && (#[trigger] routes[i]).0 == m,
    ensures
        ({
            let out = route_insert(routes, m0, c);
            &&& forall|i: int|
                0 <= i < out.len() ==> (#[trigger] out[i]).1 == if out[i].0 == m0 {
                    before(out[i].0).push(c)
                } else {
                    before(out[i].0)
                }
            &&& forall|m: Seq<char>| #[trigger] before(m).len() > 0 || m == m0 ==> exists|i: int|
                0 <= i < out.len() && (#[trigger] out[i]).0 == m
        }),
{
    lemma_find_bounds(routes, m0, 0);
    let k = route_find(routes, m0, 0);
    let out = route_insert(routes, m0, c);
    if k < routes.len() {
        assert forall|i: int| 0 <= i < out.len() implies (#[trigger] out[i]).1 == if out[i].0 == m0 {
            before(out[i].0).push(c)
        } else {
            before(out[i].0)
        } by {
            if i != k {
                lemma_ordered_keys_distinct(routes, i, k);
            }
        }
        assert forall|m: Seq<char>| #[trigger] before(m).len() > 0 || m == m0 implies exists|i: int|
            0 <= i < out.len() && (#[trigger] out[i]).0 == m by {
            if m == m0 {
                assert(out[k].0 == m);
            } else {
                let i = choose|i: int| 0 <= i < routes.len() && (#[trigger] routes[i]).0 == m;
                assert(out[i].0 == m);
            }
        }
    } else {
        lemma_position_bounds(routes, m0, 0);
        let p = insert_position(routes, m0, 0);
        assert(out == routes.insert(p, (m0, seq![c])));
        if before(m0).len() > 0 {
            let i = choose|i: int| 0 <= i < routes.len() && (#[trigger] routes[i]).0 == m0;
            assert(false);
        }
        assert(before(m0).push(c) =~= seq![c]);
        assert forall|i: int| 0 <= i < out.len() implies (#[trigger] out[i]).1 == if out[i].0 == m0 {
            before(out[i].0).push(c)
        } else {
            before(out[i].0)
        } by {
            if i < p {
                assert(out[i] == routes[i]);
            } else if i > p {
                assert(out[i] == routes[i - 1]);
            }
        }
        assert forall|m: Seq<char>| #[trigger] before(m).len() > 0 || m == m0 implies exists|i: int|
            0 <= i < out.len() && (#[trigger] out[i]).0 == m by {
            if m == m0 {
                assert(out[p].0 == m);
            } else {
                let i = choose|i: int| 0 <= i < routes.len() && (#[trigger] routes[i]).0 == m;
                if i < p {
                    assert(out[i] == routes[i]);
                } else {
                    assert(out[i + 1] == routes[i]);
                }
            }
        }
    }
}

/// Candidates a model has after the first `n` groups and the first `j` entries of group `n`.
pub open spec fn partial_candidates(groups: Seq<FileRoutingDefaultGroupView>, m: Seq<char>, n: int, j: int) -> Seq<
    RoutingCandidate,
> {
    model_candidates(groups, m, n) + if groups[n].model@ == m {
        group_targets(groups[n]).take(j)
    } else {
        Seq::empty()
    }
}

proof fn lemma_group_tracks(groups: Seq<FileRoutingDefaultGroupView>, n: int, j: int)
    requires
        0 <= n < groups.len(),
        0 <= j <= groups[n].candidates.len(),
        routes_ordered(routes_upto(groups, n)),
        forall|i: int|
            0 <= i < routes_upto(groups, n).len() ==> (#[trigger] routes_upto(groups, n)[i]).1 == model_candidates(
                groups,
                routes_upto(groups, n)[i].0,
                n,
            ),
        forall|m: Seq<char>| #[trigger] model_candidates(groups, m, n).len() > 0 ==> exists|i: int|
            0 <= i < routes_upto(groups, n).len() && (#[trigger] routes_upto(groups, n)[i]).0 == m,
    ensures
        ({
            let out = routes_with_group(routes_upto(groups, n), groups[n], j);
            &&& routes_ordered(out)
            &&& forall|i: int|
                0 <= i < out.len() ==> (#[trigger] out[i]).1 == partial_candidates(groups, out[i].0, n, j)
            &&& forall|m: Seq<char>| #[trigger] partial_candidates(groups, m, n, j).len() > 0 ==> exists|i: int|
                0 <= i < out.len() && (#[trigger] out[i]).0 == m
        }),
    decreases j,
{
    let g = groups[n];
    let start = routes_upto(groups, n);
    lemma_group_keeps_order(start, g, j);
    if j == 0 {
        assert forall|m: Seq<char>| partial_candidates(groups, m, n, 0) == model_candidates(groups, m, n) by {
            assert(group_targets(g).take(0) =~= Seq::<RoutingCandidate>::empty());
            assert(partial_candidates(groups, m, n, 0) =~= model_candidates(groups, m, n));
        }
    } else {
        lemma_group_tracks(groups, n, j - 1);
        let prev = routes_with_group(start, g, j - 1);
        let c = RoutingCandidate { target: g.candidates[j - 1].target };
        let before = |m: Seq<char>| partial_candidates(groups, m, n, j - 1);
        lemma_group_keeps_order(start, g, j - 1);
        lemma_insert_tracks(prev, g.model@, c, before);
        assert(group_targets(g).take(j) =~= group_targets(g).take(j - 1).push(c));
        assert forall|m: Seq<char>| partial_candidates(groups, m, n, j) == if m == g.model@ {
            before(m).push(c)
        } else {
            before(m)
        } by {
            if m == g.model@ {
                assert(partial_candidates(groups, m, n, j) =~= before(m).push(c));
            } else {
                assert(partial_candidates(groups, m, n, j) =~= before(m));
            }
        }
    }
}

/// Each route built from routing default groups holds, in order, the entries of every group
/// for its model, group after group and each group's entries in their order; and every
/// model that some group names has a route.
pub proof fn law_routes_keep_default_order(groups: Seq<FileRoutingDefaultGroupView>, n: int)
    requires
        0 <= n <= groups.len(),
    ensures
        forall|i: int|
            0 <= i < routes_upto(groups, n).len() ==> (#[trigger] routes_upto(groups, n)[i]).1 == model_candidates(
                groups,
                routes_upto(groups, n)[i].0,
                n,
            ),
        forall|m: Seq<char>| #[trigger] model_candidates(groups, m, n).len() > 0 ==> exists|i: int|
            0 <= i < routes_upto(groups, n).len() && (#[trigger] routes_upto(groups, n)[i]).0 == m,
    decreases n,
{
    lemma_built_routes_ordered(groups, n);
    if n > 0 {
        law_routes_keep_default_order(groups, n - 1);
        lemma_built_routes_ordered(groups, n - 1);
        let g = groups[n - 1];
        let len = g.candidates.len() as int;
        lemma_group_tracks(groups, n - 1, len);
        assert(group_targets(g).take(len) =~= group_targets(g));
        assert forall|m: Seq<char>| model_candidates(groups, m, n) == partial_candidates(groups, m, n - 1, len) by {
            assert(model_candidates(groups, m, n) =~= partial_candidates(groups, m, n - 1, len));
        }
    }
}

} // verus!
