//! Validated file-backed configuration, configuration snapshots and update intents.

use vstd::prelude::*;

use crate::configuration::address::{ip_text, parse_ip_address, IpAddress};
use crate::errors::{
    ConfigurationError, ConfigurationErrorKind, ConfigurationIssue, ConfigurationSourceMetadata,
    CoreError, InvalidConfigurationValue,
};
use crate::provider::{
    AccountSummary, AccountSummaryView, AuthMethodCategory, AuthState, DegradedReasonView,
    ProtocolFamily, ProviderCapability, ProviderSummary, ProviderSummaryView,
};
use crate::routing::{RoutingPolicy, RoutingTarget};
use crate::text::{concat2, is_blank, is_blank_text, owned};
use crate::usage::{QuotaState, QuotaSummary, UsageSummary};

verus! {

/// Marker for configuration ownership in the headless core.
#[derive(Clone, Copy, Debug, PartialEq, Eq, Structural)]
pub struct ConfigurationBoundary;

/// Management-visible configuration snapshot.
#[derive(Clone, Debug, PartialEq, Eq)]
pub struct ConfigurationSnapshot {
    /// Listen address of the local proxy.
    pub listen_address: IpAddress,
    /// Listen port of the local proxy.
    pub port: u16,
    /// Whether the proxy starts automatically.
    pub auto_start: bool,
    /// Whether logging is enabled.
    pub logging_enabled: bool,
    /// Whether usage collection is enabled.
    pub usage_collection_enabled: bool,
    /// Named routing default.
    pub routing_default: RoutingDefault,
    /// Referenced provider identifiers.
    pub provider_references: Vec<String>,
}

impl ConfigurationSnapshot {
    /// Snapshot for local development: loopback, port 8787, manual routing.
    pub fn local_development() -> (r: Self)
        ensures
            r.listen_address == IpAddress::V4(127, 0, 0, 1),
            r.port == 8787,
            !r.auto_start,
            r.logging_enabled,
            !r.usage_collection_enabled,
            r.routing_default.name@ == "manual"@,
            r.provider_references@.len() == 0,
    {
        ConfigurationSnapshot {
            listen_address: IpAddress::localhost_v4(),
            port: 8787,
            auto_start: false,
            logging_enabled: true,
            usage_collection_enabled: false,
            routing_default: RoutingDefault::named("manual"),
            provider_references: Vec::new(),
        }
    }
}

/// Named routing default.
#[derive(Debug, PartialEq, Eq)]
pub struct RoutingDefault {
    /// Routing default name.
    pub name: String,
}

impl Clone for RoutingDefault {
    fn clone(&self) -> (r: Self)
        ensures
            r == *self,
    {
        RoutingDefault { name: self.name.clone() }
    }
}

/// Message reported for a blank routing default name.
pub open spec fn routing_default_message() -> Seq<char> {
    "routing default name must not be empty"@
}

/// Message reported for a blank provider reference.
pub open spec fn provider_reference_message() -> Seq<char> {
    "provider references must not contain blank values"@
}

/// Message reported for a zero port.
pub open spec fn port_message() -> Seq<char> {
    "port must be greater than 0"@
}

/// The error is a configuration validation error on this field with this message.
pub open spec fn is_update_error(e: CoreError, field: Seq<char>, message: Seq<char>) -> bool {
    e matches CoreError::ConfigurationValidation { field: f, message: m } && f@ == field && m@ == message
}

impl RoutingDefault {
    /// Creates a named routing default.
    pub fn named(name: &str) -> (r: Self)
        ensures
            r.name@ == name@,
    {
        RoutingDefault { name: owned(name) }
    }

    fn validate(&self) -> (r: Result<(), CoreError>)
        ensures
            r is Ok <==> !is_blank_text(self.name@),
            r is Err ==> is_update_error(r->Err_0, "routing_default"@, routing_default_message()),
    {
        if is_blank(self.name.as_str()) {
            return Err(
                CoreError::ConfigurationValidation {
                    field: "routing_default",
                    message: owned("routing default name must not be empty"),
                },
            );
        }
        Ok(())
    }
}

/// Debug rendering of a text, quoted and escaped as `{:?}` writes it.
pub uninterp spec fn debug_text(s: Seq<char>) -> Seq<char>;

/// Renders a text as `{:?}` does (`<str as Debug>::fmt`).
#[verifier::external_body]
fn debug_quoted(s: &str) -> (r: String)
    ensures
        r@ == debug_text(s@),
{
    format!("{s:?}")
}

/// Requested configuration update; every field is optional.
#[derive(Clone, Debug, PartialEq, Eq)]
pub struct ConfigurationUpdateIntent {
    /// Listen address text.
    pub listen_address: Option<String>,
    /// Listen port.
    pub port: Option<u16>,
    /// Auto-start flag.
    pub auto_start: Option<bool>,
    /// Logging flag.
    pub logging_enabled: Option<bool>,
    /// Usage collection flag.
    pub usage_collection_enabled: Option<bool>,
    /// Routing default.
    pub routing_default: Option<RoutingDefault>,
    /// Referenced provider identifiers.
    pub provider_references: Option<Vec<String>>,
}

impl Default for ConfigurationUpdateIntent {
    fn default() -> (r: Self)
        ensures
            r.listen_address is None,
            r.port is None,
            r.auto_start is None,
            r.logging_enabled is None,
            r.usage_collection_enabled is None,
            r.routing_default is None,
            r.provider_references is None,
    {
        ConfigurationUpdateIntent {
            listen_address: None,
            port: None,
            auto_start: None,
            logging_enabled: None,
            usage_collection_enabled: None,
            routing_default: None,
            provider_references: None,
        }
    }
}

/// Validation problem of an update intent, as field and message, checked in order:
/// listen address, port, routing default, provider references.
pub open spec fn update_problem(u: ConfigurationUpdateIntent) -> Option<(Seq<char>, Seq<char>)> {
    if u.listen_address is Some && ip_text(u.listen_address.unwrap()@) is None {
        Some(
            (
                "listen_address"@,
                debug_text(u.listen_address.unwrap()@) + " is not a valid IP address"@,
            ),
        )
    } else if u.port == Some(0u16) {
        Some(("port"@, port_message()))
    } else if u.routing_default is Some && is_blank_text(u.routing_default.unwrap().name@) {
        Some(("routing_default"@, routing_default_message()))
    } else if u.provider_references is Some && (exists|i: int|
        0 <= i < u.provider_references.unwrap()@.len() && is_blank_text(
            #[trigger] u.provider_references.unwrap()@[i]@,
        )) {
        Some(("provider_references"@, provider_reference_message()))
    } else {
        None
    }
}

impl ConfigurationUpdateIntent {
    /// Validates the intent: the listen address must parse, the port must not be zero, the
    /// routing default name and provider references must not be blank.
    pub fn validate(&self) -> (r: Result<ValidatedConfigurationUpdate, CoreError>)
        ensures
            match update_problem(*self) {
                Some(p) => r is Err && is_update_error(r->Err_0, p.0, p.1),
                None => r is Ok && ({
                    let v = r->Ok_0;
                    &&& v.listen_address == match self.listen_address {
                        Some(a) => ip_text(a@),
                        None => None,
                    }
                    &&& v.port == self.port
                    &&& v.auto_start == self.auto_start
                    &&& v.logging_enabled == self.logging_enabled
                    &&& v.usage_collection_enabled == self.usage_collection_enabled
                    &&& v.routing_default == self.routing_default
                    &&& match (v.provider_references, self.provider_references) {
                        (Some(a), Some(b)) => a@ == b@,
                        (None, None) => true,
                        _ => false,
                    }
                }),
            },
    {
        let listen_address = match &self.listen_address {
            Some(text) => Some(parse_listen_address(text.as_str())?),
            None => None,
        };
        if self.port == Some(0u16) {
            return Err(
                CoreError::ConfigurationValidation {
                    field: "port",
                    message: owned("port must be greater than 0"),
                },
            );
        }
        match &self.routing_default {
            Some(routing_default) => routing_default.validate()?,
            None => {},
        }
        let provider_references = match &self.provider_references {
            Some(refs) => {
                validate_provider_references(refs)?;
                Some(copy_references(refs))
            },
            None => None,
        };
        let routing_default = match &self.routing_default {
            Some(d) => Some(d.clone()),
            None => None,
        };
        Ok(
            ValidatedConfigurationUpdate {
                listen_address,
                port: self.port,
                auto_start: self.auto_start,
                logging_enabled: self.logging_enabled,
                usage_collection_enabled: self.usage_collection_enabled,
                routing_default,
                provider_references,
            },
        )
    }
}

fn parse_listen_address(value: &str) -> (r: Result<IpAddress, CoreError>)
    ensures
        match ip_text(value@) {
            Some(a) => r == Ok::<IpAddress, CoreError>(a),
            None => r is Err && is_update_error(
                r->Err_0,
                "listen_address"@,
                debug_text(value@) + " is not a valid IP address"@,
            ),
        },
{
    match parse_ip_address(value) {
        Some(address) => Ok(address),
        None => {
            let quoted = debug_quoted(value);
            Err(
                CoreError::ConfigurationValidation {
                    field: "listen_address",
                    message: concat2(quoted.as_str(), " is not a valid IP address"),
                },
            )
        },
    }
}

fn validate_provider_references(refs: &Vec<String>) -> (r: Result<(), CoreError>)
    ensures
        (exists|i: int| 0 <= i < refs@.len() && is_blank_text(#[trigger] refs@[i]@)) ==> r is Err
            && is_update_error(r->Err_0, "provider_references"@, provider_reference_message()),
        !(exists|i: int| 0 <= i < refs@.len() && is_blank_text(#[trigger] refs@[i]@)) ==> r is Ok,
{
    let mut i: usize = 0;
    while i < refs.len()
        invariant
            i <= refs@.len(),
            forall|j: int| 0 <= j < i ==> !is_blank_text(#[trigger] refs@[j]@),
        decreases refs.len() - i,
    {
        if is_blank(refs[i].as_str()) {
            assert(is_blank_text(refs@[i as int]@));
            return Err(
                CoreError::ConfigurationValidation {
                    field: "provider_references",
                    message: owned("provider references must not contain blank values"),
                },
            );
        }
        i = i + 1;
    }
    Ok(())
}

fn copy_references(refs: &Vec<String>) -> (r: Vec<String>)
    ensures
        r@ == refs@,
{
    let mut copy: Vec<String> = Vec::new();
    let mut i: usize = 0;
    while i < refs.len()
        invariant
            i <= refs@.len(),
            copy@ == refs@.subrange(0, i as int),
        decreases refs.len() - i,
    {
        copy.push(refs[i].clone());
        i = i + 1;
        assert(copy@ =~= refs@.subrange(0, i as int));
    }
    assert(refs@.subrange(0, refs@.len() as int) =~= refs@);
    copy
}

/// Configuration update that passed validation.
#[derive(Clone, Debug, PartialEq, Eq)]
pub struct ValidatedConfigurationUpdate {
    /// Parsed listen address.
    pub listen_address: Option<IpAddress>,
    /// Listen port.
    pub port: Option<u16>,
    /// Auto-start flag.
    pub auto_start: Option<bool>,
    /// Logging flag.
    pub logging_enabled: Option<bool>,
    /// Usage collection flag.
    pub usage_collection_enabled: Option<bool>,
    /// Routing default.
    pub routing_default: Option<RoutingDefault>,
    /// Referenced provider identifiers.
    pub provider_references: Option<Vec<String>>,
}

/// Validated proxy table.
#[derive(Clone, Copy, Debug, PartialEq, Eq, Structural)]
pub struct FileProxyConfiguration {
    /// Loopback listen address.
    pub listen_address: IpAddress,
    /// Listen port, greater than zero.
    pub port: u16,
}

/// Validated provider table.
#[derive(Debug, PartialEq, Eq)]
pub struct FileProviderConfiguration {
    /// Provider identifier.
    pub id: String,
    /// Protocol family.
    pub protocol_family: ProtocolFamily,
    /// Whether routing may select the provider.
    pub routing_eligible: bool,
    /// Validated accounts.
    pub accounts: Vec<FileAccountConfiguration>,
}

/// Model of a validated provider table.
pub struct FileProviderView {
    /// Provider identifier.
    pub id: String,
    /// Protocol family.
    pub protocol_family: ProtocolFamily,
    /// Whether routing may select the provider.
    pub routing_eligible: bool,
    /// Validated accounts.
    pub accounts: Seq<FileAccountConfiguration>,
}

impl View for FileProviderConfiguration {
    type V = FileProviderView;

    open spec fn view(&self) -> FileProviderView {
        FileProviderView {
            id: self.id,
            protocol_family: self.protocol_family,
            routing_eligible: self.routing_eligible,
            accounts: self.accounts@,
        }
    }
}

impl Clone for FileProviderConfiguration {
    fn clone(&self) -> (r: Self)
        ensures
            r@ == self@,
    {
        let mut accounts: Vec<FileAccountConfiguration> = Vec::new();
        let mut i: usize = 0;
        while i < self.accounts.len()
            invariant
                i <= self.accounts@.len(),
                accounts@ == self.accounts@.subrange(0, i as int),
            decreases self.accounts.len() - i,
        {
            accounts.push(self.accounts[i].clone());
            i = i + 1;
            assert(accounts@ =~= self.accounts@.subrange(0, i as int));
        }
        assert(self.accounts@.subrange(0, self.accounts@.len() as int) =~= self.accounts@);
        FileProviderConfiguration {
            id: self.id.clone(),
            protocol_family: self.protocol_family,
            routing_eligible: self.routing_eligible,
            accounts,
        }
    }
}

/// Validated account table.
#[derive(Debug, PartialEq, Eq)]
pub struct FileAccountConfiguration {
    /// Account identifier.
    pub id: String,
    /// Whether a valid credential reference was configured.
    pub credential_reference_present: bool,
}

impl Clone for FileAccountConfiguration {
    fn clone(&self) -> (r: Self)
        ensures
            r == *self,
    {
        FileAccountConfiguration {
            id: self.id.clone(),
            credential_reference_present: self.credential_reference_present,
        }
    }
}

impl FileAccountConfiguration {
    /// Returns whether a valid credential reference was configured.
    pub fn credential_reference_present(&self) -> (r: bool)
        ensures
            r == self.credential_reference_present,
    {
        self.credential_reference_present
    }
}

/// Validated routing default entry.
#[derive(Debug, PartialEq, Eq)]
pub struct FileRoutingDefaultConfiguration {
    /// Routing default name.
    pub name: String,
    /// Model the default routes.
    pub model: String,
    /// Target provider and account.
    pub target: RoutingTarget,
    /// Whether later defaults of the same name and model may be used as fallbacks.
    pub fallback_enabled: bool,
}

impl Clone for FileRoutingDefaultConfiguration {
    fn clone(&self) -> (r: Self)
        ensures
            r == *self,
    {
        FileRoutingDefaultConfiguration {
            name: self.name.clone(),
            model: self.model.clone(),
            target: self.target.clone(),
            fallback_enabled: self.fallback_enabled,
        }
    }
}

/// Routing defaults that share a name and model, in document order.
#[derive(Debug, PartialEq, Eq)]
pub struct FileRoutingDefaultGroup {
    /// Routing default name.
    pub name: String,
    /// Model the defaults route.
    pub model: String,
    /// Entries of the group, in document order.
    pub candidates: Vec<FileRoutingDefaultConfiguration>,
}

/// Model of a routing default group.
pub struct FileRoutingDefaultGroupView {
    /// Routing default name.
    pub name: String,
    /// Model the defaults route.
    pub model: String,
    /// Entries of the group.
    pub candidates: Seq<FileRoutingDefaultConfiguration>,
}

impl View for FileRoutingDefaultGroup {
    type V = FileRoutingDefaultGroupView;

    open spec fn view(&self) -> FileRoutingDefaultGroupView {
        FileRoutingDefaultGroupView { name: self.name, model: self.model, candidates: self.candidates@ }
    }
}

impl Clone for FileRoutingDefaultGroup {
    fn clone(&self) -> (r: Self)
        ensures
            r@ == self@,
    {
        FileRoutingDefaultGroup {
            name: self.name.clone(),
            model: self.model.clone(),
            candidates: clone_defaults(&self.candidates),
        }
    }
}

/// Copies a list of routing defaults.
pub fn clone_defaults(v: &Vec<FileRoutingDefaultConfiguration>) -> (r: Vec<FileRoutingDefaultConfiguration>)
    ensures
        r@ == v@,
{
    let mut out: Vec<FileRoutingDefaultConfiguration> = Vec::new();
    let mut i: usize = 0;
    while i < v.len()
        invariant
            i <= v@.len(),
            out@ == v@.subrange(0, i as int),
        decreases v.len() - i,
    {
        out.push(v[i].clone());
        i = i + 1;
        assert(out@ =~= v@.subrange(0, i as int));
    }
    assert(v@.subrange(0, v@.len() as int) =~= v@);
    out
}

/// Logging setting.
#[derive(Clone, Copy, Debug, PartialEq, Eq, Structural)]
pub enum LoggingSetting {
    /// Logging is off.
    Off,
    /// Standard logging.
    Standard,
    /// Verbose logging.
    Verbose,
}

/// Auto-start intent.
#[derive(Clone, Copy, Debug, PartialEq, Eq, Structural)]
pub enum AutoStartIntent {
    /// The proxy does not start automatically.
    Disabled,
    /// The proxy starts automatically.
    Enabled,
}

/// Configuration that passed validation.
#[derive(Clone, Debug, PartialEq, Eq)]
pub struct ValidatedFileConfiguration {
    /// Where the configuration came from.
    pub source: ConfigurationSourceMetadata,
    /// Proxy settings.
    pub proxy: FileProxyConfiguration,
    /// Providers, in document order.
    pub providers: Vec<FileProviderConfiguration>,
    /// Routing defaults, in document order.
    pub routing_defaults: Vec<FileRoutingDefaultConfiguration>,
    /// Routing defaults grouped by name and model.
    pub routing_default_groups: Vec<FileRoutingDefaultGroup>,
    /// Routing policy built from the groups.
    pub routing_policy: RoutingPolicy,
    /// Logging setting.
    pub logging: LoggingSetting,
    /// Whether usage collection is enabled.
    pub usage_collection_enabled: bool,
    /// Auto-start intent.
    pub auto_start: AutoStartIntent,
    /// Non-fatal warnings.
    pub warnings: Vec<String>,
}

/// The account summary reported for a configured account.
pub open spec fn is_configured_account_summary(v: AccountSummaryView, account: FileAccountConfiguration) -> bool {
    &&& v.account_id == account.id@
    &&& v.display_name == account.id@
    &&& v.auth_state matches AuthState::CredentialReference { reference_name }
    &&& reference_name@ == "configured"@
    &&& v.quota_state == QuotaState::Unknown
    &&& v.last_checked is None
    &&& v.degraded_reasons.len() == 0
}

/// The provider summary reported for a configured provider.
pub open spec fn is_configured_provider_summary(v: ProviderSummaryView, p: FileProviderConfiguration) -> bool {
    &&& v.provider_id == p.id@
    &&& v.display_name == p.id@
    &&& v.capabilities == seq![
        ProviderCapability {
            protocol_family: p.protocol_family,
            supports_streaming: true,
            auth_method: AuthMethodCategory::ExternalReference,
            routing_eligible: p.routing_eligible,
        },
    ]
    &&& v.accounts.len() == p.accounts@.len()
    &&& forall|j: int|
        0 <= j < v.accounts.len() ==> is_configured_account_summary(#[trigger] v.accounts[j], p.accounts@[j])
    &&& v.degraded_reasons.len() == 0
}

fn configured_account_summary(account: &FileAccountConfiguration) -> (r: AccountSummary)
    ensures
        is_configured_account_summary(r@, *account),
{
    AccountSummary {
        account_id: account.id.clone(),
        display_name: account.id.clone(),
        auth_state: AuthState::CredentialReference { reference_name: owned("configured") },
        quota_state: QuotaState::Unknown,
        last_checked: None,
        degraded_reasons: Vec::new(),
    }
}

fn configured_provider_summary(p: &FileProviderConfiguration) -> (r: ProviderSummary)
    ensures
        is_configured_provider_summary(r@, *p),
{
    let mut accounts: Vec<AccountSummary> = Vec::new();
    let mut j: usize = 0;
    while j < p.accounts.len()
        invariant
            j <= p.accounts@.len(),
            accounts@.len() == j,
            forall|q: int|
                0 <= q < j ==> is_configured_account_summary(#[trigger] accounts@[q]@, p.accounts@[q]),
        decreases p.accounts.len() - j,
    {
        accounts.push(configured_account_summary(&p.accounts[j]));
        j = j + 1;
    }
    let capabilities = vec![
        ProviderCapability {
            protocol_family: p.protocol_family,
            supports_streaming: true,
            auth_method: AuthMethodCategory::ExternalReference,
            routing_eligible: p.routing_eligible,
        },
    ];
    let r = ProviderSummary {
        provider_id: p.id.clone(),
        display_name: p.id.clone(),
        capabilities,
        accounts,
        degraded_reasons: Vec::new(),
    };
    assert(r@.capabilities =~= seq![
        ProviderCapability {
            protocol_family: p.protocol_family,
            supports_streaming: true,
            auth_method: AuthMethodCategory::ExternalReference,
            routing_eligible: p.routing_eligible,
        },
    ]);
    assert forall|q: int| 0 <= q < r@.accounts.len() implies is_configured_account_summary(
        #[trigger] r@.accounts[q],
        p.accounts@[q],
    ) by {
        assert(r@.accounts[q] == accounts@[q]@);
    }
    r
}

impl ValidatedFileConfiguration {
    /// The routing default name a snapshot reports: the first default's, else `file`.
    pub open spec fn snapshot_routing_default(self) -> Seq<char> {
        if self.routing_defaults@.len() > 0 {
            self.routing_defaults@[0].name@
        } else {
            "file"@
        }
    }

    /// Management-visible snapshot of this configuration.
    pub fn configuration_snapshot(&self) -> (r: ConfigurationSnapshot)
        ensures
            r.listen_address == self.proxy.listen_address,
            r.port == self.proxy.port,
            r.auto_start == (self.auto_start == AutoStartIntent::Enabled),
            r.logging_enabled == (self.logging != LoggingSetting::Off),
            r.usage_collection_enabled == self.usage_collection_enabled,
            r.routing_default.name@ == self.snapshot_routing_default(),
            r.provider_references@.len() == self.providers@.len(),
            forall|i: int|
                0 <= i < r.provider_references@.len() ==> (#[trigger] r.provider_references@[i])@
                    == self.providers@[i].id@,
    {
        let mut provider_references: Vec<String> = Vec::new();
        let mut i: usize = 0;
        while i < self.providers.len()
            invariant
                i <= self.providers@.len(),
                provider_references@.len() == i,
                forall|j: int|
                    0 <= j < i ==> (#[trigger] provider_references@[j])@ == self.providers@[j].id@,
            decreases self.providers.len() - i,
        {
            provider_references.push(self.providers[i].id.clone());
            i = i + 1;
        }
        let routing_default = if self.routing_defaults.len() > 0 {
            RoutingDefault { name: self.routing_defaults[0].name.clone() }
        } else {
            RoutingDefault::named("file")
        };
        ConfigurationSnapshot {
            listen_address: self.proxy.listen_address,
            port: self.proxy.port,
            auto_start: match self.auto_start {
                AutoStartIntent::Enabled => true,
                AutoStartIntent::Disabled => false,
            },
            logging_enabled: match self.logging {
                LoggingSetting::Off => false,
                _ => true,
            },
            usage_collection_enabled: self.usage_collection_enabled,
            routing_default,
            provider_references,
        }
    }

    /// Provider summaries of the configured providers: every capability streams, every
    /// account holds a configured credential reference with unknown quota.
    pub fn provider_summaries(&self) -> (r: Vec<ProviderSummary>)
        ensures
            r@.len() == self.providers@.len(),
            forall|i: int|
                0 <= i < r@.len() ==> is_configured_provider_summary(
                    (#[trigger] r@[i])@,
                    self.providers@[i],
                ),
    {
        let mut out: Vec<ProviderSummary> = Vec::new();
        let mut i: usize = 0;
        while i < self.providers.len()
            invariant
                i <= self.providers@.len(),
                out@.len() == i,
                forall|j: int|
                    0 <= j < i ==> is_configured_provider_summary((#[trigger] out@[j])@, self.providers@[j]),
            decreases self.providers.len() - i,
        {
            out.push(configured_provider_summary(&self.providers[i]));
            i = i + 1;
        }
        out
    }

    /// Usage summary: zero when usage collection is enabled, unknown otherwise.
    pub fn usage_summary(&self) -> (r: UsageSummary)
        ensures
            self.usage_collection_enabled ==> r.all_meters(crate::usage::MeteredValue::Zero),
            !self.usage_collection_enabled ==> r.all_meters(crate::usage::MeteredValue::Unknown),
    {
        if self.usage_collection_enabled {
            UsageSummary::zero()
        } else {
            UsageSummary::unknown()
        }
    }

    /// Quota summary: unknown, since no quota endpoint is queried.
    pub fn quota_summary(&self) -> (r: QuotaSummary)
        ensures
            r.requests == QuotaState::Unknown,
            r.tokens == QuotaState::Unknown,
    {
        QuotaSummary::unknown()
    }
}

/// Last valid configuration and last load failure.
#[derive(Clone, Debug, PartialEq, Eq)]
pub struct FileConfigurationState {
    active: Option<ValidatedFileConfiguration>,
    last_failure: Option<ConfigurationLoadFailure>,
}

impl FileConfigurationState {
    /// The configuration in effect, if any.
    pub closed spec fn active_spec(self) -> Option<ValidatedFileConfiguration> {
        self.active
    }

    /// The failure of the last load, if it failed.
    pub closed spec fn last_failure_spec(self) -> Option<ConfigurationLoadFailure> {
        self.last_failure
    }

    /// State with no configuration and no failure.
    pub fn new() -> (r: Self)
        ensures
            r.active_spec() is None,
            r.last_failure_spec() is None,
    {
        FileConfigurationState { active: None, last_failure: None }
    }

    /// Returns the configuration in effect, if any.
    pub fn active(&self) -> (r: Option<&ValidatedFileConfiguration>)
        ensures
            match self.active_spec() {
                Some(c) => r == Some(&c),
                None => r is None,
            },
    {
        match &self.active {
            Some(c) => Some(c),
            None => None,
        }
    }

    /// Returns the failure of the last load, if it failed.
    pub fn last_failure(&self) -> (r: Option<&ConfigurationLoadFailure>)
        ensures
            match self.last_failure_spec() {
                Some(f) => r == Some(&f),
                None => r is None,
            },
    {
        match &self.last_failure {
            Some(f) => Some(f),
            None => None,
        }
    }

    /// Applies the outcome of loading a configuration from `source`: a loaded configuration
    /// replaces the active one and clears the failure; a failed load keeps the active
    /// configuration and records the failure.
    pub fn replace_with_load(
        &mut self,
        source: ConfigurationSourceMetadata,
        loaded: Result<ValidatedFileConfiguration, CoreError>,
    ) -> (r: Result<(), CoreError>)
        ensures
            match loaded {
                Ok(c) => r is Ok && final(self).active_spec() == Some(c) && final(self).last_failure_spec() is None,
                Err(e) => r == Err::<(), CoreError>(e) && final(self).active_spec() == old(self).active_spec()
                    && final(self).last_failure_spec() is Some && is_load_failure_of(
                    final(self).last_failure_spec().unwrap(),
                    source,
                    e,
                ),
            },
    {
        match loaded {
            Ok(configuration) => {
                self.active = Some(configuration);
                self.last_failure = None;
                Ok(())
            },
            Err(error) => {
                self.last_failure = Some(ConfigurationLoadFailure::from_core_error(source, &error));
                Err(error)
            },
        }
    }
}

impl Default for FileConfigurationState {
    fn default() -> (r: Self)
        ensures
            r.active_spec() is None,
            r.last_failure_spec() is None,
    {
        FileConfigurationState::new()
    }
}

/// Failure of a configuration load.
#[derive(Clone, Debug, PartialEq, Eq)]
pub struct ConfigurationLoadFailure {
    /// Where the configuration came from.
    pub source: ConfigurationSourceMetadata,
    /// Every diagnostic of the failure.
    pub errors: Vec<ConfigurationError>,
}

/// The load failure recorded for an error: its diagnostics, or one parse diagnostic that
/// carries the error's description.
pub open spec fn is_load_failure_of(
    f: ConfigurationLoadFailure,
    source: ConfigurationSourceMetadata,
    e: CoreError,
) -> bool {
    &&& f.source == source
    &&& match e {
        CoreError::Configuration { errors } => f.errors@.map_values(|x: ConfigurationError| x@)
            == errors@.map_values(|x: ConfigurationError| x@),
        _ => f.errors@.map_values(|x: ConfigurationError| x@) == seq![
            ConfigurationIssue {
                kind: ConfigurationErrorKind::ParseFailed,
                field_path: "configuration"@,
                invalid_value: InvalidConfigurationValue::Malformed,
                source: Some(source@),
                message: Some(e.message_spec()),
            },
        ],
    }
}

impl ConfigurationLoadFailure {
    /// Builds the failure recorded for a load error.
    pub fn from_core_error(source: ConfigurationSourceMetadata, error: &CoreError) -> (r: Self)
        ensures
            is_load_failure_of(r, source, *error),
    {
        let errors = match error {
            CoreError::Configuration { errors } => {
                let mut out: Vec<ConfigurationError> = Vec::new();
                let mut i: usize = 0;
                while i < errors.len()
                    invariant
                        i <= errors@.len(),
                        out@.len() == i,
                        forall|j: int| 0 <= j < i ==> (#[trigger] out@[j])@ == errors@[j]@,
                    decreases errors.len() - i,
                {
                    out.push(errors[i].clone());
                    i = i + 1;
                }
                assert(out@.map_values(|x: ConfigurationError| x@) =~= errors@.map_values(
                    |x: ConfigurationError| x@,
                ));
                out
            },
            _ => {
                let message = error.to_string();
                let mut out: Vec<ConfigurationError> = Vec::new();
                out.push(
                    ConfigurationError::with_message(
                        ConfigurationErrorKind::ParseFailed,
                        "configuration",
                        InvalidConfigurationValue::Malformed,
                        Some(source.clone()),
                        message.as_str(),
                    ),
                );
                assert(out@.map_values(|x: ConfigurationError| x@) =~= seq![out@[0]@]);
                out
            },
        };
        ConfigurationLoadFailure { source, errors }
    }
}

/// File-backed configuration as management surfaces show it.
#[derive(Clone, Debug, PartialEq, Eq)]
pub struct FileBackedManagementConfiguration {
    /// Where the configuration came from.
    pub source: ConfigurationSourceMetadata,
    /// Proxy settings.
    pub proxy: FileProxyConfiguration,
    /// Routing defaults.
    pub routing_defaults: Vec<FileRoutingDefaultConfiguration>,
    /// Routing default groups.
    pub routing_default_groups: Vec<FileRoutingDefaultGroup>,
    /// Logging setting.
    pub logging: LoggingSetting,
    /// Whether usage collection is enabled.
    pub usage_collection_enabled: bool,
    /// Auto-start intent.
    pub auto_start: AutoStartIntent,
    /// Non-fatal warnings.
    pub warnings: Vec<String>,
}

impl FileBackedManagementConfiguration {
    /// Management view of a validated configuration.
    pub fn from_validated(configuration: &ValidatedFileConfiguration) -> (r: Self)
        ensures
            r.source.description == configuration.source.description,
            r.source@ == configuration.source@,
            r.proxy == configuration.proxy,
            r.routing_defaults@ == configuration.routing_defaults@,
            r.routing_default_groups@.map_values(|g: FileRoutingDefaultGroup| g@)
                == configuration.routing_default_groups@.map_values(|g: FileRoutingDefaultGroup| g@),
            r.logging == configuration.logging,
            r.usage_collection_enabled == configuration.usage_collection_enabled,
            r.auto_start == configuration.auto_start,
            r.warnings@ == configuration.warnings@,
    {
        let mut groups: Vec<FileRoutingDefaultGroup> = Vec::new();
        let mut i: usize = 0;
        while i < configuration.routing_default_groups.len()
            invariant
                i <= configuration.routing_default_groups@.len(),
                groups@.len() == i,
                forall|j: int|
                    0 <= j < i ==> (#[trigger] groups@[j])@ == configuration.routing_default_groups@[j]@,
            decreases configuration.routing_default_groups.len() - i,
        {
            groups.push(configuration.routing_default_groups[i].clone());
            i = i + 1;
        }
        assert(groups@.map_values(|g: FileRoutingDefaultGroup| g@) =~= configuration.routing_default_groups@.map_values(
            |g: FileRoutingDefaultGroup| g@,
        ));
        let mut warnings: Vec<String> = Vec::new();
        let mut i: usize = 0;
        while i < configuration.warnings.len()
            invariant
                i <= configuration.warnings@.len(),
                warnings@ == configuration.warnings@.subrange(0, i as int),
            decreases configuration.warnings.len() - i,
        {
            warnings.push(configuration.warnings[i].clone());
            i = i + 1;
            assert(warnings@ =~= configuration.warnings@.subrange(0, i as int));
        }
        assert(configuration.warnings@.subrange(0, configuration.warnings@.len() as int) =~= configuration.warnings@);
        FileBackedManagementConfiguration {
            source: configuration.source.clone(),
            proxy: configuration.proxy,
            routing_defaults: clone_defaults(&configuration.routing_defaults),
            routing_default_groups: groups,
            logging: configuration.logging,
            usage_collection_enabled: configuration.usage_collection_enabled,
            auto_start: configuration.auto_start,
            warnings,
        }
    }
}

} // verus!
