//! Management snapshot contracts for observing headless core state.
//!
//! Management values aggregate identity, lifecycle, health, configuration,
//! provider, usage, quota, warning, and error state for app-shell and headless
//! consumers without moving core semantics into the desktop crate.

use vstd::prelude::*;

use crate::configuration::address::IpAddress;
use crate::configuration::file::{
    ConfigurationLoadFailure, ConfigurationSnapshot, FileBackedManagementConfiguration,
    FileConfigurationState, is_configured_provider_summary, is_load_failure_of, AutoStartIntent,
    LoggingSetting,
};
use crate::errors::{ConfigurationError, ConfigurationIssue, CoreError};
use crate::provider::{DegradedReason, ProviderSummary};
use crate::usage::{MeteredValue, QuotaState, QuotaSummary, UsageSummary};
use crate::{core_identity, CoreIdentity};

verus! {

/// Marker for management snapshot ownership in the headless core.
#[derive(Clone, Copy, Debug, PartialEq, Eq, Structural)]
pub struct ManagementBoundary;

/// Aggregate management view of identity, lifecycle, health, configuration, provider,
/// usage, quota, and error state.
#[derive(Clone, Debug, PartialEq, Eq)]
pub struct ManagementSnapshot {
    /// Compiled core identity included in management state.
    pub identity: CoreIdentity,
    /// Current local proxy lifecycle state.
    pub lifecycle: ProxyLifecycleState,
    /// Current core health state.
    pub health: CoreHealthState,
    /// Configuration snapshot visible to management consumers.
    pub configuration: ConfigurationSnapshot,
    /// File-backed configuration details, when active.
    pub file_configuration: Option<FileBackedManagementConfiguration>,
    /// Most recent file configuration load failure, when any.
    pub last_configuration_load_failure: Option<ConfigurationLoadFailure>,
    /// Provider summaries visible in management state.
    pub providers: Vec<ProviderSummary>,
    /// Usage summary visible in management state.
    pub usage: UsageSummary,
    /// Quota summary visible in management state.
    pub quota: QuotaSummary,
    /// Non-fatal warnings visible to management consumers.
    pub warnings: Vec<String>,
    /// Structured errors associated with this state.
    pub errors: Vec<CoreError>,
}

/// The bootstrap snapshot: stopped, healthy, local development configuration, nothing else.
pub open spec fn is_inert_bootstrap(s: ManagementSnapshot) -> bool {
    &&& s.identity == CoreIdentity::spec()
    &&& s.lifecycle is Stopped
    &&& s.health is Healthy
    &&& s.configuration.listen_address == IpAddress::V4(127, 0, 0, 1)
    &&& s.configuration.port == 8787
    &&& !s.configuration.auto_start
    &&& s.configuration.logging_enabled
    &&& !s.configuration.usage_collection_enabled
    &&& s.configuration.routing_default.name@ == "manual"@
    &&& s.configuration.provider_references@.len() == 0
    &&& s.file_configuration is None
    &&& s.last_configuration_load_failure is None
    &&& s.providers@.len() == 0
    &&& s.usage.all_meters(MeteredValue::Zero)
    &&& s.quota.requests == QuotaState::Unknown
    &&& s.quota.tokens == QuotaState::Unknown
    &&& s.warnings@.len() == 0
    &&& s.errors@.len() == 0
}

impl ManagementSnapshot {
    /// Creates a management snapshot for an inactive bootstrap core.
    pub fn inert_bootstrap() -> (r: Self)
        ensures
            is_inert_bootstrap(r),
    {
        ManagementSnapshot {
            identity: core_identity(),
            lifecycle: ProxyLifecycleState::Stopped,
            health: CoreHealthState::Healthy,
            configuration: ConfigurationSnapshot::local_development(),
            file_configuration: None,
            last_configuration_load_failure: None,
            providers: Vec::new(),
            usage: UsageSummary::zero(),
            quota: QuotaSummary::unknown(),
            warnings: Vec::new(),
            errors: Vec::new(),
        }
    }

    /// Builds a management snapshot from file configuration state: the active configuration
    /// supplies configuration, providers, usage, quota and warnings; the last failure is
    /// reported with its diagnostics as the snapshot's one error.
    pub fn from_file_configuration_state(state: &FileConfigurationState) -> (r: Self)
        ensures
            r.identity == CoreIdentity::spec(),
            r.lifecycle is Stopped,
            r.health is Healthy,
            match state.active_spec() {
                None => r.file_configuration is None && r.providers@.len() == 0 && r.warnings@.len() == 0
                    && r.configuration.port == 8787,
                Some(c) => {
                    &&& r.configuration.listen_address == c.proxy.listen_address
                    &&& r.configuration.port == c.proxy.port
                    &&& r.configuration.auto_start == (c.auto_start == AutoStartIntent::Enabled)
                    &&& r.configuration.logging_enabled == (c.logging != LoggingSetting::Off)
                    &&& r.configuration.usage_collection_enabled == c.usage_collection_enabled
                    &&& r.configuration.routing_default.name@ == c.snapshot_routing_default()
                    &&& r.configuration.provider_references@.len() == c.providers@.len()
                    &&& forall|i: int|
                        0 <= i < c.providers@.len() ==> (#[trigger] r.configuration.provider_references@[i])@
                            == c.providers@[i].id@
                    &&& r.file_configuration is Some
                    &&& r.file_configuration.unwrap().source@ == c.source@
                    &&& r.file_configuration.unwrap().proxy == c.proxy
                    &&& r.file_configuration.unwrap().routing_defaults@ == c.routing_defaults@
                    &&& r.file_configuration.unwrap().logging == c.logging
                    &&& r.file_configuration.unwrap().auto_start == c.auto_start
                    &&& (c.usage_collection_enabled ==> r.usage.all_meters(MeteredValue::Zero))
                    &&& (!c.usage_collection_enabled ==> r.usage.all_meters(MeteredValue::Unknown))
                    &&& r.quota.requests == QuotaState::Unknown && r.quota.tokens == QuotaState::Unknown
                    &&& r.providers@.len() == c.providers@.len()
                    &&& forall|i: int|
                        0 <= i < r.providers@.len() ==> is_configured_provider_summary(
                            (#[trigger] r.providers@[i])@,
                            c.providers@[i],
                        )
                    &&& r.warnings@ == c.warnings@
                },
            },
            match state.last_failure_spec() {
                None => r.last_configuration_load_failure is None && r.errors@.len() == 0,
                Some(f) => {
                    &&& r.last_configuration_load_failure is Some
                    &&& r.last_configuration_load_failure.unwrap().source@ == f.source@
                    &&& r.last_configuration_load_failure.unwrap().errors@.map_values(
                        |e: ConfigurationError| e@,
                    ) == f.errors@.map_values(|e: ConfigurationError| e@)
                    &&& r.errors@.len() == 1
                    &&& r.errors@[0] matches CoreError::Configuration { errors }
                    &&& errors@.map_values(|e: ConfigurationError| e@) == f.errors@.map_values(
                        |e: ConfigurationError| e@,
                    )
                },
            },
    {
        let mut snapshot = ManagementSnapshot::inert_bootstrap();
        match state.active() {
            Some(configuration) => {
                snapshot.configuration = configuration.configuration_snapshot();
                snapshot.file_configuration = Some(
                    FileBackedManagementConfiguration::from_validated(configuration),
                );
                snapshot.providers = configuration.provider_summaries();
                snapshot.usage = configuration.usage_summary();
                snapshot.quota = configuration.quota_summary();
                snapshot.warnings = copy_texts(&configuration.warnings);
            },
            None => {},
        }
        match state.last_failure() {
            Some(failure) => {
                snapshot.last_configuration_load_failure = Some(
                    ConfigurationLoadFailure {
                        source: failure.source.clone(),
                        errors: copy_errors(&failure.errors),
                    },
                );
                snapshot.errors = vec![CoreError::Configuration { errors: copy_errors(&failure.errors) }];
            },
            None => {},
        }
        snapshot
    }
}

fn copy_texts(v: &Vec<String>) -> (r: Vec<String>)
    ensures
        r@ == v@,
{
    let mut out: Vec<String> = Vec::new();
    let mut i: usize = 0;
    while i < v.len()
        invariant
            i <= v@.len(),
            out@ == v@.subrange(0, i as int),
        decreases v.len() - i,
    {
        out.push(v[i].clone());
        i = i + 1;
        assert(out@ =~= v@.subrange(0, i as int));
    }
    assert(v@.subrange(0, v@.len() as int) =~= v@);
    out
}

fn copy_errors(v: &Vec<ConfigurationError>) -> (r: Vec<ConfigurationError>)
    ensures
        r@.map_values(|e: ConfigurationError| e@) == v@.map_values(|e: ConfigurationError| e@),
{
    let mut out: Vec<ConfigurationError> = Vec::new();
    let mut i: usize = 0;
    while i < v.len()
        invariant
            i <= v@.len(),
            out@.len() == i,
            forall|j: int| 0 <= j < i ==> (#[trigger] out@[j])@ == v@[j]@,
        decreases v.len() - i,
    {
        out.push(v[i].clone());
        i = i + 1;
    }
    assert(out@.map_values(|e: ConfigurationError| e@) =~= v@.map_values(|e: ConfigurationError| e@));
    out
}

/// Overall health state reported by the headless core.
#[derive(Clone, Debug, PartialEq, Eq)]
pub enum CoreHealthState {
    /// Core state is healthy.
    Healthy,
    /// Core state is degraded.
    Degraded {
        /// Reasons explaining degraded state.
        reasons: Vec<DegradedReason>,
    },
    /// Core state failed.
    Failed {
        /// Structured core error for this failed state.
        error: CoreError,
    },
}

/// Lifecycle state for a local proxy/runtime instance.
#[derive(Clone, Debug, PartialEq, Eq)]
pub enum ProxyLifecycleState {
    /// Runtime is stopped.
    Stopped,
    /// Runtime is starting.
    Starting,
    /// Runtime is running with endpoint and uptime metadata.
    Running {
        /// Bound endpoint associated with this lifecycle state.
        endpoint: BoundEndpoint,
        /// Uptime metadata associated with a running runtime.
        uptime: UptimeMetadata,
    },
    /// Runtime is degraded.
    Degraded {
        /// Bound endpoint associated with this lifecycle state.
        endpoint: Option<BoundEndpoint>,
        /// Uptime metadata associated with the runtime state.
        uptime: Option<UptimeMetadata>,
        /// Reasons explaining degraded state.
        reasons: Vec<DegradedReason>,
    },
    /// Runtime failed.
    Failed {
        /// Last error that moved lifecycle into a failed state.
        last_error: CoreError,
    },
    /// Runtime is stopping.
    Stopping,
}

/// A socket address: IP address and port.
#[derive(Clone, Copy, Debug, PartialEq, Eq, Structural)]
pub struct SocketAddress {
    /// IP address.
    pub ip: IpAddress,
    /// Port.
    pub port: u16,
}

/// Socket endpoint bound by a local runtime.
#[derive(Clone, Copy, Debug, PartialEq, Eq, Structural)]
pub struct BoundEndpoint {
    /// Socket address bound by the runtime.
    pub socket_addr: SocketAddress,
}

/// Runtime start timestamp and elapsed uptime.
#[derive(Clone, Copy, Debug, PartialEq, Eq)]
pub struct UptimeMetadata {
    /// Unix timestamp when the runtime started.
    pub started_at_unix_seconds: u64,
    /// Elapsed time since the runtime started.
    pub elapsed: std::time::Duration,
}

/// Requested lifecycle action for app-shell or management controls.
#[derive(Clone, Copy, Debug, PartialEq, Eq, Structural)]
pub enum LifecycleControlIntent {
    /// Request to start the local lifecycle.
    Start,
    /// Request to stop the local lifecycle.
    Stop,
    /// Request to restart the local lifecycle.
    Restart,
    /// Request to refresh lifecycle status.
    RefreshStatus,
}

impl LifecycleControlIntent {
    /// Validates this value; every intent is valid.
    pub fn validate(self) -> (r: Result<Self, CoreError>)
        ensures
            r == Ok::<Self, CoreError>(self),
    {
        Ok(self)
    }
}

} // verus!
