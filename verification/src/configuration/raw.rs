//! Raw configuration values as read from a TOML document, before validation.
//!
//! Every field is optional here: absence and malformed values are reported by
//! validation, not by reading.

use vstd::prelude::*;

use crate::text::owned;

verus! {

/// Top-level configuration document.
#[derive(Clone, Debug, PartialEq, Eq)]
pub struct RawConfiguration {
    /// Schema version.
    pub version: Option<i64>,
    /// Proxy table.
    pub proxy: Option<RawProxyConfiguration>,
    /// Provider tables, in document order.
    pub providers: Vec<RawProviderConfiguration>,
    /// Routing table.
    pub routing: RawRoutingConfiguration,
    /// Observability table.
    pub observability: RawObservabilityConfiguration,
    /// Lifecycle table.
    pub lifecycle: RawLifecycleConfiguration,
}

/// Proxy table.
#[derive(Clone, Debug, PartialEq, Eq)]
pub struct RawProxyConfiguration {
    /// Listen address text.
    pub listen_address: Option<String>,
    /// Listen port as written.
    pub port: Option<i64>,
}

/// One provider table.
#[derive(Clone, Debug, PartialEq, Eq)]
pub struct RawProviderConfiguration {
    /// Provider identifier.
    pub id: Option<String>,
    /// Protocol family name.
    pub protocol_family: Option<String>,
    /// Whether routing may select the provider.
    pub routing_eligible: Option<bool>,
    /// Account tables, in document order.
    pub accounts: Vec<RawAccountConfiguration>,
}

/// One account table of a provider.
#[derive(Clone, Debug, PartialEq, Eq)]
pub struct RawAccountConfiguration {
    /// Account identifier.
    pub id: Option<String>,
    /// Credential reference name.
    pub credential_reference: Option<String>,
}

/// Routing table.
#[derive(Clone, Debug, PartialEq, Eq)]
pub struct RawRoutingConfiguration {
    /// Routing default entries, in document order.
    pub defaults: Vec<RawRoutingDefaultConfiguration>,
}

impl Default for RawRoutingConfiguration {
    fn default() -> (r: Self)
        ensures
            r.defaults@.len() == 0,
    {
        RawRoutingConfiguration { defaults: Vec::new() }
    }
}

/// One routing default entry.
#[derive(Clone, Debug, PartialEq, Eq)]
pub struct RawRoutingDefaultConfiguration {
    /// Routing default name.
    pub name: Option<String>,
    /// Model the default routes.
    pub model: Option<String>,
    /// Target provider identifier.
    pub provider_id: Option<String>,
    /// Target account identifier.
    pub account_id: Option<String>,
    /// Whether later defaults of the same name and model may be used as fallbacks.
    pub fallback_enabled: Option<bool>,
}

/// A setting value as written: a boolean, or any other TOML value.
#[derive(Clone, Copy, Debug, PartialEq, Eq, Structural)]
pub enum RawSettingValue {
    /// A TOML boolean.
    Boolean(bool),
    /// Any TOML value other than a boolean.
    Other,
}

/// Observability table.
#[derive(Clone, Debug, PartialEq, Eq)]
pub struct RawObservabilityConfiguration {
    /// Logging setting name.
    pub logging: Option<String>,
    /// Usage collection setting.
    pub usage_collection: Option<RawSettingValue>,
}

impl Default for RawObservabilityConfiguration {
    fn default() -> (r: Self)
        ensures
            r.logging is Some && r.logging.unwrap()@ == "standard"@,
            r.usage_collection == Some(RawSettingValue::Boolean(true)),
    {
        RawObservabilityConfiguration {
            logging: Some(owned("standard")),
            usage_collection: Some(RawSettingValue::Boolean(true)),
        }
    }
}

/// Lifecycle table.
#[derive(Clone, Debug, PartialEq, Eq)]
pub struct RawLifecycleConfiguration {
    /// Auto-start intent name.
    pub auto_start: Option<String>,
}

impl Default for RawLifecycleConfiguration {
    fn default() -> (r: Self)
        ensures
            r.auto_start is Some && r.auto_start.unwrap()@ == "disabled"@,
    {
        RawLifecycleConfiguration { auto_start: Some(owned("disabled")) }
    }
}

} // verus!
