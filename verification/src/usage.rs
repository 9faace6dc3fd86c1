//! Usage and quota summary contracts for subscription-aware state.
//!
//! Usage values distinguish known, zero, unknown, unavailable, and degraded meter
//! states so consumers can surface quota pressure without treating absent data as
//! successful measurement.

use vstd::prelude::*;

verus! {

/// Marker for usage and quota summary ownership in the headless core.
#[derive(Clone, Copy, Debug, PartialEq, Eq, Structural)]
pub struct UsageBoundary;

/// Aggregated usage meters for requests, tokens, models, providers, and accounts.
#[derive(Clone, Debug, PartialEq, Eq)]
pub struct UsageSummary {
    /// Request usage or quota state.
    pub requests: MeteredValue,
    /// Input token usage meter.
    pub input_tokens: MeteredValue,
    /// Output token usage meter.
    pub output_tokens: MeteredValue,
    /// Usage totals grouped by model.
    pub model_totals: MeteredValue,
    /// Usage totals grouped by provider.
    pub provider_totals: MeteredValue,
    /// Usage totals grouped by account.
    pub account_totals: MeteredValue,
}

impl UsageSummary {
    /// Every meter of the summary holds the given fieldless value.
    pub open spec fn all_meters(self, value: MeteredValue) -> bool {
        &&& self.requests == value
        &&& self.input_tokens == value
        &&& self.output_tokens == value
        &&& self.model_totals == value
        &&& self.provider_totals == value
        &&& self.account_totals == value
    }

    /// Returns a usage summary where all meters are known zero.
    pub fn zero() -> (r: Self)
        ensures
            r.all_meters(MeteredValue::Zero),
    {
        UsageSummary {
            requests: MeteredValue::Zero,
            input_tokens: MeteredValue::Zero,
            output_tokens: MeteredValue::Zero,
            model_totals: MeteredValue::Zero,
            provider_totals: MeteredValue::Zero,
            account_totals: MeteredValue::Zero,
        }
    }

    /// Returns a summary where usage or quota values are unknown.
    pub fn unknown() -> (r: Self)
        ensures
            r.all_meters(MeteredValue::Unknown),
    {
        UsageSummary {
            requests: MeteredValue::Unknown,
            input_tokens: MeteredValue::Unknown,
            output_tokens: MeteredValue::Unknown,
            model_totals: MeteredValue::Unknown,
            provider_totals: MeteredValue::Unknown,
            account_totals: MeteredValue::Unknown,
        }
    }
}

/// Aggregated request and token quota states.
#[derive(Clone, Debug, PartialEq, Eq)]
pub struct QuotaSummary {
    /// Request usage or quota state.
    pub requests: QuotaState,
    /// Token quota state.
    pub tokens: QuotaState,
}

impl QuotaSummary {
    /// Returns a summary where usage or quota values are unknown.
    pub fn unknown() -> (r: Self)
        ensures
            r.requests == QuotaState::Unknown,
            r.tokens == QuotaState::Unknown,
    {
        QuotaSummary { requests: QuotaState::Unknown, tokens: QuotaState::Unknown }
    }
}

/// Known, unknown, unavailable, or degraded usage meter value.
#[derive(Debug, PartialEq, Eq)]
pub enum MeteredValue {
    /// Meter is known to be zero.
    Zero,
    /// Meter has a known numeric value.
    Known(u64),
    /// State is not known to the core.
    Unknown,
    /// Target cannot currently be used.
    Unavailable {
        /// Human-readable reason for this state.
        reason: String,
    },
    /// Operation completed or state exists with degraded quality.
    Degraded {
        /// Metered value when known.
        value: Option<u64>,
        /// Human-readable reason for this state.
        reason: String,
    },
}

/// Known, unknown, unavailable, degraded, limited, or unlimited quota state.
#[derive(Debug, PartialEq, Eq)]
pub enum QuotaState {
    /// State is not known to the core.
    Unknown,
    /// Target cannot currently be used.
    Unavailable {
        /// Human-readable reason for this state.
        reason: String,
    },
    /// Operation completed or state exists with degraded quality.
    Degraded {
        /// Remaining quota units when known.
        remaining: Option<u64>,
        /// Human-readable reason for this state.
        reason: String,
    },
    /// Quota is limited with remaining and total values.
    Limited {
        /// Remaining quota units when known.
        remaining: u64,
        /// Quota limit associated with the remaining value.
        limit: u64,
    },
    /// Quota is unlimited.
    Unlimited,
}

impl Clone for MeteredValue {
    fn clone(&self) -> (r: Self)
        ensures
            r == *self,
    {
        match self {
            MeteredValue::Zero => MeteredValue::Zero,
            MeteredValue::Known(v) => MeteredValue::Known(*v),
            MeteredValue::Unknown => MeteredValue::Unknown,
            MeteredValue::Unavailable { reason } => MeteredValue::Unavailable { reason: reason.clone() },
            MeteredValue::Degraded { value, reason } => MeteredValue::Degraded {
                value: *value,
                reason: reason.clone(),
            },
        }
    }
}

impl Clone for QuotaState {
    fn clone(&self) -> (r: Self)
        ensures
            r == *self,
    {
        match self {
            QuotaState::Unknown => QuotaState::Unknown,
            QuotaState::Unavailable { reason } => QuotaState::Unavailable { reason: reason.clone() },
            QuotaState::Degraded { remaining, reason } => QuotaState::Degraded {
                remaining: *remaining,
                reason: reason.clone(),
            },
            QuotaState::Limited { remaining, limit } => QuotaState::Limited {
                remaining: *remaining,
                limit: *limit,
            },
            QuotaState::Unlimited => QuotaState::Unlimited,
        }
    }
}

} // verus!
