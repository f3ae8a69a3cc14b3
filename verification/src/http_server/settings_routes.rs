//! Runtime settings: what can be seen and changed without a restart, and
//! the checks that a change has to pass.

use vstd::prelude::*;
use vstd::string::*;
use crate::observability::slow_query::SlowQueryConfig;
use crate::realtime::backpressure::{BackpressureConfig, DropPolicy};
use crate::text::{owned, starts_with};

verus! {

/// The largest threshold for slow queries that can be set, in milliseconds.
pub const MAX_SLOW_QUERY_THRESHOLD_MS: u64 = 60000;

/// The largest number of pending messages that can be set.
pub const MAX_PENDING_MESSAGES: usize = 1_000_000;

/// The HTTP status of a refused change.
pub const BAD_REQUEST: u16 = 400;

/// Observability settings that can be configured at runtime.
#[derive(Debug, Clone, PartialEq, Eq)]
pub struct ObservabilitySettings {
    /// Slow query tracking configuration.
    pub slow_query: SlowQueryConfig,
    /// Whether the operation log is enabled.
    pub operation_log_enabled: bool,
}

impl Default for ObservabilitySettings {
    fn default() -> (r: Self)
        ensures
            r.slow_query == SlowQueryConfig::spec_default(),
            !r.operation_log_enabled,
    {
        ObservabilitySettings {
            slow_query: SlowQueryConfig::default(),
            operation_log_enabled: false,
        }
    }
}

/// Realtime settings that can be configured at runtime.
#[derive(Debug, Clone, PartialEq, Eq)]
pub struct RealtimeSettings {
    /// Backpressure configuration.
    pub backpressure: BackpressureConfig,
}

impl Default for RealtimeSettings {
    fn default() -> (r: Self)
        ensures
            r.backpressure.max_pending_messages == 1000,
            r.backpressure.drop_policy == DropPolicy::OldestFirst,
    {
        RealtimeSettings { backpressure: BackpressureConfig::default() }
    }
}

/// All runtime settings.
#[derive(Debug, Clone, PartialEq, Eq)]
pub struct AllSettings {
    pub observability: ObservabilitySettings,
    pub realtime: RealtimeSettings,
}

fn copy_slow_query(config: &SlowQueryConfig) -> (r: SlowQueryConfig)
    ensures
        r == *config,
{
    SlowQueryConfig {
        enabled: config.enabled,
        threshold_ms: config.threshold_ms,
        emit_log: config.emit_log,
        webhook_url: match &config.webhook_url {
            Some(url) => Some(url.clone()),
            None => None,
        },
        webhook_timeout_ms: config.webhook_timeout_ms,
    }
}

fn copy_observability(settings: &ObservabilitySettings) -> (r: ObservabilitySettings)
    ensures
        r == *settings,
{
    ObservabilitySettings {
        slow_query: copy_slow_query(&settings.slow_query),
        operation_log_enabled: settings.operation_log_enabled,
    }
}

fn copy_realtime(settings: &RealtimeSettings) -> (r: RealtimeSettings)
    ensures
        r == *settings,
{
    RealtimeSettings {
        backpressure: BackpressureConfig {
            max_pending_messages: settings.backpressure.max_pending_messages,
            drop_policy: settings.backpressure.drop_policy,
        },
    }
}

/// The settings as they stand.
pub struct SettingsState {
    observability: ObservabilitySettings,
    realtime: RealtimeSettings,
}

impl SettingsState {
    /// The observability settings.
    pub closed spec fn observability(&self) -> ObservabilitySettings {
        self.observability
    }

    /// The realtime settings.
    pub closed spec fn realtime(&self) -> RealtimeSettings {
        self.realtime
    }

    /// Create new settings state with defaults.
    pub fn new() -> (r: Self)
        ensures
            r.observability().slow_query == SlowQueryConfig::spec_default(),
            !r.observability().operation_log_enabled,
            r.realtime().backpressure.max_pending_messages == 1000,
            r.realtime().backpressure.drop_policy == DropPolicy::OldestFirst,
    {
        SettingsState {
            observability: ObservabilitySettings::default(),
            realtime: RealtimeSettings::default(),
        }
    }

    /// Get current observability settings.
    pub fn get_observability(&self) -> (r: ObservabilitySettings)
        ensures
            r == self.observability(),
    {
        copy_observability(&self.observability)
    }

    /// Update observability settings.
    pub fn update_observability(&mut self, settings: ObservabilitySettings)
        ensures
            final(self).observability() == settings,
            final(self).realtime() == old(self).realtime(),
    {
        self.observability = settings;
    }

    /// Get current realtime settings.
    pub fn get_realtime(&self) -> (r: RealtimeSettings)
        ensures
            r == self.realtime(),
    {
        copy_realtime(&self.realtime)
    }

    /// Update realtime settings.
    pub fn update_realtime(&mut self, settings: RealtimeSettings)
        ensures
            final(self).realtime() == settings,
            final(self).observability() == old(self).observability(),
    {
        self.realtime = settings;
    }

    /// Get all settings.
    pub fn get_all(&self) -> (r: AllSettings)
        ensures
            r.observability == self.observability(),
            r.realtime == self.realtime(),
    {
        AllSettings { observability: self.get_observability(), realtime: self.get_realtime() }
    }
}

impl Default for SettingsState {
    fn default() -> (r: Self)
        ensures
            r.observability().slow_query == SlowQueryConfig::spec_default(),
            r.realtime().backpressure.max_pending_messages == 1000,
    {
        SettingsState::new()
    }
}

/// The answer to a change that is refused.
#[derive(Debug, Clone, PartialEq, Eq)]
pub struct ErrorResponse {
    pub error: String,
    pub code: u16,
}

/// A change of the observability settings: what is given replaces what
/// stands.
#[derive(Debug, Clone, PartialEq, Eq)]
pub struct UpdateObservabilityRequest {
    pub slow_query: Option<SlowQueryConfig>,
    pub operation_log_enabled: Option<bool>,
}

/// A change of the realtime settings.
#[derive(Debug, Clone, PartialEq, Eq)]
pub struct UpdateRealtimeRequest {
    pub backpressure: Option<BackpressureConfig>,
}

/// Why a slow query configuration is refused, if it is: its threshold is 0,
/// its threshold is over a minute, or its webhook URL starts with neither
/// `http://` nor `https://`, looked at in this order.
pub open spec fn slow_query_fault(config: SlowQueryConfig) -> Option<Seq<char>> {
    if config.threshold_ms == 0 {
        Some("Slow query threshold must be greater than 0"@)
    } else if config.threshold_ms > MAX_SLOW_QUERY_THRESHOLD_MS {
        Some("Slow query threshold must be less than 60000ms"@)
    } else if config.webhook_url is Some && !"http://"@.is_prefix_of(config.webhook_url->Some_0@)
        && !"https://"@.is_prefix_of(config.webhook_url->Some_0@) {
        Some("Webhook URL must start with http:// or https://"@)
    } else {
        None
    }
}

/// Why a backpressure configuration is refused, if it is: its number of
/// pending messages is 0, or over a million.
pub open spec fn backpressure_fault(config: BackpressureConfig) -> Option<Seq<char>> {
    if config.max_pending_messages == 0 {
        Some("Max pending messages must be greater than 0"@)
    } else if config.max_pending_messages > MAX_PENDING_MESSAGES {
        Some("Max pending messages must be less than 1,000,000"@)
    } else {
        None
    }
}

/// The observability settings after a change.
pub open spec fn changed_observability(
    settings: ObservabilitySettings,
    request: UpdateObservabilityRequest,
) -> ObservabilitySettings {
    ObservabilitySettings {
        slow_query: match request.slow_query {
            Some(config) => config,
            None => settings.slow_query,
        },
        operation_log_enabled: match request.operation_log_enabled {
            Some(enabled) => enabled,
            None => settings.operation_log_enabled,
        },
    }
}

fn refusal(reason: &str) -> (r: ErrorResponse)
    ensures
        r.error@ == reason@,
        r.code == BAD_REQUEST,
{
    ErrorResponse { error: owned(reason), code: BAD_REQUEST }
}

/// Check a slow query configuration.
pub fn validate_slow_query(config: &SlowQueryConfig) -> (r: Result<(), ErrorResponse>)
    ensures
        match slow_query_fault(*config) {
            None => r is Ok,
            Some(reason) => r is Err && r->Err_0.error@ == reason && r->Err_0.code == BAD_REQUEST,
        },
{
    if config.threshold_ms == 0 {
        return Err(refusal("Slow query threshold must be greater than 0"));
    }
    if config.threshold_ms > MAX_SLOW_QUERY_THRESHOLD_MS {
        return Err(refusal("Slow query threshold must be less than 60000ms"));
    }
    match &config.webhook_url {
        Some(url) => {
            if !starts_with(url.as_str(), "http://") && !starts_with(url.as_str(), "https://") {
                return Err(refusal("Webhook URL must start with http:// or https://"));
            }
        },
        None => {},
    }
    Ok(())
}

/// Check a backpressure configuration.
pub fn validate_backpressure(config: &BackpressureConfig) -> (r: Result<(), ErrorResponse>)
    ensures
        match backpressure_fault(*config) {
            None => r is Ok,
            Some(reason) => r is Err && r->Err_0.error@ == reason && r->Err_0.code == BAD_REQUEST,
        },
{
    if config.max_pending_messages == 0 {
        return Err(refusal("Max pending messages must be greater than 0"));
    }
    if config.max_pending_messages > MAX_PENDING_MESSAGES {
        return Err(refusal("Max pending messages must be less than 1,000,000"));
    }
    Ok(())
}

/// Change the observability settings. A slow query configuration that does
/// not pass its check is refused with status 400, and nothing changes;
/// otherwise what the request gives replaces what stands, and the new
/// settings are returned.
pub fn update_observability_settings(state: &mut SettingsState, request: UpdateObservabilityRequest)
    -> (r: Result<ObservabilitySettings, ErrorResponse>)
    ensures
        final(state).realtime() == old(state).realtime(),
        match request.slow_query {
            Some(config) if slow_query_fault(config) is Some => {
                &&& r is Err
                &&& r->Err_0.error@ == slow_query_fault(config)->Some_0
                &&& r->Err_0.code == BAD_REQUEST
                &&& final(state).observability() == old(state).observability()
            },
            _ => {
                &&& r == Ok::<ObservabilitySettings, ErrorResponse>(
                    changed_observability(old(state).observability(), request),
                )
                &&& final(state).observability() == changed_observability(
                    old(state).observability(),
                    request,
                )
            },
        },
{
    let mut settings = state.get_observability();
    match request.slow_query {
        Some(slow_query) => {
            match validate_slow_query(&slow_query) {
                Err(e) => {
                    return Err(e);
                },
                Ok(_) => {},
            }
            settings.slow_query = slow_query;
        },
        None => {},
    }
    match request.operation_log_enabled {
        Some(enabled) => {
            settings.operation_log_enabled = enabled;
        },
        None => {},
    }
    state.update_observability(copy_observability(&settings));
    Ok(settings)
}

/// Change the realtime settings. A backpressure configuration that does not
/// pass its check is refused with status 400, and nothing changes;
/// otherwise it replaces the one that stands, and the new settings are
/// returned.
pub fn update_realtime_settings(state: &mut SettingsState, request: UpdateRealtimeRequest) -> (r:
    Result<RealtimeSettings, ErrorResponse>)
    ensures
        final(state).observability() == old(state).observability(),
        match request.backpressure {
            Some(config) if backpressure_fault(config) is Some => {
                &&& r is Err
                &&& r->Err_0.error@ == backpressure_fault(config)->Some_0
                &&& r->Err_0.code == BAD_REQUEST
                &&& final(state).realtime() == old(state).realtime()
            },
            Some(config) => {
                &&& r == Ok::<RealtimeSettings, ErrorResponse>(
                    RealtimeSettings { backpressure: config },
                )
                &&& final(state).realtime() == (RealtimeSettings { backpressure: config })
            },
            None => {
                &&& r == Ok::<RealtimeSettings, ErrorResponse>(old(state).realtime())
                &&& final(state).realtime() == old(state).realtime()
            },
        },
{
    let mut settings = state.get_realtime();
    match request.backpressure {
        Some(backpressure) => {
            match validate_backpressure(&backpressure) {
                Err(e) => {
                    return Err(e);
                },
                Ok(_) => {},
            }
            settings.backpressure = backpressure;
        },
        None => {},
    }
    state.update_realtime(copy_realtime(&settings));
    Ok(settings)
}

} // verus!
