use aerodb::control_plane::errors::ControlPlaneError;
use aerodb::control_plane::metering::{UsageMetrics, UsageTracker};
use aerodb::control_plane::quota::Quotas;
use aerodb::control_plane::tenant::{IsolationModel, Plan, Tenant, TenantListItem, TenantStatus};
use aerodb::http_server::control_plane_routes::{
    list_tenants, quota_response, response_status, tenant_details, usage_for, ListTenantsQuery,
    QuotaMiddleware,
};
use aerodb::http_server::settings_routes::{
    update_observability_settings, update_realtime_settings, validate_backpressure,
    validate_slow_query, ErrorResponse, SettingsState, UpdateObservabilityRequest,
    UpdateRealtimeRequest,
};
use aerodb::http_server::setup_guard::{
    setup_guard, GuardDecision, SetupRequiredResponse, SetupState,
};
use aerodb::observability::slow_query::SlowQueryConfig;
use aerodb::realtime::backpressure::{BackpressureConfig, DropPolicy};

#[test]
fn test_settings_state_creation() {
    let state = SettingsState::new();
    let obs = state.get_observability();
    assert!(!obs.slow_query.enabled);
}

#[test]
fn test_update_observability() {
    let mut state = SettingsState::new();
    let mut settings = state.get_observability();

    settings.slow_query.enabled = true;
    settings.slow_query.threshold_ms = 200;

    state.update_observability(settings.clone());

    let updated = state.get_observability();
    assert!(updated.slow_query.enabled);
    assert_eq!(updated.slow_query.threshold_ms, 200);
}

#[test]
fn test_update_realtime() {
    let mut state = SettingsState::new();
    let mut settings = state.get_realtime();

    settings.backpressure.max_pending_messages = 500;

    state.update_realtime(settings.clone());

    let updated = state.get_realtime();
    assert_eq!(updated.backpressure.max_pending_messages, 500);
}

#[test]
fn test_get_all_settings() {
    let state = SettingsState::new();
    let all = state.get_all();

    assert!(!all.observability.slow_query.enabled);
    assert_eq!(all.realtime.backpressure.max_pending_messages, 1000);
}

fn slow_query(threshold_ms: u64, webhook_url: Option<&str>) -> SlowQueryConfig {
    let mut config = SlowQueryConfig::default();
    config.enabled = true;
    config.threshold_ms = threshold_ms;
    config.webhook_url = webhook_url.map(|s| s.to_string());
    config
}

fn refused(reason: &str) -> ErrorResponse {
    ErrorResponse { error: reason.to_string(), code: 400 }
}

#[test]
fn slow_query_settings_are_checked_in_order() {
    assert_eq!(
        validate_slow_query(&slow_query(0, Some("ftp://x"))),
        Err(refused("Slow query threshold must be greater than 0"))
    );
    assert_eq!(
        validate_slow_query(&slow_query(60_001, Some("ftp://x"))),
        Err(refused("Slow query threshold must be less than 60000ms"))
    );
    assert_eq!(
        validate_slow_query(&slow_query(60_000, Some("ftp://x"))),
        Err(refused("Webhook URL must start with http:// or https://"))
    );
    assert_eq!(validate_slow_query(&slow_query(60_000, Some("https://x"))), Ok(()));
    assert_eq!(validate_slow_query(&slow_query(1, Some("http://x"))), Ok(()));
    assert_eq!(validate_slow_query(&slow_query(1, None)), Ok(()));
}

#[test]
fn a_refused_change_leaves_the_settings_as_they_were() {
    let mut state = SettingsState::new();
    let before = state.get_all();
    let result = update_observability_settings(
        &mut state,
        UpdateObservabilityRequest {
            slow_query: Some(slow_query(0, None)),
            operation_log_enabled: Some(true),
        },
    );
    assert_eq!(result, Err(refused("Slow query threshold must be greater than 0")));
    assert_eq!(state.get_all(), before);

    let result = update_realtime_settings(
        &mut state,
        UpdateRealtimeRequest { backpressure: Some(BackpressureConfig::with_max_pending(0)) },
    );
    assert_eq!(result, Err(refused("Max pending messages must be greater than 0")));
    assert_eq!(state.get_all(), before);
}

#[test]
fn an_accepted_change_replaces_what_it_names() {
    let mut state = SettingsState::new();
    let only_log = update_observability_settings(
        &mut state,
        UpdateObservabilityRequest { slow_query: None, operation_log_enabled: Some(true) },
    )
    .unwrap();
    assert!(only_log.operation_log_enabled);
    assert_eq!(only_log.slow_query, SlowQueryConfig::default());

    let config = slow_query(250, Some("https://hooks.example/x"));
    let both = update_observability_settings(
        &mut state,
        UpdateObservabilityRequest { slow_query: Some(config.clone()), operation_log_enabled: None },
    )
    .unwrap();
    assert!(both.operation_log_enabled);
    assert_eq!(both.slow_query, config);
    assert_eq!(state.get_observability(), both);

    let realtime = update_realtime_settings(
        &mut state,
        UpdateRealtimeRequest {
            backpressure: Some(BackpressureConfig {
                max_pending_messages: 1_000_000,
                drop_policy: DropPolicy::Reject,
            }),
        },
    )
    .unwrap();
    assert_eq!(realtime.backpressure.max_pending_messages, 1_000_000);
    assert_eq!(state.get_realtime(), realtime);
    let unchanged =
        update_realtime_settings(&mut state, UpdateRealtimeRequest { backpressure: None }).unwrap();
    assert_eq!(unchanged, realtime);
}

#[test]
fn backpressure_settings_have_bounds() {
    assert_eq!(
        validate_backpressure(&BackpressureConfig::with_max_pending(0)),
        Err(refused("Max pending messages must be greater than 0"))
    );
    assert_eq!(
        validate_backpressure(&BackpressureConfig::with_max_pending(1_000_001)),
        Err(refused("Max pending messages must be less than 1,000,000"))
    );
    assert_eq!(validate_backpressure(&BackpressureConfig::with_max_pending(1)), Ok(()));
    assert_eq!(validate_backpressure(&BackpressureConfig::with_max_pending(1_000_000)), Ok(()));
}

#[test]
fn test_setup_required_response() {
    let response = SetupRequiredResponse::new();
    assert_eq!(response.code, "AERO_SETUP_REQUIRED");
    assert!(response.message.contains("setup"));
    assert!(response.message.contains("wizard"));
}

#[test]
fn test_setup_state_not_ready() {
    let state = SetupState::new();
    assert!(!state.is_ready());
}

#[test]
fn the_guard_refuses_until_setup_is_complete() {
    let mut state = SetupState::new();
    assert_eq!(setup_guard(&state), GuardDecision::Refuse(503, SetupRequiredResponse::new()));
    state.mark_ready();
    assert!(state.is_ready());
    assert_eq!(setup_guard(&state), GuardDecision::Proceed);
    let response = SetupRequiredResponse::new();
    assert_eq!(response.error, "SETUP_REQUIRED");
    assert_eq!(response.setup_url, "/setup/status");
}

fn item(id: u128, plan: Plan, status: TenantStatus) -> TenantListItem {
    TenantListItem {
        tenant_id: id,
        name: format!("tenant-{}", id),
        plan,
        status,
        created_at_ms: 0,
        storage_used: 0,
        api_requests_month: 0,
    }
}

fn ids(items: &[TenantListItem]) -> Vec<u128> {
    items.iter().map(|t| t.tenant_id).collect()
}

#[test]
fn listings_are_filtered_and_then_paged() {
    let tenants = vec![
        item(1, Plan::Free, TenantStatus::Active),
        item(2, Plan::Pro, TenantStatus::Active),
        item(3, Plan::Free, TenantStatus::Suspended),
        item(4, Plan::Free, TenantStatus::Active),
        item(5, Plan::Pro, TenantStatus::Suspended),
    ];
    let all = ListTenantsQuery { plan: None, status: None, limit: None, offset: None };
    assert_eq!(ids(&list_tenants(&tenants, &all)), vec![1, 2, 3, 4, 5]);

    let free = ListTenantsQuery { plan: Some(Plan::Free), ..all };
    assert_eq!(ids(&list_tenants(&tenants, &free)), vec![1, 3, 4]);

    let free_active = ListTenantsQuery { status: Some(TenantStatus::Active), ..free };
    assert_eq!(ids(&list_tenants(&tenants, &free_active)), vec![1, 4]);

    let paged = ListTenantsQuery { limit: Some(2), offset: Some(1), ..all };
    assert_eq!(ids(&list_tenants(&tenants, &paged)), vec![2, 3]);

    let free_paged = ListTenantsQuery { limit: Some(5), offset: Some(2), ..free };
    assert_eq!(ids(&list_tenants(&tenants, &free_paged)), vec![4]);

    let beyond = ListTenantsQuery { offset: Some(5), ..all };
    assert!(list_tenants(&tenants, &beyond).is_empty());
    let far = ListTenantsQuery { offset: Some(usize::MAX), limit: Some(usize::MAX), ..all };
    assert!(list_tenants(&tenants, &far).is_empty());
    let none = ListTenantsQuery { limit: Some(0), ..all };
    assert!(list_tenants(&tenants, &none).is_empty());
}

#[test]
fn listings_show_a_hundred_by_default_and_a_thousand_at_most() {
    let tenants: Vec<TenantListItem> =
        (0..1_200).map(|i| item(i, Plan::Free, TenantStatus::Active)).collect();
    let all = ListTenantsQuery { plan: None, status: None, limit: None, offset: None };
    assert_eq!(list_tenants(&tenants, &all).len(), 100);
    let many = ListTenantsQuery { limit: Some(5_000), ..all };
    assert_eq!(list_tenants(&tenants, &many).len(), 1_000);
    let tail = ListTenantsQuery { limit: Some(1_000), offset: Some(500), ..all };
    let page = list_tenants(&tenants, &tail);
    assert_eq!(page.len(), 700);
    assert_eq!(page[0].tenant_id, 500);
}

#[test]
fn quota_middleware_counts_what_it_lets_through() {
    let mut middleware = QuotaMiddleware::new(UsageTracker::new());
    let limit = Quotas::for_plan(&Plan::Free).api_requests_month;
    for _ in 0..3 {
        middleware.check_quota(7, &Plan::Free, "2024-08").unwrap();
    }
    assert_eq!(middleware.usage_tracker().get_api_request_count(7, "2024-08"), 3);
    assert_eq!(middleware.usage_tracker().get_api_request_count(7, "2024-09"), 0);

    let mut tracker = UsageTracker::new();
    for _ in 0..limit {
        tracker.record_api_request(7, "2024-08");
    }
    let mut full = QuotaMiddleware::new(tracker);
    assert_eq!(
        full.check_quota(7, &Plan::Free, "2024-08").unwrap_err(),
        ControlPlaneError::QuotaExceeded {
            tenant_id: "00000000-0000-0000-0000-000000000007".to_string(),
            resource: "api_requests".to_string(),
            used: limit,
            limit,
        }
    );
    // A refused request is not counted, and other tenants are not held back.
    assert_eq!(full.usage_tracker().get_api_request_count(7, "2024-08"), limit);
    assert!(full.check_quota(8, &Plan::Free, "2024-08").is_ok());
    assert!(full.check_quota(7, &Plan::Pro, "2024-08").is_ok());
}

#[test]
fn storage_quota_is_checked_before_a_write() {
    let limit = Quotas::for_plan(&Plan::Free).storage_bytes;
    let mut tracker = UsageTracker::new();
    tracker.record_storage(7, "2024-08", (limit - 10) as i64);
    let middleware = QuotaMiddleware::new(tracker);
    assert!(middleware.check_storage_quota(7, &Plan::Free, 10, "2024-08").is_ok());
    assert_eq!(
        middleware.check_storage_quota(7, &Plan::Free, 11, "2024-08").unwrap_err(),
        ControlPlaneError::QuotaExceeded {
            tenant_id: "00000000-0000-0000-0000-000000000007".to_string(),
            resource: "storage".to_string(),
            used: limit - 10,
            limit,
        }
    );
    assert!(middleware.check_storage_quota(7, &Plan::Free, u64::MAX, "2024-08").is_err());
    assert!(middleware.check_storage_quota(7, &Plan::Free, limit, "2024-09").is_ok());
}

#[test]
fn quota_response_shows_what_is_left() {
    let mut usage = UsageMetrics::for_month(1, "2024-08".to_string());
    let quotas = Quotas::for_plan(&Plan::Free);
    usage.storage_bytes = 100;
    usage.api_requests = quotas.api_requests_month + 5;
    let response = quota_response(&Plan::Free, usage.clone());
    assert_eq!(response.quotas, quotas);
    assert_eq!(response.usage, usage);
    assert_eq!(response.storage_remaining, quotas.storage_bytes - 100);
    assert_eq!(response.api_requests_remaining, 0);
}

#[test]
fn usage_queries_fall_back_to_the_current_month() {
    let mut tracker = UsageTracker::new();
    tracker.record_api_request(1, "2024-07");
    tracker.record_api_request(1, "2024-08");
    tracker.record_api_request(1, "2024-08");
    assert_eq!(usage_for(&tracker, 1, &Some("2024-07".to_string()), "2024-08").api_requests, 1);
    assert_eq!(usage_for(&tracker, 1, &None, "2024-08").api_requests, 2);
    let fallback = usage_for(&tracker, 1, &Some("2023-01".to_string()), "2024-08");
    assert_eq!(fallback.api_requests, 2);
    assert_eq!(fallback.month, "2024-08");
}

#[test]
fn errors_are_answered_with_their_status() {
    let not_found = ControlPlaneError::TenantNotFound { tenant_id: "x".to_string() };
    assert_eq!(response_status(&not_found), 404);
    let conflict = ControlPlaneError::TenantNameExists { name: "x".to_string() };
    assert_eq!(response_status(&conflict), 409);
    let invalid =
        ControlPlaneError::InvalidTenantName { name: "x".to_string(), reason: "y".to_string() };
    assert_eq!(response_status(&invalid), 400);
    let gone = ControlPlaneError::TenantDeleted { tenant_id: "x".to_string() };
    assert_eq!(response_status(&gone), 410);
    let suspended = ControlPlaneError::TenantSuspended { tenant_id: "x".to_string() };
    assert_eq!(response_status(&suspended), 403);
    let internal = ControlPlaneError::Internal { message: "x".to_string() };
    assert_eq!(response_status(&internal), 500);
}

#[test]
fn tenant_details_show_the_quotas_of_the_plan() {
    let tenant = Tenant::with_ids(
        "alpha".to_string(),
        Plan::Pro,
        "eu".to_string(),
        IsolationModel::Schema,
        10,
        1,
        2,
    );
    let usage = UsageMetrics::for_month(1, "2024-08".to_string());
    let details = tenant_details(tenant.clone(), usage.clone());
    assert_eq!(details.tenant_id, 1);
    assert_eq!(details.name, "alpha");
    assert_eq!(details.region, "eu");
    assert_eq!(details.database_url, tenant.database_url);
    assert_eq!(details.quotas, Quotas::for_plan(&Plan::Pro));
    assert_eq!(details.usage, usage);
}
