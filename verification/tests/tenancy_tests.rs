use aerodb::control_plane::billing::{
    base_price_dollars, billable_usage, line_count, usage_is_charged, BillableUsage,
};
use aerodb::control_plane::database_provisioner::{
    health_step, health_url, launch_failure, local_url, removal_failure, DatabaseProvisioner,
    HealthStep, LaunchStep, PORT_RANGE_END, PORT_RANGE_START,
};
use aerodb::control_plane::errors::ControlPlaneError;
use aerodb::control_plane::metering::{current_month, format_month, UsageMetrics, UsageTracker};
use aerodb::control_plane::provisioning::ProvisioningService;
use aerodb::control_plane::registry::TenantRegistry;
use aerodb::control_plane::schema_provisioner::{
    extract_tenant_id_from_api_key, extract_tenant_id_from_subdomain, RlsContext,
    SchemaProvisioner,
};
use aerodb::control_plane::tenant::{
    CreateTenantRequest, IsolationModel, Plan, Tenant, TenantConfig, TenantStatus,
    UpdateTenantRequest,
};

const ID: u128 = 0x12345678_1234_1234_1234_123456789012;
const ID_TEXT: &str = "12345678-1234-1234-1234-123456789012";
const MONTH: &str = "2024-08";

fn tenant(name: &str, plan: Plan, isolation: IsolationModel) -> Tenant {
    Tenant::new(name.to_string(), plan, "local".to_string(), isolation, 1_000)
}

// Registry

#[test]
fn test_tenant_crud() {
    let mut registry = TenantRegistry::new();

    let tenant = Tenant::new(
        "acme-corp".to_string(),
        Plan::Pro,
        "us-east-1".to_string(),
        IsolationModel::Schema,
        1_000,
    );
    let tenant_id = tenant.tenant_id;
    registry.insert(tenant).unwrap();

    let retrieved = registry.get(tenant_id).unwrap();
    assert_eq!(retrieved.name, "acme-corp");

    let by_name = registry.get_by_name("acme-corp").unwrap();
    assert_eq!(by_name.tenant_id, tenant_id);

    let list = registry.list(MONTH);
    assert_eq!(list.len(), 1);

    registry.delete(tenant_id, 2_000).unwrap();
    let deleted = registry.get(tenant_id).unwrap();
    assert!(deleted.is_deleted());

    let list_after = registry.list(MONTH);
    assert_eq!(list_after.len(), 0);
}

#[test]
fn test_name_validation() {
    assert!(TenantRegistry::validate_name("acme").is_ok());
    assert!(TenantRegistry::validate_name("acme-corp").is_ok());
    assert!(TenantRegistry::validate_name("acme123").is_ok());
    assert!(TenantRegistry::validate_name("a-b-c-123").is_ok());

    assert!(TenantRegistry::validate_name("ab").is_err());
    assert!(TenantRegistry::validate_name("123abc").is_err());
    assert!(TenantRegistry::validate_name("-acme").is_err());
    assert!(TenantRegistry::validate_name("acme-").is_err());
    assert!(TenantRegistry::validate_name("acme--corp").is_err());
    assert!(TenantRegistry::validate_name("ACME").is_err());
}

fn name_reason(name: &str) -> String {
    match TenantRegistry::validate_name(name) {
        Err(ControlPlaneError::InvalidTenantName { name: shown, reason }) => {
            assert_eq!(shown, name);
            reason
        }
        other => panic!("unexpected: {:?}", other),
    }
}

#[test]
fn name_validation_gives_the_first_reason() {
    assert_eq!(name_reason("ab"), "Name must be 3-63 characters");
    assert_eq!(name_reason(&"a".repeat(64)), "Name must be 3-63 characters");
    assert!(TenantRegistry::validate_name(&"a".repeat(63)).is_ok());
    assert!(TenantRegistry::validate_name("abc").is_ok());
    assert_eq!(name_reason("1abc"), "Name must start with a lowercase letter");
    assert_eq!(name_reason("-a-"), "Name must start with a lowercase letter");
    assert_eq!(
        name_reason("ab_c-"),
        "Name must contain only lowercase letters, numbers, and hyphens"
    );
    assert_eq!(name_reason("abc-"), "Name must not end with a hyphen");
    assert_eq!(name_reason("a--b"), "Name must not contain consecutive hyphens");
    // The length is counted in bytes: two letters of two bytes each pass the length.
    assert_eq!(name_reason("éé"), "Name must start with a lowercase letter");
}

#[test]
fn test_duplicate_name() {
    let mut registry = TenantRegistry::new();

    let tenant1 = tenant("acme", Plan::Free, IsolationModel::Schema);
    registry.insert(tenant1).unwrap();

    let tenant2 = tenant("acme", Plan::Pro, IsolationModel::Schema);
    let result = registry.insert(tenant2);
    assert!(result.is_err());
    assert_eq!(
        result.unwrap_err(),
        ControlPlaneError::TenantNameExists { name: "acme".to_string() }
    );
    assert_eq!(registry.count(), 1);
}

#[test]
fn a_deleted_tenant_frees_its_name_and_its_api_key() {
    let mut registry = TenantRegistry::new();
    let first = tenant("acme", Plan::Free, IsolationModel::Schema);
    let id = first.tenant_id;
    let key = first.api_key.clone();
    registry.insert(first).unwrap();
    assert!(!registry.is_name_available("acme"));
    assert_eq!(registry.get_by_api_key(&key).unwrap().tenant_id, id);

    registry.delete(id, 5).unwrap();
    assert!(registry.is_name_available("acme"));
    assert!(registry.get_by_name("acme").is_err());
    assert_eq!(
        registry.get_by_api_key(&key).unwrap_err(),
        ControlPlaneError::TenantNotFound { tenant_id: "invalid api key".to_string() }
    );
    // The deleted tenant is still counted, and the name can be taken again.
    registry.insert(tenant("acme", Plan::Pro, IsolationModel::Schema)).unwrap();
    assert_eq!(registry.count(), 2);
    assert_eq!(registry.list(MONTH).len(), 1);
}

#[test]
fn registry_reports_unknown_tenants() {
    let mut registry = TenantRegistry::new();
    let missing = ControlPlaneError::TenantNotFound { tenant_id: ID_TEXT.to_string() };
    assert_eq!(registry.get(ID).unwrap_err(), missing);
    assert_eq!(registry.delete(ID, 1).unwrap_err(), missing);
    assert_eq!(registry.activate(ID, 1).unwrap_err(), missing);
    assert_eq!(registry.suspend(ID, 1).unwrap_err(), missing);
    assert_eq!(
        registry.update(ID, UpdateTenantRequest { plan: None, status: None }, 1).unwrap_err(),
        missing
    );
    assert_eq!(
        registry.get_by_name("nobody").unwrap_err(),
        ControlPlaneError::TenantNotFound { tenant_id: "nobody".to_string() }
    );
}

#[test]
fn registry_updates_and_counts() {
    let mut registry = TenantRegistry::new();
    let a = Tenant::with_ids(
        "alpha".to_string(),
        Plan::Free,
        "local".to_string(),
        IsolationModel::Schema,
        10,
        1,
        101,
    );
    let b = Tenant::with_ids(
        "beta".to_string(),
        Plan::Free,
        "local".to_string(),
        IsolationModel::Schema,
        10,
        2,
        102,
    );
    registry.insert(a).unwrap();
    registry.insert(b).unwrap();
    assert_eq!(registry.count(), 2);
    assert_eq!(registry.count_active(), 0);

    registry.activate(1, 20).unwrap();
    assert_eq!(registry.count_active(), 1);
    assert_eq!(registry.get(1).unwrap().updated_at_ms, 20);

    let updated = registry
        .update(2, UpdateTenantRequest { plan: Some(Plan::Enterprise), status: None }, 30)
        .unwrap();
    assert_eq!(updated.plan, Plan::Enterprise);
    assert_eq!(updated.status, TenantStatus::Provisioning);
    assert_eq!(updated.updated_at_ms, 30);
    assert_eq!(registry.get(2).unwrap(), updated);

    registry.suspend(1, 40).unwrap();
    assert_eq!(registry.get(1).unwrap().status, TenantStatus::Suspended);
    assert_eq!(registry.count_active(), 0);

    let config = TenantConfig {
        database_url: "http://localhost:50001".to_string(),
        port: Some(50001),
        data_dir: None,
        process_id: None,
    };
    registry.set_config(2, config.clone(), 50).unwrap();
    let configured = registry.get(2).unwrap();
    assert_eq!(configured.config, Some(config));
    assert_eq!(configured.database_url, "http://localhost:50001");
    assert_eq!(configured.updated_at_ms, 50);
}

#[test]
fn the_listing_shows_the_usage_of_the_month() {
    let mut registry = TenantRegistry::new();
    let t = Tenant::with_ids(
        "alpha".to_string(),
        Plan::Free,
        "local".to_string(),
        IsolationModel::Schema,
        10,
        1,
        101,
    );
    registry.insert(t).unwrap();
    registry.usage_tracker_mut().record_api_request(1, MONTH);
    registry.usage_tracker_mut().record_api_request(1, MONTH);
    registry.usage_tracker_mut().record_storage(1, MONTH, 2048);
    registry.usage_tracker_mut().record_api_request(1, "2024-09");
    let list = registry.list(MONTH);
    assert_eq!(list.len(), 1);
    assert_eq!(list[0].tenant_id, 1);
    assert_eq!(list[0].name, "alpha");
    assert_eq!(list[0].api_requests_month, 2);
    assert_eq!(list[0].storage_used, 2048);
    assert_eq!(registry.usage_tracker().get_api_request_count(1, "2024-09"), 1);
}

// Metering

#[test]
fn test_usage_tracking() {
    let mut tracker = UsageTracker::new();
    let tenant_id: u128 = 7;
    let month = current_month();

    tracker.record_api_request(tenant_id, &month);
    tracker.record_api_request(tenant_id, &month);
    assert_eq!(tracker.get_api_request_count(tenant_id, &month), 2);

    tracker.record_storage(tenant_id, &month, 1024);
    assert_eq!(tracker.get_storage_bytes(tenant_id, &month), 1024);

    tracker.record_storage(tenant_id, &month, -512);
    assert_eq!(tracker.get_storage_bytes(tenant_id, &month), 512);
}

#[test]
fn test_realtime_connections() {
    let mut tracker = UsageTracker::new();
    let tenant_id: u128 = 7;
    let month = current_month();

    tracker.record_realtime_connect(tenant_id, &month);
    tracker.record_realtime_connect(tenant_id, &month);
    assert_eq!(tracker.get_realtime_connections(tenant_id), 2);

    tracker.record_realtime_disconnect(tenant_id);
    assert_eq!(tracker.get_realtime_connections(tenant_id), 1);

    let usage = tracker.get_current_usage(tenant_id, &month);
    assert_eq!(usage.realtime_connections_peak, 2);
}

#[test]
fn test_current_month() {
    let month = current_month();
    assert!(month.len() == 7);
    assert!(month.contains('-'));
}

#[test]
fn months_are_written_with_four_and_two_digits() {
    assert_eq!(format_month(2024, 8), "2024-08");
    assert_eq!(format_month(2024, 12), "2024-12");
    assert_eq!(format_month(987, 1), "0987-01");
    assert_eq!(format_month(12345, 3), "12345-03");
}

#[test]
fn usage_is_kept_by_tenant_and_month_and_never_wraps() {
    let mut tracker = UsageTracker::new();
    tracker.record_storage(1, MONTH, -5);
    assert_eq!(tracker.get_storage_bytes(1, MONTH), 0);
    tracker.record_storage(1, MONTH, i64::MAX);
    tracker.record_storage(1, MONTH, i64::MAX);
    tracker.record_storage(1, MONTH, i64::MAX);
    assert_eq!(tracker.get_storage_bytes(1, MONTH), u64::MAX);
    tracker.record_storage(1, MONTH, i64::MIN);
    assert_eq!(tracker.get_storage_bytes(1, MONTH), u64::MAX - (1u64 << 63));

    tracker.record_file_storage(2, MONTH, 10);
    tracker.record_egress(2, MONTH, u64::MAX);
    tracker.record_egress(2, MONTH, 1);
    tracker.record_function_invocation(2, MONTH, 250);
    tracker.record_function_invocation(2, MONTH, 50);
    let usage = tracker.get_usage(2, MONTH).unwrap();
    assert_eq!(usage.file_storage_bytes, 10);
    assert_eq!(usage.egress_bytes, u64::MAX);
    assert_eq!(usage.function_invocations, 2);
    assert_eq!(usage.function_execution_ms, 300);
    assert_eq!(tracker.get_file_storage_bytes(2, MONTH), 10);

    assert_eq!(tracker.get_usage(2, "2024-09"), None);
    assert_eq!(
        tracker.get_current_usage(2, "2024-09"),
        UsageMetrics::for_month(2, "2024-09".to_string())
    );
    assert_eq!(tracker.get_storage_bytes(2, MONTH), 0);

    tracker.record_realtime_disconnect(9);
    assert_eq!(tracker.get_realtime_connections(9), 0);
    tracker.record_realtime_connect(9, MONTH);
    tracker.reset(9, MONTH);
    assert_eq!(tracker.get_realtime_connections(9), 0);
    assert_eq!(tracker.get_usage(9, MONTH), None);
}

// Schema provisioner

#[test]
fn test_schema_name() {
    let name = SchemaProvisioner::schema_name(ID);
    assert!(name.starts_with("tenant_"));
    assert!(!name.contains('-'));
    assert_eq!(name, "tenant_12345678_1234_1234_1234_123456789012");
}

#[test]
fn test_rls_policy() {
    let policy = SchemaProvisioner::generate_rls_policy("users", ID);
    assert!(policy.contains("tenant_isolation_users"));
    assert!(policy.contains("tenant_id"));
    assert_eq!(
        policy,
        "\nCREATE POLICY tenant_isolation_users_12345678_1234_1234_1234_123456789012 ON users\nFOR ALL\nUSING (tenant_id = '12345678-1234-1234-1234-123456789012'::uuid)\nWITH CHECK (tenant_id = '12345678-1234-1234-1234-123456789012'::uuid);\n"
    );
}

#[test]
fn schema_provisioner_test_provision() {
    let provisioner = SchemaProvisioner::new();
    let tenant = tenant("test", Plan::Free, IsolationModel::Schema);

    let config = provisioner.provision(&tenant).unwrap();
    assert!(config.database_url.contains("schema=tenant_"));
    let shown = SchemaProvisioner::schema_name(tenant.tenant_id);
    assert!(config.database_url.starts_with(&format!("http://localhost:54321?schema={}", shown)));
    assert_eq!(config.port, None);
    assert_eq!(config.data_dir, None);
    assert!(provisioner.provision_statements(&tenant).is_empty());
    assert_eq!(provisioner.deprovision_statement(&tenant), None);
    assert!(provisioner.deprovision(&tenant).is_ok());
}

#[test]
fn schema_statements() {
    let t = Tenant::with_ids(
        "alpha".to_string(),
        Plan::Free,
        "local".to_string(),
        IsolationModel::Schema,
        10,
        ID,
        101,
    );
    let provisioner = SchemaProvisioner::with_base_url("db://x".to_string()).with_schema_creation();
    let name = "tenant_12345678_1234_1234_1234_123456789012";
    assert_eq!(
        provisioner.provision_statements(&t),
        vec![
            format!("CREATE SCHEMA IF NOT EXISTS {};", name),
            format!("GRANT USAGE ON SCHEMA {} TO authenticated;", name),
            format!("GRANT ALL ON ALL TABLES IN SCHEMA {} TO authenticated;", name),
        ]
    );
    assert_eq!(
        provisioner.deprovision_statement(&t),
        Some(format!("DROP SCHEMA IF EXISTS {} CASCADE;", name))
    );
    assert_eq!(
        provisioner.provision(&t).unwrap().database_url,
        format!("db://x?schema={}&tenant_id={}", name, ID_TEXT)
    );
    assert_eq!(
        SchemaProvisioner::generate_tenant_column("orders"),
        "ALTER TABLE orders ADD COLUMN IF NOT EXISTS tenant_id UUID NOT NULL;"
    );
}

#[test]
fn test_extract_subdomain() {
    let host = "acme-corp.aerodb.com";
    let tenant = extract_tenant_id_from_subdomain(host);
    assert_eq!(tenant, Some("acme-corp".to_string()));
}

#[test]
fn tenant_extraction_edge_cases() {
    assert_eq!(extract_tenant_id_from_subdomain("localhost"), None);
    assert_eq!(extract_tenant_id_from_subdomain(""), None);
    assert_eq!(extract_tenant_id_from_subdomain(".com"), Some(String::new()));
    assert_eq!(extract_tenant_id_from_subdomain("a.b"), Some("a".to_string()));
    assert_eq!(extract_tenant_id_from_api_key("ak_abc"), Some("abc".to_string()));
    assert_eq!(extract_tenant_id_from_api_key("ak_"), Some(String::new()));
    assert_eq!(extract_tenant_id_from_api_key("sk_abc"), None);
    assert_eq!(extract_tenant_id_from_api_key("ak"), None);
}

#[test]
fn test_rls_context() {
    let ctx = RlsContext::new(ID);
    let sql = ctx.set_context_sql();
    assert!(sql.contains(ID_TEXT));
    assert_eq!(sql, format!("SET LOCAL app.tenant_id = '{}';", ID_TEXT));
    assert_eq!(ctx.tenant_id(), ID);
    assert_eq!(
        RlsContext::get_context_sql(),
        "SELECT current_setting('app.tenant_id', true)::uuid AS tenant_id;"
    );
}

// Database provisioner

#[test]
fn test_port_allocation() {
    let mut provisioner = DatabaseProvisioner::new();
    let tenant_id: u128 = 1;

    let port1 = provisioner.allocate_port(tenant_id).unwrap();
    assert!(port1 >= PORT_RANGE_START && port1 < PORT_RANGE_END);

    let port2 = provisioner.allocate_port(tenant_id).unwrap();
    assert_eq!(port1, port2);

    let port3 = provisioner.allocate_port(2).unwrap();
    assert_ne!(port1, port3);
}

#[test]
fn ports_run_out_and_are_not_given_twice() {
    let mut provisioner = DatabaseProvisioner::new();
    let mut seen = std::collections::HashSet::new();
    for id in 0..10_000u128 {
        let port = provisioner.allocate_port(id).unwrap();
        assert_eq!(port as u128, 50_000 + id);
        assert!(seen.insert(port));
    }
    assert_eq!(
        provisioner.allocate_port(10_000).unwrap_err(),
        ControlPlaneError::ProvisioningFailed {
            tenant_id: "00000000-0000-0000-0000-000000002710".to_string(),
            reason: "No available ports".to_string(),
        }
    );
    // A released port is not given again; a tenant with a port keeps it.
    provisioner.release_port(5);
    assert_eq!(provisioner.get_port(5), None);
    assert!(provisioner.allocate_port(5).is_err());
    assert_eq!(provisioner.allocate_port(6).unwrap(), 50_006);
    assert_eq!(provisioner.list_allocated().len(), 9_999);
}

#[test]
fn test_data_dir() {
    let provisioner = DatabaseProvisioner::with_data_dir("/tmp/test".to_string());
    let dir = provisioner.tenant_data_dir(ID);
    assert!(dir.starts_with("/tmp/test"));
    assert!(dir.contains(ID_TEXT));
    assert_eq!(dir, format!("/tmp/test/{}", ID_TEXT));
}

#[test]
fn database_provisioner_test_provision() {
    let mut provisioner = DatabaseProvisioner::new();
    let tenant = tenant("db-tenant", Plan::Pro, IsolationModel::Database);

    let config = provisioner.provision(&tenant).unwrap();
    assert!(config.port.is_some());
    assert!(config.data_dir.is_some());
    assert!(config.database_url.contains("localhost"));
    assert_eq!(config.port, Some(50_000));
    assert_eq!(config.database_url, "http://localhost:50000");
    assert_eq!(config.process_id, None);
    assert_eq!(provisioner.launch_plan(&tenant, 50_000), None);
}

#[test]
fn test_deprovision() {
    let mut provisioner = DatabaseProvisioner::new();
    let tenant = tenant("deprov-tenant", Plan::Free, IsolationModel::Database);

    let _config = provisioner.provision(&tenant).unwrap();
    assert!(provisioner.get_port(tenant.tenant_id).is_some());

    assert_eq!(provisioner.deprovision(&tenant).unwrap(), None);
    assert!(provisioner.get_port(tenant.tenant_id).is_none());
}

#[test]
fn launch_plan_and_failures() {
    let t = Tenant::with_ids(
        "alpha".to_string(),
        Plan::Free,
        "local".to_string(),
        IsolationModel::Database,
        10,
        ID,
        101,
    );
    let mut provisioner =
        DatabaseProvisioner::with_data_dir("/data".to_string()).with_process_spawning();
    let config = provisioner.provision(&t).unwrap();
    let plan = provisioner.launch_plan(&t, config.port.unwrap()).unwrap();
    let dir = format!("/data/{}", ID_TEXT);
    assert_eq!(plan.data_dir, dir);
    assert_eq!(plan.program, "aerodb");
    assert_eq!(plan.init_args, vec!["init".to_string(), "--data-dir".to_string(), dir.clone()]);
    assert_eq!(
        plan.serve_args,
        vec![
            "serve".to_string(),
            "--port".to_string(),
            "50000".to_string(),
            "--data-dir".to_string(),
            dir.clone()
        ]
    );
    assert_eq!(plan.health_url, "http://localhost:50000/health");
    assert_eq!(plan.timeout_secs, 30);
    assert_eq!(provisioner.deprovision(&t).unwrap(), Some(dir));

    assert_eq!(local_url(60_000), "http://localhost:60000");
    assert_eq!(health_url(50_001), "http://localhost:50001/health");

    assert_eq!(
        launch_failure(ID, LaunchStep::CreateDataDir, "denied"),
        ControlPlaneError::ProvisioningFailed {
            tenant_id: ID_TEXT.to_string(),
            reason: "Failed to create data directory: denied".to_string(),
        }
    );
    assert_eq!(
        launch_failure(ID, LaunchStep::RunInit, "not found"),
        ControlPlaneError::ProcessError {
            message: "Failed to initialize database: not found".to_string()
        }
    );
    assert_eq!(
        launch_failure(ID, LaunchStep::InitResult, "bad"),
        ControlPlaneError::ProvisioningFailed {
            tenant_id: ID_TEXT.to_string(),
            reason: "Database init failed: bad".to_string(),
        }
    );
    assert_eq!(
        launch_failure(ID, LaunchStep::Start, "x"),
        ControlPlaneError::ProcessError { message: "Failed to start database: x".to_string() }
    );
    assert_eq!(
        removal_failure(ID, "busy"),
        ControlPlaneError::DeprovisioningFailed {
            tenant_id: ID_TEXT.to_string(),
            reason: "Failed to remove data directory: busy".to_string(),
        }
    );
}

#[test]
fn health_checks_retry_until_the_timeout_has_passed() {
    assert_eq!(health_step(true, 0, 30), HealthStep::Ready);
    assert_eq!(health_step(true, 100, 30), HealthStep::Ready);
    assert_eq!(health_step(false, 0, 30), HealthStep::RetryAfterMs(500));
    assert_eq!(health_step(false, 30, 30), HealthStep::RetryAfterMs(500));
    assert_eq!(
        health_step(false, 31, 30),
        HealthStep::TimedOut(ControlPlaneError::ProvisioningFailed {
            tenant_id: "unknown".to_string(),
            reason: "Health check timeout".to_string(),
        })
    );
}

// Provisioning

fn request(name: &str, plan: Plan, isolation: IsolationModel) -> CreateTenantRequest {
    CreateTenantRequest { name: name.to_string(), plan, region: "local".to_string(), isolation }
}

#[test]
fn test_create_schema_tenant() {
    let mut service = ProvisioningService::new(TenantRegistry::new());

    let response = service
        .create_tenant(request("test-tenant", Plan::Free, IsolationModel::Schema), 1_000)
        .unwrap();
    assert!(!response.api_key.is_empty());
    assert!(response.database_url.contains("test-tenant"));

    let tenant = service.get_tenant(response.tenant_id).unwrap();
    assert!(tenant.is_active());
    assert!(tenant.database_url.contains("schema=tenant_"));
    assert_eq!(service.get_tenant_by_name("test-tenant").unwrap(), tenant);
    assert_eq!(service.get_tenant_by_api_key(&response.api_key).unwrap(), tenant);
    assert_eq!(service.verify_tenant_access(response.tenant_id).unwrap(), tenant);
    assert_eq!(service.list_tenants(MONTH).len(), 1);
}

#[test]
fn test_delete_tenant() {
    let mut service = ProvisioningService::new(TenantRegistry::new());

    let response = service
        .create_tenant(request("delete-me", Plan::Free, IsolationModel::Schema), 1_000)
        .unwrap();
    assert_eq!(service.delete_tenant(response.tenant_id, 2_000).unwrap(), None);

    let tenant = service.get_tenant(response.tenant_id).unwrap();
    assert!(tenant.is_deleted());
    assert_eq!(tenant.deleted_at_ms, Some(2_000));

    let shown = format!("{}", uuid::Uuid::from_u128(response.tenant_id));
    assert_eq!(
        service.delete_tenant(response.tenant_id, 3_000).unwrap_err(),
        ControlPlaneError::TenantDeleted { tenant_id: shown.clone() }
    );
    assert_eq!(
        service.verify_tenant_access(response.tenant_id).unwrap_err(),
        ControlPlaneError::TenantDeleted { tenant_id: shown }
    );
}

#[test]
fn test_cluster_not_implemented() {
    let mut service = ProvisioningService::new(TenantRegistry::new());

    let result =
        service.create_tenant(request("cluster-tenant", Plan::Enterprise, IsolationModel::Cluster), 1);
    assert!(result.is_err());
    assert_eq!(
        result.unwrap_err(),
        ControlPlaneError::InvalidIsolationModel {
            model: "cluster".to_string(),
            reason: "Cluster isolation is not yet implemented".to_string(),
        }
    );
    // The tenant was entered before its isolation model was looked at.
    let entered = service.get_tenant_by_name("cluster-tenant").unwrap();
    assert_eq!(entered.status, TenantStatus::Provisioning);
}

#[test]
fn database_tenants_get_ports_and_lose_them_when_deleted() {
    let mut service = ProvisioningService::new(TenantRegistry::new());
    let first = service
        .create_tenant_with_ids(request("first", Plan::Pro, IsolationModel::Database), 10, 1, 11)
        .unwrap();
    let second = service
        .create_tenant_with_ids(request("second", Plan::Pro, IsolationModel::Database), 10, 2, 12)
        .unwrap();
    assert_eq!(first.tenant_id, 1);
    assert_eq!(first.api_key, "ak_0000000000000000000000000000000b");
    assert_eq!(first.database_url, "https://first.aerodb.com");
    let a = service.get_tenant(1).unwrap();
    let b = service.get_tenant(second.tenant_id).unwrap();
    assert_eq!(a.config.as_ref().unwrap().port, Some(50_000));
    assert_eq!(b.config.as_ref().unwrap().port, Some(50_001));
    assert_eq!(a.database_url, "http://localhost:50000");
    assert_eq!(
        a.config.as_ref().unwrap().data_dir,
        Some("/data/tenants/00000000-0000-0000-0000-000000000001".to_string())
    );
    assert!(a.is_active());

    service.suspend_tenant(1, 20).unwrap();
    assert_eq!(
        service.verify_tenant_access(1).unwrap_err(),
        ControlPlaneError::TenantSuspended {
            tenant_id: "00000000-0000-0000-0000-000000000001".to_string()
        }
    );
    service.activate_tenant(1, 30).unwrap();
    assert!(service.verify_tenant_access(1).is_ok());

    service.delete_tenant(1, 40).unwrap();
    assert!(service.registry().is_name_available("first"));
    assert!(service.delete_tenant(99, 40).is_err());
}

#[test]
fn a_refused_request_changes_nothing() {
    let mut service = ProvisioningService::new(TenantRegistry::new());
    assert!(matches!(
        service.create_tenant(request("Bad_Name", Plan::Free, IsolationModel::Schema), 1),
        Err(ControlPlaneError::InvalidTenantName { .. })
    ));
    assert_eq!(service.registry().count(), 0);
    service.create_tenant(request("taken", Plan::Free, IsolationModel::Schema), 1).unwrap();
    assert_eq!(
        service.create_tenant(request("taken", Plan::Pro, IsolationModel::Database), 2).unwrap_err(),
        ControlPlaneError::TenantNameExists { name: "taken".to_string() }
    );
    assert_eq!(service.registry().count(), 1);
}

// Billing

#[test]
fn test_base_pricing() {
    assert_eq!(base_price_dollars(&Plan::Free), 0);
    assert_eq!(base_price_dollars(&Plan::Pro), 25);
    assert_eq!(base_price_dollars(&Plan::Enterprise), 599);
    assert!(usage_is_charged(&Plan::Free));
    assert!(usage_is_charged(&Plan::Pro));
    assert!(!usage_is_charged(&Plan::Enterprise));
}

#[test]
fn test_free_tier_no_charges() {
    let mut usage = UsageMetrics::for_month(1, "2024-08".to_string());
    usage.api_requests = 5000;
    usage.storage_bytes = 100 * 1024 * 1024;
    usage.file_storage_bytes = 500 * 1024 * 1024;
    usage.egress_bytes = 1024 * 1024 * 1024;
    usage.function_invocations = 50_000;

    let charged = billable_usage(&usage);
    assert_eq!(line_count(&charged), 0);
    assert_eq!(
        charged,
        BillableUsage {
            api_requests: 0,
            storage_bytes: 0,
            file_storage_bytes: 0,
            egress_bytes: 0,
            function_invocations: 0,
            function_execution_ms: 0,
        }
    );
}

#[test]
fn test_usage_charges() {
    let mut usage = UsageMetrics::for_month(1, "2024-08".to_string());
    usage.api_requests = 2_010_000;
    usage.storage_bytes = 10 * 1024 * 1024 * 1024;

    let charged = billable_usage(&usage);
    assert_eq!(line_count(&charged), 2);
    assert_eq!(charged.api_requests, 2_000_000);
    assert_eq!(charged.storage_bytes, 10 * 1024 * 1024 * 1024 - 512 * 1024 * 1024);
}

#[test]
fn allowances_end_exactly_at_their_limits() {
    let mut usage = UsageMetrics::for_month(1, "2024-08".to_string());
    usage.api_requests = 10_000;
    usage.storage_bytes = 512 * 1024 * 1024;
    usage.file_storage_bytes = 1024 * 1024 * 1024;
    usage.egress_bytes = 2 * 1024 * 1024 * 1024;
    usage.function_invocations = 100_000;
    assert_eq!(line_count(&billable_usage(&usage)), 0);
    usage.api_requests += 1;
    usage.storage_bytes += 1;
    usage.file_storage_bytes += 1;
    usage.egress_bytes += 1;
    usage.function_invocations += 1;
    usage.function_execution_ms = 1;
    let charged = billable_usage(&usage);
    assert_eq!(line_count(&charged), 6);
    assert_eq!(
        charged,
        BillableUsage {
            api_requests: 1,
            storage_bytes: 1,
            file_storage_bytes: 1,
            egress_bytes: 1,
            function_invocations: 1,
            function_execution_ms: 1,
        }
    );
}
