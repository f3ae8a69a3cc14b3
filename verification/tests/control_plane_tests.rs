use aerodb::control_plane::errors::{ControlPlaneError, ErrorResponse};
use aerodb::control_plane::quota::{QuotaCheck, QuotaEnforcer, Quotas};
use aerodb::control_plane::tenant::{
    CreateTenantResponse, IsolationModel, Plan, Tenant, TenantConfig, TenantStatus,
};

#[test]
fn test_error_codes() {
    let err = ControlPlaneError::TenantNotFound { tenant_id: "test".to_string() };
    assert_eq!(err.status_code(), 404);
    assert_eq!(err.error_code(), "TENANT_NOT_FOUND");

    let err = ControlPlaneError::QuotaExceeded {
        tenant_id: "test".to_string(),
        resource: "storage".to_string(),
        used: 600,
        limit: 500,
    };
    assert_eq!(err.status_code(), 429);
    assert_eq!(err.error_code(), "QUOTA_EXCEEDED");
}

#[test]
fn test_free_tier_quotas() {
    let quotas = Quotas::free();
    assert_eq!(quotas.storage_bytes, 500 * 1024 * 1024);
    assert_eq!(quotas.api_requests_month, 10_000);
    assert_eq!(quotas.realtime_connections, 100);
}

#[test]
fn test_quota_enforcement() {
    let enforcer = QuotaEnforcer::new("test-tenant".to_string(), Quotas::free());
    assert!(enforcer.enforce_storage(100 * 1024 * 1024, 1024).is_ok());
    let result = enforcer.enforce_storage(500 * 1024 * 1024, 1024);
    assert!(result.is_err());
    if let Err(ControlPlaneError::QuotaExceeded { resource, .. }) = result {
        assert_eq!(resource, "storage");
    }
}

#[test]
fn test_quota_check() {
    let enforcer = QuotaEnforcer::new("test".to_string(), Quotas::free());
    let check = enforcer.check_api_requests(5000);
    assert!(check.allowed);
    assert_eq!(check.used, 5000);
    assert_eq!(check.remaining, 5000);

    let check = enforcer.check_api_requests(10_000);
    assert!(!check.allowed);
}

#[test]
fn test_create_tenant() {
    let tenant = Tenant::new(
        "acme-corp".to_string(),
        Plan::Pro,
        "us-east-1".to_string(),
        IsolationModel::Schema,
        1_700_000_000_000,
    );
    assert_eq!(tenant.name, "acme-corp");
    assert_eq!(tenant.plan, Plan::Pro);
    assert_eq!(tenant.isolation, IsolationModel::Schema);
    assert_eq!(tenant.status, TenantStatus::Provisioning);
    assert!(tenant.api_key.starts_with("ak_"));
    assert!(tenant.database_url.contains("acme-corp"));
}

#[test]
fn test_tenant_lifecycle() {
    let mut tenant = Tenant::new(
        "test".to_string(),
        Plan::Free,
        "local".to_string(),
        IsolationModel::Schema,
        0,
    );
    assert!(!tenant.is_active());
    assert!(!tenant.is_deleted());
    tenant.activate(1);
    assert!(tenant.is_active());
    tenant.suspend(2);
    assert!(!tenant.is_active());
    assert_eq!(tenant.status, TenantStatus::Suspended);
    tenant.mark_deleted(3);
    assert!(tenant.is_deleted());
}

#[test]
fn tenant_with_ids_is_exact() {
    let id = 0x0123456789abcdef_0011223344556677u128;
    let key = 0xffeeddccbbaa9988_7766554433221100u128;
    let mut tenant = Tenant::with_ids(
        "acme".to_string(),
        Plan::Enterprise,
        "eu".to_string(),
        IsolationModel::Database,
        42,
        id,
        key,
    );
    assert_eq!(tenant.tenant_id, id);
    assert_eq!(tenant.api_key, "ak_ffeeddccbbaa99887766554433221100");
    assert_eq!(tenant.database_url, "https://acme.aerodb.com");
    assert_eq!(tenant.created_at_ms, 42);
    assert_eq!(tenant.updated_at_ms, 42);
    assert_eq!(tenant.deleted_at_ms, None);
    let response = CreateTenantResponse::from_tenant(&tenant);
    assert_eq!(response.api_key, tenant.api_key);
    assert_eq!(response.tenant_id, id);
    tenant.set_config(
        TenantConfig {
            database_url: "http://localhost:9000".to_string(),
            port: Some(9000),
            data_dir: None,
            process_id: None,
        },
        50,
    );
    assert_eq!(tenant.database_url, "http://localhost:9000");
    assert_eq!(tenant.updated_at_ms, 50);
    assert_eq!(tenant.config.as_ref().unwrap().port, Some(9000));
    tenant.mark_deleted(60);
    assert_eq!(tenant.deleted_at_ms, Some(60));
    assert_eq!(tenant.status, TenantStatus::Deleted);
}

#[test]
fn names_of_plans_and_models() {
    assert_eq!(IsolationModel::Database.to_string(), "database");
    assert_eq!(IsolationModel::default(), IsolationModel::Schema);
    assert_eq!(Plan::Enterprise.to_string(), "enterprise");
    assert_eq!(Plan::default(), Plan::Free);
    assert_eq!(TenantStatus::default(), TenantStatus::Provisioning);
}

#[test]
fn quota_checks_are_exact_at_the_boundary() {
    let enforcer = QuotaEnforcer::new("t".to_string(), Quotas::free());
    let limit = 500 * 1024 * 1024;
    assert_eq!(enforcer.check_storage(limit - 10, 10), QuotaCheck::allowed(limit - 10, limit));
    assert_eq!(enforcer.check_storage(limit - 10, 11), QuotaCheck::denied(limit - 10, limit));
    assert_eq!(enforcer.check_storage(limit - 10, 10).remaining, 10);
    assert_eq!(enforcer.check_storage(u64::MAX, u64::MAX).allowed, false);
    assert!(enforcer.check_realtime_connections(99).allowed);
    assert!(!enforcer.check_realtime_connections(100).allowed);
    assert!(enforcer.check_document_size(1024 * 1024).allowed);
    assert!(!enforcer.check_document_size(1024 * 1024 + 1).allowed);
    assert!(enforcer.check_file_storage(1024 * 1024 * 1024, 0).allowed);
    assert!(!enforcer.check_file_storage(1024 * 1024 * 1024, 1).allowed);
    assert_eq!(
        enforcer.enforce_api_requests(10_000),
        Err(ControlPlaneError::QuotaExceeded {
            tenant_id: "t".to_string(),
            resource: "api_requests".to_string(),
            used: 10_000,
            limit: 10_000,
        })
    );
    assert!(matches!(
        enforcer.enforce_realtime_connections(100),
        Err(ControlPlaneError::QuotaExceeded { .. })
    ));
    assert!(matches!(
        enforcer.enforce_file_storage(u64::MAX, 1),
        Err(ControlPlaneError::QuotaExceeded { .. })
    ));
    assert!(enforcer.enforce_file_storage(0, 1).is_ok());
    assert_eq!(enforcer.quotas().max_collections, 20);
    let unlimited = QuotaEnforcer::new("e".to_string(), Quotas::unlimited());
    assert!(unlimited.check_storage(u64::MAX, u64::MAX).allowed);
    assert_eq!(Quotas::for_plan(&Plan::Pro), Quotas::pro());
    assert_eq!(Quotas::for_plan(&Plan::Enterprise), Quotas::enterprise());
    assert_eq!(Quotas::default(), Quotas::free());
    assert_eq!(Quotas::pro().max_document_size, 16 * 1024 * 1024);
    assert_eq!(QuotaCheck::allowed(7, 5).remaining, 0);
}

#[test]
fn control_plane_error_texts() {
    let err = ControlPlaneError::QuotaExceeded {
        tenant_id: "t1".to_string(),
        resource: "storage".to_string(),
        used: 600,
        limit: 500,
    };
    assert_eq!(err.to_string(), "Quota exceeded for t1 on storage: 600 / 500");
    let response = ErrorResponse::from_error(&err);
    assert_eq!(response.code, "QUOTA_EXCEEDED");
    assert_eq!(response.status, 429);
    assert_eq!(response.error, "Quota exceeded for t1 on storage: 600 / 500");
    assert_eq!(
        ControlPlaneError::InvalidTenantName { name: "A".into(), reason: "bad".into() }.to_string(),
        "Invalid tenant name 'A': bad"
    );
    assert_eq!(ControlPlaneError::TenantDeleted { tenant_id: "x".into() }.status_code(), 410);
    assert_eq!(ControlPlaneError::Internal { message: "x".into() }.error_code(), "INTERNAL_ERROR");
}
