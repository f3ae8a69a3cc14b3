use aerodb::auth::errors::AuthError;
use aerodb::auth::magic_link::{MagicLinkConfig, MagicLinkService};
use aerodb::auth::mfa::{
    any_active, base32_decode, base32_encode, code_from_digest, compute_hmac, enrollment_verdict, hex_encode,
    verify_code_among, EnrollmentVerdict, MfaFactor, MfaFactorStatus, TotpAlgorithm, TotpConfig,
};
use aerodb::auth::oauth::{
    join_scopes, position_of_provider, provider_not_configured, token_request_params,
    InMemoryOAuthRepository, OAuthIdentity, OAuthProvider, OAuthProviderConfig, OAuthRepository,
    OAuthService, OAuthUserInfo,
};
use aerodb::auth::user::{InMemoryUserRepository, User, UserRepository};
use aerodb::backpressure::{BackpressureConfig, BackpressureError, BackpressureManager};
use aerodb::backup::errors::BackupError;
use aerodb::backup::manager::instant_text;
use aerodb::control_plane::database_provisioner::DatabaseProvisioner;
use aerodb::control_plane::metering::UsageTracker;
use aerodb::control_plane::provisioning::ProvisioningService;
use aerodb::control_plane::quota::sum_capped;
use aerodb::control_plane::registry::TenantRegistry;
use aerodb::control_plane::schema_provisioner::SchemaProvisioner;
use aerodb::control_plane::tenant::default_region;
use aerodb::dangerous_ops::{
    ConfirmationOutcome, ConfirmationResult, ConfirmationToken, DangerousOperation,
    DangerousOperationGuard,
};
use aerodb::migrations::checksum::{compute_checksum, crc32_by_definition, format_checksum};
use aerodb::migrations::errors::MigrationError;
use aerodb::resource_limits::{
    usage_percent_of, ResourceError, ResourceLimitsConfig, ResourceManager,
};
use aerodb::schema::{SchemaLoader, SchemaOp};
use aerodb::text::without_char;
use aerodb::wal::frame::append_bytes;

// Backpressure

#[test]
fn refusals_carry_their_retry_hints() {
    let connections = BackpressureError::ConnectionLimitReached { current: 2, limit: 2 };
    let queue = BackpressureError::QueueFull { current: 5, limit: 5 };
    let timeout = BackpressureError::QueueTimeout { waited_ms: 70, timeout_ms: 50 };
    let ops = BackpressureError::TooManyOpsPerConnection { current: 3, limit: 3 };
    assert_eq!(connections.retry_after_ms(), 1000);
    assert_eq!(queue.retry_after_ms(), 500);
    assert_eq!(timeout.retry_after_ms(), 100);
    assert_eq!(ops.retry_after_ms(), 100);
    for e in [connections, queue, timeout, ops] {
        assert!(e.is_retryable());
    }
}

#[test]
fn a_queued_operation_times_out_after_the_configured_wait() {
    let config = BackpressureConfig { queue_timeout_ms: 50, ..Default::default() };
    let mut manager = BackpressureManager::new(config);
    let queued = manager.try_enqueue(1_000).unwrap();
    assert_eq!(manager.current_queue_depth(), 1);
    assert_eq!(queued.wait_time_ms(1_020), 20);
    // A clock that went back counts as no wait.
    assert_eq!(queued.wait_time_ms(900), 0);
    assert_eq!(queued.check_timeout(1_000), Ok(()));
    assert_eq!(queued.check_timeout(1_050), Ok(()));
    assert_eq!(
        queued.check_timeout(1_051),
        Err(BackpressureError::QueueTimeout { waited_ms: 51, timeout_ms: 50 })
    );
    manager.release_queue_slot(queued);
    assert_eq!(manager.current_queue_depth(), 0);
}

#[test]
fn operations_of_a_connection_are_counted() {
    let config = BackpressureConfig { max_ops_per_connection: 1, ..Default::default() };
    let mut manager = BackpressureManager::new(config);
    let mut connection = manager.try_acquire_connection().unwrap();
    assert_eq!(connection.current_ops(), 0);
    let first = connection.try_start_operation(&mut manager).unwrap();
    assert_eq!(connection.current_ops(), 1);
    assert_eq!(
        connection.try_start_operation(&mut manager).err(),
        Some(BackpressureError::TooManyOpsPerConnection { current: 1, limit: 1 })
    );
    connection.finish_operation(&mut manager, first);
    assert_eq!(connection.current_ops(), 0);
    assert!(connection.try_start_operation(&mut manager).is_ok());
}

// Resources

#[test]
fn the_disk_check_alone_sets_read_only_mode() {
    let config = ResourceLimitsConfig { min_free_disk_bytes: 1_000, ..Default::default() };
    let mut manager = ResourceManager::new(config, "/t/a".to_string());
    assert_eq!(manager.check_disk_space(1_500, 500), Ok(()));
    assert!(manager.writes_allowed());
    assert_eq!(
        manager.check_disk_space(1_499, 500),
        Err(ResourceError::DiskFull { available: 1_499, required: 1_500 })
    );
    assert!(!manager.writes_allowed());
}

#[test]
fn usage_in_percent_is_rounded_down_and_capped() {
    assert_eq!(usage_percent_of(0, 0), 0);
    assert_eq!(usage_percent_of(5, 0), 0);
    assert_eq!(usage_percent_of(1, 3), 33);
    assert_eq!(usage_percent_of(2, 3), 66);
    assert_eq!(usage_percent_of(3, 3), 100);
    assert_eq!(usage_percent_of(u64::MAX, u64::MAX), 100);
    assert_eq!(usage_percent_of(u64::MAX - 1, u64::MAX), 99);
}

// Text and bytes

#[test]
fn a_character_is_taken_out_of_a_text() {
    assert_eq!(without_char("ab-cd-ef", '-'), "abcdef");
    assert_eq!(without_char("---", '-'), "");
    assert_eq!(without_char("", '-'), "");
    assert_eq!(without_char("a\u{e9}-\u{4e2d}", '\u{e9}'), "a-\u{4e2d}");
}

#[test]
fn bytes_are_appended_in_order() {
    let mut out = vec![1u8, 2];
    append_bytes(&mut out, &[3, 4, 5]);
    append_bytes(&mut out, &[]);
    assert_eq!(out, vec![1, 2, 3, 4, 5]);
}

// Tenants

#[test]
fn sums_of_usage_are_capped() {
    assert_eq!(sum_capped(2, 3), 5);
    assert_eq!(sum_capped(u64::MAX, 1), u64::MAX);
    assert_eq!(sum_capped(u64::MAX - 1, 1), u64::MAX);
}

#[test]
fn the_default_region() {
    assert_eq!(default_region(), "us-east-1");
}

#[test]
fn the_statements_that_make_a_tenant_schema() {
    let id: u128 = 0x12345678_1234_1234_1234_123456789012;
    let name = "tenant_12345678_1234_1234_1234_123456789012";
    assert_eq!(
        SchemaProvisioner::generate_schema_sql(id),
        vec![
            format!("CREATE SCHEMA IF NOT EXISTS {};", name),
            format!("GRANT USAGE ON SCHEMA {} TO authenticated;", name),
            format!("GRANT ALL ON ALL TABLES IN SCHEMA {} TO authenticated;", name),
        ]
    );
}

#[test]
fn a_service_can_be_made_of_its_parts() {
    let mut tracker = UsageTracker::new();
    tracker.record_api_request(7, "2026-01");
    let registry = TenantRegistry::with_usage_tracker(tracker);
    assert_eq!(registry.count(), 0);
    assert_eq!(registry.usage_tracker().get_usage(7, "2026-01").unwrap().api_requests, 1);
    let service = ProvisioningService::with_provisioners(
        registry,
        SchemaProvisioner::with_base_url("postgres://db/aero".to_string()),
        DatabaseProvisioner::new(),
    );
    assert_eq!(service.registry().count(), 0);
    assert_eq!(service.registry().usage_tracker().get_usage(7, "2026-01").unwrap().api_requests, 1);
}

// Backups

#[test]
fn a_backup_error_can_name_its_source() {
    let plain = BackupError::snapshot_failed("copy failed".to_string());
    assert_eq!(plain.source(), None);
    let code = plain.code();
    let with = plain.with_source("No space left on device".to_string());
    assert_eq!(with.code(), code);
    assert_eq!(with.message(), "copy failed");
    assert_eq!(with.source(), Some(&"No space left on device".to_string()));
}

#[test]
fn instants_are_written_in_utc() {
    assert_eq!(instant_text(0), Some("1970-01-01T00:00:00Z".to_string()));
    assert_eq!(instant_text(1_700_000_000), Some("2023-11-14T22:13:20Z".to_string()));
    assert_eq!(instant_text(-1), Some("1969-12-31T23:59:59Z".to_string()));
    assert_eq!(instant_text(i64::MAX), None);
}

// Dangerous operations

#[test]
fn a_guard_can_be_bound_to_a_token_that_is_at_hand() {
    let token = ConfirmationToken::with_token(
        DangerousOperation::FactoryReset,
        "".to_string(),
        "operator".to_string(),
        1_000,
        "11111111-2222-3333-4444-555555555555".to_string(),
    );
    assert_eq!(token.operation, DangerousOperation::FactoryReset);
    assert_eq!(token.created_at_ms, 1_000);
    let mut guard = DangerousOperationGuard::for_token(&token);
    assert!(!guard.is_confirmed());
    let refused = guard.confirm_with_checked_phrase(&token, false, 2_000);
    assert_eq!(
        refused,
        ConfirmationResult::PhraseNotMatch { expected: "delete everything".to_string() }
    );
    assert_eq!(refused.outcome(), ConfirmationOutcome::PhraseNotMatch);
    assert!(!guard.is_confirmed());
    let passed = guard.confirm_with_checked_phrase(&token, true, 2_000);
    assert_eq!(passed.outcome(), ConfirmationOutcome::Confirmed);
    assert!(guard.is_confirmed());
    // Five minutes after the token was made it is still good, then no more.
    assert_eq!(
        guard.confirm_with_checked_phrase(&token, true, 1_000 + 300_000),
        ConfirmationResult::Confirmed
    );
    assert_eq!(
        guard.confirm_with_checked_phrase(&token, true, 1_000 + 300_001),
        ConfirmationResult::Expired
    );
    assert_eq!(
        guard.audit_trail(),
        &vec![
            ConfirmationOutcome::PhraseNotMatch,
            ConfirmationOutcome::Confirmed,
            ConfirmationOutcome::Confirmed,
            ConfirmationOutcome::Expired,
        ]
    );
}

// Migrations

#[test]
fn errors_from_outside_keep_their_text() {
    assert_eq!(
        MigrationError::from_io_error("disk".to_string()),
        MigrationError::Internal { message: "disk".to_string() }
    );
    assert_eq!(
        MigrationError::from_yaml_error("bad indent".to_string()),
        MigrationError::ParseError { path: String::new(), message: "bad indent".to_string() }
    );
}

// Schemas

#[test]
fn schemas_are_listed_in_the_order_of_their_creation() {
    let mut schemas = SchemaLoader::new();
    assert!(schemas.schema(0).is_none());
    schemas.apply(&SchemaOp::Create { collection: b"b".to_vec(), required: vec![b"x".to_vec()] });
    schemas.apply(&SchemaOp::Create { collection: b"a".to_vec(), required: vec![] });
    assert_eq!(schemas.schema(0).unwrap().name, b"b".to_vec());
    assert_eq!(schemas.schema(0).unwrap().required, vec![b"x".to_vec()]);
    assert_eq!(schemas.schema(1).unwrap().name, b"a".to_vec());
    assert!(schemas.schema(2).is_none());
    schemas.apply(&SchemaOp::Rename { from: b"b".to_vec(), to: b"c".to_vec() });
    assert_eq!(schemas.schema(0).unwrap().name, b"c".to_vec());
    assert_eq!(schemas.schema(0).unwrap().required, vec![b"x".to_vec()]);
}

// Multi-factor authentication

#[test]
fn keyed_digests_are_the_published_ones() {
    let key = [0x0bu8; 20];
    let data = b"Hi There";
    assert_eq!(
        hex_encode(&compute_hmac(&key, data, TotpAlgorithm::SHA1)),
        "b617318655057264e28bc0b6fb378c8ef146be00"
    );
    assert_eq!(
        hex_encode(&compute_hmac(&key, data, TotpAlgorithm::SHA256)),
        "b0344c61d8db38535ca8afceaf0bf12b881dc200c9833da726e9376c2e32cff7"
    );
    assert_eq!(
        hex_encode(&compute_hmac(&key, data, TotpAlgorithm::SHA512)),
        "87aa7cdea5ef619d4ff0b4241a1d6cb02379f4e2ce4ec2787ad0b30545e17cde\
         daa833b7d6b8a702038b274eaea3f4e4be9d914eeb61f1702e696c203a126854"
    );
}

#[test]
fn a_code_is_cut_out_of_a_digest() {
    let digest: [u8; 20] = [
        0x1f, 0x86, 0x98, 0x69, 0x0e, 0x02, 0xca, 0x16, 0x61, 0x85, 0x50, 0xef, 0x7f, 0x19, 0xda,
        0x8e, 0x94, 0x5b, 0x55, 0x5a,
    ];
    // The last byte gives the offset 10; the four bytes there are 0x50ef7f19.
    assert_eq!(code_from_digest(&digest, 6), "872921");
    assert_eq!(code_from_digest(&digest, 9), "357872921");
    assert_eq!(code_from_digest(&digest, 1), "1");
    // With no digits asked for, the number is zero and is written as such.
    assert_eq!(code_from_digest(&digest, 0), "0");
    assert_eq!(code_from_digest(&[0u8; 20], 6), "000000");
}

fn eight_digits() -> TotpConfig {
    TotpConfig { digits: 8, skew: 0, ..TotpConfig::default() }
}

fn factor(id: u128, status: MfaFactorStatus, secret: String) -> MfaFactor {
    let mut factor = MfaFactor::with_secret(id, 1, None, secret, 0);
    factor.status = status;
    factor
}

#[test]
fn an_enrollment_is_activated_by_the_right_code_only() {
    let secret = base32_encode(b"12345678901234567890");
    let config = eight_digits();
    let fresh = factor(1, MfaFactorStatus::Unverified, secret.clone());
    assert_eq!(fresh.status, MfaFactorStatus::Unverified);
    assert_eq!(
        enrollment_verdict(&Some(fresh.clone()), "94287082", &config, 59),
        EnrollmentVerdict::Activate
    );
    assert_eq!(
        enrollment_verdict(&Some(fresh.clone()), "94287083", &config, 59),
        EnrollmentVerdict::Reject
    );
    assert_eq!(
        enrollment_verdict(&Some(fresh), "94287082", &config, 60),
        EnrollmentVerdict::Reject
    );
    assert_eq!(
        enrollment_verdict(&None, "94287082", &config, 59),
        EnrollmentVerdict::Fail(AuthError::MfaError("Factor not found".to_string()))
    );
    let verified = factor(1, MfaFactorStatus::Verified, secret);
    assert_eq!(
        enrollment_verdict(&Some(verified), "94287082", &config, 59),
        EnrollmentVerdict::Fail(AuthError::MfaError("Factor already verified".to_string()))
    );
    let broken = factor(1, MfaFactorStatus::Unverified, "not base32!".to_string());
    assert_eq!(
        enrollment_verdict(&Some(broken), "94287082", &config, 59),
        EnrollmentVerdict::Fail(AuthError::MfaError("Invalid secret".to_string()))
    );
}

#[test]
fn a_code_is_checked_against_the_first_active_factor() {
    let secret = base32_encode(b"12345678901234567890");
    let other = base32_encode(b"another secret of 20");
    let config = eight_digits();
    let none: Vec<MfaFactor> = vec![];
    assert!(!any_active(&none));
    assert_eq!(
        verify_code_among(&none, "94287082", &config, 59),
        Err(AuthError::MfaError("No active TOTP factor".to_string()))
    );
    let waiting = vec![
        factor(1, MfaFactorStatus::Unverified, secret.clone()),
        factor(2, MfaFactorStatus::Disabled, secret.clone()),
    ];
    assert!(!any_active(&waiting));
    assert_eq!(
        verify_code_among(&waiting, "94287082", &config, 59),
        Err(AuthError::MfaError("No active TOTP factor".to_string()))
    );
    let active = vec![
        factor(1, MfaFactorStatus::Unverified, other.clone()),
        factor(2, MfaFactorStatus::Verified, secret.clone()),
        factor(3, MfaFactorStatus::Verified, other),
    ];
    assert!(any_active(&active));
    assert_eq!(verify_code_among(&active, "94287082", &config, 59), Ok(true));
    assert_eq!(verify_code_among(&active, "94287082", &config, 60), Ok(false));
}

// OAuth

fn google() -> OAuthProviderConfig {
    OAuthProviderConfig::google("id".to_string(), "secret".to_string(), "http://h/cb".to_string())
}

#[test]
fn endpoints_are_the_providers_own_unless_set() {
    let mut config = google();
    assert_eq!(config.token_url(), "https://oauth2.googleapis.com/token");
    assert_eq!(config.userinfo_url(), "https://www.googleapis.com/oauth2/v3/userinfo");
    config.token_url = Some("http://h/token".to_string());
    config.userinfo_url = Some("http://h/me".to_string());
    assert_eq!(config.token_url(), "http://h/token");
    assert_eq!(config.userinfo_url(), "http://h/me");
}

#[test]
fn the_request_for_tokens() {
    let pair = |a: &str, b: &str| (a.to_string(), b.to_string());
    assert_eq!(
        token_request_params(&google(), "the code"),
        vec![
            pair("client_id", "id"),
            pair("client_secret", "secret"),
            pair("code", "the code"),
            pair("redirect_uri", "http://h/cb"),
            pair("grant_type", "authorization_code"),
        ]
    );
    assert_eq!(join_scopes(&vec![]), "");
    assert_eq!(join_scopes(&vec!["openid".to_string()]), "openid");
    assert_eq!(
        join_scopes(&vec!["openid".to_string(), "email".to_string(), "profile".to_string()]),
        "openid email profile"
    );
    assert_eq!(
        provider_not_configured(OAuthProvider::GitHub),
        AuthError::OAuthError("Provider github not configured".to_string())
    );
}

#[test]
fn the_first_identity_of_a_provider_is_found() {
    let github = OAuthUserInfo::from_github(5, None, None, None);
    let google = OAuthUserInfo::from_google("sub".to_string(), None, None, None, None);
    let identities = vec![
        OAuthIdentity::with_id(1, 9, &github, 0),
        OAuthIdentity::with_id(2, 9, &google, 0),
        OAuthIdentity::with_id(3, 9, &google, 0),
    ];
    assert_eq!(position_of_provider(&identities, OAuthProvider::GitHub), Some(0));
    assert_eq!(position_of_provider(&identities, OAuthProvider::Google), Some(1));
    assert_eq!(position_of_provider(&identities, OAuthProvider::Discord), None);
    assert_eq!(position_of_provider(&vec![], OAuthProvider::Google), None);
}

fn user(id: u128, email: &str, password_hash: &str) -> User {
    User {
        id,
        email: email.to_string(),
        email_verified: true,
        password_hash: password_hash.to_string(),
        name: None,
        avatar_url: None,
        created_at_ms: 0,
        updated_at_ms: 0,
    }
}

#[test]
fn an_account_is_linked_to_one_user_only() {
    let mut users = InMemoryUserRepository::new();
    users.create(&user(1, "a@example.com", "hash")).unwrap();
    users.create(&user(2, "b@example.com", "")).unwrap();
    let mut service = OAuthService::new(users, InMemoryOAuthRepository::new());
    let account = || OAuthUserInfo::from_github(5, Some("a@example.com".to_string()), None, None);

    assert_eq!(service.link_provider(3, account(), 1_000), Err(AuthError::UserNotFound));
    let linked = service.link_provider(1, account(), 1_000).unwrap();
    assert_eq!(linked.user_id, 1);
    assert_eq!(linked.provider, OAuthProvider::GitHub);
    assert_eq!(linked.provider_id, "5");
    // Linking again gives the identity that is there.
    assert_eq!(service.link_provider(1, account(), 2_000).unwrap().id, linked.id);
    assert_eq!(service.get_linked_providers(1).unwrap().len(), 1);
    assert_eq!(
        service.link_provider(2, account(), 3_000),
        Err(AuthError::OAuthError(
            "This provider account is already linked to another user".to_string()
        ))
    );

    assert_eq!(
        service.unlink_provider(1, OAuthProvider::Google),
        Err(AuthError::OAuthError("Provider not linked".to_string()))
    );
    assert_eq!(service.unlink_provider(1, OAuthProvider::GitHub), Ok(()));
    assert!(service.get_linked_providers(1).unwrap().is_empty());

    // A user without a password keeps the last account.
    let other = OAuthUserInfo::from_github(6, None, None, None);
    service.link_provider(2, other, 4_000).unwrap();
    assert!(service.unlink_provider(2, OAuthProvider::GitHub).is_err());
    assert_eq!(service.get_linked_providers(2).unwrap().len(), 1);
}

// Magic links

#[test]
fn the_steps_of_a_magic_link_can_be_taken_one_by_one() {
    let mut service =
        MagicLinkService::new(MagicLinkConfig::default(), InMemoryUserRepository::new());
    assert_eq!(service.check_request("user@example.com", 1_000), Ok(()));
    assert_eq!(
        service.check_request("no address", 1_000),
        Err(AuthError::ValidationError("Invalid email format".to_string()))
    );
    let mail = service.issue("user@example.com", Some("/home".to_string()), "tok", None, 1_000);
    assert_eq!(mail.user_email, "user@example.com");
    assert_eq!(mail.expires_minutes, 15);
    assert!(mail.link.ends_with("token=tok"));
    assert_eq!(service.pending_count(), 1);

    assert_eq!(
        service.take_token("other", 1_000),
        Err(AuthError::TokenInvalid("Invalid or expired magic link".to_string()))
    );
    assert_eq!(service.pending_count(), 1);
    let entry = service.take_token("tok", 1_000 + 15 * 60).unwrap();
    assert_eq!(entry.email, "user@example.com");
    assert_eq!(entry.user_id, None);
    assert!(entry.is_signup);
    assert_eq!(entry.redirect_to, Some("/home".to_string()));
    assert_eq!(entry.expires_at_secs, 1_000 + 15 * 60);
    assert_eq!(service.pending_count(), 0);

    let made = MagicLinkService::<InMemoryUserRepository>::signed_up_user(&entry, 7, 2_000);
    assert_eq!(made.id, 7);
    assert_eq!(made.email, "user@example.com");
    assert!(made.email_verified);
    assert_eq!(made.password_hash, "");
    assert_eq!(made.created_at_ms, 2_000_000);
    assert_eq!(made.updated_at_ms, 2_000_000);

    // A link that is taken too late is gone all the same.
    service.issue("user@example.com", None, "late", Some(7), 1_000);
    assert_eq!(service.take_token("late", 1_000 + 15 * 60 + 1), Err(AuthError::TokenExpired));
    assert_eq!(service.pending_count(), 0);
}

#[test]
fn the_tokens_of_an_identity_are_replaced() {
    let mut repo = InMemoryOAuthRepository::new();
    let info = OAuthUserInfo::from_github(5, None, None, None);
    let first = repo.create(OAuthIdentity::with_id(1, 9, &info, 100)).unwrap();
    let second = repo.create(OAuthIdentity::with_id(2, 9, &info, 100)).unwrap();
    assert_eq!(repo.update_tokens(1, Some("access".to_string()), None, 200), Ok(()));
    let kept = repo.find_by_user_id(9).unwrap();
    assert_eq!(
        kept,
        vec![
            OAuthIdentity {
                access_token: Some("access".to_string()),
                refresh_token: None,
                updated_at_ms: 200,
                ..first
            },
            second,
        ]
    );
    // Tokens for an identity that is not kept change nothing.
    assert_eq!(
        repo.update_tokens(3, Some("other".to_string()), Some("more".to_string()), 300),
        Ok(())
    );
    assert_eq!(repo.find_by_user_id(9).unwrap(), kept);
    assert_eq!(repo.update_tokens(2, None, Some("refresh".to_string()), 400), Ok(()));
    let kept = repo.find_by_user_id(9).unwrap();
    assert_eq!(kept[1].refresh_token, Some("refresh".to_string()));
    assert_eq!(kept[1].updated_at_ms, 400);
    assert_eq!(kept[0].updated_at_ms, 200);
}

#[test]
fn the_fast_checksum_is_the_checksum_by_definition() {
    assert_eq!(crc32_by_definition(b"123456789"), 0xCBF4_3926);
    assert_eq!(crc32_by_definition(b""), 0);
    assert_eq!(compute_checksum("123456789"), "crc32:CBF43926");
    let mut content = String::new();
    for round in 0..40 {
        assert_eq!(
            compute_checksum(&content),
            format_checksum(crc32_by_definition(content.as_bytes())),
            "at {}",
            round
        );
        content.push_str("name: m\u{e9}\n  - create_collection: \u{4e2d}\n");
        content.push(char::from(b'a' + (round % 26) as u8));
    }
}

#[test]
fn base32_texts_stand_for_their_bytes() {
    let mut bytes: Vec<u8> = Vec::new();
    for n in 0..70u32 {
        assert_eq!(base32_decode(&base32_encode(&bytes)), Some(bytes.clone()), "at {}", n);
        bytes.push((n * 37 + 11) as u8);
    }
    assert_eq!(base32_encode(b"foobar"), "MZXW6YTBOI");
    assert_eq!(base32_decode("mzxw6ytboi======"), Some(b"foobar".to_vec()));
    assert_eq!(base32_decode("MZXW6YTB0I"), None);
}
