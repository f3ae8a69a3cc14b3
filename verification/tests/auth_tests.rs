use aerodb::auth::errors::{AuthError, AuthResult};
use aerodb::auth::magic_link::{
    check_rate_limit, expiry, generate_token, hash_token, is_valid_email, magic_link_url, millis,
    update_rate_limit, AuthEvent, AuthHookHandler, AuthHookPayload, AuthHooks, MagicLinkConfig,
    MagicLinkService, RateLimitEntry,
};
use aerodb::auth::mfa::{
    base32_decode, base32_encode, generate_recovery_codes, generate_secret, generate_totp,
    generate_totp_uri, hash_recovery_code, hex_encode, recovery_code_from, verify_totp,
    InMemoryMfaRepository, MfaFactor, MfaFactorStatus, MfaFactorType, MfaService, TotpAlgorithm,
    TotpConfig,
};
use aerodb::auth::oauth::{
    authorization_url, unlink_decision, InMemoryOAuthRepository, OAuthIdentity, OAuthProvider,
    OAuthProviderConfig, OAuthService, OAuthState, OAuthUserInfo,
};
use aerodb::auth::user::{InMemoryUserRepository, User, UserRepository};
use std::cell::Cell;
use std::rc::Rc;

fn sample_user(id: u128, email: &str) -> User {
    User {
        id,
        email: email.to_string(),
        email_verified: true,
        password_hash: String::new(),
        name: None,
        avatar_url: None,
        created_at_ms: 1_700_000_000_000,
        updated_at_ms: 1_700_000_000_000,
    }
}

// Magic links

#[test]
fn test_email_validation() {
    assert!(is_valid_email("user@example.com"));
    assert!(is_valid_email("user.name@example.co.uk"));
    assert!(!is_valid_email("invalid"));
    assert!(!is_valid_email("@example.com"));
    assert!(!is_valid_email("user@"));
    assert!(!is_valid_email("user@.com"));
}

#[test]
fn email_needs_exactly_one_at_sign_and_an_inner_dot() {
    assert!(!is_valid_email("a@b@c.com"));
    assert!(!is_valid_email("user@example."));
    assert!(!is_valid_email("user@example"));
    assert!(!is_valid_email(""));
    assert!(is_valid_email("a@b.c"));
}

#[test]
fn test_token_hashing() {
    let token = "test_token_123";
    let hash1 = hash_token(token);
    let hash2 = hash_token(token);
    assert_eq!(hash1, hash2);
    assert_ne!(hash1, token);
    assert_eq!(hash1.len(), 64);
}

#[test]
fn token_hash_is_the_sha256_in_hex() {
    assert_eq!(
        hash_token("abc"),
        "ba7816bf8f01cfea414140de5dae2223b00361a396177a9cb410ff61f20015ad"
    );
    assert_eq!(
        hash_token(""),
        "e3b0c44298fc1c149afbf4c8996fb92427ae41e4649b934ca495991b7852b855"
    );
}

#[test]
fn generated_tokens_are_64_hex_digits_and_differ() {
    let a = generate_token();
    let b = generate_token();
    assert_eq!(a.len(), 64);
    assert!(a.chars().all(|c| c.is_ascii_hexdigit()));
    assert_ne!(a, b);
}

fn create_magic_service() -> MagicLinkService<InMemoryUserRepository> {
    MagicLinkService::new(MagicLinkConfig::default(), InMemoryUserRepository::new())
}

#[test]
fn test_request_magic_link() {
    let mut service = create_magic_service();
    assert!(service.request_magic_link("user@example.com", None, 1_000).is_ok());
    assert_eq!(service.pending_count(), 1);
}

#[test]
fn test_invalid_email_rejected() {
    let mut service = create_magic_service();
    let result = service.request_magic_link("invalid-email", None, 1_000);
    assert!(result.is_err());
    assert_eq!(
        result.unwrap_err(),
        AuthError::ValidationError("Invalid email format".to_string())
    );
    assert_eq!(service.pending_count(), 0);
}

#[test]
fn test_rate_limiting() {
    let mut config = MagicLinkConfig::default();
    config.rate_limit = 2;
    let mut service = MagicLinkService::new(config, InMemoryUserRepository::new());

    assert!(service.request_magic_link("user@example.com", None, 1_000).is_ok());
    assert!(service.request_magic_link("user@example.com", None, 1_001).is_ok());

    let result = service.request_magic_link("user@example.com", None, 1_002);
    assert!(matches!(result, Err(AuthError::RateLimitExceeded(_))));
}

#[test]
fn rate_limit_counts_addresses_without_regard_to_case_and_resets_after_an_hour() {
    let mut config = MagicLinkConfig::default();
    config.rate_limit = 1;
    let mut service = MagicLinkService::new(config, InMemoryUserRepository::new());
    assert!(service.request_magic_link("User@Example.com", None, 1_000).is_ok());
    assert!(matches!(
        service.request_magic_link("user@example.com", None, 1_500),
        Err(AuthError::RateLimitExceeded(_))
    ));
    // Another address is not held back.
    assert!(service.request_magic_link("other@example.com", None, 1_500).is_ok());
    // The window started at 1000: at 4600 it started exactly an hour ago.
    assert!(service.request_magic_link("user@example.com", None, 4_600).is_ok());
}

#[test]
fn test_cleanup_expired() {
    let mut service = create_magic_service();
    service.request_magic_link("user@example.com", None, 1_000).unwrap();
    assert_eq!(service.pending_count(), 1);

    // The link lasts 15 minutes: at its expiry time it counts as expired.
    service.cleanup_expired(1_000 + 15 * 60 - 1);
    assert_eq!(service.pending_count(), 1);
    service.cleanup_expired(1_000 + 15 * 60);
    assert_eq!(service.pending_count(), 0);
}

#[test]
fn a_new_link_replaces_the_earlier_link_of_the_address() {
    let mut service = create_magic_service();
    service.request_magic_link_with_token("user@example.com", None, "first", 1_000).unwrap();
    service.request_magic_link_with_token("other@example.com", None, "second", 1_000).unwrap();
    service.request_magic_link_with_token("user@example.com", None, "third", 1_001).unwrap();
    assert_eq!(service.pending_count(), 2);
    assert!(matches!(service.verify_magic_link("first", 1_002), Err(AuthError::TokenInvalid(_))));
    assert!(service.verify_magic_link("third", 1_002).is_ok());
}

#[test]
fn magic_link_mail_holds_the_link_with_the_encoded_token() {
    let mut service = create_magic_service();
    let mail = service
        .request_magic_link_with_token("user@example.com", Some("/home".to_string()), "a b/c", 1_000)
        .unwrap();
    assert_eq!(mail.link, "http://localhost:3000/auth/verify?token=a%20b%2Fc");
    assert_eq!(mail.user_email, "user@example.com");
    assert_eq!(mail.expires_minutes, 15);
    assert_eq!(service.get_redirect_url("a b/c"), Some("/home".to_string()));
    assert_eq!(service.get_redirect_url("unknown"), None);
}

#[test]
fn magic_link_signs_up_a_new_user_once() {
    let mut service = create_magic_service();
    service.request_magic_link_with_token("new@example.com", None, "tok", 1_000).unwrap();
    let (user, is_new) = service.verify_magic_link("tok", 1_100).unwrap();
    assert!(is_new);
    assert_eq!(user.email, "new@example.com");
    assert!(user.email_verified);
    assert_eq!(user.password_hash, "");
    assert_eq!(user.created_at_ms, 1_100_000);
    // The user is kept.
    let kept = service.user_repo().find_by_email("new@example.com").unwrap();
    assert_eq!(kept.map(|u| u.id), Some(user.id));
    // A link can be followed once.
    assert!(matches!(service.verify_magic_link("tok", 1_101), Err(AuthError::TokenInvalid(_))));
}

#[test]
fn magic_link_signs_in_an_existing_user() {
    let mut repo = InMemoryUserRepository::new();
    repo.create(&sample_user(77, "known@example.com")).unwrap();
    let mut service = MagicLinkService::new(MagicLinkConfig::default(), repo);
    service.request_magic_link_with_token("known@example.com", None, "tok", 1_000).unwrap();
    let (user, is_new) = service.verify_magic_link("tok", 1_001).unwrap();
    assert!(!is_new);
    assert_eq!(user.id, 77);
}

#[test]
fn expired_magic_link_is_refused_and_gone() {
    let mut service = create_magic_service();
    service.request_magic_link_with_token("user@example.com", None, "tok", 1_000).unwrap();
    let at_expiry = 1_000 + 15 * 60;
    assert_eq!(service.verify_magic_link("tok", at_expiry + 1), Err(AuthError::TokenExpired));
    assert_eq!(service.pending_count(), 0);
    assert!(matches!(service.verify_magic_link("tok", 1_001), Err(AuthError::TokenInvalid(_))));
}

#[test]
fn magic_link_is_still_good_at_its_expiry_time() {
    let mut service = create_magic_service();
    service.request_magic_link_with_token("user@example.com", None, "tok", 1_000).unwrap();
    assert!(service.verify_magic_link("tok", 1_000 + 15 * 60).is_ok());
}

#[test]
fn expiry_and_millis_stay_in_range() {
    assert_eq!(expiry(1_000, 15), 1_900);
    assert_eq!(expiry(i64::MAX, 1), i64::MAX);
    assert_eq!(expiry(i64::MIN, -1), i64::MIN);
    assert_eq!(expiry(0, i64::MAX), i64::MAX);
    assert_eq!(millis(12), 12_000);
    assert_eq!(millis(i64::MAX), i64::MAX);
    assert_eq!(millis(i64::MIN), i64::MIN);
}

#[test]
fn magic_link_url_encodes_the_token() {
    assert_eq!(
        magic_link_url("https://app.example", "a+b=c&d"),
        "https://app.example/auth/verify?token=a%2Bb%3Dc%26d"
    );
    assert_eq!(magic_link_url("x", "plain-token_1.~"), "x/auth/verify?token=plain-token_1.~");
}

#[test]
fn rate_limit_entry_rules() {
    let fresh = RateLimitEntry { count: 5, window_start_secs: 1_000 };
    assert!(check_rate_limit(None, 5, 2_000).is_ok());
    assert!(check_rate_limit(Some(fresh), 5, 2_000).is_err());
    assert!(check_rate_limit(Some(fresh), 6, 2_000).is_ok());
    // A window that started exactly an hour ago no longer counts.
    assert!(check_rate_limit(Some(fresh), 5, 4_600).is_ok());
    assert!(check_rate_limit(Some(fresh), 5, 4_599).is_err());

    assert_eq!(update_rate_limit(None, 50), RateLimitEntry { count: 1, window_start_secs: 50 });
    assert_eq!(
        update_rate_limit(Some(fresh), 2_000),
        RateLimitEntry { count: 6, window_start_secs: 1_000 }
    );
    assert_eq!(
        update_rate_limit(Some(fresh), 4_600),
        RateLimitEntry { count: 6, window_start_secs: 1_000 }
    );
    assert_eq!(
        update_rate_limit(Some(fresh), 4_601),
        RateLimitEntry { count: 1, window_start_secs: 4_601 }
    );
    let full = RateLimitEntry { count: u32::MAX, window_start_secs: 1_000 };
    assert_eq!(update_rate_limit(Some(full), 1_001).count, u32::MAX);
}

#[test]
fn test_auth_hook_payload() {
    let user = sample_user(9, "user@example.com");
    let payload = AuthHookPayload::new(AuthEvent::UserSignedIn, &user, 5)
        .with_metadata("{\"ip\":\"127.0.0.1\"}".to_string());

    assert_eq!(payload.event, AuthEvent::UserSignedIn);
    assert_eq!(payload.user_id, user.id);
    assert_eq!(payload.metadata, "{\"ip\":\"127.0.0.1\"}");
    assert_eq!(AuthHookPayload::new(AuthEvent::UserSignedIn, &user, 5).metadata, "{}");
}

struct CountingHandler(Rc<Cell<usize>>);

impl AuthHookHandler for CountingHandler {
    fn handle(&self, _payload: &AuthHookPayload) -> AuthResult<()> {
        self.0.set(self.0.get() + 1);
        Ok(())
    }
}

#[test]
fn test_auth_hooks_registry() {
    let counter = Rc::new(Cell::new(0usize));
    let mut hooks = AuthHooks::new();

    hooks.on(AuthEvent::UserSignedIn, CountingHandler(counter.clone()));

    let user = sample_user(9, "user@example.com");

    let payload = AuthHookPayload::new(AuthEvent::UserSignedIn, &user, 5);
    hooks.trigger(&payload);

    assert_eq!(counter.get(), 1);

    // Different event shouldn't trigger
    let payload2 = AuthHookPayload::new(AuthEvent::UserSignedUp, &user, 5);
    hooks.trigger(&payload2);

    assert_eq!(counter.get(), 1);
}

struct FailingHandler;

impl AuthHookHandler for FailingHandler {
    fn handle(&self, _payload: &AuthHookPayload) -> AuthResult<()> {
        Err(AuthError::UserNotFound)
    }
}

#[test]
fn a_failing_hook_does_not_stop_the_others() {
    let mut hooks = AuthHooks::new();
    hooks.on(AuthEvent::MfaVerified, FailingHandler);
    hooks.on(AuthEvent::MfaVerified, FailingHandler);
    hooks.on(AuthEvent::MfaEnrolled, FailingHandler);
    let user = sample_user(1, "u@example.com");
    assert_eq!(hooks.trigger(&AuthHookPayload::new(AuthEvent::MfaVerified, &user, 0)), 2);
    assert_eq!(hooks.trigger(&AuthHookPayload::new(AuthEvent::PasswordReset, &user, 0)), 0);
}

// Multi-factor authentication

#[test]
fn test_generate_secret() {
    let secret = generate_secret();
    assert_eq!(secret.len(), 32);
    assert!(secret.chars().all(|c| "ABCDEFGHIJKLMNOPQRSTUVWXYZ234567".contains(c)));
}

#[test]
fn test_base32_roundtrip() {
    let original = b"Hello, World!";
    let encoded = base32_encode(original);
    let decoded = base32_decode(&encoded).unwrap();
    assert_eq!(decoded, original);
}

#[test]
fn base32_known_values() {
    assert_eq!(base32_encode(b""), "");
    assert_eq!(base32_encode(b"f"), "MY");
    assert_eq!(base32_encode(b"fo"), "MZXQ");
    assert_eq!(base32_encode(b"foo"), "MZXW6");
    assert_eq!(base32_encode(b"foob"), "MZXW6YQ");
    assert_eq!(base32_encode(b"fooba"), "MZXW6YTB");
    assert_eq!(base32_encode(b"foobar"), "MZXW6YTBOI");
    assert_eq!(base32_encode(b"Hello"), "JBSWY3DP");
    assert_eq!(base32_decode("JBSWY3DP"), Some(b"Hello".to_vec()));
    assert_eq!(base32_decode("jbswy3dp"), Some(b"Hello".to_vec()));
    assert_eq!(base32_decode("MZXW6YTBOI"), Some(b"foobar".to_vec()));
    assert_eq!(base32_decode("JBSWY3D1"), None);
    assert_eq!(base32_decode("JBSW Y3DP"), None);
}

#[test]
fn test_generate_totp() {
    let secret = "JBSWY3DPEHPK3PXP";
    let config = TotpConfig::default();

    let code = generate_totp(secret, 59, &config).unwrap();
    assert_eq!(code.len(), 6);
    assert!(code.chars().all(|c| c.is_ascii_digit()));
}

#[test]
fn totp_matches_the_published_values() {
    // The secret is the text 12345678901234567890.
    let secret = base32_encode(b"12345678901234567890");
    assert_eq!(secret, "GEZDGNBVGY3TQOJQGEZDGNBVGY3TQOJQ");
    let mut config = TotpConfig::default();
    config.digits = 8;
    assert_eq!(generate_totp(&secret, 59, &config).unwrap(), "94287082");
    assert_eq!(generate_totp(&secret, 1111111109, &config).unwrap(), "07081804");
    assert_eq!(generate_totp(&secret, 1234567890, &config).unwrap(), "89005924");
    assert_eq!(generate_totp(&secret, 20000000000, &config).unwrap(), "65353130");
    config.digits = 6;
    assert_eq!(generate_totp(&secret, 59, &config).unwrap(), "287082");

    let mut sha256 = TotpConfig::default();
    sha256.digits = 8;
    sha256.algorithm = TotpAlgorithm::SHA256;
    let secret256 = base32_encode(b"12345678901234567890123456789012");
    assert_eq!(generate_totp(&secret256, 59, &sha256).unwrap(), "46119246");

    let mut sha512 = TotpConfig::default();
    sha512.digits = 8;
    sha512.algorithm = TotpAlgorithm::SHA512;
    let secret512 =
        base32_encode(b"1234567890123456789012345678901234567890123456789012345678901234");
    assert_eq!(generate_totp(&secret512, 59, &sha512).unwrap(), "90693936");
}

#[test]
fn totp_refuses_a_secret_that_is_not_base32() {
    let config = TotpConfig::default();
    assert!(matches!(generate_totp("not base32!", 59, &config), Err(AuthError::MfaError(_))));
}

#[test]
fn test_verify_totp() {
    let secret = generate_secret();
    let config = TotpConfig::default();
    let now: u64 = 1_700_000_000;

    let valid_code = generate_totp(&secret, now, &config).unwrap();
    assert!(verify_totp(&secret, &valid_code, &config, now).unwrap());

    // A code that is off in one digit fails.
    let mut other = valid_code.clone().into_bytes();
    other[0] = if other[0] == b'0' { b'1' } else { b'0' };
    let other = String::from_utf8(other).unwrap();
    assert!(!verify_totp(&secret, &other, &config, now).unwrap());
}

#[test]
fn totp_accepts_codes_within_the_skew_only() {
    let secret = "GEZDGNBVGY3TQOJQGEZDGNBVGY3TQOJQ";
    let config = TotpConfig::default();
    assert_eq!(config.skew, 1);
    assert_eq!(config.period, 30);
    let now: u64 = 1_700_000_000;
    let before = generate_totp(secret, now - 30, &config).unwrap();
    let after = generate_totp(secret, now + 30, &config).unwrap();
    let far = generate_totp(secret, now + 90, &config).unwrap();
    assert!(verify_totp(secret, &before, &config, now).unwrap());
    assert!(verify_totp(secret, &after, &config, now).unwrap());
    assert!(!verify_totp(secret, &far, &config, now).unwrap());
}

#[test]
fn test_generate_recovery_codes() {
    let codes = generate_recovery_codes(10);
    assert_eq!(codes.len(), 10);

    for code in &codes {
        assert_eq!(code.len(), 12);
        assert!(code.contains("-"));
    }

    let unique: std::collections::HashSet<_> = codes.iter().collect();
    assert_eq!(unique.len(), codes.len());
}

#[test]
fn recovery_code_format_and_hash() {
    assert_eq!(recovery_code_from(&[0x01, 0x23, 0x45, 0x67, 0x89]), "0123-4567-89");
    assert_eq!(recovery_code_from(&[0xab, 0xcd, 0xef, 0x00, 0xff]), "abcd-ef00-ff");
    assert_eq!(hex_encode(&[0x00, 0x0f, 0xf0, 0xff]), "000ff0ff");
    // The hash is taken of the code without its hyphens.
    assert_eq!(hash_recovery_code("0123-4567-89"), hash_recovery_code("0123456789"));
    assert_eq!(hash_recovery_code("abc"), hash_token("abc"));
}

#[test]
fn test_totp_uri() {
    let config = TotpConfig::default();
    let uri = generate_totp_uri("JBSWY3DPEHPK3PXP", "user@example.com", &config);

    assert!(uri.starts_with("otpauth://totp/"));
    assert!(uri.contains("user%40example.com"));
    assert!(uri.contains("secret=JBSWY3DPEHPK3PXP"));
    assert!(uri.contains("issuer=AeroDB"));
}

#[test]
fn totp_uri_in_full() {
    let config = TotpConfig::default();
    assert_eq!(
        generate_totp_uri("JBSWY3DPEHPK3PXP", "user@example.com", &config),
        "otpauth://totp/AeroDB:user%40example.com?secret=JBSWY3DPEHPK3PXP&issuer=AeroDB&algorithm=SHA1&digits=6&period=30"
    );
}

#[test]
fn test_mfa_factor_creation() {
    let user_id: u128 = 42;
    let factor = MfaFactor::new_totp(user_id, Some("My Phone".to_string()), 1_000);

    assert_eq!(factor.user_id, user_id);
    assert_eq!(factor.factor_type, MfaFactorType::TOTP);
    assert_eq!(factor.status, MfaFactorStatus::Unverified);
    assert!(!factor.is_active());
}

#[test]
fn test_mfa_service_enroll() {
    let mut service = MfaService::new(InMemoryMfaRepository::new(), TotpConfig::default());

    let (factor, uri) = service.enroll_totp(42, None, "user@example.com", 1_000).unwrap();

    assert_eq!(factor.status, MfaFactorStatus::Unverified);
    assert!(uri.starts_with("otpauth://totp/"));
}

#[test]
fn test_mfa_service_verify() {
    let config = TotpConfig::default();
    let mut service = MfaService::new(InMemoryMfaRepository::new(), config.clone());

    let user_id: u128 = 42;
    let (factor, _) = service.enroll_totp(user_id, None, "user@example.com", 1_000).unwrap();
    assert!(!service.is_mfa_enabled(user_id).unwrap());

    let now: u64 = 1_700_000_000;
    let valid_code = generate_totp(&factor.secret, now, &config).unwrap();
    assert!(service.verify_enrollment(factor.id, &valid_code, now, 2_000).unwrap());

    assert!(service.is_mfa_enabled(user_id).unwrap());
    assert!(service.verify_code(user_id, &valid_code, now).unwrap());
    assert!(service.verify_code(user_id + 1, &valid_code, now).is_err());

    service.disable_factor(factor.id, 3_000).unwrap();
    assert!(!service.is_mfa_enabled(user_id).unwrap());
    service.remove_factor(factor.id).unwrap();
    assert!(service.get_factors(user_id).unwrap().is_empty());
}

// OAuth

fn create_oauth_service() -> OAuthService<InMemoryUserRepository, InMemoryOAuthRepository> {
    let mut service =
        OAuthService::new(InMemoryUserRepository::new(), InMemoryOAuthRepository::new());

    service.register_provider(OAuthProviderConfig::google(
        "google-client-id".to_string(),
        "google-secret".to_string(),
        "http://localhost/callback".to_string(),
    ));
    service.register_provider(OAuthProviderConfig::github(
        "github-client-id".to_string(),
        "github-secret".to_string(),
        "http://localhost/callback".to_string(),
    ));

    service
}

#[test]
fn test_google_config() {
    let config = OAuthProviderConfig::google(
        "client-id".to_string(),
        "secret".to_string(),
        "http://localhost/callback".to_string(),
    );

    assert_eq!(config.provider, OAuthProvider::Google);
    assert!(config.scopes.contains(&"email".to_string()));
    assert_eq!(config.auth_url(), "https://accounts.google.com/o/oauth2/v2/auth");
}

#[test]
fn test_get_authorization_url() {
    let mut service = create_oauth_service();

    let (url, state) = service.get_authorization_url(OAuthProvider::Google, None, 1_000).unwrap();

    assert!(url.contains("accounts.google.com"));
    assert!(url.contains("client_id=google-client-id"));
    assert!(url.contains(&format!("state={}", state)));
}

#[test]
fn authorization_url_in_full() {
    let config = OAuthProviderConfig::github(
        "my id".to_string(),
        "secret".to_string(),
        "http://localhost/cb?x=1".to_string(),
    );
    let url = authorization_url(&config, "st&1");
    assert!(url.starts_with("https://github.com/login/oauth/authorize?"));
    assert!(url.contains("client_id=my%20id"));
    assert!(url.contains("redirect_uri=http%3A%2F%2Flocalhost%2Fcb%3Fx%3D1"));
    assert!(url.contains("state=st%261"));
    assert!(url.contains("response_type=code"));
}

#[test]
fn test_state_validation() {
    let mut service = create_oauth_service();

    let (_, state) = service
        .get_authorization_url(OAuthProvider::GitHub, Some("/dashboard".to_string()), 1_000)
        .unwrap();

    let validated = service.validate_state(&state, 1_001).unwrap();
    assert_eq!(validated.provider, OAuthProvider::GitHub);
    assert_eq!(validated.redirect_to, Some("/dashboard".to_string()));

    // State should be consumed
    assert!(service.validate_state(&state, 1_002).is_err());
}

#[test]
fn test_parse_google_user_info() {
    let info = OAuthUserInfo::from_google(
        "123456789".to_string(),
        Some("user@gmail.com".to_string()),
        Some(true),
        Some("Test User".to_string()),
        Some("https://example.com/photo.jpg".to_string()),
    );
    assert_eq!(info.provider, OAuthProvider::Google);
    assert_eq!(info.provider_id, "123456789");
    assert_eq!(info.email, Some("user@gmail.com".to_string()));
    assert!(info.email_verified);
}

#[test]
fn test_parse_github_user_info() {
    let info = OAuthUserInfo::from_github(
        12345,
        Some("user@github.com".to_string()),
        Some("GitHub User".to_string()),
        Some("https://avatars.githubusercontent.com/u/12345".to_string()),
    );
    assert_eq!(info.provider, OAuthProvider::GitHub);
    assert_eq!(info.provider_id, "12345");
    assert!(info.email_verified);
}

#[test]
fn test_parse_discord_user_info() {
    let info = OAuthUserInfo::from_discord(
        "987654321".to_string(),
        Some("user@discord.com".to_string()),
        Some(true),
        "DiscordUser".to_string(),
        Some("abc123".to_string()),
    );
    assert_eq!(info.provider, OAuthProvider::Discord);
    assert_eq!(info.provider_id, "987654321");
    assert!(info.avatar_url.clone().unwrap().contains("cdn.discordapp.com"));
    assert_eq!(
        info.avatar_url,
        Some("https://cdn.discordapp.com/avatars/987654321/abc123.png".to_string())
    );
}

#[test]
fn test_provider_not_configured() {
    let mut service =
        OAuthService::new(InMemoryUserRepository::new(), InMemoryOAuthRepository::new());

    let result = service.get_authorization_url(OAuthProvider::Google, None, 1_000);
    assert!(result.is_err());
}

#[test]
fn test_oauth_state_expiry() {
    let mut state = OAuthState::new(OAuthProvider::Google, None, 10_000);

    assert!(!state.is_expired(10_000, 600));

    // Simulate expired state
    state.created_at_secs = 10_000 - 700;
    assert!(state.is_expired(10_000, 600));
}

#[test]
fn oauth_state_expires_only_after_its_age() {
    let state = OAuthState::with_value("s".to_string(), OAuthProvider::Discord, None, 1_000);
    assert!(!state.is_expired(1_600, 600));
    assert!(state.is_expired(1_601, 600));
}

#[test]
fn oauth_user_is_made_once_and_found_again() {
    let mut service = create_oauth_service();
    let info = || {
        OAuthUserInfo::from_google(
            "sub-1".to_string(),
            Some("user@gmail.com".to_string()),
            Some(true),
            Some("Test User".to_string()),
            None,
        )
    };
    let (first, first_is_new) = service.handle_oauth_user(info(), 1_000).unwrap();
    let (second, second_is_new) = service.handle_oauth_user(info(), 2_000).unwrap();
    assert!(first_is_new);
    assert!(!second_is_new);
    assert_eq!(first.id, second.id);
    let linked = service.get_linked_providers(first.id).unwrap();
    assert_eq!(linked.len(), 1);
    assert_eq!(linked[0].provider, OAuthProvider::Google);
}

#[test]
fn the_last_way_to_sign_in_cannot_be_unlinked() {
    let info = OAuthUserInfo::from_github(5, None, None, None);
    let only = vec![OAuthIdentity::with_id(1, 2, &info, 0)];
    assert!(unlink_decision(&only, OAuthProvider::GitHub, false).is_err());
    assert!(unlink_decision(&only, OAuthProvider::GitHub, true).is_ok());
    assert!(unlink_decision(&only, OAuthProvider::Google, true).is_err());
}
