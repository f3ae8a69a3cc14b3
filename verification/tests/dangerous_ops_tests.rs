use aerodb::dangerous_ops::{
    ConfirmationOutcome, ConfirmationResult, ConfirmationToken, DangerousOperation,
    DangerousOperationGuard,
};

#[test]
fn test_confirmation_token_creation() {
    let token = ConfirmationToken::new(
        DangerousOperation::DropCollection,
        "users".to_string(),
        "admin".to_string(),
        1_000,
    );
    assert_eq!(token.operation, DangerousOperation::DropCollection);
    assert_eq!(token.resource, "users");
    assert!(!token.is_expired(1_000));
}

#[test]
fn test_dangerous_operation_requires_phrase() {
    assert!(DangerousOperation::FactoryReset.requires_type_confirm());
    assert!(DangerousOperation::DropCollection.requires_type_confirm());
    assert!(!DangerousOperation::TruncateCollection.requires_type_confirm());
}

#[test]
fn test_guard_confirm() {
    let (mut guard, token) = DangerousOperationGuard::new(
        DangerousOperation::TruncateCollection,
        "posts".to_string(),
        "admin".to_string(),
        0,
    );
    assert!(!guard.is_confirmed());
    match guard.confirm(&token, 10) {
        ConfirmationResult::Confirmed => {}
        _ => panic!("Expected Confirmed"),
    }
    assert!(guard.is_confirmed());
}

#[test]
fn test_guard_phrase_confirm() {
    let (mut guard, token) = DangerousOperationGuard::new(
        DangerousOperation::DropCollection,
        "users".to_string(),
        "admin".to_string(),
        0,
    );
    match guard.confirm_with_phrase(&token, "wrong", 1) {
        ConfirmationResult::PhraseNotMatch { .. } => {}
        _ => panic!("Expected PhraseNotMatch"),
    }
    match guard.confirm_with_phrase(&token, "drop users", 2) {
        ConfirmationResult::Confirmed => {}
        _ => panic!("Expected Confirmed"),
    }
}

#[test]
fn factory_reset_needs_the_right_token_and_phrase() {
    let (mut guard, token) = DangerousOperationGuard::new(
        DangerousOperation::FactoryReset,
        "".to_string(),
        "operator".to_string(),
        0,
    );
    let mut wrong = token.clone();
    wrong.token = "00000000-0000-0000-0000-000000000000x".to_string();
    let r = guard.confirm_with_phrase(&wrong, "delete everything", 1);
    assert_eq!(r, ConfirmationResult::InvalidToken);
    assert_eq!(r.code(), Some("AERO_CONFIRM_INVALID"));
    assert!(!guard.is_confirmed());
    let r = guard.confirm_with_phrase(&token, "  Delete Everything \n", 2);
    assert_eq!(r, ConfirmationResult::Confirmed);
    assert_eq!(r.code(), None);
    assert!(guard.is_confirmed());
    assert_eq!(
        guard.audit_trail(),
        &vec![ConfirmationOutcome::InvalidToken, ConfirmationOutcome::Confirmed]
    );
}

#[test]
fn token_expires_after_five_minutes() {
    let (mut guard, token) = DangerousOperationGuard::new(
        DangerousOperation::TruncateCollection,
        "posts".to_string(),
        "admin".to_string(),
        1_000,
    );
    assert!(!token.is_expired(301_000));
    assert!(token.is_expired(301_001));
    assert!(token.is_expired(999));
    assert!(token.is_expired_after(1_011, 10));
    assert!(!token.is_expired_after(1_010, 10));
    assert_eq!(guard.confirm(&token, 301_001), ConfirmationResult::Expired);
    assert_eq!(guard.confirm(&token, 301_000), ConfirmationResult::Confirmed);
    assert_eq!(guard.audit_trail().len(), 2);
}

#[test]
fn token_for_another_resource_is_invalid() {
    let (mut guard, _token) = DangerousOperationGuard::new(
        DangerousOperation::DropCollection,
        "users".to_string(),
        "admin".to_string(),
        0,
    );
    let (_other_guard, other) = DangerousOperationGuard::new(
        DangerousOperation::DropCollection,
        "orders".to_string(),
        "admin".to_string(),
        0,
    );
    assert_eq!(guard.confirm(&other, 1), ConfirmationResult::InvalidToken);
    assert_eq!(guard.operation(), DangerousOperation::DropCollection);
    assert_eq!(guard.resource(), "users");
}

#[test]
fn wrong_phrase_withdraws_confirmation_and_reports_expected() {
    let (mut guard, token) = DangerousOperationGuard::new(
        DangerousOperation::ResetWal,
        "wal".to_string(),
        "admin".to_string(),
        0,
    );
    assert_eq!(guard.confirm_with_phrase(&token, " Reset WAL ", 1), ConfirmationResult::Confirmed);
    assert!(guard.is_confirmed());
    let r = guard.confirm_with_phrase(&token, "reset", 2);
    assert_eq!(r, ConfirmationResult::PhraseNotMatch { expected: "reset wal".to_string() });
    assert_eq!(r.code(), Some("AERO_CONFIRM_PHRASE_MISMATCH"));
    assert!(!guard.is_confirmed());
    assert!(guard.phrase_is_right("RESET WAL"));
    assert!(!guard.phrase_is_right("reset  wal"));
}

#[test]
fn phrase_is_not_needed_for_lesser_operations() {
    let (mut guard, token) = DangerousOperationGuard::new(
        DangerousOperation::CompactStorage,
        "".to_string(),
        "admin".to_string(),
        0,
    );
    assert_eq!(guard.confirm_with_phrase(&token, "anything", 1), ConfirmationResult::Confirmed);
}

#[test]
fn operation_texts() {
    assert_eq!(DangerousOperation::DropCollection.confirm_phrase("users"), "drop users");
    assert_eq!(DangerousOperation::FactoryReset.confirm_phrase("x"), "delete everything");
    assert_eq!(DangerousOperation::DeleteSchema.confirm_phrase("x"), "confirm");
    assert_eq!(DangerousOperation::FactoryReset.log_level(), "CRITICAL");
    assert_eq!(DangerousOperation::RestoreBackup.log_level(), "WARNING");
    assert_eq!(DangerousOperation::ForceFailover.log_level(), "INFO");
    assert_eq!(DangerousOperation::DeleteSchema.description(), "Delete the schema definition");
    assert!(DangerousOperation::ResetWal.warning().starts_with("DANGER"));
}

#[test]
fn fresh_tokens_are_hyphenated_uuids() {
    let a = ConfirmationToken::new(DangerousOperation::ResetWal, "w".into(), "u".into(), 0);
    let b = ConfirmationToken::new(DangerousOperation::ResetWal, "w".into(), "u".into(), 0);
    assert_eq!(a.token.len(), 36);
    assert_eq!(a.token.matches('-').count(), 4);
    assert_ne!(a.token, b.token);
}

#[test]
fn a_token_alone_does_not_confirm_what_needs_a_phrase() {
    for (operation, resource, phrase) in [
        (DangerousOperation::FactoryReset, "", "delete everything"),
        (DangerousOperation::ResetWal, "wal", "reset wal"),
        (DangerousOperation::DropCollection, "users", "drop users"),
    ] {
        let (mut guard, token) =
            DangerousOperationGuard::new(operation, resource.to_string(), "admin".to_string(), 0);
        let r = guard.confirm(&token, 1);
        assert_eq!(r, ConfirmationResult::NotProvided { warning: operation.warning().to_string() });
        assert_eq!(r.code(), Some("AERO_CONFIRM_REQUIRED"));
        assert!(!guard.is_confirmed());
        // An expired token and a token of another guard are told apart.
        assert_eq!(guard.confirm(&token, 300_001), ConfirmationResult::Expired);
        let (_, other) =
            DangerousOperationGuard::new(operation, resource.to_string(), "admin".to_string(), 0);
        assert_eq!(guard.confirm(&other, 2), ConfirmationResult::InvalidToken);
        assert!(!guard.is_confirmed());
        // Only the phrase confirms, and a token alone does not take the
        // confirmation back.
        assert_eq!(guard.confirm_with_phrase(&token, phrase, 3), ConfirmationResult::Confirmed);
        assert!(guard.is_confirmed());
        assert!(matches!(guard.confirm(&token, 4), ConfirmationResult::NotProvided { .. }));
        assert!(guard.is_confirmed());
        assert_eq!(
            guard.audit_trail(),
            &vec![
                ConfirmationOutcome::NotProvided,
                ConfirmationOutcome::Expired,
                ConfirmationOutcome::InvalidToken,
                ConfirmationOutcome::Confirmed,
                ConfirmationOutcome::NotProvided,
            ]
        );
    }
    for operation in [
        DangerousOperation::TruncateCollection,
        DangerousOperation::DeleteSchema,
        DangerousOperation::ForceFailover,
        DangerousOperation::RestoreBackup,
        DangerousOperation::CompactStorage,
    ] {
        let (mut guard, token) =
            DangerousOperationGuard::new(operation, "x".to_string(), "admin".to_string(), 0);
        assert_eq!(guard.confirm(&token, 1), ConfirmationResult::Confirmed);
        assert!(guard.is_confirmed());
    }
}
